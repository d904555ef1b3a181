//! The conversions between domain values and protocol messages: for each
//! pair, an executable function in each direction whose contract gives its
//! result through a spec function, and the laws that relate the two.

pub mod certificates;
pub mod requests;
pub mod values;

use crate::domain::NodeError;
use vstd::prelude::*;

verus! {

#[verifier::external_type_specification]
#[verifier::external_body]
pub struct ExBincodeErrorKind(bincode::ErrorKind);

#[verifier::external_type_specification]
#[verifier::external_body]
pub struct ExSignatureError(ed25519_dalek::SignatureError);

/// Failures of the cryptographic value parsers.
#[derive(Debug, Clone, Copy, PartialEq, Eq, Structural)]
pub enum CryptoError {
    /// A hash was given as a byte string whose length, held here, is not 32.
    IncorrectHashSize(usize),
    /// The bytes are not the SEC1 encoding of a secp256k1 public key.
    InvalidValidatorPublicKey,
    /// The bytes are not a secp256k1 ECDSA signature in `r || s` form.
    InvalidValidatorSignature,
}

/// Why a message could not be converted.
#[derive(Debug)]
pub enum GrpcProtoConversionError {
    BincodeError(bincode::Error),
    MissingField,
    SignatureError(ed25519_dalek::SignatureError),
    CryptoError(CryptoError),
    InconsistentChainId,
    InvalidCertificateType,
}

impl From<bincode::Error> for GrpcProtoConversionError {
    fn from(error: bincode::Error) -> (res: Self) {
        GrpcProtoConversionError::BincodeError(error)
    }
}

impl vstd::std_specs::convert::FromSpecImpl<bincode::Error> for GrpcProtoConversionError {
    open spec fn obeys_from_spec() -> bool {
        true
    }

    open spec fn from_spec(error: bincode::Error) -> Self {
        GrpcProtoConversionError::BincodeError(error)
    }
}

impl From<CryptoError> for GrpcProtoConversionError {
    fn from(error: CryptoError) -> (res: Self) {
        GrpcProtoConversionError::CryptoError(error)
    }
}

impl vstd::std_specs::convert::FromSpecImpl<CryptoError> for GrpcProtoConversionError {
    open spec fn obeys_from_spec() -> bool {
        true
    }

    open spec fn from_spec(error: CryptoError) -> Self {
        GrpcProtoConversionError::CryptoError(error)
    }
}

impl From<ed25519_dalek::SignatureError> for GrpcProtoConversionError {
    fn from(error: ed25519_dalek::SignatureError) -> (res: Self) {
        GrpcProtoConversionError::SignatureError(error)
    }
}

impl vstd::std_specs::convert::FromSpecImpl<ed25519_dalek::SignatureError> for GrpcProtoConversionError {
    open spec fn obeys_from_spec() -> bool {
        true
    }

    open spec fn from_spec(error: ed25519_dalek::SignatureError) -> Self {
        GrpcProtoConversionError::SignatureError(error)
    }
}

/// The kind of a conversion error, without the payloads that come from
/// outside crates: the model in which contracts state which error a
/// conversion gives.
#[derive(Debug, Clone, Copy, PartialEq, Eq, Structural)]
pub enum Failure {
    Bincode,
    MissingField,
    Signature,
    Crypto(CryptoError),
    InconsistentChainId,
    InvalidCertificateType,
}

impl GrpcProtoConversionError {
    pub open spec fn failure(&self) -> Failure {
        match self {
            GrpcProtoConversionError::BincodeError(_) => Failure::Bincode,
            GrpcProtoConversionError::MissingField => Failure::MissingField,
            GrpcProtoConversionError::SignatureError(_) => Failure::Signature,
            GrpcProtoConversionError::CryptoError(e) => Failure::Crypto(*e),
            GrpcProtoConversionError::InconsistentChainId => Failure::InconsistentChainId,
            GrpcProtoConversionError::InvalidCertificateType => Failure::InvalidCertificateType,
        }
    }
}

/// The outcome of a conversion, seen through the views of its value and the
/// kind of its error.
pub open spec fn outcome<T: View>(r: Result<T, GrpcProtoConversionError>) -> Result<T::V, Failure> {
    match r {
        Ok(v) => Ok(v@),
        Err(e) => Err(e.failure()),
    }
}

/// Reads a field that the protocol marks optional but the conversion needs:
/// a missing field is reported as such.
pub open spec fn parse_required<T, U>(
    field: Option<T>,
    parse: spec_fn(T) -> Result<U, Failure>,
) -> Result<U, Failure> {
    match field {
        Some(v) => parse(v),
        None => Err(Failure::MissingField),
    }
}

/// Takes the value of a field that the conversion needs, failing with
/// `MissingField` when it is absent.
pub fn require<T>(field: Option<T>) -> (res: Result<T, GrpcProtoConversionError>)
    ensures
        field matches Some(v) ==> (res matches Ok(w) && w == v),
        field is None ==> (res matches Err(e) && e.failure() == Failure::MissingField),
{
    match field {
        Some(v) => Ok(v),
        None => Err(GrpcProtoConversionError::MissingField),
    }
}

/// Reads each message of a list in turn, the first failure being the one
/// reported.
pub open spec fn parse_all<T, U>(ms: Seq<T>, parse: spec_fn(T) -> Result<U, Failure>) -> Result<
    Seq<U>,
    Failure,
>
    decreases ms.len(),
{
    if ms.len() == 0 {
        Ok(Seq::empty())
    } else {
        match parse_all(ms.drop_last(), parse) {
            Err(e) => Err(e),
            Ok(vs) => match parse(ms.last()) {
                Err(e) => Err(e),
                Ok(v) => Ok(vs.push(v)),
            },
        }
    }
}

/// Once a prefix of a list fails to read, the whole list fails with the same
/// failure.
pub proof fn lemma_parse_all_failure_persists<T, U>(
    ms: Seq<T>,
    parse: spec_fn(T) -> Result<U, Failure>,
    k: int,
)
    requires
        0 <= k <= ms.len(),
        parse_all(ms.take(k), parse) is Err,
    ensures
        parse_all(ms, parse) == parse_all(ms.take(k), parse),
    decreases ms.len() - k,
{
    if k < ms.len() {
        assert(ms.take(k + 1).drop_last() =~= ms.take(k));
        lemma_parse_all_failure_persists(ms, parse, k + 1);
    } else {
        assert(ms.take(k) =~= ms);
    }
}

/// Reading a list whose elements each read as the corresponding value gives
/// the list of values.
pub proof fn lemma_parse_all_elementwise<T, U>(
    ms: Seq<T>,
    vs: Seq<U>,
    parse: spec_fn(T) -> Result<U, Failure>,
)
    requires
        ms.len() == vs.len(),
        forall|i: int| 0 <= i < ms.len() ==> parse(#[trigger] ms[i]) == Ok::<U, Failure>(vs[i]),
    ensures
        parse_all(ms, parse) == Ok::<Seq<U>, Failure>(vs),
    decreases ms.len(),
{
    if ms.len() > 0 {
        let (ms0, vs0) = (ms.drop_last(), vs.drop_last());
        assert forall|i: int| 0 <= i < ms0.len() implies parse(#[trigger] ms0[i]) == Ok::<U, Failure>(vs0[i]) by {
            assert(ms0[i] == ms[i]);
        }
        lemma_parse_all_elementwise(ms0, vs0, parse);
        assert(parse(ms.last()) == Ok::<U, Failure>(vs[vs.len() - 1]));
        assert(vs0.push(vs[vs.len() - 1]) =~= vs);
    } else {
        assert(vs =~= Seq::<U>::empty());
    }
}

// ---------------------------------------------------------------- messages

/// The character of a decimal digit.
pub open spec fn digit_char(d: nat) -> char {
    ((48 + d) as u32) as char
}

/// The decimal numeral of `n`, without leading zeros.
pub open spec fn decimal(n: nat) -> Seq<char>
    decreases n,
{
    if n < 10 {
        seq![digit_char(n)]
    } else {
        decimal(n / 10) + seq![digit_char(n % 10)]
    }
}

fn digit_str(d: usize) -> (res: &'static str)
    requires
        d < 10,
    ensures
        res@ == seq![digit_char(d as nat)],
{
    proof {
        reveal_strlit("0");
        reveal_strlit("1");
        reveal_strlit("2");
        reveal_strlit("3");
        reveal_strlit("4");
        reveal_strlit("5");
        reveal_strlit("6");
        reveal_strlit("7");
        reveal_strlit("8");
        reveal_strlit("9");
    }
    match d {
        0 => "0",
        1 => "1",
        2 => "2",
        3 => "3",
        4 => "4",
        5 => "5",
        6 => "6",
        7 => "7",
        8 => "8",
        _ => "9",
    }
}

/// The decimal numeral of `n`.
pub fn decimal_string(n: usize) -> (res: String)
    ensures
        res@ == decimal(n as nat),
    decreases n,
{
    if n < 10 {
        String::from_str(digit_str(n))
    } else {
        let mut s = decimal_string(n / 10);
        s.append(digit_str(n % 10));
        s
    }
}

impl CryptoError {
    /// The text of the error.
    pub open spec fn text(self) -> Seq<char> {
        match self {
            CryptoError::IncorrectHashSize(n) => "Byte slice has length "@ + decimal(n as nat)
                + " but a `CryptoHash` requires exactly 32 bytes"@,
            CryptoError::InvalidValidatorPublicKey => "Invalid secp256k1 public key"@,
            CryptoError::InvalidValidatorSignature => "Invalid secp256k1 signature"@,
        }
    }

    /// The text of the error.
    pub fn message(&self) -> (res: String)
        ensures
            res@ == self.text(),
    {
        match self {
            CryptoError::IncorrectHashSize(n) => {
                let mut s = String::from_str("Byte slice has length ");
                let d = decimal_string(*n);
                s.append(d.as_str());
                s.append(" but a `CryptoHash` requires exactly 32 bytes");
                s
            },
            CryptoError::InvalidValidatorPublicKey => String::from_str("Invalid secp256k1 public key"),
            CryptoError::InvalidValidatorSignature => String::from_str("Invalid secp256k1 signature"),
        }
    }
}

impl GrpcProtoConversionError {
    /// The text of the error where the library writes it whole: every error
    /// but those that carry an outside crate's error, whose text comes from
    /// that crate.
    pub open spec fn known_text(&self) -> Option<Seq<char>> {
        match self {
            GrpcProtoConversionError::BincodeError(_) => None,
            GrpcProtoConversionError::MissingField => Some("Conversion failed due to missing field"@),
            GrpcProtoConversionError::SignatureError(_) => None,
            GrpcProtoConversionError::CryptoError(c) => Some("Cryptographic error: "@ + c.text()),
            GrpcProtoConversionError::InconsistentChainId => Some(
                "Inconsistent outer/inner chain IDs"@,
            ),
            GrpcProtoConversionError::InvalidCertificateType => Some(
                "Unrecognized certificate type"@,
            ),
        }
    }

    /// Whether `text` is a text this error can have: its known text, or, for
    /// a signature error, the prefix `Signature error: ` followed by the
    /// inner error's text.
    pub open spec fn has_text(&self, text: Seq<char>) -> bool {
        match self.known_text() {
            Some(t) => text == t,
            None => self is SignatureError ==> exists|inner: Seq<char>|
                text == "Signature error: "@ + inner,
        }
    }

    /// The text of the error. That of a bincode error is the text bincode
    /// gives it; that of a signature error ends with the text `ed25519_dalek`
    /// gives the inner error.
    pub fn message(&self) -> (res: String)
        ensures
            self.has_text(res@),
    {
        match self {
            GrpcProtoConversionError::BincodeError(e) => e.to_string(),
            GrpcProtoConversionError::MissingField => String::from_str(
                "Conversion failed due to missing field",
            ),
            GrpcProtoConversionError::SignatureError(e) => {
                let mut s = String::from_str("Signature error: ");
                let inner = e.to_string();
                s.append(inner.as_str());
                s
            },
            GrpcProtoConversionError::CryptoError(c) => {
                let mut s = String::from_str("Cryptographic error: ");
                let inner = c.message();
                s.append(inner.as_str());
                s
            },
            GrpcProtoConversionError::InconsistentChainId => String::from_str(
                "Inconsistent outer/inner chain IDs",
            ),
            GrpcProtoConversionError::InvalidCertificateType => String::from_str(
                "Unrecognized certificate type",
            ),
        }
    }
}

/// The error a node reports for a message it could not convert: a gRPC
/// error with the conversion error's text.
pub fn into_node_error(error: GrpcProtoConversionError) -> (res: NodeError)
    ensures
        res matches NodeError::GrpcError { error: text } && error.has_text(text@),
{
    NodeError::GrpcError { error: error.message() }
}

/// The kind of an error is its variant: each variant has its own kind, and
/// a cryptographic error's kind carries that error.
pub proof fn law_failure_is_the_variant(e: GrpcProtoConversionError)
    ensures
        e is BincodeError <==> e.failure() == Failure::Bincode,
        e is MissingField <==> e.failure() == Failure::MissingField,
        e is SignatureError <==> e.failure() == Failure::Signature,
        e is InconsistentChainId <==> e.failure() == Failure::InconsistentChainId,
        e is InvalidCertificateType <==> e.failure() == Failure::InvalidCertificateType,
        e is CryptoError <==> e.failure() is Crypto,
        e matches GrpcProtoConversionError::CryptoError(c) ==> e.failure() == Failure::Crypto(c),
{
}

/// A field read with `parse_required` is missing exactly when it is absent,
/// and otherwise gives what reading its value gives.
pub proof fn law_parse_required<T, U>(field: Option<T>, parse: spec_fn(T) -> Result<U, Failure>)
    ensures
        field is None ==> parse_required(field, parse) == Err::<U, Failure>(Failure::MissingField),
        field matches Some(v) ==> parse_required(field, parse) == parse(v),
{
}

/// The value of a numeral written in decimal digits.
pub open spec fn numeral_value(s: Seq<char>) -> nat
    decreases s.len(),
{
    if s.len() == 0 {
        0
    } else {
        numeral_value(s.drop_last()) * 10 + ((s.last() as nat) - 48) as nat
    }
}

/// The character of a digit is the digit's code point.
proof fn lemma_digit_char(d: nat)
    requires
        d < 10,
    ensures
        digit_char(d) as nat == 48 + d,
        '0' <= digit_char(d) <= '9',
        d > 0 ==> digit_char(d) != '0',
{
}

/// The decimal numeral of `n` is made of the digits `0` to `9`, has no
/// leading zero unless it is `0` itself, and has the value `n`.
pub proof fn law_decimal_numeral(n: nat)
    ensures
        forall|i: int| 0 <= i < decimal(n).len() ==> '0' <= #[trigger] decimal(n)[i] <= '9',
        decimal(n).len() >= 1,
        n > 0 ==> decimal(n)[0] != '0',
        n == 0 ==> decimal(n) == seq!['0'],
        numeral_value(decimal(n)) == n,
    decreases n,
{
    lemma_digit_char(n % 10);
    if n >= 10 {
        law_decimal_numeral(n / 10);
        let d = decimal(n);
        assert(d.drop_last() =~= decimal(n / 10));
        assert(d.last() == digit_char(n % 10));
        assert forall|i: int| 0 <= i < d.len() implies '0' <= #[trigger] d[i] <= '9' by {
            if i < d.len() - 1 {
                assert(d[i] == decimal(n / 10)[i]);
            }
        }
        assert(d[0] == decimal(n / 10)[0]);
        assert(numeral_value(d) == numeral_value(decimal(n / 10)) * 10 + n % 10);
    } else {
        assert(decimal(n).drop_last() =~= Seq::<char>::empty());
        assert(numeral_value(Seq::<char>::empty()) == 0);
        assert(numeral_value(decimal(n)) == numeral_value(decimal(n).drop_last()) * 10 + (
        (decimal(n).last() as nat) - 48) as nat);
    }
}

} // verus!

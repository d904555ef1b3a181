//! Certificates: their kinds, lite certificates, certificates with their
//! values, the requests to handle them, and batches of them.
use crate::api;
use crate::codec::{
    deserialize_leading_hash, deserialize_list_length, deserialize_variant_index,
    holds_list, holds_variant_index,
};
use crate::convert::values::{
    chain_id_field_ok, chain_id_from_proto, chain_id_to_proto, crypto_hash_from_bytes, parse_chain_id,
    parse_hash_bytes, proto_chain_id,
};
use crate::domain::{
    CertificateKind, CertificateOf, ChainId, ChainIdOf, ChainValue, ChainValueOf, CryptoHashOf,
    GenericCertificate, GenericCertificateOf, HandleCertificateRequestOf,
    HandleConfirmedCertificateRequestOf, HandleLiteCertRequest, HandleLiteCertRequestOf,
    LiteCertificateOf, LiteValueOf, SpecCertificate, SpecChainId, SpecChainValue,
    SpecGenericCertificate, SpecHandleCertificateRequest, SpecHandleConfirmedCertificateRequest,
    SpecHandleLiteCertRequest,
};
use crate::error::{
    outcome, CryptoError, parse_all, parse_required, require, Failure, GrpcProtoConversionError,
};
use crate::views::seq_view;
use vstd::prelude::*;

verus! {

// ---------------------------------------------------------------- kinds

/// The wire number of a certificate kind.
pub open spec fn kind_number(kind: CertificateKind) -> i32 {
    match kind {
        CertificateKind::Timeout => api::CERTIFICATE_KIND_TIMEOUT,
        CertificateKind::Validated => api::CERTIFICATE_KIND_VALIDATED,
        CertificateKind::Confirmed => api::CERTIFICATE_KIND_CONFIRMED,
    }
}

/// The certificate kind that a wire number stands for, if any.
pub open spec fn kind_of_number(n: i32) -> Option<CertificateKind> {
    if n == api::CERTIFICATE_KIND_CONFIRMED {
        Some(CertificateKind::Confirmed)
    } else if n == api::CERTIFICATE_KIND_VALIDATED {
        Some(CertificateKind::Validated)
    } else if n == api::CERTIFICATE_KIND_TIMEOUT {
        Some(CertificateKind::Timeout)
    } else {
        None
    }
}

pub fn certificate_kind_to_proto(kind: CertificateKind) -> (res: i32)
    ensures
        res == kind_number(kind),
{
    match kind {
        CertificateKind::Timeout => api::CERTIFICATE_KIND_TIMEOUT,
        CertificateKind::Validated => api::CERTIFICATE_KIND_VALIDATED,
        CertificateKind::Confirmed => api::CERTIFICATE_KIND_CONFIRMED,
    }
}

pub fn certificate_kind_from_proto(n: i32) -> (res: Option<CertificateKind>)
    ensures
        res == kind_of_number(n),
{
    if n == api::CERTIFICATE_KIND_CONFIRMED {
        Some(CertificateKind::Confirmed)
    } else if n == api::CERTIFICATE_KIND_VALIDATED {
        Some(CertificateKind::Validated)
    } else if n == api::CERTIFICATE_KIND_TIMEOUT {
        Some(CertificateKind::Timeout)
    } else {
        None
    }
}

/// Kinds and the wire numbers 0, 1, 2 are in one-to-one correspondence; no
/// other number is a kind.
pub proof fn law_certificate_kind_round_trip(kind: CertificateKind, n: i32)
    ensures
        kind_of_number(kind_number(kind)) == Some(kind),
        kind_of_number(n) matches Some(k) ==> kind_number(k) == n,
        kind_of_number(n) is Some <==> 0 <= n <= 2,
{
}

// ---------------------------------------------------------------- values of a chain

/// A value of a chain read from its encoding: the chain id that the first
/// 32 bytes hold, then the rest. Fewer than 32 bytes cannot be read.
pub open spec fn parse_chain_value(bytes: Seq<u8>) -> Result<SpecChainValue, Failure> {
    if bytes.len() >= 32 {
        Ok(
            ChainValueOf {
                chain_id: ChainIdOf(CryptoHashOf { bytes: bytes.subrange(0, 32) }),
                rest: bytes.subrange(32, bytes.len() as int),
            },
        )
    } else {
        Err(Failure::Bincode)
    }
}

/// The encoding of a value of a chain.
pub fn chain_value_to_bytes(value: ChainValue) -> (res: Vec<u8>)
    ensures
        res@ == value@.encoding(),
{
    let ChainValueOf { chain_id, rest } = value;
    let mut bytes = chain_id.0.bytes;
    let mut rest = rest;
    bytes.append(&mut rest);
    bytes
}

/// Reads a value of a chain from its encoding, taking its chain id with
/// bincode.
pub fn chain_value_from_bytes(bytes: Vec<u8>) -> (res: Result<
    ChainValue,
    GrpcProtoConversionError,
>)
    ensures
        outcome(res) == parse_chain_value(bytes@),
{
    match deserialize_leading_hash(bytes.as_slice()) {
        Ok(hash) => {
            let mut head = bytes;
            let rest = head.split_off(32);
            Ok(ChainValueOf { chain_id: ChainIdOf(CryptoHashOf { bytes: hash }), rest })
        },
        Err(e) => Err(GrpcProtoConversionError::BincodeError(e)),
    }
}

/// A value of a chain is read back from its encoding.
pub proof fn law_chain_value_round_trip(v: SpecChainValue)
    requires
        v.wf(),
    ensures
        parse_chain_value(v.encoding()) == Ok::<SpecChainValue, Failure>(v),
{
    let e = v.encoding();
    assert(e.subrange(0, 32) =~= v.chain_id.0.bytes);
    assert(e.subrange(32, e.len() as int) =~= v.rest);
}

/// What a value of a chain reads as is well formed and encodes back to the
/// bytes read.
pub proof fn law_chain_value_parse_exact(bytes: Seq<u8>)
    ensures
        parse_chain_value(bytes) matches Ok(v) ==> v.wf() && v.encoding() == bytes,
{
    if bytes.len() >= 32 {
        assert(bytes.subrange(0, 32) + bytes.subrange(32, bytes.len() as int) =~= bytes);
    }
}

// ---------------------------------------------------------------- certificates with values

/// The message of a certificate of the given kind.
pub open spec fn proto_generic_certificate(
    c: SpecGenericCertificate,
    kind: CertificateKind,
) -> api::CertificateOf<Seq<u8>> {
    api::CertificateOf {
        value: c.value.encoding(),
        round: c.round,
        signatures: c.signatures,
        kind: kind_number(kind),
    }
}

/// Whether the round and the signatures of a certificate begin as their
/// encodings must: an enum's variant index, and a list's length that the
/// bytes after it can hold.
pub open spec fn readable_round_and_signatures(round: Seq<u8>, signatures: Seq<u8>) -> bool {
    holds_variant_index(round) && holds_list(signatures)
}

/// Reads the head of a certificate's round and of its signatures, as
/// bincode does before anything else of the certificate.
fn check_round_and_signatures(round: &Vec<u8>, signatures: &Vec<u8>) -> (res: Result<
    (),
    GrpcProtoConversionError,
>)
    ensures
        res is Ok <==> readable_round_and_signatures(round@, signatures@),
        res matches Err(e) ==> e.failure() == Failure::Bincode,
{
    match deserialize_variant_index(round.as_slice()) {
        Ok(_) => {},
        Err(e) => return Err(GrpcProtoConversionError::BincodeError(e)),
    }
    match deserialize_list_length(signatures.as_slice()) {
        Ok(_) => Ok(()),
        Err(e) => Err(GrpcProtoConversionError::BincodeError(e)),
    }
}

/// The certificate of the expected kind that a message holds. The round and
/// the signatures are read first; a message of another kind is then refused
/// before its value is read.
pub open spec fn parse_generic_certificate(
    m: api::CertificateOf<Seq<u8>>,
    kind: CertificateKind,
) -> Result<SpecGenericCertificate, Failure> {
    if !readable_round_and_signatures(m.round, m.signatures) {
        Err(Failure::Bincode)
    } else if m.kind == kind_number(kind) {
        match parse_chain_value(m.value) {
            Ok(value) => Ok(GenericCertificateOf { value, round: m.round, signatures: m.signatures }),
            Err(e) => Err(e),
        }
    } else {
        Err(Failure::InvalidCertificateType)
    }
}

fn generic_certificate_to_proto(certificate: GenericCertificate, kind: CertificateKind) -> (res:
    api::Certificate)
    ensures
        res@ == proto_generic_certificate(certificate@, kind),
{
    let GenericCertificateOf { value, round, signatures } = certificate;
    api::CertificateOf {
        value: chain_value_to_bytes(value),
        round,
        signatures,
        kind: certificate_kind_to_proto(kind),
    }
}

fn generic_certificate_from_proto(certificate: api::Certificate, kind: CertificateKind) -> (res:
    Result<GenericCertificate, GrpcProtoConversionError>)
    ensures
        outcome(res) == parse_generic_certificate(certificate@, kind),
{
    let api::CertificateOf { value, round, signatures, kind: number } = certificate;
    match check_round_and_signatures(&round, &signatures) {
        Ok(()) => {},
        Err(e) => return Err(e),
    }
    if number == certificate_kind_to_proto(kind) {
        match chain_value_from_bytes(value) {
            Ok(value) => Ok(GenericCertificateOf { value, round, signatures }),
            Err(e) => Err(e),
        }
    } else {
        Err(GrpcProtoConversionError::InvalidCertificateType)
    }
}

pub fn timeout_certificate_to_proto(certificate: GenericCertificate) -> (res: api::Certificate)
    ensures
        res@ == proto_generic_certificate(certificate@, CertificateKind::Timeout),
{
    generic_certificate_to_proto(certificate, CertificateKind::Timeout)
}

pub fn validated_block_certificate_to_proto(certificate: GenericCertificate) -> (res:
    api::Certificate)
    ensures
        res@ == proto_generic_certificate(certificate@, CertificateKind::Validated),
{
    generic_certificate_to_proto(certificate, CertificateKind::Validated)
}

pub fn confirmed_block_certificate_to_proto(certificate: GenericCertificate) -> (res:
    api::Certificate)
    ensures
        res@ == proto_generic_certificate(certificate@, CertificateKind::Confirmed),
{
    generic_certificate_to_proto(certificate, CertificateKind::Confirmed)
}

pub fn timeout_certificate_from_proto(certificate: api::Certificate) -> (res: Result<
    GenericCertificate,
    GrpcProtoConversionError,
>)
    ensures
        outcome(res) == parse_generic_certificate(certificate@, CertificateKind::Timeout),
{
    generic_certificate_from_proto(certificate, CertificateKind::Timeout)
}

pub fn validated_block_certificate_from_proto(certificate: api::Certificate) -> (res: Result<
    GenericCertificate,
    GrpcProtoConversionError,
>)
    ensures
        outcome(res) == parse_generic_certificate(certificate@, CertificateKind::Validated),
{
    generic_certificate_from_proto(certificate, CertificateKind::Validated)
}

pub fn confirmed_block_certificate_from_proto(certificate: api::Certificate) -> (res: Result<
    GenericCertificate,
    GrpcProtoConversionError,
>)
    ensures
        outcome(res) == parse_generic_certificate(certificate@, CertificateKind::Confirmed),
{
    generic_certificate_from_proto(certificate, CertificateKind::Confirmed)
}

/// A well-formed certificate survives the trip through its message when it
/// is read as the kind it was written as, and is refused as any other kind.
pub proof fn law_generic_certificate_round_trip(
    c: SpecGenericCertificate,
    written: CertificateKind,
    read: CertificateKind,
)
    requires
        c.wf(),
    ensures
        written == read ==> parse_generic_certificate(proto_generic_certificate(c, written), read)
            == Ok::<SpecGenericCertificate, Failure>(c),
        written != read ==> parse_generic_certificate(proto_generic_certificate(c, written), read)
            == Err::<SpecGenericCertificate, Failure>(Failure::InvalidCertificateType),
{
    law_chain_value_round_trip(c.value);
}

// ---------------------------------------------------------------- certificates of any kind

pub open spec fn certificate_kind(c: SpecCertificate) -> CertificateKind {
    match c {
        CertificateOf::Confirmed(_) => CertificateKind::Confirmed,
        CertificateOf::Validated(_) => CertificateKind::Validated,
        CertificateOf::Timeout(_) => CertificateKind::Timeout,
    }
}

pub open spec fn certificate_inner(c: SpecCertificate) -> SpecGenericCertificate {
    match c {
        CertificateOf::Confirmed(g) => g,
        CertificateOf::Validated(g) => g,
        CertificateOf::Timeout(g) => g,
    }
}

pub open spec fn proto_certificate(c: SpecCertificate) -> api::CertificateOf<Seq<u8>> {
    proto_generic_certificate(certificate_inner(c), certificate_kind(c))
}

/// The certificate a message holds, of the kind its number gives. The round
/// and the signatures are read before the kind.
pub open spec fn parse_certificate(m: api::CertificateOf<Seq<u8>>) -> Result<SpecCertificate, Failure> {
    if !readable_round_and_signatures(m.round, m.signatures) {
        Err(Failure::Bincode)
    } else {
    match kind_of_number(m.kind) {
        None => Err(Failure::InvalidCertificateType),
        Some(kind) => match parse_chain_value(m.value) {
            Err(e) => Err(e),
            Ok(value) => {
                let g = GenericCertificateOf { value, round: m.round, signatures: m.signatures };
                Ok(
                    match kind {
                        CertificateKind::Confirmed => CertificateOf::Confirmed(g),
                        CertificateKind::Validated => CertificateOf::Validated(g),
                        CertificateKind::Timeout => CertificateOf::Timeout(g),
                    },
                )
            },
        },
    }
    }
}

pub fn certificate_to_proto(certificate: CertificateOf<Vec<u8>>) -> (res: api::Certificate)
    ensures
        res@ == proto_certificate(certificate@),
{
    match certificate {
        CertificateOf::Confirmed(g) => generic_certificate_to_proto(g, CertificateKind::Confirmed),
        CertificateOf::Validated(g) => generic_certificate_to_proto(g, CertificateKind::Validated),
        CertificateOf::Timeout(g) => generic_certificate_to_proto(g, CertificateKind::Timeout),
    }
}

pub fn certificate_from_proto(certificate: api::Certificate) -> (res: Result<
    CertificateOf<Vec<u8>>,
    GrpcProtoConversionError,
>)
    ensures
        outcome(res) == parse_certificate(certificate@),
{
    match check_round_and_signatures(&certificate.round, &certificate.signatures) {
        Ok(()) => {},
        Err(e) => return Err(e),
    }
    match certificate_kind_from_proto(certificate.kind) {
        None => Err(GrpcProtoConversionError::InvalidCertificateType),
        Some(kind) => match generic_certificate_from_proto(certificate, kind) {
            Err(e) => Err(e),
            Ok(g) => Ok(
                match kind {
                    CertificateKind::Confirmed => CertificateOf::Confirmed(g),
                    CertificateKind::Validated => CertificateOf::Validated(g),
                    CertificateKind::Timeout => CertificateOf::Timeout(g),
                },
            ),
        },
    }
}

/// A well-formed certificate survives the trip through its message.
pub proof fn law_certificate_round_trip(c: SpecCertificate)
    requires
        c.wf(),
    ensures
        parse_certificate(proto_certificate(c)) == Ok::<SpecCertificate, Failure>(c),
{
    law_chain_value_round_trip(certificate_inner(c).value);
}

/// A message that reads as a certificate is the message of that
/// certificate; a message whose round or signatures cannot be read is
/// refused as undecodable, and one whose number is no kind as of an unknown
/// type.
pub proof fn law_certificate_parse_exact(m: api::CertificateOf<Seq<u8>>)
    ensures
        parse_certificate(m) matches Ok(c) ==> c.wf() && proto_certificate(c) == m,
        !readable_round_and_signatures(m.round, m.signatures) ==> parse_certificate(m) == Err::<
            SpecCertificate,
            Failure,
        >(Failure::Bincode),
        readable_round_and_signatures(m.round, m.signatures) && kind_of_number(m.kind) is None
            ==> parse_certificate(m) == Err::<SpecCertificate, Failure>(
            Failure::InvalidCertificateType,
        ),
{
    law_chain_value_parse_exact(m.value);
}

// ---------------------------------------------------------------- batches

pub open spec fn parse_certificate_fn() -> spec_fn(api::CertificateOf<Seq<u8>>) -> Result<
    SpecCertificate,
    Failure,
> {
    |m: api::CertificateOf<Seq<u8>>| parse_certificate(m)
}

pub open spec fn proto_certificates_batch(certificates: Seq<SpecCertificate>) -> api::SpecCertificatesBatchResponse {
    api::SpecCertificatesBatchResponse {
        certificates: certificates.map_values(|c: SpecCertificate| proto_certificate(c)),
    }
}

/// The certificates a batch holds, read in order; the first that fails to
/// read fails the batch.
pub open spec fn parse_certificates_batch(m: api::SpecCertificatesBatchResponse) -> Result<
    Seq<SpecCertificate>,
    Failure,
> {
    parse_all(m.certificates, parse_certificate_fn())
}

pub fn certificates_batch_response(certificates: Vec<CertificateOf<Vec<u8>>>) -> (res:
    api::CertificatesBatchResponse)
    ensures
        res@ == proto_certificates_batch(seq_view(certificates@)),
{
    let ghost elems = certificates@;
    let mut out: Vec<api::Certificate> = Vec::new();
    for c in it: certificates.into_iter()
        invariant
            it.seq() == elems,
            out@.len() == it.index(),
            forall|j: int| 0 <= j < it.index() ==> (#[trigger] out@[j])@ == proto_certificate(elems[j]@),
    {
        out.push(certificate_to_proto(c));
    }
    let res = api::CertificatesBatchResponse { certificates: out };
    assert(res@.certificates =~= proto_certificates_batch(seq_view(elems)).certificates);
    res
}

pub fn certificates_from_batch_response(response: api::CertificatesBatchResponse) -> (res: Result<
    Vec<CertificateOf<Vec<u8>>>,
    GrpcProtoConversionError,
>)
    ensures
        match res {
            Ok(v) => parse_certificates_batch(response@) == Ok::<Seq<SpecCertificate>, Failure>(seq_view(v@)),
            Err(e) => parse_certificates_batch(response@) == Err::<Seq<SpecCertificate>, Failure>(e.failure()),
        },
{
    let ghost elems = response.certificates@;
    let ghost ms = seq_view(elems);
    let mut out: Vec<CertificateOf<Vec<u8>>> = Vec::new();
    let ghost mut k: int = 0;
    assert(ms.take(0) =~= Seq::<api::CertificateOf<Seq<u8>>>::empty());
    assert(seq_view(out@) =~= Seq::<SpecCertificate>::empty());
    for c in it: response.certificates.into_iter()
        invariant
            it.seq() == elems,
            ms == seq_view(elems),
            k == it.index(),
            0 <= k <= elems.len(),
            parse_all(ms.take(k), parse_certificate_fn()) == Ok::<Seq<SpecCertificate>, Failure>(seq_view(out@)),
    {
        assert(ms.take(k + 1).drop_last() =~= ms.take(k));
        assert(ms[k] == c@);
        match certificate_from_proto(c) {
            Ok(v) => {
                let ghost before = out@;
                out.push(v);
                assert(seq_view(out@) =~= seq_view(before).push(out@[before.len() as int]@));
            },
            Err(e) => {
                proof {
                    crate::error::lemma_parse_all_failure_persists(ms, parse_certificate_fn(), k + 1);
                }
                return Err(e);
            },
        }
        proof {
            k = k + 1;
        }
    }
    assert(ms.take(k) =~= ms);
    Ok(out)
}

/// A batch of well-formed certificates survives the trip through its
/// message.
pub proof fn law_certificates_batch_round_trip(certificates: Seq<SpecCertificate>)
    requires
        forall|i: int| 0 <= i < certificates.len() ==> (#[trigger] certificates[i]).wf(),
    ensures
        parse_certificates_batch(proto_certificates_batch(certificates)) == Ok::<
            Seq<SpecCertificate>,
            Failure,
        >(certificates),
{
    let ms = proto_certificates_batch(certificates).certificates;
    assert forall|i: int| 0 <= i < ms.len() implies parse_certificate_fn()(#[trigger] ms[i])
        == Ok::<SpecCertificate, Failure>(certificates[i]) by {
        law_certificate_round_trip(certificates[i]);
    }
    crate::error::lemma_parse_all_elementwise(ms, certificates, parse_certificate_fn());
}

// ---------------------------------------------------------------- lite certificates

pub open spec fn proto_lite_certificate(r: SpecHandleLiteCertRequest) -> api::LiteCertificateOf<Seq<u8>> {
    api::LiteCertificateOf {
        hash: r.certificate.value.value_hash.bytes,
        round: r.certificate.round,
        chain_id: Some(proto_chain_id(r.certificate.value.chain_id)),
        signatures: r.certificate.signatures,
        wait_for_outgoing_messages: r.wait_for_outgoing_messages,
        kind: kind_number(r.certificate.value.kind),
    }
}

/// The request a lite certificate message holds. Its parts are read in this
/// order, the first failure being the one reported: the kind, the value
/// hash, the chain id, the signatures and the round.
pub open spec fn parse_lite_certificate(m: api::LiteCertificateOf<Seq<u8>>) -> Result<
    SpecHandleLiteCertRequest,
    Failure,
> {
    match kind_of_number(m.kind) {
        None => Err(Failure::InvalidCertificateType),
        Some(kind) => match parse_hash_bytes(m.hash) {
            Err(e) => Err(e),
            Ok(value_hash) => match parse_required(m.chain_id, |c| parse_chain_id(c)) {
                Err(e) => Err(e),
                Ok(chain_id) => if !readable_round_and_signatures(m.round, m.signatures) {
                    Err(Failure::Bincode)
                } else {
                    Ok(
                    HandleLiteCertRequestOf {
                        certificate: LiteCertificateOf {
                            value: LiteValueOf { value_hash, chain_id, kind },
                            round: m.round,
                            signatures: m.signatures,
                        },
                        wait_for_outgoing_messages: m.wait_for_outgoing_messages,
                    },
                )
                },
            },
        },
    }
}

pub fn lite_certificate_to_proto(request: HandleLiteCertRequest) -> (res: api::LiteCertificate)
    ensures
        res@ == proto_lite_certificate(request@),
{
    let HandleLiteCertRequestOf { certificate, wait_for_outgoing_messages } = request;
    let LiteCertificateOf { value, round, signatures } = certificate;
    let LiteValueOf { value_hash, chain_id, kind } = value;
    api::LiteCertificateOf {
        hash: value_hash.bytes,
        round,
        chain_id: Some(chain_id_to_proto(chain_id)),
        signatures,
        wait_for_outgoing_messages,
        kind: certificate_kind_to_proto(kind),
    }
}

pub fn lite_certificate_from_proto(certificate: api::LiteCertificate) -> (res: Result<
    HandleLiteCertRequest,
    GrpcProtoConversionError,
>)
    ensures
        outcome(res) == parse_lite_certificate(certificate@),
{
    let api::LiteCertificateOf {
        hash,
        round,
        chain_id,
        signatures,
        wait_for_outgoing_messages,
        kind,
    } = certificate;
    let kind = match certificate_kind_from_proto(kind) {
        Some(k) => k,
        None => return Err(GrpcProtoConversionError::InvalidCertificateType),
    };
    let value_hash = match crypto_hash_from_bytes(hash) {
        Ok(h) => h,
        Err(e) => return Err(e),
    };
    let chain_id = match require(chain_id) {
        Ok(c) => match chain_id_from_proto(c) {
            Ok(c) => c,
            Err(e) => return Err(e),
        },
        Err(e) => return Err(e),
    };
    match deserialize_list_length(signatures.as_slice()) {
        Ok(_) => {},
        Err(e) => return Err(GrpcProtoConversionError::BincodeError(e)),
    }
    match deserialize_variant_index(round.as_slice()) {
        Ok(_) => {},
        Err(e) => return Err(GrpcProtoConversionError::BincodeError(e)),
    }
    Ok(
        HandleLiteCertRequestOf {
            certificate: LiteCertificateOf {
                value: LiteValueOf { value_hash, chain_id, kind },
                round,
                signatures,
            },
            wait_for_outgoing_messages,
        },
    )
}

/// A well-formed request survives the trip through its lite certificate
/// message.
pub proof fn law_lite_certificate_round_trip(r: SpecHandleLiteCertRequest)
    requires
        r.wf(),
    ensures
        parse_lite_certificate(proto_lite_certificate(r)) == Ok::<SpecHandleLiteCertRequest, Failure>(r),
{
}

/// A message that reads as a request is the message of that request.
pub proof fn law_lite_certificate_parse_exact(m: api::LiteCertificateOf<Seq<u8>>)
    ensures
        parse_lite_certificate(m) matches Ok(r) ==> r.wf() && proto_lite_certificate(r) == m,
{
    law_certificate_kind_round_trip(CertificateKind::Timeout, m.kind);
}

// ---------------------------------------------------------------- requests to handle certificates

/// The chain id in a request must be that of the certified value.
pub open spec fn check_request_chain(
    certificate: SpecGenericCertificate,
    chain_id: SpecChainId,
) -> Result<SpecGenericCertificate, Failure> {
    if certificate.value.chain_id == chain_id {
        Ok(certificate)
    } else {
        Err(Failure::InconsistentChainId)
    }
}

/// The certificate of the expected kind that a request message holds: the
/// certificate is read first, then the chain id, which must be the
/// certificate's.
pub open spec fn parse_requested_certificate(
    certificate: Option<api::CertificateOf<Seq<u8>>>,
    chain_id: Option<api::ChainIdOf<Seq<u8>>>,
    kind: CertificateKind,
) -> Result<SpecGenericCertificate, Failure> {
    match parse_required(certificate, |c| parse_generic_certificate(c, kind)) {
        Err(e) => Err(e),
        Ok(c) => match parse_required(chain_id, |i| parse_chain_id(i)) {
            Err(e) => Err(e),
            Ok(i) => check_request_chain(c, i),
        },
    }
}

fn requested_certificate_from_proto(
    certificate: Option<api::Certificate>,
    chain_id: Option<api::ChainId>,
    kind: CertificateKind,
) -> (res: Result<GenericCertificate, GrpcProtoConversionError>)
    ensures
        outcome(res) == parse_requested_certificate(
            crate::views::opt_view(certificate),
            crate::views::opt_view(chain_id),
            kind,
        ),
{
    let certificate = match require(certificate) {
        Ok(c) => match generic_certificate_from_proto(c, kind) {
            Ok(c) => c,
            Err(e) => return Err(e),
        },
        Err(e) => return Err(e),
    };
    let chain_id = match require(chain_id) {
        Ok(c) => match chain_id_from_proto(c) {
            Ok(c) => c,
            Err(e) => return Err(e),
        },
        Err(e) => return Err(e),
    };
    if crate::convert::values::same_chain_id(&certificate.value.chain_id, &chain_id) {
        Ok(certificate)
    } else {
        Err(GrpcProtoConversionError::InconsistentChainId)
    }
}

pub open spec fn proto_handle_certificate_request(
    r: SpecHandleCertificateRequest,
    kind: CertificateKind,
) -> api::HandleCertificateRequestOf<Seq<u8>> {
    api::HandleCertificateRequestOf {
        chain_id: Some(proto_chain_id(r.certificate.value.chain_id)),
        certificate: Some(proto_generic_certificate(r.certificate, kind)),
    }
}

pub open spec fn parse_handle_certificate_request(
    m: api::HandleCertificateRequestOf<Seq<u8>>,
    kind: CertificateKind,
) -> Result<SpecHandleCertificateRequest, Failure> {
    match parse_requested_certificate(m.certificate, m.chain_id, kind) {
        Err(e) => Err(e),
        Ok(certificate) => Ok(HandleCertificateRequestOf { certificate }),
    }
}

fn handle_certificate_request_to_proto(
    request: HandleCertificateRequestOf<Vec<u8>>,
    kind: CertificateKind,
) -> (res: api::HandleCertificateRequestOf<Vec<u8>>)
    ensures
        res@ == proto_handle_certificate_request(request@, kind),
{
    let chain_id = crate::convert::values::copy_chain_id(&request.certificate.value.chain_id);
    api::HandleCertificateRequestOf {
        chain_id: Some(chain_id_to_proto(chain_id)),
        certificate: Some(generic_certificate_to_proto(request.certificate, kind)),
    }
}

fn handle_certificate_request_from_proto(
    request: api::HandleCertificateRequestOf<Vec<u8>>,
    kind: CertificateKind,
) -> (res: Result<HandleCertificateRequestOf<Vec<u8>>, GrpcProtoConversionError>)
    ensures
        outcome(res) == parse_handle_certificate_request(request@, kind),
{
    let api::HandleCertificateRequestOf { chain_id, certificate } = request;
    match requested_certificate_from_proto(certificate, chain_id, kind) {
        Ok(certificate) => Ok(HandleCertificateRequestOf { certificate }),
        Err(e) => Err(e),
    }
}

pub fn handle_timeout_certificate_request_to_proto(request: HandleCertificateRequestOf<Vec<u8>>) -> (res: api::HandleTimeoutCertificateRequest)
    ensures
        res@ == proto_handle_certificate_request(request@, CertificateKind::Timeout),
{
    handle_certificate_request_to_proto(request, CertificateKind::Timeout)
}

pub fn handle_timeout_certificate_request_from_proto(request: api::HandleTimeoutCertificateRequest) -> (res: Result<HandleCertificateRequestOf<Vec<u8>>, GrpcProtoConversionError>)
    ensures
        outcome(res) == parse_handle_certificate_request(request@, CertificateKind::Timeout),
{
    handle_certificate_request_from_proto(request, CertificateKind::Timeout)
}

pub fn handle_validated_certificate_request_to_proto(request: HandleCertificateRequestOf<Vec<u8>>) -> (res: api::HandleValidatedCertificateRequest)
    ensures
        res@ == proto_handle_certificate_request(request@, CertificateKind::Validated),
{
    handle_certificate_request_to_proto(request, CertificateKind::Validated)
}

pub fn handle_validated_certificate_request_from_proto(request: api::HandleValidatedCertificateRequest) -> (res: Result<HandleCertificateRequestOf<Vec<u8>>, GrpcProtoConversionError>)
    ensures
        outcome(res) == parse_handle_certificate_request(request@, CertificateKind::Validated),
{
    handle_certificate_request_from_proto(request, CertificateKind::Validated)
}

/// A well-formed request survives the trip through its message when read as
/// the kind it was written as.
pub proof fn law_handle_certificate_request_round_trip(
    r: SpecHandleCertificateRequest,
    kind: CertificateKind,
)
    requires
        r.certificate.wf(),
    ensures
        parse_handle_certificate_request(proto_handle_certificate_request(r, kind), kind) == Ok::<
            SpecHandleCertificateRequest,
            Failure,
        >(r),
{
    law_chain_value_round_trip(r.certificate.value);
}

/// A request message whose chain id is not that of its certificate is
/// refused.
pub proof fn law_handle_certificate_request_inconsistent_chain(
    m: api::HandleCertificateRequestOf<Seq<u8>>,
    kind: CertificateKind,
)
    requires
        m.certificate matches Some(c) && parse_generic_certificate(c, kind) is Ok,
        m.chain_id matches Some(i) && parse_chain_id(i) is Ok,
        parse_generic_certificate(m.certificate.unwrap(), kind).unwrap().value.chain_id
            != parse_chain_id(m.chain_id.unwrap()).unwrap(),
    ensures
        parse_handle_certificate_request(m, kind) == Err::<SpecHandleCertificateRequest, Failure>(
            Failure::InconsistentChainId,
        ),
{
}

pub open spec fn proto_handle_confirmed_certificate_request(
    r: SpecHandleConfirmedCertificateRequest,
) -> api::HandleConfirmedCertificateRequestOf<Seq<u8>> {
    api::HandleConfirmedCertificateRequestOf {
        chain_id: Some(proto_chain_id(r.certificate.value.chain_id)),
        certificate: Some(proto_generic_certificate(r.certificate, CertificateKind::Confirmed)),
        wait_for_outgoing_messages: r.wait_for_outgoing_messages,
    }
}

pub open spec fn parse_handle_confirmed_certificate_request(
    m: api::HandleConfirmedCertificateRequestOf<Seq<u8>>,
) -> Result<SpecHandleConfirmedCertificateRequest, Failure> {
    match parse_requested_certificate(m.certificate, m.chain_id, CertificateKind::Confirmed) {
        Err(e) => Err(e),
        Ok(certificate) => Ok(
            HandleConfirmedCertificateRequestOf {
                certificate,
                wait_for_outgoing_messages: m.wait_for_outgoing_messages,
            },
        ),
    }
}

pub fn handle_confirmed_certificate_request_to_proto(
    request: HandleConfirmedCertificateRequestOf<Vec<u8>>,
) -> (res: api::HandleConfirmedCertificateRequest)
    ensures
        res@ == proto_handle_confirmed_certificate_request(request@),
{
    let chain_id = crate::convert::values::copy_chain_id(&request.certificate.value.chain_id);
    api::HandleConfirmedCertificateRequestOf {
        chain_id: Some(chain_id_to_proto(chain_id)),
        certificate: Some(generic_certificate_to_proto(request.certificate, CertificateKind::Confirmed)),
        wait_for_outgoing_messages: request.wait_for_outgoing_messages,
    }
}

pub fn handle_confirmed_certificate_request_from_proto(
    request: api::HandleConfirmedCertificateRequest,
) -> (res: Result<HandleConfirmedCertificateRequestOf<Vec<u8>>, GrpcProtoConversionError>)
    ensures
        outcome(res) == parse_handle_confirmed_certificate_request(request@),
{
    let api::HandleConfirmedCertificateRequestOf {
        chain_id,
        certificate,
        wait_for_outgoing_messages,
    } = request;
    match requested_certificate_from_proto(certificate, chain_id, CertificateKind::Confirmed) {
        Ok(certificate) => Ok(HandleConfirmedCertificateRequestOf { certificate, wait_for_outgoing_messages }),
        Err(e) => Err(e),
    }
}

/// A well-formed request survives the trip through its message.
pub proof fn law_handle_confirmed_certificate_request_round_trip(
    r: SpecHandleConfirmedCertificateRequest,
)
    requires
        r.certificate.wf(),
    ensures
        parse_handle_confirmed_certificate_request(proto_handle_confirmed_certificate_request(r))
            == Ok::<SpecHandleConfirmedCertificateRequest, Failure>(r),
{
    law_chain_value_round_trip(r.certificate.value);
}

// ---------------------------------------------------------------- where each field goes

/// The wire numbers of the kinds: 0 for a timeout, 1 for a validated block,
/// 2 for a confirmed block, and no other number names a kind.
pub proof fn law_certificate_kind_numbers(n: i32)
    ensures
        kind_number(CertificateKind::Timeout) == 0,
        kind_number(CertificateKind::Validated) == 1,
        kind_number(CertificateKind::Confirmed) == 2,
        n == 0 ==> kind_of_number(n) == Some(CertificateKind::Timeout),
        n == 1 ==> kind_of_number(n) == Some(CertificateKind::Validated),
        n == 2 ==> kind_of_number(n) == Some(CertificateKind::Confirmed),
        !(0 <= n <= 2) ==> kind_of_number(n) is None,
{
}

/// A value of a chain is written as its chain id's bytes followed by the
/// rest, and read back as the first 32 bytes and what follows them.
pub proof fn law_chain_value_fields(v: SpecChainValue, bytes: Seq<u8>)
    ensures
        v.encoding() == v.chain_id.0.bytes + v.rest,
        parse_chain_value(bytes) matches Ok(w) ==> w.chain_id.0.bytes == bytes.subrange(0, 32)
            && w.rest == bytes.subrange(32, bytes.len() as int),
{
}

/// A certificate of a given kind is written with that kind's number and
/// with its own value, round and signatures; a certificate read as a given
/// kind comes from a message with that kind's number, and takes its round
/// and signatures from the message.
pub proof fn law_generic_certificate_fields(
    c: SpecGenericCertificate,
    kind: CertificateKind,
    m: api::CertificateOf<Seq<u8>>,
)
    ensures
        proto_generic_certificate(c, kind).kind == kind_number(kind),
        proto_generic_certificate(c, CertificateKind::Timeout).kind == 0,
        proto_generic_certificate(c, CertificateKind::Validated).kind == 1,
        proto_generic_certificate(c, CertificateKind::Confirmed).kind == 2,
        proto_generic_certificate(c, kind).value == c.value.chain_id.0.bytes + c.value.rest,
        proto_generic_certificate(c, kind).round == c.round,
        proto_generic_certificate(c, kind).signatures == c.signatures,
        parse_generic_certificate(m, kind) matches Ok(g) ==> {
            &&& m.kind == kind_number(kind)
            &&& g.round == m.round
            &&& g.signatures == m.signatures
            &&& g.value.chain_id.0.bytes + g.value.rest == m.value
        },
        parse_generic_certificate(m, CertificateKind::Timeout) is Ok ==> m.kind == 0,
        parse_generic_certificate(m, CertificateKind::Validated) is Ok ==> m.kind == 1,
        parse_generic_certificate(m, CertificateKind::Confirmed) is Ok ==> m.kind == 2,
{
    law_chain_value_parse_exact(m.value);
}

/// A certificate is written with the number of its own kind (2 for a
/// confirmed, 1 for a validated, 0 for a timeout certificate) and with its
/// own value, round and signatures; a message read as a certificate gives
/// the kind its number names, with the message's value, round and
/// signatures.
pub proof fn law_certificate_fields(c: SpecCertificate, m: api::CertificateOf<Seq<u8>>)
    ensures
        c matches CertificateOf::Confirmed(g) ==> proto_certificate(c).kind == 2
            && proto_certificate(c).round == g.round && proto_certificate(c).signatures
            == g.signatures && proto_certificate(c).value == g.value.chain_id.0.bytes
            + g.value.rest,
        c matches CertificateOf::Validated(g) ==> proto_certificate(c).kind == 1
            && proto_certificate(c).round == g.round && proto_certificate(c).signatures
            == g.signatures && proto_certificate(c).value == g.value.chain_id.0.bytes
            + g.value.rest,
        c matches CertificateOf::Timeout(g) ==> proto_certificate(c).kind == 0
            && proto_certificate(c).round == g.round && proto_certificate(c).signatures
            == g.signatures && proto_certificate(c).value == g.value.chain_id.0.bytes
            + g.value.rest,
        parse_certificate(m) matches Ok(c2) ==> {
            &&& (c2 is Confirmed <==> m.kind == 2)
            &&& (c2 is Validated <==> m.kind == 1)
            &&& (c2 is Timeout <==> m.kind == 0)
            &&& certificate_inner(c2).round == m.round
            &&& certificate_inner(c2).signatures == m.signatures
            &&& certificate_inner(c2).value.chain_id.0.bytes + certificate_inner(c2).value.rest
                == m.value
        },
{
    law_chain_value_parse_exact(m.value);
}

/// A batch is written as the messages of its certificates, in order.
pub proof fn law_certificates_batch_fields(certificates: Seq<SpecCertificate>)
    ensures
        proto_certificates_batch(certificates).certificates.len() == certificates.len(),
        forall|i: int|
            0 <= i < certificates.len() ==> #[trigger] proto_certificates_batch(
                certificates,
            ).certificates[i] == proto_certificate(certificates[i]),
{
}

/// A lite certificate request is written field by field: the value hash's
/// bytes, the round, the chain id's bytes, the signatures, the flag and the
/// kind's number; and a message that reads as a request gives each part
/// from the field it was written to.
pub proof fn law_lite_certificate_fields(r: SpecHandleLiteCertRequest, m: api::LiteCertificateOf<Seq<u8>>)
    ensures
        proto_lite_certificate(r).hash == r.certificate.value.value_hash.bytes,
        proto_lite_certificate(r).round == r.certificate.round,
        proto_lite_certificate(r).chain_id == Some(
            api::ChainIdOf { bytes: r.certificate.value.chain_id.0.bytes },
        ),
        proto_lite_certificate(r).signatures == r.certificate.signatures,
        proto_lite_certificate(r).wait_for_outgoing_messages == r.wait_for_outgoing_messages,
        r.certificate.value.kind == CertificateKind::Timeout ==> proto_lite_certificate(r).kind == 0,
        r.certificate.value.kind == CertificateKind::Validated ==> proto_lite_certificate(r).kind == 1,
        r.certificate.value.kind == CertificateKind::Confirmed ==> proto_lite_certificate(r).kind == 2,
        parse_lite_certificate(m) matches Ok(r2) ==> {
            &&& r2.certificate.value.value_hash.bytes == m.hash
            &&& r2.certificate.round == m.round
            &&& m.chain_id matches Some(c) && r2.certificate.value.chain_id.0.bytes == c.bytes
            &&& r2.certificate.signatures == m.signatures
            &&& r2.wait_for_outgoing_messages == m.wait_for_outgoing_messages
            &&& (r2.certificate.value.kind == CertificateKind::Timeout <==> m.kind == 0)
            &&& (r2.certificate.value.kind == CertificateKind::Validated <==> m.kind == 1)
            &&& (r2.certificate.value.kind == CertificateKind::Confirmed <==> m.kind == 2)
        },
{
}

/// A request to handle a certificate is written with the chain id of the
/// certified value and the certificate's message of the requested kind; a
/// message read as such a request names the chain of its certificate.
pub proof fn law_handle_certificate_request_fields(
    r: SpecHandleCertificateRequest,
    kind: CertificateKind,
    m: api::HandleCertificateRequestOf<Seq<u8>>,
)
    ensures
        proto_handle_certificate_request(r, kind).chain_id == Some(
            api::ChainIdOf { bytes: r.certificate.value.chain_id.0.bytes },
        ),
        proto_handle_certificate_request(r, kind).certificate == Some(
            proto_generic_certificate(r.certificate, kind),
        ),
        parse_handle_certificate_request(m, kind) matches Ok(r2) ==> {
            &&& m.chain_id matches Some(c) && c.bytes == r2.certificate.value.chain_id.0.bytes
            &&& m.certificate matches Some(mc) && parse_generic_certificate(mc, kind) == Ok::<
                SpecGenericCertificate,
                Failure,
            >(r2.certificate)
        },
{
}

/// A request to handle a confirmed certificate is written with the chain id
/// of the certified value, the certificate's message with kind 2 and the
/// request's flag; a message read as such a request keeps the flag.
pub proof fn law_handle_confirmed_certificate_request_fields(
    r: SpecHandleConfirmedCertificateRequest,
    m: api::HandleConfirmedCertificateRequestOf<Seq<u8>>,
)
    ensures
        proto_handle_confirmed_certificate_request(r).chain_id == Some(
            api::ChainIdOf { bytes: r.certificate.value.chain_id.0.bytes },
        ),
        proto_handle_confirmed_certificate_request(r).certificate matches Some(c) && c.kind == 2
            && c == proto_generic_certificate(r.certificate, CertificateKind::Confirmed),
        proto_handle_confirmed_certificate_request(r).wait_for_outgoing_messages
            == r.wait_for_outgoing_messages,
        parse_handle_confirmed_certificate_request(m) matches Ok(r2) ==> {
            &&& r2.wait_for_outgoing_messages == m.wait_for_outgoing_messages
            &&& m.chain_id matches Some(c) && c.bytes == r2.certificate.value.chain_id.0.bytes
            &&& m.certificate matches Some(mc) && mc.kind == 2 && parse_generic_certificate(
                mc,
                CertificateKind::Confirmed,
            ) == Ok::<SpecGenericCertificate, Failure>(r2.certificate)
        },
{
}

// ---------------------------------------------------------------- which error comes

/// A certificate of an expected kind is read in this order: its round and
/// signatures (undecodable heads are a bincode failure), its kind (another
/// kind is refused as such), its value (fewer than 32 bytes are a bincode
/// failure).
pub proof fn law_generic_certificate_errors(m: api::CertificateOf<Seq<u8>>, kind: CertificateKind)
    ensures
        !(m.round.len() >= 4 && holds_list(m.signatures)) ==> parse_generic_certificate(m, kind)
            == Err::<SpecGenericCertificate, Failure>(Failure::Bincode),
        m.round.len() >= 4 && holds_list(m.signatures) && m.kind != kind_number(kind)
            ==> parse_generic_certificate(m, kind) == Err::<SpecGenericCertificate, Failure>(
            Failure::InvalidCertificateType,
        ),
        m.round.len() >= 4 && holds_list(m.signatures) && m.kind == kind_number(kind)
            && m.value.len() < 32 ==> parse_generic_certificate(m, kind) == Err::<
            SpecGenericCertificate,
            Failure,
        >(Failure::Bincode),
        parse_generic_certificate(m, kind) is Ok <==> (m.round.len() >= 4 && holds_list(
            m.signatures,
        ) && m.kind == kind_number(kind) && m.value.len() >= 32),
{
}

/// A certificate of any kind is read as one exactly when its round and
/// signatures have decodable heads, its number is 0, 1 or 2, and its value
/// holds a chain id.
pub proof fn law_certificate_errors(m: api::CertificateOf<Seq<u8>>)
    ensures
        parse_certificate(m) is Ok <==> (m.round.len() >= 4 && holds_list(m.signatures) && 0
            <= m.kind <= 2 && m.value.len() >= 32),
        m.round.len() >= 4 && holds_list(m.signatures) && 0 <= m.kind <= 2 && m.value.len() < 32
            ==> parse_certificate(m) == Err::<SpecCertificate, Failure>(Failure::Bincode),
{
}

/// A lite certificate is read in this order: its kind (an unknown number
/// is refused as such), its value hash (refused with its length unless 32
/// bytes), its chain id (missing, or refused with its length), then its
/// signatures and round (undecodable heads are a bincode failure).
pub proof fn law_lite_certificate_errors(m: api::LiteCertificateOf<Seq<u8>>)
    ensures
        !(0 <= m.kind <= 2) ==> parse_lite_certificate(m) == Err::<SpecHandleLiteCertRequest, Failure>(
            Failure::InvalidCertificateType,
        ),
        0 <= m.kind <= 2 && m.hash.len() != 32 ==> parse_lite_certificate(m) == Err::<
            SpecHandleLiteCertRequest,
            Failure,
        >(Failure::Crypto(CryptoError::IncorrectHashSize(m.hash.len() as usize))),
        0 <= m.kind <= 2 && m.hash.len() == 32 && m.chain_id is None ==> parse_lite_certificate(m)
            == Err::<SpecHandleLiteCertRequest, Failure>(Failure::MissingField),
        0 <= m.kind <= 2 && m.hash.len() == 32 && m.chain_id is Some
            && m.chain_id.unwrap().bytes.len() != 32 ==> parse_lite_certificate(m) == Err::<
            SpecHandleLiteCertRequest,
            Failure,
        >(Failure::Crypto(CryptoError::IncorrectHashSize(m.chain_id.unwrap().bytes.len() as usize))),
        0 <= m.kind <= 2 && m.hash.len() == 32 && chain_id_field_ok(m.chain_id) && !(m.round.len()
            >= 4 && holds_list(m.signatures)) ==> parse_lite_certificate(m) == Err::<
            SpecHandleLiteCertRequest,
            Failure,
        >(Failure::Bincode),
        parse_lite_certificate(m) is Ok <==> (0 <= m.kind <= 2 && m.hash.len() == 32
            && chain_id_field_ok(m.chain_id) && m.round.len() >= 4 && holds_list(m.signatures)),
{
}

/// A request to handle a certificate is read in this order: the
/// certificate (missing, or refused as its own reading refuses it), then
/// the chain id (missing, or refused with its length), which must be that
/// of the certificate's value.
pub proof fn law_handle_certificate_request_errors(
    m: api::HandleCertificateRequestOf<Seq<u8>>,
    kind: CertificateKind,
)
    ensures
        m.certificate is None ==> parse_handle_certificate_request(m, kind) == Err::<
            SpecHandleCertificateRequest,
            Failure,
        >(Failure::MissingField),
        m.certificate is Some && parse_generic_certificate(m.certificate.unwrap(), kind) is Err
            ==> (parse_handle_certificate_request(m, kind) matches Err(e) && Err::<
            SpecGenericCertificate,
            Failure,
        >(e) == parse_generic_certificate(m.certificate.unwrap(), kind)),
        m.certificate is Some && parse_generic_certificate(m.certificate.unwrap(), kind) is Ok
            && m.chain_id is None
            ==> parse_handle_certificate_request(m, kind) == Err::<
            SpecHandleCertificateRequest,
            Failure,
        >(Failure::MissingField),
        parse_handle_certificate_request(m, kind) is Ok ==> chain_id_field_ok(m.chain_id)
            && m.chain_id.unwrap().bytes == m.certificate.unwrap().value.subrange(0, 32),
{
}

} // verus!

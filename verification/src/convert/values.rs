//! Hashes, chain identifiers, heights, versions, network descriptions, keys,
//! signatures and the values that travel in their encodings.
use crate::api;
use crate::codec::{is_secp256k1_signature, is_valid_secp256k1_signature, parse_secp256k1_key, secp256k1_compressed_key};
use crate::domain::{
    BlockHeight, ChainId, ChainIdOf, CrateVersion, CryptoHash, CryptoHashOf, EncodedOf,
    NetworkDescription, NetworkDescriptionOf, SpecChainId, SpecCryptoHash, SpecEncoded,
    SpecNetworkDescription, SpecValidatorPublicKey, SpecValidatorSignature, SpecVersionInfo,
    Timestamp, ValidatorPublicKey, ValidatorPublicKeyOf, ValidatorSignature, ValidatorSignatureOf,
    VersionInfo, VersionInfoOf,
};
use crate::views::seq_view;
use crate::error::{outcome, parse_required, require, CryptoError, Failure, GrpcProtoConversionError};
use vstd::prelude::*;

verus! {

// ---------------------------------------------------------------- hashes

pub open spec fn proto_crypto_hash(h: SpecCryptoHash) -> api::CryptoHashOf<Seq<u8>> {
    api::CryptoHashOf { bytes: h.bytes }
}

/// A hash read from bytes: exactly 32 of them.
pub open spec fn parse_hash_bytes(bytes: Seq<u8>) -> Result<SpecCryptoHash, Failure> {
    if bytes.len() == 32 {
        Ok(CryptoHashOf { bytes })
    } else {
        Err(Failure::Crypto(CryptoError::IncorrectHashSize(bytes.len() as usize)))
    }
}

pub open spec fn parse_crypto_hash(m: api::CryptoHashOf<Seq<u8>>) -> Result<SpecCryptoHash, Failure> {
    parse_hash_bytes(m.bytes)
}

/// Reads a hash from a byte string, which must hold exactly 32 bytes.
pub fn crypto_hash_from_bytes(bytes: Vec<u8>) -> (res: Result<CryptoHash, GrpcProtoConversionError>)
    ensures
        outcome(res) == parse_hash_bytes(bytes@),
{
    if bytes.len() == 32 {
        Ok(CryptoHashOf { bytes })
    } else {
        let n = bytes.len();
        Err(GrpcProtoConversionError::CryptoError(CryptoError::IncorrectHashSize(n)))
    }
}

pub fn crypto_hash_to_proto(hash: CryptoHash) -> (res: api::CryptoHash)
    ensures
        res@ == proto_crypto_hash(hash@),
{
    api::CryptoHashOf { bytes: hash.bytes }
}

pub fn crypto_hash_from_proto(hash: api::CryptoHash) -> (res: Result<
    CryptoHash,
    GrpcProtoConversionError,
>)
    ensures
        outcome(res) == parse_crypto_hash(hash@),
{
    crypto_hash_from_bytes(hash.bytes)
}

/// A well-formed hash survives the trip through its message.
pub proof fn law_crypto_hash_round_trip(h: SpecCryptoHash)
    requires
        h.wf(),
    ensures
        parse_crypto_hash(proto_crypto_hash(h)) == Ok::<SpecCryptoHash, Failure>(h),
{
}

/// A message that reads as a hash is the message of that hash, and the hash
/// is well formed.
pub proof fn law_crypto_hash_parse_exact(m: api::CryptoHashOf<Seq<u8>>)
    ensures
        parse_crypto_hash(m) matches Ok(h) ==> h.wf() && proto_crypto_hash(h) == m,
{
}

// ---------------------------------------------------------------- chain ids

pub open spec fn proto_chain_id(c: SpecChainId) -> api::ChainIdOf<Seq<u8>> {
    api::ChainIdOf { bytes: c.0.bytes }
}

pub open spec fn parse_chain_id(m: api::ChainIdOf<Seq<u8>>) -> Result<SpecChainId, Failure> {
    match parse_hash_bytes(m.bytes) {
        Ok(h) => Ok(ChainIdOf(h)),
        Err(e) => Err(e),
    }
}

pub fn chain_id_to_proto(chain_id: ChainId) -> (res: api::ChainId)
    ensures
        res@ == proto_chain_id(chain_id@),
{
    api::ChainIdOf { bytes: chain_id.0.bytes }
}

pub fn chain_id_from_proto(chain_id: api::ChainId) -> (res: Result<
    ChainId,
    GrpcProtoConversionError,
>)
    ensures
        outcome(res) == parse_chain_id(chain_id@),
{
    match crypto_hash_from_bytes(chain_id.bytes) {
        Ok(h) => Ok(ChainIdOf(h)),
        Err(e) => Err(e),
    }
}

/// A well-formed chain id survives the trip through its message.
pub proof fn law_chain_id_round_trip(c: SpecChainId)
    requires
        c.wf(),
    ensures
        parse_chain_id(proto_chain_id(c)) == Ok::<SpecChainId, Failure>(c),
{
}

/// A message reads as a chain id exactly when it holds 32 bytes; the chain
/// id is then well formed and its message is the one read.
pub proof fn law_chain_id_parse_exact(m: api::ChainIdOf<Seq<u8>>)
    ensures
        parse_chain_id(m) is Ok <==> m.bytes.len() == 32,
        parse_chain_id(m) matches Ok(c) ==> c.wf() && proto_chain_id(c) == m,
        parse_chain_id(m) matches Err(e) ==> e == Failure::Crypto(
            CryptoError::IncorrectHashSize(m.bytes.len() as usize),
        ),
{
}

/// A copy of a chain id.
pub fn copy_chain_id(chain_id: &ChainId) -> (res: ChainId)
    ensures
        res@ == chain_id@,
{
    let bytes = &chain_id.0.bytes;
    let mut out: Vec<u8> = Vec::with_capacity(bytes.len());
    for i in 0..bytes.len()
        invariant
            bytes@ == chain_id@.0.bytes,
            out@ == bytes@.take(i as int),
    {
        out.push(bytes[i]);
        assert(out@ =~= bytes@.take(i + 1));
    }
    assert(out@ =~= bytes@);
    ChainIdOf(CryptoHashOf { bytes: out })
}

/// Whether two byte strings are the same.
pub fn same_bytes(x: &Vec<u8>, y: &Vec<u8>) -> (res: bool)
    ensures
        res == (x@ == y@),
{
    if x.len() != y.len() {
        return false;
    }
    for i in 0..x.len()
        invariant
            x@.len() == y@.len(),
            forall|j: int| 0 <= j < i ==> x@[j] == y@[j],
    {
        if x[i] != y[i] {
            return false;
        }
    }
    proof {
        assert(x@ =~= y@);
    }
    true
}

/// Whether two chain ids are the same.
pub fn same_chain_id(a: &ChainId, b: &ChainId) -> (res: bool)
    ensures
        res == (a@ == b@),
{
    same_bytes(&a.0.bytes, &b.0.bytes)
}

// ---------------------------------------------------------------- heights

pub open spec fn proto_block_height(h: BlockHeight) -> api::BlockHeight {
    api::BlockHeight { height: h.0 }
}

pub open spec fn parse_block_height(m: api::BlockHeight) -> BlockHeight {
    BlockHeight(m.height)
}

pub fn block_height_to_proto(height: BlockHeight) -> (res: api::BlockHeight)
    ensures
        res == proto_block_height(height),
{
    api::BlockHeight { height: height.0 }
}

pub fn block_height_from_proto(height: api::BlockHeight) -> (res: BlockHeight)
    ensures
        res == parse_block_height(height),
{
    BlockHeight(height.height)
}

/// Heights and their messages are in one-to-one correspondence.
pub proof fn law_block_height_round_trip(h: BlockHeight, m: api::BlockHeight)
    ensures
        parse_block_height(proto_block_height(h)) == h,
        proto_block_height(parse_block_height(m)) == m,
{
}

// ---------------------------------------------------------------- versions

pub open spec fn proto_crate_version(v: CrateVersion) -> api::CrateVersion {
    api::CrateVersion { major: v.major, minor: v.minor, patch: v.patch }
}

pub open spec fn parse_crate_version(m: api::CrateVersion) -> CrateVersion {
    CrateVersion { major: m.major, minor: m.minor, patch: m.patch }
}

pub fn crate_version_to_proto(version: CrateVersion) -> (res: api::CrateVersion)
    ensures
        res == proto_crate_version(version),
{
    api::CrateVersion { major: version.major, minor: version.minor, patch: version.patch }
}

pub fn crate_version_from_proto(version: api::CrateVersion) -> (res: CrateVersion)
    ensures
        res == parse_crate_version(version),
{
    CrateVersion { major: version.major, minor: version.minor, patch: version.patch }
}

/// Crate versions and their messages are in one-to-one correspondence.
pub proof fn law_crate_version_round_trip(v: CrateVersion, m: api::CrateVersion)
    ensures
        parse_crate_version(proto_crate_version(v)) == v,
        proto_crate_version(parse_crate_version(m)) == m,
{
}

pub open spec fn proto_version_info(v: SpecVersionInfo) -> api::VersionInfoOf<Seq<char>> {
    api::VersionInfoOf {
        crate_version: Some(proto_crate_version(v.crate_version)),
        git_commit: v.git_commit,
        git_dirty: v.git_dirty,
        rpc_hash: v.rpc_hash,
        graphql_hash: v.graphql_hash,
        wit_hash: v.wit_hash,
    }
}

/// The version a message gives; a message without a crate version stands for
/// version 0.0.0.
pub open spec fn parse_version_info(m: api::VersionInfoOf<Seq<char>>) -> SpecVersionInfo {
    VersionInfoOf {
        crate_version: match m.crate_version {
            Some(c) => parse_crate_version(c),
            None => CrateVersion { major: 0, minor: 0, patch: 0 },
        },
        git_commit: m.git_commit,
        git_dirty: m.git_dirty,
        rpc_hash: m.rpc_hash,
        graphql_hash: m.graphql_hash,
        wit_hash: m.wit_hash,
    }
}

pub fn version_info_to_proto(version_info: VersionInfo) -> (res: api::VersionInfo)
    ensures
        res@ == proto_version_info(version_info@),
{
    api::VersionInfo::from(version_info)
}

pub fn version_info_from_proto(version_info: api::VersionInfo) -> (res: VersionInfo)
    ensures
        res@ == parse_version_info(version_info@),
{
    VersionInfo::from(version_info)
}

/// A version survives the trip through its message; a message with a crate
/// version survives the trip through the version.
pub proof fn law_version_info_round_trip(v: SpecVersionInfo, m: api::VersionInfoOf<Seq<char>>)
    ensures
        parse_version_info(proto_version_info(v)) == v,
        m.crate_version is Some ==> proto_version_info(parse_version_info(m)) == m,
        m.crate_version is None ==> parse_version_info(m).crate_version == (CrateVersion {
            major: 0,
            minor: 0,
            patch: 0,
        }),
{
}

// ---------------------------------------------------------------- `From` between values and messages

impl From<CrateVersion> for api::CrateVersion {
    fn from(version: CrateVersion) -> (res: Self) {
        crate_version_to_proto(version)
    }
}

impl vstd::std_specs::convert::FromSpecImpl<CrateVersion> for api::CrateVersion {
    open spec fn obeys_from_spec() -> bool {
        true
    }

    open spec fn from_spec(version: CrateVersion) -> Self {
        proto_crate_version(version)
    }
}

impl From<api::CrateVersion> for CrateVersion {
    fn from(version: api::CrateVersion) -> (res: Self) {
        crate_version_from_proto(version)
    }
}

impl vstd::std_specs::convert::FromSpecImpl<api::CrateVersion> for CrateVersion {
    open spec fn obeys_from_spec() -> bool {
        true
    }

    open spec fn from_spec(version: api::CrateVersion) -> Self {
        parse_crate_version(version)
    }
}

impl From<VersionInfo> for api::VersionInfo {
    fn from(version_info: VersionInfo) -> (res: Self) {
        api::VersionInfoOf {
            crate_version: Some(crate_version_to_proto(version_info.crate_version)),
            git_commit: version_info.git_commit,
            git_dirty: version_info.git_dirty,
            rpc_hash: version_info.rpc_hash,
            graphql_hash: version_info.graphql_hash,
            wit_hash: version_info.wit_hash,
        }
    }
}

impl vstd::std_specs::convert::FromSpecImpl<VersionInfo> for api::VersionInfo {
    open spec fn obeys_from_spec() -> bool {
        true
    }

    open spec fn from_spec(version_info: VersionInfo) -> Self {
        api::VersionInfoOf {
            crate_version: Some(proto_crate_version(version_info.crate_version)),
            git_commit: version_info.git_commit,
            git_dirty: version_info.git_dirty,
            rpc_hash: version_info.rpc_hash,
            graphql_hash: version_info.graphql_hash,
            wit_hash: version_info.wit_hash,
        }
    }
}

impl From<api::VersionInfo> for VersionInfo {
    fn from(version_info: api::VersionInfo) -> (res: Self) {
        let crate_version = match version_info.crate_version {
            Some(c) => c,
            None => api::CrateVersion { major: 0, minor: 0, patch: 0 },
        };
        VersionInfoOf {
            crate_version: crate_version_from_proto(crate_version),
            git_commit: version_info.git_commit,
            git_dirty: version_info.git_dirty,
            rpc_hash: version_info.rpc_hash,
            graphql_hash: version_info.graphql_hash,
            wit_hash: version_info.wit_hash,
        }
    }
}

impl vstd::std_specs::convert::FromSpecImpl<api::VersionInfo> for VersionInfo {
    open spec fn obeys_from_spec() -> bool {
        true
    }

    open spec fn from_spec(version_info: api::VersionInfo) -> Self {
        VersionInfoOf {
            crate_version: match version_info.crate_version {
                Some(c) => parse_crate_version(c),
                None => CrateVersion { major: 0, minor: 0, patch: 0 },
            },
            git_commit: version_info.git_commit,
            git_dirty: version_info.git_dirty,
            rpc_hash: version_info.rpc_hash,
            graphql_hash: version_info.graphql_hash,
            wit_hash: version_info.wit_hash,
        }
    }
}

/// Converting a version into its message and back with `From` gives the
/// same version, and the message always carries a crate version.
pub proof fn law_version_info_from_round_trip(v: VersionInfo)
    ensures
        <api::VersionInfo as vstd::std_specs::convert::FromSpec<VersionInfo>>::from_spec(v).crate_version is Some,
        <VersionInfo as vstd::std_specs::convert::FromSpec<api::VersionInfo>>::from_spec(
            <api::VersionInfo as vstd::std_specs::convert::FromSpec<VersionInfo>>::from_spec(v),
        ) == v,
{
}

impl From<BlockHeight> for api::BlockHeight {
    fn from(height: BlockHeight) -> (res: Self) {
        block_height_to_proto(height)
    }
}

impl vstd::std_specs::convert::FromSpecImpl<BlockHeight> for api::BlockHeight {
    open spec fn obeys_from_spec() -> bool {
        true
    }

    open spec fn from_spec(height: BlockHeight) -> Self {
        proto_block_height(height)
    }
}

impl From<api::BlockHeight> for BlockHeight {
    fn from(height: api::BlockHeight) -> (res: Self) {
        block_height_from_proto(height)
    }
}

impl vstd::std_specs::convert::FromSpecImpl<api::BlockHeight> for BlockHeight {
    open spec fn obeys_from_spec() -> bool {
        true
    }

    open spec fn from_spec(height: api::BlockHeight) -> Self {
        parse_block_height(height)
    }
}

// ---------------------------------------------------------------- network description

pub open spec fn proto_network_description(n: SpecNetworkDescription) -> api::NetworkDescriptionOf<Seq<char>, Seq<u8>> {
    api::NetworkDescriptionOf {
        name: n.name,
        genesis_config_hash: Some(proto_crypto_hash(n.genesis_config_hash)),
        genesis_timestamp: n.genesis_timestamp.0,
        genesis_committee_blob_hash: Some(proto_crypto_hash(n.genesis_committee_blob_hash)),
        admin_chain_id: Some(proto_chain_id(n.admin_chain_id)),
    }
}

/// The description a message gives. Its fields are read in this order, the
/// first failure being the one reported: genesis configuration hash, admin
/// chain id, genesis committee blob hash.
pub open spec fn parse_network_description(
    m: api::NetworkDescriptionOf<Seq<char>, Seq<u8>>,
) -> Result<SpecNetworkDescription, Failure> {
    match parse_required(m.genesis_config_hash, |h| parse_crypto_hash(h)) {
        Err(e) => Err(e),
        Ok(genesis_config_hash) => match parse_required(m.admin_chain_id, |c| parse_chain_id(c)) {
            Err(e) => Err(e),
            Ok(admin_chain_id) => match parse_required(
                m.genesis_committee_blob_hash,
                |h| parse_crypto_hash(h),
            ) {
                Err(e) => Err(e),
                Ok(genesis_committee_blob_hash) => Ok(
                    NetworkDescriptionOf {
                        name: m.name,
                        genesis_config_hash,
                        genesis_timestamp: Timestamp(m.genesis_timestamp),
                        genesis_committee_blob_hash,
                        admin_chain_id,
                    },
                ),
            },
        },
    }
}

pub fn network_description_to_proto(description: NetworkDescription) -> (res:
    api::NetworkDescription)
    ensures
        res@ == proto_network_description(description@),
{
    api::NetworkDescriptionOf {
        name: description.name,
        genesis_config_hash: Some(crypto_hash_to_proto(description.genesis_config_hash)),
        genesis_timestamp: description.genesis_timestamp.0,
        admin_chain_id: Some(chain_id_to_proto(description.admin_chain_id)),
        genesis_committee_blob_hash: Some(
            crypto_hash_to_proto(description.genesis_committee_blob_hash),
        ),
    }
}

pub fn network_description_from_proto(description: api::NetworkDescription) -> (res: Result<
    NetworkDescription,
    GrpcProtoConversionError,
>)
    ensures
        outcome(res) == parse_network_description(description@),
{
    let api::NetworkDescriptionOf {
        name,
        genesis_config_hash,
        genesis_timestamp,
        genesis_committee_blob_hash,
        admin_chain_id,
    } = description;
    let genesis_config_hash = match require(genesis_config_hash) {
        Ok(h) => match crypto_hash_from_proto(h) {
            Ok(h) => h,
            Err(e) => return Err(e),
        },
        Err(e) => return Err(e),
    };
    let admin_chain_id = match require(admin_chain_id) {
        Ok(c) => match chain_id_from_proto(c) {
            Ok(c) => c,
            Err(e) => return Err(e),
        },
        Err(e) => return Err(e),
    };
    let genesis_committee_blob_hash = match require(genesis_committee_blob_hash) {
        Ok(h) => match crypto_hash_from_proto(h) {
            Ok(h) => h,
            Err(e) => return Err(e),
        },
        Err(e) => return Err(e),
    };
    Ok(
        NetworkDescriptionOf {
            name,
            genesis_config_hash,
            genesis_timestamp: Timestamp(genesis_timestamp),
            genesis_committee_blob_hash,
            admin_chain_id,
        },
    )
}

/// A well-formed description survives the trip through its message.
pub proof fn law_network_description_round_trip(n: SpecNetworkDescription)
    requires
        n.wf(),
    ensures
        parse_network_description(proto_network_description(n)) == Ok::<
            SpecNetworkDescription,
            Failure,
        >(n),
{
}

/// A message that reads as a description is the message of that description,
/// and the description is well formed.
pub proof fn law_network_description_parse_exact(m: api::NetworkDescriptionOf<Seq<char>, Seq<u8>>)
    ensures
        parse_network_description(m) matches Ok(n) ==> n.wf() && proto_network_description(n)
            == m,
{
    if let Ok(n) = parse_network_description(m) {
        law_crypto_hash_parse_exact(m.genesis_config_hash.unwrap());
        law_crypto_hash_parse_exact(m.genesis_committee_blob_hash.unwrap());
        law_chain_id_parse_exact(m.admin_chain_id.unwrap());
    }
}

// ---------------------------------------------------------------- validator keys and signatures

pub open spec fn proto_validator_public_key(k: SpecValidatorPublicKey) -> api::BytesOf<Seq<u8>> {
    api::BytesOf { bytes: k.bytes }
}

/// The key that `k256` reads from the message's SEC1 bytes, held in
/// compressed form.
pub open spec fn parse_validator_public_key(m: api::BytesOf<Seq<u8>>) -> Result<
    SpecValidatorPublicKey,
    Failure,
> {
    match secp256k1_compressed_key(m.bytes) {
        Some(c) => Ok(ValidatorPublicKeyOf { bytes: c }),
        None => Err(Failure::Crypto(CryptoError::InvalidValidatorPublicKey)),
    }
}

pub fn validator_public_key_to_proto(key: ValidatorPublicKey) -> (res: api::ValidatorPublicKey)
    ensures
        res@ == proto_validator_public_key(key@),
{
    api::BytesOf { bytes: key.bytes }
}

pub fn validator_public_key_from_proto(key: api::ValidatorPublicKey) -> (res: Result<
    ValidatorPublicKey,
    GrpcProtoConversionError,
>)
    ensures
        outcome(res) == parse_validator_public_key(key@),
        res matches Ok(k) ==> k@.wf(),
{
    match parse_secp256k1_key(key.bytes.as_slice()) {
        Some(c) => Ok(ValidatorPublicKeyOf { bytes: c }),
        None => Err(GrpcProtoConversionError::CryptoError(CryptoError::InvalidValidatorPublicKey)),
    }
}

/// A well-formed validator key survives the trip through its message.
pub proof fn law_validator_public_key_round_trip(k: SpecValidatorPublicKey)
    requires
        k.wf(),
    ensures
        parse_validator_public_key(proto_validator_public_key(k)) == Ok::<
            SpecValidatorPublicKey,
            Failure,
        >(k),
{
}

pub open spec fn proto_validator_signature(s: SpecValidatorSignature) -> api::BytesOf<Seq<u8>> {
    api::BytesOf { bytes: s.bytes }
}

/// The signature a message holds, when `k256` accepts its bytes.
pub open spec fn parse_validator_signature(m: api::BytesOf<Seq<u8>>) -> Result<
    SpecValidatorSignature,
    Failure,
> {
    if is_secp256k1_signature(m.bytes) {
        Ok(ValidatorSignatureOf { bytes: m.bytes })
    } else {
        Err(Failure::Crypto(CryptoError::InvalidValidatorSignature))
    }
}

pub fn validator_signature_to_proto(signature: ValidatorSignature) -> (res:
    api::ValidatorSignature)
    ensures
        res@ == proto_validator_signature(signature@),
{
    api::BytesOf { bytes: signature.bytes }
}

pub fn validator_signature_from_proto(signature: api::ValidatorSignature) -> (res: Result<
    ValidatorSignature,
    GrpcProtoConversionError,
>)
    ensures
        outcome(res) == parse_validator_signature(signature@),
{
    if is_valid_secp256k1_signature(signature.bytes.as_slice()) {
        Ok(ValidatorSignatureOf { bytes: signature.bytes })
    } else {
        Err(GrpcProtoConversionError::CryptoError(CryptoError::InvalidValidatorSignature))
    }
}

/// A well-formed validator signature survives the trip through its message;
/// a message that reads as a signature is the message of that signature.
pub proof fn law_validator_signature_round_trip(s: SpecValidatorSignature, m: api::BytesOf<Seq<u8>>)
    requires
        s.wf(),
    ensures
        parse_validator_signature(proto_validator_signature(s)) == Ok::<
            SpecValidatorSignature,
            Failure,
        >(s),
        parse_validator_signature(m) matches Ok(s2) ==> s2.wf() && proto_validator_signature(s2)
            == m,
{
}

// ---------------------------------------------------------------- encoded values

pub open spec fn proto_encoded(e: SpecEncoded) -> api::BytesOf<Seq<u8>> {
    api::BytesOf { bytes: e.bytes }
}

pub open spec fn parse_encoded(m: api::BytesOf<Seq<u8>>) -> SpecEncoded {
    EncodedOf { bytes: m.bytes }
}

/// The message of a value held in its encoding (an account owner, key or
/// signature, a blob identifier or content): the encoding itself.
pub fn encoded_to_proto(value: EncodedOf<Vec<u8>>) -> (res: api::BytesOf<Vec<u8>>)
    ensures
        res@ == proto_encoded(value@),
{
    api::BytesOf { bytes: value.bytes }
}

pub fn encoded_from_proto(message: api::BytesOf<Vec<u8>>) -> (res: EncodedOf<Vec<u8>>)
    ensures
        res@ == parse_encoded(message@),
{
    EncodedOf { bytes: message.bytes }
}

/// Encoded values and their messages are in one-to-one correspondence.
pub proof fn law_encoded_round_trip(e: SpecEncoded, m: api::BytesOf<Seq<u8>>)
    ensures
        parse_encoded(proto_encoded(e)) == e,
        proto_encoded(parse_encoded(m)) == m,
{
}

// ---------------------------------------------------------------- lists

pub open spec fn proto_blob_ids(ids: Seq<SpecEncoded>) -> api::SpecBlobIds {
    api::SpecBlobIds { bytes: ids.map_values(|id: SpecEncoded| id.bytes) }
}

pub open spec fn parse_blob_ids(m: api::SpecBlobIds) -> Seq<SpecEncoded> {
    m.bytes.map_values(|b: Seq<u8>| EncodedOf { bytes: b })
}

pub fn blob_ids_to_proto(ids: Vec<EncodedOf<Vec<u8>>>) -> (res: api::BlobIds)
    ensures
        res@ == proto_blob_ids(seq_view(ids@)),
{
    let ghost elems = ids@;
    let mut bytes: Vec<Vec<u8>> = Vec::new();
    for id in it: ids.into_iter()
        invariant
            it.seq() == elems,
            bytes@.len() == it.index(),
            forall|j: int| 0 <= j < it.index() ==> (#[trigger] bytes@[j])@ == elems[j].bytes@,
    {
        bytes.push(id.bytes);
    }
    let res = api::BlobIds { bytes };
    assert(res@.bytes =~= proto_blob_ids(seq_view(elems)).bytes);
    res
}

pub fn blob_ids_from_proto(ids: api::BlobIds) -> (res: Vec<EncodedOf<Vec<u8>>>)
    ensures
        seq_view(res@) == parse_blob_ids(ids@),
{
    let ghost elems = ids.bytes@;
    let mut out: Vec<EncodedOf<Vec<u8>>> = Vec::new();
    for b in it: ids.bytes.into_iter()
        invariant
            it.seq() == elems,
            out@.len() == it.index(),
            forall|j: int| 0 <= j < it.index() ==> (#[trigger] out@[j])@.bytes == elems[j]@,
    {
        out.push(EncodedOf { bytes: b });
    }
    assert(seq_view(out@) =~= parse_blob_ids(ids@));
    out
}

/// Lists of encoded blob identifiers and their messages are in one-to-one
/// correspondence.
pub proof fn law_blob_ids_round_trip(ids: Seq<SpecEncoded>, m: api::SpecBlobIds)
    ensures
        parse_blob_ids(proto_blob_ids(ids)) == ids,
        proto_blob_ids(parse_blob_ids(m)) == m,
{
    assert(parse_blob_ids(proto_blob_ids(ids)) =~= ids);
    assert(proto_blob_ids(parse_blob_ids(m)).bytes =~= m.bytes);
}

pub open spec fn proto_certificates_batch_request(hashes: Seq<SpecCryptoHash>) -> api::SpecCertificatesBatchRequest {
    api::SpecCertificatesBatchRequest { hashes: hashes.map_values(|h: SpecCryptoHash| proto_crypto_hash(h)) }
}

/// The request for the certificates with the given hashes, in their order.
pub fn certificates_batch_request(hashes: Vec<CryptoHash>) -> (res: api::CertificatesBatchRequest)
    ensures
        res@ == proto_certificates_batch_request(seq_view(hashes@)),
{
    let ghost elems = hashes@;
    let mut out: Vec<api::CryptoHash> = Vec::new();
    for h in it: hashes.into_iter()
        invariant
            it.seq() == elems,
            out@.len() == it.index(),
            forall|j: int| 0 <= j < it.index() ==> (#[trigger] out@[j])@ == proto_crypto_hash(elems[j]@),
    {
        out.push(crypto_hash_to_proto(h));
    }
    let res = api::CertificatesBatchRequest { hashes: out };
    assert(res@.hashes =~= proto_certificates_batch_request(seq_view(elems)).hashes);
    res
}

// ---------------------------------------------------------------- where each field goes

/// A hash and a chain id are written as their 32 bytes, and a message that
/// reads as one gives exactly its bytes.
pub proof fn law_hash_and_chain_id_fields(
    h: SpecCryptoHash,
    c: SpecChainId,
    mh: api::CryptoHashOf<Seq<u8>>,
    mc: api::ChainIdOf<Seq<u8>>,
)
    ensures
        proto_crypto_hash(h).bytes == h.bytes,
        proto_chain_id(c).bytes == c.0.bytes,
        parse_crypto_hash(mh) matches Ok(h2) ==> h2.bytes == mh.bytes && mh.bytes.len() == 32,
        parse_chain_id(mc) matches Ok(c2) ==> c2.0.bytes == mc.bytes && mc.bytes.len() == 32,
{
}

/// A height and a crate version are written field by field, and read back
/// the same way.
pub proof fn law_height_and_crate_version_fields(
    h: BlockHeight,
    mh: api::BlockHeight,
    v: CrateVersion,
    mv: api::CrateVersion,
)
    ensures
        proto_block_height(h).height == h.0,
        parse_block_height(mh).0 == mh.height,
        proto_crate_version(v).major == v.major,
        proto_crate_version(v).minor == v.minor,
        proto_crate_version(v).patch == v.patch,
        parse_crate_version(mv).major == mv.major,
        parse_crate_version(mv).minor == mv.minor,
        parse_crate_version(mv).patch == mv.patch,
{
}

/// Each part of a version goes to the message field of the same name, the
/// crate version always being present, and each part is read from the field
/// of the same name.
pub proof fn law_version_info_fields(v: SpecVersionInfo, m: api::VersionInfoOf<Seq<char>>)
    ensures
        proto_version_info(v).crate_version == Some(
            api::CrateVersion {
                major: v.crate_version.major,
                minor: v.crate_version.minor,
                patch: v.crate_version.patch,
            },
        ),
        proto_version_info(v).git_commit == v.git_commit,
        proto_version_info(v).git_dirty == v.git_dirty,
        proto_version_info(v).rpc_hash == v.rpc_hash,
        proto_version_info(v).graphql_hash == v.graphql_hash,
        proto_version_info(v).wit_hash == v.wit_hash,
        m.crate_version matches Some(c) ==> parse_version_info(m).crate_version == (CrateVersion {
            major: c.major,
            minor: c.minor,
            patch: c.patch,
        }),
        parse_version_info(m).git_commit == m.git_commit,
        parse_version_info(m).git_dirty == m.git_dirty,
        parse_version_info(m).rpc_hash == m.rpc_hash,
        parse_version_info(m).graphql_hash == m.graphql_hash,
        parse_version_info(m).wit_hash == m.wit_hash,
{
}

/// Each part of a network description goes to the message field of the
/// same name, and a description read from a message takes each part from
/// the field of the same name.
pub proof fn law_network_description_fields(
    n: SpecNetworkDescription,
    m: api::NetworkDescriptionOf<Seq<char>, Seq<u8>>,
)
    ensures
        proto_network_description(n).name == n.name,
        proto_network_description(n).genesis_config_hash == Some(
            api::CryptoHashOf { bytes: n.genesis_config_hash.bytes },
        ),
        proto_network_description(n).genesis_timestamp == n.genesis_timestamp.0,
        proto_network_description(n).genesis_committee_blob_hash == Some(
            api::CryptoHashOf { bytes: n.genesis_committee_blob_hash.bytes },
        ),
        proto_network_description(n).admin_chain_id == Some(
            api::ChainIdOf { bytes: n.admin_chain_id.0.bytes },
        ),
        parse_network_description(m) matches Ok(d) ==> {
            &&& d.name == m.name
            &&& m.genesis_config_hash matches Some(h) && d.genesis_config_hash.bytes == h.bytes
            &&& d.genesis_timestamp.0 == m.genesis_timestamp
            &&& m.genesis_committee_blob_hash matches Some(h)
                && d.genesis_committee_blob_hash.bytes == h.bytes
            &&& m.admin_chain_id matches Some(c) && d.admin_chain_id.0.bytes == c.bytes
        },
{
}

/// Keys, signatures and encoded values are written as their bytes; a
/// signature or an encoded value is read as the message's bytes, and a key
/// as the compressed form of the key they encode.
pub proof fn law_key_signature_encoded_fields(
    k: SpecValidatorPublicKey,
    s: SpecValidatorSignature,
    e: SpecEncoded,
    m: api::BytesOf<Seq<u8>>,
)
    ensures
        proto_validator_public_key(k).bytes == k.bytes,
        proto_validator_signature(s).bytes == s.bytes,
        proto_encoded(e).bytes == e.bytes,
        parse_validator_public_key(m) matches Ok(k2) ==> secp256k1_compressed_key(m.bytes) == Some(
            k2.bytes,
        ),
        parse_validator_signature(m) matches Ok(s2) ==> s2.bytes == m.bytes,
        parse_encoded(m).bytes == m.bytes,
{
}

/// Lists of blob ids and of requested hashes keep their length and order.
pub proof fn law_list_fields(ids: Seq<SpecEncoded>, m: api::SpecBlobIds, hashes: Seq<SpecCryptoHash>)
    ensures
        proto_blob_ids(ids).bytes.len() == ids.len(),
        forall|i: int| 0 <= i < ids.len() ==> #[trigger] proto_blob_ids(ids).bytes[i] == ids[i].bytes,
        parse_blob_ids(m).len() == m.bytes.len(),
        forall|i: int| 0 <= i < m.bytes.len() ==> #[trigger] parse_blob_ids(m)[i].bytes == m.bytes[i],
        proto_certificates_batch_request(hashes).hashes.len() == hashes.len(),
        forall|i: int|
            0 <= i < hashes.len() ==> #[trigger] proto_certificates_batch_request(hashes).hashes[i]
                == (api::CryptoHashOf { bytes: hashes[i].bytes }),
{
}

// ---------------------------------------------------------------- which error comes

/// Whether a hash field is present and holds 32 bytes.
pub open spec fn hash_field_ok(h: Option<api::CryptoHashOf<Seq<u8>>>) -> bool {
    h is Some && h.unwrap().bytes.len() == 32
}

/// Whether a chain id field is present and holds 32 bytes.
pub open spec fn chain_id_field_ok(c: Option<api::ChainIdOf<Seq<u8>>>) -> bool {
    c is Some && c.unwrap().bytes.len() == 32
}

/// A hash is read from exactly 32 bytes; any other length is refused with
/// that length.
pub proof fn law_crypto_hash_errors(m: api::CryptoHashOf<Seq<u8>>)
    ensures
        parse_crypto_hash(m) is Ok <==> m.bytes.len() == 32,
        m.bytes.len() != 32 ==> parse_crypto_hash(m) == Err::<SpecCryptoHash, Failure>(
            Failure::Crypto(CryptoError::IncorrectHashSize(m.bytes.len() as usize)),
        ),
{
}

/// The parts of a network description are read in the order genesis
/// configuration hash, admin chain id, genesis committee blob hash: the
/// first that is missing is reported missing, the first that is not 32
/// bytes long is reported with its length, and a description with all
/// three is read.
pub proof fn law_network_description_errors(m: api::NetworkDescriptionOf<Seq<char>, Seq<u8>>)
    ensures
        m.genesis_config_hash is None ==> parse_network_description(m) == Err::<
            SpecNetworkDescription,
            Failure,
        >(Failure::MissingField),
        m.genesis_config_hash is Some && m.genesis_config_hash.unwrap().bytes.len() != 32
            ==> parse_network_description(m) == Err::<SpecNetworkDescription, Failure>(
            Failure::Crypto(
                CryptoError::IncorrectHashSize(m.genesis_config_hash.unwrap().bytes.len() as usize),
            ),
        ),
        hash_field_ok(m.genesis_config_hash) && m.admin_chain_id is None
            ==> parse_network_description(m) == Err::<SpecNetworkDescription, Failure>(
            Failure::MissingField,
        ),
        hash_field_ok(m.genesis_config_hash) && chain_id_field_ok(m.admin_chain_id)
            && m.genesis_committee_blob_hash is None ==> parse_network_description(m) == Err::<
            SpecNetworkDescription,
            Failure,
        >(Failure::MissingField),
        parse_network_description(m) is Ok <==> (hash_field_ok(m.genesis_config_hash)
            && chain_id_field_ok(m.admin_chain_id) && hash_field_ok(m.genesis_committee_blob_hash)),
{
}

/// A validator key is refused, as an invalid key, exactly when `k256`
/// rejects its bytes; a validator signature is refused, as an invalid
/// signature, exactly when its bytes are not 64 bytes of two scalars in
/// range.
pub proof fn law_key_and_signature_errors(m: api::BytesOf<Seq<u8>>)
    ensures
        parse_validator_public_key(m) is Ok <==> secp256k1_compressed_key(m.bytes) is Some,
        parse_validator_public_key(m) is Err ==> parse_validator_public_key(m) == Err::<
            SpecValidatorPublicKey,
            Failure,
        >(Failure::Crypto(CryptoError::InvalidValidatorPublicKey)),
        parse_validator_signature(m) is Ok <==> is_secp256k1_signature(m.bytes),
        parse_validator_signature(m) is Err ==> parse_validator_signature(m) == Err::<
            SpecValidatorSignature,
            Failure,
        >(Failure::Crypto(CryptoError::InvalidValidatorSignature)),
        m.bytes.len() != 64 ==> parse_validator_signature(m) is Err,
{
}

} // verus!

//! The node's values that travel in the gRPC messages.
//!
//! Like the messages, each value is generic over the type of its byte strings
//! (`B`) and text (`S`). Parts that the protocol carries as bincode encodings
//! of values this library does not interpret (rounds, signature lists, block
//! contents, message bundles, notification reasons, chain information, node
//! errors, account owners and keys, blob identifiers and contents) are held
//! as those encodings and are not decoded.
//!
//! The fields are public, so a value of these types need not stand for a
//! value of the node: a chain id may hold 31 bytes. The spec predicate `wf`
//! of each type says which values do stand for one; the round-trip laws are
//! stated for those, and the `parse_exact` laws show, for the messages they
//! cover, that what a decoder returns is `wf`. An encoder accepts any value
//! and writes the message its contract states.
use crate::codec::{
    holds_list, holds_variant_index, is_secp256k1_signature, secp256k1_compressed_key,
};
use crate::views::opt_view;
use vstd::prelude::*;

verus! {

/// A 32-byte hash.
#[derive(Debug, Clone, PartialEq, Eq)]
pub struct CryptoHashOf<B> {
    pub bytes: B,
}

pub type CryptoHash = CryptoHashOf<Vec<u8>>;

pub type SpecCryptoHash = CryptoHashOf<Seq<u8>>;

impl<B: View> View for CryptoHashOf<B> {
    type V = CryptoHashOf<B::V>;

    open spec fn view(&self) -> CryptoHashOf<B::V> {
        CryptoHashOf { bytes: self.bytes@ }
    }
}

impl SpecCryptoHash {
    pub open spec fn wf(self) -> bool {
        self.bytes.len() == 32
    }
}

/// The identifier of a chain: the hash of its description.
#[derive(Debug, Clone, PartialEq, Eq)]
pub struct ChainIdOf<B>(pub CryptoHashOf<B>);

pub type ChainId = ChainIdOf<Vec<u8>>;

pub type SpecChainId = ChainIdOf<Seq<u8>>;

impl<B: View> View for ChainIdOf<B> {
    type V = ChainIdOf<B::V>;

    open spec fn view(&self) -> ChainIdOf<B::V> {
        ChainIdOf(self.0@)
    }
}

impl SpecChainId {
    pub open spec fn wf(self) -> bool {
        self.0.wf()
    }
}

#[derive(Debug, Clone, Copy, PartialEq, Eq, Structural)]
pub struct BlockHeight(pub u64);

impl View for BlockHeight {
    type V = BlockHeight;

    open spec fn view(&self) -> BlockHeight {
        *self
    }
}

/// A point in time, in microseconds.
#[derive(Debug, Clone, Copy, PartialEq, Eq, Structural)]
pub struct Timestamp(pub u64);

impl View for Timestamp {
    type V = Timestamp;

    open spec fn view(&self) -> Timestamp {
        *self
    }
}

#[derive(Debug, Clone, Copy, PartialEq, Eq, Structural)]
pub struct CrateVersion {
    pub major: u32,
    pub minor: u32,
    pub patch: u32,
}

impl View for CrateVersion {
    type V = CrateVersion;

    open spec fn view(&self) -> CrateVersion {
        *self
    }
}

/// The version of a running node.
#[derive(Debug, Clone, PartialEq, Eq)]
pub struct VersionInfoOf<S> {
    pub crate_version: CrateVersion,
    pub git_commit: S,
    pub git_dirty: bool,
    pub rpc_hash: S,
    pub graphql_hash: S,
    pub wit_hash: S,
}

pub type VersionInfo = VersionInfoOf<String>;

pub type SpecVersionInfo = VersionInfoOf<Seq<char>>;

impl<S: View> View for VersionInfoOf<S> {
    type V = VersionInfoOf<S::V>;

    open spec fn view(&self) -> VersionInfoOf<S::V> {
        VersionInfoOf {
            crate_version: self.crate_version,
            git_commit: self.git_commit@,
            git_dirty: self.git_dirty,
            rpc_hash: self.rpc_hash@,
            graphql_hash: self.graphql_hash@,
            wit_hash: self.wit_hash@,
        }
    }
}

/// What identifies a network.
#[derive(Debug, Clone, PartialEq, Eq)]
pub struct NetworkDescriptionOf<S, B> {
    pub name: S,
    pub genesis_config_hash: CryptoHashOf<B>,
    pub genesis_timestamp: Timestamp,
    pub genesis_committee_blob_hash: CryptoHashOf<B>,
    pub admin_chain_id: ChainIdOf<B>,
}

pub type NetworkDescription = NetworkDescriptionOf<String, Vec<u8>>;

pub type SpecNetworkDescription = NetworkDescriptionOf<Seq<char>, Seq<u8>>;

impl<S: View, B: View> View for NetworkDescriptionOf<S, B> {
    type V = NetworkDescriptionOf<S::V, B::V>;

    open spec fn view(&self) -> NetworkDescriptionOf<S::V, B::V> {
        NetworkDescriptionOf {
            name: self.name@,
            genesis_config_hash: self.genesis_config_hash@,
            genesis_timestamp: self.genesis_timestamp,
            genesis_committee_blob_hash: self.genesis_committee_blob_hash@,
            admin_chain_id: self.admin_chain_id@,
        }
    }
}

impl SpecNetworkDescription {
    pub open spec fn wf(self) -> bool {
        &&& self.genesis_config_hash.wf()
        &&& self.genesis_committee_blob_hash.wf()
        &&& self.admin_chain_id.wf()
    }
}

/// A value that the protocol carries as its bincode encoding and that this
/// library does not interpret.
#[derive(Debug, Clone, PartialEq, Eq)]
pub struct EncodedOf<B> {
    pub bytes: B,
}

pub type SpecEncoded = EncodedOf<Seq<u8>>;

impl<B: View> View for EncodedOf<B> {
    type V = EncodedOf<B::V>;

    open spec fn view(&self) -> EncodedOf<B::V> {
        EncodedOf { bytes: self.bytes@ }
    }
}

/// The owner of an account, in its bincode encoding.
pub type AccountOwner = EncodedOf<Vec<u8>>;

/// The identifier of a blob, in its bincode encoding.
pub type BlobId = EncodedOf<Vec<u8>>;

/// The content of a blob, in its bincode encoding.
pub type BlobContent = EncodedOf<Vec<u8>>;

/// The public key of an account, in the encoding of its signature scheme.
pub type AccountPublicKey = EncodedOf<Vec<u8>>;

/// The signature of an account, in the encoding of its signature scheme.
pub type AccountSignature = EncodedOf<Vec<u8>>;

/// The secp256k1 public key of a validator, held as its compressed SEC1
/// encoding.
#[derive(Debug, Clone, PartialEq, Eq)]
pub struct ValidatorPublicKeyOf<B> {
    pub bytes: B,
}

pub type ValidatorPublicKey = ValidatorPublicKeyOf<Vec<u8>>;

pub type SpecValidatorPublicKey = ValidatorPublicKeyOf<Seq<u8>>;

impl<B: View> View for ValidatorPublicKeyOf<B> {
    type V = ValidatorPublicKeyOf<B::V>;

    open spec fn view(&self) -> ValidatorPublicKeyOf<B::V> {
        ValidatorPublicKeyOf { bytes: self.bytes@ }
    }
}

impl SpecValidatorPublicKey {
    /// The bytes are the compressed encoding of a key.
    pub open spec fn wf(self) -> bool {
        secp256k1_compressed_key(self.bytes) == Some(self.bytes)
    }
}

/// The secp256k1 ECDSA signature of a validator, held as `r || s`.
#[derive(Debug, Clone, PartialEq, Eq)]
pub struct ValidatorSignatureOf<B> {
    pub bytes: B,
}

pub type ValidatorSignature = ValidatorSignatureOf<Vec<u8>>;

pub type SpecValidatorSignature = ValidatorSignatureOf<Seq<u8>>;

impl<B: View> View for ValidatorSignatureOf<B> {
    type V = ValidatorSignatureOf<B::V>;

    open spec fn view(&self) -> ValidatorSignatureOf<B::V> {
        ValidatorSignatureOf { bytes: self.bytes@ }
    }
}

impl SpecValidatorSignature {
    pub open spec fn wf(self) -> bool {
        is_secp256k1_signature(self.bytes)
    }
}

/// What a certificate certifies.
#[derive(Debug, Clone, Copy, PartialEq, Eq, Structural)]
pub enum CertificateKind {
    Timeout,
    Validated,
    Confirmed,
}

impl View for CertificateKind {
    type V = CertificateKind;

    open spec fn view(&self) -> CertificateKind {
        *self
    }
}

/// A certified value, known by its hash.
#[derive(Debug, Clone, PartialEq, Eq)]
pub struct LiteValueOf<B> {
    pub value_hash: CryptoHashOf<B>,
    pub chain_id: ChainIdOf<B>,
    pub kind: CertificateKind,
}

pub type LiteValue = LiteValueOf<Vec<u8>>;

pub type SpecLiteValue = LiteValueOf<Seq<u8>>;

impl<B: View> View for LiteValueOf<B> {
    type V = LiteValueOf<B::V>;

    open spec fn view(&self) -> LiteValueOf<B::V> {
        LiteValueOf { value_hash: self.value_hash@, chain_id: self.chain_id@, kind: self.kind }
    }
}

impl SpecLiteValue {
    pub open spec fn wf(self) -> bool {
        self.value_hash.wf() && self.chain_id.wf()
    }
}

/// A certificate that refers to its value by hash. Its round and its list
/// of signatures are held in their bincode encodings.
#[derive(Debug, Clone, PartialEq, Eq)]
pub struct LiteCertificateOf<B> {
    pub value: LiteValueOf<B>,
    pub round: B,
    pub signatures: B,
}

pub type LiteCertificate = LiteCertificateOf<Vec<u8>>;

pub type SpecLiteCertificate = LiteCertificateOf<Seq<u8>>;

impl<B: View> View for LiteCertificateOf<B> {
    type V = LiteCertificateOf<B::V>;

    open spec fn view(&self) -> LiteCertificateOf<B::V> {
        LiteCertificateOf {
            value: self.value@,
            round: self.round@,
            signatures: self.signatures@,
        }
    }
}

/// A request to handle a lite certificate.
#[derive(Debug, Clone, PartialEq, Eq)]
pub struct HandleLiteCertRequestOf<B> {
    pub certificate: LiteCertificateOf<B>,
    pub wait_for_outgoing_messages: bool,
}

pub type HandleLiteCertRequest = HandleLiteCertRequestOf<Vec<u8>>;

pub type SpecHandleLiteCertRequest = HandleLiteCertRequestOf<Seq<u8>>;

impl<B: View> View for HandleLiteCertRequestOf<B> {
    type V = HandleLiteCertRequestOf<B::V>;

    open spec fn view(&self) -> HandleLiteCertRequestOf<B::V> {
        HandleLiteCertRequestOf {
            certificate: self.certificate@,
            wait_for_outgoing_messages: self.wait_for_outgoing_messages,
        }
    }
}

impl SpecHandleLiteCertRequest {
    /// The round is the encoding of an enum and the signatures that of a
    /// list: the round begins with its variant index, and the list's length
    /// is no more than the bytes that follow it.
    pub open spec fn wf(self) -> bool {
        &&& self.certificate.value.wf()
        &&& holds_variant_index(self.certificate.round)
        &&& holds_list(self.certificate.signatures)
    }
}

/// A value that belongs to a chain: a block, a proposal's content or a
/// timeout. Its bincode encoding begins with its chain id; the value is held
/// as that chain id and the rest of the encoding.
#[derive(Debug, Clone, PartialEq, Eq)]
pub struct ChainValueOf<B> {
    pub chain_id: ChainIdOf<B>,
    pub rest: B,
}

pub type ChainValue = ChainValueOf<Vec<u8>>;

pub type SpecChainValue = ChainValueOf<Seq<u8>>;

impl<B: View> View for ChainValueOf<B> {
    type V = ChainValueOf<B::V>;

    open spec fn view(&self) -> ChainValueOf<B::V> {
        ChainValueOf { chain_id: self.chain_id@, rest: self.rest@ }
    }
}

impl SpecChainValue {
    pub open spec fn wf(self) -> bool {
        self.chain_id.wf()
    }

    /// The bincode encoding of the value.
    pub open spec fn encoding(self) -> Seq<u8> {
        self.chain_id.0.bytes + self.rest
    }
}

/// A certificate with its value: a round and a list of signatures (both in
/// their bincode encodings) over a value of one chain.
#[derive(Debug, Clone, PartialEq, Eq)]
pub struct GenericCertificateOf<B> {
    pub value: ChainValueOf<B>,
    pub round: B,
    pub signatures: B,
}

pub type GenericCertificate = GenericCertificateOf<Vec<u8>>;

pub type SpecGenericCertificate = GenericCertificateOf<Seq<u8>>;

/// A certificate for a timeout.
pub type TimeoutCertificate = GenericCertificate;

/// A certificate for a validated block.
pub type ValidatedBlockCertificate = GenericCertificate;

/// A certificate for a confirmed block.
pub type ConfirmedBlockCertificate = GenericCertificate;

impl<B: View> View for GenericCertificateOf<B> {
    type V = GenericCertificateOf<B::V>;

    open spec fn view(&self) -> GenericCertificateOf<B::V> {
        GenericCertificateOf {
            value: self.value@,
            round: self.round@,
            signatures: self.signatures@,
        }
    }
}

impl SpecGenericCertificate {
    /// The round is the encoding of an enum and the signatures that of a
    /// list: the round begins with its variant index, and the list's length
    /// is no more than the bytes that follow it.
    pub open spec fn wf(self) -> bool {
        &&& self.value.wf()
        &&& holds_variant_index(self.round)
        &&& holds_list(self.signatures)
    }
}

/// A certificate of any kind.
#[derive(Debug, Clone, PartialEq, Eq)]
pub enum CertificateOf<B> {
    Confirmed(GenericCertificateOf<B>),
    Validated(GenericCertificateOf<B>),
    Timeout(GenericCertificateOf<B>),
}

pub type Certificate = CertificateOf<Vec<u8>>;

pub type SpecCertificate = CertificateOf<Seq<u8>>;

impl<B: View> View for CertificateOf<B> {
    type V = CertificateOf<B::V>;

    open spec fn view(&self) -> CertificateOf<B::V> {
        match self {
            CertificateOf::Confirmed(c) => CertificateOf::Confirmed(c@),
            CertificateOf::Validated(c) => CertificateOf::Validated(c@),
            CertificateOf::Timeout(c) => CertificateOf::Timeout(c@),
        }
    }
}

impl SpecCertificate {
    pub open spec fn wf(self) -> bool {
        match self {
            CertificateOf::Confirmed(c) => c.wf(),
            CertificateOf::Validated(c) => c.wf(),
            CertificateOf::Timeout(c) => c.wf(),
        }
    }
}

/// A request to handle a timeout or a validated block certificate.
#[derive(Debug, Clone, PartialEq, Eq)]
pub struct HandleCertificateRequestOf<B> {
    pub certificate: GenericCertificateOf<B>,
}

pub type HandleTimeoutCertificateRequest = HandleCertificateRequestOf<Vec<u8>>;

pub type HandleValidatedCertificateRequest = HandleCertificateRequestOf<Vec<u8>>;

pub type SpecHandleCertificateRequest = HandleCertificateRequestOf<Seq<u8>>;

impl<B: View> View for HandleCertificateRequestOf<B> {
    type V = HandleCertificateRequestOf<B::V>;

    open spec fn view(&self) -> HandleCertificateRequestOf<B::V> {
        HandleCertificateRequestOf { certificate: self.certificate@ }
    }
}

/// A request to handle a confirmed block certificate.
#[derive(Debug, Clone, PartialEq, Eq)]
pub struct HandleConfirmedCertificateRequestOf<B> {
    pub certificate: GenericCertificateOf<B>,
    pub wait_for_outgoing_messages: bool,
}

pub type HandleConfirmedCertificateRequest = HandleConfirmedCertificateRequestOf<Vec<u8>>;

pub type SpecHandleConfirmedCertificateRequest = HandleConfirmedCertificateRequestOf<Seq<u8>>;

impl<B: View> View for HandleConfirmedCertificateRequestOf<B> {
    type V = HandleConfirmedCertificateRequestOf<B::V>;

    open spec fn view(&self) -> HandleConfirmedCertificateRequestOf<B::V> {
        HandleConfirmedCertificateRequestOf {
            certificate: self.certificate@,
            wait_for_outgoing_messages: self.wait_for_outgoing_messages,
        }
    }
}

/// A proposal of a block: its content (in which the block comes first), the
/// proposer's signature and, when the proposal re-proposes a block, the
/// bincode encoding of the original proposal.
#[derive(Debug, Clone, PartialEq, Eq)]
pub struct BlockProposalOf<B> {
    pub content: ChainValueOf<B>,
    pub signature: EncodedOf<B>,
    pub original_proposal: Option<B>,
}

pub type BlockProposal = BlockProposalOf<Vec<u8>>;

pub type SpecBlockProposal = BlockProposalOf<Seq<u8>>;

impl<B: View> View for BlockProposalOf<B> {
    type V = BlockProposalOf<B::V>;

    open spec fn view(&self) -> BlockProposalOf<B::V> {
        BlockProposalOf {
            content: self.content@,
            signature: self.signature@,
            original_proposal: opt_view(self.original_proposal),
        }
    }
}

impl SpecBlockProposal {
    /// An original proposal is the encoding of an enum, so it begins with
    /// its variant index.
    pub open spec fn wf(self) -> bool {
        &&& self.content.wf()
        &&& (self.original_proposal matches Some(p) ==> holds_variant_index(p))
    }
}

/// A request from one chain to another. The message bundles are held in
/// their bincode encoding.
#[derive(Debug, Clone, PartialEq, Eq)]
pub enum CrossChainRequestOf<B> {
    UpdateRecipient { sender: ChainIdOf<B>, recipient: ChainIdOf<B>, bundles: B },
    ConfirmUpdatedRecipient {
        sender: ChainIdOf<B>,
        recipient: ChainIdOf<B>,
        latest_height: BlockHeight,
    },
}

pub type CrossChainRequest = CrossChainRequestOf<Vec<u8>>;

pub type SpecCrossChainRequest = CrossChainRequestOf<Seq<u8>>;

impl<B: View> View for CrossChainRequestOf<B> {
    type V = CrossChainRequestOf<B::V>;

    open spec fn view(&self) -> CrossChainRequestOf<B::V> {
        match self {
            CrossChainRequestOf::UpdateRecipient {
                sender,
                recipient,
                bundles,
            } => CrossChainRequestOf::UpdateRecipient {
                sender: sender@,
                recipient: recipient@,
                bundles: bundles@,
            },
            CrossChainRequestOf::ConfirmUpdatedRecipient {
                sender,
                recipient,
                latest_height,
            } => CrossChainRequestOf::ConfirmUpdatedRecipient {
                sender: sender@,
                recipient: recipient@,
                latest_height: *latest_height,
            },
        }
    }
}

impl SpecCrossChainRequest {
    pub open spec fn wf(self) -> bool {
        match self {
            CrossChainRequestOf::UpdateRecipient { sender, recipient, bundles } => sender.wf()
                && recipient.wf() && holds_list(bundles),
            CrossChainRequestOf::ConfirmUpdatedRecipient { sender, recipient, .. } => sender.wf()
                && recipient.wf(),
        }
    }
}

/// A notification about a chain. The reason is held in its bincode encoding.
#[derive(Debug, Clone, PartialEq, Eq)]
pub struct NotificationOf<B> {
    pub chain_id: ChainIdOf<B>,
    pub reason: B,
}

pub type Notification = NotificationOf<Vec<u8>>;

pub type SpecNotification = NotificationOf<Seq<u8>>;

impl<B: View> View for NotificationOf<B> {
    type V = NotificationOf<B::V>;

    open spec fn view(&self) -> NotificationOf<B::V> {
        NotificationOf { chain_id: self.chain_id@, reason: self.reason@ }
    }
}

impl SpecNotification {
    /// The reason is the bincode encoding of an enum, so it begins with a
    /// 4-byte variant index.
    pub open spec fn wf(self) -> bool {
        self.chain_id.wf() && holds_variant_index(self.reason)
    }
}

/// The heights from `start` on, at most `limit` of them when it is given.
#[derive(Debug, Clone, Copy, PartialEq, Eq, Structural)]
pub struct BlockHeightRange {
    pub start: BlockHeight,
    pub limit: Option<u64>,
}

impl View for BlockHeightRange {
    type V = BlockHeightRange;

    open spec fn view(&self) -> BlockHeightRange {
        *self
    }
}

/// A query about a chain.
#[derive(Debug, Clone, PartialEq, Eq)]
pub struct ChainInfoQueryOf<B> {
    pub chain_id: ChainIdOf<B>,
    pub test_next_block_height: Option<BlockHeight>,
    pub request_committees: bool,
    pub request_owner_balance: EncodedOf<B>,
    pub request_pending_message_bundles: bool,
    pub request_sent_certificate_hashes_in_range: Option<BlockHeightRange>,
    pub request_received_log_excluding_first_n: Option<u64>,
    pub request_manager_values: bool,
    pub request_leader_timeout: bool,
    pub request_fallback: bool,
}

pub type ChainInfoQuery = ChainInfoQueryOf<Vec<u8>>;

pub type SpecChainInfoQuery = ChainInfoQueryOf<Seq<u8>>;

impl<B: View> View for ChainInfoQueryOf<B> {
    type V = ChainInfoQueryOf<B::V>;

    open spec fn view(&self) -> ChainInfoQueryOf<B::V> {
        ChainInfoQueryOf {
            chain_id: self.chain_id@,
            test_next_block_height: self.test_next_block_height,
            request_committees: self.request_committees,
            request_owner_balance: self.request_owner_balance@,
            request_pending_message_bundles: self.request_pending_message_bundles,
            request_sent_certificate_hashes_in_range: self.request_sent_certificate_hashes_in_range,
            request_received_log_excluding_first_n: self.request_received_log_excluding_first_n,
            request_manager_values: self.request_manager_values,
            request_leader_timeout: self.request_leader_timeout,
            request_fallback: self.request_fallback,
        }
    }
}

impl SpecChainInfoQuery {
    pub open spec fn wf(self) -> bool {
        self.chain_id.wf()
    }
}

/// The answer to a chain information query: the information in its bincode
/// encoding, and the signature of the validator that answered, if any.
#[derive(Debug, Clone, PartialEq, Eq)]
pub struct ChainInfoResponseOf<B> {
    pub info: B,
    pub signature: Option<ValidatorSignatureOf<B>>,
}

pub type ChainInfoResponse = ChainInfoResponseOf<Vec<u8>>;

pub type SpecChainInfoResponse = ChainInfoResponseOf<Seq<u8>>;

impl<B: View> View for ChainInfoResponseOf<B> {
    type V = ChainInfoResponseOf<B::V>;

    open spec fn view(&self) -> ChainInfoResponseOf<B::V> {
        ChainInfoResponseOf { info: self.info@, signature: opt_view(self.signature) }
    }
}

impl SpecChainInfoResponse {
    pub open spec fn wf(self) -> bool {
        match self.signature {
            Some(s) => s.wf(),
            None => true,
        }
    }
}

/// The error that a node reports for a message it could not convert.
#[derive(Debug, Clone, PartialEq, Eq)]
pub enum NodeError {
    GrpcError { error: String },
}

/// The view of a value keeps each field in its place: each byte string
/// becomes its bytes, each text its characters, each number and flag itself.
pub proof fn law_value_views_keep_fields(
    g: GenericCertificate,
    l: LiteCertificate,
    r: CrossChainRequest,
    n: NetworkDescription,
    v: VersionInfo,
    p: BlockProposal,
)
    ensures
        g@.value.chain_id.0.bytes == g.value.chain_id.0.bytes@ && g@.value.rest == g.value.rest@
            && g@.round == g.round@ && g@.signatures == g.signatures@,
        l@.value.value_hash.bytes == l.value.value_hash.bytes@ && l@.value.chain_id.0.bytes
            == l.value.chain_id.0.bytes@ && l@.value.kind == l.value.kind && l@.round == l.round@
            && l@.signatures == l.signatures@,
        r matches CrossChainRequestOf::UpdateRecipient { sender, recipient, bundles }
            ==> r@ == (CrossChainRequestOf::UpdateRecipient {
            sender: ChainIdOf(CryptoHashOf { bytes: sender.0.bytes@ }),
            recipient: ChainIdOf(CryptoHashOf { bytes: recipient.0.bytes@ }),
            bundles: bundles@,
        }),
        r matches CrossChainRequestOf::ConfirmUpdatedRecipient { sender, recipient, latest_height }
            ==> r@ == (CrossChainRequestOf::ConfirmUpdatedRecipient {
            sender: ChainIdOf(CryptoHashOf { bytes: sender.0.bytes@ }),
            recipient: ChainIdOf(CryptoHashOf { bytes: recipient.0.bytes@ }),
            latest_height,
        }),
        n@.name == n.name@ && n@.genesis_config_hash.bytes == n.genesis_config_hash.bytes@
            && n@.genesis_committee_blob_hash.bytes == n.genesis_committee_blob_hash.bytes@
            && n@.admin_chain_id.0.bytes == n.admin_chain_id.0.bytes@ && n@.genesis_timestamp
            == n.genesis_timestamp,
        v@.crate_version == v.crate_version && v@.git_commit == v.git_commit@ && v@.git_dirty
            == v.git_dirty && v@.rpc_hash == v.rpc_hash@ && v@.graphql_hash == v.graphql_hash@
            && v@.wit_hash == v.wit_hash@,
        p@.content.chain_id.0.bytes == p.content.chain_id.0.bytes@ && p@.content.rest
            == p.content.rest@ && p@.signature.bytes == p.signature.bytes@,
        p.original_proposal matches Some(x) ==> p@.original_proposal == Some(x@),
        p.original_proposal is None ==> (p@.original_proposal is None),
{
}

} // verus!

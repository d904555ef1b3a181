//! The messages of the gRPC protocol. Each message is generic over the type
//! of its byte strings (`B`) and text (`S`): the executable messages use
//! `Vec<u8>` and `String`, their views `Seq<u8>` and `Seq<char>`.
use crate::views::{opt_view, seq_view};
use vstd::prelude::*;

verus! {

/// The wire number of a timeout certificate.
pub const CERTIFICATE_KIND_TIMEOUT: i32 = 0;

/// The wire number of a validated block certificate.
pub const CERTIFICATE_KIND_VALIDATED: i32 = 1;

/// The wire number of a confirmed block certificate.
pub const CERTIFICATE_KIND_CONFIRMED: i32 = 2;

#[derive(Debug, Clone, Copy, PartialEq, Eq, Default, Structural)]
pub struct CrateVersion {
    pub major: u32,
    pub minor: u32,
    pub patch: u32,
}

impl View for CrateVersion {
    type V = CrateVersion;

    open spec fn view(&self) -> CrateVersion {
        *self
    }
}

#[derive(Debug, Clone, PartialEq, Eq, Default)]
pub struct VersionInfoOf<S> {
    pub crate_version: Option<CrateVersion>,
    pub git_commit: S,
    pub git_dirty: bool,
    pub rpc_hash: S,
    pub graphql_hash: S,
    pub wit_hash: S,
}

pub type VersionInfo = VersionInfoOf<String>;

impl<S: View> View for VersionInfoOf<S> {
    type V = VersionInfoOf<S::V>;

    open spec fn view(&self) -> VersionInfoOf<S::V> {
        VersionInfoOf {
            crate_version: self.crate_version,
            git_commit: self.git_commit@,
            git_dirty: self.git_dirty,
            rpc_hash: self.rpc_hash@,
            graphql_hash: self.graphql_hash@,
            wit_hash: self.wit_hash@,
        }
    }
}

#[derive(Debug, Clone, PartialEq, Eq, Default)]
pub struct ChainIdOf<B> {
    pub bytes: B,
}

pub type ChainId = ChainIdOf<Vec<u8>>;

impl<B: View> View for ChainIdOf<B> {
    type V = ChainIdOf<B::V>;

    open spec fn view(&self) -> ChainIdOf<B::V> {
        ChainIdOf { bytes: self.bytes@ }
    }
}

#[derive(Debug, Clone, PartialEq, Eq, Default)]
pub struct CryptoHashOf<B> {
    pub bytes: B,
}

pub type CryptoHash = CryptoHashOf<Vec<u8>>;

impl<B: View> View for CryptoHashOf<B> {
    type V = CryptoHashOf<B::V>;

    open spec fn view(&self) -> CryptoHashOf<B::V> {
        CryptoHashOf { bytes: self.bytes@ }
    }
}

#[derive(Debug, Clone, Copy, PartialEq, Eq, Default, Structural)]
pub struct BlockHeight {
    pub height: u64,
}

impl View for BlockHeight {
    type V = BlockHeight;

    open spec fn view(&self) -> BlockHeight {
        *self
    }
}

#[derive(Debug, Clone, PartialEq, Eq, Default)]
pub struct NetworkDescriptionOf<S, B> {
    pub name: S,
    pub genesis_config_hash: Option<CryptoHashOf<B>>,
    pub genesis_timestamp: u64,
    pub genesis_committee_blob_hash: Option<CryptoHashOf<B>>,
    pub admin_chain_id: Option<ChainIdOf<B>>,
}

pub type NetworkDescription = NetworkDescriptionOf<String, Vec<u8>>;

impl<S: View, B: View> View for NetworkDescriptionOf<S, B> {
    type V = NetworkDescriptionOf<S::V, B::V>;

    open spec fn view(&self) -> NetworkDescriptionOf<S::V, B::V> {
        NetworkDescriptionOf {
            name: self.name@,
            genesis_config_hash: opt_view(self.genesis_config_hash),
            genesis_timestamp: self.genesis_timestamp,
            genesis_committee_blob_hash: opt_view(self.genesis_committee_blob_hash),
            admin_chain_id: opt_view(self.admin_chain_id),
        }
    }
}

/// A byte string message: the shape shared by keys, signatures, account
/// owners, blob identifiers and blob contents.
#[derive(Debug, Clone, PartialEq, Eq, Default)]
pub struct BytesOf<B> {
    pub bytes: B,
}

impl<B: View> View for BytesOf<B> {
    type V = BytesOf<B::V>;

    open spec fn view(&self) -> BytesOf<B::V> {
        BytesOf { bytes: self.bytes@ }
    }
}

pub type AccountPublicKey = BytesOf<Vec<u8>>;

pub type ValidatorPublicKey = BytesOf<Vec<u8>>;

pub type AccountSignature = BytesOf<Vec<u8>>;

pub type ValidatorSignature = BytesOf<Vec<u8>>;

pub type AccountOwner = BytesOf<Vec<u8>>;

pub type BlobId = BytesOf<Vec<u8>>;

pub type BlobContent = BytesOf<Vec<u8>>;

#[derive(Debug, Clone, PartialEq, Eq, Default)]
pub struct NotificationOf<B> {
    pub chain_id: Option<ChainIdOf<B>>,
    pub reason: B,
}

pub type Notification = NotificationOf<Vec<u8>>;

impl<B: View> View for NotificationOf<B> {
    type V = NotificationOf<B::V>;

    open spec fn view(&self) -> NotificationOf<B::V> {
        NotificationOf { chain_id: opt_view(self.chain_id), reason: self.reason@ }
    }
}

#[derive(Debug, Clone, PartialEq, Eq, Default)]
pub struct ChainInfoResponseOf<B> {
    pub chain_info: B,
    pub signature: Option<BytesOf<B>>,
}

pub type ChainInfoResponse = ChainInfoResponseOf<Vec<u8>>;

impl<B: View> View for ChainInfoResponseOf<B> {
    type V = ChainInfoResponseOf<B::V>;

    open spec fn view(&self) -> ChainInfoResponseOf<B::V> {
        ChainInfoResponseOf { chain_info: self.chain_info@, signature: opt_view(self.signature) }
    }
}

/// The two answers to a chain information query.
#[derive(Debug, Clone, PartialEq, Eq)]
pub enum ChainInfoResultInnerOf<B> {
    ChainInfoResponse(ChainInfoResponseOf<B>),
    Error(B),
}

impl<B: View> View for ChainInfoResultInnerOf<B> {
    type V = ChainInfoResultInnerOf<B::V>;

    open spec fn view(&self) -> ChainInfoResultInnerOf<B::V> {
        match self {
            ChainInfoResultInnerOf::ChainInfoResponse(r) => ChainInfoResultInnerOf::ChainInfoResponse(
                r@,
            ),
            ChainInfoResultInnerOf::Error(e) => ChainInfoResultInnerOf::Error(e@),
        }
    }
}

#[derive(Debug, Clone, PartialEq, Eq, Default)]
pub struct ChainInfoResultOf<B> {
    pub inner: Option<ChainInfoResultInnerOf<B>>,
}

pub type ChainInfoResult = ChainInfoResultOf<Vec<u8>>;

impl<B: View> View for ChainInfoResultOf<B> {
    type V = ChainInfoResultOf<B::V>;

    open spec fn view(&self) -> ChainInfoResultOf<B::V> {
        ChainInfoResultOf { inner: opt_view(self.inner) }
    }
}

#[derive(Debug, Clone, PartialEq, Eq, Default)]
pub struct BlockProposalOf<B> {
    pub chain_id: Option<ChainIdOf<B>>,
    pub content: B,
    pub owner: Option<BytesOf<B>>,
    pub signature: Option<BytesOf<B>>,
    pub original_proposal: Option<B>,
}

pub type BlockProposal = BlockProposalOf<Vec<u8>>;

impl<B: View> View for BlockProposalOf<B> {
    type V = BlockProposalOf<B::V>;

    open spec fn view(&self) -> BlockProposalOf<B::V> {
        BlockProposalOf {
            chain_id: opt_view(self.chain_id),
            content: self.content@,
            owner: opt_view(self.owner),
            signature: opt_view(self.signature),
            original_proposal: opt_view(self.original_proposal),
        }
    }
}

#[derive(Debug, Clone, PartialEq, Eq, Default)]
pub struct UpdateRecipientOf<B> {
    pub sender: Option<ChainIdOf<B>>,
    pub recipient: Option<ChainIdOf<B>>,
    pub bundles: B,
}

impl<B: View> View for UpdateRecipientOf<B> {
    type V = UpdateRecipientOf<B::V>;

    open spec fn view(&self) -> UpdateRecipientOf<B::V> {
        UpdateRecipientOf {
            sender: opt_view(self.sender),
            recipient: opt_view(self.recipient),
            bundles: self.bundles@,
        }
    }
}

#[derive(Debug, Clone, PartialEq, Eq, Default)]
pub struct ConfirmUpdatedRecipientOf<B> {
    pub sender: Option<ChainIdOf<B>>,
    pub recipient: Option<ChainIdOf<B>>,
    pub latest_height: Option<BlockHeight>,
}

impl<B: View> View for ConfirmUpdatedRecipientOf<B> {
    type V = ConfirmUpdatedRecipientOf<B::V>;

    open spec fn view(&self) -> ConfirmUpdatedRecipientOf<B::V> {
        ConfirmUpdatedRecipientOf {
            sender: opt_view(self.sender),
            recipient: opt_view(self.recipient),
            latest_height: self.latest_height,
        }
    }
}

/// The two kinds of cross-chain requests.
#[derive(Debug, Clone, PartialEq, Eq)]
pub enum CrossChainRequestInnerOf<B> {
    UpdateRecipient(UpdateRecipientOf<B>),
    ConfirmUpdatedRecipient(ConfirmUpdatedRecipientOf<B>),
}

impl<B: View> View for CrossChainRequestInnerOf<B> {
    type V = CrossChainRequestInnerOf<B::V>;

    open spec fn view(&self) -> CrossChainRequestInnerOf<B::V> {
        match self {
            CrossChainRequestInnerOf::UpdateRecipient(u) => CrossChainRequestInnerOf::UpdateRecipient(
                u@,
            ),
            CrossChainRequestInnerOf::ConfirmUpdatedRecipient(
                c,
            ) => CrossChainRequestInnerOf::ConfirmUpdatedRecipient(c@),
        }
    }
}

#[derive(Debug, Clone, PartialEq, Eq, Default)]
pub struct CrossChainRequestOf<B> {
    pub inner: Option<CrossChainRequestInnerOf<B>>,
}

pub type CrossChainRequest = CrossChainRequestOf<Vec<u8>>;

impl<B: View> View for CrossChainRequestOf<B> {
    type V = CrossChainRequestOf<B::V>;

    open spec fn view(&self) -> CrossChainRequestOf<B::V> {
        CrossChainRequestOf { inner: opt_view(self.inner) }
    }
}

#[derive(Debug, Clone, PartialEq, Eq, Default)]
pub struct LiteCertificateOf<B> {
    pub hash: B,
    pub round: B,
    pub chain_id: Option<ChainIdOf<B>>,
    pub signatures: B,
    pub wait_for_outgoing_messages: bool,
    pub kind: i32,
}

pub type LiteCertificate = LiteCertificateOf<Vec<u8>>;

impl<B: View> View for LiteCertificateOf<B> {
    type V = LiteCertificateOf<B::V>;

    open spec fn view(&self) -> LiteCertificateOf<B::V> {
        LiteCertificateOf {
            hash: self.hash@,
            round: self.round@,
            chain_id: opt_view(self.chain_id),
            signatures: self.signatures@,
            wait_for_outgoing_messages: self.wait_for_outgoing_messages,
            kind: self.kind,
        }
    }
}

#[derive(Debug, Clone, PartialEq, Eq, Default)]
pub struct CertificateOf<B> {
    pub value: B,
    pub round: B,
    pub signatures: B,
    pub kind: i32,
}

pub type Certificate = CertificateOf<Vec<u8>>;

impl<B: View> View for CertificateOf<B> {
    type V = CertificateOf<B::V>;

    open spec fn view(&self) -> CertificateOf<B::V> {
        CertificateOf {
            value: self.value@,
            round: self.round@,
            signatures: self.signatures@,
            kind: self.kind,
        }
    }
}

/// The message of a request to handle a timeout or a validated block
/// certificate.
#[derive(Debug, Clone, PartialEq, Eq, Default)]
pub struct HandleCertificateRequestOf<B> {
    pub chain_id: Option<ChainIdOf<B>>,
    pub certificate: Option<CertificateOf<B>>,
}

pub type HandleTimeoutCertificateRequest = HandleCertificateRequestOf<Vec<u8>>;

pub type HandleValidatedCertificateRequest = HandleCertificateRequestOf<Vec<u8>>;

impl<B: View> View for HandleCertificateRequestOf<B> {
    type V = HandleCertificateRequestOf<B::V>;

    open spec fn view(&self) -> HandleCertificateRequestOf<B::V> {
        HandleCertificateRequestOf {
            chain_id: opt_view(self.chain_id),
            certificate: opt_view(self.certificate),
        }
    }
}

#[derive(Debug, Clone, PartialEq, Eq, Default)]
pub struct HandleConfirmedCertificateRequestOf<B> {
    pub chain_id: Option<ChainIdOf<B>>,
    pub certificate: Option<CertificateOf<B>>,
    pub wait_for_outgoing_messages: bool,
}

pub type HandleConfirmedCertificateRequest = HandleConfirmedCertificateRequestOf<Vec<u8>>;

impl<B: View> View for HandleConfirmedCertificateRequestOf<B> {
    type V = HandleConfirmedCertificateRequestOf<B::V>;

    open spec fn view(&self) -> HandleConfirmedCertificateRequestOf<B::V> {
        HandleConfirmedCertificateRequestOf {
            chain_id: opt_view(self.chain_id),
            certificate: opt_view(self.certificate),
            wait_for_outgoing_messages: self.wait_for_outgoing_messages,
        }
    }
}

#[derive(Debug, Clone, PartialEq, Eq, Default)]
pub struct ChainInfoQueryOf<B> {
    pub chain_id: Option<ChainIdOf<B>>,
    pub request_committees: bool,
    pub request_owner_balance: Option<BytesOf<B>>,
    pub request_pending_message_bundles: bool,
    pub test_next_block_height: Option<BlockHeight>,
    pub request_sent_certificate_hashes_in_range: Option<B>,
    pub request_received_log_excluding_first_n: Option<u64>,
    pub request_manager_values: bool,
    pub request_leader_timeout: bool,
    pub request_fallback: bool,
}

pub type ChainInfoQuery = ChainInfoQueryOf<Vec<u8>>;

impl<B: View> View for ChainInfoQueryOf<B> {
    type V = ChainInfoQueryOf<B::V>;

    open spec fn view(&self) -> ChainInfoQueryOf<B::V> {
        ChainInfoQueryOf {
            chain_id: opt_view(self.chain_id),
            request_committees: self.request_committees,
            request_owner_balance: opt_view(self.request_owner_balance),
            request_pending_message_bundles: self.request_pending_message_bundles,
            test_next_block_height: self.test_next_block_height,
            request_sent_certificate_hashes_in_range: opt_view(
                self.request_sent_certificate_hashes_in_range,
            ),
            request_received_log_excluding_first_n: self.request_received_log_excluding_first_n,
            request_manager_values: self.request_manager_values,
            request_leader_timeout: self.request_leader_timeout,
            request_fallback: self.request_fallback,
        }
    }
}

#[derive(Debug, Clone, PartialEq, Eq, Default)]
pub struct PendingBlobRequestOf<B> {
    pub chain_id: Option<ChainIdOf<B>>,
    pub blob_id: Option<BytesOf<B>>,
}

pub type PendingBlobRequest = PendingBlobRequestOf<Vec<u8>>;

impl<B: View> View for PendingBlobRequestOf<B> {
    type V = PendingBlobRequestOf<B::V>;

    open spec fn view(&self) -> PendingBlobRequestOf<B::V> {
        PendingBlobRequestOf { chain_id: opt_view(self.chain_id), blob_id: opt_view(self.blob_id) }
    }
}

#[derive(Debug, Clone, PartialEq, Eq, Default)]
pub struct HandlePendingBlobRequestOf<B> {
    pub chain_id: Option<ChainIdOf<B>>,
    pub blob: Option<BytesOf<B>>,
}

pub type HandlePendingBlobRequest = HandlePendingBlobRequestOf<Vec<u8>>;

impl<B: View> View for HandlePendingBlobRequestOf<B> {
    type V = HandlePendingBlobRequestOf<B::V>;

    open spec fn view(&self) -> HandlePendingBlobRequestOf<B::V> {
        HandlePendingBlobRequestOf { chain_id: opt_view(self.chain_id), blob: opt_view(self.blob) }
    }
}

/// The two answers to a request for a pending blob.
#[derive(Debug, Clone, PartialEq, Eq)]
pub enum PendingBlobResultInnerOf<B> {
    Blob(BytesOf<B>),
    Error(B),
}

impl<B: View> View for PendingBlobResultInnerOf<B> {
    type V = PendingBlobResultInnerOf<B::V>;

    open spec fn view(&self) -> PendingBlobResultInnerOf<B::V> {
        match self {
            PendingBlobResultInnerOf::Blob(b) => PendingBlobResultInnerOf::Blob(b@),
            PendingBlobResultInnerOf::Error(e) => PendingBlobResultInnerOf::Error(e@),
        }
    }
}

#[derive(Debug, Clone, PartialEq, Eq, Default)]
pub struct PendingBlobResultOf<B> {
    pub inner: Option<PendingBlobResultInnerOf<B>>,
}

pub type PendingBlobResult = PendingBlobResultOf<Vec<u8>>;

impl<B: View> View for PendingBlobResultOf<B> {
    type V = PendingBlobResultOf<B::V>;

    open spec fn view(&self) -> PendingBlobResultOf<B::V> {
        PendingBlobResultOf { inner: opt_view(self.inner) }
    }
}

/// A list of blob identifiers, each in its bincode encoding.
#[derive(Debug, Clone, PartialEq, Eq, Default)]
pub struct BlobIds {
    pub bytes: Vec<Vec<u8>>,
}

/// The view of a list of blob identifiers.
pub struct SpecBlobIds {
    pub bytes: Seq<Seq<u8>>,
}

impl View for BlobIds {
    type V = SpecBlobIds;

    open spec fn view(&self) -> SpecBlobIds {
        SpecBlobIds { bytes: seq_view(self.bytes@) }
    }
}

#[derive(Debug, Clone, PartialEq, Eq, Default)]
pub struct CertificatesBatchRequest {
    pub hashes: Vec<CryptoHash>,
}

/// The view of a request for a batch of certificates.
pub struct SpecCertificatesBatchRequest {
    pub hashes: Seq<CryptoHashOf<Seq<u8>>>,
}

impl View for CertificatesBatchRequest {
    type V = SpecCertificatesBatchRequest;

    open spec fn view(&self) -> SpecCertificatesBatchRequest {
        SpecCertificatesBatchRequest { hashes: seq_view(self.hashes@) }
    }
}

#[derive(Debug, Clone, PartialEq, Eq, Default)]
pub struct CertificatesBatchResponse {
    pub certificates: Vec<Certificate>,
}

/// The view of a batch of certificates.
pub struct SpecCertificatesBatchResponse {
    pub certificates: Seq<CertificateOf<Seq<u8>>>,
}

impl View for CertificatesBatchResponse {
    type V = SpecCertificatesBatchResponse;

    open spec fn view(&self) -> SpecCertificatesBatchResponse {
        SpecCertificatesBatchResponse { certificates: seq_view(self.certificates@) }
    }
}

/// The view of a message keeps each field in its place: each byte string
/// becomes its bytes, each optional part its view, each number and flag
/// itself.
pub proof fn law_message_views_keep_fields(
    c: Certificate,
    l: LiteCertificate,
    u: UpdateRecipientOf<Vec<u8>>,
    w: ConfirmUpdatedRecipientOf<Vec<u8>>,
    n: NetworkDescription,
    p: BlockProposal,
    h: HandleConfirmedCertificateRequestOf<Vec<u8>>,
)
    ensures
        c@.value == c.value@ && c@.round == c.round@ && c@.signatures == c.signatures@ && c@.kind
            == c.kind,
        l@.hash == l.hash@ && l@.round == l.round@ && l@.signatures == l.signatures@ && l@.kind
            == l.kind && l@.wait_for_outgoing_messages == l.wait_for_outgoing_messages,
        l.chain_id matches Some(x) ==> l@.chain_id == Some(ChainIdOf { bytes: x.bytes@ }),
        u.sender matches Some(x) ==> u@.sender == Some(ChainIdOf { bytes: x.bytes@ }),
        u.recipient matches Some(x) ==> u@.recipient == Some(ChainIdOf { bytes: x.bytes@ }),
        u@.bundles == u.bundles@,
        w.sender matches Some(x) ==> w@.sender == Some(ChainIdOf { bytes: x.bytes@ }),
        w.recipient matches Some(x) ==> w@.recipient == Some(ChainIdOf { bytes: x.bytes@ }),
        w@.latest_height == w.latest_height,
        n@.name == n.name@ && n@.genesis_timestamp == n.genesis_timestamp,
        n.genesis_config_hash matches Some(x) ==> n@.genesis_config_hash == Some(
            CryptoHashOf { bytes: x.bytes@ },
        ),
        n.genesis_committee_blob_hash matches Some(x) ==> n@.genesis_committee_blob_hash == Some(
            CryptoHashOf { bytes: x.bytes@ },
        ),
        n.admin_chain_id matches Some(x) ==> n@.admin_chain_id == Some(ChainIdOf { bytes: x.bytes@ }),
        p@.content == p.content@,
        p.chain_id matches Some(x) ==> p@.chain_id == Some(ChainIdOf { bytes: x.bytes@ }),
        p.owner matches Some(x) ==> p@.owner == Some(BytesOf { bytes: x.bytes@ }),
        p.signature matches Some(x) ==> p@.signature == Some(BytesOf { bytes: x.bytes@ }),
        p.original_proposal matches Some(x) ==> p@.original_proposal == Some(x@),
        h@.wait_for_outgoing_messages == h.wait_for_outgoing_messages,
        h.chain_id matches Some(x) ==> h@.chain_id == Some(ChainIdOf { bytes: x.bytes@ }),
{
}

} // verus!

//! Notifications, block proposals, cross-chain requests, chain information
//! queries and answers, and requests about pending blobs.
use crate::api;
use crate::codec::{
    deserialize_height_range, deserialize_list_length, is_secp256k1_signature, deserialize_variant_index,
    holds_list, holds_variant_index, height_range_bytes, height_range_read, lemma_height_range_read_bytes,
    serialize_height_range,
};
use crate::convert::certificates::{chain_value_from_bytes, chain_value_to_bytes, parse_chain_value, law_chain_value_round_trip};
use crate::convert::values::{
    block_height_from_proto, block_height_to_proto, chain_id_field_ok, chain_id_from_proto, chain_id_to_proto,
    copy_chain_id, encoded_from_proto, encoded_to_proto, parse_block_height, parse_chain_id,
    parse_encoded, parse_validator_signature, proto_block_height, proto_chain_id, proto_encoded,
    proto_validator_signature, same_bytes, validator_signature_from_proto,
    validator_signature_to_proto, law_chain_id_parse_exact,
};
use crate::domain::{
    BlockHeight, BlockHeightRange, BlockProposal, BlockProposalOf, ChainId, ChainIdOf,
    ChainInfoQuery, ChainInfoQueryOf, ChainInfoResponse, ChainInfoResponseOf, CrossChainRequest,
    CrossChainRequestOf, EncodedOf, Notification, NotificationOf, SpecBlockProposal,
    SpecChainId, SpecChainInfoQuery, SpecChainInfoResponse, SpecCrossChainRequest, SpecEncoded,
    SpecNotification,
};
use crate::error::{outcome, CryptoError, parse_required, require, Failure, GrpcProtoConversionError};
use crate::views::opt_view;
use vstd::prelude::*;

verus! {

// ---------------------------------------------------------------- notifications

pub open spec fn proto_notification(n: SpecNotification) -> api::NotificationOf<Seq<u8>> {
    api::NotificationOf { chain_id: Some(proto_chain_id(n.chain_id)), reason: n.reason }
}

/// What a notification message says: nothing when it has neither a chain id
/// nor a reason (an acknowledgment), else the notification it holds. The
/// chain id is read first and must be present; then the reason, which, as
/// the bincode encoding of an enum, must begin with a 4-byte variant index.
pub open spec fn parse_notification(m: api::NotificationOf<Seq<u8>>) -> Result<
    Option<SpecNotification>,
    Failure,
> {
    if m.chain_id is None && m.reason.len() == 0 {
        Ok(None)
    } else {
        match parse_required(m.chain_id, |c| parse_chain_id(c)) {
            Err(e) => Err(e),
            Ok(chain_id) => if !holds_variant_index(m.reason) {
                Err(Failure::Bincode)
            } else {
                Ok(Some(NotificationOf { chain_id, reason: m.reason }))
            },
        }
    }
}

pub fn notification_to_proto(notification: Notification) -> (res: api::Notification)
    ensures
        res@ == proto_notification(notification@),
{
    api::NotificationOf {
        chain_id: Some(chain_id_to_proto(notification.chain_id)),
        reason: notification.reason,
    }
}

pub fn notification_from_proto(notification: api::Notification) -> (res: Result<
    Option<Notification>,
    GrpcProtoConversionError,
>)
    ensures
        match res {
            Ok(n) => parse_notification(notification@) == Ok::<Option<SpecNotification>, Failure>(
                opt_view(n),
            ),
            Err(e) => parse_notification(notification@) == Err::<Option<SpecNotification>, Failure>(
                e.failure(),
            ),
        },
{
    let api::NotificationOf { chain_id, reason } = notification;
    if chain_id.is_none() && reason.len() == 0 {
        return Ok(None);
    }
    let chain_id = match require(chain_id) {
        Ok(c) => match chain_id_from_proto(c) {
            Ok(chain_id) => chain_id,
            Err(e) => return Err(e),
        },
        Err(e) => return Err(e),
    };
    match deserialize_variant_index(reason.as_slice()) {
        Ok(_) => Ok(Some(NotificationOf { chain_id, reason })),
        Err(e) => Err(GrpcProtoConversionError::BincodeError(e)),
    }
}

/// A notification survives the trip through its message, and the empty
/// message is an acknowledgment that carries no notification.
pub proof fn law_notification_round_trip(n: SpecNotification)
    requires
        n.wf(),
    ensures
        parse_notification(proto_notification(n)) == Ok::<Option<SpecNotification>, Failure>(
            Some(n),
        ),
        parse_notification(api::NotificationOf { chain_id: None, reason: Seq::empty() }) == Ok::<
            Option<SpecNotification>,
            Failure,
        >(None),
{
}

/// A message with a chain id and a reason too short to hold a variant index
/// (an empty one among them) is refused as undecodable; a message that
/// reads as a notification is the message of that notification.
pub proof fn law_notification_short_reason(m: api::NotificationOf<Seq<u8>>)
    ensures
        m.chain_id matches Some(c) && parse_chain_id(c) is Ok && m.reason.len() < 4
            ==> parse_notification(m) == Err::<Option<SpecNotification>, Failure>(Failure::Bincode),
        parse_notification(m) matches Ok(Some(n)) ==> n.wf() && proto_notification(n) == m,
{
    if let Some(c) = m.chain_id {
        law_chain_id_parse_exact(c);
    }
}

// ---------------------------------------------------------------- chain information

pub open spec fn proto_chain_info_response(r: SpecChainInfoResponse) -> api::ChainInfoResponseOf<Seq<u8>> {
    api::ChainInfoResponseOf {
        chain_info: r.info,
        signature: match r.signature {
            Some(s) => Some(proto_validator_signature(s)),
            None => None,
        },
    }
}

/// The answer a message holds: its signature, when present, must be a
/// signature.
pub open spec fn parse_chain_info_response(m: api::ChainInfoResponseOf<Seq<u8>>) -> Result<
    SpecChainInfoResponse,
    Failure,
> {
    match m.signature {
        None => Ok(ChainInfoResponseOf { info: m.chain_info, signature: None }),
        Some(s) => match parse_validator_signature(s) {
            Err(e) => Err(e),
            Ok(s) => Ok(ChainInfoResponseOf { info: m.chain_info, signature: Some(s) }),
        },
    }
}

pub fn chain_info_response_to_proto(response: ChainInfoResponse) -> (res: api::ChainInfoResponse)
    ensures
        res@ == proto_chain_info_response(response@),
{
    let ChainInfoResponseOf { info, signature } = response;
    api::ChainInfoResponseOf {
        chain_info: info,
        signature: match signature {
            Some(s) => Some(validator_signature_to_proto(s)),
            None => None,
        },
    }
}

pub fn chain_info_response_from_proto(response: api::ChainInfoResponse) -> (res: Result<
    ChainInfoResponse,
    GrpcProtoConversionError,
>)
    ensures
        outcome(res) == parse_chain_info_response(response@),
{
    let api::ChainInfoResponseOf { chain_info, signature } = response;
    let signature = match signature {
        None => None,
        Some(s) => match validator_signature_from_proto(s) {
            Ok(s) => Some(s),
            Err(e) => return Err(e),
        },
    };
    Ok(ChainInfoResponseOf { info: chain_info, signature })
}

/// A well-formed answer survives the trip through its message; a message
/// that reads as an answer is the message of that answer.
pub proof fn law_chain_info_response_round_trip(
    r: SpecChainInfoResponse,
    m: api::ChainInfoResponseOf<Seq<u8>>,
)
    requires
        r.wf(),
    ensures
        parse_chain_info_response(proto_chain_info_response(r)) == Ok::<
            SpecChainInfoResponse,
            Failure,
        >(r),
        parse_chain_info_response(m) matches Ok(r2) ==> r2.wf() && proto_chain_info_response(r2)
            == m,
{
}

/// The message of a successful answer to a chain information query.
pub fn chain_info_result_from_response(response: ChainInfoResponse) -> (res: api::ChainInfoResult)
    ensures
        res@ == (api::ChainInfoResultOf {
            inner: Some(
                api::ChainInfoResultInnerOf::ChainInfoResponse(proto_chain_info_response(response@)),
            ),
        }),
{
    api::ChainInfoResultOf {
        inner: Some(
            api::ChainInfoResultInnerOf::ChainInfoResponse(chain_info_response_to_proto(response)),
        ),
    }
}

/// The message of a failed answer to a chain information query: the node
/// error in its bincode encoding.
pub fn chain_info_result_from_error(node_error: EncodedOf<Vec<u8>>) -> (res: api::ChainInfoResult)
    ensures
        res@ == (api::ChainInfoResultOf {
            inner: Some(api::ChainInfoResultInnerOf::Error(node_error@.bytes)),
        }),
{
    api::ChainInfoResultOf { inner: Some(api::ChainInfoResultInnerOf::Error(node_error.bytes)) }
}

// ---------------------------------------------------------------- block proposals

/// The message of a proposal, given the owner of the account that signed it.
pub open spec fn proto_block_proposal(p: SpecBlockProposal, owner: SpecEncoded) -> api::BlockProposalOf<Seq<u8>> {
    api::BlockProposalOf {
        chain_id: Some(proto_chain_id(p.content.chain_id)),
        content: p.content.encoding(),
        owner: Some(proto_encoded(owner)),
        signature: Some(proto_encoded(p.signature)),
        original_proposal: p.original_proposal,
    }
}

/// The proposal a message holds. The content is read first; the message's
/// chain id must be that of the content's block; then the signature, which
/// must be present; then the original proposal, if any, the encoding of an
/// enum, which begins with its variant index. The owner field is not read.
pub open spec fn parse_block_proposal(m: api::BlockProposalOf<Seq<u8>>) -> Result<
    SpecBlockProposal,
    Failure,
> {
    match parse_chain_value(m.content) {
        Err(e) => Err(e),
        Ok(content) => if Some(proto_chain_id(content.chain_id)) != m.chain_id {
            Err(Failure::InconsistentChainId)
        } else {
            match m.signature {
                None => Err(Failure::MissingField),
                Some(s) => if m.original_proposal matches Some(p) && !holds_variant_index(p) {
                    Err(Failure::Bincode)
                } else {
                    Ok(
                        BlockProposalOf {
                            content,
                            signature: parse_encoded(s),
                            original_proposal: m.original_proposal,
                        },
                    )
                },
            }
        },
    }
}

/// The message of a proposal; `owner` is the owner of the account whose
/// signature the proposal carries.
pub fn block_proposal_to_proto(proposal: BlockProposal, owner: EncodedOf<Vec<u8>>) -> (res:
    api::BlockProposal)
    ensures
        res@ == proto_block_proposal(proposal@, owner@),
{
    let BlockProposalOf { content, signature, original_proposal } = proposal;
    let chain_id = copy_chain_id(&content.chain_id);
    api::BlockProposalOf {
        chain_id: Some(chain_id_to_proto(chain_id)),
        content: chain_value_to_bytes(content),
        owner: Some(encoded_to_proto(owner)),
        signature: Some(encoded_to_proto(signature)),
        original_proposal,
    }
}

pub fn block_proposal_from_proto(proposal: api::BlockProposal) -> (res: Result<
    BlockProposal,
    GrpcProtoConversionError,
>)
    ensures
        outcome(res) == parse_block_proposal(proposal@),
{
    let api::BlockProposalOf { chain_id, content, owner: _, signature, original_proposal } =
        proposal;
    let content = match chain_value_from_bytes(content) {
        Ok(c) => c,
        Err(e) => return Err(e),
    };
    let consistent = match &chain_id {
        Some(c) => same_bytes(&c.bytes, &content.chain_id.0.bytes),
        None => false,
    };
    if !consistent {
        return Err(GrpcProtoConversionError::InconsistentChainId);
    }
    let signature = match require(signature) {
        Ok(s) => encoded_from_proto(s),
        Err(e) => return Err(e),
    };
    if let Some(p) = &original_proposal {
        match deserialize_variant_index(p.as_slice()) {
            Ok(_) => {},
            Err(e) => return Err(GrpcProtoConversionError::BincodeError(e)),
        }
    }
    Ok(BlockProposalOf { content, signature, original_proposal })
}

/// A well-formed proposal survives the trip through its message, whatever
/// owner the message names.
pub proof fn law_block_proposal_round_trip(p: SpecBlockProposal, owner: SpecEncoded)
    requires
        p.wf(),
    ensures
        parse_block_proposal(proto_block_proposal(p, owner)) == Ok::<SpecBlockProposal, Failure>(
            p,
        ),
{
    law_chain_value_round_trip(p.content);
}

/// A proposal message whose chain id is missing or not that of its content
/// is refused.
pub proof fn law_block_proposal_inconsistent_chain(m: api::BlockProposalOf<Seq<u8>>)
    requires
        parse_chain_value(m.content) is Ok,
        m.chain_id != Some(proto_chain_id(parse_chain_value(m.content).unwrap().chain_id)),
    ensures
        parse_block_proposal(m) == Err::<SpecBlockProposal, Failure>(Failure::InconsistentChainId),
{
}

// ---------------------------------------------------------------- cross-chain requests

pub open spec fn proto_cross_chain_request(r: SpecCrossChainRequest) -> api::CrossChainRequestOf<Seq<u8>> {
    api::CrossChainRequestOf {
        inner: Some(
            match r {
                CrossChainRequestOf::UpdateRecipient {
                    sender,
                    recipient,
                    bundles,
                } => api::CrossChainRequestInnerOf::UpdateRecipient(
                    api::UpdateRecipientOf {
                        sender: Some(proto_chain_id(sender)),
                        recipient: Some(proto_chain_id(recipient)),
                        bundles,
                    },
                ),
                CrossChainRequestOf::ConfirmUpdatedRecipient {
                    sender,
                    recipient,
                    latest_height,
                } => api::CrossChainRequestInnerOf::ConfirmUpdatedRecipient(
                    api::ConfirmUpdatedRecipientOf {
                        sender: Some(proto_chain_id(sender)),
                        recipient: Some(proto_chain_id(recipient)),
                        latest_height: Some(proto_block_height(latest_height)),
                    },
                ),
            },
        ),
    }
}

/// The sender and the recipient of a request, read in that order.
pub open spec fn parse_sender_recipient(
    sender: Option<api::ChainIdOf<Seq<u8>>>,
    recipient: Option<api::ChainIdOf<Seq<u8>>>,
) -> Result<(SpecChainId, SpecChainId), Failure> {
    match parse_required(sender, |c| parse_chain_id(c)) {
        Err(e) => Err(e),
        Ok(s) => match parse_required(recipient, |c| parse_chain_id(c)) {
            Err(e) => Err(e),
            Ok(r) => Ok((s, r)),
        },
    }
}

/// The request a message holds, which must say what kind it is. The sender
/// and the recipient are read first; then the bundles, the encoding of a
/// list, whose length the bytes after it must be able to hold, or the
/// latest height.
pub open spec fn parse_cross_chain_request(m: api::CrossChainRequestOf<Seq<u8>>) -> Result<
    SpecCrossChainRequest,
    Failure,
> {
    match m.inner {
        None => Err(Failure::MissingField),
        Some(api::CrossChainRequestInnerOf::UpdateRecipient(u)) => match parse_sender_recipient(
            u.sender,
            u.recipient,
        ) {
            Err(e) => Err(e),
            Ok((sender, recipient)) => if !holds_list(u.bundles) {
                Err(Failure::Bincode)
            } else {
                Ok(CrossChainRequestOf::UpdateRecipient { sender, recipient, bundles: u.bundles })
            },
        },
        Some(api::CrossChainRequestInnerOf::ConfirmUpdatedRecipient(c)) => match parse_sender_recipient(
            c.sender,
            c.recipient,
        ) {
            Err(e) => Err(e),
            Ok((sender, recipient)) => match c.latest_height {
                None => Err(Failure::MissingField),
                Some(h) => Ok(
                    CrossChainRequestOf::ConfirmUpdatedRecipient {
                        sender,
                        recipient,
                        latest_height: parse_block_height(h),
                    },
                ),
            },
        },
    }
}

fn sender_recipient_from_proto(
    sender: Option<api::ChainId>,
    recipient: Option<api::ChainId>,
) -> (res: Result<(ChainId, ChainId), GrpcProtoConversionError>)
    ensures
        outcome(res) == parse_sender_recipient(opt_view(sender), opt_view(recipient)),
{
    let sender = match require(sender) {
        Ok(c) => match chain_id_from_proto(c) {
            Ok(c) => c,
            Err(e) => return Err(e),
        },
        Err(e) => return Err(e),
    };
    let recipient = match require(recipient) {
        Ok(c) => match chain_id_from_proto(c) {
            Ok(c) => c,
            Err(e) => return Err(e),
        },
        Err(e) => return Err(e),
    };
    Ok((sender, recipient))
}

pub fn cross_chain_request_to_proto(request: CrossChainRequest) -> (res: api::CrossChainRequest)
    ensures
        res@ == proto_cross_chain_request(request@),
{
    let inner = match request {
        CrossChainRequestOf::UpdateRecipient {
            sender,
            recipient,
            bundles,
        } => api::CrossChainRequestInnerOf::UpdateRecipient(
            api::UpdateRecipientOf {
                sender: Some(chain_id_to_proto(sender)),
                recipient: Some(chain_id_to_proto(recipient)),
                bundles,
            },
        ),
        CrossChainRequestOf::ConfirmUpdatedRecipient {
            sender,
            recipient,
            latest_height,
        } => api::CrossChainRequestInnerOf::ConfirmUpdatedRecipient(
            api::ConfirmUpdatedRecipientOf {
                sender: Some(chain_id_to_proto(sender)),
                recipient: Some(chain_id_to_proto(recipient)),
                latest_height: Some(block_height_to_proto(latest_height)),
            },
        ),
    };
    api::CrossChainRequestOf { inner: Some(inner) }
}

pub fn cross_chain_request_from_proto(request: api::CrossChainRequest) -> (res: Result<
    CrossChainRequest,
    GrpcProtoConversionError,
>)
    ensures
        outcome(res) == parse_cross_chain_request(request@),
{
    match require(request.inner) {
        Err(e) => Err(e),
        Ok(api::CrossChainRequestInnerOf::UpdateRecipient(u)) => {
            let api::UpdateRecipientOf { sender, recipient, bundles } = u;
            match sender_recipient_from_proto(sender, recipient) {
                Err(e) => Err(e),
                Ok((sender, recipient)) => match deserialize_list_length(bundles.as_slice()) {
                    Ok(_) => Ok(CrossChainRequestOf::UpdateRecipient { sender, recipient, bundles }),
                    Err(e) => Err(GrpcProtoConversionError::BincodeError(e)),
                },
            }
        },
        Ok(api::CrossChainRequestInnerOf::ConfirmUpdatedRecipient(c)) => {
            let api::ConfirmUpdatedRecipientOf { sender, recipient, latest_height } = c;
            match sender_recipient_from_proto(sender, recipient) {
                Err(e) => Err(e),
                Ok((sender, recipient)) => match require(latest_height) {
                    Err(e) => Err(e),
                    Ok(h) => Ok(
                        CrossChainRequestOf::ConfirmUpdatedRecipient {
                            sender,
                            recipient,
                            latest_height: block_height_from_proto(h),
                        },
                    ),
                },
            }
        },
    }
}

/// A well-formed request survives the trip through its message.
pub proof fn law_cross_chain_request_round_trip(r: SpecCrossChainRequest)
    requires
        r.wf(),
    ensures
        parse_cross_chain_request(proto_cross_chain_request(r)) == Ok::<
            SpecCrossChainRequest,
            Failure,
        >(r),
{
}

/// A message that reads as a request is the message of that request.
pub proof fn law_cross_chain_request_parse_exact(m: api::CrossChainRequestOf<Seq<u8>>)
    ensures
        parse_cross_chain_request(m) matches Ok(r) ==> r.wf() && proto_cross_chain_request(r) == m,
{
    match m.inner {
        Some(api::CrossChainRequestInnerOf::UpdateRecipient(u)) => {
            if u.sender is Some && u.recipient is Some {
                law_chain_id_parse_exact(u.sender.unwrap());
                law_chain_id_parse_exact(u.recipient.unwrap());
            }
        },
        Some(api::CrossChainRequestInnerOf::ConfirmUpdatedRecipient(c)) => {
            if c.sender is Some && c.recipient is Some {
                law_chain_id_parse_exact(c.sender.unwrap());
                law_chain_id_parse_exact(c.recipient.unwrap());
            }
        },
        None => {},
    }
}

// ---------------------------------------------------------------- chain information queries

pub open spec fn proto_chain_info_query(q: SpecChainInfoQuery) -> api::ChainInfoQueryOf<Seq<u8>> {
    api::ChainInfoQueryOf {
        chain_id: Some(proto_chain_id(q.chain_id)),
        request_committees: q.request_committees,
        request_owner_balance: Some(proto_encoded(q.request_owner_balance)),
        request_pending_message_bundles: q.request_pending_message_bundles,
        test_next_block_height: match q.test_next_block_height {
            Some(h) => Some(proto_block_height(h)),
            None => None,
        },
        request_sent_certificate_hashes_in_range: match q.request_sent_certificate_hashes_in_range {
            Some(r) => Some(height_range_bytes(r.start.0, r.limit)),
            None => None,
        },
        request_received_log_excluding_first_n: q.request_received_log_excluding_first_n,
        request_manager_values: q.request_manager_values,
        request_leader_timeout: q.request_leader_timeout,
        request_fallback: q.request_fallback,
    }
}

/// The block height range that bincode reads from the given bytes, if any.
pub open spec fn parse_height_range(bytes: Option<Seq<u8>>) -> Result<Option<BlockHeightRange>, Failure> {
    match bytes {
        None => Ok(None),
        Some(b) => match height_range_read(b) {
            None => Err(Failure::Bincode),
            Some((start, limit)) => Ok(Some(BlockHeightRange { start: BlockHeight(start), limit })),
        },
    }
}

/// The query a message holds. Its parts are read in this order, the first
/// failure being the one reported: the range of heights, the owner whose
/// balance is asked for, the chain id.
pub open spec fn parse_chain_info_query(m: api::ChainInfoQueryOf<Seq<u8>>) -> Result<
    SpecChainInfoQuery,
    Failure,
> {
    match parse_height_range(m.request_sent_certificate_hashes_in_range) {
        Err(e) => Err(e),
        Ok(range) => match m.request_owner_balance {
            None => Err(Failure::MissingField),
            Some(owner) => match parse_required(m.chain_id, |c| parse_chain_id(c)) {
                Err(e) => Err(e),
                Ok(chain_id) => Ok(
                    ChainInfoQueryOf {
                        chain_id,
                        test_next_block_height: match m.test_next_block_height {
                            Some(h) => Some(parse_block_height(h)),
                            None => None,
                        },
                        request_committees: m.request_committees,
                        request_owner_balance: parse_encoded(owner),
                        request_pending_message_bundles: m.request_pending_message_bundles,
                        request_sent_certificate_hashes_in_range: range,
                        request_received_log_excluding_first_n: m.request_received_log_excluding_first_n,
                        request_manager_values: m.request_manager_values,
                        request_leader_timeout: m.request_leader_timeout,
                        request_fallback: m.request_fallback,
                    },
                ),
            },
        },
    }
}

pub fn chain_info_query_to_proto(query: ChainInfoQuery) -> (res: api::ChainInfoQuery)
    ensures
        res@ == proto_chain_info_query(query@),
{
    let range = match query.request_sent_certificate_hashes_in_range {
        None => None,
        Some(r) => match serialize_height_range(r.start.0, r.limit) {
            Ok(bytes) => Some(bytes),
            Err(_) => vstd::pervasive::unreached(),
        },
    };
    let test_next_block_height = match query.test_next_block_height {
        Some(h) => Some(block_height_to_proto(h)),
        None => None,
    };
    api::ChainInfoQueryOf {
        chain_id: Some(chain_id_to_proto(query.chain_id)),
        request_committees: query.request_committees,
        request_owner_balance: Some(encoded_to_proto(query.request_owner_balance)),
        request_pending_message_bundles: query.request_pending_message_bundles,
        test_next_block_height,
        request_sent_certificate_hashes_in_range: range,
        request_received_log_excluding_first_n: query.request_received_log_excluding_first_n,
        request_manager_values: query.request_manager_values,
        request_leader_timeout: query.request_leader_timeout,
        request_fallback: query.request_fallback,
    }
}

pub fn chain_info_query_from_proto(query: api::ChainInfoQuery) -> (res: Result<
    ChainInfoQuery,
    GrpcProtoConversionError,
>)
    ensures
        outcome(res) == parse_chain_info_query(query@),
{
    let api::ChainInfoQueryOf {
        chain_id,
        request_committees,
        request_owner_balance,
        request_pending_message_bundles,
        test_next_block_height,
        request_sent_certificate_hashes_in_range,
        request_received_log_excluding_first_n,
        request_manager_values,
        request_leader_timeout,
        request_fallback,
    } = query;
    let range = match request_sent_certificate_hashes_in_range {
        None => None,
        Some(bytes) => match deserialize_height_range(bytes.as_slice()) {
            Ok((start, limit)) => Some(BlockHeightRange { start: BlockHeight(start), limit }),
            Err(e) => return Err(GrpcProtoConversionError::BincodeError(e)),
        },
    };
    let owner = match require(request_owner_balance) {
        Ok(o) => encoded_from_proto(o),
        Err(e) => return Err(e),
    };
    let chain_id = match require(chain_id) {
        Ok(c) => match chain_id_from_proto(c) {
            Ok(c) => c,
            Err(e) => return Err(e),
        },
        Err(e) => return Err(e),
    };
    let test_next_block_height = match test_next_block_height {
        Some(h) => Some(block_height_from_proto(h)),
        None => None,
    };
    Ok(
        ChainInfoQueryOf {
            chain_id,
            test_next_block_height,
            request_committees,
            request_owner_balance: owner,
            request_pending_message_bundles,
            request_sent_certificate_hashes_in_range: range,
            request_received_log_excluding_first_n,
            request_manager_values,
            request_leader_timeout,
            request_fallback,
        },
    )
}

/// A well-formed query survives the trip through its message.
pub proof fn law_chain_info_query_round_trip(q: SpecChainInfoQuery)
    requires
        q.wf(),
    ensures
        parse_chain_info_query(proto_chain_info_query(q)) == Ok::<SpecChainInfoQuery, Failure>(q),
{
    if let Some(r) = q.request_sent_certificate_hashes_in_range {
        lemma_height_range_read_bytes(r.start.0, r.limit);
    }
}

// ---------------------------------------------------------------- pending blobs

pub open spec fn proto_pending_blob_request(chain_id: SpecChainId, blob_id: SpecEncoded) -> api::PendingBlobRequestOf<Seq<u8>> {
    api::PendingBlobRequestOf {
        chain_id: Some(proto_chain_id(chain_id)),
        blob_id: Some(proto_encoded(blob_id)),
    }
}

/// The chain and the blob a request names, read in that order.
pub open spec fn parse_pending_blob_request(m: api::PendingBlobRequestOf<Seq<u8>>) -> Result<
    (SpecChainId, SpecEncoded),
    Failure,
> {
    match parse_required(m.chain_id, |c| parse_chain_id(c)) {
        Err(e) => Err(e),
        Ok(chain_id) => match m.blob_id {
            None => Err(Failure::MissingField),
            Some(b) => Ok((chain_id, parse_encoded(b))),
        },
    }
}

pub fn pending_blob_request_to_proto(chain_id: ChainId, blob_id: EncodedOf<Vec<u8>>) -> (res:
    api::PendingBlobRequest)
    ensures
        res@ == proto_pending_blob_request(chain_id@, blob_id@),
{
    api::PendingBlobRequestOf {
        chain_id: Some(chain_id_to_proto(chain_id)),
        blob_id: Some(encoded_to_proto(blob_id)),
    }
}

pub fn pending_blob_request_from_proto(request: api::PendingBlobRequest) -> (res: Result<
    (ChainId, EncodedOf<Vec<u8>>),
    GrpcProtoConversionError,
>)
    ensures
        outcome(res) == parse_pending_blob_request(request@),
{
    let api::PendingBlobRequestOf { chain_id, blob_id } = request;
    let chain_id = match require(chain_id) {
        Ok(c) => match chain_id_from_proto(c) {
            Ok(c) => c,
            Err(e) => return Err(e),
        },
        Err(e) => return Err(e),
    };
    match require(blob_id) {
        Ok(b) => Ok((chain_id, encoded_from_proto(b))),
        Err(e) => Err(e),
    }
}

/// A request for a blob survives the trip through its message.
pub proof fn law_pending_blob_request_round_trip(chain_id: SpecChainId, blob_id: SpecEncoded)
    requires
        chain_id.wf(),
    ensures
        parse_pending_blob_request(proto_pending_blob_request(chain_id, blob_id)) == Ok::<
            (SpecChainId, SpecEncoded),
            Failure,
        >((chain_id, blob_id)),
{
}

pub open spec fn proto_handle_pending_blob_request(chain_id: SpecChainId, blob: SpecEncoded) -> api::HandlePendingBlobRequestOf<Seq<u8>> {
    api::HandlePendingBlobRequestOf {
        chain_id: Some(proto_chain_id(chain_id)),
        blob: Some(proto_encoded(blob)),
    }
}

/// The chain and the blob content a request carries, read in that order.
pub open spec fn parse_handle_pending_blob_request(m: api::HandlePendingBlobRequestOf<Seq<u8>>) -> Result<
    (SpecChainId, SpecEncoded),
    Failure,
> {
    match parse_required(m.chain_id, |c| parse_chain_id(c)) {
        Err(e) => Err(e),
        Ok(chain_id) => match m.blob {
            None => Err(Failure::MissingField),
            Some(b) => Ok((chain_id, parse_encoded(b))),
        },
    }
}

pub fn handle_pending_blob_request_to_proto(chain_id: ChainId, blob: EncodedOf<Vec<u8>>) -> (res:
    api::HandlePendingBlobRequest)
    ensures
        res@ == proto_handle_pending_blob_request(chain_id@, blob@),
{
    api::HandlePendingBlobRequestOf {
        chain_id: Some(chain_id_to_proto(chain_id)),
        blob: Some(encoded_to_proto(blob)),
    }
}

pub fn handle_pending_blob_request_from_proto(request: api::HandlePendingBlobRequest) -> (res:
    Result<(ChainId, EncodedOf<Vec<u8>>), GrpcProtoConversionError>)
    ensures
        outcome(res) == parse_handle_pending_blob_request(request@),
{
    let api::HandlePendingBlobRequestOf { chain_id, blob } = request;
    let chain_id = match require(chain_id) {
        Ok(c) => match chain_id_from_proto(c) {
            Ok(c) => c,
            Err(e) => return Err(e),
        },
        Err(e) => return Err(e),
    };
    match require(blob) {
        Ok(b) => Ok((chain_id, encoded_from_proto(b))),
        Err(e) => Err(e),
    }
}

/// A blob sent to a chain survives the trip through its message.
pub proof fn law_handle_pending_blob_request_round_trip(chain_id: SpecChainId, blob: SpecEncoded)
    requires
        chain_id.wf(),
    ensures
        parse_handle_pending_blob_request(proto_handle_pending_blob_request(chain_id, blob)) == Ok::<
            (SpecChainId, SpecEncoded),
            Failure,
        >((chain_id, blob)),
{
}

/// The message of a found pending blob.
pub fn pending_blob_result_from_blob(blob: EncodedOf<Vec<u8>>) -> (res: api::PendingBlobResult)
    ensures
        res@ == (api::PendingBlobResultOf {
            inner: Some(api::PendingBlobResultInnerOf::Blob(proto_encoded(blob@))),
        }),
{
    api::PendingBlobResultOf {
        inner: Some(api::PendingBlobResultInnerOf::Blob(encoded_to_proto(blob))),
    }
}

/// The message of a failed request for a pending blob: the node error in its
/// bincode encoding.
pub fn pending_blob_result_from_error(node_error: EncodedOf<Vec<u8>>) -> (res:
    api::PendingBlobResult)
    ensures
        res@ == (api::PendingBlobResultOf {
            inner: Some(api::PendingBlobResultInnerOf::Error(node_error@.bytes)),
        }),
{
    api::PendingBlobResultOf { inner: Some(api::PendingBlobResultInnerOf::Error(node_error.bytes)) }
}

// ---------------------------------------------------------------- where each field goes

/// A notification is written with its chain id's bytes and its reason; a
/// message read as a notification takes both from those fields.
pub proof fn law_notification_fields(n: SpecNotification, m: api::NotificationOf<Seq<u8>>)
    ensures
        proto_notification(n).chain_id == Some(api::ChainIdOf { bytes: n.chain_id.0.bytes }),
        proto_notification(n).reason == n.reason,
        parse_notification(m) matches Ok(Some(n2)) ==> n2.reason == m.reason && (m.chain_id matches Some(
            c,
        ) && c.bytes == n2.chain_id.0.bytes),
{
}

/// An answer is written with its chain information and, when it has one,
/// its signature's bytes; an answer read from a message takes both from
/// those fields.
pub proof fn law_chain_info_response_fields(
    r: SpecChainInfoResponse,
    m: api::ChainInfoResponseOf<Seq<u8>>,
)
    ensures
        proto_chain_info_response(r).chain_info == r.info,
        r.signature matches Some(sig) ==> proto_chain_info_response(r).signature == Some(
            api::BytesOf { bytes: sig.bytes },
        ),
        r.signature is None ==> proto_chain_info_response(r).signature is None,
        parse_chain_info_response(m) matches Ok(r2) ==> {
            &&& r2.info == m.chain_info
            &&& (r2.signature is Some <==> m.signature is Some)
            &&& r2.signature matches Some(sig) ==> m.signature == Some(
                api::BytesOf { bytes: sig.bytes },
            )
        },
{
}

/// A proposal is written with its content's chain id, its content's
/// encoding (the chain id's bytes, then the rest), the given owner, its
/// signature and its original proposal; a proposal read from a message takes
/// each part from the field it was written to, and its chain is the one the
/// message names.
pub proof fn law_block_proposal_fields(
    p: SpecBlockProposal,
    owner: SpecEncoded,
    m: api::BlockProposalOf<Seq<u8>>,
)
    ensures
        proto_block_proposal(p, owner).chain_id == Some(
            api::ChainIdOf { bytes: p.content.chain_id.0.bytes },
        ),
        proto_block_proposal(p, owner).content == p.content.chain_id.0.bytes + p.content.rest,
        proto_block_proposal(p, owner).owner == Some(api::BytesOf { bytes: owner.bytes }),
        proto_block_proposal(p, owner).signature == Some(api::BytesOf { bytes: p.signature.bytes }),
        proto_block_proposal(p, owner).original_proposal == p.original_proposal,
        parse_block_proposal(m) matches Ok(p2) ==> {
            &&& p2.content.chain_id.0.bytes + p2.content.rest == m.content
            &&& m.chain_id == Some(api::ChainIdOf { bytes: p2.content.chain_id.0.bytes })
            &&& m.signature == Some(api::BytesOf { bytes: p2.signature.bytes })
            &&& p2.original_proposal == m.original_proposal
        },
{
    crate::convert::certificates::law_chain_value_parse_exact(m.content);
}

/// A cross-chain request is written with its sender in the sender field and
/// its recipient in the recipient field, and its bundles or latest height
/// as they are; a request read from a message takes its sender from the
/// sender field and its recipient from the recipient field, and is of the
/// kind the message is.
pub proof fn law_cross_chain_request_fields(r: SpecCrossChainRequest, m: api::CrossChainRequestOf<Seq<u8>>)
    ensures
        r matches CrossChainRequestOf::UpdateRecipient { sender, recipient, bundles }
            ==> proto_cross_chain_request(r).inner == Some(
            api::CrossChainRequestInnerOf::UpdateRecipient(
                api::UpdateRecipientOf {
                    sender: Some(api::ChainIdOf { bytes: sender.0.bytes }),
                    recipient: Some(api::ChainIdOf { bytes: recipient.0.bytes }),
                    bundles,
                },
            ),
        ),
        r matches CrossChainRequestOf::ConfirmUpdatedRecipient { sender, recipient, latest_height }
            ==> proto_cross_chain_request(r).inner == Some(
            api::CrossChainRequestInnerOf::ConfirmUpdatedRecipient(
                api::ConfirmUpdatedRecipientOf {
                    sender: Some(api::ChainIdOf { bytes: sender.0.bytes }),
                    recipient: Some(api::ChainIdOf { bytes: recipient.0.bytes }),
                    latest_height: Some(api::BlockHeight { height: latest_height.0 }),
                },
            ),
        ),
        parse_cross_chain_request(m) matches Ok(r2) ==> match m.inner {
            Some(api::CrossChainRequestInnerOf::UpdateRecipient(u)) => r2 matches CrossChainRequestOf::UpdateRecipient {
                sender,
                recipient,
                bundles,
            } && u.sender == Some(api::ChainIdOf { bytes: sender.0.bytes }) && u.recipient == Some(
                api::ChainIdOf { bytes: recipient.0.bytes },
            ) && bundles == u.bundles,
            Some(api::CrossChainRequestInnerOf::ConfirmUpdatedRecipient(c)) => r2 matches CrossChainRequestOf::ConfirmUpdatedRecipient {
                sender,
                recipient,
                latest_height,
            } && c.sender == Some(api::ChainIdOf { bytes: sender.0.bytes }) && c.recipient == Some(
                api::ChainIdOf { bytes: recipient.0.bytes },
            ) && c.latest_height == Some(api::BlockHeight { height: latest_height.0 }),
            None => false,
        },
{
    match m.inner {
        Some(api::CrossChainRequestInnerOf::UpdateRecipient(u)) => {
            if u.sender is Some && u.recipient is Some {
                law_chain_id_parse_exact(u.sender.unwrap());
                law_chain_id_parse_exact(u.recipient.unwrap());
            }
        },
        Some(api::CrossChainRequestInnerOf::ConfirmUpdatedRecipient(c)) => {
            if c.sender is Some && c.recipient is Some {
                law_chain_id_parse_exact(c.sender.unwrap());
                law_chain_id_parse_exact(c.recipient.unwrap());
            }
        },
        None => {},
    }
}

/// Each part of a query goes to the message field of the same name (the
/// range of heights in its bincode encoding), and a query read from a
/// message takes each part from the field of the same name.
pub proof fn law_chain_info_query_fields(q: SpecChainInfoQuery, m: api::ChainInfoQueryOf<Seq<u8>>)
    ensures
        proto_chain_info_query(q).chain_id == Some(api::ChainIdOf { bytes: q.chain_id.0.bytes }),
        proto_chain_info_query(q).request_committees == q.request_committees,
        proto_chain_info_query(q).request_owner_balance == Some(
            api::BytesOf { bytes: q.request_owner_balance.bytes },
        ),
        proto_chain_info_query(q).request_pending_message_bundles
            == q.request_pending_message_bundles,
        q.test_next_block_height matches Some(h) ==> proto_chain_info_query(q).test_next_block_height
            == Some(api::BlockHeight { height: h.0 }),
        q.test_next_block_height is None ==> proto_chain_info_query(q).test_next_block_height is None,
        q.request_sent_certificate_hashes_in_range matches Some(r) ==> proto_chain_info_query(
            q,
        ).request_sent_certificate_hashes_in_range matches Some(b) && height_range_read(b) == Some(
            (r.start.0, r.limit),
        ),
        q.request_sent_certificate_hashes_in_range is None ==> proto_chain_info_query(
            q,
        ).request_sent_certificate_hashes_in_range is None,
        proto_chain_info_query(q).request_received_log_excluding_first_n
            == q.request_received_log_excluding_first_n,
        proto_chain_info_query(q).request_manager_values == q.request_manager_values,
        proto_chain_info_query(q).request_leader_timeout == q.request_leader_timeout,
        proto_chain_info_query(q).request_fallback == q.request_fallback,
        parse_chain_info_query(m) matches Ok(q2) ==> {
            &&& m.chain_id == Some(api::ChainIdOf { bytes: q2.chain_id.0.bytes })
            &&& q2.request_committees == m.request_committees
            &&& m.request_owner_balance == Some(api::BytesOf { bytes: q2.request_owner_balance.bytes })
            &&& q2.request_pending_message_bundles == m.request_pending_message_bundles
            &&& (m.test_next_block_height matches Some(h) ==> q2.test_next_block_height == Some(
                BlockHeight(h.height),
            ))
            &&& (m.test_next_block_height is None ==> q2.test_next_block_height is None)
            &&& (m.request_sent_certificate_hashes_in_range matches Some(b)
                ==> q2.request_sent_certificate_hashes_in_range matches Some(r) && height_range_read(b)
                == Some((r.start.0, r.limit)))
            &&& (m.request_sent_certificate_hashes_in_range is None
                ==> q2.request_sent_certificate_hashes_in_range is None)
            &&& q2.request_received_log_excluding_first_n == m.request_received_log_excluding_first_n
            &&& q2.request_manager_values == m.request_manager_values
            &&& q2.request_leader_timeout == m.request_leader_timeout
            &&& q2.request_fallback == m.request_fallback
        },
{
    if let Some(r) = q.request_sent_certificate_hashes_in_range {
        lemma_height_range_read_bytes(r.start.0, r.limit);
    }
    if let Some(c) = m.chain_id {
        law_chain_id_parse_exact(c);
    }
}

/// Requests about pending blobs are written with the chain id's bytes and
/// the blob id's or blob's bytes, and read back from those same fields; the
/// results carry the blob's bytes or the encoded error.
pub proof fn law_pending_blob_fields(
    chain_id: SpecChainId,
    blob: SpecEncoded,
    m: api::PendingBlobRequestOf<Seq<u8>>,
    h: api::HandlePendingBlobRequestOf<Seq<u8>>,
)
    ensures
        proto_pending_blob_request(chain_id, blob).chain_id == Some(
            api::ChainIdOf { bytes: chain_id.0.bytes },
        ),
        proto_pending_blob_request(chain_id, blob).blob_id == Some(api::BytesOf { bytes: blob.bytes }),
        proto_handle_pending_blob_request(chain_id, blob).chain_id == Some(
            api::ChainIdOf { bytes: chain_id.0.bytes },
        ),
        proto_handle_pending_blob_request(chain_id, blob).blob == Some(
            api::BytesOf { bytes: blob.bytes },
        ),
        parse_pending_blob_request(m) matches Ok((c, b)) ==> m.chain_id == Some(
            api::ChainIdOf { bytes: c.0.bytes },
        ) && m.blob_id == Some(api::BytesOf { bytes: b.bytes }),
        parse_handle_pending_blob_request(h) matches Ok((c, b)) ==> h.chain_id == Some(
            api::ChainIdOf { bytes: c.0.bytes },
        ) && h.blob == Some(api::BytesOf { bytes: b.bytes }),
{
    if let Some(c) = m.chain_id {
        law_chain_id_parse_exact(c);
    }
    if let Some(c) = h.chain_id {
        law_chain_id_parse_exact(c);
    }
}

// ---------------------------------------------------------------- which error comes

/// A notification message that is not an acknowledgment must name a chain:
/// without one it is refused as missing a field.
pub proof fn law_notification_errors(m: api::NotificationOf<Seq<u8>>)
    ensures
        m.chain_id is None && m.reason.len() > 0 ==> parse_notification(m) == Err::<
            Option<SpecNotification>,
            Failure,
        >(Failure::MissingField),
        parse_notification(m) == Ok::<Option<SpecNotification>, Failure>(None) <==> (m.chain_id is None
            && m.reason.len() == 0),
        parse_notification(m) matches Ok(Some(_)) <==> (chain_id_field_ok(m.chain_id)
            && m.reason.len() >= 4),
{
}

/// An answer is refused exactly when it carries a signature that is not a
/// valid one, and then as an invalid signature.
pub proof fn law_chain_info_response_errors(m: api::ChainInfoResponseOf<Seq<u8>>)
    ensures
        parse_chain_info_response(m) is Ok <==> (m.signature is None || is_secp256k1_signature(
            m.signature.unwrap().bytes,
        )),
        parse_chain_info_response(m) is Err ==> parse_chain_info_response(m) == Err::<
            SpecChainInfoResponse,
            Failure,
        >(Failure::Crypto(CryptoError::InvalidValidatorSignature)),
{
}

/// A proposal is read in this order: its content (fewer than 32 bytes are a
/// bincode failure), the chain id (which must be the content's), the
/// signature (which must be present), the original proposal (whose head
/// must be a variant index).
pub proof fn law_block_proposal_errors(m: api::BlockProposalOf<Seq<u8>>)
    ensures
        m.content.len() < 32 ==> parse_block_proposal(m) == Err::<SpecBlockProposal, Failure>(
            Failure::Bincode,
        ),
        m.content.len() >= 32 && m.chain_id == Some(
            api::ChainIdOf { bytes: m.content.subrange(0, 32) },
        ) && m.signature is None ==> parse_block_proposal(m) == Err::<SpecBlockProposal, Failure>(
            Failure::MissingField,
        ),
        m.content.len() >= 32 && m.chain_id == Some(
            api::ChainIdOf { bytes: m.content.subrange(0, 32) },
        ) && m.signature is Some && m.original_proposal is Some
            && m.original_proposal.unwrap().len() < 4 ==> parse_block_proposal(m) == Err::<
            SpecBlockProposal,
            Failure,
        >(Failure::Bincode),
        parse_block_proposal(m) is Ok <==> (m.content.len() >= 32 && m.chain_id == Some(
            api::ChainIdOf { bytes: m.content.subrange(0, 32) },
        ) && m.signature is Some && (m.original_proposal is None
            || m.original_proposal.unwrap().len() >= 4)),
{
}

/// A cross-chain request is read in this order: its kind (which must be
/// present), the sender, the recipient (each missing, or refused with its
/// length), then its bundles (whose head must be a list the bytes can hold)
/// or its latest height (which must be present).
pub proof fn law_cross_chain_request_errors(m: api::CrossChainRequestOf<Seq<u8>>)
    ensures
        m.inner is None ==> parse_cross_chain_request(m) == Err::<SpecCrossChainRequest, Failure>(
            Failure::MissingField,
        ),
        m.inner matches Some(api::CrossChainRequestInnerOf::UpdateRecipient(u)) ==> {
            &&& u.sender is None ==> parse_cross_chain_request(m) == Err::<
                SpecCrossChainRequest,
                Failure,
            >(Failure::MissingField)
            &&& chain_id_field_ok(u.sender) && u.recipient is None ==> parse_cross_chain_request(m)
                == Err::<SpecCrossChainRequest, Failure>(Failure::MissingField)
            &&& chain_id_field_ok(u.sender) && chain_id_field_ok(u.recipient) && !holds_list(
                u.bundles,
            ) ==> parse_cross_chain_request(m) == Err::<SpecCrossChainRequest, Failure>(
                Failure::Bincode,
            )
            &&& parse_cross_chain_request(m) is Ok <==> (chain_id_field_ok(u.sender)
                && chain_id_field_ok(u.recipient) && holds_list(u.bundles))
        },
        m.inner matches Some(api::CrossChainRequestInnerOf::ConfirmUpdatedRecipient(c)) ==> {
            &&& c.sender is None ==> parse_cross_chain_request(m) == Err::<
                SpecCrossChainRequest,
                Failure,
            >(Failure::MissingField)
            &&& chain_id_field_ok(c.sender) && c.recipient is None ==> parse_cross_chain_request(m)
                == Err::<SpecCrossChainRequest, Failure>(Failure::MissingField)
            &&& chain_id_field_ok(c.sender) && chain_id_field_ok(c.recipient)
                && c.latest_height is None ==> parse_cross_chain_request(m) == Err::<
                SpecCrossChainRequest,
                Failure,
            >(Failure::MissingField)
            &&& parse_cross_chain_request(m) is Ok <==> (chain_id_field_ok(c.sender)
                && chain_id_field_ok(c.recipient) && c.latest_height is Some)
        },
{
}

/// A query is read in this order: the range of heights (which must decode
/// when present), the owner whose balance is asked for (which must be
/// present), the chain id (missing, or refused with its length).
pub proof fn law_chain_info_query_errors(m: api::ChainInfoQueryOf<Seq<u8>>)
    ensures
        m.request_sent_certificate_hashes_in_range matches Some(b) && height_range_read(b) is None
            ==> parse_chain_info_query(m) == Err::<SpecChainInfoQuery, Failure>(Failure::Bincode),
        (m.request_sent_certificate_hashes_in_range is None || height_range_read(
            m.request_sent_certificate_hashes_in_range.unwrap(),
        ) is Some) && m.request_owner_balance is None ==> parse_chain_info_query(m) == Err::<
            SpecChainInfoQuery,
            Failure,
        >(Failure::MissingField),
        (m.request_sent_certificate_hashes_in_range is None || height_range_read(
            m.request_sent_certificate_hashes_in_range.unwrap(),
        ) is Some) && m.request_owner_balance is Some && m.chain_id is None
            ==> parse_chain_info_query(m) == Err::<SpecChainInfoQuery, Failure>(
            Failure::MissingField,
        ),
        parse_chain_info_query(m) is Ok <==> ((m.request_sent_certificate_hashes_in_range is None
            || height_range_read(m.request_sent_certificate_hashes_in_range.unwrap()) is Some)
            && m.request_owner_balance is Some && chain_id_field_ok(m.chain_id)),
{
}

/// Requests about pending blobs are read chain id first, then the blob id
/// or blob: each must be present.
pub proof fn law_pending_blob_errors(
    m: api::PendingBlobRequestOf<Seq<u8>>,
    h: api::HandlePendingBlobRequestOf<Seq<u8>>,
)
    ensures
        m.chain_id is None ==> parse_pending_blob_request(m) == Err::<
            (SpecChainId, SpecEncoded),
            Failure,
        >(Failure::MissingField),
        chain_id_field_ok(m.chain_id) && m.blob_id is None ==> parse_pending_blob_request(m)
            == Err::<(SpecChainId, SpecEncoded), Failure>(Failure::MissingField),
        parse_pending_blob_request(m) is Ok <==> (chain_id_field_ok(m.chain_id) && m.blob_id is Some),
        h.chain_id is None ==> parse_handle_pending_blob_request(h) == Err::<
            (SpecChainId, SpecEncoded),
            Failure,
        >(Failure::MissingField),
        chain_id_field_ok(h.chain_id) && h.blob is None ==> parse_handle_pending_blob_request(h)
            == Err::<(SpecChainId, SpecEncoded), Failure>(Failure::MissingField),
        parse_handle_pending_blob_request(h) is Ok <==> (chain_id_field_ok(h.chain_id)
            && h.blob is Some),
{
}

} // verus!

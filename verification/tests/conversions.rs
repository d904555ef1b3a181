use linera_rpc::api;
use linera_rpc::convert::certificates::{
    handle_validated_certificate_request_from_proto, handle_validated_certificate_request_to_proto,
    lite_certificate_from_proto, lite_certificate_to_proto,
};
use linera_rpc::convert::requests::{
    block_proposal_from_proto, block_proposal_to_proto, chain_info_query_from_proto,
    chain_info_query_to_proto, chain_info_response_from_proto, chain_info_response_to_proto,
    cross_chain_request_from_proto, cross_chain_request_to_proto,
    handle_pending_blob_request_from_proto, handle_pending_blob_request_to_proto,
    notification_from_proto, notification_to_proto, pending_blob_request_from_proto,
    pending_blob_request_to_proto, pending_blob_result_from_blob,
};
use linera_rpc::convert::values::{
    block_height_from_proto, block_height_to_proto, chain_id_from_proto, chain_id_to_proto,
    encoded_from_proto, encoded_to_proto, validator_public_key_from_proto,
    validator_public_key_to_proto, validator_signature_from_proto, validator_signature_to_proto,
};
use linera_rpc::domain::{
    BlockHeight, BlockHeightRange, BlockProposalOf, CertificateKind, ChainId, ChainIdOf,
    ChainInfoQuery, ChainInfoQueryOf, ChainInfoResponseOf, ChainValueOf, CrossChainRequestOf,
    CryptoHashOf, EncodedOf, GenericCertificateOf, HandleCertificateRequestOf,
    HandleLiteCertRequestOf, LiteCertificateOf, LiteValueOf, NotificationOf,
    ValidatorPublicKeyOf, ValidatorSignatureOf,
};

/// A chain id whose 32 bytes all equal `index`.
fn dummy_chain_id(index: u8) -> ChainId {
    ChainIdOf(CryptoHashOf { bytes: vec![index; 32] })
}

/// The compressed SEC1 encoding of the secp256k1 generator point.
fn generator_key() -> Vec<u8> {
    let mut key = vec![0x02u8];
    key.extend_from_slice(&[
        0x79, 0xBE, 0x66, 0x7E, 0xF9, 0xDC, 0xBB, 0xAC, 0x55, 0xA0, 0x62, 0x95, 0xCE, 0x87, 0x0B,
        0x07, 0x02, 0x9B, 0xFC, 0xDB, 0x2D, 0xCE, 0x28, 0xD9, 0x59, 0xF2, 0x81, 0x5B, 0x16, 0xF8,
        0x17, 0x98,
    ]);
    key
}

/// A secp256k1 signature with `r = 1` and `s = 2`.
fn small_signature() -> Vec<u8> {
    let mut sig = vec![0u8; 64];
    sig[31] = 1;
    sig[63] = 2;
    sig
}

/// The bincode encoding of the account owner that stands for a chain.
fn chain_owner() -> EncodedOf<Vec<u8>> {
    EncodedOf { bytes: vec![0, 0, 0, 0, 0] }
}

fn chain_info_query_new(chain_id: ChainId) -> ChainInfoQuery {
    ChainInfoQueryOf {
        chain_id,
        test_next_block_height: None,
        request_committees: false,
        request_owner_balance: chain_owner(),
        request_pending_message_bundles: false,
        request_sent_certificate_hashes_in_range: None,
        request_received_log_excluding_first_n: None,
        request_manager_values: false,
        request_leader_timeout: false,
        request_fallback: false,
    }
}

#[test]
fn test_public_key() {
    let account_key = EncodedOf { bytes: vec![0u8, 3, 7, 11, 19, 23] };
    let message = encoded_to_proto(account_key.clone());
    assert_eq!(account_key, encoded_from_proto(message));

    let validator_key = ValidatorPublicKeyOf { bytes: generator_key() };
    let message = validator_public_key_to_proto(validator_key.clone());
    assert_eq!(validator_key, validator_public_key_from_proto(message).unwrap());
}

#[test]
fn test_signature() {
    let validator_signature = ValidatorSignatureOf { bytes: small_signature() };
    let message = validator_signature_to_proto(validator_signature.clone());
    assert_eq!(validator_signature, validator_signature_from_proto(message).unwrap());

    let account_signature = EncodedOf { bytes: vec![1u8; 65] };
    let message = encoded_to_proto(account_signature.clone());
    assert_eq!(account_signature, encoded_from_proto(message));
}

#[test]
fn test_owner() {
    let mut bytes = vec![1u8, 0, 0, 0];
    bytes.extend_from_slice(&[42u8; 32]);
    let owner = EncodedOf { bytes };
    let message = encoded_to_proto(owner.clone());
    assert_eq!(owner, encoded_from_proto(message));
}

#[test]
fn test_block_height() {
    let block_height = BlockHeight(10);
    let message = block_height_to_proto(block_height);
    assert_eq!(message, api::BlockHeight { height: 10 });
    assert_eq!(block_height, block_height_from_proto(message));
}

#[test]
fn test_chain_id() {
    let chain_id = dummy_chain_id(0);
    let message = chain_id_to_proto(chain_id.clone());
    assert_eq!(chain_id, chain_id_from_proto(message).unwrap());
}

#[test]
fn test_chain_info_response() {
    let chain_info = vec![7u8; 40];

    let chain_info_response_none = ChainInfoResponseOf { info: chain_info.clone(), signature: None };
    let message = chain_info_response_to_proto(chain_info_response_none.clone());
    assert_eq!(chain_info_response_none, chain_info_response_from_proto(message).unwrap());

    let chain_info_response_some = ChainInfoResponseOf {
        info: chain_info,
        signature: Some(ValidatorSignatureOf { bytes: small_signature() }),
    };
    let message = chain_info_response_to_proto(chain_info_response_some.clone());
    assert_eq!(chain_info_response_some, chain_info_response_from_proto(message).unwrap());
}

#[test]
fn test_chain_info_query() {
    let chain_info_query_none = chain_info_query_new(dummy_chain_id(0));
    let message = chain_info_query_to_proto(chain_info_query_none.clone());
    assert_eq!(chain_info_query_none, chain_info_query_from_proto(message).unwrap());

    let chain_info_query_some = ChainInfoQueryOf {
        chain_id: dummy_chain_id(0),
        test_next_block_height: Some(BlockHeight(10)),
        request_committees: false,
        request_owner_balance: chain_owner(),
        request_pending_message_bundles: false,
        request_sent_certificate_hashes_in_range: Some(BlockHeightRange {
            start: BlockHeight(3),
            limit: Some(5),
        }),
        request_received_log_excluding_first_n: None,
        request_manager_values: false,
        request_leader_timeout: false,
        request_fallback: true,
    };
    let message = chain_info_query_to_proto(chain_info_query_some.clone());
    assert_eq!(chain_info_query_some, chain_info_query_from_proto(message).unwrap());
}

#[test]
fn test_pending_blob_request() {
    let chain_id = dummy_chain_id(2);
    let blob_id = EncodedOf { bytes: b"foo-blob-id".to_vec() };
    let message = pending_blob_request_to_proto(chain_id.clone(), blob_id.clone());
    assert_eq!((chain_id, blob_id), pending_blob_request_from_proto(message).unwrap());
}

#[test]
fn test_pending_blob_result() {
    let blob = EncodedOf { bytes: b"foo".to_vec() };
    let message = pending_blob_result_from_blob(blob.clone());
    match message.inner {
        Some(api::PendingBlobResultInnerOf::Blob(content)) => {
            assert_eq!(blob, encoded_from_proto(content));
        }
        other => panic!("unexpected pending blob result: {:?}", other),
    }
}

#[test]
fn test_handle_pending_blob_request() {
    let chain_id = dummy_chain_id(2);
    let blob_content = EncodedOf { bytes: b"foo".to_vec() };
    let message = handle_pending_blob_request_to_proto(chain_id.clone(), blob_content.clone());
    assert_eq!((chain_id, blob_content), handle_pending_blob_request_from_proto(message).unwrap());
}

#[test]
fn test_lite_certificate() {
    let certificate = LiteCertificateOf {
        value: LiteValueOf {
            value_hash: CryptoHashOf { bytes: vec![5u8; 32] },
            chain_id: dummy_chain_id(0),
            kind: CertificateKind::Validated,
        },
        round: vec![2, 0, 0, 0, 2, 0, 0, 0],
        signatures: vec![1, 0, 0, 0, 0, 0, 0, 0, 9, 9, 9],
    };
    let request = HandleLiteCertRequestOf { certificate, wait_for_outgoing_messages: true };

    let message = lite_certificate_to_proto(request.clone());
    assert_eq!(request, lite_certificate_from_proto(message).unwrap());
}

#[test]
fn test_certificate() {
    let certificate = GenericCertificateOf {
        value: ChainValueOf { chain_id: dummy_chain_id(0), rest: vec![4u8; 50] },
        round: vec![2, 0, 0, 0, 3, 0, 0, 0],
        signatures: vec![1, 0, 0, 0, 0, 0, 0, 0, 8, 8],
    };
    let request = HandleCertificateRequestOf { certificate };

    let message = handle_validated_certificate_request_to_proto(request.clone());
    assert_eq!(request, handle_validated_certificate_request_from_proto(message).unwrap());
}

#[test]
fn test_cross_chain_request() {
    let cross_chain_request_update_recipient = CrossChainRequestOf::UpdateRecipient {
        sender: dummy_chain_id(0),
        recipient: dummy_chain_id(0),
        bundles: vec![0, 0, 0, 0, 0, 0, 0, 0],
    };
    let message = cross_chain_request_to_proto(cross_chain_request_update_recipient.clone());
    assert_eq!(
        cross_chain_request_update_recipient,
        cross_chain_request_from_proto(message).unwrap()
    );

    let cross_chain_request_confirm_updated_recipient =
        CrossChainRequestOf::ConfirmUpdatedRecipient {
            sender: dummy_chain_id(0),
            recipient: dummy_chain_id(0),
            latest_height: BlockHeight(1),
        };
    let message = cross_chain_request_to_proto(cross_chain_request_confirm_updated_recipient.clone());
    assert_eq!(
        cross_chain_request_confirm_updated_recipient,
        cross_chain_request_from_proto(message).unwrap()
    );
}

#[test]
fn test_block_proposal() {
    let block_proposal = BlockProposalOf {
        content: ChainValueOf { chain_id: dummy_chain_id(0), rest: vec![3u8; 20] },
        signature: EncodedOf { bytes: vec![1u8; 66] },
        original_proposal: Some(vec![0u8, 1, 2, 3]),
    };
    let owner = EncodedOf { bytes: vec![2u8; 37] };

    let message = block_proposal_to_proto(block_proposal.clone(), owner);
    assert_eq!(block_proposal, block_proposal_from_proto(message).unwrap());
}

#[test]
fn test_notification() {
    let notification = NotificationOf {
        chain_id: dummy_chain_id(0),
        reason: vec![0u8, 0, 0, 0, 0, 0, 0, 0, 0, 0, 0, 0],
    };
    let message = notification_to_proto(notification.clone());
    assert_eq!(Some(notification), notification_from_proto(message).unwrap());

    let ack = api::Notification::default();
    assert_eq!(None, notification_from_proto(ack).unwrap());
}

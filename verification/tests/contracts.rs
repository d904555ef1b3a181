use linera_rpc::api;
use linera_rpc::convert::certificates::{
    certificate_from_proto, certificate_kind_from_proto, certificate_kind_to_proto,
    certificate_to_proto, certificates_batch_response, certificates_from_batch_response,
    chain_value_from_bytes, chain_value_to_bytes, confirmed_block_certificate_from_proto,
    confirmed_block_certificate_to_proto, handle_confirmed_certificate_request_from_proto,
    handle_confirmed_certificate_request_to_proto, handle_timeout_certificate_request_from_proto,
    handle_timeout_certificate_request_to_proto, lite_certificate_from_proto,
    timeout_certificate_from_proto, timeout_certificate_to_proto,
    validated_block_certificate_from_proto, validated_block_certificate_to_proto,
};
use linera_rpc::convert::requests::{
    block_proposal_from_proto, chain_info_query_from_proto, chain_info_query_to_proto,
    chain_info_response_from_proto, chain_info_result_from_error, chain_info_result_from_response,
    cross_chain_request_from_proto, notification_from_proto, pending_blob_request_from_proto,
    pending_blob_result_from_error,
};
use linera_rpc::convert::values::{
    blob_ids_from_proto, blob_ids_to_proto, certificates_batch_request, chain_id_from_proto,
    copy_chain_id, crate_version_from_proto, crate_version_to_proto, crypto_hash_from_bytes,
    crypto_hash_from_proto, crypto_hash_to_proto, network_description_from_proto,
    network_description_to_proto, same_bytes, same_chain_id, validator_public_key_from_proto,
    validator_signature_from_proto, version_info_from_proto, version_info_to_proto,
};
use linera_rpc::domain::{
    BlockHeight, BlockHeightRange, CertificateKind, CertificateOf, ChainId, ChainIdOf,
    ChainInfoQueryOf, ChainInfoResponseOf, ChainValueOf, CrateVersion, CryptoHashOf, EncodedOf,
    GenericCertificateOf, HandleCertificateRequestOf, HandleConfirmedCertificateRequestOf,
    NetworkDescriptionOf, NodeError, Timestamp, VersionInfoOf,
};
use linera_rpc::error::{decimal_string, into_node_error, require, CryptoError, GrpcProtoConversionError};

fn chain(index: u8) -> ChainId {
    ChainIdOf(CryptoHashOf { bytes: vec![index; 32] })
}

fn generic_certificate(index: u8) -> GenericCertificateOf<Vec<u8>> {
    GenericCertificateOf {
        value: ChainValueOf { chain_id: chain(index), rest: vec![index, 1, 2] },
        round: vec![0, 0, 0, 0],
        signatures: vec![0, 0, 0, 0, 0, 0, 0, 0],
    }
}

fn generator_compressed() -> Vec<u8> {
    let mut key = vec![0x02u8];
    key.extend_from_slice(&GX);
    key
}

const GX: [u8; 32] = [
    0x79, 0xBE, 0x66, 0x7E, 0xF9, 0xDC, 0xBB, 0xAC, 0x55, 0xA0, 0x62, 0x95, 0xCE, 0x87, 0x0B, 0x07,
    0x02, 0x9B, 0xFC, 0xDB, 0x2D, 0xCE, 0x28, 0xD9, 0x59, 0xF2, 0x81, 0x5B, 0x16, 0xF8, 0x17, 0x98,
];

const GY: [u8; 32] = [
    0x48, 0x3A, 0xDA, 0x77, 0x26, 0xA3, 0xC4, 0x65, 0x5D, 0xA4, 0xFB, 0xFC, 0x0E, 0x11, 0x08, 0xA8,
    0xFD, 0x17, 0xB4, 0x48, 0xA6, 0x85, 0x54, 0x19, 0x9C, 0x47, 0xD0, 0x8F, 0xFB, 0x10, 0xD4, 0xB8,
];

/// The group order of secp256k1, big endian.
const ORDER: [u8; 32] = [
    0xFF, 0xFF, 0xFF, 0xFF, 0xFF, 0xFF, 0xFF, 0xFF, 0xFF, 0xFF, 0xFF, 0xFF, 0xFF, 0xFF, 0xFF, 0xFE,
    0xBA, 0xAE, 0xDC, 0xE6, 0xAF, 0x48, 0xA0, 0x3B, 0xBF, 0xD2, 0x5E, 0x8C, 0xD0, 0x36, 0x41, 0x41,
];

// ---------------------------------------------------------------- hashes and chain ids

#[test]
fn hash_of_wrong_length_is_refused_with_its_length() {
    let err = crypto_hash_from_bytes(vec![1u8; 31]).unwrap_err();
    assert!(matches!(err, GrpcProtoConversionError::CryptoError(CryptoError::IncorrectHashSize(31))));
    let err = chain_id_from_proto(api::ChainIdOf { bytes: vec![0u8; 33] }).unwrap_err();
    assert!(matches!(err, GrpcProtoConversionError::CryptoError(CryptoError::IncorrectHashSize(33))));
    let err = crypto_hash_from_proto(api::CryptoHashOf { bytes: vec![] }).unwrap_err();
    assert!(matches!(err, GrpcProtoConversionError::CryptoError(CryptoError::IncorrectHashSize(0))));
}

#[test]
fn hash_round_trip() {
    let hash = CryptoHashOf { bytes: (0u8..32).collect::<Vec<u8>>() };
    let message = crypto_hash_to_proto(hash.clone());
    assert_eq!(message.bytes, (0u8..32).collect::<Vec<u8>>());
    assert_eq!(hash, crypto_hash_from_proto(message).unwrap());
}

#[test]
fn chain_id_comparisons() {
    let a = chain(1);
    assert_eq!(copy_chain_id(&a), a);
    assert!(same_chain_id(&a, &chain(1)));
    assert!(!same_chain_id(&a, &chain(2)));
    assert!(same_bytes(&vec![1, 2, 3], &vec![1, 2, 3]));
    assert!(!same_bytes(&vec![1, 2, 3], &vec![1, 2]));
    assert!(!same_bytes(&vec![1, 2, 3], &vec![1, 2, 4]));
}

// ---------------------------------------------------------------- versions and descriptions

#[test]
fn crate_version_round_trip() {
    let v = CrateVersion { major: 1, minor: 2, patch: 3 };
    let m = crate_version_to_proto(v);
    assert_eq!(m, api::CrateVersion { major: 1, minor: 2, patch: 3 });
    assert_eq!(crate_version_from_proto(m), v);
}

#[test]
fn version_info_round_trip_and_default_version() {
    let info = VersionInfoOf {
        crate_version: CrateVersion { major: 0, minor: 15, patch: 1 },
        git_commit: "abc123".to_string(),
        git_dirty: true,
        rpc_hash: "rpc".to_string(),
        graphql_hash: "gql".to_string(),
        wit_hash: "wit".to_string(),
    };
    let message = version_info_to_proto(info.clone());
    assert_eq!(message.crate_version, Some(api::CrateVersion { major: 0, minor: 15, patch: 1 }));
    assert_eq!(version_info_from_proto(message), info);

    let bare = api::VersionInfoOf {
        crate_version: None,
        git_commit: "c".to_string(),
        git_dirty: false,
        rpc_hash: String::new(),
        graphql_hash: String::new(),
        wit_hash: String::new(),
    };
    let read = version_info_from_proto(bare);
    assert_eq!(read.crate_version, CrateVersion { major: 0, minor: 0, patch: 0 });
    assert_eq!(read.git_commit, "c");
}

#[test]
fn network_description_round_trip_and_missing_fields() {
    let description = NetworkDescriptionOf {
        name: "testnet".to_string(),
        genesis_config_hash: CryptoHashOf { bytes: vec![1u8; 32] },
        genesis_timestamp: Timestamp(1_700_000_000_000_000),
        genesis_committee_blob_hash: CryptoHashOf { bytes: vec![2u8; 32] },
        admin_chain_id: chain(3),
    };
    let message = network_description_to_proto(description.clone());
    assert_eq!(message.genesis_timestamp, 1_700_000_000_000_000);
    assert_eq!(network_description_from_proto(message.clone()).unwrap(), description);

    let mut no_admin = message.clone();
    no_admin.admin_chain_id = None;
    assert!(matches!(
        network_description_from_proto(no_admin).unwrap_err(),
        GrpcProtoConversionError::MissingField
    ));

    // The configuration hash is read before the admin chain id.
    let mut both_bad = message;
    both_bad.genesis_config_hash = Some(api::CryptoHashOf { bytes: vec![0u8; 5] });
    both_bad.admin_chain_id = None;
    assert!(matches!(
        network_description_from_proto(both_bad).unwrap_err(),
        GrpcProtoConversionError::CryptoError(CryptoError::IncorrectHashSize(5))
    ));
}

// ---------------------------------------------------------------- keys and signatures

#[test]
fn uncompressed_key_is_read_in_compressed_form() {
    let mut uncompressed = vec![0x04u8];
    uncompressed.extend_from_slice(&GX);
    uncompressed.extend_from_slice(&GY);
    let key = validator_public_key_from_proto(api::BytesOf { bytes: uncompressed }).unwrap();
    assert_eq!(key.bytes, generator_compressed());
}

#[test]
fn invalid_key_is_refused() {
    let mut not_on_curve = vec![0x02u8];
    not_on_curve.extend_from_slice(&[0u8; 32]);
    let err = validator_public_key_from_proto(api::BytesOf { bytes: not_on_curve }).unwrap_err();
    assert!(matches!(
        err,
        GrpcProtoConversionError::CryptoError(CryptoError::InvalidValidatorPublicKey)
    ));
    let err = validator_public_key_from_proto(api::BytesOf { bytes: vec![] }).unwrap_err();
    assert!(matches!(
        err,
        GrpcProtoConversionError::CryptoError(CryptoError::InvalidValidatorPublicKey)
    ));
}

#[test]
fn signature_scalars_must_be_in_range() {
    let mut zero_r = vec![0u8; 64];
    zero_r[63] = 1;
    let err = validator_signature_from_proto(api::BytesOf { bytes: zero_r }).unwrap_err();
    assert!(matches!(
        err,
        GrpcProtoConversionError::CryptoError(CryptoError::InvalidValidatorSignature)
    ));

    let mut r_is_order = ORDER.to_vec();
    r_is_order.extend_from_slice(&[1u8; 32]);
    assert!(validator_signature_from_proto(api::BytesOf { bytes: r_is_order }).is_err());

    let mut r_below_order = ORDER.to_vec();
    r_below_order[31] -= 1;
    r_below_order.extend_from_slice(&[1u8; 32]);
    let sig = validator_signature_from_proto(api::BytesOf { bytes: r_below_order.clone() }).unwrap();
    assert_eq!(sig.bytes, r_below_order);

    assert!(validator_signature_from_proto(api::BytesOf { bytes: vec![1u8; 63] }).is_err());
}

#[test]
fn chain_info_response_with_bad_signature_is_refused() {
    let message = api::ChainInfoResponseOf {
        chain_info: vec![1, 2, 3],
        signature: Some(api::BytesOf { bytes: vec![0u8; 64] }),
    };
    assert!(matches!(
        chain_info_response_from_proto(message).unwrap_err(),
        GrpcProtoConversionError::CryptoError(CryptoError::InvalidValidatorSignature)
    ));
}

// ---------------------------------------------------------------- certificates

#[test]
fn certificate_kind_numbers() {
    assert_eq!(certificate_kind_to_proto(CertificateKind::Timeout), 0);
    assert_eq!(certificate_kind_to_proto(CertificateKind::Validated), 1);
    assert_eq!(certificate_kind_to_proto(CertificateKind::Confirmed), 2);
    assert_eq!(certificate_kind_from_proto(1), Some(CertificateKind::Validated));
    assert_eq!(certificate_kind_from_proto(3), None);
    assert_eq!(certificate_kind_from_proto(-1), None);
}

#[test]
fn chain_value_encoding_puts_the_chain_id_first() {
    let value = ChainValueOf { chain_id: chain(9), rest: vec![1, 2, 3] };
    let bytes = chain_value_to_bytes(value.clone());
    assert_eq!(bytes.len(), 35);
    assert_eq!(&bytes[..32], &[9u8; 32][..]);
    assert_eq!(&bytes[32..], &[1u8, 2, 3][..]);
    assert_eq!(chain_value_from_bytes(bytes).unwrap(), value);

    let exact = chain_value_from_bytes(vec![4u8; 32]).unwrap();
    assert_eq!(exact.chain_id, chain(4));
    assert!(exact.rest.is_empty());

    assert!(matches!(
        chain_value_from_bytes(vec![4u8; 31]).unwrap_err(),
        GrpcProtoConversionError::BincodeError(_)
    ));
}

#[test]
fn certificate_of_each_kind_round_trips() {
    let t = timeout_certificate_to_proto(generic_certificate(1));
    assert_eq!(t.kind, api::CERTIFICATE_KIND_TIMEOUT);
    assert_eq!(timeout_certificate_from_proto(t).unwrap(), generic_certificate(1));

    let v = validated_block_certificate_to_proto(generic_certificate(2));
    assert_eq!(v.kind, api::CERTIFICATE_KIND_VALIDATED);
    assert_eq!(validated_block_certificate_from_proto(v).unwrap(), generic_certificate(2));

    let c = confirmed_block_certificate_to_proto(generic_certificate(3));
    assert_eq!(c.kind, api::CERTIFICATE_KIND_CONFIRMED);
    assert_eq!(confirmed_block_certificate_from_proto(c).unwrap(), generic_certificate(3));
}

#[test]
fn certificate_of_another_kind_is_refused() {
    let t = timeout_certificate_to_proto(generic_certificate(1));
    assert!(matches!(
        confirmed_block_certificate_from_proto(t.clone()).unwrap_err(),
        GrpcProtoConversionError::InvalidCertificateType
    ));
    assert!(matches!(
        validated_block_certificate_from_proto(t).unwrap_err(),
        GrpcProtoConversionError::InvalidCertificateType
    ));
}

#[test]
fn certificate_with_unknown_kind_is_refused() {
    let mut m = certificate_to_proto(CertificateOf::Validated(generic_certificate(1)));
    m.kind = 7;
    assert!(matches!(
        certificate_from_proto(m).unwrap_err(),
        GrpcProtoConversionError::InvalidCertificateType
    ));
}

#[test]
fn certificate_round_and_signatures_are_read_before_the_kind() {
    let mut m = certificate_to_proto(CertificateOf::Timeout(generic_certificate(1)));
    m.kind = 7;
    m.round = vec![1u8, 0, 0];
    assert!(matches!(
        certificate_from_proto(m.clone()).unwrap_err(),
        GrpcProtoConversionError::BincodeError(_)
    ));
    assert!(matches!(
        confirmed_block_certificate_from_proto(m.clone()).unwrap_err(),
        GrpcProtoConversionError::BincodeError(_)
    ));
    m.round = vec![1u8, 0, 0, 0];
    m.signatures = vec![0u8; 7];
    assert!(matches!(
        timeout_certificate_from_proto(m.clone()).unwrap_err(),
        GrpcProtoConversionError::BincodeError(_)
    ));
    // A list that claims more elements than bytes remain cannot be read.
    m.signatures = vec![0xFFu8; 8];
    assert!(matches!(
        certificate_from_proto(m.clone()).unwrap_err(),
        GrpcProtoConversionError::BincodeError(_)
    ));
    m.signatures = vec![2u8, 0, 0, 0, 0, 0, 0, 0, 9];
    assert!(matches!(
        certificate_from_proto(m.clone()).unwrap_err(),
        GrpcProtoConversionError::BincodeError(_)
    ));
    m.signatures = vec![2u8, 0, 0, 0, 0, 0, 0, 0, 9, 9];
    assert!(matches!(
        certificate_from_proto(m.clone()).unwrap_err(),
        GrpcProtoConversionError::InvalidCertificateType
    ));
    m.signatures = vec![0u8; 8];
    assert!(matches!(
        certificate_from_proto(m).unwrap_err(),
        GrpcProtoConversionError::InvalidCertificateType
    ));
}

#[test]
fn certificate_enum_round_trips() {
    for c in [
        CertificateOf::Confirmed(generic_certificate(1)),
        CertificateOf::Validated(generic_certificate(2)),
        CertificateOf::Timeout(generic_certificate(3)),
    ] {
        let m = certificate_to_proto(c.clone());
        assert_eq!(certificate_from_proto(m).unwrap(), c);
    }
}

#[test]
fn certificate_batches_keep_order_and_fail_on_first_bad_one() {
    let certificates = vec![
        CertificateOf::Timeout(generic_certificate(1)),
        CertificateOf::Confirmed(generic_certificate(2)),
    ];
    let response = certificates_batch_response(certificates.clone());
    assert_eq!(response.certificates.len(), 2);
    assert_eq!(response.certificates[0].kind, api::CERTIFICATE_KIND_TIMEOUT);
    assert_eq!(certificates_from_batch_response(response.clone()).unwrap(), certificates);

    let mut bad = response;
    bad.certificates[1].kind = 9;
    bad.certificates.push(api::CertificateOf {
        value: vec![0u8; 3],
        round: vec![],
        signatures: vec![],
        kind: 0,
    });
    assert!(matches!(
        certificates_from_batch_response(bad).unwrap_err(),
        GrpcProtoConversionError::InvalidCertificateType
    ));

    let empty = api::CertificatesBatchResponse { certificates: vec![] };
    assert!(certificates_from_batch_response(empty).unwrap().is_empty());
}

#[test]
fn certificates_batch_request_keeps_order() {
    let hashes = vec![CryptoHashOf { bytes: vec![1u8; 32] }, CryptoHashOf { bytes: vec![2u8; 32] }];
    let request = certificates_batch_request(hashes);
    assert_eq!(request.hashes.len(), 2);
    assert_eq!(request.hashes[0].bytes, vec![1u8; 32]);
    assert_eq!(request.hashes[1].bytes, vec![2u8; 32]);
}

#[test]
fn lite_certificate_errors_in_order() {
    let m = api::LiteCertificateOf {
        hash: vec![0u8; 3],
        round: vec![],
        chain_id: None,
        signatures: vec![],
        wait_for_outgoing_messages: false,
        kind: 5,
    };
    assert!(matches!(
        lite_certificate_from_proto(m.clone()).unwrap_err(),
        GrpcProtoConversionError::InvalidCertificateType
    ));
    let mut m = m;
    m.kind = 2;
    assert!(matches!(
        lite_certificate_from_proto(m.clone()).unwrap_err(),
        GrpcProtoConversionError::CryptoError(CryptoError::IncorrectHashSize(3))
    ));
    m.hash = vec![0u8; 32];
    assert!(matches!(
        lite_certificate_from_proto(m.clone()).unwrap_err(),
        GrpcProtoConversionError::MissingField
    ));
    m.chain_id = Some(api::ChainIdOf { bytes: vec![6u8; 32] });
    assert!(matches!(
        lite_certificate_from_proto(m.clone()).unwrap_err(),
        GrpcProtoConversionError::BincodeError(_)
    ));
    m.signatures = vec![0u8; 8];
    assert!(matches!(
        lite_certificate_from_proto(m.clone()).unwrap_err(),
        GrpcProtoConversionError::BincodeError(_)
    ));
    m.round = vec![0u8; 4];
    let r = lite_certificate_from_proto(m).unwrap();
    assert_eq!(r.certificate.value.kind, CertificateKind::Confirmed);
    assert_eq!(r.certificate.value.chain_id, chain(6));
}

#[test]
fn handle_certificate_request_with_other_chain_is_refused() {
    let request = HandleCertificateRequestOf { certificate: generic_certificate(1) };
    let mut m = handle_timeout_certificate_request_to_proto(request.clone());
    assert_eq!(m.chain_id, Some(api::ChainIdOf { bytes: vec![1u8; 32] }));
    assert_eq!(handle_timeout_certificate_request_from_proto(m.clone()).unwrap(), request);

    m.chain_id = Some(api::ChainIdOf { bytes: vec![2u8; 32] });
    assert!(matches!(
        handle_timeout_certificate_request_from_proto(m.clone()).unwrap_err(),
        GrpcProtoConversionError::InconsistentChainId
    ));
    m.chain_id = None;
    assert!(matches!(
        handle_timeout_certificate_request_from_proto(m.clone()).unwrap_err(),
        GrpcProtoConversionError::MissingField
    ));
    // The certificate is read before the chain id.
    m.certificate = None;
    m.chain_id = Some(api::ChainIdOf { bytes: vec![0u8; 1] });
    assert!(matches!(
        handle_timeout_certificate_request_from_proto(m).unwrap_err(),
        GrpcProtoConversionError::MissingField
    ));
}

#[test]
fn handle_confirmed_certificate_request_round_trips() {
    let request = HandleConfirmedCertificateRequestOf {
        certificate: generic_certificate(4),
        wait_for_outgoing_messages: true,
    };
    let m = handle_confirmed_certificate_request_to_proto(request.clone());
    assert!(m.wait_for_outgoing_messages);
    assert_eq!(m.certificate.as_ref().unwrap().kind, api::CERTIFICATE_KIND_CONFIRMED);
    assert_eq!(handle_confirmed_certificate_request_from_proto(m.clone()).unwrap(), request);

    let mut wrong_kind = m;
    wrong_kind.certificate.as_mut().unwrap().kind = api::CERTIFICATE_KIND_VALIDATED;
    assert!(matches!(
        handle_confirmed_certificate_request_from_proto(wrong_kind).unwrap_err(),
        GrpcProtoConversionError::InvalidCertificateType
    ));
}

// ---------------------------------------------------------------- requests

#[test]
fn block_proposal_checks_chain_and_signature() {
    let mut content = vec![7u8; 32];
    content.extend_from_slice(&[1, 2, 3]);
    let m = api::BlockProposalOf {
        chain_id: Some(api::ChainIdOf { bytes: vec![8u8; 32] }),
        content,
        owner: None,
        signature: None,
        original_proposal: None,
    };
    assert!(matches!(
        block_proposal_from_proto(m.clone()).unwrap_err(),
        GrpcProtoConversionError::InconsistentChainId
    ));
    let mut m = m;
    m.chain_id = None;
    assert!(matches!(
        block_proposal_from_proto(m.clone()).unwrap_err(),
        GrpcProtoConversionError::InconsistentChainId
    ));
    m.chain_id = Some(api::ChainIdOf { bytes: vec![7u8; 32] });
    assert!(matches!(
        block_proposal_from_proto(m.clone()).unwrap_err(),
        GrpcProtoConversionError::MissingField
    ));
    m.signature = Some(api::BytesOf { bytes: vec![5u8; 10] });
    let p = block_proposal_from_proto(m.clone()).unwrap();
    assert_eq!(p.content.chain_id, chain(7));
    assert_eq!(p.content.rest, vec![1u8, 2, 3]);
    assert_eq!(p.signature.bytes, vec![5u8; 10]);

    m.content = vec![7u8; 12];
    assert!(matches!(
        block_proposal_from_proto(m).unwrap_err(),
        GrpcProtoConversionError::BincodeError(_)
    ));
}

#[test]
fn cross_chain_request_missing_parts() {
    let none = api::CrossChainRequestOf { inner: None };
    assert!(matches!(
        cross_chain_request_from_proto(none).unwrap_err(),
        GrpcProtoConversionError::MissingField
    ));
    let no_height = api::CrossChainRequestOf {
        inner: Some(api::CrossChainRequestInnerOf::ConfirmUpdatedRecipient(
            api::ConfirmUpdatedRecipientOf {
                sender: Some(api::ChainIdOf { bytes: vec![1u8; 32] }),
                recipient: Some(api::ChainIdOf { bytes: vec![2u8; 32] }),
                latest_height: None,
            },
        )),
    };
    assert!(matches!(
        cross_chain_request_from_proto(no_height).unwrap_err(),
        GrpcProtoConversionError::MissingField
    ));
    let bad_recipient = api::CrossChainRequestOf {
        inner: Some(api::CrossChainRequestInnerOf::UpdateRecipient(api::UpdateRecipientOf {
            sender: Some(api::ChainIdOf { bytes: vec![1u8; 32] }),
            recipient: Some(api::ChainIdOf { bytes: vec![2u8; 4] }),
            bundles: vec![],
        })),
    };
    assert!(matches!(
        cross_chain_request_from_proto(bad_recipient).unwrap_err(),
        GrpcProtoConversionError::CryptoError(CryptoError::IncorrectHashSize(4))
    ));
}

#[test]
fn short_bundles_and_original_proposals_are_refused() {
    let short_bundles = api::CrossChainRequestOf {
        inner: Some(api::CrossChainRequestInnerOf::UpdateRecipient(api::UpdateRecipientOf {
            sender: Some(api::ChainIdOf { bytes: vec![1u8; 32] }),
            recipient: Some(api::ChainIdOf { bytes: vec![2u8; 32] }),
            bundles: vec![0u8; 7],
        })),
    };
    assert!(matches!(
        cross_chain_request_from_proto(short_bundles).unwrap_err(),
        GrpcProtoConversionError::BincodeError(_)
    ));
    let too_many_bundles = api::CrossChainRequestOf {
        inner: Some(api::CrossChainRequestInnerOf::UpdateRecipient(api::UpdateRecipientOf {
            sender: Some(api::ChainIdOf { bytes: vec![1u8; 32] }),
            recipient: Some(api::ChainIdOf { bytes: vec![2u8; 32] }),
            bundles: vec![1u8, 0, 0, 0, 0, 0, 0, 0],
        })),
    };
    assert!(matches!(
        cross_chain_request_from_proto(too_many_bundles).unwrap_err(),
        GrpcProtoConversionError::BincodeError(_)
    ));

    let mut content = vec![7u8; 32];
    content.push(1);
    let proposal = api::BlockProposalOf {
        chain_id: Some(api::ChainIdOf { bytes: vec![7u8; 32] }),
        content,
        owner: None,
        signature: Some(api::BytesOf { bytes: vec![5u8; 10] }),
        original_proposal: Some(vec![0u8, 0]),
    };
    assert!(matches!(
        block_proposal_from_proto(proposal.clone()).unwrap_err(),
        GrpcProtoConversionError::BincodeError(_)
    ));
    let mut fine = proposal;
    fine.original_proposal = Some(vec![1u8, 0, 0, 0, 9]);
    assert_eq!(block_proposal_from_proto(fine).unwrap().original_proposal, Some(vec![1u8, 0, 0, 0, 9]));
}

#[test]
fn notification_without_chain_is_refused() {
    let m = api::NotificationOf { chain_id: None, reason: vec![1u8] };
    assert!(matches!(
        notification_from_proto(m).unwrap_err(),
        GrpcProtoConversionError::MissingField
    ));
}

#[test]
fn notification_reason_must_hold_a_variant_index() {
    let empty = api::NotificationOf {
        chain_id: Some(api::ChainIdOf { bytes: vec![1u8; 32] }),
        reason: vec![],
    };
    assert!(matches!(
        notification_from_proto(empty).unwrap_err(),
        GrpcProtoConversionError::BincodeError(_)
    ));
    let short = api::NotificationOf {
        chain_id: Some(api::ChainIdOf { bytes: vec![1u8; 32] }),
        reason: vec![0u8, 0, 0],
    };
    assert!(matches!(
        notification_from_proto(short).unwrap_err(),
        GrpcProtoConversionError::BincodeError(_)
    ));
    // The chain id is read before the reason.
    let bad_chain = api::NotificationOf {
        chain_id: Some(api::ChainIdOf { bytes: vec![1u8; 3] }),
        reason: vec![],
    };
    assert!(matches!(
        notification_from_proto(bad_chain).unwrap_err(),
        GrpcProtoConversionError::CryptoError(CryptoError::IncorrectHashSize(3))
    ));
    let ok = api::NotificationOf {
        chain_id: Some(api::ChainIdOf { bytes: vec![1u8; 32] }),
        reason: vec![2u8, 0, 0, 0],
    };
    let n = notification_from_proto(ok).unwrap().unwrap();
    assert_eq!(n.reason, vec![2u8, 0, 0, 0]);
}

#[test]
fn versions_and_heights_convert_with_from() {
    let info = VersionInfoOf {
        crate_version: CrateVersion { major: 4, minor: 5, patch: 6 },
        git_commit: "deadbeef".to_string(),
        git_dirty: false,
        rpc_hash: "r".to_string(),
        graphql_hash: "g".to_string(),
        wit_hash: "w".to_string(),
    };
    let message = api::VersionInfo::from(info.clone());
    assert_eq!(message.crate_version, Some(api::CrateVersion { major: 4, minor: 5, patch: 6 }));
    assert_eq!(linera_rpc::domain::VersionInfo::from(message), info);
    assert_eq!(
        CrateVersion::from(api::CrateVersion { major: 1, minor: 0, patch: 2 }),
        CrateVersion { major: 1, minor: 0, patch: 2 }
    );
    assert_eq!(api::BlockHeight::from(BlockHeight(12)), api::BlockHeight { height: 12 });
    assert_eq!(BlockHeight::from(api::BlockHeight { height: 13 }), BlockHeight(13));
}

#[test]
fn height_range_is_written_in_bincode() {
    let query = ChainInfoQueryOf {
        chain_id: chain(0),
        test_next_block_height: None,
        request_committees: true,
        request_owner_balance: EncodedOf { bytes: vec![0, 0, 0, 0, 0] },
        request_pending_message_bundles: false,
        request_sent_certificate_hashes_in_range: Some(BlockHeightRange {
            start: BlockHeight(3),
            limit: Some(5),
        }),
        request_received_log_excluding_first_n: Some(4),
        request_manager_values: false,
        request_leader_timeout: true,
        request_fallback: false,
    };
    let m = chain_info_query_to_proto(query.clone());
    assert_eq!(
        m.request_sent_certificate_hashes_in_range,
        Some(vec![3u8, 0, 0, 0, 0, 0, 0, 0, 1, 5, 0, 0, 0, 0, 0, 0, 0])
    );

    let mut open = query;
    open.request_sent_certificate_hashes_in_range =
        Some(BlockHeightRange { start: BlockHeight(258), limit: None });
    let m = chain_info_query_to_proto(open.clone());
    assert_eq!(
        m.request_sent_certificate_hashes_in_range,
        Some(vec![2u8, 1, 0, 0, 0, 0, 0, 0, 0])
    );
    assert_eq!(chain_info_query_from_proto(m).unwrap(), open);
}

#[test]
fn chain_info_query_errors_in_order() {
    let m = api::ChainInfoQueryOf {
        chain_id: None,
        request_committees: false,
        request_owner_balance: None,
        request_pending_message_bundles: false,
        test_next_block_height: None,
        request_sent_certificate_hashes_in_range: Some(vec![1u8, 0, 0, 0, 0, 0, 0, 0, 2]),
        request_received_log_excluding_first_n: None,
        request_manager_values: false,
        request_leader_timeout: false,
        request_fallback: false,
    };
    assert!(matches!(
        chain_info_query_from_proto(m.clone()).unwrap_err(),
        GrpcProtoConversionError::BincodeError(_)
    ));
    let mut m = m;
    m.request_sent_certificate_hashes_in_range = Some(vec![1u8, 0, 0, 0, 0, 0, 0, 0, 0, 99]);
    assert!(matches!(
        chain_info_query_from_proto(m.clone()).unwrap_err(),
        GrpcProtoConversionError::MissingField
    ));
    m.request_owner_balance = Some(api::BytesOf { bytes: vec![0, 0, 0, 0, 0] });
    assert!(matches!(
        chain_info_query_from_proto(m.clone()).unwrap_err(),
        GrpcProtoConversionError::MissingField
    ));
    m.chain_id = Some(api::ChainIdOf { bytes: vec![1u8; 32] });
    let q = chain_info_query_from_proto(m).unwrap();
    assert_eq!(
        q.request_sent_certificate_hashes_in_range,
        Some(BlockHeightRange { start: BlockHeight(1), limit: None })
    );
}

#[test]
fn pending_blob_request_needs_both_fields() {
    let m = api::PendingBlobRequestOf { chain_id: Some(api::ChainIdOf { bytes: vec![1u8; 32] }), blob_id: None };
    assert!(matches!(
        pending_blob_request_from_proto(m).unwrap_err(),
        GrpcProtoConversionError::MissingField
    ));
    let m = api::PendingBlobRequestOf { chain_id: None, blob_id: Some(api::BytesOf { bytes: vec![] }) };
    assert!(matches!(
        pending_blob_request_from_proto(m).unwrap_err(),
        GrpcProtoConversionError::MissingField
    ));
}

#[test]
fn results_carry_the_encoded_error() {
    let r = chain_info_result_from_error(EncodedOf { bytes: vec![9u8, 9] });
    assert_eq!(r.inner, Some(api::ChainInfoResultInnerOf::Error(vec![9u8, 9])));
    let r = pending_blob_result_from_error(EncodedOf { bytes: vec![8u8] });
    assert_eq!(r.inner, Some(api::PendingBlobResultInnerOf::Error(vec![8u8])));
    let response = ChainInfoResponseOf { info: vec![1u8], signature: None };
    let r = chain_info_result_from_response(response);
    assert_eq!(
        r.inner,
        Some(api::ChainInfoResultInnerOf::ChainInfoResponse(api::ChainInfoResponseOf {
            chain_info: vec![1u8],
            signature: None,
        }))
    );
}

#[test]
fn blob_ids_round_trip_in_order() {
    let ids = vec![EncodedOf { bytes: vec![1u8] }, EncodedOf { bytes: vec![2u8, 3] }];
    let m = blob_ids_to_proto(ids.clone());
    assert_eq!(m.bytes, vec![vec![1u8], vec![2u8, 3]]);
    assert_eq!(blob_ids_from_proto(m), ids);
}

// ---------------------------------------------------------------- errors

#[test]
fn error_messages() {
    assert_eq!(
        GrpcProtoConversionError::MissingField.message(),
        "Conversion failed due to missing field"
    );
    assert_eq!(
        GrpcProtoConversionError::InconsistentChainId.message(),
        "Inconsistent outer/inner chain IDs"
    );
    assert_eq!(
        GrpcProtoConversionError::InvalidCertificateType.message(),
        "Unrecognized certificate type"
    );
    assert_eq!(
        GrpcProtoConversionError::CryptoError(CryptoError::IncorrectHashSize(31)).message(),
        "Cryptographic error: Byte slice has length 31 but a `CryptoHash` requires exactly 32 bytes"
    );
    assert_eq!(
        GrpcProtoConversionError::CryptoError(CryptoError::InvalidValidatorSignature).message(),
        "Cryptographic error: Invalid secp256k1 signature"
    );
    assert_eq!(
        GrpcProtoConversionError::SignatureError(ed25519_dalek::SignatureError::new()).message(),
        "Signature error: signature error"
    );
    let bincode_error = chain_value_from_bytes(vec![0u8; 3]).unwrap_err();
    assert!(!bincode_error.message().is_empty());
}

#[test]
fn errors_convert_from_their_sources() {
    assert!(matches!(
        GrpcProtoConversionError::from(CryptoError::InvalidValidatorPublicKey),
        GrpcProtoConversionError::CryptoError(CryptoError::InvalidValidatorPublicKey)
    ));
    assert!(matches!(
        GrpcProtoConversionError::from(ed25519_dalek::SignatureError::new()),
        GrpcProtoConversionError::SignatureError(_)
    ));
}

#[test]
fn node_error_carries_the_message() {
    assert_eq!(
        into_node_error(GrpcProtoConversionError::MissingField),
        NodeError::GrpcError { error: "Conversion failed due to missing field".to_string() }
    );
    assert_eq!(
        into_node_error(GrpcProtoConversionError::InvalidCertificateType),
        NodeError::GrpcError { error: "Unrecognized certificate type".to_string() }
    );
}

#[test]
fn required_fields() {
    assert_eq!(require(Some(5u8)).unwrap(), 5);
    assert!(matches!(require::<u8>(None).unwrap_err(), GrpcProtoConversionError::MissingField));
}

#[test]
fn decimal_numerals() {
    assert_eq!(decimal_string(0), "0");
    assert_eq!(decimal_string(7), "7");
    assert_eq!(decimal_string(10), "10");
    assert_eq!(decimal_string(4096), "4096");
    assert_eq!(decimal_string(usize::MAX), usize::MAX.to_string());
}

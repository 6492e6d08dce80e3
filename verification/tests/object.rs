//! Objects on a relay: identifiers, options, grants, proofs and tokens.
use ramflux_sdk::dm::SdkDmAttachmentRef;
use ramflux_sdk::error::SdkError;
use ramflux_sdk::object::{
    effective_attachment_lineage, needed_quic_config, object_key_slot_associated_data,
    object_relay_chunk_id, object_transfer_id, object_transfer_status,
    parse_relay_transfer_options, relay_quic_config, relay_service_key,
    relay_token_provider_from_service_key, relay_token_provider_with_local_mint,
    sdk_relay_local_mint_enabled_from_value, sdk_relay_token_default_version, upload_status,
    DeviceBranch,
    DmCiphertext, EncryptedObject, ObjectAccessGrant, ObjectRelayCapability,
    OwnerAuthorizationProof, RelayAuthorizationKind, RelayEnvironment, RelayQuicEndpoint,
    RelayTokenProvider, RelayTransferOptions, RelayV3Protocol, RequesterProofOfPossession,
    SdkObjectKeySlot, SdkObjectRelayCapability, SignatureOutcome,
};
use ramflux_sdk::object_grants::{
    build_v3_ack_token_issue_body, build_v3_get_token_issue_body,
    build_v3_grant_token_issue_body, build_v3_owner_session_token_issue_body,
    empty_v3_issuer_certificate, has_capability, object_access_grant_to_sign,
    owner_authorization_proof_to_sign, requester_pop_to_sign,
    verify_recipient_object_access_grant,
};
use ramflux_sdk::own_device_sync::own_device_sync_slot_conversation_id;
use ramflux_sdk::records::ObjectTransferRecord;
use ramflux_sdk::relay_token::{
    local_relay_service_key, object_chunk_frame, object_permission_for_chunk, object_relay_ack,
    object_relay_get_request, relay_token_for_chunk,
    relay_token_issue_body, relay_token_mac,
};

const OBJECT_RELAY_V3_PROOF_VERSION: u32 = 3;

fn protocol() -> RelayV3Protocol {
    RelayV3Protocol {
        object_access_grant_schema: "ramflux.object_access_grant.v3".to_owned(),
        owner_authorization_proof_schema: "ramflux.owner_authorization_proof.v3".to_owned(),
        requester_pop_schema: "ramflux.requester_pop.v3".to_owned(),
        gateway_issuer_certificate_schema: "ramflux.gateway_issuer_certificate.v1".to_owned(),
        proof_version: OBJECT_RELAY_V3_PROOF_VERSION,
    }
}

fn branch(principal_id: &str, device_id: &str, device_epoch: u64) -> DeviceBranch {
    DeviceBranch {
        principal_id: principal_id.to_owned(),
        device_id: device_id.to_owned(),
        device_epoch,
        public_key: format!("public-key-of-{device_id}"),
        device_hash: format!("hash-of-{device_id}"),
    }
}

/// A signature that only the holder of a key can have made, over exactly these bytes.
fn sign(signing_bytes: &str, public_key: &str) -> String {
    format!("{public_key}<{signing_bytes}>")
}

fn check_signature(signing_bytes: &str, signature: &str, public_key: &str) -> SignatureOutcome {
    if signature == sign(signing_bytes, public_key) {
        SignatureOutcome::Valid
    } else {
        SignatureOutcome::Invalid("signature error".to_owned())
    }
}

fn grant_bytes(grant: &ObjectAccessGrant) -> String {
    format!("{:?}", grant.clone().signed(String::new()))
}

fn pop_bytes(pop: &RequesterProofOfPossession) -> String {
    format!("{:?}", pop.clone().signed(String::new()))
}

fn proof_bytes(proof: &OwnerAuthorizationProof) -> String {
    format!("{:?}", proof.clone().signed(String::new()))
}

fn grant_signature(grant: &ObjectAccessGrant) -> SignatureOutcome {
    check_signature(&grant_bytes(grant), &grant.owner_signature, &grant.owner_public_key)
}

fn build_signed_object_access_grant(
    branch: &DeviceBranch,
    object_id: &str,
    manifest_hash: &str,
    grantee_device_hash: &str,
    capabilities: Vec<ObjectRelayCapability>,
    issued_at: u64,
    expires_at: u64,
) -> ObjectAccessGrant {
    let grant = object_access_grant_to_sign(
        &protocol(),
        branch,
        object_id.to_owned(),
        manifest_hash.to_owned(),
        grantee_device_hash.to_owned(),
        capabilities,
        issued_at,
        expires_at,
    );
    let signature = sign(&grant_bytes(&grant), &branch.public_key);
    grant.signed(signature)
}

fn verify_grant(
    grant: Option<&ObjectAccessGrant>,
    branch: &DeviceBranch,
    object_id: &str,
    manifest_hash: &str,
    now: u64,
) -> Result<(), SdkError> {
    let signature = match grant {
        Some(grant) => grant_signature(grant),
        None => SignatureOutcome::Valid,
    };
    verify_recipient_object_access_grant(
        &protocol(),
        grant,
        branch,
        object_id,
        manifest_hash,
        now,
        &signature,
    )
}

#[test]
fn recipient_grant_verify_present_missing_tampered() -> Result<(), SdkError> {
    let now = 1_000_000;
    let owner = branch("owner_p", "owner_device", 1);
    let recipient = branch("rcpt_p", "rcpt_device", 1);
    let grant = build_signed_object_access_grant(
        &owner,
        "object_v3",
        "manifest_v3",
        &recipient.device_hash,
        vec![ObjectRelayCapability::Get, ObjectRelayCapability::Ack],
        now,
        now + 300,
    );

    // Present + valid -> accepted.
    verify_grant(Some(&grant), &recipient, "object_v3", "manifest_v3", now)?;

    // Missing -> fail closed (an older grantless share never downgrades to open access).
    assert!(verify_grant(None, &recipient, "object_v3", "manifest_v3", now).is_err());

    // Tampered after signing (object_id changed) -> owner signature no longer verifies, even when
    // the caller's object id is updated to match the tampered value.
    let mut tampered = grant.clone();
    tampered.object_id = "object_forged".to_owned();
    assert!(
        verify_grant(Some(&tampered), &recipient, "object_forged", "manifest_v3", now).is_err()
    );

    // A grant addressed to a DIFFERENT device cannot be replayed by this recipient.
    let attacker = branch("atk_p", "attacker_device", 1);
    assert!(verify_grant(Some(&grant), &attacker, "object_v3", "manifest_v3", now).is_err());
    Ok(())
}

#[test]
fn recipient_grant_refusals_name_their_reason() {
    let recipient = branch("rcpt_p", "rcpt_device", 1);
    let owner = branch("owner_p", "owner_device", 1);
    let both = vec![ObjectRelayCapability::Get, ObjectRelayCapability::Ack];
    let grant = build_signed_object_access_grant(
        &owner, "object_v3", "manifest_v3", &recipient.device_hash, both, 1_000, 1_300,
    );
    let denied = |words: &str| Err(SdkError::CapabilityDenied(words.to_owned()));
    assert_eq!(
        verify_grant(None, &recipient, "object_v3", "manifest_v3", 1_000),
        denied("object access grant is required but was not provided")
    );
    let mut other = grant.clone();
    other.version += 1;
    assert_eq!(
        verify_grant(Some(&other), &recipient, "object_v3", "manifest_v3", 1_000),
        denied("object access grant schema/version rejected")
    );
    let attacker = branch("atk_p", "attacker_device", 1);
    assert_eq!(
        verify_grant(Some(&grant), &attacker, "object_v3", "manifest_v3", 1_000),
        denied("object access grant grantee does not match this device")
    );
    assert_eq!(
        verify_grant(Some(&grant), &recipient, "object_v3", "manifest_other", 1_000),
        denied("object access grant object/manifest binding mismatch")
    );
    let mut wide = grant.clone();
    wide.capabilities.push(ObjectRelayCapability::Put);
    assert_eq!(
        verify_grant(Some(&wide), &recipient, "object_v3", "manifest_v3", 1_000),
        denied("object access grant carries a non get/ack capability")
    );
    let mut narrow = grant.clone();
    narrow.capabilities.clear();
    assert_eq!(
        verify_grant(Some(&narrow), &recipient, "object_v3", "manifest_v3", 1_000),
        denied("object access grant carries a non get/ack capability")
    );
    for now in [999, 1_300] {
        assert_eq!(
            verify_grant(Some(&grant), &recipient, "object_v3", "manifest_v3", now),
            denied("object access grant is outside its validity window")
        );
    }
    assert_eq!(verify_grant(Some(&grant), &recipient, "object_v3", "manifest_v3", 1_299), Ok(()));
    let mut forged = grant.clone();
    forged.owner_signing_key_id = "another_key".to_owned();
    assert_eq!(
        verify_grant(Some(&forged), &recipient, "object_v3", "manifest_v3", 1_000),
        Err(SdkError::SignatureVerificationFailed(
            "object access grant signature invalid: signature error".to_owned()
        ))
    );
    assert_eq!(
        verify_recipient_object_access_grant(
            &protocol(),
            Some(&grant),
            &recipient,
            "object_v3",
            "manifest_v3",
            1_000,
            &SignatureOutcome::Unsignable("no canonical bytes".to_owned()),
        ),
        Err(SdkError::Protocol("no canonical bytes".to_owned()))
    );
}

#[test]
fn v3_grant_and_pop_builders_sign_and_bind() {
    let branch = branch("principal_a", "device_a", 1);
    let public_key = branch.public_key.clone();

    // Grant: the owner signature verifies over the grant's signing bytes, and the owner
    // identity/version binding fields are populated.
    let grant = build_signed_object_access_grant(
        &branch,
        "object_v3",
        "manifest_v3",
        "grantee_v3",
        vec![ObjectRelayCapability::Get, ObjectRelayCapability::Ack],
        1_000,
        1_300,
    );
    assert_eq!(grant.owner_public_key, public_key);
    assert_eq!(grant.owner_signing_key_id, "device_a");
    assert_eq!(grant.version, OBJECT_RELAY_V3_PROOF_VERSION);
    assert!(!grant.owner_signature.is_empty());
    assert_eq!(grant_signature(&grant), SignatureOutcome::Valid);
    // The capability set is bound: tampering it invalidates the signature.
    let mut tampered = grant.clone();
    tampered.capabilities = vec![ObjectRelayCapability::Put];
    assert_ne!(grant_signature(&tampered), SignatureOutcome::Valid);

    // PoP: the requester signature verifies and is bound to the token/body/capability frame.
    let unsigned = requester_pop_to_sign(
        &protocol(),
        &branch,
        "tok_v3".to_owned(),
        ObjectRelayCapability::Ack,
        "object_v3".to_owned(),
        "manifest_v3".to_owned(),
        "chunk_v3".to_owned(),
        "nonce_v3".to_owned(),
        "body_hash_v3".to_owned(),
        1_000,
        1_060,
    );
    let signature = sign(&pop_bytes(&unsigned), &branch.public_key);
    let pop = unsigned.signed(signature);
    assert_eq!(pop.signer_public_key, public_key);
    assert_eq!(pop.token_id, "tok_v3");
    assert_eq!(pop.body_hash, "body_hash_v3");
    assert_eq!(
        check_signature(&pop_bytes(&pop), &pop.signature, &pop.signer_public_key),
        SignatureOutcome::Valid
    );
    // The body hash is bound: tampering it invalidates the signature.
    let mut tampered_pop = pop.clone();
    tampered_pop.body_hash = "forged".to_owned();
    assert_ne!(
        check_signature(
            &pop_bytes(&tampered_pop),
            &tampered_pop.signature,
            &tampered_pop.signer_public_key
        ),
        SignatureOutcome::Valid
    );
}

#[test]
fn v3_sdk_builders_sign_shared_protocol_payloads() {
    let branch = branch("principal-v3", "device-v3", 7);
    let grant = build_signed_object_access_grant(
        &branch,
        "object-v3",
        "manifest-v3",
        "recipient-v3",
        vec![ObjectRelayCapability::Get],
        1_000,
        1_300,
    );
    assert_eq!(grant_signature(&grant), SignatureOutcome::Valid);
    assert_eq!(grant.owner_public_key, branch.public_key);
    let pop = requester_pop_to_sign(
        &protocol(),
        &branch,
        "token-v3".to_owned(),
        ObjectRelayCapability::Get,
        "object-v3".to_owned(),
        "manifest-v3".to_owned(),
        "chunk-v3".to_owned(),
        "nonce-v3".to_owned(),
        "body-v3".to_owned(),
        1_000,
        1_060,
    );
    assert_eq!(
        pop,
        RequesterProofOfPossession {
            schema: "ramflux.requester_pop.v3".to_owned(),
            version: OBJECT_RELAY_V3_PROOF_VERSION,
            token_id: "token-v3".to_owned(),
            capability: ObjectRelayCapability::Get,
            object_id: "object-v3".to_owned(),
            manifest_hash: "manifest-v3".to_owned(),
            chunk_id: "chunk-v3".to_owned(),
            request_nonce: "nonce-v3".to_owned(),
            body_hash: "body-v3".to_owned(),
            issued_at: 1_000,
            expires_at: 1_060,
            signer_device_id: "device-v3".to_owned(),
            signer_public_key: branch.public_key.clone(),
            signature: String::new(),
        }
    );
    let proof = owner_authorization_proof_to_sign(
        &protocol(),
        &branch,
        ObjectRelayCapability::Put,
        "object-v3".to_owned(),
        Some("manifest-v3".to_owned()),
        Some("chunk-v3".to_owned()),
        "node-v3".to_owned(),
        "principal-v3".to_owned(),
        7,
        "nonce-v3".to_owned(),
        "body-v3".to_owned(),
        1_000,
        1_060,
    );
    let signature = sign(&proof_bytes(&proof), &branch.public_key);
    let proof = proof.signed(signature);
    assert_eq!(
        check_signature(&proof_bytes(&proof), &proof.owner_signature, &branch.public_key),
        SignatureOutcome::Valid
    );
    assert_eq!(proof.owner_device_epoch, 7);
    assert_eq!(proof.chunk_id, Some("chunk-v3".to_owned()));
}

fn no_environment() -> RelayEnvironment {
    RelayEnvironment {
        quic_addr: None,
        quic_server_name: None,
        quic_ca_cert: None,
        owner_home_node_id: None,
        owner_principal_id: None,
        audience_node_id: None,
    }
}

#[test]
fn relay_transfer_options_default_to_gateway_issued_tokens() -> Result<(), SdkError> {
    let options = parse_relay_transfer_options(
        Some("http://127.0.0.1:18084".to_owned()),
        relay_token_provider_from_service_key(None),
        None,
        no_environment(),
    )?
    .ok_or_else(|| SdkError::LocalBus("missing relay options".to_owned()))?;
    assert!(matches!(options.token_provider, RelayTokenProvider::GatewayIssued));
    Ok(())
}

#[test]
fn relay_transfer_options_ignore_service_key_without_local_mint_gate() -> Result<(), SdkError> {
    let key = Some("ramflux-relay-itest-service-key".to_owned());
    for provider in [
        relay_token_provider_from_service_key(key.clone()),
        relay_token_provider_with_local_mint(key, None, None),
    ] {
        let options = parse_relay_transfer_options(
            Some("http://127.0.0.1:18084".to_owned()),
            provider,
            None,
            no_environment(),
        )?
        .ok_or_else(|| SdkError::LocalBus("missing relay options".to_owned()))?;
        assert!(matches!(options.token_provider, RelayTokenProvider::GatewayIssued));
    }
    Ok(())
}

#[test]
fn local_mint_needs_a_key_and_the_gate() {
    let key = || Some("service-key".to_owned());
    assert_eq!(
        relay_token_provider_with_local_mint(key(), Some(" Yes "), Some(vec![1, 2])),
        RelayTokenProvider::LocalMint { relay_service_key: vec![1, 2] }
    );
    assert_eq!(
        relay_token_provider_with_local_mint(key(), Some("on"), None),
        RelayTokenProvider::LocalMint { relay_service_key: b"service-key".to_vec() }
    );
    assert_eq!(
        relay_token_provider_with_local_mint(key(), Some("off"), Some(vec![1])),
        RelayTokenProvider::GatewayIssued
    );
    assert_eq!(
        relay_token_provider_with_local_mint(None, Some("on"), Some(vec![1])),
        RelayTokenProvider::GatewayIssued
    );
    assert_eq!(relay_service_key(key(), Some("env".to_owned())), key());
    assert_eq!(relay_service_key(None, Some("env".to_owned())), Some("env".to_owned()));
    let minting = RelayTokenProvider::LocalMint { relay_service_key: vec![7] };
    assert_eq!(local_relay_service_key(&minting), Ok(&vec![7]));
    assert_eq!(
        local_relay_service_key(&RelayTokenProvider::GatewayIssued),
        Err(SdkError::LocalBus(
            "object relay requires gateway-issued token; local mint is disabled".to_owned()
        ))
    );
}

#[test]
fn relay_quic_config_matrix_fails_closed_on_partial_config() -> Result<(), SdkError> {
    fn options(
        peer: Option<&str>,
        server: Option<&str>,
        ca: Option<&str>,
    ) -> RelayTransferOptions {
        RelayTransferOptions {
            relay_endpoint: "http://127.0.0.1:18084".to_owned(),
            token_provider: RelayTokenProvider::GatewayIssued,
            interrupt_after_chunks: None,
            relay_quic_peer_addr: peer.map(str::to_owned),
            relay_quic_server_name: server.map(str::to_owned),
            relay_quic_ca_cert: ca.map(str::to_owned),
            relay_owner_home_node_id: None,
            relay_owner_principal_id: None,
            relay_audience_node_id: None,
        }
    }

    // Fully unconfigured -> None (no QUIC transport requested); the gateway-issued production
    // path rejects this before any relay call, so it never silently uses HTTP.
    assert!(relay_quic_config(&options(None, None, None))?.is_none());

    // Every partial combination fails closed rather than silently degrading transport.
    for (peer, server, ca) in [
        (Some("127.0.0.1:9000"), None, None),
        (None, Some("ramflux-relay"), None),
        (None, None, Some("/tmp/ca.pem")),
        (Some("127.0.0.1:9000"), Some("ramflux-relay"), None),
        (Some("127.0.0.1:9000"), None, Some("/tmp/ca.pem")),
        (None, Some("ramflux-relay"), Some("/tmp/ca.pem")),
    ] {
        assert!(
            relay_quic_config(&options(peer, server, ca)).is_err(),
            "partial QUIC config must fail closed: {peer:?}/{server:?}/{ca:?}"
        );
    }
    assert_eq!(
        relay_quic_config(&options(
            Some("127.0.0.1:9000"),
            Some("ramflux-relay"),
            Some("/tmp/ca.pem")
        ))?,
        Some(RelayQuicEndpoint {
            peer_addr: "127.0.0.1:9000".to_owned(),
            server_name: "ramflux-relay".to_owned(),
            ca_cert: "/tmp/ca.pem".to_owned(),
        })
    );
    let whole = options(Some("127.0.0.1:9000"), Some("ramflux-relay"), Some("/tmp/ca.pem"));
    assert_eq!(Some(needed_quic_config(&whole)?), relay_quic_config(&whole)?);
    assert_eq!(
        needed_quic_config(&options(None, None, None)),
        Err(SdkError::LocalBus("relay QUIC configuration is missing".to_owned()))
    );
    assert_eq!(
        needed_quic_config(&options(Some("127.0.0.1:9000"), None, None)),
        Err(SdkError::LocalBus("relay QUIC configuration is incomplete".to_owned()))
    );
    Ok(())
}

#[test]
fn transfer_options_need_an_endpoint_and_a_whole_quic_relay() {
    let gateway = || RelayTokenProvider::GatewayIssued;
    assert_eq!(parse_relay_transfer_options(None, gateway(), Some(3), no_environment()), Ok(None));
    let mut partial = no_environment();
    partial.quic_addr = Some("127.0.0.1:9000".to_owned());
    assert_eq!(
        parse_relay_transfer_options(Some("http://r".to_owned()), gateway(), None, partial.clone()),
        Err(SdkError::LocalBus(
            "relay QUIC requires RAMFLUX_SDK_RELAY_QUIC_ADDR, SERVER_NAME, and CA_CERT together"
                .to_owned()
        ))
    );
    partial.quic_server_name = Some("ramflux-relay".to_owned());
    partial.quic_ca_cert = Some("/tmp/ca.pem".to_owned());
    partial.audience_node_id = Some("node".to_owned());
    let options =
        parse_relay_transfer_options(Some("http://r".to_owned()), gateway(), Some(3), partial);
    let options = options.ok().flatten();
    assert!(options.is_some());
    if let Some(options) = options {
        assert_eq!(options.interrupt_after_chunks, Some(3));
        assert_eq!(options.relay_audience_node_id, Some("node".to_owned()));
        // Options that were read never fail for a configuration that is there only in part.
        assert!(matches!(relay_quic_config(&options), Ok(Some(_))));
    }
}

fn ciphertext(session_id: &str) -> DmCiphertext {
    DmCiphertext {
        session_id: session_id.to_owned(),
        counter: 0,
        nonce: [0; 12],
        ciphertext: vec![],
        ratchet_public_key: None,
        previous_chain_length: 0,
        sender_device_id_hash: [0; 32],
        recipient_device_id_hash: [0; 32],
        device_epoch: 0,
        message_event_id: String::new(),
        canonical_header_bytes: vec![],
        header_hash: String::new(),
        key_commitment: String::new(),
        franking_commitment: String::new(),
        commitment: String::new(),
        ciphertext_hash: String::new(),
    }
}

fn sample_grantee_attachment(
    capabilities: Vec<ObjectRelayCapability>,
) -> (SdkDmAttachmentRef, DeviceBranch) {
    let owner = branch("owner_a2", "owner_dev_a2", 1);
    let recipient = branch("rcpt_a2", "rcpt_dev_a2", 1);
    let now = 1_000_000;
    let grant = build_signed_object_access_grant(
        &owner,
        "object_a2",
        "manifest_a2",
        &recipient.device_hash,
        capabilities,
        now,
        now + 300,
    );
    let attachment = SdkDmAttachmentRef {
        schema: "ramflux.sdk.dm_attachment_ref.v1".to_owned(),
        version: 1,
        object_id: "object_a2".to_owned(),
        manifest_hash: "manifest_a2".to_owned(),
        plaintext_hash: "plaintext_a2".to_owned(),
        cipher_size: 16,
        chunk_size: 16,
        total_chunks: 1,
        relay_endpoint: "http://127.0.0.1:1".to_owned(),
        owner_home_node_id: Some("node_a2".to_owned()),
        relay_audience_node_id: Some("audience_a2".to_owned()),
        owner_principal_id: "owner_principal_a2".to_owned(),
        owner_device_epoch: 1,
        access_grant: Some(grant),
        key_slot: SdkObjectKeySlot {
            schema: "ramflux.sdk.object_key_slot.v1".to_owned(),
            version: 1,
            object_id: "object_a2".to_owned(),
            conversation_id: "conv_a2".to_owned(),
            recipient_device_id: "rcpt_dev_a2".to_owned(),
            x3dh: None,
            ciphertext: ciphertext("session_a2"),
        },
    };
    (attachment, recipient)
}

#[test]
fn grantee_token_builders_require_the_matching_grant_capability() -> Result<(), SdkError> {
    let get = ObjectRelayCapability::Get;
    let ack = ObjectRelayCapability::Ack;
    let now = 1_000_000;
    let chunk_id = "object-relay:object_a2:manifest_a2:0";
    let get_token = |grant: Option<&ObjectAccessGrant>,
                     attachment: &SdkDmAttachmentRef,
                     branch: &DeviceBranch| {
        let signature = grant.map_or(SignatureOutcome::Valid, grant_signature);
        build_v3_get_token_issue_body(
            &protocol(),
            grant,
            attachment,
            branch,
            chunk_id,
            now,
            now + 120,
            "nonce-get",
            &signature,
            "binding-hash",
        )
    };
    let ack_token = |grant: Option<&ObjectAccessGrant>,
                     attachment: &SdkDmAttachmentRef,
                     branch: &DeviceBranch| {
        let signature = grant.map_or(SignatureOutcome::Valid, grant_signature);
        build_v3_ack_token_issue_body(
            &protocol(),
            grant,
            attachment,
            branch,
            chunk_id,
            now,
            now + 120,
            "nonce-ack",
            &signature,
            "binding-hash",
        )
    };

    // A grant carrying both Get and Ack backs both token bodies; the Ack body is scoped to Ack
    // and the Get body to Get. The grant is never re-signed.
    let (attachment, recipient) = sample_grantee_attachment(vec![get, ack]);
    let get_body = get_token(attachment.access_grant.as_ref(), &attachment, &recipient)?;
    assert_eq!(get_body.capabilities, vec![get]);
    let ack_body = ack_token(attachment.access_grant.as_ref(), &attachment, &recipient)?;
    assert_eq!(ack_body.capabilities, vec![ack]);

    // A Get-only grant cannot back an Ack token, and an Ack-only grant cannot back a Get token.
    let (get_only, recipient) = sample_grantee_attachment(vec![get]);
    assert!(matches!(
        ack_token(get_only.access_grant.as_ref(), &get_only, &recipient),
        Err(SdkError::CapabilityDenied(_))
    ));
    let (ack_only, recipient) = sample_grantee_attachment(vec![ack]);
    assert!(matches!(
        get_token(ack_only.access_grant.as_ref(), &ack_only, &recipient),
        Err(SdkError::CapabilityDenied(_))
    ));

    // A missing grant, or a grant addressed to another device, is rejected before any token.
    let (attachment, _recipient) = sample_grantee_attachment(vec![get, ack]);
    assert!(matches!(
        ack_token(None, &attachment, &recipient),
        Err(SdkError::CapabilityDenied(_))
    ));
    let attacker = branch("atk_a2", "attacker_dev_a2", 1);
    assert!(matches!(
        ack_token(attachment.access_grant.as_ref(), &attachment, &attacker),
        Err(SdkError::CapabilityDenied(_))
    ));

    // What a token request names.
    assert_eq!(get_body.object_id, "object_a2");
    assert_eq!(get_body.chunk_id, chunk_id);
    assert_eq!(get_body.owner_home_node_id, "node_a2");
    assert_eq!(get_body.audience_node_id, "audience_a2");
    assert_eq!(get_body.owner_principal_id, "owner_principal_a2");
    assert_eq!(get_body.authorization_kind, RelayAuthorizationKind::OwnerGrant);
    assert_eq!(get_body.authorization_binding_hash, "binding-hash");
    assert_eq!(get_body.requester_device_id, "rcpt_dev_a2");
    assert_eq!(get_body.owner_signing_key_id, "owner_dev_a2");
    assert_eq!((get_body.issued_at, get_body.expires_at), (now, now + 120));
    assert_eq!(get_body.nonce, "nonce-get");
    assert_eq!(ack_body.nonce, "nonce-ack");
    Ok(())
}

#[test]
fn grantee_token_builder_fails_closed_on_empty_owner_lineage() {
    let (mut attachment, recipient) =
        sample_grantee_attachment(vec![ObjectRelayCapability::Get, ObjectRelayCapability::Ack]);
    // An explicit empty owner home node must fail closed rather than be treated as present.
    attachment.owner_home_node_id = Some(String::new());
    let now = 1_000_000;
    let token = |attachment: &SdkDmAttachmentRef| {
        build_v3_get_token_issue_body(
            &protocol(),
            attachment.access_grant.as_ref(),
            attachment,
            &recipient,
            "object-relay:object_a2:manifest_a2:0",
            now,
            now + 120,
            "nonce-get",
            &SignatureOutcome::Valid,
            "binding-hash",
        )
    };
    assert!(matches!(token(&attachment), Err(SdkError::CapabilityDenied(_))));
    attachment.owner_home_node_id = None;
    assert_eq!(
        token(&attachment),
        Err(SdkError::CapabilityDenied("owner home node id is required".to_owned()))
    );
    attachment.owner_home_node_id = Some("node_a2".to_owned());
    attachment.relay_audience_node_id = None;
    assert_eq!(
        token(&attachment),
        Err(SdkError::CapabilityDenied("relay audience node id is required".to_owned()))
    );
    attachment.relay_audience_node_id = Some("audience_a2".to_owned());
    attachment.owner_principal_id = String::new();
    assert_eq!(
        token(&attachment),
        Err(SdkError::CapabilityDenied("owner lineage is incomplete".to_owned()))
    );
}

fn stored_object() -> EncryptedObject {
    EncryptedObject {
        object_id: "object_o".to_owned(),
        manifest_hash: "manifest_o".to_owned(),
        nonce: "nonce".to_owned(),
        ciphertext: vec![1, 2, 3],
        plaintext_hash: "plaintext".to_owned(),
        tombstoned: false,
        backup_excluded: false,
    }
}

#[test]
fn owner_session_tokens_store_or_bury() {
    let owner = branch("owner_p", "owner_device", 4);
    let token = |capability: ObjectRelayCapability, node: &str, issued_at: u64| {
        build_v3_owner_session_token_issue_body(
            &protocol(),
            &owner,
            &stored_object(),
            "chunk",
            capability,
            node,
            "audience",
            "principal",
            "binding",
            issued_at,
            200,
            "nonce",
        )
    };
    let body = token(ObjectRelayCapability::Put, "node", 100);
    assert!(body.is_ok());
    if let Ok(body) = body {
        assert_eq!(body.capabilities, vec![ObjectRelayCapability::Put]);
        assert_eq!(body.authorization_kind, RelayAuthorizationKind::OwnerSession);
        assert_eq!(body.owner_device_epoch, 4);
        assert_eq!(body.requester_device_hash, owner.device_hash);
        assert_eq!(body.issuer_certificate, empty_v3_issuer_certificate(&protocol()));
    }
    assert!(token(ObjectRelayCapability::Tombstone, "node", 100).is_ok());
    assert_eq!(
        token(ObjectRelayCapability::Get, "node", 100),
        Err(SdkError::CapabilityDenied(
            "owner-session token requires put or tombstone capability".to_owned()
        ))
    );
    let incomplete = Err(SdkError::CapabilityDenied(
        "owner-session token lineage or validity window is incomplete".to_owned(),
    ));
    assert_eq!(token(ObjectRelayCapability::Put, "  ", 100), incomplete);
    assert_eq!(token(ObjectRelayCapability::Put, "node", 200), incomplete);
}

#[test]
fn grant_tokens_get_or_acknowledge() {
    let recipient = branch("rcpt_p", "rcpt_device", 2);
    let owner = branch("owner_p", "owner_device", 1);
    let grant = build_signed_object_access_grant(
        &owner,
        "object_o",
        "manifest_o",
        &recipient.device_hash,
        vec![ObjectRelayCapability::Get],
        100,
        400,
    );
    let token = |capability: ObjectRelayCapability, node: &str| {
        build_v3_grant_token_issue_body(
            &protocol(),
            &grant,
            &recipient,
            "object_o",
            "manifest_o",
            "chunk",
            capability,
            node,
            "principal",
            1,
            "audience",
            100,
            200,
            "nonce",
            &grant_signature(&grant),
            "binding",
        )
    };
    assert!(token(ObjectRelayCapability::Get, "node").is_ok());
    assert_eq!(
        token(ObjectRelayCapability::Put, "node"),
        Err(SdkError::CapabilityDenied(
            "grant-backed token requires get or ack capability".to_owned()
        ))
    );
    let incomplete = Err(SdkError::CapabilityDenied(
        "grant-backed token lineage or capability is incomplete".to_owned(),
    ));
    assert_eq!(token(ObjectRelayCapability::Ack, "node"), incomplete);
    assert_eq!(token(ObjectRelayCapability::Get, ""), incomplete);
    assert!(has_capability(&grant.capabilities, ObjectRelayCapability::Get));
    assert!(!has_capability(&grant.capabilities, ObjectRelayCapability::Ack));
}

#[test]
fn relay_tokens_are_authenticated_under_the_service_key() {
    let owner = branch("owner_p", "owner_device", 1);
    let token = relay_token_for_chunk(
        &owner,
        &stored_object(),
        2,
        SdkObjectRelayCapability::Get,
        500,
        200,
        "random".to_owned(),
    );
    assert_eq!(token.token_version, 2);
    assert_eq!(token.token_id, "token:object-relay:object_o:manifest_o:2:Get");
    assert_eq!(token.issuer_service, "ramflux-gateway");
    assert_eq!(token.audience_service, "ramflux-relay");
    assert_eq!((token.issued_at, token.expires_at), (200, 500));
    let with_code = token.clone().with_mac("code".to_owned());
    assert_eq!(with_code.mac, "code");
    assert_eq!(with_code.without_mac(), token);

    // The tag of "what do ya want for nothing?" under the key "Jefe".
    let expected: [u8; 32] = [
        0x5b, 0xdc, 0xc1, 0x46, 0xbf, 0x60, 0x75, 0x4e, 0x6a, 0x04, 0x24, 0x26, 0x08, 0x95, 0x75,
        0xc7, 0x5a, 0x00, 0x3f, 0x08, 0x9d, 0x27, 0x39, 0x83, 0x9d, 0xec, 0x58, 0xb9, 0x64, 0xec,
        0x38, 0x43,
    ];
    assert_eq!(
        relay_token_mac(b"Jefe", b"what do ya want for nothing?"),
        Ok(expected.to_vec())
    );
}

#[test]
fn minted_tokens_go_with_what_they_are_for() {
    let owner = branch("owner_p", "owner_device", 1);
    let object = stored_object();
    let token = |capability| {
        relay_token_for_chunk(&owner, &object, 2, capability, 500, 200, "random".to_owned())
    };
    let permission =
        |capability| object_permission_for_chunk(&owner, &object, capability, 500, 200);
    let put = SdkObjectRelayCapability::Put;
    let frame = object_chunk_frame(
        &object,
        2,
        vec![9, 9, 9],
        "hash".to_owned(),
        token(put),
        permission(put),
        500,
    );
    assert_eq!(frame.schema, "ramflux.object_chunk_frame.v1");
    assert_eq!(frame.chunk_id, "object-relay:object_o:manifest_o:2");
    assert_eq!((frame.chunk_index, frame.cipher_size, frame.expires_at), (2, 3, 500));
    assert_eq!(frame.chunk_cipher_hash, "hash");
    assert_eq!((frame.relay_token, frame.object_permission_envelope), (token(put), permission(put)));
    assert!(!frame.delete_after_ack);
    let get = SdkObjectRelayCapability::Get;
    let request = object_relay_get_request(token(get), permission(get));
    assert_eq!(request.chunk_id, frame.chunk_id);
    assert_eq!(request.relay_token, token(get));
    let ack = SdkObjectRelayCapability::Ack;
    let acknowledged = object_relay_ack(&object, token(ack), permission(ack), 250);
    assert_eq!(acknowledged.object_id, "object_o");
    assert_eq!(acknowledged.chunk_id, frame.chunk_id);
    assert_eq!(acknowledged.recipient_device_hash, owner.device_hash);
    assert_eq!(acknowledged.acked_at, 250);
}

#[test]
fn token_requests_carry_the_owners_permission() {
    let owner = branch("owner_p", "owner_device", 1);
    let permission = object_permission_for_chunk(
        &owner,
        &stored_object(),
        SdkObjectRelayCapability::Put,
        500,
        200,
    );
    assert_eq!(permission.grantee_device_hash, owner.device_hash);
    assert_eq!(permission.owner_signature, "");
    let permission = permission.signed("signature".to_owned());
    assert_eq!(permission.clone().without_signature().owner_signature, "");
    let body = relay_token_issue_body(
        &owner,
        &stored_object(),
        0,
        SdkObjectRelayCapability::Put,
        500,
        200,
        permission.clone(),
    );
    assert_eq!(body.chunk_id, "object-relay:object_o:manifest_o:0");
    assert_eq!(body.object_permission_envelope, permission);
    assert!(!body.delete_after_ack);
}

#[test]
fn identifiers_have_their_parts() {
    assert_eq!(object_relay_chunk_id("o", "m", 0), "object-relay:o:m:0");
    assert_ne!(object_relay_chunk_id("o", "m", 1), object_relay_chunk_id("o", "m", 10));
    assert_eq!(object_transfer_id("o", "m", "upload"), "upload:o:m");
    assert_eq!(
        object_key_slot_associated_data("o", "c", "d"),
        b"ramflux.object_key_slot.v1|o|c|d".to_vec()
    );
    assert_eq!(sdk_relay_token_default_version(), 1);
}

#[test]
fn transfer_status_shows_the_share_that_is_done() {
    let record = |done_bytes: u64, total_bytes: u64| ObjectTransferRecord {
        transfer_id: "upload:o:m".to_owned(),
        object_id: "o".to_owned(),
        manifest_hash: "m".to_owned(),
        direction: "upload".to_owned(),
        state: "transferring".to_owned(),
        chunk_size: 4,
        total_bytes,
        done_bytes,
        total_chunks: 3,
        completed_chunks: vec![0, 2],
        next_chunk_index: Some(1),
        last_error: None,
        updated_at: 9,
    };
    let status = object_transfer_status(record(8, 12));
    assert_eq!(status.percent, 66);
    assert_eq!(status.completed_chunks, 2);
    assert_eq!(status.next_chunk_index, Some(1));
    assert_eq!(object_transfer_status(record(0, 0)).percent, 0);
    assert_eq!(upload_status(Some(record(8, 12))), Ok(status));
    assert_eq!(
        upload_status(None),
        Err(SdkError::LocalBus("missing object transfer state".to_owned()))
    );
    assert_eq!(object_transfer_status(record(12, 12)).percent, 100);
    // A hundredfold that does not fit is counted as the largest number that does.
    assert_eq!(object_transfer_status(record(u64::MAX, u64::MAX)).percent, 1);
    // A share that does not fit is shown as none.
    assert_eq!(object_transfer_status(record(u64::MAX, 1)).percent, 0);
}

#[test]
fn effective_attachment_lineage_prefers_explicit_and_never_masks_empty() {
    // An explicit override always wins over the effective lineage.
    assert_eq!(
        effective_attachment_lineage(Some("explicit".to_owned()), Some("effective".to_owned())),
        Some("explicit".to_owned())
    );
    // A missing value is fixed to the effective lineage this upload actually used.
    assert_eq!(
        effective_attachment_lineage(None, Some("effective".to_owned())),
        Some("effective".to_owned())
    );
    // An explicit empty string is preserved, not replaced by the effective value; it fails
    // closed later in the grantee token builder.
    assert_eq!(
        effective_attachment_lineage(Some(String::new()), Some("effective".to_owned())),
        Some(String::new())
    );
    // With neither source the lineage stays absent.
    assert_eq!(effective_attachment_lineage(None, None), None);
}

#[test]
fn relay_local_mint_gate_parses_explicit_values() {
    assert!(sdk_relay_local_mint_enabled_from_value(Some("1")));
    assert!(sdk_relay_local_mint_enabled_from_value(Some("true")));
    assert!(sdk_relay_local_mint_enabled_from_value(Some("on")));
    assert!(!sdk_relay_local_mint_enabled_from_value(Some("0")));
    assert!(!sdk_relay_local_mint_enabled_from_value(None));
}

#[test]
fn own_device_sync_slot_binds_object_snapshot_and_target() {
    let object_id = "object_sync_test";
    let slot_a = own_device_sync_slot_conversation_id("snapshot_a", object_id, "device_b");
    let slot_b = own_device_sync_slot_conversation_id("snapshot_b", object_id, "device_b");
    let slot_c = own_device_sync_slot_conversation_id("snapshot_a", object_id, "device_c");
    assert_ne!(slot_a, slot_b);
    assert_ne!(slot_a, slot_c);
    let ad_a = object_key_slot_associated_data(object_id, &slot_a, "device_b");
    let ad_b = object_key_slot_associated_data(object_id, &slot_b, "device_b");
    let ad_c = object_key_slot_associated_data(object_id, &slot_a, "device_c");
    assert_ne!(ad_a, ad_b);
    assert_ne!(ad_a, ad_c);
    assert!(String::from_utf8(ad_a).unwrap_or_default().contains("device_b"));
}

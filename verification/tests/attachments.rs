//! Objects that are kept, shared and attached to messages, and how an attachment is taken in.
use ramflux_sdk::client::object::{
    attachment_slot_message, check_assembled, check_attachment_provider, check_attachment_ref,
    check_key_slot, decrypt_object_key_slot, fetching_device, imported_attachment,
    needed_relay_options, object_key_of, object_key_slot, object_share_package,
    shared_key_request, stub_length, AttachmentDownload, ChunkPlan,
    LocalBusMessageAttachmentInput, LocalBusObjectShareRequest, ObjectShare, ObjectWrite, PutObject,
    StoredParts,
};
use ramflux_sdk::client::state::RamfluxClient;
use ramflux_sdk::dm::{dm_attachment_slot_conversation_id, SdkDmAttachmentRef};
use ramflux_sdk::error::{SdkError, SyncError};
use ramflux_sdk::gateway::engine::GatewayDirectMessage;
use ramflux_sdk::object::{
    DeviceBranch, DmCiphertext, EncryptedObject, ObjectRelayCapability, RelayTokenProvider,
    RelayTransferOptions, RelayV3Protocol, SdkObjectKeySlot, SdkObjectSharePackage,
    SignatureOutcome,
};
use ramflux_sdk::records::AccountDbRequest;
use ramflux_sdk::share_flow::{HandOverStep, KeyHandOver};

fn branch() -> DeviceBranch {
    DeviceBranch {
        principal_id: "principal".to_owned(),
        device_id: "device".to_owned(),
        device_epoch: 3,
        public_key: "public-key".to_owned(),
        device_hash: "device-hash".to_owned(),
    }
}

fn unlocked() -> RamfluxClient {
    let mut client = RamfluxClient::new();
    client.open_account_index("/accounts".to_owned());
    client.create_device_branch(branch());
    client.account_unlocked("acct");
    client
}

fn object() -> EncryptedObject {
    EncryptedObject {
        object_id: "object".to_owned(),
        manifest_hash: "manifest".to_owned(),
        nonce: "nonce".to_owned(),
        ciphertext: vec![1, 2, 3, 4, 5],
        plaintext_hash: "plain".to_owned(),
        tombstoned: false,
        backup_excluded: false,
    }
}

fn slot() -> SdkObjectKeySlot {
    object_key_slot(
        "object".to_owned(),
        "slot-conversation".to_owned(),
        "recipient".to_owned(),
        None,
        DmCiphertext {
            session_id: "session".to_owned(),
            counter: 0,
            nonce: [0; 12],
            ciphertext: vec![],
            ratchet_public_key: None,
            previous_chain_length: 0,
            sender_device_id_hash: [0; 32],
            recipient_device_id_hash: [0; 32],
            device_epoch: 0,
            message_event_id: String::new(),
            canonical_header_bytes: vec![],
            header_hash: String::new(),
            key_commitment: String::new(),
            franking_commitment: String::new(),
            commitment: String::new(),
            ciphertext_hash: String::new(),
        },
    )
}

fn options(token_provider: RelayTokenProvider) -> RelayTransferOptions {
    RelayTransferOptions {
        relay_endpoint: "https://relay".to_owned(),
        token_provider,
        interrupt_after_chunks: None,
        relay_quic_peer_addr: None,
        relay_quic_server_name: None,
        relay_quic_ca_cert: None,
        relay_owner_home_node_id: Some("home".to_owned()),
        relay_owner_principal_id: None,
        relay_audience_node_id: Some("audience".to_owned()),
    }
}

fn protocol() -> RelayV3Protocol {
    RelayV3Protocol {
        object_access_grant_schema: "grant".to_owned(),
        owner_authorization_proof_schema: "proof".to_owned(),
        requester_pop_schema: "pop".to_owned(),
        gateway_issuer_certificate_schema: "cert".to_owned(),
        proof_version: 3,
    }
}

fn input(owner_home_node_id: Option<&str>) -> LocalBusMessageAttachmentInput {
    LocalBusMessageAttachmentInput {
        object_id: "object".to_owned(),
        plaintext_base64: String::new(),
        relay_endpoint: "https://relay".to_owned(),
        relay_service_key_base64: None,
        chunk_size: 2,
        owner_home_node_id: owner_home_node_id.map(str::to_owned),
        relay_audience_node_id: None,
    }
}

fn reference(owner_home_node_id: Option<&str>) -> Result<SdkDmAttachmentRef, SdkError> {
    let client = unlocked();
    let grant = client.attachment_grant_to_sign(
        &protocol(),
        &object(),
        "recipient-hash".to_owned(),
        10,
        20,
    )?;
    client.dm_attachment_ref_for_recipient(
        &object(),
        ChunkPlan { chunk_size: 2, total_chunks: 3 },
        &input(owner_home_node_id),
        &options(RelayTokenProvider::GatewayIssued),
        grant,
        slot(),
    )
}

#[test]
fn objects_are_written_only_to_an_unlocked_account() {
    let kept = ObjectWrite { object: object(), content_key: Some([7; 32]), updated_at: 9 };
    assert_eq!(
        unlocked().put_encrypted_object(object(), [7; 32], 9),
        PutObject::Kept(kept.clone())
    );
    assert_eq!(
        RamfluxClient::new().put_encrypted_object(object(), [7; 32], 9),
        PutObject::InMemory(object())
    );
    assert_eq!(
        unlocked().persist_object_if_unlocked(object(), Some([7; 32]), 9),
        Some(kept)
    );
    assert_eq!(RamfluxClient::new().persist_object_if_unlocked(object(), None, 9), None);
    assert_eq!(
        unlocked().tombstone_object("object"),
        Some(AccountDbRequest::SetObjectTombstoned { object_id: "object".to_owned() })
    );
    assert_eq!(RamfluxClient::new().tombstone_object("object"), None);
}

fn share(recipient: Option<&str>, sender: Option<&str>, target: Option<&str>) -> LocalBusObjectShareRequest {
    LocalBusObjectShareRequest {
        object_id: "object".to_owned(),
        conversation_id: "conv".to_owned(),
        recipient_device_id: recipient.map(str::to_owned),
        sender_id: sender.map(str::to_owned),
        target_delivery_id: target.map(str::to_owned),
    }
}

fn shared(
    client: &RamfluxClient,
    request: &LocalBusObjectShareRequest,
) -> Result<ObjectShare, SdkError> {
    let other = EncryptedObject { object_id: "other".to_owned(), ..object() };
    client.share_object_key_with_dm_recipient(vec![other, object()], Ok([7; 32]), request, 5)
}

#[test]
fn keys_are_shared_with_a_named_recipient() -> Result<(), SdkError> {
    let client = unlocked();
    let share_with_bob = share(Some("bob"), None, Some("target"));
    let found = shared(&client, &share_with_bob)?;
    assert_eq!(found.object, object());
    assert_eq!(found.object_key, [7; 32]);
    assert_eq!(found.recipient_device_id, "bob");
    assert_eq!(found.message.message_id, "object.slot:object:bob");
    assert_eq!(found.message.sender_id, "device");
    assert_eq!((found.message.created_at, found.message.ttl), (5, 3600));
    assert_eq!(found.associated_data, b"ramflux.object_key_slot.v1|object|conv|bob".to_vec());
    let named = share(Some("bob"), Some("carol"), Some("target"));
    assert_eq!(shared(&client, &named)?.message.sender_id, "carol");
    let nobody = RamfluxClient::new();
    assert_eq!(shared(&nobody, &share_with_bob)?.message.sender_id, "rf_object_sender");
    Ok(())
}

#[test]
fn keys_are_not_shared_without_what_they_need() {
    let client = unlocked();
    let refused = |words: &str| Some(SdkError::LocalBus(words.to_owned()));
    assert_eq!(
        shared(&client, &share(None, None, None)).err(),
        refused("object.share requires recipient_device_id")
    );
    assert_eq!(
        shared(&client, &share(Some("bob"), None, None)).err(),
        refused("object.share requires target_delivery_id")
    );
    let nameless = share(None, None, None);
    let keyless = Err(SdkError::LocalBus("no key".to_owned()));
    assert_eq!(
        client.share_object_key_with_dm_recipient(vec![object()], keyless, &nameless, 5).err(),
        refused("no key")
    );
    assert_eq!(
        client.share_object_key_with_dm_recipient(vec![], Ok([7; 32]), &nameless, 5).err(),
        Some(SdkError::Sync(SyncError::ObjectNotFound))
    );
}

#[test]
fn a_shared_object_leaves_with_its_session_kept() -> Result<(), SdkError> {
    let client = unlocked();
    let request = share(Some("bob"), None, Some("target"));
    let ciphertext = slot().ciphertext;
    let packed = client.pack_shared_object(
        shared(&client, &request)?,
        None,
        Ok(ciphertext.clone()),
        b"snapshot",
        "AQIDBAU".to_owned(),
    )?;
    assert_eq!(
        packed.session,
        client.persist_sent_slot_session("conv", "object", b"snapshot")?
    );
    assert_eq!(packed.package.object, object());
    assert_eq!(packed.package.ciphertext_base64, "AQIDBAU");
    assert_eq!(packed.package.key_slot.conversation_id, "conv");
    assert_eq!(packed.package.key_slot.recipient_device_id, "bob");
    let asked = shared_key_request(&packed.package)?;
    assert_eq!(asked.associated_data, shared(&client, &request)?.associated_data);
    let failed = SdkError::LocalBus("no session".to_owned());
    assert_eq!(
        client.pack_shared_object(
            shared(&client, &request)?,
            None,
            Err(failed.clone()),
            b"snapshot",
            String::new(),
        ),
        Err(failed)
    );
    let locked = RamfluxClient::new();
    assert_eq!(
        locked.pack_shared_object(
            shared(&locked, &request)?,
            None,
            Ok(ciphertext),
            b"snapshot",
            String::new(),
        ),
        Err(SdkError::AccountDbNotUnlocked)
    );
    assert_eq!(
        locked.persist_sent_slot_session("conv", "object", b"snapshot"),
        Err(SdkError::AccountDbNotUnlocked)
    );
    Ok(())
}

#[test]
fn a_key_leaves_when_everything_else_is_done() {
    let mut attachment = KeyHandOver::start(true);
    let mut steps = vec![];
    while attachment.step != HandOverStep::HandedOver {
        steps.push(attachment.step);
        attachment.advance(true);
    }
    assert_eq!(
        steps,
        vec![
            HandOverStep::ReadOptions,
            HandOverStep::PutObject,
            HandOverStep::Upload,
            HandOverStep::NameRecipient,
            HandOverStep::OpenSession,
            HandOverStep::EncryptKey,
            HandOverStep::PersistSession,
            HandOverStep::SignGrant,
        ]
    );
    assert!(attachment.uploaded && attachment.session_persisted && attachment.grant_signed);
    let mut share = KeyHandOver::start(false);
    for _ in 0..3 {
        share.advance(true);
    }
    assert_eq!(share.step, HandOverStep::PersistSession);
    let mut failed = share;
    failed.advance(false);
    failed.advance(true);
    assert_eq!(failed.step, HandOverStep::Stop);
    share.advance(true);
    assert_eq!(share.step, HandOverStep::HandedOver);
}

#[test]
fn packages_and_slots_of_another_form_are_refused() {
    let client = unlocked();
    let package = object_share_package(object(), "AQIDBAU".to_owned(), slot());
    let refused = |package: &SdkObjectSharePackage, words: &str| {
        let words = SdkError::LocalBus(words.to_owned());
        assert_eq!(shared_key_request(package).map(|_| ()), Err(words.clone()));
        let import =
            client.import_shared_object(package, Ok(vec![5; 32]), b"snapshot", Ok(vec![1]));
        assert!(import.session.is_none());
        assert_eq!(import.outcome.map(|_| ()), Err(words));
    };
    let mut other = package.clone();
    other.schema = "x".to_owned();
    refused(&other, "unsupported object share package schema: x");
    let mut other = package;
    other.key_slot.schema = "y".to_owned();
    refused(&other, "unsupported object key slot schema: y");
    assert_eq!(check_key_slot(&slot()), Ok(()));
    assert_eq!(object_key_of(&vec![5; 32]), Ok([5; 32]));
    assert_eq!(
        object_key_of(&vec![5; 31]),
        Err(SdkError::LocalBus("invalid object key length".to_owned()))
    );
    assert!(decrypt_object_key_slot(&slot(), &vec![5; 33]).is_err());
}

#[test]
fn a_shared_object_is_taken_in() -> Result<(), SdkError> {
    let client = unlocked();
    let mut package = object_share_package(object(), "AQIDBAU".to_owned(), slot());
    // The session is kept under the object of the package, not under that of the slot.
    package.key_slot.object_id = "other".to_owned();
    let request = shared_key_request(&package)?;
    assert_eq!(request.conversation_id, "slot-conversation");
    assert_eq!(
        request.associated_data,
        b"ramflux.object_key_slot.v1|other|slot-conversation|recipient"
    );
    let import = client.import_shared_object(
        &package,
        Ok(vec![5; 32]),
        b"snapshot",
        Ok(vec![1, 2, 3, 4, 5]),
    );
    let Some(session) = import.session else { panic!("the session is kept") };
    let kept = client.persist_dm_session_snapshot(
        "slot-conversation",
        "object-slot:object",
        "recv",
        b"snapshot",
    )?;
    assert_eq!(session, kept);
    let received = import.outcome?;
    assert_eq!(received.object_id, "object");
    assert_eq!(received.manifest_hash, "manifest");
    assert_eq!(received.plaintext_hash, "plain");
    assert_eq!(received.ciphertext, vec![1, 2, 3, 4, 5]);
    assert_eq!(received.object_key, [5; 32]);
    let parts = StoredParts {
        nonce: "nonce".to_owned(),
        tombstoned: false,
        backup_excluded: false,
    };
    assert_eq!(
        client.put_received_object(received, parts, 9),
        PutObject::Kept(ObjectWrite {
            object: object(),
            content_key: Some([5; 32]),
            updated_at: 9
        })
    );
    Ok(())
}

#[test]
fn a_shared_object_fails_in_its_order() {
    let client = unlocked();
    let package = object_share_package(object(), "AQIDBAU".to_owned(), slot());
    let bytes = || Err("bad text".to_owned());
    let undecrypted = Err(SdkError::Crypto("bad tag".to_owned()));
    let import = client.import_shared_object(&package, undecrypted, b"s", bytes());
    assert!(import.session.is_none());
    assert_eq!(import.outcome.map(|_| ()), Err(SdkError::Crypto("bad tag".to_owned())));
    let import = client.import_shared_object(&package, Ok(vec![5; 31]), b"s", bytes());
    assert!(import.session.is_none());
    assert_eq!(
        import.outcome.map(|_| ()),
        Err(SdkError::LocalBus("invalid object key length".to_owned()))
    );
    let locked = RamfluxClient::new();
    let import = locked.import_shared_object(&package, Ok(vec![5; 32]), b"s", bytes());
    assert!(import.session.is_none());
    assert_eq!(import.outcome.map(|_| ()), Err(SdkError::AccountDbNotUnlocked));
    // The session is kept also if the bytes are none.
    let import = client.import_shared_object(&package, Ok(vec![5; 32]), b"s", bytes());
    assert!(import.session.is_some());
    assert_eq!(
        import.outcome.map(|_| ()),
        Err(SdkError::LocalBus("invalid object ciphertext: bad text".to_owned()))
    );
}

#[test]
fn a_grant_is_verified_before_anything_is_fetched() -> Result<(), SdkError> {
    let mut attachment = reference(None)?;
    if let Some(grant) = &mut attachment.access_grant {
        grant.grantee_device_hash = "device-hash".to_owned();
    }
    let client = unlocked();
    let verify = |attachment: &SdkDmAttachmentRef, now: u64, signature: SignatureOutcome| {
        client.check_attachment_grant(&protocol(), attachment, now, &signature)
    };
    assert_eq!(verify(&attachment, 10, SignatureOutcome::Valid), Ok(branch()));
    let denied = |words: &str| Err(SdkError::CapabilityDenied(words.to_owned()));
    assert_eq!(
        verify(&attachment, 20, SignatureOutcome::Valid),
        denied("object access grant is outside its validity window")
    );
    assert!(verify(&attachment, 10, SignatureOutcome::Invalid("no".to_owned())).is_err());
    let mut foreign = attachment.clone();
    foreign.object_id = "another".to_owned();
    assert_eq!(
        verify(&foreign, 10, SignatureOutcome::Valid),
        denied("object access grant object/manifest binding mismatch")
    );
    let mut none = attachment.clone();
    none.access_grant = None;
    assert_eq!(
        verify(&none, 10, SignatureOutcome::Valid),
        denied("object access grant is required but was not provided")
    );
    assert_eq!(
        RamfluxClient::new().check_attachment_grant(
            &protocol(),
            &attachment,
            10,
            &SignatureOutcome::Valid
        ),
        Err(SdkError::LocalBus("object relay requires a device branch".to_owned()))
    );
    Ok(())
}

#[test]
fn transfers_need_an_unlocked_account() -> Result<(), SdkError> {
    let attachment = reference(None)?;
    let download = AttachmentDownload::start(&attachment, 77);
    let write = download.finished(Some(&branch()), &attachment, 5, "https://relay", 41);
    assert_eq!(unlocked().record_object_transfer(write.clone()), Ok(write.clone()));
    let mut locked = RamfluxClient::new();
    assert_eq!(locked.record_object_transfer(write), Err(SdkError::AccountDbNotUnlocked));
    assert_eq!(unlocked().transferring_device(), Ok(&branch()));
    assert_eq!(
        locked.transferring_device(),
        Err(SdkError::LocalBus("object relay requires a device branch".to_owned()))
    );
    locked.create_device_branch(branch());
    assert_eq!(locked.transferring_device(), Err(SdkError::AccountDbNotUnlocked));
    Ok(())
}

#[test]
fn a_reference_carries_what_its_recipient_needs() -> Result<(), SdkError> {
    let attachment = reference(None)?;
    assert_eq!(attachment.cipher_size, 5);
    assert_eq!((attachment.chunk_size, attachment.total_chunks), (2, 3));
    assert_eq!(attachment.owner_home_node_id.as_deref(), Some("home"));
    assert_eq!(attachment.relay_audience_node_id.as_deref(), Some("audience"));
    assert_eq!((attachment.owner_principal_id.as_str(), attachment.owner_device_epoch), ("principal", 3));
    let Some(grant) = attachment.access_grant else { panic!("the grant is carried") };
    assert_eq!(
        grant.capabilities,
        vec![ObjectRelayCapability::Get, ObjectRelayCapability::Ack]
    );
    assert_eq!(grant.grantee_device_hash, "recipient-hash");
    assert_eq!((grant.issued_at, grant.expires_at), (10, 20));
    assert_eq!(reference(Some(""))?.owner_home_node_id.as_deref(), Some(""));
    assert_eq!(
        RamfluxClient::new()
            .attachment_grant_to_sign(&protocol(), &object(), "h".to_owned(), 1, 2)
            .map(|_| ()),
        Err(SdkError::LocalBus("object relay requires an owner device branch".to_owned()))
    );
    Ok(())
}

#[test]
fn an_attachment_key_travels_in_its_own_conversation() -> Result<(), SdkError> {
    let message = GatewayDirectMessage {
        conversation_id: "conv".to_owned(),
        message_id: "m".to_owned(),
        envelope_id: "e".to_owned(),
        source_principal_id: "p".to_owned(),
        sender_id: "s".to_owned(),
        recipient_device_id: Some("bob".to_owned()),
        target_delivery_id: "t".to_owned(),
        encrypted_body: b"body".to_vec(),
        created_at: 4,
        ttl: 8,
    };
    let carried = attachment_slot_message(&message, "object")?;
    assert_eq!(
        carried.conversation_id,
        dm_attachment_slot_conversation_id("conv", "object", "bob")
    );
    assert_eq!(carried.message_id, "attachment.slot:object");
    assert!(carried.encrypted_body.is_empty());
    assert_eq!((carried.created_at, carried.ttl), (4, 8));
    let client = unlocked();
    let ciphertext = slot().ciphertext;
    let sent =
        client.send_attachment_key(&message, "object", None, Ok(ciphertext.clone()), b"snapshot")?;
    assert_eq!(
        sent.session,
        client.persist_dm_session_snapshot(
            &carried.conversation_id,
            "attachment-slot:object",
            "send",
            b"snapshot",
        )?
    );
    assert_eq!(sent.key_slot.conversation_id, carried.conversation_id);
    assert_eq!(sent.key_slot.object_id, "object");
    assert_eq!(sent.key_slot.recipient_device_id, "bob");
    let failed = SdkError::LocalBus("no session".to_owned());
    assert_eq!(
        client.send_attachment_key(&message, "object", None, Err(failed.clone()), b"snapshot"),
        Err(failed)
    );
    let locked = RamfluxClient::new();
    assert_eq!(
        locked.send_attachment_key(&message, "object", None, Ok(ciphertext.clone()), b"s"),
        Err(SdkError::AccountDbNotUnlocked)
    );
    let unnamed = GatewayDirectMessage { recipient_device_id: None, ..message };
    let words = SdkError::LocalBus("DM attachment requires recipient_device_id".to_owned());
    assert_eq!(attachment_slot_message(&unnamed, "object"), Err(words.clone()));
    assert_eq!(
        client.send_attachment_key(&unnamed, "object", None, Ok(ciphertext), b"snapshot"),
        Err(words)
    );
    assert_eq!(
        needed_relay_options(None, "words").map(|_| ()),
        Err(SdkError::LocalBus("words".to_owned()))
    );
    Ok(())
}

#[test]
fn what_was_not_announced_is_not_taken_in() -> Result<(), SdkError> {
    let attachment = reference(None)?;
    let refused = |words: &str| Err(SdkError::LocalBus(words.to_owned()));
    assert_eq!(check_attachment_ref(&attachment), Ok(()));
    let mut other = attachment.clone();
    other.schema = "x".to_owned();
    assert_eq!(
        check_attachment_ref(&other),
        refused("unsupported DM attachment ref schema: x")
    );
    assert_eq!(check_assembled(&attachment, "manifest"), Ok(()));
    assert_eq!(
        check_assembled(&attachment, "other"),
        refused("DM attachment manifest hash mismatch")
    );
    let taken = imported_attachment(&attachment, "cGxhaW4".to_owned(), "plain".to_owned())?;
    assert!(taken.imported);
    assert_eq!(taken.plaintext_base64, "cGxhaW4");
    assert_eq!(
        imported_attachment(&attachment, "cGxhaW4".to_owned(), "other".to_owned()).map(|_| ()),
        refused("DM attachment plaintext hash mismatch")
    );
    assert_eq!(fetching_device(&Some(branch())), Ok(branch()));
    assert_eq!(
        fetching_device(&None),
        Err(SdkError::LocalBus("object relay requires a device branch".to_owned()))
    );
    assert_eq!(check_attachment_provider(&options(RelayTokenProvider::GatewayIssued)), Ok(()));
    assert_eq!(
        check_attachment_provider(&options(RelayTokenProvider::LocalMint {
            relay_service_key: vec![1]
        })),
        Err(SdkError::CapabilityDenied(
            "gateway DM attachment GET requires gateway-issued v3 QUIC transport".to_owned()
        ))
    );
    Ok(())
}

#[test]
fn chunks_are_acknowledged_only_where_they_are_kept() -> Result<(), SdkError> {
    let attachment = reference(None)?;
    let issued = options(RelayTokenProvider::GatewayIssued);
    let minted = options(RelayTokenProvider::LocalMint { relay_service_key: vec![1] });
    assert!(unlocked().may_acknowledge(&attachment));
    assert!(unlocked().acknowledges(&attachment, &issued));
    assert!(!unlocked().acknowledges(&attachment, &minted));
    assert!(!RamfluxClient::new().acknowledges(&attachment, &issued));
    let mut ungranted = attachment.clone();
    ungranted.access_grant = None;
    assert!(!unlocked().may_acknowledge(&ungranted));
    let mut get_only = attachment;
    if let Some(grant) = &mut get_only.access_grant {
        grant.capabilities = vec![ObjectRelayCapability::Get];
    }
    assert!(!unlocked().may_acknowledge(&get_only));
    Ok(())
}

#[test]
fn an_attachment_is_fetched_chunk_by_chunk() -> Result<(), SdkError> {
    let attachment = reference(None)?;
    assert_eq!(stub_length(&attachment), 5);
    let mut download = AttachmentDownload::start(&attachment, 77);
    let mut fetched = Vec::new();
    while let Some(index) = download.wanted(&attachment) {
        fetched.push(index);
        let mut receive = |claimed: &str, decrypted: Result<u64, SdkError>| {
            download.chunk_received(
                Some(&branch()),
                &attachment,
                "https://relay",
                claimed,
                "hash",
                decrypted,
                40,
            )
        };
        assert_eq!(
            receive("other", Ok(2)),
            Err(SdkError::LocalBus("object relay chunk hash mismatch".to_owned()))
        );
        let undecrypted = SdkError::Crypto("bad tag".to_owned());
        assert_eq!(receive("hash", Err(undecrypted.clone())), Err(undecrypted));
        let write = receive("hash", Ok(2))?;
        assert_eq!(write.state, "running");
        assert_eq!(write.completed_chunks, fetched);
        assert_eq!(write.done_bytes, 2 * fetched.len() as u64);
        assert_eq!(write.direction, "download");
    }
    assert_eq!(fetched, vec![0, 1, 2]);
    let write = download.finished(Some(&branch()), &attachment, 5, "https://relay", 41);
    assert_eq!(write.state, "complete");
    assert_eq!((write.done_bytes, write.total_bytes), (5, 5));
    assert!(write.missing_chunks.is_empty());
    assert_eq!(write.next_chunk_index, None);
    Ok(())
}

//! Objects: how they are kept, shared with another device, attached to a message and taken in again.
use crate::client::object::{
    attachment_slot_message, check_assembled, check_attachment_provider, check_attachment_ref,
    check_key_slot, decrypt_object_key_slot, fetching_device, imported_attachment,
    needed_relay_options, object_key_of, object_key_slot, object_share_package, shared_key_request,
    stub_length, AttachmentDownload, ChunkPlan, DeferredObjectKeySlot,
    LocalBusMessageAttachmentInput, LocalBusObjectShareRequest, ObjectShare, ObjectWrite,
    PackedObject, PutObject, ReceivedObject, SentKeySlot, SharedKeyRequest, SharedObjectImport,
    StoredParts,
};
use crate::client::state::RamfluxClient;
use crate::dm::{SdkDmAttachmentImportResult, SdkDmAttachmentRef, SdkDmX3dhHeader};
use crate::error::SdkError;
use crate::gateway::engine::GatewayDirectMessage;
use crate::object::{
    DeviceBranch, DmCiphertext, EncryptedObject, ObjectAccessGrant, ObjectRelayCapability,
    RelayTransferOptions, RelayV3Protocol, SdkObjectKeySlot, SdkObjectSharePackage,
    SignatureOutcome,
};
use crate::records::{AccountDbRequest, EventWrite, ObjectTransferWrite};
use vstd::prelude::*;

verus! {

// ---- keeping objects ----

/// An object is kept as it is, with its key and the time, where an account is open, and only held
/// otherwise.
pub proof fn law_object_is_kept_as_it_is(
    client: &RamfluxClient,
    object: EncryptedObject,
    key: Option<[u8; 32]>,
    object_key: [u8; 32],
    now: i64,
    write: Option<ObjectWrite>,
    put: PutObject,
    transfer: ObjectTransferWrite,
    recorded: Result<ObjectTransferWrite, SdkError>,
)
    requires
        call_ensures(RamfluxClient::persist_object_if_unlocked, (client, object, key, now), write),
        call_ensures(RamfluxClient::put_encrypted_object, (client, object, object_key, now), put),
        call_ensures(RamfluxClient::record_object_transfer, (client, transfer), recorded),
    ensures
        write is Some <==> client.active_account_db is Some,
        write matches Some(w) ==> w.object == object && w.content_key == key && w.updated_at == now,
        put is Kept <==> client.active_account_db is Some,
        put matches PutObject::Kept(w) ==> w.object == object && w.content_key == Some(object_key)
            && w.updated_at == now,
        put matches PutObject::InMemory(held) ==> held == object,
        recorded is Ok <==> client.active_account_db is Some,
        recorded is Err ==> recorded->Err_0 is AccountDbNotUnlocked,
        recorded matches Ok(w) ==> w == transfer,
{
}

/// Whether an object is what was received, with what only storing it gives.
pub open spec fn is_received(
    object: EncryptedObject,
    received: ReceivedObject,
    parts: StoredParts,
) -> bool {
    &&& object.object_id == received.object_id
    &&& object.manifest_hash == received.manifest_hash
    &&& object.ciphertext == received.ciphertext
    &&& object.plaintext_hash == received.plaintext_hash
    &&& object.nonce == parts.nonce
    &&& object.tombstoned == parts.tombstoned
    &&& object.backup_excluded == parts.backup_excluded
}

/// An object that was received is kept as it came, with the key that came with it.
pub proof fn law_received_object_is_kept(
    client: &RamfluxClient,
    received: ReceivedObject,
    parts: StoredParts,
    now: i64,
    put: PutObject,
)
    requires
        call_ensures(RamfluxClient::put_received_object, (client, received, parts, now), put),
    ensures
        put is Kept <==> client.active_account_db is Some,
        put matches PutObject::Kept(w) ==> is_received(w.object, received, parts) && w.content_key
            == Some(received.object_key) && w.updated_at == now,
        put matches PutObject::InMemory(held) ==> is_received(held, received, parts),
{
}

/// The device that moves objects is that of the client, and an object that is buried is the one that
/// is named.
pub proof fn law_own_device_moves_objects(
    client: &RamfluxClient,
    object_id: &str,
    device: Result<&DeviceBranch, SdkError>,
    buried: Option<AccountDbRequest>,
    branch: &Option<DeviceBranch>,
    fetching: Result<DeviceBranch, SdkError>,
)
    requires
        call_ensures(RamfluxClient::transferring_device, (client,), device),
        call_ensures(RamfluxClient::tombstone_object, (client, object_id), buried),
        call_ensures(fetching_device, (branch,), fetching),
    ensures
        device is Ok <==> client.device_branch is Some && client.active_account_db is Some,
        device matches Ok(d) ==> Some(*d) == client.device_branch,
        buried is Some <==> client.active_account_db is Some,
        buried matches Some(q) ==> (q matches AccountDbRequest::SetObjectTombstoned { object_id: id }
            && id@ == object_id@),
        fetching is Ok <==> *branch is Some,
        fetching matches Ok(d) ==> Some(d) == *branch,
{
}

// ---- sharing objects ----

/// Whether objects hold one of a name.
pub open spec fn lists(objects: Seq<EncryptedObject>, object_id: Seq<char>) -> bool {
    exists|i: int| 0 <= i < objects.len() && (#[trigger] objects[i]).object_id@ == object_id
}

pub(crate) proof fn lemma_first_of_a_name(objects: Seq<EncryptedObject>, object_id: Seq<char>)
    ensures
        crate::relay_requests::first_with_id(objects, object_id) is Some <==> lists(
            objects,
            object_id,
        ),
        crate::relay_requests::first_with_id(objects, object_id) matches Some(i) ==> 0 <= i
            < objects.len() && objects[i].object_id@ == object_id && forall|j: int|
            0 <= j < i ==> (#[trigger] objects[j]).object_id@ != object_id,
    decreases objects.len(),
{
    if objects.len() > 0 {
        let before = objects.drop_last();
        lemma_first_of_a_name(before, object_id);
        if lists(before, object_id) {
            let i = choose|i: int|
                0 <= i < before.len() && (#[trigger] before[i]).object_id@ == object_id;
            assert(objects[i].object_id@ == object_id);
        }
        if lists(objects, object_id) && !lists(before, object_id) {
            let i = choose|i: int|
                0 <= i < objects.len() && (#[trigger] objects[i]).object_id@ == object_id;
            if i < before.len() {
                assert(before[i].object_id@ == object_id);
            }
        }
        assert forall|j: int| 0 <= j < before.len() implies before[j] == objects[j] by {}
        if crate::relay_requests::first_with_id(objects, object_id) is Some && !lists(
            before,
            object_id,
        ) {
            assert forall|j: int| 0 <= j < objects.len() - 1 implies (
            #[trigger] objects[j]).object_id@ != object_id by {
                assert(before[j] == objects[j]);
            }
        }
    }
}

/// An object is shared exactly if it is there, its key is, and it is said with whom and where; what is
/// shared is the object of that name with that key, in a message of its conversation to that device.
pub proof fn law_named_object_is_shared(
    client: &RamfluxClient,
    objects: Vec<EncryptedObject>,
    key: Result<[u8; 32], SdkError>,
    request: &LocalBusObjectShareRequest,
    now: i64,
    r: Result<ObjectShare, SdkError>,
)
    requires
        call_ensures(
            RamfluxClient::share_object_key_with_dm_recipient,
            (client, objects, key, request, now),
            r,
        ),
    ensures
        r is Ok <==> lists(objects@, request.object_id@) && key is Ok && request.recipient_device_id
            is Some && request.target_delivery_id is Some,
        !lists(objects@, request.object_id@) ==> (r matches Err(SdkError::Sync(e)) && e
            is ObjectNotFound),
        r matches Ok(share) ==> {
            &&& objects@.contains(share.object)
            &&& share.object.object_id@ == request.object_id@
            &&& Ok::<[u8; 32], SdkError>(share.object_key) == key
            &&& Some(share.recipient_device_id) == request.recipient_device_id
            &&& share.message.conversation_id@ == request.conversation_id@
            &&& share.message.recipient_device_id == request.recipient_device_id
            &&& Some(share.message.target_delivery_id) == request.target_delivery_id
            &&& share.message.message_id@ == "object.slot:"@ + request.object_id@ + ":"@
                + share.recipient_device_id@
            &&& share.message.envelope_id@ == share.message.message_id@
            &&& share.message.sender_id@ == share.message.source_principal_id@
            &&& request.sender_id matches Some(sender) ==> share.message.sender_id@ == sender@
            &&& request.sender_id is None && client.device_branch is Some
                ==> share.message.sender_id@ == client.device_branch->0.device_id@
            &&& request.sender_id is None && client.device_branch is None
                ==> share.message.sender_id@ == "rf_object_sender"@
            &&& share.message.encrypted_body@.len() == 0
            &&& share.message.created_at == now
            &&& share.message.ttl == 3600
            &&& share.associated_data@ == vstd::utf8::encode_utf8(
                "ramflux.object_key_slot.v1|"@ + request.object_id@ + "|"@
                    + request.conversation_id@ + "|"@ + share.recipient_device_id@,
            )
        },
{
    lemma_first_of_a_name(objects@, request.object_id@);
}

/// Whether a write keeps the state of one side of a conversation after the given step.
pub open spec fn keeps_state(
    w: EventWrite,
    conversation_id: Seq<char>,
    direction: Seq<char>,
    step: Seq<char>,
    snapshot: Seq<u8>,
) -> bool {
    let id = "dm.session:"@ + conversation_id + ":"@ + direction + ":"@ + step;
    &&& w.event matches AccountDbRequest::AppendEvent { event_id, event_type, body } && event_id@
        == id && event_type@ == "dm.ratchet_session"@ && body@ == snapshot
    &&& w.checkpoint matches AccountDbRequest::SetProjectionCheckpoint {
        projection_name,
        last_event_id,
    } && last_event_id@ == id && projection_name@ == "dm_session:"@ + conversation_id + ":"@
        + direction
}

/// An object that one device packs for another is taken in there as it is: its name, its manifest, its
/// ciphertext, its hash and its key; what the key is opened with is what it was sealed with, and both
/// keep the state of the conversation.
pub proof fn law_shared_object_is_taken_in(
    client: &RamfluxClient,
    share: ObjectShare,
    x3dh: Option<SdkDmX3dhHeader>,
    sealed: DmCiphertext,
    snapshot: &[u8],
    base64: String,
    packed: Result<PackedObject, SdkError>,
    package: &SdkObjectSharePackage,
    other: &RamfluxClient,
    opened: Result<SharedKeyRequest<'_>, SdkError>,
    plain_key: Vec<u8>,
    received_snapshot: &[u8],
    ciphertext: Vec<u8>,
    import: SharedObjectImport,
)
    requires
        call_ensures(
            RamfluxClient::pack_shared_object,
            (client, share, x3dh, Ok(sealed), snapshot, base64),
            packed,
        ),
        packed is Ok,
        *package == packed->Ok_0.package,
        share.associated_data@ == vstd::utf8::encode_utf8(
            "ramflux.object_key_slot.v1|"@ + share.object.object_id@ + "|"@
                + share.message.conversation_id@ + "|"@ + share.recipient_device_id@,
        ),
        call_ensures(shared_key_request, (package,), opened),
        other.active_account_db is Some,
        plain_key@ == share.object_key@,
        ciphertext@ == share.object.ciphertext@,
        call_ensures(
            RamfluxClient::import_shared_object,
            (other, package, Ok(plain_key), received_snapshot, Ok(ciphertext)),
            import,
        ),
    ensures
        keeps_state(
            packed->Ok_0.session,
            share.message.conversation_id@,
            "send"@,
            "object-slot:"@ + share.object.object_id@,
            snapshot@,
        ),
        package.object == share.object,
        package.ciphertext_base64 == base64,
        package.version == 1 && package.key_slot.version == 1,
        package.key_slot.object_id@ == share.object.object_id@,
        package.key_slot.recipient_device_id@ == share.recipient_device_id@,
        opened matches Ok(q) && {
            &&& q.conversation_id@ == share.message.conversation_id@
            &&& *q.ciphertext == sealed
            &&& q.x3dh is Some <==> x3dh is Some
            &&& q.x3dh matches Some(header) ==> Some(*header) == x3dh
            &&& q.associated_data@ == share.associated_data@
        },
        import.session matches Some(w) && keeps_state(
            w,
            share.message.conversation_id@,
            "recv"@,
            "object-slot:"@ + share.object.object_id@,
            received_snapshot@,
        ),
        import.outcome matches Ok(taken) && {
            &&& taken.object_id@ == share.object.object_id@
            &&& taken.manifest_hash@ == share.object.manifest_hash@
            &&& taken.ciphertext@ == share.object.ciphertext@
            &&& taken.plaintext_hash@ == share.object.plaintext_hash@
            &&& taken.object_key@ == share.object_key@
        },
{
}

/// A package is taken in exactly if it has the form of one, its key was opened and has the length of
/// one, an account is open and its ciphertext could be read; the state of the conversation is kept as
/// soon as the key was opened.
pub proof fn law_package_is_taken_in_exactly_then(
    client: &RamfluxClient,
    package: &SdkObjectSharePackage,
    plain_key: Result<Vec<u8>, SdkError>,
    snapshot: &[u8],
    ciphertext: Result<Vec<u8>, String>,
    import: SharedObjectImport,
    opened: Result<SharedKeyRequest<'_>, SdkError>,
    share: ObjectShare,
    x3dh: Option<SdkDmX3dhHeader>,
    sealed: Result<DmCiphertext, SdkError>,
    base64: String,
    packed: Result<PackedObject, SdkError>,
)
    requires
        call_ensures(
            RamfluxClient::import_shared_object,
            (client, package, plain_key, snapshot, ciphertext),
            import,
        ),
        call_ensures(shared_key_request, (package,), opened),
        call_ensures(
            RamfluxClient::pack_shared_object,
            (client, share, x3dh, sealed, snapshot, base64),
            packed,
        ),
    ensures
        opened is Ok <==> package.schema@ == "ramflux.sdk.object_share_package.v1"@
            && package.key_slot.schema@ == "ramflux.sdk.object_key_slot.dm.v1"@,
        import.session is Some <==> opened is Ok && plain_key is Ok && plain_key->Ok_0@.len() == 32
            && client.active_account_db is Some,
        import.outcome is Ok <==> import.session is Some && ciphertext is Ok,
        import.session is None && opened is Ok ==> (plain_key matches Err(e) ==> import.outcome
            == Err::<ReceivedObject, SdkError>(e)),
        packed is Ok <==> sealed is Ok && client.active_account_db is Some,
{
}

/// The state of a conversation in which a key was sent is kept under the object that it is for.
pub proof fn law_sent_key_keeps_its_state(
    client: &RamfluxClient,
    conversation_id: &str,
    object_id: &str,
    snapshot: &[u8],
    r: Result<EventWrite, SdkError>,
)
    requires
        call_ensures(
            RamfluxClient::persist_sent_slot_session,
            (client, conversation_id, object_id, snapshot),
            r,
        ),
    ensures
        r is Ok <==> client.active_account_db is Some,
        r is Err ==> r->Err_0 is AccountDbNotUnlocked,
        r matches Ok(w) ==> keeps_state(
            w,
            conversation_id@,
            "send"@,
            "object-slot:"@ + object_id@,
            snapshot@,
        ),
{
}

/// The slot of a key and the package of an object hold what they were made of, and pass the check of
/// their form.
pub proof fn law_slot_and_package_hold_what_was_given(
    object_id: String,
    conversation_id: String,
    recipient: String,
    x3dh: Option<SdkDmX3dhHeader>,
    sealed: DmCiphertext,
    slot: SdkObjectKeySlot,
    checked: Result<(), SdkError>,
    any: &SdkObjectKeySlot,
    any_checked: Result<(), SdkError>,
    object: EncryptedObject,
    base64: String,
    package: SdkObjectSharePackage,
    opened: Result<SharedKeyRequest<'_>, SdkError>,
)
    requires
        call_ensures(
            object_key_slot,
            (object_id, conversation_id, recipient, x3dh, sealed),
            slot,
        ),
        call_ensures(check_key_slot, (&slot,), checked),
        call_ensures(check_key_slot, (any,), any_checked),
        call_ensures(object_share_package, (object, base64, slot), package),
        call_ensures(shared_key_request, (&package,), opened),
    ensures
        slot.object_id == object_id,
        slot.conversation_id == conversation_id,
        slot.recipient_device_id == recipient,
        slot.x3dh == x3dh,
        slot.ciphertext == sealed,
        slot.version == 1 && package.version == 1,
        checked is Ok,
        any_checked is Ok <==> any.schema@ == "ramflux.sdk.object_key_slot.dm.v1"@,
        package.object == object,
        package.ciphertext_base64 == base64,
        package.key_slot == slot,
        opened is Ok,
{
}

/// A key that was opened is that key, if it has the length of one, and its conversation is gone on with
/// under its object.
pub proof fn law_opened_key_is_the_key(
    client: &RamfluxClient,
    slot: &SdkObjectKeySlot,
    plain_key: &Vec<u8>,
    key: Result<[u8; 32], SdkError>,
    r: Result<DeferredObjectKeySlot, SdkError>,
    deferred: &DeferredObjectKeySlot,
    snapshot: &[u8],
    kept: Result<EventWrite, SdkError>,
)
    requires
        call_ensures(object_key_of, (plain_key,), key),
        call_ensures(decrypt_object_key_slot, (slot, plain_key), r),
        call_ensures(
            RamfluxClient::commit_object_key_slot_session,
            (client, deferred, snapshot),
            kept,
        ),
        r matches Ok(d) ==> d == *deferred,
    ensures
        key is Ok <==> plain_key@.len() == 32,
        key matches Ok(k) ==> k@ == plain_key@,
        r is Ok <==> plain_key@.len() == 32 && slot.schema@ == "ramflux.sdk.object_key_slot.dm.v1"@,
        r is Ok ==> deferred.object_key@ == plain_key@,
        kept is Ok <==> client.active_account_db is Some,
        kept is Err ==> kept->Err_0 is AccountDbNotUnlocked,
        r is Ok && kept is Ok ==> keeps_state(
            kept->Ok_0,
            slot.conversation_id@,
            "recv"@,
            "object-slot:"@ + slot.object_id@,
            snapshot@,
        ),
{
}

// ---- attachments ----

/// The key of an attachment goes in a message of its own, to the device and by the sender of the
/// message that it is attached to, in a conversation that is named by the three.
pub proof fn law_attachment_key_goes_to_the_recipient(
    client: &RamfluxClient,
    message: &GatewayDirectMessage,
    object_id: &str,
    m: Result<GatewayDirectMessage, SdkError>,
    x3dh: Option<SdkDmX3dhHeader>,
    sealed: Result<DmCiphertext, SdkError>,
    snapshot: &[u8],
    sent: Result<SentKeySlot, SdkError>,
)
    requires
        call_ensures(attachment_slot_message, (message, object_id), m),
        call_ensures(
            RamfluxClient::send_attachment_key,
            (client, message, object_id, x3dh, sealed, snapshot),
            sent,
        ),
    ensures
        m is Ok <==> message.recipient_device_id is Some,
        sent is Ok <==> message.recipient_device_id is Some && sealed is Ok
            && client.active_account_db is Some,
        m matches Ok(own) ==> {
            &&& own.conversation_id@ == "dm.attachment.slot:"@ + message.conversation_id@ + ":"@
                + object_id@ + ":"@ + message.recipient_device_id->0@
            &&& own.message_id@ == "attachment.slot:"@ + object_id@
            &&& own.envelope_id@ == own.message_id@
            &&& own.sender_id == message.sender_id
            &&& own.source_principal_id == message.source_principal_id
            &&& own.recipient_device_id == message.recipient_device_id
            &&& own.target_delivery_id == message.target_delivery_id
            &&& own.encrypted_body@.len() == 0
            &&& own.created_at == message.created_at
            &&& own.ttl == message.ttl
        },
        sent matches Ok(s) ==> {
            &&& keeps_state(
                s.session,
                m->Ok_0.conversation_id@,
                "send"@,
                "attachment-slot:"@ + object_id@,
                snapshot@,
            )
            &&& s.key_slot.object_id@ == object_id@
            &&& s.key_slot.conversation_id@ == m->Ok_0.conversation_id@
            &&& Some(s.key_slot.recipient_device_id@) == Some(message.recipient_device_id->0@)
            &&& s.key_slot.x3dh == x3dh
            &&& Ok::<DmCiphertext, SdkError>(s.key_slot.ciphertext) == sealed
            &&& s.key_slot.schema@ == "ramflux.sdk.object_key_slot.dm.v1"@
        },
{
}

/// What the recipient of an attachment is granted is to fetch it and to acknowledge it, by the device
/// of the client; the attachment says where it is, whose it is, how long it is and in how many chunks
/// it comes, and holds that grant and the key.
pub proof fn law_attachment_says_what_it_is(
    client: &RamfluxClient,
    protocol: &RelayV3Protocol,
    object: &EncryptedObject,
    recipient_hash: String,
    issued_at: u64,
    expires_at: u64,
    granted: Result<ObjectAccessGrant, SdkError>,
    plan: ChunkPlan,
    input: &LocalBusMessageAttachmentInput,
    options: &RelayTransferOptions,
    grant: ObjectAccessGrant,
    slot: SdkObjectKeySlot,
    attached: Result<SdkDmAttachmentRef, SdkError>,
)
    requires
        call_ensures(
            RamfluxClient::attachment_grant_to_sign,
            (client, protocol, object, recipient_hash, issued_at, expires_at),
            granted,
        ),
        call_ensures(
            RamfluxClient::dm_attachment_ref_for_recipient,
            (client, object, plan, input, options, grant, slot),
            attached,
        ),
    ensures
        granted is Ok <==> client.device_branch is Some,
        attached is Ok <==> client.device_branch is Some,
        granted matches Ok(g) ==> {
            &&& g.object_id == object.object_id
            &&& g.manifest_hash == object.manifest_hash
            &&& g.grantee_device_hash@ == recipient_hash@
            &&& g.capabilities@ == seq![ObjectRelayCapability::Get, ObjectRelayCapability::Ack]
            &&& g.issued_at == issued_at
            &&& g.expires_at == expires_at
            &&& g.owner_signing_key_id == client.device_branch->0.device_id
            &&& g.owner_public_key == client.device_branch->0.public_key
            &&& g.owner_signature@.len() == 0
        },
        attached matches Ok(a) ==> {
            &&& a.schema@ == "ramflux.sdk.dm_attachment_ref.v1"@
            &&& a.version == 1
            &&& a.object_id == object.object_id
            &&& a.manifest_hash == object.manifest_hash
            &&& a.plaintext_hash == object.plaintext_hash
            &&& a.cipher_size == object.ciphertext@.len()
            &&& a.chunk_size == plan.chunk_size
            &&& a.total_chunks == plan.total_chunks
            &&& a.relay_endpoint == input.relay_endpoint
            &&& input.owner_home_node_id is Some ==> a.owner_home_node_id
                == input.owner_home_node_id
            &&& input.owner_home_node_id is None ==> a.owner_home_node_id
                == options.relay_owner_home_node_id
            &&& input.relay_audience_node_id is Some ==> a.relay_audience_node_id
                == input.relay_audience_node_id
            &&& input.relay_audience_node_id is None ==> a.relay_audience_node_id
                == options.relay_audience_node_id
            &&& a.owner_principal_id == client.device_branch->0.principal_id
            &&& a.owner_device_epoch == client.device_branch->0.device_epoch
            &&& a.access_grant == Some(grant)
            &&& a.key_slot == slot
        },
{
}

/// An attachment that one device made is taken in by the device that it was made for: it has the form
/// of one, and its grant is accepted while it holds.
pub proof fn law_made_attachment_is_accepted(
    client: &RamfluxClient,
    protocol: &RelayV3Protocol,
    object: &EncryptedObject,
    issued_at: u64,
    expires_at: u64,
    granted: Result<ObjectAccessGrant, SdkError>,
    signature: String,
    grant: ObjectAccessGrant,
    plan: ChunkPlan,
    input: &LocalBusMessageAttachmentInput,
    options: &RelayTransferOptions,
    slot: SdkObjectKeySlot,
    attached: Result<SdkDmAttachmentRef, SdkError>,
    other: &RamfluxClient,
    hash: String,
    formed: Result<(), SdkError>,
    now: u64,
    accepted: Result<DeviceBranch, SdkError>,
    attachment: &SdkDmAttachmentRef,
)
    requires
        other.device_branch is Some,
        hash@ == other.device_branch->0.device_hash@,
        call_ensures(
            RamfluxClient::attachment_grant_to_sign,
            (client, protocol, object, hash, issued_at, expires_at),
            granted,
        ),
        granted is Ok,
        call_ensures(ObjectAccessGrant::signed, (granted->Ok_0, signature), grant),
        call_ensures(
            RamfluxClient::dm_attachment_ref_for_recipient,
            (client, object, plan, input, options, grant, slot),
            attached,
        ),
        attached is Ok,
        *attachment == attached->Ok_0,
        call_ensures(check_attachment_ref, (attachment,), formed),
        issued_at <= now < expires_at,
        call_ensures(
            RamfluxClient::check_attachment_grant,
            (other, protocol, attachment, now, &SignatureOutcome::Valid),
            accepted,
        ),
    ensures
        formed is Ok,
        accepted matches Ok(device) && Some(device) == other.device_branch,
{
    let caps = grant.capabilities@;
    assert(caps.len() == 2 && caps[0] is Get && caps[1] is Ack);
}

/// An attachment's grant is accepted exactly if the client has a device and the grant lets it fetch the
/// attachment now.
pub proof fn law_attachment_grant_is_accepted_exactly_then(
    client: &RamfluxClient,
    protocol: &RelayV3Protocol,
    attachment: &SdkDmAttachmentRef,
    now: u64,
    signature: &SignatureOutcome,
    r: Result<DeviceBranch, SdkError>,
)
    requires
        call_ensures(
            RamfluxClient::check_attachment_grant,
            (client, protocol, attachment, now, signature),
            r,
        ),
    ensures
        r is Ok <==> client.device_branch is Some && attachment.access_grant is Some
            && crate::laws::tokens::lets_fetch(
            attachment.access_grant->0,
            *protocol,
            client.device_branch->0.device_hash@,
            attachment.object_id@,
            attachment.manifest_hash@,
            now,
            *signature,
        ),
        r matches Ok(device) ==> Some(device) == client.device_branch,
{
}

/// What was put together from chunks is taken for the attachment exactly if it has the attachment's
/// manifest, and what was decrypted exactly if it has its hash; it is then handed out as the attachment.
pub proof fn law_assembled_attachment_is_the_one_named(
    attachment: &SdkDmAttachmentRef,
    formed: Result<(), SdkError>,
    assembled_hash: &str,
    whole: Result<(), SdkError>,
    base64: String,
    plain_hash: String,
    r: Result<SdkDmAttachmentImportResult, SdkError>,
    len: usize,
)
    requires
        call_ensures(check_attachment_ref, (attachment,), formed),
        call_ensures(check_assembled, (attachment, assembled_hash), whole),
        call_ensures(imported_attachment, (attachment, base64, plain_hash), r),
        call_ensures(stub_length, (attachment,), len),
    ensures
        formed is Ok <==> attachment.schema@ == "ramflux.sdk.dm_attachment_ref.v1"@,
        whole is Ok <==> assembled_hash@ == attachment.manifest_hash@,
        r is Ok <==> plain_hash@ == attachment.plaintext_hash@,
        r matches Ok(a) ==> {
            &&& a.object_id == attachment.object_id
            &&& a.manifest_hash == attachment.manifest_hash
            &&& a.plaintext_base64 == base64
            &&& a.plaintext_hash@ == attachment.plaintext_hash@
            &&& a.imported
        },
        attachment.cipher_size <= usize::MAX ==> len == attachment.cipher_size,
        attachment.cipher_size > usize::MAX ==> len == 0,
{
}

/// An attachment is acknowledged only by an open account that may, and over the gateway.
pub proof fn law_attachment_is_acknowledged_exactly_then(
    client: &RamfluxClient,
    attachment: &SdkDmAttachmentRef,
    options: &RelayTransferOptions,
    may: bool,
    does: bool,
    provider: Result<(), SdkError>,
    given: Option<RelayTransferOptions>,
    words: &str,
    needed: Result<RelayTransferOptions, SdkError>,
)
    requires
        call_ensures(RamfluxClient::may_acknowledge, (client, attachment), may),
        call_ensures(RamfluxClient::acknowledges, (client, attachment, options), does),
        call_ensures(check_attachment_provider, (options,), provider),
        call_ensures(needed_relay_options, (given, words), needed),
    ensures
        may <==> client.active_account_db is Some && attachment.access_grant is Some && exists|
            i: int,
        |
            0 <= i < attachment.access_grant->0.capabilities@.len() && (
            #[trigger] attachment.access_grant->0.capabilities@[i]) is Ack,
        does <==> may && options.token_provider is GatewayIssued,
        provider is Ok <==> options.token_provider is GatewayIssued,
        needed is Ok <==> given is Some,
        needed matches Ok(o) ==> Some(o) == given,
        needed matches Err(e) ==> (e matches SdkError::LocalBus(m) && m@ == words@),
{
    if may {
        let caps = attachment.access_grant->0.capabilities@;
        assert(caps.contains(ObjectRelayCapability::Ack));
        let i = choose|i: int| 0 <= i < caps.len() && caps[i] == ObjectRelayCapability::Ack;
        assert(caps[i] is Ack);
    } else if client.active_account_db is Some && attachment.access_grant is Some {
        let caps = attachment.access_grant->0.capabilities@;
        assert forall|i: int| 0 <= i < caps.len() implies !((#[trigger] caps[i]) is Ack) by {
            if caps[i] is Ack {
                assert(caps[i] == ObjectRelayCapability::Ack);
                assert(caps.contains(ObjectRelayCapability::Ack));
            }
        }
    }
}

/// The chunks of an attachment are fetched one after the other, from the first, until all are there;
/// one that does not have its hash changes nothing, and each that does is counted and recorded.
pub proof fn law_attachment_is_fetched_in_order(
    attachment: &SdkDmAttachmentRef,
    expires_at: u64,
    first: AttachmentDownload,
    any: &AttachmentDownload,
    wanted: Option<u32>,
    d: &mut AttachmentDownload,
    branch: Option<&DeviceBranch>,
    relay: &str,
    claimed: &str,
    recomputed: &str,
    decrypted: Result<u64, SdkError>,
    now: i64,
    r: Result<ObjectTransferWrite, SdkError>,
)
    requires
        call_ensures(AttachmentDownload::start, (attachment, expires_at), first),
        call_ensures(AttachmentDownload::wanted, (any, attachment), wanted),
        old(d).next < attachment.total_chunks,
        call_ensures(
            AttachmentDownload::chunk_received,
            (d, branch, attachment, relay, claimed, recomputed, decrypted, now),
            r,
        ),
    ensures
        first.next == 0 && first.done_bytes == 0 && first.expires_at == expires_at,
        first.completed@.len() == 0,
        wanted is Some <==> any.next < attachment.total_chunks,
        wanted matches Some(i) ==> i == any.next,
        r is Ok <==> claimed@ == recomputed@ && decrypted is Ok,
        r is Err ==> *final(d) == *old(d),
        r matches Ok(w) ==> {
            &&& final(d).next == old(d).next + 1
            &&& final(d).expires_at == old(d).expires_at
            &&& old(d).done_bytes + decrypted->Ok_0 <= u64::MAX ==> final(d).done_bytes == old(d).done_bytes + decrypted->Ok_0
            &&& w.object_id@ == attachment.object_id@
            &&& w.manifest_hash@ == attachment.manifest_hash@
            &&& w.direction@ == "download"@
            &&& w.transfer_id@ == "download"@ + ":"@ + attachment.object_id@ + ":"@
                + attachment.manifest_hash@
            &&& w.state@ == "running"@
            &&& w.completed_chunks@ == final(d).completed@
            &&& w.completed_chunks@.len() == final(d).next
            &&& forall|i: int|
                0 <= i < w.completed_chunks@.len() ==> #[trigger] w.completed_chunks@[i] == i
            &&& w.done_bytes == final(d).done_bytes
            &&& w.total_chunks == attachment.total_chunks
            &&& w.relay_endpoint is Some && w.relay_endpoint->0@ == relay@
            &&& w.updated_at == now
            &&& w.last_error is None
            &&& w.resume_token is None
            &&& attachment.cipher_size <= usize::MAX ==> w.total_bytes == attachment.cipher_size
            &&& attachment.chunk_size > 0 ==> w.chunk_size == attachment.chunk_size
            &&& old(d).expires_at <= i64::MAX ==> w.expires_at == Some(old(d).expires_at as i64)
            &&& forall|i: u32| #[trigger]
                w.missing_chunks@.contains(i) <==> final(d).next <= i < attachment.total_chunks
            &&& branch matches Some(device) ==> w.peer_device_id@ == device.device_id@
            &&& branch is None ==> w.peer_device_id@ == "local-device"@
        },
{
    if r is Ok {
        let w = r->Ok_0;
        let completed = final(d).completed@;
        crate::laws::transfers::lemma_missing_in(attachment.total_chunks, completed);
        assert forall|i: u32| #[trigger]
            w.missing_chunks@.contains(i) <==> final(d).next <= i < attachment.total_chunks by {
            if i < final(d).next {
                assert(completed[i as int] == i);
                assert(completed.contains(i));
            } else if completed.contains(i) {
                let k = choose|k: int| 0 <= k < completed.len() && completed[k] == i;
                assert(completed[k] == k);
            }
        }
    }
}

/// An attachment that is all there is recorded as complete, with all its bytes done and nothing
/// missing.
pub proof fn law_fetched_attachment_is_complete(
    d: &AttachmentDownload,
    attachment: &SdkDmAttachmentRef,
    wanted: Option<u32>,
    branch: Option<&DeviceBranch>,
    len: usize,
    relay: &str,
    now: i64,
    w: ObjectTransferWrite,
)
    requires
        d.well_formed(*attachment),
        call_ensures(AttachmentDownload::wanted, (d, attachment), wanted),
        wanted is None,
        call_ensures(AttachmentDownload::finished, (d, branch, attachment, len, relay, now), w),
    ensures
        w.state@ == "complete"@,
        w.object_id@ == attachment.object_id@,
        w.manifest_hash@ == attachment.manifest_hash@,
        w.total_bytes == len && w.done_bytes == len,
        w.total_chunks == attachment.total_chunks,
        w.completed_chunks@.len() == attachment.total_chunks,
        w.missing_chunks@.len() == 0,
        w.next_chunk_index is None,
        w.relay_endpoint is Some && w.relay_endpoint->0@ == relay@,
        w.updated_at == now,
        w.direction@ == "download"@,
        attachment.chunk_size > 0 ==> w.chunk_size == attachment.chunk_size,
        d.expires_at <= i64::MAX ==> w.expires_at == Some(d.expires_at as i64),
        branch matches Some(device) ==> w.peer_device_id@ == device.device_id@,
{
    let total = attachment.total_chunks;
    crate::chunks::law_nothing_missing_when_all_done(total, d.completed@);
    assert forall|i: u32| i < total implies #[trigger] d.completed@.contains(i) by {
        assert(d.completed@[i as int] == i);
    }
}

} // verus!

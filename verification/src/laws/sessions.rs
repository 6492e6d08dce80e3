//! The keys of two devices: where the state of a conversation is kept and found again, how a new one
//! is begun, and what a client makes of its accounts.
use crate::client::account::{
    account_db_key_encryption_key, db_key_step, new_wrapped_key, AccountKeyPlan, DbKeyStep,
};
use crate::client::dm_session::{
    check_bootstrap_transcript, check_signed_prekey, fingerprint_checkpoints, load_dm_session,
    load_x3dh_private_state, needed_header, send_session_header, send_session_source,
    send_session_source_with_prekey_url, BootstrapMaterial, RecvCommitFingerprint,
    SendSessionSource,
};
use crate::client::state::{RamfluxClient, VaultSecretSource};
use crate::dm::{
    dm_associated_data, dm_attachment_slot_conversation_id, dm_session_checkpoint_name,
    dm_session_event_id, gateway_cursor_checkpoint_name, gateway_receive_cursor_checkpoint_name,
    x3dh_private_checkpoint_name, SdkDmX3dhHeader, SdkX3dhPrivateState,
};
use crate::error::SdkError;
use crate::gateway::protocol::GatewaySessionConfig;
use crate::object::DeviceBranch;
use crate::prekey::PrekeyBundle;
use crate::records::{AccountDbRequest, AccountIndexRequest, EventWrite, WrappedAccountDbKey};
use crate::text::{decimal, parsed_u64};
use vstd::prelude::*;

verus! {

// ---- the state of a conversation ----

/// Where the state of a conversation is kept is where it is looked for: the place that a client keeps
/// it under is the one that it asks for, and what it keeps there is the name of what it appends.
pub proof fn law_kept_state_is_found(
    client: &RamfluxClient,
    conversation_id: &str,
    envelope_id: &str,
    direction: &str,
    snapshot: &[u8],
    kept: Result<EventWrite, SdkError>,
    asked: Result<AccountDbRequest, SdkError>,
    at: Result<bool, SdkError>,
    checkpoint: &Option<String>,
)
    requires
        call_ensures(
            RamfluxClient::persist_dm_session_snapshot,
            (client, conversation_id, envelope_id, direction, snapshot),
            kept,
        ),
        call_ensures(
            RamfluxClient::dm_session_checkpoint,
            (client, conversation_id, direction),
            asked,
        ),
        kept is Ok && direction@ == "recv"@ ==> *checkpoint is Some && checkpoint->0@
            == kept->Ok_0.checkpoint->SetProjectionCheckpoint_last_event_id@,
        call_ensures(
            RamfluxClient::recv_session_checkpoint_at,
            (client, conversation_id, envelope_id, checkpoint),
            at,
        ),
    ensures
        kept is Ok <==> client.active_account_db is Some,
        kept is Err ==> kept->Err_0 is AccountDbNotUnlocked,
        asked is Ok <==> client.active_account_db is Some,
        asked is Err ==> asked->Err_0 is AccountDbNotUnlocked,
        at is Ok <==> client.active_account_db is Some,
        at is Err ==> at->Err_0 is AccountDbNotUnlocked,
        kept matches Ok(w) ==> {
            &&& w.event matches AccountDbRequest::AppendEvent { event_id, event_type, body }
                && body@ == snapshot@ && event_type@ == "dm.ratchet_session"@ && event_id@
                == w.checkpoint->SetProjectionCheckpoint_last_event_id@ && event_id@
                == "dm.session:"@ + conversation_id@ + ":"@ + direction@ + ":"@ + envelope_id@
            &&& w.checkpoint is SetProjectionCheckpoint
            &&& asked matches Ok(AccountDbRequest::ProjectionCheckpoint { projection_name })
                && projection_name@ == w.checkpoint->SetProjectionCheckpoint_projection_name@
            &&& w.checkpoint->SetProjectionCheckpoint_projection_name@ == "dm_session:"@
                + conversation_id@ + ":"@ + direction@
        },
        kept is Ok && direction@ == "recv"@ ==> at == Ok::<bool, SdkError>(true),
{
}

/// A client says that a conversation has come to an envelope exactly if what is kept for what it
/// received is the state after that envelope.
pub proof fn law_conversation_has_come_to_its_envelope(
    client: &RamfluxClient,
    conversation_id: &str,
    envelope_id: &str,
    checkpoint: &Option<String>,
    at: Result<bool, SdkError>,
    name: String,
    direction: &str,
)
    requires
        direction@ == "recv"@,
        call_ensures(dm_session_event_id, (conversation_id, direction, envelope_id), name),
        call_ensures(
            RamfluxClient::recv_session_checkpoint_at,
            (client, conversation_id, envelope_id, checkpoint),
            at,
        ),
    ensures
        at matches Ok(found) ==> (found <==> *checkpoint is Some && checkpoint->0@ == name@),
{
}

/// The state of a conversation is read back as it was kept, or it is said to be missing.
pub proof fn law_state_is_read_back(
    conversation_id: &str,
    direction: &str,
    checkpoint: Option<String>,
    snapshot: Option<Vec<u8>>,
    r: Result<Vec<u8>, SdkError>,
    device_id: &str,
    keys: Result<Vec<u8>, SdkError>,
)
    requires
        call_ensures(load_dm_session, (conversation_id, direction, checkpoint, snapshot), r),
        call_ensures(load_x3dh_private_state, (device_id, checkpoint, snapshot), keys),
    ensures
        r is Ok <==> checkpoint is Some && snapshot is Some,
        r matches Ok(bytes) ==> bytes@ == snapshot->0@,
        keys is Ok <==> checkpoint is Some && snapshot is Some,
        keys matches Ok(bytes) ==> bytes@ == snapshot->0@,
        r matches Err(e) ==> (e matches SdkError::LocalBus(words) && words@
            == "missing DM session for "@ + conversation_id@ + " direction "@ + direction@),
        checkpoint is None ==> (keys matches Err(SdkError::LocalBus(words)) && words@
            == "missing X3DH private state for "@ + device_id@),
        checkpoint is Some && snapshot is None ==> (keys matches Err(SdkError::LocalBus(words))
            && words@ == "missing X3DH private event "@ + checkpoint->0@),
{
}

/// The names under which states and cursors are kept are made of what they are kept for.
pub proof fn law_places_are_named_by_what_they_hold(
    conversation_id: &str,
    direction: &str,
    envelope_id: &str,
    object_id: &str,
    device_id: &str,
    target_delivery_id: &str,
    checkpoint: String,
    event: String,
    slot: String,
    keys: String,
    cursor: String,
    receive_cursor: String,
    bound: &[u8],
    prints: (String, String),
)
    requires
        call_ensures(dm_session_checkpoint_name, (conversation_id, direction), checkpoint),
        call_ensures(dm_session_event_id, (conversation_id, direction, envelope_id), event),
        call_ensures(
            dm_attachment_slot_conversation_id,
            (conversation_id, object_id, device_id),
            slot,
        ),
        call_ensures(x3dh_private_checkpoint_name, (device_id,), keys),
        call_ensures(gateway_cursor_checkpoint_name, (target_delivery_id,), cursor),
        call_ensures(gateway_receive_cursor_checkpoint_name, (target_delivery_id,), receive_cursor),
        call_ensures(dm_associated_data, (conversation_id,), bound),
        call_ensures(fingerprint_checkpoints, (conversation_id, object_id, device_id), prints),
    ensures
        checkpoint@ == "dm_session:"@ + conversation_id@ + ":"@ + direction@,
        event@ == "dm.session:"@ + conversation_id@ + ":"@ + direction@ + ":"@ + envelope_id@,
        slot@ == "dm.attachment.slot:"@ + conversation_id@ + ":"@ + object_id@ + ":"@ + device_id@,
        keys@ == "x3dh_private:"@ + device_id@,
        cursor@ == "gateway_cursor:"@ + target_delivery_id@,
        receive_cursor@ == "gateway_receive_cursor:"@ + target_delivery_id@,
        bound@ == vstd::utf8::encode_utf8(conversation_id@),
        prints.0@ == "dm_session:"@ + conversation_id@ + ":"@ + "recv"@,
        prints.1@ == "dm_session:"@ + slot@ + ":"@ + "recv"@,
{
}

/// What a receipt is judged by holds what was read for it, and its cursor is the number that was kept,
/// or nothing received yet.
pub proof fn law_receipt_is_judged_by_what_was_read(
    client: &RamfluxClient,
    main: Option<String>,
    slot: Option<String>,
    cursor: Option<String>,
    r: Result<RecvCommitFingerprint, SdkError>,
)
    requires
        call_ensures(RamfluxClient::recv_commit_fingerprint, (client, main, slot, cursor), r),
    ensures
        r is Ok <==> client.active_account_db is Some && (cursor matches Some(text) ==> parsed_u64(
            text@,
        ) is Some),
        r matches Ok(print) ==> {
            &&& print.main_recv_checkpoint == main
            &&& print.slot_recv_checkpoint == slot
            &&& cursor is None ==> print.receive_cursor == 0
            &&& cursor matches Some(text) ==> parsed_u64(text@) == Some(print.receive_cursor)
        },
{
}

// ---- beginning a conversation ----

/// A state that is kept is gone on with; without one, a conversation is begun with the device that is
/// named, with the keys from the place that is named.
pub proof fn law_conversation_is_begun_only_without_a_state(
    kept: bool,
    device: &Option<String>,
    url: &Option<String>,
    here: Result<SendSessionSource, SdkError>,
    there: Result<SendSessionSource, SdkError>,
)
    requires
        call_ensures(send_session_source, (kept, device), here),
        call_ensures(send_session_source_with_prekey_url, (kept, device, url), there),
    ensures
        here is Ok <==> kept || *device is Some,
        there is Ok <==> kept || (*device is Some && *url is Some),
        here matches Ok(source) ==> (source is Kept <==> kept),
        there matches Ok(source) ==> (source is Kept <==> kept),
        here matches Ok(SendSessionSource::Bootstrap(with)) ==> *device == Some(with),
        there matches Ok(SendSessionSource::BootstrapFrom(with, at)) ==> *device == Some(with)
            && *url == Some(at),
        here matches Ok(source) ==> !(source is BootstrapFrom),
        there matches Ok(source) ==> !(source is Bootstrap),
{
}

/// The first message of a conversation says which keys it was begun with: those of the sender, and the
/// ones of the receiver by their names.
pub proof fn law_first_message_names_its_keys(
    material: BootstrapMaterial,
    recipient_device_id: &str,
    bundle: PrekeyBundle,
    header: SdkDmX3dhHeader,
)
    requires
        call_ensures(send_session_header, (material, recipient_device_id, bundle), header),
    ensures
        header.initiator_identity_public@ == material.identity_public@,
        header.initiator_ephemeral_public@ == material.ephemeral_public@,
        header.initiator_device_id_hash@ == material.own_device_id_hash@,
        header.recipient_device_id_hash@ == material.recipient_device_id_hash@,
        header.recipient_device_id@ == recipient_device_id@,
        header.recipient_signed_prekey_id@ == bundle.signed_prekey_id@,
        header.recipient_one_time_prekey_id == bundle.one_time_prekey_id,
        header.prekey_bundle_hash@ == material.prekey_bundle_hash@,
        header.bootstrap_transcript_hash@ == material.bootstrap_transcript_hash@,
        header.session_id@ == material.session_id@,
{
}

/// A first message is taken in exactly if it names the key that the receiver has and the transcript
/// that the receiver comes to; what its sender began, its receiver accepts.
pub proof fn law_begun_conversation_is_accepted(
    material: BootstrapMaterial,
    device_id: &str,
    own: &SdkX3dhPrivateState,
    header: SdkDmX3dhHeader,
    known: Result<(), SdkError>,
    agrees: Result<(), SdkError>,
    transcript: &[u8; 32],
    conversation_id: &str,
    given: Option<&SdkDmX3dhHeader>,
    needed: Result<&SdkDmX3dhHeader, SdkError>,
    any: &SdkDmX3dhHeader,
    any_known: Result<(), SdkError>,
    any_agrees: Result<(), SdkError>,
)
    requires
        call_ensures(send_session_header, (material, device_id, own.bundle), header),
        call_ensures(check_signed_prekey, (own, &header), known),
        call_ensures(check_bootstrap_transcript, (&material.bootstrap_transcript_hash, &header), agrees),
        call_ensures(check_signed_prekey, (own, any), any_known),
        call_ensures(check_bootstrap_transcript, (transcript, any), any_agrees),
        call_ensures(needed_header, (conversation_id, given), needed),
    ensures
        own.bundle.signed_prekey_id@ == own.signed_prekey_id@ ==> known is Ok,
        agrees is Ok,
        any_known is Ok <==> own.signed_prekey_id@ == any.recipient_signed_prekey_id@,
        any_agrees is Ok <==> transcript@ == any.bootstrap_transcript_hash@,
        needed is Ok <==> given is Some,
        needed matches Ok(found) ==> *found == *given->0,
{
}

// ---- accounts ----

/// A place for accounts is opened as it is named; the secret comes from a file there unless another
/// source was set, before or after.
pub proof fn law_accounts_are_kept_where_named(
    client: &mut RamfluxClient,
    root: String,
    set: &mut RamfluxClient,
)
    requires
        call_ensures(RamfluxClient::open_account_index, (client, root), ()),
        call_ensures(RamfluxClient::set_vault_secret_source, (set,), ()),
    ensures
        final(client).account_index == Some(root),
        !old(client).vault_secret_source_is_custom ==> (final(client).vault_secret_source matches Some(VaultSecretSource::File { root: at }) && at == root),
        old(client).vault_secret_source_is_custom ==> final(client).vault_secret_source == old(client).vault_secret_source,
        final(client).active_account_db == old(client).active_account_db,
        final(client).identity_root == old(client).identity_root,
        final(client).device_branch == old(client).device_branch,
        final(set).vault_secret_source matches Some(VaultSecretSource::Custom),
        final(set).vault_secret_source_is_custom,
        final(set).account_index == old(set).account_index,
        final(set).active_account_db == old(set).active_account_db,
        final(set).identity_root == old(set).identity_root,
        final(set).device_branch == old(set).device_branch,
{
}

/// What is asked of the accounts is about the account that is named, and only where they are open.
pub proof fn law_account_is_the_one_named(
    client: &RamfluxClient,
    local_account_id: &str,
    principal_commitment: &str,
    created: Result<AccountIndexRequest, SdkError>,
    set: Result<AccountIndexRequest, SdkError>,
    asked: Result<AccountIndexRequest, SdkError>,
)
    requires
        call_ensures(
            RamfluxClient::create_account,
            (client, local_account_id, principal_commitment),
            created,
        ),
        call_ensures(RamfluxClient::set_active_account, (client, local_account_id), set),
        call_ensures(RamfluxClient::active_account, (client,), asked),
    ensures
        created is Ok <==> client.account_index is Some,
        created is Err ==> created->Err_0 is AccountIndexNotOpen,
        set is Ok <==> client.account_index is Some,
        set is Err ==> set->Err_0 is AccountIndexNotOpen,
        asked is Ok <==> client.account_index is Some,
        asked is Err ==> asked->Err_0 is AccountIndexNotOpen,
        created matches Ok(q) ==> (q matches AccountIndexRequest::CreateAccount {
            local_account_id: id,
            principal_commitment: identity,
        } && id@ == local_account_id@ && identity@ == principal_commitment@),
        set matches Ok(q) ==> (q matches AccountIndexRequest::SetActiveAccount {
            local_account_id: id,
        } && id@ == local_account_id@),
        asked matches Ok(q) ==> q is ActiveAccount,
{
}

/// The key that an account is opened with is made of the secrets that are shown, in one and the same
/// way when it is opened and when its key is changed: an account whose secret was changed is opened
/// with the new secret.
pub proof fn law_account_is_opened_with_its_secrets(
    client: &RamfluxClient,
    local_account_id: &str,
    vault_secret: &[u8; 32],
    secret: &[u8],
    key: [u8; 32],
    opened: Result<AccountKeyPlan, SdkError>,
    changed: Result<AccountKeyPlan, SdkError>,
)
    requires
        call_ensures(account_db_key_encryption_key, (vault_secret, secret), key),
        call_ensures(
            RamfluxClient::unlock_account,
            (client, local_account_id, vault_secret, secret),
            opened,
        ),
        call_ensures(
            RamfluxClient::rekey_active_account,
            (client, local_account_id, vault_secret, secret),
            changed,
        ),
    ensures
        key@ == crate::digest::blake3_digest(
            vstd::utf8::encode_utf8("ramflux.account_db_kek.v2"@) + vault_secret@ + secret@,
        ),
        opened is Ok <==> client.vault_secret_source is Some && client.account_index is Some,
        changed is Ok <==> client.vault_secret_source is Some && client.account_index is Some
            && client.active_account_db is Some,
        opened matches Ok(plan) ==> plan.local_account_id@ == local_account_id@
            && plan.key_encryption_key@ == key@,
        changed matches Ok(plan) ==> plan.local_account_id@ == local_account_id@
            && plan.key_encryption_key@ == key@,
{
}

/// The key of an account that has one is unwrapped; the first key is wrapped for the account that it is
/// for, and unwrapped as it was wrapped.
pub proof fn law_wrapped_key_is_unwrapped(
    local_account_id: &str,
    nonce: Vec<u8>,
    wrapped_key: Vec<u8>,
    wrapped: WrappedAccountDbKey,
    step: DbKeyStep,
    first: DbKeyStep,
)
    requires
        call_ensures(new_wrapped_key, (local_account_id, nonce, wrapped_key), wrapped),
        call_ensures(db_key_step, (Some(wrapped),), step),
        call_ensures(db_key_step, (None,), first),
    ensures
        first is Generate,
        step matches DbKeyStep::Unwrap(found) && {
            &&& found.nonce@ == nonce@
            &&& found.wrapped_key@ == wrapped_key@
            &&& found.key_wrapping_ref@ == "platform-local-vault:"@ + local_account_id@
            &&& found.key_wrapping_provider@ == "platform-local-vault"@
        },
{
}

/// Once an account is opened the client works in that account, and hands out its device.
pub proof fn law_opened_account_is_worked_in(
    client: &mut RamfluxClient,
    local_account_id: &str,
    device: Option<DeviceBranch>,
)
    requires
        call_ensures(RamfluxClient::account_unlocked, (client, local_account_id), device),
    ensures
        final(client).active_account_db matches Some(id) && id@ == local_account_id@,
        device == old(client).device_branch,
        final(client).device_branch == old(client).device_branch,
        final(client).identity_root == old(client).identity_root,
        final(client).account_index == old(client).account_index,
        final(client).vault_secret_source == old(client).vault_secret_source,
        final(client).vault_secret_source_is_custom == old(client).vault_secret_source_is_custom,
{
}

/// What is appended is asked for by its name, and a place that is set is asked for by its name; all of
/// it only in an account that is open.
pub proof fn law_kept_thing_is_asked_for_by_name(
    client: &RamfluxClient,
    event_id: &str,
    event_type: &str,
    body: &[u8],
    projection_name: &str,
    appended: Result<AccountDbRequest, SdkError>,
    asked: Result<AccountDbRequest, SdkError>,
    set: Result<AccountDbRequest, SdkError>,
    place: Result<AccountDbRequest, SdkError>,
)
    requires
        call_ensures(RamfluxClient::append_event, (client, event_id, event_type, body), appended),
        call_ensures(RamfluxClient::event_body, (client, event_id), asked),
        call_ensures(
            RamfluxClient::set_projection_checkpoint,
            (client, projection_name, event_id),
            set,
        ),
        call_ensures(RamfluxClient::projection_checkpoint, (client, projection_name), place),
    ensures
        appended is Ok <==> client.active_account_db is Some,
        appended is Err ==> appended->Err_0 is AccountDbNotUnlocked,
        asked is Ok <==> client.active_account_db is Some,
        asked is Err ==> asked->Err_0 is AccountDbNotUnlocked,
        set is Ok <==> client.active_account_db is Some,
        set is Err ==> set->Err_0 is AccountDbNotUnlocked,
        place is Ok <==> client.active_account_db is Some,
        place is Err ==> place->Err_0 is AccountDbNotUnlocked,
        appended matches Ok(q) ==> (q matches AccountDbRequest::AppendEvent {
            event_id: id,
            event_type: kind,
            body: bytes,
        } && id@ == event_id@ && kind@ == event_type@ && bytes@ == body@),
        asked matches Ok(q) ==> (q matches AccountDbRequest::EventBody { event_id: id } && id@
            == event_id@),
        set matches Ok(q) ==> (q matches AccountDbRequest::SetProjectionCheckpoint {
            projection_name: name,
            last_event_id,
        } && name@ == projection_name@ && last_event_id@ == event_id@),
        place matches Ok(q) ==> (q matches AccountDbRequest::ProjectionCheckpoint {
            projection_name: name,
        } && name@ == projection_name@),
{
}

/// A history goes from the device to the device that are named, and comes in unchanged.
pub proof fn law_history_goes_where_named<B>(
    client: &RamfluxClient,
    source: &str,
    target: &str,
    bundle: B,
    r: Result<AccountDbRequest, SdkError>,
    taken: Result<B, SdkError>,
)
    requires
        call_ensures(RamfluxClient::export_history_bundle, (client, source, target), r),
        call_ensures(RamfluxClient::import_history_bundle::<B>, (client, bundle), taken),
    ensures
        r is Ok <==> client.active_account_db is Some,
        r is Err ==> r->Err_0 is AccountDbNotUnlocked,
        taken is Ok <==> client.active_account_db is Some,
        taken is Err ==> taken->Err_0 is AccountDbNotUnlocked,
        r matches Ok(q) ==> (q matches AccountDbRequest::ExportHistoryBundle {
            source_device_id,
            target_device_id,
        } && source_device_id@ == source@ && target_device_id@ == target@),
        taken matches Ok(b) ==> b == bundle,
{
}

/// A number that was kept for a box is kept where it is asked for, as its decimal, and the two numbers
/// of a box are kept apart.
pub proof fn law_number_of_a_box_is_found(
    client: &RamfluxClient,
    target: &str,
    inbox_seq: u64,
    kept: Result<AccountDbRequest, SdkError>,
    asked: Result<AccountDbRequest, SdkError>,
    kept_received: Result<AccountDbRequest, SdkError>,
    asked_received: Result<AccountDbRequest, SdkError>,
)
    requires
        call_ensures(RamfluxClient::persist_gateway_cursor, (client, target, inbox_seq), kept),
        call_ensures(RamfluxClient::gateway_cursor, (client, target), asked),
        call_ensures(
            RamfluxClient::persist_gateway_receive_cursor,
            (client, target, inbox_seq),
            kept_received,
        ),
        call_ensures(RamfluxClient::gateway_receive_cursor, (client, target), asked_received),
        client.active_account_db is Some,
    ensures
        kept matches Ok(
            AccountDbRequest::SetProjectionCheckpoint { projection_name, last_event_id },
        ) && last_event_id@ == decimal(inbox_seq as nat) && projection_name@ == "gateway_cursor:"@
            + target@ && (asked matches Ok(
            AccountDbRequest::ProjectionCheckpoint { projection_name: name },
        ) && name@ == projection_name@),
        kept_received matches Ok(
            AccountDbRequest::SetProjectionCheckpoint { projection_name, last_event_id },
        ) && last_event_id@ == decimal(inbox_seq as nat) && projection_name@
            == "gateway_receive_cursor:"@ + target@ && (asked_received matches Ok(
            AccountDbRequest::ProjectionCheckpoint { projection_name: name },
        ) && name@ == projection_name@),
        kept->Ok_0->SetProjectionCheckpoint_projection_name@
            != kept_received->Ok_0->SetProjectionCheckpoint_projection_name@,
{
    crate::dm::law_cursor_names_differ(target@, target@);
}

/// A session is opened from the place that was kept, with the device of the client where the settings
/// name none and are about it.
pub proof fn law_session_is_opened_from_its_place(
    client: &RamfluxClient,
    config: GatewaySessionConfig,
    cursor: u64,
    r: GatewaySessionConfig,
)
    requires
        call_ensures(RamfluxClient::connect_gateway_session, (client, config, cursor), r),
    ensures
        r.last_seen_inbox_seq == cursor,
        config.device_branch is Some ==> r.device_branch == config.device_branch,
        config.device_branch is None ==> (r.device_branch is Some <==> (
        client.device_branch matches Some(device) && device.principal_id@ == config.principal_id@
            && device.device_id@ == config.device_id@ && device.device_epoch
            == config.device_epoch)),
        config.device_branch is None && r.device_branch is Some ==> r.device_branch
            == client.device_branch,
        r == (GatewaySessionConfig {
            last_seen_inbox_seq: r.last_seen_inbox_seq,
            device_branch: r.device_branch,
            ..config
        }),
{
}

/// A new client has nothing open, no identity and no device; what is read of a client is what it has.
pub proof fn law_new_client_has_nothing(
    client: RamfluxClient,
    any: &RamfluxClient,
    db: Result<&String, SdkError>,
    index: Result<&String, SdkError>,
    source: Result<&VaultSecretSource, SdkError>,
    device: Result<&DeviceBranch, SdkError>,
)
    requires
        call_ensures(RamfluxClient::new, (), client),
        call_ensures(RamfluxClient::account_db, (any,), db),
        call_ensures(RamfluxClient::account_index, (any,), index),
        call_ensures(RamfluxClient::vault_secret_source, (any,), source),
        call_ensures(RamfluxClient::acting_device, (any,), device),
    ensures
        client.active_account_db is None && client.account_index is None,
        client.identity_root is None && client.device_branch is None,
        client.vault_secret_source is None && !client.vault_secret_source_is_custom,
        db is Ok <==> any.active_account_db is Some,
        db matches Ok(id) ==> *id == any.active_account_db->0,
        index is Ok <==> any.account_index is Some,
        index matches Ok(root) ==> *root == any.account_index->0,
        source is Ok <==> any.vault_secret_source is Some,
        source matches Ok(s) ==> *s == any.vault_secret_source->0,
        device is Ok <==> any.device_branch is Some,
        device matches Ok(d) ==> *d == any.device_branch->0,
{
}

} // verus!

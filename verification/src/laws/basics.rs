//! Small things that much rests on: the words of an error, the names of group events, what is handed on
//! unchanged, and the switches that stop a program on purpose.
use crate::client::a2i::control_payload;
use crate::client::dm::{attachment_plaintext, message_is_listed};
use crate::client::federation::{
    federated_forward_request, LocalBusFederationRoute, SdkFederatedEnvelopeForwardRequest,
};
use crate::client::group_session::{
    check_distribution_envelope, group_encrypted_envelope, PendingRetry,
};
use crate::client::own_device_sync::{
    check_same_principal, conversations_of, history_sender_key, own_sync_object_id,
};
use crate::client::state::RamfluxClient;
use crate::constants::crate_name;
use crate::digest::{hash_input, HashInput};
use crate::dm::gateway_ack;
use crate::error::{denied, local_bus, rejected, SdkError, StorageError, SyncError, TransportError};
use crate::gateway::engine::http_method;
use crate::gateway::helpers::{
    build_gateway_signed_request, gateway_session_state, sdk_device_signed_fields,
};
use crate::gateway::protocol::{
    saturating_sum, Ack, Envelope, GatewaySessionConfig, GatewaySessionEstablishedFrame, GatewaySessionState,
    HttpMethod, SignedFields, SignedRequest,
};
use crate::gateway::requests::SessionOperation;
use crate::group::{
    group_entry_is_sender_key_message, group_member_accepted_event_id, group_member_banned_event_id,
    group_member_invited_event_id, group_member_joined_event_id, group_member_kicked_event_id,
    group_message_deleted_event_id, group_role_changed_event_id, is_missing_group_sender_key_error,
    is_name_listed, GroupState, SdkGroupEncryptedEnvelope, SdkGroupSenderKeyDistribution,
    SdkGroupSenderKeyDistributionEnvelope,
};
use crate::group_control::{check_bootstrap_event, GroupEvent};
use crate::itest_bus_fault::BusFault;
use crate::itest_rfd_fault::RfdFault;
use crate::object::{
    grant_binding_input, owner_proof_binding_input, sdk_relay_local_mint_enabled_from_value,
    sdk_relay_token_default_version, DeviceBranch, DmCiphertext, GatewayIssuerCertificate, RelayV3Protocol,
};
use crate::object_grants::empty_v3_issuer_certificate;
use crate::own_device_sync::{
    group_floors, group_message_epoch, message_allowed_by_group_floor,
    own_device_sync_slot_conversation_id, BundledMessage, SdkOwnDeviceGroupSnapshot,
};
use crate::records::{
    AccountDbRequest, DirectMessageRecord, EventWrite, GroupPendingUndecryptedRecord,
};
use crate::text::{decimal, eq_when_lowercased, trim};
use vstd::prelude::*;

verus! {

// ---- errors ----

/// What a user is shown of an error says which kind it is and, where it has some, its own words.
pub proof fn law_error_is_shown_in_its_words(e: &SdkError, r: String)
    requires
        call_ensures(SdkError::message, (e,), r),
    ensures
        *e matches SdkError::Crypto(m) ==> r@ == "crypto error: "@ + m@,
        *e matches SdkError::Protocol(m) ==> r@ == "protocol error: "@ + m@,
        *e matches SdkError::Io(m) ==> r@ == "I/O error: "@ + m@,
        *e matches SdkError::Json(m) ==> r@ == "JSON error: "@ + m@,
        *e is AccountIndexNotOpen ==> r@ == "account index is not open"@,
        *e is AccountDbNotUnlocked ==> r@ == "account database is not unlocked"@,
        *e is IdentityRootMissing ==> r@ == "identity root is not initialized"@,
        *e matches SdkError::GatewaySessionRejected(m) ==> r@ == "gateway session rejected: "@ + m@,
        *e is GatewaySessionNotEstablished ==> r@ == "gateway session is not established"@,
        *e matches SdkError::InvalidGatewayCursor(m) ==> r@
            == "invalid gateway cursor checkpoint: "@ + m@,
        *e matches SdkError::LocalBus(m) ==> r@ == "local bus error: "@ + m@,
        *e is LocalBusPermissionDenied ==> r@ == "local bus peer credential check failed"@,
        *e matches SdkError::CapabilityDenied(m) ==> r@ == "capability denied: "@ + m@,
        *e is GrantInvalidated ==> r@ == "grant invalidated"@,
        *e matches SdkError::SignatureVerificationFailed(m) ==> r@
            == "signature verification failed for mcp.approval.granted: "@ + m@,
        *e is RemoteAppApprovalRequired ==> r@
            == "remote_app approval requires an App-signed mcp.approval.granted"@,
        *e matches SdkError::Storage(StorageError::EventIdConflict(m)) ==> r@
            == "storage error: "@ + ("event id conflict: "@ + m@),
        *e matches SdkError::Storage(StorageError::MessageNotFound(m)) ==> r@
            == "storage error: "@ + ("message not found: "@ + m@),
        *e matches SdkError::Storage(StorageError::GroupControlSigningKeyMissing(m)) ==> r@
            == "storage error: "@ + ("group control signing key missing: "@ + m@),
        *e matches SdkError::Storage(StorageError::GroupPermissionDenied) ==> r@
            == "storage error: "@ + "group permission denied"@,
        *e matches SdkError::Storage(StorageError::Other(m)) ==> r@ == "storage error: "@ + m@,
        *e matches SdkError::Sync(SyncError::ObjectNotFound) ==> r@ == "sync error: "@
            + "object not found"@,
        *e matches SdkError::Sync(SyncError::Other(m)) ==> r@ == "sync error: "@ + m@,
        *e matches SdkError::Transport(TransportError::Quic(m)) ==> r@ == "transport error: "@ + m@,
        *e matches SdkError::Transport(TransportError::Other(m)) ==> r@ == "transport error: "@
            + m@,
{
}

/// An error of a kind is of that kind and says what it was made of.
pub proof fn law_error_is_made_of_its_words(
    text: &str,
    bus: SdkError,
    refusal: SdkError,
    rejection: SdkError,
)
    requires
        call_ensures(local_bus, (text,), bus),
        call_ensures(denied, (text,), refusal),
        call_ensures(rejected, (text,), rejection),
    ensures
        bus matches SdkError::LocalBus(m) && m@ == text@,
        refusal matches SdkError::CapabilityDenied(m) && m@ == text@,
        rejection matches SdkError::GatewaySessionRejected(m) && m@ == text@,
{
}

/// A key of a group is taken for missing exactly if what is shown of the error says so.
pub proof fn law_missing_key_is_told_by_its_words(
    e: &SdkError,
    shown: String,
    r: bool,
    before: Seq<char>,
    behind: Seq<char>,
)
    requires
        call_ensures(SdkError::message, (e,), shown),
        call_ensures(is_missing_group_sender_key_error, (e,), r),
    ensures
        shown@ == before + "missing group sender key"@ + behind ==> r,
        r ==> crate::text::occurs_in(shown@, "missing group sender key"@),
{
    if shown@ == before + "missing group sender key"@ + behind {
        let p = "missing group sender key"@;
        assert(shown@.subrange(before.len() as int, (before.len() + p.len()) as int) =~= p);
        assert(crate::text::stands_at(shown@, p, before.len() as int));
    }
}

// ---- groups ----

/// The events that change a group are named by what they do, the group, the two that they are about
/// and the epoch.
pub proof fn law_group_events_are_named_by_what_they_do(
    group_id: &str,
    first: &str,
    second: &str,
    epoch: u64,
    role: String,
    kick: String,
    ban: String,
    delete: String,
    invite: String,
    accept: String,
    join: String,
)
    requires
        call_ensures(group_role_changed_event_id, (group_id, first, second, epoch), role),
        call_ensures(group_member_kicked_event_id, (group_id, first, second, epoch), kick),
        call_ensures(group_member_banned_event_id, (group_id, first, second, epoch), ban),
        call_ensures(group_message_deleted_event_id, (group_id, first, second, epoch), delete),
        call_ensures(group_member_invited_event_id, (group_id, first, second, epoch), invite),
        call_ensures(group_member_accepted_event_id, (group_id, first, second, epoch), accept),
        call_ensures(group_member_joined_event_id, (group_id, first, second, epoch), join),
    ensures
        ({
            let rest = |kind: Seq<char>|
                kind + ":"@ + group_id@ + ":"@ + first@ + ":"@ + second@ + ":"@ + decimal(
                    epoch as nat,
                );
            &&& role@ == rest("group.role_changed"@)
            &&& kick@ == rest("group.member_kicked"@)
            &&& ban@ == rest("group.member_banned"@)
            &&& delete@ == rest("group.message_deleted"@)
            &&& invite@ == rest("group.member_invited"@)
            &&& accept@ == rest("group.member_accepted"@)
            &&& join@ == rest("group.member_joined"@)
        }),
{
}

/// Whoever is listed is a member, and a member has the role that is listed for it.
pub proof fn law_member_has_the_listed_role(
    names: &Vec<String>,
    name: &str,
    listed: bool,
    group: &GroupState,
    member: bool,
    role: Option<String>,
    i: int,
)
    requires
        group.well_formed(),
        call_ensures(is_name_listed, (names, name), listed),
        call_ensures(GroupState::has_member, (group, name), member),
        call_ensures(GroupState::role, (group, name), role),
    ensures
        listed <==> exists|k: int| 0 <= k < names@.len() && (#[trigger] names@[k])@ == name@,
        member <==> exists|k: int|
            0 <= k < group.members@.len() && (#[trigger] group.members@[k])@ == name@,
        0 <= i < group.roles@.len() && group.roles@[i].0@ == name@ ==> role is Some && role->0@
            == group.roles@[i].1@,
        role is Some ==> exists|k: int|
            0 <= k < group.roles@.len() && (#[trigger] group.roles@[k]).0@ == name@
                && group.roles@[k].1@ == role->0@,
{
    if 0 <= i < group.roles@.len() && group.roles@[i].0@ == name@ {
        let k = choose|k: int|
            0 <= k < group.roles@.len() && (#[trigger] group.roles@[k]).0@ == name@;
        assert(k == i) by {
            if k < i {
                assert(group.roles@[k].0@ != group.roles@[i].0@);
            } else if i < k {
                assert(group.roles@[i].0@ != group.roles@[k].0@);
            }
        }
    }
}

/// The first event of a group is believed of its sender exactly if it says that the sender joined, is
/// signed by the sender's device, and names the key that the sender's manifest has.
pub proof fn law_first_event_is_believed_exactly_then(
    event: &GroupEvent,
    domain: &str,
    source: &str,
    key: &str,
    r: Result<(), SdkError>,
)
    requires
        call_ensures(check_bootstrap_event, (event, domain, source, key), r),
    ensures
        r is Ok ==> {
            &&& event.domain@ == domain@
            &&& event.event_type@ == "group.member_joined"@
            &&& event.actor_device_id@ == source@
            &&& event.signed.signing_key_id@ == "device:"@ + event.actor_device_id@
            &&& event.body is MemberJoined
            &&& event.body->MemberJoined_actor_device_signing_public_key@ == key@
        },
        (event.domain@ == domain@ && event.event_type@ == "group.member_joined"@
            && event.actor_device_id@ == source@ && event.signed.signing_key_id@ == "device:"@
            + event.actor_device_id@ && event.body is MemberJoined
            && event.body->MemberJoined_actor_device_signing_public_key@ == key@) ==> r is Ok,
{
}

/// A payload is a message of a group exactly if it says so, and a key that is handed out comes in a
/// wrapper that says so; a message that is read of a history belongs to the group and epoch it names.
pub proof fn law_payload_is_what_it_says(
    parsed: &Option<SdkGroupEncryptedEnvelope>,
    message: bool,
    owned: Option<SdkGroupEncryptedEnvelope>,
    epoch: Option<(String, u64)>,
    wrapper: &SdkGroupSenderKeyDistributionEnvelope,
    wrapped: Result<(), SdkError>,
)
    requires
        call_ensures(group_entry_is_sender_key_message, (parsed,), message),
        call_ensures(group_message_epoch, (owned,), epoch),
        call_ensures(check_distribution_envelope, (wrapper,), wrapped),
    ensures
        message <==> *parsed is Some && parsed->0.schema@
            == "ramflux.sdk.group_sender_key.message.v1"@,
        epoch is Some <==> owned is Some,
        epoch matches Some((group_id, of)) ==> group_id == owned->0.group_id && of
            == owned->0.group_key_epoch,
        wrapped is Ok <==> wrapper.schema@
            == "ramflux.sdk.group_sender_key.distribution_envelope.v1"@,
{
}

/// Messages that waited for a key are tried one after the other, each once; one that can be read is
/// handed out under its own name, behind those before it, and an error ends the trying.
pub proof fn law_waiting_messages_are_tried_in_order(
    records: Vec<GroupPendingUndecryptedRecord>,
    first: PendingRetry,
    any: &PendingRetry,
    wanted: Option<&GroupPendingUndecryptedRecord>,
    s: &mut PendingRetry,
    outcome: Result<Option<Vec<u8>>, SdkError>,
    r: Result<(), SdkError>,
)
    requires
        call_ensures(PendingRetry::start, (records,), first),
        call_ensures(PendingRetry::wanted, (any,), wanted),
        old(s).next < old(s).records@.len(),
        call_ensures(PendingRetry::tried, (s, outcome), r),
    ensures
        first.records@ == records@ && first.next == 0 && first.handed_out@.len() == 0,
        wanted is Some <==> any.next < any.records@.len(),
        wanted matches Some(record) ==> *record == any.records@[any.next as int],
        final(s).records == old(s).records,
        r is Ok <==> outcome is Ok,
        outcome matches Err(e) ==> r == Err::<(), SdkError>(e) && *final(s) == *old(s),
        outcome is Ok ==> final(s).next == old(s).next + 1,
        outcome matches Ok(None) ==> final(s).handed_out@ == old(s).handed_out@,
        outcome matches Ok(Some(plaintext)) ==> {
            let record = old(s).records@[old(s).next as int];
            let out = final(s).handed_out@;
            &&& out.len() == old(s).handed_out@.len() + 1
            &&& out.take(out.len() - 1) == old(s).handed_out@
            &&& out.last().group_id@ == record.group_id@
            &&& out.last().conversation_id@ == record.conversation_id@
            &&& out.last().message_id@ == record.message_id@
            &&& out.last().plaintext@ == plaintext@
        },
{
    if outcome is Ok && outcome->Ok_0 is Some {
        let out = final(s).handed_out@;
        assert(out.take(out.len() - 1) =~= out.drop_last());
    }
}

/// A group is made under its name by the one who makes it.
pub proof fn law_group_is_made_by_its_creator(
    client: &RamfluxClient,
    group_id: &str,
    creator_id: &str,
    r: Result<(AccountDbRequest, Option<AccountDbRequest>), SdkError>,
)
    requires
        call_ensures(RamfluxClient::create_group, (client, group_id, creator_id), r),
    ensures
        r is Ok <==> client.active_account_db is Some,
        r is Err ==> r->Err_0 is AccountDbNotUnlocked,
        r matches Ok((made, key)) ==> (made matches AccountDbRequest::CreateGroup {
            group_id: id,
            creator_id: by,
        } && id@ == group_id@ && by@ == creator_id@),
{
}

/// What members of a group hand each other has the form of it: a key, and a message.
pub proof fn law_group_payloads_have_their_form(
    client: &RamfluxClient,
    group: &GroupState,
    group_id: &str,
    sender_id: &str,
    seed: [u8; 32],
    key: Result<SdkGroupSenderKeyDistribution, SdkError>,
    epoch: u64,
    ciphertext: DmCiphertext,
    message: SdkGroupEncryptedEnvelope,
)
    requires
        call_ensures(
            RamfluxClient::export_group_sender_key_distribution,
            (client, group, group_id, sender_id, seed),
            key,
        ),
        call_ensures(group_encrypted_envelope, (group_id, sender_id, epoch, ciphertext), message),
    ensures
        key matches Ok(d) ==> {
            &&& d.schema@ == "ramflux.sdk.group_sender_key.distribution.v1"@
            &&& d.version == 1
            &&& d.group_id@ == group_id@
            &&& d.sender_id@ == sender_id@
            &&& d.group_key_epoch == group.group_epoch
            &&& d.sender_key_seed@ == seed@
            &&& d.sender_device_signing_public_key is None
        },
        key is Ok <==> client.active_account_db is Some && exists|i: int|
            0 <= i < group.members@.len() && (#[trigger] group.members@[i])@ == sender_id@,
        message.schema@ == "ramflux.sdk.group_sender_key.message.v1"@,
        message.version == 1,
        message.group_id@ == group_id@,
        message.sender_id@ == sender_id@,
        message.group_key_epoch == epoch,
        message.ciphertext == ciphertext,
{
}

/// What is made to be signed later is not signed yet, and says who will sign it.
pub proof fn law_unsigned_things_say_who_signs(
    federation: &LocalBusFederationRoute,
    envelope: Envelope,
    forward: SdkFederatedEnvelopeForwardRequest,
    envelope_id: &str,
    device_id: &str,
    at: i64,
    ack: Ack,
    fresh: RamfluxClient,
)
    requires
        call_ensures(federated_forward_request, (federation, envelope), forward),
        call_ensures(gateway_ack, (envelope_id, device_id, at), ack),
        call_ensures(RamfluxClient::default, (), fresh),
    ensures
        forward.signed.signing_key_id@ == federation.source_node_id@ + "#federation"@,
        forward.signed.signature@.len() == 0,
        ack.signed.signing_key_id@ == "fixture"@,
        ack.signed.signature@ == ""@,
        fresh.identity_root is None && fresh.device_branch is None,
        fresh.account_index is None && fresh.vault_secret_source is None,
        fresh.active_account_db is None && !fresh.vault_secret_source_is_custom,
{
}

// ---- histories ----

/// Two devices hand histories to each other exactly if they are of one identity.
pub proof fn law_histories_stay_with_their_identity(
    a: &str,
    b: &str,
    r: Result<(), SdkError>,
    snapshot_id: &str,
    object_id: &str,
    target: &str,
    object: String,
    slot: String,
)
    requires
        call_ensures(check_same_principal, (a, b), r),
        call_ensures(own_sync_object_id, (snapshot_id,), object),
        call_ensures(
            own_device_sync_slot_conversation_id,
            (snapshot_id, object_id, target),
            slot,
        ),
    ensures
        r is Ok <==> a@ == b@,
        object@ == "own-device-sync:"@ + snapshot_id@,
        slot@ == "own_device.sync.slot:"@ + snapshot_id@ + ":"@ + object_id@ + ":"@ + target@,
{
}

/// A message of a group may be read from the epoch on in which the reader joined the group, and not at
/// all where the group is not known; a message of no group always may.
pub proof fn law_message_is_read_from_the_epoch_of_joining(
    groups: &Vec<SdkOwnDeviceGroupSnapshot>,
    floors: Vec<(String, u64)>,
    message: &BundledMessage,
    r: bool,
    g: int,
)
    requires
        call_ensures(group_floors, (groups,), floors),
        call_ensures(message_allowed_by_group_floor, (message, &floors), r),
    ensures
        floors@.len() == groups@.len(),
        0 <= g < groups@.len() ==> floors@[g].0 == groups@[g].group_id && floors@[g].1
            == groups@[g].local_joined_epoch,
        message.group_epoch is None ==> r,
        message.group_epoch is Some && (forall|i: int|
            0 <= i < groups@.len() ==> (#[trigger] groups@[i]).group_id@
                != (message.group_epoch->0).0@) ==> !r,
        message.group_epoch is Some && 0 <= g < groups@.len() && groups@[g].group_id@
            == (message.group_epoch->0).0@ && (forall|i: int|
            g < i < groups@.len() ==> (#[trigger] groups@[i]).group_id@
                != (message.group_epoch->0).0@) ==> (r <==> (message.group_epoch->0).1
            >= groups@[g].local_joined_epoch),
{
    if message.group_epoch is Some {
        let id = (message.group_epoch->0).0@;
        if forall|i: int| 0 <= i < groups@.len() ==> (#[trigger] groups@[i]).group_id@ != id {
            assert forall|i: int| 0 <= i < floors@.len() implies (#[trigger] floors@[i]).0@
                != id by {
                assert(groups@[i].group_id@ != id);
            }
            lemma_no_floor(floors@, id);
        }
        if 0 <= g < groups@.len() && groups@[g].group_id@ == id && forall|i: int|
            g < i < groups@.len() ==> (#[trigger] groups@[i]).group_id@ != id {
            assert forall|i: int| g < i < floors@.len() implies (#[trigger] floors@[i]).0@ != id by {
                assert(groups@[i].group_id@ != id);
            }
            lemma_last_floor(floors@, id, g);
        }
    }
}

proof fn lemma_no_floor(floors: Seq<(String, u64)>, group_id: Seq<char>)
    requires
        forall|i: int| 0 <= i < floors.len() ==> (#[trigger] floors[i]).0@ != group_id,
    ensures
        crate::own_device_sync::floor_of(floors, group_id) is None,
    decreases floors.len(),
{
    if floors.len() > 0 {
        assert(floors[floors.len() - 1].0@ != group_id);
        assert forall|i: int| 0 <= i < floors.drop_last().len() implies (
        #[trigger] floors.drop_last()[i]).0@ != group_id by {
            assert(floors[i].0@ != group_id);
        }
        lemma_no_floor(floors.drop_last(), group_id);
    }
}

proof fn lemma_last_floor(floors: Seq<(String, u64)>, group_id: Seq<char>, g: int)
    requires
        0 <= g < floors.len(),
        floors[g].0@ == group_id,
        forall|i: int| g < i < floors.len() ==> (#[trigger] floors[i]).0@ != group_id,
    ensures
        crate::own_device_sync::floor_of(floors, group_id) == Some(floors[g].1),
    decreases floors.len(),
{
    if g < floors.len() - 1 {
        assert(floors[floors.len() - 1].0@ != group_id);
        let before = floors.drop_last();
        assert(before[g] == floors[g]);
        assert forall|i: int| g < i < before.len() implies (#[trigger] before[i]).0@
            != group_id by {
            assert(floors[i].0@ != group_id);
        }
        lemma_last_floor(before, group_id, g);
    }
}

/// The conversations of messages are those that a message is of, each once.
pub proof fn law_conversations_are_listed_once(
    messages: &Vec<BundledMessage>,
    r: Vec<String>,
    c: Seq<char>,
)
    requires
        call_ensures(conversations_of, (messages,), r),
    ensures
        crate::laws::words::in_list(r@, c) <==> exists|i: int|
            0 <= i < messages@.len() && (#[trigger] messages@[i]).record.conversation_id@ == c,
        forall|i: int, j: int|
            0 <= i < j < r@.len() ==> (#[trigger] r@[i])@ != (#[trigger] r@[j])@,
{
    assert(crate::laws::words::in_list(r@, c) == crate::name_list::has_name(r@, c));
    assert forall|i: int, j: int| 0 <= i < j < r@.len() implies (#[trigger] r@[i])@ != (
    #[trigger] r@[j])@ by {
        if r@[i]@ == r@[j]@ {
            crate::name_list::law_ordered_names_occur_once(r@, i, j);
        }
    }
}

/// The state of the conversation in which the key of a history was sent is kept under its object.
pub proof fn law_sent_history_key_keeps_its_state(
    client: &RamfluxClient,
    slot: &str,
    object_id: &str,
    snapshot: &[u8],
    r: Result<EventWrite, SdkError>,
)
    requires
        call_ensures(
            RamfluxClient::persist_own_sync_slot_session,
            (client, slot, object_id, snapshot),
            r,
        ),
    ensures
        r is Ok <==> client.active_account_db is Some,
        r is Err ==> r->Err_0 is AccountDbNotUnlocked,
        r matches Ok(w) ==> crate::laws::objects::keeps_state(
            w,
            slot@,
            "send"@,
            "own-device-sync-slot:"@ + object_id@,
            snapshot@,
        ),
{
}

// ---- what is handed on unchanged ----

/// What could be decoded is handed on as it is, and what could not be is said to be in its own words.
pub proof fn law_decoded_bytes_are_handed_on(
    decoded: Result<Vec<u8>, String>,
    control: Result<Vec<u8>, SdkError>,
    attachment: Result<Vec<u8>, SdkError>,
    key: Result<Vec<u8>, SdkError>,
    domain: &str,
    bytes: &[u8],
    input: HashInput,
    branch: &DeviceBranch,
    copy: DeviceBranch,
)
    requires
        call_ensures(control_payload, (decoded,), control),
        call_ensures(attachment_plaintext, (decoded,), attachment),
        call_ensures(history_sender_key, (decoded,), key),
        call_ensures(hash_input, (domain, bytes), input),
        call_ensures(DeviceBranch::copy, (branch,), copy),
    ensures
        decoded matches Ok(given) ==> control == Ok::<Vec<u8>, SdkError>(given) && attachment
            == Ok::<Vec<u8>, SdkError>(given) && key == Ok::<Vec<u8>, SdkError>(given),
        decoded matches Err(words) ==> {
            &&& control matches Err(SdkError::LocalBus(m)) && m@
                == "invalid A2I encrypted payload: "@ + words@
            &&& attachment matches Err(SdkError::LocalBus(m)) && m@ == "invalid attachment body: "@
                + words@
            &&& key matches Err(SdkError::LocalBus(m)) && m@ == "invalid own-device sender key: "@
                + words@
        },
        input.domain@ == domain@ && input.bytes@ == bytes@,
        copy == *branch,
{
}

/// A message is listed exactly if one of its name is.
pub proof fn law_message_is_listed_by_name(
    messages: &Vec<DirectMessageRecord>,
    message_id: &str,
    r: bool,
)
    requires
        call_ensures(message_is_listed, (messages, message_id), r),
    ensures
        r <==> exists|i: int|
            0 <= i < messages@.len() && (#[trigger] messages@[i]).message_id@ == message_id@,
{
}

/// What is asked about contacts and groups is asked of an open account and about what is named.
pub proof fn law_contacts_and_groups_are_asked_for(
    client: &RamfluxClient,
    contact: &str,
    conversation_id: &str,
    peer: &str,
    links: Result<AccountDbRequest, SdkError>,
    status: Result<AccountDbRequest, SdkError>,
    inbox: Result<AccountDbRequest, SdkError>,
    link: Result<AccountDbRequest, SdkError>,
    groups: Result<AccountDbRequest, SdkError>,
)
    requires
        call_ensures(RamfluxClient::friend_links, (client,), links),
        call_ensures(RamfluxClient::contact_verification_status, (client, contact), status),
        call_ensures(RamfluxClient::rejected_inbox, (client, conversation_id), inbox),
        call_ensures(RamfluxClient::friend_link_for_peer, (client, peer), link),
        call_ensures(RamfluxClient::groups, (client,), groups),
    ensures
        links is Ok <==> client.active_account_db is Some,
        links is Err ==> links->Err_0 is AccountDbNotUnlocked,
        status is Ok <==> client.active_account_db is Some,
        status is Err ==> status->Err_0 is AccountDbNotUnlocked,
        inbox is Ok <==> client.active_account_db is Some,
        inbox is Err ==> inbox->Err_0 is AccountDbNotUnlocked,
        link is Ok <==> client.active_account_db is Some,
        link is Err ==> link->Err_0 is AccountDbNotUnlocked,
        groups is Ok <==> client.active_account_db is Some,
        groups is Err ==> groups->Err_0 is AccountDbNotUnlocked,
        links matches Ok(q) ==> q is FriendLinks,
        groups matches Ok(q) ==> q is Groups,
        status matches Ok(q) ==> (q matches AccountDbRequest::ContactVerification {
            contact_identity_commitment,
        } && contact_identity_commitment@ == contact@),
        inbox matches Ok(q) ==> (q matches AccountDbRequest::RejectedInbox { conversation_id: id }
            && id@ == conversation_id@),
        link matches Ok(q) ==> (q matches AccountDbRequest::FriendLinkForPeer { peer_id } && peer_id@
            == peer@),
{
}

// ---- requests ----

/// A request that is signed in a session is of one of four methods, by its device, and lives five
/// minutes from now; the state of a session is what the gateway said of it.
pub proof fn law_signed_request_is_the_one_asked_for(
    config: &mut GatewaySessionConfig,
    now: i64,
    session_id: &str,
    counter: u64,
    method: HttpMethod,
    path: &str,
    device_proof_hash: &str,
    body_hash: &str,
    nonce: &str,
    r: Result<SignedRequest, SdkError>,
    name: &str,
    named: Result<HttpMethod, SdkError>,
)
    requires
        call_ensures(
            build_gateway_signed_request,
            (
                config,
                now,
                session_id,
                counter,
                method,
                path,
                device_proof_hash,
                body_hash,
                nonce,
            ),
            r,
        ),
        call_ensures(http_method, (name,), named),
    ensures
        r is Ok <==> old(config).device_branch is Some,
        final(config).now == now,
        now <= i64::MAX - 300 ==> final(config).auth_expires_at == now + 300,
        final(config).device_id == old(config).device_id,
        final(config).device_branch == old(config).device_branch,
        final(config).last_seen_inbox_seq == old(config).last_seen_inbox_seq,
        r matches Ok(q) ==> {
            &&& q.request_id@ == "req_sdk_"@ + session_id@ + "_"@ + decimal(counter as nat)
            &&& q.method == method
            &&& q.path@ == path@
            &&& q.device_proof_hash@ == device_proof_hash@
            &&& q.body_hash@ == body_hash@
            &&& q.nonce@ == nonce@
            &&& q.source_device_id@ == old(config).device_id@
            &&& q.signed.signing_key_id@ == "device:"@ + old(config).device_id@
            &&& q.created_at == now
            &&& q.expires_at == final(config).auth_expires_at
        },
        named is Ok <==> name@ == "POST"@ || name@ == "GET"@ || name@ == "PUT"@ || name@
            == "DELETE"@,
        named matches Ok(m) ==> {
            &&& m is POST ==> name@ == "POST"@
            &&& m is GET ==> name@ == "GET"@
            &&& m is PUT ==> name@ == "PUT"@
            &&& m is DELETE ==> name@ == "DELETE"@
        },
{
}

/// The state of a session is what the gateway said of it, at the place that it accepted or else the one
/// that was known; a device signs under its own name; and each thing that is signed has a place of its
/// own.
pub proof fn law_session_is_what_the_gateway_said(
    session: &GatewaySessionEstablishedFrame,
    known: u64,
    state: GatewaySessionState,
    device_id: &str,
    signature: &str,
    fields: SignedFields,
    a: i64,
    b: i64,
    sum: i64,
    one: SessionOperation,
    other: SessionOperation,
    place: &str,
    elsewhere: &str,
)
    requires
        call_ensures(gateway_session_state, (session, known), state),
        call_ensures(sdk_device_signed_fields, (device_id, signature), fields),
        call_ensures(saturating_sum, (a, b), sum),
        call_ensures(SessionOperation::path, (one,), place),
        call_ensures(SessionOperation::path, (other,), elsewhere),
    ensures
        state.session_id == session.session_id,
        state.gateway_id == session.gateway_id,
        state.resume_token == session.resume_token,
        state.resume_window_seconds == session.resume_window_seconds,
        session.accepted_cursor matches Some(cursor) ==> state.accepted_inbox_seq
            == cursor.inbox_seq,
        session.accepted_cursor is None ==> state.accepted_inbox_seq == known,
        fields.signing_key_id@ == "device:"@ + device_id@,
        fields.signature@ == signature@,
        i64::MIN <= a + b <= i64::MAX ==> sum == a + b,
        a + b > i64::MAX ==> sum == i64::MAX,
        a + b < i64::MIN ==> sum == i64::MIN,
        one != other ==> place@ != elsewhere@,
{
    if one != other && place@ == elsewhere@ {
        crate::gateway::requests::law_operations_are_signed_apart(one, other);
    }
}

/// What a grant and a proof are bound by are kept apart, and hold what they are made of; a certificate
/// that is left to the gateway says nothing.
pub proof fn law_bindings_are_kept_apart(
    canonical: Vec<u8>,
    grant: HashInput,
    owner: HashInput,
    version: u32,
    protocol: &RelayV3Protocol,
    certificate: GatewayIssuerCertificate,
)
    requires
        call_ensures(grant_binding_input, (canonical,), grant),
        call_ensures(owner_proof_binding_input, (canonical,), owner),
        call_ensures(sdk_relay_token_default_version, (), version),
        call_ensures(empty_v3_issuer_certificate, (protocol,), certificate),
    ensures
        grant.bytes@ == canonical@ && owner.bytes@ == canonical@,
        grant.domain@ == "ramflux.object_access_grant.binding.v3"@,
        owner.domain@ == "ramflux.owner_authorization_proof.binding.v3"@,
        grant.domain@ != owner.domain@,
        version == 1,
        certificate.schema@ == protocol.gateway_issuer_certificate_schema@,
        certificate.version == protocol.proof_version,
        certificate.cert_id@.len() == 0 && certificate.node_id@.len() == 0,
        certificate.gateway_instance_id@.len() == 0,
        certificate.attestation_public_key@.len() == 0,
        certificate.attestation_key_id@.len() == 0,
        certificate.node_root_signing_key_id@.len() == 0,
        certificate.node_root_signature@.len() == 0,
        certificate.not_before == 0 && certificate.not_after == 0 && certificate.issued_at == 0,
        certificate.revoked_at is None,
{
    reveal_strlit("ramflux.object_access_grant.binding.v3");
    reveal_strlit("ramflux.owner_authorization_proof.binding.v3");
    assert(grant.domain@.len() != owner.domain@.len());
}

/// Tokens are minted locally exactly if the setting, without white space around it and whatever its
/// capitals, is one of four words.
pub proof fn law_minting_is_switched_on_by_four_words(
    text: &str,
    r: bool,
    missing: bool,
    word: &str,
    one: &str,
    yes: &str,
    on: &str,
    truth: &str,
    is_one: bool,
    is_yes: bool,
    is_on: bool,
    is_true: bool,
)
    requires
        call_ensures(sdk_relay_local_mint_enabled_from_value, (Some(text),), r),
        call_ensures(sdk_relay_local_mint_enabled_from_value, (None,), missing),
        call_ensures(trim, (text,), word),
        one@ == "1"@ && yes@ == "yes"@ && on@ == "on"@ && truth@ == "true"@,
        call_ensures(eq_when_lowercased, (word, one), is_one),
        call_ensures(eq_when_lowercased, (word, yes), is_yes),
        call_ensures(eq_when_lowercased, (word, on), is_on),
        call_ensures(eq_when_lowercased, (word, truth), is_true),
    ensures
        r <==> is_one || is_yes || is_on || is_true,
        !missing,
{
}

// ---- switches ----

/// An answer is dropped on purpose exactly once, of putting an object, and only where that was switched
/// on.
pub proof fn law_answer_is_dropped_once(
    raw: Option<&str>,
    mode: crate::itest_bus_fault::Mode,
    marker: bool,
    first: BusFault,
    s: &mut BusFault,
    method: &str,
    r: Result<bool, SdkError>,
    failed: SdkError,
)
    requires
        call_ensures(crate::itest_bus_fault::parse_mode, (raw,), mode),
        call_ensures(BusFault::start, (mode, marker), first),
        call_ensures(BusFault::should_drop_response, (s, method), r),
        call_ensures(crate::itest_bus_fault::marker_write_failed, (), failed),
    ensures
        mode is ObjectPutResponse <==> raw is Some && raw->0@ == "object-put-response"@,
        first.mode == mode && first.marker_set == marker && !first.claimed,
        final(s).mode == old(s).mode && final(s).marker_set == old(s).marker_set,
        ({
            let fires = old(s).mode is ObjectPutResponse && method@ == "object.put"@ && !old(s).claimed;
            &&& final(s).claimed <==> old(s).claimed || fires
            &&& r == Ok::<bool, SdkError>(true) <==> fires && old(s).marker_set
            &&& r is Err <==> fires && !old(s).marker_set
        }),
        failed matches SdkError::LocalBus(m) && m@ == "itest bus fault marker write failed"@,
{
}

/// A program stops on purpose at a point exactly once, at the one that was switched on.
pub proof fn law_program_stops_once(
    raw: Option<&str>,
    mode: crate::itest_rfd_fault::Mode,
    marker: bool,
    first: RfdFault,
    s: &mut RfdFault,
    point: crate::itest_rfd_fault::Mode,
    r: Result<bool, SdkError>,
    failed: SdkError,
)
    requires
        call_ensures(crate::itest_rfd_fault::parse_mode, (raw,), mode),
        call_ensures(RfdFault::start, (mode, marker), first),
        call_ensures(RfdFault::barrier, (s, point), r),
        call_ensures(crate::itest_rfd_fault::marker_write_failed, (), failed),
    ensures
        mode is DmSend ==> raw is Some && raw->0@ == "dm-send"@,
        mode is OwnerPut ==> raw is Some && raw->0@ == "owner-put"@,
        mode is GranteeImport ==> raw is Some && raw->0@ == "grantee-import"@,
        mode is DmRecv ==> raw is Some && raw->0@ == "dm-recv"@,
        mode is Off <==> raw is None || (raw->0@ != "dm-send"@ && raw->0@ != "owner-put"@
            && raw->0@ != "grantee-import"@ && raw->0@ != "dm-recv"@),
        first.mode == mode && first.marker_set == marker && !first.claimed,
        final(s).mode == old(s).mode && final(s).marker_set == old(s).marker_set,
        ({
            let fires = !(point is Off) && old(s).mode == point && !old(s).claimed;
            &&& final(s).claimed <==> old(s).claimed || fires
            &&& r == Ok::<bool, SdkError>(true) <==> fires && old(s).marker_set
            &&& r is Err <==> fires && !old(s).marker_set
        }),
        failed matches SdkError::LocalBus(m) && m@ == "itest rfd fault marker write failed"@,
{
}

/// A transfer is broken off on purpose only where that was switched on, and an upload only after the
/// given number of bytes.
pub proof fn law_transfer_is_broken_off_only_on_purpose(
    raw: Option<&str>,
    mode: crate::itest_crash_seam::Mode,
    text: Option<&str>,
    threshold: usize,
    written: usize,
    up: bool,
    down: bool,
)
    requires
        call_ensures(crate::itest_crash_seam::parse_mode, (raw,), mode),
        call_ensures(crate::itest_crash_seam::after_bytes, (text,), threshold),
        call_ensures(
            crate::itest_crash_seam::maybe_abort_upload_before_ack,
            (mode, written, threshold),
            up,
        ),
        call_ensures(crate::itest_crash_seam::maybe_abort_download_after_write, (mode,), down),
    ensures
        up ==> raw is Some && raw->0@ == "upload-chunk-before-ack"@ && written >= threshold,
        raw is Some && raw->0@ == "upload-chunk-before-ack"@ && written >= threshold ==> up,
        down ==> raw is Some && raw->0@ == "download-after-write"@,
        raw is None ==> !up && !down,
        text is None ==> threshold == 0,
        text is Some ==> (crate::text::parsed_unsigned(text->0@, usize::MAX as nat) matches Ok(n)
            ==> threshold == n),
        text is Some && crate::text::parsed_unsigned(text->0@, usize::MAX as nat) is Err
            ==> threshold == 0,
{
}

/// A download is broken off where that was switched on, and never an upload with it.
pub proof fn law_download_is_broken_off_where_switched_on(
    raw: Option<&str>,
    mode: crate::itest_crash_seam::Mode,
    down: bool,
)
    requires
        call_ensures(crate::itest_crash_seam::parse_mode, (raw,), mode),
        call_ensures(crate::itest_crash_seam::maybe_abort_download_after_write, (mode,), down),
        raw is Some,
        raw->0@ == "download-after-write"@,
    ensures
        down,
        mode is DownloadAfterWrite,
{
    reveal_strlit("download-after-write");
    reveal_strlit("upload-chunk-before-ack");
    assert("download-after-write"@.len() != "upload-chunk-before-ack"@.len());
}

/// The library is known by its name.
pub proof fn law_library_has_its_name(name: &str)
    requires
        call_ensures(crate_name, (), name),
    ensures
        name@ == "ramflux-sdk"@,
{
}

} // verus!

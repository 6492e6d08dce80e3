//! Messages to groups: what a member seals, the members that have its key open, once.
use crate::client::group_session::{
    append_group_gateway_delivery, check_distribution, check_group_envelope, counter_suffix,
    decrypted_once, find_message, group_encrypted_envelope, imported_sender_key_state,
    load_group_sender_key_state, pending_group_message, GroupMessageEnd, SealedGroupMessage,
    SenderKeyImport,
};
use crate::client::state::RamfluxClient;
use crate::error::{SdkError, StorageError};
use crate::gateway::protocol::GatewayInboxEntry;
use crate::group::{
    group_associated_data, group_member_route_event_id, group_sender_device_text,
    group_sender_key_checkpoint_name, group_sender_key_distribution_conversation_id,
    group_sender_session_id, GroupGatewayDeliveryResult, GroupState, SdkGroupEncryptedEnvelope,
    SdkGroupSenderKeyDistribution, SdkGroupSenderKeyState,
};
use crate::object::DmCiphertext;
use crate::records::{AccountDbRequest, DirectMessageRecord, EventWrite};
use crate::text::{decimal, stands_at};
use vstd::prelude::*;

verus! {

/// Whether a write keeps some bytes as an event and points the checkpoint of a name at that event.
pub open spec fn keeps_under(
    w: EventWrite,
    name: Seq<char>,
    event_id: Seq<char>,
    event_type: Seq<char>,
    bytes: Seq<u8>,
) -> bool {
    &&& w.event matches AccountDbRequest::AppendEvent { event_id: e, event_type: t, body } && e@
        == event_id && t@ == event_type && body@ == bytes
    &&& w.checkpoint matches AccountDbRequest::SetProjectionCheckpoint {
        projection_name,
        last_event_id,
    } && projection_name@ == name && last_event_id@ == event_id
}

/// The name under which the key of a sender is looked up.
pub open spec fn key_name(
    group_id: Seq<char>,
    sender_id: Seq<char>,
    epoch: u64,
    direction: Seq<char>,
) -> Seq<char> {
    "group_sender_key:"@ + group_id + ":"@ + sender_id + ":"@ + decimal(epoch as nat) + ":"@
        + direction
}

/// The event that holds a state of a sender's key.
pub open spec fn key_event(
    group_id: Seq<char>,
    sender_id: Seq<char>,
    epoch: u64,
    direction: Seq<char>,
    suffix: Seq<char>,
) -> Seq<char> {
    "group.sender_key:"@ + direction + ":"@ + group_id + ":"@ + sender_id + ":"@ + decimal(
        epoch as nat,
    ) + ":"@ + suffix
}

/// A state of a sender's key is kept under the name by which it is looked up, and what is looked up is
/// what was kept.
pub proof fn law_sender_key_is_read_back(
    client: &RamfluxClient,
    state: &SdkGroupSenderKeyState,
    direction: &str,
    suffix: &str,
    encoded: &[u8],
    kept: Result<EventWrite, SdkError>,
    group_id: &str,
    sender_id: &str,
    name: String,
    checkpoint: String,
    body: Vec<u8>,
    loaded: Result<Vec<u8>, SdkError>,
    missing: Result<Vec<u8>, SdkError>,
)
    requires
        client.active_account_db is Some,
        group_id@ == state.group_id@,
        sender_id@ == state.sender_id@,
        call_ensures(
            RamfluxClient::persist_group_sender_key_state,
            (client, state, direction, suffix, encoded),
            kept,
        ),
        call_ensures(
            group_sender_key_checkpoint_name,
            (group_id, sender_id, state.group_key_epoch, direction),
            name,
        ),
        body@ == encoded@,
        call_ensures(
            load_group_sender_key_state,
            (group_id, sender_id, state.group_key_epoch, direction, Some(checkpoint), Some(body)),
            loaded,
        ),
        call_ensures(
            load_group_sender_key_state,
            (group_id, sender_id, state.group_key_epoch, direction, None, None),
            missing,
        ),
    ensures
        kept matches Ok(w) && keeps_under(
            w,
            name@,
            key_event(group_id@, sender_id@, state.group_key_epoch, direction@, suffix@),
            "group.sender_key.state"@,
            encoded@,
        ),
        name@ == key_name(group_id@, sender_id@, state.group_key_epoch, direction@),
        loaded matches Ok(bytes) && bytes@ == encoded@,
        missing matches Err(SdkError::LocalBus(text)) && text@ == "missing group sender key for "@
            + group_id@ + "/"@ + sender_id@ + "/epoch "@ + decimal(state.group_key_epoch as nat)
            + "/"@ + direction@,
{
}

/// A device makes its own key only if it has none yet, and keeps it as the one it sends with.
pub proof fn law_own_key_is_made_once(
    client: &RamfluxClient,
    loaded: &Result<Vec<u8>, SdkError>,
    state: &SdkGroupSenderKeyState,
    encoded: &[u8],
    r: Result<Option<EventWrite>, SdkError>,
)
    requires
        client.active_account_db is Some,
        call_ensures(
            RamfluxClient::ensure_own_group_sender_key,
            (client, loaded, state, encoded),
            r,
        ),
    ensures
        r is Ok,
        r matches Ok(w) ==> (w is Some <==> *loaded is Err),
        r matches Ok(Some(w)) ==> keeps_under(
            w,
            key_name(state.group_id@, state.sender_id@, state.group_key_epoch, "send"@),
            key_event(
                state.group_id@,
                state.sender_id@,
                state.group_key_epoch,
                "send"@,
                "initial"@,
            ),
            "group.sender_key.state"@,
            encoded@,
        ),
{
}

/// A member, and nobody else, seals a message for the group in its present epoch; the ciphertext
/// travels unchanged, and the state of the sender's key behind it is kept first.
pub proof fn law_sealed_message_is_for_the_group(
    client: &RamfluxClient,
    group: &GroupState,
    group_id: &str,
    sender_id: &str,
    ciphertext: DmCiphertext,
    snapshot: Vec<u8>,
    encoded: &[u8],
    r: Result<SealedGroupMessage, SdkError>,
    may: Result<(), SdkError>,
)
    requires
        client.active_account_db is Some,
        call_ensures(
            RamfluxClient::encrypt_group_message,
            (client, group, group_id, sender_id, ciphertext, snapshot, encoded),
            r,
        ),
        call_ensures(RamfluxClient::check_group_sender, (client, group, sender_id), may),
    ensures
        may is Ok <==> exists|i: int|
            0 <= i < group.members@.len() && (#[trigger] group.members@[i])@ == sender_id@,
        r is Ok <==> may is Ok,
        r is Err ==> r matches Err(SdkError::Storage(StorageError::GroupPermissionDenied)),
        r matches Ok(m) ==> {
            &&& m.envelope.group_id@ == group_id@
            &&& m.envelope.sender_id@ == sender_id@
            &&& m.envelope.group_key_epoch == group.group_epoch
            &&& m.envelope.ciphertext == ciphertext
            &&& m.envelope.schema@ == "ramflux.sdk.group_sender_key.message.v1"@
            &&& m.envelope.version == 1
            &&& keeps_under(
                m.key,
                key_name(group_id@, sender_id@, group.group_epoch, "send"@),
                key_event(
                    group_id@,
                    sender_id@,
                    group.group_epoch,
                    "send"@,
                    "send:"@ + decimal(ciphertext.counter as nat),
                ),
                "group.sender_key.state"@,
                encoded@,
            )
        },
{
}

/// An envelope that was made for a group has the form that is opened, and another form is refused.
pub proof fn law_made_envelope_is_opened(
    group_id: &str,
    sender_id: &str,
    epoch: u64,
    ciphertext: DmCiphertext,
    envelope: SdkGroupEncryptedEnvelope,
    r: Result<(), SdkError>,
    other: &SdkGroupEncryptedEnvelope,
    refused: Result<(), SdkError>,
)
    requires
        call_ensures(group_encrypted_envelope, (group_id, sender_id, epoch, ciphertext), envelope),
        call_ensures(check_group_envelope, (&envelope,), r),
        other.schema@ != envelope.schema@,
        call_ensures(check_group_envelope, (other,), refused),
    ensures
        r is Ok,
        refused is Err,
        envelope.group_id@ == group_id@,
        envelope.sender_id@ == sender_id@,
        envelope.group_key_epoch == epoch,
        envelope.ciphertext == ciphertext,
{
}

/// The key that a member hands out is that of its group, its name and the present epoch, and is taken
/// in by the others under just these; taking it in asks for the messages that have waited for it.
pub proof fn law_handed_out_key_is_taken_in(
    sender: &RamfluxClient,
    receiver: &RamfluxClient,
    group: &GroupState,
    group_id: &str,
    sender_id: &str,
    seed: [u8; 32],
    made: Result<SdkGroupSenderKeyDistribution, SdkError>,
    snapshot: Vec<u8>,
    state: SdkGroupSenderKeyState,
    encoded: &[u8],
    form: Result<(), SdkError>,
    r: Result<SenderKeyImport, SdkError>,
)
    requires
        sender.active_account_db is Some,
        receiver.active_account_db is Some,
        group.is_member(sender_id@),
        call_ensures(
            RamfluxClient::export_group_sender_key_distribution,
            (sender, group, group_id, sender_id, seed),
            made,
        ),
        made matches Ok(d) ==> call_ensures(imported_sender_key_state, (&d, snapshot), state),
        made matches Ok(d) ==> call_ensures(check_distribution, (&d,), form),
        made matches Ok(d) ==> call_ensures(
            RamfluxClient::import_group_sender_key_distribution,
            (receiver, &d, snapshot, encoded),
            r,
        ),
    ensures
        made matches Ok(d) && {
            &&& d.sender_key_seed@ == seed@
            &&& d.group_id@ == group_id@
            &&& d.sender_id@ == sender_id@
            &&& d.group_key_epoch == group.group_epoch
            &&& d.sender_device_signing_public_key is None
        },
        form is Ok,
        state.group_id@ == group_id@,
        state.sender_id@ == sender_id@,
        state.group_key_epoch == group.group_epoch,
        state.session_snapshot@ == snapshot@,
        r matches Ok(import) && {
            &&& keeps_under(
                import.key,
                key_name(group_id@, sender_id@, group.group_epoch, "recv"@),
                key_event(group_id@, sender_id@, group.group_epoch, "recv"@, "import"@),
                "group.sender_key.state"@,
                encoded@,
            )
            &&& import.pending matches Some(
                AccountDbRequest::GroupPendingUndecrypted { group_id: g, group_key_epoch: e },
            ) && g@ == group_id@ && e == group.group_epoch
        },
{
}

/// A key that comes with a history is kept in the same way, and retries nothing by itself.
pub proof fn law_key_of_a_history_retries_nothing(
    client: &RamfluxClient,
    distribution: &SdkGroupSenderKeyDistribution,
    snapshot: Vec<u8>,
    encoded: &[u8],
    retry_pending: bool,
    r: Result<SenderKeyImport, SdkError>,
)
    requires
        client.active_account_db is Some,
        call_ensures(
            RamfluxClient::import_group_sender_key_distribution_inner,
            (client, distribution, snapshot, encoded, retry_pending),
            r,
        ),
    ensures
        r is Ok <==> distribution.schema@ == "ramflux.sdk.group_sender_key.distribution.v1"@,
        r matches Ok(import) ==> {
            &&& keeps_under(
                import.key,
                key_name(
                    distribution.group_id@,
                    distribution.sender_id@,
                    distribution.group_key_epoch,
                    "recv"@,
                ),
                key_event(
                    distribution.group_id@,
                    distribution.sender_id@,
                    distribution.group_key_epoch,
                    "recv"@,
                    "import"@,
                ),
                "group.sender_key.state"@,
                encoded@,
            )
            &&& import.pending is Some <==> retry_pending
        },
{
}

/// A message that waits for a key is set aside under its group, its epoch, its sender and its place in
/// the inbox, as it came; and what waits is asked for by group and epoch.
pub proof fn law_waiting_message_is_found_again(
    client: &RamfluxClient,
    conversation_id: &str,
    message_id: &str,
    entry: &GatewayInboxEntry,
    envelope: &SdkGroupEncryptedEnvelope,
    encoded: Vec<u8>,
    now: i64,
    set_aside: AccountDbRequest,
    group_id: &str,
    asked: Result<AccountDbRequest, SdkError>,
)
    requires
        client.active_account_db is Some,
        group_id@ == envelope.group_id@,
        call_ensures(
            pending_group_message,
            (conversation_id, message_id, entry, envelope, encoded, now),
            set_aside,
        ),
        call_ensures(
            RamfluxClient::pending_group_messages,
            (client, group_id, envelope.group_key_epoch),
            asked,
        ),
    ensures
        set_aside matches AccountDbRequest::UpsertGroupPendingUndecrypted(w) && asked matches Ok(
            AccountDbRequest::GroupPendingUndecrypted { group_id: g, group_key_epoch: e },
        ) && {
            &&& w.group_id@ == g@
            &&& w.group_key_epoch == e
            &&& w.group_id@ == envelope.group_id@
            &&& e == envelope.group_key_epoch
            &&& w.conversation_id@ == conversation_id@
            &&& w.message_id@ == message_id@
            &&& w.sender_id@ == envelope.sender_id@
            &&& w.inbox_seq == entry.inbox_seq
            &&& w.envelope_json@ == encoded@
            &&& w.created_at == now
        },
{
}

/// The counter that is asked about before a message is opened is the one that is recorded when it was:
/// of the same group, epoch and sender.
pub proof fn law_counter_is_recorded_as_asked(
    client: &RamfluxClient,
    envelope: &SdkGroupEncryptedEnvelope,
    message_id: &str,
    now: i64,
    asked: Result<AccountDbRequest, SdkError>,
    recorded: Result<AccountDbRequest, SdkError>,
)
    requires
        client.active_account_db is Some,
        call_ensures(RamfluxClient::group_sender_key_counter_seen, (client, envelope), asked),
        call_ensures(
            RamfluxClient::record_group_sender_key_counter,
            (client, envelope, message_id, now),
            recorded,
        ),
    ensures
        asked matches Ok(AccountDbRequest::GroupSenderKeyCounterSeen {
            group_id,
            group_key_epoch,
            sender_id,
            counter,
        }) && recorded matches Ok(AccountDbRequest::RecordGroupSenderKeyCounter(w)) && {
            &&& w.group_id@ == group_id@ && group_id@ == envelope.group_id@
            &&& w.group_key_epoch == group_key_epoch && group_key_epoch == envelope.group_key_epoch
            &&& w.sender_id@ == sender_id@ && sender_id@ == envelope.sender_id@
            &&& w.counter == counter && counter == envelope.ciphertext.counter
            &&& w.message_id@ == message_id@
            &&& w.seen_at == now
        },
{
}

/// A plaintext is handed out only for a counter that was recorded anew.
pub proof fn law_replayed_message_is_not_handed_out(
    envelope: &SdkGroupEncryptedEnvelope,
    plaintext: Vec<u8>,
    recorded: bool,
    r: Result<Vec<u8>, SdkError>,
)
    requires
        call_ensures(decrypted_once, (envelope, plaintext, recorded), r),
    ensures
        r is Ok <==> recorded,
        r matches Ok(bytes) ==> bytes@ == plaintext@,
        !recorded ==> (r matches Err(SdkError::LocalBus(text)) && text@
            == "replayed group sender-key counter for "@ + envelope.group_id@ + "/"@
            + envelope.sender_id@ + "/epoch "@ + decimal(envelope.group_key_epoch as nat)
            + "/counter "@ + decimal(envelope.ciphertext.counter as nat)),
{
}

/// A message that is listed already, or whose counter was seen, is settled; another is not.
pub proof fn law_known_message_is_settled(
    client: &RamfluxClient,
    messages: &Vec<DirectMessageRecord>,
    message_id: &str,
    counter_seen: bool,
    r: Result<Option<AccountDbRequest>, SdkError>,
)
    requires
        client.active_account_db is Some,
        call_ensures(
            RamfluxClient::settle_known_group_message,
            (client, messages, message_id, counter_seen),
            r,
        ),
    ensures
        r is Ok,
        r matches Ok(done) ==> (done is Some <==> counter_seen || exists|i: int|
            0 <= i < messages@.len() && (#[trigger] messages@[i]).message_id@ == message_id@),
        r matches Ok(Some(q)) ==> (q matches AccountDbRequest::RemoveGroupPendingUndecrypted {
            message_id: m,
        } && m@ == message_id@),
{
}

/// A message that was opened is listed in its conversation as it came, is no longer waited for, and
/// its plaintext is handed out.
pub proof fn law_opened_message_is_listed(
    client: &RamfluxClient,
    conversation_id: &str,
    message_id: &str,
    sender_id: &str,
    encrypted_body: &[u8],
    plaintext: Vec<u8>,
    r: Result<GroupMessageEnd, SdkError>,
)
    requires
        client.active_account_db is Some,
        call_ensures(
            RamfluxClient::finish_group_message,
            (client, conversation_id, message_id, sender_id, encrypted_body, Ok(plaintext)),
            r,
        ),
    ensures
        r matches Ok(GroupMessageEnd::Accept { list, settle, plaintext: out }) && {
            &&& list matches AccountDbRequest::SendDirectMessage {
                conversation_id: c,
                message_id: m,
                sender_id: s,
                encrypted_body: b,
            } && c@ == conversation_id@ && m@ == message_id@ && s@ == sender_id@ && b@
                == encrypted_body@
            &&& settle matches AccountDbRequest::RemoveGroupPendingUndecrypted { message_id: m }
                && m@ == message_id@
            &&& out@ == plaintext@
        },
{
}

/// A message that could not be opened waits if what is shown of the error says, anywhere in it, that
/// the key of the sender is missing; any other error is told as it is.
pub proof fn law_message_without_its_key_waits(
    client: &RamfluxClient,
    conversation_id: &str,
    message_id: &str,
    sender_id: &str,
    encrypted_body: &[u8],
    error: SdkError,
    shown: String,
    r: Result<GroupMessageEnd, SdkError>,
)
    requires
        client.active_account_db is Some,
        call_ensures(SdkError::message, (&error,), shown),
        call_ensures(
            RamfluxClient::finish_group_message,
            (client, conversation_id, message_id, sender_id, encrypted_body, Err(error)),
            r,
        ),
    ensures
        r matches Ok(end) ==> end is KeyMissing,
        r is Ok <==> exists|k: int|
            0 <= k && k + "missing group sender key"@.len() <= shown@.len()
                && #[trigger] shown@.subrange(k, k + "missing group sender key"@.len())
                == "missing group sender key"@,
        r is Err ==> r == Err::<GroupMessageEnd, SdkError>(error),
{
    let words = "missing group sender key"@;
    if r is Ok {
        let k = choose|k: int| stands_at(shown@, words, k);
        assert(shown@.subrange(k, k + words.len()) == words);
    }
    if exists|k: int|
        0 <= k && k + words.len() <= shown@.len() && #[trigger] shown@.subrange(k, k + words.len())
            == words {
        let k = choose|k: int|
            0 <= k && k + words.len() <= shown@.len() && #[trigger] shown@.subrange(
                k,
                k + words.len(),
            ) == words;
        assert(stands_at(shown@, words, k));
    }
}

/// A message of a name is found if it is there, the first of that name.
pub proof fn law_message_is_found_by_name(
    client: &RamfluxClient,
    messages: Vec<DirectMessageRecord>,
    message_id: &str,
    r: Result<DirectMessageRecord, SdkError>,
    found: Result<DirectMessageRecord, SdkError>,
)
    requires
        client.active_account_db is Some,
        call_ensures(RamfluxClient::decrypt_group_message, (client, messages, message_id), r),
        call_ensures(find_message, (messages, message_id), found),
    ensures
        r is Ok <==> exists|i: int|
            0 <= i < messages@.len() && (#[trigger] messages@[i]).message_id@ == message_id@,
        found is Ok <==> r is Ok,
        r matches Ok(m) ==> m.message_id@ == message_id@ && messages@.contains(m),
        found matches Ok(m) ==> m.message_id@ == message_id@ && messages@.contains(m),
        r is Err ==> (r matches Err(SdkError::Storage(StorageError::MessageNotFound(m))) && m@
            == message_id@),
{
}

/// A delivery to a group that held a message gives that message, and one that held a key gives nothing
/// to show.
pub proof fn law_delivery_gives_its_message(
    plaintext: Vec<u8>,
    distribution: SdkGroupSenderKeyDistribution,
    shown: Vec<u8>,
    nothing: Vec<u8>,
)
    requires
        call_ensures(
            append_group_gateway_delivery,
            (GroupGatewayDeliveryResult::Message(plaintext),),
            shown,
        ),
        call_ensures(
            append_group_gateway_delivery,
            (GroupGatewayDeliveryResult::SenderKeyDistribution(distribution),),
            nothing,
        ),
    ensures
        shown@ == plaintext@,
        nothing@.len() == 0,
{
}

/// The names of a group's sessions, routes and conversations, and what its messages are bound to.
pub proof fn law_group_names(
    group_id: &str,
    sender_id: &str,
    epoch: u64,
    role: &str,
    recipient: &str,
    direction: &str,
    counter: u64,
    session: String,
    device: String,
    conversation: String,
    route: String,
    bound: Vec<u8>,
    suffix: String,
)
    requires
        call_ensures(group_sender_session_id, (group_id, sender_id, epoch), session),
        call_ensures(group_sender_device_text, (group_id, sender_id, role), device),
        call_ensures(
            group_sender_key_distribution_conversation_id,
            (group_id, sender_id, recipient),
            conversation,
        ),
        call_ensures(group_member_route_event_id, (group_id, sender_id), route),
        call_ensures(group_associated_data, (group_id, sender_id, epoch), bound),
        call_ensures(counter_suffix, (direction, counter), suffix),
    ensures
        session@ == "group:"@ + group_id@ + ":sender:"@ + sender_id@ + ":epoch:"@ + decimal(
            epoch as nat,
        ),
        device@ == group_id@ + "|"@ + sender_id@ + "|"@ + role@,
        conversation@ == "group.sender_key.distribution:"@ + group_id@ + ":"@ + sender_id@ + ":"@
            + recipient@,
        route@ == "group.member.route:"@ + group_id@ + ":"@ + sender_id@,
        bound@ == vstd::utf8::encode_utf8(
            "ramflux.group.sender_key.v1|"@ + group_id@ + "|"@ + sender_id@ + "|"@ + decimal(
                epoch as nat,
            ),
        ),
        suffix@ == direction@ + ":"@ + decimal(counter as nat),
{
}

} // verus!

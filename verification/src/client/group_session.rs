//! Group messages: the senders' keys, and what becomes of a message whose key is not there yet.
use crate::client::dm::{is_listed, message_is_listed};
use crate::client::state::RamfluxClient;
use crate::error::{is_local_bus, local_bus, SdkError, StorageError};
use crate::gateway::protocol::GatewayInboxEntry;
use crate::group::{
    group_sender_key_checkpoint_name, is_missing_group_sender_key_error, sender_key_checkpoint,
    GroupGatewayDeliveryResult, GroupState, SdkGroupEncryptedEnvelope, SdkGroupPendingPlaintext,
    SdkGroupSenderKeyDistribution, SdkGroupSenderKeyDistributionEnvelope, SdkGroupSenderKeyState,
};
use crate::object::DmCiphertext;
use crate::records::{
    AccountDbRequest, DirectMessageRecord, EventWrite, GroupPendingUndecryptedRecord,
    GroupSenderKeyCounterRecord,
};
use crate::text::{decimal, decimal_u64, occurs_in, stands_at, str_eq};
use vstd::prelude::*;

verus! {

// ---- keys ----

/// The complaint that a sender's key is not there.
pub open spec fn missing_key_text(
    group_id: Seq<char>,
    sender_id: Seq<char>,
    epoch: nat,
    direction: Seq<char>,
) -> Seq<char> {
    "missing group sender key for "@ + group_id + "/"@ + sender_id + "/epoch "@ + decimal(epoch)
        + "/"@ + direction
}

/// Whether `r` is what a sender's key is read from.
pub open spec fn is_key_answer(
    r: Result<Vec<u8>, SdkError>,
    group_id: Seq<char>,
    sender_id: Seq<char>,
    epoch: nat,
    direction: Seq<char>,
    checkpoint: Option<String>,
    body: Option<Vec<u8>>,
) -> bool {
    match (checkpoint, body) {
        (None, _) => is_local_bus(r, missing_key_text(group_id, sender_id, epoch, direction)),
        (Some(event_id), None) => is_local_bus(r, "missing group sender key event "@ + event_id@),
        (Some(_), Some(bytes)) => r == Ok::<Vec<u8>, SdkError>(bytes),
    }
}

/// What a sender's key is read from: the event that its checkpoint names.
pub fn load_group_sender_key_state(
    group_id: &str,
    sender_id: &str,
    group_key_epoch: u64,
    direction: &str,
    checkpoint: Option<String>,
    body: Option<Vec<u8>>,
) -> (r: Result<Vec<u8>, SdkError>)
    ensures
        is_key_answer(
            r,
            group_id@,
            sender_id@,
            group_key_epoch as nat,
            direction@,
            checkpoint,
            body,
        ),
{
    match (checkpoint, body) {
        (None, _) => {
            let number = decimal_u64(group_key_epoch);
            let text = "missing group sender key for ".to_owned().concat(group_id).concat(
                "/",
            ).concat(sender_id).concat("/epoch ").concat(number.as_str()).concat("/").concat(
                direction,
            );
            Err(local_bus(text.as_str()))
        },
        (Some(event_id), None) => {
            let text = "missing group sender key event ".to_owned().concat(event_id.as_str());
            Err(local_bus(text.as_str()))
        },
        (Some(_), Some(bytes)) => Ok(bytes),
    }
}

/// A key that is not there is always recognized as such, so that its message is set aside and not
/// lost.
pub proof fn law_missing_key_is_recognized(
    error: SdkError,
    group_id: Seq<char>,
    sender_id: Seq<char>,
    epoch: nat,
    direction: Seq<char>,
    checkpoint: Option<String>,
    body: Option<Vec<u8>>,
)
    requires
        is_key_answer(
            Err::<Vec<u8>, SdkError>(error),
            group_id,
            sender_id,
            epoch,
            direction,
            checkpoint,
            body,
        ),
    ensures
        occurs_in(error.text(), "missing group sender key"@),
{
    let words = "missing group sender key"@;
    reveal_strlit("local bus error: ");
    reveal_strlit("missing group sender key");
    reveal_strlit("missing group sender key for ");
    reveal_strlit("missing group sender key event ");
    assert("local bus error: "@.len() == 17);
    assert(words.len() == 24);
    assert("missing group sender key for "@.len() == 29);
    assert("missing group sender key event "@.len() == 31);
    let t = error.text();
    assert(t =~= "local bus error: "@ + error->LocalBus_0@);
    assert(t.subrange(17, 41) =~= words);
    assert(stands_at(t, words, 17));
}

/// The name of the event that holds a sender's key as it stood at some point.
pub open spec fn sender_key_event(
    direction: Seq<char>,
    group_id: Seq<char>,
    sender_id: Seq<char>,
    epoch: nat,
    suffix: Seq<char>,
) -> Seq<char> {
    "group.sender_key:"@ + direction + ":"@ + group_id + ":"@ + sender_id + ":"@ + decimal(epoch)
        + ":"@ + suffix
}

/// Whether `w` keeps a sender's key.
pub open spec fn keeps_sender_key(
    w: EventWrite,
    group_id: Seq<char>,
    sender_id: Seq<char>,
    epoch: nat,
    direction: Seq<char>,
    suffix: Seq<char>,
    encoded: Seq<u8>,
) -> bool {
    &&& w.event matches AccountDbRequest::AppendEvent { event_id, event_type, body } && event_id@
        == sender_key_event(direction, group_id, sender_id, epoch, suffix) && event_type@
        == "group.sender_key.state"@ && body@ == encoded
    &&& w.checkpoint matches AccountDbRequest::SetProjectionCheckpoint {
        projection_name,
        last_event_id,
    } && projection_name@ == sender_key_checkpoint(group_id, sender_id, epoch, direction)
        && last_event_id@ == sender_key_event(direction, group_id, sender_id, epoch, suffix)
}

/// The words behind which a key's event is named by its counter.
pub fn counter_suffix(direction: &str, counter: u64) -> (r: String)
    ensures
        r@ == direction@ + ":"@ + decimal(counter as nat),
{
    let number = decimal_u64(counter);
    direction.to_owned().concat(":").concat(number.as_str())
}

/// Checks that a member's key comes in the known form.
pub fn check_distribution(distribution: &SdkGroupSenderKeyDistribution) -> (r: Result<(), SdkError>)
    ensures
        if distribution.schema@ == "ramflux.sdk.group_sender_key.distribution.v1"@ {
            r is Ok
        } else {
            is_local_bus(
                r,
                "unsupported group sender key distribution schema: "@ + distribution.schema@,
            )
        },
{
    if !str_eq(
        distribution.schema.as_str(),
        "ramflux.sdk.group_sender_key.distribution.v1",
    ) {
        let text = "unsupported group sender key distribution schema: ".to_owned().concat(
            distribution.schema.as_str(),
        );
        return Err(local_bus(text.as_str()));
    }
    Ok(())
}

/// Checks that the wrapping of a member's key comes in the known form.
pub fn check_distribution_envelope(wrapper: &SdkGroupSenderKeyDistributionEnvelope) -> (r: Result<
    (),
    SdkError,
>)
    ensures
        if wrapper.schema@ == "ramflux.sdk.group_sender_key.distribution_envelope.v1"@ {
            r is Ok
        } else {
            is_local_bus(
                r,
                "unsupported group sender-key distribution wrapper schema: "@ + wrapper.schema@,
            )
        },
{
    if !str_eq(
        wrapper.schema.as_str(),
        "ramflux.sdk.group_sender_key.distribution_envelope.v1",
    ) {
        let text = "unsupported group sender-key distribution wrapper schema: ".to_owned().concat(
            wrapper.schema.as_str(),
        );
        return Err(local_bus(text.as_str()));
    }
    Ok(())
}

/// The key of a member as it is kept, once its session has been made.
pub fn imported_sender_key_state(
    distribution: &SdkGroupSenderKeyDistribution,
    session_snapshot: Vec<u8>,
) -> (r: SdkGroupSenderKeyState)
    ensures
        r.group_id@ == distribution.group_id@,
        r.sender_id@ == distribution.sender_id@,
        r.group_key_epoch == distribution.group_key_epoch,
        r.session_snapshot == session_snapshot,
{
    SdkGroupSenderKeyState {
        group_id: distribution.group_id.clone(),
        sender_id: distribution.sender_id.clone(),
        group_key_epoch: distribution.group_key_epoch,
        session_snapshot,
    }
}

// ---- messages ----

/// A message under this member's key.
pub fn group_encrypted_envelope(
    group_id: &str,
    sender_id: &str,
    group_key_epoch: u64,
    ciphertext: DmCiphertext,
) -> (r: SdkGroupEncryptedEnvelope)
    ensures
        r.schema@ == "ramflux.sdk.group_sender_key.message.v1"@,
        r.version == 1,
        r.group_id@ == group_id@,
        r.sender_id@ == sender_id@,
        r.group_key_epoch == group_key_epoch,
        r.ciphertext == ciphertext,
{
    SdkGroupEncryptedEnvelope {
        schema: "ramflux.sdk.group_sender_key.message.v1".to_owned(),
        version: 1,
        group_id: group_id.to_owned(),
        sender_id: sender_id.to_owned(),
        group_key_epoch,
        ciphertext,
    }
}

/// Checks that a message to a group comes in the known form.
pub fn check_group_envelope(envelope: &SdkGroupEncryptedEnvelope) -> (r: Result<(), SdkError>)
    ensures
        if envelope.schema@ == "ramflux.sdk.group_sender_key.message.v1"@ {
            r is Ok
        } else {
            is_local_bus(r, "unsupported group message schema: "@ + envelope.schema@)
        },
{
    if !str_eq(envelope.schema.as_str(), "ramflux.sdk.group_sender_key.message.v1") {
        let text = "unsupported group message schema: ".to_owned().concat(
            envelope.schema.as_str(),
        );
        return Err(local_bus(text.as_str()));
    }
    Ok(())
}

/// The complaint that a counter has come before.
pub open spec fn replay_text(envelope: SdkGroupEncryptedEnvelope) -> Seq<char> {
    "replayed group sender-key counter for "@ + envelope.group_id@ + "/"@ + envelope.sender_id@
        + "/epoch "@ + decimal(envelope.group_key_epoch as nat) + "/counter "@ + decimal(
        envelope.ciphertext.counter as nat,
    )
}

/// Hands a decrypted message out only if its counter had not come before. `recorded` says whether
/// the counter was recorded anew.
pub fn decrypted_once(
    envelope: &SdkGroupEncryptedEnvelope,
    plaintext: Vec<u8>,
    recorded: bool,
) -> (r: Result<Vec<u8>, SdkError>)
    ensures
        if recorded {
            r == Ok::<Vec<u8>, SdkError>(plaintext)
        } else {
            is_local_bus(r, replay_text(*envelope))
        },
{
    if recorded {
        return Ok(plaintext);
    }
    let epoch = decimal_u64(envelope.group_key_epoch);
    let counter = decimal_u64(envelope.ciphertext.counter);
    let text = "replayed group sender-key counter for ".to_owned().concat(
        envelope.group_id.as_str(),
    ).concat("/").concat(envelope.sender_id.as_str()).concat("/epoch ").concat(
        epoch.as_str(),
    ).concat("/counter ").concat(counter.as_str());
    Err(local_bus(text.as_str()))
}

/// Whether `r` is the first of some messages with a name, or the report that there is none.
pub open spec fn is_found(
    r: Result<DirectMessageRecord, SdkError>,
    messages: Seq<DirectMessageRecord>,
    message_id: Seq<char>,
) -> bool {
    match r {
        Ok(message) => message.message_id@ == message_id && exists|i: int|
            #![trigger messages[i]]
            0 <= i < messages.len() && messages[i] == message && forall|j: int|
                0 <= j < i ==> (#[trigger] messages[j]).message_id@ != message_id,
        Err(error) => {
            &&& !is_listed(messages, message_id)
            &&& error matches SdkError::Storage(StorageError::MessageNotFound(m)) && m@
                == message_id
        },
    }
}

/// The message that a conversation has under a name.
pub fn find_message(messages: Vec<DirectMessageRecord>, message_id: &str) -> (r: Result<
    DirectMessageRecord,
    SdkError,
>)
    ensures
        is_found(r, messages@, message_id@),
{
    let ghost all = messages@;
    let ghost mut n: int = 0;
    let mut rest = messages;
    while rest.len() > 0
        invariant
            all == messages@,
            0 <= n <= all.len(),
            rest@ == all.skip(n),
            forall|j: int| 0 <= j < n ==> (#[trigger] all[j]).message_id@ != message_id@,
        decreases rest.len(),
    {
        let message = rest.remove(0);
        assert(message == all[n]);
        if str_eq(message.message_id.as_str(), message_id) {
            assert(0 <= n < all.len() && all[n] == message);
            return Ok(message);
        }
        proof {
            n = n + 1;
        }
        assert(rest@ =~= all.skip(n));
    }
    Err(SdkError::Storage(StorageError::MessageNotFound(message_id.to_owned())))
}

/// What becomes of a group message once it has been decrypted, or has not.
#[derive(Clone, Debug, PartialEq, Eq)]
pub enum GroupMessageEnd {
    /// It is listed, is no longer set aside, and is handed out.
    Accept { list: AccountDbRequest, settle: AccountDbRequest, plaintext: Vec<u8> },
    /// Its key is not there yet.
    KeyMissing,
}

/// Whether `end` lists a message and hands it out.
pub open spec fn accepts(
    end: GroupMessageEnd,
    conversation_id: Seq<char>,
    message_id: Seq<char>,
    sender_id: Seq<char>,
    encrypted_body: Seq<u8>,
    plain: Vec<u8>,
) -> bool {
    end matches GroupMessageEnd::Accept { list, settle, plaintext } && {
        &&& list matches AccountDbRequest::SendDirectMessage {
            conversation_id: c,
            message_id: m,
            sender_id: s,
            encrypted_body: b,
        } && c@ == conversation_id && m@ == message_id && s@ == sender_id && b@ == encrypted_body
        &&& settle matches AccountDbRequest::RemoveGroupPendingUndecrypted { message_id: m } && m@
            == message_id
        &&& plaintext == plain
    }
}

/// What is handed out of an envelope to a group: the plaintext of a message, and nothing of a key.
pub fn append_group_gateway_delivery(result: GroupGatewayDeliveryResult) -> (r: Vec<u8>)
    ensures
        match result {
            GroupGatewayDeliveryResult::Message(plaintext) => r == plaintext,
            GroupGatewayDeliveryResult::SenderKeyDistribution(_) => r@.len() == 0,
        },
{
    match result {
        GroupGatewayDeliveryResult::Message(plaintext) => plaintext,
        GroupGatewayDeliveryResult::SenderKeyDistribution(_) => Vec::new(),
    }
}

/// The record of a message whose key is not there yet. `encoded` is its entry of the inbox.
pub fn pending_group_message(
    conversation_id: &str,
    message_id: &str,
    entry: &GatewayInboxEntry,
    envelope: &SdkGroupEncryptedEnvelope,
    encoded: Vec<u8>,
    now: i64,
) -> (r: AccountDbRequest)
    ensures
        r matches AccountDbRequest::UpsertGroupPendingUndecrypted(record) && {
            &&& record.group_id@ == envelope.group_id@
            &&& record.conversation_id@ == conversation_id@
            &&& record.group_key_epoch == envelope.group_key_epoch
            &&& record.message_id@ == message_id@
            &&& record.sender_id@ == envelope.sender_id@
            &&& record.inbox_seq == entry.inbox_seq
            &&& record.envelope_json == encoded
            &&& record.created_at == now
        },
{
    AccountDbRequest::UpsertGroupPendingUndecrypted(
        GroupPendingUndecryptedRecord {
            group_id: envelope.group_id.clone(),
            conversation_id: conversation_id.to_owned(),
            group_key_epoch: envelope.group_key_epoch,
            message_id: message_id.to_owned(),
            sender_id: envelope.sender_id.clone(),
            inbox_seq: entry.inbox_seq,
            envelope_json: encoded,
            created_at: now,
        },
    )
}

/// An encrypted message to a group, and the key that is kept before the message is handed out.
#[derive(Clone, Debug, PartialEq, Eq)]
pub struct SealedGroupMessage {
    pub key: EventWrite,
    pub envelope: SdkGroupEncryptedEnvelope,
}

/// What is kept of a member's key, and what is then asked for: the messages that have waited for it.
#[derive(Clone, Debug, PartialEq, Eq)]
pub struct SenderKeyImport {
    pub key: EventWrite,
    pub pending: Option<AccountDbRequest>,
}

/// Whether `r` is the answer to a key that another member has handed over.
pub open spec fn is_key_import(
    r: Result<SenderKeyImport, SdkError>,
    unlocked: bool,
    distribution: SdkGroupSenderKeyDistribution,
    encoded: Seq<u8>,
    retry_pending: bool,
) -> bool {
    if distribution.schema@ != "ramflux.sdk.group_sender_key.distribution.v1"@ {
        is_local_bus(
            r,
            "unsupported group sender key distribution schema: "@ + distribution.schema@,
        )
    } else if !unlocked {
        r matches Err(SdkError::AccountDbNotUnlocked)
    } else {
        r matches Ok(import) && {
            &&& keeps_sender_key(
                import.key,
                distribution.group_id@,
                distribution.sender_id@,
                distribution.group_key_epoch as nat,
                "recv"@,
                "import"@,
                encoded,
            )
            &&& if retry_pending {
                import.pending matches Some(
                    AccountDbRequest::GroupPendingUndecrypted { group_id, group_key_epoch },
                ) && group_id@ == distribution.group_id@ && group_key_epoch
                    == distribution.group_key_epoch
            } else {
                import.pending is None
            }
        }
    }
}

/// The messages that have waited for a key, which are tried again one by one.
pub struct PendingRetry {
    pub records: Vec<GroupPendingUndecryptedRecord>,
    pub next: usize,
    pub handed_out: Vec<SdkGroupPendingPlaintext>,
}

impl PendingRetry {
    /// Whether the next message is one of those that wait, or none is left.
    pub open spec fn well_formed(self) -> bool {
        self.next <= self.records@.len()
    }

    /// Starts with the first message that waits.
    pub fn start(records: Vec<GroupPendingUndecryptedRecord>) -> (r: PendingRetry)
        ensures
            r.well_formed(),
            r.records == records,
            r.next == 0,
            r.handed_out@.len() == 0,
    {
        PendingRetry { records, next: 0, handed_out: Vec::new() }
    }

    /// The message that is to be tried again next, if one is left.
    pub fn wanted(&self) -> (r: Option<&GroupPendingUndecryptedRecord>)
        requires
            self.well_formed(),
        ensures
            if self.next < self.records@.len() {
                r matches Some(record) && *record == self.records@[self.next as int]
            } else {
                r is None
            },
    {
        if self.next < self.records.len() {
            Some(&self.records[self.next])
        } else {
            None
        }
    }

    /// Takes what trying the wanted message came to: its plaintext, if it is handed out, nothing, if
    /// it is known already or still waits, or a failure, which ends the trying.
    pub fn tried(&mut self, outcome: Result<Option<Vec<u8>>, SdkError>) -> (r: Result<(), SdkError>)
        requires
            old(self).well_formed(),
            old(self).next < old(self).records@.len(),
        ensures
            final(self).well_formed(),
            final(self).records == old(self).records,
            match outcome {
                Err(error) => r == Err::<(), SdkError>(error) && *final(self) == *old(self),
                Ok(plaintext) => {
                    let record = old(self).records@[old(self).next as int];
                    &&& r is Ok
                    &&& final(self).next == old(self).next + 1
                    &&& match plaintext {
                        None => final(self).handed_out == old(self).handed_out,
                        Some(plaintext) => {
                            let out = final(self).handed_out@;
                            &&& out.len() == old(self).handed_out@.len() + 1
                            &&& out.drop_last() == old(self).handed_out@
                            &&& out.last().group_id == record.group_id
                            &&& out.last().conversation_id == record.conversation_id
                            &&& out.last().message_id == record.message_id
                            &&& out.last().plaintext == plaintext
                        },
                    }
                },
            },
    {
        assert(self.next < self.records.len());
        match outcome {
            Err(error) => Err(error),
            Ok(None) => {
                self.next = self.next + 1;
                Ok(())
            },
            Ok(Some(plaintext)) => {
                let ghost before = self.handed_out@;
                let record = &self.records[self.next];
                let handed_out = SdkGroupPendingPlaintext {
                    group_id: record.group_id.clone(),
                    conversation_id: record.conversation_id.clone(),
                    message_id: record.message_id.clone(),
                    plaintext,
                };
                self.handed_out.push(handed_out);
                self.next = self.next + 1;
                assert(self.handed_out@.drop_last() =~= before);
                Ok(())
            },
        }
    }
}

impl RamfluxClient {
    /// Keeps a sender's key. `encoded` is the key as it is stored.
    pub fn persist_group_sender_key_state(
        &self,
        state: &SdkGroupSenderKeyState,
        direction: &str,
        event_suffix: &str,
        encoded: &[u8],
    ) -> (r: Result<EventWrite, SdkError>)
        ensures
            if self.unlocked() {
                r matches Ok(w) && keeps_sender_key(
                    w,
                    state.group_id@,
                    state.sender_id@,
                    state.group_key_epoch as nat,
                    direction@,
                    event_suffix@,
                    encoded@,
                )
            } else {
                r matches Err(SdkError::AccountDbNotUnlocked)
            },
    {
        let number = decimal_u64(state.group_key_epoch);
        let event_id = "group.sender_key:".to_owned().concat(direction).concat(":").concat(
            state.group_id.as_str(),
        ).concat(":").concat(state.sender_id.as_str()).concat(":").concat(number.as_str()).concat(
            ":",
        ).concat(event_suffix);
        let event = match self.append_event(
            event_id.as_str(),
            "group.sender_key.state",
            encoded,
        ) {
            Ok(request) => request,
            Err(error) => {
                return Err(error);
            },
        };
        let name = group_sender_key_checkpoint_name(
            state.group_id.as_str(),
            state.sender_id.as_str(),
            state.group_key_epoch,
            direction,
        );
        match self.set_projection_checkpoint(name.as_str(), event_id.as_str()) {
            Ok(checkpoint) => Ok(EventWrite { event, checkpoint }),
            Err(error) => Err(error),
        }
    }

    /// Keeps this member's new key, unless one is there. `loaded` is what was found of it, and
    /// `encoded` the new key as it is stored.
    pub fn ensure_own_group_sender_key(
        &self,
        loaded: &Result<Vec<u8>, SdkError>,
        state: &SdkGroupSenderKeyState,
        encoded: &[u8],
    ) -> (r: Result<Option<EventWrite>, SdkError>)
        ensures
            if loaded is Ok {
                r matches Ok(None)
            } else if !self.unlocked() {
                r matches Err(SdkError::AccountDbNotUnlocked)
            } else {
                r matches Ok(Some(w)) && keeps_sender_key(
                    w,
                    state.group_id@,
                    state.sender_id@,
                    state.group_key_epoch as nat,
                    "send"@,
                    "initial"@,
                    encoded@,
                )
            },
    {
        match loaded {
            Ok(_) => Ok(None),
            Err(_) => match self.persist_group_sender_key_state(state, "send", "initial", encoded) {
                Ok(write) => Ok(Some(write)),
                Err(error) => Err(error),
            },
        }
    }

    /// Checks that a sender is a member of a group.
    pub fn check_group_sender(&self, group: &GroupState, sender_id: &str) -> (r: Result<(), SdkError>)
        ensures
            if !self.unlocked() {
                r matches Err(SdkError::AccountDbNotUnlocked)
            } else if !group.is_member(sender_id@) {
                r matches Err(SdkError::Storage(StorageError::GroupPermissionDenied))
            } else {
                r is Ok
            },
    {
        match self.account_db() {
            Ok(_) => {},
            Err(error) => {
                return Err(error);
            },
        }
        if !group.has_member(sender_id) {
            return Err(SdkError::Storage(StorageError::GroupPermissionDenied));
        }
        Ok(())
    }

    /// A message to a group, under this member's key of the group's epoch, once it is encrypted, and
    /// what is to be kept before the message is handed out: the key as it stands after encrypting.
    /// `encoded` is that key as it is stored.
    pub fn encrypt_group_message(
        &self,
        group: &GroupState,
        group_id: &str,
        sender_id: &str,
        ciphertext: DmCiphertext,
        snapshot: Vec<u8>,
        encoded: &[u8],
    ) -> (r: Result<SealedGroupMessage, SdkError>)
        ensures
            if !self.unlocked() {
                r matches Err(SdkError::AccountDbNotUnlocked)
            } else if !group.is_member(sender_id@) {
                r matches Err(SdkError::Storage(StorageError::GroupPermissionDenied))
            } else {
                r matches Ok(m) && {
                    &&& keeps_sender_key(
                        m.key,
                        group_id@,
                        sender_id@,
                        group.group_epoch as nat,
                        "send"@,
                        "send:"@ + decimal(ciphertext.counter as nat),
                        encoded@,
                    )
                    &&& m.envelope.schema@ == "ramflux.sdk.group_sender_key.message.v1"@
                    &&& m.envelope.version == 1
                    &&& m.envelope.group_id@ == group_id@
                    &&& m.envelope.sender_id@ == sender_id@
                    &&& m.envelope.group_key_epoch == group.group_epoch
                    &&& m.envelope.ciphertext == ciphertext
                }
            },
    {
        match self.check_group_sender(group, sender_id) {
            Ok(_) => {},
            Err(error) => {
                return Err(error);
            },
        }
        let state = SdkGroupSenderKeyState {
            group_id: group_id.to_owned(),
            sender_id: sender_id.to_owned(),
            group_key_epoch: group.group_epoch,
            session_snapshot: snapshot,
        };
        let suffix = counter_suffix("send", ciphertext.counter);
        let key = match self.persist_group_sender_key_state(
            &state,
            "send",
            suffix.as_str(),
            encoded,
        ) {
            Ok(key) => key,
            Err(error) => {
                return Err(error);
            },
        };
        proof {
            reveal_strlit("send");
            reveal_strlit(":");
            reveal_strlit("send:");
            assert("send"@ + ":"@ =~= "send:"@);
        }
        Ok(
            SealedGroupMessage {
                key,
                envelope: group_encrypted_envelope(
                    group_id,
                    sender_id,
                    group.group_epoch,
                    ciphertext,
                ),
            },
        )
    }

    /// The listed message that is to be decrypted again.
    pub fn decrypt_group_message(&self, messages: Vec<DirectMessageRecord>, message_id: &str) -> (r:
        Result<DirectMessageRecord, SdkError>)
        ensures
            if !self.unlocked() {
                r matches Err(SdkError::AccountDbNotUnlocked)
            } else {
                is_found(r, messages@, message_id@)
            },
    {
        match self.account_db() {
            Ok(_) => find_message(messages, message_id),
            Err(error) => Err(error),
        }
    }

    /// This member's key of the group's epoch, as it is handed to another member.
    pub fn export_group_sender_key_distribution(
        &self,
        group: &GroupState,
        group_id: &str,
        sender_id: &str,
        sender_key_seed: [u8; 32],
    ) -> (r: Result<SdkGroupSenderKeyDistribution, SdkError>)
        ensures
            if !self.unlocked() {
                r matches Err(SdkError::AccountDbNotUnlocked)
            } else if !group.is_member(sender_id@) {
                r matches Err(SdkError::Storage(StorageError::GroupPermissionDenied))
            } else {
                r matches Ok(d) && {
                    &&& d.schema@ == "ramflux.sdk.group_sender_key.distribution.v1"@
                    &&& d.version == 1
                    &&& d.group_id@ == group_id@
                    &&& d.sender_id@ == sender_id@
                    &&& d.group_key_epoch == group.group_epoch
                    &&& d.sender_key_seed == sender_key_seed
                    &&& d.sender_device_signing_public_key is None
                }
            },
    {
        match self.check_group_sender(group, sender_id) {
            Ok(_) => Ok(
                SdkGroupSenderKeyDistribution {
                    schema: "ramflux.sdk.group_sender_key.distribution.v1".to_owned(),
                    version: 1,
                    group_id: group_id.to_owned(),
                    sender_id: sender_id.to_owned(),
                    group_key_epoch: group.group_epoch,
                    sender_key_seed,
                    sender_device_signing_public_key: None,
                },
            ),
            Err(error) => Err(error),
        }
    }

    /// Keeps the key that another member has handed over, and asks for the messages that have waited
    /// for it, where they are to be tried again. `session_snapshot` is the session that was made with
    /// the key, and `encoded` the key as it is stored.
    pub fn import_group_sender_key_distribution_inner(
        &self,
        distribution: &SdkGroupSenderKeyDistribution,
        session_snapshot: Vec<u8>,
        encoded: &[u8],
        retry_pending: bool,
    ) -> (r: Result<SenderKeyImport, SdkError>)
        ensures
            is_key_import(r, self.unlocked(), *distribution, encoded@, retry_pending),
    {
        let key = match check_distribution(distribution) {
            Ok(_) => {
                let state = imported_sender_key_state(distribution, session_snapshot);
                match self.persist_group_sender_key_state(&state, "recv", "import", encoded) {
                    Ok(key) => key,
                    Err(error) => {
                        return Err(error);
                    },
                }
            },
            Err(error) => {
                return Err(error);
            },
        };
        if !retry_pending {
            return Ok(SenderKeyImport { key, pending: None });
        }
        match self.pending_group_messages(
            distribution.group_id.as_str(),
            distribution.group_key_epoch,
        ) {
            Ok(request) => Ok(SenderKeyImport { key, pending: Some(request) }),
            Err(error) => Err(error),
        }
    }

    /// Keeps the key that another member has handed over, and asks for the messages of its epoch that
    /// have waited for it: each is then tried again.
    pub fn import_group_sender_key_distribution(
        &self,
        distribution: &SdkGroupSenderKeyDistribution,
        session_snapshot: Vec<u8>,
        encoded: &[u8],
    ) -> (r: Result<SenderKeyImport, SdkError>)
        ensures
            is_key_import(r, self.unlocked(), *distribution, encoded@, true),
    {
        self.import_group_sender_key_distribution_inner(
            distribution,
            session_snapshot,
            encoded,
            true,
        )
    }

    /// Asks for the messages of an epoch that wait for their key.
    pub fn pending_group_messages(&self, group_id: &str, group_key_epoch: u64) -> (r: Result<
        AccountDbRequest,
        SdkError,
    >)
        ensures
            if self.unlocked() {
                r matches Ok(
                    AccountDbRequest::GroupPendingUndecrypted {
                        group_id: g,
                        group_key_epoch: e,
                    },
                ) && g@ == group_id@ && e == group_key_epoch
            } else {
                r matches Err(SdkError::AccountDbNotUnlocked)
            },
    {
        match self.account_db() {
            Ok(_) => Ok(
                AccountDbRequest::GroupPendingUndecrypted {
                    group_id: group_id.to_owned(),
                    group_key_epoch,
                },
            ),
            Err(error) => Err(error),
        }
    }

    /// Asks whether a message's counter has come before.
    pub fn group_sender_key_counter_seen(&self, envelope: &SdkGroupEncryptedEnvelope) -> (r: Result<
        AccountDbRequest,
        SdkError,
    >)
        ensures
            if self.unlocked() {
                r matches Ok(
                    AccountDbRequest::GroupSenderKeyCounterSeen {
                        group_id,
                        group_key_epoch,
                        sender_id,
                        counter,
                    },
                ) && group_id@ == envelope.group_id@ && group_key_epoch == envelope.group_key_epoch
                    && sender_id@ == envelope.sender_id@ && counter == envelope.ciphertext.counter
            } else {
                r matches Err(SdkError::AccountDbNotUnlocked)
            },
    {
        match self.account_db() {
            Ok(_) => Ok(
                AccountDbRequest::GroupSenderKeyCounterSeen {
                    group_id: envelope.group_id.clone(),
                    group_key_epoch: envelope.group_key_epoch,
                    sender_id: envelope.sender_id.clone(),
                    counter: envelope.ciphertext.counter,
                },
            ),
            Err(error) => Err(error),
        }
    }

    /// Records the counter of a message.
    pub fn record_group_sender_key_counter(
        &self,
        envelope: &SdkGroupEncryptedEnvelope,
        message_id: &str,
        now: i64,
    ) -> (r: Result<AccountDbRequest, SdkError>)
        ensures
            if self.unlocked() {
                r matches Ok(AccountDbRequest::RecordGroupSenderKeyCounter(record)) && {
                    &&& record.group_id@ == envelope.group_id@
                    &&& record.group_key_epoch == envelope.group_key_epoch
                    &&& record.sender_id@ == envelope.sender_id@
                    &&& record.counter == envelope.ciphertext.counter
                    &&& record.message_id@ == message_id@
                    &&& record.seen_at == now
                }
            } else {
                r matches Err(SdkError::AccountDbNotUnlocked)
            },
    {
        match self.account_db() {
            Ok(_) => Ok(
                AccountDbRequest::RecordGroupSenderKeyCounter(
                    GroupSenderKeyCounterRecord {
                        group_id: envelope.group_id.clone(),
                        group_key_epoch: envelope.group_key_epoch,
                        sender_id: envelope.sender_id.clone(),
                        counter: envelope.ciphertext.counter,
                        message_id: message_id.to_owned(),
                        seen_at: now,
                    },
                ),
            ),
            Err(error) => Err(error),
        }
    }

    /// What is done with a group message before it is decrypted: one that is listed, or whose counter
    /// has come before, is only no longer set aside.
    pub fn settle_known_group_message(
        &self,
        messages: &Vec<DirectMessageRecord>,
        message_id: &str,
        counter_seen: bool,
    ) -> (r: Result<Option<AccountDbRequest>, SdkError>)
        ensures
            if !self.unlocked() {
                r matches Err(SdkError::AccountDbNotUnlocked)
            } else if is_listed(messages@, message_id@) || counter_seen {
                r matches Ok(
                    Some(AccountDbRequest::RemoveGroupPendingUndecrypted { message_id: m }),
                ) && m@ == message_id@
            } else {
                r matches Ok(None)
            },
    {
        match self.account_db() {
            Ok(_) => {},
            Err(error) => {
                return Err(error);
            },
        }
        if message_is_listed(messages, message_id) || counter_seen {
            return Ok(
                Some(
                    AccountDbRequest::RemoveGroupPendingUndecrypted {
                        message_id: message_id.to_owned(),
                    },
                ),
            );
        }
        Ok(None)
    }

    /// What is done with a group message once decrypting it has come to something: it is listed, or
    /// it waits for its key, or it fails.
    pub fn finish_group_message(
        &self,
        conversation_id: &str,
        message_id: &str,
        sender_id: &str,
        encrypted_body: &[u8],
        decrypted: Result<Vec<u8>, SdkError>,
    ) -> (r: Result<GroupMessageEnd, SdkError>)
        ensures
            match decrypted {
                Ok(plaintext) => if self.unlocked() {
                    r matches Ok(end) && accepts(
                        end,
                        conversation_id@,
                        message_id@,
                        sender_id@,
                        encrypted_body@,
                        plaintext,
                    )
                } else {
                    r matches Err(SdkError::AccountDbNotUnlocked)
                },
                Err(error) => if occurs_in(error.text(), "missing group sender key"@) {
                    if self.unlocked() {
                        r matches Ok(GroupMessageEnd::KeyMissing)
                    } else {
                        r matches Err(SdkError::AccountDbNotUnlocked)
                    }
                } else {
                    r == Err::<GroupMessageEnd, SdkError>(error)
                },
            },
    {
        match decrypted {
            Ok(plaintext) => match self.send_direct_message(
                conversation_id,
                message_id,
                sender_id,
                encrypted_body,
            ) {
                Ok(list) => Ok(
                    GroupMessageEnd::Accept {
                        list,
                        settle: AccountDbRequest::RemoveGroupPendingUndecrypted {
                            message_id: message_id.to_owned(),
                        },
                        plaintext,
                    },
                ),
                Err(error) => Err(error),
            },
            Err(error) => {
                if is_missing_group_sender_key_error(&error) {
                    match self.account_db() {
                        Ok(_) => Ok(GroupMessageEnd::KeyMissing),
                        Err(locked) => Err(locked),
                    }
                } else {
                    Err(error)
                }
            },
        }
    }
}

} // verus!

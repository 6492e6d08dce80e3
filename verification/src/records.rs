//! What the account database holds and is asked.
use crate::error::{SdkError, StorageError};
use vstd::prelude::*;

verus! {

/// A transfer as the account database holds it.
#[derive(Clone, Debug, PartialEq, Eq)]
pub struct ObjectTransferRecord {
    pub transfer_id: String,
    pub object_id: String,
    pub manifest_hash: String,
    pub direction: String,
    pub state: String,
    pub chunk_size: u64,
    pub total_bytes: u64,
    pub done_bytes: u64,
    pub total_chunks: u32,
    pub completed_chunks: Vec<u32>,
    pub next_chunk_index: Option<u32>,
    pub last_error: Option<String>,
    pub updated_at: i64,
}

/// A transfer as it is written to the account database.
#[derive(Clone, Debug, PartialEq, Eq)]
pub struct ObjectTransferWrite {
    pub transfer_id: String,
    pub object_id: String,
    pub direction: String,
    pub peer_device_id: String,
    pub manifest_hash: String,
    pub relay_endpoint: Option<String>,
    pub resume_token: Option<String>,
    pub missing_chunks: Vec<u32>,
    pub completed_chunks: Vec<u32>,
    pub state: String,
    pub last_error: Option<String>,
    pub chunk_size: u64,
    pub total_bytes: u64,
    pub done_bytes: u64,
    pub total_chunks: u32,
    pub next_chunk_index: Option<u32>,
    pub updated_at: i64,
    pub expires_at: Option<i64>,
}

/// What is kept of a message for the case that it is reported. Keys, hashes and bytes are base64url
/// text.
#[derive(Clone, Debug, PartialEq, Eq)]
pub struct FrankingReportMetadata {
    pub node_id: String,
    pub envelope_id: String,
    pub plaintext_base64: String,
    pub opening_key: String,
    pub commitment_key: String,
    pub sender_device_id_hash: String,
    pub msg_event_id: String,
    pub canonical_header_bytes: String,
    pub associated_data: String,
    pub ciphertext: String,
    pub header_hash: String,
    pub associated_data_hash: String,
    pub ciphertext_hash: String,
    pub franking_commitment: String,
    pub commitment: String,
    pub franking_tag: String,
    pub franking_timestamp: u64,
}

/// What is kept beside a message.
#[derive(Clone, Debug, PartialEq, Eq)]
pub struct MessageMetadata {
    pub franking_report: Option<FrankingReportMetadata>,
}

/// A message as the account database holds it.
#[derive(Clone, Debug, PartialEq, Eq)]
pub struct DirectMessageRecord {
    pub conversation_id: String,
    pub message_id: String,
    pub sender_id: String,
    pub encrypted_body: Vec<u8>,
    pub metadata: MessageMetadata,
    pub deleted: bool,
    pub created_at: i64,
}

/// A receipt as it is written to the account database.
#[derive(Clone, Debug, PartialEq, Eq)]
pub struct ReceiptEventWrite {
    pub receipt_id: String,
    pub conversation_id: String,
    pub message_id: String,
    pub receipt_type: String,
    pub actor_device_id: String,
    pub created_at: i64,
}

/// A group message whose key is not there yet.
#[derive(Clone, Debug, PartialEq, Eq)]
pub struct GroupPendingUndecryptedRecord {
    pub group_id: String,
    pub conversation_id: String,
    pub group_key_epoch: u64,
    pub message_id: String,
    pub sender_id: String,
    pub inbox_seq: u64,
    pub envelope_json: Vec<u8>,
    pub created_at: i64,
}

/// A counter under which a sender has sent a group message.
#[derive(Clone, Debug, PartialEq, Eq)]
pub struct GroupSenderKeyCounterRecord {
    pub group_id: String,
    pub group_key_epoch: u64,
    pub sender_id: String,
    pub counter: u64,
    pub message_id: String,
    pub seen_at: i64,
}

/// The key of a bot that the user has decided to trust.
#[derive(Clone, Debug, PartialEq, Eq)]
pub struct LocalBotTrustPinRecord {
    pub bot_identity_commitment: String,
    pub bot_public_key: String,
    pub signing_key_id: String,
    pub trust_source: String,
    pub pinned_at: i64,
}

/// What the account database is asked, or told to keep.
#[derive(Clone, Debug, PartialEq, Eq)]
pub enum AccountDbRequest {
    AppendEvent { event_id: String, event_type: String, body: Vec<u8> },
    EventBody { event_id: String },
    SetProjectionCheckpoint { projection_name: String, last_event_id: String },
    ProjectionCheckpoint { projection_name: String },
    ExportHistoryBundle { source_device_id: String, target_device_id: String },
    SetDisappearingPolicy {
        conversation_id: String,
        timer_seconds: i64,
        countdown_mode: String,
        scope: String,
        updated_at: i64,
    },
    ExpireDisappearingMessages { conversation_id: String, now: i64 },
    TypingStarted {
        conversation_id: String,
        actor_identity: String,
        started_at: i64,
        ttl_seconds: i64,
        privacy_scope: String,
    },
    TypingStopped { conversation_id: String, actor_identity: String },
    ActiveTyping { conversation_id: String, now: i64 },
    ContactPresence { identity_commitment: String, now: i64 },
    IdentityLifecycle { identity_commitment: String },
    MessageMentions { conversation_id: String, message_id: String, identity_commitment: String },
    DirectMessages { conversation_id: String },
    DirectMessageById { message_id: String },
    SetConversationArchived { conversation_id: String, archived: bool },
    PinConversation { conversation_id: String, pin_order: i64 },
    UnpinConversation { conversation_id: String },
    MuteConversation { conversation_id: String, mute_until: i64 },
    UnmuteConversation { conversation_id: String },
    HideConversationAt { conversation_id: String, hidden_at: i64 },
    ClearConversationAt { conversation_id: String, cleared_at: i64, scope: String },
    ConversationListState { conversation_id: String },
    DeleteDirectMessage {
        conversation_id: String,
        message_id: String,
        delete_scope: String,
        tombstone_id: String,
    },
    MarkRead { conversation_id: String, reader_id: String, message_id: String },
    MarkDelivered {
        conversation_id: String,
        receiver_device_id: String,
        message_id: String,
        delivered_at: i64,
        ttl_seconds: i64,
    },
    SetUnreadMarker {
        conversation_id: String,
        marker_owner: String,
        message_id: String,
        marker_epoch: u64,
    },
    ClearUnreadMarker { conversation_id: String, marker_owner: String, marker_epoch: u64 },
    ConversationProjection { conversation_id: String, reader_id: String },
    EstablishFriendLink { link_id: String, requester_id: String, target_id: String },
    FriendLinks,
    ContactVerification { contact_identity_commitment: String },
    RemoveFriendLink { link_id: String, scope: String, now: i64 },
    BlockFriendLink { link_id: String, now: i64 },
    UnblockFriendLink { link_id: String, now: i64 },
    RecordPendingFriendLink { link_id: String, requester_id: String, target_id: String, now: i64 },
    RejectFriendLink { link_id: String, now: i64 },
    RejectedInbox { conversation_id: String },
    FriendLinkForPeer { peer_id: String },
    SendDirectMessageWithMetadata {
        conversation_id: String,
        message_id: String,
        sender_id: String,
        encrypted_body: Vec<u8>,
        metadata: MessageMetadata,
    },
    RecordReceiptEventOnce(ReceiptEventWrite),
    RemoveGroupPendingUndecrypted { message_id: String },
    UpsertGroupPendingUndecrypted(GroupPendingUndecryptedRecord),
    GroupPendingUndecrypted { group_id: String, group_key_epoch: u64 },
    GroupSenderKeyCounterSeen {
        group_id: String,
        group_key_epoch: u64,
        sender_id: String,
        counter: u64,
    },
    RecordGroupSenderKeyCounter(GroupSenderKeyCounterRecord),
    SendDirectMessage {
        conversation_id: String,
        message_id: String,
        sender_id: String,
        encrypted_body: Vec<u8>,
    },
    AddGroupMember { group_id: String, member_id: String, role: String },
    RemoveGroupMember { group_id: String, actor_id: String, target_member_id: String },
    GroupState { group_id: String },
    Groups,
    GuardianRecoveryShares { owner_principal_id: String },
    ConversationSummaries,
    RejectInboxMessage {
        conversation_id: String,
        envelope_id: String,
        source_principal_id: String,
        reason: String,
        rejected_at: i64,
    },
    PersistGroupMemberDeviceKey { group_id: String, member_id: String, public_key: String },
    CreateGroup { group_id: String, creator_id: String },
    SetObjectTombstoned { object_id: String },
}

/// An event that is recorded, and then the checkpoint that points to it.
#[derive(Clone, Debug, PartialEq, Eq)]
pub struct EventWrite {
    pub event: AccountDbRequest,
    pub checkpoint: AccountDbRequest,
}

/// Whether a request appends an event.
pub open spec fn appends(
    request: AccountDbRequest,
    event_id: Seq<char>,
    event_type: Seq<char>,
    body: Seq<u8>,
) -> bool {
    request matches AccountDbRequest::AppendEvent { event_id: e, event_type: t, body: b } && e@
        == event_id && t@ == event_type && b@ == body
}

/// Whether a request lists a message in its conversation, with what is to be kept beside it.
pub open spec fn sends_message(
    request: AccountDbRequest,
    conversation_id: Seq<char>,
    message_id: Seq<char>,
    sender_id: Seq<char>,
    encrypted_body: Seq<u8>,
    metadata: Option<MessageMetadata>,
) -> bool {
    match metadata {
        None => request matches AccountDbRequest::SendDirectMessage {
            conversation_id: c,
            message_id: m,
            sender_id: s,
            encrypted_body: b,
        } && c@ == conversation_id && m@ == message_id && s@ == sender_id && b@ == encrypted_body,
        Some(metadata) => request matches AccountDbRequest::SendDirectMessageWithMetadata {
            conversation_id: c,
            message_id: m,
            sender_id: s,
            encrypted_body: b,
            metadata: d,
        } && c@ == conversation_id && m@ == message_id && s@ == sender_id && b@ == encrypted_body
            && d == metadata,
    }
}

/// Whether a request makes a group.
pub open spec fn makes_group(request: AccountDbRequest, group_id: Seq<char>) -> bool {
    request matches AccountDbRequest::CreateGroup { group_id: g, creator_id } && g@ == group_id
}

/// The bodies of an account's events by their identifiers, and the event that each checkpoint points
/// to. A body that is there is never replaced.
pub struct EventLog {
    pub events: Map<Seq<char>, Seq<u8>>,
    pub checkpoints: Map<Seq<char>, Seq<char>>,
}

impl EventLog {
    /// Why a request is refused, if it is: it appends another body under an identifier that is taken.
    pub open spec fn refusal(self, request: AccountDbRequest) -> Option<SdkError> {
        match request {
            AccountDbRequest::AppendEvent { event_id, event_type, body } => {
                if self.events.contains_key(event_id@) && self.events[event_id@] != body@ {
                    Some(SdkError::Storage(StorageError::EventIdConflict(event_id)))
                } else {
                    None
                }
            },
            _ => None,
        }
    }

    /// The log after one request. An event whose identifier is taken leaves it as it is: the same
    /// event is there already, and another is refused. So does what is no event and no checkpoint.
    pub open spec fn after_request(self, request: AccountDbRequest) -> EventLog {
        match request {
            AccountDbRequest::AppendEvent { event_id, event_type, body } => {
                if self.events.contains_key(event_id@) {
                    self
                } else {
                    EventLog { events: self.events.insert(event_id@, body@), ..self }
                }
            },
            AccountDbRequest::SetProjectionCheckpoint { projection_name, last_event_id } => EventLog {
                checkpoints: self.checkpoints.insert(projection_name@, last_event_id@),
                ..self
            },
            _ => self,
        }
    }

    /// The log after an event and the checkpoint that points to it. The checkpoint is not moved to an
    /// event that is refused.
    pub open spec fn after(self, write: EventWrite) -> EventLog {
        if self.refusal(write.event) is Some {
            self
        } else {
            self.after_request(write.event).after_request(write.checkpoint)
        }
    }

    /// The body of an event, if it is there.
    pub open spec fn body(self, event_id: Seq<char>) -> Option<Seq<u8>> {
        if self.events.contains_key(event_id) {
            Some(self.events[event_id])
        } else {
            None
        }
    }
}

/// An event that was appended keeps its body: another body under its identifier is refused and
/// changes nothing, and the same body again is accepted and changes nothing.
pub proof fn law_appended_event_keeps_its_body(
    log: EventLog,
    first: AccountDbRequest,
    second: AccountDbRequest,
    event_id: String,
    event_type: Seq<char>,
    body: Seq<u8>,
    other_body: Vec<u8>,
    other_type: String,
)
    requires
        appends(first, event_id@, event_type, body),
        log.refusal(first) is None,
        second == (AccountDbRequest::AppendEvent {
            event_id,
            event_type: other_type,
            body: other_body,
        }),
    ensures
        ({
            let after = log.after_request(first);
            &&& after.body(event_id@) == Some(body)
            &&& other_body@ != body ==> after.refusal(second) == Some(
                SdkError::Storage(StorageError::EventIdConflict(event_id)),
            )
            &&& after.after_request(second) == after
            &&& after.refusal(first) is None
            &&& after.after_request(first) == after
        }),
{
}

/// An event and its checkpoint that are refused change nothing: the event stays as it was, and so
/// does every checkpoint.
pub proof fn law_refused_write_changes_nothing(log: EventLog, write: EventWrite)
    requires
        log.refusal(write.event) is Some,
    ensures
        log.after(write) == log,
{
}

/// What the index of accounts is asked, or told to keep.
#[derive(Clone, Debug, PartialEq, Eq)]
pub enum AccountIndexRequest {
    CreateAccount { local_account_id: String, principal_commitment: String },
    SetActiveAccount { local_account_id: String },
    ActiveAccount,
}

/// The key of an account database, wrapped by the vault.
#[derive(Clone, Debug, PartialEq, Eq)]
pub struct WrappedAccountDbKey {
    pub key_wrapping_provider: String,
    pub key_wrapping_ref: String,
    pub nonce: Vec<u8>,
    pub wrapped_key: Vec<u8>,
}

} // verus!

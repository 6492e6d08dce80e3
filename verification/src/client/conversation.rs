//! Conversations: how they are listed, and what becomes of their messages.
use crate::client::state::RamfluxClient;
use crate::error::SdkError;
use crate::records::AccountDbRequest;
use vstd::prelude::*;

verus! {

/// A conversation as the account database sums it up.
#[derive(Clone, Debug, PartialEq, Eq)]
pub struct ConversationSummaryRecord {
    pub conversation_id: String,
    pub message_count: u64,
    pub last_message_id: Option<String>,
    pub last_activity_at: Option<i64>,
    pub is_archived: bool,
    pub pin_order: Option<i64>,
}

/// A conversation as it is listed.
#[derive(Clone, Debug, PartialEq, Eq)]
pub struct ConversationSummary {
    pub conversation_id: String,
    pub message_count: u64,
    pub last_message_id: Option<String>,
    pub last_activity_at: Option<i64>,
    pub is_archived: bool,
    pub pin_order: Option<i64>,
}

/// A conversation as it is listed.
pub open spec fn summary_of(record: ConversationSummaryRecord) -> ConversationSummary {
    ConversationSummary {
        conversation_id: record.conversation_id,
        message_count: record.message_count,
        last_message_id: record.last_message_id,
        last_activity_at: record.last_activity_at,
        is_archived: record.is_archived,
        pin_order: record.pin_order,
    }
}

impl From<ConversationSummaryRecord> for ConversationSummary {
    fn from(record: ConversationSummaryRecord) -> (r: Self) {
        ConversationSummary {
            conversation_id: record.conversation_id,
            message_count: record.message_count,
            last_message_id: record.last_message_id,
            last_activity_at: record.last_activity_at,
            is_archived: record.is_archived,
            pin_order: record.pin_order,
        }
    }
}

impl vstd::std_specs::convert::FromSpecImpl<ConversationSummaryRecord> for ConversationSummary {
    open spec fn obeys_from_spec() -> bool {
        true
    }

    open spec fn from_spec(record: ConversationSummaryRecord) -> ConversationSummary {
        summary_of(record)
    }
}

/// The list of conversations, in the order in which the account database gave them.
pub fn listed(records: Vec<ConversationSummaryRecord>) -> (r: Vec<ConversationSummary>)
    ensures
        r@ == records@.map_values(|record: ConversationSummaryRecord| summary_of(record)),
{
    let ghost all = records@;
    let mut rest = records;
    let mut r: Vec<ConversationSummary> = Vec::new();
    let ghost mut n: int = 0;
    while rest.len() > 0
        invariant
            0 <= n <= all.len(),
            rest@ == all.skip(n),
            r@ == all.take(n).map_values(|record: ConversationSummaryRecord| summary_of(record)),
        decreases rest.len(),
    {
        let record = rest.remove(0);
        r.push(ConversationSummary::from(record));
        proof {
            n = n + 1;
        }
        assert(rest@ =~= all.skip(n));
        assert(r@ =~= all.take(n).map_values(
            |record: ConversationSummaryRecord| summary_of(record),
        ));
    }
    assert(all.take(n) =~= all);
    r
}

impl RamfluxClient {
    /// Asks for every conversation of the unlocked account.
    pub fn conversation_list(&self) -> (r: Result<AccountDbRequest, SdkError>)
        ensures
            if self.unlocked() {
                r matches Ok(AccountDbRequest::ConversationSummaries)
            } else {
                r == Err::<AccountDbRequest, SdkError>(SdkError::AccountDbNotUnlocked)
            },
    {
        match self.account_db() {
            Ok(_) => Ok(AccountDbRequest::ConversationSummaries),
            Err(error) => Err(error),
        }
    }

    /// Notes whether a contact is there.
    pub fn update_contact_presence<U>(&self, update: U) -> (r: Result<U, SdkError>)
        ensures
            r == (if self.unlocked() {
                Ok::<U, SdkError>(update)
            } else {
                Err(SdkError::AccountDbNotUnlocked)
            }),
    {
        match self.account_db() {
            Ok(_) => Ok(update),
            Err(error) => Err(error),
        }
    }

    /// Notes a change in the life of an identity.
    pub fn apply_identity_lifecycle_event<T>(
        &self,
        identity_commitment: &str,
        event_id: &str,
        event_type: &str,
        lifecycle_epoch: u64,
        timing: T,
    ) -> (r: Result<IdentityLifecycleWrite<T>, SdkError>)
        ensures
            if self.unlocked() {
                r matches Ok(write) && {
                    &&& write.identity_commitment@ == identity_commitment@
                    &&& write.event_id@ == event_id@
                    &&& write.event_type@ == event_type@
                    &&& write.lifecycle_epoch == lifecycle_epoch
                    &&& write.timing == timing
                }
            } else {
                r matches Err(SdkError::AccountDbNotUnlocked)
            },
    {
        match self.account_db() {
            Ok(_) => Ok(
                IdentityLifecycleWrite {
                    identity_commitment: identity_commitment.to_owned(),
                    event_id: event_id.to_owned(),
                    event_type: event_type.to_owned(),
                    lifecycle_epoch,
                    timing,
                },
            ),
            Err(error) => Err(error),
        }
    }

    /// Sets how long the messages of a conversation last.
    pub fn set_disappearing_policy(
        &self,
        conversation_id: &str,
        timer_seconds: i64,
        countdown_mode: &str,
        scope: &str,
        updated_at: i64,
    ) -> (r: Result<AccountDbRequest, SdkError>)
        ensures
            if self.unlocked() {
                r matches Ok(AccountDbRequest::SetDisappearingPolicy {
                    conversation_id: got_conversation_id,
                    timer_seconds: got_timer_seconds,
                    countdown_mode: got_countdown_mode,
                    scope: got_scope,
                    updated_at: got_updated_at,
                }) && {
                    &&& got_conversation_id@ == conversation_id@
                    &&& got_timer_seconds == timer_seconds
                    &&& got_countdown_mode@ == countdown_mode@
                    &&& got_scope@ == scope@
                    &&& got_updated_at == updated_at
                }
            } else {
                r == Err::<AccountDbRequest, SdkError>(SdkError::AccountDbNotUnlocked)
            },
    {
        match self.account_db() {
            Ok(_) => Ok(
                AccountDbRequest::SetDisappearingPolicy {
                    conversation_id: conversation_id.to_owned(),
                    timer_seconds,
                    countdown_mode: countdown_mode.to_owned(),
                    scope: scope.to_owned(),
                    updated_at,
                },
            ),
            Err(error) => Err(error),
        }
    }

    /// Removes the messages whose time is over.
    pub fn expire_disappearing_messages(
        &self,
        conversation_id: &str,
        now: i64,
    ) -> (r: Result<AccountDbRequest, SdkError>)
        ensures
            if self.unlocked() {
                r matches Ok(AccountDbRequest::ExpireDisappearingMessages {
                    conversation_id: got_conversation_id,
                    now: got_now,
                }) && {
                    &&& got_conversation_id@ == conversation_id@
                    &&& got_now == now
                }
            } else {
                r == Err::<AccountDbRequest, SdkError>(SdkError::AccountDbNotUnlocked)
            },
    {
        match self.account_db() {
            Ok(_) => Ok(
                AccountDbRequest::ExpireDisappearingMessages {
                    conversation_id: conversation_id.to_owned(),
                    now,
                },
            ),
            Err(error) => Err(error),
        }
    }

    /// Notes that somebody types.
    pub fn typing_started(
        &self,
        conversation_id: &str,
        actor_identity: &str,
        started_at: i64,
        ttl_seconds: i64,
        privacy_scope: &str,
    ) -> (r: Result<AccountDbRequest, SdkError>)
        ensures
            if self.unlocked() {
                r matches Ok(AccountDbRequest::TypingStarted {
                    conversation_id: got_conversation_id,
                    actor_identity: got_actor_identity,
                    started_at: got_started_at,
                    ttl_seconds: got_ttl_seconds,
                    privacy_scope: got_privacy_scope,
                }) && {
                    &&& got_conversation_id@ == conversation_id@
                    &&& got_actor_identity@ == actor_identity@
                    &&& got_started_at == started_at
                    &&& got_ttl_seconds == ttl_seconds
                    &&& got_privacy_scope@ == privacy_scope@
                }
            } else {
                r == Err::<AccountDbRequest, SdkError>(SdkError::AccountDbNotUnlocked)
            },
    {
        match self.account_db() {
            Ok(_) => Ok(
                AccountDbRequest::TypingStarted {
                    conversation_id: conversation_id.to_owned(),
                    actor_identity: actor_identity.to_owned(),
                    started_at,
                    ttl_seconds,
                    privacy_scope: privacy_scope.to_owned(),
                },
            ),
            Err(error) => Err(error),
        }
    }

    /// Notes that somebody stopped typing.
    pub fn typing_stopped(
        &self,
        conversation_id: &str,
        actor_identity: &str,
    ) -> (r: Result<AccountDbRequest, SdkError>)
        ensures
            if self.unlocked() {
                r matches Ok(AccountDbRequest::TypingStopped {
                    conversation_id: got_conversation_id,
                    actor_identity: got_actor_identity,
                }) && {
                    &&& got_conversation_id@ == conversation_id@
                    &&& got_actor_identity@ == actor_identity@
                }
            } else {
                r == Err::<AccountDbRequest, SdkError>(SdkError::AccountDbNotUnlocked)
            },
    {
        match self.account_db() {
            Ok(_) => Ok(
                AccountDbRequest::TypingStopped {
                    conversation_id: conversation_id.to_owned(),
                    actor_identity: actor_identity.to_owned(),
                },
            ),
            Err(error) => Err(error),
        }
    }

    /// Asks who types.
    pub fn active_typing(
        &self,
        conversation_id: &str,
        now: i64,
    ) -> (r: Result<AccountDbRequest, SdkError>)
        ensures
            if self.unlocked() {
                r matches Ok(AccountDbRequest::ActiveTyping {
                    conversation_id: got_conversation_id,
                    now: got_now,
                }) && {
                    &&& got_conversation_id@ == conversation_id@
                    &&& got_now == now
                }
            } else {
                r == Err::<AccountDbRequest, SdkError>(SdkError::AccountDbNotUnlocked)
            },
    {
        match self.account_db() {
            Ok(_) => Ok(
                AccountDbRequest::ActiveTyping {
                    conversation_id: conversation_id.to_owned(),
                    now,
                },
            ),
            Err(error) => Err(error),
        }
    }

    /// Asks whether a contact is there.
    pub fn contact_presence(
        &self,
        identity_commitment: &str,
        now: i64,
    ) -> (r: Result<AccountDbRequest, SdkError>)
        ensures
            if self.unlocked() {
                r matches Ok(AccountDbRequest::ContactPresence {
                    identity_commitment: got_identity_commitment,
                    now: got_now,
                }) && {
                    &&& got_identity_commitment@ == identity_commitment@
                    &&& got_now == now
                }
            } else {
                r == Err::<AccountDbRequest, SdkError>(SdkError::AccountDbNotUnlocked)
            },
    {
        match self.account_db() {
            Ok(_) => Ok(
                AccountDbRequest::ContactPresence {
                    identity_commitment: identity_commitment.to_owned(),
                    now,
                },
            ),
            Err(error) => Err(error),
        }
    }

    /// Asks for the state of an identity.
    pub fn identity_lifecycle(
        &self,
        identity_commitment: &str,
    ) -> (r: Result<AccountDbRequest, SdkError>)
        ensures
            if self.unlocked() {
                r matches Ok(AccountDbRequest::IdentityLifecycle {
                    identity_commitment: got_identity_commitment,
                }) && {
                    &&& got_identity_commitment@ == identity_commitment@
                }
            } else {
                r == Err::<AccountDbRequest, SdkError>(SdkError::AccountDbNotUnlocked)
            },
    {
        match self.account_db() {
            Ok(_) => Ok(
                AccountDbRequest::IdentityLifecycle {
                    identity_commitment: identity_commitment.to_owned(),
                },
            ),
            Err(error) => Err(error),
        }
    }

    /// Asks whether a message mentions an identity.
    pub fn message_mentions(
        &self,
        conversation_id: &str,
        message_id: &str,
        identity_commitment: &str,
    ) -> (r: Result<AccountDbRequest, SdkError>)
        ensures
            if self.unlocked() {
                r matches Ok(AccountDbRequest::MessageMentions {
                    conversation_id: got_conversation_id,
                    message_id: got_message_id,
                    identity_commitment: got_identity_commitment,
                }) && {
                    &&& got_conversation_id@ == conversation_id@
                    &&& got_message_id@ == message_id@
                    &&& got_identity_commitment@ == identity_commitment@
                }
            } else {
                r == Err::<AccountDbRequest, SdkError>(SdkError::AccountDbNotUnlocked)
            },
    {
        match self.account_db() {
            Ok(_) => Ok(
                AccountDbRequest::MessageMentions {
                    conversation_id: conversation_id.to_owned(),
                    message_id: message_id.to_owned(),
                    identity_commitment: identity_commitment.to_owned(),
                },
            ),
            Err(error) => Err(error),
        }
    }

    /// Asks for the messages of a conversation.
    pub fn direct_messages(
        &self,
        conversation_id: &str,
    ) -> (r: Result<AccountDbRequest, SdkError>)
        ensures
            if self.unlocked() {
                r matches Ok(AccountDbRequest::DirectMessages {
                    conversation_id: got_conversation_id,
                }) && {
                    &&& got_conversation_id@ == conversation_id@
                }
            } else {
                r == Err::<AccountDbRequest, SdkError>(SdkError::AccountDbNotUnlocked)
            },
    {
        match self.account_db() {
            Ok(_) => Ok(
                AccountDbRequest::DirectMessages {
                    conversation_id: conversation_id.to_owned(),
                },
            ),
            Err(error) => Err(error),
        }
    }

    /// Asks for a message.
    pub fn direct_message_by_id(
        &self,
        message_id: &str,
    ) -> (r: Result<AccountDbRequest, SdkError>)
        ensures
            if self.unlocked() {
                r matches Ok(AccountDbRequest::DirectMessageById {
                    message_id: got_message_id,
                }) && {
                    &&& got_message_id@ == message_id@
                }
            } else {
                r == Err::<AccountDbRequest, SdkError>(SdkError::AccountDbNotUnlocked)
            },
    {
        match self.account_db() {
            Ok(_) => Ok(
                AccountDbRequest::DirectMessageById {
                    message_id: message_id.to_owned(),
                },
            ),
            Err(error) => Err(error),
        }
    }

    /// Archives a conversation, or takes it out of the archive.
    pub fn set_conversation_archived(
        &self,
        conversation_id: &str,
        archived: bool,
    ) -> (r: Result<AccountDbRequest, SdkError>)
        ensures
            if self.unlocked() {
                r matches Ok(AccountDbRequest::SetConversationArchived {
                    conversation_id: got_conversation_id,
                    archived: got_archived,
                }) && {
                    &&& got_conversation_id@ == conversation_id@
                    &&& got_archived == archived
                }
            } else {
                r == Err::<AccountDbRequest, SdkError>(SdkError::AccountDbNotUnlocked)
            },
    {
        match self.account_db() {
            Ok(_) => Ok(
                AccountDbRequest::SetConversationArchived {
                    conversation_id: conversation_id.to_owned(),
                    archived,
                },
            ),
            Err(error) => Err(error),
        }
    }

    /// Pins a conversation.
    pub fn pin_conversation(
        &self,
        conversation_id: &str,
        pin_order: i64,
    ) -> (r: Result<AccountDbRequest, SdkError>)
        ensures
            if self.unlocked() {
                r matches Ok(AccountDbRequest::PinConversation {
                    conversation_id: got_conversation_id,
                    pin_order: got_pin_order,
                }) && {
                    &&& got_conversation_id@ == conversation_id@
                    &&& got_pin_order == pin_order
                }
            } else {
                r == Err::<AccountDbRequest, SdkError>(SdkError::AccountDbNotUnlocked)
            },
    {
        match self.account_db() {
            Ok(_) => Ok(
                AccountDbRequest::PinConversation {
                    conversation_id: conversation_id.to_owned(),
                    pin_order,
                },
            ),
            Err(error) => Err(error),
        }
    }

    /// Unpins a conversation.
    pub fn unpin_conversation(
        &self,
        conversation_id: &str,
    ) -> (r: Result<AccountDbRequest, SdkError>)
        ensures
            if self.unlocked() {
                r matches Ok(AccountDbRequest::UnpinConversation {
                    conversation_id: got_conversation_id,
                }) && {
                    &&& got_conversation_id@ == conversation_id@
                }
            } else {
                r == Err::<AccountDbRequest, SdkError>(SdkError::AccountDbNotUnlocked)
            },
    {
        match self.account_db() {
            Ok(_) => Ok(
                AccountDbRequest::UnpinConversation {
                    conversation_id: conversation_id.to_owned(),
                },
            ),
            Err(error) => Err(error),
        }
    }

    /// Mutes a conversation.
    pub fn mute_conversation(
        &self,
        conversation_id: &str,
        mute_until: i64,
    ) -> (r: Result<AccountDbRequest, SdkError>)
        ensures
            if self.unlocked() {
                r matches Ok(AccountDbRequest::MuteConversation {
                    conversation_id: got_conversation_id,
                    mute_until: got_mute_until,
                }) && {
                    &&& got_conversation_id@ == conversation_id@
                    &&& got_mute_until == mute_until
                }
            } else {
                r == Err::<AccountDbRequest, SdkError>(SdkError::AccountDbNotUnlocked)
            },
    {
        match self.account_db() {
            Ok(_) => Ok(
                AccountDbRequest::MuteConversation {
                    conversation_id: conversation_id.to_owned(),
                    mute_until,
                },
            ),
            Err(error) => Err(error),
        }
    }

    /// Unmutes a conversation.
    pub fn unmute_conversation(
        &self,
        conversation_id: &str,
    ) -> (r: Result<AccountDbRequest, SdkError>)
        ensures
            if self.unlocked() {
                r matches Ok(AccountDbRequest::UnmuteConversation {
                    conversation_id: got_conversation_id,
                }) && {
                    &&& got_conversation_id@ == conversation_id@
                }
            } else {
                r == Err::<AccountDbRequest, SdkError>(SdkError::AccountDbNotUnlocked)
            },
    {
        match self.account_db() {
            Ok(_) => Ok(
                AccountDbRequest::UnmuteConversation {
                    conversation_id: conversation_id.to_owned(),
                },
            ),
            Err(error) => Err(error),
        }
    }

    /// Hides a conversation.
    pub fn hide_conversation_at(
        &self,
        conversation_id: &str,
        hidden_at: i64,
    ) -> (r: Result<AccountDbRequest, SdkError>)
        ensures
            if self.unlocked() {
                r matches Ok(AccountDbRequest::HideConversationAt {
                    conversation_id: got_conversation_id,
                    hidden_at: got_hidden_at,
                }) && {
                    &&& got_conversation_id@ == conversation_id@
                    &&& got_hidden_at == hidden_at
                }
            } else {
                r == Err::<AccountDbRequest, SdkError>(SdkError::AccountDbNotUnlocked)
            },
    {
        match self.account_db() {
            Ok(_) => Ok(
                AccountDbRequest::HideConversationAt {
                    conversation_id: conversation_id.to_owned(),
                    hidden_at,
                },
            ),
            Err(error) => Err(error),
        }
    }

    /// Clears a conversation.
    pub fn clear_conversation_at(
        &self,
        conversation_id: &str,
        cleared_at: i64,
        scope: &str,
    ) -> (r: Result<AccountDbRequest, SdkError>)
        ensures
            if self.unlocked() {
                r matches Ok(AccountDbRequest::ClearConversationAt {
                    conversation_id: got_conversation_id,
                    cleared_at: got_cleared_at,
                    scope: got_scope,
                }) && {
                    &&& got_conversation_id@ == conversation_id@
                    &&& got_cleared_at == cleared_at
                    &&& got_scope@ == scope@
                }
            } else {
                r == Err::<AccountDbRequest, SdkError>(SdkError::AccountDbNotUnlocked)
            },
    {
        match self.account_db() {
            Ok(_) => Ok(
                AccountDbRequest::ClearConversationAt {
                    conversation_id: conversation_id.to_owned(),
                    cleared_at,
                    scope: scope.to_owned(),
                },
            ),
            Err(error) => Err(error),
        }
    }

    /// Asks how a conversation is listed.
    pub fn conversation_list_state(
        &self,
        conversation_id: &str,
    ) -> (r: Result<AccountDbRequest, SdkError>)
        ensures
            if self.unlocked() {
                r matches Ok(AccountDbRequest::ConversationListState {
                    conversation_id: got_conversation_id,
                }) && {
                    &&& got_conversation_id@ == conversation_id@
                }
            } else {
                r == Err::<AccountDbRequest, SdkError>(SdkError::AccountDbNotUnlocked)
            },
    {
        match self.account_db() {
            Ok(_) => Ok(
                AccountDbRequest::ConversationListState {
                    conversation_id: conversation_id.to_owned(),
                },
            ),
            Err(error) => Err(error),
        }
    }

    /// Deletes a message.
    pub fn delete_direct_message(
        &self,
        conversation_id: &str,
        message_id: &str,
        delete_scope: &str,
        tombstone_id: &str,
    ) -> (r: Result<AccountDbRequest, SdkError>)
        ensures
            if self.unlocked() {
                r matches Ok(AccountDbRequest::DeleteDirectMessage {
                    conversation_id: got_conversation_id,
                    message_id: got_message_id,
                    delete_scope: got_delete_scope,
                    tombstone_id: got_tombstone_id,
                }) && {
                    &&& got_conversation_id@ == conversation_id@
                    &&& got_message_id@ == message_id@
                    &&& got_delete_scope@ == delete_scope@
                    &&& got_tombstone_id@ == tombstone_id@
                }
            } else {
                r == Err::<AccountDbRequest, SdkError>(SdkError::AccountDbNotUnlocked)
            },
    {
        match self.account_db() {
            Ok(_) => Ok(
                AccountDbRequest::DeleteDirectMessage {
                    conversation_id: conversation_id.to_owned(),
                    message_id: message_id.to_owned(),
                    delete_scope: delete_scope.to_owned(),
                    tombstone_id: tombstone_id.to_owned(),
                },
            ),
            Err(error) => Err(error),
        }
    }

    /// Marks a message as read.
    pub fn mark_read(
        &self,
        conversation_id: &str,
        reader_id: &str,
        message_id: &str,
    ) -> (r: Result<AccountDbRequest, SdkError>)
        ensures
            if self.unlocked() {
                r matches Ok(AccountDbRequest::MarkRead {
                    conversation_id: got_conversation_id,
                    reader_id: got_reader_id,
                    message_id: got_message_id,
                }) && {
                    &&& got_conversation_id@ == conversation_id@
                    &&& got_reader_id@ == reader_id@
                    &&& got_message_id@ == message_id@
                }
            } else {
                r == Err::<AccountDbRequest, SdkError>(SdkError::AccountDbNotUnlocked)
            },
    {
        match self.account_db() {
            Ok(_) => Ok(
                AccountDbRequest::MarkRead {
                    conversation_id: conversation_id.to_owned(),
                    reader_id: reader_id.to_owned(),
                    message_id: message_id.to_owned(),
                },
            ),
            Err(error) => Err(error),
        }
    }

    /// Marks a message as delivered.
    pub fn mark_delivered(
        &self,
        conversation_id: &str,
        receiver_device_id: &str,
        message_id: &str,
        delivered_at: i64,
        ttl_seconds: i64,
    ) -> (r: Result<AccountDbRequest, SdkError>)
        ensures
            if self.unlocked() {
                r matches Ok(AccountDbRequest::MarkDelivered {
                    conversation_id: got_conversation_id,
                    receiver_device_id: got_receiver_device_id,
                    message_id: got_message_id,
                    delivered_at: got_delivered_at,
                    ttl_seconds: got_ttl_seconds,
                }) && {
                    &&& got_conversation_id@ == conversation_id@
                    &&& got_receiver_device_id@ == receiver_device_id@
                    &&& got_message_id@ == message_id@
                    &&& got_delivered_at == delivered_at
                    &&& got_ttl_seconds == ttl_seconds
                }
            } else {
                r == Err::<AccountDbRequest, SdkError>(SdkError::AccountDbNotUnlocked)
            },
    {
        match self.account_db() {
            Ok(_) => Ok(
                AccountDbRequest::MarkDelivered {
                    conversation_id: conversation_id.to_owned(),
                    receiver_device_id: receiver_device_id.to_owned(),
                    message_id: message_id.to_owned(),
                    delivered_at,
                    ttl_seconds,
                },
            ),
            Err(error) => Err(error),
        }
    }

    /// Sets the mark behind which all is unread.
    pub fn set_unread_marker(
        &self,
        conversation_id: &str,
        marker_owner: &str,
        message_id: &str,
        marker_epoch: u64,
    ) -> (r: Result<AccountDbRequest, SdkError>)
        ensures
            if self.unlocked() {
                r matches Ok(AccountDbRequest::SetUnreadMarker {
                    conversation_id: got_conversation_id,
                    marker_owner: got_marker_owner,
                    message_id: got_message_id,
                    marker_epoch: got_marker_epoch,
                }) && {
                    &&& got_conversation_id@ == conversation_id@
                    &&& got_marker_owner@ == marker_owner@
                    &&& got_message_id@ == message_id@
                    &&& got_marker_epoch == marker_epoch
                }
            } else {
                r == Err::<AccountDbRequest, SdkError>(SdkError::AccountDbNotUnlocked)
            },
    {
        match self.account_db() {
            Ok(_) => Ok(
                AccountDbRequest::SetUnreadMarker {
                    conversation_id: conversation_id.to_owned(),
                    marker_owner: marker_owner.to_owned(),
                    message_id: message_id.to_owned(),
                    marker_epoch,
                },
            ),
            Err(error) => Err(error),
        }
    }

    /// Clears the mark behind which all is unread.
    pub fn clear_unread_marker(
        &self,
        conversation_id: &str,
        marker_owner: &str,
        marker_epoch: u64,
    ) -> (r: Result<AccountDbRequest, SdkError>)
        ensures
            if self.unlocked() {
                r matches Ok(AccountDbRequest::ClearUnreadMarker {
                    conversation_id: got_conversation_id,
                    marker_owner: got_marker_owner,
                    marker_epoch: got_marker_epoch,
                }) && {
                    &&& got_conversation_id@ == conversation_id@
                    &&& got_marker_owner@ == marker_owner@
                    &&& got_marker_epoch == marker_epoch
                }
            } else {
                r == Err::<AccountDbRequest, SdkError>(SdkError::AccountDbNotUnlocked)
            },
    {
        match self.account_db() {
            Ok(_) => Ok(
                AccountDbRequest::ClearUnreadMarker {
                    conversation_id: conversation_id.to_owned(),
                    marker_owner: marker_owner.to_owned(),
                    marker_epoch,
                },
            ),
            Err(error) => Err(error),
        }
    }

    /// Asks for a conversation as one reader sees it.
    pub fn conversation_projection(
        &self,
        conversation_id: &str,
        reader_id: &str,
    ) -> (r: Result<AccountDbRequest, SdkError>)
        ensures
            if self.unlocked() {
                r matches Ok(AccountDbRequest::ConversationProjection {
                    conversation_id: got_conversation_id,
                    reader_id: got_reader_id,
                }) && {
                    &&& got_conversation_id@ == conversation_id@
                    &&& got_reader_id@ == reader_id@
                }
            } else {
                r == Err::<AccountDbRequest, SdkError>(SdkError::AccountDbNotUnlocked)
            },
    {
        match self.account_db() {
            Ok(_) => Ok(
                AccountDbRequest::ConversationProjection {
                    conversation_id: conversation_id.to_owned(),
                    reader_id: reader_id.to_owned(),
                },
            ),
            Err(error) => Err(error),
        }
    }
}

/// A change in the life of an identity, as it is written to the account database.
pub struct IdentityLifecycleWrite<T> {
    pub identity_commitment: String,
    pub event_id: String,
    pub event_type: String,
    pub lifecycle_epoch: u64,
    pub timing: T,
}

} // verus!

//! Conversations and contacts: what is asked of the account is about what was named, and nothing is
//! asked of an account that is not open.
use crate::client::conversation::{
    listed, ConversationSummary, ConversationSummaryRecord, IdentityLifecycleWrite,
};
use crate::client::state::RamfluxClient;
use crate::error::SdkError;
use crate::records::AccountDbRequest;
use vstd::prelude::*;

verus! {

/// Conversations are listed as they are stored, in that order, none left out.
pub proof fn law_conversations_are_listed_as_stored(
    client: &RamfluxClient,
    asked: Result<AccountDbRequest, SdkError>,
    records: Vec<ConversationSummaryRecord>,
    r: Vec<ConversationSummary>,
)
    requires
        call_ensures(RamfluxClient::conversation_list, (client,), asked),
        call_ensures(listed, (records,), r),
    ensures
        asked is Ok <==> client.active_account_db is Some,
        asked is Err ==> asked->Err_0 is AccountDbNotUnlocked,
        asked matches Ok(q) ==> q is ConversationSummaries,
        r@.len() == records@.len(),
        forall|i: int|
            0 <= i < records@.len() ==> {
                &&& (#[trigger] r@[i]).conversation_id == records@[i].conversation_id
                &&& r@[i].message_count == records@[i].message_count
                &&& r@[i].last_message_id == records@[i].last_message_id
                &&& r@[i].last_activity_at == records@[i].last_activity_at
                &&& r@[i].is_archived == records@[i].is_archived
                &&& r@[i].pin_order == records@[i].pin_order
            },
{
}

/// What is told of a contact or an identity is handed on as it is.
pub proof fn law_news_of_an_identity_is_handed_on<U, T>(
    client: &RamfluxClient,
    update: U,
    identity_commitment: &str,
    event_id: &str,
    event_type: &str,
    lifecycle_epoch: u64,
    timing: T,
    presence: Result<U, SdkError>,
    lifecycle: Result<IdentityLifecycleWrite<T>, SdkError>,
)
    requires
        call_ensures(RamfluxClient::update_contact_presence::<U>, (client, update), presence),
        call_ensures(
            RamfluxClient::apply_identity_lifecycle_event::<T>,
            (client, identity_commitment, event_id, event_type, lifecycle_epoch, timing),
            lifecycle,
        ),
    ensures
        presence is Ok <==> client.active_account_db is Some,
        presence is Err ==> presence->Err_0 is AccountDbNotUnlocked,
        presence matches Ok(told) ==> told == update,
        lifecycle is Ok <==> client.active_account_db is Some,
        lifecycle is Err ==> lifecycle->Err_0 is AccountDbNotUnlocked,
        lifecycle matches Ok(write) ==> {
            &&& write.identity_commitment@ == identity_commitment@
            &&& write.event_id@ == event_id@
            &&& write.event_type@ == event_type@
            &&& write.lifecycle_epoch == lifecycle_epoch
            &&& write.timing == timing
        },
{
}

/// A policy for messages that disappear is set for the conversation that is named, and messages disappear
/// in the one that is named, at the time that is given.
pub proof fn law_policy_holds_for_its_conversation(
    client: &RamfluxClient,
    conversation_id: &str,
    timer_seconds: i64,
    countdown_mode: &str,
    scope: &str,
    updated_at: i64,
    now: i64,
    set_disappearing_policy: Result<AccountDbRequest, SdkError>,
    expire_disappearing_messages: Result<AccountDbRequest, SdkError>,
)
    requires
        call_ensures(
            RamfluxClient::set_disappearing_policy,
            (client, conversation_id, timer_seconds, countdown_mode, scope, updated_at),
            set_disappearing_policy,
        ),
        call_ensures(
            RamfluxClient::expire_disappearing_messages,
            (client, conversation_id, now),
            expire_disappearing_messages,
        ),
    ensures
        set_disappearing_policy is Ok <==> client.active_account_db is Some,
        set_disappearing_policy is Err ==> set_disappearing_policy->Err_0 is AccountDbNotUnlocked,
        expire_disappearing_messages is Ok <==> client.active_account_db is Some,
        expire_disappearing_messages is Err ==> expire_disappearing_messages->Err_0 is AccountDbNotUnlocked,
        set_disappearing_policy matches Ok(q) ==> (q matches AccountDbRequest::SetDisappearingPolicy { conversation_id: its_conversation_id, timer_seconds: its_timer_seconds, countdown_mode: its_countdown_mode, scope: its_scope, updated_at: its_updated_at } && its_conversation_id@ == conversation_id@ && its_timer_seconds == timer_seconds && its_countdown_mode@ == countdown_mode@ && its_scope@ == scope@ && its_updated_at == updated_at),
        expire_disappearing_messages matches Ok(q) ==> (q matches AccountDbRequest::ExpireDisappearingMessages { conversation_id: its_conversation_id, now: its_now } && its_conversation_id@ == conversation_id@ && its_now == now),
{
}

/// That someone types is told of them in their conversation, and taken back of the same; who types is
/// asked for by conversation and time.
pub proof fn law_typing_is_told_of_who_types(
    client: &RamfluxClient,
    conversation_id: &str,
    actor_identity: &str,
    started_at: i64,
    ttl_seconds: i64,
    privacy_scope: &str,
    now: i64,
    typing_started: Result<AccountDbRequest, SdkError>,
    typing_stopped: Result<AccountDbRequest, SdkError>,
    active_typing: Result<AccountDbRequest, SdkError>,
)
    requires
        call_ensures(
            RamfluxClient::typing_started,
            (client, conversation_id, actor_identity, started_at, ttl_seconds, privacy_scope),
            typing_started,
        ),
        call_ensures(
            RamfluxClient::typing_stopped,
            (client, conversation_id, actor_identity),
            typing_stopped,
        ),
        call_ensures(
            RamfluxClient::active_typing,
            (client, conversation_id, now),
            active_typing,
        ),
    ensures
        typing_started is Ok <==> client.active_account_db is Some,
        typing_started is Err ==> typing_started->Err_0 is AccountDbNotUnlocked,
        typing_stopped is Ok <==> client.active_account_db is Some,
        typing_stopped is Err ==> typing_stopped->Err_0 is AccountDbNotUnlocked,
        active_typing is Ok <==> client.active_account_db is Some,
        active_typing is Err ==> active_typing->Err_0 is AccountDbNotUnlocked,
        typing_started matches Ok(q) ==> (q matches AccountDbRequest::TypingStarted { conversation_id: its_conversation_id, actor_identity: its_actor_identity, started_at: its_started_at, ttl_seconds: its_ttl_seconds, privacy_scope: its_privacy_scope } && its_conversation_id@ == conversation_id@ && its_actor_identity@ == actor_identity@ && its_started_at == started_at && its_ttl_seconds == ttl_seconds && its_privacy_scope@ == privacy_scope@),
        typing_stopped matches Ok(q) ==> (q matches AccountDbRequest::TypingStopped { conversation_id: its_conversation_id, actor_identity: its_actor_identity } && its_conversation_id@ == conversation_id@ && its_actor_identity@ == actor_identity@),
        active_typing matches Ok(q) ==> (q matches AccountDbRequest::ActiveTyping { conversation_id: its_conversation_id, now: its_now } && its_conversation_id@ == conversation_id@ && its_now == now),
{
}

/// What is known of a contact is asked for by its identity.
pub proof fn law_contact_is_asked_for_by_identity(
    client: &RamfluxClient,
    identity_commitment: &str,
    now: i64,
    conversation_id: &str,
    message_id: &str,
    contact_presence: Result<AccountDbRequest, SdkError>,
    identity_lifecycle: Result<AccountDbRequest, SdkError>,
    message_mentions: Result<AccountDbRequest, SdkError>,
)
    requires
        call_ensures(
            RamfluxClient::contact_presence,
            (client, identity_commitment, now),
            contact_presence,
        ),
        call_ensures(
            RamfluxClient::identity_lifecycle,
            (client, identity_commitment),
            identity_lifecycle,
        ),
        call_ensures(
            RamfluxClient::message_mentions,
            (client, conversation_id, message_id, identity_commitment),
            message_mentions,
        ),
    ensures
        contact_presence is Ok <==> client.active_account_db is Some,
        contact_presence is Err ==> contact_presence->Err_0 is AccountDbNotUnlocked,
        identity_lifecycle is Ok <==> client.active_account_db is Some,
        identity_lifecycle is Err ==> identity_lifecycle->Err_0 is AccountDbNotUnlocked,
        message_mentions is Ok <==> client.active_account_db is Some,
        message_mentions is Err ==> message_mentions->Err_0 is AccountDbNotUnlocked,
        contact_presence matches Ok(q) ==> (q matches AccountDbRequest::ContactPresence { identity_commitment: its_identity_commitment, now: its_now } && its_identity_commitment@ == identity_commitment@ && its_now == now),
        identity_lifecycle matches Ok(q) ==> (q matches AccountDbRequest::IdentityLifecycle { identity_commitment: its_identity_commitment } && its_identity_commitment@ == identity_commitment@),
        message_mentions matches Ok(q) ==> (q matches AccountDbRequest::MessageMentions { conversation_id: its_conversation_id, message_id: its_message_id, identity_commitment: its_identity_commitment } && its_conversation_id@ == conversation_id@ && its_message_id@ == message_id@ && its_identity_commitment@ == identity_commitment@),
{
}

/// Messages are asked for by their conversation, one by its name, and how a conversation stands by the
/// conversation and its reader.
pub proof fn law_messages_are_asked_for_by_name(
    client: &RamfluxClient,
    conversation_id: &str,
    message_id: &str,
    reader_id: &str,
    direct_messages: Result<AccountDbRequest, SdkError>,
    direct_message_by_id: Result<AccountDbRequest, SdkError>,
    conversation_list_state: Result<AccountDbRequest, SdkError>,
    conversation_projection: Result<AccountDbRequest, SdkError>,
)
    requires
        call_ensures(
            RamfluxClient::direct_messages,
            (client, conversation_id),
            direct_messages,
        ),
        call_ensures(
            RamfluxClient::direct_message_by_id,
            (client, message_id),
            direct_message_by_id,
        ),
        call_ensures(
            RamfluxClient::conversation_list_state,
            (client, conversation_id),
            conversation_list_state,
        ),
        call_ensures(
            RamfluxClient::conversation_projection,
            (client, conversation_id, reader_id),
            conversation_projection,
        ),
    ensures
        direct_messages is Ok <==> client.active_account_db is Some,
        direct_messages is Err ==> direct_messages->Err_0 is AccountDbNotUnlocked,
        direct_message_by_id is Ok <==> client.active_account_db is Some,
        direct_message_by_id is Err ==> direct_message_by_id->Err_0 is AccountDbNotUnlocked,
        conversation_list_state is Ok <==> client.active_account_db is Some,
        conversation_list_state is Err ==> conversation_list_state->Err_0 is AccountDbNotUnlocked,
        conversation_projection is Ok <==> client.active_account_db is Some,
        conversation_projection is Err ==> conversation_projection->Err_0 is AccountDbNotUnlocked,
        direct_messages matches Ok(q) ==> (q matches AccountDbRequest::DirectMessages { conversation_id: its_conversation_id } && its_conversation_id@ == conversation_id@),
        direct_message_by_id matches Ok(q) ==> (q matches AccountDbRequest::DirectMessageById { message_id: its_message_id } && its_message_id@ == message_id@),
        conversation_list_state matches Ok(q) ==> (q matches AccountDbRequest::ConversationListState { conversation_id: its_conversation_id } && its_conversation_id@ == conversation_id@),
        conversation_projection matches Ok(q) ==> (q matches AccountDbRequest::ConversationProjection { conversation_id: its_conversation_id, reader_id: its_reader_id } && its_conversation_id@ == conversation_id@ && its_reader_id@ == reader_id@),
{
}

/// A conversation is put into or out of the archive, to its place among those that are pinned, out of
/// it, into silence and out of it, just the one that is named.
pub proof fn law_conversation_is_put_away_as_asked(
    client: &RamfluxClient,
    conversation_id: &str,
    archived: bool,
    pin_order: i64,
    mute_until: i64,
    set_conversation_archived: Result<AccountDbRequest, SdkError>,
    pin_conversation: Result<AccountDbRequest, SdkError>,
    unpin_conversation: Result<AccountDbRequest, SdkError>,
    mute_conversation: Result<AccountDbRequest, SdkError>,
    unmute_conversation: Result<AccountDbRequest, SdkError>,
)
    requires
        call_ensures(
            RamfluxClient::set_conversation_archived,
            (client, conversation_id, archived),
            set_conversation_archived,
        ),
        call_ensures(
            RamfluxClient::pin_conversation,
            (client, conversation_id, pin_order),
            pin_conversation,
        ),
        call_ensures(
            RamfluxClient::unpin_conversation,
            (client, conversation_id),
            unpin_conversation,
        ),
        call_ensures(
            RamfluxClient::mute_conversation,
            (client, conversation_id, mute_until),
            mute_conversation,
        ),
        call_ensures(
            RamfluxClient::unmute_conversation,
            (client, conversation_id),
            unmute_conversation,
        ),
    ensures
        set_conversation_archived is Ok <==> client.active_account_db is Some,
        set_conversation_archived is Err ==> set_conversation_archived->Err_0 is AccountDbNotUnlocked,
        pin_conversation is Ok <==> client.active_account_db is Some,
        pin_conversation is Err ==> pin_conversation->Err_0 is AccountDbNotUnlocked,
        unpin_conversation is Ok <==> client.active_account_db is Some,
        unpin_conversation is Err ==> unpin_conversation->Err_0 is AccountDbNotUnlocked,
        mute_conversation is Ok <==> client.active_account_db is Some,
        mute_conversation is Err ==> mute_conversation->Err_0 is AccountDbNotUnlocked,
        unmute_conversation is Ok <==> client.active_account_db is Some,
        unmute_conversation is Err ==> unmute_conversation->Err_0 is AccountDbNotUnlocked,
        set_conversation_archived matches Ok(q) ==> (q matches AccountDbRequest::SetConversationArchived { conversation_id: its_conversation_id, archived: its_archived } && its_conversation_id@ == conversation_id@ && its_archived == archived),
        pin_conversation matches Ok(q) ==> (q matches AccountDbRequest::PinConversation { conversation_id: its_conversation_id, pin_order: its_pin_order } && its_conversation_id@ == conversation_id@ && its_pin_order == pin_order),
        unpin_conversation matches Ok(q) ==> (q matches AccountDbRequest::UnpinConversation { conversation_id: its_conversation_id } && its_conversation_id@ == conversation_id@),
        mute_conversation matches Ok(q) ==> (q matches AccountDbRequest::MuteConversation { conversation_id: its_conversation_id, mute_until: its_mute_until } && its_conversation_id@ == conversation_id@ && its_mute_until == mute_until),
        unmute_conversation matches Ok(q) ==> (q matches AccountDbRequest::UnmuteConversation { conversation_id: its_conversation_id } && its_conversation_id@ == conversation_id@),
{
}

/// A conversation is hidden or cleared from the time that is given, and one message of it is deleted by
/// its name.
pub proof fn law_conversation_is_cleared_as_asked(
    client: &RamfluxClient,
    conversation_id: &str,
    hidden_at: i64,
    cleared_at: i64,
    scope: &str,
    message_id: &str,
    delete_scope: &str,
    tombstone_id: &str,
    hide_conversation_at: Result<AccountDbRequest, SdkError>,
    clear_conversation_at: Result<AccountDbRequest, SdkError>,
    delete_direct_message: Result<AccountDbRequest, SdkError>,
)
    requires
        call_ensures(
            RamfluxClient::hide_conversation_at,
            (client, conversation_id, hidden_at),
            hide_conversation_at,
        ),
        call_ensures(
            RamfluxClient::clear_conversation_at,
            (client, conversation_id, cleared_at, scope),
            clear_conversation_at,
        ),
        call_ensures(
            RamfluxClient::delete_direct_message,
            (client, conversation_id, message_id, delete_scope, tombstone_id),
            delete_direct_message,
        ),
    ensures
        hide_conversation_at is Ok <==> client.active_account_db is Some,
        hide_conversation_at is Err ==> hide_conversation_at->Err_0 is AccountDbNotUnlocked,
        clear_conversation_at is Ok <==> client.active_account_db is Some,
        clear_conversation_at is Err ==> clear_conversation_at->Err_0 is AccountDbNotUnlocked,
        delete_direct_message is Ok <==> client.active_account_db is Some,
        delete_direct_message is Err ==> delete_direct_message->Err_0 is AccountDbNotUnlocked,
        hide_conversation_at matches Ok(q) ==> (q matches AccountDbRequest::HideConversationAt { conversation_id: its_conversation_id, hidden_at: its_hidden_at } && its_conversation_id@ == conversation_id@ && its_hidden_at == hidden_at),
        clear_conversation_at matches Ok(q) ==> (q matches AccountDbRequest::ClearConversationAt { conversation_id: its_conversation_id, cleared_at: its_cleared_at, scope: its_scope } && its_conversation_id@ == conversation_id@ && its_cleared_at == cleared_at && its_scope@ == scope@),
        delete_direct_message matches Ok(q) ==> (q matches AccountDbRequest::DeleteDirectMessage { conversation_id: its_conversation_id, message_id: its_message_id, delete_scope: its_delete_scope, tombstone_id: its_tombstone_id } && its_conversation_id@ == conversation_id@ && its_message_id@ == message_id@ && its_delete_scope@ == delete_scope@ && its_tombstone_id@ == tombstone_id@),
{
}

/// A message is marked as read by its reader, as delivered to its device, or as the first that is unread,
/// just the one that is named.
pub proof fn law_message_is_marked_as_asked(
    client: &RamfluxClient,
    conversation_id: &str,
    reader_id: &str,
    message_id: &str,
    receiver_device_id: &str,
    delivered_at: i64,
    ttl_seconds: i64,
    marker_owner: &str,
    marker_epoch: u64,
    mark_read: Result<AccountDbRequest, SdkError>,
    mark_delivered: Result<AccountDbRequest, SdkError>,
    set_unread_marker: Result<AccountDbRequest, SdkError>,
    clear_unread_marker: Result<AccountDbRequest, SdkError>,
)
    requires
        call_ensures(
            RamfluxClient::mark_read,
            (client, conversation_id, reader_id, message_id),
            mark_read,
        ),
        call_ensures(
            RamfluxClient::mark_delivered,
            (client, conversation_id, receiver_device_id, message_id, delivered_at, ttl_seconds),
            mark_delivered,
        ),
        call_ensures(
            RamfluxClient::set_unread_marker,
            (client, conversation_id, marker_owner, message_id, marker_epoch),
            set_unread_marker,
        ),
        call_ensures(
            RamfluxClient::clear_unread_marker,
            (client, conversation_id, marker_owner, marker_epoch),
            clear_unread_marker,
        ),
    ensures
        mark_read is Ok <==> client.active_account_db is Some,
        mark_read is Err ==> mark_read->Err_0 is AccountDbNotUnlocked,
        mark_delivered is Ok <==> client.active_account_db is Some,
        mark_delivered is Err ==> mark_delivered->Err_0 is AccountDbNotUnlocked,
        set_unread_marker is Ok <==> client.active_account_db is Some,
        set_unread_marker is Err ==> set_unread_marker->Err_0 is AccountDbNotUnlocked,
        clear_unread_marker is Ok <==> client.active_account_db is Some,
        clear_unread_marker is Err ==> clear_unread_marker->Err_0 is AccountDbNotUnlocked,
        mark_read matches Ok(q) ==> (q matches AccountDbRequest::MarkRead { conversation_id: its_conversation_id, reader_id: its_reader_id, message_id: its_message_id } && its_conversation_id@ == conversation_id@ && its_reader_id@ == reader_id@ && its_message_id@ == message_id@),
        mark_delivered matches Ok(q) ==> (q matches AccountDbRequest::MarkDelivered { conversation_id: its_conversation_id, receiver_device_id: its_receiver_device_id, message_id: its_message_id, delivered_at: its_delivered_at, ttl_seconds: its_ttl_seconds } && its_conversation_id@ == conversation_id@ && its_receiver_device_id@ == receiver_device_id@ && its_message_id@ == message_id@ && its_delivered_at == delivered_at && its_ttl_seconds == ttl_seconds),
        set_unread_marker matches Ok(q) ==> (q matches AccountDbRequest::SetUnreadMarker { conversation_id: its_conversation_id, marker_owner: its_marker_owner, message_id: its_message_id, marker_epoch: its_marker_epoch } && its_conversation_id@ == conversation_id@ && its_marker_owner@ == marker_owner@ && its_message_id@ == message_id@ && its_marker_epoch == marker_epoch),
        clear_unread_marker matches Ok(q) ==> (q matches AccountDbRequest::ClearUnreadMarker { conversation_id: its_conversation_id, marker_owner: its_marker_owner, marker_epoch: its_marker_epoch } && its_conversation_id@ == conversation_id@ && its_marker_owner@ == marker_owner@ && its_marker_epoch == marker_epoch),
{
}

} // verus!

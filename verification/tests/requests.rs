//! What an unlocked account is asked, and that a locked one is asked nothing.
use ramflux_sdk::client::state::RamfluxClient;
use ramflux_sdk::error::SdkError;
use ramflux_sdk::gateway::engine::GatewayDirectMessage;
use ramflux_sdk::records::{AccountDbRequest, AccountIndexRequest};

type Asked = Result<AccountDbRequest, SdkError>;

fn unlocked() -> RamfluxClient {
    let mut client = RamfluxClient::new();
    client.open_account_index("/accounts".to_owned());
    client.account_unlocked("acct");
    client
}

fn text(words: &str) -> String {
    words.to_owned()
}

/// Holds a request to what it has to be, and to its refusal while the account is locked.
fn hold(ask: fn(&RamfluxClient) -> Asked, wanted: AccountDbRequest) {
    assert_eq!(ask(&unlocked()), Ok(wanted));
    assert_eq!(ask(&RamfluxClient::new()), Err(SdkError::AccountDbNotUnlocked));
}

#[test]
fn events_and_checkpoints_are_asked_for() {
    hold(|c| c.event_body("e"), AccountDbRequest::EventBody { event_id: text("e") });
    hold(
        |c| c.set_projection_checkpoint("p", "e"),
        AccountDbRequest::SetProjectionCheckpoint {
            projection_name: text("p"),
            last_event_id: text("e"),
        },
    );
    hold(
        |c| c.projection_checkpoint("p"),
        AccountDbRequest::ProjectionCheckpoint { projection_name: text("p") },
    );
    hold(
        |c| c.export_history_bundle("s", "t"),
        AccountDbRequest::ExportHistoryBundle {
            source_device_id: text("s"),
            target_device_id: text("t"),
        },
    );
    hold(
        |c| c.x3dh_private_checkpoint("d"),
        AccountDbRequest::ProjectionCheckpoint {
            projection_name: ramflux_sdk::dm::x3dh_private_checkpoint_name("d"),
        },
    );
    assert_eq!(unlocked().import_history_bundle(5), Ok(5));
    assert_eq!(
        RamfluxClient::new().import_history_bundle(5),
        Err(SdkError::AccountDbNotUnlocked)
    );
    assert_eq!(
        unlocked().set_active_account("a"),
        Ok(AccountIndexRequest::SetActiveAccount { local_account_id: text("a") })
    );
    assert_eq!(
        RamfluxClient::new().set_active_account("a"),
        Err(SdkError::AccountIndexNotOpen)
    );
}

#[test]
fn friend_links_are_asked_for() {
    hold(
        |c| c.establish_friend_link("l", "r", "t"),
        AccountDbRequest::EstablishFriendLink {
            link_id: text("l"),
            requester_id: text("r"),
            target_id: text("t"),
        },
    );
    hold(
        |c| c.contact_verification_status("c"),
        AccountDbRequest::ContactVerification { contact_identity_commitment: text("c") },
    );
    hold(
        |c| c.remove_friend_link("l", "s", 1).map(|update| update.request),
        AccountDbRequest::RemoveFriendLink { link_id: text("l"), scope: text("s"), now: 1 },
    );
    hold(
        |c| c.block_friend_link("l", 1).map(|update| update.request),
        AccountDbRequest::BlockFriendLink { link_id: text("l"), now: 1 },
    );
    hold(
        |c| c.unblock_friend_link("l", 1).map(|update| update.request),
        AccountDbRequest::UnblockFriendLink { link_id: text("l"), now: 1 },
    );
    hold(
        |c| c.record_pending_friend_link("l", "r", "t", 1),
        AccountDbRequest::RecordPendingFriendLink {
            link_id: text("l"),
            requester_id: text("r"),
            target_id: text("t"),
            now: 1,
        },
    );
    hold(
        |c| c.rejected_inbox("c"),
        AccountDbRequest::RejectedInbox { conversation_id: text("c") },
    );
    hold(
        |c| c.friend_link_for_peer("p"),
        AccountDbRequest::FriendLinkForPeer { peer_id: text("p") },
    );
}

#[test]
fn conversations_are_asked_for() {
    hold(
        |c| c.set_disappearing_policy("c", 1, "m", "s", 2),
        AccountDbRequest::SetDisappearingPolicy {
            conversation_id: text("c"),
            timer_seconds: 1,
            countdown_mode: text("m"),
            scope: text("s"),
            updated_at: 2,
        },
    );
    hold(
        |c| c.expire_disappearing_messages("c", 1),
        AccountDbRequest::ExpireDisappearingMessages { conversation_id: text("c"), now: 1 },
    );
    hold(
        |c| c.typing_stopped("c", "a"),
        AccountDbRequest::TypingStopped {
            conversation_id: text("c"),
            actor_identity: text("a"),
        },
    );
    hold(
        |c| c.active_typing("c", 1),
        AccountDbRequest::ActiveTyping { conversation_id: text("c"), now: 1 },
    );
    hold(
        |c| c.contact_presence("i", 1),
        AccountDbRequest::ContactPresence { identity_commitment: text("i"), now: 1 },
    );
    hold(
        |c| c.identity_lifecycle("i"),
        AccountDbRequest::IdentityLifecycle { identity_commitment: text("i") },
    );
    hold(
        |c| c.message_mentions("c", "m", "i"),
        AccountDbRequest::MessageMentions {
            conversation_id: text("c"),
            message_id: text("m"),
            identity_commitment: text("i"),
        },
    );
    hold(
        |c| c.direct_message_by_id("m"),
        AccountDbRequest::DirectMessageById { message_id: text("m") },
    );
    hold(
        |c| c.set_conversation_archived("c", true),
        AccountDbRequest::SetConversationArchived { conversation_id: text("c"), archived: true },
    );
    hold(
        |c| c.pin_conversation("c", 3),
        AccountDbRequest::PinConversation { conversation_id: text("c"), pin_order: 3 },
    );
    hold(
        |c| c.unpin_conversation("c"),
        AccountDbRequest::UnpinConversation { conversation_id: text("c") },
    );
    hold(
        |c| c.mute_conversation("c", 3),
        AccountDbRequest::MuteConversation { conversation_id: text("c"), mute_until: 3 },
    );
    hold(
        |c| c.unmute_conversation("c"),
        AccountDbRequest::UnmuteConversation { conversation_id: text("c") },
    );
    hold(
        |c| c.hide_conversation_at("c", 3),
        AccountDbRequest::HideConversationAt { conversation_id: text("c"), hidden_at: 3 },
    );
    hold(
        |c| c.clear_conversation_at("c", 3, "s"),
        AccountDbRequest::ClearConversationAt {
            conversation_id: text("c"),
            cleared_at: 3,
            scope: text("s"),
        },
    );
    hold(
        |c| c.conversation_list_state("c"),
        AccountDbRequest::ConversationListState { conversation_id: text("c") },
    );
    hold(
        |c| c.set_unread_marker("c", "o", "m", 4),
        AccountDbRequest::SetUnreadMarker {
            conversation_id: text("c"),
            marker_owner: text("o"),
            message_id: text("m"),
            marker_epoch: 4,
        },
    );
    hold(
        |c| c.clear_unread_marker("c", "o", 4),
        AccountDbRequest::ClearUnreadMarker {
            conversation_id: text("c"),
            marker_owner: text("o"),
            marker_epoch: 4,
        },
    );
    hold(
        |c| c.conversation_projection("c", "r"),
        AccountDbRequest::ConversationProjection {
            conversation_id: text("c"),
            reader_id: text("r"),
        },
    );
    assert_eq!(unlocked().update_contact_presence("p"), Ok("p"));
    assert_eq!(
        RamfluxClient::new().update_contact_presence("p"),
        Err(SdkError::AccountDbNotUnlocked)
    );
    let write = unlocked().apply_identity_lifecycle_event("i", "e", "t", 2, 7_u8);
    assert!(matches!(
        write,
        Ok(write) if write.identity_commitment == "i" && write.event_id == "e"
            && write.event_type == "t" && write.lifecycle_epoch == 2 && write.timing == 7
    ));
}

#[test]
fn messages_and_members_are_asked_for() {
    let sent = || AccountDbRequest::SendDirectMessage {
        conversation_id: text("c"),
        message_id: text("m"),
        sender_id: text("s"),
        encrypted_body: b"body".to_vec(),
    };
    hold(|c| c.send_direct_message("c", "m", "s", b"body"), sent());
    hold(
        |c| {
            c.send_direct_message_via_gateway(&GatewayDirectMessage {
                conversation_id: text("c"),
                message_id: text("m"),
                envelope_id: text("e"),
                source_principal_id: text("p"),
                sender_id: text("s"),
                recipient_device_id: None,
                target_delivery_id: text("t"),
                encrypted_body: b"body".to_vec(),
                created_at: 1,
                ttl: 1,
            })
        },
        sent(),
    );
    hold(
        |c| c.remove_group_member("g", "a", "t"),
        AccountDbRequest::RemoveGroupMember {
            group_id: text("g"),
            actor_id: text("a"),
            target_member_id: text("t"),
        },
    );
    hold(|c| c.group_state("g"), AccountDbRequest::GroupState { group_id: text("g") });
    hold(|c| c.groups(), AccountDbRequest::Groups);
}

//! An account that is not open: nothing is asked of it, and it is said why.
use crate::client::contact::{ContactVerificationUpdate, FriendChange, FriendLinkUpdate};
use crate::client::dm::ExcerptError;
use crate::client::dm_session::RecvCommitFingerprint;
use crate::client::group::{GroupInvite, LocalBusGroupMemberRoute, MemberRouteWrite};
use crate::client::group_session::SealedGroupMessage;
use crate::client::state::RamfluxClient;
use crate::contact::{
    ContactVerificationRecord, FriendLinkRecord, SafetyMaterial, SdkContactSafetyNumber,
};
use crate::dm::SdkSelectedFrankingEvidence;
use crate::error::SdkError;
use crate::gateway::protocol::{GatewayCursor, GatewayInboxEntry};
use crate::group::{
    GroupState, SdkGroupEncryptedEnvelope, SdkGroupSenderKeyDistribution, SdkGroupSenderKeyState,
};
use crate::group_control::GroupEvent;
use crate::object::DmCiphertext;
use crate::records::{AccountDbRequest, DirectMessageRecord, EventWrite, MessageMetadata};
use vstd::prelude::*;

verus! {

/// No link to a contact is changed in an account that is not open.
pub proof fn law_locked_account_changes_no_link(
    client: &RamfluxClient,
    link_id: &str,
    scope: &str,
    now: i64,
    requester_id: &str,
    target_id: &str,
    remove_friend_link: Result<FriendLinkUpdate, SdkError>,
    block_friend_link: Result<FriendLinkUpdate, SdkError>,
    unblock_friend_link: Result<FriendLinkUpdate, SdkError>,
    reject_friend_link: Result<FriendLinkUpdate, SdkError>,
    establish_friend_link: Result<AccountDbRequest, SdkError>,
    record_pending_friend_link: Result<AccountDbRequest, SdkError>,
)
    requires
        client.active_account_db is None,
        call_ensures(
            RamfluxClient::remove_friend_link,
            (client, link_id, scope, now),
            remove_friend_link,
        ),
        call_ensures(
            RamfluxClient::block_friend_link,
            (client, link_id, now),
            block_friend_link,
        ),
        call_ensures(
            RamfluxClient::unblock_friend_link,
            (client, link_id, now),
            unblock_friend_link,
        ),
        call_ensures(
            RamfluxClient::reject_friend_link,
            (client, link_id, now),
            reject_friend_link,
        ),
        call_ensures(
            RamfluxClient::establish_friend_link,
            (client, link_id, requester_id, target_id),
            establish_friend_link,
        ),
        call_ensures(
            RamfluxClient::record_pending_friend_link,
            (client, link_id, requester_id, target_id, now),
            record_pending_friend_link,
        ),
    ensures
        remove_friend_link is Err && remove_friend_link->Err_0 is AccountDbNotUnlocked,
        block_friend_link is Err && block_friend_link->Err_0 is AccountDbNotUnlocked,
        unblock_friend_link is Err && unblock_friend_link->Err_0 is AccountDbNotUnlocked,
        reject_friend_link is Err && reject_friend_link->Err_0 is AccountDbNotUnlocked,
        establish_friend_link is Err && establish_friend_link->Err_0 is AccountDbNotUnlocked,
        record_pending_friend_link is Err && record_pending_friend_link->Err_0 is AccountDbNotUnlocked,
{
}

/// No contact is verified, and no change of a link recorded, in an account that is not open.
pub proof fn law_locked_account_verifies_no_contact(
    client: &RamfluxClient,
    links: &Vec<FriendLinkRecord>,
    contact_identity_commitment: &str,
    material: SafetyMaterial,
    record: &Option<ContactVerificationRecord>,
    verified_by_device_id: &str,
    now: i64,
    change: FriendChange,
    link: &FriendLinkRecord,
    contact_safety_number: Result<SdkContactSafetyNumber, SdkError>,
    mark_contact_safety_verified: Result<ContactVerificationUpdate, SdkError>,
    append_contact_control_event: Result<EventWrite, SdkError>,
)
    requires
        client.active_account_db is None,
        call_ensures(
            RamfluxClient::contact_safety_number,
            (client, links, contact_identity_commitment, material, record),
            contact_safety_number,
        ),
        call_ensures(
            RamfluxClient::mark_contact_safety_verified,
            (client, links, contact_identity_commitment, material, verified_by_device_id, now),
            mark_contact_safety_verified,
        ),
        call_ensures(
            RamfluxClient::append_contact_control_event,
            (client, change, link),
            append_contact_control_event,
        ),
    ensures
        contact_safety_number is Err && contact_safety_number->Err_0 is AccountDbNotUnlocked,
        mark_contact_safety_verified is Err && mark_contact_safety_verified->Err_0 is AccountDbNotUnlocked,
        append_contact_control_event is Err && append_contact_control_event->Err_0 is AccountDbNotUnlocked,
{
}

/// No event of a group is made in an account that is not open.
pub proof fn law_locked_account_makes_no_group_event(
    client: &RamfluxClient,
    group: &GroupState,
    group_id: &str,
    actor_device_id: &str,
    target_member_id: &str,
    reason: &str,
    domain: &str,
    now: i64,
    invitee_identity: &str,
    invitee_signing_public_key: &str,
    invited_role: &str,
    expires_at: i64,
    invite_id: &str,
    invite: &GroupInvite,
    joined_identity: &str,
    joined_role: &str,
    actor_principal_commitment: &str,
    target_message_id: &str,
    delete_scope: &str,
    new_role: &str,
    create_signed_group_member_kick: Result<GroupEvent, SdkError>,
    create_signed_group_member_ban: Result<GroupEvent, SdkError>,
    create_signed_group_member_invite: Result<GroupEvent, SdkError>,
    create_signed_group_member_accept: Result<GroupEvent, SdkError>,
    create_signed_group_member_join_event: Result<GroupEvent, SdkError>,
    create_signed_group_message_delete: Result<GroupEvent, SdkError>,
    create_signed_group_role_change: Result<GroupEvent, SdkError>,
)
    requires
        client.active_account_db is None,
        call_ensures(
            RamfluxClient::create_signed_group_member_kick,
            (client, group, group_id, actor_device_id, target_member_id, reason, domain, now),
            create_signed_group_member_kick,
        ),
        call_ensures(
            RamfluxClient::create_signed_group_member_ban,
            (client, group, group_id, actor_device_id, target_member_id, reason, domain, now),
            create_signed_group_member_ban,
        ),
        call_ensures(
            RamfluxClient::create_signed_group_member_invite,
            (client, group, group_id, actor_device_id, invitee_identity, invitee_signing_public_key, invited_role, expires_at, reason, domain, now),
            create_signed_group_member_invite,
        ),
        call_ensures(
            RamfluxClient::create_signed_group_member_accept,
            (client, group, group_id, actor_device_id, invite_id, invite, domain, now),
            create_signed_group_member_accept,
        ),
        call_ensures(
            RamfluxClient::create_signed_group_member_join_event,
            (client, group, group_id, actor_device_id, joined_identity, joined_role, actor_principal_commitment, domain, now),
            create_signed_group_member_join_event,
        ),
        call_ensures(
            RamfluxClient::create_signed_group_message_delete,
            (client, group, group_id, actor_device_id, target_message_id, delete_scope, reason, domain, now),
            create_signed_group_message_delete,
        ),
        call_ensures(
            RamfluxClient::create_signed_group_role_change,
            (client, group, group_id, actor_device_id, target_member_id, new_role, domain, now),
            create_signed_group_role_change,
        ),
    ensures
        create_signed_group_member_kick is Err && create_signed_group_member_kick->Err_0 is AccountDbNotUnlocked,
        create_signed_group_member_ban is Err && create_signed_group_member_ban->Err_0 is AccountDbNotUnlocked,
        create_signed_group_member_invite is Err && create_signed_group_member_invite->Err_0 is AccountDbNotUnlocked,
        create_signed_group_member_accept is Err && create_signed_group_member_accept->Err_0 is AccountDbNotUnlocked,
        create_signed_group_member_join_event is Err && create_signed_group_member_join_event->Err_0 is AccountDbNotUnlocked,
        create_signed_group_message_delete is Err && create_signed_group_message_delete->Err_0 is AccountDbNotUnlocked,
        create_signed_group_role_change is Err && create_signed_group_role_change->Err_0 is AccountDbNotUnlocked,
{
}

/// Nothing is read or written of a group in an account that is not open.
pub proof fn law_locked_account_reads_no_group(
    client: &RamfluxClient,
    group_id: &str,
    group: &GroupState,
    route: &LocalBusGroupMemberRoute,
    recorded: bool,
    encoded: &[u8],
    member_id: &str,
    role: &str,
    actor_id: &str,
    target_member_id: &str,
    group_state: Result<AccountDbRequest, SdkError>,
    group_member_routes: Result<Vec<String>, SdkError>,
    persist_group_member_route: Result<Option<MemberRouteWrite>, SdkError>,
    add_group_member: Result<AccountDbRequest, SdkError>,
    remove_group_member: Result<AccountDbRequest, SdkError>,
)
    requires
        client.active_account_db is None,
        call_ensures(
            RamfluxClient::group_state,
            (client, group_id),
            group_state,
        ),
        call_ensures(
            RamfluxClient::group_member_routes,
            (client, group_id, group),
            group_member_routes,
        ),
        call_ensures(
            RamfluxClient::persist_group_member_route,
            (client, group_id, route, recorded, encoded),
            persist_group_member_route,
        ),
        call_ensures(
            RamfluxClient::add_group_member,
            (client, group_id, member_id, role),
            add_group_member,
        ),
        call_ensures(
            RamfluxClient::remove_group_member,
            (client, group_id, actor_id, target_member_id),
            remove_group_member,
        ),
    ensures
        group_state is Err && group_state->Err_0 is AccountDbNotUnlocked,
        group_member_routes is Err && group_member_routes->Err_0 is AccountDbNotUnlocked,
        persist_group_member_route is Err && persist_group_member_route->Err_0 is AccountDbNotUnlocked,
        add_group_member is Err && add_group_member->Err_0 is AccountDbNotUnlocked,
        remove_group_member is Err && remove_group_member->Err_0 is AccountDbNotUnlocked,
{
}

/// No key of a group is kept or handed out by an account that is not open.
pub proof fn law_locked_account_has_no_group_keys(
    client: &RamfluxClient,
    group: &GroupState,
    sender_id: &str,
    group_id: &str,
    sender_key_seed: [u8; 32],
    ciphertext: DmCiphertext,
    snapshot: Vec<u8>,
    encoded: &[u8],
    state: &SdkGroupSenderKeyState,
    direction: &str,
    event_suffix: &str,
    group_key_epoch: u64,
    envelope: &SdkGroupEncryptedEnvelope,
    message_id: &str,
    now: i64,
    messages: &Vec<DirectMessageRecord>,
    counter_seen: bool,
    check_group_sender: Result<(), SdkError>,
    export_group_sender_key_distribution: Result<SdkGroupSenderKeyDistribution, SdkError>,
    encrypt_group_message: Result<SealedGroupMessage, SdkError>,
    persist_group_sender_key_state: Result<EventWrite, SdkError>,
    pending_group_messages: Result<AccountDbRequest, SdkError>,
    group_sender_key_counter_seen: Result<AccountDbRequest, SdkError>,
    record_group_sender_key_counter: Result<AccountDbRequest, SdkError>,
    settle_known_group_message: Result<Option<AccountDbRequest>, SdkError>,
)
    requires
        client.active_account_db is None,
        call_ensures(
            RamfluxClient::check_group_sender,
            (client, group, sender_id),
            check_group_sender,
        ),
        call_ensures(
            RamfluxClient::export_group_sender_key_distribution,
            (client, group, group_id, sender_id, sender_key_seed),
            export_group_sender_key_distribution,
        ),
        call_ensures(
            RamfluxClient::encrypt_group_message,
            (client, group, group_id, sender_id, ciphertext, snapshot, encoded),
            encrypt_group_message,
        ),
        call_ensures(
            RamfluxClient::persist_group_sender_key_state,
            (client, state, direction, event_suffix, encoded),
            persist_group_sender_key_state,
        ),
        call_ensures(
            RamfluxClient::pending_group_messages,
            (client, group_id, group_key_epoch),
            pending_group_messages,
        ),
        call_ensures(
            RamfluxClient::group_sender_key_counter_seen,
            (client, envelope),
            group_sender_key_counter_seen,
        ),
        call_ensures(
            RamfluxClient::record_group_sender_key_counter,
            (client, envelope, message_id, now),
            record_group_sender_key_counter,
        ),
        call_ensures(
            RamfluxClient::settle_known_group_message,
            (client, messages, message_id, counter_seen),
            settle_known_group_message,
        ),
    ensures
        check_group_sender is Err && check_group_sender->Err_0 is AccountDbNotUnlocked,
        export_group_sender_key_distribution is Err && export_group_sender_key_distribution->Err_0 is AccountDbNotUnlocked,
        encrypt_group_message is Err && encrypt_group_message->Err_0 is AccountDbNotUnlocked,
        persist_group_sender_key_state is Err && persist_group_sender_key_state->Err_0 is AccountDbNotUnlocked,
        pending_group_messages is Err && pending_group_messages->Err_0 is AccountDbNotUnlocked,
        group_sender_key_counter_seen is Err && group_sender_key_counter_seen->Err_0 is AccountDbNotUnlocked,
        record_group_sender_key_counter is Err && record_group_sender_key_counter->Err_0 is AccountDbNotUnlocked,
        settle_known_group_message is Err && settle_known_group_message->Err_0 is AccountDbNotUnlocked,
{
}

/// No message is recorded, acknowledged or reported by an account that is not open.
pub proof fn law_locked_account_keeps_no_message(
    client: &RamfluxClient,
    conversation_id: &str,
    message_id: &str,
    sender_id: &str,
    encrypted_body: &[u8],
    metadata: MessageMetadata,
    entry: &GatewayInboxEntry,
    recorded: bool,
    canonical: &[u8],
    messages: &Vec<DirectMessageRecord>,
    plaintext: &[u8],
    metadata_of_append_plaintext_projection_once: Option<MessageMetadata>,
    reason: &str,
    now: i64,
    message: Option<DirectMessageRecord>,
    plaintext_of_selected_franking_evidence_for_direct_message: Result<String, ExcerptError>,
    cursor: &GatewayCursor,
    send_direct_message: Result<AccountDbRequest, SdkError>,
    send_direct_message_with_metadata: Result<AccountDbRequest, SdkError>,
    append_gateway_delivery: Result<Option<AccountDbRequest>, SdkError>,
    append_plaintext_projection_once: Result<Option<AccountDbRequest>, SdkError>,
    reject_inbox_message: Result<AccountDbRequest, SdkError>,
    selected_franking_evidence_for_direct_message: Result<SdkSelectedFrankingEvidence, SdkError>,
    ack_gateway_delivery: Result<AccountDbRequest, SdkError>,
)
    requires
        client.active_account_db is None,
        call_ensures(
            RamfluxClient::send_direct_message,
            (client, conversation_id, message_id, sender_id, encrypted_body),
            send_direct_message,
        ),
        call_ensures(
            RamfluxClient::send_direct_message_with_metadata,
            (client, conversation_id, message_id, sender_id, encrypted_body, metadata),
            send_direct_message_with_metadata,
        ),
        call_ensures(
            RamfluxClient::append_gateway_delivery,
            (client, entry, recorded, canonical),
            append_gateway_delivery,
        ),
        call_ensures(
            RamfluxClient::append_plaintext_projection_once,
            (client, conversation_id, entry, messages, plaintext, metadata_of_append_plaintext_projection_once),
            append_plaintext_projection_once,
        ),
        call_ensures(
            RamfluxClient::reject_inbox_message,
            (client, conversation_id, entry, reason, now),
            reject_inbox_message,
        ),
        call_ensures(
            RamfluxClient::selected_franking_evidence_for_direct_message,
            (client, conversation_id, message_id, message, plaintext_of_selected_franking_evidence_for_direct_message),
            selected_franking_evidence_for_direct_message,
        ),
        call_ensures(
            RamfluxClient::ack_gateway_delivery,
            (client, cursor),
            ack_gateway_delivery,
        ),
    ensures
        send_direct_message is Err && send_direct_message->Err_0 is AccountDbNotUnlocked,
        send_direct_message_with_metadata is Err && send_direct_message_with_metadata->Err_0 is AccountDbNotUnlocked,
        append_gateway_delivery is Err && append_gateway_delivery->Err_0 is AccountDbNotUnlocked,
        append_plaintext_projection_once is Err && append_plaintext_projection_once->Err_0 is AccountDbNotUnlocked,
        reject_inbox_message is Err && reject_inbox_message->Err_0 is AccountDbNotUnlocked,
        selected_franking_evidence_for_direct_message is Err && selected_franking_evidence_for_direct_message->Err_0 is AccountDbNotUnlocked,
        ack_gateway_delivery is Err && ack_gateway_delivery->Err_0 is AccountDbNotUnlocked,
{
}

/// No place or cursor is read or kept in an account that is not open.
pub proof fn law_locked_account_has_no_places(
    client: &RamfluxClient,
    target_delivery_id: &str,
    inbox_seq: u64,
    main_recv_checkpoint: Option<String>,
    slot_recv_checkpoint: Option<String>,
    cursor_checkpoint: Option<String>,
    owner_principal_id: &str,
    account_db: Result<&String, SdkError>,
    gateway_cursor: Result<AccountDbRequest, SdkError>,
    gateway_receive_cursor: Result<AccountDbRequest, SdkError>,
    persist_gateway_cursor: Result<AccountDbRequest, SdkError>,
    persist_gateway_receive_cursor: Result<AccountDbRequest, SdkError>,
    recv_commit_fingerprint: Result<RecvCommitFingerprint, SdkError>,
    guardian_recovery_shares_for_owner: Result<AccountDbRequest, SdkError>,
)
    requires
        client.active_account_db is None,
        call_ensures(
            RamfluxClient::account_db,
            (client,),
            account_db,
        ),
        call_ensures(
            RamfluxClient::gateway_cursor,
            (client, target_delivery_id),
            gateway_cursor,
        ),
        call_ensures(
            RamfluxClient::gateway_receive_cursor,
            (client, target_delivery_id),
            gateway_receive_cursor,
        ),
        call_ensures(
            RamfluxClient::persist_gateway_cursor,
            (client, target_delivery_id, inbox_seq),
            persist_gateway_cursor,
        ),
        call_ensures(
            RamfluxClient::persist_gateway_receive_cursor,
            (client, target_delivery_id, inbox_seq),
            persist_gateway_receive_cursor,
        ),
        call_ensures(
            RamfluxClient::recv_commit_fingerprint,
            (client, main_recv_checkpoint, slot_recv_checkpoint, cursor_checkpoint),
            recv_commit_fingerprint,
        ),
        call_ensures(
            RamfluxClient::guardian_recovery_shares_for_owner,
            (client, owner_principal_id),
            guardian_recovery_shares_for_owner,
        ),
    ensures
        account_db is Err && account_db->Err_0 is AccountDbNotUnlocked,
        gateway_cursor is Err && gateway_cursor->Err_0 is AccountDbNotUnlocked,
        gateway_receive_cursor is Err && gateway_receive_cursor->Err_0 is AccountDbNotUnlocked,
        persist_gateway_cursor is Err && persist_gateway_cursor->Err_0 is AccountDbNotUnlocked,
        persist_gateway_receive_cursor is Err && persist_gateway_receive_cursor->Err_0 is AccountDbNotUnlocked,
        recv_commit_fingerprint is Err && recv_commit_fingerprint->Err_0 is AccountDbNotUnlocked,
        guardian_recovery_shares_for_owner is Err && guardian_recovery_shares_for_owner->Err_0 is AccountDbNotUnlocked,
{
}

} // verus!

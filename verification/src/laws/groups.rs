//! Groups: a control event that one device makes and signs is what every device that believes it
//! writes, and members read what members write.
use crate::client::group::{GroupInvite, LocalBusGroupMemberRoute, MemberRouteWrite};
use crate::client::state::RamfluxClient;
use crate::error::{SdkError, StorageError};
use crate::group::GroupState;
use crate::group_control::{
    control_key_lookup, control_public_key, group_control_write, ControlKeyLookup,
    GroupControlWrite, GroupEvent, GroupEventBody,
};
use crate::records::AccountDbRequest;
use crate::text::decimal;
use vstd::prelude::*;

verus! {

// ---- what a device makes is what is written ----

/// Kicking a member is written as it was asked for, by whoever believes the signed event: under the group, the
/// event and the device that acted.
pub proof fn law_kick_is_written_as_asked(
    client: &RamfluxClient,
    other: &RamfluxClient,
    group: &GroupState,
    group_id: &str,
    actor_device_id: &str,
    target_member_id: &str,
    reason: &str,
    domain: &str,
    now: i64,
    made: Result<GroupEvent, SdkError>,
    signature: String,
    signed: GroupEvent,
    key: String,
    later: i64,
    r: Result<GroupControlWrite, SdkError>,
)
    requires
        client.active_account_db is Some,
        client.device_branch matches Some(branch) && branch.device_id@ == actor_device_id@,
        other.active_account_db is Some,
        group.group_epoch < u64::MAX,
        call_ensures(
            RamfluxClient::create_signed_group_member_kick,
            (
                client,
                group,
                group_id,
                actor_device_id,
                target_member_id, reason,
                domain,
                now,
            ),
            made,
        ),
        made matches Ok(event) ==> call_ensures(
            GroupEvent::with_signature,
            (event, signature),
            signed,
        ),
        call_ensures(
            RamfluxClient::apply_group_control_event,
            (other, signed, domain, Some(key), Ok(()), later),
            r,
        ),
    ensures
        made matches Ok(event) && {
            &&& event.body is MemberRemoved
            &&& event.schema@ == "ramflux.client_event.v1"@
            &&& event.version == 1
            &&& event.created_at == now
            &&& event.domain@ == domain@
            &&& event.event_type@ == "group.member_kicked"@
            &&& event.actor_principal_id@ == client.device_branch->0.principal_id@
            &&& event.actor_device_id@ == actor_device_id@
            &&& event.signed.signing_key_id@ == "device:"@ + actor_device_id@
            &&& event.event_id@ == "group.member_kicked"@ + ":"@ + group_id@ + ":"@ + actor_device_id@ + ":"@
                + target_member_id@ + ":"@ + decimal((group.group_epoch + 1) as nat)
            &&& event.device_counter == group.group_epoch + 1
            &&& event.lamport_time == group.group_epoch + 1
            &&& event.causal_prev@.len() == 1
            &&& event.causal_prev@[0]@ == "group:"@ + group_id@ + ":epoch:"@ + decimal((group.group_epoch + 1) as nat)
            &&& signed.body == event.body
            &&& signed.event_id == event.event_id
            &&& signed.signed.signature@ == signature@
        },
        r matches Ok(GroupControlWrite::MemberKick(w)) && {
            &&& w.group_id@ == group_id@
            &&& w.actor_device_id@ == actor_device_id@
            &&& w.event_id@ == made->Ok_0.event_id@
            &&& w.previous_epoch == group.group_epoch
            &&& w.new_group_epoch == group.group_epoch + 1
            &&& w.target_member_id@ == target_member_id@
            &&& w.reason@ == reason@
        },
{
}

/// Banning a member is written as it was asked for, by whoever believes the signed event: under the group, the
/// event and the device that acted.
pub proof fn law_ban_is_written_as_asked(
    client: &RamfluxClient,
    other: &RamfluxClient,
    group: &GroupState,
    group_id: &str,
    actor_device_id: &str,
    target_member_id: &str,
    reason: &str,
    domain: &str,
    now: i64,
    made: Result<GroupEvent, SdkError>,
    signature: String,
    signed: GroupEvent,
    key: String,
    later: i64,
    r: Result<GroupControlWrite, SdkError>,
)
    requires
        client.active_account_db is Some,
        client.device_branch matches Some(branch) && branch.device_id@ == actor_device_id@,
        other.active_account_db is Some,
        group.group_epoch < u64::MAX,
        call_ensures(
            RamfluxClient::create_signed_group_member_ban,
            (
                client,
                group,
                group_id,
                actor_device_id,
                target_member_id, reason,
                domain,
                now,
            ),
            made,
        ),
        made matches Ok(event) ==> call_ensures(
            GroupEvent::with_signature,
            (event, signature),
            signed,
        ),
        call_ensures(
            RamfluxClient::apply_group_control_event,
            (other, signed, domain, Some(key), Ok(()), later),
            r,
        ),
    ensures
        made matches Ok(event) && {
            &&& event.body is MemberBanned
            &&& event.schema@ == "ramflux.client_event.v1"@
            &&& event.version == 1
            &&& event.created_at == now
            &&& event.domain@ == domain@
            &&& event.event_type@ == "group.member_banned"@
            &&& event.actor_principal_id@ == client.device_branch->0.principal_id@
            &&& event.actor_device_id@ == actor_device_id@
            &&& event.signed.signing_key_id@ == "device:"@ + actor_device_id@
            &&& event.event_id@ == "group.member_banned"@ + ":"@ + group_id@ + ":"@ + actor_device_id@ + ":"@
                + target_member_id@ + ":"@ + decimal((group.group_epoch + 1) as nat)
            &&& event.device_counter == group.group_epoch + 1
            &&& event.lamport_time == group.group_epoch + 1
            &&& event.causal_prev@.len() == 1
            &&& event.causal_prev@[0]@ == "group:"@ + group_id@ + ":epoch:"@ + decimal((group.group_epoch + 1) as nat)
            &&& signed.body == event.body
            &&& signed.event_id == event.event_id
            &&& signed.signed.signature@ == signature@
        },
        r matches Ok(GroupControlWrite::MemberBan(w)) && {
            &&& w.group_id@ == group_id@
            &&& w.actor_device_id@ == actor_device_id@
            &&& w.event_id@ == made->Ok_0.event_id@
            &&& w.previous_epoch == group.group_epoch
            &&& w.new_group_epoch == group.group_epoch + 1
            &&& w.target_member_id@ == target_member_id@
            &&& w.reason@ == reason@
            &&& w.ban_id@ == "group.ban:"@ + group_id@ + ":"@ + target_member_id@ + ":"@ + decimal((group.group_epoch + 1) as nat)
        },
{
}

/// Changing a role is written as it was asked for, by whoever believes the signed event: under the group, the
/// event and the device that acted.
pub proof fn law_role_change_is_written_as_asked(
    client: &RamfluxClient,
    other: &RamfluxClient,
    group: &GroupState,
    group_id: &str,
    actor_device_id: &str,
    target_member_id: &str,
    new_role: &str,
    domain: &str,
    now: i64,
    made: Result<GroupEvent, SdkError>,
    signature: String,
    signed: GroupEvent,
    key: String,
    later: i64,
    r: Result<GroupControlWrite, SdkError>,
)
    requires
        client.active_account_db is Some,
        client.device_branch matches Some(branch) && branch.device_id@ == actor_device_id@,
        other.active_account_db is Some,
        group.group_epoch < u64::MAX,
        call_ensures(
            RamfluxClient::create_signed_group_role_change,
            (
                client,
                group,
                group_id,
                actor_device_id,
                target_member_id, new_role,
                domain,
                now,
            ),
            made,
        ),
        made matches Ok(event) ==> call_ensures(
            GroupEvent::with_signature,
            (event, signature),
            signed,
        ),
        call_ensures(
            RamfluxClient::apply_group_control_event,
            (other, signed, domain, Some(key), Ok(()), later),
            r,
        ),
    ensures
        made matches Ok(event) && {
            &&& event.body is RoleChanged
            &&& event.schema@ == "ramflux.client_event.v1"@
            &&& event.version == 1
            &&& event.created_at == now
            &&& event.domain@ == domain@
            &&& event.event_type@ == "group.role_changed"@
            &&& event.actor_principal_id@ == client.device_branch->0.principal_id@
            &&& event.actor_device_id@ == actor_device_id@
            &&& event.signed.signing_key_id@ == "device:"@ + actor_device_id@
            &&& event.event_id@ == "group.role_changed"@ + ":"@ + group_id@ + ":"@ + actor_device_id@ + ":"@
                + target_member_id@ + ":"@ + decimal((group.group_epoch + 1) as nat)
            &&& event.device_counter == group.group_epoch + 1
            &&& event.lamport_time == group.group_epoch + 1
            &&& event.causal_prev@.len() == 1
            &&& event.causal_prev@[0]@ == "group:"@ + group_id@ + ":epoch:"@ + decimal((group.group_epoch + 1) as nat)
            &&& signed.body == event.body
            &&& signed.event_id == event.event_id
            &&& signed.signed.signature@ == signature@
        },
        r matches Ok(GroupControlWrite::RoleChange(w)) && {
            &&& w.group_id@ == group_id@
            &&& w.actor_device_id@ == actor_device_id@
            &&& w.event_id@ == made->Ok_0.event_id@
            &&& w.previous_epoch == group.group_epoch
            &&& w.new_group_epoch == group.group_epoch + 1
            &&& w.target_member_id@ == target_member_id@
            &&& w.new_role@ == new_role@
        },
{
}

/// Accepting an invitation is written as it was asked for, by whoever believes the signed event: under the group, the
/// event and the device that acted.
pub proof fn law_acceptance_is_written_as_asked(
    client: &RamfluxClient,
    other: &RamfluxClient,
    group: &GroupState,
    group_id: &str,
    actor_device_id: &str,
    invite_id: &str,
    invite: &GroupInvite,
    domain: &str,
    now: i64,
    made: Result<GroupEvent, SdkError>,
    signature: String,
    signed: GroupEvent,
    key: String,
    later: i64,
    r: Result<GroupControlWrite, SdkError>,
)
    requires
        client.active_account_db is Some,
        client.device_branch matches Some(branch) && branch.device_id@ == actor_device_id@,
        other.active_account_db is Some,
        group.group_epoch < u64::MAX,
        call_ensures(
            RamfluxClient::create_signed_group_member_accept,
            (
                client,
                group,
                group_id,
                actor_device_id,
                invite_id, invite,
                domain,
                now,
            ),
            made,
        ),
        made matches Ok(event) ==> call_ensures(
            GroupEvent::with_signature,
            (event, signature),
            signed,
        ),
        call_ensures(
            RamfluxClient::apply_group_control_event,
            (other, signed, domain, Some(key), Ok(()), later),
            r,
        ),
    ensures
        made matches Ok(event) && {
            &&& event.body is MemberAccepted
            &&& event.schema@ == "ramflux.client_event.v1"@
            &&& event.version == 1
            &&& event.created_at == now
            &&& event.domain@ == domain@
            &&& event.event_type@ == "group.member_accepted"@
            &&& event.actor_principal_id@ == client.device_branch->0.principal_id@
            &&& event.actor_device_id@ == actor_device_id@
            &&& event.signed.signing_key_id@ == "device:"@ + actor_device_id@
            &&& event.event_id@ == "group.member_accepted"@ + ":"@ + group_id@ + ":"@ + actor_device_id@ + ":"@
                + invite_id@ + ":"@ + decimal((group.group_epoch + 1) as nat)
            &&& event.device_counter == group.group_epoch + 1
            &&& event.lamport_time == group.group_epoch + 1
            &&& event.causal_prev@.len() == 1
            &&& event.causal_prev@[0]@ == "group:"@ + group_id@ + ":epoch:"@ + decimal((group.group_epoch + 1) as nat)
            &&& signed.body == event.body
            &&& signed.event_id == event.event_id
            &&& signed.signed.signature@ == signature@
        },
        r matches Ok(GroupControlWrite::MemberAccept(w)) && {
            &&& w.group_id@ == group_id@
            &&& w.actor_device_id@ == actor_device_id@
            &&& w.event_id@ == made->Ok_0.event_id@
            &&& w.previous_epoch == group.group_epoch
            &&& w.new_group_epoch == group.group_epoch + 1
            &&& w.invite_id@ == invite_id@
            &&& w.invitee_identity@ == invite.invitee_identity@
            &&& w.accepted_role@ == invite.invited_role@
            &&& w.now == later
        },
{
}

/// Deleting a message is written as it was asked for, by whoever believes the signed event: under the group, the
/// event and the device that acted.
pub proof fn law_deletion_is_written_as_asked(
    client: &RamfluxClient,
    other: &RamfluxClient,
    group: &GroupState,
    group_id: &str,
    actor_device_id: &str,
    target_message_id: &str,
    delete_scope: &str,
    reason: &str,
    domain: &str,
    now: i64,
    made: Result<GroupEvent, SdkError>,
    signature: String,
    signed: GroupEvent,
    key: String,
    later: i64,
    r: Result<GroupControlWrite, SdkError>,
)
    requires
        client.active_account_db is Some,
        client.device_branch matches Some(branch) && branch.device_id@ == actor_device_id@,
        other.active_account_db is Some,
        call_ensures(
            RamfluxClient::create_signed_group_message_delete,
            (
                client,
                group,
                group_id,
                actor_device_id,
                target_message_id, delete_scope, reason,
                domain,
                now,
            ),
            made,
        ),
        made matches Ok(event) ==> call_ensures(
            GroupEvent::with_signature,
            (event, signature),
            signed,
        ),
        call_ensures(
            RamfluxClient::apply_group_control_event,
            (other, signed, domain, Some(key), Ok(()), later),
            r,
        ),
    ensures
        made matches Ok(event) && {
            &&& event.body is MessageDeleted
            &&& event.schema@ == "ramflux.client_event.v1"@
            &&& event.version == 1
            &&& event.created_at == now
            &&& event.domain@ == domain@
            &&& event.event_type@ == "group.message_deleted"@
            &&& event.actor_principal_id@ == client.device_branch->0.principal_id@
            &&& event.actor_device_id@ == actor_device_id@
            &&& event.signed.signing_key_id@ == "device:"@ + actor_device_id@
            &&& event.event_id@ == "group.message_deleted"@ + ":"@ + group_id@ + ":"@ + actor_device_id@ + ":"@
                + target_message_id@ + ":"@ + decimal(group.group_epoch as nat)
            &&& event.device_counter == group.group_epoch
            &&& event.lamport_time == group.group_epoch
            &&& event.causal_prev@.len() == 1
            &&& event.causal_prev@[0]@ == "group:"@ + group_id@ + ":epoch:"@ + decimal(group.group_epoch as nat)
            &&& signed.body == event.body
            &&& signed.event_id == event.event_id
            &&& signed.signed.signature@ == signature@
        },
        r matches Ok(GroupControlWrite::MessageDelete(w)) && {
            &&& w.group_id@ == group_id@
            &&& w.actor_device_id@ == actor_device_id@
            &&& w.event_id@ == made->Ok_0.event_id@
            &&& w.target_message_id@ == target_message_id@
            &&& w.delete_scope@ == delete_scope@
            &&& w.reason@ == reason@
            &&& w.group_epoch == group.group_epoch
            &&& w.tombstone_id@ == "group.message.tombstone:"@ + group_id@ + ":"@ + target_message_id@
        },
{
}

/// Inviting a member is written as it was asked for, by whoever believes the signed event: under the group, the
/// event and the device that acted.
pub proof fn law_invitation_is_written_as_asked(
    client: &RamfluxClient,
    other: &RamfluxClient,
    group: &GroupState,
    group_id: &str,
    actor_device_id: &str,
    invitee_identity: &str,
    invitee_signing_public_key: &str,
    invited_role: &str,
    expires_at: i64,
    reason: &str,
    domain: &str,
    now: i64,
    made: Result<GroupEvent, SdkError>,
    signature: String,
    signed: GroupEvent,
    key: String,
    later: i64,
    r: Result<GroupControlWrite, SdkError>,
)
    requires
        client.active_account_db is Some,
        client.device_branch matches Some(branch) && branch.device_id@ == actor_device_id@,
        other.active_account_db is Some,
        call_ensures(
            RamfluxClient::create_signed_group_member_invite,
            (
                client,
                group,
                group_id,
                actor_device_id,
                invitee_identity, invitee_signing_public_key, invited_role, expires_at, reason,
                domain,
                now,
            ),
            made,
        ),
        made matches Ok(event) ==> call_ensures(
            GroupEvent::with_signature,
            (event, signature),
            signed,
        ),
        call_ensures(
            RamfluxClient::apply_group_control_event,
            (other, signed, domain, Some(key), Ok(()), later),
            r,
        ),
    ensures
        made matches Ok(event) && {
            &&& event.body is MemberInvitedV2
            &&& event.schema@ == "ramflux.client_event.v1"@
            &&& event.version == 1
            &&& event.created_at == now
            &&& event.domain@ == domain@
            &&& event.event_type@ == "group.member_invited"@
            &&& event.actor_principal_id@ == client.device_branch->0.principal_id@
            &&& event.actor_device_id@ == actor_device_id@
            &&& event.signed.signing_key_id@ == "device:"@ + actor_device_id@
            &&& event.event_id@ == "group.member_invited"@ + ":"@ + group_id@ + ":"@ + actor_device_id@ + ":"@
                + invitee_identity@ + ":"@ + decimal(group.group_epoch as nat)
            &&& event.device_counter == group.group_epoch
            &&& event.lamport_time == group.group_epoch
            &&& event.causal_prev@.len() == 1
            &&& event.causal_prev@[0]@ == "group:"@ + group_id@ + ":epoch:"@ + decimal(group.group_epoch as nat)
            &&& signed.body == event.body
            &&& signed.event_id == event.event_id
            &&& signed.signed.signature@ == signature@
        },
        r matches Ok(GroupControlWrite::MemberInvite(w)) && {
            &&& w.group_id@ == group_id@
            &&& w.actor_device_id@ == actor_device_id@
            &&& w.event_id@ == made->Ok_0.event_id@
            &&& w.invitee_identity@ == invitee_identity@
            &&& w.invitee_signing_public_key@ == invitee_signing_public_key@
            &&& w.invited_role@ == invited_role@
            &&& w.expires_at == expires_at
            &&& w.reason@ == reason@
            &&& w.group_epoch == group.group_epoch
            &&& w.invite_id@ == "group.invite:"@ + group_id@ + ":"@ + invitee_identity@ + ":"@ + decimal(group.group_epoch as nat)
        },
{
}

/// Telling of a member that joined is written as it was asked for, by whoever believes the signed event: under the group, the
/// event and the device that acted.
pub proof fn law_join_is_written_as_asked(
    client: &RamfluxClient,
    other: &RamfluxClient,
    group: &GroupState,
    group_id: &str,
    actor_device_id: &str,
    joined_identity: &str,
    joined_role: &str,
    actor_principal_commitment: &str,
    domain: &str,
    now: i64,
    made: Result<GroupEvent, SdkError>,
    signature: String,
    signed: GroupEvent,
    key: String,
    later: i64,
    r: Result<GroupControlWrite, SdkError>,
)
    requires
        client.active_account_db is Some,
        client.device_branch matches Some(branch) && branch.device_id@ == actor_device_id@,
        other.active_account_db is Some,
        group.well_formed(),
        group.role_of(actor_device_id@) == Some("owner"@) || group.role_of(actor_device_id@)
            == Some("admin"@),
        call_ensures(
            RamfluxClient::create_signed_group_member_join_event,
            (
                client,
                group,
                group_id,
                actor_device_id,
                joined_identity, joined_role, actor_principal_commitment,
                domain,
                now,
            ),
            made,
        ),
        made matches Ok(event) ==> call_ensures(
            GroupEvent::with_signature,
            (event, signature),
            signed,
        ),
        call_ensures(
            RamfluxClient::apply_group_control_event,
            (other, signed, domain, Some(key), Ok(()), later),
            r,
        ),
    ensures
        made matches Ok(event) && {
            &&& event.body is MemberJoined
            &&& event.schema@ == "ramflux.client_event.v1"@
            &&& event.version == 1
            &&& event.created_at == now
            &&& event.domain@ == domain@
            &&& event.event_type@ == "group.member_joined"@
            &&& event.actor_principal_id@ == client.device_branch->0.principal_id@
            &&& event.actor_device_id@ == actor_device_id@
            &&& event.signed.signing_key_id@ == "device:"@ + actor_device_id@
            &&& event.event_id@ == "group.member_joined"@ + ":"@ + group_id@ + ":"@ + actor_device_id@ + ":"@
                + joined_identity@ + ":"@ + decimal(group.group_epoch as nat)
            &&& event.device_counter == group.group_epoch
            &&& event.lamport_time == group.group_epoch
            &&& event.causal_prev@.len() == 1
            &&& event.causal_prev@[0]@ == "group:"@ + group_id@ + ":epoch:"@ + decimal(group.group_epoch as nat)
            &&& signed.body == event.body
            &&& signed.event_id == event.event_id
            &&& signed.signed.signature@ == signature@
        },
        r matches Ok(GroupControlWrite::MemberJoin(w)) && {
            &&& w.group_id@ == group_id@
            &&& w.actor_device_id@ == actor_device_id@
            &&& w.event_id@ == made->Ok_0.event_id@
            &&& Some(w.actor_role@) == group.role_of(actor_device_id@)
            &&& w.joined_identity@ == joined_identity@
            &&& w.joined_role@ == joined_role@
            &&& w.actor_principal_commitment@ == actor_principal_commitment@
            &&& w.actor_device_signing_public_key@ == client.device_branch->0.public_key@
            &&& w.new_group_epoch == group.group_epoch
            &&& w.previous_epoch == (if group.group_epoch == 0 { 0 } else { group.group_epoch - 1 })
            &&& w.max_members == group.max_members
            &&& w.new_member_history@ == group.new_member_history@
        },
{
}

/// Whether a write says what an event says, part by part: which group, who acted, the epochs that the
/// event names, and what it asks for.
pub open spec fn says_the_same(w: GroupControlWrite, event: GroupEvent) -> bool {
    match event.body {
        GroupEventBody::RoleChanged { group_id, previous_epoch, new_group_epoch, target_identity, new_role, .. } => w matches
        GroupControlWrite::RoleChange(w) && {
            &&& w.event_id@ == event.event_id@
            &&& w.actor_device_id@ == event.actor_device_id@
            &&& w.group_id@ == group_id@
            &&& w.previous_epoch == previous_epoch
            &&& w.new_group_epoch == new_group_epoch
            &&& w.target_member_id@ == target_identity@
            &&& w.new_role@ == new_role@
        },
        GroupEventBody::MemberRemoved { group_id, previous_epoch, new_group_epoch, removed_identity, reason, .. } => w matches
        GroupControlWrite::MemberKick(w) && {
            &&& w.event_id@ == event.event_id@
            &&& w.actor_device_id@ == event.actor_device_id@
            &&& w.group_id@ == group_id@
            &&& w.previous_epoch == previous_epoch
            &&& w.new_group_epoch == new_group_epoch
            &&& w.target_member_id@ == removed_identity@
            &&& w.reason@ == reason@
        },
        GroupEventBody::MemberBanned { group_id, previous_epoch, new_group_epoch, banned_identity, reason, ban_id, .. } => w matches
        GroupControlWrite::MemberBan(w) && {
            &&& w.event_id@ == event.event_id@
            &&& w.actor_device_id@ == event.actor_device_id@
            &&& w.group_id@ == group_id@
            &&& w.previous_epoch == previous_epoch
            &&& w.new_group_epoch == new_group_epoch
            &&& w.target_member_id@ == banned_identity@
            &&& w.reason@ == reason@
            &&& w.ban_id@ == ban_id@
        },
        GroupEventBody::MessageDeleted { group_id, group_epoch, target_message_id, delete_scope, tombstone_id, reason, .. } => w matches
        GroupControlWrite::MessageDelete(w) && {
            &&& w.event_id@ == event.event_id@
            &&& w.actor_device_id@ == event.actor_device_id@
            &&& w.group_id@ == group_id@
            &&& w.group_epoch == group_epoch
            &&& w.target_message_id@ == target_message_id@
            &&& w.delete_scope@ == delete_scope@
            &&& w.tombstone_id@ == tombstone_id@
            &&& w.reason@ == reason@
        },
        GroupEventBody::MemberInvitedV2 { group_id, group_epoch, invite_id, invitee_identity, invitee_signing_public_key, invited_role, expires_at, reason, .. } => w matches
        GroupControlWrite::MemberInvite(w) && {
            &&& w.event_id@ == event.event_id@
            &&& w.actor_device_id@ == event.actor_device_id@
            &&& w.group_id@ == group_id@
            &&& w.group_epoch == group_epoch
            &&& w.invite_id@ == invite_id@
            &&& w.invitee_identity@ == invitee_identity@
            &&& w.invitee_signing_public_key@ == invitee_signing_public_key@
            &&& w.invited_role@ == invited_role@
            &&& w.expires_at == expires_at
            &&& w.reason@ == reason@
        },
        GroupEventBody::MemberAccepted { group_id, previous_epoch, new_group_epoch, invite_id, invitee_identity, accepted_role, .. } => w matches
        GroupControlWrite::MemberAccept(w) && {
            &&& w.event_id@ == event.event_id@
            &&& w.actor_device_id@ == event.actor_device_id@
            &&& w.group_id@ == group_id@
            &&& w.previous_epoch == previous_epoch
            &&& w.new_group_epoch == new_group_epoch
            &&& w.invite_id@ == invite_id@
            &&& w.invitee_identity@ == invitee_identity@
            &&& w.accepted_role@ == accepted_role@
        },
        GroupEventBody::MemberJoined { group_id, previous_epoch, new_group_epoch, joined_identity, joined_role, actor_role, actor_principal_commitment, actor_device_signing_public_key, max_members, new_member_history, .. } => w matches
        GroupControlWrite::MemberJoin(w) && {
            &&& w.event_id@ == event.event_id@
            &&& w.actor_device_id@ == event.actor_device_id@
            &&& w.group_id@ == group_id@
            &&& w.previous_epoch == previous_epoch
            &&& w.new_group_epoch == new_group_epoch
            &&& w.joined_identity@ == joined_identity@
            &&& w.joined_role@ == joined_role@
            &&& w.actor_role@ == actor_role@
            &&& w.actor_principal_commitment@ == actor_principal_commitment@
            &&& w.actor_device_signing_public_key@ == actor_device_signing_public_key@
            &&& w.max_members == max_members
            &&& w.new_member_history@ == new_member_history@
        },
        GroupEventBody::Other => false,
    }
}

/// A believed event is written as it says. In an acceptance, a kick, a ban, a change of role or a
/// join, the group moves from the epoch that the event starts from to the one that it names.
pub proof fn law_write_says_what_the_event_says(
    event: GroupEvent,
    now: i64,
    r: Result<GroupControlWrite, SdkError>,
)
    requires
        call_ensures(group_control_write, (event, now), r),
    ensures
        r is Ok <==> !(event.body is Other),
        r matches Ok(w) ==> says_the_same(w, event),
        r matches Ok(GroupControlWrite::MemberAccept(w)) ==> w.now == now,
        r is Err ==> r->Err_0->LocalBus_0@ == "unsupported group control event body"@,
{
}

/// What an event is about, as its name says.
pub open spec fn event_name_of(body: GroupEventBody) -> Seq<char> {
    match body {
        GroupEventBody::RoleChanged { .. } => "group.role_changed"@,
        GroupEventBody::MemberRemoved { .. } => "group.member_kicked"@,
        GroupEventBody::MemberBanned { .. } => "group.member_banned"@,
        GroupEventBody::MessageDeleted { .. } => "group.message_deleted"@,
        GroupEventBody::MemberInvitedV2 { .. } => "group.member_invited"@,
        GroupEventBody::MemberAccepted { .. } => "group.member_accepted"@,
        GroupEventBody::MemberJoined { .. } => "group.member_joined"@,
        GroupEventBody::Other => Seq::empty(),
    }
}

/// Whether an event has the form that can be believed: of the domain, named as what it holds, and
/// signed in the name of the device that acted.
pub open spec fn has_right_form(event: GroupEvent, domain: Seq<char>) -> bool {
    &&& !(event.body is Other)
    &&& event.domain@ == domain
    &&& event.event_type@ == event_name_of(event.body)
    &&& event.signed.signing_key_id@ == "device:"@ + event.actor_device_id@
}

/// An event is written exactly if it has the right form, the key it is checked against is known and
/// the check passed; and then as it says.
pub proof fn law_event_is_believed_exactly_then(
    client: &RamfluxClient,
    event: GroupEvent,
    domain: &str,
    found: Option<String>,
    checked: Result<(), SdkError>,
    now: i64,
    r: Result<GroupControlWrite, SdkError>,
)
    requires
        client.active_account_db is Some,
        call_ensures(
            RamfluxClient::apply_group_control_event,
            (client, event, domain, found, checked, now),
            r,
        ),
    ensures
        r is Ok <==> has_right_form(event, domain@) && found is Some && checked is Ok,
        r matches Ok(w) ==> says_the_same(w, event),
        has_right_form(event, domain@) && found is None ==> (r matches Err(SdkError::Storage(
            StorageError::GroupControlSigningKeyMissing(device),
        )) && device@ == event.actor_device_id@),
{
}

/// Changing a role is no different from any other event.
pub proof fn law_role_change_is_believed_exactly_then(
    client: &RamfluxClient,
    event: GroupEvent,
    domain: &str,
    found: Option<String>,
    checked: Result<(), SdkError>,
    now: i64,
    r: Result<GroupControlWrite, SdkError>,
)
    requires
        client.active_account_db is Some,
        call_ensures(
            RamfluxClient::apply_group_role_change,
            (client, event, domain, found, checked, now),
            r,
        ),
    ensures
        r is Ok <==> has_right_form(event, domain@) && found is Some && checked is Ok,
        r matches Ok(w) ==> says_the_same(w, event),
{
}

/// An event that this device has signed is handed on with that signature, and written here as it says.
pub proof fn law_own_event_is_handed_on_and_written(
    client: &RamfluxClient,
    event: GroupEvent,
    signature: String,
    domain: &str,
    key: String,
    now: i64,
    r: Result<(GroupEvent, GroupControlWrite), SdkError>,
)
    requires
        client.active_account_db is Some,
        client.device_branch is Some,
        has_right_form(event, domain@),
        call_ensures(
            RamfluxClient::apply_signed_group_event,
            (client, event, Ok(signature), domain, Some(key), Ok(()), now),
            r,
        ),
    ensures
        r matches Ok((signed, w)) && {
            &&& says_the_same(w, event)
            &&& signed.body == event.body
            &&& signed.event_id == event.event_id
            &&& signed.actor_device_id == event.actor_device_id
            &&& signed.signed.signing_key_id == event.signed.signing_key_id
            &&& signed.signed.signature == signature
        },
{
}

/// The key that an event is checked against is that of the device that acted, in the group of the
/// event; an acceptance is checked against the key that its invitation was bound to.
pub proof fn law_event_is_checked_against_its_actor(
    event: &GroupEvent,
    domain: &str,
    r: Result<ControlKeyLookup, SdkError>,
    found: Option<String>,
    key: Result<String, SdkError>,
)
    requires
        call_ensures(control_key_lookup, (event, domain), r),
        call_ensures(control_public_key, (event, found), key),
    ensures
        r is Ok <==> has_right_form(*event, domain@),
        r matches Ok(lookup) ==> match event.body {
            GroupEventBody::MemberAccepted { group_id, invite_id, .. } => lookup matches
            ControlKeyLookup::Invite { group_id: g, invite_id: i } && g@ == group_id@ && i@
                == invite_id@,
            GroupEventBody::RoleChanged { group_id, .. } => is_member_lookup(
                lookup,
                group_id@,
                event.actor_device_id@,
            ),
            GroupEventBody::MemberRemoved { group_id, .. } => is_member_lookup(
                lookup,
                group_id@,
                event.actor_device_id@,
            ),
            GroupEventBody::MemberBanned { group_id, .. } => is_member_lookup(
                lookup,
                group_id@,
                event.actor_device_id@,
            ),
            GroupEventBody::MessageDeleted { group_id, .. } => is_member_lookup(
                lookup,
                group_id@,
                event.actor_device_id@,
            ),
            GroupEventBody::MemberInvitedV2 { group_id, .. } => is_member_lookup(
                lookup,
                group_id@,
                event.actor_device_id@,
            ),
            GroupEventBody::MemberJoined { group_id, .. } => is_member_lookup(
                lookup,
                group_id@,
                event.actor_device_id@,
            ),
            GroupEventBody::Other => false,
        },
        key is Ok <==> found is Some,
        key matches Ok(k) ==> found matches Some(f) && k@ == f@,
{
}

/// Whether the key of a device in a group is looked up.
pub open spec fn is_member_lookup(
    lookup: ControlKeyLookup,
    group_id: Seq<char>,
    device_id: Seq<char>,
) -> bool {
    lookup matches ControlKeyLookup::Member { group_id: g, device_id: d } && g@ == group_id && d@
        == device_id
}

/// A device that knows nothing of a group yet believes of it only that somebody joined, and that only
/// if the event is of the device that the envelope came from, and signed with the key that the
/// manifest gives that device.
pub proof fn law_bootstrap_is_believed_exactly_then(
    client: &RamfluxClient,
    event: GroupEvent,
    source: &str,
    key: &str,
    domain: &str,
    checked: Result<(), SdkError>,
    now: i64,
    r: Result<GroupControlWrite, SdkError>,
)
    requires
        client.active_account_db is Some,
        call_ensures(
            RamfluxClient::apply_bootstrap_group_member_join_event,
            (client, event, source, key, domain, checked, now),
            r,
        ),
    ensures
        r is Ok <==> {
            &&& event.body matches GroupEventBody::MemberJoined {
                actor_device_signing_public_key,
                ..
            } && actor_device_signing_public_key@ == key@
            &&& has_right_form(event, domain@)
            &&& event.actor_device_id@ == source@
            &&& checked is Ok
        },
        r matches Ok(w) ==> says_the_same(w, event),
{
}

/// Only an owner or an admin tells of a member that joined, and only a device acts in its own name.
pub proof fn law_only_those_in_charge_let_members_in(
    client: &RamfluxClient,
    group: &GroupState,
    group_id: &str,
    actor_device_id: &str,
    joined_identity: &str,
    joined_role: &str,
    actor_principal_commitment: &str,
    domain: &str,
    now: i64,
    r: Result<GroupEvent, SdkError>,
)
    requires
        client.active_account_db is Some,
        group.well_formed(),
        call_ensures(
            RamfluxClient::create_signed_group_member_join_event,
            (
                client,
                group,
                group_id,
                actor_device_id,
                joined_identity,
                joined_role,
                actor_principal_commitment,
                domain,
                now,
            ),
            r,
        ),
    ensures
        r is Ok <==> (group.role_of(actor_device_id@) == Some("owner"@) || group.role_of(
            actor_device_id@,
        ) == Some("admin"@)) && (client.device_branch matches Some(branch) && branch.device_id@
            == actor_device_id@),
        !(group.role_of(actor_device_id@) == Some("owner"@) || group.role_of(actor_device_id@)
            == Some("admin"@)) ==> r matches Err(SdkError::Storage(
            StorageError::GroupPermissionDenied,
        )),
{
}

// ---- groups, members and routes ----

/// A group is made under its name by its creator. A device that makes a group itself records its own
/// key with it, by which its later events are checked.
pub proof fn law_creator_can_be_checked(
    client: &RamfluxClient,
    group_id: &str,
    creator_id: &str,
    r: Result<(AccountDbRequest, Option<AccountDbRequest>), SdkError>,
)
    requires
        client.active_account_db is Some,
        call_ensures(RamfluxClient::create_group, (client, group_id, creator_id), r),
    ensures
        r matches Ok((made, key)) && {
            &&& made matches AccountDbRequest::CreateGroup { group_id: g, creator_id: c } && g@
                == group_id@ && c@ == creator_id@
            &&& key is Some <==> (client.device_branch matches Some(branch) && branch.device_id@
                == creator_id@)
            &&& key matches Some(k) ==> (k matches AccountDbRequest::PersistGroupMemberDeviceKey {
                group_id: g,
                member_id: m,
                public_key: p,
            } && g@ == group_id@ && m@ == creator_id@ && p@
                == client.device_branch->0.public_key@)
        },
{
}

/// How a member is reached is kept once, under the group and the member, with the member's key if it
/// is known, and is found again by the names that are asked for.
pub proof fn law_route_is_found_again(
    client: &RamfluxClient,
    group: &GroupState,
    group_id: &str,
    i: int,
    route: &LocalBusGroupMemberRoute,
    recorded: bool,
    encoded: &[u8],
    kept: Result<Option<MemberRouteWrite>, SdkError>,
    asked: Result<Vec<String>, SdkError>,
)
    requires
        client.active_account_db is Some,
        0 <= i < group.members@.len(),
        route.member_id@ == group.members@[i]@,
        call_ensures(
            RamfluxClient::persist_group_member_route,
            (client, group_id, route, recorded, encoded),
            kept,
        ),
        call_ensures(RamfluxClient::group_member_routes, (client, group_id, group), asked),
    ensures
        kept is Ok,
        kept matches Ok(w) ==> (w is Some <==> !recorded),
        asked matches Ok(ids) && ids@.len() == group.members@.len(),
        kept matches Ok(Some(w)) ==> {
            &&& w.route is AppendEvent
            &&& w.route->AppendEvent_event_id@ == asked->Ok_0@[i]@
            &&& w.route->AppendEvent_event_id@ == "group.member.route:"@ + group_id@ + ":"@
                + route.member_id@
            &&& w.route->AppendEvent_event_type@ == "group.member.route"@
            &&& w.route->AppendEvent_body@ == encoded@
            &&& w.key is Some <==> route.device_signing_public_key is Some
            &&& w.key matches Some(k) ==> (k matches AccountDbRequest::PersistGroupMemberDeviceKey {
                group_id: g,
                member_id: m,
                public_key: p,
            } && g@ == group_id@ && m@ == route.member_id@ && p@
                == route.device_signing_public_key->0@)
        },
{
}

/// Members are added and removed as asked.
pub proof fn law_members_change_as_asked(
    client: &RamfluxClient,
    group_id: &str,
    actor_id: &str,
    member_id: &str,
    role: &str,
    added: Result<AccountDbRequest, SdkError>,
    removed: Result<AccountDbRequest, SdkError>,
    state: Result<AccountDbRequest, SdkError>,
)
    requires
        client.active_account_db is Some,
        call_ensures(RamfluxClient::add_group_member, (client, group_id, member_id, role), added),
        call_ensures(
            RamfluxClient::remove_group_member,
            (client, group_id, actor_id, member_id),
            removed,
        ),
        call_ensures(RamfluxClient::group_state, (client, group_id), state),
    ensures
        added matches Ok(AccountDbRequest::AddGroupMember { group_id: g, member_id: m, role: o })
            && g@ == group_id@ && m@ == member_id@ && o@ == role@,
        removed matches Ok(AccountDbRequest::RemoveGroupMember {
            group_id: g,
            actor_id: a,
            target_member_id: m,
        }) && g@ == group_id@ && a@ == actor_id@ && m@ == member_id@,
        state matches Ok(AccountDbRequest::GroupState { group_id: g }) && g@ == group_id@,
{
}

} // verus!

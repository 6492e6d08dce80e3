//! Control events of a group: who may change what, how an event is believed, and what it writes.
use crate::error::{is_local_bus, local_bus, SdkError, StorageError};
use crate::gateway::protocol::SignedFields;
use crate::text::str_eq;
use vstd::prelude::*;

verus! {

/// An event that changes a group.
#[derive(Clone, Debug, PartialEq, Eq)]
pub struct GroupEvent {
    pub schema: String,
    pub version: u32,
    pub domain: String,
    pub signed: SignedFields,
    pub event_id: String,
    pub event_type: String,
    pub actor_principal_id: String,
    pub actor_device_id: String,
    pub device_counter: u64,
    pub lamport_time: u64,
    pub created_at: i64,
    pub causal_prev: Vec<String>,
    pub body: GroupEventBody,
}

/// What an event changes.
#[derive(Clone, Debug, PartialEq, Eq)]
pub enum GroupEventBody {
    RoleChanged {
        group_id: String,
        previous_epoch: u64,
        new_group_epoch: u64,
        target_identity: String,
        new_role: String,
    },
    MemberRemoved {
        group_id: String,
        previous_epoch: u64,
        new_group_epoch: u64,
        removed_identity: String,
        reason: String,
    },
    MemberBanned {
        group_id: String,
        previous_epoch: u64,
        new_group_epoch: u64,
        banned_identity: String,
        reason: String,
        ban_id: String,
    },
    MessageDeleted {
        group_id: String,
        group_epoch: u64,
        target_message_id: String,
        delete_scope: String,
        tombstone_id: String,
        reason: String,
    },
    MemberInvitedV2 {
        group_id: String,
        group_epoch: u64,
        invite_id: String,
        invitee_identity: String,
        invitee_signing_public_key: String,
        invited_role: String,
        inviter_device_id: String,
        expires_at: i64,
        reason: String,
    },
    MemberAccepted {
        group_id: String,
        previous_epoch: u64,
        new_group_epoch: u64,
        invite_id: String,
        invitee_identity: String,
        accepted_role: String,
    },
    MemberJoined {
        group_id: String,
        previous_epoch: u64,
        new_group_epoch: u64,
        joined_identity: String,
        joined_role: String,
        actor_role: String,
        actor_principal_commitment: String,
        actor_device_signing_public_key: String,
        max_members: u32,
        new_member_history: String,
    },
    /// A body that is no control event.
    Other,
}

impl GroupEventBody {
    fn copy(&self) -> (r: GroupEventBody)
        ensures
            r == *self,
    {
        match self {
            GroupEventBody::RoleChanged {
                group_id,
                previous_epoch,
                new_group_epoch,
                target_identity,
                new_role,
            } => GroupEventBody::RoleChanged {
                group_id: group_id.clone(),
                previous_epoch: *previous_epoch,
                new_group_epoch: *new_group_epoch,
                target_identity: target_identity.clone(),
                new_role: new_role.clone(),
            },
            GroupEventBody::MemberRemoved {
                group_id,
                previous_epoch,
                new_group_epoch,
                removed_identity,
                reason,
            } => GroupEventBody::MemberRemoved {
                group_id: group_id.clone(),
                previous_epoch: *previous_epoch,
                new_group_epoch: *new_group_epoch,
                removed_identity: removed_identity.clone(),
                reason: reason.clone(),
            },
            GroupEventBody::MemberBanned {
                group_id,
                previous_epoch,
                new_group_epoch,
                banned_identity,
                reason,
                ban_id,
            } => GroupEventBody::MemberBanned {
                group_id: group_id.clone(),
                previous_epoch: *previous_epoch,
                new_group_epoch: *new_group_epoch,
                banned_identity: banned_identity.clone(),
                reason: reason.clone(),
                ban_id: ban_id.clone(),
            },
            GroupEventBody::MessageDeleted {
                group_id,
                group_epoch,
                target_message_id,
                delete_scope,
                tombstone_id,
                reason,
            } => GroupEventBody::MessageDeleted {
                group_id: group_id.clone(),
                group_epoch: *group_epoch,
                target_message_id: target_message_id.clone(),
                delete_scope: delete_scope.clone(),
                tombstone_id: tombstone_id.clone(),
                reason: reason.clone(),
            },
            GroupEventBody::MemberInvitedV2 {
                group_id,
                group_epoch,
                invite_id,
                invitee_identity,
                invitee_signing_public_key,
                invited_role,
                inviter_device_id,
                expires_at,
                reason,
            } => GroupEventBody::MemberInvitedV2 {
                group_id: group_id.clone(),
                group_epoch: *group_epoch,
                invite_id: invite_id.clone(),
                invitee_identity: invitee_identity.clone(),
                invitee_signing_public_key: invitee_signing_public_key.clone(),
                invited_role: invited_role.clone(),
                inviter_device_id: inviter_device_id.clone(),
                expires_at: *expires_at,
                reason: reason.clone(),
            },
            GroupEventBody::MemberAccepted {
                group_id,
                previous_epoch,
                new_group_epoch,
                invite_id,
                invitee_identity,
                accepted_role,
            } => GroupEventBody::MemberAccepted {
                group_id: group_id.clone(),
                previous_epoch: *previous_epoch,
                new_group_epoch: *new_group_epoch,
                invite_id: invite_id.clone(),
                invitee_identity: invitee_identity.clone(),
                accepted_role: accepted_role.clone(),
            },
            GroupEventBody::MemberJoined {
                group_id,
                previous_epoch,
                new_group_epoch,
                joined_identity,
                joined_role,
                actor_role,
                actor_principal_commitment,
                actor_device_signing_public_key,
                max_members,
                new_member_history,
            } => GroupEventBody::MemberJoined {
                group_id: group_id.clone(),
                previous_epoch: *previous_epoch,
                new_group_epoch: *new_group_epoch,
                joined_identity: joined_identity.clone(),
                joined_role: joined_role.clone(),
                actor_role: actor_role.clone(),
                actor_principal_commitment: actor_principal_commitment.clone(),
                actor_device_signing_public_key: actor_device_signing_public_key.clone(),
                max_members: *max_members,
                new_member_history: new_member_history.clone(),
            },
            GroupEventBody::Other => GroupEventBody::Other,
        }
    }
}

impl GroupEvent {
    /// The event with its signature.
    pub open spec fn signed_by(self, signature: String) -> GroupEvent {
        GroupEvent { signed: SignedFields { signature, ..self.signed }, ..self }
    }

    /// The event with its signature.
    pub fn with_signature(self, signature: String) -> (r: GroupEvent)
        ensures
            r == self.signed_by(signature),
    {
        let mut event = self;
        event.signed.signature = signature;
        event
    }

    /// What is written of an event, which is left as it is.
    pub(crate) fn control_write(&self, now: i64) -> (r: Result<GroupControlWrite, SdkError>)
        ensures
            match write_of(*self, now) {
                Some(write) => r == Ok::<GroupControlWrite, SdkError>(write),
                None => is_local_bus(r, "unsupported group control event body"@),
            },
    {
        group_control_write(
            GroupEvent {
                schema: String::new(),
                version: self.version,
                domain: String::new(),
                signed: SignedFields {
                    signing_key_id: String::new(),
                    signature_alg: self.signed.signature_alg,
                    signature: String::new(),
                },
                event_id: self.event_id.clone(),
                event_type: String::new(),
                actor_principal_id: String::new(),
                actor_device_id: self.actor_device_id.clone(),
                device_counter: self.device_counter,
                lamport_time: self.lamport_time,
                created_at: self.created_at,
                causal_prev: Vec::new(),
                body: self.body.copy(),
            },
            now,
        )
    }
}

/// A change of a role, as it is written.
#[derive(Clone, Debug, PartialEq, Eq)]
pub struct GroupRoleChangeWrite {
    pub group_id: String,
    pub event_id: String,
    pub actor_device_id: String,
    pub target_member_id: String,
    pub previous_epoch: u64,
    pub new_group_epoch: u64,
    pub new_role: String,
}

/// The removal of a member, as it is written.
#[derive(Clone, Debug, PartialEq, Eq)]
pub struct GroupMemberKickWrite {
    pub group_id: String,
    pub event_id: String,
    pub actor_device_id: String,
    pub target_member_id: String,
    pub previous_epoch: u64,
    pub new_group_epoch: u64,
    pub reason: String,
}

/// The ban of a member, as it is written.
#[derive(Clone, Debug, PartialEq, Eq)]
pub struct GroupMemberBanWrite {
    pub group_id: String,
    pub event_id: String,
    pub actor_device_id: String,
    pub target_member_id: String,
    pub previous_epoch: u64,
    pub new_group_epoch: u64,
    pub reason: String,
    pub ban_id: String,
}

/// The deletion of a message, as it is written.
#[derive(Clone, Debug, PartialEq, Eq)]
pub struct GroupMessageDeleteWrite {
    pub group_id: String,
    pub event_id: String,
    pub actor_device_id: String,
    pub target_message_id: String,
    pub group_epoch: u64,
    pub delete_scope: String,
    pub tombstone_id: String,
    pub reason: String,
}

/// An invitation, as it is written.
#[derive(Clone, Debug, PartialEq, Eq)]
pub struct GroupInviteWrite {
    pub group_id: String,
    pub event_id: String,
    pub actor_device_id: String,
    pub invite_id: String,
    pub invitee_identity: String,
    pub invitee_signing_public_key: String,
    pub invited_role: String,
    pub group_epoch: u64,
    pub expires_at: i64,
    pub reason: String,
}

/// An accepted invitation, as it is written.
#[derive(Clone, Debug, PartialEq, Eq)]
pub struct GroupInviteAcceptWrite {
    pub group_id: String,
    pub event_id: String,
    pub actor_device_id: String,
    pub invite_id: String,
    pub invitee_identity: String,
    pub accepted_role: String,
    pub previous_epoch: u64,
    pub new_group_epoch: u64,
    pub now: i64,
}

/// A new member, as it is written.
#[derive(Clone, Debug, PartialEq, Eq)]
pub struct GroupMemberJoinWrite {
    pub group_id: String,
    pub event_id: String,
    pub actor_device_id: String,
    pub joined_identity: String,
    pub joined_role: String,
    pub actor_role: String,
    pub actor_principal_commitment: String,
    pub actor_device_signing_public_key: String,
    pub previous_epoch: u64,
    pub new_group_epoch: u64,
    pub max_members: u32,
    pub new_member_history: String,
}

/// What a believed event writes to the account database.
#[derive(Clone, Debug, PartialEq, Eq)]
pub enum GroupControlWrite {
    RoleChange(GroupRoleChangeWrite),
    MemberKick(GroupMemberKickWrite),
    MemberBan(GroupMemberBanWrite),
    MessageDelete(GroupMessageDeleteWrite),
    MemberInvite(GroupInviteWrite),
    MemberAccept(GroupInviteAcceptWrite),
    MemberJoin(GroupMemberJoinWrite),
}

/// The group that a body is about, and the type that its event has to have.
pub open spec fn control_subject(body: GroupEventBody) -> Option<(Seq<char>, Seq<char>)> {
    match body {
        GroupEventBody::RoleChanged { group_id, .. } => Some((group_id@, "group.role_changed"@)),
        GroupEventBody::MemberRemoved { group_id, .. } => Some((group_id@, "group.member_kicked"@)),
        GroupEventBody::MemberBanned { group_id, .. } => Some((group_id@, "group.member_banned"@)),
        GroupEventBody::MessageDeleted { group_id, .. } => Some((group_id@, "group.message_deleted"@)),
        GroupEventBody::MemberInvitedV2 { group_id, .. } => Some((group_id@, "group.member_invited"@)),
        GroupEventBody::MemberAccepted { group_id, .. } => Some((group_id@, "group.member_accepted"@)),
        GroupEventBody::MemberJoined { group_id, .. } => Some((group_id@, "group.member_joined"@)),
        GroupEventBody::Other => None,
    }
}

fn subject(body: &GroupEventBody) -> (r: Option<(&String, &'static str)>)
    ensures
        match control_subject(*body) {
            Some((group_id, event_type)) => r matches Some((g, t)) && g@ == group_id && t@
                == event_type,
            None => r is None,
        },
{
    match body {
        GroupEventBody::RoleChanged { group_id, .. } => Some((group_id, "group.role_changed")),
        GroupEventBody::MemberRemoved { group_id, .. } => Some((group_id, "group.member_kicked")),
        GroupEventBody::MemberBanned { group_id, .. } => Some((group_id, "group.member_banned")),
        GroupEventBody::MessageDeleted { group_id, .. } => Some((group_id, "group.message_deleted")),
        GroupEventBody::MemberInvitedV2 { group_id, .. } => Some((group_id, "group.member_invited")),
        GroupEventBody::MemberAccepted { group_id, .. } => Some((group_id, "group.member_accepted")),
        GroupEventBody::MemberJoined { group_id, .. } => Some((group_id, "group.member_joined")),
        GroupEventBody::Other => None,
    }
}

/// What an event writes.
pub open spec fn write_of(event: GroupEvent, now: i64) -> Option<GroupControlWrite> {
    match event.body {
        GroupEventBody::RoleChanged {
            group_id,
            previous_epoch,
            new_group_epoch,
            target_identity,
            new_role,
        } => Some(
            GroupControlWrite::RoleChange(
                GroupRoleChangeWrite {
                    group_id,
                    event_id: event.event_id,
                    actor_device_id: event.actor_device_id,
                    target_member_id: target_identity,
                    previous_epoch,
                    new_group_epoch,
                    new_role,
                },
            ),
        ),
        GroupEventBody::MemberRemoved {
            group_id,
            previous_epoch,
            new_group_epoch,
            removed_identity,
            reason,
        } => Some(
            GroupControlWrite::MemberKick(
                GroupMemberKickWrite {
                    group_id,
                    event_id: event.event_id,
                    actor_device_id: event.actor_device_id,
                    target_member_id: removed_identity,
                    previous_epoch,
                    new_group_epoch,
                    reason,
                },
            ),
        ),
        GroupEventBody::MemberBanned {
            group_id,
            previous_epoch,
            new_group_epoch,
            banned_identity,
            reason,
            ban_id,
        } => Some(
            GroupControlWrite::MemberBan(
                GroupMemberBanWrite {
                    group_id,
                    event_id: event.event_id,
                    actor_device_id: event.actor_device_id,
                    target_member_id: banned_identity,
                    previous_epoch,
                    new_group_epoch,
                    reason,
                    ban_id,
                },
            ),
        ),
        GroupEventBody::MessageDeleted {
            group_id,
            group_epoch,
            target_message_id,
            delete_scope,
            tombstone_id,
            reason,
        } => Some(
            GroupControlWrite::MessageDelete(
                GroupMessageDeleteWrite {
                    group_id,
                    event_id: event.event_id,
                    actor_device_id: event.actor_device_id,
                    target_message_id,
                    group_epoch,
                    delete_scope,
                    tombstone_id,
                    reason,
                },
            ),
        ),
        GroupEventBody::MemberInvitedV2 {
            group_id,
            group_epoch,
            invite_id,
            invitee_identity,
            invitee_signing_public_key,
            invited_role,
            inviter_device_id,
            expires_at,
            reason,
        } => Some(
            GroupControlWrite::MemberInvite(
                GroupInviteWrite {
                    group_id,
                    event_id: event.event_id,
                    actor_device_id: event.actor_device_id,
                    invite_id,
                    invitee_identity,
                    invitee_signing_public_key,
                    invited_role,
                    group_epoch,
                    expires_at,
                    reason,
                },
            ),
        ),
        GroupEventBody::MemberAccepted {
            group_id,
            previous_epoch,
            new_group_epoch,
            invite_id,
            invitee_identity,
            accepted_role,
        } => Some(
            GroupControlWrite::MemberAccept(
                GroupInviteAcceptWrite {
                    group_id,
                    event_id: event.event_id,
                    actor_device_id: event.actor_device_id,
                    invite_id,
                    invitee_identity,
                    accepted_role,
                    previous_epoch,
                    new_group_epoch,
                    now,
                },
            ),
        ),
        GroupEventBody::MemberJoined {
            group_id,
            previous_epoch,
            new_group_epoch,
            joined_identity,
            joined_role,
            actor_role,
            actor_principal_commitment,
            actor_device_signing_public_key,
            max_members,
            new_member_history,
        } => Some(
            GroupControlWrite::MemberJoin(
                GroupMemberJoinWrite {
                    group_id,
                    event_id: event.event_id,
                    actor_device_id: event.actor_device_id,
                    joined_identity,
                    joined_role,
                    actor_role,
                    actor_principal_commitment,
                    actor_device_signing_public_key,
                    previous_epoch,
                    new_group_epoch,
                    max_members,
                    new_member_history,
                },
            ),
        ),
        GroupEventBody::Other => None,
    }
}

/// What a believed event writes. Anything but a control event writes nothing.
pub fn group_control_write(event: GroupEvent, now: i64) -> (r: Result<GroupControlWrite, SdkError>)
    ensures
        match write_of(event, now) {
            Some(write) => r == Ok::<GroupControlWrite, SdkError>(write),
            None => is_local_bus(r, "unsupported group control event body"@),
        },
{
    match event.body {
        GroupEventBody::RoleChanged {
            group_id,
            previous_epoch,
            new_group_epoch,
            target_identity,
            new_role,
        } => Ok(
            GroupControlWrite::RoleChange(
                GroupRoleChangeWrite {
                    group_id,
                    event_id: event.event_id,
                    actor_device_id: event.actor_device_id,
                    target_member_id: target_identity,
                    previous_epoch,
                    new_group_epoch,
                    new_role,
                },
            ),
        ),
        GroupEventBody::MemberRemoved {
            group_id,
            previous_epoch,
            new_group_epoch,
            removed_identity,
            reason,
        } => Ok(
            GroupControlWrite::MemberKick(
                GroupMemberKickWrite {
                    group_id,
                    event_id: event.event_id,
                    actor_device_id: event.actor_device_id,
                    target_member_id: removed_identity,
                    previous_epoch,
                    new_group_epoch,
                    reason,
                },
            ),
        ),
        GroupEventBody::MemberBanned {
            group_id,
            previous_epoch,
            new_group_epoch,
            banned_identity,
            reason,
            ban_id,
        } => Ok(
            GroupControlWrite::MemberBan(
                GroupMemberBanWrite {
                    group_id,
                    event_id: event.event_id,
                    actor_device_id: event.actor_device_id,
                    target_member_id: banned_identity,
                    previous_epoch,
                    new_group_epoch,
                    reason,
                    ban_id,
                },
            ),
        ),
        GroupEventBody::MessageDeleted {
            group_id,
            group_epoch,
            target_message_id,
            delete_scope,
            tombstone_id,
            reason,
        } => Ok(
            GroupControlWrite::MessageDelete(
                GroupMessageDeleteWrite {
                    group_id,
                    event_id: event.event_id,
                    actor_device_id: event.actor_device_id,
                    target_message_id,
                    group_epoch,
                    delete_scope,
                    tombstone_id,
                    reason,
                },
            ),
        ),
        GroupEventBody::MemberInvitedV2 {
            group_id,
            group_epoch,
            invite_id,
            invitee_identity,
            invitee_signing_public_key,
            invited_role,
            inviter_device_id: _,
            expires_at,
            reason,
        } => Ok(
            GroupControlWrite::MemberInvite(
                GroupInviteWrite {
                    group_id,
                    event_id: event.event_id,
                    actor_device_id: event.actor_device_id,
                    invite_id,
                    invitee_identity,
                    invitee_signing_public_key,
                    invited_role,
                    group_epoch,
                    expires_at,
                    reason,
                },
            ),
        ),
        GroupEventBody::MemberAccepted {
            group_id,
            previous_epoch,
            new_group_epoch,
            invite_id,
            invitee_identity,
            accepted_role,
        } => Ok(
            GroupControlWrite::MemberAccept(
                GroupInviteAcceptWrite {
                    group_id,
                    event_id: event.event_id,
                    actor_device_id: event.actor_device_id,
                    invite_id,
                    invitee_identity,
                    accepted_role,
                    previous_epoch,
                    new_group_epoch,
                    now,
                },
            ),
        ),
        GroupEventBody::MemberJoined {
            group_id,
            previous_epoch,
            new_group_epoch,
            joined_identity,
            joined_role,
            actor_role,
            actor_principal_commitment,
            actor_device_signing_public_key,
            max_members,
            new_member_history,
        } => Ok(
            GroupControlWrite::MemberJoin(
                GroupMemberJoinWrite {
                    group_id,
                    event_id: event.event_id,
                    actor_device_id: event.actor_device_id,
                    joined_identity,
                    joined_role,
                    actor_role,
                    actor_principal_commitment,
                    actor_device_signing_public_key,
                    previous_epoch,
                    new_group_epoch,
                    max_members,
                    new_member_history,
                },
            ),
        ),
        GroupEventBody::Other => Err(local_bus("unsupported group control event body")),
    }
}

// ---- believing an event ----

/// Where the key that an event has to be signed with is found.
#[derive(Clone, Debug, PartialEq, Eq)]
pub enum ControlKeyLookup {
    /// In the invitation that the event accepts.
    Invite { group_id: String, invite_id: String },
    /// Among the keys of the group's members.
    Member { group_id: String, device_id: String },
}

/// Whether an event names its own actor's device as the signer.
pub open spec fn signer_is_actor(event: GroupEvent) -> bool {
    event.signed.signing_key_id@ == "device:"@ + event.actor_device_id@
}

/// Whether `l` is where an event's key is found.
pub open spec fn is_key_lookup(l: ControlKeyLookup, event: GroupEvent) -> bool {
    match event.body {
        GroupEventBody::MemberAccepted { group_id, invite_id, .. } => l
            == (ControlKeyLookup::Invite { group_id, invite_id }),
        _ => control_subject(event.body) matches Some((group, event_type))
            && l matches ControlKeyLookup::Member { group_id, device_id } && group_id@ == group
            && device_id@ == event.actor_device_id@,
    }
}

/// Whether `r` is what an event's form comes to: a complaint, or where its key is found.
pub open spec fn is_form_answer(
    r: Result<ControlKeyLookup, SdkError>,
    event: GroupEvent,
    domain: Seq<char>,
) -> bool {
    match control_subject(event.body) {
        None => is_local_bus(r, "unsupported group control event body"@),
        Some((group_id, event_type)) => if event.domain@ != domain {
            is_local_bus(r, "unsupported group control event domain: "@ + event.domain@)
        } else if event.event_type@ != event_type {
            is_local_bus(r, "unsupported group control event type: "@ + event.event_type@)
        } else if !signer_is_actor(event) {
            is_local_bus(
                r,
                "group control signing key id mismatch for "@ + event.actor_device_id@,
            )
        } else {
            r matches Ok(l) && is_key_lookup(l, event)
        },
    }
}

fn refuse<T>(words: &str, what: &str) -> (r: Result<T, SdkError>)
    ensures
        is_local_bus(r, words@ + what@),
{
    let text = words.to_owned().concat(what);
    Err(local_bus(text.as_str()))
}

fn names_actor(event: &GroupEvent) -> (r: bool)
    ensures
        r == signer_is_actor(*event),
{
    let expected = "device:".to_owned().concat(event.actor_device_id.as_str());
    str_eq(event.signed.signing_key_id.as_str(), expected.as_str())
}

/// Checks the form of an event, and says where its key is found. `domain` is the domain of group
/// events.
pub fn control_key_lookup(event: &GroupEvent, domain: &str) -> (r: Result<
    ControlKeyLookup,
    SdkError,
>)
    ensures
        is_form_answer(r, *event, domain@),
{
    let (group_id, event_type) = match subject(&event.body) {
        Some(found) => found,
        None => {
            return Err(local_bus("unsupported group control event body"));
        },
    };
    if !str_eq(event.domain.as_str(), domain) {
        return refuse("unsupported group control event domain: ", event.domain.as_str());
    }
    if !str_eq(event.event_type.as_str(), event_type) {
        return refuse("unsupported group control event type: ", event.event_type.as_str());
    }
    if !names_actor(event) {
        return refuse(
            "group control signing key id mismatch for ",
            event.actor_device_id.as_str(),
        );
    }
    match &event.body {
        GroupEventBody::MemberAccepted { group_id, invite_id, .. } => Ok(
            ControlKeyLookup::Invite { group_id: group_id.clone(), invite_id: invite_id.clone() },
        ),
        _ => Ok(
            ControlKeyLookup::Member {
                group_id: group_id.clone(),
                device_id: event.actor_device_id.clone(),
            },
        ),
    }
}

/// The key that an event has to be signed with, by what the lookup found.
pub fn control_public_key(event: &GroupEvent, found: Option<String>) -> (r: Result<String, SdkError>)
    ensures
        match found {
            Some(key) => r == Ok::<String, SdkError>(key),
            None => r == Err::<String, SdkError>(
                SdkError::Storage(StorageError::GroupControlSigningKeyMissing(event.actor_device_id)),
            ),
        },
{
    match found {
        Some(key) => Ok(key),
        None => Err(
            SdkError::Storage(
                StorageError::GroupControlSigningKeyMissing(event.actor_device_id.clone()),
            ),
        ),
    }
}

/// Whether `r` is the answer to an event. `found` is the key that the lookup found, and `checked`
/// what checking the signature against it came to.
pub open spec fn is_control_answer(
    r: Result<GroupControlWrite, SdkError>,
    unlocked: bool,
    event: GroupEvent,
    domain: Seq<char>,
    found: Option<String>,
    checked: Result<(), SdkError>,
    now: i64,
) -> bool {
    if is_refused_form(event, domain) {
        r is Err && is_form_answer(Err::<ControlKeyLookup, SdkError>(r->Err_0), event, domain)
    } else if !unlocked {
        r matches Err(SdkError::AccountDbNotUnlocked)
    } else if found is None {
        r == Err::<GroupControlWrite, SdkError>(
            SdkError::Storage(StorageError::GroupControlSigningKeyMissing(event.actor_device_id)),
        )
    } else {
        match checked {
            Err(error) => r == Err::<GroupControlWrite, SdkError>(error),
            Ok(_) => r is Ok && write_of(event, now) == Some(r->Ok_0),
        }
    }
}

/// Whether an event's form is refused.
pub open spec fn is_refused_form(event: GroupEvent, domain: Seq<char>) -> bool {
    match control_subject(event.body) {
        None => true,
        Some((group_id, event_type)) => event.domain@ != domain || event.event_type@ != event_type
            || !signer_is_actor(event),
    }
}

/// An event changes a group only if it is a group event of its body's type, its actor's device is
/// named as the signer, a key is known for that device, and the signature is good.
pub proof fn law_believed_event_is_vouched_for(
    r: Result<GroupControlWrite, SdkError>,
    unlocked: bool,
    event: GroupEvent,
    domain: Seq<char>,
    found: Option<String>,
    checked: Result<(), SdkError>,
    now: i64,
)
    requires
        is_control_answer(r, unlocked, event, domain, found, checked, now),
        r is Ok,
    ensures
        event.domain@ == domain,
        control_subject(event.body) matches Some((group_id, event_type)) && event.event_type@
            == event_type,
        signer_is_actor(event),
        found is Some,
        checked is Ok,
{
}

/// Whether `r` is what a first event, which adds this device to a group that it does not know yet,
/// comes to. `source` is the device that sent it, and `key` the key of the actor's manifest.
pub open spec fn is_bootstrap_answer(
    r: Result<GroupControlWrite, SdkError>,
    unlocked: bool,
    event: GroupEvent,
    domain: Seq<char>,
    source: Seq<char>,
    key: Seq<char>,
    checked: Result<(), SdkError>,
    now: i64,
) -> bool {
    match event.body {
        GroupEventBody::MemberJoined { actor_device_signing_public_key, .. } => if event.domain@
            != domain || event.event_type@ != "group.member_joined"@ {
            is_local_bus(r, "unsupported bootstrap group event type: "@ + event.event_type@)
        } else if event.actor_device_id@ != source {
            is_local_bus(
                r,
                "bootstrap group event actor "@ + event.actor_device_id@
                    + " does not match envelope source "@ + source,
            )
        } else if !signer_is_actor(event) {
            is_local_bus(
                r,
                "bootstrap group event signing key id mismatch for "@ + event.actor_device_id@,
            )
        } else if actor_device_signing_public_key@ != key {
            is_local_bus(
                r,
                "bootstrap group event signing key does not match verified manifest"@,
            )
        } else {
            match checked {
                Err(error) => r == Err::<GroupControlWrite, SdkError>(error),
                Ok(_) => if unlocked {
                    r is Ok && write_of(event, now) == Some(r->Ok_0)
                } else {
                    r matches Err(SdkError::AccountDbNotUnlocked)
                },
            }
        },
        _ => is_local_bus(r, "expected group member joined event"@),
    }
}

/// A first event is believed only from the actor's own device, and only under the key of the
/// actor's manifest.
pub proof fn law_bootstrap_is_bound_to_actor_and_manifest(
    r: Result<GroupControlWrite, SdkError>,
    unlocked: bool,
    event: GroupEvent,
    domain: Seq<char>,
    source: Seq<char>,
    key: Seq<char>,
    checked: Result<(), SdkError>,
    now: i64,
)
    requires
        is_bootstrap_answer(r, unlocked, event, domain, source, key, checked, now),
        r is Ok,
    ensures
        event.actor_device_id@ == source,
        signer_is_actor(event),
        event.body matches GroupEventBody::MemberJoined {
            actor_device_signing_public_key,
            ..
        } && actor_device_signing_public_key@ == key,
        checked is Ok,
{
}

/// Checks the form of a first event.
pub fn check_bootstrap_event(event: &GroupEvent, domain: &str, source: &str, key: &str) -> (r: Result<
    (),
    SdkError,
>)
    ensures
        match r {
            Ok(_) => {
                &&& event.domain@ == domain@
                &&& event.event_type@ == "group.member_joined"@
                &&& event.actor_device_id@ == source@
                &&& signer_is_actor(*event)
                &&& event.body matches GroupEventBody::MemberJoined {
                    actor_device_signing_public_key,
                    ..
                } && actor_device_signing_public_key@ == key@
            },
            Err(error) => forall|unlocked: bool, checked: Result<(), SdkError>, now: i64| #[trigger]
                is_bootstrap_answer(
                    Err::<GroupControlWrite, SdkError>(error),
                    unlocked,
                    *event,
                    domain@,
                    source@,
                    key@,
                    checked,
                    now,
                ),
        },
        r is Err ==> !(event.body is MemberJoined && event.domain@ == domain@ && event.event_type@
            == "group.member_joined"@ && event.actor_device_id@ == source@ && signer_is_actor(
            *event,
        ) && event.body->MemberJoined_actor_device_signing_public_key@ == key@),
{
    let actor_key = match &event.body {
        GroupEventBody::MemberJoined { actor_device_signing_public_key, .. } =>
            actor_device_signing_public_key,
        _ => {
            return Err(local_bus("expected group member joined event"));
        },
    };
    if !str_eq(event.domain.as_str(), domain) || !str_eq(
        event.event_type.as_str(),
        "group.member_joined",
    ) {
        return refuse("unsupported bootstrap group event type: ", event.event_type.as_str());
    }
    if !str_eq(event.actor_device_id.as_str(), source) {
        let words = "bootstrap group event actor ".to_owned().concat(
            event.actor_device_id.as_str(),
        ).concat(" does not match envelope source ");
        return refuse(words.as_str(), source);
    }
    if !names_actor(event) {
        return refuse(
            "bootstrap group event signing key id mismatch for ",
            event.actor_device_id.as_str(),
        );
    }
    if !str_eq(actor_key.as_str(), key) {
        return Err(
            local_bus("bootstrap group event signing key does not match verified manifest"),
        );
    }
    Ok(())
}

} // verus!

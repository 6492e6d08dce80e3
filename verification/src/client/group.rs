//! Groups of the unlocked account: their members, and the events that this device signs.
use crate::client::state::RamfluxClient;
use crate::error::{is_local_bus, local_bus, SdkError, StorageError};
use crate::gateway::helpers::{is_device_signed, sdk_device_signed_fields};
use crate::group::{
    control_event_name, group_member_accepted_event_id, group_member_banned_event_id,
    group_member_invited_event_id, group_member_joined_event_id, group_member_kicked_event_id,
    group_member_route_event_id, group_message_deleted_event_id, group_role_changed_event_id,
    member_route_event, GroupState,
};
use crate::group_control::{
    check_bootstrap_event, control_key_lookup, control_public_key, group_control_write,
    is_bootstrap_answer, is_control_answer, GroupControlWrite, GroupEvent, GroupEventBody,
};
use crate::object::DeviceBranch;
use crate::records::{makes_group, AccountDbRequest};
use crate::text::{decimal, decimal_u64, str_eq};
use vstd::prelude::*;

verus! {

/// An invitation as the account database holds it.
#[derive(Clone, Debug, PartialEq, Eq)]
pub struct GroupInvite {
    pub invitee_identity: String,
    pub invitee_signing_public_key: String,
    pub invited_role: String,
}

/// How a member is reached: what is read of it.
#[derive(Clone, Debug, PartialEq, Eq)]
pub struct LocalBusGroupMemberRoute {
    pub member_id: String,
    pub device_signing_public_key: Option<String>,
}

/// What is recorded of a member's route: its key, where it has one, and then the route itself.
#[derive(Clone, Debug, PartialEq, Eq)]
pub struct MemberRouteWrite {
    pub key: Option<AccountDbRequest>,
    pub route: AccountDbRequest,
}

/// Why a device cannot sign as an actor.
pub enum SignerComplaint {
    /// No device acts.
    NoDevice,
    /// Another device acts, which has this name.
    OtherDevice { actor: Seq<char>, local: Seq<char> },
}

/// Whether `r` is the refusal for a complaint.
pub open spec fn is_signer_complaint(r: Result<GroupEvent, SdkError>, c: SignerComplaint) -> bool {
    match c {
        SignerComplaint::NoDevice => r matches Err(SdkError::IdentityRootMissing),
        SignerComplaint::OtherDevice { actor, local } => is_local_bus(
            r,
            "actor device "@ + actor + " does not match local signer "@ + local,
        ),
    }
}

/// Whether `ids` names the events that hold how the members are reached, in their order.
pub open spec fn names_routes(
    ids: Seq<String>,
    group_id: Seq<char>,
    members: Seq<String>,
) -> bool {
    ids.len() == members.len() && forall|i: int|
        0 <= i < ids.len() ==> (#[trigger] ids[i])@ == member_route_event(group_id, members[i]@)
}

fn group_member_route_ids(group_id: &str, group: &GroupState) -> (r: Vec<String>)
    ensures
        names_routes(r@, group_id@, group.members@),
{
    let mut ids: Vec<String> = Vec::new();
    let mut i: usize = 0;
    while i < group.members.len()
        invariant
            i <= group.members.len(),
            ids@.len() == i,
            forall|j: int|
                0 <= j < i ==> (#[trigger] ids@[j])@ == member_route_event(
                    group_id@,
                    group.members@[j]@,
                ),
        decreases group.members.len() - i,
    {
        ids.push(group_member_route_event_id(group_id, group.members[i].as_str()));
        i = i + 1;
    }
    ids
}

/// Whether `r` is what follows once an event that this client made was signed.
pub open spec fn is_signed_answer(
    r: Result<(GroupEvent, GroupControlWrite), SdkError>,
    unlocked: bool,
    has_device: bool,
    event: GroupEvent,
    signature: Result<String, SdkError>,
    domain: Seq<char>,
    found: Option<String>,
    checked: Result<(), SdkError>,
    now: i64,
) -> bool {
    if !has_device {
        r matches Err(SdkError::IdentityRootMissing)
    } else {
        match signature {
            Err(error) => r == Err::<(GroupEvent, GroupControlWrite), SdkError>(error),
            Ok(signature) => match r {
                Ok((signed, write)) => signed == event.signed_by(signature) && is_control_answer(
                    Ok::<GroupControlWrite, SdkError>(write),
                    unlocked,
                    signed,
                    domain,
                    found,
                    checked,
                    now,
                ),
                Err(error) => is_control_answer(
                    Err::<GroupControlWrite, SdkError>(error),
                    unlocked,
                    event.signed_by(signature),
                    domain,
                    found,
                    checked,
                    now,
                ),
            },
        }
    }
}

impl RamfluxClient {
    /// Why this client cannot sign as an actor, if it cannot.
    pub open spec fn signer_complaint(self, actor_device_id: Seq<char>) -> Option<SignerComplaint> {
        match self.device_branch {
            None => Some(SignerComplaint::NoDevice),
            Some(branch) => if branch.device_id@ != actor_device_id {
                Some(
                    SignerComplaint::OtherDevice {
                        actor: actor_device_id,
                        local: branch.device_id@,
                    },
                )
            } else {
                None
            },
        }
    }

    /// Whether `e` is an unsigned control event of this client's device.
    pub open spec fn is_control_event(
        self,
        e: GroupEvent,
        domain: Seq<char>,
        group_id: Seq<char>,
        actor_device_id: Seq<char>,
        event_id: Seq<char>,
        event_type: Seq<char>,
        group_epoch: u64,
        now: i64,
    ) -> bool {
        &&& e.schema@ == "ramflux.client_event.v1"@
        &&& e.version == 1
        &&& e.domain@ == domain
        &&& is_device_signed(e.signed, actor_device_id, ""@)
        &&& e.event_id@ == event_id
        &&& e.event_type@ == event_type
        &&& self.device_branch is Some
        &&& e.actor_principal_id@ == self.device_branch->0.principal_id@
        &&& e.actor_device_id@ == actor_device_id
        &&& e.device_counter == group_epoch
        &&& e.lamport_time == group_epoch
        &&& e.created_at == now
        &&& e.causal_prev@.len() == 1
        &&& e.causal_prev@[0]@ == "group:"@ + group_id + ":epoch:"@ + decimal(group_epoch as nat)
    }

    fn signed_group_control_base(
        &self,
        group_id: &str,
        actor_device_id: &str,
        event_id: String,
        event_type: &str,
        group_epoch: u64,
        body: GroupEventBody,
        domain: &str,
        now: i64,
    ) -> (r: Result<GroupEvent, SdkError>)
        ensures
            match self.signer_complaint(actor_device_id@) {
                Some(complaint) => is_signer_complaint(r, complaint),
                None => r matches Ok(event) && event.body == body && self.is_control_event(
                    event,
                    domain@,
                    group_id@,
                    actor_device_id@,
                    event_id@,
                    event_type@,
                    group_epoch,
                    now,
                ),
            },
    {
        let branch = match self.acting_device() {
            Ok(branch) => branch,
            Err(error) => {
                return Err(error);
            },
        };
        if !str_eq(branch.device_id.as_str(), actor_device_id) {
            let text = "actor device ".to_owned().concat(actor_device_id).concat(
                " does not match local signer ",
            ).concat(branch.device_id.as_str());
            return Err(local_bus(text.as_str()));
        }
        let number = decimal_u64(group_epoch);
        let mut causal_prev: Vec<String> = Vec::new();
        causal_prev.push(
            "group:".to_owned().concat(group_id).concat(":epoch:").concat(number.as_str()),
        );
        Ok(
            GroupEvent {
                schema: "ramflux.client_event.v1".to_owned(),
                version: 1,
                domain: domain.to_owned(),
                signed: sdk_device_signed_fields(actor_device_id, ""),
                event_id,
                event_type: event_type.to_owned(),
                actor_principal_id: branch.principal_id.clone(),
                actor_device_id: actor_device_id.to_owned(),
                device_counter: group_epoch,
                lamport_time: group_epoch,
                created_at: now,
                causal_prev,
                body,
            },
        )
    }

    /// The event that removes a member, yet to be signed.
    pub fn create_signed_group_member_kick(
        &self,
        group: &GroupState,
        group_id: &str,
        actor_device_id: &str,
        target_member_id: &str,
        reason: &str,
        domain: &str,
        now: i64,
    ) -> (r: Result<GroupEvent, SdkError>)
        requires
            group.group_epoch < u64::MAX,
        ensures
            if !self.unlocked() {
                r matches Err(SdkError::AccountDbNotUnlocked)
            } else {
                match self.signer_complaint(actor_device_id@) {
                    Some(complaint) => is_signer_complaint(r, complaint),
                    None => r matches Ok(event) && {
                        &&& self.is_control_event(
                            event,
                            domain@,
                            group_id@,
                            actor_device_id@,
                            control_event_name(
                                "group.member_kicked"@,
                                group_id@,
                                actor_device_id@,
                                target_member_id@,
                                (group.group_epoch + 1) as nat,
                            ),
                            "group.member_kicked"@,
                            (group.group_epoch + 1) as u64,
                            now,
                        )
                        &&& event.body matches GroupEventBody::MemberRemoved {
                            group_id: got_group_id,
                            previous_epoch: got_previous_epoch,
                            new_group_epoch: got_new_group_epoch,
                            removed_identity: got_removed_identity,
                            reason: got_reason,
                        } && {
                            &&& got_group_id@ == group_id@
                            &&& got_previous_epoch == group.group_epoch
                            &&& got_new_group_epoch == group.group_epoch + 1
                            &&& got_removed_identity@ == target_member_id@
                            &&& got_reason@ == reason@
                        }
                    },
                }
            },
    {
        match self.account_db() {
            Ok(_) => {},
            Err(error) => {
                return Err(error);
            },
        }
        let new_group_epoch: u64 = group.group_epoch + 1;
        let event_id = group_member_kicked_event_id(
            group_id,
            actor_device_id,
            target_member_id,
            new_group_epoch,
        );
        self.signed_group_control_base(
            group_id,
            actor_device_id,
            event_id,
            "group.member_kicked",
            new_group_epoch,
            GroupEventBody::MemberRemoved {
                group_id: group_id.to_owned(),
                previous_epoch: group.group_epoch,
                new_group_epoch,
                removed_identity: target_member_id.to_owned(),
                reason: reason.to_owned(),
            },
            domain,
            now,
        )
    }

    /// The event that bans a member, yet to be signed.
    pub fn create_signed_group_member_ban(
        &self,
        group: &GroupState,
        group_id: &str,
        actor_device_id: &str,
        target_member_id: &str,
        reason: &str,
        domain: &str,
        now: i64,
    ) -> (r: Result<GroupEvent, SdkError>)
        requires
            group.group_epoch < u64::MAX,
        ensures
            if !self.unlocked() {
                r matches Err(SdkError::AccountDbNotUnlocked)
            } else {
                match self.signer_complaint(actor_device_id@) {
                    Some(complaint) => is_signer_complaint(r, complaint),
                    None => r matches Ok(event) && {
                        &&& self.is_control_event(
                            event,
                            domain@,
                            group_id@,
                            actor_device_id@,
                            control_event_name(
                                "group.member_banned"@,
                                group_id@,
                                actor_device_id@,
                                target_member_id@,
                                (group.group_epoch + 1) as nat,
                            ),
                            "group.member_banned"@,
                            (group.group_epoch + 1) as u64,
                            now,
                        )
                        &&& event.body matches GroupEventBody::MemberBanned {
                            group_id: got_group_id,
                            previous_epoch: got_previous_epoch,
                            new_group_epoch: got_new_group_epoch,
                            banned_identity: got_banned_identity,
                            reason: got_reason,
                            ban_id: got_ban_id,
                        } && {
                            &&& got_group_id@ == group_id@
                            &&& got_previous_epoch == group.group_epoch
                            &&& got_new_group_epoch == group.group_epoch + 1
                            &&& got_banned_identity@ == target_member_id@
                            &&& got_reason@ == reason@
                            &&& got_ban_id@ == "group.ban:"@ + group_id@ + ":"@ + target_member_id@
                                + ":"@ + decimal((group.group_epoch + 1) as nat)
                        }
                    },
                }
            },
    {
        match self.account_db() {
            Ok(_) => {},
            Err(error) => {
                return Err(error);
            },
        }
        let new_group_epoch: u64 = group.group_epoch + 1;
        let event_id = group_member_banned_event_id(
            group_id,
            actor_device_id,
            target_member_id,
            new_group_epoch,
        );
        let number = decimal_u64(new_group_epoch);
        let ban_id = "group.ban:".to_owned().concat(group_id).concat(":").concat(
            target_member_id,
        ).concat(":").concat(number.as_str());
        self.signed_group_control_base(
            group_id,
            actor_device_id,
            event_id,
            "group.member_banned",
            new_group_epoch,
            GroupEventBody::MemberBanned {
                group_id: group_id.to_owned(),
                previous_epoch: group.group_epoch,
                new_group_epoch,
                banned_identity: target_member_id.to_owned(),
                reason: reason.to_owned(),
                ban_id,
            },
            domain,
            now,
        )
    }

    /// The event that deletes a message, yet to be signed. The epoch stays.
    pub fn create_signed_group_message_delete(
        &self,
        group: &GroupState,
        group_id: &str,
        actor_device_id: &str,
        target_message_id: &str,
        delete_scope: &str,
        reason: &str,
        domain: &str,
        now: i64,
    ) -> (r: Result<GroupEvent, SdkError>)
        ensures
            if !self.unlocked() {
                r matches Err(SdkError::AccountDbNotUnlocked)
            } else {
                match self.signer_complaint(actor_device_id@) {
                    Some(complaint) => is_signer_complaint(r, complaint),
                    None => r matches Ok(event) && {
                        &&& self.is_control_event(
                            event,
                            domain@,
                            group_id@,
                            actor_device_id@,
                            control_event_name(
                                "group.message_deleted"@,
                                group_id@,
                                actor_device_id@,
                                target_message_id@,
                                group.group_epoch as nat,
                            ),
                            "group.message_deleted"@,
                            group.group_epoch as u64,
                            now,
                        )
                        &&& event.body matches GroupEventBody::MessageDeleted {
                            group_id: got_group_id,
                            group_epoch: got_group_epoch,
                            target_message_id: got_target_message_id,
                            delete_scope: got_delete_scope,
                            tombstone_id: got_tombstone_id,
                            reason: got_reason,
                        } && {
                            &&& got_group_id@ == group_id@
                            &&& got_group_epoch == group.group_epoch
                            &&& got_target_message_id@ == target_message_id@
                            &&& got_delete_scope@ == delete_scope@
                            &&& got_tombstone_id@ == "group.message.tombstone:"@ + group_id@ + ":"@
                                + target_message_id@
                            &&& got_reason@ == reason@
                        }
                    },
                }
            },
    {
        match self.account_db() {
            Ok(_) => {},
            Err(error) => {
                return Err(error);
            },
        }
        let event_id = group_message_deleted_event_id(
            group_id,
            actor_device_id,
            target_message_id,
            group.group_epoch,
        );
        let tombstone_id = "group.message.tombstone:".to_owned().concat(group_id).concat(":").concat(
            target_message_id,
        );
        self.signed_group_control_base(
            group_id,
            actor_device_id,
            event_id,
            "group.message_deleted",
            group.group_epoch,
            GroupEventBody::MessageDeleted {
                group_id: group_id.to_owned(),
                group_epoch: group.group_epoch,
                target_message_id: target_message_id.to_owned(),
                delete_scope: delete_scope.to_owned(),
                tombstone_id,
                reason: reason.to_owned(),
            },
            domain,
            now,
        )
    }

    /// The event that invites a member, yet to be signed. The epoch stays.
    pub fn create_signed_group_member_invite(
        &self,
        group: &GroupState,
        group_id: &str,
        actor_device_id: &str,
        invitee_identity: &str,
        invitee_signing_public_key: &str,
        invited_role: &str,
        expires_at: i64,
        reason: &str,
        domain: &str,
        now: i64,
    ) -> (r: Result<GroupEvent, SdkError>)
        ensures
            if !self.unlocked() {
                r matches Err(SdkError::AccountDbNotUnlocked)
            } else {
                match self.signer_complaint(actor_device_id@) {
                    Some(complaint) => is_signer_complaint(r, complaint),
                    None => r matches Ok(event) && {
                        &&& self.is_control_event(
                            event,
                            domain@,
                            group_id@,
                            actor_device_id@,
                            control_event_name(
                                "group.member_invited"@,
                                group_id@,
                                actor_device_id@,
                                invitee_identity@,
                                group.group_epoch as nat,
                            ),
                            "group.member_invited"@,
                            group.group_epoch as u64,
                            now,
                        )
                        &&& event.body matches GroupEventBody::MemberInvitedV2 {
                            group_id: got_group_id,
                            group_epoch: got_group_epoch,
                            invite_id: got_invite_id,
                            invitee_identity: got_invitee_identity,
                            invitee_signing_public_key: got_invitee_signing_public_key,
                            invited_role: got_invited_role,
                            inviter_device_id: got_inviter_device_id,
                            expires_at: got_expires_at,
                            reason: got_reason,
                        } && {
                            &&& got_group_id@ == group_id@
                            &&& got_group_epoch == group.group_epoch
                            &&& got_invite_id@ == "group.invite:"@ + group_id@ + ":"@
                                + invitee_identity@ + ":"@ + decimal(group.group_epoch as nat)
                            &&& got_invitee_identity@ == invitee_identity@
                            &&& got_invitee_signing_public_key@ == invitee_signing_public_key@
                            &&& got_invited_role@ == invited_role@
                            &&& got_inviter_device_id@ == actor_device_id@
                            &&& got_expires_at == expires_at
                            &&& got_reason@ == reason@
                        }
                    },
                }
            },
    {
        match self.account_db() {
            Ok(_) => {},
            Err(error) => {
                return Err(error);
            },
        }
        let event_id = group_member_invited_event_id(
            group_id,
            actor_device_id,
            invitee_identity,
            group.group_epoch,
        );
        let number = decimal_u64(group.group_epoch);
        let invite_id = "group.invite:".to_owned().concat(group_id).concat(":").concat(
            invitee_identity,
        ).concat(":").concat(number.as_str());
        self.signed_group_control_base(
            group_id,
            actor_device_id,
            event_id,
            "group.member_invited",
            group.group_epoch,
            GroupEventBody::MemberInvitedV2 {
                group_id: group_id.to_owned(),
                group_epoch: group.group_epoch,
                invite_id,
                invitee_identity: invitee_identity.to_owned(),
                invitee_signing_public_key: invitee_signing_public_key.to_owned(),
                invited_role: invited_role.to_owned(),
                inviter_device_id: actor_device_id.to_owned(),
                expires_at,
                reason: reason.to_owned(),
            },
            domain,
            now,
        )
    }

    /// The event that accepts an invitation, yet to be signed.
    pub fn create_signed_group_member_accept(
        &self,
        group: &GroupState,
        group_id: &str,
        actor_device_id: &str,
        invite_id: &str,
        invite: &GroupInvite,
        domain: &str,
        now: i64,
    ) -> (r: Result<GroupEvent, SdkError>)
        requires
            group.group_epoch < u64::MAX,
        ensures
            if !self.unlocked() {
                r matches Err(SdkError::AccountDbNotUnlocked)
            } else {
                match self.signer_complaint(actor_device_id@) {
                    Some(complaint) => is_signer_complaint(r, complaint),
                    None => r matches Ok(event) && {
                        &&& self.is_control_event(
                            event,
                            domain@,
                            group_id@,
                            actor_device_id@,
                            control_event_name(
                                "group.member_accepted"@,
                                group_id@,
                                actor_device_id@,
                                invite_id@,
                                (group.group_epoch + 1) as nat,
                            ),
                            "group.member_accepted"@,
                            (group.group_epoch + 1) as u64,
                            now,
                        )
                        &&& event.body matches GroupEventBody::MemberAccepted {
                            group_id: got_group_id,
                            previous_epoch: got_previous_epoch,
                            new_group_epoch: got_new_group_epoch,
                            invite_id: got_invite_id,
                            invitee_identity: got_invitee_identity,
                            accepted_role: got_accepted_role,
                        } && {
                            &&& got_group_id@ == group_id@
                            &&& got_previous_epoch == group.group_epoch
                            &&& got_new_group_epoch == group.group_epoch + 1
                            &&& got_invite_id@ == invite_id@
                            &&& got_invitee_identity@ == invite.invitee_identity@
                            &&& got_accepted_role@ == invite.invited_role@
                        }
                    },
                }
            },
    {
        match self.account_db() {
            Ok(_) => {},
            Err(error) => {
                return Err(error);
            },
        }
        let new_group_epoch: u64 = group.group_epoch + 1;
        let event_id = group_member_accepted_event_id(
            group_id,
            actor_device_id,
            invite_id,
            new_group_epoch,
        );
        self.signed_group_control_base(
            group_id,
            actor_device_id,
            event_id,
            "group.member_accepted",
            new_group_epoch,
            GroupEventBody::MemberAccepted {
                group_id: group_id.to_owned(),
                previous_epoch: group.group_epoch,
                new_group_epoch,
                invite_id: invite_id.to_owned(),
                invitee_identity: invite.invitee_identity.clone(),
                accepted_role: invite.invited_role.clone(),
            },
            domain,
            now,
        )
    }

    /// The event that changes a role, yet to be signed.
    pub fn create_signed_group_role_change(
        &self,
        group: &GroupState,
        group_id: &str,
        actor_device_id: &str,
        target_member_id: &str,
        new_role: &str,
        domain: &str,
        now: i64,
    ) -> (r: Result<GroupEvent, SdkError>)
        requires
            group.group_epoch < u64::MAX,
        ensures
            if !self.unlocked() {
                r matches Err(SdkError::AccountDbNotUnlocked)
            } else {
                match self.signer_complaint(actor_device_id@) {
                    Some(complaint) => is_signer_complaint(r, complaint),
                    None => r matches Ok(event) && {
                        &&& self.is_control_event(
                            event,
                            domain@,
                            group_id@,
                            actor_device_id@,
                            control_event_name(
                                "group.role_changed"@,
                                group_id@,
                                actor_device_id@,
                                target_member_id@,
                                (group.group_epoch + 1) as nat,
                            ),
                            "group.role_changed"@,
                            (group.group_epoch + 1) as u64,
                            now,
                        )
                        &&& event.body matches GroupEventBody::RoleChanged {
                            group_id: got_group_id,
                            previous_epoch: got_previous_epoch,
                            new_group_epoch: got_new_group_epoch,
                            target_identity: got_target_identity,
                            new_role: got_new_role,
                        } && {
                            &&& got_group_id@ == group_id@
                            &&& got_previous_epoch == group.group_epoch
                            &&& got_new_group_epoch == group.group_epoch + 1
                            &&& got_target_identity@ == target_member_id@
                            &&& got_new_role@ == new_role@
                        }
                    },
                }
            },
    {
        match self.account_db() {
            Ok(_) => {},
            Err(error) => {
                return Err(error);
            },
        }
        let new_group_epoch: u64 = group.group_epoch + 1;
        let event_id = group_role_changed_event_id(
            group_id,
            actor_device_id,
            target_member_id,
            new_group_epoch,
        );
        self.signed_group_control_base(
            group_id,
            actor_device_id,
            event_id,
            "group.role_changed",
            new_group_epoch,
            GroupEventBody::RoleChanged {
                group_id: group_id.to_owned(),
                previous_epoch: group.group_epoch,
                new_group_epoch,
                target_identity: target_member_id.to_owned(),
                new_role: new_role.to_owned(),
            },
            domain,
            now,
        )
    }

    /// The event that adds a member, yet to be signed. The member has been added already, so the
    /// epoch is the group's, and only an owner or an admin may say so.
    pub fn create_signed_group_member_join_event(
        &self,
        group: &GroupState,
        group_id: &str,
        actor_device_id: &str,
        joined_identity: &str,
        joined_role: &str,
        actor_principal_commitment: &str,
        domain: &str,
        now: i64,
    ) -> (r: Result<GroupEvent, SdkError>)
        requires
            group.well_formed(),
        ensures
            if !self.unlocked() {
                r matches Err(SdkError::AccountDbNotUnlocked)
            } else if !(group.role_of(actor_device_id@) == Some("owner"@) || group.role_of(
                actor_device_id@,
            ) == Some("admin"@)) {
                r matches Err(SdkError::Storage(StorageError::GroupPermissionDenied))
            } else {
                match self.signer_complaint(actor_device_id@) {
                    Some(complaint) => is_signer_complaint(r, complaint),
                    None => r matches Ok(event) && {
                        &&& self.is_control_event(
                            event,
                            domain@,
                            group_id@,
                            actor_device_id@,
                            control_event_name(
                                "group.member_joined"@,
                                group_id@,
                                actor_device_id@,
                                joined_identity@,
                                group.group_epoch as nat,
                            ),
                            "group.member_joined"@,
                            group.group_epoch,
                            now,
                        )
                        &&& event.body matches GroupEventBody::MemberJoined {
                            group_id: got_group_id,
                            previous_epoch: got_previous_epoch,
                            new_group_epoch: got_new_group_epoch,
                            joined_identity: got_joined_identity,
                            joined_role: got_joined_role,
                            actor_role: got_actor_role,
                            actor_principal_commitment: got_commitment,
                            actor_device_signing_public_key: got_key,
                            max_members: got_max_members,
                            new_member_history: got_history,
                        } && {
                            &&& got_group_id@ == group_id@
                            &&& got_previous_epoch == (if group.group_epoch == 0 {
                                0
                            } else {
                                group.group_epoch - 1
                            })
                            &&& got_new_group_epoch == group.group_epoch
                            &&& got_joined_identity@ == joined_identity@
                            &&& got_joined_role@ == joined_role@
                            &&& Some(got_actor_role@) == group.role_of(actor_device_id@)
                            &&& got_commitment@ == actor_principal_commitment@
                            &&& got_key@ == self.device_branch->0.public_key@
                            &&& got_max_members == group.max_members
                            &&& got_history@ == group.new_member_history@
                        }
                    },
                }
            },
    {
        match self.account_db() {
            Ok(_) => {},
            Err(error) => {
                return Err(error);
            },
        }
        let actor_role = match group.role(actor_device_id) {
            Some(role) => role,
            None => {
                return Err(SdkError::Storage(StorageError::GroupPermissionDenied));
            },
        };
        if !str_eq(actor_role.as_str(), "owner") && !str_eq(actor_role.as_str(), "admin") {
            return Err(SdkError::Storage(StorageError::GroupPermissionDenied));
        }
        let previous_epoch: u64 = if group.group_epoch == 0 {
            0
        } else {
            group.group_epoch - 1
        };
        let event_id = group_member_joined_event_id(
            group_id,
            actor_device_id,
            joined_identity,
            group.group_epoch,
        );
        let branch: &DeviceBranch = match self.acting_device() {
            Ok(branch) => branch,
            Err(error) => {
                return Err(error);
            },
        };
        self.signed_group_control_base(
            group_id,
            actor_device_id,
            event_id,
            "group.member_joined",
            group.group_epoch,
            GroupEventBody::MemberJoined {
                group_id: group_id.to_owned(),
                previous_epoch,
                new_group_epoch: group.group_epoch,
                joined_identity: joined_identity.to_owned(),
                joined_role: joined_role.to_owned(),
                actor_role,
                actor_principal_commitment: actor_principal_commitment.to_owned(),
                actor_device_signing_public_key: branch.public_key.clone(),
                max_members: group.max_members,
                new_member_history: group.new_member_history.clone(),
            },
            domain,
            now,
        )
    }

    /// What a control event writes, if it is believed. `found` is the key that was found for it, and
    /// `checked` what checking its signature against that key came to.
    pub fn apply_group_control_event(
        &self,
        event: GroupEvent,
        domain: &str,
        found: Option<String>,
        checked: Result<(), SdkError>,
        now: i64,
    ) -> (r: Result<GroupControlWrite, SdkError>)
        ensures
            is_control_answer(r, self.unlocked(), event, domain@, found, checked, now),
    {
        match control_key_lookup(&event, domain) {
            Ok(_) => {},
            Err(error) => {
                return Err(error);
            },
        }
        match self.account_db() {
            Ok(_) => {},
            Err(error) => {
                return Err(error);
            },
        }
        match control_public_key(&event, found) {
            Ok(_) => {},
            Err(error) => {
                return Err(error);
            },
        }
        match checked {
            Ok(_) => {},
            Err(error) => {
                return Err(error);
            },
        }
        group_control_write(event, now)
    }

    /// What follows once an event that this client made was signed: the event with its signature is
    /// applied here as any other control event is, and both the event and what it writes are handed
    /// out. `signature` is what signing it came to; `found` and `checked` are those of applying it.
    pub fn apply_signed_group_event(
        &self,
        event: GroupEvent,
        signature: Result<String, SdkError>,
        domain: &str,
        found: Option<String>,
        checked: Result<(), SdkError>,
        now: i64,
    ) -> (r: Result<(GroupEvent, GroupControlWrite), SdkError>)
        ensures
            is_signed_answer(
                r,
                self.unlocked(),
                self.device_branch is Some,
                event,
                signature,
                domain@,
                found,
                checked,
                now,
            ),
    {
        match self.acting_device() {
            Ok(_) => {},
            Err(error) => {
                return Err(error);
            },
        }
        let event = match signature {
            Ok(signature) => event.with_signature(signature),
            Err(error) => {
                return Err(error);
            },
        };
        match control_key_lookup(&event, domain) {
            Ok(_) => {},
            Err(error) => {
                return Err(error);
            },
        }
        match self.account_db() {
            Ok(_) => {},
            Err(error) => {
                return Err(error);
            },
        }
        match control_public_key(&event, found) {
            Ok(_) => {},
            Err(error) => {
                return Err(error);
            },
        }
        match checked {
            Ok(_) => {},
            Err(error) => {
                return Err(error);
            },
        }
        match event.control_write(now) {
            Ok(write) => Ok((event, write)),
            Err(error) => Err(error),
        }
    }

    /// What a change of a role writes, if it is believed.
    pub fn apply_group_role_change(
        &self,
        event: GroupEvent,
        domain: &str,
        found: Option<String>,
        checked: Result<(), SdkError>,
        now: i64,
    ) -> (r: Result<GroupControlWrite, SdkError>)
        ensures
            is_control_answer(r, self.unlocked(), event, domain@, found, checked, now),
    {
        self.apply_group_control_event(event, domain, found, checked, now)
    }

    /// What a first event, which adds this device to a group that it does not know yet, writes, if it
    /// is believed.
    pub fn apply_bootstrap_group_member_join_event(
        &self,
        event: GroupEvent,
        authenticated_source_device_id: &str,
        verified_actor_public_key: &str,
        domain: &str,
        checked: Result<(), SdkError>,
        now: i64,
    ) -> (r: Result<GroupControlWrite, SdkError>)
        ensures
            is_bootstrap_answer(
                r,
                self.unlocked(),
                event,
                domain@,
                authenticated_source_device_id@,
                verified_actor_public_key@,
                checked,
                now,
            ),
    {
        match check_bootstrap_event(
            &event,
            domain,
            authenticated_source_device_id,
            verified_actor_public_key,
        ) {
            Ok(_) => {},
            Err(error) => {
                assert(is_bootstrap_answer(
                    Err::<GroupControlWrite, SdkError>(error),
                    self.unlocked(),
                    event,
                    domain@,
                    authenticated_source_device_id@,
                    verified_actor_public_key@,
                    checked,
                    now,
                ));
                return Err(error);
            },
        }
        match checked {
            Ok(_) => {},
            Err(error) => {
                return Err(error);
            },
        }
        match self.account_db() {
            Ok(_) => {},
            Err(error) => {
                return Err(error);
            },
        }
        group_control_write(event, now)
    }

    /// Makes a group. Where its creator is the device that acts, that device's key is recorded too.
    pub fn create_group(&self, group_id: &str, creator_id: &str) -> (r: Result<
        (AccountDbRequest, Option<AccountDbRequest>),
        SdkError,
    >)
        ensures
            if !self.unlocked() {
                r matches Err(SdkError::AccountDbNotUnlocked)
            } else {
                r matches Ok((made, key)) && {
                    &&& makes_group(made, group_id@)
                    &&& made->CreateGroup_creator_id@ == creator_id@
                    &&& if self.signer_complaint(creator_id@) is None {
                        key matches Some(
                            AccountDbRequest::PersistGroupMemberDeviceKey {
                                group_id: g,
                                member_id: m,
                                public_key: k,
                            },
                        ) && g@ == group_id@ && m@ == creator_id@ && k@
                            == self.device_branch->0.public_key@
                    } else {
                        key is None
                    }
                }
            },
    {
        match self.account_db() {
            Ok(_) => {},
            Err(error) => {
                return Err(error);
            },
        }
        let made = AccountDbRequest::CreateGroup {
            group_id: group_id.to_owned(),
            creator_id: creator_id.to_owned(),
        };
        let key = match &self.device_branch {
            Some(branch) => if str_eq(branch.device_id.as_str(), creator_id) {
                Some(
                    AccountDbRequest::PersistGroupMemberDeviceKey {
                        group_id: group_id.to_owned(),
                        member_id: creator_id.to_owned(),
                        public_key: branch.public_key.clone(),
                    },
                )
            } else {
                None
            },
            None => None,
        };
        Ok((made, key))
    }

    /// The names of the events that hold how the members of a group are reached.
    pub fn group_member_routes(&self, group_id: &str, group: &GroupState) -> (r: Result<
        Vec<String>,
        SdkError,
    >)
        ensures
            if !self.unlocked() {
                r matches Err(SdkError::AccountDbNotUnlocked)
            } else {
                r matches Ok(ids) && names_routes(ids@, group_id@, group.members@)
            },
    {
        match self.account_db() {
            Ok(_) => Ok(group_member_route_ids(group_id, group)),
            Err(error) => Err(error),
        }
    }

    /// Records how a member is reached, unless that is recorded already. `encoded` is the route as
    /// it is stored.
    pub fn persist_group_member_route(
        &self,
        group_id: &str,
        route: &LocalBusGroupMemberRoute,
        recorded: bool,
        encoded: &[u8],
    ) -> (r: Result<Option<MemberRouteWrite>, SdkError>)
        ensures
            if !self.unlocked() {
                r matches Err(SdkError::AccountDbNotUnlocked)
            } else if recorded {
                r matches Ok(None)
            } else {
                r matches Ok(Some(w)) && {
                    &&& match route.device_signing_public_key {
                        Some(key) => w.key matches Some(
                            AccountDbRequest::PersistGroupMemberDeviceKey {
                                group_id: g,
                                member_id: m,
                                public_key: k,
                            },
                        ) && g@ == group_id@ && m@ == route.member_id@ && k@ == key@,
                        None => w.key is None,
                    }
                    &&& w.route matches AccountDbRequest::AppendEvent { event_id, event_type, body }
                        && event_id@ == member_route_event(group_id@, route.member_id@)
                        && event_type@ == "group.member.route"@ && body@ == encoded@
                }
            },
    {
        match self.account_db() {
            Ok(_) => {},
            Err(error) => {
                return Err(error);
            },
        }
        if recorded {
            return Ok(None);
        }
        let event_id = group_member_route_event_id(group_id, route.member_id.as_str());
        let key = match &route.device_signing_public_key {
            Some(key) => Some(
                AccountDbRequest::PersistGroupMemberDeviceKey {
                    group_id: group_id.to_owned(),
                    member_id: route.member_id.clone(),
                    public_key: key.clone(),
                },
            ),
            None => None,
        };
        match self.append_event(event_id.as_str(), "group.member.route", encoded) {
            Ok(route) => Ok(Some(MemberRouteWrite { key, route })),
            Err(error) => Err(error),
        }
    }

    /// Adds a member.
    pub fn add_group_member(
        &self,
        group_id: &str,
        member_id: &str,
        role: &str,
    ) -> (r: Result<AccountDbRequest, SdkError>)
        ensures
            if self.unlocked() {
                r matches Ok(AccountDbRequest::AddGroupMember {
                    group_id: got_group_id,
                    member_id: got_member_id,
                    role: got_role,
                }) && {
                    &&& got_group_id@ == group_id@
                    &&& got_member_id@ == member_id@
                    &&& got_role@ == role@
                }
            } else {
                r == Err::<AccountDbRequest, SdkError>(SdkError::AccountDbNotUnlocked)
            },
    {
        match self.account_db() {
            Ok(_) => Ok(
                AccountDbRequest::AddGroupMember {
                    group_id: group_id.to_owned(),
                    member_id: member_id.to_owned(),
                    role: role.to_owned(),
                },
            ),
            Err(error) => Err(error),
        }
    }

    /// Removes a member.
    pub fn remove_group_member(
        &self,
        group_id: &str,
        actor_id: &str,
        target_member_id: &str,
    ) -> (r: Result<AccountDbRequest, SdkError>)
        ensures
            if self.unlocked() {
                r matches Ok(AccountDbRequest::RemoveGroupMember {
                    group_id: got_group_id,
                    actor_id: got_actor_id,
                    target_member_id: got_target_member_id,
                }) && {
                    &&& got_group_id@ == group_id@
                    &&& got_actor_id@ == actor_id@
                    &&& got_target_member_id@ == target_member_id@
                }
            } else {
                r == Err::<AccountDbRequest, SdkError>(SdkError::AccountDbNotUnlocked)
            },
    {
        match self.account_db() {
            Ok(_) => Ok(
                AccountDbRequest::RemoveGroupMember {
                    group_id: group_id.to_owned(),
                    actor_id: actor_id.to_owned(),
                    target_member_id: target_member_id.to_owned(),
                },
            ),
            Err(error) => Err(error),
        }
    }

    /// Asks for the state of a group.
    pub fn group_state(
        &self,
        group_id: &str,
    ) -> (r: Result<AccountDbRequest, SdkError>)
        ensures
            if self.unlocked() {
                r matches Ok(AccountDbRequest::GroupState {
                    group_id: got_group_id,
                }) && {
                    &&& got_group_id@ == group_id@
                }
            } else {
                r == Err::<AccountDbRequest, SdkError>(SdkError::AccountDbNotUnlocked)
            },
    {
        match self.account_db() {
            Ok(_) => Ok(
                AccountDbRequest::GroupState {
                    group_id: group_id.to_owned(),
                },
            ),
            Err(error) => Err(error),
        }
    }

    /// Asks for all groups.
    pub fn groups(&self) -> (r: Result<AccountDbRequest, SdkError>)
        ensures
            if self.unlocked() {
                r matches Ok(AccountDbRequest::Groups)
            } else {
                r == Err::<AccountDbRequest, SdkError>(SdkError::AccountDbNotUnlocked)
            },
    {
        match self.account_db() {
            Ok(_) => Ok(AccountDbRequest::Groups),
            Err(error) => Err(error),
        }
    }
}

/// An event that this client made and signed is applied here, with what its body says: all that it
/// takes is an unlocked account, a key for this device, and a good signature.
pub proof fn law_own_event_is_applied(
    client: RamfluxClient,
    event: GroupEvent,
    domain: Seq<char>,
    group_id: Seq<char>,
    actor_device_id: Seq<char>,
    event_id: Seq<char>,
    event_type: Seq<char>,
    group_epoch: u64,
    signature: String,
    key: String,
    now: i64,
    r: Result<(GroupEvent, GroupControlWrite), SdkError>,
)
    requires
        client.unlocked(),
        client.is_control_event(
            event,
            domain,
            group_id,
            actor_device_id,
            event_id,
            event_type,
            group_epoch,
            now,
        ),
        crate::group_control::control_subject(event.body) == Some((group_id, event_type)),
        is_signed_answer(
            r,
            true,
            true,
            event,
            Ok(signature),
            domain,
            Some(key),
            Ok(()),
            now,
        ),
    ensures
        r matches Ok((signed, write)) && signed == event.signed_by(signature) && Some(write)
            == crate::group_control::write_of(event, now),
{
    assert(!crate::group_control::is_refused_form(event.signed_by(signature), domain));
}

/// An event that this client makes has the form that every member asks for: signed, it is believed
/// by all who know the key of this device.
pub proof fn law_own_events_have_the_right_form(
    client: RamfluxClient,
    event: GroupEvent,
    domain: Seq<char>,
    group_id: Seq<char>,
    actor_device_id: Seq<char>,
    event_id: Seq<char>,
    event_type: Seq<char>,
    group_epoch: u64,
    now: i64,
)
    requires
        client.is_control_event(
            event,
            domain,
            group_id,
            actor_device_id,
            event_id,
            event_type,
            group_epoch,
            now,
        ),
        crate::group_control::control_subject(event.body) == Some((group_id, event_type)),
    ensures
        !crate::group_control::is_refused_form(event, domain),
{
}

} // verus!

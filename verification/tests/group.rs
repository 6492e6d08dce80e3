//! Groups: who may change them, which events are believed, and the keys of their messages.
use std::collections::{HashMap, HashSet};

use ramflux_sdk::client::group::{GroupInvite, LocalBusGroupMemberRoute};
use ramflux_sdk::client::group_session::{
    append_group_gateway_delivery, check_distribution_envelope, check_group_envelope,
    counter_suffix, decrypted_once, load_group_sender_key_state, pending_group_message,
    GroupMessageEnd, PendingRetry,
};
use ramflux_sdk::client::state::RamfluxClient;
use ramflux_sdk::error::{SdkError, StorageError};
use ramflux_sdk::gateway::protocol::{
    DeliveryClass, Envelope, GatewayInboxEntry, Priority, SignatureAlg, SignedFields,
};
use ramflux_sdk::group::{
    group_associated_data, group_entry_is_sender_key_message, group_member_route_event_id,
    group_sender_device_text, group_sender_key_checkpoint_name,
    group_sender_key_distribution_conversation_id, group_sender_session_id,
    is_missing_group_sender_key_error, GroupGatewayDeliveryResult, GroupState,
    SdkGroupSenderKeyDistribution, SdkGroupSenderKeyDistributionEnvelope, SdkGroupSenderKeyState,
};
use ramflux_sdk::group_control::{
    control_key_lookup, control_public_key, ControlKeyLookup, GroupControlWrite, GroupEvent,
    GroupEventBody,
};
use ramflux_sdk::group_flow::{
    GroupReceive, GroupSend, GroupSendStep, GroupStep, GroupStepEvent,
};
use ramflux_sdk::object::{DeviceBranch, DmCiphertext};
use ramflux_sdk::records::{
    AccountDbRequest, DirectMessageRecord, GroupPendingUndecryptedRecord, MessageMetadata,
};

const DOMAIN: &str = "ramflux.group.event";
const NOW: i64 = 1_900_000_000;

/// Why a database does not carry a write out.
#[derive(Debug, PartialEq)]
enum Refusal {
    Replay,
    EpochMismatch,
    InviteState,
    InviteExpired,
    Denied,
}

#[derive(Debug, PartialEq)]
enum Failure {
    Sdk(SdkError),
    Db(Refusal),
}

impl From<SdkError> for Failure {
    fn from(error: SdkError) -> Self {
        Failure::Sdk(error)
    }
}

impl From<Refusal> for Failure {
    fn from(refusal: Refusal) -> Self {
        Failure::Db(refusal)
    }
}

struct Invite {
    invite: GroupInvite,
    expires_at: i64,
    accepted: bool,
}

/// The groups of an account, as a database keeps them.
#[derive(Default)]
struct Db {
    groups: HashMap<String, GroupState>,
    keys: HashMap<(String, String), String>,
    invites: HashMap<(String, String), Invite>,
    bans: HashSet<(String, String)>,
    tombstones: HashSet<String>,
    events: HashSet<String>,
}

impl Db {
    fn add(&mut self, group_id: &str, member_id: &str, role: &str) -> Result<(), Refusal> {
        if self.bans.contains(&(group_id.to_owned(), member_id.to_owned())) {
            return Err(Refusal::Denied);
        }
        let group = self.groups.get_mut(group_id).ok_or(Refusal::Denied)?;
        group.members.push(member_id.to_owned());
        group.roles.push((member_id.to_owned(), role.to_owned()));
        group.group_epoch += 1;
        Ok(())
    }

    fn carry_out(&mut self, request: AccountDbRequest) -> Result<(), Refusal> {
        match request {
            AccountDbRequest::CreateGroup { group_id, creator_id } => {
                let group = GroupState {
                    group_id: group_id.clone(),
                    group_epoch: 1,
                    members: vec![creator_id.clone()],
                    roles: vec![(creator_id, "owner".to_owned())],
                    max_members: 64,
                    new_member_history: "none".to_owned(),
                };
                self.groups.insert(group_id, group);
                Ok(())
            }
            AccountDbRequest::PersistGroupMemberDeviceKey { group_id, member_id, public_key } => {
                self.keys.insert((group_id, member_id), public_key);
                Ok(())
            }
            AccountDbRequest::AddGroupMember { group_id, member_id, role } => {
                self.add(&group_id, &member_id, &role)
            }
            other => panic!("unexpected request {other:?}"),
        }
    }

    fn found(&self, lookup: ControlKeyLookup) -> Option<String> {
        match lookup {
            ControlKeyLookup::Invite { group_id, invite_id } => self
                .invites
                .get(&(group_id, invite_id))
                .map(|kept| kept.invite.invitee_signing_public_key.clone()),
            ControlKeyLookup::Member { group_id, device_id } => {
                self.keys.get(&(group_id, device_id)).cloned()
            }
        }
    }

    fn advance(&mut self, group_id: &str, previous: u64, next: u64) -> Result<(), Refusal> {
        let group = self.groups.get_mut(group_id).ok_or(Refusal::Denied)?;
        if group.group_epoch != previous {
            return Err(Refusal::EpochMismatch);
        }
        group.group_epoch = next;
        Ok(())
    }

    fn drop_member(&mut self, group_id: &str, member_id: &str) {
        if let Some(group) = self.groups.get_mut(group_id) {
            group.members.retain(|member| member != member_id);
            group.roles.retain(|(member, _)| member != member_id);
        }
    }

    fn write(&mut self, write: GroupControlWrite) -> Result<GroupState, Refusal> {
        let (group_id, event_id) = match &write {
            GroupControlWrite::RoleChange(w) => (w.group_id.clone(), w.event_id.clone()),
            GroupControlWrite::MemberKick(w) => (w.group_id.clone(), w.event_id.clone()),
            GroupControlWrite::MemberBan(w) => (w.group_id.clone(), w.event_id.clone()),
            GroupControlWrite::MessageDelete(w) => (w.group_id.clone(), w.event_id.clone()),
            GroupControlWrite::MemberInvite(w) => (w.group_id.clone(), w.event_id.clone()),
            GroupControlWrite::MemberAccept(w) => (w.group_id.clone(), w.event_id.clone()),
            GroupControlWrite::MemberJoin(w) => (w.group_id.clone(), w.event_id.clone()),
        };
        if self.events.contains(&event_id) {
            return Err(Refusal::Replay);
        }
        match write {
            GroupControlWrite::RoleChange(w) => {
                self.advance(&group_id, w.previous_epoch, w.new_group_epoch)?;
                if let Some(group) = self.groups.get_mut(&group_id) {
                    for (member, role) in &mut group.roles {
                        if *member == w.target_member_id {
                            *role = w.new_role.clone();
                        }
                    }
                }
            }
            GroupControlWrite::MemberKick(w) => {
                self.advance(&group_id, w.previous_epoch, w.new_group_epoch)?;
                self.drop_member(&group_id, &w.target_member_id);
            }
            GroupControlWrite::MemberBan(w) => {
                self.advance(&group_id, w.previous_epoch, w.new_group_epoch)?;
                self.drop_member(&group_id, &w.target_member_id);
                self.bans.insert((group_id.clone(), w.target_member_id));
            }
            GroupControlWrite::MessageDelete(w) => {
                self.advance(&group_id, w.group_epoch, w.group_epoch)?;
                self.tombstones.insert(w.target_message_id);
            }
            GroupControlWrite::MemberInvite(w) => {
                self.advance(&group_id, w.group_epoch, w.group_epoch)?;
                self.invites.insert(
                    (group_id.clone(), w.invite_id),
                    Invite {
                        invite: GroupInvite {
                            invitee_identity: w.invitee_identity,
                            invitee_signing_public_key: w.invitee_signing_public_key,
                            invited_role: w.invited_role,
                        },
                        expires_at: w.expires_at,
                        accepted: false,
                    },
                );
            }
            GroupControlWrite::MemberAccept(w) => {
                let key = (group_id.clone(), w.invite_id);
                let kept = self.invites.get_mut(&key).ok_or(Refusal::InviteState)?;
                if kept.accepted {
                    return Err(Refusal::InviteState);
                }
                if kept.expires_at < w.now {
                    return Err(Refusal::InviteExpired);
                }
                kept.accepted = true;
                self.advance(&group_id, w.previous_epoch, w.previous_epoch)?;
                self.add(&group_id, &w.invitee_identity, &w.accepted_role)?;
            }
            GroupControlWrite::MemberJoin(w) => {
                self.keys.insert(
                    (group_id.clone(), w.actor_device_id.clone()),
                    w.actor_device_signing_public_key,
                );
                let group = GroupState {
                    group_id: group_id.clone(),
                    group_epoch: w.new_group_epoch,
                    members: vec![w.actor_device_id.clone(), w.joined_identity.clone()],
                    roles: vec![
                        (w.actor_device_id, w.actor_role),
                        (w.joined_identity, w.joined_role),
                    ],
                    max_members: w.max_members,
                    new_member_history: w.new_member_history,
                };
                self.groups.insert(group_id.clone(), group);
            }
        }
        self.events.insert(event_id);
        self.groups.get(&group_id).cloned().ok_or(Refusal::Denied)
    }
}

fn device_public_key(principal: &str, device: &str, seed: [u8; 32]) -> String {
    format!("{principal}/{device}/{}", seed[0])
}

/// Stands in for the signature over an event: it names the key and all that is signed.
fn signature_of(key: &str, event: &GroupEvent) -> String {
    let mut unsigned = event.clone();
    unsigned.signed.signature = String::new();
    format!("{key} signs {unsigned:?}")
}

fn checked(key: &str, event: &GroupEvent) -> Result<(), SdkError> {
    if event.signed.signature == signature_of(key, event) {
        Ok(())
    } else {
        Err(SdkError::Protocol("signature mismatch".to_owned()))
    }
}

struct Member {
    client: RamfluxClient,
    key: String,
    db: Db,
}

fn group_client(principal: &str, device: &str, seed: [u8; 32]) -> Member {
    let key = device_public_key(principal, device, seed);
    let mut client = RamfluxClient::new();
    client.open_account_index("/accounts".to_owned());
    client.create_device_branch(DeviceBranch {
        principal_id: principal.to_owned(),
        device_id: device.to_owned(),
        device_epoch: 1,
        public_key: key.clone(),
        device_hash: format!("hash of {device}"),
    });
    client.account_unlocked("acct");
    Member { client, key, db: Db::default() }
}

impl Member {
    fn signed(&self, event: GroupEvent) -> GroupEvent {
        let mut event = event;
        event.signed.signature = signature_of(&self.key, &event);
        event
    }

    fn group(&self, group_id: &str) -> GroupState {
        self.db.groups[group_id].clone()
    }

    fn create_group(&mut self, group_id: &str, creator_id: &str) -> Result<(), Failure> {
        let (made, key) = self.client.create_group(group_id, creator_id)?;
        self.db.carry_out(made)?;
        if let Some(key) = key {
            self.db.carry_out(key)?;
        }
        Ok(())
    }

    fn add_group_member(&mut self, group: &str, member: &str, role: &str) -> Result<(), Failure> {
        let request = self.client.add_group_member(group, member, role)?;
        Ok(self.db.carry_out(request)?)
    }

    fn apply(&mut self, event: &GroupEvent) -> Result<GroupState, Failure> {
        let found = self.db.found(control_key_lookup(event, DOMAIN)?);
        let outcome = match &found {
            Some(key) => checked(key, event),
            None => Ok(()),
        };
        let write =
            self.client.apply_group_control_event(event.clone(), DOMAIN, found, outcome, NOW)?;
        Ok(self.db.write(write)?)
    }

    fn apply_role_change(&mut self, event: &GroupEvent) -> Result<GroupState, Failure> {
        let found = self.db.found(control_key_lookup(event, DOMAIN)?);
        let key = control_public_key(event, found.clone())?;
        let outcome = checked(&key, event);
        let write =
            self.client.apply_group_role_change(event.clone(), DOMAIN, found, outcome, NOW)?;
        Ok(self.db.write(write)?)
    }

    fn apply_bootstrap(
        &mut self,
        event: &GroupEvent,
        source: &str,
        key: &str,
    ) -> Result<GroupState, Failure> {
        let write = self.client.apply_bootstrap_group_member_join_event(
            event.clone(),
            source,
            key,
            DOMAIN,
            checked(key, event),
            NOW,
        )?;
        Ok(self.db.write(write)?)
    }

    fn accept(
        &mut self,
        group_id: &str,
        device: &str,
        invite_id: &str,
    ) -> Result<(GroupEvent, GroupState), Failure> {
        let invite =
            self.db.invites[&(group_id.to_owned(), invite_id.to_owned())].invite.clone();
        let event = self.client.create_signed_group_member_accept(
            &self.group(group_id),
            group_id,
            device,
            invite_id,
            &invite,
            DOMAIN,
            NOW,
        )?;
        let event = self.signed(event);
        let state = self.apply(&event)?;
        Ok((event, state))
    }
}

fn seed_group_named(member: &mut Member, group_id: &str, alice_key: &str) -> Result<(), Failure> {
    member.create_group(group_id, "alice_device")?;
    member.db.carry_out(AccountDbRequest::PersistGroupMemberDeviceKey {
        group_id: group_id.to_owned(),
        member_id: "alice_device".to_owned(),
        public_key: alice_key.to_owned(),
    })?;
    member.add_group_member(group_id, "bob_device", "member")
}

fn seed_member_key(member: &mut Member, member_id: &str, key: &str) -> Result<(), Failure> {
    Ok(member.db.carry_out(AccountDbRequest::PersistGroupMemberDeviceKey {
        group_id: "group_test".to_owned(),
        member_id: member_id.to_owned(),
        public_key: key.to_owned(),
    })?)
}

fn invite_id_from_event(event: &GroupEvent) -> String {
    match &event.body {
        GroupEventBody::MemberInvitedV2 { invite_id, .. } => invite_id.clone(),
        _ => panic!("expected member invite event"),
    }
}

#[test]
fn made_groups_are_listed_once() -> Result<(), Failure> {
    let mut alice = group_client("alice", "alice_device", [0x72; 32]);
    assert_eq!(alice.client.groups()?, AccountDbRequest::Groups);
    for group_id in ["group_a", "group_b", "group_c"] {
        alice.create_group(group_id, "alice_device")?;
    }
    let mut listed: Vec<GroupState> = alice.db.groups.values().cloned().collect();
    listed.sort_by(|a, b| a.group_id.cmp(&b.group_id));
    assert_eq!(listed.len(), 3);
    for (state, group_id) in listed.iter().zip(["group_a", "group_b", "group_c"]) {
        assert_eq!(state.group_id, group_id);
        assert_eq!(
            alice.client.group_state(group_id)?,
            AccountDbRequest::GroupState { group_id: group_id.to_owned() }
        );
        assert_eq!(*state, alice.group(group_id));
    }
    Ok(())
}

#[test]
fn bootstrap_member_join_requires_verified_actor_key_and_source_device() -> Result<(), Failure> {
    let alice_seed = [0x72; 32];
    let bob_seed = [0x73; 32];
    let carol_seed = [0x74; 32];
    let alice_key = device_public_key("alice", "alice_device", alice_seed);
    let bob_key = device_public_key("bob", "bob_device", bob_seed);
    let carol_key = device_public_key("carol", "carol_device", carol_seed);
    let mut alice = group_client("alice", "alice_device", alice_seed);
    let mut bob = group_client("bob", "bob_device", bob_seed);
    let mut carol = group_client("carol", "carol_device", carol_seed);

    alice.create_group("group_join", "alice_device")?;
    alice.add_group_member("group_join", "bob_device", "member")?;
    let event = alice.client.create_signed_group_member_join_event(
        &alice.group("group_join"),
        "group_join",
        "alice_device",
        "bob_device",
        "member",
        "alice_commitment",
        DOMAIN,
        NOW,
    )?;
    let event = alice.signed(event);

    assert!(bob.apply_bootstrap(&event, "mallory_device", &alice_key).is_err());
    assert!(carol.apply_bootstrap(&event, "alice_device", &carol_key).is_err());

    let state = bob.apply_bootstrap(&event, "alice_device", &alice_key)?;
    assert!(state.has_member("bob_device"));
    assert_eq!(state.role("alice_device").as_deref(), Some("owner"));
    assert_eq!(state.role("bob_device").as_deref(), Some("member"));
    assert_eq!(
        bob.db.keys.get(&("group_join".to_owned(), "alice_device".to_owned())),
        Some(&alice_key)
    );
    assert_ne!(bob_key, carol_key);
    Ok(())
}

#[test]
fn signed_group_role_change_rejects_forgery_epoch_mismatch_and_replay() -> Result<(), Failure> {
    let alice_seed = [0x42; 32];
    let alice_key = device_public_key("alice", "alice_device", alice_seed);
    let mut alice = group_client("alice", "alice_device", alice_seed);
    let mut bob = group_client("bob", "bob_device", [0x44; 32]);
    seed_group_named(&mut alice, "group_test", &alice_key)?;
    seed_group_named(&mut bob, "group_test", &alice_key)?;

    let event = alice.client.create_signed_group_role_change(
        &alice.group("group_test"),
        "group_test",
        "alice_device",
        "bob_device",
        "admin",
        DOMAIN,
        NOW,
    )?;
    let event = alice.signed(event);
    alice.apply_role_change(&event)?;

    let mut forged = event.clone();
    if let GroupEventBody::RoleChanged { new_role, .. } = &mut forged.body {
        *new_role = "bot".to_owned();
    }
    assert!(bob.apply_role_change(&forged).is_err());

    let mut wrong_epoch = event.clone();
    if let GroupEventBody::RoleChanged { previous_epoch, .. } = &mut wrong_epoch.body {
        *previous_epoch = 99;
    }
    let wrong_epoch = alice.signed(wrong_epoch);
    assert!(matches!(
        bob.apply_role_change(&wrong_epoch),
        Err(Failure::Db(Refusal::EpochMismatch))
    ));

    let state = bob.apply_role_change(&event)?;
    assert_eq!(state.role("bob_device").as_deref(), Some("admin"));
    assert!(matches!(bob.apply_role_change(&event), Err(Failure::Db(Refusal::Replay))));
    Ok(())
}

#[test]
fn signed_group_invite_accept_enforces_state_expiry_and_bound_invitee_key() -> Result<(), Failure> {
    let alice_seed = [0x62; 32];
    let bob_seed = [0x63; 32];
    let carol_seed = [0x64; 32];
    let alice_key = device_public_key("alice", "alice_device", alice_seed);
    let bob_key = device_public_key("bob", "bob_device", bob_seed);
    let carol_key = device_public_key("carol", "carol_device", carol_seed);
    let mut alice = group_client("alice", "alice_device", alice_seed);
    let mut bob = group_client("bob", "bob_device", bob_seed);
    let mut carol = group_client("carol", "carol_device", carol_seed);
    for member in [&mut alice, &mut bob, &mut carol] {
        seed_group_named(member, "group_test", &alice_key)?;
        seed_member_key(member, "bob_device", &bob_key)?;
    }

    let invite = alice.client.create_signed_group_member_invite(
        &alice.group("group_test"),
        "group_test",
        "alice_device",
        "carol_device",
        &carol_key,
        "member",
        4_000_000_000,
        "unit test",
        DOMAIN,
        NOW,
    )?;
    let invite = alice.signed(invite);
    alice.apply(&invite)?;
    let invite_id = invite_id_from_event(&invite);
    bob.apply(&invite)?;
    carol.apply(&invite)?;

    assert!(matches!(
        bob.accept("group_test", "bob_device", &invite_id),
        Err(Failure::Sdk(SdkError::Protocol(_)))
    ));

    let (accept, carol_state) = carol.accept("group_test", "carol_device", &invite_id)?;
    assert!(carol_state.has_member("carol_device"));
    let alice_state = alice.apply(&accept)?;
    assert!(alice_state.has_member("carol_device"));
    assert!(matches!(
        carol.accept("group_test", "carol_device", &invite_id),
        Err(Failure::Db(Refusal::InviteState))
    ));

    let expired_group = "group_expired";
    seed_group_named(&mut alice, expired_group, &alice_key)?;
    seed_group_named(&mut carol, expired_group, &alice_key)?;
    let expired_invite = alice.client.create_signed_group_member_invite(
        &alice.group(expired_group),
        expired_group,
        "alice_device",
        "carol_device",
        &carol_key,
        "member",
        1,
        "unit test",
        DOMAIN,
        NOW,
    )?;
    let expired_invite = alice.signed(expired_invite);
    alice.apply(&expired_invite)?;
    let expired_invite_id = invite_id_from_event(&expired_invite);
    carol.apply(&expired_invite)?;
    assert!(matches!(
        carol.accept(expired_group, "carol_device", &expired_invite_id),
        Err(Failure::Db(Refusal::InviteExpired))
    ));
    Ok(())
}

#[test]
fn signed_group_kick_ban_and_delete_apply_authoritatively() -> Result<(), Failure> {
    let alice_seed = [0x52; 32];
    let bob_seed = [0x53; 32];
    let alice_key = device_public_key("alice", "alice_device", alice_seed);
    let bob_key = device_public_key("bob", "bob_device", bob_seed);
    let mut alice = group_client("alice", "alice_device", alice_seed);
    let mut bob = group_client("bob", "bob_device", bob_seed);
    for member in [&mut alice, &mut bob] {
        seed_group_named(member, "group_test", &alice_key)?;
        seed_member_key(member, "bob_device", &bob_key)?;
    }

    let epoch_before_delete = alice.group("group_test").group_epoch;
    let delete = alice.client.create_signed_group_message_delete(
        &alice.group("group_test"),
        "group_test",
        "alice_device",
        "msg_from_bob",
        "group_tombstone",
        "unit test",
        DOMAIN,
        NOW,
    )?;
    let delete = alice.signed(delete);
    let delete_state = alice.apply(&delete)?;
    assert_eq!(delete_state.group_epoch, epoch_before_delete);
    assert!(alice.db.tombstones.contains("msg_from_bob"));

    let kick = alice.client.create_signed_group_member_kick(
        &alice.group("group_test"),
        "group_test",
        "alice_device",
        "bob_device",
        "unit test",
        DOMAIN,
        NOW,
    )?;
    let kick = alice.signed(kick);
    alice.apply(&kick)?;
    bob.apply(&kick)?;
    assert!(!bob.group("group_test").has_member("bob_device"));
    assert!(matches!(bob.apply(&kick), Err(Failure::Db(Refusal::Replay))));

    let mut alice_ban = group_client("alice", "alice_device", alice_seed);
    seed_group_named(&mut alice_ban, "group_test", &alice_key)?;
    seed_member_key(&mut alice_ban, "bob_device", &bob_key)?;
    let ban = alice_ban.client.create_signed_group_member_ban(
        &alice_ban.group("group_test"),
        "group_test",
        "alice_device",
        "bob_device",
        "unit test",
        DOMAIN,
        NOW,
    )?;
    let ban = alice_ban.signed(ban);
    let state = alice_ban.apply(&ban)?;
    assert!(!state.has_member("bob_device"));
    assert!(matches!(
        alice_ban.add_group_member("group_test", "bob_device", "member"),
        Err(Failure::Db(Refusal::Denied))
    ));
    Ok(())
}

fn role_change(member: &Member) -> Result<GroupEvent, SdkError> {
    member.client.create_signed_group_role_change(
        &member.group("group_test"),
        "group_test",
        "alice_device",
        "bob_device",
        "admin",
        DOMAIN,
        NOW,
    )
}

#[test]
fn events_of_another_form_are_not_believed() -> Result<(), Failure> {
    let alice_key = device_public_key("alice", "alice_device", [1; 32]);
    let mut alice = group_client("alice", "alice_device", [1; 32]);
    seed_group_named(&mut alice, "group_test", &alice_key)?;
    let event = alice.signed(role_change(&alice)?);
    assert_eq!(event.event_id, "group.role_changed:group_test:alice_device:bob_device:3");
    assert_eq!(event.causal_prev, vec!["group:group_test:epoch:3".to_owned()]);
    let refused = |words: &str| Err(Failure::Sdk(SdkError::LocalBus(words.to_owned())));

    let mut other = event.clone();
    other.domain = "elsewhere".to_owned();
    assert_eq!(
        alice.apply(&other),
        refused("unsupported group control event domain: elsewhere")
    );
    let mut other = event.clone();
    other.event_type = "group.member_kicked".to_owned();
    assert_eq!(
        alice.apply(&other),
        refused("unsupported group control event type: group.member_kicked")
    );
    let mut other = event.clone();
    other.signed.signing_key_id = "device:mallory".to_owned();
    assert_eq!(
        alice.apply(&other),
        refused("group control signing key id mismatch for alice_device")
    );
    let mut other = event.clone();
    other.body = GroupEventBody::Other;
    assert_eq!(alice.apply(&other), refused("unsupported group control event body"));

    let mut carol = group_client("carol", "carol_device", [2; 32]);
    assert_eq!(
        carol.apply(&event),
        Err(Failure::Sdk(SdkError::Storage(StorageError::GroupControlSigningKeyMissing(
            "alice_device".to_owned()
        ))))
    );
    let locked = RamfluxClient::new();
    assert_eq!(
        locked.apply_group_control_event(event, DOMAIN, Some(alice_key), Ok(()), NOW),
        Err(SdkError::AccountDbNotUnlocked)
    );
    Ok(())
}

#[test]
fn first_events_are_bound_to_their_sender() -> Result<(), Failure> {
    let mut alice = group_client("alice", "alice_device", [1; 32]);
    let mut bob = group_client("bob", "bob_device", [2; 32]);
    alice.create_group("group_test", "alice_device")?;
    alice.add_group_member("group_test", "bob_device", "member")?;
    let event = alice.client.create_signed_group_member_join_event(
        &alice.group("group_test"),
        "group_test",
        "alice_device",
        "bob_device",
        "member",
        "commitment",
        DOMAIN,
        NOW,
    )?;
    let event = alice.signed(event);
    let refused = |words: &str| Err(Failure::Sdk(SdkError::LocalBus(words.to_owned())));
    assert_eq!(
        bob.apply_bootstrap(&event, "mallory_device", &alice.key),
        refused(
            "bootstrap group event actor alice_device does not match envelope source mallory_device"
        )
    );
    assert_eq!(
        bob.apply_bootstrap(&event, "alice_device", "another key"),
        refused("bootstrap group event signing key does not match verified manifest")
    );
    let mut other = event.clone();
    other.signed.signing_key_id = "device:bob_device".to_owned();
    assert_eq!(
        bob.apply_bootstrap(&other, "alice_device", &alice.key),
        refused("bootstrap group event signing key id mismatch for alice_device")
    );
    let mut other = event.clone();
    other.event_type = "group.member_kicked".to_owned();
    assert_eq!(
        bob.apply_bootstrap(&other, "alice_device", &alice.key),
        refused("unsupported bootstrap group event type: group.member_kicked")
    );
    let other = alice.signed(role_change(&alice)?);
    assert_eq!(
        bob.apply_bootstrap(&other, "alice_device", &alice.key),
        refused("expected group member joined event")
    );
    let mut tampered = event;
    tampered.created_at = 0;
    assert_eq!(
        bob.apply_bootstrap(&tampered, "alice_device", &alice.key),
        Err(Failure::Sdk(SdkError::Protocol("signature mismatch".to_owned())))
    );
    Ok(())
}

#[test]
fn only_owners_and_admins_let_members_in() -> Result<(), Failure> {
    let mut bob = group_client("bob", "bob_device", [2; 32]);
    seed_group_named(&mut bob, "group_test", "alice key")?;
    let join = |device: &str| {
        bob.client
            .create_signed_group_member_join_event(
                &bob.group("group_test"),
                "group_test",
                device,
                "carol_device",
                "member",
                "commitment",
                DOMAIN,
                NOW,
            )
            .map(|_| ())
    };
    let denied = Err(SdkError::Storage(StorageError::GroupPermissionDenied));
    assert_eq!(join("bob_device"), denied);
    assert_eq!(join("stranger"), denied);
    assert_eq!(
        join("alice_device"),
        Err(SdkError::LocalBus(
            "actor device alice_device does not match local signer bob_device".to_owned()
        ))
    );
    let mut nobody = RamfluxClient::new();
    nobody.open_account_index("/accounts".to_owned());
    nobody.account_unlocked("acct");
    assert_eq!(
        nobody
            .create_signed_group_role_change(
                &bob.group("group_test"),
                "group_test",
                "alice_device",
                "bob_device",
                "admin",
                DOMAIN,
                NOW,
            )
            .map(|_| ()),
        Err(SdkError::IdentityRootMissing)
    );
    Ok(())
}

#[test]
fn member_routes_are_recorded_once() -> Result<(), Failure> {
    let mut alice = group_client("alice", "alice_device", [1; 32]);
    alice.create_group("g", "alice_device")?;
    let route = LocalBusGroupMemberRoute {
        member_id: "bob_device".to_owned(),
        device_signing_public_key: Some("key".to_owned()),
    };
    let write = alice.client.persist_group_member_route("g", &route, false, b"route")?;
    let write = write.ok_or_else(|| SdkError::LocalBus("the route is new".to_owned()))?;
    assert_eq!(
        write.key,
        Some(AccountDbRequest::PersistGroupMemberDeviceKey {
            group_id: "g".to_owned(),
            member_id: "bob_device".to_owned(),
            public_key: "key".to_owned()
        })
    );
    assert_eq!(
        write.route,
        AccountDbRequest::AppendEvent {
            event_id: "group.member.route:g:bob_device".to_owned(),
            event_type: "group.member.route".to_owned(),
            body: b"route".to_vec()
        }
    );
    assert_eq!(alice.client.persist_group_member_route("g", &route, true, b"route")?, None);
    assert_eq!(
        alice.client.group_member_routes("g", &alice.group("g"))?,
        vec![group_member_route_event_id("g", "alice_device")]
    );
    Ok(())
}

fn ciphertext(counter: u64) -> DmCiphertext {
    DmCiphertext {
        session_id: "session".to_owned(),
        counter,
        nonce: [0; 12],
        ciphertext: b"cipher".to_vec(),
        ratchet_public_key: None,
        previous_chain_length: 0,
        sender_device_id_hash: [0; 32],
        recipient_device_id_hash: [0; 32],
        device_epoch: 0,
        message_event_id: String::new(),
        canonical_header_bytes: Vec::new(),
        header_hash: String::new(),
        key_commitment: String::new(),
        franking_commitment: String::new(),
        commitment: String::new(),
        ciphertext_hash: String::new(),
    }
}

fn listed(message_id: &str) -> DirectMessageRecord {
    DirectMessageRecord {
        conversation_id: "g".to_owned(),
        message_id: message_id.to_owned(),
        sender_id: "bob_device".to_owned(),
        encrypted_body: b"cipher".to_vec(),
        metadata: MessageMetadata { franking_report: None },
        deleted: false,
        created_at: 1,
    }
}

#[test]
fn messages_wait_for_their_key() -> Result<(), Failure> {
    let mut alice = group_client("alice", "alice_device", [1; 32]);
    alice.create_group("g", "alice_device")?;
    let missing = load_group_sender_key_state("g", "bob_device", 2, "recv", None, None);
    let Err(error) = missing else { panic!("there is no key") };
    assert_eq!(
        error,
        SdkError::LocalBus("missing group sender key for g/bob_device/epoch 2/recv".to_owned())
    );
    assert!(is_missing_group_sender_key_error(&error));
    assert!(!is_missing_group_sender_key_error(&SdkError::LocalBus("other".to_owned())));
    assert_eq!(
        load_group_sender_key_state("g", "b", 2, "recv", Some("event".to_owned()), None),
        Err(SdkError::LocalBus("missing group sender key event event".to_owned()))
    );
    assert_eq!(
        alice.client.finish_group_message("g", "m", "bob_device", b"cipher", Err(error))?,
        GroupMessageEnd::KeyMissing
    );
    let failed = SdkError::Crypto("bad".to_owned());
    assert_eq!(
        alice.client.finish_group_message("g", "m", "b", b"cipher", Err(failed.clone())),
        Err(failed)
    );
    let end = alice.client.finish_group_message(
        "g",
        "m",
        "bob_device",
        b"cipher",
        Ok(b"plain".to_vec()),
    )?;
    assert_eq!(
        end,
        GroupMessageEnd::Accept {
            list: AccountDbRequest::SendDirectMessage {
                conversation_id: "g".to_owned(),
                message_id: "m".to_owned(),
                sender_id: "bob_device".to_owned(),
                encrypted_body: b"cipher".to_vec()
            },
            settle: AccountDbRequest::RemoveGroupPendingUndecrypted {
                message_id: "m".to_owned()
            },
            plaintext: b"plain".to_vec()
        }
    );
    let settle =
        Some(AccountDbRequest::RemoveGroupPendingUndecrypted { message_id: "m".to_owned() });
    assert_eq!(alice.client.settle_known_group_message(&vec![listed("m")], "m", false)?, settle);
    assert_eq!(alice.client.settle_known_group_message(&vec![], "m", true)?, settle);
    assert_eq!(alice.client.settle_known_group_message(&vec![listed("n")], "m", false)?, None);
    Ok(())
}

#[test]
fn counters_come_once() -> Result<(), Failure> {
    let mut alice = group_client("alice", "alice_device", [1; 32]);
    alice.create_group("g", "alice_device")?;
    let group = alice.group("g");
    let seal = |sender: &str| {
        alice.client.encrypt_group_message(
            &group,
            "g",
            sender,
            ciphertext(4),
            b"session".to_vec(),
            b"state",
        )
    };
    let sealed = seal("alice_device")?;
    // The key is kept as it stands after encrypting, under the counter that was used.
    assert_eq!(
        sealed.key.event,
        AccountDbRequest::AppendEvent {
            event_id: "group.sender_key:send:g:alice_device:1:send:4".to_owned(),
            event_type: "group.sender_key.state".to_owned(),
            body: b"state".to_vec()
        }
    );
    let envelope = sealed.envelope;
    assert_eq!(envelope.group_key_epoch, 1);
    assert_eq!(
        seal("stranger"),
        Err(SdkError::Storage(StorageError::GroupPermissionDenied))
    );
    assert_eq!(decrypted_once(&envelope, b"plain".to_vec(), true), Ok(b"plain".to_vec()));
    assert_eq!(
        decrypted_once(&envelope, b"plain".to_vec(), false),
        Err(SdkError::LocalBus(
            "replayed group sender-key counter for g/alice_device/epoch 1/counter 4".to_owned()
        ))
    );
    assert_eq!(
        alice.client.group_sender_key_counter_seen(&envelope)?,
        AccountDbRequest::GroupSenderKeyCounterSeen {
            group_id: "g".to_owned(),
            group_key_epoch: 1,
            sender_id: "alice_device".to_owned(),
            counter: 4
        }
    );
    assert!(matches!(
        alice.client.record_group_sender_key_counter(&envelope, "m", 9)?,
        AccountDbRequest::RecordGroupSenderKeyCounter(record)
            if record.counter == 4 && record.message_id == "m" && record.seen_at == 9
    ));
    assert_eq!(check_group_envelope(&envelope), Ok(()));
    assert!(group_entry_is_sender_key_message(&Some(envelope.clone())));
    let mut other = envelope;
    other.schema = "x".to_owned();
    assert_eq!(
        check_group_envelope(&other),
        Err(SdkError::LocalBus("unsupported group message schema: x".to_owned()))
    );
    assert!(!group_entry_is_sender_key_message(&Some(other)));
    assert!(!group_entry_is_sender_key_message(&None));
    assert_eq!(
        alice.client.decrypt_group_message(vec![listed("a"), listed("b")], "b")?,
        listed("b")
    );
    assert_eq!(
        alice.client.decrypt_group_message(vec![listed("a")], "b"),
        Err(SdkError::Storage(StorageError::MessageNotFound("b".to_owned())))
    );
    Ok(())
}

#[test]
fn keys_are_handed_over_and_kept() -> Result<(), Failure> {
    let mut alice = group_client("alice", "alice_device", [1; 32]);
    alice.create_group("g", "alice_device")?;
    let distribution = alice.client.export_group_sender_key_distribution(
        &alice.group("g"),
        "g",
        "alice_device",
        [7; 32],
    )?;
    let bob = group_client("bob", "bob_device", [2; 32]);
    let import = bob.client.import_group_sender_key_distribution(
        &distribution,
        b"session".to_vec(),
        b"state",
    )?;
    // The messages of the key's epoch are then tried again.
    assert_eq!(
        import.pending,
        Some(AccountDbRequest::GroupPendingUndecrypted {
            group_id: "g".to_owned(),
            group_key_epoch: 1
        })
    );
    let quiet = bob.client.import_group_sender_key_distribution_inner(
        &distribution,
        b"session".to_vec(),
        b"state",
        false,
    )?;
    assert_eq!((quiet.pending, &quiet.key), (None, &import.key));
    let kept = import.key;
    assert_eq!(
        kept.event,
        AccountDbRequest::AppendEvent {
            event_id: "group.sender_key:recv:g:alice_device:1:import".to_owned(),
            event_type: "group.sender_key.state".to_owned(),
            body: b"state".to_vec()
        }
    );
    assert_eq!(
        kept.checkpoint,
        AccountDbRequest::SetProjectionCheckpoint {
            projection_name: group_sender_key_checkpoint_name("g", "alice_device", 1, "recv"),
            last_event_id: "group.sender_key:recv:g:alice_device:1:import".to_owned()
        }
    );
    let unknown = SdkGroupSenderKeyDistribution { schema: "x".to_owned(), ..distribution };
    assert_eq!(
        bob.client.import_group_sender_key_distribution(&unknown, vec![], b""),
        Err(SdkError::LocalBus("unsupported group sender key distribution schema: x".to_owned()))
    );
    let wrapper = SdkGroupSenderKeyDistributionEnvelope {
        schema: "x".to_owned(),
        version: 1,
        membership_event_base64: None,
        actor_manifest_url: None,
        distribution_base64: String::new(),
    };
    assert_eq!(
        check_distribution_envelope(&wrapper),
        Err(SdkError::LocalBus(
            "unsupported group sender-key distribution wrapper schema: x".to_owned()
        ))
    );
    let state = SdkGroupSenderKeyState {
        group_id: "g".to_owned(),
        sender_id: "bob_device".to_owned(),
        group_key_epoch: 1,
        session_snapshot: vec![],
    };
    assert_eq!(bob.client.ensure_own_group_sender_key(&Ok(vec![]), &state, b"s")?, None);
    let missing = Err(SdkError::LocalBus("missing".to_owned()));
    let made = bob.client.ensure_own_group_sender_key(&missing, &state, b"s")?;
    assert!(made.is_some());
    assert_eq!(
        append_group_gateway_delivery(GroupGatewayDeliveryResult::Message(b"m".to_vec())),
        b"m"
    );
    assert!(append_group_gateway_delivery(
        GroupGatewayDeliveryResult::SenderKeyDistribution(unknown)
    )
    .is_empty());
    Ok(())
}

#[test]
fn a_group_key_is_kept_before_its_message_leaves() {
    let mut send = GroupSend::start();
    for expected in [
        GroupSendStep::CheckSender,
        GroupSendStep::EnsureKey,
        GroupSendStep::Encrypt,
        GroupSendStep::PersistKey,
    ] {
        assert_eq!(send.step, expected);
        assert!(!send.key_persisted);
        send.advance(true);
    }
    assert_eq!((send.step, send.key_persisted), (GroupSendStep::HandOut, true));
    let mut failed = GroupSend::start();
    for _ in 0..3 {
        failed.advance(true);
    }
    failed.advance(false);
    failed.advance(true);
    assert_eq!((failed.step, failed.key_persisted), (GroupSendStep::Stop, false));
}

#[test]
fn waiting_messages_are_tried_again_in_their_order() {
    let waiting = |message_id: &str| GroupPendingUndecryptedRecord {
        group_id: "g".to_owned(),
        conversation_id: "c".to_owned(),
        group_key_epoch: 1,
        message_id: message_id.to_owned(),
        sender_id: "s".to_owned(),
        inbox_seq: 1,
        envelope_json: vec![],
        created_at: 1,
    };
    let mut retry = PendingRetry::start(vec![waiting("a"), waiting("b"), waiting("c")]);
    assert_eq!(retry.wanted().map(|r| r.message_id.as_str()), Some("a"));
    assert_eq!(retry.tried(Ok(Some(b"plain".to_vec()))), Ok(()));
    assert_eq!(retry.tried(Ok(None)), Ok(()));
    assert_eq!(retry.wanted().map(|r| r.message_id.as_str()), Some("c"));
    let failure = SdkError::LocalBus("no".to_owned());
    assert_eq!(retry.tried(Err(failure.clone())), Err(failure));
    assert_eq!(retry.wanted().map(|r| r.message_id.as_str()), Some("c"));
    assert_eq!(retry.tried(Ok(Some(vec![]))), Ok(()));
    assert!(retry.wanted().is_none());
    let handed_out: Vec<&str> = retry.handed_out.iter().map(|m| m.message_id.as_str()).collect();
    assert_eq!(handed_out, vec!["a", "c"]);
    assert_eq!(retry.handed_out[0].plaintext, b"plain");
}

#[test]
fn signed_events_are_applied_by_their_maker() -> Result<(), Failure> {
    let mut alice = group_client("alice", "alice_device", [1; 32]);
    alice.create_group("g", "alice_device")?;
    alice.add_group_member("g", "bob_device", "member")?;
    let event = alice.client.create_signed_group_member_kick(
        &alice.group("g"),
        "g",
        "alice_device",
        "bob_device",
        "reason",
        DOMAIN,
        NOW,
    )?;
    let key = alice.key.clone();
    let apply = |signature: Result<String, SdkError>, found: Option<String>| {
        alice.client.apply_signed_group_event(event.clone(), signature, DOMAIN, found, Ok(()), NOW)
    };
    let (signed, write) = apply(Ok("signature".to_owned()), Some(key.clone()))?;
    assert_eq!(signed.signed.signature, "signature");
    assert_eq!(signed.event_id, event.event_id);
    assert!(matches!(
        write,
        GroupControlWrite::MemberKick(w)
            if w.target_member_id == "bob_device" && w.event_id == event.event_id
                && w.previous_epoch == 2 && w.new_group_epoch == 3
    ));
    let unsigned = Err(SdkError::Crypto("no key".to_owned()));
    assert_eq!(apply(unsigned.clone(), Some(key)), unsigned.map(|_| unreachable!()));
    assert_eq!(
        apply(Ok(String::new()), None),
        Err(SdkError::Storage(StorageError::GroupControlSigningKeyMissing(
            "alice_device".to_owned()
        )))
    );
    assert_eq!(
        RamfluxClient::new().apply_signed_group_event(
            event,
            Ok(String::new()),
            DOMAIN,
            None,
            Ok(()),
            NOW
        ),
        Err(SdkError::IdentityRootMissing)
    );
    Ok(())
}

#[test]
fn group_names_are_built_from_their_parts() {
    assert_eq!(group_sender_session_id("g", "s", 3), "group:g:sender:s:epoch:3");
    assert_eq!(group_sender_device_text("g", "s", "send"), "g|s|send");
    assert_eq!(
        group_sender_key_checkpoint_name("g", "s", 3, "recv"),
        "group_sender_key:g:s:3:recv"
    );
    assert_eq!(
        group_sender_key_distribution_conversation_id("g", "s", "d"),
        "group.sender_key.distribution:g:s:d"
    );
    assert_eq!(counter_suffix("send", 12), "send:12");
    assert_eq!(group_associated_data("g", "s", 1), b"ramflux.group.sender_key.v1|g|s|1");
}

#[test]
fn messages_without_a_key_are_set_aside() -> Result<(), Failure> {
    let mut alice = group_client("alice", "alice_device", [1; 32]);
    alice.create_group("g", "alice_device")?;
    let envelope = alice
        .client
        .encrypt_group_message(&alice.group("g"), "g", "alice_device", ciphertext(0), vec![], b"")?
        .envelope;
    let entry = GatewayInboxEntry {
        inbox_seq: 6,
        target_delivery_id: "t".to_owned(),
        envelope: Envelope {
            schema: "s".to_owned(),
            version: 1,
            domain: "d".to_owned(),
            franking: None,
            signed: SignedFields {
                signing_key_id: "k".to_owned(),
                signature_alg: SignatureAlg::Ed25519,
                signature: String::new(),
            },
            envelope_id: "env".to_owned(),
            source_principal_id: "p".to_owned(),
            source_device_id: "alice_device".to_owned(),
            target_delivery_id: "t".to_owned(),
            routing_set_id: None,
            delivery_class: DeliveryClass::OpaqueEvent,
            priority: Priority::Normal,
            ttl: 1,
            created_at: 1,
            encrypted_payload: String::new(),
            payload_hash: String::new(),
        },
    };
    let pending = pending_group_message("g", "m", &entry, &envelope, b"json".to_vec(), 11);
    assert!(matches!(
        pending,
        AccountDbRequest::UpsertGroupPendingUndecrypted(record)
            if record.inbox_seq == 6
                && record.sender_id == "alice_device"
                && record.group_key_epoch == 1
                && record.envelope_json == b"json"
                && record.created_at == 11
    ));
    assert_eq!(
        alice.client.pending_group_messages("g", 1)?,
        AccountDbRequest::GroupPendingUndecrypted { group_id: "g".to_owned(), group_key_epoch: 1 }
    );
    Ok(())
}

fn run(retrying: bool, events: &[GroupStepEvent]) -> GroupReceive {
    let mut receive = GroupReceive::start(retrying);
    for event in events {
        receive.advance(*event);
    }
    receive
}

#[test]
fn a_group_message_is_handed_out_once_it_is_kept() {
    let done = GroupStepEvent::Done;
    let until_counter = [
        done,
        GroupStepEvent::Payload { message: true },
        GroupStepEvent::LookedUp { known: false },
        done,
        done,
    ];
    let receive = run(false, &until_counter);
    assert_eq!(receive.step, GroupStep::RecordCounter);

    let mut taken = receive;
    for event in [GroupStepEvent::Recorded { anew: true }, done, done, done] {
        taken.advance(event);
    }
    assert_eq!(taken.step, GroupStep::Deliver);
    assert!(taken.counter_recorded && taken.key_persisted && taken.listed && taken.settled);

    let mut replayed = receive;
    replayed.advance(GroupStepEvent::Recorded { anew: false });
    replayed.advance(done);
    assert_eq!(replayed.step, GroupStep::Stop);
}

#[test]
fn a_group_message_without_its_key_stays_set_aside() {
    let done = GroupStepEvent::Done;
    let missing = GroupStepEvent::Failed { key_missing: true };
    let first = [
        done,
        GroupStepEvent::Payload { message: true },
        GroupStepEvent::LookedUp { known: false },
        missing,
    ];
    let mut receive = run(false, &first);
    assert_eq!(receive.step, GroupStep::SetAside);
    receive.advance(done);
    assert_eq!(receive.step, GroupStep::Skip);
    assert!(receive.set_aside && !receive.key_persisted);

    let again = run(true, &[GroupStepEvent::LookedUp { known: false }, missing]);
    assert_eq!(again.step, GroupStep::Skip);
    assert!(!again.settled);
    let known = run(true, &[GroupStepEvent::LookedUp { known: true }, done]);
    assert_eq!(known.step, GroupStep::Skip);
    assert!(known.settled);
    let failed = GroupStepEvent::Failed { key_missing: false };
    assert_eq!(
        run(true, &[GroupStepEvent::LookedUp { known: false }, failed]).step,
        GroupStep::Stop
    );
    assert_eq!(run(false, &[missing]).step, GroupStep::Stop);
}

#[test]
fn a_members_key_is_taken_in_behind_its_session() {
    let done = GroupStepEvent::Done;
    let mut receive = run(false, &[done, GroupStepEvent::Payload { message: false }]);
    let mut steps = Vec::new();
    while receive.step != GroupStep::KeyTaken {
        steps.push(receive.step);
        receive.advance(done);
    }
    assert_eq!(
        steps,
        vec![
            GroupStep::DecryptDistribution,
            GroupStep::PersistSession,
            GroupStep::CheckWrapper,
            GroupStep::ImportKey,
        ]
    );
}

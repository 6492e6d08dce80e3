//! Groups: what their members exchange, and the names under which it is kept.
use crate::error::SdkError;
use crate::object::DmCiphertext;
use crate::text::{contains, decimal, decimal_u64, occurs_in, str_eq};
use vstd::prelude::*;

verus! {

/// A sender's key, as it is handed to another member.
#[derive(Clone, Debug, PartialEq, Eq)]
pub struct SdkGroupSenderKeyDistribution {
    pub schema: String,
    pub version: u32,
    pub group_id: String,
    pub sender_id: String,
    pub group_key_epoch: u64,
    pub sender_key_seed: [u8; 32],
    pub sender_device_signing_public_key: Option<String>,
}

/// A sender's key in its wrapping, with the event that let the member in.
#[derive(Clone, Debug, PartialEq, Eq)]
pub struct SdkGroupSenderKeyDistributionEnvelope {
    pub schema: String,
    pub version: u32,
    pub membership_event_base64: Option<String>,
    pub actor_manifest_url: Option<String>,
    pub distribution_base64: String,
}

/// A sender's key as a member keeps it. The snapshot is that of a ratcheted session.
#[derive(Clone, Debug, PartialEq, Eq)]
pub struct SdkGroupSenderKeyState {
    pub group_id: String,
    pub sender_id: String,
    pub group_key_epoch: u64,
    pub session_snapshot: Vec<u8>,
}

/// A message to a group.
#[derive(Clone, Debug, PartialEq, Eq)]
pub struct SdkGroupEncryptedEnvelope {
    pub schema: String,
    pub version: u32,
    pub group_id: String,
    pub sender_id: String,
    pub group_key_epoch: u64,
    pub ciphertext: DmCiphertext,
}

/// A control event of a group in its wrapping.
#[derive(Clone, Debug, PartialEq, Eq)]
pub struct SdkGroupControlEnvelope {
    pub schema: String,
    pub version: u32,
    pub event: crate::group_control::GroupEvent,
}

/// What an envelope to a group turned out to be.
#[derive(Clone, Debug, PartialEq, Eq)]
pub enum GroupGatewayDeliveryResult {
    Message(Vec<u8>),
    SenderKeyDistribution(SdkGroupSenderKeyDistribution),
}

/// A message that could be decrypted once its key was there.
#[derive(Clone, Debug, PartialEq, Eq)]
pub struct SdkGroupPendingPlaintext {
    pub group_id: String,
    pub conversation_id: String,
    pub message_id: String,
    pub plaintext: Vec<u8>,
}

/// A group as the account database holds it. No member is listed twice, and none has two roles.
#[derive(Clone, Debug, PartialEq, Eq)]
pub struct GroupState {
    pub group_id: String,
    pub group_epoch: u64,
    pub members: Vec<String>,
    pub roles: Vec<(String, String)>,
    pub max_members: u32,
    pub new_member_history: String,
}

/// Whether a name is in a list.
pub open spec fn lists(names: Seq<String>, name: Seq<char>) -> bool {
    exists|i: int| 0 <= i < names.len() && (#[trigger] names[i])@ == name
}

/// Whether a name is in a list.
pub fn is_name_listed(names: &Vec<String>, name: &str) -> (r: bool)
    ensures
        r == lists(names@, name@),
{
    let mut i: usize = 0;
    while i < names.len()
        invariant
            i <= names.len(),
            forall|j: int| 0 <= j < i ==> (#[trigger] names@[j])@ != name@,
        decreases names.len() - i,
    {
        if str_eq(names[i].as_str(), name) {
            assert(names@[i as int]@ == name@);
            return true;
        }
        i = i + 1;
    }
    false
}

impl GroupState {
    /// Whether no member is listed twice, and none has two roles.
    pub open spec fn well_formed(self) -> bool {
        &&& forall|i: int, j: int|
            0 <= i < j < self.members@.len() ==> (#[trigger] self.members@[i])@ != (
            #[trigger] self.members@[j])@
        &&& forall|i: int, j: int|
            0 <= i < j < self.roles@.len() ==> (#[trigger] self.roles@[i]).0@ != (
            #[trigger] self.roles@[j]).0@
    }

    /// Whether somebody is a member.
    pub open spec fn is_member(self, member_id: Seq<char>) -> bool {
        lists(self.members@, member_id)
    }

    /// The role of a member, if it has one.
    pub open spec fn role_of(self, member_id: Seq<char>) -> Option<Seq<char>> {
        if exists|i: int| 0 <= i < self.roles@.len() && (#[trigger] self.roles@[i]).0@ == member_id {
            let i = choose|i: int|
                0 <= i < self.roles@.len() && (#[trigger] self.roles@[i]).0@ == member_id;
            Some(self.roles@[i].1@)
        } else {
            None
        }
    }

    /// Whether somebody is a member.
    pub fn has_member(&self, member_id: &str) -> (r: bool)
        ensures
            r == self.is_member(member_id@),
    {
        is_name_listed(&self.members, member_id)
    }

    /// The role of a member, if it has one.
    pub fn role(&self, member_id: &str) -> (r: Option<String>)
        requires
            self.well_formed(),
        ensures
            crate::text::opt_view(r) == self.role_of(member_id@),
    {
        let mut i: usize = 0;
        while i < self.roles.len()
            invariant
                self.well_formed(),
                i <= self.roles.len(),
                forall|j: int| 0 <= j < i ==> (#[trigger] self.roles@[j]).0@ != member_id@,
            decreases self.roles.len() - i,
        {
            if str_eq(self.roles[i].0.as_str(), member_id) {
                let role = self.roles[i].1.clone();
                assert(self.roles@[i as int].0@ == member_id@);
                return Some(role);
            }
            i = i + 1;
        }
        None
    }
}

// ---- names ----

/// The name of the checkpoint of a sender's key.
pub open spec fn sender_key_checkpoint(
    group_id: Seq<char>,
    sender_id: Seq<char>,
    epoch: nat,
    direction: Seq<char>,
) -> Seq<char> {
    "group_sender_key:"@ + group_id + ":"@ + sender_id + ":"@ + decimal(epoch) + ":"@ + direction
}

/// The name of the checkpoint of a sender's key.
pub fn group_sender_key_checkpoint_name(
    group_id: &str,
    sender_id: &str,
    epoch: u64,
    direction: &str,
) -> (r: String)
    ensures
        r@ == sender_key_checkpoint(group_id@, sender_id@, epoch as nat, direction@),
{
    let number = decimal_u64(epoch);
    "group_sender_key:".to_owned().concat(group_id).concat(":").concat(sender_id).concat(
        ":",
    ).concat(number.as_str()).concat(":").concat(direction)
}

/// The name of a sender's session in one epoch of a group.
pub open spec fn sender_session(group_id: Seq<char>, sender_id: Seq<char>, epoch: nat) -> Seq<char> {
    "group:"@ + group_id + ":sender:"@ + sender_id + ":epoch:"@ + decimal(epoch)
}

/// The name of a sender's session in one epoch of a group.
pub fn group_sender_session_id(group_id: &str, sender_id: &str, epoch: u64) -> (r: String)
    ensures
        r@ == sender_session(group_id@, sender_id@, epoch as nat),
{
    let number = decimal_u64(epoch);
    "group:".to_owned().concat(group_id).concat(":sender:").concat(sender_id).concat(
        ":epoch:",
    ).concat(number.as_str())
}

/// What a sender's device hash in a group is the hash of.
pub fn group_sender_device_text(group_id: &str, sender_id: &str, role: &str) -> (r: String)
    ensures
        r@ == group_id@ + "|"@ + sender_id@ + "|"@ + role@,
{
    group_id.to_owned().concat("|").concat(sender_id).concat("|").concat(role)
}

/// The name of the conversation that hands a sender's key to a device.
pub open spec fn key_distribution_conversation(
    group_id: Seq<char>,
    sender_id: Seq<char>,
    recipient_device_id: Seq<char>,
) -> Seq<char> {
    "group.sender_key.distribution:"@ + group_id + ":"@ + sender_id + ":"@ + recipient_device_id
}

/// The name of the conversation that hands a sender's key to a device.
pub fn group_sender_key_distribution_conversation_id(
    group_id: &str,
    sender_id: &str,
    recipient_device_id: &str,
) -> (r: String)
    ensures
        r@ == key_distribution_conversation(group_id@, sender_id@, recipient_device_id@),
{
    "group.sender_key.distribution:".to_owned().concat(group_id).concat(":").concat(
        sender_id,
    ).concat(":").concat(recipient_device_id)
}

/// The name of the event that holds how a member is reached.
pub open spec fn member_route_event(group_id: Seq<char>, member_id: Seq<char>) -> Seq<char> {
    "group.member.route:"@ + group_id + ":"@ + member_id
}

/// The name of the event that holds how a member is reached.
pub fn group_member_route_event_id(group_id: &str, member_id: &str) -> (r: String)
    ensures
        r@ == member_route_event(group_id@, member_id@),
{
    "group.member.route:".to_owned().concat(group_id).concat(":").concat(member_id)
}

/// The name of a control event: its type, its group, two names and an epoch.
pub open spec fn control_event_name(
    event_type: Seq<char>,
    group_id: Seq<char>,
    first: Seq<char>,
    second: Seq<char>,
    epoch: nat,
) -> Seq<char> {
    event_type + ":"@ + group_id + ":"@ + first + ":"@ + second + ":"@ + decimal(epoch)
}

fn named_event(event_type: &str, group_id: &str, first: &str, second: &str, epoch: u64) -> (r: String)
    ensures
        r@ == control_event_name(event_type@, group_id@, first@, second@, epoch as nat),
{
    let number = decimal_u64(epoch);
    event_type.to_owned().concat(":").concat(group_id).concat(":").concat(first).concat(":").concat(
        second,
    ).concat(":").concat(number.as_str())
}

/// The name of the event that changes a role.
pub fn group_role_changed_event_id(
    group_id: &str,
    actor_device_id: &str,
    target_member_id: &str,
    new_group_epoch: u64,
) -> (r: String)
    ensures
        r@ == control_event_name(
            "group.role_changed"@,
            group_id@,
            actor_device_id@,
            target_member_id@,
            new_group_epoch as nat,
        ),
{
    named_event("group.role_changed", group_id, actor_device_id, target_member_id, new_group_epoch)
}

/// The name of the event that removes a member.
pub fn group_member_kicked_event_id(
    group_id: &str,
    actor_device_id: &str,
    target_member_id: &str,
    new_group_epoch: u64,
) -> (r: String)
    ensures
        r@ == control_event_name(
            "group.member_kicked"@,
            group_id@,
            actor_device_id@,
            target_member_id@,
            new_group_epoch as nat,
        ),
{
    named_event("group.member_kicked", group_id, actor_device_id, target_member_id, new_group_epoch)
}

/// The name of the event that bans a member.
pub fn group_member_banned_event_id(
    group_id: &str,
    actor_device_id: &str,
    target_member_id: &str,
    new_group_epoch: u64,
) -> (r: String)
    ensures
        r@ == control_event_name(
            "group.member_banned"@,
            group_id@,
            actor_device_id@,
            target_member_id@,
            new_group_epoch as nat,
        ),
{
    named_event("group.member_banned", group_id, actor_device_id, target_member_id, new_group_epoch)
}

/// The name of the event that deletes a message.
pub fn group_message_deleted_event_id(
    group_id: &str,
    actor_device_id: &str,
    target_message_id: &str,
    group_epoch: u64,
) -> (r: String)
    ensures
        r@ == control_event_name(
            "group.message_deleted"@,
            group_id@,
            actor_device_id@,
            target_message_id@,
            group_epoch as nat,
        ),
{
    named_event("group.message_deleted", group_id, actor_device_id, target_message_id, group_epoch)
}

/// The name of the event that invites a member.
pub fn group_member_invited_event_id(
    group_id: &str,
    actor_device_id: &str,
    invitee_identity: &str,
    group_epoch: u64,
) -> (r: String)
    ensures
        r@ == control_event_name(
            "group.member_invited"@,
            group_id@,
            actor_device_id@,
            invitee_identity@,
            group_epoch as nat,
        ),
{
    named_event("group.member_invited", group_id, actor_device_id, invitee_identity, group_epoch)
}

/// The name of the event that accepts an invitation.
pub fn group_member_accepted_event_id(
    group_id: &str,
    invitee_identity: &str,
    invite_id: &str,
    new_group_epoch: u64,
) -> (r: String)
    ensures
        r@ == control_event_name(
            "group.member_accepted"@,
            group_id@,
            invitee_identity@,
            invite_id@,
            new_group_epoch as nat,
        ),
{
    named_event("group.member_accepted", group_id, invitee_identity, invite_id, new_group_epoch)
}

/// The name of the event that adds a member.
pub fn group_member_joined_event_id(
    group_id: &str,
    actor_device_id: &str,
    joined_identity: &str,
    new_group_epoch: u64,
) -> (r: String)
    ensures
        r@ == control_event_name(
            "group.member_joined"@,
            group_id@,
            actor_device_id@,
            joined_identity@,
            new_group_epoch as nat,
        ),
{
    named_event("group.member_joined", group_id, actor_device_id, joined_identity, new_group_epoch)
}

/// The same change in two epochs of a group never has one name.
pub proof fn law_control_events_of_two_epochs_differ(
    event_type: Seq<char>,
    group_id: Seq<char>,
    first: Seq<char>,
    second: Seq<char>,
    a: nat,
    b: nat,
)
    requires
        a != b,
    ensures
        control_event_name(event_type, group_id, first, second, a) != control_event_name(
            event_type,
            group_id,
            first,
            second,
            b,
        ),
{
    let before = event_type + ":"@ + group_id + ":"@ + first + ":"@ + second + ":"@;
    let e = Seq::<char>::empty();
    let x = control_event_name(event_type, group_id, first, second, a);
    let y = control_event_name(event_type, group_id, first, second, b);
    assert(x =~= before + decimal(a) + e);
    assert(y =~= before + decimal(b) + e);
    if decimal(a) == decimal(b) {
        crate::text::law_decimal_injective(a, b);
    }
    if x == y {
        crate::text::law_part_is_bound(before, decimal(a), decimal(b), e);
    }
}

/// Two epochs of a group never share a sender's session.
pub proof fn law_sender_sessions_of_two_epochs_differ(
    group_id: Seq<char>,
    sender_id: Seq<char>,
    a: nat,
    b: nat,
)
    requires
        a != b,
    ensures
        sender_session(group_id, sender_id, a) != sender_session(group_id, sender_id, b),
{
    let before = "group:"@ + group_id + ":sender:"@ + sender_id + ":epoch:"@;
    let e = Seq::<char>::empty();
    assert(sender_session(group_id, sender_id, a) =~= before + decimal(a) + e);
    assert(sender_session(group_id, sender_id, b) =~= before + decimal(b) + e);
    if decimal(a) == decimal(b) {
        crate::text::law_decimal_injective(a, b);
    }
    if sender_session(group_id, sender_id, a) == sender_session(group_id, sender_id, b) {
        crate::text::law_part_is_bound(before, decimal(a), decimal(b), e);
    }
}

/// The data that a group message's encryption is bound to, as text.
pub open spec fn group_associated_text(
    group_id: Seq<char>,
    sender_id: Seq<char>,
    epoch: nat,
) -> Seq<char> {
    "ramflux.group.sender_key.v1|"@ + group_id + "|"@ + sender_id + "|"@ + decimal(epoch)
}

/// The data that a group message's encryption is bound to.
pub fn group_associated_data(group_id: &str, sender_id: &str, epoch: u64) -> (r: Vec<u8>)
    ensures
        r@ == vstd::utf8::encode_utf8(group_associated_text(group_id@, sender_id@, epoch as nat)),
{
    let number = decimal_u64(epoch);
    let text = "ramflux.group.sender_key.v1|".to_owned().concat(group_id).concat("|").concat(
        sender_id,
    ).concat("|").concat(number.as_str());
    text.as_str().as_bytes_vec()
}

/// Whether a payload, by what it reads as, is a message under a sender's key.
pub open spec fn is_sender_key_message(parsed: Option<SdkGroupEncryptedEnvelope>) -> bool {
    parsed matches Some(envelope) && envelope.schema@ == "ramflux.sdk.group_sender_key.message.v1"@
}

/// Whether a payload, by what it reads as, is a message under a sender's key.
pub fn group_entry_is_sender_key_message(parsed: &Option<SdkGroupEncryptedEnvelope>) -> (r: bool)
    ensures
        r == is_sender_key_message(*parsed),
{
    match parsed {
        Some(envelope) => str_eq(
            envelope.schema.as_str(),
            "ramflux.sdk.group_sender_key.message.v1",
        ),
        None => false,
    }
}

/// Whether an error says that a sender's key is missing.
pub fn is_missing_group_sender_key_error(error: &SdkError) -> (r: bool)
    ensures
        r == occurs_in(error.text(), "missing group sender key"@),
{
    let message = error.message();
    contains(message.as_str(), "missing group sender key")
}

} // verus!

//! Handing the history of a device to another device of the same identity, and taking it in.
use crate::client::dm_session::keeps_session;
use crate::client::group::LocalBusGroupMemberRoute;
use crate::client::object::ChunkPlan;
use crate::client::state::RamfluxClient;
use crate::dm::SdkDmAttachmentRef;
use crate::error::{is_local_bus, local_bus, SdkError};
use crate::gateway::engine::GatewayDirectMessage;
use crate::gateway::helpers::{is_device_signed, sdk_device_signed_fields};
use crate::gateway::protocol::{saturated_sum, saturating_sum};
use crate::group::{is_name_listed, lists, GroupState, SdkGroupSenderKeyDistribution};
use crate::manifest::{device_at, find_device, CheckedDevice};
use crate::name_list::{has_name, in_name_order, insert_name};
use crate::object::{EncryptedObject, SdkObjectKeySlot};
use crate::own_device_sync::{
    allowed_by_floor, floors_of, group_floors, message_allowed_by_group_floor,
    own_device_sync_slot_conversation_id, sync_slot, BundledMessage, SdkOwnDeviceDmSessionSnapshot,
    SdkOwnDeviceGroupMemberSnapshot, SdkOwnDeviceGroupSnapshot, SdkOwnDeviceHistoryBundle,
    SdkOwnDeviceSyncEnvelope, SdkOwnDeviceSyncImportResponse,
};
use crate::records::{DirectMessageRecord, EventWrite};
use crate::text::{decimal_i64, decimal_int, str_eq};
use vstd::prelude::*;

verus! {

// ---- handing a history over ----

/// Checks that the source and the target of a history are devices of one identity.
pub fn check_same_principal(source_commitment: &str, target_commitment: &str) -> (r: Result<
    (),
    SdkError,
>)
    ensures
        if source_commitment@ == target_commitment@ {
            r is Ok
        } else {
            is_local_bus(r, "own-device sync principal mismatch"@)
        },
{
    if !str_eq(source_commitment, target_commitment) {
        return Err(local_bus("own-device sync principal mismatch"));
    }
    Ok(())
}

/// The name of a history.
pub fn own_sync_snapshot_id(source_device_id: &str, target_device_id: &str, now: i64) -> (r: String)
    ensures
        r@ == "own-sync:"@ + source_device_id@ + ":"@ + target_device_id@ + ":"@ + decimal_int(
            now as int,
        ),
{
    let number = decimal_i64(now);
    "own-sync:".to_owned().concat(source_device_id).concat(":").concat(target_device_id).concat(
        ":",
    ).concat(number.as_str())
}

/// The name of the object that holds a history.
pub fn own_sync_object_id(snapshot_id: &str) -> (r: String)
    ensures
        r@ == "own-device-sync:"@ + snapshot_id@,
{
    "own-device-sync:".to_owned().concat(snapshot_id)
}

/// The message that carries the key of a history, with its body yet to be encrypted.
pub fn own_sync_slot_message(
    snapshot_id: &str,
    object_id: &str,
    source_principal_id: &str,
    source_device_id: &str,
    target_device_id: &str,
    target_delivery_id: String,
    now: i64,
) -> (r: GatewayDirectMessage)
    ensures
        r.conversation_id@ == sync_slot(snapshot_id@, object_id@, target_device_id@),
        r.message_id@ == "own-device.sync.slot:"@ + snapshot_id@,
        r.envelope_id@ == "own-device.sync.slot:"@ + snapshot_id@,
        r.source_principal_id@ == source_principal_id@,
        r.sender_id@ == source_device_id@,
        r.recipient_device_id is Some,
        r.recipient_device_id->0@ == target_device_id@,
        r.target_delivery_id == target_delivery_id,
        r.encrypted_body@.len() == 0,
        r.created_at == now,
        r.ttl == 3600,
{
    let name = "own-device.sync.slot:".to_owned().concat(snapshot_id);
    GatewayDirectMessage {
        conversation_id: own_device_sync_slot_conversation_id(
            snapshot_id,
            object_id,
            target_device_id,
        ),
        message_id: name.clone(),
        envelope_id: name,
        source_principal_id: source_principal_id.to_owned(),
        sender_id: source_device_id.to_owned(),
        recipient_device_id: Some(target_device_id.to_owned()),
        target_delivery_id,
        encrypted_body: Vec::new(),
        created_at: now,
        ttl: 3600,
    }
}

/// Whether `e` announces a history, unsigned. It holds for an hour.
pub open spec fn is_announcement(
    e: SdkOwnDeviceSyncEnvelope,
    principal_commitment: Seq<char>,
    source_device_id: Seq<char>,
    target_device_id: Seq<char>,
    snapshot_id: Seq<char>,
    nonce: String,
    history_ref: SdkDmAttachmentRef,
    now: i64,
) -> bool {
    &&& e.schema@ == "ramflux.sdk.own_device_sync.v1"@
    &&& e.version == 1
    &&& e.principal_commitment@ == principal_commitment
    &&& e.source_device_id@ == source_device_id
    &&& e.target_device_id@ == target_device_id
    &&& e.snapshot_id@ == snapshot_id
    &&& e.snapshot_kind@ == "history_bundle"@
    &&& e.created_at == now
    &&& e.expires_at == saturated_sum(now as int, 3600)
    &&& e.nonce == nonce
    &&& e.history_ref == history_ref
    &&& is_device_signed(e.signed, source_device_id, ""@)
}

/// The announcement of a history, yet to be signed. It holds for an hour.
pub fn own_device_sync_envelope_to_sign(
    principal_commitment: &str,
    source_device_id: &str,
    target_device_id: &str,
    snapshot_id: &str,
    nonce: String,
    history_ref: SdkDmAttachmentRef,
    now: i64,
) -> (r: SdkOwnDeviceSyncEnvelope)
    ensures
        is_announcement(
            r,
            principal_commitment@,
            source_device_id@,
            target_device_id@,
            snapshot_id@,
            nonce,
            history_ref,
            now,
        ),
{
    SdkOwnDeviceSyncEnvelope {
        schema: "ramflux.sdk.own_device_sync.v1".to_owned(),
        version: 1,
        principal_commitment: principal_commitment.to_owned(),
        source_device_id: source_device_id.to_owned(),
        target_device_id: target_device_id.to_owned(),
        snapshot_id: snapshot_id.to_owned(),
        snapshot_kind: "history_bundle".to_owned(),
        created_at: now,
        expires_at: saturating_sum(now, 3600),
        nonce,
        history_ref,
        signed: sdk_device_signed_fields(source_device_id, ""),
    }
}

/// The messages of a history that may be handed over, in their order.
pub open spec fn kept_messages(
    messages: Seq<BundledMessage>,
    floors: Seq<(String, u64)>,
) -> Seq<BundledMessage> {
    messages.filter(|m: BundledMessage| allowed_by_floor(m.group_epoch, floors))
}

/// The history of a device: its groups, and those of its messages that this identity may read.
pub fn own_device_history_bundle(
    principal_commitment: &str,
    source_device_id: &str,
    target_device_id: &str,
    snapshot_id: &str,
    messages: Vec<BundledMessage>,
    groups: Vec<SdkOwnDeviceGroupSnapshot>,
) -> (r: SdkOwnDeviceHistoryBundle)
    ensures
        r.schema@ == "ramflux.sdk.own_device_history_bundle.v1"@,
        r.version == 1,
        r.principal_commitment@ == principal_commitment@,
        r.source_device_id@ == source_device_id@,
        r.target_device_id@ == target_device_id@,
        r.snapshot_id@ == snapshot_id@,
        r.messages@ == kept_messages(messages@, floors_of(groups@)),
        r.dm_sessions@.len() == 0,
        r.groups == groups,
        r.sender_key_distributions_base64@.len() == 0,
{
    let floors = group_floors(&groups);
    let ghost keep = |m: BundledMessage| allowed_by_floor(m.group_epoch, floors@);
    let ghost all = messages@;
    let ghost mut n: int = 0;
    let mut rest = messages;
    let mut kept: Vec<BundledMessage> = Vec::new();
    assert(all.take(0).filter(keep) =~= Seq::empty()) by {
        reveal(Seq::filter);
    }
    while rest.len() > 0
        invariant
            keep == (|m: BundledMessage| allowed_by_floor(m.group_epoch, floors@)),
            0 <= n <= all.len(),
            rest@ == all.skip(n),
            kept@ == all.take(n).filter(keep),
        decreases rest.len(),
    {
        let message = rest.remove(0);
        assert(message == all[n]);
        assert(all.take(n + 1).drop_last() =~= all.take(n));
        assert(all.take(n + 1).filter(keep) == if keep(all[n]) {
            all.take(n).filter(keep).push(all[n])
        } else {
            all.take(n).filter(keep)
        }) by {
            reveal(Seq::filter);
        }
        if message_allowed_by_group_floor(&message, &floors) {
            kept.push(message);
        }
        proof {
            n = n + 1;
        }
        assert(rest@ =~= all.skip(n));
    }
    assert(all.take(n) =~= all);
    SdkOwnDeviceHistoryBundle {
        schema: "ramflux.sdk.own_device_history_bundle.v1".to_owned(),
        version: 1,
        principal_commitment: principal_commitment.to_owned(),
        source_device_id: source_device_id.to_owned(),
        target_device_id: target_device_id.to_owned(),
        snapshot_id: snapshot_id.to_owned(),
        messages: kept,
        dm_sessions: Vec::new(),
        groups,
        sender_key_distributions_base64: Vec::new(),
    }
}

/// Nothing that this identity may not read is handed over.
pub proof fn law_history_keeps_to_the_floors(
    messages: Seq<BundledMessage>,
    floors: Seq<(String, u64)>,
    i: int,
)
    requires
        0 <= i < kept_messages(messages, floors).len(),
    ensures
        allowed_by_floor(kept_messages(messages, floors)[i].group_epoch, floors),
        messages.contains(kept_messages(messages, floors)[i]),
    decreases messages.len(),
{
    reveal(Seq::filter);
    let kept = kept_messages(messages, floors);
    if messages.len() > 0 {
        let before = kept_messages(messages.drop_last(), floors);
        if i < before.len() {
            law_history_keeps_to_the_floors(messages.drop_last(), floors, i);
            assert(kept[i] == before[i]);
            let j = messages.drop_last().index_of(before[i]);
            assert(messages[j] == kept[i]);
        } else {
            assert(messages[messages.len() - 1] == kept[i]);
        }
    }
}

/// The conversations of some messages: each once, and in the order of their names.
pub fn conversations_of(messages: &Vec<BundledMessage>) -> (r: Vec<String>)
    ensures
        in_name_order(r@),
        forall|c: Seq<char>| #[trigger]
            has_name(r@, c) <==> exists|i: int|
                0 <= i < messages@.len() && (#[trigger] messages@[i]).record.conversation_id@ == c,
{
    let mut names: Vec<String> = Vec::new();
    let mut i: usize = 0;
    while i < messages.len()
        invariant
            i <= messages.len(),
            in_name_order(names@),
            forall|c: Seq<char>| #[trigger]
                has_name(names@, c) <==> exists|j: int|
                    0 <= j < i && (#[trigger] messages@[j]).record.conversation_id@ == c,
        decreases messages.len() - i,
    {
        let ghost before = names@;
        insert_name(&mut names, messages[i].record.conversation_id.as_str());
        assert forall|c: Seq<char>| #[trigger]
            has_name(names@, c) <==> exists|j: int|
                0 <= j < i + 1 && (#[trigger] messages@[j]).record.conversation_id@ == c by {
            if messages@[i as int].record.conversation_id@ == c {
                assert(has_name(names@, c));
            }
            if has_name(names@, c) && !has_name(before, c) {
                assert(messages@[i as int].record.conversation_id@ == c);
            }
        }
        i = i + 1;
    }
    names
}

/// A session as it was found, or was not, for one direction of a conversation.
#[derive(Clone, Debug, PartialEq, Eq)]
pub struct FoundSession {
    pub conversation_id: String,
    pub direction: String,
    pub snapshot: Option<Vec<u8>>,
}

/// The sessions that were found, in their order.
pub open spec fn sessions_found(found: Seq<FoundSession>) -> Seq<SdkOwnDeviceDmSessionSnapshot>
    decreases found.len(),
{
    if found.len() == 0 {
        Seq::empty()
    } else {
        let rest = sessions_found(found.drop_last());
        match found.last().snapshot {
            Some(snapshot) => rest.push(
                SdkOwnDeviceDmSessionSnapshot {
                    conversation_id: found.last().conversation_id,
                    direction: found.last().direction,
                    snapshot,
                },
            ),
            None => rest,
        }
    }
}

/// The sessions that were found, in their order.
pub fn own_device_dm_session_snapshots(found: Vec<FoundSession>) -> (r: Vec<
    SdkOwnDeviceDmSessionSnapshot,
>)
    ensures
        r@ == sessions_found(found@),
{
    let ghost all = found@;
    let ghost mut n: int = 0;
    let mut rest = found;
    let mut sessions: Vec<SdkOwnDeviceDmSessionSnapshot> = Vec::new();
    while rest.len() > 0
        invariant
            0 <= n <= all.len(),
            rest@ == all.skip(n),
            sessions@ == sessions_found(all.take(n)),
        decreases rest.len(),
    {
        let session = rest.remove(0);
        assert(session == all[n]);
        assert(all.take(n + 1).drop_last() =~= all.take(n));
        match session.snapshot {
            Some(snapshot) => {
                sessions.push(
                    SdkOwnDeviceDmSessionSnapshot {
                        conversation_id: session.conversation_id,
                        direction: session.direction,
                        snapshot,
                    },
                );
            },
            None => {},
        }
        proof {
            n = n + 1;
        }
        assert(rest@ =~= all.skip(n));
    }
    assert(all.take(n) =~= all);
    sessions
}

/// A group with what the account database knows of when its members joined: of the device itself,
/// and of each member in the order of the members.
#[derive(Clone, Debug, PartialEq, Eq)]
pub struct GroupReading {
    pub group: GroupState,
    pub local_joined_epoch: Option<u64>,
    pub member_joined_epochs: Vec<Option<u64>>,
    pub routes: Vec<LocalBusGroupMemberRoute>,
}

/// Whether `s` lists the first `n` members of a group that have a role and a known epoch, in their
/// order.
pub open spec fn lists_members(
    s: Seq<SdkOwnDeviceGroupMemberSnapshot>,
    group: GroupState,
    joined: Seq<Option<u64>>,
    n: nat,
) -> bool
    decreases n,
{
    if n == 0 {
        s.len() == 0
    } else {
        let member = group.members@[n - 1];
        match (group.role_of(member@), joined[n - 1]) {
            (Some(role), Some(epoch)) => {
                &&& s.len() > 0
                &&& s.last().member_id@ == member@
                &&& s.last().role@ == role
                &&& s.last().joined_epoch == epoch
                &&& lists_members(s.drop_last(), group, joined, (n - 1) as nat)
            },
            _ => lists_members(s, group, joined, (n - 1) as nat),
        }
    }
}

/// Whether a group is handed over: the device has a role in it, and the epoch is known in which it
/// joined.
pub open spec fn is_handed_over(reading: GroupReading, source_device_id: Seq<char>) -> bool {
    reading.group.role_of(source_device_id) is Some && reading.local_joined_epoch is Some
}

/// Whether a reading holds an epoch, or that it is unknown, for each member.
pub open spec fn reading_is_whole(reading: GroupReading) -> bool {
    reading.group.well_formed() && reading.member_joined_epochs@.len()
        == reading.group.members@.len()
}

/// Whether `s` is a group as it is handed over.
pub open spec fn is_group_snapshot(
    s: SdkOwnDeviceGroupSnapshot,
    reading: GroupReading,
    source_device_id: Seq<char>,
) -> bool {
    &&& s.group_id == reading.group.group_id
    &&& s.group_epoch == reading.group.group_epoch
    &&& s.max_members == reading.group.max_members
    &&& s.new_member_history == reading.group.new_member_history
    &&& Some(s.local_role@) == reading.group.role_of(source_device_id)
    &&& Some(s.local_joined_epoch) == reading.local_joined_epoch
    &&& lists_members(
        s.members@,
        reading.group,
        reading.member_joined_epochs@,
        reading.group.members@.len(),
    )
    &&& s.routes == reading.routes
}

/// A group as it is handed over, if it is.
pub fn own_device_group_snapshot(reading: GroupReading, source_device_id: &str) -> (r: Option<
    SdkOwnDeviceGroupSnapshot,
>)
    requires
        reading_is_whole(reading),
    ensures
        if is_handed_over(reading, source_device_id@) {
            r matches Some(s) && is_group_snapshot(s, reading, source_device_id@)
        } else {
            r is None
        },
{
    let role = match reading.group.role(source_device_id) {
        Some(role) => role,
        None => {
            return None;
        },
    };
    let joined_epoch = match reading.local_joined_epoch {
        Some(joined_epoch) => joined_epoch,
        None => {
            return None;
        },
    };
    let mut members: Vec<SdkOwnDeviceGroupMemberSnapshot> = Vec::new();
    let mut i: usize = 0;
    while i < reading.group.members.len()
        invariant
            i <= reading.group.members.len(),
            reading.group.well_formed(),
            reading.member_joined_epochs@.len() == reading.group.members@.len(),
            lists_members(
                members@,
                reading.group,
                reading.member_joined_epochs@,
                i as nat,
            ),
        decreases reading.group.members.len() - i,
    {
        let ghost before = members@;
        let member_id = reading.group.members[i].as_str();
        match (reading.group.role(member_id), reading.member_joined_epochs[i]) {
            (Some(role), Some(epoch)) => {
                members.push(
                    SdkOwnDeviceGroupMemberSnapshot {
                        member_id: member_id.to_owned(),
                        role,
                        joined_epoch: epoch,
                    },
                );
                assert(members@.drop_last() =~= before);
            },
            _ => {},
        }
        i = i + 1;
    }
    Some(
        SdkOwnDeviceGroupSnapshot {
            group_id: reading.group.group_id,
            group_epoch: reading.group.group_epoch,
            max_members: reading.group.max_members,
            new_member_history: reading.group.new_member_history,
            local_role: role,
            local_joined_epoch: joined_epoch,
            members,
            routes: reading.routes,
        },
    )
}

/// Whether `s` lists those of the first `n` groups that are handed over, in their order.
pub open spec fn lists_groups(
    s: Seq<SdkOwnDeviceGroupSnapshot>,
    readings: Seq<GroupReading>,
    source_device_id: Seq<char>,
    n: nat,
) -> bool
    decreases n,
{
    if n == 0 {
        s.len() == 0
    } else if is_handed_over(readings[n - 1], source_device_id) {
        &&& s.len() > 0
        &&& is_group_snapshot(s.last(), readings[n - 1], source_device_id)
        &&& lists_groups(s.drop_last(), readings, source_device_id, (n - 1) as nat)
    } else {
        lists_groups(s, readings, source_device_id, (n - 1) as nat)
    }
}

/// The groups of a device as they are handed over.
pub fn own_device_group_snapshots(readings: Vec<GroupReading>, source_device_id: &str) -> (r: Vec<
    SdkOwnDeviceGroupSnapshot,
>)
    requires
        forall|i: int| 0 <= i < readings@.len() ==> reading_is_whole(#[trigger] readings@[i]),
    ensures
        lists_groups(r@, readings@, source_device_id@, readings@.len()),
{
    let ghost all = readings@;
    let ghost mut n: nat = 0;
    let mut rest = readings;
    let mut groups: Vec<SdkOwnDeviceGroupSnapshot> = Vec::new();
    while rest.len() > 0
        invariant
            n <= all.len(),
            rest@ == all.skip(n as int),
            forall|i: int| 0 <= i < all.len() ==> reading_is_whole(#[trigger] all[i]),
            lists_groups(groups@, all, source_device_id@, n),
        decreases rest.len(),
    {
        let ghost before = groups@;
        let reading = rest.remove(0);
        assert(reading == all[n as int]);
        match own_device_group_snapshot(reading, source_device_id) {
            Some(group) => {
                groups.push(group);
                assert(groups@.drop_last() =~= before);
            },
            None => {},
        }
        proof {
            n = n + 1;
        }
        assert(rest@ =~= all.skip(n as int));
    }
    groups
}

/// The key of another member, and the key that its device signs with, if it is known.
#[derive(Clone, Debug, PartialEq, Eq)]
pub struct MemberSenderKey {
    pub seed: [u8; 32],
    pub signing_public_key: Option<String>,
}

/// Whether `d` hands on the key of a member.
pub open spec fn hands_on(
    d: SdkGroupSenderKeyDistribution,
    group_id: Seq<char>,
    member_id: Seq<char>,
    epoch: u64,
    key: MemberSenderKey,
) -> bool {
    &&& d.schema@ == "ramflux.sdk.group_sender_key.distribution.v1"@
    &&& d.version == 1
    &&& d.group_id@ == group_id
    &&& d.sender_id@ == member_id
    &&& d.group_key_epoch == epoch
    &&& d.sender_key_seed == key.seed
    &&& d.sender_device_signing_public_key == key.signing_public_key
}

/// Whether `s` hands on the keys of the first `n` members whose key is there, without that of the
/// device itself, in their order.
pub open spec fn hands_on_members(
    s: Seq<SdkGroupSenderKeyDistribution>,
    group_id: Seq<char>,
    epoch: u64,
    members: Seq<String>,
    keys: Seq<Option<MemberSenderKey>>,
    source: Seq<char>,
    n: nat,
) -> bool
    decreases n,
{
    if n == 0 {
        s.len() == 0
    } else {
        let before = (n - 1) as nat;
        match keys[n - 1] {
            Some(key) if members[n - 1]@ != source => {
                &&& s.len() > 0
                &&& hands_on(s.last(), group_id, members[n - 1]@, epoch, key)
                &&& hands_on_members(
                    s.drop_last(),
                    group_id,
                    epoch,
                    members,
                    keys,
                    source,
                    before,
                )
            },
            _ => hands_on_members(s, group_id, epoch, members, keys, source, before),
        }
    }
}

/// The keys of the other members of a group, as they are handed over: those that are there.
pub fn member_sender_key_distributions(
    group: &SdkOwnDeviceGroupSnapshot,
    members: &Vec<String>,
    keys: Vec<Option<MemberSenderKey>>,
    source_device_id: &str,
) -> (r: Vec<SdkGroupSenderKeyDistribution>)
    requires
        keys@.len() == members@.len(),
    ensures
        hands_on_members(
            r@,
            group.group_id@,
            group.group_epoch,
            members@,
            keys@,
            source_device_id@,
            members@.len(),
        ),
{
    let ghost all = keys@;
    let mut rest = keys;
    let mut distributions: Vec<SdkGroupSenderKeyDistribution> = Vec::new();
    let mut i: usize = 0;
    while i < members.len()
        invariant
            i <= members.len(),
            all.len() == members@.len(),
            rest@ == all.skip(i as int),
            hands_on_members(
                distributions@,
                group.group_id@,
                group.group_epoch,
                members@,
                all,
                source_device_id@,
                i as nat,
            ),
        decreases members.len() - i,
    {
        let ghost before = distributions@;
        let found = rest.remove(0);
        assert(found == all[i as int]);
        assert(rest@ =~= all.skip(i + 1));
        if !str_eq(members[i].as_str(), source_device_id) {
            match found {
                Some(key) => {
                    distributions.push(
                        SdkGroupSenderKeyDistribution {
                            schema: "ramflux.sdk.group_sender_key.distribution.v1".to_owned(),
                            version: 1,
                            group_id: group.group_id.clone(),
                            sender_id: members[i].clone(),
                            group_key_epoch: group.group_epoch,
                            sender_key_seed: key.seed,
                            sender_device_signing_public_key: key.signing_public_key,
                        },
                    );
                    assert(distributions@.drop_last() =~= before);
                },
                None => {},
            }
        }
        i = i + 1;
    }
    distributions
}

/// The keys of a group, as far as they are there: this device's own, or why it is not, and those of
/// the members, in the order of the members.
#[derive(Debug, PartialEq, Eq)]
pub struct GroupKeysReading {
    pub members: Vec<String>,
    pub own: Result<SdkGroupSenderKeyDistribution, SdkError>,
    pub keys: Vec<Option<MemberSenderKey>>,
}

/// Whether a device is a member of a group whose keys were read, but has no key to hand over.
pub open spec fn own_key_fails(reading: GroupKeysReading, source_device_id: Seq<char>) -> bool {
    lists(reading.members@, source_device_id) && reading.own is Err
}

/// Whether `s` hands on the keys of a group: the device's own, if it is a member, and then those of
/// the others.
pub open spec fn hands_on_group(
    s: Seq<SdkGroupSenderKeyDistribution>,
    group: SdkOwnDeviceGroupSnapshot,
    reading: GroupKeysReading,
    source_device_id: Seq<char>,
) -> bool {
    let own: int = if lists(reading.members@, source_device_id) {
        1
    } else {
        0
    };
    &&& s.len() >= own
    &&& own == 1 ==> reading.own == Ok::<SdkGroupSenderKeyDistribution, SdkError>(s[0])
    &&& hands_on_members(
        s.skip(own),
        group.group_id@,
        group.group_epoch,
        reading.members@,
        reading.keys@,
        source_device_id,
        reading.members@.len(),
    )
}

/// Whether `s` hands on the keys of the first `n` groups, one group after the other.
pub open spec fn hands_on_groups(
    s: Seq<SdkGroupSenderKeyDistribution>,
    groups: Seq<SdkOwnDeviceGroupSnapshot>,
    readings: Seq<GroupKeysReading>,
    source_device_id: Seq<char>,
    n: nat,
) -> bool
    decreases n,
{
    if n == 0 {
        s.len() == 0
    } else {
        exists|k: int|
            0 <= k <= s.len() && hands_on_groups(
                #[trigger] s.take(k),
                groups,
                readings,
                source_device_id,
                (n - 1) as nat,
            ) && hands_on_group(s.skip(k), groups[n - 1], readings[n - 1], source_device_id)
    }
}

proof fn lemma_one_more_group(
    s: Seq<SdkGroupSenderKeyDistribution>,
    k: int,
    groups: Seq<SdkOwnDeviceGroupSnapshot>,
    readings: Seq<GroupKeysReading>,
    source_device_id: Seq<char>,
    n: nat,
)
    requires
        n > 0,
        0 <= k <= s.len(),
        hands_on_groups(s.take(k), groups, readings, source_device_id, (n - 1) as nat),
        hands_on_group(s.skip(k), groups[n - 1], readings[n - 1], source_device_id),
    ensures
        hands_on_groups(s, groups, readings, source_device_id, n),
{
}

/// The keys of the groups that are handed over. A device that is a member of a group has to have a
/// key of its own there; the first that is missing is reported.
pub fn own_device_sender_key_distributions(
    groups: &Vec<SdkOwnDeviceGroupSnapshot>,
    readings: Vec<GroupKeysReading>,
    source_device_id: &str,
) -> (r: Result<Vec<SdkGroupSenderKeyDistribution>, SdkError>)
    requires
        readings@.len() == groups@.len(),
        forall|i: int|
            0 <= i < readings@.len() ==> (#[trigger] readings@[i]).keys@.len()
                == readings@[i].members@.len(),
    ensures
        match r {
            Ok(distributions) => {
                &&& forall|i: int|
                    0 <= i < readings@.len() ==> !own_key_fails(
                        #[trigger] readings@[i],
                        source_device_id@,
                    )
                &&& hands_on_groups(
                    distributions@,
                    groups@,
                    readings@,
                    source_device_id@,
                    groups@.len(),
                )
            },
            Err(error) => exists|i: int|
                0 <= i < readings@.len() && own_key_fails(
                    #[trigger] readings@[i],
                    source_device_id@,
                ) && readings@[i].own == Err::<SdkGroupSenderKeyDistribution, SdkError>(error)
                    && forall|j: int|
                    0 <= j < i ==> !own_key_fails(#[trigger] readings@[j], source_device_id@),
        },
{
    let ghost all = readings@;
    let mut rest = readings;
    let mut distributions: Vec<SdkGroupSenderKeyDistribution> = Vec::new();
    let mut i: usize = 0;
    while i < groups.len()
        invariant
            i <= groups.len(),
            all == readings@,
            all.len() == groups@.len(),
            rest@ == all.skip(i as int),
            forall|j: int|
                0 <= j < all.len() ==> (#[trigger] all[j]).keys@.len() == all[j].members@.len(),
            forall|j: int| 0 <= j < i ==> !own_key_fails(#[trigger] all[j], source_device_id@),
            hands_on_groups(distributions@, groups@, all, source_device_id@, i as nat),
        decreases groups.len() - i,
    {
        let ghost before = distributions@;
        let reading = rest.remove(0);
        let ghost given = all[i as int];
        assert(reading == given);
        assert(rest@ =~= all.skip(i + 1));
        let ghost mut own: int = 0;
        if is_name_listed(&reading.members, source_device_id) {
            match reading.own {
                Ok(distribution) => {
                    distributions.push(distribution);
                    proof {
                        own = 1;
                    }
                },
                Err(error) => {
                    assert(own_key_fails(all[i as int], source_device_id@));
                    return Err(error);
                },
            }
        }
        let ghost behind = distributions@;
        let mut others = member_sender_key_distributions(
            &groups[i],
            &reading.members,
            reading.keys,
            source_device_id,
        );
        let ghost handed = others@;
        distributions.append(&mut others);
        assert(distributions@ == behind + handed);
        assert(distributions@.take(before.len() as int) =~= before);
        assert(distributions@.skip(before.len() as int).skip(own) =~= handed);
        assert(hands_on_group(
            distributions@.skip(before.len() as int),
            groups@[i as int],
            given,
            source_device_id@,
        ));
        proof {
            lemma_one_more_group(
                distributions@,
                before.len() as int,
                groups@,
                all,
                source_device_id@,
                (i + 1) as nat,
            );
        }
        i = i + 1;
    }
    Ok(distributions)
}

impl SdkOwnDeviceHistoryBundle {
    /// The history with the sessions and the keys that were found for it. The keys come as base64url
    /// text.
    pub fn with_sessions_and_keys(
        self,
        dm_sessions: Vec<SdkOwnDeviceDmSessionSnapshot>,
        sender_key_distributions_base64: Vec<String>,
    ) -> (r: SdkOwnDeviceHistoryBundle)
        ensures
            r == (SdkOwnDeviceHistoryBundle {
                dm_sessions,
                sender_key_distributions_base64,
                ..self
            }),
    {
        let mut bundle = self;
        bundle.dm_sessions = dm_sessions;
        bundle.sender_key_distributions_base64 = sender_key_distributions_base64;
        bundle
    }
}

/// Whether `a` refers to the object that holds a history. It carries neither a grant nor a lineage.
pub open spec fn is_history_ref(
    a: SdkDmAttachmentRef,
    object: EncryptedObject,
    plan: ChunkPlan,
    relay_endpoint: Seq<char>,
    key_slot: SdkObjectKeySlot,
) -> bool {
    &&& a.schema@ == "ramflux.sdk.dm_attachment_ref.v1"@
    &&& a.version == 1
    &&& a.object_id == object.object_id
    &&& a.manifest_hash == object.manifest_hash
    &&& a.plaintext_hash == object.plaintext_hash
    &&& a.cipher_size == object.ciphertext@.len()
    &&& a.chunk_size == plan.chunk_size
    &&& a.total_chunks == plan.total_chunks
    &&& a.relay_endpoint@ == relay_endpoint
    &&& a.owner_home_node_id is None
    &&& a.relay_audience_node_id is None
    &&& a.owner_principal_id@.len() == 0
    &&& a.owner_device_epoch == 0
    &&& a.access_grant is None
    &&& a.key_slot == key_slot
}

/// What an announcement says of the object that holds a history.
pub fn own_sync_history_ref(
    object: &EncryptedObject,
    plan: ChunkPlan,
    relay_endpoint: &str,
    key_slot: SdkObjectKeySlot,
) -> (r: SdkDmAttachmentRef)
    ensures
        is_history_ref(r, *object, plan, relay_endpoint@, key_slot),
{
    SdkDmAttachmentRef {
        schema: "ramflux.sdk.dm_attachment_ref.v1".to_owned(),
        version: 1,
        object_id: object.object_id.clone(),
        manifest_hash: object.manifest_hash.clone(),
        plaintext_hash: object.plaintext_hash.clone(),
        cipher_size: object.ciphertext.len() as u64,
        chunk_size: plan.chunk_size,
        total_chunks: plan.total_chunks,
        relay_endpoint: relay_endpoint.to_owned(),
        owner_home_node_id: None,
        relay_audience_node_id: None,
        owner_principal_id: String::new(),
        owner_device_epoch: 0,
        access_grant: None,
        key_slot,
    }
}

// ---- believing an announcement ----

/// What is wrong with an announcement on its face, if anything is.
pub open spec fn announcement_fault(
    envelope: SdkOwnDeviceSyncEnvelope,
    expected: Seq<char>,
    local_device_id: Seq<char>,
    now: i64,
) -> Option<Seq<char>> {
    let slot = envelope.history_ref.key_slot;
    if envelope.schema@ != "ramflux.sdk.own_device_sync.v1"@ {
        Some("unsupported own-device sync schema: "@ + envelope.schema@)
    } else if envelope.principal_commitment@ != expected {
        Some("own-device sync local principal mismatch"@)
    } else if envelope.expires_at < now {
        Some("own-device sync envelope expired"@)
    } else if envelope.target_device_id@ != local_device_id {
        Some("own-device sync target device mismatch"@)
    } else if slot.recipient_device_id@ != envelope.target_device_id@ {
        Some("own-device sync key slot target mismatch"@)
    } else if slot.object_id@ != envelope.history_ref.object_id@ {
        Some("own-device sync key slot object mismatch"@)
    } else if slot.conversation_id@ != sync_slot(
        envelope.snapshot_id@,
        envelope.history_ref.object_id@,
        envelope.target_device_id@,
    ) {
        Some("own-device sync key slot conversation mismatch"@)
    } else {
        None
    }
}

/// Whether an announcement fails before it matters which device acts.
pub open spec fn fails_for_every_device(
    envelope: SdkOwnDeviceSyncEnvelope,
    expected: Seq<char>,
    now: i64,
) -> bool {
    envelope.schema@ != "ramflux.sdk.own_device_sync.v1"@ || envelope.principal_commitment@
        != expected || envelope.expires_at < now
}

/// What is wrong with an announcement by the manifest of its identity, if anything is.
pub open spec fn manifest_announcement_fault(
    envelope: SdkOwnDeviceSyncEnvelope,
    devices: Seq<CheckedDevice>,
) -> Option<Seq<char>> {
    match (
        device_at(devices, envelope.source_device_id@),
        device_at(devices, envelope.target_device_id@),
    ) {
        (None, _) => Some(
            "own-device sync source "@ + envelope.source_device_id@
                + " is not in verified manifest"@,
        ),
        (Some(_), None) => Some(
            "own-device sync target "@ + envelope.target_device_id@
                + " is not in verified manifest"@,
        ),
        (Some(source), Some(target)) => if devices[source].device.principal_commitment@
            != envelope.principal_commitment@ || devices[target].device.principal_commitment@
            != envelope.principal_commitment@ {
            Some("own-device sync manifest principal mismatch"@)
        } else if envelope.signed.signing_key_id@ != "device:"@ + envelope.source_device_id@ {
            Some("own-device sync signing key id mismatch"@)
        } else {
            None
        },
    }
}

/// Finds the key that an announcement has to be signed with, in the manifest of its identity.
pub fn own_device_sync_signer(
    envelope: &SdkOwnDeviceSyncEnvelope,
    devices: &Vec<CheckedDevice>,
) -> (r: Result<String, SdkError>)
    ensures
        match manifest_announcement_fault(*envelope, devices@) {
            Some(words) => is_local_bus(r, words),
            None => r matches Ok(key) && device_at(
                devices@,
                envelope.source_device_id@,
            ) matches Some(source) && key@ == devices@[source].device.branch_public_key@,
        },
{
    let source = match find_device(devices, envelope.source_device_id.as_str()) {
        Some(source) => source,
        None => {
            let text = "own-device sync source ".to_owned().concat(
                envelope.source_device_id.as_str(),
            ).concat(" is not in verified manifest");
            return Err(local_bus(text.as_str()));
        },
    };
    let target = match find_device(devices, envelope.target_device_id.as_str()) {
        Some(target) => target,
        None => {
            let text = "own-device sync target ".to_owned().concat(
                envelope.target_device_id.as_str(),
            ).concat(" is not in verified manifest");
            return Err(local_bus(text.as_str()));
        },
    };
    if devices[source].device.principal_commitment != envelope.principal_commitment
        || devices[target].device.principal_commitment != envelope.principal_commitment {
        return Err(local_bus("own-device sync manifest principal mismatch"));
    }
    let expected = "device:".to_owned().concat(envelope.source_device_id.as_str());
    if !str_eq(envelope.signed.signing_key_id.as_str(), expected.as_str()) {
        return Err(local_bus("own-device sync signing key id mismatch"));
    }
    Ok(devices[source].device.branch_public_key.clone())
}

// ---- taking a history in ----

/// A step of taking a history in.
#[derive(Clone, Debug, PartialEq, Eq)]
pub enum HistoryWrite {
    /// Keep that this device is a member of a group.
    Membership {
        group_id: String,
        group_epoch: u64,
        max_members: u32,
        new_member_history: String,
        member_id: String,
        role: String,
        joined_epoch: u64,
    },
    /// Keep a member of a group.
    Member { group_id: String, member_id: String, role: String, joined_epoch: u64 },
    /// Keep how a member of a group is reached.
    Route { group_id: String, route: LocalBusGroupMemberRoute },
    /// Keep a session, under the name of the history.
    Session { envelope_id: String, session: SdkOwnDeviceDmSessionSnapshot },
    /// List a message as it was.
    Message(DirectMessageRecord),
    /// Keep a member's key, which comes as base64url text.
    SenderKey(String),
}

/// The steps that take a history in, and what it then comes to.
#[derive(Debug, PartialEq, Eq)]
pub struct HistoryImport {
    pub writes: Vec<HistoryWrite>,
    pub outcome: Result<SdkOwnDeviceSyncImportResponse, SdkError>,
}

/// Whether a history is the one that was announced.
pub open spec fn bundle_is_announced(
    bundle: SdkOwnDeviceHistoryBundle,
    envelope: SdkOwnDeviceSyncEnvelope,
) -> bool {
    &&& bundle.schema@ == "ramflux.sdk.own_device_history_bundle.v1"@
    &&& bundle.principal_commitment@ == envelope.principal_commitment@
    &&& bundle.source_device_id@ == envelope.source_device_id@
    &&& bundle.target_device_id@ == envelope.target_device_id@
    &&& bundle.snapshot_id@ == envelope.snapshot_id@
}

/// The steps that keep the members of a group.
pub open spec fn member_writes(
    group_id: String,
    members: Seq<SdkOwnDeviceGroupMemberSnapshot>,
) -> Seq<HistoryWrite> {
    members.map_values(
        |m: SdkOwnDeviceGroupMemberSnapshot|
            HistoryWrite::Member {
                group_id,
                member_id: m.member_id,
                role: m.role,
                joined_epoch: m.joined_epoch,
            },
    )
}

/// The steps that keep the routes of a group.
pub open spec fn route_writes(
    group_id: String,
    routes: Seq<LocalBusGroupMemberRoute>,
) -> Seq<HistoryWrite> {
    routes.map_values(|route: LocalBusGroupMemberRoute| HistoryWrite::Route { group_id, route })
}

/// The steps that keep a group: this device's membership, the members, and the routes.
pub open spec fn group_writes(g: SdkOwnDeviceGroupSnapshot, local_device_id: String) -> Seq<
    HistoryWrite,
> {
    seq![
        HistoryWrite::Membership {
            group_id: g.group_id,
            group_epoch: g.group_epoch,
            max_members: g.max_members,
            new_member_history: g.new_member_history,
            member_id: local_device_id,
            role: g.local_role,
            joined_epoch: g.local_joined_epoch,
        },
    ] + member_writes(g.group_id, g.members@) + route_writes(g.group_id, g.routes@)
}

/// The steps that keep some groups, one after the other.
pub open spec fn all_group_writes(
    groups: Seq<SdkOwnDeviceGroupSnapshot>,
    local_device_id: String,
) -> Seq<HistoryWrite>
    decreases groups.len(),
{
    if groups.len() == 0 {
        Seq::empty()
    } else {
        all_group_writes(groups.drop_last(), local_device_id) + group_writes(
            groups.last(),
            local_device_id,
        )
    }
}

/// Whether `w` keeps a session of a history.
pub open spec fn keeps_history_session(
    w: HistoryWrite,
    session: SdkOwnDeviceDmSessionSnapshot,
    snapshot_id: Seq<char>,
) -> bool {
    w matches HistoryWrite::Session { envelope_id, session: s } && envelope_id@
        == "own-device-sync:"@ + snapshot_id && s == session
}

/// How many messages stand before the first that this identity may not read: all, if there is none.
pub open spec fn readable_messages(messages: Seq<BundledMessage>, floors: Seq<(String, u64)>) -> nat
    decreases messages.len(),
{
    if messages.len() == 0 || !allowed_by_floor(messages[0].group_epoch, floors) {
        0
    } else {
        1 + readable_messages(messages.skip(1), floors)
    }
}

fn push_group(
    writes: &mut Vec<HistoryWrite>,
    g: SdkOwnDeviceGroupSnapshot,
    local_device_id: &String,
)
    ensures
        final(writes)@ == old(writes)@ + group_writes(g, *local_device_id),
{
    let ghost start = writes@;
    writes.push(
        HistoryWrite::Membership {
            group_id: g.group_id.clone(),
            group_epoch: g.group_epoch,
            max_members: g.max_members,
            new_member_history: g.new_member_history,
            member_id: local_device_id.clone(),
            role: g.local_role,
            joined_epoch: g.local_joined_epoch,
        },
    );
    let ghost first = writes@;
    let ghost members = g.members@;
    let ghost mut n: int = 0;
    let group_id = g.group_id;
    let mut rest = g.members;
    while rest.len() > 0
        invariant
            0 <= n <= members.len(),
            rest@ == members.skip(n),
            writes@ == first + member_writes(group_id, members).take(n),
        decreases rest.len(),
    {
        let member = rest.remove(0);
        assert(member == members[n]);
        writes.push(
            HistoryWrite::Member {
                group_id: group_id.clone(),
                member_id: member.member_id,
                role: member.role,
                joined_epoch: member.joined_epoch,
            },
        );
        proof {
            n = n + 1;
        }
        assert(rest@ =~= members.skip(n));
        assert(writes@ =~= first + member_writes(group_id, members).take(n));
    }
    assert(member_writes(group_id, members).take(n) =~= member_writes(group_id, members));
    let ghost second = writes@;
    let ghost routes = g.routes@;
    let ghost mut k: int = 0;
    let mut left = g.routes;
    while left.len() > 0
        invariant
            0 <= k <= routes.len(),
            left@ == routes.skip(k),
            writes@ == second + route_writes(group_id, routes).take(k),
        decreases left.len(),
    {
        let route = left.remove(0);
        assert(route == routes[k]);
        writes.push(HistoryWrite::Route { group_id: group_id.clone(), route });
        proof {
            k = k + 1;
        }
        assert(left@ =~= routes.skip(k));
        assert(writes@ =~= second + route_writes(group_id, routes).take(k));
    }
    assert(route_writes(group_id, routes).take(k) =~= route_writes(group_id, routes));
    assert(writes@ =~= start + group_writes(g, *local_device_id));
}

fn push_groups(
    writes: &mut Vec<HistoryWrite>,
    groups: Vec<SdkOwnDeviceGroupSnapshot>,
    local_device_id: &String,
)
    ensures
        final(writes)@ == old(writes)@ + all_group_writes(groups@, *local_device_id),
{
    let ghost start = writes@;
    let ghost all = groups@;
    let ghost mut n: int = 0;
    let mut rest = groups;
    assert(writes@ =~= start + all_group_writes(all.take(0), *local_device_id));
    while rest.len() > 0
        invariant
            0 <= n <= all.len(),
            rest@ == all.skip(n),
            writes@ == start + all_group_writes(all.take(n), *local_device_id),
        decreases rest.len(),
    {
        let g = rest.remove(0);
        assert(g == all[n]);
        push_group(writes, g, local_device_id);
        assert(all.take(n + 1).drop_last() =~= all.take(n));
        assert(writes@ =~= start + all_group_writes(all.take(n + 1), *local_device_id));
        proof {
            n = n + 1;
        }
        assert(rest@ =~= all.skip(n));
    }
    assert(all.take(n) =~= all);
}

fn push_sessions(
    writes: &mut Vec<HistoryWrite>,
    sessions: Vec<SdkOwnDeviceDmSessionSnapshot>,
    snapshot_id: &str,
)
    ensures
        final(writes)@.len() == old(writes)@.len() + sessions@.len(),
        final(writes)@.take(old(writes)@.len() as int) == old(writes)@,
        forall|i: int|
            0 <= i < sessions@.len() ==> keeps_history_session(
                #[trigger] final(writes)@[old(writes)@.len() + i],
                sessions@[i],
                snapshot_id@,
            ),
{
    let ghost start = writes@;
    let ghost all = sessions@;
    let ghost mut n: int = 0;
    let mut rest = sessions;
    while rest.len() > 0
        invariant
            0 <= n <= all.len(),
            rest@ == all.skip(n),
            writes@.len() == start.len() + n,
            writes@.take(start.len() as int) == start,
            forall|i: int|
                start.len() <= i < start.len() + n ==> keeps_history_session(
                    #[trigger] writes@[i],
                    all[i - start.len()],
                    snapshot_id@,
                ),
        decreases rest.len(),
    {
        let session = rest.remove(0);
        assert(session == all[n]);
        let ghost before = writes@;
        writes.push(
            HistoryWrite::Session {
                envelope_id: "own-device-sync:".to_owned().concat(snapshot_id),
                session,
            },
        );
        assert(writes@.take(start.len() as int) =~= before.take(start.len() as int));
        proof {
            n = n + 1;
        }
        assert(rest@ =~= all.skip(n));
    }
    assert(writes@.take(start.len() as int) =~= start);
}

proof fn lemma_groups_are_written(
    groups: Seq<SdkOwnDeviceGroupSnapshot>,
    local_device_id: String,
)
    ensures
        all_group_writes(groups, local_device_id).len() >= groups.len(),
        groups.len() == 0 ==> all_group_writes(groups, local_device_id).len() == 0,
    decreases groups.len(),
{
    if groups.len() > 0 {
        lemma_groups_are_written(groups.drop_last(), local_device_id);
    }
}

/// The bytes of a key of a history. `decoded` is what its base64url text stands for, or why it stands
/// for nothing.
pub fn history_sender_key(decoded: Result<Vec<u8>, String>) -> (r: Result<Vec<u8>, SdkError>)
    ensures
        match decoded {
            Ok(bytes) => r == Ok::<Vec<u8>, SdkError>(bytes),
            Err(words) => is_local_bus(r, "invalid own-device sender key: "@ + words@),
        },
{
    match decoded {
        Ok(bytes) => Ok(bytes),
        Err(words) => {
            let text = "invalid own-device sender key: ".to_owned().concat(words.as_str());
            Err(local_bus(text.as_str()))
        },
    }
}

/// The steps that list some messages.
pub open spec fn message_writes(messages: Seq<BundledMessage>) -> Seq<HistoryWrite> {
    messages.map_values(|m: BundledMessage| HistoryWrite::Message(m.record))
}

proof fn lemma_readable_bound(messages: Seq<BundledMessage>, floors: Seq<(String, u64)>)
    ensures
        readable_messages(messages, floors) <= messages.len(),
    decreases messages.len(),
{
    if messages.len() > 0 {
        lemma_readable_bound(messages.skip(1), floors);
    }
}

fn push_messages(
    writes: &mut Vec<HistoryWrite>,
    messages: Vec<BundledMessage>,
    floors: &Vec<(String, u64)>,
) -> (r: bool)
    ensures
        r == (readable_messages(messages@, floors@) == messages@.len()),
        final(writes)@ == old(writes)@ + message_writes(
            messages@.take(readable_messages(messages@, floors@) as int),
        ),
{
    let ghost start = writes@;
    let ghost all = messages@;
    let ghost wanted = readable_messages(all, floors@);
    let ghost mut n: int = 0;
    let mut rest = messages;
    assert(all.skip(0) =~= all);
    assert(writes@ =~= start + message_writes(all.take(0)));
    while rest.len() > 0
        invariant
            wanted == readable_messages(all, floors@),
            0 <= n <= all.len(),
            rest@ == all.skip(n),
            wanted == n + readable_messages(all.skip(n), floors@),
            writes@ == start + message_writes(all.take(n)),
            start == old(writes)@,
            all == messages@,
        decreases rest.len(),
    {
        let message = rest.remove(0);
        assert(message == all[n]);
        assert(all.skip(n)[0] == all[n]);
        assert(all.skip(n).skip(1) =~= all.skip(n + 1));
        if !message_allowed_by_group_floor(&message, floors) {
            return false;
        }
        writes.push(HistoryWrite::Message(message.record));
        assert(writes@ =~= start + message_writes(all.take(n + 1)));
        proof {
            n = n + 1;
        }
        assert(rest@ =~= all.skip(n));
    }
    assert(all.take(n) =~= all);
    true
}

fn push_sender_keys(writes: &mut Vec<HistoryWrite>, keys: Vec<String>)
    ensures
        final(writes)@ == old(writes)@ + keys@.map_values(|k: String| HistoryWrite::SenderKey(k)),
{
    let ghost start = writes@;
    let ghost all = keys@;
    let ghost wanted = all.map_values(|k: String| HistoryWrite::SenderKey(k));
    let ghost mut n: int = 0;
    let mut rest = keys;
    while rest.len() > 0
        invariant
            wanted == all.map_values(|k: String| HistoryWrite::SenderKey(k)),
            0 <= n <= all.len(),
            rest@ == all.skip(n),
            writes@ == start + wanted.take(n),
        decreases rest.len(),
    {
        let key = rest.remove(0);
        assert(key == all[n]);
        writes.push(HistoryWrite::SenderKey(key));
        proof {
            n = n + 1;
        }
        assert(rest@ =~= all.skip(n));
        assert(writes@ =~= start + wanted.take(n));
    }
    assert(wanted.take(n) =~= wanted);
}

/// Whether `w` is made of the steps of a history: its groups, its sessions, its messages as far as
/// this identity may read them, and, if it may read them all, its keys.
pub open spec fn takes_in(
    w: Seq<HistoryWrite>,
    bundle: SdkOwnDeviceHistoryBundle,
    local_device_id: String,
) -> bool {
    let floors = floors_of(bundle.groups@);
    let groups = all_group_writes(bundle.groups@, local_device_id);
    let sessions = bundle.dm_sessions@;
    let readable = readable_messages(bundle.messages@, floors);
    let behind = groups.len() + sessions.len();
    &&& w.len() >= behind
    &&& w.take(groups.len() as int) == groups
    &&& forall|i: int|
        0 <= i < sessions.len() ==> keeps_history_session(
            #[trigger] w[groups.len() + i],
            sessions[i],
            bundle.snapshot_id@,
        )
    &&& w.skip(behind as int) == message_writes(bundle.messages@.take(readable as int)) + (
    if readable == bundle.messages@.len() {
        bundle.sender_key_distributions_base64@.map_values(|k: String| HistoryWrite::SenderKey(k))
    } else {
        Seq::empty()
    })
}

impl RamfluxClient {
    /// Keeps the session that the key of a history was sent with.
    pub fn persist_own_sync_slot_session(
        &self,
        slot_conversation_id: &str,
        object_id: &str,
        snapshot: &[u8],
    ) -> (r: Result<EventWrite, SdkError>)
        ensures
            if self.unlocked() {
                r matches Ok(w) && keeps_session(
                    w,
                    slot_conversation_id@,
                    "own-device-sync-slot:"@ + object_id@,
                    "send"@,
                    snapshot@,
                )
            } else {
                r matches Err(SdkError::AccountDbNotUnlocked)
            },
    {
        let label = "own-device-sync-slot:".to_owned().concat(object_id);
        self.persist_dm_session_snapshot(slot_conversation_id, label.as_str(), "send", snapshot)
    }

    /// Checks an announcement on its face, before the manifest of its identity is fetched.
    pub fn verify_own_device_sync_envelope(
        &self,
        expected_principal_commitment: &str,
        envelope: &SdkOwnDeviceSyncEnvelope,
        now: i64,
    ) -> (r: Result<(), SdkError>)
        ensures
            match self.device_branch {
                Some(branch) => match announcement_fault(
                    *envelope,
                    expected_principal_commitment@,
                    branch.device_id@,
                    now,
                ) {
                    Some(words) => is_local_bus(r, words),
                    None => r is Ok,
                },
                None => if fails_for_every_device(
                    *envelope,
                    expected_principal_commitment@,
                    now,
                ) {
                    is_local_bus(
                        r,
                        announcement_fault(
                            *envelope,
                            expected_principal_commitment@,
                            envelope.target_device_id@,
                            now,
                        )->0,
                    )
                } else {
                    r matches Err(SdkError::IdentityRootMissing)
                },
            },
    {
        if !str_eq(envelope.schema.as_str(), "ramflux.sdk.own_device_sync.v1") {
            let text = "unsupported own-device sync schema: ".to_owned().concat(
                envelope.schema.as_str(),
            );
            return Err(local_bus(text.as_str()));
        }
        if !str_eq(envelope.principal_commitment.as_str(), expected_principal_commitment) {
            return Err(local_bus("own-device sync local principal mismatch"));
        }
        if envelope.expires_at < now {
            return Err(local_bus("own-device sync envelope expired"));
        }
        let branch = match self.acting_device() {
            Ok(branch) => branch,
            Err(error) => {
                return Err(error);
            },
        };
        if envelope.target_device_id != branch.device_id {
            return Err(local_bus("own-device sync target device mismatch"));
        }
        let slot = &envelope.history_ref.key_slot;
        if slot.recipient_device_id != envelope.target_device_id {
            return Err(local_bus("own-device sync key slot target mismatch"));
        }
        if slot.object_id != envelope.history_ref.object_id {
            return Err(local_bus("own-device sync key slot object mismatch"));
        }
        let expected = own_device_sync_slot_conversation_id(
            envelope.snapshot_id.as_str(),
            envelope.history_ref.object_id.as_str(),
            envelope.target_device_id.as_str(),
        );
        if slot.conversation_id != expected {
            return Err(local_bus("own-device sync key slot conversation mismatch"));
        }
        Ok(())
    }

    /// The steps that take a history in. They are carried out in order until one fails; the outcome
    /// holds if none does. A message that this identity may not read ends them. Keys alone are handed
    /// out on a locked client too: each is decoded before it is found that it cannot be kept.
    pub fn import_own_device_history_bundle(
        &self,
        envelope: &SdkOwnDeviceSyncEnvelope,
        bundle: SdkOwnDeviceHistoryBundle,
    ) -> (r: HistoryImport)
        ensures
            if !bundle_is_announced(bundle, *envelope) {
                r.writes@.len() == 0 && is_local_bus(
                    r.outcome,
                    "own-device sync bundle binding mismatch"@,
                )
            } else {
                match self.device_branch {
                    None => r.writes@.len() == 0
                        && (r.outcome matches Err(SdkError::IdentityRootMissing)),
                    Some(branch) => if bundle.target_device_id@ != branch.device_id@ {
                        r.writes@.len() == 0 && is_local_bus(
                            r.outcome,
                            "own-device sync bundle target mismatch"@,
                        )
                    } else {
                        self.is_history_import(r, bundle, branch.device_id)
                    },
                }
            },
    {
        if !str_eq(bundle.schema.as_str(), "ramflux.sdk.own_device_history_bundle.v1")
            || bundle.principal_commitment != envelope.principal_commitment
            || bundle.source_device_id != envelope.source_device_id || bundle.target_device_id
            != envelope.target_device_id || bundle.snapshot_id != envelope.snapshot_id {
            return HistoryImport {
                writes: Vec::new(),
                outcome: Err(local_bus("own-device sync bundle binding mismatch")),
            };
        }
        let local_device_id = match self.acting_device() {
            Ok(branch) => branch.device_id.clone(),
            Err(error) => {
                return HistoryImport { writes: Vec::new(), outcome: Err(error) };
            },
        };
        if bundle.target_device_id != local_device_id {
            return HistoryImport {
                writes: Vec::new(),
                outcome: Err(local_bus("own-device sync bundle target mismatch")),
            };
        }
        let ghost given = bundle;
        let floors = group_floors(&bundle.groups);
        let imported_groups = bundle.groups.len();
        let imported_dm_sessions = bundle.dm_sessions.len();
        let imported_messages = bundle.messages.len();
        let imported_sender_keys = bundle.sender_key_distributions_base64.len();
        let snapshot_id = bundle.snapshot_id;
        let mut writes: Vec<HistoryWrite> = Vec::new();
        push_groups(&mut writes, bundle.groups, &local_device_id);
        let ghost groups = all_group_writes(given.groups@, local_device_id);
        assert(writes@ =~= groups);
        push_sessions(&mut writes, bundle.dm_sessions, snapshot_id.as_str());
        let ghost behind = writes@;
        let all_readable = push_messages(&mut writes, bundle.messages, &floors);
        let ghost readable = readable_messages(given.messages@, floors@);
        proof {
            lemma_readable_bound(given.messages@, floors@);
        }
        let before_keys = writes.len();
        if all_readable {
            push_sender_keys(&mut writes, bundle.sender_key_distributions_base64);
        }
        assert(behind.take(groups.len() as int) =~= groups);
        assert(writes@.take(groups.len() as int) =~= groups);
        assert forall|i: int|
            0 <= i < given.dm_sessions@.len() implies keeps_history_session(
            #[trigger] writes@[groups.len() + i],
            given.dm_sessions@[i],
            given.snapshot_id@,
        ) by {
            assert(writes@[groups.len() + i] == behind[groups.len() + i]);
        }
        assert(writes@.skip(behind.len() as int) =~= message_writes(
            given.messages@.take(readable as int),
        ) + (if readable == given.messages@.len() {
            given.sender_key_distributions_base64@.map_values(
                |k: String| HistoryWrite::SenderKey(k),
            )
        } else {
            Seq::empty()
        }));
        assert(takes_in(writes@, given, local_device_id));
        proof {
            lemma_groups_are_written(given.groups@, local_device_id);
        }
        if before_keys > 0 {
            match self.account_db() {
                Ok(_) => {},
                Err(error) => {
                    return HistoryImport { writes: Vec::new(), outcome: Err(error) };
                },
            }
        }
        if !all_readable {
            return HistoryImport {
                writes,
                outcome: Err(local_bus("own-device sync message below joined epoch")),
            };
        }
        HistoryImport {
            writes,
            outcome: Ok(
                SdkOwnDeviceSyncImportResponse {
                    snapshot_id,
                    imported_messages,
                    imported_dm_sessions,
                    imported_groups,
                    imported_sender_keys,
                },
            ),
        }
    }

    /// Whether `r` takes a history in on this client. Without an unlocked account nothing is written,
    /// and that is an error if anything but keys would have been.
    pub open spec fn is_history_import(
        self,
        r: HistoryImport,
        bundle: SdkOwnDeviceHistoryBundle,
        local_device_id: String,
    ) -> bool {
        let readable = readable_messages(bundle.messages@, floors_of(bundle.groups@));
        exists|w: Seq<HistoryWrite>| #[trigger]
            takes_in(w, bundle, local_device_id) && if (bundle.groups@.len() > 0
                || bundle.dm_sessions@.len() > 0 || readable > 0) && !self.unlocked() {
                r.writes@.len() == 0 && (r.outcome matches Err(SdkError::AccountDbNotUnlocked))
            } else {
                r.writes@ == w && if readable < bundle.messages@.len() {
                    is_local_bus(r.outcome, "own-device sync message below joined epoch"@)
                } else {
                    r.outcome == Ok::<SdkOwnDeviceSyncImportResponse, SdkError>(
                        SdkOwnDeviceSyncImportResponse {
                            snapshot_id: bundle.snapshot_id,
                            imported_messages: bundle.messages@.len() as usize,
                            imported_dm_sessions: bundle.dm_sessions@.len() as usize,
                            imported_groups: bundle.groups@.len() as usize,
                            imported_sender_keys:
                                bundle.sender_key_distributions_base64@.len() as usize,
                        },
                    )
                }
            }
    }
}

/// An announcement is believed by the device that it is for: made by another device of the identity,
/// with the key in the slot of its snapshot, it has no fault while it holds.
pub proof fn law_announcement_is_believed_by_its_target(
    envelope: SdkOwnDeviceSyncEnvelope,
    principal_commitment: Seq<char>,
    source_device_id: Seq<char>,
    target_device_id: Seq<char>,
    snapshot_id: Seq<char>,
    nonce: String,
    history_ref: SdkDmAttachmentRef,
    created_at: i64,
    devices: Seq<CheckedDevice>,
    now: i64,
)
    requires
        is_announcement(
            envelope,
            principal_commitment,
            source_device_id,
            target_device_id,
            snapshot_id,
            nonce,
            history_ref,
            created_at,
        ),
        created_at <= now <= created_at + 3600,
        history_ref.key_slot.recipient_device_id@ == target_device_id,
        history_ref.key_slot.object_id@ == history_ref.object_id@,
        history_ref.key_slot.conversation_id@ == sync_slot(
            snapshot_id,
            history_ref.object_id@,
            target_device_id,
        ),
        device_at(devices, source_device_id) matches Some(i)
            && devices[i].device.principal_commitment@ == principal_commitment,
        device_at(devices, target_device_id) matches Some(i)
            && devices[i].device.principal_commitment@ == principal_commitment,
    ensures
        announcement_fault(envelope, principal_commitment, target_device_id, now) is None,
        manifest_announcement_fault(envelope, devices) is None,
{
}

proof fn lemma_all_allowed_are_readable(messages: Seq<BundledMessage>, floors: Seq<(String, u64)>)
    requires
        forall|i: int|
            0 <= i < messages.len() ==> allowed_by_floor(
                (#[trigger] messages[i]).group_epoch,
                floors,
            ),
    ensures
        readable_messages(messages, floors) == messages.len(),
    decreases messages.len(),
{
    if messages.len() > 0 {
        assert(allowed_by_floor(messages[0].group_epoch, floors));
        assert forall|i: int| 0 <= i < messages.skip(1).len() implies allowed_by_floor(
            (#[trigger] messages.skip(1)[i]).group_epoch,
            floors,
        ) by {
            assert(messages.skip(1)[i] == messages[i + 1]);
        }
        lemma_all_allowed_are_readable(messages.skip(1), floors);
    }
}

/// What a device hands over, its target takes in whole: every message of the history is readable
/// under the floors of the history's own groups.
pub proof fn law_handed_over_history_is_readable(
    messages: Seq<BundledMessage>,
    groups: Seq<SdkOwnDeviceGroupSnapshot>,
)
    ensures
        ({
            let kept = kept_messages(messages, floors_of(groups));
            readable_messages(kept, floors_of(groups)) == kept.len()
        }),
{
    let floors = floors_of(groups);
    let kept = kept_messages(messages, floors);
    assert forall|i: int| 0 <= i < kept.len() implies allowed_by_floor(
        (#[trigger] kept[i]).group_epoch,
        floors,
    ) by {
        law_history_keeps_to_the_floors(messages, floors, i);
    }
    lemma_all_allowed_are_readable(kept, floors);
}

/// A history with a message from before this identity joined its group is never taken in as a whole,
/// and that message is never listed.
pub proof fn law_history_below_floor_is_refused(
    messages: Seq<BundledMessage>,
    floors: Seq<(String, u64)>,
    i: int,
)
    requires
        0 <= i < messages.len(),
        !allowed_by_floor(messages[i].group_epoch, floors),
    ensures
        readable_messages(messages, floors) <= i,
    decreases messages.len(),
{
    if i > 0 && allowed_by_floor(messages[0].group_epoch, floors) {
        law_history_below_floor_is_refused(messages.skip(1), floors, i - 1);
    }
}

} // verus!

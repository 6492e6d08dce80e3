//! What a device hands to another device of the same identity.
use crate::client::group::LocalBusGroupMemberRoute;
use crate::dm::SdkDmAttachmentRef;
use crate::gateway::protocol::SignedFields;
use crate::group::SdkGroupEncryptedEnvelope;
use crate::object::SdkObjectTransferStatus;
use crate::records::DirectMessageRecord;
use vstd::prelude::*;

verus! {

/// What announces a history to its target device.
#[derive(Clone, Debug, PartialEq, Eq)]
pub struct SdkOwnDeviceSyncEnvelope {
    pub schema: String,
    pub version: u32,
    pub principal_commitment: String,
    pub source_device_id: String,
    pub target_device_id: String,
    pub snapshot_id: String,
    pub snapshot_kind: String,
    pub created_at: i64,
    pub expires_at: i64,
    pub nonce: String,
    pub history_ref: SdkDmAttachmentRef,
    pub signed: SignedFields,
}

/// What the source device signs of an announcement.
#[derive(Clone, Debug, PartialEq, Eq)]
pub struct SdkOwnDeviceSyncSigningBody<'a> {
    pub schema: &'a str,
    pub version: u32,
    pub principal_commitment: &'a str,
    pub source_device_id: &'a str,
    pub target_device_id: &'a str,
    pub snapshot_id: &'a str,
    pub snapshot_kind: &'a str,
    pub created_at: i64,
    pub expires_at: i64,
    pub nonce: &'a str,
    pub object_id: &'a str,
    pub key_slot_conversation_id: &'a str,
    pub key_slot_recipient_device_id: &'a str,
}

/// A message of a history, with the group and the epoch that its body names, if it names them.
#[derive(Clone, Debug, PartialEq, Eq)]
pub struct BundledMessage {
    pub record: DirectMessageRecord,
    pub group_epoch: Option<(String, u64)>,
}

/// The history of a device.
#[derive(Clone, Debug, PartialEq, Eq)]
pub struct SdkOwnDeviceHistoryBundle {
    pub schema: String,
    pub version: u32,
    pub principal_commitment: String,
    pub source_device_id: String,
    pub target_device_id: String,
    pub snapshot_id: String,
    pub messages: Vec<BundledMessage>,
    pub dm_sessions: Vec<SdkOwnDeviceDmSessionSnapshot>,
    pub groups: Vec<SdkOwnDeviceGroupSnapshot>,
    pub sender_key_distributions_base64: Vec<String>,
}

/// A session of a history. The snapshot is encoded.
#[derive(Clone, Debug, PartialEq, Eq)]
pub struct SdkOwnDeviceDmSessionSnapshot {
    pub conversation_id: String,
    pub direction: String,
    pub snapshot: Vec<u8>,
}

/// A group of a history.
#[derive(Clone, Debug, PartialEq, Eq)]
pub struct SdkOwnDeviceGroupSnapshot {
    pub group_id: String,
    pub group_epoch: u64,
    pub max_members: u32,
    pub new_member_history: String,
    pub local_role: String,
    pub local_joined_epoch: u64,
    pub members: Vec<SdkOwnDeviceGroupMemberSnapshot>,
    pub routes: Vec<LocalBusGroupMemberRoute>,
}

/// A member of a group of a history.
#[derive(Clone, Debug, PartialEq, Eq)]
pub struct SdkOwnDeviceGroupMemberSnapshot {
    pub member_id: String,
    pub role: String,
    pub joined_epoch: u64,
}

/// What handing a history over came to.
#[derive(Clone, Debug, PartialEq, Eq)]
pub struct SdkOwnDeviceSyncExportResponse {
    pub snapshot_id: String,
    pub object_id: String,
    pub transfer: SdkObjectTransferStatus,
    pub envelope: SdkOwnDeviceSyncEnvelope,
}

/// What taking a history in came to.
#[derive(Clone, Debug, PartialEq, Eq)]
pub struct SdkOwnDeviceSyncImportResponse {
    pub snapshot_id: String,
    pub imported_messages: usize,
    pub imported_dm_sessions: usize,
    pub imported_groups: usize,
    pub imported_sender_keys: usize,
}

/// The name of the conversation that carries the key of a history.
pub open spec fn sync_slot(
    snapshot_id: Seq<char>,
    object_id: Seq<char>,
    target_device_id: Seq<char>,
) -> Seq<char> {
    "own_device.sync.slot:"@ + snapshot_id + ":"@ + object_id + ":"@ + target_device_id
}

/// The name of the conversation that carries the key of a history.
pub fn own_device_sync_slot_conversation_id(
    snapshot_id: &str,
    object_id: &str,
    target_device_id: &str,
) -> (r: String)
    ensures
        r@ == sync_slot(snapshot_id@, object_id@, target_device_id@),
{
    "own_device.sync.slot:".to_owned().concat(snapshot_id).concat(":").concat(object_id).concat(
        ":",
    ).concat(target_device_id)
}

/// The key of a history is bound to the snapshot, to the object and to the target: where two slots
/// differ in one of them alone, they have two names.
pub proof fn law_sync_slot_binds_each_part(
    snapshot_a: Seq<char>,
    snapshot_b: Seq<char>,
    object_a: Seq<char>,
    object_b: Seq<char>,
    target_a: Seq<char>,
    target_b: Seq<char>,
)
    ensures
        snapshot_a != snapshot_b ==> sync_slot(snapshot_a, object_a, target_a) != sync_slot(
            snapshot_b,
            object_a,
            target_a,
        ),
        object_a != object_b ==> sync_slot(snapshot_a, object_a, target_a) != sync_slot(
            snapshot_a,
            object_b,
            target_a,
        ),
        target_a != target_b ==> sync_slot(snapshot_a, object_a, target_a) != sync_slot(
            snapshot_a,
            object_a,
            target_b,
        ),
{
    let head = "own_device.sync.slot:"@;
    let slot = sync_slot(snapshot_a, object_a, target_a);
    let tail = ":"@ + object_a + ":"@ + target_a;
    assert(slot =~= head + snapshot_a + tail);
    assert(sync_slot(snapshot_b, object_a, target_a) =~= head + snapshot_b + tail);
    if slot == sync_slot(snapshot_b, object_a, target_a) {
        crate::text::law_part_is_bound(head, snapshot_a, snapshot_b, tail);
    }
    let before = head + snapshot_a + ":"@;
    let behind = ":"@ + target_a;
    assert(slot =~= before + object_a + behind);
    assert(sync_slot(snapshot_a, object_b, target_a) =~= before + object_b + behind);
    if slot == sync_slot(snapshot_a, object_b, target_a) {
        crate::text::law_part_is_bound(before, object_a, object_b, behind);
    }
    let front = head + snapshot_a + ":"@ + object_a + ":"@;
    let e = Seq::<char>::empty();
    assert(slot =~= front + target_a + e);
    assert(sync_slot(snapshot_a, object_a, target_b) =~= front + target_b + e);
    if slot == sync_slot(snapshot_a, object_a, target_b) {
        crate::text::law_part_is_bound(front, target_a, target_b, e);
    }
}

/// What the source device signs of an announcement.
pub fn own_device_sync_signing_body(envelope: &SdkOwnDeviceSyncEnvelope) -> (r:
    SdkOwnDeviceSyncSigningBody<'_>)
    ensures
        r.schema@ == envelope.schema@,
        r.version == envelope.version,
        r.principal_commitment@ == envelope.principal_commitment@,
        r.source_device_id@ == envelope.source_device_id@,
        r.target_device_id@ == envelope.target_device_id@,
        r.snapshot_id@ == envelope.snapshot_id@,
        r.snapshot_kind@ == envelope.snapshot_kind@,
        r.created_at == envelope.created_at,
        r.expires_at == envelope.expires_at,
        r.nonce@ == envelope.nonce@,
        r.object_id@ == envelope.history_ref.object_id@,
        r.key_slot_conversation_id@ == envelope.history_ref.key_slot.conversation_id@,
        r.key_slot_recipient_device_id@ == envelope.history_ref.key_slot.recipient_device_id@,
{
    SdkOwnDeviceSyncSigningBody {
        schema: envelope.schema.as_str(),
        version: envelope.version,
        principal_commitment: envelope.principal_commitment.as_str(),
        source_device_id: envelope.source_device_id.as_str(),
        target_device_id: envelope.target_device_id.as_str(),
        snapshot_id: envelope.snapshot_id.as_str(),
        snapshot_kind: envelope.snapshot_kind.as_str(),
        created_at: envelope.created_at,
        expires_at: envelope.expires_at,
        nonce: envelope.nonce.as_str(),
        object_id: envelope.history_ref.object_id.as_str(),
        key_slot_conversation_id: envelope.history_ref.key_slot.conversation_id.as_str(),
        key_slot_recipient_device_id: envelope.history_ref.key_slot.recipient_device_id.as_str(),
    }
}

/// The group and the epoch that a message names, by what its body reads as.
pub fn group_message_epoch(parsed: Option<SdkGroupEncryptedEnvelope>) -> (r: Option<(String, u64)>)
    ensures
        r == (match parsed {
            Some(envelope) => Some((envelope.group_id, envelope.group_key_epoch)),
            None => None,
        }),
{
    match parsed {
        Some(envelope) => Some((envelope.group_id, envelope.group_key_epoch)),
        None => None,
    }
}

/// The epoch from which on a group's messages may be read, by the last entry for the group.
pub open spec fn floor_of(floors: Seq<(String, u64)>, group_id: Seq<char>) -> Option<u64>
    decreases floors.len(),
{
    if floors.len() == 0 {
        None
    } else if floors.last().0@ == group_id {
        Some(floors.last().1)
    } else {
        floor_of(floors.drop_last(), group_id)
    }
}

/// Whether a message may be read: it is of no group, or of an epoch of its group that is not before
/// the one in which this identity joined.
pub open spec fn allowed_by_floor(group_epoch: Option<(String, u64)>, floors: Seq<(String, u64)>) -> bool {
    match group_epoch {
        None => true,
        Some((group_id, epoch)) => floor_of(floors, group_id@) matches Some(floor) && epoch >= floor,
    }
}

/// The epochs from which on the groups' messages may be read.
pub open spec fn floors_of(groups: Seq<SdkOwnDeviceGroupSnapshot>) -> Seq<(String, u64)> {
    groups.map_values(|g: SdkOwnDeviceGroupSnapshot| (g.group_id, g.local_joined_epoch))
}

/// The epochs from which on the groups' messages may be read.
pub fn group_floors(groups: &Vec<SdkOwnDeviceGroupSnapshot>) -> (r: Vec<(String, u64)>)
    ensures
        r@ == floors_of(groups@),
{
    let mut floors: Vec<(String, u64)> = Vec::new();
    let mut i: usize = 0;
    while i < groups.len()
        invariant
            i <= groups.len(),
            floors@ == floors_of(groups@).take(i as int),
        decreases groups.len() - i,
    {
        floors.push((groups[i].group_id.clone(), groups[i].local_joined_epoch));
        i = i + 1;
        assert(floors@ =~= floors_of(groups@).take(i as int));
    }
    assert(floors_of(groups@).take(i as int) =~= floors_of(groups@));
    floors
}

/// Whether a message may be read.
pub fn message_allowed_by_group_floor(message: &BundledMessage, floors: &Vec<(String, u64)>) -> (r:
    bool)
    ensures
        r == allowed_by_floor(message.group_epoch, floors@),
{
    let (group_id, epoch) = match &message.group_epoch {
        Some((group_id, epoch)) => (group_id, *epoch),
        None => {
            return true;
        },
    };
    let mut i: usize = floors.len();
    assert(floors@.take(i as int) =~= floors@);
    while i > 0
        invariant
            i <= floors.len(),
            message.group_epoch == Some((*group_id, epoch)),
            floor_of(floors@, group_id@) == floor_of(floors@.take(i as int), group_id@),
        decreases i,
    {
        i = i - 1;
        assert(floors@.take(i + 1).drop_last() =~= floors@.take(i as int));
        if crate::text::str_eq(floors[i].0.as_str(), group_id.as_str()) {
            return epoch >= floors[i].1;
        }
    }
    false
}

} // verus!

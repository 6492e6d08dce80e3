//! Histories that one device of an identity hands to another: what was found here is what arrives
//! there.
use crate::client::group::LocalBusGroupMemberRoute;
use crate::client::object::ChunkPlan;
use crate::client::own_device_sync::{
    hands_on, hands_on_group, hands_on_groups, hands_on_members, is_group_snapshot, kept_messages, lists_groups, lists_members,
    member_sender_key_distributions, own_device_dm_session_snapshots, own_device_group_snapshot,
    own_device_group_snapshots, own_device_history_bundle, own_device_sender_key_distributions,
    own_key_fails, GroupKeysReading, own_device_sync_envelope_to_sign,
    own_device_sync_signer, own_sync_history_ref, own_sync_slot_message, own_sync_snapshot_id,
    readable_messages, sessions_found, takes_in, all_group_writes, group_writes, member_writes,
    route_writes, message_writes, FoundSession, GroupReading, HistoryImport, HistoryWrite,
    MemberSenderKey,
};
use crate::client::state::RamfluxClient;
use crate::dm::SdkDmAttachmentRef;
use crate::error::SdkError;
use crate::gateway::engine::GatewayDirectMessage;
use crate::group::SdkGroupSenderKeyDistribution;
use crate::manifest::CheckedDevice;
use crate::object::{EncryptedObject, SdkObjectKeySlot};
use crate::own_device_sync::{
    allowed_by_floor, floor_of, floors_of, own_device_sync_signing_body, BundledMessage,
    SdkOwnDeviceDmSessionSnapshot, SdkOwnDeviceGroupMemberSnapshot, SdkOwnDeviceGroupSnapshot,
    SdkOwnDeviceHistoryBundle, SdkOwnDeviceSyncEnvelope, SdkOwnDeviceSyncSigningBody,
};
use crate::records::{AccountDbRequest, EventWrite};
use vstd::prelude::*;

verus! {

// ---- sessions ----

/// Whether a session that was found is the one that is handed over.
pub open spec fn same_session(f: FoundSession, s: SdkOwnDeviceDmSessionSnapshot) -> bool {
    &&& s.conversation_id@ == f.conversation_id@
    &&& s.direction@ == f.direction@
    &&& f.snapshot matches Some(snapshot) && s.snapshot@ == snapshot@
}

proof fn lemma_sessions_found(found: Seq<FoundSession>)
    ensures
        forall|i: int|
            0 <= i < found.len() && (#[trigger] found[i]).snapshot is Some ==> exists|j: int|
                0 <= j < sessions_found(found).len() && same_session(
                    found[i],
                    #[trigger] sessions_found(found)[j],
                ),
        forall|j: int|
            0 <= j < sessions_found(found).len() ==> exists|i: int|
                0 <= i < found.len() && same_session(
                    #[trigger] found[i],
                    #[trigger] sessions_found(found)[j],
                ),
    decreases found.len(),
{
    if found.len() > 0 {
        let rest = found.drop_last();
        let before = sessions_found(rest);
        let all = sessions_found(found);
        let n = found.len() - 1;
        lemma_sessions_found(rest);
        assert forall|i: int| 0 <= i < found.len() && (#[trigger] found[i]).snapshot is Some implies exists|
            j: int,
        |
            0 <= j < all.len() && same_session(found[i], #[trigger] all[j]) by {
            if i < n {
                assert(rest[i] == found[i]);
                let j = choose|j: int|
                    0 <= j < before.len() && same_session(rest[i], #[trigger] before[j]);
                assert(all[j] == before[j]);
            } else {
                assert(same_session(found[i], all[all.len() - 1]));
            }
        }
        assert forall|j: int| 0 <= j < all.len() implies exists|i: int|
            0 <= i < found.len() && same_session(#[trigger] found[i], #[trigger] all[j]) by {
            if j < before.len() {
                assert(all[j] == before[j]);
                let i = choose|i: int|
                    0 <= i < rest.len() && same_session(#[trigger] rest[i], before[j]);
                assert(found[i] == rest[i]);
                assert(same_session(found[i], all[j]));
            } else {
                assert(same_session(found[n], all[j]));
            }
        }
    }
}

/// Each session that is handed over stands under the conversation and the direction in which it was
/// found, with the snapshot that was found there; and no session that was found is left behind.
pub proof fn law_sessions_keep_their_conversations(
    found: Vec<FoundSession>,
    sessions: Vec<SdkOwnDeviceDmSessionSnapshot>,
)
    requires
        call_ensures(own_device_dm_session_snapshots, (found,), sessions),
    ensures
        forall|i: int|
            0 <= i < found@.len() && (#[trigger] found@[i]).snapshot is Some ==> exists|j: int|
                0 <= j < sessions@.len() && same_session(found@[i], #[trigger] sessions@[j]),
        forall|j: int|
            0 <= j < sessions@.len() ==> exists|i: int|
                0 <= i < found@.len() && same_session(
                    #[trigger] found@[i],
                    #[trigger] sessions@[j],
                ),
{
    lemma_sessions_found(found@);
}

/// A session that was found on the old device is kept on the new one under the name by which that
/// conversation's session is looked up there, with the snapshot that was found.
pub proof fn law_session_goes_on_at_the_new_device(
    client: &RamfluxClient,
    found: Vec<FoundSession>,
    sessions: Vec<SdkOwnDeviceDmSessionSnapshot>,
    i: int,
    conversation_id: &str,
    direction: &str,
    envelope_id: &str,
    snapshot: &[u8],
    kept: Result<EventWrite, SdkError>,
    asked: Result<AccountDbRequest, SdkError>,
)
    requires
        client.active_account_db is Some,
        0 <= i < found@.len(),
        found@[i].snapshot matches Some(bytes) && bytes@ == snapshot@,
        conversation_id@ == found@[i].conversation_id@,
        direction@ == found@[i].direction@,
        call_ensures(
            RamfluxClient::persist_dm_session_snapshot,
            (client, conversation_id, envelope_id, direction, snapshot),
            kept,
        ),
        call_ensures(
            RamfluxClient::dm_session_checkpoint,
            (client, conversation_id, direction),
            asked,
        ),
    ensures
        kept matches Ok(w) && asked matches Ok(q) && {
            &&& w.checkpoint is SetProjectionCheckpoint
            &&& q is ProjectionCheckpoint
            &&& w.checkpoint->SetProjectionCheckpoint_projection_name@
                == q->ProjectionCheckpoint_projection_name@
            &&& w.event is AppendEvent
            &&& w.checkpoint->SetProjectionCheckpoint_last_event_id@
                == w.event->AppendEvent_event_id@
            &&& w.event->AppendEvent_body@ == snapshot@
            &&& w.event->AppendEvent_event_type@ == "dm.ratchet_session"@
        },
{
}

// ---- the bundle ----

/// Whether a message may be read by who joined its group when the snapshots of the groups say. No two
/// of the snapshots are of one group.
pub open spec fn may_read(m: BundledMessage, groups: Seq<SdkOwnDeviceGroupSnapshot>) -> bool {
    match m.group_epoch {
        None => true,
        Some((group_id, epoch)) => exists|i: int|
            0 <= i < groups.len() && (#[trigger] groups[i]).group_id@ == group_id@ && epoch
                >= groups[i].local_joined_epoch,
    }
}

/// Whether each group is told of once.
pub open spec fn one_each(groups: Seq<SdkOwnDeviceGroupSnapshot>) -> bool {
    forall|i: int, j: int|
        0 <= i < j < groups.len() ==> (#[trigger] groups[i]).group_id@ != (
        #[trigger] groups[j]).group_id@
}

proof fn lemma_floor(groups: Seq<SdkOwnDeviceGroupSnapshot>, group_id: Seq<char>)
    requires
        one_each(groups),
    ensures
        match floor_of(floors_of(groups), group_id) {
            Some(floor) => exists|i: int|
                0 <= i < groups.len() && (#[trigger] groups[i]).group_id@ == group_id
                    && groups[i].local_joined_epoch == floor,
            None => forall|i: int|
                0 <= i < groups.len() ==> (#[trigger] groups[i]).group_id@ != group_id,
        },
    decreases groups.len(),
{
    let floors = floors_of(groups);
    if groups.len() > 0 {
        let n = groups.len() - 1;
        assert(floors.last() == (groups[n].group_id, groups[n].local_joined_epoch));
        assert(floors.drop_last() =~= floors_of(groups.drop_last()));
        assert(one_each(groups.drop_last())) by {
            assert forall|i: int, j: int| 0 <= i < j < n implies (
            #[trigger] groups.drop_last()[i]).group_id@ != (
            #[trigger] groups.drop_last()[j]).group_id@ by {
                assert(groups.drop_last()[i] == groups[i]);
                assert(groups.drop_last()[j] == groups[j]);
            }
        }
        if groups[n].group_id@ != group_id {
            lemma_floor(groups.drop_last(), group_id);
            match floor_of(floors, group_id) {
                Some(floor) => {
                    let i = choose|i: int|
                        0 <= i < n && (#[trigger] groups.drop_last()[i]).group_id@ == group_id
                            && groups.drop_last()[i].local_joined_epoch == floor;
                    assert(groups[i].group_id@ == group_id);
                },
                None => {
                    assert forall|i: int| 0 <= i < groups.len() implies (
                    #[trigger] groups[i]).group_id@ != group_id by {
                        if i < n {
                            assert(groups.drop_last()[i].group_id@ != group_id);
                        }
                    }
                },
            }
        }
    }
}

proof fn lemma_may_read(m: BundledMessage, groups: Seq<SdkOwnDeviceGroupSnapshot>)
    requires
        one_each(groups),
    ensures
        may_read(m, groups) == allowed_by_floor(m.group_epoch, floors_of(groups)),
{
    match m.group_epoch {
        None => {},
        Some((group_id, epoch)) => {
            lemma_floor(groups, group_id@);
            if may_read(m, groups) {
                let i = choose|i: int|
                    0 <= i < groups.len() && (#[trigger] groups[i]).group_id@ == group_id@ && epoch
                        >= groups[i].local_joined_epoch;
                let floor = floor_of(floors_of(groups), group_id@)->0;
                let k = choose|k: int|
                    0 <= k < groups.len() && (#[trigger] groups[k]).group_id@ == group_id@
                        && groups[k].local_joined_epoch == floor;
                assert(i == k);
            }
        },
    }
}

proof fn lemma_kept(messages: Seq<BundledMessage>, floors: Seq<(String, u64)>)
    ensures
        forall|m: BundledMessage| #[trigger]
            kept_messages(messages, floors).contains(m) <==> messages.contains(m)
                && allowed_by_floor(m.group_epoch, floors),
    decreases messages.len(),
{
    reveal(Seq::filter);
    if messages.len() > 0 {
        let rest = messages.drop_last();
        let kept = kept_messages(messages, floors);
        let before = kept_messages(rest, floors);
        lemma_kept(rest, floors);
        assert forall|m: BundledMessage| #[trigger] kept.contains(m) <==> messages.contains(m)
            && allowed_by_floor(m.group_epoch, floors) by {
            if kept.contains(m) {
                let i = kept.index_of(m);
                if i < before.len() {
                    assert(before[i] == kept[i]);
                    assert(before.contains(m));
                    let k = rest.index_of(m);
                    assert(messages[k] == m);
                } else {
                    assert(messages[messages.len() - 1] == m);
                }
            }
            if messages.contains(m) && allowed_by_floor(m.group_epoch, floors) {
                let i = messages.index_of(m);
                if i < rest.len() {
                    assert(rest[i] == m);
                    assert(before.contains(m));
                    let k = before.index_of(m);
                    assert(kept[k] == m);
                } else {
                    assert(kept[kept.len() - 1] == m);
                }
            }
        }
    }
}

/// A history holds the messages that the identity may read and no others, the groups as they were
/// read, and the sessions and keys that are added to it, under the names it was asked for.
pub proof fn law_history_holds_what_may_be_read(
    principal_commitment: &str,
    source_device_id: &str,
    target_device_id: &str,
    snapshot_id: &str,
    messages: Vec<BundledMessage>,
    groups: Vec<SdkOwnDeviceGroupSnapshot>,
    begun: SdkOwnDeviceHistoryBundle,
    sessions: Vec<SdkOwnDeviceDmSessionSnapshot>,
    keys: Vec<String>,
    bundle: SdkOwnDeviceHistoryBundle,
)
    requires
        one_each(groups@),
        call_ensures(
            own_device_history_bundle,
            (principal_commitment, source_device_id, target_device_id, snapshot_id, messages, groups),
            begun,
        ),
        call_ensures(
            SdkOwnDeviceHistoryBundle::with_sessions_and_keys,
            (begun, sessions, keys),
            bundle,
        ),
    ensures
        forall|m: BundledMessage| #[trigger]
            bundle.messages@.contains(m) <==> messages@.contains(m) && may_read(m, groups@),
        bundle.groups@ == groups@,
        bundle.dm_sessions@ == sessions@,
        bundle.sender_key_distributions_base64@ == keys@,
        bundle.principal_commitment@ == principal_commitment@,
        bundle.source_device_id@ == source_device_id@,
        bundle.target_device_id@ == target_device_id@,
        bundle.snapshot_id@ == snapshot_id@,
        bundle.schema@ == "ramflux.sdk.own_device_history_bundle.v1"@,
        bundle.version == 1,
{
    lemma_kept(messages@, floors_of(groups@));
    assert forall|m: BundledMessage| #[trigger]
        bundle.messages@.contains(m) <==> messages@.contains(m) && may_read(m, groups@) by {
        lemma_may_read(m, groups@);
    }
}

// ---- taking a history in ----

/// Whether a step writes that a group is known, with what this device is in it.
pub open spec fn writes_membership(
    w: HistoryWrite,
    g: SdkOwnDeviceGroupSnapshot,
    device_id: Seq<char>,
) -> bool {
    w matches HistoryWrite::Membership {
        group_id,
        group_epoch,
        max_members,
        new_member_history,
        member_id,
        role,
        joined_epoch,
    } && {
        &&& group_id@ == g.group_id@
        &&& group_epoch == g.group_epoch
        &&& max_members == g.max_members
        &&& new_member_history@ == g.new_member_history@
        &&& member_id@ == device_id
        &&& role@ == g.local_role@
        &&& joined_epoch == g.local_joined_epoch
    }
}

/// Whether a step writes a member of a group.
pub open spec fn writes_member(
    w: HistoryWrite,
    g: SdkOwnDeviceGroupSnapshot,
    m: SdkOwnDeviceGroupMemberSnapshot,
) -> bool {
    w matches HistoryWrite::Member { group_id, member_id, role, joined_epoch } && group_id@
        == g.group_id@ && member_id@ == m.member_id@ && role@ == m.role@ && joined_epoch
        == m.joined_epoch
}

/// Whether a step writes how a member of a group is reached.
pub open spec fn writes_route(
    w: HistoryWrite,
    g: SdkOwnDeviceGroupSnapshot,
    route: LocalBusGroupMemberRoute,
) -> bool {
    w matches HistoryWrite::Route { group_id, route: r } && group_id@ == g.group_id@ && r == route
}

/// Whether the steps write what is known of a group.
pub open spec fn writes_group(
    writes: Seq<HistoryWrite>,
    g: SdkOwnDeviceGroupSnapshot,
    device_id: Seq<char>,
) -> bool {
    &&& exists|k: int|
        0 <= k < writes.len() && writes_membership(#[trigger] writes[k], g, device_id)
    &&& forall|i: int|
        0 <= i < g.members@.len() ==> exists|k: int|
            0 <= k < writes.len() && writes_member(#[trigger] writes[k], g, #[trigger] g.members@[i])
    &&& forall|i: int|
        0 <= i < g.routes@.len() ==> exists|k: int|
            0 <= k < writes.len() && writes_route(#[trigger] writes[k], g, #[trigger] g.routes@[i])
}

proof fn lemma_group_is_written(
    writes: Seq<HistoryWrite>,
    at: int,
    g: SdkOwnDeviceGroupSnapshot,
    device_id: String,
)
    requires
        0 <= at,
        at + group_writes(g, device_id).len() <= writes.len(),
        forall|k: int|
            0 <= k < group_writes(g, device_id).len() ==> writes[at + k] == #[trigger] group_writes(
                g,
                device_id,
            )[k],
    ensures
        writes_group(writes, g, device_id@),
{
    let own = group_writes(g, device_id);
    let members = member_writes(g.group_id, g.members@);
    let routes = route_writes(g.group_id, g.routes@);
    assert(own.len() == 1 + members.len() + routes.len());
    assert(writes[at + 0] == own[0]);
    assert(writes_membership(writes[at + 0], g, device_id@));
    assert forall|i: int| 0 <= i < g.members@.len() implies exists|k: int|
        0 <= k < writes.len() && writes_member(#[trigger] writes[k], g, #[trigger] g.members@[i]) by {
        assert(own[1 + i] == members[i]);
        assert(writes[at + (1 + i)] == own[1 + i]);
        assert(writes_member(writes[at + (1 + i)], g, g.members@[i]));
    }
    assert forall|i: int| 0 <= i < g.routes@.len() implies exists|k: int|
        0 <= k < writes.len() && writes_route(#[trigger] writes[k], g, #[trigger] g.routes@[i]) by {
        let k = 1 + members.len() + i;
        assert(own[k] == routes[i]);
        assert(writes[at + k] == own[k]);
        assert(writes_route(writes[at + k], g, g.routes@[i]));
    }
}

proof fn lemma_groups_are_written(
    writes: Seq<HistoryWrite>,
    groups: Seq<SdkOwnDeviceGroupSnapshot>,
    device_id: String,
    i: int,
)
    requires
        all_group_writes(groups, device_id).len() <= writes.len(),
        forall|k: int|
            0 <= k < all_group_writes(groups, device_id).len() ==> writes[k]
                == #[trigger] all_group_writes(groups, device_id)[k],
        0 <= i < groups.len(),
    ensures
        writes_group(writes, groups[i], device_id@),
    decreases groups.len(),
{
    let all = all_group_writes(groups, device_id);
    let before = all_group_writes(groups.drop_last(), device_id);
    let last = group_writes(groups.last(), device_id);
    assert(all =~= before + last);
    if i < groups.len() - 1 {
        assert forall|k: int| 0 <= k < before.len() implies writes[k] == #[trigger] before[k] by {
            assert(all[k] == before[k]);
        }
        lemma_groups_are_written(writes, groups.drop_last(), device_id, i);
        assert(groups.drop_last()[i] == groups[i]);
    } else {
        assert forall|k: int| 0 <= k < last.len() implies writes[before.len() + k]
            == #[trigger] last[k] by {
            assert(all[before.len() + k] == last[k]);
        }
        lemma_group_is_written(writes, before.len() as int, groups.last(), device_id);
    }
}

/// Whether a history is the one that was announced, and this device is who it is for.
pub open spec fn is_for(
    client: RamfluxClient,
    bundle: SdkOwnDeviceHistoryBundle,
    envelope: SdkOwnDeviceSyncEnvelope,
) -> bool {
    &&& bundle.schema@ == "ramflux.sdk.own_device_history_bundle.v1"@
    &&& bundle.principal_commitment@ == envelope.principal_commitment@
    &&& bundle.source_device_id@ == envelope.source_device_id@
    &&& bundle.target_device_id@ == envelope.target_device_id@
    &&& bundle.snapshot_id@ == envelope.snapshot_id@
    &&& client.device_branch matches Some(branch) && branch.device_id@ == bundle.target_device_id@
}

proof fn lemma_readable(messages: Seq<BundledMessage>, groups: Seq<SdkOwnDeviceGroupSnapshot>)
    requires
        one_each(groups),
    ensures
        ({
            let n = readable_messages(messages, floors_of(groups));
            &&& n <= messages.len()
            &&& forall|i: int| 0 <= i < n ==> may_read(#[trigger] messages[i], groups)
            &&& n < messages.len() ==> !may_read(messages[n as int], groups)
        }),
    decreases messages.len(),
{
    let floors = floors_of(groups);
    if messages.len() > 0 {
        lemma_may_read(messages[0], groups);
        if allowed_by_floor(messages[0].group_epoch, floors) {
            lemma_readable(messages.skip(1), groups);
            let n = readable_messages(messages, floors);
            assert forall|i: int| 0 <= i < n implies may_read(#[trigger] messages[i], groups) by {
                if i > 0 {
                    assert(messages.skip(1)[i - 1] == messages[i]);
                }
            }
        }
    }
}

/// A history that was announced to this device, and that holds only what the identity may read, is
/// taken in whole, and the counts are those of the history.
pub proof fn law_announced_history_is_counted(
    client: &RamfluxClient,
    envelope: &SdkOwnDeviceSyncEnvelope,
    bundle: SdkOwnDeviceHistoryBundle,
    import: HistoryImport,
)
    requires
        client.active_account_db is Some,
        is_for(*client, bundle, *envelope),
        one_each(bundle.groups@),
        forall|i: int|
            0 <= i < bundle.messages@.len() ==> may_read(
                #[trigger] bundle.messages@[i],
                bundle.groups@,
            ),
        call_ensures(
            RamfluxClient::import_own_device_history_bundle,
            (client, envelope, bundle),
            import,
        ),
    ensures
        import.outcome matches Ok(counts) && {
            &&& counts.snapshot_id@ == bundle.snapshot_id@
            &&& counts.imported_messages == bundle.messages.len()
            &&& counts.imported_dm_sessions == bundle.dm_sessions.len()
            &&& counts.imported_groups == bundle.groups.len()
            &&& counts.imported_sender_keys == bundle.sender_key_distributions_base64.len()
        },
{
    lemma_readable(bundle.messages@, bundle.groups@);
}

/// Of such a history each group is written with its members and routes.
pub proof fn law_announced_groups_are_written(
    client: &RamfluxClient,
    envelope: &SdkOwnDeviceSyncEnvelope,
    bundle: SdkOwnDeviceHistoryBundle,
    import: HistoryImport,
)
    requires
        client.active_account_db is Some,
        is_for(*client, bundle, *envelope),
        one_each(bundle.groups@),
        forall|i: int|
            0 <= i < bundle.messages@.len() ==> may_read(
                #[trigger] bundle.messages@[i],
                bundle.groups@,
            ),
        call_ensures(
            RamfluxClient::import_own_device_history_bundle,
            (client, envelope, bundle),
            import,
        ),
    ensures
        forall|i: int|
            0 <= i < bundle.groups@.len() ==> writes_group(
                import.writes@,
                #[trigger] bundle.groups@[i],
                bundle.target_device_id@,
            ),
{
    let device_id = client.device_branch->0.device_id;
    let groups = all_group_writes(bundle.groups@, device_id);
    let w = import.writes@;
    lemma_import_is_whole(*client, import, bundle, device_id);
    assert forall|i: int| 0 <= i < bundle.groups@.len() implies writes_group(
        w,
        #[trigger] bundle.groups@[i],
        bundle.target_device_id@,
    ) by {
        assert forall|k: int| 0 <= k < groups.len() implies w[k] == #[trigger] groups[k] by {
            assert(w.take(groups.len() as int)[k] == w[k]);
        }
        lemma_groups_are_written(w, bundle.groups@, device_id, i);
    }
}

/// Each session of such a history is kept as it is, and no other is.
pub proof fn law_announced_sessions_are_kept(
    client: &RamfluxClient,
    envelope: &SdkOwnDeviceSyncEnvelope,
    bundle: SdkOwnDeviceHistoryBundle,
    import: HistoryImport,
)
    requires
        client.active_account_db is Some,
        is_for(*client, bundle, *envelope),
        one_each(bundle.groups@),
        forall|i: int|
            0 <= i < bundle.messages@.len() ==> may_read(
                #[trigger] bundle.messages@[i],
                bundle.groups@,
            ),
        call_ensures(
            RamfluxClient::import_own_device_history_bundle,
            (client, envelope, bundle),
            import,
        ),
    ensures
        forall|i: int|
            0 <= i < bundle.dm_sessions@.len() ==> is_kept(
                import.writes@,
                #[trigger] bundle.dm_sessions@[i],
                bundle.snapshot_id@,
            ),
        forall|k: int|
            0 <= k < import.writes@.len() && (#[trigger] import.writes@[k]) is Session
                ==> bundle.dm_sessions@.contains(import.writes@[k]->Session_session),
{
    let device_id = client.device_branch->0.device_id;
    let groups = all_group_writes(bundle.groups@, device_id);
    let sessions = bundle.dm_sessions@;
    let behind = (groups.len() + sessions.len()) as int;
    let w = import.writes@;
    lemma_readable(bundle.messages@, bundle.groups@);
    lemma_import_is_whole(*client, import, bundle, device_id);
    lemma_behind_groups_and_sessions(w, bundle, device_id);
    assert forall|i: int| 0 <= i < sessions.len() implies is_kept(
        w,
        #[trigger] sessions[i],
        bundle.snapshot_id@,
    ) by {
        assert(keeps_as_it_is(w[groups.len() + i], sessions[i], bundle.snapshot_id@));
    }
    assert forall|k: int| 0 <= k < w.len() && (#[trigger] w[k]) is Session implies sessions.contains(
        w[k]->Session_session,
    ) by {
        if k < groups.len() {
            assert(w.take(groups.len() as int)[k] == w[k]);
            lemma_group_steps_only(bundle.groups@, device_id, k);
        } else if k < behind {
            assert(w[groups.len() + (k - groups.len())] == w[k]);
            assert(sessions[k - groups.len()] == w[k]->Session_session);
        } else {
            lemma_step_behind(w, bundle, device_id, k - behind);
        }
    }
}

/// Each message and each key of such a history is written as it is, and no other message is.
pub proof fn law_announced_messages_are_listed(
    client: &RamfluxClient,
    envelope: &SdkOwnDeviceSyncEnvelope,
    bundle: SdkOwnDeviceHistoryBundle,
    import: HistoryImport,
)
    requires
        client.active_account_db is Some,
        is_for(*client, bundle, *envelope),
        one_each(bundle.groups@),
        forall|i: int|
            0 <= i < bundle.messages@.len() ==> may_read(
                #[trigger] bundle.messages@[i],
                bundle.groups@,
            ),
        call_ensures(
            RamfluxClient::import_own_device_history_bundle,
            (client, envelope, bundle),
            import,
        ),
    ensures
        forall|i: int|
            #![trigger bundle.messages@[i]]
            0 <= i < bundle.messages@.len() ==> import.writes@.contains(
                HistoryWrite::Message(bundle.messages@[i].record),
            ),
        forall|i: int|
            #![trigger bundle.sender_key_distributions_base64@[i]]
            0 <= i < bundle.sender_key_distributions_base64@.len() ==> import.writes@.contains(
                HistoryWrite::SenderKey(bundle.sender_key_distributions_base64@[i]),
            ),
        forall|k: int|
            0 <= k < import.writes@.len() && (#[trigger] import.writes@[k]) is Message
                ==> exists|i: int|
                0 <= i < bundle.messages@.len() && (#[trigger] bundle.messages@[i]).record
                    == import.writes@[k]->Message_0,
{
    let device_id = client.device_branch->0.device_id;
    let groups = all_group_writes(bundle.groups@, device_id);
    let behind = (groups.len() + bundle.dm_sessions@.len()) as int;
    let messages = message_writes(bundle.messages@);
    let w = import.writes@;
    lemma_readable(bundle.messages@, bundle.groups@);
    lemma_import_is_whole(*client, import, bundle, device_id);
    lemma_behind_groups_and_sessions(w, bundle, device_id);
    assert forall|i: int|
        #![trigger bundle.messages@[i]]
        0 <= i < bundle.messages@.len() implies w.contains(
        HistoryWrite::Message(bundle.messages@[i].record),
    ) by {
        lemma_step_behind(w, bundle, device_id, i);
        assert(w[behind + i] == HistoryWrite::Message(bundle.messages@[i].record));
    }
    assert forall|i: int|
        #![trigger bundle.sender_key_distributions_base64@[i]]
        0 <= i < bundle.sender_key_distributions_base64@.len() implies w.contains(
        HistoryWrite::SenderKey(bundle.sender_key_distributions_base64@[i]),
    ) by {
        let k = messages.len() + i;
        lemma_step_behind(w, bundle, device_id, k);
        assert(w[behind + k] == HistoryWrite::SenderKey(
            bundle.sender_key_distributions_base64@[i],
        ));
    }
    assert forall|k: int| 0 <= k < w.len() && (#[trigger] w[k]) is Message implies exists|i: int|
        0 <= i < bundle.messages@.len() && (#[trigger] bundle.messages@[i]).record
            == w[k]->Message_0 by {
        if k < groups.len() {
            assert(w.take(groups.len() as int)[k] == w[k]);
            lemma_group_steps_only(bundle.groups@, device_id, k);
        } else if k < behind {
            assert(w[groups.len() + (k - groups.len())] is Session);
        } else {
            lemma_step_behind(w, bundle, device_id, k - behind);
            assert(bundle.messages@[k - behind].record == w[k]->Message_0);
        }
    }
}

/// Whether a step keeps a session as it is.
pub open spec fn keeps_as_it_is(
    w: HistoryWrite,
    session: SdkOwnDeviceDmSessionSnapshot,
    snapshot_id: Seq<char>,
) -> bool {
    w matches HistoryWrite::Session { envelope_id, session: kept } && kept == session
        && envelope_id@ == "own-device-sync:"@ + snapshot_id
}

/// Whether one of the steps keeps a session as it is.
pub open spec fn is_kept(
    writes: Seq<HistoryWrite>,
    session: SdkOwnDeviceDmSessionSnapshot,
    snapshot_id: Seq<char>,
) -> bool {
    exists|k: int|
        0 <= k < writes.len() && keeps_as_it_is(#[trigger] writes[k], session, snapshot_id)
}

proof fn lemma_step_behind(
    w: Seq<HistoryWrite>,
    bundle: SdkOwnDeviceHistoryBundle,
    device_id: String,
    i: int,
)
    requires
        takes_in(w, bundle, device_id),
        readable_messages(bundle.messages@, floors_of(bundle.groups@)) == bundle.messages@.len(),
        0 <= i < bundle.messages@.len() + bundle.sender_key_distributions_base64@.len(),
    ensures
        ({
            let behind = all_group_writes(bundle.groups@, device_id).len()
                + bundle.dm_sessions@.len();
            let n = bundle.messages@.len();
            w[behind + i] == if i < n {
                HistoryWrite::Message(bundle.messages@[i].record)
            } else {
                HistoryWrite::SenderKey(bundle.sender_key_distributions_base64@[i - n])
            }
        }),
{
    lemma_behind_groups_and_sessions(w, bundle, device_id);
    let messages = message_writes(bundle.messages@);
    let keys = bundle.sender_key_distributions_base64@.map_values(
        |k: String| HistoryWrite::SenderKey(k),
    );
    let behind = all_group_writes(bundle.groups@, device_id).len() + bundle.dm_sessions@.len();
    assert(w[behind + i] == (messages + keys)[i]);
}

proof fn lemma_behind_groups_and_sessions(
    w: Seq<HistoryWrite>,
    bundle: SdkOwnDeviceHistoryBundle,
    device_id: String,
)
    requires
        takes_in(w, bundle, device_id),
        readable_messages(bundle.messages@, floors_of(bundle.groups@)) == bundle.messages@.len(),
    ensures
        ({
            let behind = all_group_writes(bundle.groups@, device_id).len()
                + bundle.dm_sessions@.len();
            let rest = message_writes(bundle.messages@)
                + bundle.sender_key_distributions_base64@.map_values(
                |k: String| HistoryWrite::SenderKey(k),
            );
            &&& w.len() == behind + rest.len()
            &&& forall|i: int| 0 <= i < rest.len() ==> w[behind + i] == #[trigger] rest[i]
        }),
{
    let behind = (all_group_writes(bundle.groups@, device_id).len()
        + bundle.dm_sessions@.len()) as int;
    let keys = bundle.sender_key_distributions_base64@.map_values(
        |k: String| HistoryWrite::SenderKey(k),
    );
    let rest = message_writes(bundle.messages@) + keys;
    assert(bundle.messages@.take(bundle.messages@.len() as int) =~= bundle.messages@);
    assert(w.len() >= behind);
    assert(w.skip(behind) == rest);
    assert forall|i: int| 0 <= i < rest.len() implies w[behind + i] == #[trigger] rest[i] by {
        assert(w.skip(behind)[i] == w[behind + i]);
    }
}

proof fn lemma_group_steps_only(
    groups: Seq<SdkOwnDeviceGroupSnapshot>,
    device_id: String,
    k: int,
)
    requires
        0 <= k < all_group_writes(groups, device_id).len(),
    ensures
        ({
            let w = all_group_writes(groups, device_id)[k];
            w is Membership || w is Member || w is Route
        }),
    decreases groups.len(),
{
    let before = all_group_writes(groups.drop_last(), device_id);
    if groups.len() > 0 {
        if k < before.len() {
            lemma_group_steps_only(groups.drop_last(), device_id, k);
        } else {
            let g = groups.last();
            let own = group_writes(g, device_id);
            let members = member_writes(g.group_id, g.members@);
            let i = k - before.len();
            assert(all_group_writes(groups, device_id)[k] == own[i]);
            if i > 0 {
                if i <= members.len() {
                    assert(own[i] == members[i - 1]);
                } else {
                    assert(own[i] == route_writes(g.group_id, g.routes@)[i - 1 - members.len()]);
                }
            }
        }
    }
}

proof fn lemma_import_is_whole(
    client: RamfluxClient,
    import: HistoryImport,
    bundle: SdkOwnDeviceHistoryBundle,
    device_id: String,
)
    requires
        client.unlocked(),
        client.is_history_import(import, bundle, device_id),
    ensures
        takes_in(import.writes@, bundle, device_id),
{
}

/// A history that is not the announced one, or is for another device, writes nothing.
pub proof fn law_other_history_writes_nothing(
    client: &RamfluxClient,
    envelope: &SdkOwnDeviceSyncEnvelope,
    bundle: SdkOwnDeviceHistoryBundle,
    import: HistoryImport,
)
    requires
        !is_for(*client, bundle, *envelope),
        call_ensures(
            RamfluxClient::import_own_device_history_bundle,
            (client, envelope, bundle),
            import,
        ),
    ensures
        import.writes@.len() == 0,
        import.outcome is Err,
{
}

/// Whether a write is one of the first messages of a history.
pub open spec fn is_one_before(w: HistoryWrite, messages: Seq<BundledMessage>, i: int) -> bool {
    exists|j: int| 0 <= j < i && w == HistoryWrite::Message((#[trigger] messages[j]).record)
}

/// A history with a message that the identity may not read fails, and that message and what is behind
/// it are not written.
pub proof fn law_unreadable_message_ends_the_import(
    client: &RamfluxClient,
    envelope: &SdkOwnDeviceSyncEnvelope,
    bundle: SdkOwnDeviceHistoryBundle,
    i: int,
    import: HistoryImport,
)
    requires
        one_each(bundle.groups@),
        0 <= i < bundle.messages@.len(),
        !may_read(bundle.messages@[i], bundle.groups@),
        call_ensures(
            RamfluxClient::import_own_device_history_bundle,
            (client, envelope, bundle),
            import,
        ),
    ensures
        import.outcome is Err,
        forall|k: int| 0 <= k < import.writes@.len() ==> !(#[trigger] import.writes@[k] is SenderKey),
        forall|k: int|
            0 <= k < import.writes@.len() && (#[trigger] import.writes@[k]) is Message
                ==> is_one_before(import.writes@[k], bundle.messages@, i),
{
    if is_for(*client, bundle, *envelope) {
        let device_id = client.device_branch->0.device_id;
        let floors = floors_of(bundle.groups@);
        lemma_readable(bundle.messages@, bundle.groups@);
        let readable = readable_messages(bundle.messages@, floors);
        assert(readable < bundle.messages@.len()) by {
            if readable == bundle.messages@.len() {
                assert(may_read(bundle.messages@[i], bundle.groups@));
            }
        }
        let w = choose|w: Seq<HistoryWrite>| #[trigger]
            takes_in(w, bundle, device_id) && if (bundle.groups@.len() > 0
                || bundle.dm_sessions@.len() > 0 || readable > 0) && !client.unlocked() {
                import.writes@.len() == 0 && (import.outcome matches Err(
                    SdkError::AccountDbNotUnlocked,
                ))
            } else {
                import.writes@ == w
            };
        if import.writes@.len() > 0 {
            let groups = all_group_writes(bundle.groups@, device_id);
            let behind = (groups.len() + bundle.dm_sessions@.len()) as int;
            assert(import.writes@ == w);
            assert forall|k: int| 0 <= k < w.len() implies !(#[trigger] w[k] is SenderKey) && (w[k]
                is Message ==> is_one_before(w[k], bundle.messages@, i)) by {
                if k < groups.len() {
                    assert(w.take(groups.len() as int)[k] == w[k]);
                    lemma_group_steps_only(bundle.groups@, device_id, k);
                } else if k < behind {
                    assert(w[groups.len() + (k - groups.len())] is Session);
                } else {
                    assert(w.skip(behind)[k - behind] == w[k]);
                    assert(w[k] == HistoryWrite::Message(bundle.messages@[k - behind].record));
                    assert(k - behind < i) by {
                        if readable > i {
                            assert(may_read(bundle.messages@[i], bundle.groups@));
                        }
                    }
                }
            }
        }
    }
}

// ---- the announcement ----

/// What is signed of an announcement is what it says: who hands over to whom, which snapshot, until
/// when, and where the object and its key are.
pub proof fn law_announcement_is_signed_as_it_is(
    principal_commitment: &str,
    source_device_id: &str,
    target_device_id: &str,
    snapshot_id: &str,
    nonce: String,
    history_ref: SdkDmAttachmentRef,
    now: i64,
    envelope: SdkOwnDeviceSyncEnvelope,
    body: SdkOwnDeviceSyncSigningBody<'_>,
)
    requires
        call_ensures(
            own_device_sync_envelope_to_sign,
            (
                principal_commitment,
                source_device_id,
                target_device_id,
                snapshot_id,
                nonce,
                history_ref,
                now,
            ),
            envelope,
        ),
        call_ensures(own_device_sync_signing_body, (&envelope,), body),
    ensures
        body.principal_commitment@ == principal_commitment@,
        body.source_device_id@ == source_device_id@,
        body.target_device_id@ == target_device_id@,
        body.snapshot_id@ == snapshot_id@,
        body.snapshot_kind@ == "history_bundle"@,
        body.schema@ == "ramflux.sdk.own_device_sync.v1"@,
        body.version == 1,
        body.nonce@ == nonce@,
        body.created_at == now,
        now <= i64::MAX - 3600 ==> body.expires_at == now + 3600,
        body.object_id@ == history_ref.object_id@,
        body.key_slot_conversation_id@ == history_ref.key_slot.conversation_id@,
        body.key_slot_recipient_device_id@ == history_ref.key_slot.recipient_device_id@,
        envelope.history_ref == history_ref,
        envelope.principal_commitment@ == principal_commitment@,
        envelope.source_device_id@ == source_device_id@,
        envelope.target_device_id@ == target_device_id@,
        envelope.snapshot_id@ == snapshot_id@,
        envelope.signed.signing_key_id@ == "device:"@ + source_device_id@,
{
}

/// An announcement is believed by the device it is for, as long as it lives, if its key slot is for
/// that device, that object and that snapshot; and by no other, nor for another identity.
pub proof fn law_announcement_is_believed_exactly_then(
    client: &RamfluxClient,
    expected_principal_commitment: &str,
    envelope: &SdkOwnDeviceSyncEnvelope,
    now: i64,
    r: Result<(), SdkError>,
)
    requires
        call_ensures(
            RamfluxClient::verify_own_device_sync_envelope,
            (client, expected_principal_commitment, envelope, now),
            r,
        ),
    ensures
        r is Ok <==> {
            let slot = envelope.history_ref.key_slot;
            &&& envelope.schema@ == "ramflux.sdk.own_device_sync.v1"@
            &&& envelope.principal_commitment@ == expected_principal_commitment@
            &&& now <= envelope.expires_at
            &&& client.device_branch matches Some(branch) && branch.device_id@
                == envelope.target_device_id@
            &&& slot.recipient_device_id@ == envelope.target_device_id@
            &&& slot.object_id@ == envelope.history_ref.object_id@
            &&& slot.conversation_id@ == "own_device.sync.slot:"@ + envelope.snapshot_id@ + ":"@
                + envelope.history_ref.object_id@ + ":"@ + envelope.target_device_id@
        },
{
}

/// The key that an announcement is checked against is that of the device that hands over, from a
/// manifest that names both devices under the announced identity.
pub proof fn law_announcement_is_checked_against_its_source(
    envelope: &SdkOwnDeviceSyncEnvelope,
    devices: &Vec<CheckedDevice>,
    r: Result<String, SdkError>,
)
    requires
        call_ensures(own_device_sync_signer, (envelope, devices), r),
    ensures
        r matches Ok(key) ==> {
            &&& exists|i: int|
                0 <= i < devices@.len() && (#[trigger] devices@[i]).device.device_id@
                    == envelope.source_device_id@ && key@ == devices@[i].device.branch_public_key@
                    && devices@[i].device.principal_commitment@ == envelope.principal_commitment@
            &&& exists|i: int|
                0 <= i < devices@.len() && (#[trigger] devices@[i]).device.device_id@
                    == envelope.target_device_id@ && devices@[i].device.principal_commitment@
                    == envelope.principal_commitment@
            &&& envelope.signed.signing_key_id@ == "device:"@ + envelope.source_device_id@
        },
        ({
            &&& forall|i: int|
                0 <= i < devices@.len() ==> (#[trigger] devices@[i]).device.principal_commitment@
                    == envelope.principal_commitment@
            &&& exists|i: int|
                0 <= i < devices@.len() && (#[trigger] devices@[i]).device.device_id@
                    == envelope.source_device_id@
            &&& exists|i: int|
                0 <= i < devices@.len() && (#[trigger] devices@[i]).device.device_id@
                    == envelope.target_device_id@
            &&& envelope.signed.signing_key_id@ == "device:"@ + envelope.source_device_id@
        }) ==> r is Ok,
{
    crate::laws::contacts::lemma_device_at(devices@, envelope.source_device_id@);
    crate::laws::contacts::lemma_device_at(devices@, envelope.target_device_id@);
}

/// The message that carries a history's key goes from the device that hands over to the one that takes
/// in, in the conversation that stands for the snapshot, the object and that device.
pub proof fn law_history_key_goes_to_the_target(
    snapshot_id: &str,
    object_id: &str,
    source_principal_id: &str,
    source_device_id: &str,
    target_device_id: &str,
    target_delivery_id: String,
    now: i64,
    message: GatewayDirectMessage,
)
    requires
        call_ensures(
            own_sync_slot_message,
            (
                snapshot_id,
                object_id,
                source_principal_id,
                source_device_id,
                target_device_id,
                target_delivery_id,
                now,
            ),
            message,
        ),
    ensures
        message.conversation_id@ == "own_device.sync.slot:"@ + snapshot_id@ + ":"@ + object_id@
            + ":"@ + target_device_id@,
        message.recipient_device_id matches Some(device) && device@ == target_device_id@,
        message.target_delivery_id@ == target_delivery_id@,
        message.sender_id@ == source_device_id@,
        message.source_principal_id@ == source_principal_id@,
        message.created_at == now,
        message.ttl == 3600,
        message.encrypted_body@.len() == 0,
        message.message_id@ == message.envelope_id@,
        message.envelope_id@ == "own-device.sync.slot:"@ + snapshot_id@,
{
}

/// A history's reference names the object it is stored as, with its hashes and its size, how it is cut,
/// where it lies, and its key slot.
pub proof fn law_history_reference_names_its_object(
    object: &EncryptedObject,
    plan: ChunkPlan,
    relay_endpoint: &str,
    key_slot: SdkObjectKeySlot,
    reference: SdkDmAttachmentRef,
)
    requires
        call_ensures(own_sync_history_ref, (object, plan, relay_endpoint, key_slot), reference),
    ensures
        reference.object_id@ == object.object_id@,
        reference.manifest_hash@ == object.manifest_hash@,
        reference.plaintext_hash@ == object.plaintext_hash@,
        reference.cipher_size == object.ciphertext@.len(),
        reference.chunk_size == plan.chunk_size,
        reference.total_chunks == plan.total_chunks,
        reference.relay_endpoint@ == relay_endpoint@,
        reference.key_slot == key_slot,
        reference.access_grant is None,
        reference.schema@ == "ramflux.sdk.dm_attachment_ref.v1"@,
{
}

/// A snapshot is named by the device that it is of, the one that it is for, and its time.
pub proof fn law_snapshot_is_named_by_its_devices_and_time(
    source: &str,
    target: &str,
    now: i64,
    name: String,
)
    requires
        call_ensures(own_sync_snapshot_id, (source, target, now), name),
    ensures
        name@ == "own-sync:"@ + source@ + ":"@ + target@ + ":"@ + crate::text::decimal_int(
            now as int,
        ),
{
}

// ---- groups and their keys ----

/// Whether a member of a group is told of with its role and the epoch it joined in.
pub open spec fn tells_of(
    s: SdkOwnDeviceGroupMemberSnapshot,
    reading: GroupReading,
    i: int,
) -> bool {
    &&& s.member_id@ == reading.group.members@[i]@
    &&& Some(s.role@) == reading.group.role_of(reading.group.members@[i]@)
    &&& Some(s.joined_epoch) == reading.member_joined_epochs@[i]
}

/// Whether one of the first members of a group is told of.
pub open spec fn tells_of_one(
    s: SdkOwnDeviceGroupMemberSnapshot,
    reading: GroupReading,
    n: nat,
) -> bool {
    exists|i: int| 0 <= i < n && #[trigger] tells_of(s, reading, i)
}

proof fn lemma_members_are_told(
    s: Seq<SdkOwnDeviceGroupMemberSnapshot>,
    reading: GroupReading,
    n: nat,
)
    requires
        lists_members(s, reading.group, reading.member_joined_epochs@, n),
    ensures
        forall|k: int| 0 <= k < s.len() ==> tells_of_one(#[trigger] s[k], reading, n),
        forall|i: int|
            #![trigger reading.group.members@[i]]
            0 <= i < n && reading.group.role_of(reading.group.members@[i]@) is Some
                && reading.member_joined_epochs@[i] is Some ==> exists|k: int|
                0 <= k < s.len() && tells_of(#[trigger] s[k], reading, i),
    decreases n,
{
    if n > 0 {
        let m = (n - 1) as nat;
        let member = reading.group.members@[n - 1];
        if reading.group.role_of(member@) is Some && reading.member_joined_epochs@[n - 1] is Some {
            let rest = s.drop_last();
            lemma_members_are_told(rest, reading, m);
            assert(tells_of(s[s.len() - 1], reading, n - 1));
            assert forall|k: int| 0 <= k < s.len() implies tells_of_one(
                #[trigger] s[k],
                reading,
                n,
            ) by {
                if k < rest.len() {
                    assert(rest[k] == s[k]);
                    let i = choose|i: int| 0 <= i < m && #[trigger] tells_of(rest[k], reading, i);
                    assert(tells_of(s[k], reading, i));
                }
            }
            assert forall|i: int|
                #![trigger reading.group.members@[i]]
                0 <= i < n && reading.group.role_of(reading.group.members@[i]@) is Some
                    && reading.member_joined_epochs@[i] is Some implies exists|k: int|
                0 <= k < s.len() && tells_of(#[trigger] s[k], reading, i) by {
                if i < m {
                    let k = choose|k: int|
                        0 <= k < rest.len() && tells_of(#[trigger] rest[k], reading, i);
                    assert(s[k] == rest[k]);
                }
            }
        } else {
            lemma_members_are_told(s, reading, m);
            assert forall|k: int| 0 <= k < s.len() implies tells_of_one(
                #[trigger] s[k],
                reading,
                n,
            ) by {
                let i = choose|i: int| 0 <= i < m && #[trigger] tells_of(s[k], reading, i);
                assert(tells_of(s[k], reading, i));
            }
        }
    }
}

/// What is told of a group is what was read of it: its settings, what this device is in it, each
/// member that has a role and an epoch, and the routes. A group that this device has no role in, or
/// never joined, is not told of.
pub proof fn law_group_is_told_as_it_was_read(
    reading: GroupReading,
    source_device_id: &str,
    r: Option<SdkOwnDeviceGroupSnapshot>,
)
    requires
        reading.group.well_formed(),
        reading.member_joined_epochs@.len() == reading.group.members@.len(),
        call_ensures(own_device_group_snapshot, (reading, source_device_id), r),
    ensures
        r is Some <==> reading.group.role_of(source_device_id@) is Some
            && reading.local_joined_epoch is Some,
        r matches Some(s) ==> {
            &&& s.group_id@ == reading.group.group_id@
            &&& s.group_epoch == reading.group.group_epoch
            &&& s.max_members == reading.group.max_members
            &&& s.new_member_history@ == reading.group.new_member_history@
            &&& Some(s.local_role@) == reading.group.role_of(source_device_id@)
            &&& Some(s.local_joined_epoch) == reading.local_joined_epoch
            &&& s.routes@ == reading.routes@
            &&& forall|k: int|
                0 <= k < s.members@.len() ==> tells_of_one(
                    #[trigger] s.members@[k],
                    reading,
                    reading.group.members@.len(),
                )
            &&& forall|i: int|
                #![trigger reading.group.members@[i]]
                0 <= i < reading.group.members@.len() && reading.group.role_of(
                    reading.group.members@[i]@,
                ) is Some && reading.member_joined_epochs@[i] is Some ==> exists|k: int|
                    0 <= k < s.members@.len() && tells_of(#[trigger] s.members@[k], reading, i)
        },
{
    if r is Some {
        lemma_members_are_told(r->0.members@, reading, reading.group.members@.len());
    }
}

/// Whether what is told of a group was read of it.
pub open spec fn told_from(
    s: SdkOwnDeviceGroupSnapshot,
    reading: GroupReading,
    source_device_id: Seq<char>,
) -> bool {
    &&& s.group_id@ == reading.group.group_id@
    &&& s.group_epoch == reading.group.group_epoch
    &&& s.max_members == reading.group.max_members
    &&& s.new_member_history@ == reading.group.new_member_history@
    &&& Some(s.local_role@) == reading.group.role_of(source_device_id)
    &&& Some(s.local_joined_epoch) == reading.local_joined_epoch
    &&& s.routes@ == reading.routes@
}

proof fn lemma_groups_are_told(
    s: Seq<SdkOwnDeviceGroupSnapshot>,
    readings: Seq<GroupReading>,
    source: Seq<char>,
    n: nat,
)
    requires
        lists_groups(s, readings, source, n),
        n <= readings.len(),
    ensures
        forall|i: int|
            0 <= i < n && (#[trigger] readings[i]).group.role_of(source) is Some
                && readings[i].local_joined_epoch is Some ==> exists|k: int|
                0 <= k < s.len() && told_from(#[trigger] s[k], readings[i], source),
        forall|k: int|
            0 <= k < s.len() ==> exists|i: int|
                0 <= i < n && told_from(#[trigger] s[k], #[trigger] readings[i], source),
    decreases n,
{
    if n > 0 {
        let m = (n - 1) as nat;
        let handed = readings[n - 1].group.role_of(source) is Some && readings[n
            - 1].local_joined_epoch is Some;
        let rest = if handed {
            s.drop_last()
        } else {
            s
        };
        lemma_groups_are_told(rest, readings, source, m);
        if handed {
            assert(is_group_snapshot(s.last(), readings[n - 1], source));
            assert(told_from(s[s.len() - 1], readings[n - 1], source));
        }
        assert forall|i: int|
            0 <= i < n && (#[trigger] readings[i]).group.role_of(source) is Some
                && readings[i].local_joined_epoch is Some implies exists|k: int|
            0 <= k < s.len() && told_from(#[trigger] s[k], readings[i], source) by {
            if i < m {
                let k = choose|k: int|
                    0 <= k < rest.len() && told_from(#[trigger] rest[k], readings[i], source);
                assert(s[k] == rest[k]);
            }
        }
        assert forall|k: int| 0 <= k < s.len() implies exists|i: int|
            0 <= i < n && told_from(#[trigger] s[k], #[trigger] readings[i], source) by {
            if k < rest.len() {
                assert(rest[k] == s[k]);
                let i = choose|i: int|
                    0 <= i < m && told_from(rest[k], #[trigger] readings[i], source);
                assert(told_from(s[k], readings[i], source));
            }
        }
    }
}

/// Every group that this device has joined is told of, and nothing else is.
pub proof fn law_every_joined_group_is_told(
    readings: Vec<GroupReading>,
    source_device_id: &str,
    r: Vec<SdkOwnDeviceGroupSnapshot>,
)
    requires
        forall|i: int|
            0 <= i < readings@.len() ==> (#[trigger] readings@[i]).group.well_formed()
                && readings@[i].member_joined_epochs@.len() == readings@[i].group.members@.len(),
        call_ensures(own_device_group_snapshots, (readings, source_device_id), r),
    ensures
        forall|i: int|
            0 <= i < readings@.len() && (#[trigger] readings@[i]).group.role_of(
                source_device_id@,
            ) is Some && readings@[i].local_joined_epoch is Some ==> exists|k: int|
                0 <= k < r@.len() && told_from(#[trigger] r@[k], readings@[i], source_device_id@),
        forall|k: int|
            0 <= k < r@.len() ==> exists|i: int|
                0 <= i < readings@.len() && told_from(
                    #[trigger] r@[k],
                    #[trigger] readings@[i],
                    source_device_id@,
                ),
{
    assert forall|i: int| 0 <= i < readings@.len() implies crate::client::own_device_sync::reading_is_whole(
        #[trigger] readings@[i],
    ) by {}
    lemma_groups_are_told(r@, readings@, source_device_id@, readings@.len());
}

/// Whether a key is handed on in the name of its member, for the group and its epoch.
pub open spec fn key_of(
    d: SdkGroupSenderKeyDistribution,
    group: SdkOwnDeviceGroupSnapshot,
    member_id: Seq<char>,
    key: MemberSenderKey,
) -> bool {
    &&& d.group_id@ == group.group_id@
    &&& d.group_key_epoch == group.group_epoch
    &&& d.sender_id@ == member_id
    &&& d.sender_key_seed@ == key.seed@
    &&& d.sender_device_signing_public_key == key.signing_public_key
    &&& d.schema@ == "ramflux.sdk.group_sender_key.distribution.v1"@
    &&& d.version == 1
}

/// Whether a key is that of one of the first members, another than the source.
pub open spec fn key_of_one(
    d: SdkGroupSenderKeyDistribution,
    group: SdkOwnDeviceGroupSnapshot,
    members: Seq<String>,
    keys: Seq<Option<MemberSenderKey>>,
    source: Seq<char>,
    n: nat,
) -> bool {
    exists|i: int|
        0 <= i < n && (#[trigger] members[i])@ != source && keys[i] is Some && key_of(
            d,
            group,
            members[i]@,
            keys[i]->0,
        )
}

proof fn lemma_keys_are_handed_on(
    s: Seq<SdkGroupSenderKeyDistribution>,
    group: SdkOwnDeviceGroupSnapshot,
    members: Seq<String>,
    keys: Seq<Option<MemberSenderKey>>,
    source: Seq<char>,
    n: nat,
)
    requires
        hands_on_members(s, group.group_id@, group.group_epoch, members, keys, source, n),
        n <= members.len(),
        keys.len() == members.len(),
    ensures
        forall|i: int|
            #![trigger members[i]]
            0 <= i < n && members[i]@ != source && keys[i] is Some ==> exists|k: int|
                0 <= k < s.len() && key_of(#[trigger] s[k], group, members[i]@, keys[i]->0),
        forall|k: int|
            0 <= k < s.len() ==> key_of_one(#[trigger] s[k], group, members, keys, source, n),
    decreases n,
{
    if n > 0 {
        let m = (n - 1) as nat;
        let handed = members[n - 1]@ != source && keys[n - 1] is Some;
        let rest = if handed {
            s.drop_last()
        } else {
            s
        };
        lemma_keys_are_handed_on(rest, group, members, keys, source, m);
        if handed {
            assert(hands_on(
                s.last(),
                group.group_id@,
                members[n - 1]@,
                group.group_epoch,
                keys[n - 1]->0,
            ));
            assert(key_of(s[s.len() - 1], group, members[n - 1]@, keys[n - 1]->0));
        }
        assert forall|i: int|
            #![trigger members[i]]
            0 <= i < n && members[i]@ != source && keys[i] is Some implies exists|k: int|
            0 <= k < s.len() && key_of(#[trigger] s[k], group, members[i]@, keys[i]->0) by {
            if i < m {
                let k = choose|k: int|
                    0 <= k < rest.len() && key_of(
                        #[trigger] rest[k],
                        group,
                        members[i]@,
                        keys[i]->0,
                    );
                assert(s[k] == rest[k]);
            }
        }
        assert forall|k: int| 0 <= k < s.len() implies key_of_one(
            #[trigger] s[k],
            group,
            members,
            keys,
            source,
            n,
        ) by {
            if k < rest.len() {
                assert(rest[k] == s[k]);
                let i = choose|i: int|
                    0 <= i < m && (#[trigger] members[i])@ != source && keys[i] is Some && key_of(
                        rest[k],
                        group,
                        members[i]@,
                        keys[i]->0,
                    );
                assert(key_of(s[k], group, members[i]@, keys[i]->0));
            }
        }
    }
}

/// The key of every other member that is known is handed on under that member's name, for the group
/// and its epoch, and no other key is.
pub proof fn law_member_keys_are_handed_on(
    group: &SdkOwnDeviceGroupSnapshot,
    members: &Vec<String>,
    keys: Vec<Option<MemberSenderKey>>,
    source_device_id: &str,
    r: Vec<SdkGroupSenderKeyDistribution>,
)
    requires
        keys@.len() == members@.len(),
        call_ensures(
            member_sender_key_distributions,
            (group, members, keys, source_device_id),
            r,
        ),
    ensures
        forall|i: int|
            #![trigger members@[i]]
            0 <= i < members@.len() && members@[i]@ != source_device_id@ && keys@[i] is Some
                ==> exists|k: int|
                0 <= k < r@.len() && key_of(#[trigger] r@[k], *group, members@[i]@, keys@[i]->0),
        forall|k: int|
            0 <= k < r@.len() ==> key_of_one(
                #[trigger] r@[k],
                *group,
                members@,
                keys@,
                source_device_id@,
                members@.len(),
            ),
{
    lemma_keys_are_handed_on(
        r@,
        *group,
        members@,
        keys@,
        source_device_id@,
        members@.len(),
    );
}

/// Whether a key is among those that are handed on.
pub open spec fn hands_on_key(
    s: Seq<SdkGroupSenderKeyDistribution>,
    own: SdkGroupSenderKeyDistribution,
) -> bool {
    exists|k: int| 0 <= k < s.len() && #[trigger] s[k] == own
}

/// Whether a member's key is among those that are handed on.
pub open spec fn hands_on_key_of(
    s: Seq<SdkGroupSenderKeyDistribution>,
    group: SdkOwnDeviceGroupSnapshot,
    member_id: Seq<char>,
    key: MemberSenderKey,
) -> bool {
    exists|k: int| 0 <= k < s.len() && key_of(#[trigger] s[k], group, member_id, key)
}

/// Whether a name is among the members.
pub open spec fn has_among(members: Seq<String>, name: Seq<char>) -> bool {
    exists|i: int| 0 <= i < members.len() && (#[trigger] members[i])@ == name
}

proof fn lemma_groups_are_handed_on(
    s: Seq<SdkGroupSenderKeyDistribution>,
    groups: Seq<SdkOwnDeviceGroupSnapshot>,
    readings: Seq<GroupKeysReading>,
    source: Seq<char>,
    n: nat,
    g: int,
    m: int,
)
    requires
        hands_on_groups(s, groups, readings, source, n),
        0 <= g < n <= groups.len(),
        readings.len() == groups.len(),
        readings[g].keys@.len() == readings[g].members@.len(),
    ensures
        has_among(readings[g].members@, source) ==> readings[g].own is Ok && hands_on_key(
            s,
            readings[g].own->Ok_0,
        ),
        0 <= m < readings[g].members@.len() && readings[g].members@[m]@ != source
            && readings[g].keys@[m] is Some ==> hands_on_key_of(
            s,
            groups[g],
            readings[g].members@[m]@,
            readings[g].keys@[m]->0,
        ),
    decreases n,
{
    let k = choose|k: int|
        0 <= k <= s.len() && hands_on_groups(
            #[trigger] s.take(k),
            groups,
            readings,
            source,
            (n - 1) as nat,
        ) && hands_on_group(s.skip(k), groups[n - 1], readings[n - 1], source);
    let front = s.take(k);
    let back = s.skip(k);
    assert(crate::group::lists(readings[g].members@, source) == has_among(
        readings[g].members@,
        source,
    ));
    if g < n - 1 {
        lemma_groups_are_handed_on(front, groups, readings, source, (n - 1) as nat, g, m);
        if has_among(readings[g].members@, source) {
            let own = readings[g].own->Ok_0;
            let i = choose|i: int| 0 <= i < front.len() && #[trigger] front[i] == own;
            assert(s[i] == own);
        }
        if 0 <= m < readings[g].members@.len() && readings[g].members@[m]@ != source
            && readings[g].keys@[m] is Some {
            let i = choose|i: int|
                0 <= i < front.len() && key_of(
                    #[trigger] front[i],
                    groups[g],
                    readings[g].members@[m]@,
                    readings[g].keys@[m]->0,
                );
            assert(s[i] == front[i]);
        }
    } else {
        let own: int = if has_among(readings[g].members@, source) {
            1
        } else {
            0
        };
        if own == 1 {
            assert(back[0] == s[k]);
            assert(s[k] == readings[g].own->Ok_0);
        }
        let others = back.skip(own);
        lemma_keys_are_handed_on(
            others,
            groups[g],
            readings[g].members@,
            readings[g].keys@,
            source,
            readings[g].members@.len(),
        );
        if 0 <= m < readings[g].members@.len() && readings[g].members@[m]@ != source
            && readings[g].keys@[m] is Some {
            let name = readings[g].members@[m];
            let i = choose|i: int|
                0 <= i < others.len() && key_of(
                    #[trigger] others[i],
                    groups[g],
                    name@,
                    readings[g].keys@[m]->0,
                );
            assert(s[k + own + i] == others[i]);
        }
    }
}

/// The keys of every group are handed on: the device's own, of each group that it is a member of, and
/// those of the other members that are known; and they are handed on exactly if no key of its own that
/// is needed is missing.
pub proof fn law_keys_of_every_group_are_handed_on(
    groups: &Vec<SdkOwnDeviceGroupSnapshot>,
    readings: Vec<GroupKeysReading>,
    source_device_id: &str,
    r: Result<Vec<SdkGroupSenderKeyDistribution>, SdkError>,
    g: int,
    m: int,
)
    requires
        readings@.len() == groups@.len(),
        forall|i: int|
            0 <= i < readings@.len() ==> (#[trigger] readings@[i]).keys@.len()
                == readings@[i].members@.len(),
        call_ensures(
            own_device_sender_key_distributions,
            (groups, readings, source_device_id),
            r,
        ),
        0 <= g < groups@.len(),
    ensures
        has_among(readings@[g].members@, source_device_id@) && readings@[g].own is Err ==> r is Err,
        r is Err ==> exists|i: int|
            0 <= i < readings@.len() && has_among(
                (#[trigger] readings@[i]).members@,
                source_device_id@,
            ) && readings@[i].own is Err && readings@[i].own->Err_0 == r->Err_0,
        r matches Ok(s) ==> {
            &&& has_among(readings@[g].members@, source_device_id@) ==> readings@[g].own is Ok
                && hands_on_key(s@, readings@[g].own->Ok_0)
            &&& 0 <= m < readings@[g].members@.len() && readings@[g].members@[m]@
                != source_device_id@ && readings@[g].keys@[m] is Some ==> hands_on_key_of(
                s@,
                groups@[g],
                readings@[g].members@[m]@,
                readings@[g].keys@[m]->0,
            )
        },
{
    assert(crate::group::lists(readings@[g].members@, source_device_id@) == has_among(
        readings@[g].members@,
        source_device_id@,
    ));
    if r is Ok {
        assert(!own_key_fails(readings@[g], source_device_id@));
        lemma_groups_are_handed_on(
            r->Ok_0@,
            groups@,
            readings@,
            source_device_id@,
            groups@.len(),
            g,
            m,
        );
    } else {
        let i = choose|i: int|
            0 <= i < readings@.len() && own_key_fails(#[trigger] readings@[i], source_device_id@)
                && readings@[i].own == Err::<SdkGroupSenderKeyDistribution, SdkError>(r->Err_0)
                && forall|j: int|
                0 <= j < i ==> !own_key_fails(#[trigger] readings@[j], source_device_id@);
        assert(crate::group::lists(readings@[i].members@, source_device_id@) == has_among(
            readings@[i].members@,
            source_device_id@,
        ));
    }
}

} // verus!

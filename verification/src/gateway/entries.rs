//! Entries of an inbox: each envelope once, and in the order of the inbox.
use crate::gateway::protocol::GatewayInboxEntry;
use vstd::prelude::*;

verus! {

/// Whether an entry of the list has the envelope.
pub open spec fn has_envelope(entries: Seq<GatewayInboxEntry>, envelope_id: Seq<char>) -> bool {
    exists|i: int|
        0 <= i < entries.len() && (#[trigger] entries[i]).envelope.envelope_id@ == envelope_id
}

/// The entries without those whose envelope came before.
pub open spec fn deduped(entries: Seq<GatewayInboxEntry>) -> Seq<GatewayInboxEntry>
    decreases entries.len(),
{
    if entries.len() == 0 {
        Seq::empty()
    } else {
        let rest = deduped(entries.drop_last());
        if has_envelope(rest, entries.last().envelope.envelope_id@) {
            rest
        } else {
            rest.push(entries.last())
        }
    }
}

fn holds_envelope(entries: &Vec<GatewayInboxEntry>, envelope_id: &String) -> (r: bool)
    ensures
        r == has_envelope(entries@, envelope_id@),
{
    let mut i: usize = 0;
    while i < entries.len()
        invariant
            i <= entries.len(),
            forall|j: int|
                0 <= j < i ==> (#[trigger] entries@[j]).envelope.envelope_id@ != envelope_id@,
        decreases entries.len() - i,
    {
        if entries[i].envelope.envelope_id == *envelope_id {
            assert(entries@[i as int].envelope.envelope_id@ == envelope_id@);
            return true;
        }
        i = i + 1;
    }
    false
}

/// Leaves out the entries whose envelope came before.
pub fn dedup_gateway_entries(entries: Vec<GatewayInboxEntry>) -> (r: Vec<GatewayInboxEntry>)
    ensures
        r@ == deduped(entries@),
{
    let ghost all = entries@;
    let mut rest = entries;
    let mut kept: Vec<GatewayInboxEntry> = Vec::new();
    let ghost mut n: int = 0;
    while rest.len() > 0
        invariant
            0 <= n <= all.len(),
            rest@ == all.skip(n),
            kept@ == deduped(all.take(n)),
        decreases rest.len(),
    {
        let entry = rest.remove(0);
        assert(entry == all[n]);
        assert(all.take(n + 1).drop_last() =~= all.take(n));
        if !holds_envelope(&kept, &entry.envelope.envelope_id) {
            kept.push(entry);
        }
        proof {
            n = n + 1;
        }
        assert(rest@ =~= all.skip(n));
    }
    assert(all.take(n) =~= all);
    kept
}

/// No two entries are left with one envelope, no envelope is lost, and nothing is made up.
pub proof fn law_deduped_keeps_each_envelope_once(entries: Seq<GatewayInboxEntry>)
    ensures
        forall|i: int, j: int|
            0 <= i < j < deduped(entries).len() ==> (#[trigger] deduped(
                entries,
            )[i]).envelope.envelope_id@ != (#[trigger] deduped(entries)[j]).envelope.envelope_id@,
        forall|id: Seq<char>| #[trigger] has_envelope(entries, id) <==> has_envelope(deduped(entries), id),
        forall|i: int|
            0 <= i < deduped(entries).len() ==> entries.contains(#[trigger] deduped(entries)[i]),
    decreases entries.len(),
{
    if entries.len() > 0 {
        let init = entries.drop_last();
        let last = entries.last();
        law_deduped_keeps_each_envelope_once(init);
        let rest = deduped(init);
        let id_last = last.envelope.envelope_id@;
        assert forall|i: int| 0 <= i < deduped(entries).len() implies entries.contains(
            #[trigger] deduped(entries)[i],
        ) by {
            if i < rest.len() {
                assert(init.contains(rest[i]));
                let k = choose|k: int| 0 <= k < init.len() && init[k] == rest[i];
                assert(entries[k] == rest[i]);
            } else {
                assert(entries[entries.len() - 1] == last);
            }
        }
        assert forall|id: Seq<char>| #[trigger] has_envelope(entries, id) implies has_envelope(
            deduped(entries),
            id,
        ) by {
            let i = choose|i: int|
                0 <= i < entries.len() && (#[trigger] entries[i]).envelope.envelope_id@ == id;
            if i < init.len() {
                assert(init[i].envelope.envelope_id@ == id);
                assert(has_envelope(init, id));
                assert(has_envelope(rest, id));
                let k = choose|k: int|
                    0 <= k < rest.len() && (#[trigger] rest[k]).envelope.envelope_id@ == id;
                assert(deduped(entries)[k] == rest[k]);
            } else if !has_envelope(rest, id_last) {
                assert(deduped(entries)[rest.len() as int] == last);
            }
        }
        assert forall|id: Seq<char>| has_envelope(deduped(entries), id) implies #[trigger] has_envelope(
            entries,
            id,
        ) by {
            let d = deduped(entries);
            let i = choose|i: int| 0 <= i < d.len() && (#[trigger] d[i]).envelope.envelope_id@ == id;
            assert(entries.contains(d[i]));
            let k = choose|k: int| 0 <= k < entries.len() && entries[k] == d[i];
            assert(entries[k].envelope.envelope_id@ == id);
        }
        assert forall|i: int, j: int| 0 <= i < j < deduped(entries).len() implies (
        #[trigger] deduped(entries)[i]).envelope.envelope_id@ != (#[trigger] deduped(
            entries,
        )[j]).envelope.envelope_id@ by {
            if j < rest.len() {
                assert(rest[i].envelope.envelope_id@ != rest[j].envelope.envelope_id@);
            } else {
                assert(rest[i] == deduped(entries)[i]);
            }
        }
    }
}

/// Leaving out repeated envelopes a second time changes nothing.
pub proof fn law_dedup_is_idempotent(entries: Seq<GatewayInboxEntry>)
    ensures
        deduped(deduped(entries)) == deduped(entries),
{
    law_deduped_keeps_each_envelope_once(entries);
    lemma_distinct_is_kept(deduped(entries));
}

proof fn lemma_distinct_is_kept(s: Seq<GatewayInboxEntry>)
    requires
        forall|i: int, j: int|
            0 <= i < j < s.len() ==> (#[trigger] s[i]).envelope.envelope_id@ != (
            #[trigger] s[j]).envelope.envelope_id@,
    ensures
        deduped(s) == s,
    decreases s.len(),
{
    if s.len() > 0 {
        let init = s.drop_last();
        assert forall|i: int, j: int| 0 <= i < j < init.len() implies (
        #[trigger] init[i]).envelope.envelope_id@ != (#[trigger] init[j]).envelope.envelope_id@ by {
            assert(s[i].envelope.envelope_id@ != s[j].envelope.envelope_id@);
        }
        lemma_distinct_is_kept(init);
        if has_envelope(init, s.last().envelope.envelope_id@) {
            let i = choose|i: int|
                0 <= i < init.len() && (#[trigger] init[i]).envelope.envelope_id@
                    == s.last().envelope.envelope_id@;
            assert(s[i].envelope.envelope_id@ != s[s.len() - 1].envelope.envelope_id@);
        }
        assert(deduped(s) =~= s);
    } else {
        assert(deduped(s) =~= s);
    }
}

// ---- the order of the inbox ----

/// The place behind all entries whose place in the inbox is not later.
pub open spec fn place_for(sorted: Seq<GatewayInboxEntry>, inbox_seq: u64) -> int
    decreases sorted.len(),
{
    if sorted.len() == 0 || sorted.last().inbox_seq <= inbox_seq {
        sorted.len() as int
    } else {
        place_for(sorted.drop_last(), inbox_seq)
    }
}

/// The entries behind a place in the inbox, in the order of the inbox; those of one place stay in
/// the order in which they came.
pub open spec fn entries_after(entries: Seq<GatewayInboxEntry>, after: u64) -> Seq<GatewayInboxEntry>
    decreases entries.len(),
{
    if entries.len() == 0 {
        Seq::empty()
    } else {
        let rest = entries_after(entries.drop_last(), after);
        if entries.last().inbox_seq > after {
            rest.insert(place_for(rest, entries.last().inbox_seq), entries.last())
        } else {
            rest
        }
    }
}

/// Keeps the entries behind a place in the inbox, and puts them in the order of the inbox.
pub fn pending_entries(entries: Vec<GatewayInboxEntry>, after: u64) -> (r: Vec<GatewayInboxEntry>)
    ensures
        r@ == entries_after(entries@, after),
{
    let ghost all = entries@;
    let mut rest = entries;
    let mut sorted: Vec<GatewayInboxEntry> = Vec::new();
    let ghost mut n: int = 0;
    while rest.len() > 0
        invariant
            0 <= n <= all.len(),
            rest@ == all.skip(n),
            sorted@ == entries_after(all.take(n), after),
        decreases rest.len(),
    {
        let entry = rest.remove(0);
        assert(entry == all[n]);
        assert(all.take(n + 1).drop_last() =~= all.take(n));
        if entry.inbox_seq > after {
            let mut at: usize = sorted.len();
            assert(sorted@.take(at as int) =~= sorted@);
            while at > 0 && sorted[at - 1].inbox_seq > entry.inbox_seq
                invariant
                    at <= sorted.len(),
                    place_for(sorted@, entry.inbox_seq) == place_for(
                        sorted@.take(at as int),
                        entry.inbox_seq,
                    ),
                decreases at,
            {
                assert(sorted@.take(at as int).drop_last() =~= sorted@.take(at - 1));
                assert(sorted@.take(at as int).last() == sorted@[at - 1]);
                at = at - 1;
            }
            if at > 0 {
                assert(sorted@.take(at as int).last() == sorted@[at - 1]);
            }
            sorted.insert(at, entry);
        }
        proof {
            n = n + 1;
        }
        assert(rest@ =~= all.skip(n));
    }
    assert(all.take(n) =~= all);
    sorted
}

/// Whether entries stand in the order of the inbox, all of them behind a place in it.
pub open spec fn in_order_after(s: Seq<GatewayInboxEntry>, after: u64) -> bool {
    &&& forall|i: int| 0 <= i < s.len() ==> (#[trigger] s[i]).inbox_seq > after
    &&& forall|i: int, j: int|
        0 <= i <= j < s.len() ==> (#[trigger] s[i]).inbox_seq <= (#[trigger] s[j]).inbox_seq
}

proof fn lemma_place(sorted: Seq<GatewayInboxEntry>, inbox_seq: u64)
    requires
        forall|i: int, j: int|
            0 <= i <= j < sorted.len() ==> (#[trigger] sorted[i]).inbox_seq <= (
            #[trigger] sorted[j]).inbox_seq,
    ensures
        0 <= place_for(sorted, inbox_seq) <= sorted.len(),
        forall|i: int|
            0 <= i < place_for(sorted, inbox_seq) ==> (#[trigger] sorted[i]).inbox_seq <= inbox_seq,
        forall|i: int|
            place_for(sorted, inbox_seq) <= i < sorted.len() ==> (#[trigger] sorted[i]).inbox_seq
                > inbox_seq,
    decreases sorted.len(),
{
    if sorted.len() > 0 && sorted.last().inbox_seq > inbox_seq {
        let init = sorted.drop_last();
        assert forall|i: int, j: int| 0 <= i <= j < init.len() implies (#[trigger] init[i]).inbox_seq
            <= (#[trigger] init[j]).inbox_seq by {
            assert(sorted[i].inbox_seq <= sorted[j].inbox_seq);
        }
        lemma_place(init, inbox_seq);
        assert forall|i: int| 0 <= i < place_for(sorted, inbox_seq) implies (
        #[trigger] sorted[i]).inbox_seq <= inbox_seq by {
            assert(init[i].inbox_seq <= inbox_seq);
        }
        assert forall|i: int| place_for(sorted, inbox_seq) <= i < sorted.len() implies (
        #[trigger] sorted[i]).inbox_seq > inbox_seq by {
            if i < init.len() {
                assert(init[i].inbox_seq > inbox_seq);
            }
        }
    }
}

/// What is taken up is in the order of the inbox and behind the place that was asked for; and every
/// entry behind that place is taken up, and no other.
pub proof fn law_entries_after_are_in_order(entries: Seq<GatewayInboxEntry>, after: u64)
    ensures
        in_order_after(entries_after(entries, after), after),
        forall|e: GatewayInboxEntry| #[trigger]
            entries_after(entries, after).contains(e) <==> entries.contains(e) && e.inbox_seq > after,
    decreases entries.len(),
{
    if entries.len() > 0 {
        let init = entries.drop_last();
        let last = entries.last();
        law_entries_after_are_in_order(init, after);
        let rest = entries_after(init, after);
        lemma_place(rest, last.inbox_seq);
        let p = place_for(rest, last.inbox_seq);
        let r = entries_after(entries, after);
        if last.inbox_seq > after {
            assert(r =~= rest.insert(p, last));
            assert forall|i: int| 0 <= i < r.len() implies (#[trigger] r[i]).inbox_seq > after by {
                if i < p {
                    assert(r[i] == rest[i]);
                } else if i > p {
                    assert(r[i] == rest[i - 1]);
                }
            }
            assert forall|i: int, j: int| 0 <= i <= j < r.len() implies (#[trigger] r[i]).inbox_seq
                <= (#[trigger] r[j]).inbox_seq by {
                if j < p {
                    assert(r[i] == rest[i] && r[j] == rest[j]);
                } else if j == p {
                    if i < p {
                        assert(r[i] == rest[i]);
                    }
                } else if i < p {
                    assert(r[i] == rest[i] && r[j] == rest[j - 1]);
                } else if i > p {
                    assert(r[i] == rest[i - 1] && r[j] == rest[j - 1]);
                } else {
                    assert(r[j] == rest[j - 1]);
                }
            }
        }
        assert forall|e: GatewayInboxEntry| #[trigger] r.contains(e) implies entries.contains(e)
            && e.inbox_seq > after by {
            let i = choose|i: int| 0 <= i < r.len() && r[i] == e;
            if last.inbox_seq > after && i == p {
                assert(entries[entries.len() - 1] == e);
            } else {
                let k = if last.inbox_seq > after && i > p {
                    i - 1
                } else {
                    i
                };
                assert(rest[k] == e);
                assert(rest.contains(e));
                assert(init.contains(e));
                let m = choose|m: int| 0 <= m < init.len() && init[m] == e;
                assert(entries[m] == e);
            }
        }
        assert forall|e: GatewayInboxEntry| entries.contains(e) && e.inbox_seq > after implies
            #[trigger] r.contains(e) by {
            let m = choose|m: int| 0 <= m < entries.len() && entries[m] == e;
            if m < init.len() {
                assert(init[m] == e);
                assert(init.contains(e));
                assert(rest.contains(e));
                let k = choose|k: int| 0 <= k < rest.len() && rest[k] == e;
                if last.inbox_seq > after {
                    if k < p {
                        assert(r[k] == e);
                    } else {
                        assert(r[k + 1] == e);
                    }
                } else {
                    assert(r[k] == e);
                }
            } else {
                assert(r[p] == e);
            }
        }
    } else {
        assert forall|e: GatewayInboxEntry| entries.contains(e) && e.inbox_seq > after implies
            #[trigger] entries_after(entries, after).contains(e) by {}
    }
}

} // verus!

//! The chunks of an object: where each lies, which are done and which are missing.
use vstd::prelude::*;

verus! {

/// The bytes of chunk `index`, if the object reaches that far.
pub open spec fn slice_of(ciphertext: Seq<u8>, chunk_size: nat, index: nat) -> Option<Seq<u8>> {
    let start = index * chunk_size;
    if start >= ciphertext.len() {
        None
    } else if start + chunk_size > ciphertext.len() {
        Some(ciphertext.subrange(start as int, ciphertext.len() as int))
    } else {
        Some(ciphertext.subrange(start as int, (start + chunk_size) as int))
    }
}

/// The bytes of chunk `chunk_index`, if the object reaches that far.
pub fn ciphertext_slice(ciphertext: &[u8], chunk_size: usize, chunk_index: u32) -> (r: Option<&[u8]>)
    ensures
        match slice_of(ciphertext@, chunk_size as nat, chunk_index as nat) {
            Some(bytes) => r is Some && r->0@ == bytes,
            None => r is None,
        },
{
    let len: usize = ciphertext.len();
    let start: usize = match (chunk_index as usize).checked_mul(chunk_size) {
        Some(start) => start,
        None => {
            return None;
        },
    };
    if start >= len {
        return None;
    }
    let end: usize = if chunk_size > len - start {
        len
    } else {
        start + chunk_size
    };
    Some(vstd::slice::slice_subrange(ciphertext, start, end))
}

/// The bytes that the given chunks hold together.
pub open spec fn bytes_of(ciphertext: Seq<u8>, chunk_size: nat, chunks: Seq<u32>) -> nat
    decreases chunks.len(),
{
    if chunks.len() == 0 {
        0
    } else {
        bytes_of(ciphertext, chunk_size, chunks.drop_last()) + match slice_of(
            ciphertext,
            chunk_size,
            chunks.last() as nat,
        ) {
            Some(bytes) => bytes.len(),
            None => 0,
        }
    }
}

/// A number held at the largest `u64`.
pub open spec fn capped(n: nat) -> u64 {
    if n > u64::MAX {
        u64::MAX
    } else {
        n as u64
    }
}

/// The bytes that the given chunks hold together, held at the largest `u64`.
pub fn resumed_bytes(ciphertext: &Vec<u8>, chunk_size: usize, chunks: &Vec<u32>) -> (r: u64)
    ensures
        r == capped(bytes_of(ciphertext@, chunk_size as nat, chunks@)),
{
    let mut sum: u64 = 0;
    let mut i: usize = 0;
    while i < chunks.len()
        invariant
            i <= chunks.len(),
            sum == capped(bytes_of(ciphertext@, chunk_size as nat, chunks@.take(i as int))),
        decreases chunks.len() - i,
    {
        assert(chunks@.take(i + 1).drop_last() =~= chunks@.take(i as int));
        assert(chunks@.take(i + 1).last() == chunks@[i as int]);
        match ciphertext_slice(ciphertext.as_slice(), chunk_size, chunks[i]) {
            Some(bytes) => {
                sum = sum.saturating_add(bytes.len() as u64);
            },
            None => {},
        }
        i = i + 1;
    }
    assert(chunks@.take(i as int) =~= chunks@);
    sum
}

/// Whether `chunks` names `index`.
pub fn has_chunk(chunks: &Vec<u32>, index: u32) -> (r: bool)
    ensures
        r == chunks@.contains(index),
{
    let mut i: usize = 0;
    while i < chunks.len()
        invariant
            i <= chunks.len(),
            forall|j: int| 0 <= j < i ==> chunks@[j] != index,
        decreases chunks.len() - i,
    {
        if chunks[i] == index {
            return true;
        }
        i = i + 1;
    }
    false
}

/// A copy of a list of chunks.
pub fn copy_chunks(chunks: &Vec<u32>) -> (r: Vec<u32>)
    ensures
        r@ == chunks@,
{
    let mut r: Vec<u32> = Vec::new();
    let mut i: usize = 0;
    while i < chunks.len()
        invariant
            i <= chunks.len(),
            r@ == chunks@.take(i as int),
        decreases chunks.len() - i,
    {
        r.push(chunks[i]);
        i = i + 1;
        assert(chunks@.take(i as int) =~= chunks@.take(i - 1).push(chunks@[i - 1]));
    }
    assert(chunks@.take(i as int) =~= chunks@);
    r
}

// ---- what is done ----

/// Whether the numbers rise, so that none occurs twice.
pub open spec fn ascending(s: Seq<u32>) -> bool {
    forall|i: int, j: int| 0 <= i < j < s.len() ==> s[i] < s[j]
}

/// Whether `r` holds, rising, the numbers of `s` and `x`, and no others.
pub open spec fn is_sorted_with(r: Seq<u32>, s: Seq<u32>, x: u32) -> bool {
    ascending(r) && forall|y: u32| #[trigger] r.contains(y) <==> s.contains(y) || y == x
}

/// Two rising lists of the same numbers are the same list.
pub proof fn law_ascending_is_determined(a: Seq<u32>, b: Seq<u32>)
    requires
        ascending(a),
        ascending(b),
        forall|y: u32| #[trigger] a.contains(y) <==> b.contains(y),
    ensures
        a == b,
    decreases a.len(),
{
    if a.len() == 0 {
        if b.len() > 0 {
            assert(b.contains(b[0]));
            assert(a.contains(b[0]));
        }
        assert(a =~= b);
    } else {
        assert(a.contains(a.last()));
        assert(b.contains(a.last()));
        assert(b.len() > 0);
        assert(b.contains(b.last()));
        assert(a.contains(b.last()));
        assert(a.last() == b.last());
        let a1 = a.drop_last();
        let b1 = b.drop_last();
        assert forall|y: u32| #[trigger] a1.contains(y) implies b1.contains(y) by {
            let i = choose|i: int| 0 <= i < a1.len() && a1[i] == y;
            assert(a[i] == y);
            assert(a.contains(y));
            assert(b.contains(y));
            let j = choose|j: int| 0 <= j < b.len() && b[j] == y;
            assert(y < a.last());
            assert(j < b.len() - 1);
            assert(b1[j] == y);
        }
        assert forall|y: u32| #[trigger] b1.contains(y) implies a1.contains(y) by {
            let i = choose|i: int| 0 <= i < b1.len() && b1[i] == y;
            assert(b[i] == y);
            assert(b.contains(y));
            assert(a.contains(y));
            let j = choose|j: int| 0 <= j < a.len() && a[j] == y;
            assert(y < b.last());
            assert(j < a.len() - 1);
            assert(a1[j] == y);
        }
        law_ascending_is_determined(a1, b1);
        assert(a =~= a1.push(a.last()));
        assert(b =~= b1.push(b.last()));
    }
}

fn insert_sorted(v: &mut Vec<u32>, x: u32)
    requires
        ascending(old(v)@),
    ensures
        is_sorted_with(final(v)@, old(v)@, x),
{
    let mut i: usize = 0;
    while i < v.len() && v[i] < x
        invariant
            v@ == old(v)@,
            ascending(v@),
            i <= v.len(),
            forall|j: int| 0 <= j < i ==> v@[j] < x,
        decreases v.len() - i,
    {
        i = i + 1;
    }
    let ghost before = v@;
    if i < v.len() && v[i] == x {
        assert(before[i as int] == x);
        return;
    }
    v.insert(i, x);
    let ghost after = v@;
    assert(after =~= before.insert(i as int, x));
    assert forall|y: u32| #[trigger] after.contains(y) implies before.contains(y) || y == x by {
        let j = choose|j: int| 0 <= j < after.len() && after[j] == y;
        if j < i {
            assert(before[j] == y);
        } else if j > i {
            assert(before[j - 1] == y);
        }
    }
    assert forall|y: u32| before.contains(y) || y == x implies #[trigger] after.contains(y) by {
        if y == x {
            assert(after[i as int] == x);
        } else {
            let j = choose|j: int| 0 <= j < before.len() && before[j] == y;
            if j < i {
                assert(after[j] == y);
            } else {
                assert(after[j + 1] == y);
            }
        }
    }
}

/// The list of done chunks with one more, sorted, and each named once.
pub fn with_chunk(completed: &Vec<u32>, index: u32) -> (r: Vec<u32>)
    ensures
        is_sorted_with(r@, completed@, index),
{
    let mut r: Vec<u32> = Vec::new();
    let mut i: usize = 0;
    while i < completed.len()
        invariant
            i <= completed.len(),
            ascending(r@),
            forall|y: u32| #[trigger] r@.contains(y) <==> completed@.take(i as int).contains(y),
        decreases completed.len() - i,
    {
        let ghost before = r@;
        let x: u32 = completed[i];
        insert_sorted(&mut r, x);
        assert(completed@.take(i + 1) =~= completed@.take(i as int).push(x));
        assert forall|y: u32| #[trigger] r@.contains(y) <==> completed@.take(i + 1).contains(y) by {
            lemma_push_contains(completed@.take(i as int), x, y);
        }
        i = i + 1;
    }
    assert(completed@.take(i as int) =~= completed@);
    insert_sorted(&mut r, index);
    r
}

proof fn lemma_push_contains(s: Seq<u32>, x: u32, y: u32)
    ensures
        s.push(x).contains(y) <==> s.contains(y) || y == x,
{
    if s.contains(y) {
        let j = choose|j: int| 0 <= j < s.len() && s[j] == y;
        assert(s.push(x)[j] == y);
    }
    if y == x {
        assert(s.push(x)[s.len() as int] == y);
    }
    if s.push(x).contains(y) {
        let j = choose|j: int| 0 <= j < s.push(x).len() && s.push(x)[j] == y;
        if j < s.len() {
            assert(s[j] == y);
        }
    }
}

// ---- what is missing ----

/// The chunks below `total` that are not done, rising.
pub open spec fn missing_of(total: nat, completed: Seq<u32>) -> Seq<u32>
    decreases total,
{
    if total == 0 {
        Seq::empty()
    } else {
        let rest = missing_of((total - 1) as nat, completed);
        if completed.contains((total - 1) as u32) {
            rest
        } else {
            rest.push((total - 1) as u32)
        }
    }
}

/// The chunks below `total` that are not done, rising.
pub fn missing_chunks(total: u32, completed: &Vec<u32>) -> (r: Vec<u32>)
    ensures
        r@ == missing_of(total as nat, completed@),
{
    let mut r: Vec<u32> = Vec::new();
    let mut i: u32 = 0;
    while i < total
        invariant
            i <= total,
            r@ == missing_of(i as nat, completed@),
        decreases total - i,
    {
        if !has_chunk(completed, i) {
            r.push(i);
        }
        i = i + 1;
    }
    r
}

/// A chunk below `total` is either done or missing, never both, and nothing else is missing.
pub proof fn law_done_and_missing_partition(total: u32, completed: Seq<u32>, index: u32)
    ensures
        missing_of(total as nat, completed).contains(index) <==> index < total
            && !completed.contains(index),
        ascending(missing_of(total as nat, completed)),
{
    lemma_missing(total as nat, completed, index);
    lemma_missing_ascending(total as nat, completed);
}

proof fn lemma_missing(total: nat, completed: Seq<u32>, index: u32)
    requires
        total <= u32::MAX,
    ensures
        missing_of(total, completed).contains(index) <==> index < total && !completed.contains(
            index,
        ),
    decreases total,
{
    if total > 0 {
        lemma_missing((total - 1) as nat, completed, index);
        lemma_push_contains(missing_of((total - 1) as nat, completed), (total - 1) as u32, index);
    }
}

proof fn lemma_missing_ascending(total: nat, completed: Seq<u32>)
    requires
        total <= u32::MAX,
    ensures
        ascending(missing_of(total, completed)),
        forall|i: int|
            0 <= i < missing_of(total, completed).len() ==> (#[trigger] missing_of(
                total,
                completed,
            )[i]) < total,
    decreases total,
{
    if total > 0 {
        lemma_missing_ascending((total - 1) as nat, completed);
    }
}

/// Nothing is missing exactly if every chunk below `total` is done.
pub proof fn law_nothing_missing_when_all_done(total: u32, completed: Seq<u32>)
    ensures
        missing_of(total as nat, completed).len() == 0 <==> (forall|i: u32|
            i < total ==> #[trigger] completed.contains(i)),
{
    let m = missing_of(total as nat, completed);
    assert forall|i: u32| m.len() == 0 && i < total implies #[trigger] completed.contains(i) by {
        lemma_missing(total as nat, completed, i);
        if !completed.contains(i) {
            assert(m.contains(i));
        }
    }
    if m.len() > 0 {
        assert(m.contains(m[0]));
        lemma_missing(total as nat, completed, m[0]);
        assert(!completed.contains(m[0]));
    }
}

// ---- what the chunks make together ----

/// The bytes of the chunks that are there, one behind the other.
pub open spec fn joined(chunks: Seq<Option<Vec<u8>>>) -> Seq<u8>
    decreases chunks.len(),
{
    if chunks.len() == 0 {
        Seq::empty()
    } else {
        joined(chunks.drop_last()) + match chunks.last() {
            Some(bytes) => bytes@,
            None => Seq::empty(),
        }
    }
}

/// Whether no chunk is missing.
pub open spec fn all_there(chunks: Seq<Option<Vec<u8>>>) -> bool {
    forall|i: int| 0 <= i < chunks.len() ==> #[trigger] chunks[i] is Some
}

/// Joins the chunks, if none is missing.
pub fn join_chunks(chunks: &Vec<Option<Vec<u8>>>) -> (r: Option<Vec<u8>>)
    ensures
        all_there(chunks@) <==> r is Some,
        r is Some ==> r->0@ == joined(chunks@),
{
    let mut whole: Vec<u8> = Vec::new();
    let mut i: usize = 0;
    while i < chunks.len()
        invariant
            i <= chunks.len(),
            all_there(chunks@.take(i as int)),
            whole@ == joined(chunks@.take(i as int)),
        decreases chunks.len() - i,
    {
        assert(chunks@.take(i + 1).drop_last() =~= chunks@.take(i as int));
        match &chunks[i] {
            Some(bytes) => {
                let mut k: usize = 0;
                let ghost before = whole@;
                while k < bytes.len()
                    invariant
                        k <= bytes.len(),
                        whole@ == before + bytes@.take(k as int),
                    decreases bytes.len() - k,
                {
                    whole.push(bytes[k]);
                    k = k + 1;
                    assert(bytes@.take(k as int) =~= bytes@.take(k - 1).push(bytes@[k - 1]));
                }
                assert(bytes@.take(k as int) =~= bytes@);
                assert(chunks@.take(i + 1).last() == chunks@[i as int]);
                assert(all_there(chunks@.take(i + 1))) by {
                    assert forall|j: int| 0 <= j < i + 1 implies #[trigger] chunks@.take(
                        i + 1,
                    )[j] is Some by {
                        if j < i {
                            assert(chunks@.take(i as int)[j] is Some);
                        }
                    }
                }
            },
            None => {
                assert(chunks@[i as int] is None);
                return None;
            },
        }
        i = i + 1;
    }
    assert(chunks@.take(i as int) =~= chunks@);
    Some(whole)
}

/// Whether two lists of bytes are equal.
pub fn same_bytes(a: &Vec<u8>, b: &Vec<u8>) -> (r: bool)
    ensures
        r == (a@ == b@),
{
    if a.len() != b.len() {
        return false;
    }
    let mut i: usize = 0;
    while i < a.len()
        invariant
            a.len() == b.len(),
            i <= a.len(),
            forall|j: int| 0 <= j < i ==> a@[j] == b@[j],
        decreases a.len() - i,
    {
        if a[i] != b[i] {
            return false;
        }
        i = i + 1;
    }
    assert(a@ =~= b@);
    true
}

/// An object is what its chunks make together, once they reach to its end.
pub proof fn law_slices_make_the_whole(
    ciphertext: Seq<u8>,
    chunk_size: nat,
    chunks: Seq<Option<Vec<u8>>>,
)
    requires
        chunk_size > 0,
        chunks.len() * chunk_size >= ciphertext.len(),
        forall|i: int|
            0 <= i < chunks.len() ==> match slice_of(ciphertext, chunk_size, i as nat) {
                Some(bytes) => #[trigger] chunks[i] is Some && chunks[i]->0@ == bytes,
                None => false,
            },
    ensures
        all_there(chunks),
        joined(chunks) == ciphertext,
{
    assert forall|i: int| 0 <= i < chunks.len() implies #[trigger] chunks[i] is Some by {}
    lemma_joined_prefix(ciphertext, chunk_size, chunks);
    let n = chunks.len();
    if n > 0 {
        assert(joined(chunks) =~= ciphertext);
    } else {
        assert(0 * chunk_size == 0) by (nonlinear_arith);
        assert(joined(chunks) =~= ciphertext);
    }
}

proof fn lemma_joined_prefix(
    ciphertext: Seq<u8>,
    chunk_size: nat,
    chunks: Seq<Option<Vec<u8>>>,
)
    requires
        chunk_size > 0,
        forall|i: int|
            0 <= i < chunks.len() ==> match slice_of(ciphertext, chunk_size, i as nat) {
                Some(bytes) => #[trigger] chunks[i] is Some && chunks[i]->0@ == bytes,
                None => false,
            },
    ensures
        joined(chunks) == ciphertext.take(
            if chunks.len() * chunk_size > ciphertext.len() {
                ciphertext.len() as int
            } else {
                (chunks.len() * chunk_size) as int
            },
        ),
    decreases chunks.len(),
{
    let n = chunks.len();
    if n == 0 {
        assert(0 * chunk_size == 0) by (nonlinear_arith);
        assert(joined(chunks) =~= ciphertext.take(0));
    } else {
        let m = (n - 1) as nat;
        assert forall|i: int| 0 <= i < chunks.drop_last().len() implies match slice_of(
            ciphertext,
            chunk_size,
            i as nat,
        ) {
            Some(bytes) => #[trigger] chunks.drop_last()[i] is Some && chunks.drop_last()[i]->0@
                == bytes,
            None => false,
        } by {
            assert(chunks[i] is Some);
        }
        lemma_joined_prefix(ciphertext, chunk_size, chunks.drop_last());
        assert(n * chunk_size == m * chunk_size + chunk_size) by (nonlinear_arith)
            requires
                n == m + 1,
        ;
        assert(chunks[n - 1] is Some);
        assert(slice_of(ciphertext, chunk_size, m) is Some);
        let start = m * chunk_size;
        assert(start < ciphertext.len());
        if n * chunk_size > ciphertext.len() {
            assert(joined(chunks) =~= ciphertext.take(ciphertext.len() as int));
        } else {
            assert(joined(chunks) =~= ciphertext.take((n * chunk_size) as int));
        }
    }
}

} // verus!

//! Lists of names, in the order of their code points and without repetition.
use crate::text::{chars_of, code_point};
use vstd::prelude::*;

verus! {

/// Whether a text stands before another: by the code points at the first place where they differ, or
/// because it ends where the other goes on.
pub open spec fn text_less(a: Seq<char>, b: Seq<char>) -> bool
    decreases a.len(),
{
    if b.len() == 0 {
        false
    } else if a.len() == 0 {
        true
    } else if a[0] != b[0] {
        (a[0] as nat) < (b[0] as nat)
    } else {
        text_less(a.skip(1), b.skip(1))
    }
}

proof fn lemma_code_points_tell_apart(c: char, d: char)
    ensures
        c as nat == d as nat ==> c == d,
{
}

/// Whether a text stands before another.
pub fn text_before(a: &str, b: &str) -> (r: bool)
    ensures
        r == text_less(a@, b@),
{
    let x = chars_of(a);
    let y = chars_of(b);
    let mut i: usize = 0;
    assert(x@.skip(0) =~= x@);
    assert(y@.skip(0) =~= y@);
    while i < x.len() && i < y.len()
        invariant
            x@ == a@,
            y@ == b@,
            i <= x.len(),
            i <= y.len(),
            text_less(a@, b@) == text_less(x@.skip(i as int), y@.skip(i as int)),
        decreases x.len() - i,
    {
        let p: u32 = code_point(x[i]);
        let q: u32 = code_point(y[i]);
        assert(x@.skip(i as int)[0] == x@[i as int]);
        assert(y@.skip(i as int)[0] == y@[i as int]);
        proof {
            lemma_code_points_tell_apart(x@[i as int], y@[i as int]);
        }
        if p != q {
            return p < q;
        }
        assert(x@[i as int] == y@[i as int]);
        assert(x@.skip(i as int).skip(1) =~= x@.skip(i + 1));
        assert(y@.skip(i as int).skip(1) =~= y@.skip(i + 1));
        i = i + 1;
    }
    i >= x.len() && i < y.len()
}

proof fn lemma_less_irreflexive(a: Seq<char>)
    ensures
        !text_less(a, a),
    decreases a.len(),
{
    if a.len() > 0 {
        lemma_less_irreflexive(a.skip(1));
    }
}

proof fn lemma_less_transitive(a: Seq<char>, b: Seq<char>, c: Seq<char>)
    requires
        text_less(a, b),
        text_less(b, c),
    ensures
        text_less(a, c),
    decreases a.len(),
{
    if a.len() > 0 && b.len() > 0 && c.len() > 0 && a[0] == b[0] && b[0] == c[0] {
        lemma_less_transitive(a.skip(1), b.skip(1), c.skip(1));
    }
}

proof fn lemma_less_total(a: Seq<char>, b: Seq<char>)
    ensures
        text_less(a, b) || text_less(b, a) || a == b,
    decreases a.len(),
{
    if a.len() == 0 || b.len() == 0 {
        if a.len() == 0 && b.len() == 0 {
            assert(a =~= b);
        }
    } else if a[0] != b[0] {
        lemma_code_points_tell_apart(a[0], b[0]);
    } else {
        lemma_less_total(a.skip(1), b.skip(1));
        if a.skip(1) == b.skip(1) {
            assert(a =~= seq![a[0]] + a.skip(1));
            assert(b =~= seq![b[0]] + b.skip(1));
        }
    }
}

/// Whether the names stand in order, so that none occurs twice.
pub open spec fn in_name_order(names: Seq<String>) -> bool {
    forall|i: int, j: int|
        0 <= i < j < names.len() ==> text_less((#[trigger] names[i])@, (#[trigger] names[j])@)
}

/// Whether a name is in the list.
pub open spec fn has_name(names: Seq<String>, name: Seq<char>) -> bool {
    exists|i: int| 0 <= i < names.len() && (#[trigger] names[i])@ == name
}

/// Puts a name into a list at its place, unless it is there.
pub fn insert_name(names: &mut Vec<String>, name: &str)
    requires
        in_name_order(old(names)@),
    ensures
        in_name_order(final(names)@),
        forall|n: Seq<char>| #[trigger]
            has_name(final(names)@, n) <==> has_name(old(names)@, n) || n == name@,
{
    let ghost before = names@;
    let mut i: usize = 0;
    while i < names.len() && text_before(names[i].as_str(), name)
        invariant
            names@ == before,
            i <= names.len(),
            forall|j: int| 0 <= j < i ==> text_less((#[trigger] before[j])@, name@),
        decreases names.len() - i,
    {
        i = i + 1;
    }
    if i < names.len() && crate::text::str_eq(names[i].as_str(), name) {
        assert(before[i as int]@ == name@);
        return ;
    }
    names.insert(i, name.to_owned());
    proof {
        let after = names@;
        assert(after =~= before.insert(i as int, after[i as int]));
        if i < before.len() {
            lemma_less_total(before[i as int]@, name@);
        }
        assert forall|j: int, k: int| 0 <= j < k < after.len() implies text_less(
            (#[trigger] after[j])@,
            (#[trigger] after[k])@,
        ) by {
            if k < i {
                assert(after[j] == before[j] && after[k] == before[k]);
            } else if k == i {
                assert(after[j] == before[j]);
            } else if j < i {
                assert(after[j] == before[j] && after[k] == before[k - 1]);
            } else if j > i {
                assert(after[j] == before[j - 1] && after[k] == before[k - 1]);
            } else {
                assert(after[k] == before[k - 1]);
                if k - 1 > i {
                    assert(text_less(before[i as int]@, before[k - 1]@));
                    lemma_less_transitive(name@, before[i as int]@, before[k - 1]@);
                }
            }
        }
        assert forall|n: Seq<char>| #[trigger]
            has_name(after, n) <==> has_name(before, n) || n == name@ by {
            if has_name(after, n) {
                let k = choose|k: int| 0 <= k < after.len() && (#[trigger] after[k])@ == n;
                if k < i {
                    assert(before[k]@ == n);
                } else if k > i {
                    assert(before[k - 1]@ == n);
                }
            }
            if has_name(before, n) {
                let k = choose|k: int| 0 <= k < before.len() && (#[trigger] before[k])@ == n;
                if k < i {
                    assert(after[k]@ == n);
                } else {
                    assert(after[k + 1]@ == n);
                }
            }
            if n == name@ {
                assert(after[i as int]@ == n);
            }
        }
    }
}

/// A list in order names nothing twice.
pub proof fn law_ordered_names_occur_once(names: Seq<String>, i: int, j: int)
    requires
        in_name_order(names),
        0 <= i < names.len(),
        0 <= j < names.len(),
        names[i]@ == names[j]@,
    ensures
        i == j,
{
    lemma_less_irreflexive(names[i]@);
}

} // verus!

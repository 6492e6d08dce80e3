//! Texts: numbers that are written are read back, cut texts are parts of what they were cut from, and
//! names stand in one order.
use crate::name_list::{insert_name, text_before};
use crate::text::{
    char_is_whitespace, chars_of, code_point, contains, copy_opt, cut_before, decimal_i64,
    decimal_u64, eq_when_lowercased, is_digit, is_whitespace, parse_u64, parse_unsigned, str_eq,
    str_is_blank, strip_prefix, trim, trim_end, trim_start, NumeralError,
};
use vstd::prelude::*;

verus! {

// ---- numbers ----

/// A number is written by its digits, the last one last: below ten it is one character, and from ten on
/// it is the number without its last digit, followed by that digit.
pub proof fn law_number_is_written_by_its_digits(n: u64, tenth: u64, r: String, q: String)
    requires
        tenth == n / 10,
        call_ensures(decimal_u64, (n,), r),
        call_ensures(decimal_u64, (tenth,), q),
    ensures
        n < 10 ==> r@.len() == 1 && r@[0] as nat == 48 + n,
        n >= 10 ==> r@.len() == q@.len() + 1 && r@.drop_last() == q@ && r@.last() as nat == 48 + n
            % 10,
{
    if n >= 10 {
        assert(r@.drop_last() =~= q@);
    }
}

/// A number that is written is read back, and two numbers are never written alike.
pub proof fn law_written_number_is_read_back(
    n: u64,
    r: String,
    text: &str,
    read: Option<u64>,
    m: u64,
    other: String,
)
    requires
        call_ensures(decimal_u64, (n,), r),
        call_ensures(decimal_u64, (m,), other),
        text@ == r@,
        call_ensures(parse_u64, (text,), read),
    ensures
        read == Some(n),
        r@ == other@ ==> n == m,
{
    crate::text::law_decimal_round_trip(n);
    if r@ == other@ {
        crate::text::law_decimal_injective(n as nat, m as nat);
    }
}

/// A number below zero is written as a minus and its size, and every other as its size.
pub proof fn law_sign_stands_first(n: i64, size: u64, r: String, q: String)
    requires
        n >= 0 ==> size == n,
        n < 0 ==> size == -n,
        call_ensures(decimal_i64, (n,), r),
        call_ensures(decimal_u64, (size,), q),
    ensures
        n >= 0 ==> r@ == q@,
        n < 0 ==> r@ == "-"@ + q@,
{
}

/// A text is read as a number exactly if it is digits behind at most one plus, at least one of them,
/// and not more than the greatest that is allowed.
pub proof fn law_number_is_read_exactly_then(
    text: &str,
    digits: Seq<char>,
    max: u64,
    r: Result<u64, NumeralError>,
)
    requires
        text@ == digits || text@ == seq!['+'] + digits,
        digits.len() > 0 ==> digits[0] != '+',
        call_ensures(parse_unsigned, (text, max), r),
    ensures
        r is Ok <==> digits.len() > 0 && (forall|i: int|
            0 <= i < digits.len() ==> is_digit(#[trigger] digits[i]))
            && crate::text::digits_value(digits) <= max,
        r matches Ok(n) ==> n == crate::text::digits_value(digits),
        text@.len() == 0 ==> r == Err::<u64, NumeralError>(NumeralError::Empty),
{
    if text@ == seq!['+'] + digits {
        assert(text@.skip(1) =~= digits);
    }
    crate::text::lemma_scanned_digits(digits, max as nat);
}

/// One digit more makes a number ten times as great, and the digit.
pub proof fn law_digit_makes_ten_times_as_great(
    text: &str,
    longer: &str,
    digit: char,
    max: u64,
    r: Result<u64, NumeralError>,
    more: Result<u64, NumeralError>,
)
    requires
        text@.len() > 0,
        text@[0] != '+',
        is_digit(digit),
        longer@ == text@.push(digit),
        call_ensures(parse_unsigned, (text, max), r),
        call_ensures(parse_unsigned, (longer, max), more),
    ensures
        r matches Ok(n) ==> {
            let next = n * 10 + (digit as int - 48);
            &&& more is Ok <==> next <= max
            &&& more matches Ok(m) ==> m == next
            &&& more is Err ==> more->Err_0 is TooLarge
        },
        r matches Err(e) ==> more == Err::<u64, NumeralError>(e),
{
    assert(longer@.drop_last() =~= text@);
    assert(longer@[0] == text@[0]);
    assert(crate::text::unsigned_digits(longer@) == longer@);
    assert(crate::text::unsigned_digits(text@) == text@);
}

// ---- characters and texts ----

/// Texts are alike exactly if their characters are; a copy is alike; and a character is known by its
/// number.
pub proof fn law_texts_are_their_characters(
    a: &str,
    b: &str,
    same: bool,
    v: Vec<char>,
    c: char,
    p: u32,
    s: &Option<String>,
    copy: Option<String>,
)
    requires
        call_ensures(str_eq, (a, b), same),
        call_ensures(chars_of, (a,), v),
        call_ensures(code_point, (c,), p),
        call_ensures(copy_opt, (s,), copy),
    ensures
        same <==> a@ == b@,
        v@ == a@,
        p as nat == c as nat,
        copy == *s,
{
}

/// White space is the space, the five characters from the tab to the carriage return, and, behind the
/// letters of English, the spaces and line ends of other scripts; a text is blank exactly if it holds
/// nothing else.
pub proof fn law_white_space_is_what_it_is(c: char, r: bool, s: &str, blank: bool)
    requires
        call_ensures(char_is_whitespace, (c,), r),
        call_ensures(str_is_blank, (s,), blank),
    ensures
        (c as nat) < 128 ==> (r <==> c as nat == 32 || 9 <= c as nat <= 13),
        c as nat >= 128 ==> (r <==> c as nat == 0x85 || c as nat == 0xa0 || c as nat == 0x1680
            || 0x2000 <= c as nat <= 0x200a || 0x2028 <= c as nat <= 0x2029 || c as nat == 0x202f
            || c as nat == 0x205f || c as nat == 0x3000),
        blank <==> forall|i: int| 0 <= i < s@.len() ==> is_whitespace(#[trigger] s@[i]),
{
}

proof fn lemma_trimmed_start(s: Seq<char>)
    ensures
        ({
            let t = crate::text::trimmed_start(s);
            let n = s.len() - t.len();
            &&& 0 <= n <= s.len()
            &&& t == s.skip(n)
            &&& forall|i: int| 0 <= i < n ==> is_whitespace(#[trigger] s[i])
            &&& t.len() > 0 ==> !is_whitespace(t[0])
        }),
    decreases s.len(),
{
    if s.len() > 0 && is_whitespace(s[0]) {
        let rest = s.skip(1);
        lemma_trimmed_start(rest);
        let t = crate::text::trimmed_start(rest);
        let n = rest.len() - t.len();
        assert(rest.skip(n) =~= s.skip(n + 1));
        assert forall|i: int| 0 <= i < n + 1 implies is_whitespace(#[trigger] s[i]) by {
            if i > 0 {
                assert(rest[i - 1] == s[i]);
            }
        }
    } else {
        assert(s.skip(0) =~= s);
    }
}

proof fn lemma_trimmed_end(s: Seq<char>)
    ensures
        ({
            let t = crate::text::trimmed_end(s);
            &&& t.len() <= s.len()
            &&& t == s.take(t.len() as int)
            &&& forall|i: int| t.len() <= i < s.len() ==> is_whitespace(#[trigger] s[i])
            &&& t.len() > 0 ==> !is_whitespace(t.last())
        }),
    decreases s.len(),
{
    if s.len() > 0 && is_whitespace(s.last()) {
        let rest = s.drop_last();
        lemma_trimmed_end(rest);
        let t = crate::text::trimmed_end(rest);
        assert(rest.take(t.len() as int) =~= s.take(t.len() as int));
        assert forall|i: int| t.len() <= i < s.len() implies is_whitespace(#[trigger] s[i]) by {
            if i < rest.len() {
                assert(rest[i] == s[i]);
            }
        }
    } else {
        assert(s.take(s.len() as int) =~= s);
    }
}

/// What is trimmed at a side is a part of the text; what is gone was white space, and what is left
/// has none at that side.
pub proof fn law_only_white_space_is_trimmed(s: &str, front: &str, back: &str)
    requires
        call_ensures(trim_start, (s,), front),
        call_ensures(trim_end, (s,), back),
    ensures
        front@.len() <= s@.len() && back@.len() <= s@.len(),
        front@ == s@.skip(s@.len() - front@.len()),
        forall|i: int| 0 <= i < s@.len() - front@.len() ==> is_whitespace(#[trigger] s@[i]),
        front@.len() > 0 ==> !is_whitespace(front@[0]),
        back@ == s@.take(back@.len() as int),
        forall|i: int| back@.len() <= i < s@.len() ==> is_whitespace(#[trigger] s@[i]),
        back@.len() > 0 ==> !is_whitespace(back@.last()),
{
    lemma_trimmed_start(s@);
    lemma_trimmed_end(s@);
}

/// What is trimmed at both sides is what is trimmed at the one and then at the other.
pub proof fn law_trim_is_both_sides(s: &str, r: &str, front: &str, both: &str)
    requires
        call_ensures(trim, (s,), r),
        call_ensures(trim_start, (s,), front),
        call_ensures(trim_end, (front,), both),
    ensures
        r@ == both@,
        r@.len() > 0 ==> !is_whitespace(r@[0]) && !is_whitespace(r@.last()),
{
    lemma_trimmed_start(s@);
    lemma_trimmed_end(front@);
}

/// A prefix is taken off exactly if the text begins with it; what is left follows it.
pub proof fn law_prefix_is_taken_off(s: &str, p: &str, r: Option<&str>)
    requires
        call_ensures(strip_prefix, (s, p), r),
    ensures
        r matches Some(rest) ==> s@ == p@ + rest@,
        r is None ==> forall|rest: Seq<char>| s@ != #[trigger] (p@ + rest),
{
    if r is None {
        assert forall|rest: Seq<char>| s@ != #[trigger] (p@ + rest) by {
            if s@ == p@ + rest {
                assert(s@.subrange(0, p@.len() as int) =~= p@);
                assert(crate::text::starts_with(s@, p@));
            }
        }
    }
}

/// A text holds another exactly if it is something, the other, and something.
pub proof fn law_held_text_stands_somewhere(s: &str, p: &str, r: bool)
    requires
        call_ensures(contains, (s, p), r),
    ensures
        forall|a: Seq<char>, b: Seq<char>| s@ == #[trigger] (a + p@ + b) ==> r,
        r ==> exists|a: Seq<char>, b: Seq<char>| s@ == #[trigger] (a + p@ + b),
{
    assert forall|a: Seq<char>, b: Seq<char>| s@ == #[trigger] (a + p@ + b) implies r by {
        assert(s@.subrange(a.len() as int, (a.len() + p@.len()) as int) =~= p@);
        assert(crate::text::stands_at(s@, p@, a.len() as int));
    }
    if r {
        let i = choose|i: int| crate::text::stands_at(s@, p@, i);
        let a = s@.take(i);
        let b = s@.skip(i + p@.len());
        assert(s@ =~= a + p@ + b);
    }
}

/// A text is cut before the first of a character: what is left holds none, and is all of the text if
/// the text holds none.
pub proof fn law_text_is_cut_before_the_first(s: &str, c: char, r: &str)
    requires
        call_ensures(cut_before, (s, c), r),
    ensures
        r@.len() <= s@.len(),
        r@ == s@.take(r@.len() as int),
        forall|i: int| 0 <= i < r@.len() ==> #[trigger] r@[i] != c,
        r@.len() < s@.len() ==> s@[r@.len() as int] == c,
{
    lemma_cut(s@, c);
}

proof fn lemma_cut(s: Seq<char>, c: char)
    ensures
        ({
            let r = crate::text::before_char(s, c);
            &&& r.len() <= s.len()
            &&& r == s.take(r.len() as int)
            &&& forall|i: int| 0 <= i < r.len() ==> #[trigger] r[i] != c
            &&& r.len() < s.len() ==> s[r.len() as int] == c
        }),
    decreases s.len(),
{
    if s.len() > 0 && s[0] != c {
        let rest = s.skip(1);
        lemma_cut(rest, c);
        let q = crate::text::before_char(rest, c);
        let r = crate::text::before_char(s, c);
        assert(r.len() == q.len() + 1);
        assert(r =~= s.take(r.len() as int)) by {
            assert forall|i: int| 0 <= i < r.len() implies r[i] == s[i] by {
                if i > 0 {
                    assert(q[i - 1] == rest[i - 1]);
                }
            }
        }
        assert forall|i: int| 0 <= i < r.len() implies #[trigger] r[i] != c by {
            if i > 0 {
                assert(r[i] == q[i - 1]);
            }
        }
    } else {
        assert(s.take(0) =~= Seq::<char>::empty());
    }
}

/// Whether a character is another one, or the small letter of it.
pub open spec fn is_small_of(small: char, c: char) -> bool {
    if 65 <= c as nat <= 90 {
        small as nat == c as nat + 32
    } else {
        small == c
    }
}

/// Two texts are alike but for capitals exactly if they are as long and each character of the one is
/// that of the other, or the small letter of it.
pub proof fn law_capitals_do_not_count(s: &str, lower: &str, r: bool)
    requires
        call_ensures(eq_when_lowercased, (s, lower), r),
    ensures
        r <==> s@.len() == lower@.len() && forall|i: int|
            0 <= i < s@.len() ==> is_small_of(#[trigger] lower@[i], s@[i]),
{
    let t = crate::text::ascii_lowercase(s@);
    assert(t.len() == s@.len());
    assert forall|i: int| 0 <= i < s@.len() implies t[i] == crate::text::ascii_lower(s@[i]) by {}
    if r {
        assert forall|i: int| 0 <= i < s@.len() implies is_small_of(#[trigger] lower@[i], s@[i]) by {
            assert(lower@[i] == t[i]);
        }
    } else if s@.len() == lower@.len() && forall|i: int|
        0 <= i < s@.len() ==> is_small_of(#[trigger] lower@[i], s@[i]) {
        assert forall|i: int| 0 <= i < s@.len() implies t[i] == lower@[i] by {
            assert(is_small_of(lower@[i], s@[i]));
            lemma_known_by_number(t[i], lower@[i]);
        }
        assert(t =~= lower@);
    }
}

proof fn lemma_known_by_number(c: char, d: char)
    ensures
        c as nat == d as nat ==> c == d,
{
}

// ---- names in order ----

/// A text stands before another by the first character in which they differ, and before every text that
/// it begins.
pub proof fn law_first_difference_decides(
    a: &str,
    b: &str,
    r: bool,
    back: bool,
    same: Seq<char>,
    c: char,
    d: char,
    x: Seq<char>,
    y: Seq<char>,
)
    requires
        call_ensures(text_before, (a, b), r),
        call_ensures(text_before, (b, a), back),
    ensures
        a@ == same + seq![c] + x && b@ == same + seq![d] + y && (c as nat) < (d as nat) ==> r
            && !back,
        a@ == same && b@ == same + seq![d] + y ==> r && !back,
        a@ == b@ ==> !r && !back,
{
    if a@ == same + seq![c] + x && b@ == same + seq![d] + y && (c as nat) < (d as nat) {
        lemma_difference(same, c, d, x, y);
    }
    if a@ == same && b@ == same + seq![d] + y {
        lemma_beginning(same, d, y);
    }
    if a@ == b@ {
        lemma_not_before_itself(a@);
    }
}

proof fn lemma_difference(same: Seq<char>, c: char, d: char, x: Seq<char>, y: Seq<char>)
    requires
        (c as nat) < (d as nat),
    ensures
        crate::name_list::text_less(same + seq![c] + x, same + seq![d] + y),
        !crate::name_list::text_less(same + seq![d] + y, same + seq![c] + x),
    decreases same.len(),
{
    let a = same + seq![c] + x;
    let b = same + seq![d] + y;
    if same.len() > 0 {
        let rest = same.skip(1);
        lemma_difference(rest, c, d, x, y);
        assert(a.skip(1) =~= rest + seq![c] + x);
        assert(b.skip(1) =~= rest + seq![d] + y);
        assert(a[0] == b[0]);
    } else {
        assert(a[0] == c && b[0] == d);
    }
}

proof fn lemma_beginning(same: Seq<char>, d: char, y: Seq<char>)
    ensures
        crate::name_list::text_less(same, same + seq![d] + y),
        !crate::name_list::text_less(same + seq![d] + y, same),
    decreases same.len(),
{
    let b = same + seq![d] + y;
    if same.len() > 0 {
        let rest = same.skip(1);
        lemma_beginning(rest, d, y);
        assert(b.skip(1) =~= rest + seq![d] + y);
        assert(same[0] == b[0]);
    }
}

proof fn lemma_not_before_itself(a: Seq<char>)
    ensures
        !crate::name_list::text_less(a, a),
    decreases a.len(),
{
    if a.len() > 0 {
        lemma_not_before_itself(a.skip(1));
    }
}

/// Whether a name is in a list.
pub open spec fn in_list(names: Seq<String>, name: Seq<char>) -> bool {
    exists|i: int| 0 <= i < names.len() && (#[trigger] names[i])@ == name
}

/// A name that is put into a list in order is in it, with every name that was, and no other; no name is
/// in it twice.
pub proof fn law_name_is_put_in_once(names: &mut Vec<String>, name: &str, n: Seq<char>)
    requires
        call_ensures(insert_name, (names, name), ()),
    ensures
        in_list(final(names)@, n) <==> in_list(old(names)@, n) || n == name@,
        forall|i: int, j: int|
            0 <= i < j < final(names)@.len() ==> (#[trigger] final(names)@[i])@ != (
            #[trigger] final(names)@[j])@,
{
    assert(crate::name_list::has_name(final(names)@, n) <==> crate::name_list::has_name(
        old(names)@,
        n,
    ) || n == name@);
    assert(in_list(final(names)@, n) == crate::name_list::has_name(final(names)@, n));
    assert(in_list(old(names)@, n) == crate::name_list::has_name(old(names)@, n));
    assert forall|i: int, j: int| 0 <= i < j < final(names)@.len() implies (
    #[trigger] final(names)@[i])@ != (#[trigger] final(names)@[j])@ by {
        if final(names)@[i]@ == final(names)@[j]@ {
            lemma_not_before_itself(final(names)@[i]@);
        }
    }
}

} // verus!

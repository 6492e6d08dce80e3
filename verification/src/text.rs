//! Text: decimal numerals, white space, prefixes and substrings.
use vstd::prelude::*;

verus! {

/// The characters of `s`, in order.
pub fn chars_of(s: &str) -> (v: Vec<char>)
    ensures
        v@ == s@,
{
    let n: usize = s.unicode_len();
    let mut v: Vec<char> = Vec::new();
    let mut i: usize = 0;
    while i < n
        invariant
            n == s@.len(),
            i <= n,
            v@ == s@.take(i as int),
        decreases n - i,
    {
        v.push(s.get_char(i));
        i = i + 1;
        assert(s@.take(i as int) =~= s@.take(i - 1).push(s@[i - 1]));
    }
    assert(s@.take(n as int) =~= s@);
    v
}

/// The code point of a character.
pub fn code_point(c: char) -> (p: u32)
    ensures
        p as nat == c as nat,
{
    c as u32
}

/// Whether two strings hold the same characters.
pub fn str_eq(a: &str, b: &str) -> (r: bool)
    ensures
        r == (a@ == b@),
{
    a.to_owned() == b.to_owned()
}

/// A copy of an optional string.
pub fn copy_opt(s: &Option<String>) -> (r: Option<String>)
    ensures
        r == *s,
{
    match s {
        Some(text) => Some(text.clone()),
        None => None,
    }
}

/// The view of an optional string.
pub open spec fn opt_view(s: Option<String>) -> Option<Seq<char>> {
    match s {
        Some(text) => Some(text@),
        None => None,
    }
}

// ---- decimal numerals ----

/// The numeral of a single decimal digit.
pub open spec fn digit_char(d: nat) -> char {
    (48 + d) as char
}

/// The decimal numeral of a natural number, without leading zeros.
pub open spec fn decimal(n: nat) -> Seq<char>
    decreases n,
{
    if n < 10 {
        seq![digit_char(n)]
    } else {
        decimal(n / 10).push(digit_char(n % 10))
    }
}

/// The decimal numeral of an integer, with a minus sign in front of a negative one.
pub open spec fn decimal_int(n: int) -> Seq<char> {
    if n < 0 {
        "-"@ + decimal((-n) as nat)
    } else {
        decimal(n as nat)
    }
}

fn digit_str(d: u64) -> (r: &'static str)
    requires
        d < 10,
    ensures
        r@ == seq![digit_char(d as nat)],
{
    proof {
        reveal_strlit("0");
        reveal_strlit("1");
        reveal_strlit("2");
        reveal_strlit("3");
        reveal_strlit("4");
        reveal_strlit("5");
        reveal_strlit("6");
        reveal_strlit("7");
        reveal_strlit("8");
        reveal_strlit("9");
    }
    let r: &'static str = if d == 0 {
        "0"
    } else if d == 1 {
        "1"
    } else if d == 2 {
        "2"
    } else if d == 3 {
        "3"
    } else if d == 4 {
        "4"
    } else if d == 5 {
        "5"
    } else if d == 6 {
        "6"
    } else if d == 7 {
        "7"
    } else if d == 8 {
        "8"
    } else {
        "9"
    };
    assert(r@ =~= seq![digit_char(d as nat)]);
    r
}

/// The decimal numeral of `n`.
pub fn decimal_u64(n: u64) -> (r: String)
    ensures
        r@ == decimal(n as nat),
    decreases n,
{
    if n < 10 {
        digit_str(n).to_owned()
    } else {
        let mut r = decimal_u64(n / 10);
        r.append(digit_str(n % 10));
        assert(decimal((n / 10) as nat) + seq![digit_char((n % 10) as nat)] =~= decimal(
            (n / 10) as nat,
        ).push(digit_char((n % 10) as nat)));
        r
    }
}

/// The decimal numeral of a signed number.
pub fn decimal_i64(n: i64) -> (r: String)
    ensures
        r@ == decimal_int(n as int),
{
    if n < 0 {
        let m: u64 = (-(n + 1)) as u64 + 1;
        let mut r = "-".to_owned();
        let digits = decimal_u64(m);
        r.append(digits.as_str());
        r
    } else {
        decimal_u64(n as u64)
    }
}

/// Whether `c` is one of the ten ASCII digits.
pub open spec fn is_digit(c: char) -> bool {
    48 <= c as nat <= 57
}

/// Whether `s` is made of ASCII digits alone.
pub open spec fn all_digits(s: Seq<char>) -> bool {
    forall|i: int| 0 <= i < s.len() ==> is_digit(#[trigger] s[i])
}

/// The number that a row of digits denotes.
pub open spec fn digits_value(s: Seq<char>) -> nat
    decreases s.len(),
{
    if s.len() == 0 {
        0
    } else {
        (digits_value(s.drop_last()) * 10 + (s.last() as nat - 48)) as nat
    }
}

/// What is left of a numeral behind an optional plus sign.
pub open spec fn unsigned_digits(s: Seq<char>) -> Seq<char> {
    if s.len() > 0 && s[0] == '+' {
        s.skip(1)
    } else {
        s
    }
}

/// Why a numeral is not an unsigned number.
#[derive(Clone, Copy, Debug, PartialEq, Eq, Structural)]
pub enum NumeralError {
    /// There is nothing to read.
    Empty,
    /// A character is not a digit.
    InvalidDigit,
    /// The number is larger than the largest that fits.
    TooLarge,
}

/// The unsigned number that a numeral denotes: an optional plus sign and digits, at most `max`.
/// A character that is not a digit is reported only if it comes before the number grew past `max`.
pub open spec fn parsed_unsigned(s: Seq<char>, max: nat) -> Result<nat, NumeralError> {
    let d = unsigned_digits(s);
    if s.len() == 0 {
        Err(NumeralError::Empty)
    } else if d.len() == 0 {
        Err(NumeralError::InvalidDigit)
    } else {
        scanned_digits(d, max)
    }
}

/// The value of a row of digits, read from the left, or what is met first: a character that is
/// not a digit, or a prefix whose value is larger than `max`.
pub open spec fn scanned_digits(d: Seq<char>, max: nat) -> Result<nat, NumeralError>
    decreases d.len(),
{
    if d.len() == 0 {
        Ok(0)
    } else {
        match scanned_digits(d.drop_last(), max) {
            Err(e) => Err(e),
            Ok(v) => if !is_digit(d.last()) {
                Err(NumeralError::InvalidDigit)
            } else if v * 10 + (d.last() as nat - 48) > max {
                Err(NumeralError::TooLarge)
            } else {
                Ok((v * 10 + (d.last() as nat - 48)) as nat)
            },
        }
    }
}

/// A row of digits that denotes a number up to `max` is read as that number.
pub proof fn lemma_scanned_digits(d: Seq<char>, max: nat)
    ensures
        all_digits(d) && digits_value(d) <= max <==> scanned_digits(d, max) is Ok,
        scanned_digits(d, max) is Ok ==> scanned_digits(d, max)->Ok_0 == digits_value(d),
    decreases d.len(),
{
    if d.len() > 0 {
        lemma_scanned_digits(d.drop_last(), max);
        assert(d =~= d.drop_last().push(d.last()));
        if all_digits(d) {
            assert forall|i: int| 0 <= i < d.drop_last().len() implies is_digit(
                #[trigger] d.drop_last()[i],
            ) by {
                assert(is_digit(d[i]));
            }
            assert(is_digit(d[d.len() - 1]));
            assert(digits_value(d.drop_last()) <= digits_value(d));
        }
        if all_digits(d.drop_last()) && is_digit(d.last()) {
            assert forall|i: int| 0 <= i < d.len() implies is_digit(#[trigger] d[i]) by {
                if i < d.len() - 1 {
                    assert(is_digit(d.drop_last()[i]));
                }
            }
        }
    }
}

/// What stops the reading of a prefix stops the reading of the whole.
proof fn lemma_scan_error(d: Seq<char>, k: int, max: nat)
    requires
        0 <= k <= d.len(),
        scanned_digits(d.take(k), max) is Err,
    ensures
        scanned_digits(d, max) == scanned_digits(d.take(k), max),
    decreases d.len() - k,
{
    if k == d.len() {
        assert(d.take(k) =~= d);
    } else {
        assert(d.take(k + 1).drop_last() =~= d.take(k));
        lemma_scan_error(d, k + 1, max);
    }
}

/// Reads an unsigned number that is at most `max`.
pub fn parse_unsigned(s: &str, max: u64) -> (r: Result<u64, NumeralError>)
    ensures
        match parsed_unsigned(s@, max as nat) {
            Ok(v) => r is Ok && r->Ok_0 == v,
            Err(e) => r is Err && r->Err_0 == e,
        },
{
    let v = chars_of(s);
    if v.len() == 0 {
        return Err(NumeralError::Empty);
    }
    let start: usize = if v[0] == '+' {
        1
    } else {
        0
    };
    let ghost d = unsigned_digits(s@);
    assert(d =~= s@.skip(start as int));
    if start == v.len() {
        return Err(NumeralError::InvalidDigit);
    }
    let mut i: usize = start;
    let mut value: u64 = 0;
    assert(d.take(0) =~= Seq::<char>::empty());
    while i < v.len()
        invariant
            v@ == s@,
            start <= i <= v.len(),
            start <= 1,
            value <= max,
            d == s@.skip(start as int),
            s@.len() > 0,
            d.len() > 0,
            d == unsigned_digits(s@),
            scanned_digits(d.take(i - start), max as nat) == Ok::<nat, NumeralError>(value as nat),
        decreases v.len() - i,
    {
        let c: char = v[i];
        let ghost k = i - start;
        assert(d.take(k + 1).drop_last() =~= d.take(k));
        assert(d.take(k + 1).last() == c);
        let p: u32 = code_point(c);
        if p < 48 || p > 57 {
            proof {
                lemma_scan_error(d, k + 1, max as nat);
            }
            return Err(NumeralError::InvalidDigit);
        }
        let next: u128 = value as u128 * 10 + (p - 48) as u128;
        if next > max as u128 {
            proof {
                lemma_scan_error(d, k + 1, max as nat);
            }
            return Err(NumeralError::TooLarge);
        }
        value = next as u64;
        i = i + 1;
    }
    assert(d.take(d.len() as int) =~= d);
    Ok(value)
}

/// The `u64` that a numeral denotes, if it denotes one.
pub open spec fn parsed_u64(s: Seq<char>) -> Option<u64> {
    match parsed_unsigned(s, u64::MAX as nat) {
        Ok(v) => Some(v as u64),
        Err(_) => None,
    }
}

/// Reads a `u64`.
pub fn parse_u64(s: &str) -> (r: Option<u64>)
    ensures
        r == parsed_u64(s@),
{
    match parse_unsigned(s, u64::MAX) {
        Ok(v) => Some(v),
        Err(_) => None,
    }
}

/// A decimal numeral is made of digits, and denotes its number.
pub proof fn lemma_decimal_digits(n: nat)
    ensures
        decimal(n).len() > 0,
        all_digits(decimal(n)),
        digits_value(decimal(n)) == n,
    decreases n,
{
    if n < 10 {
        assert(decimal(n).drop_last() =~= Seq::<char>::empty());
        assert(digits_value(Seq::<char>::empty()) == 0);
    } else {
        lemma_decimal_digits(n / 10);
        assert(decimal(n).drop_last() =~= decimal(n / 10));
        assert forall|i: int| 0 <= i < decimal(n).len() implies is_digit(#[trigger] decimal(n)[i]) by {
            if i < decimal(n / 10).len() {
                assert(is_digit(decimal(n / 10)[i]));
            }
        }
    }
}

/// A number is read back from its decimal numeral.
pub proof fn law_decimal_round_trip(n: u64)
    ensures
        parsed_u64(decimal(n as nat)) == Some(n),
{
    lemma_decimal_digits(n as nat);
    let s = decimal(n as nat);
    assert(is_digit(s[0]));
    assert(unsigned_digits(s) == s);
    lemma_scanned_digits(s, u64::MAX as nat);
}

/// Two numbers with the same decimal numeral are equal.
pub proof fn law_decimal_injective(a: nat, b: nat)
    requires
        decimal(a) == decimal(b),
    ensures
        a == b,
{
    lemma_decimal_digits(a);
    lemma_decimal_digits(b);
}

// ---- white space ----

/// Whether `c` has the Unicode property `White_Space`.
pub open spec fn is_whitespace(c: char) -> bool {
    let p = c as nat;
    ||| 0x9 <= p <= 0xd
    ||| p == 0x20
    ||| p == 0x85
    ||| p == 0xa0
    ||| p == 0x1680
    ||| 0x2000 <= p <= 0x200a
    ||| p == 0x2028
    ||| p == 0x2029
    ||| p == 0x202f
    ||| p == 0x205f
    ||| p == 0x3000
}

/// Tests for the Unicode property `White_Space`.
pub fn char_is_whitespace(c: char) -> (r: bool)
    ensures
        r == is_whitespace(c),
{
    let p: u32 = c as u32;
    (0x9 <= p && p <= 0xd) || p == 0x20 || p == 0x85 || p == 0xa0 || p == 0x1680 || (0x2000 <= p
        && p <= 0x200a) || p == 0x2028 || p == 0x2029 || p == 0x202f || p == 0x205f || p == 0x3000
}

/// Whether `s` holds nothing but white space.
pub open spec fn is_blank(s: Seq<char>) -> bool {
    forall|i: int| 0 <= i < s.len() ==> is_whitespace(#[trigger] s[i])
}

/// Tests whether a string holds nothing but white space.
pub fn str_is_blank(s: &str) -> (r: bool)
    ensures
        r == is_blank(s@),
{
    let v = chars_of(s);
    let mut i: usize = 0;
    while i < v.len()
        invariant
            v@ == s@,
            i <= v.len(),
            is_blank(s@.take(i as int)),
        decreases v.len() - i,
    {
        if !char_is_whitespace(v[i]) {
            assert(!is_whitespace(s@[i as int]));
            return false;
        }
        i = i + 1;
        assert(s@.take(i as int) =~= s@.take(i - 1).push(s@[i - 1]));
    }
    assert(s@.take(i as int) =~= s@);
    true
}

/// `s` without the white space at its start.
pub open spec fn trimmed_start(s: Seq<char>) -> Seq<char>
    decreases s.len(),
{
    if s.len() > 0 && is_whitespace(s[0]) {
        trimmed_start(s.skip(1))
    } else {
        s
    }
}

/// `s` without the white space at its end.
pub open spec fn trimmed_end(s: Seq<char>) -> Seq<char>
    decreases s.len(),
{
    if s.len() > 0 && is_whitespace(s.last()) {
        trimmed_end(s.drop_last())
    } else {
        s
    }
}

/// `s` without the white space at its two ends.
pub open spec fn trimmed(s: Seq<char>) -> Seq<char> {
    trimmed_end(trimmed_start(s))
}

/// Cuts the white space at the start.
pub fn trim_start(s: &str) -> (r: &str)
    ensures
        r@ == trimmed_start(s@),
{
    let v = chars_of(s);
    let mut i: usize = 0;
    assert(s@.skip(0) =~= s@);
    while i < v.len() && char_is_whitespace(v[i])
        invariant
            v@ == s@,
            i <= v.len(),
            trimmed_start(s@) == trimmed_start(s@.skip(i as int)),
        decreases v.len() - i,
    {
        i = i + 1;
        assert(s@.skip(i - 1).skip(1) =~= s@.skip(i as int));
    }
    assert(s@.subrange(i as int, s@.len() as int) =~= s@.skip(i as int));
    s.substring_char(i, v.len())
}

/// Cuts the white space at the end.
pub fn trim_end(s: &str) -> (r: &str)
    ensures
        r@ == trimmed_end(s@),
{
    let v = chars_of(s);
    let mut i: usize = v.len();
    assert(s@.take(s@.len() as int) =~= s@);
    while i > 0 && char_is_whitespace(v[i - 1])
        invariant
            v@ == s@,
            i <= v.len(),
            trimmed_end(s@) == trimmed_end(s@.take(i as int)),
        decreases i,
    {
        i = i - 1;
        assert(s@.take(i + 1).drop_last() =~= s@.take(i as int));
        assert(s@.take(i + 1).last() == s@[i as int]);
    }
    assert(s@.subrange(0, i as int) =~= s@.take(i as int));
    if i > 0 {
        assert(s@.take(i as int).last() == s@[i - 1]);
    }
    s.substring_char(0, i)
}

/// Cuts the white space at the two ends.
pub fn trim(s: &str) -> (r: &str)
    ensures
        r@ == trimmed(s@),
{
    trim_end(trim_start(s))
}

// ---- case ----

/// The lower case of an ASCII letter; any other character as it is.
pub open spec fn ascii_lower(c: char) -> char {
    if 65 <= c as nat <= 90 {
        (c as nat + 32) as char
    } else {
        c
    }
}

/// A string with its ASCII letters in lower case.
pub open spec fn ascii_lowercase(s: Seq<char>) -> Seq<char> {
    s.map_values(|c: char| ascii_lower(c))
}

/// Whether the lower case of `x` is `y`.
fn lowers_to(x: char, y: char) -> (r: bool)
    ensures
        r == (ascii_lower(x) == y),
{
    let p: u32 = x as u32;
    let q: u32 = y as u32;
    assert((y as nat) as char == y);
    if 65 <= p && p <= 90 {
        assert(((x as nat + 32) as char) as nat == x as nat + 32);
        q == p + 32
    } else {
        x == y
    }
}

/// Whether `s`, with its ASCII letters in lower case, is `lower`.
pub fn eq_when_lowercased(s: &str, lower: &str) -> (r: bool)
    ensures
        r == (ascii_lowercase(s@) == lower@),
{
    let a = chars_of(s);
    let b = chars_of(lower);
    if a.len() != b.len() {
        assert(ascii_lowercase(s@).len() != lower@.len());
        return false;
    }
    let mut i: usize = 0;
    while i < a.len()
        invariant
            a@ == s@,
            b@ == lower@,
            a.len() == b.len(),
            i <= a.len(),
            forall|j: int| 0 <= j < i ==> ascii_lower(#[trigger] s@[j]) == lower@[j],
        decreases a.len() - i,
    {
        if !lowers_to(a[i], b[i]) {
            assert(ascii_lowercase(s@)[i as int] == ascii_lower(s@[i as int]));
            return false;
        }
        i = i + 1;
    }
    assert(ascii_lowercase(s@) =~= lower@);
    true
}

// ---- prefixes and substrings ----

/// Whether `p` stands in `s` at position `i`.
pub open spec fn stands_at(s: Seq<char>, p: Seq<char>, i: int) -> bool {
    0 <= i && i + p.len() <= s.len() && s.subrange(i, i + p.len()) == p
}

/// Whether `p` is a prefix of `s`.
pub open spec fn starts_with(s: Seq<char>, p: Seq<char>) -> bool {
    stands_at(s, p, 0)
}

/// Whether `p` occurs in `s`.
pub open spec fn occurs_in(s: Seq<char>, p: Seq<char>) -> bool {
    exists|i: int| #[trigger] stands_at(s, p, i)
}

fn chars_stand_at(v: &Vec<char>, p: &Vec<char>, at: usize) -> (r: bool)
    requires
        at <= v.len(),
    ensures
        r == stands_at(v@, p@, at as int),
{
    if p.len() > v.len() - at {
        return false;
    }
    let mut i: usize = 0;
    while i < p.len()
        invariant
            at + p.len() <= v.len(),
            i <= p.len(),
            forall|j: int| 0 <= j < i ==> v@[at + j] == #[trigger] p@[j],
        decreases p.len() - i,
    {
        if v[at + i] != p[i] {
            assert(v@.subrange(at as int, at + p@.len())[i as int] != p@[i as int]);
            return false;
        }
        i = i + 1;
    }
    assert(v@.subrange(at as int, at + p@.len()) =~= p@);
    true
}

/// What is left of `s` behind the prefix `p`, if `s` starts with it.
pub fn strip_prefix<'a>(s: &'a str, p: &str) -> (r: Option<&'a str>)
    ensures
        starts_with(s@, p@) <==> r is Some,
        r matches Some(rest) ==> rest@ == s@.skip(p@.len() as int) && s@ == p@ + rest@,
{
    let v = chars_of(s);
    let q = chars_of(p);
    if chars_stand_at(&v, &q, 0) {
        assert(s@.subrange(q.len() as int, v.len() as int) =~= s@.skip(p@.len() as int));
        assert(s@ =~= s@.subrange(0, p@.len() as int) + s@.skip(p@.len() as int));
        Some(s.substring_char(q.len(), v.len()))
    } else {
        None
    }
}

/// Whether `p` occurs in `s`.
pub fn contains(s: &str, p: &str) -> (r: bool)
    ensures
        r == occurs_in(s@, p@),
{
    let v = chars_of(s);
    let q = chars_of(p);
    let mut i: usize = 0;
    while i < v.len()
        invariant
            v@ == s@,
            q@ == p@,
            i <= v.len(),
            forall|j: int| 0 <= j < i ==> !#[trigger] stands_at(s@, p@, j),
        decreases v.len() - i,
    {
        if chars_stand_at(&v, &q, i) {
            return true;
        }
        i = i + 1;
    }
    let r = chars_stand_at(&v, &q, v.len());
    assert forall|j: int| #[trigger] stands_at(s@, p@, j) implies r by {
        assert(j <= s@.len());
    }
    r
}

/// The part of `s` in front of the first `c`; the whole of `s` where there is none.
pub open spec fn before_char(s: Seq<char>, c: char) -> Seq<char>
    decreases s.len(),
{
    if s.len() == 0 || s[0] == c {
        Seq::empty()
    } else {
        seq![s[0]] + before_char(s.skip(1), c)
    }
}

proof fn lemma_before_char(s: Seq<char>, c: char, k: int)
    requires
        0 <= k <= s.len(),
        forall|j: int| 0 <= j < k ==> s[j] != c,
        k == s.len() || s[k] == c,
    ensures
        before_char(s, c) == s.take(k),
    decreases k,
{
    if k == 0 {
        assert(s.take(0) =~= Seq::<char>::empty());
    } else {
        lemma_before_char(s.skip(1), c, k - 1);
        assert(seq![s[0]] + s.skip(1).take(k - 1) =~= s.take(k));
    }
}

/// Cuts `s` in front of the first `c`.
pub fn cut_before<'a>(s: &'a str, c: char) -> (r: &'a str)
    ensures
        r@ == before_char(s@, c),
{
    let v = chars_of(s);
    let mut i: usize = 0;
    while i < v.len() && v[i] != c
        invariant
            v@ == s@,
            i <= v.len(),
            forall|j: int| 0 <= j < i ==> s@[j] != c,
        decreases v.len() - i,
    {
        i = i + 1;
    }
    proof {
        lemma_before_char(s@, c, i as int);
    }
    assert(s@.subrange(0, i as int) =~= s@.take(i as int));
    s.substring_char(0, i)
}

// ---- identifiers made of parts ----

/// Two texts that share what stands before and behind one part are equal only if that part is.
pub proof fn law_part_is_bound(before: Seq<char>, a: Seq<char>, b: Seq<char>, behind: Seq<char>)
    requires
        before + a + behind == before + b + behind,
    ensures
        a == b,
{
    let x = before + a + behind;
    let y = before + b + behind;
    assert(x.len() == y.len());
    assert(x.len() == before.len() + a.len() + behind.len());
    assert(y.len() == before.len() + b.len() + behind.len());
    assert(a =~= x.subrange(before.len() as int, (before.len() + a.len()) as int));
    assert(b =~= y.subrange(before.len() as int, (before.len() + b.len()) as int));
}

/// Whether `s` holds no `c`.
pub open spec fn free_of(s: Seq<char>, c: char) -> bool {
    forall|i: int| 0 <= i < s.len() ==> #[trigger] s[i] != c
}

/// A text is cut in one way only at the first separator.
pub proof fn law_first_cut_is_unique(
    a1: Seq<char>,
    b1: Seq<char>,
    a2: Seq<char>,
    b2: Seq<char>,
    c: char,
)
    requires
        free_of(a1, c),
        free_of(a2, c),
        a1 + seq![c] + b1 == a2 + seq![c] + b2,
    ensures
        a1 == a2,
        b1 == b2,
{
    let x = a1 + seq![c] + b1;
    let y = a2 + seq![c] + b2;
    assert(x[a1.len() as int] == c);
    assert(y[a2.len() as int] == c);
    if a1.len() < a2.len() {
        assert(y[a1.len() as int] == a2[a1.len() as int]);
    }
    if a2.len() < a1.len() {
        assert(x[a2.len() as int] == a1[a2.len() as int]);
    }
    assert(a1.len() == a2.len());
    assert forall|i: int| 0 <= i < a1.len() implies a1[i] == a2[i] by {
        assert(x[i] == a1[i] && y[i] == a2[i]);
    }
    assert(a1 =~= a2);
    assert(x.len() == a1.len() + 1 + b1.len());
    assert(y.len() == a2.len() + 1 + b2.len());
    assert forall|i: int| 0 <= i < b1.len() implies b1[i] == b2[i] by {
        assert(x[a1.len() + 1 + i] == b1[i] && y[a2.len() + 1 + i] == b2[i]);
    }
    assert(b1 =~= b2);
}

} // verus!

//! Character-level helpers shared by the library: turning strings into
//! character vectors, substring search, and decimal rendering and parsing.
use vstd::prelude::*;

verus! {

broadcast use vstd::string::group_string_axioms;

/// `needle` occurs in `hay` starting at position `i`.
pub open spec fn occurs_at(hay: Seq<char>, needle: Seq<char>, i: int) -> bool {
    &&& 0 <= i
    &&& i + needle.len() <= hay.len()
    &&& hay.subrange(i, i + needle.len()) == needle
}

/// `needle` is a contiguous part of `hay` (the empty sequence is part of everything).
pub open spec fn contains_seq(hay: Seq<char>, needle: Seq<char>) -> bool {
    exists|i: int| #[trigger] occurs_at(hay, needle, i)
}

/// The characters of a string slice, in order.
pub fn chars_of(s: &str) -> (v: Vec<char>)
    ensures
        v@ == s@,
{
    let mut v: Vec<char> = Vec::new();
    for c in it: s.chars()
        invariant
            v@ == it.seq().take(it.index() as int),
    {
        v.push(c);
    }
    v
}

/// Tells whether `needle` occurs at position `i` of `hay`.
pub fn occurs_at_exec(hay: &Vec<char>, needle: &Vec<char>, i: usize) -> (r: bool)
    ensures
        r == occurs_at(hay@, needle@, i as int),
{
    if i > hay.len() || needle.len() > hay.len() - i {
        return false;
    }
    let mut k: usize = 0;
    while k < needle.len()
        invariant
            i + needle.len() <= hay.len(),
            k <= needle.len(),
            forall|m: int| 0 <= m < k ==> hay@[i + m] == needle@[m],
        decreases needle.len() - k,
    {
        if hay[i + k] != needle[k] {
            assert(hay@.subrange(i as int, i + needle.len())[k as int] != needle@[k as int]);
            return false;
        }
        k = k + 1;
    }
    assert(hay@.subrange(i as int, i + needle.len()) =~= needle@);
    true
}

/// Tells whether `needle` occurs in `hay`.
pub fn vec_contains_seq(hay: &Vec<char>, needle: &Vec<char>) -> (r: bool)
    ensures
        r == contains_seq(hay@, needle@),
{
    if needle.len() > hay.len() {
        assert forall|i: int| !occurs_at(hay@, needle@, i) by {}
        return false;
    }
    let last = hay.len() - needle.len();
    let mut i: usize = 0;
    while i <= last
        invariant_except_break
            i <= last,
        invariant
            last == hay.len() - needle.len(),
            forall|j: int| 0 <= j < i ==> !occurs_at(hay@, needle@, j),
        ensures
            i == last,
            forall|j: int| 0 <= j <= i ==> !occurs_at(hay@, needle@, j),
        decreases last - i,
    {
        if occurs_at_exec(hay, needle, i) {
            assert(occurs_at(hay@, needle@, i as int));
            return true;
        }
        if i == last {
            break;
        }
        i = i + 1;
    }
    assert forall|j: int| !occurs_at(hay@, needle@, j) by {
        if 0 <= j <= last {
            assert(j <= i);
        }
    }
    false
}

/// Tells whether `needle` occurs in `hay`.
pub fn str_contains(hay: &str, needle: &str) -> (r: bool)
    ensures
        r == contains_seq(hay@, needle@),
{
    let h = chars_of(hay);
    let n = chars_of(needle);
    vec_contains_seq(&h, &n)
}

/// What `format!("{:?}", text)` gives for a string: the text in double quotes,
/// with quotes, backslashes and special characters escaped.
pub uninterp spec fn debug_quoted(text: Seq<char>) -> Seq<char>;

/// Renders a string as Rust's `Debug` formatting of strings does; the result
/// is named `debug_quoted` of the text, and depends on the text alone.
#[verifier::external_body]
pub(crate) fn debug_str(text: &str) -> (r: String)
    ensures
        r@ == debug_quoted(text@),
{
    format!("{:?}", text)
}

/// Tells whether two string slices hold the same characters.
pub fn str_eq(a: &str, b: &str) -> (r: bool)
    ensures
        r == (a@ == b@),
{
    let x = a.to_owned();
    let y = b.to_owned();
    x == y
}

/// The value of a sequence of ASCII digits.
pub open spec fn decimal_value(s: Seq<char>) -> int
    decreases s.len(),
{
    if s.len() == 0 {
        0
    } else {
        decimal_value(s.drop_last()) * 10 + (s.last() as int - '0' as int)
    }
}

/// Every character is an ASCII digit.
pub open spec fn all_ascii_digits(s: Seq<char>) -> bool {
    forall|k: int| 0 <= k < s.len() ==> '0' <= #[trigger] s[k] <= '9'
}

/// The digits of an unsigned decimal: the text without its optional leading `+`.
pub open spec fn unsigned_digits(s: Seq<char>) -> Seq<char> {
    if s.len() > 0 && s[0] == '+' {
        s.drop_first()
    } else {
        s
    }
}

/// The number that `str::parse::<u64>` reads from a text, bounded by `max`:
/// an optional `+`, then one or more ASCII digits, for a value of at most `max`.
pub open spec fn parsed_unsigned(s: Seq<char>, max: int) -> Option<int> {
    let d = unsigned_digits(s);
    if d.len() > 0 && all_ascii_digits(d) && decimal_value(d) <= max {
        Some(decimal_value(d))
    } else {
        None
    }
}

proof fn lemma_decimal_value_nonneg(s: Seq<char>)
    requires
        all_ascii_digits(s),
    ensures
        decimal_value(s) >= 0,
    decreases s.len(),
{
    if s.len() > 0 {
        lemma_decimal_value_nonneg(s.drop_last());
    }
}

proof fn lemma_decimal_value_prefix(s: Seq<char>, k: int, n: int)
    requires
        0 <= k <= n <= s.len(),
        all_ascii_digits(s),
    ensures
        decimal_value(s.subrange(0, k)) <= decimal_value(s.subrange(0, n)),
    decreases n - k,
{
    if k < n {
        lemma_decimal_value_prefix(s, k + 1, n);
        assert(s.subrange(0, k + 1).drop_last() =~= s.subrange(0, k));
        lemma_decimal_value_nonneg(s.subrange(0, k));
    }
}

/// Reads an unsigned decimal of at most `max`, as `str::parse` does for
/// unsigned integers.
pub fn parse_unsigned(s: &str, max: u64) -> (r: Option<u64>)
    ensures
        match r {
            Some(v) => parsed_unsigned(s@, max as int) == Some(v as int),
            None => parsed_unsigned(s@, max as int) is None,
        },
{
    let t = chars_of(s);
    let start: usize = if t.len() > 0 && t[0] == '+' { 1 } else { 0 };
    let ghost d = unsigned_digits(s@);
    assert(d =~= t@.subrange(start as int, t@.len() as int));
    if start >= t.len() {
        return None;
    }
    let mut v: u64 = 0;
    let mut k = start;
    while k < t.len()
        invariant
            t@ == s@,
            start <= k <= t@.len(),
            d == t@.subrange(start as int, t@.len() as int),
            d == unsigned_digits(s@),
            all_ascii_digits(d.subrange(0, k - start)),
            v as int == decimal_value(d.subrange(0, k - start)),
            v <= max,
        decreases t.len() - k,
    {
        let c = t[k];
        if !('0' <= c && c <= '9') {
            assert(d[k - start] == c);
            assert(!all_ascii_digits(d));
            return None;
        }
        let digit = (c as u32 - '0' as u32) as u64;
        assert(d.subrange(0, k + 1 - start).drop_last() =~= d.subrange(0, k - start));
        assert(d.subrange(0, k + 1 - start).last() == c);
        let next: u128 = v as u128 * 10 + digit as u128;
        if next > max as u128 {
            proof {
                if all_ascii_digits(d) {
                    lemma_decimal_value_prefix(d, k + 1 - start, d.len() as int);
                    assert(d.subrange(0, d.len() as int) =~= d);
                }
            }
            return None;
        }
        v = next as u64;
        k = k + 1;
    }
    assert(d.subrange(0, d.len() as int) =~= d);
    Some(v)
}

/// `String::push` appends one character to a string (std documents: "Appends
/// the given char to the end of this String").
pub assume_specification[ String::push ](s: &mut String, ch: char)
    ensures
        final(s)@ == old(s)@.push(ch),
;

/// The decimal digit for a value below ten.
pub open spec fn digit_char(d: int) -> char {
    ('0' as int + d) as char
}

/// The decimal rendering of a number, without sign or leading zeros.
pub open spec fn decimal_digits(n: nat) -> Seq<char>
    decreases n,
{
    if n < 10 {
        seq![digit_char(n as int)]
    } else {
        decimal_digits(n / 10).push(digit_char((n % 10) as int))
    }
}

/// Renders a number in decimal.
pub fn decimal_text(n: u64) -> (r: String)
    ensures
        r@ == decimal_digits(n as nat),
{
    let mut digits: Vec<char> = Vec::new();
    let mut m = n;
    while m >= 10
        invariant
            decimal_digits(n as nat) == decimal_digits(m as nat) + digits@,
        decreases m,
    {
        let c = (('0' as u8) + (m % 10) as u8) as char;
        assert(c == digit_char((m % 10) as int));
        let ghost before = digits@;
        digits.insert(0, c);
        assert(decimal_digits(m as nat) == decimal_digits((m / 10) as nat).push(c));
        assert(decimal_digits(m as nat) + before =~= decimal_digits((m / 10) as nat) + digits@);
        m = m / 10;
    }
    let first = (('0' as u8) + m as u8) as char;
    assert(decimal_digits(m as nat) == seq![first]);
    let mut r = String::new();
    r.push(first);
    let mut i: usize = 0;
    while i < digits.len()
        invariant
            i <= digits@.len(),
            r@ == seq![first] + digits@.take(i as int),
        decreases digits.len() - i,
    {
        r.push(digits[i]);
        assert(digits@.take(i + 1) =~= digits@.take(i as int).push(digits@[i as int]));
        assert(r@ =~= seq![first] + digits@.take(i + 1));
        i = i + 1;
    }
    assert(digits@.take(digits.len() as int) =~= digits@);
    r
}

proof fn lemma_decimal_digits(n: nat)
    ensures
        decimal_digits(n).len() > 0,
        all_ascii_digits(decimal_digits(n)),
        decimal_value(decimal_digits(n)) == n,
    decreases n,
{
    if n >= 10 {
        lemma_decimal_digits(n / 10);
        let s = decimal_digits(n / 10);
        let c = digit_char((n % 10) as int);
        assert(s.push(c).drop_last() =~= s);
        assert(c as int == '0' as int + n % 10);
        assert(decimal_value(s.push(c)) == decimal_value(s) * 10 + (c as int - '0' as int));
        assert((n / 10) as int * 10 + n % 10 == n) by (nonlinear_arith);
        assert(decimal_digits(n) == s.push(c));
        assert(decimal_value(s) == n / 10);
        assert(decimal_value(decimal_digits(n)) == n);
        assert forall|k: int| 0 <= k < s.push(c).len() implies '0' <= #[trigger] s.push(c)[k] <= '9' by {
            if k < s.len() {
                assert(s.push(c)[k] == s[k]);
            }
        }
    } else {
        let c = digit_char(n as int);
        assert(seq![c].drop_last() =~= Seq::<char>::empty());
        assert(c as int == '0' as int + n);
        assert(decimal_digits(n) == seq![c]);
        assert(decimal_value(seq![c]) == decimal_value(Seq::<char>::empty()) * 10 + (c as int - '0' as int));
        assert(decimal_value(decimal_digits(n)) == n);
    }
}

/// Law: reading back the decimal rendering of a number gives the number
/// (whenever it is within the bound that the reading allows).
pub proof fn decimal_text_reads_back(n: nat, max: int)
    requires
        n <= max,
    ensures
        parsed_unsigned(decimal_digits(n), max) == Some(n as int),
{
    lemma_decimal_digits(n);
    assert(decimal_digits(n)[0] != '+');
    assert(unsigned_digits(decimal_digits(n)) == decimal_digits(n));
}

} // verus!

//! Chain restoration from the chain head coordinator (CHC): reading the
//! coordinator's "head moved" error, reading a cell's state dump, and the
//! decisions taken on the coordinator's answers.
use vstd::prelude::*;
use crate::admin::{AdminResponse, ExternalApiWireError};
use crate::cells::{id_views, CellId, CellIdView};
use crate::hashes::{action_hash_b64_decoded, decode_action_hash_b64, encode_holo_hash, holo_hash_text};
use crate::text::{chars_of, debug_quoted, debug_str, occurs_at, occurs_at_exec};

verus! {

broadcast use vstd::string::group_string_axioms;

/// An entry as the chain head coordinator stores it: encrypted bytes.
pub struct EncryptedEntry(pub Vec<u8>);

impl From<Vec<u8>> for EncryptedEntry {
    fn from(bytes: Vec<u8>) -> (r: EncryptedEntry)
        ensures
            r.0@ == bytes@,
    {
        EncryptedEntry(bytes)
    }
}

impl vstd::std_specs::convert::FromSpecImpl<Vec<u8>> for EncryptedEntry {
    open spec fn obeys_from_spec() -> bool {
        true
    }

    open spec fn from_spec(v: Vec<u8>) -> EncryptedEntry {
        EncryptedEntry(v)
    }
}

pub open spec fn lit_head_moved() -> Seq<char> {
    seq!['C', 'h', 'c', 'H', 'e', 'a', 'd', 'M', 'o', 'v', 'e', 'd', '(', '\\', '"']
}

pub open spec fn lit_invalid_chain() -> Seq<char> {
    seq!['\\', '"', ',', ' ', 'I', 'n', 'v', 'a', 'l', 'i', 'd', 'C', 'h', 'a', 'i', 'n', '(']
}

pub open spec fn lit_action_hash() -> Seq<char> {
    seq![',', ' ', 'A', 'c', 't', 'i', 'o', 'n', 'H', 'a', 's', 'h', '(']
}

pub open spec fn lit_closing() -> Seq<char> {
    seq![')', ')', ')']
}

pub open spec fn is_ascii_digit(c: char) -> bool {
    '0' <= c <= '9'
}

/// The characters of a base64 (url-safe) hash: `[a-zA-Z0-9-_]`.
pub open spec fn is_hash_char(c: char) -> bool {
    ||| 'a' <= c <= 'z'
    ||| 'A' <= c <= 'Z'
    ||| '0' <= c <= '9'
    ||| c == '-'
    ||| c == '_'
}

/// The first position at or after `a` that holds a double quote (`t.len()` if none).
pub open spec fn first_quote_from(t: Seq<char>, a: int) -> int
    decreases t.len() - a,
{
    if a < 0 || a >= t.len() {
        t.len() as int
    } else if t[a] == '"' {
        a
    } else {
        first_quote_from(t, a + 1)
    }
}

/// The end of the run of ASCII digits that starts at `a`.
pub open spec fn digit_run_end(t: Seq<char>, a: int) -> int
    decreases t.len() - a,
{
    if a < 0 || a >= t.len() || !is_ascii_digit(t[a]) {
        a
    } else {
        digit_run_end(t, a + 1)
    }
}

/// The end of the run of hash characters that starts at `a`.
pub open spec fn hash_run_end(t: Seq<char>, a: int) -> int
    decreases t.len() - a,
{
    if a < 0 || a >= t.len() || !is_hash_char(t[a]) {
        a
    } else {
        hash_run_end(t, a + 1)
    }
}

/// A match, at position `i` of `t`, of the pattern
/// `ChcHeadMoved\(\\"([^"]+)\\", InvalidChain\(([0-9]+), ActionHash\(([a-zA-Z0-9-_]+)\)\)\)`.
/// Gives the bounds of the hash (the third group) and the end of the match.
/// Each group is delimited by a character that it cannot hold, so a match at
/// a given position is unique.
pub open spec fn head_moved_match_at(t: Seq<char>, i: int) -> Option<(int, int, int)> {
    if !occurs_at(t, lit_head_moved(), i) {
        None
    } else {
        let a = i + 15;
        let q = first_quote_from(t, a);
        if !(q < t.len() && q - 1 > a && occurs_at(t, lit_invalid_chain(), q - 1)) {
            None
        } else {
            let b = q + 16;
            let c = digit_run_end(t, b);
            if !(c > b && occurs_at(t, lit_action_hash(), c)) {
                None
            } else {
                let d = c + 13;
                let e = hash_run_end(t, d);
                if !(e > d && occurs_at(t, lit_closing(), e)) {
                    None
                } else {
                    Some((d, e, e + 3))
                }
            }
        }
    }
}

/// The hashes of all matches from position `i` on: leftmost first, each search
/// resuming where the previous match ended.
pub open spec fn head_moved_hashes_from(t: Seq<char>, i: int) -> Seq<Seq<char>>
    decreases t.len() - i,
{
    if i < 0 || i >= t.len() {
        Seq::empty()
    } else {
        match head_moved_match_at(t, i) {
            Some((d, e, end)) => if end > i {
                seq![t.subrange(d, e)] + head_moved_hashes_from(t, end)
            } else {
                Seq::empty()
            },
            None => head_moved_hashes_from(t, i + 1),
        }
    }
}

proof fn lemma_quote_at(t: Seq<char>, a: int, p: int)
    requires
        0 <= a <= p < t.len(),
        forall|k: int| a <= k < p ==> t[k] != '"',
        t[p] == '"',
    ensures
        first_quote_from(t, a) == p,
    decreases p - a,
{
    if a < p {
        lemma_quote_at(t, a + 1, p);
    }
}

proof fn lemma_digit_run_to(t: Seq<char>, a: int, p: int)
    requires
        0 <= a <= p <= t.len(),
        forall|k: int| a <= k < p ==> is_ascii_digit(t[k]),
        p < t.len() ==> !is_ascii_digit(t[p]),
    ensures
        digit_run_end(t, a) == p,
    decreases p - a,
{
    if a < p {
        lemma_digit_run_to(t, a + 1, p);
    }
}

proof fn lemma_hash_run_to(t: Seq<char>, a: int, p: int)
    requires
        0 <= a <= p <= t.len(),
        forall|k: int| a <= k < p ==> is_hash_char(t[k]),
        p < t.len() ==> !is_hash_char(t[p]),
    ensures
        hash_run_end(t, a) == p,
    decreases p - a,
{
    if a < p {
        lemma_hash_run_to(t, a + 1, p);
    }
}

/// The text of one "chain head moved" error as a log renders it: the context
/// (in escaped quotes), the index at which the chains part, and the hash.
pub open spec fn rendered_head_moved(context: Seq<char>, index: Seq<char>, hash: Seq<char>) -> Seq<char> {
    lit_head_moved() + context + lit_invalid_chain() + index + lit_action_hash() + hash + lit_closing()
}

/// Law: from the rendering of one "chain head moved" error, the hash it
/// carries is found, and nothing else: the context is any non-empty text
/// without a double quote, the index any non-empty run of digits, the hash
/// any non-empty run of base64 (URL-safe) characters.
pub proof fn head_moved_hash_is_found(context: Seq<char>, index: Seq<char>, hash: Seq<char>)
    requires
        context.len() > 0,
        forall|k: int| 0 <= k < context.len() ==> context[k] != '"',
        index.len() > 0,
        forall|k: int| 0 <= k < index.len() ==> is_ascii_digit(index[k]),
        hash.len() > 0,
        forall|k: int| 0 <= k < hash.len() ==> is_hash_char(hash[k]),
    ensures
        head_moved_hashes_from(rendered_head_moved(context, index, hash), 0) == seq![hash],
{
    let t = rendered_head_moved(context, index, hash);
    let p1: int = 15 + context.len() as int;
    let p2: int = p1 + 17 + index.len();
    let p3: int = p2 + 13 + hash.len();
    assert(t.len() == p3 + 3);
    assert(t.subrange(0, 15) =~= lit_head_moved());
    assert forall|k: int| 15 <= k < p1 implies t[k] != '"' by {
        assert(t[k] == context[k - 15]);
    }
    assert(t[p1] == '\\');
    assert(t[p1 + 1] == '"');
    lemma_quote_at(t, 15, p1 + 1);
    assert(t.subrange(p1, p1 + 17) =~= lit_invalid_chain());
    assert forall|k: int| p1 + 17 <= k < p2 implies is_ascii_digit(t[k]) by {
        assert(t[k] == index[k - p1 - 17]);
    }
    assert(t[p2] == ',');
    lemma_digit_run_to(t, p1 + 17, p2);
    assert(t.subrange(p2, p2 + 13) =~= lit_action_hash());
    assert forall|k: int| p2 + 13 <= k < p3 implies is_hash_char(t[k]) by {
        assert(t[k] == hash[k - p2 - 13]);
    }
    assert(t[p3] == ')');
    lemma_hash_run_to(t, p2 + 13, p3);
    assert(t.subrange(p3, p3 + 3) =~= lit_closing());
    assert(head_moved_match_at(t, 0) == Some((p2 + 13, p3, p3 + 3)));
    assert(t.subrange(p2 + 13, p3) =~= hash);
    assert(head_moved_hashes_from(t, p3 + 3) =~= Seq::<Seq<char>>::empty());
    assert(seq![hash] + Seq::<Seq<char>>::empty() =~= seq![hash]);
}

proof fn lemma_first_quote(t: Seq<char>, a: int)
    requires
        0 <= a,
    ensures
        a <= first_quote_from(t, a) <= t.len() || (a > t.len() && first_quote_from(t, a) == t.len()),
        first_quote_from(t, a) < t.len() ==> t[first_quote_from(t, a)] == '"',
    decreases t.len() - a,
{
    if a < t.len() && t[a] != '"' {
        lemma_first_quote(t, a + 1);
    }
}

proof fn lemma_digit_run(t: Seq<char>, a: int)
    requires
        0 <= a,
    ensures
        a <= digit_run_end(t, a),
        digit_run_end(t, a) <= t.len() || digit_run_end(t, a) == a,
        forall|k: int| a <= k < digit_run_end(t, a) ==> is_ascii_digit(#[trigger] t[k]),
    decreases t.len() - a,
{
    if a < t.len() && is_ascii_digit(t[a]) {
        lemma_digit_run(t, a + 1);
    }
}

proof fn lemma_hash_run(t: Seq<char>, a: int)
    requires
        0 <= a,
    ensures
        a <= hash_run_end(t, a),
        hash_run_end(t, a) <= t.len() || hash_run_end(t, a) == a,
    decreases t.len() - a,
{
    if a < t.len() && is_hash_char(t[a]) {
        lemma_hash_run(t, a + 1);
    }
}

fn quote_from(t: &Vec<char>, a: usize) -> (r: usize)
    ensures
        r == first_quote_from(t@, a as int),
{
    let mut k = a;
    while k < t.len()
        invariant
            a <= k,
            first_quote_from(t@, a as int) == first_quote_from(t@, k as int),
        decreases t.len() - k,
    {
        if t[k] == '"' {
            return k;
        }
        k = k + 1;
    }
    if k > t.len() {
        return t.len();
    }
    k
}

fn digits_end(t: &Vec<char>, a: usize) -> (r: usize)
    ensures
        r == digit_run_end(t@, a as int),
{
    let mut k = a;
    while k < t.len() && '0' <= t[k] && t[k] <= '9'
        invariant
            a <= k,
            digit_run_end(t@, a as int) == digit_run_end(t@, k as int),
        decreases t.len() - k,
    {
        k = k + 1;
    }
    k
}

fn hash_end(t: &Vec<char>, a: usize) -> (r: usize)
    ensures
        r == hash_run_end(t@, a as int),
{
    let mut k = a;
    while k < t.len() && is_hash_char_exec(t[k])
        invariant
            a <= k,
            hash_run_end(t@, a as int) == hash_run_end(t@, k as int),
        decreases t.len() - k,
    {
        k = k + 1;
    }
    k
}

fn is_hash_char_exec(c: char) -> (r: bool)
    ensures
        r == is_hash_char(c),
{
    ('a' <= c && c <= 'z') || ('A' <= c && c <= 'Z') || ('0' <= c && c <= '9') || c == '-' || c == '_'
}

fn lit_vec(which: u8) -> (r: Vec<char>)
    ensures
        which == 0 ==> r@ == lit_head_moved(),
        which == 1 ==> r@ == lit_invalid_chain(),
        which == 2 ==> r@ == lit_action_hash(),
        which > 2 ==> r@ == lit_closing(),
{
    let r = if which == 0 {
        vec!['C', 'h', 'c', 'H', 'e', 'a', 'd', 'M', 'o', 'v', 'e', 'd', '(', '\\', '"']
    } else if which == 1 {
        vec!['\\', '"', ',', ' ', 'I', 'n', 'v', 'a', 'l', 'i', 'd', 'C', 'h', 'a', 'i', 'n', '(']
    } else if which == 2 {
        vec![',', ' ', 'A', 'c', 't', 'i', 'o', 'n', 'H', 'a', 's', 'h', '(']
    } else {
        vec![')', ')', ')']
    };
    assert(which == 0 ==> r@ =~= lit_head_moved());
    assert(which == 1 ==> r@ =~= lit_invalid_chain());
    assert(which == 2 ==> r@ =~= lit_action_hash());
    assert(which > 2 ==> r@ =~= lit_closing());
    r
}

/// The match of the head-moved pattern at position `i`, if any.
fn match_at(t: &Vec<char>, i: usize) -> (r: Option<(usize, usize, usize)>)
    ensures
        match r {
            Some((d, e, end)) => head_moved_match_at(t@, i as int) == Some((d as int, e as int, end as int)),
            None => head_moved_match_at(t@, i as int) is None,
        },
{
    let l0 = lit_vec(0);
    if !occurs_at_exec(t, &l0, i) {
        return None;
    }
    let n = t.len();
    assert(l0@.len() == 15);
    assert(i + 15 <= n);
    let a = i + 15;
    let q = quote_from(t, a);
    proof {
        lemma_first_quote(t@, a as int);
    }
    let l1 = lit_vec(1);
    if !(q < t.len() && q - 1 > a && occurs_at_exec(t, &l1, q - 1)) {
        return None;
    }
    let b = q + 16;
    let c = digits_end(t, b);
    proof {
        lemma_digit_run(t@, b as int);
    }
    let l2 = lit_vec(2);
    if !(c > b && occurs_at_exec(t, &l2, c)) {
        return None;
    }
    let d = c + 13;
    let e = hash_end(t, d);
    proof {
        lemma_hash_run(t@, d as int);
    }
    let l3 = lit_vec(3);
    if !(e > d && occurs_at_exec(t, &l3, e)) {
        return None;
    }
    Some((d, e, e + 3))
}

/// The action hashes (in base64) that a "chain head moved" error carries, in
/// the order they appear; empty unless the answer is an internal error. The
/// error text is searched in its `Debug` rendering, as the conductor logs it.
pub fn head_moved_hash_texts(response: &Result<AdminResponse, ExternalApiWireError>) -> (r: Vec<String>)
    ensures
        match response {
            Err(ExternalApiWireError::InternalError(err_string)) =>
                r@.map_values(|s: String| s@) == head_moved_hashes_from(debug_quoted(err_string@), 0),
            _ => r@.len() == 0,
        },
        forall|k: int| #![trigger r@[k]] 0 <= k < r@.len() ==> r@[k]@.len() > 0 && is_hash_char(r@[k]@[0]),
{
    match response {
        Err(ExternalApiWireError::InternalError(err_string)) => {
            let rendered = debug_str(err_string.as_str());
            head_moved_hashes_in(rendered.as_str())
        },
        _ => Vec::new(),
    }
}

/// The hashes of all "chain head moved" matches in an error text as it is
/// rendered in a log, in the order they appear.
pub fn head_moved_hashes_in(rendered: &str) -> (r: Vec<String>)
    ensures
        r@.map_values(|s: String| s@) == head_moved_hashes_from(rendered@, 0),
        forall|k: int| #![trigger r@[k]] 0 <= k < r@.len() ==> r@[k]@.len() > 0 && is_hash_char(r@[k]@[0]),
{
    let text = chars_of(rendered);
    let r = scan_hashes(rendered, &text);
    proof {
        lemma_hashes_start_with_hash_char(text@, 0);
        assert forall|k: int| #![trigger r@[k]] 0 <= k < r@.len() implies r@[k]@.len() > 0 && is_hash_char(r@[k]@[0]) by {
            assert(r@.map_values(|s: String| s@)[k] == r@[k]@);
        }
    }
    r
}

proof fn lemma_hashes_start_with_hash_char(t: Seq<char>, i: int)
    requires
        0 <= i,
    ensures
        forall|k: int| #![trigger head_moved_hashes_from(t, i)[k]] 0 <= k < head_moved_hashes_from(t, i).len() ==>
            head_moved_hashes_from(t, i)[k].len() > 0 && is_hash_char(head_moved_hashes_from(t, i)[k][0]),
    decreases t.len() - i,
{
    if i < t.len() {
        match head_moved_match_at(t, i) {
            Some((d, e, end)) => {
                if end > i {
                    lemma_hash_bounds(t, i);
                    lemma_hashes_start_with_hash_char(t, end);
                    assert(is_hash_char(t[d]));
                    let rest = head_moved_hashes_from(t, end);
                    let all = seq![t.subrange(d, e)] + rest;
                    assert(head_moved_hashes_from(t, i) == all);
                    assert forall|k: int| #![trigger all[k]] 0 <= k < all.len() implies all[k].len() > 0 && is_hash_char(all[k][0]) by {
                        if k > 0 {
                            assert(all[k] == rest[k - 1]);
                        }
                    }
                } else {
                    assert(head_moved_hashes_from(t, i) =~= Seq::<Seq<char>>::empty());
                }
            },
            None => {
                lemma_hashes_start_with_hash_char(t, i + 1);
                assert(head_moved_hashes_from(t, i) == head_moved_hashes_from(t, i + 1));
            },
        }
    }
}

/// Why the hashes of a "chain head moved" error could not be read.
#[derive(Debug)]
pub enum HeadMovedError {
    /// This text is not a valid action hash.
    BadActionHash { hash: String },
}

/// The bytes that an outcome of decoding holds, by their view.
pub open spec fn bytes_view(o: Option<Vec<u8>>) -> Option<Seq<u8>> {
    match o {
        Some(b) => Some(b@),
        None => None,
    }
}

/// The position of the first text that did not decode, if any.
pub open spec fn first_undecoded(decoded: Seq<Option<Vec<u8>>>) -> Option<int>
    decreases decoded.len(),
{
    if decoded.len() == 0 {
        None
    } else if decoded[0] is None {
        Some(0)
    } else {
        match first_undecoded(decoded.drop_first()) {
            Some(p) => Some(p + 1),
            None => None,
        }
    }
}

proof fn lemma_first_undecoded(decoded: Seq<Option<Vec<u8>>>)
    ensures
        first_undecoded(decoded) matches Some(p) ==> 0 <= p < decoded.len() && decoded[p] is None
            && forall|q: int| 0 <= q < p ==> #[trigger] decoded[q] is Some,
        first_undecoded(decoded) is None ==> forall|q: int| 0 <= q < decoded.len() ==> #[trigger] decoded[q] is Some,
    decreases decoded.len(),
{
    if decoded.len() > 0 {
        lemma_first_undecoded(decoded.drop_first());
        assert forall|q: int| 1 <= q < decoded.len() implies decoded[q] == decoded.drop_first()[q - 1] by {}
    }
}

/// Collects decoded hashes, as `collect` into a `Result` does: all of them
/// when every text decoded, else an error naming the first text that did not.
/// `decoded[k]` is the outcome of decoding `texts[k]`.
pub fn collect_decoded_hashes(texts: &Vec<String>, decoded: Vec<Option<Vec<u8>>>) -> (r: Result<Vec<Vec<u8>>, HeadMovedError>)
    requires
        decoded@.len() == texts@.len(),
    ensures
        match first_undecoded(decoded@) {
            Some(p) => r matches Err(HeadMovedError::BadActionHash { hash }) && hash@ == texts@[p]@,
            None => r matches Ok(v) && v@.len() == decoded@.len()
                && forall|k: int| #![trigger v@[k]] 0 <= k < v@.len() ==> bytes_view(decoded@[k]) == Some(v@[k]@),
        },
{
    proof {
        lemma_first_undecoded(decoded@);
    }
    let mut out: Vec<Vec<u8>> = Vec::new();
    let mut k: usize = 0;
    let ghost d = decoded@;
    while k < decoded.len()
        invariant
            decoded@.len() == texts@.len(),
            d == decoded@,
            k <= decoded@.len(),
            out@.len() == k,
            forall|q: int| #![trigger out@[q]] 0 <= q < k ==> bytes_view(d[q]) == Some(out@[q]@),
            first_undecoded(d) matches Some(p) ==> 0 <= p < d.len() && d[p] is None
                && forall|q: int| 0 <= q < p ==> #[trigger] d[q] is Some,
            first_undecoded(d) is None ==> forall|q: int| 0 <= q < d.len() ==> #[trigger] d[q] is Some,
        decreases decoded.len() - k,
    {
        match &decoded[k] {
            Some(bytes) => {
                let c = bytes.clone();
                proof {
                    assert(c@ =~= bytes@);
                    assert(d[k as int] == Some(*bytes));
                }
                let ghost prev = out@;
                out.push(c);
                proof {
                    assert forall|q: int| #![trigger out@[q]] 0 <= q < k + 1 implies bytes_view(d[q]) == Some(out@[q]@) by {
                        if q < k {
                            assert(out@[q] == prev[q]);
                        } else {
                            assert(out@[q] == c);
                        }
                    }
                }
            },
            None => {
                proof {
                    match first_undecoded(d) {
                        Some(p) => {
                            if p < k {
                                assert(bytes_view(d[p]) == Some(out@[p]@));
                            } else if p > k {
                                assert(d[k as int] is Some);
                            }
                        },
                        None => {
                            assert(d[k as int] is Some);
                        },
                    }
                }
                return Err(HeadMovedError::BadActionHash { hash: texts[k].clone() });
            },
        }
        k = k + 1;
    }
    proof {
        if let Some(p) = first_undecoded(d) {
            assert(bytes_view(d[p]) == Some(out@[p]@));
        }
    }
    Ok(out)
}

/// The action hashes that a "chain head moved" error carries, each read with
/// holo_hash: `Ok` with none unless the answer is an internal error, and an
/// error naming the first hash text that holo_hash refuses.
pub fn find_chc_head_moved_error_since_hashes(
    response: &Result<AdminResponse, ExternalApiWireError>,
) -> (r: Result<Vec<Vec<u8>>, HeadMovedError>)
    ensures
        !(response matches Err(ExternalApiWireError::InternalError(_))) ==> (r matches Ok(v) && v@.len() == 0),
        response matches Err(ExternalApiWireError::InternalError(err_string)) ==> ({
            let texts = head_moved_hashes_from(debug_quoted(err_string@), 0);
            let decoded = texts.map_values(|t: Seq<char>| action_hash_b64_decoded(t));
            match first_decode_failure(texts) {
                Some(p) => r matches Err(HeadMovedError::BadActionHash { hash }) && hash@ == texts[p],
                None => r matches Ok(v) && v@.len() == texts.len()
                    && forall|k: int| #![trigger v@[k]] 0 <= k < v@.len() ==> decoded[k] == Some(v@[k]@),
            }
        }),
{
    let texts = head_moved_hash_texts(response);
    let mut decoded: Vec<Option<Vec<u8>>> = Vec::new();
    let mut k: usize = 0;
    while k < texts.len()
        invariant
            k <= texts@.len(),
            decoded@.len() == k,
            forall|q: int| #![trigger texts@[q]] 0 <= q < texts@.len() ==> texts@[q]@.len() > 0 && is_hash_char(texts@[q]@[0]),
            forall|q: int| 0 <= q < k ==> bytes_view(#[trigger] decoded@[q]) == action_hash_b64_decoded(texts@[q]@),
        decreases texts.len() - k,
    {
        let t = texts[k].as_str();
        proof {
            assert(is_hash_char(texts@[k as int]@[0]));
            assert((texts@[k as int]@[0] as u32) < 128);
        }
        decoded.push(decode_action_hash_b64(t));
        k = k + 1;
    }
    proof {
        lemma_decoded_failures(texts@, decoded@);
        lemma_first_undecoded(decoded@);
    }
    let ghost dv = decoded@;
    let r = collect_decoded_hashes(&texts, decoded);
    proof {
        let tv = texts@.map_values(|s: String| s@);
        if let Some(p) = first_undecoded(dv) {
            assert(tv[p] == texts@[p]@);
        } else {
            if r is Ok {
                let v = r->Ok_0;
                assert forall|k: int| #![trigger v@[k]] 0 <= k < v@.len() implies
                    tv.map_values(|t: Seq<char>| action_hash_b64_decoded(t))[k] == Some(v@[k]@) by {
                    assert(tv[k] == texts@[k]@);
                    assert(bytes_view(dv[k]) == action_hash_b64_decoded(texts@[k]@));
                }
            }
        }
    }
    r
}

/// The position of the first hash text that holo_hash refuses, if any.
pub open spec fn first_decode_failure(texts: Seq<Seq<char>>) -> Option<int>
    decreases texts.len(),
{
    if texts.len() == 0 {
        None
    } else if action_hash_b64_decoded(texts[0]) is None {
        Some(0)
    } else {
        match first_decode_failure(texts.drop_first()) {
            Some(p) => Some(p + 1),
            None => None,
        }
    }
}

proof fn lemma_decoded_failures(texts: Seq<String>, decoded: Seq<Option<Vec<u8>>>)
    requires
        decoded.len() == texts.len(),
        forall|q: int| 0 <= q < texts.len() ==> bytes_view(#[trigger] decoded[q]) == action_hash_b64_decoded(texts[q]@),
    ensures
        first_undecoded(decoded) == first_decode_failure(texts.map_values(|s: String| s@)),
    decreases texts.len(),
{
    if texts.len() > 0 {
        let tv = texts.map_values(|s: String| s@);
        assert(tv.drop_first() =~= texts.drop_first().map_values(|s: String| s@));
        assert forall|q: int| 0 <= q < texts.drop_first().len() implies bytes_view(#[trigger] decoded.drop_first()[q])
            == action_hash_b64_decoded(texts.drop_first()[q]@) by {
            assert(decoded.drop_first()[q] == decoded[q + 1]);
            assert(texts.drop_first()[q] == texts[q + 1]);
        }
        lemma_decoded_failures(texts.drop_first(), decoded.drop_first());
        assert(bytes_view(decoded[0]) == action_hash_b64_decoded(texts[0]@));
    }
}

/// All hashes of head-moved matches in `text`.
fn scan_hashes(s: &str, text: &Vec<char>) -> (r: Vec<String>)
    requires
        text@ == s@,
    ensures
        r@.map_values(|x: String| x@) == head_moved_hashes_from(text@, 0),
{
    let mut out: Vec<String> = Vec::new();
    let mut i: usize = 0;
    while i < text.len()
        invariant
            text@ == s@,
            i <= text@.len(),
            head_moved_hashes_from(text@, 0) == out@.map_values(|x: String| x@) + head_moved_hashes_from(text@, i as int),
        decreases text.len() - i,
    {
        match match_at(text, i) {
            Some((d, e, end)) => {
                proof {
                    lemma_hash_bounds(text@, i as int);
                }
                let h = s.substring_char(d, e).to_owned();
                let ghost prev = out@;
                out.push(h);
                assert(out@.map_values(|x: String| x@) =~= prev.map_values(|x: String| x@).push(text@.subrange(d as int, e as int)));
                assert(head_moved_hashes_from(text@, i as int) == seq![text@.subrange(d as int, e as int)] + head_moved_hashes_from(text@, end as int));
                assert(prev.map_values(|x: String| x@) + head_moved_hashes_from(text@, i as int)
                    =~= out@.map_values(|x: String| x@) + head_moved_hashes_from(text@, end as int));
                i = end;
            },
            None => {
                i = i + 1;
            },
        }
    }
    assert(head_moved_hashes_from(text@, i as int) =~= Seq::<Seq<char>>::empty());
    assert(out@.map_values(|x: String| x@) + Seq::<Seq<char>>::empty() =~= out@.map_values(|x: String| x@));
    out
}

proof fn lemma_hash_bounds(t: Seq<char>, i: int)
    requires
        0 <= i,
        head_moved_match_at(t, i) is Some,
    ensures
        ({
            let (d, e, end) = head_moved_match_at(t, i)->Some_0;
            i < d < e && e + 3 == end && end <= t.len()
        }),
{
    let a = i + 15;
    lemma_first_quote(t, a);
    let q = first_quote_from(t, a);
    lemma_digit_run(t, q + 16);
    let c = digit_run_end(t, q + 16);
    lemma_hash_run(t, c + 13);
}


/// The marker in front of the number of authored records in a state dump.
pub open spec fn lit_records_authored() -> Seq<char> {
    seq!['R', 'e', 'c', 'o', 'r', 'd', 's', ' ', 'a', 'u', 't', 'h', 'o', 'r', 'e', 'd', ':', ' ']
}

/// The first match, from position `i` on, of `Records authored: ` followed by
/// one or more digits; gives the bounds of the digits.
pub open spec fn authored_match_from(t: Seq<char>, i: int) -> Option<(int, int)>
    decreases t.len() - i,
{
    if i < 0 || i >= t.len() {
        None
    } else if occurs_at(t, lit_records_authored(), i) && digit_run_end(t, i + 18) > i + 18 {
        Some((i + 18, digit_run_end(t, i + 18)))
    } else {
        authored_match_from(t, i + 1)
    }
}

/// The value of a string of decimal digits.
pub open spec fn digits_value(s: Seq<char>) -> int
    decreases s.len(),
{
    if s.len() == 0 {
        0
    } else {
        digits_value(s.drop_last()) * 10 + (s.last() as int - '0' as int)
    }
}

/// The number of records that a cell's state dump says its agent authored.
#[derive(Clone, Copy, Debug, PartialEq, Eq, Structural)]
pub enum AuthoredRecords {
    /// The dump gives this number.
    Count(i32),
    /// The dump holds no such number.
    NotReported,
    /// The number given does not fit an `i32`.
    TooLarge,
}

/// What a state dump summary says of the authored records: the number after
/// the first `Records authored: ` that is followed by digits.
pub open spec fn authored_records_of(t: Seq<char>) -> AuthoredRecords {
    match authored_match_from(t, 0) {
        None => AuthoredRecords::NotReported,
        Some((a, b)) => {
            let v = digits_value(t.subrange(a, b));
            if v <= i32::MAX {
                AuthoredRecords::Count(v as i32)
            } else {
                AuthoredRecords::TooLarge
            }
        },
    }
}

proof fn lemma_digits_value_nonneg(s: Seq<char>)
    requires
        forall|k: int| 0 <= k < s.len() ==> is_ascii_digit(#[trigger] s[k]),
    ensures
        digits_value(s) >= 0,
    decreases s.len(),
{
    if s.len() > 0 {
        lemma_digits_value_nonneg(s.drop_last());
    }
}

/// The number of authored records that a state dump summary gives.
pub fn authored_records(summary: &str) -> (r: AuthoredRecords)
    ensures
        r == authored_records_of(summary@),
{
    let t = chars_of(summary);
    let lit = records_authored_vec();
    let mut i: usize = 0;
    while i < t.len()
        invariant
            lit@ == lit_records_authored(),
            t@ == summary@,
            authored_match_from(t@, 0) == authored_match_from(t@, i as int),
        decreases t.len() - i,
    {
        if occurs_at_exec(&t, &lit, i) {
            let a = i + 18;
            let b = digits_end(&t, a);
            proof {
                lemma_digit_run(t@, a as int);
            }
            if b > a {
                assert(authored_match_from(t@, i as int) == Some((a as int, b as int)));
                return value_of_digits(&t, a, b);
            }
        }
        i = i + 1;
    }
    AuthoredRecords::NotReported
}

fn records_authored_vec() -> (r: Vec<char>)
    ensures
        r@ == lit_records_authored(),
{
    let r = vec!['R', 'e', 'c', 'o', 'r', 'd', 's', ' ', 'a', 'u', 't', 'h', 'o', 'r', 'e', 'd', ':', ' '];
    assert(r@ =~= lit_records_authored());
    r
}

/// The value of the digits `t[a..b]`, or `TooLarge` past `i32::MAX`.
fn value_of_digits(t: &Vec<char>, a: usize, b: usize) -> (r: AuthoredRecords)
    requires
        a <= b <= t@.len(),
        forall|k: int| a <= k < b ==> is_ascii_digit(#[trigger] t@[k]),
    ensures
        r == (if digits_value(t@.subrange(a as int, b as int)) <= i32::MAX {
            AuthoredRecords::Count(digits_value(t@.subrange(a as int, b as int)) as i32)
        } else {
            AuthoredRecords::TooLarge
        }),
{
    let mut v: i64 = 0;
    let mut k = a;
    while k < b
        invariant
            a <= k <= b <= t@.len(),
            forall|m: int| a <= m < b ==> is_ascii_digit(#[trigger] t@[m]),
            v == digits_value(t@.subrange(a as int, k as int)),
            0 <= v <= i32::MAX,
        decreases b - k,
    {
        let c = t[k];
        let d = (c as u32 - '0' as u32) as i64;
        assert(t@.subrange(a as int, k + 1).drop_last() =~= t@.subrange(a as int, k as int));
        let next = v * 10 + d;
        if next > i32::MAX as i64 {
            proof {
                lemma_digits_value_grows(t@, a as int, k + 1, b as int);
            }
            return AuthoredRecords::TooLarge;
        }
        v = next;
        k = k + 1;
    }
    AuthoredRecords::Count(v as i32)
}

proof fn lemma_digits_value_grows(t: Seq<char>, a: int, k: int, b: int)
    requires
        0 <= a <= k <= b <= t.len(),
        forall|m: int| a <= m < b ==> is_ascii_digit(#[trigger] t[m]),
    ensures
        digits_value(t.subrange(a, k)) <= digits_value(t.subrange(a, b)),
    decreases b - k,
{
    if k < b {
        lemma_digits_value_grows(t, a, k + 1, b);
        assert(t.subrange(a, k + 1).drop_last() =~= t.subrange(a, k));
        lemma_digits_value_nonneg(t.subrange(a, k));
    }
}

/// Law: a summary that starts with `Records authored: ` and a number (not
/// followed by a further digit) reports that number when it fits an `i32`,
/// and is too large otherwise.
pub proof fn authored_records_are_read(digits: Seq<char>, rest: Seq<char>)
    requires
        digits.len() > 0,
        forall|k: int| 0 <= k < digits.len() ==> is_ascii_digit(digits[k]),
        rest.len() > 0 ==> !is_ascii_digit(rest[0]),
    ensures
        authored_records_of(lit_records_authored() + digits + rest) == (if digits_value(digits) <= i32::MAX {
            AuthoredRecords::Count(digits_value(digits) as i32)
        } else {
            AuthoredRecords::TooLarge
        }),
{
    let t = lit_records_authored() + digits + rest;
    let e: int = 18 + digits.len() as int;
    assert(t.subrange(0, 18) =~= lit_records_authored());
    assert forall|k: int| 18 <= k < e implies is_ascii_digit(t[k]) by {
        assert(t[k] == digits[k - 18]);
    }
    if e < t.len() {
        assert(t[e] == rest[0]);
    }
    lemma_digit_run_to(t, 18, e);
    assert(authored_match_from(t, 0) == Some((18int, e)));
    assert(t.subrange(18, e) =~= digits);
}

/// Whether a cell's source chain is empty, as its state dump summary tells:
/// no authored records are reported, or the number reported is zero.
pub fn cell_is_empty(summary: &str) -> (r: bool)
    requires
        authored_records_of(summary@) != AuthoredRecords::TooLarge,
    ensures
        r == match authored_records_of(summary@) {
            AuthoredRecords::Count(n) => n <= 0,
            _ => true,
        },
{
    match authored_records(summary) {
        AuthoredRecords::Count(n) => n <= 0,
        _ => true,
    }
}

/// What `serde_json::from_str::<(serde_json::Value, String)>` gives for a
/// state dump: the summary text, the second element of the JSON pair; `None`
/// where the text is not such a pair.
pub uninterp spec fn state_dump_summary(cell_state: Seq<char>) -> Option<Seq<char>>;

/// Reads a cell's state dump with serde_json, as the pair of the dump itself
/// and its summary text, and keeps the summary. The result depends on the
/// text alone and is named `state_dump_summary`; the parse itself is not
/// described further.
#[verifier::external_body]
fn parse_state_dump(cell_state: &str) -> (r: Option<String>)
    ensures
        match r {
            Some(s) => state_dump_summary(cell_state@) == Some(s@),
            None => state_dump_summary(cell_state@) is None,
        },
{
    match serde_json::from_str::<(serde_json::Value, String)>(cell_state) {
        Ok(pair) => Some(pair.1),
        Err(_) => None,
    }
}

/// The state dump can be read: it is a JSON pair whose summary gives no
/// number of authored records that overflows an `i32`.
pub open spec fn dump_readable(cell_state: Seq<char>) -> bool {
    match state_dump_summary(cell_state) {
        Some(summary) => authored_records_of(summary) != AuthoredRecords::TooLarge,
        None => false,
    }
}

/// Whether a cell counts as empty, given the answer to its state dump request
/// (`None` when the request failed): a failed request does not count the cell,
/// an answer other than a dump counts it (to be safe), and a dump counts it
/// when its summary reports no authored records.
pub open spec fn dump_shows_empty(answer: Option<AdminResponse>) -> bool {
    match answer {
        None => false,
        Some(AdminResponse::StateDumped(s)) => match authored_records_of(state_dump_summary(s@)->Some_0) {
            AuthoredRecords::Count(n) => n <= 0,
            _ => true,
        },
        Some(_) => true,
    }
}

/// Decides whether a cell is empty from the answer to its state dump request.
/// A dump must be readable (the summary is parsed and its number read as an
/// `i32` without a check).
pub fn dumped_cell_is_empty(answer: &Option<AdminResponse>) -> (r: bool)
    requires
        answer matches Some(AdminResponse::StateDumped(s)) ==> dump_readable(s@),
    ensures
        r == dump_shows_empty(*answer),
{
    match answer {
        None => false,
        Some(AdminResponse::StateDumped(s)) => match parse_state_dump(s.as_str()) {
            Some(summary) => cell_is_empty(summary.as_str()),
            None => true,
        },
        Some(_) => true,
    }
}

/// As `dumped_cell_is_empty`, but checks first that a dump is readable and
/// gives `None` when it is not.
pub fn checked_dumped_cell_is_empty(answer: &Option<AdminResponse>) -> (r: Option<bool>)
    ensures
        match r {
            Some(b) => (answer matches Some(AdminResponse::StateDumped(s)) ==> dump_readable(s@))
                && b == dump_shows_empty(*answer),
            None => answer matches Some(AdminResponse::StateDumped(s)) && !dump_readable(s@),
        },
{
    if let Some(AdminResponse::StateDumped(s)) = answer {
        match parse_state_dump(s.as_str()) {
            None => {
                return None;
            },
            Some(summary) => {
                if authored_records(summary.as_str()) == AuthoredRecords::TooLarge {
                    return None;
                }
            },
        }
    }
    Some(dumped_cell_is_empty(answer))
}

/// The cells among the first `n` whose state dump answers count them empty,
/// in their order.
pub open spec fn empty_cells_upto(cells: Seq<CellIdView>, answers: Seq<Option<AdminResponse>>, n: nat) -> Seq<CellIdView>
    decreases n,
{
    if n == 0 {
        Seq::empty()
    } else {
        let rest = empty_cells_upto(cells, answers, (n - 1) as nat);
        if dump_shows_empty(answers[n - 1]) {
            rest.push(cells[n - 1])
        } else {
            rest
        }
    }
}

/// Keeps, in their order, the cells whose state dump answer (the answer at the
/// same position) counts them empty.
pub fn empty_cells(cells: &Vec<CellId>, answers: &Vec<Option<AdminResponse>>) -> (r: Vec<CellId>)
    requires
        cells.len() == answers.len(),
        forall|i: int| 0 <= i < answers.len() ==> (#[trigger] answers@[i] matches Some(AdminResponse::StateDumped(s)) ==> dump_readable(s@)),
    ensures
        id_views(r@) == empty_cells_upto(id_views(cells@), answers@, cells.len() as nat),
{
    let mut out: Vec<CellId> = Vec::new();
    let mut i: usize = 0;
    while i < cells.len()
        invariant
            i <= cells.len(),
            cells.len() == answers.len(),
            forall|k: int| 0 <= k < answers.len() ==> (#[trigger] answers@[k] matches Some(AdminResponse::StateDumped(s)) ==> dump_readable(s@)),
            id_views(out@) == empty_cells_upto(id_views(cells@), answers@, i as nat),
        decreases cells.len() - i,
    {
        let ghost before = id_views(out@);
        if dumped_cell_is_empty(&answers[i]) {
            out.push(cells[i].duplicate());
            assert(id_views(out@) =~= before.push(id_views(cells@)[i as int]));
        }
        i = i + 1;
    }
    out
}

/// The path segments that follow the coordinator's address in a request for
/// the records of a cell: the cell's DNA hash and agent key in holo_hash's
/// text form, then `get_record_data`.
pub fn records_path_segments(cell: &CellId) -> (r: Vec<String>)
    ensures
        r@.len() == 3,
        r@[0]@ == holo_hash_text(cell.dna_hash@),
        r@[1]@ == holo_hash_text(cell.agent_pub_key@),
        r@[2]@ == "get_record_data"@,
{
    let mut segments: Vec<String> = Vec::new();
    segments.push(encode_holo_hash(cell.dna_hash.as_slice()));
    segments.push(encode_holo_hash(cell.agent_pub_key.as_slice()));
    segments.push(String::from_str("get_record_data"));
    segments
}

/// How the coordinator answered a request for the records of a cell.
#[derive(Clone, Copy, Debug, PartialEq, Eq, Structural)]
pub enum RecordsAnswer {
    /// Status 200: the body holds the records.
    Records,
    /// Status 498: the coordinator does not know the hash to start from, so there are no records.
    NoRecordsSince,
    /// Any other status is a failure.
    Failed { status: u16 },
}

/// Reads the status of the coordinator's answer to a records request.
pub fn records_answer(status: u16) -> (r: RecordsAnswer)
    ensures
        r == (if status == 200 {
            RecordsAnswer::Records
        } else if status == 498 {
            RecordsAnswer::NoRecordsSince
        } else {
            RecordsAnswer::Failed { status }
        }),
{
    if status == 200 {
        RecordsAnswer::Records
    } else if status == 498 {
        RecordsAnswer::NoRecordsSince
    } else {
        RecordsAnswer::Failed { status }
    }
}

/// What restoring a cell does with the rows the coordinator returned: when
/// there are any, they are grafted onto the cell and their number is the count
/// restored (`Some`); when there are none, nothing is grafted and the count is 0.
pub fn graft_plan(rows: usize) -> (r: Option<usize>)
    ensures
        rows > 0 ==> r == Some(rows),
        rows == 0 ==> r is None,
{
    if rows > 0 {
        Some(rows)
    } else {
        None
    }
}

/// A restoration without a known starting hash failed when it added no entries.
pub fn chc_sync_failed(total_added_entries: usize, has_since_hash: bool) -> (r: bool)
    ensures
        r == (total_added_entries == 0 && !has_since_hash),
{
    total_added_entries == 0 && !has_since_hash
}

/// The total of the entries restored cell by cell; `None` when it does not fit a `usize`.
pub fn total_restored(counts: &Vec<usize>) -> (r: Option<usize>)
    ensures
        match r {
            Some(t) => t == sum_of(counts@),
            None => sum_of(counts@) > usize::MAX,
        },
{
    let mut total: usize = 0;
    let mut i: usize = 0;
    while i < counts.len()
        invariant
            i <= counts.len(),
            total == sum_of(counts@.take(i as int)),
        decreases counts.len() - i,
    {
        assert(counts@.take(i + 1).drop_last() =~= counts@.take(i as int));
        if total > usize::MAX - counts[i] {
            proof {
                lemma_sum_grows(counts@, i + 1);
            }
            return None;
        }
        total = total + counts[i];
        i = i + 1;
    }
    assert(counts@.take(counts.len() as int) =~= counts@);
    Some(total)
}

/// The sum of a sequence of counts.
pub open spec fn sum_of(s: Seq<usize>) -> int
    decreases s.len(),
{
    if s.len() == 0 {
        0
    } else {
        sum_of(s.drop_last()) + s.last()
    }
}

proof fn lemma_sum_grows(s: Seq<usize>, k: int)
    requires
        0 <= k <= s.len(),
    ensures
        sum_of(s.take(k)) <= sum_of(s),
    decreases s.len() - k,
{
    if k < s.len() {
        lemma_sum_grows(s, k + 1);
        assert(s.take(k + 1).drop_last() =~= s.take(k));
    } else {
        assert(s.take(k) =~= s);
    }
}

} // verus!

//! Fuzzy matching of a typed query against a label, as the command palette
//! and the symbol pickers rank their entries: the query's characters are
//! found in order (ignoring case), and the match is scored by how it sits
//! in the label. Scores are whole numbers; the pickers show them as
//! floating-point values.

use vstd::prelude::*;

use crate::text::{to_lowercase, unicode_lower};

verus! {

// ── Outside items ────────────────────────────────────────────────────────────

/// `char::is_alphanumeric` (Unicode `Alphabetic` or `Numeric`).
pub uninterp spec fn alphanumeric(c: char) -> bool;

/// `char::is_uppercase` (Unicode `Uppercase`).
pub uninterp spec fn uppercase(c: char) -> bool;

/// Calls `char::is_alphanumeric`. Claims only that the result is the named
/// `alphanumeric` of the argument.
#[verifier::external_body]
fn is_alphanumeric(c: char) -> (r: bool)
    ensures
        r == alphanumeric(c),
{
    c.is_alphanumeric()
}

/// Calls `char::is_uppercase`. Claims only that the result is the named
/// `uppercase` of the argument.
#[verifier::external_body]
fn is_uppercase(c: char) -> (r: bool)
    ensures
        r == uppercase(c),
{
    c.is_uppercase()
}

// ── Matching ─────────────────────────────────────────────────────────────────

/// The positions in `t`, from `ti` on, where the query characters from `qi`
/// on are found one after another, each at the first place it can be.
pub open spec fn greedy_from(q: Seq<char>, t: Seq<char>, ti: int, qi: int) -> Seq<int>
    decreases t.len() - ti,
{
    if ti < 0 || ti >= t.len() {
        Seq::empty()
    } else if 0 <= qi < q.len() && t[ti] == q[qi] {
        seq![ti] + greedy_from(q, t, ti + 1, qi + 1)
    } else {
        greedy_from(q, t, ti + 1, qi)
    }
}

/// The positions in `t` where the characters of `q` are found in order.
pub open spec fn greedy(q: Seq<char>, t: Seq<char>) -> Seq<int> {
    greedy_from(q, t, 0, 0)
}

/// Whether the character before position `pos` of `label` starts a word
/// there: `pos` is the first position, or no alphanumeric character of the
/// label sits before it.
pub open spec fn at_word_start(label: Seq<char>, pos: int) -> bool {
    pos == 0 || !(0 <= pos - 1 < label.len() && alphanumeric(label[pos - 1]))
}

/// What one matched position adds: 10, 15 more at a word start (for a
/// symbol, else 10 more at an upper-case letter), and, when it follows the
/// previous match directly, 5 times the length of the run so far.
pub open spec fn score_from(pos: Seq<int>, label: Seq<char>, symbol: bool, i: int, run: int) -> int
    decreases pos.len() - i,
{
    if i < 0 || i >= pos.len() {
        0
    } else {
        let place = if at_word_start(label, pos[i]) {
            15int
        } else if symbol && 0 <= pos[i] < label.len() && uppercase(label[pos[i]]) {
            10int
        } else {
            0int
        };
        let next_run = if i > 0 && pos[i] == pos[i - 1] + 1 {
            run + 1
        } else {
            0
        };
        10 + place + 5 * next_run + score_from(pos, label, symbol, i + 1, next_run)
    }
}

/// The bonus for how the whole query sits in the label: 500 for the same
/// text, 250 for a prefix, and (for commands) 100 for a part of it.
pub open spec fn placement_bonus(q: Seq<char>, t: Seq<char>, symbol: bool) -> int {
    if t == q {
        500
    } else if q.is_prefix_of(t) {
        250
    } else if !symbol && crate::text::spec_find(t, q) is Some {
        100
    } else {
        0
    }
}

/// The match of `query` against `label`: the matched positions (in the
/// lower-cased label) and the score, or `None` when the query's characters
/// are not all found in order. An empty query matches with score 0.
pub open spec fn fuzzy(query: Seq<char>, label: Seq<char>, symbol: bool) -> Option<(int, Seq<int>)> {
    if query.len() == 0 {
        Some((0, Seq::empty()))
    } else {
        let q = unicode_lower(query);
        let t = unicode_lower(label);
        let pos = greedy(q, t);
        if pos.len() < q.len() {
            None
        } else {
            Some((placement_bonus(q, t, symbol) + score_from(pos, label, symbol, 0, 0), pos))
        }
    }
}

/// `greedy` finds at most one position per query character, each inside
/// the label and after the previous one.
proof fn lemma_greedy_bounds(q: Seq<char>, t: Seq<char>, ti: int, qi: int)
    requires
        0 <= ti,
        0 <= qi <= q.len(),
    ensures
        greedy_from(q, t, ti, qi).len() <= q.len() - qi,
        forall|k: int| 0 <= k < greedy_from(q, t, ti, qi).len() ==> ti <= #[trigger] greedy_from(q, t, ti, qi)[k] < t.len(),
        forall|k: int| 0 < k < greedy_from(q, t, ti, qi).len() ==> greedy_from(q, t, ti, qi)[k - 1] < #[trigger] greedy_from(q, t, ti, qi)[k],
    decreases t.len() - ti,
{
    if ti < t.len() {
        lemma_greedy_bounds(q, t, ti + 1, if qi < q.len() && t[ti] == q[qi] { qi + 1 } else { qi });
        if qi < q.len() && t[ti] == q[qi] {
            let rest = greedy_from(q, t, ti + 1, qi + 1);
            assert(greedy_from(q, t, ti, qi) == seq![ti] + rest);
            assert forall|k: int| 0 < k < greedy_from(q, t, ti, qi).len() implies greedy_from(q, t, ti, qi)[k - 1] < #[trigger] greedy_from(q, t, ti, qi)[k] by {
                if k > 1 {
                    assert(greedy_from(q, t, ti, qi)[k - 1] == rest[k - 2]);
                    assert(greedy_from(q, t, ti, qi)[k] == rest[k - 1]);
                }
            }
        }
    }
}

/// The characters of `s`.
fn chars_of(s: &str) -> (r: Vec<char>)
    ensures
        r@ == s@,
{
    let n = s.unicode_len();
    let mut out: Vec<char> = Vec::new();
    let mut i: usize = 0;
    while i < n
        invariant
            i <= n,
            n == s@.len(),
            out@ == s@.subrange(0, i as int),
        decreases n - i,
    {
        out.push(s.get_char(i));
        assert(out@ =~= s@.subrange(0, i + 1));
        i = i + 1;
    }
    assert(s@.subrange(0, n as int) =~= s@);
    out
}

/// The positions where the characters of `q` are found in order in `t`.
fn greedy_positions(q: &Vec<char>, t: &Vec<char>) -> (r: Vec<usize>)
    ensures
        r@.map_values(|p: usize| p as int) == greedy(q@, t@),
{
    let mut out: Vec<usize> = Vec::new();
    let mut qi: usize = 0;
    let mut ti: usize = 0;
    while ti < t.len()
        invariant
            ti <= t@.len(),
            qi <= q@.len(),
            out@.map_values(|p: usize| p as int) + greedy_from(q@, t@, ti as int, qi as int) == greedy(q@, t@),
        decreases t@.len() - ti,
    {
        let ghost before = out@;
        if qi < q.len() && t[ti] == q[qi] {
            out.push(ti);
            assert(out@.map_values(|p: usize| p as int) =~= before.map_values(|p: usize| p as int).push(ti as int));
            assert(greedy_from(q@, t@, ti as int, qi as int) == seq![ti as int] + greedy_from(q@, t@, ti + 1, qi + 1));
            assert(out@.map_values(|p: usize| p as int) + greedy_from(q@, t@, ti + 1, qi + 1)
                =~= before.map_values(|p: usize| p as int) + greedy_from(q@, t@, ti as int, qi as int));
            qi = qi + 1;
        }
        ti = ti + 1;
    }
    assert(greedy_from(q@, t@, ti as int, qi as int) == Seq::<int>::empty());
    assert(out@.map_values(|p: usize| p as int) =~= greedy(q@, t@));
    out
}

/// Whether `q` is a prefix of `t`.
fn is_prefix(q: &Vec<char>, t: &Vec<char>) -> (r: bool)
    ensures
        r == q@.is_prefix_of(t@),
{
    if q.len() > t.len() {
        return false;
    }
    let mut i: usize = 0;
    while i < q.len()
        invariant
            i <= q@.len(),
            q@.len() <= t@.len(),
            forall|j: int| 0 <= j < i ==> q@[j] == t@[j],
        decreases q@.len() - i,
    {
        if q[i] != t[i] {
            return false;
        }
        i = i + 1;
    }
    assert(t@.subrange(0, q@.len() as int) =~= q@);
    true
}

/// The placement bonus of a match.
fn placement(query_lower: &String, label_lower: &String, q: &Vec<char>, t: &Vec<char>, symbol: bool) -> (r: u64)
    requires
        q@ == query_lower@,
        t@ == label_lower@,
    ensures
        r == placement_bonus(q@, t@, symbol),
{
    if crate::text::str_eq(label_lower.as_str(), query_lower.as_str()) {
        500
    } else if is_prefix(q, t) {
        250
    } else if !symbol && crate::text::contains(label_lower.as_str(), query_lower.as_str()) {
        100
    } else {
        0
    }
}

/// The positional score of a match (see `score_from`).
fn position_score(pos: &Vec<usize>, label: &Vec<char>, symbol: bool) -> (r: u128)
    requires
        pos@.len() <= 0x7FFF_FFFF_FFFF_FFFF,
        forall|k: int| 0 < k < pos@.len() ==> pos@[k - 1] < #[trigger] pos@[k],
    ensures
        r == score_from(pos@.map_values(|p: usize| p as int), label@, symbol, 0, 0),
        2 * r <= 50 * pos@.len() + 5 * pos@.len() * pos@.len(),
{
    let ghost ps = pos@.map_values(|p: usize| p as int);
    let mut total: u128 = 0;
    let mut run: u128 = 0;
    let mut i: usize = 0;
    while i < pos.len()
        invariant
            i <= pos@.len(),
            pos@.len() <= 0x7FFF_FFFF_FFFF_FFFF,
            forall|k: int| 0 < k < pos@.len() ==> pos@[k - 1] < #[trigger] pos@[k],
            ps == pos@.map_values(|p: usize| p as int),
            run <= i,
            i > 0 ==> run < i,
            2 * total <= 50 * i + 5 * i * i,
            total + score_from(ps, label@, symbol, i as int, run as int) == score_from(ps, label@, symbol, 0, 0),
        decreases pos@.len() - i,
    {
        let p = pos[i];
        let start = p == 0 || !(p - 1 < label.len() && is_alphanumeric(label[p - 1]));
        let place: u128 = if start {
            15
        } else if symbol && p < label.len() && is_uppercase(label[p]) {
            10
        } else {
            0
        };
        if i > 0 {
            assert(pos@[i - 1] < pos@[i as int]);
        }
        let next_run: u128 = if i > 0 && p == pos[i - 1] + 1 {
            run + 1
        } else {
            0
        };
        assert(next_run <= i);
        assert(2 * (total + 10 + place + 5 * next_run) <= 50 * (i + 1) + 5 * (i + 1) * (i + 1)) by (nonlinear_arith)
            requires
                2 * total <= 50 * i + 5 * i * i,
                place <= 15,
                next_run <= i,
        ;
        assert(50 * (i + 1) + 5 * (i + 1) * (i + 1) <= 50 * 0x8000_0000_0000_0000 + 5 * 0x8000_0000_0000_0000 * 0x8000_0000_0000_0000) by (nonlinear_arith)
            requires
                i < 0x7FFF_FFFF_FFFF_FFFF,
        ;
        total = total + 10 + place + 5 * next_run;
        run = next_run;
        i = i + 1;
    }
    total
}

/// Fuzzy-matches a query against a label, both already lower-cased (the
/// label also given as typed, for the word-start and upper-case tests).
pub fn fuzzy_match_lowered(query_lower: &str, label_lower: &str, label: &str, symbol: bool) -> (r: Option<(u128, Vec<usize>)>)
    requires
        query_lower@.len() <= 0x7FFF_FFFF_FFFF_FFFF,
    ensures
        ({
            let pos = greedy(query_lower@, label_lower@);
            if pos.len() < query_lower@.len() {
                r is None
            } else {
                r matches Some((s, p)) && p@.map_values(|x: usize| x as int) == pos
                    && s == placement_bonus(query_lower@, label_lower@, symbol) + score_from(pos, label@, symbol, 0, 0)
            }
        }),
{
    let ql = query_lower.to_string();
    let tl = label_lower.to_string();
    let q = chars_of(query_lower);
    let t = chars_of(label_lower);
    let original = chars_of(label);
    let pos = greedy_positions(&q, &t);
    proof {
        lemma_greedy_bounds(q@, t@, 0, 0);
    }
    if pos.len() < q.len() {
        return None;
    }
    assert forall|k: int| 0 < k < pos@.len() implies pos@[k - 1] < #[trigger] pos@[k] by {
        assert(pos@.map_values(|x: usize| x as int)[k] == pos@[k] as int);
        assert(pos@.map_values(|x: usize| x as int)[k - 1] == pos@[k - 1] as int);
    }
    let bonus = placement(&ql, &tl, &q, &t, symbol);
    let s = position_score(&pos, &original, symbol);
    assert(2 * s <= 50 * 0x8000_0000_0000_0000 + 5 * 0x8000_0000_0000_0000 * 0x8000_0000_0000_0000) by (nonlinear_arith)
        requires
            2 * s <= 50 * pos@.len() + 5 * pos@.len() * pos@.len(),
            pos@.len() <= 0x7FFF_FFFF_FFFF_FFFF,
    ;
    Some((bonus as u128 + s, pos))
}

/// Fuzzy-matches `query` against `label`: the matched positions (in the
/// lower-cased label) and the score. Commands earn the part-of-label bonus;
/// symbols earn the upper-case bonus instead. The score fits a `u128` for
/// any query of up to 2^63 - 1 characters after lower-casing; a string
/// never holds more bytes than `isize::MAX`, so every query that can exist
/// is within that limit (one beyond it would not be matched).
pub fn fuzzy_match(query: &str, label: &str, symbol: bool) -> (r: Option<(u128, Vec<usize>)>)
    ensures
        query@.len() == 0 || unicode_lower(query@).len() <= 0x7FFF_FFFF_FFFF_FFFF ==> match fuzzy(query@, label@, symbol) {
            Some((score, pos)) => r matches Some((s, p)) && s == score && p@.map_values(|x: usize| x as int) == pos,
            None => r is None,
        },
        query@.len() > 0 && unicode_lower(query@).len() > 0x7FFF_FFFF_FFFF_FFFF ==> r is None,
{
    if query.unicode_len() == 0 {
        let p: Vec<usize> = Vec::new();
        assert(p@.map_values(|x: usize| x as int) =~= Seq::<int>::empty());
        return Some((0, p));
    }
    let query_lower = to_lowercase(query);
    if query_lower.unicode_len() as u64 > 0x7FFF_FFFF_FFFF_FFFFu64 {
        return None;
    }
    let label_lower = to_lowercase(label);
    fuzzy_match_lowered(query_lower.as_str(), label_lower.as_str(), label, symbol)
}

} // verus!

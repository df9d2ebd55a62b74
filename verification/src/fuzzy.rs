//! Fuzzy matching of a query against a candidate text, with a score that
//! rewards consecutive matches, matches at word starts and camel-case humps.
use vstd::prelude::*;

use crate::text::{chars_of, is_uppercase, lowercase_of, to_lowercase, uppercase_char};

verus! {

/// The outcome of a successful fuzzy match.
#[derive(Debug, Clone, PartialEq)]
pub struct FuzzyMatch {
    pub score: i32,
    /// Character positions in the target that the query's characters matched, in order.
    pub match_indices: Vec<usize>,
}

impl FuzzyMatch {
    /// The matched positions as mathematical integers.
    pub open spec fn positions(self) -> Seq<int> {
        self.match_indices@.map_values(|i: usize| i as int)
    }
}

/// Characters after which a match counts as the start of a word.
pub open spec fn word_separator(c: char) -> bool {
    c == '/' || c == '\\' || c == '_' || c == '-' || c == '.' || c == ' '
}

/// The positions of `t` matched by `q` when the first `n` characters of `t`
/// are scanned left to right, each query character taking the first equal
/// target character after the previous match.
pub open spec fn greedy_positions(q: Seq<char>, t: Seq<char>, n: nat) -> Seq<int>
    decreases n,
{
    if n == 0 {
        Seq::empty()
    } else {
        let g = greedy_positions(q, t, (n - 1) as nat);
        if g.len() < q.len() && t[n - 1] == q[g.len() as int] {
            g.push(n - 1)
        } else {
            g
        }
    }
}

/// The positions matched by `q` over the whole of `t`.
pub open spec fn matched_positions(q: Seq<char>, t: Seq<char>) -> Seq<int> {
    greedy_positions(q, t, t.len())
}

/// The bonus for a match at position `i`: 20 at the very start or right after a
/// word separator, 15 at an uppercase character that follows a non-uppercase one.
/// `o` are the target's original characters and `up` their uppercase flags.
pub open spec fn position_bonus(o: Seq<char>, up: Seq<bool>, i: int) -> int {
    if i == 0 {
        20
    } else if word_separator(o[i - 1]) {
        20
    } else if up[i] && !up[i - 1] {
        15
    } else {
        0
    }
}

/// The score of the `k`-th match: 10, plus 15 when it directly follows the
/// previous match, plus its position bonus.
pub open spec fn match_score(p: Seq<int>, o: Seq<char>, up: Seq<bool>, k: int) -> int {
    10 + (if k > 0 && p[k] == p[k - 1] + 1 { 15int } else { 0int }) + position_bonus(o, up, p[k])
}

/// The sum of the scores of the first `n` matches.
pub open spec fn total_score(p: Seq<int>, o: Seq<char>, up: Seq<bool>, n: nat) -> int
    decreases n,
{
    if n == 0 {
        0
    } else {
        total_score(p, o, up, (n - 1) as nat) + match_score(p, o, up, n - 1)
    }
}

/// The bonus for a query that matches the whole target.
pub open spec fn full_length_bonus(q: Seq<char>, t: Seq<char>) -> int {
    if q.len() == t.len() {
        50
    } else {
        0
    }
}

/// What a fuzzy match of lowercase query `q` against lowercase target `t`
/// gives: `None` when the query is longer than the target or is not a
/// subsequence of it, else the score and the matched positions.
pub open spec fn fuzzy_outcome(q: Seq<char>, t: Seq<char>, o: Seq<char>, up: Seq<bool>) -> Option<
    (int, Seq<int>),
> {
    if q.len() > t.len() {
        None
    } else {
        let p = matched_positions(q, t);
        if p.len() == q.len() {
            Some((total_score(p, o, up, p.len()) + full_length_bonus(q, t), p))
        } else {
            None
        }
    }
}

/// Every original character that the scoring reads exists: the one before each
/// match, and, unless that one is a separator, the one at the match.
pub open spec fn reads_in_bounds(o: Seq<char>, p: Seq<int>) -> bool {
    forall|k: int|
        0 <= k < p.len() ==> #[trigger] p[k] == 0 || (p[k] - 1 < o.len() && (word_separator(
            o[p[k] - 1],
        ) || p[k] < o.len()))
}

/// The running score never leaves the range of `i32`.
pub open spec fn score_fits(q: Seq<char>, t: Seq<char>, o: Seq<char>, up: Seq<bool>) -> bool {
    let p = matched_positions(q, t);
    total_score(p, o, up, p.len()) + (if p.len() == q.len() { full_length_bonus(q, t) } else { 0 })
        <= i32::MAX
}

/// The inputs on which the scan runs to its end: the query is longer than the
/// target, or every read is in bounds and the score fits.
pub open spec fn scan_defined(q: Seq<char>, t: Seq<char>, o: Seq<char>, up: Seq<bool>) -> bool {
    q.len() > t.len() || (reads_in_bounds(o, matched_positions(q, t)) && score_fits(q, t, o, up))
}

/// The uppercase flags of a sequence of characters.
pub open spec fn uppercase_flags(o: Seq<char>) -> Seq<bool> {
    Seq::new(o.len(), |i: int| uppercase_char(o[i]))
}

/// What `fuzzy_match` gives for a query and a target.
pub open spec fn fuzzy_match_spec(query: Seq<char>, target: Seq<char>) -> Option<(int, Seq<int>)> {
    if query.len() == 0 {
        Some((0, Seq::empty()))
    } else {
        fuzzy_outcome(
            lowercase_of(query),
            lowercase_of(target),
            target,
            uppercase_flags(target),
        )
    }
}

/// Whether `res` is the outcome `spec` describes.
pub open spec fn is_outcome(res: Option<FuzzyMatch>, spec: Option<(int, Seq<int>)>) -> bool {
    match res {
        None => spec is None,
        Some(m) => match spec {
            Some((score, positions)) => m.score == score && m.positions() == positions,
            None => false,
        },
    }
}

proof fn lemma_greedy_shape(q: Seq<char>, t: Seq<char>, n: nat)
    ensures
        greedy_positions(q, t, n).len() <= q.len(),
        greedy_positions(q, t, n).len() <= n,
        forall|k: int|
            0 <= k < greedy_positions(q, t, n).len() ==> 0 <= #[trigger] greedy_positions(
                q,
                t,
                n,
            )[k] < n,
        forall|j: int, k: int|
            0 <= j < k < greedy_positions(q, t, n).len() ==> greedy_positions(q, t, n)[j]
                < greedy_positions(q, t, n)[k],
    decreases n,
{
    if n > 0 {
        lemma_greedy_shape(q, t, (n - 1) as nat);
    }
}

/// The positions found in a prefix of the target are a prefix of those found in all of it.
proof fn lemma_greedy_prefix(q: Seq<char>, t: Seq<char>, n: nat, m: nat)
    requires
        n <= m,
    ensures
        greedy_positions(q, t, n).len() <= greedy_positions(q, t, m).len(),
        greedy_positions(q, t, n) == greedy_positions(q, t, m).take(
            greedy_positions(q, t, n).len() as int,
        ),
    decreases m - n,
{
    if n < m {
        lemma_greedy_prefix(q, t, n, (m - 1) as nat);
        let a = greedy_positions(q, t, n);
        let b = greedy_positions(q, t, (m - 1) as nat);
        let c = greedy_positions(q, t, m);
        assert(c.take(b.len() as int) =~= b);
        assert(c.take(a.len() as int) =~= b.take(a.len() as int));
    } else {
        assert(greedy_positions(q, t, n) =~= greedy_positions(q, t, n).take(
            greedy_positions(q, t, n).len() as int,
        ));
    }
}

/// The total of the first `n` scores reads only the first `n` positions.
proof fn lemma_total_prefix(p1: Seq<int>, p2: Seq<int>, o: Seq<char>, up: Seq<bool>, n: nat)
    requires
        n <= p1.len(),
        n <= p2.len(),
        p1.take(n as int) == p2.take(n as int),
    ensures
        total_score(p1, o, up, n) == total_score(p2, o, up, n),
    decreases n,
{
    if n > 0 {
        assert(p1.take((n - 1) as int) =~= p1.take(n as int).take((n - 1) as int));
        assert(p2.take((n - 1) as int) =~= p2.take(n as int).take((n - 1) as int));
        lemma_total_prefix(p1, p2, o, up, (n - 1) as nat);
        assert(p1[n - 1] == p1.take(n as int)[n - 1]);
        assert(p2[n - 1] == p2.take(n as int)[n - 1]);
        if n >= 2 {
            assert(p1[n - 2] == p1.take(n as int)[n - 2]);
            assert(p2[n - 2] == p2.take(n as int)[n - 2]);
        }
    }
}

/// Each match scores at least 10, so totals grow with `n`.
proof fn lemma_total_monotone(p: Seq<int>, o: Seq<char>, up: Seq<bool>, n: nat, m: nat)
    requires
        n <= m,
    ensures
        total_score(p, o, up, n) + 10 * (m - n) <= total_score(p, o, up, m),
    decreases m - n,
{
    if n < m {
        lemma_total_monotone(p, o, up, n, (m - 1) as nat);
        let k = m - 1;
        let b = position_bonus(o, up, p[k]);
        assert(b >= 0);
    }
}

/// Scores a lowercase query against a lowercase target.
///
/// `original` are the target's characters before lowercasing and `upper` their
/// uppercase flags. Returns `None` when the query is longer than the target or
/// its characters do not all occur, in order, in the target.
pub fn fuzzy_score(query: &Vec<char>, target: &Vec<char>, original: &Vec<char>, upper: &Vec<bool>) -> (res: Option<FuzzyMatch>)
    requires
        upper@.len() == original@.len(),
        scan_defined(query@, target@, original@, upper@),
    ensures
        is_outcome(res, fuzzy_outcome(query@, target@, original@, upper@)),
{
    if query.len() > target.len() {
        return None;
    }
    let ghost q = query@;
    let ghost t = target@;
    let ghost o = original@;
    let ghost up = upper@;
    let ghost fin = matched_positions(q, t);
    proof {
        lemma_greedy_shape(q, t, t.len());
    }
    let mut query_idx: usize = 0;
    let mut match_indices: Vec<usize> = Vec::new();
    let mut score: i32 = 0;
    let mut prev_match_idx: Option<usize> = None;
    let mut target_idx: usize = 0;
    while target_idx < target.len()
        invariant
            q == query@,
            t == target@,
            o == original@,
            up == upper@,
            fin == matched_positions(q, t),
            up.len() == o.len(),
            q.len() <= t.len(),
            reads_in_bounds(o, fin),
            score_fits(q, t, o, up),
            fin.len() <= q.len(),
            target_idx <= t.len(),
            query_idx == greedy_positions(q, t, target_idx as nat).len(),
            match_indices@.map_values(|i: usize| i as int) == greedy_positions(
                q,
                t,
                target_idx as nat,
            ),
            score == total_score(
                greedy_positions(q, t, target_idx as nat),
                o,
                up,
                query_idx as nat,
            ),
            match prev_match_idx {
                None => query_idx == 0,
                Some(pm) => query_idx > 0 && pm == greedy_positions(q, t, target_idx as nat)[query_idx - 1],
            },
        decreases t.len() - target_idx,
    {
        let ghost g = greedy_positions(q, t, target_idx as nat);
        proof {
            lemma_greedy_shape(q, t, target_idx as nat);
            lemma_greedy_prefix(q, t, target_idx as nat, t.len());
            lemma_greedy_prefix(q, t, (target_idx + 1) as nat, t.len());
        }
        let t_char = target[target_idx];
        if query_idx < query.len() && t_char == query[query_idx] {
            let ghost g2 = greedy_positions(q, t, (target_idx + 1) as nat);
            assert(g2 == g.push(target_idx as int));
            assert(g2.len() <= fin.len());
            assert(fin[query_idx as int] == g2[query_idx as int]);
            match_indices.push(target_idx);
            assert(match_indices@.map_values(|i: usize| i as int) =~= g2);
            let mut char_score: i32 = 10;
            if let Some(prev) = prev_match_idx {
                if target_idx == prev + 1 {
                    char_score += 15;
                }
            }
            if target_idx == 0 {
                char_score += 20;
            } else {
                assert(reads_in_bounds(o, fin));
                assert(fin[query_idx as int] == target_idx);
                let prev_char = original[target_idx - 1];
                if prev_char == '/' || prev_char == '\\' || prev_char == '_' || prev_char == '-'
                    || prev_char == '.' || prev_char == ' ' {
                    char_score += 20;
                } else if upper[target_idx] && !upper[target_idx - 1] {
                    char_score += 15;
                }
            }
            assert(char_score == match_score(g2, o, up, query_idx as int));
            proof {
                assert(g2.take(query_idx as int) =~= g.take(query_idx as int));
                assert(g =~= g.take(query_idx as int));
                lemma_total_prefix(g, g2, o, up, query_idx as nat);
                assert(fin.take(g2.len() as int) == g2);
                assert(g2.take((query_idx + 1) as int) =~= g2);
                lemma_total_prefix(g2, fin, o, up, (query_idx + 1) as nat);
                lemma_total_monotone(fin, o, up, (query_idx + 1) as nat, fin.len());
            }
            score = score + char_score;
            prev_match_idx = Some(target_idx);
            query_idx = query_idx + 1;
        }
        target_idx = target_idx + 1;
    }
    if query_idx == query.len() {
        if query.len() == target.len() {
            score = score + 50;
        }
        Some(FuzzyMatch { score, match_indices })
    } else {
        None
    }
}

/// Computes the uppercase flags of a sequence of characters.
fn uppercase_flags_of(o: &Vec<char>) -> (res: Vec<bool>)
    ensures
        res@ == uppercase_flags(o@),
{
    let mut res: Vec<bool> = Vec::new();
    let mut i: usize = 0;
    while i < o.len()
        invariant
            i <= o.len(),
            res@ == uppercase_flags(o@).take(i as int),
        decreases o.len() - i,
    {
        let b = is_uppercase(o[i]);
        res.push(b);
        i = i + 1;
        assert(res@ =~= uppercase_flags(o@).take(i as int));
    }
    assert(res@ =~= uppercase_flags(o@));
    res
}

/// Fuzzy-matches `query` against `target`, ignoring case.
///
/// An empty query matches everything with score 0 and no positions. Otherwise
/// the lowercase query must occur, character by character and in order, in the
/// lowercase target; the result then holds the score and the matched positions.
pub fn fuzzy_match(query: &str, target: &str) -> (res: Option<FuzzyMatch>)
    requires
        query@.len() > 0 ==> scan_defined(
            lowercase_of(query@),
            lowercase_of(target@),
            target@,
            uppercase_flags(target@),
        ),
    ensures
        is_outcome(res, fuzzy_match_spec(query@, target@)),
        lowercase_of(query@).len() > lowercase_of(target@).len() ==> res is None,
{
    let qv = chars_of(query);
    let ql = to_lowercase(query);
    if qv.len() == 0 {
        let r = FuzzyMatch { score: 0, match_indices: Vec::new() };
        assert(r.positions() =~= Seq::<int>::empty());
        return Some(r);
    }
    let tl = to_lowercase(target);
    let q = chars_of(ql.as_str());
    let t = chars_of(tl.as_str());
    let o = chars_of(target);
    let up = uppercase_flags_of(&o);
    fuzzy_score(&q, &t, &o, &up)
}


/// Decides `scan_defined` by running the scan with every read and every
/// addition checked.
pub fn scan_is_defined(query: &Vec<char>, target: &Vec<char>, original: &Vec<char>, upper: &Vec<bool>) -> (res: bool)
    requires
        upper@.len() == original@.len(),
    ensures
        res == scan_defined(query@, target@, original@, upper@),
{
    if query.len() > target.len() {
        return true;
    }
    let ghost q = query@;
    let ghost t = target@;
    let ghost o = original@;
    let ghost up = upper@;
    let ghost fin = matched_positions(q, t);
    proof {
        lemma_greedy_shape(q, t, t.len());
    }
    let mut query_idx: usize = 0;
    let mut score: i64 = 0;
    let mut prev_match_idx: Option<usize> = None;
    let mut target_idx: usize = 0;
    while target_idx < target.len()
        invariant
            q == query@,
            t == target@,
            o == original@,
            up == upper@,
            fin == matched_positions(q, t),
            up.len() == o.len(),
            q.len() <= t.len(),
            fin.len() <= q.len(),
            target_idx <= t.len(),
            query_idx == greedy_positions(q, t, target_idx as nat).len(),
            score == total_score(
                greedy_positions(q, t, target_idx as nat),
                o,
                up,
                query_idx as nat,
            ),
            score <= i32::MAX,
            forall|k: int|
                0 <= k < query_idx ==> #[trigger] fin[k] == 0 || (fin[k] - 1 < o.len() && (
                word_separator(o[fin[k] - 1]) || fin[k] < o.len())),
            match prev_match_idx {
                None => query_idx == 0,
                Some(pm) => query_idx > 0 && pm == greedy_positions(q, t, target_idx as nat)[query_idx - 1],
            },
        decreases t.len() - target_idx,
    {
        let ghost g = greedy_positions(q, t, target_idx as nat);
        proof {
            lemma_greedy_shape(q, t, target_idx as nat);
            lemma_greedy_prefix(q, t, target_idx as nat, t.len());
            lemma_greedy_prefix(q, t, (target_idx + 1) as nat, t.len());
        }
        if query_idx < query.len() && target[target_idx] == query[query_idx] {
            let ghost g2 = greedy_positions(q, t, (target_idx + 1) as nat);
            assert(g2 == g.push(target_idx as int));
            assert(fin[query_idx as int] == g2[query_idx as int]);
            let mut char_score: i64 = 10;
            if let Some(prev) = prev_match_idx {
                if target_idx == prev + 1 {
                    char_score += 15;
                }
            }
            if target_idx == 0 {
                char_score += 20;
            } else {
                if target_idx - 1 >= original.len() {
                    assert(!reads_in_bounds(o, fin)) by {
                        assert(fin[query_idx as int] == target_idx);
                    }
                    return false;
                }
                let prev_char = original[target_idx - 1];
                if prev_char == '/' || prev_char == '\\' || prev_char == '_' || prev_char == '-'
                    || prev_char == '.' || prev_char == ' ' {
                    char_score += 20;
                } else {
                    if target_idx >= original.len() {
                        assert(!reads_in_bounds(o, fin)) by {
                            assert(fin[query_idx as int] == target_idx);
                        }
                        return false;
                    }
                    if upper[target_idx] && !upper[target_idx - 1] {
                        char_score += 15;
                    }
                }
            }
            assert(char_score == match_score(g2, o, up, query_idx as int));
            proof {
                assert(g2.take(query_idx as int) =~= g.take(query_idx as int));
                assert(g =~= g.take(query_idx as int));
                lemma_total_prefix(g, g2, o, up, query_idx as nat);
                assert(fin.take(g2.len() as int) == g2);
                assert(g2.take((query_idx + 1) as int) =~= g2);
                lemma_total_prefix(g2, fin, o, up, (query_idx + 1) as nat);
                lemma_total_monotone(fin, o, up, (query_idx + 1) as nat, fin.len());
            }
            score = score + char_score;
            if score > i32::MAX as i64 {
                assert(!score_fits(q, t, o, up));
                return false;
            }
            prev_match_idx = Some(target_idx);
            query_idx = query_idx + 1;
        }
        target_idx = target_idx + 1;
    }
    assert(greedy_positions(q, t, target_idx as nat) == fin);
    if query_idx == query.len() && query.len() == target.len() {
        score = score + 50;
    }
    score <= i32::MAX as i64
}

/// Fuzzy-matches like `fuzzy_match`, on every input: `None` where the scan
/// would read past the target's original characters (lowercasing made the
/// target longer) or its score would leave `i32`, else `Some` of what
/// `fuzzy_match` gives.
pub fn fuzzy_match_checked(query: &str, target: &str) -> (res: Option<Option<FuzzyMatch>>)
    ensures
        query@.len() > 0 ==> (res is None <==> !scan_defined(
            lowercase_of(query@),
            lowercase_of(target@),
            target@,
            uppercase_flags(target@),
        )),
        res matches Some(r) ==> is_outcome(r, fuzzy_match_spec(query@, target@)),
        query@.len() == 0 ==> res is Some,
{
    let qv = chars_of(query);
    if qv.len() == 0 {
        return Some(fuzzy_match(query, target));
    }
    let ql = to_lowercase(query);
    let tl = to_lowercase(target);
    let q = chars_of(ql.as_str());
    let t = chars_of(tl.as_str());
    let o = chars_of(target);
    let up = uppercase_flags_of(&o);
    if scan_is_defined(&q, &t, &o, &up) {
        Some(fuzzy_match(query, target))
    } else {
        None
    }
}

/// `p` places the characters of `q` in `t` in order: strictly increasing
/// positions with `t[p[k]] == q[k]`.
pub open spec fn embeds(q: Seq<char>, t: Seq<char>, p: Seq<int>) -> bool {
    &&& p.len() <= q.len()
    &&& forall|k: int| 0 <= k < p.len() ==> 0 <= #[trigger] p[k] < t.len() && t[p[k]] == q[k]
    &&& forall|j: int, k: int| 0 <= j < k < p.len() ==> p[j] < p[k]
}

/// `q` is a subsequence of `t`.
pub open spec fn is_subsequence(q: Seq<char>, t: Seq<char>) -> bool {
    exists|p: Seq<int>| #[trigger] embeds(q, t, p) && p.len() == q.len()
}

proof fn lemma_greedy_embeds(q: Seq<char>, t: Seq<char>, n: nat)
    requires
        n <= t.len(),
    ensures
        embeds(q, t, greedy_positions(q, t, n)),
    decreases n,
{
    lemma_greedy_shape(q, t, n);
    if n > 0 {
        lemma_greedy_embeds(q, t, (n - 1) as nat);
        lemma_greedy_shape(q, t, (n - 1) as nat);
    }
}

/// The greedy scan places at least as many query characters as any other placement.
proof fn lemma_greedy_is_maximal(q: Seq<char>, t: Seq<char>, n: nat, p: Seq<int>)
    requires
        n <= t.len(),
        embeds(q, t, p),
        p.len() > 0 ==> p[p.len() - 1] < n,
    ensures
        greedy_positions(q, t, n).len() >= p.len(),
    decreases n,
{
    if n == 0 {
        if p.len() > 0 {
            assert(0 <= p[0]);
            assert(p[0] <= p[p.len() - 1]);
        }
    } else if p.len() == 0 {
    } else if p[p.len() - 1] < n - 1 {
        lemma_greedy_is_maximal(q, t, (n - 1) as nat, p);
        lemma_greedy_prefix(q, t, (n - 1) as nat, n);
    } else {
        let pp = p.drop_last();
        if pp.len() > 0 {
            assert(pp[pp.len() - 1] < p[p.len() - 1]);
        }
        lemma_greedy_is_maximal(q, t, (n - 1) as nat, pp);
        lemma_greedy_shape(q, t, (n - 1) as nat);
        let g = greedy_positions(q, t, (n - 1) as nat);
        if g.len() < p.len() {
            assert(g.len() == p.len() - 1);
            assert(t[n - 1] == q[p.len() - 1]);
        }
    }
}

/// A query matches (case aside) exactly when its lowercase characters occur,
/// in order, in the lowercase target; the positions found then place it there.
pub proof fn law_match_iff_subsequence(q: Seq<char>, t: Seq<char>, o: Seq<char>, up: Seq<bool>)
    ensures
        fuzzy_outcome(q, t, o, up) is Some <==> is_subsequence(q, t),
        fuzzy_outcome(q, t, o, up) matches Some((score, p)) ==> embeds(q, t, p) && p.len() == q.len(),
{
    let g = matched_positions(q, t);
    lemma_greedy_embeds(q, t, t.len());
    lemma_greedy_shape(q, t, t.len());
    if is_subsequence(q, t) {
        let p = choose|p: Seq<int>| #[trigger] embeds(q, t, p) && p.len() == q.len();
        if p.len() > 0 {
            assert(p[p.len() - 1] < t.len());
        }
        lemma_greedy_is_maximal(q, t, t.len(), p);
        if q.len() > t.len() {
            if q.len() > 0 {
                assert forall|k: int| 0 <= k < p.len() implies p[k] >= k by {
                    lemma_increasing_at_least_index(p, k);
                }
                assert(p[p.len() - 1] >= p.len() - 1);
            }
        }
    }
    if fuzzy_outcome(q, t, o, up) is Some {
        assert(embeds(q, t, g) && g.len() == q.len());
    }
}

proof fn lemma_increasing_at_least_index(p: Seq<int>, k: int)
    requires
        0 <= k < p.len(),
        forall|j: int| 0 <= j < p.len() ==> 0 <= #[trigger] p[j],
        forall|i: int, j: int| 0 <= i < j < p.len() ==> p[i] < p[j],
    ensures
        p[k] >= k,
    decreases k,
{
    if k > 0 {
        lemma_increasing_at_least_index(p, k - 1);
    }
}

/// Every matched character scores at least 10, so a match of a non-empty
/// query scores at least ten times its length.
pub proof fn law_score_at_least_ten_per_char(q: Seq<char>, t: Seq<char>, o: Seq<char>, up: Seq<bool>)
    ensures
        fuzzy_outcome(q, t, o, up) matches Some((score, p)) ==> score >= 10 * q.len(),
{
    let p = matched_positions(q, t);
    lemma_total_monotone(p, o, up, 0, p.len());
}

/// Matching ignores case: queries with the same lowercase (both empty or both
/// not) and targets with the same lowercase match alike, at the same
/// positions; for one target the results are the same, score included (the
/// score reads the target's own characters for its camel-case bonus, so two
/// targets that differ in case may score differently).
pub proof fn law_match_ignores_case(q1: Seq<char>, q2: Seq<char>, t1: Seq<char>, t2: Seq<char>)
    requires
        (q1.len() == 0) == (q2.len() == 0),
        lowercase_of(q1) == lowercase_of(q2),
        lowercase_of(t1) == lowercase_of(t2),
    ensures
        fuzzy_match_spec(q1, t1) is Some <==> fuzzy_match_spec(q2, t2) is Some,
        fuzzy_match_spec(q1, t1) matches Some((s1, p1)) ==> (fuzzy_match_spec(q2, t2) matches Some((s2, p2))
            && p1 == p2),
        t1 == t2 ==> fuzzy_match_spec(q1, t1) == fuzzy_match_spec(q2, t2),
{
}

/// A match survives a shorter query and a longer target: every prefix of a
/// matching (lowercase) query matches the same target, and the query matches
/// the target with any text added before or after it.
pub proof fn law_match_survives_prefix_and_extension(
    q: Seq<char>,
    t: Seq<char>,
    o: Seq<char>,
    up: Seq<bool>,
    k: int,
    s: Seq<char>,
    o2: Seq<char>,
    up2: Seq<bool>,
)
    requires
        fuzzy_outcome(q, t, o, up) is Some,
        0 <= k <= q.len(),
    ensures
        fuzzy_outcome(q.take(k), t, o, up) is Some,
        fuzzy_outcome(q, t + s, o2, up2) is Some,
        fuzzy_outcome(q, s + t, o2, up2) is Some,
{
    law_match_iff_subsequence(q, t, o, up);
    let p = choose|p: Seq<int>| #[trigger] embeds(q, t, p) && p.len() == q.len();
    let pk = p.take(k);
    assert(embeds(q.take(k), t, pk));
    law_match_iff_subsequence(q.take(k), t, o, up);
    let ts = t + s;
    assert(embeds(q, ts, p)) by {
        assert forall|i: int| 0 <= i < p.len() implies 0 <= #[trigger] p[i] < ts.len() && ts[p[i]] == q[i] by {
            assert(ts[p[i]] == t[p[i]]);
        }
    }
    law_match_iff_subsequence(q, ts, o2, up2);
    let st = s + t;
    let shifted = Seq::new(p.len(), |i: int| p[i] + s.len());
    assert(embeds(q, st, shifted)) by {
        assert forall|i: int| 0 <= i < shifted.len() implies 0 <= #[trigger] shifted[i] < st.len() && st[shifted[i]]
            == q[i] by {
            assert(0 <= p[i] < t.len());
            assert(st[p[i] + s.len()] == t[p[i]]);
        }
        assert forall|j: int, i: int| 0 <= j < i < shifted.len() implies shifted[j] < shifted[i] by {
            assert(p[j] < p[i]);
        }
    }
    law_match_iff_subsequence(q, st, o2, up2);
}

} // verus!

//! Weighted random choice of the next topic to review: topics that are more
//! overdue, and topics with lower mastery, are more likely to come up.

use rand::Rng;
use vstd::prelude::*;

use crate::models::{Progress, TopicWithProgress};
use crate::schedule::SECONDS_PER_DAY;

verus! {

/// Whole days past due, plus one: a topic due now or later, or without a due
/// date, counts 1.
pub open spec fn overdue_days(now: i64, next_review: Option<i64>) -> int {
    match next_review {
        Some(n) => if now > n { (now - n) / (SECONDS_PER_DAY as int) + 1 } else { 1 },
        None => 1,
    }
}

/// Six less the mastery level, which is read as if clamped to 0 to 5: from 6
/// for a new topic down to 1 for a mastered one.
pub open spec fn mastery_weight(m: int) -> int {
    if m < 0 {
        6
    } else if m > 5 {
        1
    } else {
        6 - m
    }
}

/// How strongly a topic with this progress is drawn at time `now`.
pub open spec fn selection_weight(p: Progress, now: i64) -> int {
    overdue_days(now, p.next_review) * mastery_weight(p.mastery_level as int)
}

/// The weights of the candidates, in their order.
pub open spec fn weights_of(cs: Seq<TopicWithProgress>, now: i64) -> Seq<u64> {
    cs.map_values(|c: TopicWithProgress| selection_weight(c.progress, now) as u64)
}

/// The sum of the first `k` weights.
pub open spec fn prefix_weight(ws: Seq<u64>, k: int) -> int
    decreases k,
{
    if k <= 0 {
        0
    } else {
        prefix_weight(ws, k - 1) + ws[k - 1]
    }
}

/// The index that a draw `r` lands on: the first whose running total of
/// weights exceeds `r`; a draw past the total falls back to the first index.
pub open spec fn lands_on(ws: Seq<u64>, r: int, i: int) -> bool {
    if r < prefix_weight(ws, ws.len() as int) {
        0 <= i < ws.len() && prefix_weight(ws, i) <= r < prefix_weight(ws, i + 1)
    } else {
        i == 0
    }
}

proof fn lemma_prefix_bounds(ws: Seq<u64>, k: int)
    requires
        0 <= k <= ws.len(),
    ensures
        0 <= prefix_weight(ws, k) <= k * (u64::MAX as int),
    decreases k,
{
    if k > 0 {
        lemma_prefix_bounds(ws, k - 1);
    }
}

proof fn lemma_prefix_monotone(ws: Seq<u64>, j: int, k: int)
    requires
        0 <= j <= k <= ws.len(),
    ensures
        prefix_weight(ws, j) <= prefix_weight(ws, k),
    decreases k - j,
{
    if j < k {
        lemma_prefix_monotone(ws, j, k - 1);
    }
}

/// The draws below the total that land on index `i` are exactly those from
/// the running total before `i` up to the one after it: `ws[i]` of them. A
/// draw uniform below the total therefore picks `i` with probability
/// `ws[i]` over the total, and no draw lands on two indices.
pub proof fn lemma_draws_landing_on(ws: Seq<u64>, i: int)
    requires
        0 <= i < ws.len(),
    ensures
        prefix_weight(ws, i + 1) - prefix_weight(ws, i) == ws[i],
        forall|r: int|
            0 <= r < prefix_weight(ws, ws.len() as int) ==> (lands_on(ws, r, i) <==> prefix_weight(
                ws,
                i,
            ) <= r < prefix_weight(ws, i + 1)),
        forall|r: int, j: int| lands_on(ws, r, i) && lands_on(ws, r, j) ==> i == j,
{
    assert forall|r: int, j: int| lands_on(ws, r, i) && lands_on(ws, r, j) implies i == j by {
        if r < prefix_weight(ws, ws.len() as int) && i != j {
            if i < j {
                lemma_prefix_monotone(ws, i + 1, j);
            } else {
                lemma_prefix_monotone(ws, j + 1, i);
            }
        }
    }
}

/// The selection weight of a topic with this progress at time `now`.
pub fn topic_weight(p: &Progress, now: i64) -> (w: u64)
    ensures
        w == selection_weight(*p, now),
        1 <= w,
{
    let days: u64 = match p.next_review {
        Some(n) => if now > n {
            let diff: u64 = ((now as i128) - (n as i128)) as u64;
            diff / (SECONDS_PER_DAY as u64) + 1
        } else {
            1
        },
        None => 1,
    };
    let m = p.mastery_level;
    let mw: u64 = if m < 0 {
        6
    } else if m > 5 {
        1
    } else {
        (6 - m) as u64
    };
    assert(days <= u64::MAX / 86_400 + 1);
    assert(days * mw <= (u64::MAX / 86_400 + 1) * 6) by (nonlinear_arith)
        requires
            days <= u64::MAX / 86_400 + 1,
            mw <= 6,
    ;
    assert(1 <= days * mw) by (nonlinear_arith)
        requires
            1 <= days,
            1 <= mw,
    ;
    days * mw
}

/// The selection weights of the candidates at time `now`.
pub fn candidate_weights(candidates: &Vec<TopicWithProgress>, now: i64) -> (ws: Vec<u64>)
    ensures
        ws@ == weights_of(candidates@, now),
        forall|i: int| 0 <= i < ws@.len() ==> 1 <= #[trigger] ws@[i],
{
    let mut ws: Vec<u64> = Vec::new();
    let mut i: usize = 0;
    while i < candidates.len()
        invariant
            i <= candidates@.len(),
            ws@ == weights_of(candidates@.subrange(0, i as int), now),
            forall|j: int| 0 <= j < ws@.len() ==> 1 <= #[trigger] ws@[j],
        decreases candidates@.len() - i,
    {
        let w = topic_weight(&candidates[i].progress, now);
        ws.push(w);
        i = i + 1;
        assert(candidates@.subrange(0, i as int).drop_last() =~= candidates@.subrange(0, i - 1));
        assert(ws@ =~= weights_of(candidates@.subrange(0, i as int), now));
    }
    assert(candidates@.subrange(0, i as int) =~= candidates@);
    ws
}

/// The sum of all weights.
pub fn total_weight(ws: &Vec<u64>) -> (t: u128)
    ensures
        t == prefix_weight(ws@, ws@.len() as int),
{
    let mut t: u128 = 0;
    let mut i: usize = 0;
    while i < ws.len()
        invariant
            i <= ws@.len(),
            t == prefix_weight(ws@, i as int),
        decreases ws@.len() - i,
    {
        proof {
            lemma_prefix_bounds(ws@, i + 1);
            assert((i + 1) * (u64::MAX as int) <= usize::MAX * u64::MAX) by (nonlinear_arith)
                requires
                    i + 1 <= usize::MAX,
            ;
        }
        t = t + ws[i] as u128;
        i = i + 1;
    }
    t
}

/// The index that the draw `r` lands on: scanning in order and taking away
/// each weight from `r`, the first index at which less than nothing is left;
/// the first index when the draw is not below the total.
pub fn select_index(ws: &Vec<u64>, r: u128) -> (i: usize)
    requires
        ws@.len() > 0,
    ensures
        lands_on(ws@, r as int, i as int),
{
    let mut acc: u128 = 0;
    let mut i: usize = 0;
    while i < ws.len()
        invariant
            i <= ws@.len(),
            acc == prefix_weight(ws@, i as int),
            acc <= r,
        decreases ws@.len() - i,
    {
        proof {
            lemma_prefix_bounds(ws@, i + 1);
            lemma_prefix_monotone(ws@, i + 1, ws@.len() as int);
            assert((i + 1) * (u64::MAX as int) <= usize::MAX * u64::MAX) by (nonlinear_arith)
                requires
                    i + 1 <= usize::MAX,
            ;
        }
        let next = acc + ws[i] as u128;
        if r < next {
            return i;
        }
        acc = next;
        i = i + 1;
    }
    0
}

/// Relies on `rand::thread_rng` and `Rng::gen_range`: a draw from the
/// half-open range `0..bound`, which panics when that range is empty.
#[verifier::external_body]
fn draw_below(bound: u128) -> (r: u128)
    requires
        bound > 0,
    ensures
        r < bound,
{
    rand::thread_rng().gen_range(0..bound)
}

/// Picks the candidate that the draw `r` lands on at time `now`; nothing
/// when there are no candidates.
pub fn choose_topic(candidates: Vec<TopicWithProgress>, now: i64, r: u128) -> (res: Option<
    TopicWithProgress,
>)
    ensures
        candidates@.len() == 0 <==> res is None,
        candidates@.len() > 0 ==> exists|i: int|
            lands_on(weights_of(candidates@, now), r as int, i) && res == Some(candidates@[i]),
        candidates@.len() == 1 ==> res == Some(candidates@[0]),
{
    if candidates.len() == 0 {
        return None;
    }
    let ws = candidate_weights(&candidates, now);
    let i = select_index(&ws, r);
    let mut candidates = candidates;
    let chosen = candidates.remove(i);
    Some(chosen)
}

/// Picks the next topic to review from the candidates, at random in
/// proportion to their weights at time `now`; nothing when there are no
/// candidates. `choose_topic` does the same with a draw the caller supplies.
pub fn next_topic(candidates: Vec<TopicWithProgress>, now: i64) -> (res: Option<TopicWithProgress>)
    ensures
        candidates@.len() == 0 <==> res is None,
        res is Some ==> exists|i: int| 0 <= i < candidates@.len() && res == Some(candidates@[i]),
        candidates@.len() == 1 ==> res == Some(candidates@[0]),
{
    if candidates.len() == 0 {
        return None;
    }
    let ws = candidate_weights(&candidates, now);
    let total = total_weight(&ws);
    proof {
        lemma_prefix_monotone(ws@, 1, ws@.len() as int);
        assert(prefix_weight(ws@, 0) == 0);
        assert(prefix_weight(ws@, 1) == ws@[0]);
    }
    let r = draw_below(total);
    let res = choose_topic(candidates, now, r);
    proof {
        let i = choose|i: int|
            lands_on(weights_of(candidates@, now), r as int, i) && res == Some(candidates@[i]);
        assert(0 <= i < candidates@.len());
    }
    res
}

} // verus!

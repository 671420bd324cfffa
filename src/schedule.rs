//! The review transition: how an outcome moves mastery and the due date.

use vstd::prelude::*;

use crate::kinds::{AssessmentMethod, ReviewOutcome, SkillLevel};
use crate::models::Progress;

verus! {

pub const SECONDS_PER_DAY: i64 = 86_400;

/// The highest mastery level.
pub const MAX_MASTERY: i32 = 5;

/// Days until the next review for a mastery level; levels outside 0 to 4
/// wait the longest interval.
pub open spec fn interval_for(level: int) -> int {
    if level == 0 {
        1
    } else if level == 1 {
        2
    } else if level == 2 {
        4
    } else if level == 3 {
        7
    } else if level == 4 {
        14
    } else {
        30
    }
}

/// The mastery level after a review outcome.
pub open spec fn next_mastery(m: int, o: ReviewOutcome) -> int {
    match o {
        ReviewOutcome::Success => if m + 1 < 5 { m + 1 } else { 5 },
        ReviewOutcome::Partial => m,
        ReviewOutcome::Fail => if m - 1 > 0 { m - 1 } else { 0 },
    }
}

/// Days until the next review after an outcome at mastery `m`.
pub open spec fn review_interval(m: int, o: ReviewOutcome) -> int {
    match o {
        ReviewOutcome::Success => interval_for(next_mastery(m, o)),
        ReviewOutcome::Partial => if interval_for(m) / 2 > 1 { interval_for(m) / 2 } else { 1 },
        ReviewOutcome::Fail => 1,
    }
}

/// Notes after a review: supplied non-empty notes replace the old ones.
pub open spec fn kept_notes(old: Option<String>, given: Option<String>) -> Option<String> {
    match given {
        Some(n) => if n@.len() > 0 { Some(n) } else { old },
        None => old,
    }
}

/// The progress record after a review with outcome `o` at time `now`.
pub open spec fn review_step(p: Progress, o: ReviewOutcome, notes: Option<String>, now: i64) -> Progress {
    Progress {
        mastery_level: next_mastery(p.mastery_level as int, o) as i32,
        times_reviewed: (p.times_reviewed + 1) as i32,
        times_succeeded: if o == ReviewOutcome::Success {
            (p.times_succeeded + 1) as i32
        } else {
            p.times_succeeded
        },
        last_reviewed: Some(now),
        next_review: Some(
            (now + review_interval(p.mastery_level as int, o) * SECONDS_PER_DAY) as i64,
        ),
        notes: kept_notes(p.notes, notes),
        ..p
    }
}

/// Whether a review can be recorded without a counter or the due date leaving
/// its integer type.
pub open spec fn can_review(p: Progress, now: i64) -> bool {
    &&& p.times_reviewed < i32::MAX
    &&& p.times_succeeded < i32::MAX
    &&& now <= i64::MAX - 30 * SECONDS_PER_DAY
}

/// Days until the next review for a mastery level.
pub fn calculate_interval(mastery_level: i32) -> (r: i32)
    ensures
        r == interval_for(mastery_level as int),
{
    match mastery_level {
        0 => 1,
        1 => 2,
        2 => 4,
        3 => 7,
        4 => 14,
        5 => 30,
        _ => 30,
    }
}

/// Applies a review outcome observed at time `now` to a progress record.
pub fn review_at(progress: Progress, outcome: ReviewOutcome, notes: Option<String>, now: i64) -> (r:
    Progress)
    requires
        can_review(progress, now),
    ensures
        r == review_step(progress, outcome, notes, now),
        progress.wf() ==> r.wf(),
{
    let m = progress.mastery_level;
    let (new_mastery, days): (i32, i32) = match outcome {
        ReviewOutcome::Success => {
            let level = if m < MAX_MASTERY { m + 1 } else { MAX_MASTERY };
            (level, calculate_interval(level))
        },
        ReviewOutcome::Partial => {
            let half = calculate_interval(m) / 2;
            (m, if half > 1 { half } else { 1 })
        },
        ReviewOutcome::Fail => {
            let level = if m > 0 { m - 1 } else { 0 };
            (level, 1)
        },
    };
    let succeeded = match outcome {
        ReviewOutcome::Success => progress.times_succeeded + 1,
        _ => progress.times_succeeded,
    };
    let new_notes = match notes {
        Some(n) => if n.unicode_len() > 0 { Some(n) } else { progress.notes },
        None => progress.notes,
    };
    Progress {
        mastery_level: new_mastery,
        times_reviewed: progress.times_reviewed + 1,
        times_succeeded: succeeded,
        last_reviewed: Some(now),
        next_review: Some(now + days as i64 * SECONDS_PER_DAY),
        notes: new_notes,
        ..progress
    }
}

/// The progress record of a topic created at time `now`: mastery 0, no
/// reviews, due at once, skill unknown and never assessed.
pub fn new_progress(topic_id: i64, now: i64) -> (p: Progress)
    ensures
        p.id == 0,
        p.topic_id == topic_id,
        p.mastery_level == 0,
        p.times_reviewed == 0,
        p.times_succeeded == 0,
        p.last_reviewed is None,
        p.next_review == Some(now),
        p.notes is None,
        p.skill_level == SkillLevel::Unknown,
        p.assessment_method == AssessmentMethod::NotAssessed,
        p.last_assessed is None,
        p.wf(),
{
    Progress {
        id: 0,
        topic_id,
        mastery_level: 0,
        times_reviewed: 0,
        times_succeeded: 0,
        last_reviewed: None,
        next_review: Some(now),
        notes: None,
        skill_level: SkillLevel::Unknown,
        assessment_method: AssessmentMethod::NotAssessed,
        last_assessed: None,
    }
}

/// Whether a topic due at `next_review` is past due at time `now`; a topic
/// without a due date is not.
pub fn is_overdue(next_review: Option<i64>, now: i64) -> (r: bool)
    ensures
        r == (next_review is Some && next_review->0 < now),
{
    match next_review {
        Some(n) => n < now,
        None => false,
    }
}

/// Whether a topic due at `next_review` is due at time `now`: its due date
/// is at or before `now`. A topic without a due date is not.
pub fn is_due(next_review: Option<i64>, now: i64) -> (r: bool)
    ensures
        r == (next_review is Some && next_review->0 <= now),
{
    match next_review {
        Some(n) => n <= now,
        None => false,
    }
}

/// The interval table: 1, 2, 4, 7, 14 and 30 days for levels 0 to 5, and 30
/// days for every level outside that range.
pub proof fn lemma_interval_table(level: int)
    ensures
        interval_for(0) == 1,
        interval_for(1) == 2,
        interval_for(2) == 4,
        interval_for(3) == 7,
        interval_for(4) == 14,
        interval_for(5) == 30,
        (level < 0 || level > 5) ==> interval_for(level) == 30,
{
}

/// Success raises mastery by one unless it is already 5; failure lowers it by
/// one unless it is already 0; a partial review leaves it as it is.
pub proof fn lemma_mastery_moves_by_one(p: Progress, o: ReviewOutcome, notes: Option<String>, now: i64)
    requires
        p.wf(),
    ensures
        o == ReviewOutcome::Success && p.mastery_level < 5 ==> review_step(p, o, notes, now).mastery_level
            == p.mastery_level + 1,
        o == ReviewOutcome::Success && p.mastery_level == 5 ==> review_step(p, o, notes, now).mastery_level
            == 5,
        o == ReviewOutcome::Fail && p.mastery_level > 0 ==> review_step(p, o, notes, now).mastery_level
            == p.mastery_level - 1,
        o == ReviewOutcome::Fail && p.mastery_level == 0 ==> review_step(p, o, notes, now).mastery_level
            == 0,
        o == ReviewOutcome::Partial ==> review_step(p, o, notes, now).mastery_level == p.mastery_level,
{
}

/// The progress record after a run of reviews, the i-th with outcome
/// `outcomes[i]` at time `times[i]`, none with notes.
pub open spec fn replay(p: Progress, outcomes: Seq<ReviewOutcome>, times: Seq<i64>) -> Progress
    decreases outcomes.len(),
{
    if outcomes.len() == 0 {
        p
    } else {
        replay(
            review_step(p, outcomes[0], None, times[0]),
            outcomes.drop_first(),
            times.drop_first(),
        )
    }
}

/// Whatever the outcomes, a run of reviews keeps mastery within 0 to 5 and
/// never counts more successes than reviews.
pub proof fn lemma_reviews_keep_progress_valid(
    p: Progress,
    outcomes: Seq<ReviewOutcome>,
    times: Seq<i64>,
)
    requires
        p.wf(),
        outcomes.len() == times.len(),
        p.times_reviewed + outcomes.len() <= i32::MAX,
        forall|i: int| 0 <= i < times.len() ==> times[i] <= i64::MAX - 30 * SECONDS_PER_DAY,
    ensures
        replay(p, outcomes, times).wf(),
        replay(p, outcomes, times).times_reviewed == p.times_reviewed + outcomes.len(),
    decreases outcomes.len(),
{
    if outcomes.len() > 0 {
        let q = review_step(p, outcomes[0], None, times[0]);
        assert(q.wf());
        lemma_reviews_keep_progress_valid(q, outcomes.drop_first(), times.drop_first());
    }
}

} // verus!

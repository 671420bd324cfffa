//! Teaching sessions, the gaps found in them, and skill assessments.
//!
//! A record built here that the store has not saved yet has id 0.

use vstd::prelude::*;

use crate::kinds::{AssessmentMethod, SessionOutcome, SessionType, SkillLevel};
use crate::models::{LearningSession, Progress, SessionGap, SkillAssessment};

verus! {

/// A session on a topic, begun at time `now`, with the topic's skill level
/// at that moment as its snapshot (none when the topic has no progress).
pub fn new_session(
    topic_id: i64,
    session_type: SessionType,
    progress: &Option<Progress>,
    now: i64,
) -> (s: LearningSession)
    ensures
        s.id == 0,
        s.topic_id == topic_id,
        s.session_type == session_type,
        s.started_at == now,
        s.ended_at is None,
        s.outcome is None,
        s.summary is None,
        s.notes is None,
        s.skill_level_at_start == match progress {
            Some(p) => Some(p.skill_level.spec_value() as i32),
            None => None::<i32>,
        },
{
    let snapshot = match progress {
        Some(p) => Some(p.skill_level.as_i32()),
        None => None,
    };
    LearningSession {
        id: 0,
        topic_id,
        session_type,
        started_at: now,
        ended_at: None,
        skill_level_at_start: snapshot,
        outcome: None,
        summary: None,
        notes: None,
    }
}

/// Ends a session at time `now` with an outcome, a summary and notes. Only the
/// session changes: no progress record is involved, whatever the outcome.
pub fn end_session(
    session: &mut LearningSession,
    outcome: SessionOutcome,
    summary: Option<String>,
    notes: Option<String>,
    now: i64,
)
    ensures
        final(session).ended_at == Some(now),
        final(session).outcome == Some(outcome),
        final(session).summary == summary,
        final(session).notes == notes,
        final(session).id == old(session).id,
        final(session).topic_id == old(session).topic_id,
        final(session).session_type == old(session).session_type,
        final(session).started_at == old(session).started_at,
        final(session).skill_level_at_start == old(session).skill_level_at_start,
{
    session.ended_at = Some(now);
    session.outcome = Some(outcome);
    session.summary = summary;
    session.notes = notes;
}

/// An abandoned session corresponds to no review outcome, so nothing about
/// it can move the spaced-repetition state.
pub proof fn lemma_abandoned_session_gives_no_review()
    ensures
        SessionOutcome::Abandoned.spec_review_outcome() is None,
{
}

/// A new, unaddressed gap of a session.
pub fn new_gap(session_id: i64, description: String) -> (g: SessionGap)
    ensures
        g.id == 0,
        g.session_id == session_id,
        g.gap_description == description,
        !g.addressed,
{
    SessionGap { id: 0, session_id, gap_description: description, addressed: false }
}

/// Marks a gap as addressed. A gap that already was is left as it is.
pub fn mark_addressed(gap: &mut SessionGap)
    ensures
        final(gap).addressed,
        final(gap).id == old(gap).id,
        final(gap).session_id == old(gap).session_id,
        final(gap).gap_description == old(gap).gap_description,
        old(gap).addressed ==> *final(gap) == *old(gap),
{
    gap.addressed = true;
}

/// The gaps of `s` that are not yet addressed, in their order.
pub open spec fn unaddressed_of(s: Seq<SessionGap>) -> Seq<SessionGap>
    decreases s.len(),
{
    if s.len() == 0 {
        s
    } else if s.last().addressed {
        unaddressed_of(s.drop_last())
    } else {
        unaddressed_of(s.drop_last()).push(s.last())
    }
}

/// The gaps that are not yet addressed, in their order.
pub fn unaddressed_gaps(gaps: Vec<SessionGap>) -> (r: Vec<SessionGap>)
    ensures
        r@ == unaddressed_of(gaps@),
{
    let ghost all = gaps@;
    let mut out: Vec<SessionGap> = Vec::new();
    let mut rest = gaps;
    let ghost mut taken: Seq<SessionGap> = Seq::empty();
    while rest.len() > 0
        invariant
            taken + rest@ =~= all,
            out@ == unaddressed_of(taken),
        decreases rest@.len(),
    {
        let g = rest.remove(0);
        let ghost before = taken;
        proof {
            taken = taken.push(g);
            assert(taken.drop_last() =~= before);
        }
        if !g.addressed {
            out.push(g);
        }
    }
    proof {
        assert(taken =~= all);
    }
    out
}

/// Records a skill assessment at time `now`: the topic's progress takes the
/// new level, method and time, and the returned history entry keeps the
/// level that it replaced. Nothing else of the progress changes.
pub fn assess_skill(
    progress: &mut Progress,
    new_level: SkillLevel,
    method: AssessmentMethod,
    notes: Option<String>,
    now: i64,
) -> (a: SkillAssessment)
    ensures
        a.id == 0,
        a.topic_id == old(progress).topic_id,
        a.assessed_at == now,
        a.method == method,
        a.previous_level == Some(old(progress).skill_level.spec_value() as i32),
        a.new_level == new_level.spec_value(),
        a.notes == notes,
        *final(progress) == (Progress {
            skill_level: new_level,
            assessment_method: method,
            last_assessed: Some(now),
            ..*old(progress)
        }),
{
    let previous = progress.skill_level.as_i32();
    progress.skill_level = new_level;
    progress.assessment_method = method;
    progress.last_assessed = Some(now);
    SkillAssessment {
        id: 0,
        topic_id: progress.topic_id,
        assessed_at: now,
        method,
        previous_level: Some(previous),
        new_level: new_level.as_i32(),
        notes,
    }
}

} // verus!

use feynman::kinds::{AssessmentMethod, SessionOutcome, SessionType, SkillLevel};
use feynman::models::{Progress, SessionGap};
use feynman::session::{
    assess_skill, end_session, mark_addressed, new_gap, new_session, unaddressed_gaps,
};

fn progress(skill_level: SkillLevel) -> Progress {
    Progress {
        id: 3,
        topic_id: 9,
        mastery_level: 2,
        times_reviewed: 4,
        times_succeeded: 3,
        last_reviewed: Some(100),
        next_review: Some(200),
        notes: Some("n".to_string()),
        skill_level,
        assessment_method: AssessmentMethod::NotAssessed,
        last_assessed: None,
    }
}

#[test]
fn new_session_snapshots_skill() {
    let s = new_session(9, SessionType::Socratic, &Some(progress(SkillLevel::Intermediate)), 50);
    assert_eq!(s.topic_id, 9);
    assert_eq!(s.session_type, SessionType::Socratic);
    assert_eq!(s.started_at, 50);
    assert_eq!(s.skill_level_at_start, Some(3));
    assert!(s.ended_at.is_none());
    assert!(s.outcome.is_none());

    let s = new_session(9, SessionType::Feynman, &None, 50);
    assert_eq!(s.skill_level_at_start, None);
}

#[test]
fn end_session_sets_outcome_and_texts() {
    let mut s = new_session(9, SessionType::Feynman, &None, 50);
    end_session(
        &mut s,
        SessionOutcome::Success,
        Some("Great session".to_string()),
        Some("User understood well".to_string()),
        80,
    );
    assert_eq!(s.ended_at, Some(80));
    assert_eq!(s.outcome, Some(SessionOutcome::Success));
    assert_eq!(s.summary, Some("Great session".to_string()));
    assert_eq!(s.notes, Some("User understood well".to_string()));
    assert_eq!(s.started_at, 50);
}

#[test]
fn abandoning_a_session_touches_no_progress() {
    let p = progress(SkillLevel::Novice);
    let mut s = new_session(9, SessionType::Feynman, &Some(p.clone()), 50);
    end_session(&mut s, SessionOutcome::Abandoned, None, None, 60);
    assert_eq!(s.outcome, Some(SessionOutcome::Abandoned));
    assert!(SessionOutcome::Abandoned.to_review_outcome().is_none());
    assert_eq!(p.mastery_level, 2);
    assert_eq!(p.times_reviewed, 4);
    assert_eq!(p.next_review, Some(200));
}

#[test]
fn mark_addressed_is_idempotent() {
    let mut g = new_gap(4, "Confused about ownership".to_string());
    assert!(!g.addressed);
    assert_eq!(g.session_id, 4);
    mark_addressed(&mut g);
    assert!(g.addressed);
    mark_addressed(&mut g);
    assert!(g.addressed);
    assert_eq!(g.gap_description, "Confused about ownership");
    assert_eq!(g.session_id, 4);
}

#[test]
fn unaddressed_gaps_keep_order() {
    let gap = |id: i64, addressed: bool| SessionGap {
        id,
        session_id: 1,
        gap_description: format!("Gap {}", id),
        addressed,
    };
    let left = unaddressed_gaps(vec![gap(1, true), gap(2, false), gap(3, true), gap(4, false)]);
    let ids: Vec<i64> = left.iter().map(|g| g.id).collect();
    assert_eq!(ids, vec![2, 4]);
    assert!(unaddressed_gaps(vec![]).is_empty());
}

#[test]
fn assess_skill_records_previous_level() {
    let mut p = progress(SkillLevel::Beginner);
    let a = assess_skill(
        &mut p,
        SkillLevel::Advanced,
        AssessmentMethod::Calibration,
        Some("Improved".to_string()),
        70,
    );
    assert_eq!(a.topic_id, 9);
    assert_eq!(a.previous_level, Some(2));
    assert_eq!(a.new_level, 4);
    assert_eq!(a.method, AssessmentMethod::Calibration);
    assert_eq!(a.assessed_at, 70);
    assert_eq!(a.notes, Some("Improved".to_string()));
    assert_eq!(p.skill_level, SkillLevel::Advanced);
    assert_eq!(p.assessment_method, AssessmentMethod::Calibration);
    assert_eq!(p.last_assessed, Some(70));
    assert_eq!(p.mastery_level, 2);
    assert_eq!(p.times_reviewed, 4);
}

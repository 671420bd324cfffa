//! The records that the engine reads and produces.
//!
//! Times are whole seconds since the Unix epoch (UTC). Identifiers are those
//! that the store assigned.

use vstd::prelude::*;

use crate::kinds::{
    AssessmentMethod, InterviewCategory, InterviewEntryType, PlanStatus, SessionOutcome,
    SessionType, SkillLevel,
};

verus! {

/// A subject being learned.
#[derive(Debug, Clone)]
pub struct Topic {
    pub id: i64,
    pub name: String,
    pub description: Option<String>,
    pub created_at: i64,
    pub updated_at: i64,
    pub tags: Vec<String>,
}

/// A tag and how many topics carry it.
#[derive(Debug, Clone)]
pub struct Tag {
    pub id: i64,
    pub name: String,
    pub topic_count: i64,
}

/// The spaced-repetition state of one topic, with its independent skill
/// snapshot.
#[derive(Debug, Clone)]
pub struct Progress {
    pub id: i64,
    pub topic_id: i64,
    pub mastery_level: i32,
    pub times_reviewed: i32,
    pub times_succeeded: i32,
    pub last_reviewed: Option<i64>,
    pub next_review: Option<i64>,
    pub notes: Option<String>,
    pub skill_level: SkillLevel,
    pub assessment_method: AssessmentMethod,
    pub last_assessed: Option<i64>,
}

/// A topic together with its progress.
#[derive(Debug, Clone)]
pub struct TopicWithProgress {
    pub topic: Topic,
    pub progress: Progress,
}

/// One teaching session on a topic.
#[derive(Debug, Clone)]
pub struct LearningSession {
    pub id: i64,
    pub topic_id: i64,
    pub session_type: SessionType,
    pub started_at: i64,
    pub ended_at: Option<i64>,
    pub skill_level_at_start: Option<i32>,
    pub outcome: Option<SessionOutcome>,
    pub summary: Option<String>,
    pub notes: Option<String>,
}

/// A knowledge gap found during a session.
#[derive(Debug, Clone)]
pub struct SessionGap {
    pub id: i64,
    pub session_id: i64,
    pub gap_description: String,
    pub addressed: bool,
}

/// One entry of a topic's skill assessment history.
#[derive(Debug, Clone)]
pub struct SkillAssessment {
    pub id: i64,
    pub topic_id: i64,
    pub assessed_at: i64,
    pub method: AssessmentMethod,
    pub previous_level: Option<i32>,
    pub new_level: i32,
    pub notes: Option<String>,
}

/// An idea being turned into a specification by interview.
#[derive(Debug, Clone)]
pub struct Plan {
    pub id: i64,
    pub title: String,
    pub initial_description: String,
    pub status: PlanStatus,
    pub engineer_level: Option<String>,
    pub spec_file_path: Option<String>,
    pub created_at: i64,
    pub updated_at: i64,
}

/// One categorised utterance of a plan's interview.
#[derive(Debug, Clone)]
pub struct InterviewEntry {
    pub id: i64,
    pub plan_id: i64,
    pub entry_type: InterviewEntryType,
    pub content: String,
    pub category: InterviewCategory,
    pub created_at: i64,
}

impl Progress {
    /// The invariant of a progress record: mastery within 0 to 5, and no more
    /// successes than reviews.
    pub open spec fn wf(&self) -> bool {
        &&& 0 <= self.mastery_level <= 5
        &&& 0 <= self.times_succeeded <= self.times_reviewed
    }

    pub open spec fn spec_mastery_label(&self) -> Seq<char> {
        if self.mastery_level == 0 {
            "New"@
        } else if self.mastery_level == 1 {
            "Learning"@
        } else if self.mastery_level == 2 {
            "Familiar"@
        } else if self.mastery_level == 3 {
            "Comfortable"@
        } else if self.mastery_level == 4 {
            "Proficient"@
        } else if self.mastery_level == 5 {
            "Mastered"@
        } else {
            "Unknown"@
        }
    }

    pub fn mastery_label(&self) -> (r: &'static str)
        ensures
            r@ == self.spec_mastery_label(),
    {
        match self.mastery_level {
            0 => "New",
            1 => "Learning",
            2 => "Familiar",
            3 => "Comfortable",
            4 => "Proficient",
            5 => "Mastered",
            _ => "Unknown",
        }
    }
}

} // verus!

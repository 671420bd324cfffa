//! The closed sets of values that the engine works with, and their names.
//!
//! Each kind has a canonical lowercase name (`as_str`), a parser over text
//! that is already lowercase (`parse_lowercase`), and `from_str`, which folds
//! the case of its input first.

use vstd::prelude::*;

use crate::text::{lower_of, lowercase, same_chars};

verus! {

/// A learner's self- or assessor-judged competence, from 0 to 5.
#[derive(Debug, Clone, Copy, PartialEq, Eq, Structural)]
pub enum SkillLevel {
    Unknown,
    Novice,
    Beginner,
    Intermediate,
    Advanced,
    Expert,
}

impl SkillLevel {
    pub open spec fn spec_value(self) -> int {
        match self {
            SkillLevel::Unknown => 0,
            SkillLevel::Novice => 1,
            SkillLevel::Beginner => 2,
            SkillLevel::Intermediate => 3,
            SkillLevel::Advanced => 4,
            SkillLevel::Expert => 5,
        }
    }

    /// The level with the given number; numbers outside 1 to 5 give `Unknown`.
    pub open spec fn spec_from_value(v: int) -> SkillLevel {
        if v == 1 {
            SkillLevel::Novice
        } else if v == 2 {
            SkillLevel::Beginner
        } else if v == 3 {
            SkillLevel::Intermediate
        } else if v == 4 {
            SkillLevel::Advanced
        } else if v == 5 {
            SkillLevel::Expert
        } else {
            SkillLevel::Unknown
        }
    }

    pub open spec fn spec_label(self) -> Seq<char> {
        match self {
            SkillLevel::Unknown => "Unknown"@,
            SkillLevel::Novice => "Novice"@,
            SkillLevel::Beginner => "Beginner"@,
            SkillLevel::Intermediate => "Intermediate"@,
            SkillLevel::Advanced => "Advanced"@,
            SkillLevel::Expert => "Expert"@,
        }
    }

    /// The level that lowercase text names, by word or by number.
    pub open spec fn parse(s: Seq<char>) -> Option<SkillLevel> {
        if s == "unknown"@ || s == "0"@ {
            Some(SkillLevel::Unknown)
        } else if s == "novice"@ || s == "1"@ {
            Some(SkillLevel::Novice)
        } else if s == "beginner"@ || s == "2"@ {
            Some(SkillLevel::Beginner)
        } else if s == "intermediate"@ || s == "3"@ {
            Some(SkillLevel::Intermediate)
        } else if s == "advanced"@ || s == "4"@ {
            Some(SkillLevel::Advanced)
        } else if s == "expert"@ || s == "5"@ {
            Some(SkillLevel::Expert)
        } else {
            None
        }
    }

    pub fn as_i32(&self) -> (r: i32)
        ensures
            r == self.spec_value(),
    {
        match self {
            SkillLevel::Unknown => 0,
            SkillLevel::Novice => 1,
            SkillLevel::Beginner => 2,
            SkillLevel::Intermediate => 3,
            SkillLevel::Advanced => 4,
            SkillLevel::Expert => 5,
        }
    }

    pub fn from_i32(v: i32) -> (r: SkillLevel)
        ensures
            r == SkillLevel::spec_from_value(v as int),
    {
        match v {
            1 => SkillLevel::Novice,
            2 => SkillLevel::Beginner,
            3 => SkillLevel::Intermediate,
            4 => SkillLevel::Advanced,
            5 => SkillLevel::Expert,
            _ => SkillLevel::Unknown,
        }
    }

    pub fn label(&self) -> (r: &'static str)
        ensures
            r@ == self.spec_label(),
    {
        match self {
            SkillLevel::Unknown => "Unknown",
            SkillLevel::Novice => "Novice",
            SkillLevel::Beginner => "Beginner",
            SkillLevel::Intermediate => "Intermediate",
            SkillLevel::Advanced => "Advanced",
            SkillLevel::Expert => "Expert",
        }
    }

    pub fn parse_lowercase(s: &str) -> (r: Option<SkillLevel>)
        ensures
            r == SkillLevel::parse(s@),
    {
        if same_chars(s, "unknown") || same_chars(s, "0") {
            Some(SkillLevel::Unknown)
        } else if same_chars(s, "novice") || same_chars(s, "1") {
            Some(SkillLevel::Novice)
        } else if same_chars(s, "beginner") || same_chars(s, "2") {
            Some(SkillLevel::Beginner)
        } else if same_chars(s, "intermediate") || same_chars(s, "3") {
            Some(SkillLevel::Intermediate)
        } else if same_chars(s, "advanced") || same_chars(s, "4") {
            Some(SkillLevel::Advanced)
        } else if same_chars(s, "expert") || same_chars(s, "5") {
            Some(SkillLevel::Expert)
        } else {
            None
        }
    }

    pub fn from_str(s: &str) -> (r: Option<SkillLevel>)
        ensures
            r == SkillLevel::parse(lower_of(s@)),
    {
        let low = lowercase(s);
        SkillLevel::parse_lowercase(low.as_str())
    }
}

/// How a skill level was arrived at.
#[derive(Debug, Clone, Copy, PartialEq, Eq, Structural)]
pub enum AssessmentMethod {
    NotAssessed,
    SelfAssessed,
    Calibration,
}

impl AssessmentMethod {
    pub open spec fn spec_name(self) -> Seq<char> {
        match self {
            AssessmentMethod::NotAssessed => "none"@,
            AssessmentMethod::SelfAssessed => "self"@,
            AssessmentMethod::Calibration => "calibration"@,
        }
    }

    /// The method that lowercase text names; any other text means `NotAssessed`.
    pub open spec fn parse(s: Seq<char>) -> AssessmentMethod {
        if s == "self"@ || s == "self_assessed"@ || s == "self-assessed"@ {
            AssessmentMethod::SelfAssessed
        } else if s == "calibration"@ || s == "calibrated"@ {
            AssessmentMethod::Calibration
        } else {
            AssessmentMethod::NotAssessed
        }
    }

    pub fn as_str(&self) -> (r: &'static str)
        ensures
            r@ == self.spec_name(),
    {
        match self {
            AssessmentMethod::NotAssessed => "none",
            AssessmentMethod::SelfAssessed => "self",
            AssessmentMethod::Calibration => "calibration",
        }
    }

    pub fn parse_lowercase(s: &str) -> (r: AssessmentMethod)
        ensures
            r == AssessmentMethod::parse(s@),
    {
        if same_chars(s, "self") || same_chars(s, "self_assessed") || same_chars(s, "self-assessed") {
            AssessmentMethod::SelfAssessed
        } else if same_chars(s, "calibration") || same_chars(s, "calibrated") {
            AssessmentMethod::Calibration
        } else {
            AssessmentMethod::NotAssessed
        }
    }

    pub fn from_str(s: &str) -> (r: AssessmentMethod)
        ensures
            r == AssessmentMethod::parse(lower_of(s@)),
    {
        let low = lowercase(s);
        AssessmentMethod::parse_lowercase(low.as_str())
    }
}

/// The two styles of teaching session.
#[derive(Debug, Clone, Copy, PartialEq, Eq, Structural)]
pub enum SessionType {
    /// The learner explains; the teacher finds the gaps.
    Feynman,
    /// The teacher asks; the learner discovers.
    Socratic,
}

impl SessionType {
    pub open spec fn spec_name(self) -> Seq<char> {
        match self {
            SessionType::Feynman => "feynman"@,
            SessionType::Socratic => "socratic"@,
        }
    }

    pub open spec fn spec_description(self) -> Seq<char> {
        match self {
            SessionType::Feynman => "User explains topic, the teacher identifies gaps"@,
            SessionType::Socratic => "The teacher guides via questions, user discovers answers"@,
        }
    }

    pub open spec fn parse(s: Seq<char>) -> Option<SessionType> {
        if s == "feynman"@ || s == "f"@ {
            Some(SessionType::Feynman)
        } else if s == "socratic"@ || s == "s"@ {
            Some(SessionType::Socratic)
        } else {
            None
        }
    }

    pub fn as_str(&self) -> (r: &'static str)
        ensures
            r@ == self.spec_name(),
    {
        match self {
            SessionType::Feynman => "feynman",
            SessionType::Socratic => "socratic",
        }
    }

    pub fn parse_lowercase(s: &str) -> (r: Option<SessionType>)
        ensures
            r == SessionType::parse(s@),
    {
        if same_chars(s, "feynman") || same_chars(s, "f") {
            Some(SessionType::Feynman)
        } else if same_chars(s, "socratic") || same_chars(s, "s") {
            Some(SessionType::Socratic)
        } else {
            None
        }
    }

    pub fn from_str(s: &str) -> (r: Option<SessionType>)
        ensures
            r == SessionType::parse(lower_of(s@)),
    {
        let low = lowercase(s);
        SessionType::parse_lowercase(low.as_str())
    }

    pub fn description(&self) -> (r: &'static str)
        ensures
            r@ == self.spec_description(),
    {
        match self {
            SessionType::Feynman => "User explains topic, the teacher identifies gaps",
            SessionType::Socratic => "The teacher guides via questions, user discovers answers",
        }
    }
}

/// The outcome of a single review.
#[derive(Debug, Clone, Copy, PartialEq, Eq, Structural)]
pub enum ReviewOutcome {
    Success,
    Partial,
    Fail,
}

impl ReviewOutcome {
    pub open spec fn spec_name(self) -> Seq<char> {
        match self {
            ReviewOutcome::Success => "success"@,
            ReviewOutcome::Partial => "partial"@,
            ReviewOutcome::Fail => "fail"@,
        }
    }

    pub open spec fn parse(s: Seq<char>) -> Option<ReviewOutcome> {
        if s == "success"@ || s == "s"@ || s == "yes"@ || s == "y"@ || s == "good"@ || s == "1"@ {
            Some(ReviewOutcome::Success)
        } else if s == "partial"@ || s == "p"@ || s == "maybe"@ || s == "ok"@ || s == "2"@ {
            Some(ReviewOutcome::Partial)
        } else if s == "fail"@ || s == "f"@ || s == "no"@ || s == "n"@ || s == "bad"@ || s
            == "0"@ || s == "3"@ {
            Some(ReviewOutcome::Fail)
        } else {
            None
        }
    }

    pub fn as_str(&self) -> (r: &'static str)
        ensures
            r@ == self.spec_name(),
    {
        match self {
            ReviewOutcome::Success => "success",
            ReviewOutcome::Partial => "partial",
            ReviewOutcome::Fail => "fail",
        }
    }

    pub fn parse_lowercase(s: &str) -> (r: Option<ReviewOutcome>)
        ensures
            r == ReviewOutcome::parse(s@),
    {
        if same_chars(s, "success") || same_chars(s, "s") || same_chars(s, "yes") || same_chars(
            s,
            "y",
        ) || same_chars(s, "good") || same_chars(s, "1") {
            Some(ReviewOutcome::Success)
        } else if same_chars(s, "partial") || same_chars(s, "p") || same_chars(s, "maybe")
            || same_chars(s, "ok") || same_chars(s, "2") {
            Some(ReviewOutcome::Partial)
        } else if same_chars(s, "fail") || same_chars(s, "f") || same_chars(s, "no") || same_chars(
            s,
            "n",
        ) || same_chars(s, "bad") || same_chars(s, "0") || same_chars(s, "3") {
            Some(ReviewOutcome::Fail)
        } else {
            None
        }
    }

    pub fn from_str(s: &str) -> (r: Option<ReviewOutcome>)
        ensures
            r == ReviewOutcome::parse(lower_of(s@)),
    {
        let low = lowercase(s);
        ReviewOutcome::parse_lowercase(low.as_str())
    }
}

/// How a teaching session ended: a review outcome, or abandoned.
#[derive(Debug, Clone, Copy, PartialEq, Eq, Structural)]
pub enum SessionOutcome {
    Success,
    Partial,
    Fail,
    Abandoned,
}

impl SessionOutcome {
    pub open spec fn spec_name(self) -> Seq<char> {
        match self {
            SessionOutcome::Success => "success"@,
            SessionOutcome::Partial => "partial"@,
            SessionOutcome::Fail => "fail"@,
            SessionOutcome::Abandoned => "abandoned"@,
        }
    }

    pub open spec fn parse(s: Seq<char>) -> Option<SessionOutcome> {
        if s == "success"@ || s == "s"@ {
            Some(SessionOutcome::Success)
        } else if s == "partial"@ || s == "p"@ {
            Some(SessionOutcome::Partial)
        } else if s == "fail"@ || s == "f"@ {
            Some(SessionOutcome::Fail)
        } else if s == "abandoned"@ || s == "a"@ || s == "quit"@ || s == "q"@ {
            Some(SessionOutcome::Abandoned)
        } else {
            None
        }
    }

    /// The review outcome that a session outcome corresponds to, if any.
    pub open spec fn spec_review_outcome(self) -> Option<ReviewOutcome> {
        match self {
            SessionOutcome::Success => Some(ReviewOutcome::Success),
            SessionOutcome::Partial => Some(ReviewOutcome::Partial),
            SessionOutcome::Fail => Some(ReviewOutcome::Fail),
            SessionOutcome::Abandoned => None,
        }
    }

    pub fn as_str(&self) -> (r: &'static str)
        ensures
            r@ == self.spec_name(),
    {
        match self {
            SessionOutcome::Success => "success",
            SessionOutcome::Partial => "partial",
            SessionOutcome::Fail => "fail",
            SessionOutcome::Abandoned => "abandoned",
        }
    }

    pub fn parse_lowercase(s: &str) -> (r: Option<SessionOutcome>)
        ensures
            r == SessionOutcome::parse(s@),
    {
        if same_chars(s, "success") || same_chars(s, "s") {
            Some(SessionOutcome::Success)
        } else if same_chars(s, "partial") || same_chars(s, "p") {
            Some(SessionOutcome::Partial)
        } else if same_chars(s, "fail") || same_chars(s, "f") {
            Some(SessionOutcome::Fail)
        } else if same_chars(s, "abandoned") || same_chars(s, "a") || same_chars(s, "quit")
            || same_chars(s, "q") {
            Some(SessionOutcome::Abandoned)
        } else {
            None
        }
    }

    pub fn from_str(s: &str) -> (r: Option<SessionOutcome>)
        ensures
            r == SessionOutcome::parse(lower_of(s@)),
    {
        let low = lowercase(s);
        SessionOutcome::parse_lowercase(low.as_str())
    }

    pub fn to_review_outcome(self) -> (r: Option<ReviewOutcome>)
        ensures
            r == self.spec_review_outcome(),
    {
        match self {
            SessionOutcome::Success => Some(ReviewOutcome::Success),
            SessionOutcome::Partial => Some(ReviewOutcome::Partial),
            SessionOutcome::Fail => Some(ReviewOutcome::Fail),
            SessionOutcome::Abandoned => None,
        }
    }
}

/// Where a plan stands in its workflow.
#[derive(Debug, Clone, Copy, PartialEq, Eq, Structural)]
pub enum PlanStatus {
    Interviewing,
    SpecReady,
    Approved,
    InProgress,
    Complete,
    Abandoned,
}

impl PlanStatus {
    pub open spec fn spec_name(self) -> Seq<char> {
        match self {
            PlanStatus::Interviewing => "interviewing"@,
            PlanStatus::SpecReady => "spec_ready"@,
            PlanStatus::Approved => "approved"@,
            PlanStatus::InProgress => "in_progress"@,
            PlanStatus::Complete => "complete"@,
            PlanStatus::Abandoned => "abandoned"@,
        }
    }

    pub open spec fn spec_label(self) -> Seq<char> {
        match self {
            PlanStatus::Interviewing => "Interviewing"@,
            PlanStatus::SpecReady => "Spec Ready"@,
            PlanStatus::Approved => "Approved"@,
            PlanStatus::InProgress => "In Progress"@,
            PlanStatus::Complete => "Complete"@,
            PlanStatus::Abandoned => "Abandoned"@,
        }
    }

    pub open spec fn parse(s: Seq<char>) -> Option<PlanStatus> {
        if s == "interviewing"@ {
            Some(PlanStatus::Interviewing)
        } else if s == "spec_ready"@ {
            Some(PlanStatus::SpecReady)
        } else if s == "approved"@ {
            Some(PlanStatus::Approved)
        } else if s == "in_progress"@ {
            Some(PlanStatus::InProgress)
        } else if s == "complete"@ {
            Some(PlanStatus::Complete)
        } else if s == "abandoned"@ {
            Some(PlanStatus::Abandoned)
        } else {
            None
        }
    }

    pub fn as_str(&self) -> (r: &'static str)
        ensures
            r@ == self.spec_name(),
    {
        match self {
            PlanStatus::Interviewing => "interviewing",
            PlanStatus::SpecReady => "spec_ready",
            PlanStatus::Approved => "approved",
            PlanStatus::InProgress => "in_progress",
            PlanStatus::Complete => "complete",
            PlanStatus::Abandoned => "abandoned",
        }
    }

    pub fn parse_lowercase(s: &str) -> (r: Option<PlanStatus>)
        ensures
            r == PlanStatus::parse(s@),
    {
        if same_chars(s, "interviewing") {
            Some(PlanStatus::Interviewing)
        } else if same_chars(s, "spec_ready") {
            Some(PlanStatus::SpecReady)
        } else if same_chars(s, "approved") {
            Some(PlanStatus::Approved)
        } else if same_chars(s, "in_progress") {
            Some(PlanStatus::InProgress)
        } else if same_chars(s, "complete") {
            Some(PlanStatus::Complete)
        } else if same_chars(s, "abandoned") {
            Some(PlanStatus::Abandoned)
        } else {
            None
        }
    }

    pub fn from_str(s: &str) -> (r: Option<PlanStatus>)
        ensures
            r == PlanStatus::parse(lower_of(s@)),
    {
        let low = lowercase(s);
        PlanStatus::parse_lowercase(low.as_str())
    }

    pub fn label(&self) -> (r: &'static str)
        ensures
            r@ == self.spec_label(),
    {
        match self {
            PlanStatus::Interviewing => "Interviewing",
            PlanStatus::SpecReady => "Spec Ready",
            PlanStatus::Approved => "Approved",
            PlanStatus::InProgress => "In Progress",
            PlanStatus::Complete => "Complete",
            PlanStatus::Abandoned => "Abandoned",
        }
    }
}

/// The kind of utterance an interview entry records.
#[derive(Debug, Clone, Copy, PartialEq, Eq, Structural)]
pub enum InterviewEntryType {
    Question,
    Answer,
    Note,
    Clarification,
    Decision,
}

impl InterviewEntryType {
    pub open spec fn spec_name(self) -> Seq<char> {
        match self {
            InterviewEntryType::Question => "question"@,
            InterviewEntryType::Answer => "answer"@,
            InterviewEntryType::Note => "note"@,
            InterviewEntryType::Clarification => "clarification"@,
            InterviewEntryType::Decision => "decision"@,
        }
    }

    pub open spec fn parse(s: Seq<char>) -> Option<InterviewEntryType> {
        if s == "question"@ {
            Some(InterviewEntryType::Question)
        } else if s == "answer"@ {
            Some(InterviewEntryType::Answer)
        } else if s == "note"@ {
            Some(InterviewEntryType::Note)
        } else if s == "clarification"@ {
            Some(InterviewEntryType::Clarification)
        } else if s == "decision"@ {
            Some(InterviewEntryType::Decision)
        } else {
            None
        }
    }

    pub fn as_str(&self) -> (r: &'static str)
        ensures
            r@ == self.spec_name(),
    {
        match self {
            InterviewEntryType::Question => "question",
            InterviewEntryType::Answer => "answer",
            InterviewEntryType::Note => "note",
            InterviewEntryType::Clarification => "clarification",
            InterviewEntryType::Decision => "decision",
        }
    }

    pub fn parse_lowercase(s: &str) -> (r: Option<InterviewEntryType>)
        ensures
            r == InterviewEntryType::parse(s@),
    {
        if same_chars(s, "question") {
            Some(InterviewEntryType::Question)
        } else if same_chars(s, "answer") {
            Some(InterviewEntryType::Answer)
        } else if same_chars(s, "note") {
            Some(InterviewEntryType::Note)
        } else if same_chars(s, "clarification") {
            Some(InterviewEntryType::Clarification)
        } else if same_chars(s, "decision") {
            Some(InterviewEntryType::Decision)
        } else {
            None
        }
    }

    pub fn from_str(s: &str) -> (r: Option<InterviewEntryType>)
        ensures
            r == InterviewEntryType::parse(lower_of(s@)),
    {
        let low = lowercase(s);
        InterviewEntryType::parse_lowercase(low.as_str())
    }
}

/// The closed set of topics that an interview entry can be filed under.
#[derive(Debug, Clone, Copy, PartialEq, Eq, Structural)]
pub enum InterviewCategory {
    Requirements,
    EdgeCases,
    Security,
    Deployment,
    Architecture,
    Performance,
    Testing,
    DoD,
    Scope,
    Dependencies,
    Risks,
    Other,
}

impl InterviewCategory {
    pub open spec fn spec_name(self) -> Seq<char> {
        match self {
            InterviewCategory::Requirements => "requirements"@,
            InterviewCategory::EdgeCases => "edge_cases"@,
            InterviewCategory::Security => "security"@,
            InterviewCategory::Deployment => "deployment"@,
            InterviewCategory::Architecture => "architecture"@,
            InterviewCategory::Performance => "performance"@,
            InterviewCategory::Testing => "testing"@,
            InterviewCategory::DoD => "dod"@,
            InterviewCategory::Scope => "scope"@,
            InterviewCategory::Dependencies => "dependencies"@,
            InterviewCategory::Risks => "risks"@,
            InterviewCategory::Other => "other"@,
        }
    }

    /// Whether lowercase text is the name of one of the categories.
    pub open spec fn is_name(s: Seq<char>) -> bool {
        exists|c: InterviewCategory| c.spec_name() == s
    }

    /// The category that lowercase text names; text naming none is `Other`.
    pub open spec fn parse(s: Seq<char>) -> InterviewCategory {
        if s == "requirements"@ {
            InterviewCategory::Requirements
        } else if s == "edge_cases"@ {
            InterviewCategory::EdgeCases
        } else if s == "security"@ {
            InterviewCategory::Security
        } else if s == "deployment"@ {
            InterviewCategory::Deployment
        } else if s == "architecture"@ {
            InterviewCategory::Architecture
        } else if s == "performance"@ {
            InterviewCategory::Performance
        } else if s == "testing"@ {
            InterviewCategory::Testing
        } else if s == "dod"@ {
            InterviewCategory::DoD
        } else if s == "scope"@ {
            InterviewCategory::Scope
        } else if s == "dependencies"@ {
            InterviewCategory::Dependencies
        } else if s == "risks"@ {
            InterviewCategory::Risks
        } else {
            InterviewCategory::Other
        }
    }

    pub fn as_str(&self) -> (r: &'static str)
        ensures
            r@ == self.spec_name(),
    {
        match self {
            InterviewCategory::Requirements => "requirements",
            InterviewCategory::EdgeCases => "edge_cases",
            InterviewCategory::Security => "security",
            InterviewCategory::Deployment => "deployment",
            InterviewCategory::Architecture => "architecture",
            InterviewCategory::Performance => "performance",
            InterviewCategory::Testing => "testing",
            InterviewCategory::DoD => "dod",
            InterviewCategory::Scope => "scope",
            InterviewCategory::Dependencies => "dependencies",
            InterviewCategory::Risks => "risks",
            InterviewCategory::Other => "other",
        }
    }

    /// Reads a category from lowercase text; text that names no category is
    /// filed under `Other`, so the result is never `None`.
    pub fn parse_lowercase(s: &str) -> (r: Option<InterviewCategory>)
        ensures
            r == Some(InterviewCategory::parse(s@)),
    {
        if same_chars(s, "requirements") {
            Some(InterviewCategory::Requirements)
        } else if same_chars(s, "edge_cases") {
            Some(InterviewCategory::EdgeCases)
        } else if same_chars(s, "security") {
            Some(InterviewCategory::Security)
        } else if same_chars(s, "deployment") {
            Some(InterviewCategory::Deployment)
        } else if same_chars(s, "architecture") {
            Some(InterviewCategory::Architecture)
        } else if same_chars(s, "performance") {
            Some(InterviewCategory::Performance)
        } else if same_chars(s, "testing") {
            Some(InterviewCategory::Testing)
        } else if same_chars(s, "dod") {
            Some(InterviewCategory::DoD)
        } else if same_chars(s, "scope") {
            Some(InterviewCategory::Scope)
        } else if same_chars(s, "dependencies") {
            Some(InterviewCategory::Dependencies)
        } else if same_chars(s, "risks") {
            Some(InterviewCategory::Risks)
        } else {
            Some(InterviewCategory::Other)
        }
    }

    pub fn from_str(s: &str) -> (r: Option<InterviewCategory>)
        ensures
            r == Some(InterviewCategory::parse(lower_of(s@))),
    {
        let low = lowercase(s);
        InterviewCategory::parse_lowercase(low.as_str())
    }
}

/// A category's name reads back as the same category.
pub proof fn lemma_category_name_round_trip(c: InterviewCategory)
    ensures
        InterviewCategory::parse(c.spec_name()) == c,
{
    reveal_strlit("requirements");
    reveal_strlit("edge_cases");
    reveal_strlit("security");
    reveal_strlit("deployment");
    reveal_strlit("architecture");
    reveal_strlit("performance");
    reveal_strlit("testing");
    reveal_strlit("dod");
    reveal_strlit("scope");
    reveal_strlit("dependencies");
    reveal_strlit("risks");
    reveal_strlit("other");
    let s = c.spec_name();
    assert(s == "requirements"@ ==> s[0] == "requirements"@[0] && s.len() == 12);
    assert(s == "edge_cases"@ ==> s[0] == "edge_cases"@[0] && s.len() == 10);
    assert(s == "security"@ ==> s[0] == "security"@[0] && s.len() == 8);
    assert(s == "deployment"@ ==> s[0] == "deployment"@[0] && s.len() == 10);
    assert(s == "architecture"@ ==> s[0] == "architecture"@[0] && s.len() == 12);
    assert(s == "performance"@ ==> s[0] == "performance"@[0] && s.len() == 11);
    assert(s == "testing"@ ==> s[0] == "testing"@[0] && s.len() == 7);
    assert(s == "dod"@ ==> s[0] == "dod"@[0] && s.len() == 3);
    assert(s == "scope"@ ==> s[0] == "scope"@[0] && s.len() == 5);
    assert(s == "dependencies"@ ==> s[0] == "dependencies"@[0] && s.len() == 12);
    assert(s == "risks"@ ==> s[0] == "risks"@[0] && s.len() == 5);
    assert(s == "other"@ ==> s[0] == "other"@[0] && s.len() == 5);
}

/// Text that names no category is filed under `Other`, and what is stored for
/// it (the name `other`) reads back as `Other` again.
pub proof fn lemma_unrecognized_category_is_other(s: Seq<char>)
    requires
        !InterviewCategory::is_name(s),
    ensures
        InterviewCategory::parse(s) == InterviewCategory::Other,
        InterviewCategory::parse(InterviewCategory::parse(s).spec_name())
            == InterviewCategory::Other,
{
    if InterviewCategory::parse(s) != InterviewCategory::Other {
        let c = InterviewCategory::parse(s);
        assert(c.spec_name() == s);
    }
    lemma_category_name_round_trip(InterviewCategory::Other);
}

/// A plan status's name reads back as the same status.
pub proof fn lemma_status_name_round_trip(st: PlanStatus)
    ensures
        PlanStatus::parse(st.spec_name()) == Some(st),
{
    reveal_strlit("interviewing");
    reveal_strlit("spec_ready");
    reveal_strlit("approved");
    reveal_strlit("in_progress");
    reveal_strlit("complete");
    reveal_strlit("abandoned");
    let s = st.spec_name();
    assert(s == "interviewing"@ ==> s[0] == "interviewing"@[0] && s.len() == 12);
    assert(s == "spec_ready"@ ==> s[0] == "spec_ready"@[0] && s.len() == 10);
    assert(s == "approved"@ ==> s[0] == "approved"@[0] && s.len() == 8);
    assert(s == "in_progress"@ ==> s[0] == "in_progress"@[0] && s.len() == 11);
    assert(s == "complete"@ ==> s[0] == "complete"@[0] && s.len() == 8);
    assert(s == "abandoned"@ ==> s[0] == "abandoned"@[0] && s.len() == 9);
}

} // verus!

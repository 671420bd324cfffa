use feynman::kinds::{
    AssessmentMethod, InterviewCategory, InterviewEntryType, PlanStatus, ReviewOutcome,
    SessionOutcome, SessionType, SkillLevel,
};

#[test]
fn as_str_success() {
    assert_eq!(ReviewOutcome::Success.as_str(), "success");
}

#[test]
fn as_str_partial() {
    assert_eq!(ReviewOutcome::Partial.as_str(), "partial");
}

#[test]
fn as_str_fail() {
    assert_eq!(ReviewOutcome::Fail.as_str(), "fail");
}

#[test]
fn from_str_success_variants() {
    let variants = ["success", "s", "yes", "y", "good", "1", "SUCCESS", "Yes"];
    for v in variants {
        assert!(
            matches!(ReviewOutcome::from_str(v), Some(ReviewOutcome::Success)),
            "Expected Success for '{}'",
            v
        );
    }
}

#[test]
fn from_str_partial_variants() {
    let variants = ["partial", "p", "maybe", "ok", "2", "PARTIAL", "Maybe"];
    for v in variants {
        assert!(
            matches!(ReviewOutcome::from_str(v), Some(ReviewOutcome::Partial)),
            "Expected Partial for '{}'",
            v
        );
    }
}

#[test]
fn from_str_fail_variants() {
    let variants = ["fail", "f", "no", "n", "bad", "0", "3", "FAIL", "No"];
    for v in variants {
        assert!(
            matches!(ReviewOutcome::from_str(v), Some(ReviewOutcome::Fail)),
            "Expected Fail for '{}'",
            v
        );
    }
}

#[test]
fn from_str_invalid() {
    assert!(ReviewOutcome::from_str("invalid").is_none());
    assert!(ReviewOutcome::from_str("").is_none());
    assert!(ReviewOutcome::from_str("123").is_none());
    assert!(ReviewOutcome::from_str("   ").is_none());
}

#[test]
fn as_i32_returns_correct_values() {
    assert_eq!(SkillLevel::Unknown.as_i32(), 0);
    assert_eq!(SkillLevel::Novice.as_i32(), 1);
    assert_eq!(SkillLevel::Beginner.as_i32(), 2);
    assert_eq!(SkillLevel::Intermediate.as_i32(), 3);
    assert_eq!(SkillLevel::Advanced.as_i32(), 4);
    assert_eq!(SkillLevel::Expert.as_i32(), 5);
}

#[test]
fn from_i32_returns_correct_variants() {
    assert_eq!(SkillLevel::from_i32(0), SkillLevel::Unknown);
    assert_eq!(SkillLevel::from_i32(1), SkillLevel::Novice);
    assert_eq!(SkillLevel::from_i32(2), SkillLevel::Beginner);
    assert_eq!(SkillLevel::from_i32(3), SkillLevel::Intermediate);
    assert_eq!(SkillLevel::from_i32(4), SkillLevel::Advanced);
    assert_eq!(SkillLevel::from_i32(5), SkillLevel::Expert);
}

#[test]
fn from_i32_invalid_returns_unknown() {
    assert_eq!(SkillLevel::from_i32(-1), SkillLevel::Unknown);
    assert_eq!(SkillLevel::from_i32(6), SkillLevel::Unknown);
    assert_eq!(SkillLevel::from_i32(100), SkillLevel::Unknown);
}

#[test]
fn label_returns_correct_strings() {
    assert_eq!(SkillLevel::Unknown.label(), "Unknown");
    assert_eq!(SkillLevel::Novice.label(), "Novice");
    assert_eq!(SkillLevel::Beginner.label(), "Beginner");
    assert_eq!(SkillLevel::Intermediate.label(), "Intermediate");
    assert_eq!(SkillLevel::Advanced.label(), "Advanced");
    assert_eq!(SkillLevel::Expert.label(), "Expert");
}

#[test]
fn models_from_str_valid_inputs() {
    assert_eq!(SkillLevel::from_str("unknown"), Some(SkillLevel::Unknown));
    assert_eq!(SkillLevel::from_str("novice"), Some(SkillLevel::Novice));
    assert_eq!(SkillLevel::from_str("beginner"), Some(SkillLevel::Beginner));
    assert_eq!(
        SkillLevel::from_str("intermediate"),
        Some(SkillLevel::Intermediate)
    );
    assert_eq!(SkillLevel::from_str("advanced"), Some(SkillLevel::Advanced));
    assert_eq!(SkillLevel::from_str("expert"), Some(SkillLevel::Expert));
}

#[test]
fn from_str_valid_inputs() {
    assert_eq!(SessionType::from_str("feynman"), Some(SessionType::Feynman));
    assert_eq!(SessionType::from_str("f"), Some(SessionType::Feynman));
    assert_eq!(
        SessionType::from_str("socratic"),
        Some(SessionType::Socratic)
    );
    assert_eq!(SessionType::from_str("s"), Some(SessionType::Socratic));
}

#[test]
fn session_outcome_from_str_valid_inputs() {
    assert_eq!(
        SessionOutcome::from_str("success"),
        Some(SessionOutcome::Success)
    );
    assert_eq!(SessionOutcome::from_str("s"), Some(SessionOutcome::Success));
    assert_eq!(
        SessionOutcome::from_str("partial"),
        Some(SessionOutcome::Partial)
    );
    assert_eq!(SessionOutcome::from_str("fail"), Some(SessionOutcome::Fail));
    assert_eq!(
        SessionOutcome::from_str("abandoned"),
        Some(SessionOutcome::Abandoned)
    );
    assert_eq!(
        SessionOutcome::from_str("quit"),
        Some(SessionOutcome::Abandoned)
    );
}

#[test]
fn assessment_method_from_str_valid_inputs() {
    assert_eq!(
        AssessmentMethod::from_str("self"),
        AssessmentMethod::SelfAssessed
    );
    assert_eq!(
        AssessmentMethod::from_str("calibration"),
        AssessmentMethod::Calibration
    );
    assert_eq!(
        AssessmentMethod::from_str("none"),
        AssessmentMethod::NotAssessed
    );
}

#[test]
fn plan_status_from_str_valid_inputs() {
    assert_eq!(
        PlanStatus::from_str("interviewing"),
        Some(PlanStatus::Interviewing)
    );
    assert_eq!(
        PlanStatus::from_str("spec_ready"),
        Some(PlanStatus::SpecReady)
    );
    assert_eq!(PlanStatus::from_str("complete"), Some(PlanStatus::Complete));
}

#[test]
fn entry_type_from_str_valid_inputs() {
    assert_eq!(
        InterviewEntryType::from_str("question"),
        Some(InterviewEntryType::Question)
    );
    assert_eq!(
        InterviewEntryType::from_str("answer"),
        Some(InterviewEntryType::Answer)
    );
    assert_eq!(
        InterviewEntryType::from_str("decision"),
        Some(InterviewEntryType::Decision)
    );
}

#[test]
fn category_from_str_valid_inputs() {
    assert_eq!(
        InterviewCategory::from_str("requirements"),
        Some(InterviewCategory::Requirements)
    );
    assert_eq!(
        InterviewCategory::from_str("edge_cases"),
        Some(InterviewCategory::EdgeCases)
    );
    assert_eq!(
        InterviewCategory::from_str("security"),
        Some(InterviewCategory::Security)
    );
}

#[test]
fn from_str_numeric_inputs() {
    assert_eq!(SkillLevel::from_str("0"), Some(SkillLevel::Unknown));
    assert_eq!(SkillLevel::from_str("1"), Some(SkillLevel::Novice));
    assert_eq!(SkillLevel::from_str("5"), Some(SkillLevel::Expert));
}

#[test]
fn models_from_str_invalid_returns_none() {
    assert_eq!(SkillLevel::from_str("invalid"), None);
    assert_eq!(SkillLevel::from_str(""), None);
}

#[test]
fn from_str_invalid_returns_none() {
    assert_eq!(SessionType::from_str("invalid"), None);
    assert_eq!(SessionType::from_str(""), None);
}

#[test]
fn assessment_method_from_str_invalid_returns_none() {
    assert_eq!(
        AssessmentMethod::from_str("invalid"),
        AssessmentMethod::NotAssessed
    );
}

#[test]
fn plan_status_from_str_invalid_returns_none() {
    assert_eq!(PlanStatus::from_str("invalid"), None);
}

#[test]
fn entry_type_from_str_invalid_returns_none() {
    assert_eq!(InterviewEntryType::from_str("invalid"), None);
}

#[test]
fn models_as_str_returns_correct_values() {
    assert_eq!(SessionType::Feynman.as_str(), "feynman");
    assert_eq!(SessionType::Socratic.as_str(), "socratic");
}

#[test]
fn as_str_returns_correct_values() {
    assert_eq!(SessionOutcome::Success.as_str(), "success");
    assert_eq!(SessionOutcome::Partial.as_str(), "partial");
    assert_eq!(SessionOutcome::Fail.as_str(), "fail");
    assert_eq!(SessionOutcome::Abandoned.as_str(), "abandoned");
}

#[test]
fn assessment_method_as_str_returns_correct_values() {
    assert_eq!(AssessmentMethod::NotAssessed.as_str(), "none");
    assert_eq!(AssessmentMethod::SelfAssessed.as_str(), "self");
    assert_eq!(AssessmentMethod::Calibration.as_str(), "calibration");
}

#[test]
fn plan_status_as_str_returns_correct_values() {
    assert_eq!(PlanStatus::Interviewing.as_str(), "interviewing");
    assert_eq!(PlanStatus::SpecReady.as_str(), "spec_ready");
    assert_eq!(PlanStatus::Approved.as_str(), "approved");
    assert_eq!(PlanStatus::InProgress.as_str(), "in_progress");
    assert_eq!(PlanStatus::Complete.as_str(), "complete");
    assert_eq!(PlanStatus::Abandoned.as_str(), "abandoned");
}

#[test]
fn entry_type_as_str_returns_correct_values() {
    assert_eq!(InterviewEntryType::Question.as_str(), "question");
    assert_eq!(InterviewEntryType::Answer.as_str(), "answer");
    assert_eq!(InterviewEntryType::Note.as_str(), "note");
    assert_eq!(InterviewEntryType::Clarification.as_str(), "clarification");
    assert_eq!(InterviewEntryType::Decision.as_str(), "decision");
}

#[test]
fn category_as_str_returns_correct_values() {
    assert_eq!(InterviewCategory::Requirements.as_str(), "requirements");
    assert_eq!(InterviewCategory::Security.as_str(), "security");
    assert_eq!(InterviewCategory::Architecture.as_str(), "architecture");
    assert_eq!(InterviewCategory::DoD.as_str(), "dod");
}

#[test]
fn from_str_case_insensitive() {
    assert_eq!(SessionType::from_str("FEYNMAN"), Some(SessionType::Feynman));
    assert_eq!(
        SessionType::from_str("Socratic"),
        Some(SessionType::Socratic)
    );
}

#[test]
fn description_returns_meaningful_text() {
    assert!(SessionType::Feynman.description().contains("explains"));
    assert!(SessionType::Socratic.description().contains("questions"));
}

#[test]
fn to_review_outcome_converts_correctly() {
    assert_eq!(
        SessionOutcome::Success.to_review_outcome(),
        Some(ReviewOutcome::Success)
    );
    assert_eq!(
        SessionOutcome::Partial.to_review_outcome(),
        Some(ReviewOutcome::Partial)
    );
    assert_eq!(
        SessionOutcome::Fail.to_review_outcome(),
        Some(ReviewOutcome::Fail)
    );
    assert_eq!(SessionOutcome::Abandoned.to_review_outcome(), None);
}

#[test]
fn label_returns_human_readable() {
    assert_eq!(PlanStatus::Interviewing.label(), "Interviewing");
    assert_eq!(PlanStatus::SpecReady.label(), "Spec Ready");
    assert_eq!(PlanStatus::InProgress.label(), "In Progress");
}

#[test]
fn from_str_unknown_returns_other() {
    assert_eq!(
        InterviewCategory::from_str("unknown_category"),
        Some(InterviewCategory::Other)
    );
}

#[test]
fn category_names_read_back() {
    let all = [
        InterviewCategory::Requirements,
        InterviewCategory::EdgeCases,
        InterviewCategory::Security,
        InterviewCategory::Deployment,
        InterviewCategory::Architecture,
        InterviewCategory::Performance,
        InterviewCategory::Testing,
        InterviewCategory::DoD,
        InterviewCategory::Scope,
        InterviewCategory::Dependencies,
        InterviewCategory::Risks,
        InterviewCategory::Other,
    ];
    for c in all {
        assert_eq!(InterviewCategory::parse_lowercase(c.as_str()), Some(c));
    }
}

#[test]
fn unrecognized_category_is_stored_as_other() {
    let c = InterviewCategory::from_str("Marketing").unwrap();
    assert_eq!(c, InterviewCategory::Other);
    assert_eq!(c.as_str(), "other");
    assert_eq!(
        InterviewCategory::parse_lowercase(c.as_str()),
        Some(InterviewCategory::Other)
    );
}

#[test]
fn category_parsing_folds_case() {
    assert_eq!(
        InterviewCategory::from_str("SECURITY"),
        Some(InterviewCategory::Security)
    );
    assert_eq!(
        InterviewCategory::parse_lowercase("SECURITY"),
        Some(InterviewCategory::Other)
    );
}

#[test]
fn plan_status_names_read_back() {
    let all = [
        PlanStatus::Interviewing,
        PlanStatus::SpecReady,
        PlanStatus::Approved,
        PlanStatus::InProgress,
        PlanStatus::Complete,
        PlanStatus::Abandoned,
    ];
    for st in all {
        assert_eq!(PlanStatus::parse_lowercase(st.as_str()), Some(st));
    }
}

#[test]
fn lowercase_parsers_reject_upper_case() {
    assert_eq!(SkillLevel::parse_lowercase("NOVICE"), None);
    assert_eq!(SkillLevel::from_str("NOVICE"), Some(SkillLevel::Novice));
    assert_eq!(ReviewOutcome::parse_lowercase("YES"), None);
    assert_eq!(
        AssessmentMethod::from_str("Self-Assessed"),
        AssessmentMethod::SelfAssessed
    );
    assert_eq!(
        AssessmentMethod::from_str("calibrated"),
        AssessmentMethod::Calibration
    );
    assert_eq!(
        SessionOutcome::from_str("Q"),
        Some(SessionOutcome::Abandoned)
    );
    assert_eq!(PlanStatus::from_str("In_Progress"), Some(PlanStatus::InProgress));
    assert_eq!(
        InterviewEntryType::from_str("NOTE"),
        Some(InterviewEntryType::Note)
    );
}

#[test]
fn skill_labels_and_descriptions() {
    assert_eq!(PlanStatus::Approved.label(), "Approved");
    assert_eq!(PlanStatus::Complete.label(), "Complete");
    assert_eq!(PlanStatus::Abandoned.label(), "Abandoned");
    assert_eq!(
        SessionType::Feynman.description(),
        "User explains topic, the teacher identifies gaps"
    );
}

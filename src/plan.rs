//! The plan workflow: status changes, plan metadata and interview entries.
//!
//! Any status may follow any other; every change, and every new interview
//! entry, moves the plan's `updated_at` to the time of the change. A record
//! built here that the store has not saved yet has id 0.

use vstd::prelude::*;

use crate::kinds::{InterviewCategory, InterviewEntryType, PlanStatus};
use crate::models::{InterviewEntry, Plan};

verus! {

/// A new plan, being interviewed, created at time `now`.
pub fn new_plan(title: String, initial_description: String, now: i64) -> (p: Plan)
    ensures
        p.id == 0,
        p.title == title,
        p.initial_description == initial_description,
        p.status == PlanStatus::Interviewing,
        p.engineer_level is None,
        p.spec_file_path is None,
        p.created_at == now,
        p.updated_at == now,
{
    Plan {
        id: 0,
        title,
        initial_description,
        status: PlanStatus::Interviewing,
        engineer_level: None,
        spec_file_path: None,
        created_at: now,
        updated_at: now,
    }
}

/// Sets a plan's status, from whatever status it had.
pub fn set_status(plan: &mut Plan, status: PlanStatus, now: i64)
    ensures
        *final(plan) == (Plan { status, updated_at: now, ..*old(plan) }),
{
    plan.status = status;
    plan.updated_at = now;
}

/// Records the engineer level that the plan is written for.
pub fn set_engineer_level(plan: &mut Plan, level: String, now: i64)
    ensures
        *final(plan) == (Plan { engineer_level: Some(level), updated_at: now, ..*old(plan) }),
{
    plan.engineer_level = Some(level);
    plan.updated_at = now;
}

/// Attaches the path of the written specification; whatever the plan's
/// status was, it becomes `SpecReady`.
pub fn attach_spec(plan: &mut Plan, path: String, now: i64)
    ensures
        final(plan).status == PlanStatus::SpecReady,
        final(plan).updated_at == now,
        final(plan).spec_file_path == Some(path),
        *final(plan) == (Plan {
            spec_file_path: Some(path),
            status: PlanStatus::SpecReady,
            updated_at: now,
            ..*old(plan)
        }),
{
    plan.spec_file_path = Some(path);
    plan.status = PlanStatus::SpecReady;
    plan.updated_at = now;
}

/// A new interview entry of the plan, made at time `now`; the plan is marked
/// as updated then.
pub fn add_interview_entry(
    plan: &mut Plan,
    entry_type: InterviewEntryType,
    content: String,
    category: InterviewCategory,
    now: i64,
) -> (e: InterviewEntry)
    ensures
        e.id == 0,
        e.plan_id == old(plan).id,
        e.entry_type == entry_type,
        e.content == content,
        e.category == category,
        e.created_at == now,
        *final(plan) == (Plan { updated_at: now, ..*old(plan) }),
{
    plan.updated_at = now;
    InterviewEntry { id: 0, plan_id: plan.id, entry_type, content, category, created_at: now }
}

} // verus!

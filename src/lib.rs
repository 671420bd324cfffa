//! Knowledge-progress and scheduling engine: spaced-repetition review
//! transitions, weighted selection of the next topic, learning sessions and
//! their gaps, skill assessments, and the plan interview workflow.

pub mod browse;
pub mod kinds;
pub mod models;
pub mod nav;
pub mod plan;
pub mod schedule;
pub mod selector;
pub mod session;
pub mod text;

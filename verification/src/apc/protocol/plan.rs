//! Execution plans.

use vstd::prelude::*;

verus! {

/// How much a plan entry matters.
#[derive(PartialEq, Eq, Clone, Copy, Debug, Structural)]
pub enum PlanEntryPriority {
    High,
    Medium,
    Low,
}

impl PlanEntryPriority {
    /// The name of the priority.
    pub open spec fn name(self) -> Seq<char> {
        match self {
            PlanEntryPriority::High => "High"@,
            PlanEntryPriority::Medium => "Medium"@,
            PlanEntryPriority::Low => "Low"@,
        }
    }

    pub fn as_str(&self) -> (name: &'static str)
        ensures
            name@ == self.name(),
    {
        match self {
            PlanEntryPriority::High => "High",
            PlanEntryPriority::Medium => "Medium",
            PlanEntryPriority::Low => "Low",
        }
    }
}

/// How far a plan entry has come.
#[derive(PartialEq, Eq, Clone, Copy, Debug, Structural)]
pub enum PlanEntryStatus {
    Pending,
    InProgress,
    Completed,
}

/// One task of a plan.
#[derive(Debug, Clone)]
pub struct PlanEntry {
    pub content: String,
    pub priority: PlanEntryPriority,
    pub status: PlanEntryStatus,
    pub meta: Option<String>,
}

impl PlanEntry {
    pub fn new(content: &str, priority: PlanEntryPriority, status: PlanEntryStatus) -> (entry:
        PlanEntry)
        ensures
            entry.content@ == content@,
            entry.priority == priority,
            entry.status == status,
            entry.meta is None,
    {
        PlanEntry { content: content.to_owned(), priority, status, meta: None }
    }
}

/// The tasks by which an agent means to carry out a request.
#[derive(Debug, Clone)]
pub struct Plan {
    pub entries: Vec<PlanEntry>,
    pub meta: Option<String>,
}

impl Plan {
    pub fn new(entries: Vec<PlanEntry>) -> (plan: Plan)
        ensures
            plan.entries == entries,
            plan.meta is None,
    {
        Plan { entries, meta: None }
    }

    pub fn meta(self, meta: String) -> (plan: Plan)
        ensures
            plan == (Plan { meta: Some(meta), ..self }),
    {
        Plan { meta: Some(meta), ..self }
    }
}

} // verus!

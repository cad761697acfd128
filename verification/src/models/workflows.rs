//! The parts of a workflow that hold no database identifier.
use vstd::prelude::*;

verus! {

/// When an action runs: on entering a state or on leaving it.
#[derive(Clone, Copy, Debug, PartialEq, Eq, Structural)]
pub enum ActionTrigger {
    Entry,
    Exit,
}

/// What an action does.
#[derive(Clone, Debug)]
pub enum ActionConfiguration {
    AutoAssign,
    AssignTo { user_id: i64 },
    Email { template_id: i64, email: String },
    NotifyCreator { template_id: i64 },
    NotifyManager { template_id: i64, user_id: i64 },
    NotifyVendor { template_id: i64 },
}

/// A datum that a manual trigger option asks for.
#[derive(Clone, Debug)]
pub enum TriggerOptionData {
    Comment,
    Date { label: String },
    VendorId { label: String },
}

} // verus!

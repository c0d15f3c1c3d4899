//! What the runtime monitor records: events, blocked calls, limit violations, and the report of
//! one run.
use vstd::prelude::*;

verus! {

/// An event streamed while a plugin runs.
#[derive(Debug, Clone)]
pub enum MonitorEvent {
    ExecutionStarted { plugin_name: String, version: String },
    SyscallExecuted { name: String, target: String },
    BlockedSyscall { name: String, target: String, reason: String },
    ResourceExceeded { resource: String, limit: String, actual: String },
    ExecutionFinished { duration_ms: u64, exit_code: i32 },
}

/// A host call that the sandbox refused.
#[derive(Debug, Clone)]
pub struct BlockedCallLog {
    pub name: String,
    pub target: String,
    pub reason: String,
}

/// A resource limit that a plugin ran into.
#[derive(Debug, Clone)]
pub struct ResourceViolationLog {
    pub resource: String,
    pub limit: String,
    pub actual: String,
}

/// The report of one run.
#[derive(Debug, Default, Clone)]
pub struct ExecutionReport {
    pub plugin_name: String,
    pub version: String,
    pub duration_ms: u64,
    pub exit_code: i32,
    pub allowed_calls: usize,
    pub blocked_calls: Vec<BlockedCallLog>,
    pub resource_violations: Vec<ResourceViolationLog>,
    pub memory_peak_mb: u64,
}

/// The meaning of a blocked call.
pub ghost struct BlockedCallModel {
    pub name: Seq<char>,
    pub target: Seq<char>,
    pub reason: Seq<char>,
}

impl View for BlockedCallLog {
    type V = BlockedCallModel;

    open spec fn view(&self) -> BlockedCallModel {
        BlockedCallModel { name: self.name@, target: self.target@, reason: self.reason@ }
    }
}


/// The meaning of a limit violation.
pub ghost struct ViolationModel {
    pub resource: Seq<char>,
    pub limit: Seq<char>,
    pub actual: Seq<char>,
}

impl View for ResourceViolationLog {
    type V = ViolationModel;

    open spec fn view(&self) -> ViolationModel {
        ViolationModel { resource: self.resource@, limit: self.limit@, actual: self.actual@ }
    }
}

/// The views of a list of blocked calls.
pub open spec fn blocked_view(v: Seq<BlockedCallLog>) -> Seq<BlockedCallModel> {
    v.map_values(|b: BlockedCallLog| b@)
}

/// The views of a list of limit violations.
pub open spec fn violations_view(v: Seq<ResourceViolationLog>) -> Seq<ViolationModel> {
    v.map_values(|r: ResourceViolationLog| r@)
}

impl BlockedCallLog {
    /// The event that announces this blocked call.
    pub fn to_event(&self) -> (e: MonitorEvent)
        ensures
            e matches MonitorEvent::BlockedSyscall { name, target, reason } && name@ == self.name@
                && target@ == self.target@ && reason@ == self.reason@,
    {
        MonitorEvent::BlockedSyscall {
            name: self.name.clone(),
            target: self.target.clone(),
            reason: self.reason.clone(),
        }
    }
}

} // verus!

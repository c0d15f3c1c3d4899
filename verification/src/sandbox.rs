//! The decisions the capability sandbox takes while a plugin runs: which socket calls it
//! refuses, how much memory it lets a plugin have, when it interrupts a run, and how it reads
//! a trap.
use vstd::prelude::*;
use crate::manifest::{CapabilityManifest, EnvironmentModel, EnvironmentPermissions, strings_view, clone_strings};
use crate::monitor::{
    MonitorEvent, BlockedCallLog, BlockedCallModel, ExecutionReport, ResourceViolationLog, ViolationModel,
    blocked_view, violations_view,
};
use crate::text::{decimal, decimal_text, has_substring, str_contains};
use vstd::string::*;

verus! {

/// The WASI errno that a refused capability call returns (`ERRNO_NOTCAPABLE`).
pub const ERRNO_NOTCAPABLE: i32 = 76;

/// The exit code recorded for a run interrupted at its deadline.
pub const EXIT_TIMEOUT: i32 = 124;

/// Bytes in one MB as the limits count them.
pub const BYTES_PER_MB: u64 = 1048576;

/// Milliseconds in one tick of the epoch timer.
pub const EPOCH_TICK_MS: u64 = 100;

/// The socket calls that the sandbox intercepts.
#[derive(Debug, Clone, Copy, PartialEq, Eq, Structural)]
pub enum SocketCall {
    /// `wasi_snapshot_preview1::sock_open`
    Open,
    /// `wasi_snapshot_preview1::sock_connect`
    Connect,
}

/// What the sandbox answers to a socket call: the errno the guest sees, and the log entry of
/// a refused call.
#[derive(Debug, Clone)]
pub struct SocketDecision {
    pub errno: i32,
    pub blocked: Option<BlockedCallLog>,
}

/// The log entry of a refused socket call.
pub open spec fn blocked_socket_log(call: SocketCall) -> BlockedCallModel {
    match call {
        SocketCall::Open => BlockedCallModel {
            name: "wasi_snapshot_preview1::sock_open"@,
            target: "outbound_socket"@,
            reason: "Network access disabled by capability manifest"@,
        },
        SocketCall::Connect => BlockedCallModel {
            name: "wasi_snapshot_preview1::sock_connect"@,
            target: "network_endpoint"@,
            reason: "Network connection blocked by capability policy"@,
        },
    }
}

/// Answers a socket call: allowed (errno 0, nothing logged) when the manifest grants the
/// network, refused with `ERRNO_NOTCAPABLE` and logged otherwise.
pub fn decide_socket_call(call: SocketCall, network_allowed: bool) -> (d: SocketDecision)
    ensures
        network_allowed ==> d.errno == 0 && d.blocked is None,
        !network_allowed ==> d.errno == ERRNO_NOTCAPABLE && (d.blocked matches Some(log) && log@
            == blocked_socket_log(call)),
{
    if network_allowed {
        return SocketDecision { errno: 0, blocked: None };
    }
    let log = match call {
        SocketCall::Open => BlockedCallLog {
            name: "wasi_snapshot_preview1::sock_open".to_owned(),
            target: "outbound_socket".to_owned(),
            reason: "Network access disabled by capability manifest".to_owned(),
        },
        SocketCall::Connect => BlockedCallLog {
            name: "wasi_snapshot_preview1::sock_connect".to_owned(),
            target: "network_endpoint".to_owned(),
            reason: "Network connection blocked by capability policy".to_owned(),
        },
    };
    SocketDecision { errno: ERRNO_NOTCAPABLE, blocked: Some(log) }
}

/// A refused socket call is logged under the WASI name of the call it refused.
pub proof fn lemma_refused_socket_calls_named(call: SocketCall)
    ensures
        call == SocketCall::Open ==> blocked_socket_log(call).name == "wasi_snapshot_preview1::sock_open"@,
        call == SocketCall::Connect ==> blocked_socket_log(call).name == "wasi_snapshot_preview1::sock_connect"@,
        ERRNO_NOTCAPABLE == 76,
{
}

/// The memory limit of a run, in bytes.
pub fn memory_limit_bytes(memory_mb: u64) -> (bytes: u64)
    requires
        memory_mb * BYTES_PER_MB <= u64::MAX,
    ensures
        bytes == memory_mb * BYTES_PER_MB,
{
    memory_mb * BYTES_PER_MB
}

/// Whether a plugin may grow its memory to `desired` bytes under a limit of `limit` bytes.
pub fn memory_growth_permitted(desired: u64, limit: u64) -> (ok: bool)
    ensures
        ok == (desired <= limit),
{
    desired <= limit
}

/// The number of 100 ms epoch ticks after which a run is interrupted: the timeout in ticks,
/// at least one.
pub fn epoch_deadline_ticks(timeout_ms: u64) -> (ticks: u64)
    ensures
        ticks == if timeout_ms / EPOCH_TICK_MS >= 1 { timeout_ms / EPOCH_TICK_MS } else { 1 },
        ticks >= 1,
{
    let t = timeout_ms / EPOCH_TICK_MS;
    if t >= 1 {
        t
    } else {
        1
    }
}

/// How a run that trapped ended.
#[derive(Debug, Clone, Copy, PartialEq, Eq, Structural)]
pub enum TrapKind {
    /// Interrupted at its deadline.
    Timeout,
    /// Any other trap.
    Failure,
}

impl TrapKind {
    /// The exit code recorded for the run.
    pub fn exit_code(&self) -> (code: i32)
        ensures
            *self == TrapKind::Timeout ==> code == EXIT_TIMEOUT,
            *self == TrapKind::Failure ==> code == 1,
    {
        match self {
            TrapKind::Timeout => EXIT_TIMEOUT,
            TrapKind::Failure => 1,
        }
    }
}

/// Reads a trap from its full error text (the whole chain of causes): a deadline
/// interruption names the epoch or an interrupt.
pub fn classify_trap(message: &str) -> (k: TrapKind)
    ensures
        k == TrapKind::Timeout <==> (has_substring(message@, "epoch"@) || has_substring(
            message@,
            "interrupt"@,
        )),
{
    if str_contains(message, "epoch") || str_contains(message, "interrupt") {
        TrapKind::Timeout
    } else {
        TrapKind::Failure
    }
}

/// Which environment variables a run sees.
#[derive(Debug, Clone)]
pub enum EnvironmentGrant {
    /// None.
    Nothing,
    /// All of the host's.
    InheritAll,
    /// The named ones, where the host sets them.
    Only(Vec<String>),
}

/// The environment grant of a manifest.
pub fn environment_grant(manifest: &CapabilityManifest) -> (g: EnvironmentGrant)
    ensures
        manifest@.permissions.environment == EnvironmentModel::Bool(false) ==> g is Nothing,
        manifest@.permissions.environment == EnvironmentModel::Bool(true) ==> g is InheritAll,
        manifest.permissions.environment matches EnvironmentPermissions::Vars(v) ==> (
        g matches EnvironmentGrant::Only(w) && strings_view(w@) == strings_view(v@)),
{
    match &manifest.permissions.environment {
        EnvironmentPermissions::Bool(b) => if *b {
            EnvironmentGrant::InheritAll
        } else {
            EnvironmentGrant::Nothing
        },
        EnvironmentPermissions::Vars(v) => EnvironmentGrant::Only(clone_strings(v)),
    }
}


/// How the guest's entry point ended.
#[derive(Debug, Clone)]
pub enum RunOutcome {
    /// `_start` returned.
    StartFinished,
    /// `_start` trapped with this message.
    /// `_start` trapped: the error's message, and its full text with the whole chain of
    /// causes, from which the kind of trap is read (see `classify_trap`).
    StartTrapped(String, String),
    /// `main` returned this code.
    MainReturned(i32),
    /// `main` trapped with this message.
    MainTrapped(String),
    /// The module exports neither `_start` nor `main`.
    NoEntryPoint,
    /// Linking or instantiating the module failed with this message.
    InstantiationFailed(String),
}

/// A number followed by its unit, as reports show limits.
fn limit_text(n: u64, unit: &str) -> (s: String)
    ensures
        s@ == decimal(n as nat) + unit@,
{
    let mut s = decimal_text(n);
    s.append(unit);
    s
}

/// The event announcing that a plugin asked to grow its memory to `desired_bytes` past a limit
/// of `limit_bytes`, both shown in whole MB.
pub fn memory_exceeded_event(limit_bytes: u64, desired_bytes: u64) -> (e: MonitorEvent)
    ensures
        e matches MonitorEvent::ResourceExceeded { resource, limit, actual } && resource@
            == "Memory"@ && limit@ == decimal((limit_bytes / BYTES_PER_MB) as nat) + " MB"@
            && actual@ == decimal((desired_bytes / BYTES_PER_MB) as nat) + " MB"@,
{
    MonitorEvent::ResourceExceeded {
        resource: "Memory".to_owned(),
        limit: limit_text(limit_bytes / BYTES_PER_MB, " MB"),
        actual: limit_text(desired_bytes / BYTES_PER_MB, " MB"),
    }
}

/// The empty report of a run of the plugin that `manifest` describes.
pub fn new_report(manifest: &CapabilityManifest) -> (r: ExecutionReport)
    ensures
        r.plugin_name@ == manifest.package.name@,
        r.version@ == manifest.package.version@,
        r.duration_ms == 0,
        r.exit_code == 0,
        r.allowed_calls == 0,
        r.blocked_calls@.len() == 0,
        r.resource_violations@.len() == 0,
        r.memory_peak_mb == 0,
{
    ExecutionReport {
        plugin_name: manifest.package.name.clone(),
        version: manifest.package.version.clone(),
        duration_ms: 0,
        exit_code: 0,
        allowed_calls: 0,
        blocked_calls: Vec::new(),
        resource_violations: Vec::new(),
        memory_peak_mb: 0,
    }
}

/// A blocked-call model built from three strings.
pub open spec fn blocked_model(name: Seq<char>, target: Seq<char>, reason: Seq<char>) -> BlockedCallModel {
    BlockedCallModel { name, target, reason }
}

/// What recording `outcome` does to a report: the exit code, the count of allowed calls and
/// the entry appended to one of the two logs. A `_start` trap whose full text names the epoch
/// or an interrupt is a timeout, recorded as exit 124 with a violation whose limit is the
/// timeout in ms.
pub open spec fn outcome_recorded(
    old_r: ExecutionReport,
    new_r: ExecutionReport,
    outcome: RunOutcome,
    timeout_ms: u64,
) -> bool {
    let same_others = new_r.plugin_name == old_r.plugin_name && new_r.version == old_r.version
        && new_r.duration_ms == old_r.duration_ms && new_r.memory_peak_mb == old_r.memory_peak_mb;
    let old_b = blocked_view(old_r.blocked_calls@);
    let old_v = violations_view(old_r.resource_violations@);
    let new_b = blocked_view(new_r.blocked_calls@);
    let new_v = violations_view(new_r.resource_violations@);
    same_others && match outcome {
        RunOutcome::StartFinished => new_r.exit_code == 0 && new_r.allowed_calls == 1 && new_b
            == old_b && new_v == old_v,
        RunOutcome::StartTrapped(m, full) => new_r.allowed_calls == old_r.allowed_calls && if (
        has_substring(full@, "epoch"@) || has_substring(full@, "interrupt"@)) {
            new_r.exit_code == EXIT_TIMEOUT && new_b == old_b && new_v == old_v.push(
                ViolationModel {
                    resource: "CPU Execution Timeout"@,
                    limit: decimal(timeout_ms as nat) + " ms"@,
                    actual: "Execution exceeded epoch deadline"@,
                },
            )
        } else {
            new_r.exit_code == 1 && new_v == old_v && new_b == old_b.push(
                blocked_model("WASM Trap / Syscall Error"@, "Runtime Execution"@, m@),
            )
        },
        RunOutcome::MainReturned(c) => new_r.exit_code == c && new_r.allowed_calls
            == old_r.allowed_calls && new_b == old_b && new_v == old_v,
        RunOutcome::MainTrapped(m) => new_r.exit_code == 1 && new_r.allowed_calls
            == old_r.allowed_calls && new_v == old_v && new_b == old_b.push(
            blocked_model("Trap"@, "main"@, m@),
        ),
        RunOutcome::NoEntryPoint => new_r.exit_code == old_r.exit_code && new_r.allowed_calls
            == old_r.allowed_calls && new_b == old_b && new_v == old_v,
        RunOutcome::InstantiationFailed(m) => new_r.exit_code == 1 && new_r.allowed_calls
            == old_r.allowed_calls && new_v == old_v && new_b == old_b.push(
            blocked_model("Linker / Instantiation Trap"@, "Module Linker"@, m@),
        ),
    }
}


/// A run that failed (a trap in `_start` or `main`, or a module that cannot be linked or
/// instantiated) is never recorded as a success: its exit code is not 0 and exactly one entry
/// is added to one of the two logs. A module that cannot be instantiated exits with 1 and
/// its error text is logged as a blocked `Linker / Instantiation Trap`. A run whose `_start`
/// returns exits with 0 and counts one allowed call.
pub proof fn lemma_failed_runs_are_not_successes(
    old_r: ExecutionReport,
    new_r: ExecutionReport,
    outcome: RunOutcome,
    timeout_ms: u64,
)
    requires
        outcome_recorded(old_r, new_r, outcome, timeout_ms),
    ensures
        (outcome is StartTrapped || outcome is MainTrapped || outcome is InstantiationFailed)
            ==> new_r.exit_code != 0 && new_r.blocked_calls@.len() + new_r.resource_violations@.len()
            == old_r.blocked_calls@.len() + old_r.resource_violations@.len() + 1,
        outcome matches RunOutcome::InstantiationFailed(msg) ==> {
            &&& new_r.exit_code == 1
            &&& new_r.blocked_calls@.len() == old_r.blocked_calls@.len() + 1
            &&& new_r.blocked_calls@.last().name@ == "Linker / Instantiation Trap"@
            &&& new_r.blocked_calls@.last().target@ == "Module Linker"@
            &&& new_r.blocked_calls@.last().reason@ == msg@
        },
        outcome matches RunOutcome::MainTrapped(msg) ==> new_r.exit_code == 1
            && new_r.blocked_calls@.last().reason@ == msg@,
        outcome is StartFinished ==> new_r.exit_code == 0 && new_r.allowed_calls == 1,
        outcome matches RunOutcome::MainReturned(c) ==> new_r.exit_code == c,
{
    let ob = blocked_view(old_r.blocked_calls@);
    let nb = blocked_view(new_r.blocked_calls@);
    let ov = violations_view(old_r.resource_violations@);
    let nv = violations_view(new_r.resource_violations@);
    assert(nb.len() == new_r.blocked_calls@.len());
    assert(ob.len() == old_r.blocked_calls@.len());
    assert(nv.len() == new_r.resource_violations@.len());
    assert(ov.len() == old_r.resource_violations@.len());
    if new_r.blocked_calls@.len() > 0 {
        assert(nb[nb.len() - 1] == new_r.blocked_calls@.last()@);
    }
}

/// Records how the entry point ended under a time limit of `timeout_ms`.
pub fn record_outcome(report: &mut ExecutionReport, outcome: RunOutcome, timeout_ms: u64)
    ensures
        outcome_recorded(*old(report), *final(report), outcome, timeout_ms),
{
    let ghost old_b = blocked_view(report.blocked_calls@);
    let ghost old_v = violations_view(report.resource_violations@);
    match outcome {
        RunOutcome::StartFinished => {
            report.exit_code = 0;
            report.allowed_calls = 1;
        },
        RunOutcome::StartTrapped(m, full) => {
            let kind = classify_trap(full.as_str());
            if kind == TrapKind::Timeout {
                report.exit_code = kind.exit_code();
                report.resource_violations.push(
                    ResourceViolationLog {
                        resource: "CPU Execution Timeout".to_owned(),
                        limit: limit_text(timeout_ms, " ms"),
                        actual: "Execution exceeded epoch deadline".to_owned(),
                    },
                );
                assert(violations_view(report.resource_violations@) =~= old_v.push(
                    report.resource_violations@.last()@,
                ));
            } else {
                report.exit_code = kind.exit_code();
                report.blocked_calls.push(
                    BlockedCallLog {
                        name: "WASM Trap / Syscall Error".to_owned(),
                        target: "Runtime Execution".to_owned(),
                        reason: m,
                    },
                );
                assert(blocked_view(report.blocked_calls@) =~= old_b.push(
                    report.blocked_calls@.last()@,
                ));
            }
        },
        RunOutcome::MainReturned(c) => {
            report.exit_code = c;
        },
        RunOutcome::MainTrapped(m) => {
            report.exit_code = 1;
            report.blocked_calls.push(
                BlockedCallLog { name: "Trap".to_owned(), target: "main".to_owned(), reason: m },
            );
            assert(blocked_view(report.blocked_calls@) =~= old_b.push(
                report.blocked_calls@.last()@,
            ));
        },
        RunOutcome::NoEntryPoint => {},
        RunOutcome::InstantiationFailed(m) => {
            report.exit_code = 1;
            report.blocked_calls.push(
                BlockedCallLog {
                    name: "Linker / Instantiation Trap".to_owned(),
                    target: "Module Linker".to_owned(),
                    reason: m,
                },
            );
            assert(blocked_view(report.blocked_calls@) =~= old_b.push(
                report.blocked_calls@.last()@,
            ));
        },
    }
}

/// Closes a report: appends the calls that the interceptors blocked, in order, and records
/// the duration and the peak memory in whole MB.
pub fn finish_report(
    report: &mut ExecutionReport,
    intercepted: Vec<BlockedCallLog>,
    duration_ms: u64,
    memory_bytes: u64,
)
    ensures
        blocked_view(final(report).blocked_calls@) == blocked_view(old(report).blocked_calls@)
            + blocked_view(intercepted@),
        final(report).duration_ms == duration_ms,
        final(report).memory_peak_mb == memory_bytes / BYTES_PER_MB,
        final(report).exit_code == old(report).exit_code,
        final(report).allowed_calls == old(report).allowed_calls,
        violations_view(final(report).resource_violations@) == violations_view(
            old(report).resource_violations@,
        ),
        final(report).plugin_name == old(report).plugin_name,
        final(report).version == old(report).version,
{
    let mut rest = intercepted;
    report.blocked_calls.append(&mut rest);
    assert(blocked_view(report.blocked_calls@) =~= blocked_view(old(report).blocked_calls@)
        + blocked_view(intercepted@));
    report.duration_ms = duration_ms;
    report.memory_peak_mb = memory_bytes / BYTES_PER_MB;
}

} // verus!

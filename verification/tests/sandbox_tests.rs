use wasmvault::monitor::MonitorEvent;
use wasmvault::manifest::{CapabilityManifest, EnvironmentPermissions};
use wasmvault::monitor::BlockedCallLog;
use wasmvault::sandbox::{environment_grant, finish_report, new_report, record_outcome, EnvironmentGrant, RunOutcome};
use wasmvault::sandbox::{
    classify_trap, decide_socket_call, epoch_deadline_ticks, memory_growth_permitted,
    memory_limit_bytes, SocketCall, TrapKind, ERRNO_NOTCAPABLE,
};
use wasmvault::text::{str_contains, str_is_blank};

#[test]
fn test_socket_calls_refused_without_network() {
    let d = decide_socket_call(SocketCall::Open, false);
    assert_eq!(d.errno, ERRNO_NOTCAPABLE);
    assert_eq!(d.errno, 76);
    let log = d.blocked.unwrap();
    assert_eq!(log.name, "wasi_snapshot_preview1::sock_open");
    assert_eq!(log.reason, "Network access disabled by capability manifest");
    let c = decide_socket_call(SocketCall::Connect, false);
    assert_eq!(c.blocked.unwrap().target, "network_endpoint");
    let ok = decide_socket_call(SocketCall::Open, true);
    assert_eq!(ok.errno, 0);
    assert!(ok.blocked.is_none());
}

#[test]
fn test_limits_and_deadlines() {
    assert_eq!(memory_limit_bytes(16), 16 * 1024 * 1024);
    assert!(memory_growth_permitted(1024, 1024));
    assert!(!memory_growth_permitted(1025, 1024));
    assert_eq!(epoch_deadline_ticks(2000), 20);
    assert_eq!(epoch_deadline_ticks(50), 1);
    assert_eq!(epoch_deadline_ticks(0), 1);
}

#[test]
fn test_trap_classification() {
    assert_eq!(classify_trap("wasm trap: interrupt"), TrapKind::Timeout);
    assert_eq!(classify_trap("epoch deadline reached"), TrapKind::Timeout);
    assert_eq!(classify_trap("out of bounds memory access"), TrapKind::Failure);
    assert_eq!(TrapKind::Timeout.exit_code(), 124);
    assert_eq!(TrapKind::Failure.exit_code(), 1);
}

#[test]
fn test_text_helpers() {
    assert!(str_contains("fd_write", "fd_"));
    assert!(str_contains("abc", ""));
    assert!(!str_contains("ab", "abc"));
    assert!(str_is_blank(""));
    assert!(str_is_blank(" \n\u{a0}"));
    assert!(!str_is_blank(" x "));
}

#[test]
fn test_report_recording() {

    let manifest = CapabilityManifest::default_manifest_for_package("resource-bomb");
    let mut report = new_report(&manifest);
    assert_eq!(report.plugin_name, "resource-bomb");
    assert_eq!(report.version, "0.1.0");
    record_outcome(&mut report, RunOutcome::StartTrapped("error while executing at wasm backtrace".to_string(), "error while executing at wasm backtrace: wasm trap: interrupt".to_string()), 2000);
    assert_eq!(report.exit_code, 124);
    assert_eq!(report.resource_violations.len(), 1);
    assert_eq!(report.resource_violations[0].limit, "2000 ms");
    assert!(report.blocked_calls.is_empty());

    let mut failed = new_report(&manifest);
    record_outcome(&mut failed, RunOutcome::StartTrapped("unreachable".to_string(), "unreachable".to_string()), 2000);
    assert_eq!(failed.exit_code, 1);
    assert_eq!(failed.blocked_calls[0].name, "WASM Trap / Syscall Error");
    assert_eq!(failed.blocked_calls[0].reason, "unreachable");

    let mut ok = new_report(&manifest);
    record_outcome(&mut ok, RunOutcome::StartFinished, 2000);
    assert_eq!(ok.exit_code, 0);
    assert_eq!(ok.allowed_calls, 1);

    let mut main_ret = new_report(&manifest);
    record_outcome(&mut main_ret, RunOutcome::MainReturned(3), 2000);
    assert_eq!(main_ret.exit_code, 3);

    let mut link = new_report(&manifest);
    record_outcome(&mut link, RunOutcome::InstantiationFailed("unknown import".to_string()), 2000);
    assert_eq!(link.blocked_calls[0].target, "Module Linker");

    let intercepted = vec![BlockedCallLog {
        name: "wasi_snapshot_preview1::sock_open".to_string(),
        target: "outbound_socket".to_string(),
        reason: "Network access disabled by capability manifest".to_string(),
    }];
    finish_report(&mut link, intercepted, 11, 17 * 1024 * 1024 + 5);
    assert_eq!(link.blocked_calls.len(), 2);
    assert_eq!(link.blocked_calls[1].name, "wasi_snapshot_preview1::sock_open");
    assert_eq!(link.duration_ms, 11);
    assert_eq!(link.memory_peak_mb, 17);
}

#[test]
fn test_environment_grant() {
    let mut m = CapabilityManifest::default_manifest_for_package("env");
    assert!(matches!(environment_grant(&m), EnvironmentGrant::Nothing));
    m.permissions.environment = EnvironmentPermissions::Bool(true);
    assert!(matches!(environment_grant(&m), EnvironmentGrant::InheritAll));
    m.permissions.environment = EnvironmentPermissions::Vars(vec!["HOME".to_string()]);
    match environment_grant(&m) {
        EnvironmentGrant::Only(v) => assert_eq!(v, vec!["HOME".to_string()]),
        _ => panic!("expected the listed variables"),
    }
}

#[test]
fn test_memory_exceeded_event_text() {
    match wasmvault::sandbox::memory_exceeded_event(16 * 1024 * 1024, 17 * 1024 * 1024 + 3) {
        MonitorEvent::ResourceExceeded { resource, limit, actual } => {
            assert_eq!(resource, "Memory");
            assert_eq!(limit, "16 MB");
            assert_eq!(actual, "17 MB");
        }
        _ => panic!("expected a resource event"),
    }
    assert_eq!(wasmvault::text::decimal_text(0), "0");
    assert_eq!(wasmvault::text::decimal_text(2000), "2000");
}

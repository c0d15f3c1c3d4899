use wasmvault::crypto::{Crypto, CryptoError};
use wasmvault::manifest::{
    CapabilityManifest, EnvironmentPermissions, FilesystemPermissions, ManifestError,
};
use wasmvault::profiles::{Profile, ProfileError};
use wasmvault::scanner::{Capability, RiskLevel, ScanError, Scanner};

#[test]
fn test_profile_application() {
    let mut manifest = CapabilityManifest::default_manifest_for_package("demo");

    Profile::Strict.apply(&mut manifest);
    assert_eq!(manifest.permissions.network, false);
    assert_eq!(manifest.permissions.filesystem, FilesystemPermissions::Bool(false));

    Profile::Workspace.apply(&mut manifest);
    assert_eq!(manifest.permissions.filesystem.allowed_paths().len(), 1);

    Profile::Full.apply(&mut manifest);
    assert_eq!(manifest.permissions.network, true);
    assert_eq!(manifest.permissions.process, true);
}

#[test]
fn test_crypto_hashing() {
    let data = b"hello wasm world";
    let hash = Crypto::hash_binary(data);
    assert_eq!(hash.len(), 64);
}

/// A module whose only import is `wasi_snapshot_preview1::sock_open`.
fn socket_module() -> Vec<u8> {
    let mut bytes = vec![0x00, 0x61, 0x73, 0x6d, 0x01, 0x00, 0x00, 0x00];
    bytes.extend_from_slice(&[0x01, 0x04, 0x01, 0x60, 0x00, 0x00]);
    bytes.extend_from_slice(&[0x02, 0x24, 0x01, 0x16]);
    bytes.extend_from_slice(b"wasi_snapshot_preview1");
    bytes.push(0x09);
    bytes.extend_from_slice(b"sock_open");
    bytes.extend_from_slice(&[0x00, 0x00]);
    bytes
}

#[test]
fn test_scanner_flags_stealth_network_import() {
    let manifest = CapabilityManifest::default_manifest_for_package("malicious-network");
    let report = Scanner::analyze(&socket_module(), &manifest).unwrap();
    assert_eq!(report.actual_imports.len(), 1);
    assert_eq!(report.actual_imports[0].module, "wasi_snapshot_preview1");
    assert_eq!(report.actual_imports[0].field, "sock_open");
    assert!(report.actual_imports[0].is_network);
    assert!(!report.actual_imports[0].is_process);
    // network 30 + scoped filesystem 5 + unsigned 10 + mismatch 25
    assert_eq!(report.risk_score, 70);
    assert_eq!(report.risk_level, RiskLevel::High);
    assert_eq!(report.mismatches.len(), 1);
    assert_eq!(report.mismatches[0].capability, "Network Sockets");
    assert_eq!(report.mismatches[0].severity, "HIGH - Stealth Network Attempt");
}

#[test]
fn test_scanner_empty_module_is_low() {
    let manifest = CapabilityManifest::default_manifest_for_package("empty");
    let bytes = vec![0x00, 0x61, 0x73, 0x6d, 0x01, 0x00, 0x00, 0x00];
    let report = Scanner::analyze(&bytes, &manifest).unwrap();
    assert!(report.actual_imports.is_empty());
    assert!(report.mismatches.is_empty());
    assert_eq!(report.risk_score, 15);
    assert_eq!(report.risk_level, RiskLevel::Low);
    assert_eq!(report.declared_manifest, manifest);
}

#[test]
fn test_scanner_rejects_malformed_binary() {
    let manifest = CapabilityManifest::default_manifest_for_package("junk");
    let r = Scanner::analyze(b"not a wasm module", &manifest);
    let e = r.unwrap_err();
    assert!(matches!(e, ScanError::MalformedBinary(_)));
    assert_eq!(e.message(), "Failed to parse WASM binary structure");
    assert!(!e.cause().is_empty());
}

#[test]
fn test_scanner_network_permitted_has_no_mismatch() {
    let mut manifest = CapabilityManifest::default_manifest_for_package("net");
    manifest.permissions.network = true;
    manifest.package.signature = Some("00".to_string());
    let report = Scanner::analyze(&socket_module(), &manifest).unwrap();
    assert!(report.mismatches.is_empty());
    // network 30 + scoped filesystem 5
    assert_eq!(report.risk_score, 35);
    assert_eq!(report.risk_level, RiskLevel::Medium);
}

#[test]
fn test_scanner_process_and_env_imports() {
    let manifest = CapabilityManifest::default_manifest_for_package("proc");
    let imports = vec![
        ("wasi_snapshot_preview1".to_string(), "proc_exit".to_string()),
        ("wasi_snapshot_preview1".to_string(), "environ_get".to_string()),
        ("env".to_string(), "spawn_child".to_string()),
        ("wasi_snapshot_preview1".to_string(), "path_open".to_string()),
    ];
    let report = Scanner::analyze_imports(&imports, &manifest);
    assert!(!report.actual_imports[0].is_process);
    assert!(report.actual_imports[1].is_env);
    assert!(report.actual_imports[2].is_process);
    assert!(report.actual_imports[3].is_filesystem);
    assert!(report.actual_imports[3].is_network == false);
    assert_eq!(report.mismatches.len(), 1);
    assert_eq!(report.mismatches[0].capability, "Process Execution");
    // process 30 + scoped filesystem 5 + unsigned 10 + mismatch 25
    assert_eq!(report.risk_score, 70);
    assert_eq!(report.risk_level, RiskLevel::High);
}

#[test]
fn test_scanner_score_is_capped() {
    let mut manifest = CapabilityManifest::default_manifest_for_package("all");
    Profile::Full.apply(&mut manifest);
    manifest.permissions.network = false;
    manifest.permissions.process = false;
    let imports = vec![
        ("m".to_string(), "sock_connect".to_string()),
        ("m".to_string(), "exec".to_string()),
    ];
    let report = Scanner::analyze_imports(&imports, &manifest);
    // 30 + 30 + 15 + 15 + 10 + 25 = 125, capped
    assert_eq!(report.risk_score, 100);
    assert_eq!(report.mismatches.len(), 2);
    assert_eq!(report.risk_level.label(), "HIGH (DANGER)");
}

#[test]
fn test_hash_binary_exact_values() {
    assert_eq!(
        Crypto::hash_binary(b"hello wasm world"),
        "349a0453c4e522e9ad2578684c3cc95011422bcac5aee3002f0a08c575cfc0b1"
    );
    assert_eq!(
        Crypto::hash_binary(b""),
        "e3b0c44298fc1c149afbf4c8996fb92427ae41e4649b934ca495991b7852b855"
    );
}

const RFC8032_PUBLIC_KEY: &str = "d75a980182b10ab7d54bfed3c964073a0ee172f3daa62325af021a68f707511a";
const RFC8032_SIGNATURE: &str = "e5564300c360ac729086e2cc806e828a84877f1eb8e5d974d873e065224901555fb8821590a33bacc61e39701cf9b46bd25bf5f0595bbe24655141438e7a100b";

#[test]
fn test_verify_signature_accepts_valid() {
    assert_eq!(Crypto::verify_signature(b"", RFC8032_SIGNATURE, RFC8032_PUBLIC_KEY), Ok(true));
    let upper = RFC8032_PUBLIC_KEY.to_uppercase();
    assert_eq!(Crypto::verify_signature(b"", RFC8032_SIGNATURE, &upper), Ok(true));
}

#[test]
fn test_verify_signature_rejects_tampered_message() {
    assert_eq!(Crypto::verify_signature(b"x", RFC8032_SIGNATURE, RFC8032_PUBLIC_KEY), Ok(false));
}

#[test]
fn test_verify_signature_errors() {
    let e = Crypto::verify_signature(b"", RFC8032_SIGNATURE, "zz").unwrap_err();
    assert!(matches!(e, CryptoError::InvalidPublicKeyHex(_)));
    assert_eq!(e.message(), "Invalid hex in public key");
    assert_eq!(e.detail(), "Invalid character 'z' at position 0");
    let e = Crypto::verify_signature(b"", "abc", RFC8032_PUBLIC_KEY).unwrap_err();
    assert!(matches!(e, CryptoError::InvalidSignatureHex(_)));
    assert_eq!(e.detail(), "Odd number of digits");
    let e = Crypto::verify_signature(b"", RFC8032_SIGNATURE, "d75a9801").unwrap_err();
    assert_eq!(
        e,
        CryptoError::InvalidPublicKey(
            "signature error: VerifyingKey must be 32 bytes in length".to_string()
        )
    );
    assert_eq!(
        e.message(),
        "Invalid ed25519 public key: signature error: VerifyingKey must be 32 bytes in length"
    );
    let e = Crypto::verify_signature(b"", "e556", RFC8032_PUBLIC_KEY).unwrap_err();
    assert_eq!(e, CryptoError::InvalidSignatureFormat("signature error".to_string()));
    assert_eq!(e.message(), "Invalid ed25519 signature format: signature error");
}

#[test]
fn test_allowed_paths_and_unrestricted() {
    assert!(FilesystemPermissions::Bool(false).allowed_paths().is_empty());
    assert_eq!(FilesystemPermissions::Bool(true).allowed_paths(), vec![".".to_string()]);
    let scoped = FilesystemPermissions::Paths(vec!["./a".to_string(), "./b".to_string()]);
    assert_eq!(scoped.allowed_paths(), vec!["./a".to_string(), "./b".to_string()]);
    assert!(!scoped.is_unrestricted());
    assert!(FilesystemPermissions::Bool(true).is_unrestricted());
    assert!(!FilesystemPermissions::Bool(false).is_unrestricted());
    for root in ["/", "*", "C:\\"] {
        let p = FilesystemPermissions::Paths(vec!["./x".to_string(), root.to_string()]);
        assert!(p.is_unrestricted());
        assert!(!p.allowed_paths().is_empty());
    }
    assert!(!FilesystemPermissions::Paths(vec!["//".to_string()]).is_unrestricted());
    assert_eq!(FilesystemPermissions::default(), FilesystemPermissions::Bool(false));
    assert_eq!(EnvironmentPermissions::default(), EnvironmentPermissions::Bool(false));
}

#[test]
fn test_validate_errors() {
    let mut manifest = CapabilityManifest::default_manifest_for_package("ok");
    assert_eq!(manifest.validate(), Ok(()));
    manifest.limits.memory_mb = 0;
    assert_eq!(manifest.validate(), Err(ManifestError::ZeroMemoryLimit));
    manifest.package.name = " \t\u{3000}".to_string();
    assert_eq!(manifest.validate(), Err(ManifestError::EmptyPackageName));
    assert_eq!(ManifestError::EmptyPackageName.message(), "Package name cannot be empty");
    let blank = CapabilityManifest::default_manifest_for_package("   ");
    assert_eq!(blank.validate(), Err(ManifestError::EmptyPackageName));
}

#[test]
fn test_default_manifest_contents() {
    let m = CapabilityManifest::default_manifest_for_package("image-resizer");
    assert_eq!(m.package.name, "image-resizer");
    assert_eq!(m.package.version, "0.1.0");
    assert_eq!(m.package.publisher, "local-dev");
    assert_eq!(m.package.description.as_deref(), Some("WasmVault Capability Managed Plugin"));
    assert!(m.package.signature.is_none());
    assert_eq!(
        m.permissions.filesystem.allowed_paths(),
        vec!["./workspace/input".to_string(), "./workspace/output".to_string()]
    );
    assert_eq!(m.limits.memory_mb, 64);
    assert_eq!(m.limits.cpu_ms, 1000);
    assert_eq!(m.limits.execution_timeout_ms, 2000);
    assert_eq!(wasmvault::manifest::default_publisher(), "anonymous");
}

#[test]
fn test_profile_idempotent_and_network_keeps_environment() {
    let mut once = CapabilityManifest::default_manifest_for_package("p");
    once.permissions.environment = EnvironmentPermissions::Vars(vec!["HOME".to_string()]);
    let mut twice = once.clone();
    Profile::Network.apply(&mut once);
    Profile::Network.apply(&mut twice);
    Profile::Network.apply(&mut twice);
    assert_eq!(once, twice);
    assert_eq!(
        once.permissions.environment,
        EnvironmentPermissions::Vars(vec!["HOME".to_string()])
    );
    assert_eq!(once.permissions.filesystem.allowed_paths(), vec!["./workspace".to_string()]);
    assert!(once.permissions.network && !once.permissions.process);

    let mut a = once.clone();
    Profile::Full.apply(&mut a);
    Profile::Strict.apply(&mut a);
    let mut b = once.clone();
    Profile::Strict.apply(&mut b);
    assert_eq!(a, b);
}

#[test]
fn test_signing_never_raises_risk() {
    let unsigned = CapabilityManifest::default_manifest_for_package("s");
    let mut signed = unsigned.clone();
    signed.package.signature = Some("ab".to_string());
    let imports = vec![("env".to_string(), "fd_write".to_string())];
    let a = Scanner::analyze_imports(&imports, &unsigned);
    let b = Scanner::analyze_imports(&imports, &signed);
    assert_eq!(a.risk_score, 15);
    assert_eq!(b.risk_score, 5);
    assert!(b.risk_score <= a.risk_score);
}

#[test]
fn test_more_imports_never_lower_risk() {
    let manifest = CapabilityManifest::default_manifest_for_package("m");
    let few = vec![("m".to_string(), "fd_read".to_string())];
    let mut more = few.clone();
    more.push(("m".to_string(), "sock_accept".to_string()));
    let a = Scanner::analyze_imports(&few, &manifest);
    let b = Scanner::analyze_imports(&more, &manifest);
    assert_eq!(a.risk_score, 15);
    assert_eq!(b.risk_score, 70);
}

#[test]
fn test_strict_and_full_profiles_scan() {
    let mut strict = CapabilityManifest::default_manifest_for_package("s");
    Profile::Strict.apply(&mut strict);
    let imports = vec![("wasi_snapshot_preview1".to_string(), "fd_write".to_string())];
    let r = Scanner::analyze_imports(&imports, &strict);
    assert_eq!(r.risk_level, RiskLevel::Low);
    assert_eq!(r.risk_score, 10);
    assert!(r.mismatches.is_empty());

    let mut full = CapabilityManifest::default_manifest_for_package("f");
    Profile::Full.apply(&mut full);
    let imports = vec![
        ("m".to_string(), "sock_open".to_string()),
        ("m".to_string(), "proc_raise".to_string()),
    ];
    let r = Scanner::analyze_imports(&imports, &full);
    assert!(r.mismatches.is_empty());
    // 30 + 30 + 15 + 15 + 10
    assert_eq!(r.risk_score, 100);
    assert!(full.validate().is_ok());
}

#[test]
fn test_report_capability_summary() {

    let manifest = CapabilityManifest::default_manifest_for_package("c");
    let imports = vec![("m".to_string(), "environ_sizes_get".to_string())];
    let r = Scanner::analyze_imports(&imports, &manifest);
    assert!(r.imports_capability(Capability::Environment));
    assert!(!r.imports_capability(Capability::Network));
    assert!(!manifest.permissions.environment_granted());
}

/// A manifest that asks for nothing, opens no directory and is signed.
fn bare_signed_manifest() -> CapabilityManifest {
    let mut m = CapabilityManifest::default_manifest_for_package("bare");
    m.permissions.filesystem = FilesystemPermissions::Bool(false);
    m.package.signature = Some("ab".to_string());
    m
}

#[test]
fn test_undeclared_import_is_high_even_when_signed() {
    let manifest = bare_signed_manifest();
    let imports = vec![("m".to_string(), "sock_open".to_string())];
    let r = Scanner::analyze_imports(&imports, &manifest);
    // 30 + 25 points, raised into the high band
    assert_eq!(r.risk_score, 61);
    assert_eq!(r.risk_level, RiskLevel::High);
}

#[test]
fn test_process_import_is_high_even_when_declared() {
    let mut manifest = bare_signed_manifest();
    manifest.permissions.process = true;
    let imports = vec![("m".to_string(), "proc_raise".to_string())];
    let r = Scanner::analyze_imports(&imports, &manifest);
    assert!(r.mismatches.is_empty());
    assert_eq!(r.risk_score, 61);
    assert_eq!(r.risk_level, RiskLevel::High);
}

#[test]
fn test_requested_network_or_environment_is_medium() {
    let mut net = bare_signed_manifest();
    net.permissions.network = true;
    let r = Scanner::analyze_imports(&vec![], &net);
    assert_eq!(r.risk_score, 31);
    assert_eq!(r.risk_level, RiskLevel::Medium);

    let mut env = bare_signed_manifest();
    env.permissions.environment = EnvironmentPermissions::Vars(vec!["HOME".to_string()]);
    let r = Scanner::analyze_imports(&vec![], &env);
    assert_eq!(r.risk_score, 31);
    assert_eq!(r.risk_level, RiskLevel::Medium);

    let r = Scanner::analyze_imports(&vec![], &bare_signed_manifest());
    assert_eq!(r.risk_score, 0);
    assert_eq!(r.risk_level, RiskLevel::Low);
}

#[test]
fn test_scanner_reports_bad_import_entry() {
    let manifest = CapabilityManifest::default_manifest_for_package("bad-entry");
    let mut bytes = vec![0x00, 0x61, 0x73, 0x6d, 0x01, 0x00, 0x00, 0x00];
    bytes.extend_from_slice(&[0x02, 0x02, 0x01, 0x05]);
    let r = Scanner::analyze(&bytes, &manifest);
    let e = r.unwrap_err();
    assert!(matches!(e, ScanError::InvalidImportEntry(_)));
    assert_eq!(e.message(), "Failed to read import entry");
    assert!(!e.cause().is_empty());
}

#[test]
fn test_imports_in_other_order_never_lower_risk() {
    let manifest = CapabilityManifest::default_manifest_for_package("o");
    let few = vec![("m".to_string(), "proc_exec".to_string())];
    let more = vec![
        ("m".to_string(), "sock_open".to_string()),
        ("m".to_string(), "proc_exec".to_string()),
    ];
    let a = Scanner::analyze_imports(&few, &manifest);
    let b = Scanner::analyze_imports(&more, &manifest);
    assert!(b.risk_score >= a.risk_score);
    assert_eq!(a.mismatches.len(), 1);
    assert_eq!(b.mismatches.len(), 2);
    assert_eq!(b.mismatches[1].capability, a.mismatches[0].capability);
}

#[test]
fn test_full_profile_needs_acknowledgement() {

    assert_eq!(Profile::Full.check_allowed(false), Err(ProfileError::AcknowledgementRequired));
    assert_eq!(Profile::Full.check_allowed(true), Ok(()));
    assert_eq!(Profile::Strict.check_allowed(false), Ok(()));
    assert_eq!(Profile::Network.check_allowed(false), Ok(()));
}

//! The static import scanner: reads the imports of a WebAssembly binary, sorts them by the
//! host capability they reach, compares them with the manifest and scores the risk.
use vstd::prelude::*;
use crate::manifest::{CapabilityManifest, EnvironmentModel, ManifestModel};
use crate::profiles::{Profile, spec_apply};
use crate::text::{chars_equal, chars_of, contains_chars, has_substring};

verus! {

/// The `(module, field)` names of the imports of the WebAssembly binary `bytes`, in the order
/// in which `wasmparser` yields them, or the step at which `wasmparser` finds it malformed
/// with the text of `wasmparser`'s error.
pub uninterp spec fn wasm_import_names(bytes: Seq<u8>) -> Result<Seq<(Seq<char>, Seq<char>)>, ScanFailure>;

/// The views of a list of name pairs.
pub open spec fn pair_views(v: Seq<(String, String)>) -> Seq<(Seq<char>, Seq<char>)> {
    v.map_values(|p: (String, String)| (p.0@, p.1@))
}

/// Walks every payload of `wasm_bytes` with `wasmparser::Parser::parse_all` and collects the
/// module and field name of every entry of every import section; a payload error is
/// reported as `MalformedBinary`, an import-entry error as `InvalidImportEntry`, each with
/// the text of `wasmparser`'s error. The contract
/// claims that the outcome is a function of the bytes alone (`wasm_import_names`), names
/// and failing step included.
#[verifier::external_body]
fn read_wasm_imports(wasm_bytes: &[u8]) -> (r: Result<Vec<(String, String)>, ScanError>)
    ensures
        r is Ok <==> wasm_import_names(wasm_bytes@) is Ok,
        r matches Ok(v) ==> wasm_import_names(wasm_bytes@)->Ok_0 == pair_views(v@),
        r matches Err(e) ==> wasm_import_names(wasm_bytes@)->Err_0 == e@,
{
    let mut imports = Vec::new();
    for payload in wasmparser::Parser::new(0).parse_all(wasm_bytes) {
        let payload = match payload { Ok(p) => p, Err(e) => return Err(ScanError::MalformedBinary(e.to_string())) };
        if let wasmparser::Payload::ImportSection(reader) = payload {
            for import in reader {
                let import = match import { Ok(i) => i, Err(e) => return Err(ScanError::InvalidImportEntry(e.to_string())) };
                imports.push((import.module.to_string(), import.name.to_string()));
            }
        }
    }
    Ok(imports)
}

/// An import field name that reaches the network.
pub open spec fn is_network_field(f: Seq<char>) -> bool {
    has_substring(f, "sock"@) || has_substring(f, "connect"@) || has_substring(f, "socket"@)
        || has_substring(f, "net"@)
}

/// An import field name that reaches the filesystem.
pub open spec fn is_filesystem_field(f: Seq<char>) -> bool {
    has_substring(f, "path"@) || has_substring(f, "fd_"@) || has_substring(f, "file"@)
}

/// An import field name that controls processes (`proc_exit` alone does not count).
pub open spec fn is_process_field(f: Seq<char>) -> bool {
    (has_substring(f, "proc"@) && f != "proc_exit"@) || has_substring(f, "exec"@)
        || has_substring(f, "spawn"@) || has_substring(f, "system"@)
}

/// An import field name that reads the environment.
pub open spec fn is_env_field(f: Seq<char>) -> bool {
    has_substring(f, "env"@) || has_substring(f, "environ"@)
}

/// One import of the binary, with the capabilities it reaches.
#[derive(Debug, Clone)]
pub struct WasmImport {
    pub module: String,
    pub field: String,
    pub is_network: bool,
    pub is_filesystem: bool,
    pub is_process: bool,
    pub is_env: bool,
}

/// The meaning of an import.
pub ghost struct ImportModel {
    pub module: Seq<char>,
    pub field: Seq<char>,
    pub is_network: bool,
    pub is_filesystem: bool,
    pub is_process: bool,
    pub is_env: bool,
}

impl View for WasmImport {
    type V = ImportModel;

    open spec fn view(&self) -> ImportModel {
        ImportModel {
            module: self.module@,
            field: self.field@,
            is_network: self.is_network,
            is_filesystem: self.is_filesystem,
            is_process: self.is_process,
            is_env: self.is_env,
        }
    }
}

/// The import that `module` and `field` name, sorted by its field name.
pub open spec fn classify(module: Seq<char>, field: Seq<char>) -> ImportModel {
    ImportModel {
        module: module,
        field: field,
        is_network: is_network_field(field),
        is_filesystem: is_filesystem_field(field),
        is_process: is_process_field(field),
        is_env: is_env_field(field),
    }
}

/// How risky a plugin is judged to be.
#[derive(Debug, Clone, Copy, PartialEq, Eq, Structural)]
pub enum RiskLevel {
    Low,
    Medium,
    High,
}

impl RiskLevel {
    /// The label of the level in reports.
    pub fn label(&self) -> (s: &'static str)
        ensures
            *self == RiskLevel::Low ==> s@ == "LOW (Safe)"@,
            *self == RiskLevel::Medium ==> s@ == "MEDIUM (Caution)"@,
            *self == RiskLevel::High ==> s@ == "HIGH (DANGER)"@,
    {
        match self {
            RiskLevel::Low => "LOW (Safe)",
            RiskLevel::Medium => "MEDIUM (Caution)",
            RiskLevel::High => "HIGH (DANGER)",
        }
    }
}

/// A capability that the binary imports while the manifest denies it.
#[derive(Debug, Clone)]
pub struct PermissionMismatch {
    pub capability: String,
    pub manifest_claimed: String,
    pub binary_imported: String,
    pub severity: String,
}

/// The meaning of a mismatch.
pub ghost struct MismatchModel {
    pub capability: Seq<char>,
    pub manifest_claimed: Seq<char>,
    pub binary_imported: Seq<char>,
    pub severity: Seq<char>,
}

impl View for PermissionMismatch {
    type V = MismatchModel;

    open spec fn view(&self) -> MismatchModel {
        MismatchModel {
            capability: self.capability@,
            manifest_claimed: self.manifest_claimed@,
            binary_imported: self.binary_imported@,
            severity: self.severity@,
        }
    }
}

/// The mismatch reported for network imports under `network = false`.
pub open spec fn network_mismatch() -> MismatchModel {
    MismatchModel {
        capability: "Network Sockets"@,
        manifest_claimed: "network = false"@,
        binary_imported: "Imports socket/connect functions"@,
        severity: "HIGH - Stealth Network Attempt"@,
    }
}

/// The mismatch reported for process imports under `process = false`.
pub open spec fn process_mismatch() -> MismatchModel {
    MismatchModel {
        capability: "Process Execution"@,
        manifest_claimed: "process = false"@,
        binary_imported: "Imports proc_exit/exec functions"@,
        severity: "HIGH - Process Control"@,
    }
}

/// The result of a static analysis.
#[derive(Debug, Clone)]
pub struct StaticAnalysisReport {
    pub declared_manifest: CapabilityManifest,
    pub actual_imports: Vec<WasmImport>,
    pub risk_score: u32,
    pub risk_level: RiskLevel,
    pub mismatches: Vec<PermissionMismatch>,
}

/// The meaning of a report.
pub ghost struct ReportModel {
    pub declared_manifest: ManifestModel,
    pub actual_imports: Seq<ImportModel>,
    pub risk_score: int,
    pub risk_level: RiskLevel,
    pub mismatches: Seq<MismatchModel>,
}

impl View for StaticAnalysisReport {
    type V = ReportModel;

    open spec fn view(&self) -> ReportModel {
        ReportModel {
            declared_manifest: self.declared_manifest@,
            actual_imports: self.actual_imports@.map_values(|i: WasmImport| i@),
            risk_score: self.risk_score as int,
            risk_level: self.risk_level,
            mismatches: self.mismatches@.map_values(|m: PermissionMismatch| m@),
        }
    }
}

/// Some import reaches the network.
pub open spec fn imports_network(imports: Seq<(Seq<char>, Seq<char>)>) -> bool {
    exists|i: int| 0 <= i < imports.len() && is_network_field(#[trigger] imports[i].1)
}

/// Some import controls processes.
pub open spec fn imports_process(imports: Seq<(Seq<char>, Seq<char>)>) -> bool {
    exists|i: int| 0 <= i < imports.len() && is_process_field(#[trigger] imports[i].1)
}

/// The mismatches between what the manifest allows and what the binary imports: first the
/// network one, then the process one.
pub open spec fn spec_mismatches(m: ManifestModel, net: bool, proc_: bool) -> Seq<MismatchModel> {
    (if net && !m.permissions.network {
        seq![network_mismatch()]
    } else {
        Seq::empty()
    }) + (if proc_ && !m.permissions.process {
        seq![process_mismatch()]
    } else {
        Seq::empty()
    })
}

/// The risk score before it is capped at 100: 30 for network access (declared or imported),
/// 30 for process control, 15 for environment access, 15 for unrestricted or 5 for scoped
/// filesystem access, 10 for a missing signature, 25 for any mismatch.
pub open spec fn spec_raw_risk(m: ManifestModel, net: bool, proc_: bool) -> int {
    let p = m.permissions;
    (if p.network || net { 30int } else { 0int }) + (if p.process || proc_ { 30int } else { 0int }) + (
    if p.environment != EnvironmentModel::Bool(false) { 15int } else { 0int }) + (
    if p.filesystem.is_unrestricted() { 15int } else if p.filesystem.allowed_paths().len() > 0 {
        5int
    } else { 0int }) + (if m.package.signature is None { 10int } else { 0int }) + (
    if spec_mismatches(m, net, proc_).len() > 0 { 25int } else { 0int })
}

/// The band a plugin belongs in whatever its points: high for an undeclared import or any
/// process-control import, medium for requested network, process or environment access.
pub open spec fn band_floor(m: ManifestModel, net: bool, proc_: bool) -> RiskLevel {
    if spec_mismatches(m, net, proc_).len() > 0 || proc_ {
        RiskLevel::High
    } else if m.permissions.network || m.permissions.process || net
        || m.permissions.environment != EnvironmentModel::Bool(false) {
        RiskLevel::Medium
    } else {
        RiskLevel::Low
    }
}

/// The risk score: the points capped at 100, then raised to the lowest score of the band
/// the plugin belongs in (61 for high, 31 for medium).
pub open spec fn spec_risk_score(m: ManifestModel, net: bool, proc_: bool) -> int {
    let raw = spec_raw_risk(m, net, proc_);
    let capped = if raw > 100 { 100 } else { raw };
    match band_floor(m, net, proc_) {
        RiskLevel::High => if capped < 61 { 61 } else { capped },
        RiskLevel::Medium => if capped < 31 { 31 } else { capped },
        RiskLevel::Low => capped,
    }
}

/// The level of a score: up to 30 is low, up to 60 medium, above that high.
pub open spec fn risk_level_for(score: int) -> RiskLevel {
    if score <= 30 {
        RiskLevel::Low
    } else if score <= 60 {
        RiskLevel::Medium
    } else {
        RiskLevel::High
    }
}

/// The report that analysing imports `imports` against manifest `m` yields.
pub open spec fn spec_report(imports: Seq<(Seq<char>, Seq<char>)>, m: ManifestModel) -> ReportModel {
    let net = imports_network(imports);
    let proc_ = imports_process(imports);
    let score = spec_risk_score(m, net, proc_);
    ReportModel {
        declared_manifest: m,
        actual_imports: imports.map_values(|p: (Seq<char>, Seq<char>)| classify(p.0, p.1)),
        risk_score: score,
        risk_level: risk_level_for(score),
        mismatches: spec_mismatches(m, net, proc_),
    }
}


/// The order of the levels.
pub open spec fn level_rank(l: RiskLevel) -> int {
    match l {
        RiskLevel::Low => 0,
        RiskLevel::Medium => 1,
        RiskLevel::High => 2,
    }
}

/// Every import of `a` is an import of `b`, in whatever order.
pub open spec fn imports_contained(
    a: Seq<(Seq<char>, Seq<char>)>,
    b: Seq<(Seq<char>, Seq<char>)>,
) -> bool {
    forall|i: int| 0 <= i < a.len() ==> #[trigger] b.contains(a[i])
}

/// The risk score always lies between 0 and 100, and the level is the one of the score.
pub proof fn lemma_risk_score_bounds(imports: Seq<(Seq<char>, Seq<char>)>, m: ManifestModel)
    ensures
        0 <= spec_report(imports, m).risk_score <= 100,
        spec_report(imports, m).risk_level == risk_level_for(spec_report(imports, m).risk_score),
{
}

/// A binary that imports an undeclared capability, or any process-control function, is rated
/// high risk (61 to 100).
pub proof fn lemma_mismatch_or_process_import_is_high(
    imports: Seq<(Seq<char>, Seq<char>)>,
    m: ManifestModel,
)
    requires
        spec_report(imports, m).mismatches.len() > 0 || imports_process(imports),
    ensures
        spec_report(imports, m).risk_level == RiskLevel::High,
        spec_report(imports, m).risk_score >= 61,
{
}

/// A plugin that asks for network, process or environment access is never rated low risk.
pub proof fn lemma_requested_access_not_low(imports: Seq<(Seq<char>, Seq<char>)>, m: ManifestModel)
    requires
        m.permissions.network || m.permissions.process || m.permissions.environment
            != EnvironmentModel::Bool(false),
    ensures
        spec_report(imports, m).risk_level != RiskLevel::Low,
        spec_report(imports, m).risk_score >= 31,
{
}

/// A plugin that neither asks for nor imports network, process or environment access, and
/// whose filesystem access is scoped (or absent), is rated low risk.
pub proof fn lemma_scoped_plugin_is_low(imports: Seq<(Seq<char>, Seq<char>)>, m: ManifestModel)
    requires
        !m.permissions.network,
        !m.permissions.process,
        m.permissions.environment == EnvironmentModel::Bool(false),
        !imports_network(imports),
        !imports_process(imports),
        !m.permissions.filesystem.is_unrestricted(),
    ensures
        spec_report(imports, m).risk_level == RiskLevel::Low,
{
}

/// A binary whose imports include all those of another never scores lower, is never rated
/// lower, and keeps every mismatch of the other.
pub proof fn lemma_more_imports_never_lower_risk(
    a: Seq<(Seq<char>, Seq<char>)>,
    b: Seq<(Seq<char>, Seq<char>)>,
    m: ManifestModel,
)
    requires
        imports_contained(a, b),
    ensures
        spec_report(b, m).risk_score >= spec_report(a, m).risk_score,
        level_rank(spec_report(b, m).risk_level) >= level_rank(spec_report(a, m).risk_level),
        forall|i: int| 0 <= i < spec_report(a, m).mismatches.len() ==> spec_report(b, m).mismatches.contains(
            #[trigger] spec_report(a, m).mismatches[i]),
{
    if imports_network(a) {
        let i = choose|i: int| 0 <= i < a.len() && is_network_field(#[trigger] a[i].1);
        assert(b.contains(a[i]));
        let j = choose|j: int| 0 <= j < b.len() && b[j] == a[i];
        assert(is_network_field(b[j].1));
    }
    if imports_process(a) {
        let i = choose|i: int| 0 <= i < a.len() && is_process_field(#[trigger] a[i].1);
        assert(b.contains(a[i]));
        let j = choose|j: int| 0 <= j < b.len() && b[j] == a[i];
        assert(is_process_field(b[j].1));
    }
    let net_a = imports_network(a);
    let net_b = imports_network(b);
    let pa = imports_process(a);
    let pb = imports_process(b);
    let ma = spec_mismatches(m, net_a, pa);
    let mb = spec_mismatches(m, net_b, pb);
    assert forall|i: int| 0 <= i < ma.len() implies mb.contains(#[trigger] ma[i]) by {
        if net_a && !m.permissions.network {
            if i == 0 {
                assert(mb[0] == ma[0]);
            } else {
                assert(ma[i] == process_mismatch());
                assert(mb[mb.len() - 1] == process_mismatch());
            }
        } else {
            assert(ma[i] == process_mismatch());
            assert(mb[mb.len() - 1] == process_mismatch());
        }
    }
}

/// Signing a manifest never raises its risk score.
pub proof fn lemma_signing_never_raises_risk(
    imports: Seq<(Seq<char>, Seq<char>)>,
    m: ManifestModel,
    signature: Seq<char>,
)
    ensures
        spec_report(
            imports,
            ManifestModel {
                package: crate::manifest::PackageModel { signature: Some(signature), ..m.package },
                ..m
            },
        ).risk_score <= spec_report(imports, m).risk_score,
{
}

/// A binary that imports network functions while its manifest says `network = false` is
/// always flagged, and the network mismatch comes first.
pub proof fn lemma_stealth_network_flagged(imports: Seq<(Seq<char>, Seq<char>)>, m: ManifestModel)
    requires
        imports_network(imports),
        !m.permissions.network,
    ensures
        spec_report(imports, m).mismatches.len() > 0,
        spec_report(imports, m).mismatches[0] == network_mismatch(),
        spec_report(imports, m).mismatches[0].capability == "Network Sockets"@,
        spec_report(imports, m).mismatches[0].manifest_claimed == "network = false"@,
        spec_report(imports, m).mismatches[0].severity == "HIGH - Stealth Network Attempt"@,
{
}

/// A binary that imports process functions while its manifest says `process = false` is
/// flagged with a process-execution mismatch, the last one reported.
pub proof fn lemma_process_import_flagged(imports: Seq<(Seq<char>, Seq<char>)>, m: ManifestModel)
    requires
        imports_process(imports),
        !m.permissions.process,
    ensures
        spec_report(imports, m).mismatches.len() > 0,
        spec_report(imports, m).mismatches.last().capability == "Process Execution"@,
        spec_report(imports, m).mismatches.last().manifest_claimed == "process = false"@,
        spec_report(imports, m).mismatches.last().severity == "HIGH - Process Control"@,
{
}

/// A mismatch is reported exactly when the binary imports a capability that the manifest
/// denies.
pub proof fn lemma_mismatch_iff_undeclared_import(
    imports: Seq<(Seq<char>, Seq<char>)>,
    m: ManifestModel,
)
    ensures
        spec_report(imports, m).mismatches.len() > 0 <==> ((imports_network(imports)
            && !m.permissions.network) || (imports_process(imports) && !m.permissions.process)),
{
}


/// The manifest `m` with its `process` permission set to `b`.
pub open spec fn with_process(m: ManifestModel, b: bool) -> ManifestModel {
    ManifestModel { permissions: crate::manifest::PermissionsModel { process: b, ..m.permissions }, ..m }
}

/// The manifest `m` with its `network` permission set to `b`.
pub open spec fn with_network(m: ManifestModel, b: bool) -> ManifestModel {
    ManifestModel { permissions: crate::manifest::PermissionsModel { network: b, ..m.permissions }, ..m }
}

/// The manifest `m` with its environment permission set to `e`.
pub open spec fn with_environment(m: ManifestModel, e: EnvironmentModel) -> ManifestModel {
    ManifestModel { permissions: crate::manifest::PermissionsModel { environment: e, ..m.permissions }, ..m }
}

/// Declaring process control is worth 30 points when the binary imports no process function,
/// and declaring the network 30 when it imports no network function; granting the
/// environment is worth 15; a missing signature 10.
pub proof fn lemma_risk_points(m: ManifestModel, net: bool, proc_: bool, sig: Seq<char>)
    ensures
        !proc_ ==> spec_raw_risk(with_process(m, true), net, proc_) == spec_raw_risk(with_process(m, false), net, proc_) + 30,
        !net ==> spec_raw_risk(with_network(m, true), net, proc_) == spec_raw_risk(with_network(m, false), net, proc_) + 30,
        spec_raw_risk(with_environment(m, EnvironmentModel::Bool(true)), net, proc_) == spec_raw_risk(with_environment(m, EnvironmentModel::Bool(false)), net, proc_) + 15,
        spec_raw_risk(ManifestModel { package: crate::manifest::PackageModel { signature: None, ..m.package }, ..m }, net, proc_)
            == spec_raw_risk(ManifestModel { package: crate::manifest::PackageModel { signature: Some(sig), ..m.package }, ..m }, net, proc_) + 10,
        !m.permissions.network && !(proc_ && !m.permissions.process) ==> spec_raw_risk(m, true, proc_)
            == spec_raw_risk(m, false, proc_) + 30 + 25,
        !m.permissions.filesystem.is_unrestricted() && m.permissions.filesystem.allowed_paths().len() > 0
            ==> spec_raw_risk(m, net, proc_) == spec_raw_risk(ManifestModel { permissions: crate::manifest::PermissionsModel {
                filesystem: crate::manifest::FilesystemModel::Bool(false), ..m.permissions }, ..m }, net, proc_) + 5,
        spec_raw_risk(ManifestModel { permissions: crate::manifest::PermissionsModel {
                filesystem: crate::manifest::FilesystemModel::Bool(true), ..m.permissions }, ..m }, net, proc_)
            == spec_raw_risk(ManifestModel { permissions: crate::manifest::PermissionsModel {
                filesystem: crate::manifest::FilesystemModel::Bool(false), ..m.permissions }, ..m }, net, proc_) + 15,
{
}

/// Points and score: a capped sum of points, never below zero, and the score equals the points
/// whenever they already lie in the high band (61 to 100).
pub proof fn lemma_score_from_points(imports: Seq<(Seq<char>, Seq<char>)>, m: ManifestModel)
    ensures
        0 <= spec_raw_risk(m, imports_network(imports), imports_process(imports)) <= 125,
        ({
            let raw = spec_raw_risk(m, imports_network(imports), imports_process(imports));
            &&& 61 <= raw <= 100 ==> spec_report(imports, m).risk_score == raw
            &&& raw > 100 ==> spec_report(imports, m).risk_score == 100
            &&& spec_report(imports, m).risk_score >= (if raw > 100 { 100 } else { raw })
        }),
{
}

/// Declaring process control never lowers the score of a binary that imports no process
/// function.
pub proof fn lemma_declaring_process_never_lowers_risk(
    imports: Seq<(Seq<char>, Seq<char>)>,
    m: ManifestModel,
)
    requires
        !imports_process(imports),
    ensures
        spec_report(imports, with_process(m, true)).risk_score >= spec_report(imports, with_process(m, false)).risk_score,
        spec_report(imports, with_process(m, true)).risk_level != RiskLevel::Low,
{
}

/// A plugin that declares network and process access, opens scoped directories, gets no
/// environment and is unsigned scores 30 + 30 + 5 + 10 = 75 (high) whenever its binary imports
/// neither network nor process functions, whatever else it imports.
pub proof fn lemma_declared_network_and_process_score(
    imports: Seq<(Seq<char>, Seq<char>)>,
    m: ManifestModel,
)
    requires
        m.permissions.network,
        m.permissions.process,
        !m.permissions.filesystem.is_unrestricted(),
        m.permissions.filesystem.allowed_paths().len() > 0,
        m.permissions.environment == EnvironmentModel::Bool(false),
        m.package.signature is None,
        !imports_network(imports),
        !imports_process(imports),
    ensures
        spec_report(imports, m).risk_score == 75,
        spec_report(imports, m).risk_level == RiskLevel::High,
        spec_report(imports, m).mismatches.len() == 0,
{
}

/// The level is read off the score: low up to 30, medium from 31 to 60, high from 61.
pub proof fn lemma_level_of_score(imports: Seq<(Seq<char>, Seq<char>)>, m: ManifestModel)
    ensures
        spec_report(imports, m).risk_level == RiskLevel::Low <==> spec_report(imports, m).risk_score <= 30,
        spec_report(imports, m).risk_level == RiskLevel::High <==> spec_report(imports, m).risk_score >= 61,
{
}

/// An import's capabilities are read off its field name: the filesystem for `path`, `fd_` or
/// `file`; the network for `sock`, `connect`, `socket` or `net`; process control for `exec`,
/// `spawn`, `system`, or `proc` in any name but `proc_exit`; the environment for `env` or
/// `environ`. The names are kept as they are.
pub proof fn lemma_classification(module: Seq<char>, field: Seq<char>)
    ensures
        classify(module, field).module == module,
        classify(module, field).field == field,
        classify(module, field).is_filesystem <==> (has_substring(field, "path"@)
            || has_substring(field, "fd_"@) || has_substring(field, "file"@)),
        classify(module, field).is_network <==> (has_substring(field, "sock"@)
            || has_substring(field, "connect"@) || has_substring(field, "socket"@)
            || has_substring(field, "net"@)),
        classify(module, field).is_process <==> ((has_substring(field, "proc"@) && field != "proc_exit"@)
            || has_substring(field, "exec"@) || has_substring(field, "spawn"@)
            || has_substring(field, "system"@)),
        classify(module, field).is_env <==> (has_substring(field, "env"@)
            || has_substring(field, "environ"@)),
{
}

/// Every file-descriptor call (`fd_` in the name) counts as filesystem access, so a binary
/// importing one is reported as importing filesystem functions.
pub proof fn lemma_fd_calls_reach_filesystem(
    imports: Seq<(Seq<char>, Seq<char>)>,
    m: ManifestModel,
    i: int,
)
    requires
        0 <= i < imports.len(),
        has_substring(imports[i].1, "fd_"@),
    ensures
        spec_report(imports, m).actual_imports[i].is_filesystem,
        spec_report(imports, m).actual_imports[i].module == imports[i].0,
        spec_report(imports, m).actual_imports[i].field == imports[i].1,
{
}

/// Under the strict profile, a binary that imports no network or process function is rated
/// low risk.
pub proof fn lemma_strict_profile_is_low(imports: Seq<(Seq<char>, Seq<char>)>, m: ManifestModel)
    requires
        !imports_network(imports),
        !imports_process(imports),
    ensures
        spec_report(imports, spec_apply(Profile::Strict, m)).risk_level == RiskLevel::Low,
        spec_report(imports, spec_apply(Profile::Strict, m)).mismatches.len() == 0,
{
}

/// Under the full profile nothing the binary imports is undeclared, so no mismatch is
/// reported.
pub proof fn lemma_full_profile_has_no_mismatch(imports: Seq<(Seq<char>, Seq<char>)>, m: ManifestModel)
    ensures
        spec_report(imports, spec_apply(Profile::Full, m)).mismatches.len() == 0,
{
}


/// The host capabilities that imports are sorted by.
#[derive(Debug, Clone, Copy, PartialEq, Eq, Structural)]
pub enum Capability {
    Filesystem,
    Network,
    Process,
    Environment,
}

/// Whether import `i` reaches capability `c`.
pub open spec fn import_reaches(i: ImportModel, c: Capability) -> bool {
    match c {
        Capability::Filesystem => i.is_filesystem,
        Capability::Network => i.is_network,
        Capability::Process => i.is_process,
        Capability::Environment => i.is_env,
    }
}

impl StaticAnalysisReport {
    /// Whether some import of the binary reaches capability `c`.
    pub fn imports_capability(&self, c: Capability) -> (b: bool)
        ensures
            b == exists|k: int| 0 <= k < self.actual_imports@.len() && import_reaches(
                #[trigger] self.actual_imports@[k]@,
                c,
            ),
    {
        let mut i: usize = 0;
        while i < self.actual_imports.len()
            invariant
                i <= self.actual_imports@.len(),
                forall|k: int| 0 <= k < i ==> !import_reaches(#[trigger] self.actual_imports@[k]@, c),
            decreases self.actual_imports.len() - i,
        {
            let w = &self.actual_imports[i];
            let hit = match c {
                Capability::Filesystem => w.is_filesystem,
                Capability::Network => w.is_network,
                Capability::Process => w.is_process,
                Capability::Environment => w.is_env,
            };
            if hit {
                assert(import_reaches(self.actual_imports@[i as int]@, c));
                return true;
            }
            i = i + 1;
        }
        false
    }
}

/// Why a binary cannot be analysed. Each variant carries the text of `wasmparser`'s error,
/// the cause of the failure.
#[derive(Debug, Clone, PartialEq, Eq)]
pub enum ScanError {
    /// `wasmparser` cannot read the binary's structure.
    MalformedBinary(String),
    /// `wasmparser` cannot read an entry of an import section.
    InvalidImportEntry(String),
}

/// The meaning of a `ScanError`.
pub ghost enum ScanFailure {
    MalformedBinary(Seq<char>),
    InvalidImportEntry(Seq<char>),
}

impl View for ScanError {
    type V = ScanFailure;

    open spec fn view(&self) -> ScanFailure {
        match self {
            ScanError::MalformedBinary(d) => ScanFailure::MalformedBinary(d@),
            ScanError::InvalidImportEntry(d) => ScanFailure::InvalidImportEntry(d@),
        }
    }
}

impl ScanError {
    /// The message that explains the error to a user; `cause` gives the underlying error.
    pub fn message(&self) -> (m: &'static str)
        ensures
            self@ is MalformedBinary ==> m@ == "Failed to parse WASM binary structure"@,
            self@ is InvalidImportEntry ==> m@ == "Failed to read import entry"@,
    {
        match self {
            ScanError::MalformedBinary(_) => "Failed to parse WASM binary structure",
            ScanError::InvalidImportEntry(_) => "Failed to read import entry",
        }
    }

    /// The text of `wasmparser`'s error that caused the failure.
    pub fn cause(&self) -> (d: &String)
        ensures
            self@ == ScanFailure::MalformedBinary(d@) || self@ == ScanFailure::InvalidImportEntry(d@),
    {
        match self {
            ScanError::MalformedBinary(d) => d,
            ScanError::InvalidImportEntry(d) => d,
        }
    }
}

/// The static analyser.
pub struct Scanner;


/// Whether `lit` occurs in the field name `f`.
fn field_has(f: &Vec<char>, lit: &str) -> (b: bool)
    ensures
        b == has_substring(f@, lit@),
{
    let l = chars_of(lit);
    contains_chars(f, &l)
}

/// The network mismatch record.
fn make_network_mismatch() -> (m: PermissionMismatch)
    ensures
        m@ == network_mismatch(),
{
    PermissionMismatch {
        capability: "Network Sockets".to_owned(),
        manifest_claimed: "network = false".to_owned(),
        binary_imported: "Imports socket/connect functions".to_owned(),
        severity: "HIGH - Stealth Network Attempt".to_owned(),
    }
}

/// The process mismatch record.
fn make_process_mismatch() -> (m: PermissionMismatch)
    ensures
        m@ == process_mismatch(),
{
    PermissionMismatch {
        capability: "Process Execution".to_owned(),
        manifest_claimed: "process = false".to_owned(),
        binary_imported: "Imports proc_exit/exec functions".to_owned(),
        severity: "HIGH - Process Control".to_owned(),
    }
}

impl Scanner {
    /// Sorts one import by the capabilities that its field name reaches.
    pub fn classify_import(module: String, field: String) -> (w: WasmImport)
        ensures
            w@ == classify(module@, field@),
    {
        let f = chars_of(field.as_str());
        let is_network = field_has(&f, "sock") || field_has(&f, "connect") || field_has(
            &f,
            "socket",
        ) || field_has(&f, "net");
        let is_filesystem = field_has(&f, "path") || field_has(&f, "fd_") || field_has(&f, "file");
        let proc_exit = chars_of("proc_exit");
        let is_process = (field_has(&f, "proc") && !chars_equal(&f, &proc_exit)) || field_has(
            &f,
            "exec",
        ) || field_has(&f, "spawn") || field_has(&f, "system");
        let is_env = field_has(&f, "env") || field_has(&f, "environ");
        WasmImport { module, field, is_network, is_filesystem, is_process, is_env }
    }

    /// Analyses the imports `imports` of a binary against `manifest`: sorts every import,
    /// reports the capabilities imported but denied, and scores the risk.
    pub fn analyze_imports(imports: &Vec<(String, String)>, manifest: &CapabilityManifest) -> (r:
        StaticAnalysisReport)
        ensures
            r@ == spec_report(pair_views(imports@), manifest@),
    {
        let ghost names = pair_views(imports@);
        let mut actual: Vec<WasmImport> = Vec::new();
        let mut imports_net = false;
        let mut imports_proc = false;
        let mut i: usize = 0;
        while i < imports.len()
            invariant
                i <= imports@.len(),
                names == pair_views(imports@),
                actual@.len() == i,
                forall|k: int| 0 <= k < i ==> #[trigger] actual@[k]@ == classify(names[k].0, names[k].1),
                imports_net == exists|k: int| 0 <= k < i && is_network_field(#[trigger] names[k].1),
                imports_proc == exists|k: int| 0 <= k < i && is_process_field(#[trigger] names[k].1),
            decreases imports.len() - i,
        {
            let w = Scanner::classify_import(imports[i].0.clone(), imports[i].1.clone());
            assert(names[i as int] == (imports@[i as int].0@, imports@[i as int].1@));
            let ghost prev_net = imports_net;
            let ghost prev_proc = imports_proc;
            imports_net = imports_net || w.is_network;
            imports_proc = imports_proc || w.is_process;
            proof {
                let f = names[i as int].1;
                assert(w.is_network == is_network_field(f));
                assert(w.is_process == is_process_field(f));
                if w.is_network {
                    assert(is_network_field(names[i as int].1));
                }
                if w.is_process {
                    assert(is_process_field(names[i as int].1));
                }
                assert(imports_net == exists|k: int| 0 <= k < i + 1 && is_network_field(#[trigger] names[k].1)) by {
                    if !imports_net {
                        assert forall|k: int| 0 <= k < i + 1 implies !is_network_field(#[trigger] names[k].1) by {
                            if k < i {
                                assert(!prev_net);
                            }
                        }
                    }
                }
                assert(imports_proc == exists|k: int| 0 <= k < i + 1 && is_process_field(#[trigger] names[k].1)) by {
                    if !imports_proc {
                        assert forall|k: int| 0 <= k < i + 1 implies !is_process_field(#[trigger] names[k].1) by {
                            if k < i {
                                assert(!prev_proc);
                            }
                        }
                    }
                }
            }
            actual.push(w);
            i = i + 1;
        }
        assert(imports_net == imports_network(names));
        assert(imports_proc == imports_process(names));
        let ghost model_imports = actual@.map_values(|w: WasmImport| w@);
        assert(model_imports =~= names.map_values(|p: (Seq<char>, Seq<char>)| classify(p.0, p.1)));

        let mut mismatches: Vec<PermissionMismatch> = Vec::new();
        if imports_net && !manifest.permissions.network {
            mismatches.push(make_network_mismatch());
        }
        if imports_proc && !manifest.permissions.process {
            mismatches.push(make_process_mismatch());
        }
        let ghost expected = spec_mismatches(manifest@, imports_net, imports_proc);
        assert(mismatches@.map_values(|m: PermissionMismatch| m@) =~= expected);

        let mut risk: u32 = 0;
        if manifest.permissions.network || imports_net {
            risk = risk + 30;
        }
        if manifest.permissions.process || imports_proc {
            risk = risk + 30;
        }
        if manifest.permissions.environment_granted() {
            risk = risk + 15;
        }
        let fs_unrestricted = manifest.permissions.filesystem.is_unrestricted();
        let fs_paths = manifest.permissions.filesystem.allowed_paths();
        assert(fs_paths@.len() == crate::manifest::strings_view(fs_paths@).len());
        if fs_unrestricted {
            risk = risk + 15;
        } else if fs_paths.len() > 0 {
            risk = risk + 5;
        }
        if manifest.package.signature.is_none() {
            risk = risk + 10;
        }
        if mismatches.len() > 0 {
            risk = risk + 25;
        }
        assert(risk == spec_raw_risk(manifest@, imports_net, imports_proc));
        let capped: u32 = if risk > 100 { 100 } else { risk };
        let high_band = mismatches.len() > 0 || imports_proc;
        let medium_band = manifest.permissions.network || manifest.permissions.process
            || imports_net || manifest.permissions.environment_granted();
        let risk_score: u32 = if high_band && capped < 61 {
            61
        } else if !high_band && medium_band && capped < 31 {
            31
        } else {
            capped
        };
        let risk_level = if risk_score <= 30 {
            RiskLevel::Low
        } else if risk_score <= 60 {
            RiskLevel::Medium
        } else {
            RiskLevel::High
        };
        StaticAnalysisReport {
            declared_manifest: manifest.duplicate(),
            actual_imports: actual,
            risk_score,
            risk_level,
            mismatches,
        }
    }

    /// Reads the imports of `wasm_bytes` and analyses them against `manifest`; fails where
    /// `wasmparser` finds the binary malformed.
    pub fn analyze(wasm_bytes: &[u8], manifest: &CapabilityManifest) -> (r: Result<
        StaticAnalysisReport,
        ScanError,
    >)
        ensures
            r is Ok <==> wasm_import_names(wasm_bytes@) is Ok,
            r matches Ok(rep) ==> rep@ == spec_report(wasm_import_names(wasm_bytes@)->Ok_0, manifest@),
            r matches Err(e) ==> wasm_import_names(wasm_bytes@)->Err_0 == e@,
    {
        match read_wasm_imports(wasm_bytes) {
            Ok(imports) => Ok(Scanner::analyze_imports(&imports, manifest)),
            Err(e) => Err(e),
        }
    }
}

} // verus!

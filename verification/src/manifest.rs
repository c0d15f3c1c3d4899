//! The capability manifest (`plugin.toml`) that every plugin ships: package identity,
//! the permissions it asks for and the resource limits it runs under.
use vstd::prelude::*;
use crate::text::{is_blank, str_equal, str_is_blank};

verus! {

/// The views of a list of strings.
pub open spec fn strings_view(v: Seq<String>) -> Seq<Seq<char>> {
    v.map_values(|s: String| s@)
}

/// A whole capability manifest.
#[derive(Debug, Clone, PartialEq, Eq)]
pub struct CapabilityManifest {
    pub package: PackageMetadata,
    pub permissions: PermissionsConfig,
    pub limits: ResourceLimits,
}

/// Who the package is and how it is signed.
#[derive(Debug, Clone, PartialEq, Eq)]
pub struct PackageMetadata {
    pub name: String,
    pub version: String,
    pub publisher: String,
    pub description: Option<String>,
    pub signature: Option<String>,
    pub public_key: Option<String>,
}

/// The host capabilities that a plugin asks for.
#[derive(Debug, Clone, PartialEq, Eq)]
pub struct PermissionsConfig {
    pub filesystem: FilesystemPermissions,
    pub network: bool,
    pub process: bool,
    pub environment: EnvironmentPermissions,
    pub clipboard: bool,
}

/// Filesystem access: none or all (`Bool`), or a list of directories (`Paths`).
#[derive(Debug, Clone, PartialEq, Eq)]
pub enum FilesystemPermissions {
    Bool(bool),
    Paths(Vec<String>),
}

/// Environment access: none or all (`Bool`), or a list of variable names (`Vars`).
#[derive(Debug, Clone, PartialEq, Eq)]
pub enum EnvironmentPermissions {
    Bool(bool),
    Vars(Vec<String>),
}

/// The resource limits of one run.
#[derive(Debug, Clone, PartialEq, Eq)]
pub struct ResourceLimits {
    pub memory_mb: u64,
    pub cpu_ms: u64,
    pub execution_timeout_ms: u64,
}


/// The meaning of a manifest: its strings by their characters.
pub ghost struct ManifestModel {
    pub package: PackageModel,
    pub permissions: PermissionsModel,
    pub limits: LimitsModel,
}

/// The meaning of the package metadata.
pub ghost struct PackageModel {
    pub name: Seq<char>,
    pub version: Seq<char>,
    pub publisher: Seq<char>,
    pub description: Option<Seq<char>>,
    pub signature: Option<Seq<char>>,
    pub public_key: Option<Seq<char>>,
}

/// The meaning of a permissions section.
pub ghost struct PermissionsModel {
    pub filesystem: FilesystemModel,
    pub network: bool,
    pub process: bool,
    pub environment: EnvironmentModel,
    pub clipboard: bool,
}

/// The meaning of a filesystem permission.
pub ghost enum FilesystemModel {
    Bool(bool),
    Paths(Seq<Seq<char>>),
}

/// The meaning of an environment permission.
pub ghost enum EnvironmentModel {
    Bool(bool),
    Vars(Seq<Seq<char>>),
}

/// The meaning of a limits section.
pub ghost struct LimitsModel {
    pub memory_mb: nat,
    pub cpu_ms: nat,
    pub execution_timeout_ms: nat,
}

/// The view of an optional string.
pub open spec fn opt_view(o: Option<String>) -> Option<Seq<char>> {
    match o {
        Some(s) => Some(s@),
        None => None,
    }
}

impl View for PackageMetadata {
    type V = PackageModel;

    open spec fn view(&self) -> PackageModel {
        PackageModel {
            name: self.name@,
            version: self.version@,
            publisher: self.publisher@,
            description: opt_view(self.description),
            signature: opt_view(self.signature),
            public_key: opt_view(self.public_key),
        }
    }
}

impl View for FilesystemPermissions {
    type V = FilesystemModel;

    open spec fn view(&self) -> FilesystemModel {
        match self {
            FilesystemPermissions::Bool(b) => FilesystemModel::Bool(*b),
            FilesystemPermissions::Paths(p) => FilesystemModel::Paths(strings_view(p@)),
        }
    }
}

impl View for EnvironmentPermissions {
    type V = EnvironmentModel;

    open spec fn view(&self) -> EnvironmentModel {
        match self {
            EnvironmentPermissions::Bool(b) => EnvironmentModel::Bool(*b),
            EnvironmentPermissions::Vars(v) => EnvironmentModel::Vars(strings_view(v@)),
        }
    }
}

impl View for PermissionsConfig {
    type V = PermissionsModel;

    open spec fn view(&self) -> PermissionsModel {
        PermissionsModel {
            filesystem: self.filesystem@,
            network: self.network,
            process: self.process,
            environment: self.environment@,
            clipboard: self.clipboard,
        }
    }
}

impl View for ResourceLimits {
    type V = LimitsModel;

    open spec fn view(&self) -> LimitsModel {
        LimitsModel {
            memory_mb: self.memory_mb as nat,
            cpu_ms: self.cpu_ms as nat,
            execution_timeout_ms: self.execution_timeout_ms as nat,
        }
    }
}

impl View for CapabilityManifest {
    type V = ManifestModel;

    open spec fn view(&self) -> ManifestModel {
        ManifestModel {
            package: self.package@,
            permissions: self.permissions@,
            limits: self.limits@,
        }
    }
}

/// Why a manifest is rejected.
#[derive(Debug, Clone, Copy, PartialEq, Eq)]
pub enum ManifestError {
    /// The package name is empty once whitespace is trimmed.
    EmptyPackageName,
    /// `limits.memory_mb` is zero.
    ZeroMemoryLimit,
}

impl ManifestError {
    /// The message that explains the error to a user.
    pub fn message(&self) -> (m: &'static str)
        ensures
            *self == ManifestError::EmptyPackageName ==> m@ == "Package name cannot be empty"@,
            *self == ManifestError::ZeroMemoryLimit ==> m@
                == "Memory limit must be greater than 0 MB"@,
    {
        match self {
            ManifestError::EmptyPackageName => "Package name cannot be empty",
            ManifestError::ZeroMemoryLimit => "Memory limit must be greater than 0 MB",
        }
    }
}

/// The publisher recorded when a manifest names none.
pub fn default_publisher() -> (s: String)
    ensures
        s@ == "anonymous"@,
{
    "anonymous".to_owned()
}

/// The memory limit, in MB, when a manifest sets none.
pub fn default_memory_mb() -> (n: u64)
    ensures
        n == 64,
{
    64
}

/// The CPU budget, in ms, when a manifest sets none.
pub fn default_cpu_ms() -> (n: u64)
    ensures
        n == 1000,
{
    1000
}

/// The wall-clock timeout, in ms, when a manifest sets none.
pub fn default_timeout_ms() -> (n: u64)
    ensures
        n == 2000,
{
    2000
}

impl Default for FilesystemPermissions {
    fn default() -> (p: Self)
        ensures
            p == FilesystemPermissions::Bool(false),
    {
        FilesystemPermissions::Bool(false)
    }
}

impl Default for EnvironmentPermissions {
    fn default() -> (p: Self)
        ensures
            p == EnvironmentPermissions::Bool(false),
    {
        EnvironmentPermissions::Bool(false)
    }
}

impl Default for ResourceLimits {
    fn default() -> (l: Self)
        ensures
            l.memory_mb == 64,
            l.cpu_ms == 1000,
            l.execution_timeout_ms == 2000,
    {
        ResourceLimits {
            memory_mb: default_memory_mb(),
            cpu_ms: default_cpu_ms(),
            execution_timeout_ms: default_timeout_ms(),
        }
    }
}

impl Default for PermissionsConfig {
    fn default() -> (p: Self)
        ensures
            p.filesystem == FilesystemPermissions::Bool(false),
            !p.network,
            !p.process,
            p.environment == EnvironmentPermissions::Bool(false),
            !p.clipboard,
    {
        PermissionsConfig {
            filesystem: FilesystemPermissions::Bool(false),
            network: false,
            process: false,
            environment: EnvironmentPermissions::Bool(false),
            clipboard: false,
        }
    }
}

/// A path pattern that stands for the whole filesystem.
pub open spec fn is_root_pattern(p: Seq<char>) -> bool {
    p == "/"@ || p == "*"@ || p == "C:\\"@
}

/// Some path of the list stands for the whole filesystem.
pub open spec fn lists_root_pattern(paths: Seq<Seq<char>>) -> bool {
    exists|i: int| 0 <= i < paths.len() && is_root_pattern(#[trigger] paths[i])
}

impl FilesystemModel {
    /// The directories that the sandbox opens for the plugin.
    pub open spec fn allowed_paths(self) -> Seq<Seq<char>> {
        match self {
            FilesystemModel::Bool(b) => if b {
                seq!["."@]
            } else {
                Seq::empty()
            },
            FilesystemModel::Paths(p) => p,
        }
    }

    /// Whether the permission reaches the whole filesystem.
    pub open spec fn is_unrestricted(self) -> bool {
        match self {
            FilesystemModel::Bool(b) => b,
            FilesystemModel::Paths(p) => lists_root_pattern(p),
        }
    }
}

impl FilesystemPermissions {
    /// The directories that the sandbox opens: none for `Bool(false)`, the current directory
    /// for `Bool(true)`, the listed ones, in order, for `Paths`.
    pub fn allowed_paths(&self) -> (paths: Vec<String>)
        ensures
            strings_view(paths@) == self@.allowed_paths(),
    {
        match self {
            FilesystemPermissions::Bool(b) => {
                if *b {
                    let mut v: Vec<String> = Vec::new();
                    v.push(".".to_owned());
                    assert(strings_view(v@) =~= seq!["."@]);
                    v
                } else {
                    let v: Vec<String> = Vec::new();
                    assert(strings_view(v@) =~= Seq::<Seq<char>>::empty());
                    v
                }
            },
            FilesystemPermissions::Paths(paths) => clone_strings(paths),
        }
    }

    /// Whether the permission reaches the whole filesystem: `Bool(true)`, or a listed path
    /// that is `/`, `*` or `C:\`.
    pub fn is_unrestricted(&self) -> (b: bool)
        ensures
            b == self@.is_unrestricted(),
    {
        match self {
            FilesystemPermissions::Bool(b) => *b,
            FilesystemPermissions::Paths(paths) => {
                let mut i: usize = 0;
                while i < paths.len()
                    invariant
                        i <= paths@.len(),
                        *self == FilesystemPermissions::Paths(*paths),
                        forall|k: int| 0 <= k < i ==> !is_root_pattern(#[trigger] paths@[k]@),
                    decreases paths.len() - i,
                {
                    let p = paths[i].as_str();
                    if str_equal(p, "/") || str_equal(p, "*") || str_equal(p, "C:\\") {
                        assert(strings_view(paths@)[i as int] == paths@[i as int]@);
                        return true;
                    }
                    i = i + 1;
                }
                assert forall|k: int| 0 <= k < strings_view(paths@).len() implies !is_root_pattern(
                    #[trigger] strings_view(paths@)[k],
                ) by {
                    assert(strings_view(paths@)[k] == paths@[k]@);
                }
                false
            },
        }
    }
}


impl PermissionsConfig {
    /// Whether the plugin may read any environment variable.
    pub fn environment_granted(&self) -> (b: bool)
        ensures
            b == (self@.environment != EnvironmentModel::Bool(false)),
    {
        match &self.environment {
            EnvironmentPermissions::Bool(b) => *b,
            EnvironmentPermissions::Vars(_) => true,
        }
    }
}

/// The reason `validate` gives for a manifest, if any: the package name is checked first.
pub open spec fn spec_validation(m: ManifestModel) -> Result<(), ManifestError> {
    if is_blank(m.package.name) {
        Err(ManifestError::EmptyPackageName)
    } else if m.limits.memory_mb == 0 {
        Err(ManifestError::ZeroMemoryLimit)
    } else {
        Ok(())
    }
}

/// The default resource limits.
pub open spec fn default_limits() -> LimitsModel {
    LimitsModel { memory_mb: 64, cpu_ms: 1000, execution_timeout_ms: 2000 }
}

/// The manifest that `default_manifest_for_package(name)` builds.
pub open spec fn default_manifest_model(name: Seq<char>) -> ManifestModel {
    ManifestModel {
        package: PackageModel {
            name: name,
            version: "0.1.0"@,
            publisher: "local-dev"@,
            description: Some("WasmVault Capability Managed Plugin"@),
            signature: None,
            public_key: None,
        },
        permissions: PermissionsModel {
            filesystem: FilesystemModel::Paths(seq!["./workspace/input"@, "./workspace/output"@]),
            network: false,
            process: false,
            environment: EnvironmentModel::Bool(false),
            clipboard: false,
        },
        limits: default_limits(),
    }
}

impl CapabilityManifest {
    /// Checks the manifest: the package name must not be blank, and the memory limit must
    /// not be zero.
    pub fn validate(&self) -> (r: Result<(), ManifestError>)
        ensures
            r == spec_validation(self@),
    {
        if str_is_blank(self.package.name.as_str()) {
            return Err(ManifestError::EmptyPackageName);
        }
        if self.limits.memory_mb == 0 {
            return Err(ManifestError::ZeroMemoryLimit);
        }
        Ok(())
    }

    /// The manifest given to a package that ships none: version 0.1.0 by `local-dev`,
    /// unsigned, reading and writing the two workspace directories, nothing else granted,
    /// default limits.
    pub fn default_manifest_for_package(name: &str) -> (m: Self)
        ensures
            m@ == default_manifest_model(name@),
    {
        let mut paths: Vec<String> = Vec::new();
        paths.push("./workspace/input".to_owned());
        paths.push("./workspace/output".to_owned());
        let m = CapabilityManifest {
            package: PackageMetadata {
                name: name.to_owned(),
                version: "0.1.0".to_owned(),
                publisher: "local-dev".to_owned(),
                description: Some("WasmVault Capability Managed Plugin".to_owned()),
                signature: None,
                public_key: None,
            },
            permissions: PermissionsConfig {
                filesystem: FilesystemPermissions::Paths(paths),
                network: false,
                process: false,
                environment: EnvironmentPermissions::Bool(false),
                clipboard: false,
            },
            limits: ResourceLimits::default(),
        };
        assert(strings_view(paths@) =~= seq!["./workspace/input"@, "./workspace/output"@]);
        m
    }

    /// A copy of the manifest.
    pub fn duplicate(&self) -> (c: Self)
        ensures
            c@ == self@,
    {
        CapabilityManifest {
            package: PackageMetadata {
                name: self.package.name.clone(),
                version: self.package.version.clone(),
                publisher: self.package.publisher.clone(),
                description: clone_opt_string(&self.package.description),
                signature: clone_opt_string(&self.package.signature),
                public_key: clone_opt_string(&self.package.public_key),
            },
            permissions: PermissionsConfig {
                filesystem: match &self.permissions.filesystem {
                    FilesystemPermissions::Bool(b) => FilesystemPermissions::Bool(*b),
                    FilesystemPermissions::Paths(p) => FilesystemPermissions::Paths(clone_strings(p)),
                },
                network: self.permissions.network,
                process: self.permissions.process,
                environment: match &self.permissions.environment {
                    EnvironmentPermissions::Bool(b) => EnvironmentPermissions::Bool(*b),
                    EnvironmentPermissions::Vars(v) => EnvironmentPermissions::Vars(clone_strings(v)),
                },
                clipboard: self.permissions.clipboard,
            },
            limits: ResourceLimits {
                memory_mb: self.limits.memory_mb,
                cpu_ms: self.limits.cpu_ms,
                execution_timeout_ms: self.limits.execution_timeout_ms,
            },
        }
    }
}

/// A blank package name is rejected whatever else the manifest holds, and a manifest with a
/// non-blank name and a non-zero memory limit is accepted.
pub proof fn lemma_validation_decides(m: ManifestModel)
    ensures
        is_blank(m.package.name) ==> spec_validation(m) == Err::<(), ManifestError>(
            ManifestError::EmptyPackageName,
        ),
        !is_blank(m.package.name) && m.limits.memory_mb > 0 ==> spec_validation(m) is Ok,
{
}

/// The default manifest of a package passes validation exactly when the package name is
/// not blank.
pub proof fn lemma_default_manifest_validates(name: Seq<char>)
    ensures
        spec_validation(default_manifest_model(name)) is Ok <==> !is_blank(name),
{
}

/// A filesystem permission that reaches the whole filesystem always opens some directory.
pub proof fn lemma_unrestricted_opens_some_path(p: FilesystemModel)
    requires
        p.is_unrestricted(),
    ensures
        p.allowed_paths().len() > 0,
{
}

/// No directory is opened exactly when filesystem access is off or lists no path.
pub proof fn lemma_no_paths_iff_no_access(p: FilesystemModel)
    ensures
        p.allowed_paths().len() == 0 <==> (p == FilesystemModel::Bool(false) || (
        p matches FilesystemModel::Paths(v) && v.len() == 0)),
{
}

/// A copy of an optional string.
fn clone_opt_string(o: &Option<String>) -> (c: Option<String>)
    ensures
        opt_view(c) == opt_view(*o),
{
    match o {
        Some(s) => Some(s.clone()),
        None => None,
    }
}

/// A copy of a list of strings.
pub fn clone_strings(v: &Vec<String>) -> (c: Vec<String>)
    ensures
        c@ == v@,
        strings_view(c@) == strings_view(v@),
{
    let mut c: Vec<String> = Vec::new();
    let mut i: usize = 0;
    while i < v.len()
        invariant
            i <= v@.len(),
            c@ == v@.subrange(0, i as int),
        decreases v.len() - i,
    {
        c.push(v[i].clone());
        i = i + 1;
    }
    assert(c@ =~= v@);
    c
}

} // verus!

//! Security profiles: named presets that overwrite the permissions of a manifest.
use vstd::prelude::*;
use crate::manifest::{
    CapabilityManifest, EnvironmentModel, EnvironmentPermissions, FilesystemModel,
    FilesystemPermissions, ManifestModel, PermissionsModel, strings_view,
};

verus! {

/// A security profile.
#[derive(Debug, Clone, Copy, PartialEq, Eq, Structural)]
pub enum Profile {
    /// No filesystem, network, process or environment access.
    Strict,
    /// The workspace directory only.
    Workspace,
    /// The workspace directory and the network.
    Network,
    /// Everything.
    Full,
}

/// The manifest that applying profile `p` to `m` yields. The package, the limits and the
/// clipboard permission are never touched; `Network` leaves the environment as it was.
pub open spec fn spec_apply(p: Profile, m: ManifestModel) -> ManifestModel {
    let perms = m.permissions;
    let workspace = FilesystemModel::Paths(seq!["./workspace"@]);
    let new_perms = match p {
        Profile::Strict => PermissionsModel {
            network: false,
            process: false,
            filesystem: FilesystemModel::Bool(false),
            environment: EnvironmentModel::Bool(false),
            ..perms
        },
        Profile::Workspace => PermissionsModel {
            network: false,
            process: false,
            filesystem: workspace,
            environment: EnvironmentModel::Bool(false),
            ..perms
        },
        Profile::Network => PermissionsModel {
            network: true,
            process: false,
            filesystem: workspace,
            ..perms
        },
        Profile::Full => PermissionsModel {
            network: true,
            process: true,
            filesystem: FilesystemModel::Bool(true),
            environment: EnvironmentModel::Bool(true),
            ..perms
        },
    };
    ManifestModel { permissions: new_perms, ..m }
}

/// The workspace directory as the only allowed path.
fn workspace_only() -> (f: FilesystemPermissions)
    ensures
        f@ == FilesystemModel::Paths(seq!["./workspace"@]),
{
    let mut v: Vec<String> = Vec::new();
    v.push("./workspace".to_owned());
    assert(strings_view(v@) =~= seq!["./workspace"@]);
    FilesystemPermissions::Paths(v)
}

/// Why a profile may not be applied.
#[derive(Debug, Clone, Copy, PartialEq, Eq, Structural)]
pub enum ProfileError {
    /// `Full` was asked for without the explicit acknowledgement.
    AcknowledgementRequired,
}

impl ProfileError {
    /// The message that explains the error to a user.
    pub fn message(&self) -> (m: &'static str)
        ensures
            m@ == "Running under Profile::Full requires --i-know-what-im-doing flag due to dangerous system access!"@,
    {
        "Running under Profile::Full requires --i-know-what-im-doing flag due to dangerous system access!"
    }
}

impl Profile {
    /// Checks that the profile may be applied: `Full` grants dangerous system access and needs
    /// the user's explicit acknowledgement; every other profile may always be applied.
    pub fn check_allowed(&self, acknowledged: bool) -> (r: Result<(), ProfileError>)
        ensures
            r is Err <==> (*self == Profile::Full && !acknowledged),
            r matches Err(e) ==> e == ProfileError::AcknowledgementRequired,
    {
        match self {
            Profile::Full => if acknowledged {
                Ok(())
            } else {
                Err(ProfileError::AcknowledgementRequired)
            },
            _ => Ok(()),
        }
    }

    /// Overwrites the permissions of `manifest` with those of the profile.
    pub fn apply(&self, manifest: &mut CapabilityManifest)
        ensures
            final(manifest)@ == spec_apply(*self, old(manifest)@),
    {
        match self {
            Profile::Strict => {
                manifest.permissions.network = false;
                manifest.permissions.process = false;
                manifest.permissions.filesystem = FilesystemPermissions::Bool(false);
                manifest.permissions.environment = EnvironmentPermissions::Bool(false);
            },
            Profile::Workspace => {
                manifest.permissions.network = false;
                manifest.permissions.process = false;
                manifest.permissions.filesystem = workspace_only();
                manifest.permissions.environment = EnvironmentPermissions::Bool(false);
            },
            Profile::Network => {
                manifest.permissions.network = true;
                manifest.permissions.process = false;
                manifest.permissions.filesystem = workspace_only();
            },
            Profile::Full => {
                manifest.permissions.network = true;
                manifest.permissions.process = true;
                manifest.permissions.filesystem = FilesystemPermissions::Bool(true);
                manifest.permissions.environment = EnvironmentPermissions::Bool(true);
            },
        }
    }
}


/// What each profile grants, whatever the manifest held before:
/// `Strict` nothing; `Workspace` the directory `./workspace` only; `Network` that directory
/// and the network, keeping the environment permission as it was; `Full` everything. Only
/// `Full` and `Network` can leave environment access granted.
pub proof fn lemma_profile_permissions(p: Profile, m: ManifestModel)
    ensures
        p == Profile::Strict ==> {
            let q = spec_apply(p, m).permissions;
            &&& !q.network && !q.process
            &&& q.filesystem == FilesystemModel::Bool(false)
            &&& q.environment == EnvironmentModel::Bool(false)
        },
        p == Profile::Workspace ==> {
            let q = spec_apply(p, m).permissions;
            &&& !q.network && !q.process
            &&& q.filesystem == FilesystemModel::Paths(seq!["./workspace"@])
            &&& q.environment == EnvironmentModel::Bool(false)
        },
        p == Profile::Network ==> {
            let q = spec_apply(p, m).permissions;
            &&& q.network && !q.process
            &&& q.filesystem == FilesystemModel::Paths(seq!["./workspace"@])
            &&& q.environment == m.permissions.environment
        },
        p == Profile::Full ==> {
            let q = spec_apply(p, m).permissions;
            &&& q.network && q.process
            &&& q.filesystem == FilesystemModel::Bool(true)
            &&& q.environment == EnvironmentModel::Bool(true)
        },
        spec_apply(p, m).permissions.environment != EnvironmentModel::Bool(false)
            ==> (p == Profile::Full || (p == Profile::Network && m.permissions.environment
            != EnvironmentModel::Bool(false))),
{
}

/// Applying a profile a second time changes nothing.
pub proof fn lemma_apply_idempotent(p: Profile, m: ManifestModel)
    ensures
        spec_apply(p, spec_apply(p, m)) == spec_apply(p, m),
{
}

/// Every profile but `Network` sets all four permissions it governs, so that applying it
/// after any other profile gives what applying it alone gives.
pub proof fn lemma_last_profile_wins(first: Profile, second: Profile, m: ManifestModel)
    requires
        second != Profile::Network,
    ensures
        spec_apply(second, spec_apply(first, m)) == spec_apply(second, m),
{
}

/// No profile changes the package identity, the resource limits or the clipboard permission.
pub proof fn lemma_apply_keeps_package_and_limits(p: Profile, m: ManifestModel)
    ensures
        spec_apply(p, m).package == m.package,
        spec_apply(p, m).limits == m.limits,
        spec_apply(p, m).permissions.clipboard == m.permissions.clipboard,
{
}

/// Only `Full` grants process control, and only `Network` and `Full` grant the network.
pub proof fn lemma_profile_grants(p: Profile, m: ManifestModel)
    ensures
        spec_apply(p, m).permissions.process <==> p == Profile::Full,
        spec_apply(p, m).permissions.network <==> (p == Profile::Network || p == Profile::Full),
        !spec_apply(p, m).permissions.filesystem.is_unrestricted() <==> p != Profile::Full,
{
    let w: Seq<Seq<char>> = seq!["./workspace"@];
    if !crate::manifest::lists_root_pattern(w) {
    } else {
        let i = choose|i: int| 0 <= i < w.len() && crate::manifest::is_root_pattern(#[trigger] w[i]);
        assert(i == 0);
        assert(w[0] == "./workspace"@);
        reveal_strlit("./workspace");
        reveal_strlit("/");
        reveal_strlit("*");
        reveal_strlit("C:\\");
        assert(w[0].len() != "/"@.len());
        assert(w[0].len() != "*"@.len());
        assert(w[0].len() != "C:\\"@.len());
    }
}


/// Applying a profile never changes whether a manifest passes validation.
pub proof fn lemma_apply_keeps_validity(p: Profile, m: ManifestModel)
    ensures
        crate::manifest::spec_validation(spec_apply(p, m)) == crate::manifest::spec_validation(m),
{
}

} // verus!

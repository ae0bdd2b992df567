use vstd::prelude::*;

verus! {

/// A reproducible-environment provider that can govern a directory scope.
#[derive(Clone, Copy, PartialEq, Eq, Structural, Debug)]
pub enum Provider {
    Flake,
    Devenv,
    Flox,
    ShellNix,
}

/// A snapshot of which marker files exist at one directory root.
///
/// The caller takes the snapshot (by whatever means it reads the
/// filesystem) and hands it in as plain booleans; everything decided
/// from it is then a pure function of this record.
#[derive(Clone, Copy, PartialEq, Eq, Structural, Debug)]
pub struct RootMarkers {
    pub flake_nix: bool,
    pub flake_lock: bool,
    pub devenv_nix: bool,
    pub devenv_yaml: bool,
    pub devenv_lock: bool,
    pub flox_dir: bool,
    pub shell_nix: bool,
    pub default_nix: bool,
}

/// The configuration view of one invocation: which providers are
/// enabled, the ad-hoc package list, the optional Flox environment
/// name, and the optional tool version. Never mutated by this crate.
pub struct ToolchainConfig {
    pub use_flake: bool,
    pub use_shell_nix: bool,
    pub use_flox: bool,
    pub use_devenv: bool,
    pub packages: Vec<String>,
    pub flox_environment: Option<String>,
    pub version: Option<String>,
}

/// Position of a provider in the fixed priority order; lower wins.
pub open spec fn provider_priority(p: Provider) -> nat {
    match p {
        Provider::Flake => 0,
        Provider::Devenv => 1,
        Provider::Flox => 2,
        Provider::ShellNix => 3,
    }
}

/// Whether the configuration enables a provider.
pub open spec fn provider_enabled(c: ToolchainConfig, p: Provider) -> bool {
    match p {
        Provider::Flake => c.use_flake,
        Provider::Devenv => c.use_devenv,
        Provider::Flox => c.use_flox,
        Provider::ShellNix => c.use_shell_nix,
    }
}

/// Whether the marker files that signal a provider are present at a root.
/// Devenv is signalled by either of its two descriptor files.
pub open spec fn markers_present(m: RootMarkers, p: Provider) -> bool {
    match p {
        Provider::Flake => m.flake_nix,
        Provider::Devenv => m.devenv_nix || m.devenv_yaml,
        Provider::Flox => m.flox_dir,
        Provider::ShellNix => m.shell_nix,
    }
}

/// A provider may govern a root only when it is both enabled and marked.
pub open spec fn eligible(m: RootMarkers, c: ToolchainConfig, p: Provider) -> bool {
    provider_enabled(c, p) && markers_present(m, p)
}

/// The provider that governs a root: the first eligible provider in
/// the fixed priority order, or `None` when no provider is eligible.
pub open spec fn spec_detect(m: RootMarkers, c: ToolchainConfig) -> Option<Provider> {
    if eligible(m, c, Provider::Flake) {
        Some(Provider::Flake)
    } else if eligible(m, c, Provider::Devenv) {
        Some(Provider::Devenv)
    } else if eligible(m, c, Provider::Flox) {
        Some(Provider::Flox)
    } else if eligible(m, c, Provider::ShellNix) {
        Some(Provider::ShellNix)
    } else {
        None
    }
}

/// Decide which provider, if any, governs the root whose markers were
/// snapshotted in `markers`. Pure: consults nothing but its arguments.
pub fn detect(markers: &RootMarkers, config: &ToolchainConfig) -> (r: Option<Provider>)
    ensures
        r == spec_detect(*markers, *config),
{
    if config.use_flake && markers.flake_nix {
        Some(Provider::Flake)
    } else if config.use_devenv && (markers.devenv_nix || markers.devenv_yaml) {
        Some(Provider::Devenv)
    } else if config.use_flox && markers.flox_dir {
        Some(Provider::Flox)
    } else if config.use_shell_nix && markers.shell_nix {
        Some(Provider::ShellNix)
    } else {
        None
    }
}

/// Detection selects exactly one eligible provider, and none that a
/// higher-priority eligible provider would displace; when it selects
/// nothing, no provider is eligible at all.
pub proof fn lemma_detect_characterization(m: RootMarkers, c: ToolchainConfig)
    ensures
        match spec_detect(m, c) {
            Some(p) => eligible(m, c, p) && forall|q: Provider|
                eligible(m, c, q) ==> provider_priority(p) <= provider_priority(q),
            None => forall|q: Provider| !eligible(m, c, q),
        },
{
}

/// A provider disabled in the configuration is never selected,
/// whatever marker files exist on disk.
pub proof fn lemma_disabled_never_selected(m: RootMarkers, c: ToolchainConfig, p: Provider)
    requires
        !provider_enabled(c, p),
    ensures
        spec_detect(m, c) != Some(p),
{
}

} // verus!

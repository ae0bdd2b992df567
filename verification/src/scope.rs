use vstd::prelude::*;
use crate::provider::{Provider, RootMarkers, ToolchainConfig, spec_detect, detect};

verus! {

/// The directory level at which a resolution decided.
#[derive(Clone, Copy, PartialEq, Eq, Structural, Debug)]
pub enum ScopeKind {
    Project,
    Workspace,
}

/// The outcome of scope resolution: the winning scope, and the
/// provider that governs it, if any.
#[derive(Clone, Copy, PartialEq, Eq, Structural, Debug)]
pub struct Resolution {
    pub scope: ScopeKind,
    pub provider: Option<Provider>,
}

/// Most specific scope wins: when a project root is given and yields
/// a provider, that pair is the result; otherwise the workspace root
/// is consulted; when both miss, the result is the workspace scope
/// with no provider.
pub open spec fn spec_resolve(
    project: Option<RootMarkers>,
    workspace: RootMarkers,
    c: ToolchainConfig,
) -> Resolution {
    match project {
        Some(pm) => match spec_detect(pm, c) {
            Some(p) => Resolution { scope: ScopeKind::Project, provider: Some(p) },
            None => Resolution { scope: ScopeKind::Workspace, provider: spec_detect(workspace, c) },
        },
        None => Resolution { scope: ScopeKind::Workspace, provider: spec_detect(workspace, c) },
    }
}

/// Resolve the winning scope and provider for a task, trying the
/// project root first and falling back to the workspace root.
pub fn resolve(
    project: Option<RootMarkers>,
    workspace: &RootMarkers,
    config: &ToolchainConfig,
) -> (r: Resolution)
    ensures
        r == spec_resolve(project, *workspace, *config),
{
    match project {
        Some(pm) => match detect(&pm, config) {
            Some(p) => Resolution { scope: ScopeKind::Project, provider: Some(p) },
            None => Resolution { scope: ScopeKind::Workspace, provider: detect(workspace, config) },
        },
        None => Resolution { scope: ScopeKind::Workspace, provider: detect(workspace, config) },
    }
}

/// When the project scope yields a provider, it wins: whatever the
/// workspace markers hold, the resolution is the project's match.
pub proof fn lemma_project_scope_precedence(pm: RootMarkers, wm: RootMarkers, c: ToolchainConfig)
    requires
        spec_detect(pm, c) is Some,
    ensures
        spec_resolve(Some(pm), wm, c).scope == ScopeKind::Project,
        spec_resolve(Some(pm), wm, c).provider == spec_detect(pm, c),
{
}

} // verus!

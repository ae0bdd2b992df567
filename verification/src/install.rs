use vstd::prelude::*;
use vstd::string::StringExecFns;
use crate::provider::{Provider, RootMarkers, ToolchainConfig, spec_detect, detect};
use crate::scope::{Resolution, ScopeKind, spec_resolve, resolve};
use crate::text::{seq_views, push_all_cloned};

verus! {

/// A one-time preparation command for the host to run at the scope
/// root: the program and its full argument list.
pub struct PlannedCommand {
    pub program: String,
    pub args: Vec<String>,
}

/// The mathematical image of a `PlannedCommand`.
pub struct SpecPlannedCommand {
    pub program: Seq<char>,
    pub args: Seq<Seq<char>>,
}

impl View for PlannedCommand {
    type V = SpecPlannedCommand;

    open spec fn view(&self) -> SpecPlannedCommand {
        SpecPlannedCommand { program: self.program@, args: seq_views(self.args@) }
    }
}

/// The image of an optional planned command.
pub open spec fn opt_command_view(o: Option<PlannedCommand>) -> Option<SpecPlannedCommand> {
    match o {
        Some(c) => Some(c@),
        None => None,
    }
}

/// The one-time preparation owed for a selected provider at a root,
/// as an ordered fallback: a flake with no lock file gets a
/// lock-generation command; a devenv root gets an idempotent
/// materialize command; a Flox root gets an install command; with no
/// provider selected but ad-hoc packages configured, an install
/// command naming every package in order; otherwise nothing.
pub open spec fn spec_plan_install(
    p: Option<Provider>,
    m: RootMarkers,
    packages: Seq<Seq<char>>,
) -> Option<SpecPlannedCommand> {
    if p == Some(Provider::Flake) && m.flake_nix && !m.flake_lock {
        Some(SpecPlannedCommand { program: "nix"@, args: seq!["flake"@, "lock"@] })
    } else if p == Some(Provider::Devenv) && (m.devenv_nix || m.devenv_yaml) {
        Some(SpecPlannedCommand { program: "devenv"@, args: seq!["info"@] })
    } else if p == Some(Provider::Flox) && m.flox_dir {
        Some(SpecPlannedCommand { program: "flox"@, args: seq!["install"@] })
    } else if p is None && packages.len() > 0 {
        Some(SpecPlannedCommand { program: "nix-env"@, args: seq!["--install"@] + packages })
    } else {
        None
    }
}

/// Build a command from a program name and its fixed tokens.
fn fixed_command(program: &str, first: &str, rest: Option<&str>) -> (r: PlannedCommand)
    ensures
        r@.program == program@,
        (match rest {
            Some(s) => r@.args == seq![first@, s@],
            None => r@.args == seq![first@],
        }),
{
    let mut args: Vec<String> = Vec::new();
    args.push(String::from_str(first));
    match rest {
        Some(s) => {
            args.push(String::from_str(s));
            proof {
                assert(seq_views(args@) =~~= seq![first@, s@]);
            }
        },
        None => {
            proof {
                assert(seq_views(args@) =~~= seq![first@]);
            }
        },
    }
    PlannedCommand { program: String::from_str(program), args }
}

/// Decide what one-time preparation command, if any, a selected
/// provider requires at the root whose markers are given.
pub fn plan_install(
    provider: Option<Provider>,
    markers: &RootMarkers,
    config: &ToolchainConfig,
) -> (r: Option<PlannedCommand>)
    ensures
        opt_command_view(r) == spec_plan_install(provider, *markers, seq_views(config.packages@)),
{
    match provider {
        Some(Provider::Flake) => {
            if markers.flake_nix && !markers.flake_lock {
                Some(fixed_command("nix", "flake", Some("lock")))
            } else {
                None
            }
        },
        Some(Provider::Devenv) => {
            if markers.devenv_nix || markers.devenv_yaml {
                Some(fixed_command("devenv", "info", None))
            } else {
                None
            }
        },
        Some(Provider::Flox) => {
            if markers.flox_dir {
                Some(fixed_command("flox", "install", None))
            } else {
                None
            }
        },
        Some(Provider::ShellNix) => None,
        None => {
            if config.packages.len() > 0 {
                let mut args: Vec<String> = Vec::new();
                args.push(String::from_str("--install"));
                push_all_cloned(&mut args, &config.packages);
                let r = PlannedCommand { program: String::from_str("nix-env"), args };
                proof {
                    assert(r@.args =~~= seq!["--install"@] + seq_views(config.packages@));
                }
                Some(r)
            } else {
                None
            }
        },
    }
}

/// Detect the provider at a root and plan its preparation: the
/// decision behind the dependency-install lifecycle call.
pub fn install_dependencies_core(markers: &RootMarkers, config: &ToolchainConfig) -> (r: Option<
    PlannedCommand,
>)
    ensures
        opt_command_view(r) == spec_plan_install(
            spec_detect(*markers, *config),
            *markers,
            seq_views(config.packages@),
        ),
{
    let provider = detect(markers, config);
    plan_install(provider, markers, config)
}

/// The commands owed by environment setup: resolve the winning scope,
/// then plan at the markers of that scope.
pub open spec fn spec_setup_environment(
    project: Option<RootMarkers>,
    workspace: RootMarkers,
    c: ToolchainConfig,
) -> Seq<SpecPlannedCommand> {
    let r = spec_resolve(project, workspace, c);
    let m = (match project {
        Some(pm) => if r.scope == ScopeKind::Project {
            pm
        } else {
            workspace
        },
        None => workspace,
    });
    match spec_plan_install(r.provider, m, seq_views(c.packages@)) {
        Some(cmd) => seq![cmd],
        None => Seq::empty(),
    }
}

/// The images of a list of planned commands.
pub open spec fn commands_views(cs: Seq<PlannedCommand>) -> Seq<SpecPlannedCommand> {
    cs.map_values(|c: PlannedCommand| c@)
}

/// Resolve project-then-workspace scope and emit the one-time setup
/// commands for the winning scope: none, or exactly one.
pub fn setup_environment_core(
    project: Option<RootMarkers>,
    workspace: &RootMarkers,
    config: &ToolchainConfig,
) -> (r: Vec<PlannedCommand>)
    ensures
        commands_views(r@) == spec_setup_environment(project, *workspace, *config),
{
    let res: Resolution = resolve(project, workspace, config);
    let markers: RootMarkers = match project {
        Some(pm) => {
            if res.scope == ScopeKind::Project {
                pm
            } else {
                *workspace
            }
        },
        None => *workspace,
    };
    let mut out: Vec<PlannedCommand> = Vec::new();
    match plan_install(res.provider, &markers, config) {
        Some(cmd) => {
            out.push(cmd);
            proof {
                assert(commands_views(out@) =~~= spec_setup_environment(project, *workspace, *config));
            }
        },
        None => {
            proof {
                assert(commands_views(out@) =~~= spec_setup_environment(project, *workspace, *config));
            }
        },
    }
    out
}

} // verus!

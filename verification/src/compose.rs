use vstd::prelude::*;
use vstd::string::StringExecFns;
use crate::provider::{Provider, RootMarkers, ToolchainConfig};
use crate::scope::{Resolution, spec_resolve, resolve};
use crate::text::{seq_views, spec_joined, join_strings, push_all_cloned};

verus! {

/// How a base argument vector is rewritten by composition.
pub enum ArgsTransform {
    /// The listed tokens replace the vector's front; the base
    /// arguments follow inside the listed tokens themselves.
    Prepend(Vec<String>),
    /// The listed tokens replace the vector entirely.
    Replace(Vec<String>),
    /// The vector is left as it is.
    Keep,
}

/// A rewritten invocation: the command to run, if it changes, and
/// what happens to the argument vector.
pub struct CommandPlan {
    pub command: Option<String>,
    pub args: ArgsTransform,
}

/// The mathematical image of an `ArgsTransform`.
pub enum SpecArgsTransform {
    Prepend(Seq<Seq<char>>),
    Replace(Seq<Seq<char>>),
    Keep,
}

/// The mathematical image of a `CommandPlan`.
pub struct SpecCommandPlan {
    pub command: Option<Seq<char>>,
    pub args: SpecArgsTransform,
}

impl View for ArgsTransform {
    type V = SpecArgsTransform;

    open spec fn view(&self) -> SpecArgsTransform {
        match self {
            ArgsTransform::Prepend(v) => SpecArgsTransform::Prepend(seq_views(v@)),
            ArgsTransform::Replace(v) => SpecArgsTransform::Replace(seq_views(v@)),
            ArgsTransform::Keep => SpecArgsTransform::Keep,
        }
    }
}

impl View for CommandPlan {
    type V = SpecCommandPlan;

    open spec fn view(&self) -> SpecCommandPlan {
        SpecCommandPlan {
            command: match self.command {
                Some(c) => Some(c@),
                None => None,
            },
            args: self.args@,
        }
    }
}

/// The tokens a provider places before the base command and its
/// arguments, for the providers that keep the argument vector.
pub open spec fn prepend_tokens(p: Provider, cmd: Seq<char>) -> Seq<Seq<char>> {
    match p {
        Provider::Flake => seq!["develop"@, "--command"@, cmd],
        Provider::Devenv => seq!["shell"@, "--"@, cmd],
        Provider::Flox => seq!["activate"@, "--"@, cmd],
        Provider::ShellNix => seq![],
    }
}

/// The executable each provider wraps the task in.
pub open spec fn provider_command(p: Provider) -> Seq<char> {
    match p {
        Provider::Flake => "nix"@,
        Provider::Devenv => "devenv"@,
        Provider::Flox => "flox"@,
        Provider::ShellNix => "nix-shell"@,
    }
}

/// The collapsed single shell string the shell.nix provider runs:
/// the base command, one space, then the space-joined arguments.
pub open spec fn collapsed_command(cmd: Seq<char>, args: Seq<Seq<char>>) -> Seq<char> {
    cmd + " "@ + spec_joined(args, " "@)
}

/// How an invocation is rewritten for a selected provider: the
/// argument-keeping providers prepend their tokens; shell.nix
/// replaces the vector with a collapsed single string; no provider
/// leaves everything unchanged.
pub open spec fn spec_compose(p: Option<Provider>, cmd: Seq<char>, args: Seq<Seq<char>>) -> SpecCommandPlan {
    match p {
        Some(Provider::ShellNix) => SpecCommandPlan {
            command: Some(provider_command(Provider::ShellNix)),
            args: SpecArgsTransform::Replace(seq!["--run"@, collapsed_command(cmd, args)]),
        },
        Some(q) => SpecCommandPlan {
            command: Some(provider_command(q)),
            args: SpecArgsTransform::Prepend(prepend_tokens(q, cmd) + args),
        },
        None => SpecCommandPlan { command: None, args: SpecArgsTransform::Keep },
    }
}

/// Build the prepended vector for an argument-keeping provider:
/// two provider tokens, the base command, then the base arguments.
fn prepend_args(first: &str, second: &str, base_command: &String, base_args: &Vec<String>) -> (v: Vec<String>)
    ensures
        seq_views(v@) == seq![first@, second@, base_command@] + seq_views(base_args@),
{
    let mut v: Vec<String> = Vec::new();
    v.push(String::from_str(first));
    v.push(String::from_str(second));
    v.push(base_command.clone());
    push_all_cloned(&mut v, base_args);
    proof {
        assert(seq_views(v@) =~~= seq![first@, second@, base_command@] + seq_views(base_args@));
    }
    v
}

/// Rewrite a base invocation for the selected provider.
pub fn compose(provider: Option<Provider>, base_command: &String, base_args: &Vec<String>) -> (r: CommandPlan)
    ensures
        r@ == spec_compose(provider, base_command@, seq_views(base_args@)),
{
    match provider {
        Some(Provider::Flake) => CommandPlan {
            command: Some(String::from_str("nix")),
            args: ArgsTransform::Prepend(prepend_args("develop", "--command", base_command, base_args)),
        },
        Some(Provider::Devenv) => CommandPlan {
            command: Some(String::from_str("devenv")),
            args: ArgsTransform::Prepend(prepend_args("shell", "--", base_command, base_args)),
        },
        Some(Provider::Flox) => CommandPlan {
            command: Some(String::from_str("flox")),
            args: ArgsTransform::Prepend(prepend_args("activate", "--", base_command, base_args)),
        },
        Some(Provider::ShellNix) => {
            let joined = join_strings(base_args, " ");
            let mut collapsed = base_command.clone();
            collapsed.append(" ");
            collapsed.append(joined.as_str());
            let mut v: Vec<String> = Vec::new();
            v.push(String::from_str("--run"));
            v.push(collapsed);
            proof {
                assert(seq_views(v@) =~= seq![
                    "--run"@,
                    collapsed_command(base_command@, seq_views(base_args@)),
                ]);
            }
            CommandPlan { command: Some(String::from_str("nix-shell")), args: ArgsTransform::Replace(v) }
        },
        None => CommandPlan { command: None, args: ArgsTransform::Keep },
    }
}

/// Resolve the scope for a task and rewrite its invocation for
/// whichever provider won.
pub fn extend_task_command_core(
    project: Option<RootMarkers>,
    workspace: &RootMarkers,
    config: &ToolchainConfig,
    base_command: &String,
    base_args: &Vec<String>,
) -> (r: CommandPlan)
    ensures
        r@ == spec_compose(
            spec_resolve(project, *workspace, *config).provider,
            base_command@,
            seq_views(base_args@),
        ),
{
    let res: Resolution = resolve(project, workspace, config);
    compose(res.provider, base_command, base_args)
}

/// For every provider but shell.nix, composition prepends: the
/// rewritten vector is the provider's tokens followed by the base
/// arguments, kept whole and in order.
pub proof fn lemma_compose_preserves_args(p: Provider, cmd: Seq<char>, args: Seq<Seq<char>>)
    requires
        p != Provider::ShellNix,
    ensures
        (match spec_compose(Some(p), cmd, args).args {
            SpecArgsTransform::Prepend(v) => {
                &&& v.len() == 3 + args.len()
                &&& v[2] == cmd
                &&& v.subrange(3, v.len() as int) == args
            },
            _ => false,
        }),
{
    match spec_compose(Some(p), cmd, args).args {
        SpecArgsTransform::Prepend(v) => {
            assert(v.subrange(3, v.len() as int) =~= args);
        },
        _ => {},
    }
}

/// For shell.nix, composition collapses: the rewritten vector is the
/// run flag and one string holding the base command and every base
/// argument joined with single spaces.
pub proof fn lemma_compose_shell_nix_collapses(cmd: Seq<char>, args: Seq<Seq<char>>)
    ensures
        (match spec_compose(Some(Provider::ShellNix), cmd, args).args {
            SpecArgsTransform::Replace(v) => {
                &&& v.len() == 2
                &&& v[0] == "--run"@
                &&& v[1] == cmd + " "@ + spec_joined(args, " "@)
            },
            _ => false,
        }),
{
}

} // verus!

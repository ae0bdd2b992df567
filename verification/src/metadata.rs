use vstd::prelude::*;
use vstd::string::StringExecFns;
use crate::text::seq_views;

verus! {

/// The static registration payload this toolchain reports to its
/// host: its display name, the file globs it watches, the
/// executables it may invoke, and its lock, manifest, and vendor
/// file names.
pub struct ToolchainMetadata {
    pub name: String,
    pub config_file_globs: Vec<String>,
    pub exe_names: Vec<String>,
    pub lock_file_names: Vec<String>,
    pub manifest_file_names: Vec<String>,
    pub vendor_dir_name: Option<String>,
}

/// One interactive setup prompt: a settings key, its question, and
/// the default answer.
pub struct SetupPrompt {
    pub id: String,
    pub question: String,
    pub default_value: bool,
}

/// Build the registration payload.
pub fn toolchain_metadata() -> (r: ToolchainMetadata)
    ensures
        r.name@ == "Nix"@,
        seq_views(r.config_file_globs@) == seq![
            "flake.nix"@,
            "flake.lock"@,
            "shell.nix"@,
            "default.nix"@,
            ".envrc"@,
            "devenv.nix"@,
            "devenv.lock"@,
            "devenv.yaml"@,
            ".flox/env.json"@,
            ".flox/env.toml"@,
        ],
        seq_views(r.exe_names@) == seq!["nix"@, "nix-shell"@, "devenv"@, "flox"@],
        seq_views(r.lock_file_names@) == seq!["flake.lock"@, "devenv.lock"@],
        seq_views(r.manifest_file_names@) == seq![
            "flake.nix"@,
            "shell.nix"@,
            "devenv.nix"@,
            "devenv.yaml"@,
        ],
        (r.vendor_dir_name matches Some(v) && v@ == ".devenv/profile/bin"@),
{
    let mut config_file_globs: Vec<String> = Vec::new();
    config_file_globs.push(String::from_str("flake.nix"));
    config_file_globs.push(String::from_str("flake.lock"));
    config_file_globs.push(String::from_str("shell.nix"));
    config_file_globs.push(String::from_str("default.nix"));
    config_file_globs.push(String::from_str(".envrc"));
    config_file_globs.push(String::from_str("devenv.nix"));
    config_file_globs.push(String::from_str("devenv.lock"));
    config_file_globs.push(String::from_str("devenv.yaml"));
    config_file_globs.push(String::from_str(".flox/env.json"));
    config_file_globs.push(String::from_str(".flox/env.toml"));
    let mut exe_names: Vec<String> = Vec::new();
    exe_names.push(String::from_str("nix"));
    exe_names.push(String::from_str("nix-shell"));
    exe_names.push(String::from_str("devenv"));
    exe_names.push(String::from_str("flox"));
    let mut lock_file_names: Vec<String> = Vec::new();
    lock_file_names.push(String::from_str("flake.lock"));
    lock_file_names.push(String::from_str("devenv.lock"));
    let mut manifest_file_names: Vec<String> = Vec::new();
    manifest_file_names.push(String::from_str("flake.nix"));
    manifest_file_names.push(String::from_str("shell.nix"));
    manifest_file_names.push(String::from_str("devenv.nix"));
    manifest_file_names.push(String::from_str("devenv.yaml"));
    let r = ToolchainMetadata {
        name: String::from_str("Nix"),
        config_file_globs,
        exe_names,
        lock_file_names,
        manifest_file_names,
        vendor_dir_name: Some(String::from_str(".devenv/profile/bin")),
    };
    proof {
        assert(seq_views(r.config_file_globs@) =~~= seq![
            "flake.nix"@,
            "flake.lock"@,
            "shell.nix"@,
            "default.nix"@,
            ".envrc"@,
            "devenv.nix"@,
            "devenv.lock"@,
            "devenv.yaml"@,
            ".flox/env.json"@,
            ".flox/env.toml"@,
        ]);
        assert(seq_views(r.exe_names@) =~~= seq!["nix"@, "nix-shell"@, "devenv"@, "flox"@]);
        assert(seq_views(r.lock_file_names@) =~~= seq!["flake.lock"@, "devenv.lock"@]);
        assert(seq_views(r.manifest_file_names@) =~~= seq![
            "flake.nix"@,
            "shell.nix"@,
            "devenv.nix"@,
            "devenv.yaml"@,
        ]);
    }
    r
}

/// Build the interactive setup prompts, one per provider toggle, in
/// a fixed order; only the first defaults to an enabled answer.
pub fn setup_prompts() -> (r: Vec<SetupPrompt>)
    ensures
        r@.len() == 4,
        r@[0].id@ == "useFlake"@,
        r@[0].question@ == "Enable automatic detection and usage of <file>flake.nix</file>?"@,
        r@[0].default_value == true,
        r@[1].id@ == "useShellNix"@,
        r@[1].question@ == "Enable automatic detection and usage of <file>shell.nix</file>?"@,
        r@[1].default_value == false,
        r@[2].id@ == "useFlox"@,
        r@[2].question@ == "Enable automatic detection and usage of Flox environments?"@,
        r@[2].default_value == false,
        r@[3].id@ == "useDevenv"@,
        r@[3].question@ == "Enable automatic detection and usage of devenv?"@,
        r@[3].default_value == false,
{
    let mut r: Vec<SetupPrompt> = Vec::new();
    r.push(SetupPrompt {
        id: String::from_str("useFlake"),
        question: String::from_str("Enable automatic detection and usage of <file>flake.nix</file>?"),
        default_value: true,
    });
    r.push(SetupPrompt {
        id: String::from_str("useShellNix"),
        question: String::from_str("Enable automatic detection and usage of <file>shell.nix</file>?"),
        default_value: false,
    });
    r.push(SetupPrompt {
        id: String::from_str("useFlox"),
        question: String::from_str("Enable automatic detection and usage of Flox environments?"),
        default_value: false,
    });
    r.push(SetupPrompt {
        id: String::from_str("useDevenv"),
        question: String::from_str("Enable automatic detection and usage of devenv?"),
        default_value: false,
    });
    r
}

} // verus!

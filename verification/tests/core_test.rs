use moon_toolchain_nix::cache::{
    default_nix_paths, extend_task_script_core, path_cache_key, type_cache_key,
    workspace_path_cache_key,
};
use moon_toolchain_nix::compose::{compose, extend_task_command_core, ArgsTransform, CommandPlan};
use moon_toolchain_nix::install::{install_dependencies_core, plan_install, setup_environment_core};
use moon_toolchain_nix::locate::locate_candidates;
use moon_toolchain_nix::provider::{detect, Provider, RootMarkers, ToolchainConfig};
use moon_toolchain_nix::scope::{resolve, ScopeKind};
use moon_toolchain_nix::sync::{needs_default_shell, shell_nix_template, sync_workspace_core};

fn no_markers() -> RootMarkers {
    RootMarkers {
        flake_nix: false,
        flake_lock: false,
        devenv_nix: false,
        devenv_yaml: false,
        devenv_lock: false,
        flox_dir: false,
        shell_nix: false,
        default_nix: false,
    }
}

fn all_enabled() -> ToolchainConfig {
    ToolchainConfig {
        use_flake: true,
        use_shell_nix: true,
        use_flox: true,
        use_devenv: true,
        packages: vec![],
        flox_environment: None,
        version: None,
    }
}

fn none_enabled() -> ToolchainConfig {
    ToolchainConfig {
        use_flake: false,
        use_shell_nix: false,
        use_flox: false,
        use_devenv: false,
        packages: vec![],
        flox_environment: None,
        version: None,
    }
}

fn strings(parts: &[&str]) -> Vec<String> {
    parts.iter().map(|p| p.to_string()).collect()
}

#[test]
fn detect_prefers_flake_over_all() {
    let mut m = no_markers();
    m.flake_nix = true;
    m.devenv_nix = true;
    m.flox_dir = true;
    m.shell_nix = true;
    assert_eq!(detect(&m, &all_enabled()), Some(Provider::Flake));
}

#[test]
fn detect_priority_order_descends() {
    let mut m = no_markers();
    m.devenv_yaml = true;
    m.flox_dir = true;
    m.shell_nix = true;
    assert_eq!(detect(&m, &all_enabled()), Some(Provider::Devenv));
    m.devenv_yaml = false;
    assert_eq!(detect(&m, &all_enabled()), Some(Provider::Flox));
    m.flox_dir = false;
    assert_eq!(detect(&m, &all_enabled()), Some(Provider::ShellNix));
    m.shell_nix = false;
    assert_eq!(detect(&m, &all_enabled()), None);
}

#[test]
fn detect_ignores_disabled_providers() {
    let mut m = no_markers();
    m.flake_nix = true;
    m.devenv_nix = true;
    m.flox_dir = true;
    m.shell_nix = true;
    assert_eq!(detect(&m, &none_enabled()), None);

    let mut only_devenv = none_enabled();
    only_devenv.use_devenv = true;
    assert_eq!(detect(&m, &only_devenv), Some(Provider::Devenv));
}

#[test]
fn detect_on_missing_directory_snapshot_is_none() {
    assert_eq!(detect(&no_markers(), &all_enabled()), None);
}

#[test]
fn resolve_project_scope_wins() {
    let mut project = no_markers();
    project.flake_nix = true;
    let mut workspace = no_markers();
    workspace.devenv_nix = true;
    let r = resolve(Some(project), &workspace, &all_enabled());
    assert_eq!(r.scope, ScopeKind::Project);
    assert_eq!(r.provider, Some(Provider::Flake));
}

#[test]
fn resolve_falls_back_to_workspace() {
    let project = no_markers();
    let mut workspace = no_markers();
    workspace.devenv_nix = true;
    let r = resolve(Some(project), &workspace, &all_enabled());
    assert_eq!(r.scope, ScopeKind::Workspace);
    assert_eq!(r.provider, Some(Provider::Devenv));
}

#[test]
fn resolve_both_miss() {
    let r = resolve(Some(no_markers()), &no_markers(), &all_enabled());
    assert_eq!(r.scope, ScopeKind::Workspace);
    assert_eq!(r.provider, None);
}

fn expect_prepend(plan: CommandPlan, command: &str, args: &[&str]) {
    assert_eq!(plan.command, Some(command.to_string()));
    match plan.args {
        ArgsTransform::Prepend(v) => assert_eq!(v, strings(args)),
        _ => panic!("expected a prepend transform"),
    }
}

#[test]
fn compose_flake_preserves_args() {
    let plan = compose(Some(Provider::Flake), &"echo".to_string(), &strings(&["hello"]));
    expect_prepend(plan, "nix", &["develop", "--command", "echo", "hello"]);
}

#[test]
fn compose_devenv_preserves_args() {
    let plan = compose(Some(Provider::Devenv), &"cargo".to_string(), &strings(&["build", "--release"]));
    expect_prepend(plan, "devenv", &["shell", "--", "cargo", "build", "--release"]);
}

#[test]
fn compose_flox_preserves_args() {
    let plan = compose(Some(Provider::Flox), &"npm".to_string(), &strings(&["run", "test"]));
    expect_prepend(plan, "flox", &["activate", "--", "npm", "run", "test"]);
}

#[test]
fn compose_shell_nix_collapses() {
    let plan = compose(Some(Provider::ShellNix), &"echo".to_string(), &strings(&["hello"]));
    assert_eq!(plan.command, Some("nix-shell".to_string()));
    match plan.args {
        ArgsTransform::Replace(v) => assert_eq!(v, strings(&["--run", "echo hello"])),
        _ => panic!("expected a replace transform"),
    }
}

#[test]
fn compose_no_provider_keeps_everything() {
    let plan = compose(None, &"echo".to_string(), &strings(&["hello"]));
    assert_eq!(plan.command, None);
    assert!(matches!(plan.args, ArgsTransform::Keep));
}

#[test]
fn extend_task_command_uses_project_provider() {
    let mut project = no_markers();
    project.flox_dir = true;
    let mut workspace = no_markers();
    workspace.flake_nix = true;
    let plan = extend_task_command_core(
        Some(project),
        &workspace,
        &all_enabled(),
        &"make".to_string(),
        &strings(&["all"]),
    );
    expect_prepend(plan, "flox", &["activate", "--", "make", "all"]);
}

#[test]
fn plan_install_flake_without_lock() {
    let mut m = no_markers();
    m.flake_nix = true;
    let cmd = plan_install(Some(Provider::Flake), &m, &all_enabled()).expect("a command is owed");
    assert_eq!(cmd.program, "nix");
    assert_eq!(cmd.args, strings(&["flake", "lock"]));
}

#[test]
fn plan_install_flake_with_lock_is_nothing() {
    let mut m = no_markers();
    m.flake_nix = true;
    m.flake_lock = true;
    assert!(plan_install(Some(Provider::Flake), &m, &all_enabled()).is_none());
}

#[test]
fn plan_install_devenv_and_flox() {
    let mut m = no_markers();
    m.devenv_yaml = true;
    let cmd = plan_install(Some(Provider::Devenv), &m, &all_enabled()).unwrap();
    assert_eq!(cmd.program, "devenv");
    assert_eq!(cmd.args, strings(&["info"]));

    let mut f = no_markers();
    f.flox_dir = true;
    let cmd = plan_install(Some(Provider::Flox), &f, &all_enabled()).unwrap();
    assert_eq!(cmd.program, "flox");
    assert_eq!(cmd.args, strings(&["install"]));
}

#[test]
fn plan_install_ad_hoc_packages() {
    let mut config = all_enabled();
    config.packages = strings(&["git", "jq"]);
    let cmd = install_dependencies_core(&no_markers(), &config).expect("an install is owed");
    assert_eq!(cmd.program, "nix-env");
    assert_eq!(cmd.args, strings(&["--install", "git", "jq"]));
}

#[test]
fn plan_install_nothing_owed() {
    assert!(install_dependencies_core(&no_markers(), &all_enabled()).is_none());
}

#[test]
fn plan_install_selected_provider_suppresses_ad_hoc() {
    let mut m = no_markers();
    m.shell_nix = true;
    let mut config = all_enabled();
    config.packages = strings(&["git"]);
    assert!(install_dependencies_core(&m, &config).is_none());
}

#[test]
fn setup_environment_project_devenv() {
    let mut project = no_markers();
    project.devenv_nix = true;
    let cmds = setup_environment_core(Some(project), &no_markers(), &all_enabled());
    assert_eq!(cmds.len(), 1);
    assert_eq!(cmds[0].program, "devenv");
    assert_eq!(cmds[0].args, strings(&["info"]));
}

#[test]
fn setup_environment_workspace_flake_lock() {
    let mut workspace = no_markers();
    workspace.flake_nix = true;
    let cmds = setup_environment_core(None, &workspace, &all_enabled());
    assert_eq!(cmds.len(), 1);
    assert_eq!(cmds[0].program, "nix");
    assert_eq!(cmds[0].args, strings(&["flake", "lock"]));

    workspace.flake_lock = true;
    let cmds = setup_environment_core(None, &workspace, &all_enabled());
    assert!(cmds.is_empty());
}

#[test]
fn cache_keys() {
    assert_eq!(path_cache_key(&"app".to_string()), "nix_path_app");
    assert_eq!(type_cache_key(&"app".to_string()), "nix_type_app");
    assert_eq!(workspace_path_cache_key(), "nix_path_workspace");
    assert_eq!(path_cache_key(&"workspace".to_string()), workspace_path_cache_key());
}

#[test]
fn script_extension_project_hit() {
    let r = extend_task_script_core(
        &"app".to_string(),
        Some("/cached/bin".to_string()),
        Some("flake".to_string()),
        Some("/ws/bin".to_string()),
        &"/home/user".to_string(),
    );
    assert_eq!(r.path_env, Some("/cached/bin".to_string()));
    assert_eq!(r.env_tag, Some("flake".to_string()));
    assert!(r.paths.is_empty());
}

#[test]
fn script_extension_workspace_fallback() {
    let r = extend_task_script_core(
        &"app".to_string(),
        None,
        None,
        Some("/ws/bin".to_string()),
        &"/home/user".to_string(),
    );
    assert_eq!(r.path_env, Some("/ws/bin".to_string()));
    assert_eq!(r.env_tag, None);
    assert!(r.paths.is_empty());
}

#[test]
fn script_extension_default_paths() {
    let r = extend_task_script_core(
        &"workspace".to_string(),
        None,
        None,
        None,
        &"/home/user".to_string(),
    );
    assert_eq!(r.path_env, None);
    assert_eq!(r.env_tag, None);
    assert_eq!(
        r.paths,
        strings(&["/home/user/.nix-profile/bin", "/nix/var/nix/profiles/default/bin"])
    );

    let both_missing = extend_task_script_core(
        &"app".to_string(),
        None,
        None,
        None,
        &"/home/user".to_string(),
    );
    assert_eq!(both_missing.paths.len(), 2);
}

#[test]
fn default_paths_exact() {
    let paths = default_nix_paths(&"/root".to_string());
    assert_eq!(
        paths,
        strings(&["/root/.nix-profile/bin", "/nix/var/nix/profiles/default/bin"])
    );
}

#[test]
fn locate_candidates_all_enabled() {
    let v = locate_candidates(&all_enabled());
    assert_eq!(
        v,
        strings(&[
            "flake.lock",
            "flake.nix",
            "devenv.lock",
            "devenv.nix",
            "devenv.yaml",
            ".flox",
            "shell.nix",
            "default.nix",
        ])
    );
}

#[test]
fn locate_candidates_none_enabled() {
    assert_eq!(locate_candidates(&none_enabled()), strings(&["default.nix"]));
}

#[test]
fn sync_workspace_generates_descriptor() {
    let mut config = all_enabled();
    config.packages = strings(&["git", "jq"]);
    let content = sync_workspace_core(&no_markers(), &config).expect("a descriptor is owed");
    assert_eq!(
        content,
        "{ pkgs ? import <nixpkgs> {} }:\npkgs.mkShell {\n  buildInputs = with pkgs; [\n    git\n    jq\n  ];\n}"
    );
    assert!(content.contains("git"));
    assert!(content.contains("jq"));
}

#[test]
fn sync_workspace_skips_when_descriptor_exists() {
    let mut config = all_enabled();
    config.packages = strings(&["git"]);
    let mut m = no_markers();
    m.shell_nix = true;
    assert!(sync_workspace_core(&m, &config).is_none());
    assert!(!needs_default_shell(&m, &config));
}

#[test]
fn sync_workspace_devenv_yaml_suppresses() {
    let mut config = all_enabled();
    config.packages = strings(&["git"]);
    let mut m = no_markers();
    m.devenv_yaml = true;
    assert!(sync_workspace_core(&m, &config).is_none());
    assert!(!needs_default_shell(&m, &config));
}

#[test]
fn sync_workspace_skips_without_packages() {
    assert!(sync_workspace_core(&no_markers(), &all_enabled()).is_none());
}

#[test]
fn shell_nix_template_single_package() {
    let content = shell_nix_template(&strings(&["nodejs"]));
    assert_eq!(
        content,
        "{ pkgs ? import <nixpkgs> {} }:\npkgs.mkShell {\n  buildInputs = with pkgs; [\n    nodejs\n  ];\n}"
    );
}

#[test]
fn compose_shell_nix_empty_args() {
    let plan = compose(Some(Provider::ShellNix), &"pwd".to_string(), &vec![]);
    match plan.args {
        ArgsTransform::Replace(v) => assert_eq!(v, strings(&["--run", "pwd "])),
        _ => panic!("expected a replace transform"),
    }
}

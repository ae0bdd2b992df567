use moon_toolchain_nix::metadata::{setup_prompts, toolchain_metadata};

#[test]
fn registers_toolchain() {
    let output = toolchain_metadata();

    assert_eq!(output.name, "Nix");
    assert!(output.config_file_globs.contains(&"flake.nix".to_string()));
    assert!(output.config_file_globs.contains(&"shell.nix".to_string()));
    assert!(output.config_file_globs.contains(&"devenv.nix".to_string()));
    assert!(output.exe_names.contains(&"nix".to_string()));
    assert!(output.exe_names.contains(&"flox".to_string()));
    assert!(output.exe_names.contains(&"devenv".to_string()));
}

#[test]
fn initializes_toolchain() {
    let output = setup_prompts();

    assert_eq!(output.len(), 4);
    assert_eq!(output[0].id, "useFlake");
    assert_eq!(output[1].id, "useShellNix");
    assert_eq!(output[2].id, "useFlox");
    assert_eq!(output[3].id, "useDevenv");
}

#[test]
fn registration_lists_complete() {
    let output = toolchain_metadata();

    assert_eq!(
        output.config_file_globs,
        vec![
            "flake.nix",
            "flake.lock",
            "shell.nix",
            "default.nix",
            ".envrc",
            "devenv.nix",
            "devenv.lock",
            "devenv.yaml",
            ".flox/env.json",
            ".flox/env.toml",
        ]
    );
    assert_eq!(output.exe_names, vec!["nix", "nix-shell", "devenv", "flox"]);
    assert_eq!(output.lock_file_names, vec!["flake.lock", "devenv.lock"]);
    assert_eq!(
        output.manifest_file_names,
        vec!["flake.nix", "shell.nix", "devenv.nix", "devenv.yaml"]
    );
    assert_eq!(output.vendor_dir_name, Some(".devenv/profile/bin".to_string()));
}

#[test]
fn prompt_defaults() {
    let output = setup_prompts();

    assert!(output[0].default_value);
    assert!(!output[1].default_value);
    assert!(!output[2].default_value);
    assert!(!output[3].default_value);
    assert_eq!(
        output[0].question,
        "Enable automatic detection and usage of <file>flake.nix</file>?"
    );
}

use vstd::prelude::*;
use vstd::string::StringExecFns;
use crate::provider::{RootMarkers, ToolchainConfig};
use crate::text::{seq_views, spec_joined, join_strings, contains_seq, lemma_joined_contains_each,
    lemma_contains_seq_framed};

verus! {

/// Workspace sync materializes a default descriptor only when no
/// provider descriptor file is present and ad-hoc packages are
/// configured.
pub open spec fn spec_needs_default_shell(m: RootMarkers, c: ToolchainConfig) -> bool {
    !m.flake_nix && !m.shell_nix && !m.devenv_nix && !m.devenv_yaml && !m.flox_dir
        && c.packages@.len() > 0
}

/// Decide whether a default descriptor is owed.
pub fn needs_default_shell(markers: &RootMarkers, config: &ToolchainConfig) -> (r: bool)
    ensures
        r == spec_needs_default_shell(*markers, *config),
{
    !markers.flake_nix && !markers.shell_nix && !markers.devenv_nix && !markers.devenv_yaml
        && !markers.flox_dir && config.packages.len() > 0
}

/// The fixed template head of the generated descriptor.
pub open spec fn template_head() -> Seq<char> {
    "{ pkgs ? import <nixpkgs> {} }:\npkgs.mkShell {\n  buildInputs = with pkgs; [\n    "@
}

/// The fixed template tail of the generated descriptor.
pub open spec fn template_tail() -> Seq<char> {
    "\n  ];\n}"@
}

/// The content of the generated descriptor: the fixed head, the
/// package names joined with a newline-and-indent separator (one
/// package per line), and the fixed tail.
pub open spec fn spec_shell_nix_template(pkgs: Seq<Seq<char>>) -> Seq<char> {
    template_head() + spec_joined(pkgs, "\n    "@) + template_tail()
}

/// Build the content of the generated default descriptor.
pub fn shell_nix_template(packages: &Vec<String>) -> (r: String)
    ensures
        r@ == spec_shell_nix_template(seq_views(packages@)),
{
    let mut r = String::from_str(
        "{ pkgs ? import <nixpkgs> {} }:\npkgs.mkShell {\n  buildInputs = with pkgs; [\n    ",
    );
    let joined = join_strings(packages, "\n    ");
    r.append(joined.as_str());
    r.append("\n  ];\n}");
    r
}

/// What workspace sync writes: `Some(content)` for the default
/// descriptor exactly when one is owed, `None` otherwise. The write
/// itself, and reporting the changed file, are the caller's.
pub open spec fn spec_sync_workspace(m: RootMarkers, c: ToolchainConfig) -> Option<Seq<char>> {
    if spec_needs_default_shell(m, c) {
        Some(spec_shell_nix_template(seq_views(c.packages@)))
    } else {
        None
    }
}

/// Decide whether workspace sync materializes a default descriptor,
/// and with what content.
pub fn sync_workspace_core(markers: &RootMarkers, config: &ToolchainConfig) -> (r: Option<String>)
    ensures
        (match r {
            Some(content) => spec_sync_workspace(*markers, *config) == Some(content@),
            None => spec_sync_workspace(*markers, *config) is None,
        }),
{
    if needs_default_shell(markers, config) {
        Some(shell_nix_template(&config.packages))
    } else {
        None
    }
}

/// Every configured package name occurs contiguously in the
/// generated descriptor content.
pub proof fn lemma_template_contains_each_package(pkgs: Seq<Seq<char>>, i: int)
    requires
        0 <= i < pkgs.len(),
    ensures
        contains_seq(spec_shell_nix_template(pkgs), pkgs[i]),
{
    lemma_joined_contains_each(pkgs, "\n    "@, i);
    lemma_contains_seq_framed(
        template_head(),
        spec_joined(pkgs, "\n    "@),
        template_tail(),
        pkgs[i],
    );
}

} // verus!

//! Environment resolution and command composition for a Nix-based
//! toolchain: decide which reproducible-environment provider (flake,
//! shell.nix, Flox, devenv) governs a directory scope, rewrite task
//! invocations to run inside that environment, plan one-time setup
//! commands, and resolve cached environment paths. Every decision is
//! a pure function of plain values; the host performs the filesystem
//! reads, cache lookups, and command executions around it.

pub mod cache;
pub mod compose;
pub mod install;
pub mod locate;
pub mod metadata;
pub mod provider;
pub mod scope;
pub mod sync;
pub mod text;

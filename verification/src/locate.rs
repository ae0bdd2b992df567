use vstd::prelude::*;
use vstd::string::StringExecFns;
use crate::provider::ToolchainConfig;
use crate::text::seq_views;

verus! {

/// The ordered marker-file names to try when locating the nearest
/// enclosing dependency root: each enabled provider's files in the
/// fixed priority order, then the generic default file as a last
/// resort, always present.
pub open spec fn spec_locate_candidates(c: ToolchainConfig) -> Seq<Seq<char>> {
    (if c.use_flake {
        seq!["flake.lock"@, "flake.nix"@]
    } else {
        Seq::<Seq<char>>::empty()
    }) + (if c.use_devenv {
        seq!["devenv.lock"@, "devenv.nix"@, "devenv.yaml"@]
    } else {
        Seq::<Seq<char>>::empty()
    }) + (if c.use_flox {
        seq![".flox"@]
    } else {
        Seq::<Seq<char>>::empty()
    }) + (if c.use_shell_nix {
        seq!["shell.nix"@]
    } else {
        Seq::<Seq<char>>::empty()
    }) + seq!["default.nix"@]
}

/// Build the ordered candidate list for walking up from a starting
/// directory; the caller asks its filesystem for the nearest root
/// holding each name in turn and keeps the first hit.
pub fn locate_candidates(config: &ToolchainConfig) -> (r: Vec<String>)
    ensures
        seq_views(r@) == spec_locate_candidates(*config),
{
    let mut v: Vec<String> = Vec::new();
    if config.use_flake {
        v.push(String::from_str("flake.lock"));
        v.push(String::from_str("flake.nix"));
    }
    if config.use_devenv {
        v.push(String::from_str("devenv.lock"));
        v.push(String::from_str("devenv.nix"));
        v.push(String::from_str("devenv.yaml"));
    }
    if config.use_flox {
        v.push(String::from_str(".flox"));
    }
    if config.use_shell_nix {
        v.push(String::from_str("shell.nix"));
    }
    v.push(String::from_str("default.nix"));
    proof {
        assert(seq_views(v@) =~~= spec_locate_candidates(*config));
    }
    v
}

} // verus!

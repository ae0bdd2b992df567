use vstd::prelude::*;
use vstd::string::StringExecFns;
use crate::text::seq_views;

verus! {

/// The key under which a project's resolved PATH is cached.
pub fn path_cache_key(project_id: &String) -> (r: String)
    ensures
        r@ == "nix_path_"@ + project_id@,
{
    let mut r = String::from_str("nix_path_");
    r.append(project_id.as_str());
    r
}

/// The key under which a project's provider tag is cached.
pub fn type_cache_key(project_id: &String) -> (r: String)
    ensures
        r@ == "nix_type_"@ + project_id@,
{
    let mut r = String::from_str("nix_type_");
    r.append(project_id.as_str());
    r
}

/// The workspace-level fallback key for a cached PATH.
pub fn workspace_path_cache_key() -> (r: String)
    ensures
        r@ == "nix_path_workspace"@,
{
    String::from_str("nix_path_workspace")
}

/// The two static fallback path entries, in order: the user's Nix
/// profile `bin` directory under the given home directory, then the
/// system-wide default Nix profile `bin` directory.
pub open spec fn spec_default_nix_paths(home_dir: Seq<char>) -> Seq<Seq<char>> {
    seq![home_dir + "/.nix-profile/bin"@, "/nix/var/nix/profiles/default/bin"@]
}

/// Build the two static fallback path entries.
pub fn default_nix_paths(home_dir: &String) -> (r: Vec<String>)
    ensures
        seq_views(r@) == spec_default_nix_paths(home_dir@),
{
    let mut user_profile = home_dir.clone();
    user_profile.append("/.nix-profile/bin");
    let mut r: Vec<String> = Vec::new();
    r.push(user_profile);
    r.push(String::from_str("/nix/var/nix/profiles/default/bin"));
    proof {
        assert(seq_views(r@) =~~= spec_default_nix_paths(home_dir@));
    }
    r
}

/// What a script-wrapping call injects: a PATH value on a cache hit,
/// an optional provider tag beside it, and otherwise the static
/// fallback path entries.
pub struct ScriptExtension {
    pub path_env: Option<String>,
    pub env_tag: Option<String>,
    pub paths: Vec<String>,
}

/// The mathematical image of a `ScriptExtension`.
pub struct SpecScriptExtension {
    pub path_env: Option<Seq<char>>,
    pub env_tag: Option<Seq<char>>,
    pub paths: Seq<Seq<char>>,
}

impl View for ScriptExtension {
    type V = SpecScriptExtension;

    open spec fn view(&self) -> SpecScriptExtension {
        SpecScriptExtension {
            path_env: view_opt(self.path_env),
            env_tag: view_opt(self.env_tag),
            paths: seq_views(self.paths@),
        }
    }
}

/// The image of an optional string.
pub open spec fn view_opt(o: Option<String>) -> Option<Seq<char>> {
    match o {
        Some(s) => Some(s@),
        None => None,
    }
}

/// The read-side fallback chain of the path cache: a cached project
/// PATH is used verbatim, with the cached provider tag beside it;
/// failing that, and when the key is not already the workspace key,
/// a cached workspace PATH; failing both, exactly the two static
/// default path entries.
pub open spec fn spec_extend_task_script(
    project_id: Seq<char>,
    cached_path: Option<Seq<char>>,
    cached_tag: Option<Seq<char>>,
    workspace_cached_path: Option<Seq<char>>,
    home_dir: Seq<char>,
) -> SpecScriptExtension {
    match cached_path {
        Some(p) => SpecScriptExtension {
            path_env: Some(p),
            env_tag: cached_tag,
            paths: Seq::empty(),
        },
        None => {
            if project_id != "workspace"@ && workspace_cached_path is Some {
                SpecScriptExtension {
                    path_env: workspace_cached_path,
                    env_tag: None,
                    paths: Seq::empty(),
                }
            } else {
                SpecScriptExtension {
                    path_env: None,
                    env_tag: None,
                    paths: spec_default_nix_paths(home_dir),
                }
            }
        },
    }
}

/// Resolve what a task script gets, from the cache values the host
/// handed back for this project's keys and the workspace key.
pub fn extend_task_script_core(
    project_id: &String,
    cached_path: Option<String>,
    cached_tag: Option<String>,
    workspace_cached_path: Option<String>,
    home_dir: &String,
) -> (r: ScriptExtension)
    ensures
        r@ == spec_extend_task_script(
            project_id@,
            view_opt(cached_path),
            view_opt(cached_tag),
            view_opt(workspace_cached_path),
            home_dir@,
        ),
{
    match cached_path {
        Some(p) => {
            let r = ScriptExtension { path_env: Some(p), env_tag: cached_tag, paths: Vec::new() };
            proof {
                assert(seq_views(r.paths@) =~~= Seq::<Seq<char>>::empty());
            }
            r
        },
        None => {
            let workspace_key = String::from_str("workspace");
            if !(*project_id == workspace_key) && workspace_cached_path.is_some() {
                let r = ScriptExtension {
                    path_env: workspace_cached_path,
                    env_tag: None,
                    paths: Vec::new(),
                };
                proof {
                    assert(seq_views(r.paths@) =~~= Seq::<Seq<char>>::empty());
                }
                r
            } else {
                ScriptExtension {
                    path_env: None,
                    env_tag: None,
                    paths: default_nix_paths(home_dir),
                }
            }
        },
    }
}

/// The fallback chain, clause by clause: a project entry is used
/// verbatim; failing that, the workspace entry, unless the key is
/// itself the workspace key; failing both, exactly the two static
/// default paths and nothing else. A missing entry is never an
/// error: every branch yields a result.
pub proof fn lemma_cache_fallback_chain(
    project_id: Seq<char>,
    cached_tag: Option<Seq<char>>,
    workspace_cached_path: Option<Seq<char>>,
    home_dir: Seq<char>,
    v: Seq<char>,
)
    ensures
        spec_extend_task_script(project_id, Some(v), cached_tag, workspace_cached_path, home_dir)
            .path_env == Some(v),
        spec_extend_task_script(project_id, Some(v), cached_tag, workspace_cached_path, home_dir)
            .paths == Seq::<Seq<char>>::empty(),
        project_id != "workspace"@ ==> spec_extend_task_script(
            project_id,
            None,
            cached_tag,
            Some(v),
            home_dir,
        ).path_env == Some(v),
        spec_extend_task_script(project_id, None, cached_tag, None, home_dir).path_env is None,
        spec_extend_task_script(project_id, None, cached_tag, None, home_dir).paths
            == spec_default_nix_paths(home_dir),
{
}

} // verus!

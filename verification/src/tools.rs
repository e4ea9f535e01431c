//! ToolProbe: locates an external executable for a logical tool name.
//!
//! Resolution order, first match wins: a recognized override environment
//! variable whose value names an existing regular file; the platform
//! toolchain finder's printed path when it names an existing regular
//! file; a search of a PATH. The caller gathers the override and finder
//! probe results (they need process and environment access); the PATH
//! search runs here, through the `which` crate.

use vstd::prelude::*;
use crate::errors::BuildError;
use crate::errors::EnvFault;
use crate::text::str_eq;

verus! {

/// The override environment variable recognized for a logical tool name;
/// only compiler roles have one.
pub open spec fn spec_override_var(name: Seq<char>) -> Option<Seq<char>> {
    if name == "cc"@ {
        Option::Some("CC"@)
    } else if name == "c++"@ || name == "cxx"@ {
        Option::Some("CXX"@)
    } else {
        Option::None
    }
}

/// The override variable to consult for `name`, or `None` when overrides
/// are not honored for this name.
pub fn override_var_for(name: &str) -> (r: Option<String>)
    ensures
        r is Some <==> spec_override_var(name@) is Some,
        r matches Some(v) ==> (spec_override_var(name@) matches Some(sv) && v@ == sv),
{
    if str_eq(name, "cc") {
        Some(String::from_str("CC"))
    } else if str_eq(name, "c++") || str_eq(name, "cxx") {
        Some(String::from_str("CXX"))
    } else {
        None
    }
}

/// What the caller's probes reported for one compiler name: the override
/// variable's value (when the name has a recognized variable and it was
/// set) with whether that value names an existing regular file, and the
/// platform finder's printed path (when the finder ran and exited
/// successfully) with whether it names an existing regular file.
pub struct CompilerProbes {
    pub override_value: Option<String>,
    pub override_is_file: bool,
    pub finder_output: Option<String>,
    pub finder_is_file: bool,
}

/// The override mechanism settles resolution: the name has a recognized
/// variable, the variable was set, and its value names a regular file.
pub open spec fn override_applies(name: Seq<char>, p: CompilerProbes) -> bool {
    &&& spec_override_var(name) is Some
    &&& p.override_value is Some
    &&& p.override_is_file
}

/// The platform finder settles resolution: it printed a non-empty path
/// that names a regular file.
pub open spec fn finder_applies(p: CompilerProbes) -> bool {
    &&& p.finder_output matches Some(out) && out@.len() > 0
    &&& p.finder_is_file
}

/// The whole resolution decision, as a relation between the probe
/// results, the PATH-search outcome, and the returned value.
pub open spec fn tool_selection_ok(
    name: Seq<char>,
    p: CompilerProbes,
    path_search: Option<String>,
    r: Result<String, BuildError>,
) -> bool {
    if override_applies(name, p) {
        r matches Ok(t) && p.override_value matches Some(v) && t@ == v@
    } else if finder_applies(p) {
        r matches Ok(t) && p.finder_output matches Some(v) && t@ == v@
    } else {
        match path_search {
            Some(found) => r matches Ok(t) && t@ == found@,
            None => r matches Err(e) && (e matches BuildError::ToolNotFound { tool } && tool@
                == name),
        }
    }
}

/// Relies on `which::which` (crate `which`): searches the process PATH
/// for an executable file with the given name; `Ok` is the path of an
/// executable that existed at the time of the search. The outcome
/// depends on the filesystem and the ambient PATH, so nothing is
/// promised of it.
#[verifier::external_body]
fn which_search(name: &str) -> (r: Option<String>) {
    match which::which(name) {
        Ok(p) => p.to_str().map(|s| s.to_string()),
        Err(_) => None,
    }
}

/// Relies on `which::which_in` (crate `which`): searches the given
/// PATH-style string, resolving relative entries against `cwd`, for an
/// executable file with the given name. The outcome depends on the
/// filesystem, so nothing is promised of it.
#[verifier::external_body]
fn which_search_in(name: &str, paths: &str, cwd: &str) -> (r: Option<String>) {
    match which::which_in(name, Some(paths), cwd) {
        Ok(p) => p.to_str().map(|s| s.to_string()),
        Err(_) => None,
    }
}

/// Applies the resolution order to already-gathered probe results and a
/// PATH-search outcome: override first, then platform finder, then PATH.
pub fn select_tool(name: &str, probes: &CompilerProbes, path_search: Option<String>) -> (r: Result<
    String,
    BuildError,
>)
    ensures
        tool_selection_ok(name@, *probes, path_search, r),
{
    let has_var = override_var_for(name).is_some();
    if has_var && probes.override_value.is_some() && probes.override_is_file {
        let chosen = probes.override_value.as_ref().unwrap();
        return Ok(chosen.clone());
    }
    if probes.finder_output.is_some() && probes.finder_is_file {
        let out = probes.finder_output.as_ref().unwrap();
        if out.as_str().unicode_len() > 0 {
            return Ok(out.clone());
        }
    }
    match path_search {
        Some(found) => Ok(found),
        None => Err(BuildError::ToolNotFound { tool: name.to_owned() }),
    }
}

/// Resolves a compiler executable for a logical name. The override and
/// finder probes are consulted in order; only when neither settles the
/// resolution is the process PATH searched.
pub fn find_compiler(name: &str, probes: &CompilerProbes) -> (r: Result<String, BuildError>)
    ensures
        exists|path_search: Option<String>| tool_selection_ok(name@, *probes, path_search, r),
        override_applies(name@, *probes) ==> (r matches Ok(t) && (probes.override_value matches Some(
            v,
        ) && t@ == v@)),
        !override_applies(name@, *probes) && finder_applies(*probes) ==> (r matches Ok(t) && (
        probes.finder_output matches Some(v) && t@ == v@)),
        r matches Err(e) ==> !override_applies(name@, *probes) && !finder_applies(*probes) && (
        e matches BuildError::ToolNotFound { tool } && tool@ == name@),
{
    let has_var = override_var_for(name).is_some();
    let override_hit = has_var && probes.override_value.is_some() && probes.override_is_file;
    let finder_hit = probes.finder_is_file && match &probes.finder_output {
        Some(out) => out.as_str().unicode_len() > 0,
        None => false,
    };
    let path_search = if override_hit || finder_hit {
        None
    } else {
        which_search(name)
    };
    let r = select_tool(name, probes, path_search);
    proof {
        assert(tool_selection_ok(name@, *probes, path_search, r));
    }
    r
}

/// The `make` fallback decision over the two PATH-search outcomes: a
/// hit on the build environment's PATH wins, a hit on the ambient PATH
/// is the fallback, and only the exhaustion of both is a failure.
pub open spec fn make_choice_ok(
    from_env: Option<String>,
    ambient: Option<String>,
    r: Result<String, BuildError>,
) -> bool {
    match from_env {
        Some(p) => r matches Ok(t) && t@ == p@,
        None => match ambient {
            Some(p) => r matches Ok(t) && t@ == p@,
            None => r matches Err(e) && (e matches BuildError::BuildEnvError { fault, detail }
                && fault == EnvFault::MakeNotFound && detail@ == "make"@),
        },
    }
}

/// Selects the `make` to use from the outcome of the build-environment
/// PATH search and the outcome of the ambient PATH search: the first
/// hit in that order, and a failure exactly when both are exhausted.
pub fn choose_make(from_env: Option<String>, ambient: Option<String>) -> (r: Result<
    String,
    BuildError,
>)
    ensures
        make_choice_ok(from_env, ambient, r),
{
    match from_env {
        Some(p) => Ok(p),
        None => match ambient {
            Some(p) => Ok(p),
            None => Err(
                BuildError::BuildEnvError {
                    fault: EnvFault::MakeNotFound,
                    detail: "make".to_owned(),
                },
            ),
        },
    }
}

/// Resolves `make`: searches the supplied build-environment PATH
/// (relative to the build directory) first, the ambient process PATH
/// only when that misses, and hands both outcomes to `choose_make`.
pub fn resolve_make(env_path: &Option<String>) -> (r: Result<String, BuildError>)
    ensures
        exists|from_env: Option<String>, ambient: Option<String>| make_choice_ok(
            from_env,
            ambient,
            r,
        ),
        r matches Err(e) ==> (e matches BuildError::BuildEnvError { fault, detail } && fault
            == EnvFault::MakeNotFound && detail@ == "make"@),
{
    let from_env = match env_path {
        Some(p) => which_search_in("make", p.as_str(), "."),
        None => None,
    };
    let ambient = if from_env.is_some() {
        None
    } else {
        which_search("make")
    };
    let r = choose_make(from_env, ambient);
    proof {
        assert(make_choice_ok(from_env, ambient, r));
    }
    r
}

/// Law: the build environment's PATH is preferred; whenever its search
/// yields a hit, that hit is the resolved `make`, whatever the ambient
/// search returned.
pub proof fn lemma_env_path_hit_is_preferred(
    from_env: Option<String>,
    ambient: Option<String>,
    r: Result<String, BuildError>,
)
    requires
        make_choice_ok(from_env, ambient, r),
        from_env is Some,
    ensures
        from_env matches Some(p) ==> (r matches Ok(t) && t@ == p@),
{
}

/// Law: `make` resolution fails exactly when both PATH searches are
/// exhausted, and then with the environment fault that says so.
pub proof fn lemma_make_resolution_fails_iff_exhausted(
    from_env: Option<String>,
    ambient: Option<String>,
    r: Result<String, BuildError>,
)
    requires
        make_choice_ok(from_env, ambient, r),
    ensures
        r is Err <==> (from_env is None && ambient is None),
        r matches Err(e) ==> (e matches BuildError::BuildEnvError { fault, detail } && fault
            == EnvFault::MakeNotFound && detail@ == "make"@),
{
}

/// Law: a recognized override variable that names an existing file
/// settles resolution by itself; every other mechanism is bypassed.
pub proof fn lemma_override_settles_resolution(
    name: Seq<char>,
    p: CompilerProbes,
    path_search: Option<String>,
    r: Result<String, BuildError>,
)
    requires
        tool_selection_ok(name, p, path_search, r),
        override_applies(name, p),
    ensures
        r matches Ok(t) && (p.override_value matches Some(v) && t@ == v@),
{
}

/// Law: resolution never invents a path. Every successful resolution is
/// the override value (verified by the probe to name a file), the
/// finder's printed path (likewise verified), or the PATH search's
/// result, which the search yields only for an executable that existed
/// when it looked.
pub proof fn lemma_resolution_returns_only_candidates(
    name: Seq<char>,
    p: CompilerProbes,
    path_search: Option<String>,
    r: Result<String, BuildError>,
)
    requires
        tool_selection_ok(name, p, path_search, r),
    ensures
        r matches Ok(t) ==> {
            ||| override_applies(name, p) && (p.override_value matches Some(v) && t@ == v@)
            ||| finder_applies(p) && (p.finder_output matches Some(v) && t@ == v@)
            ||| path_search matches Some(v) && t@ == v@
        },
{
}

/// Law: resolution is a function of its inputs; two resolutions of the
/// same name against the same probe results and PATH-search outcome
/// yield identical results.
pub proof fn lemma_resolution_deterministic(
    name: Seq<char>,
    p: CompilerProbes,
    path_search: Option<String>,
    r1: Result<String, BuildError>,
    r2: Result<String, BuildError>,
)
    requires
        tool_selection_ok(name, p, path_search, r1),
        tool_selection_ok(name, p, path_search, r2),
    ensures
        r1 is Ok <==> r2 is Ok,
        r1 matches Ok(a) ==> (r2 matches Ok(b) && a@ == b@),
        r1 matches Err(a) ==> (r2 matches Err(b) && (a matches BuildError::ToolNotFound {
            tool: t1,
        } && (b matches BuildError::ToolNotFound { tool: t2 } && t1@ == t2@))),
{
}

} // verus!

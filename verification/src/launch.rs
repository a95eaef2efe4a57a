//! Launching an app by name: the decision of what to run, where, and with
//! which environment and profile. Resolving the bundle, checking the
//! filesystem, and spawning the process happen outside this crate.

use vstd::prelude::*;

use crate::apparmor::{
    profile_name_safe, profile_name_safe_system, spec_profile_name_system,
    spec_profile_name_user,
};
use crate::config::{spec_confine, Config};
use crate::paths::{path_join, spec_path_join};
use crate::text::{
    find_char, lemma_prefix_before_is_subrange, spec_prefix_before, spec_trim, trim,
};
use crate::validate::{path_under_bundle, spec_containment, ContainmentError};
use vstd::string::{StrSliceExecFns, StringExecFns};

verus! {

/// The filesystem and environment facts a launch depends on, gathered by
/// the caller.
pub struct LaunchFacts {
    /// Whether the executable exists in the bundle.
    pub exec_exists: bool,
    /// The bundle root's real location, when it resolves to one.
    pub bundle_canonical: Option<String>,
    /// The executable's real location, when it resolves to one.
    pub exec_canonical: Option<String>,
    /// Whether the declared working directory exists.
    pub working_dir_exists: bool,
    /// The working directory's real location, when it resolves to one.
    pub working_canonical: Option<String>,
    /// Whether the bundle has a `bin` directory to prepend to the search
    /// path.
    pub bin_dir_exists: bool,
    /// The current search path, when set.
    pub path_env: Option<String>,
}

/// Why a launch was refused.
#[derive(Clone, Copy, Debug, PartialEq, Eq, Structural)]
pub enum LaunchError {
    /// The declared executable does not exist in the bundle.
    ExecutableNotFound,
    /// The resolved executable escapes the bundle.
    Containment(ContainmentError),
    /// The resolved working directory escapes the bundle.
    WorkingDir(ContainmentError),
}

/// Everything the caller needs to spawn the app.
#[derive(Debug)]
pub struct LaunchPlan {
    /// The executable to run.
    pub exec_path: String,
    /// The arguments to pass it.
    pub args: Vec<String>,
    /// The working directory to run it in.
    pub cwd: String,
    /// The environment entries to set.
    pub env: Vec<(String, String)>,
    /// Run under this confinement profile; without one, run unconfined.
    pub profile: Option<String>,
}

/// Copy a list of strings.
fn clone_strings(v: &Vec<String>) -> (r: Vec<String>)
    ensures
        r.deep_view() == v.deep_view(),
{
    let mut out: Vec<String> = Vec::new();
    let n = v.len();
    let mut i: usize = 0;
    while i < n
        invariant
            n == v@.len(),
            i <= n,
            out@.len() == i,
            forall|j: int| 0 <= j < i ==> out.deep_view()[j] == v.deep_view()[j],
        decreases n - i,
    {
        out.push(v[i].clone());
        i += 1;
    }
    proof {
        assert(out.deep_view() =~~= v.deep_view());
    }
    out
}

/// What one declared environment entry contributes: the part before the
/// first `=` and the part after it, both trimmed; an entry without `=` is
/// dropped.
pub open spec fn spec_env_pair(s: Seq<char>) -> Option<(Seq<char>, Seq<char>)> {
    if !s.contains('=') {
        None
    } else {
        let key = spec_prefix_before(s, '=');
        Some((spec_trim(key), spec_trim(s.subrange(key.len() as int + 1, s.len() as int))))
    }
}

/// The parsed environment entries, in declaration order.
pub open spec fn spec_env_pairs(env: Seq<Seq<char>>) -> Seq<(Seq<char>, Seq<char>)>
    decreases env.len(),
{
    if env.len() == 0 {
        Seq::<(Seq<char>, Seq<char>)>::empty()
    } else {
        spec_env_pairs(env.drop_last()) + (match spec_env_pair(env.last()) {
            Some(p) => seq![p],
            None => Seq::<(Seq<char>, Seq<char>)>::empty(),
        })
    }
}

/// The view of the built environment list.
pub open spec fn spec_env_view(env: Seq<(String, String)>) -> Seq<(Seq<char>, Seq<char>)> {
    env.map_values(|p: (String, String)| (p.0@, p.1@))
}

/// Parse the declared `KEY=VALUE` entries.
#[verifier::loop_isolation(false)]
fn env_pairs(env: &Vec<String>) -> (r: Vec<(String, String)>)
    ensures
        spec_env_view(r@) == spec_env_pairs(env.deep_view()),
{
    let mut out: Vec<(String, String)> = Vec::new();
    let n = env.len();
    let mut i: usize = 0;
    while i < n
        invariant
            i <= n,
            spec_env_view(out@) == spec_env_pairs(env.deep_view().take(i as int)),
        decreases n - i,
    {
        let s = env[i].as_str();
        let sn = s.unicode_len();
        proof {
            assert(env.deep_view().take(i + 1).drop_last() =~= env.deep_view().take(i as int));
            assert(env.deep_view().take(i + 1).last() == env.deep_view()[i as int]);
        }
        if let Some(k) = find_char(s, '=') {
            let key_raw = s.substring_char(0, k);
            let val_raw = s.substring_char(k + 1, sn);
            let key = trim(key_raw);
            let val = trim(val_raw);
            out.push((key, val));
            proof {
                lemma_prefix_before_is_subrange(s@, '=', k as int);
                assert(s@.contains('=')) by {
                    assert(s@[k as int] == '=');
                }
                assert(spec_env_view(out@) =~~= spec_env_pairs(env.deep_view().take(i + 1)));
            }
        } else {
            proof {
                assert(spec_env_view(out@) =~~= spec_env_pairs(env.deep_view().take(i + 1)));
            }
        }
        i += 1;
    }
    proof {
        assert(env.deep_view().take(n as int) =~= env.deep_view());
    }
    out
}

/// The search path handed to the app when the bundle has a `bin`
/// directory: that directory first, then the caller's path.
pub open spec fn spec_bundle_path_entry(
    bundle_path: Seq<char>,
    path_env: Option<String>,
) -> (Seq<char>, Seq<char>) {
    (
        "PATH"@,
        spec_path_join(bundle_path, "bin"@) + ":"@ + (match path_env {
            Some(p) => p@,
            None => Seq::<char>::empty(),
        }),
    )
}

/// Decide a launch: refuse a missing executable and any resolved path that
/// escapes the bundle, then fix the executable, the working directory, the
/// environment (with the bundle's `bin` prepended to the search path when
/// present), and the profile to run under when the manifest asks for
/// confinement.
pub fn run_app(
    config: &Config,
    bundle_path: &str,
    is_user_tier: bool,
    username: &str,
    facts: &LaunchFacts,
) -> (r: Result<LaunchPlan, LaunchError>)
    ensures
        r is Ok <==> {
            &&& facts.exec_exists
            &&& spec_containment(facts.exec_canonical, facts.bundle_canonical) is None
            &&& (config.working_dir is Some && facts.working_dir_exists ==> spec_containment(
                facts.working_canonical,
                facts.bundle_canonical,
            ) is None)
        },
        r matches Err(e) ==> (match e {
            LaunchError::ExecutableNotFound => !facts.exec_exists,
            LaunchError::Containment(ce) => facts.exec_exists && spec_containment(
                facts.exec_canonical,
                facts.bundle_canonical,
            ) == Some(ce),
            LaunchError::WorkingDir(ce) => {
                &&& facts.exec_exists
                &&& spec_containment(facts.exec_canonical, facts.bundle_canonical) is None
                &&& config.working_dir is Some
                &&& facts.working_dir_exists
                &&& spec_containment(facts.working_canonical, facts.bundle_canonical) == Some(
                    ce,
                )
            },
        }),
        r matches Ok(plan) ==> {
            &&& plan.exec_path@ == spec_path_join(bundle_path@, config.executable@)
            &&& plan.args.deep_view() == config.args.deep_view()
            &&& plan.cwd@ == (match config.working_dir {
                Some(wd) => spec_path_join(bundle_path@, wd@),
                None => bundle_path@,
            })
            &&& spec_env_view(plan.env@) == spec_env_pairs(config.env.deep_view()) + (
            if facts.bin_dir_exists {
                seq![spec_bundle_path_entry(bundle_path@, facts.path_env)]
            } else {
                Seq::<(Seq<char>, Seq<char>)>::empty()
            })
            &&& (match plan.profile {
                Some(p) => spec_confine(config) && p@ == (if is_user_tier {
                    spec_profile_name_user(username@, config.name@)
                } else {
                    spec_profile_name_system(config.name@)
                }),
                None => !spec_confine(config),
            })
        },
{
    if !facts.exec_exists {
        return Err(LaunchError::ExecutableNotFound);
    }
    if let Err(ce) = path_under_bundle(&facts.exec_canonical, &facts.bundle_canonical) {
        return Err(LaunchError::Containment(ce));
    }
    let has_wd = match config.working_dir {
        Some(_) => true,
        None => false,
    };
    if has_wd && facts.working_dir_exists {
        if let Err(ce) = path_under_bundle(&facts.working_canonical, &facts.bundle_canonical) {
            return Err(LaunchError::WorkingDir(ce));
        }
    }
    let exec_path = path_join(bundle_path, config.executable.as_str());
    let cwd = match config.working_dir {
        Some(ref wd) => path_join(bundle_path, wd.as_str()),
        None => String::from_str(bundle_path),
    };
    let mut env = env_pairs(&config.env);
    if facts.bin_dir_exists {
        let mut new_path = path_join(bundle_path, "bin");
        new_path.append(":");
        if let Some(ref p) = facts.path_env {
            new_path.append(p.as_str());
        }
        let ghost before = env@;
        env.push((String::from_str("PATH"), new_path));
        proof {
            reveal_strlit(":");
            assert(spec_env_view(env@) =~~= spec_env_view(before) + seq![
                spec_bundle_path_entry(bundle_path@, facts.path_env),
            ]);
        }
    } else {
        proof {
            assert(spec_env_view(env@) =~~= spec_env_pairs(config.env.deep_view()) + Seq::<(
                Seq<char>,
                Seq<char>,
            )>::empty());
        }
    }
    let profile: Option<String> = if config.confine_requested() {
        Some(
            if is_user_tier {
                profile_name_safe(username, config.name.as_str())
            } else {
                profile_name_safe_system(config.name.as_str())
            },
        )
    } else {
        None
    };
    let args = clone_strings(&config.args);
    Ok(LaunchPlan { exec_path, args, cwd, env, profile })
}

} // verus!

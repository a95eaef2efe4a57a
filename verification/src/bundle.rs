//! Bundle identification and lookup: directory-name conventions, resolving a
//! bundle by its declared name, and resolving which user tiers a pass must
//! synchronize. Directory listings and environment values arrive as plain
//! values; this module makes the decisions.

use vstd::prelude::*;

use crate::config::Config;
use crate::paths::{file_name_of, parent_of, spec_file_name, spec_parent};
use crate::text::{contains_char, replace_char, spec_replace_char, str_ends_with, str_eq,
    spec_ends_with};
use vstd::string::StringExecFns;

verus! {

/// Whether a path names a bundle: it must be a directory and its name must
/// end with the bundle suffix.
pub open spec fn spec_is_lnx_bundle(path: Seq<char>, is_dir: bool) -> bool {
    is_dir && spec_ends_with(spec_file_name(path), ".lnx"@)
}

/// Check if a path is a valid bundle root: a directory whose name ends with
/// `.lnx`. Whether the path is a directory is a filesystem fact the caller
/// supplies.
pub fn is_lnx_bundle(path: &str, is_dir: bool) -> (r: bool)
    ensures
        r == spec_is_lnx_bundle(path@, is_dir),
{
    if !is_dir {
        return false;
    }
    let name = file_name_of(path);
    str_ends_with(name.as_str(), ".lnx")
}

/// One discovered bundle whose manifest loaded, in discovery order.
pub struct Candidate {
    /// The bundle directory path.
    pub path: String,
    /// Its loaded manifest.
    pub config: Config,
}

/// Where a name resolved to: the tier that won and the index of the winning
/// candidate in that tier's discovery order.
pub struct Resolution {
    /// True when the user tier matched; the system tier otherwise.
    pub user_tier: bool,
    /// Index into the matched tier's candidate list.
    pub index: usize,
}

/// The first candidate whose declared name is exactly `name`.
pub open spec fn spec_find_name(cands: Seq<Candidate>, name: Seq<char>) -> Option<int>
    decreases cands.len(),
{
    if cands.len() == 0 {
        None
    } else if cands[0].config.name@ == name {
        Some(0)
    } else {
        match spec_find_name(cands.drop_first(), name) {
            Some(i) => Some(i + 1),
            None => None,
        }
    }
}

/// An exact-name lookup: the user tier is searched first and wins over a
/// system-tier match of the same name.
pub open spec fn spec_resolve_exact(
    user: Seq<Candidate>,
    system: Seq<Candidate>,
    name: Seq<char>,
) -> Option<(bool, int)> {
    match spec_find_name(user, name) {
        Some(i) => Some((true, i)),
        None => match spec_find_name(system, name) {
            Some(i) => Some((false, i)),
            None => None,
        },
    }
}

/// Name resolution: exact match first; when that fails and the name holds
/// underscores, the lookup is retried with underscores replaced by spaces
/// (some launchers cannot carry spaces in invocation arguments).
pub open spec fn spec_resolve_by_name(
    user: Seq<Candidate>,
    system: Seq<Candidate>,
    name: Seq<char>,
) -> Option<(bool, int)> {
    match spec_resolve_exact(user, system, name) {
        Some(r) => Some(r),
        None => if name.contains('_') {
            spec_resolve_exact(user, system, spec_replace_char(name, '_', ' '))
        } else {
            None
        },
    }
}

proof fn lemma_find_name_hit(cands: Seq<Candidate>, name: Seq<char>, i: int)
    requires
        0 <= i < cands.len(),
        cands[i].config.name@ == name,
        forall|j: int| 0 <= j < i ==> cands[j].config.name@ != name,
    ensures
        spec_find_name(cands, name) == Some(i),
    decreases cands.len(),
{
    if i > 0 {
        lemma_find_name_hit(cands.drop_first(), name, i - 1);
    }
}

proof fn lemma_find_name_miss(cands: Seq<Candidate>, name: Seq<char>)
    requires
        forall|j: int| 0 <= j < cands.len() ==> cands[j].config.name@ != name,
    ensures
        spec_find_name(cands, name) is None,
    decreases cands.len(),
{
    if cands.len() > 0 {
        lemma_find_name_miss(cands.drop_first(), name);
    }
}

/// The first candidate declared exactly `name`, searched in order.
fn find_name(cands: &Vec<Candidate>, name: &str) -> (r: Option<usize>)
    ensures
        match r {
            Some(i) => spec_find_name(cands@, name@) == Some(i as int),
            None => spec_find_name(cands@, name@) is None,
        },
{
    let n = cands.len();
    let mut i: usize = 0;
    while i < n
        invariant
            n == cands@.len(),
            i <= n,
            forall|j: int| 0 <= j < i ==> cands@[j].config.name@ != name@,
        decreases n - i,
    {
        if str_eq(cands[i].config.name.as_str(), name) {
            proof {
                lemma_find_name_hit(cands@, name@, i as int);
            }
            return Some(i);
        }
        i += 1;
    }
    proof {
        lemma_find_name_miss(cands@, name@);
    }
    None
}

/// One exact-name pass over both tiers, user tier first.
fn resolve_exact(user: &Vec<Candidate>, system: &Vec<Candidate>, name: &str) -> (r: Option<
    Resolution>)
    ensures
        match r {
            Some(res) => spec_resolve_exact(user@, system@, name@) == Some(
                (res.user_tier, res.index as int),
            ),
            None => spec_resolve_exact(user@, system@, name@) is None,
        },
{
    if let Some(i) = find_name(user, name) {
        return Some(Resolution { user_tier: true, index: i });
    }
    if let Some(i) = find_name(system, name) {
        return Some(Resolution { user_tier: false, index: i });
    }
    None
}

/// Resolve an app by its declared name over the candidates discovered in the
/// user and system tiers. The user tier wins when the same name exists in
/// both. When the exact name is not found and the name contains underscores,
/// the lookup also tries with underscores replaced by spaces.
pub fn resolve_bundle_by_name(user: &Vec<Candidate>, system: &Vec<Candidate>, name: &str) -> (r:
    Option<Resolution>)
    ensures
        match r {
            Some(res) => spec_resolve_by_name(user@, system@, name@) == Some(
                (res.user_tier, res.index as int),
            ) && (if res.user_tier {
                res.index < user@.len()
            } else {
                res.index < system@.len()
            }),
            None => spec_resolve_by_name(user@, system@, name@) is None,
        },
{
    if let Some(res) = resolve_exact(user, system, name) {
        proof {
            lemma_find_name_in_range(user@, name@);
            lemma_find_name_in_range(system@, name@);
        }
        return Some(res);
    }
    if contains_char(name, '_') {
        let with_spaces = replace_char(name, '_', ' ');
        if let Some(res) = resolve_exact(user, system, with_spaces.as_str()) {
            proof {
                lemma_find_name_in_range(user@, with_spaces@);
                lemma_find_name_in_range(system@, with_spaces@);
            }
            return Some(res);
        }
    }
    None
}

proof fn lemma_find_name_in_range(cands: Seq<Candidate>, name: Seq<char>)
    ensures
        match spec_find_name(cands, name) {
            Some(i) => 0 <= i < cands.len(),
            None => true,
        },
    decreases cands.len(),
{
    if cands.len() > 0 && cands[0].config.name@ != name {
        lemma_find_name_in_range(cands.drop_first(), name);
    }
}

/// What the username for a user-tier bundle path is: the name of the
/// directory two levels above the bundle (its applications directory's
/// parent), when the path is deep enough to have one.
pub open spec fn spec_username_from_bundle_path(p: Seq<char>) -> Option<Seq<char>> {
    match spec_parent(p) {
        None => None,
        Some(apps) => match spec_parent(apps) {
            None => None,
            Some(home) => if spec_file_name(home).len() == 0 {
                None
            } else {
                Some(spec_file_name(home))
            },
        },
    }
}

/// Username for a user-tier profile, derived from the bundle path (for
/// `/home/alice/Applications/foo.lnx`, `alice`).
pub fn username_from_bundle_path(bundle_path: &str) -> (r: Option<String>)
    ensures
        match r {
            Some(u) => spec_username_from_bundle_path(bundle_path@) == Some(u@),
            None => spec_username_from_bundle_path(bundle_path@) is None,
        },
{
    let apps_dir = match parent_of(bundle_path) {
        Some(d) => d,
        None => {
            return None;
        },
    };
    let home = match parent_of(apps_dir.as_str()) {
        Some(d) => d,
        None => {
            return None;
        },
    };
    let name = file_name_of(home.as_str());
    if name.as_str().unicode_len() == 0 {
        None
    } else {
        Some(name)
    }
}

/// One tier entry a sync pass must handle: where its bundles live, where its
/// menu entries go, and who owns them.
pub struct TierEntry {
    /// The applications directory scanned for bundles.
    pub apps_dir: String,
    /// The menu directory that receives the generated entries.
    pub desktop_dir: String,
    /// The user the artifacts belong to.
    pub username: String,
}

/// The execution context that tier resolution reads, gathered once per pass
/// by the caller: identity, the invoking-user hint, environment overrides,
/// and the listing of home directories.
pub struct TierContext {
    /// Whether the process runs elevated.
    pub is_root: bool,
    /// The invoking-user hint, when present.
    pub sudo_user: Option<String>,
    /// Names of the home directories under `/home`, for the unattended case.
    pub home_dirs: Vec<String>,
    /// The current user's home directory, for the non-elevated case.
    pub home_dir: String,
    /// The applications-root override, when set.
    pub apps_override: Option<String>,
    /// The per-user menu directory from the XDG base directories.
    pub xdg_applications_dir: String,
    /// The current user's name, when known.
    pub user: Option<String>,
}

/// The home directory the elevated tiers use for a user: `/root` for root,
/// `/home/<name>` otherwise.
pub open spec fn spec_home_of(username: Seq<char>) -> Seq<char> {
    if username == "root"@ {
        "/root"@
    } else {
        "/home/"@ + username
    }
}

/// The tier entry the elevated tiers build for a user under their home.
pub open spec fn spec_tier_entry_for_home(home: Seq<char>, username: Seq<char>) -> (Seq<char>,
    Seq<char>, Seq<char>) {
    (home + "/Applications"@, home + "/.local/share/applications"@, username)
}

/// The view of one produced tier entry.
pub open spec fn spec_entry_view(e: TierEntry) -> (Seq<char>, Seq<char>, Seq<char>) {
    (e.apps_dir@, e.desktop_dir@, e.username@)
}

/// What the user tiers of a pass are.
/// Elevated with an invoking-user hint: exactly that user.
/// Elevated without a hint (unattended): root's own home and every home
/// directory under `/home`.
/// Not elevated: the current user alone, honoring the applications-root
/// override and the XDG menu directory.
pub open spec fn spec_user_tier_entries(ctx: TierContext) -> Seq<(Seq<char>, Seq<char>, Seq<
    char>)> {
    if ctx.is_root {
        match ctx.sudo_user {
            Some(su) => seq![spec_tier_entry_for_home(spec_home_of(su@), su@)],
            None => seq![spec_tier_entry_for_home("/root"@, "root"@)] + ctx.home_dirs.deep_view()
                .map_values(|name: Seq<char>| spec_tier_entry_for_home("/home/"@ + name, name)),
        }
    } else {
        seq![
            (
                match ctx.apps_override {
                    Some(o) => o@,
                    None => ctx.home_dir@ + "/Applications"@,
                },
                ctx.xdg_applications_dir@,
                match ctx.user {
                    Some(u) => u@,
                    None => "unknown"@,
                },
            ),
        ]
    }
}

/// Build one elevated-tier entry for a home directory.
fn tier_entry_for_home(home: &str, username: String) -> (r: TierEntry)
    ensures
        spec_entry_view(r) == spec_tier_entry_for_home(home@, username@),
{
    let mut apps = String::from_str(home);
    apps.append("/Applications");
    let mut desktop = String::from_str(home);
    desktop.append("/.local/share/applications");
    TierEntry { apps_dir: apps, desktop_dir: desktop, username }
}

/// The user-tier entries (applications directory, menu directory, username)
/// a sync or watch pass must cover, decided from the execution context.
pub fn user_tier_entries(ctx: &TierContext) -> (r: Vec<TierEntry>)
    ensures
        r@.map_values(|e: TierEntry| spec_entry_view(e)) == spec_user_tier_entries(*ctx),
{
    if ctx.is_root {
        if let Some(ref su) = ctx.sudo_user {
            let home = if str_eq(su.as_str(), "root") {
                String::from_str("/root")
            } else {
                let mut h = String::from_str("/home/");
                h.append(su.as_str());
                h
            };
            let entry = tier_entry_for_home(home.as_str(), su.clone());
            let mut out: Vec<TierEntry> = Vec::new();
            out.push(entry);
            proof {
                assert(out@.map_values(|e: TierEntry| spec_entry_view(e))
                    =~~= spec_user_tier_entries(*ctx));
            }
            return out;
        }
        let mut out: Vec<TierEntry> = Vec::new();
        out.push(tier_entry_for_home("/root", String::from_str("root")));
        let n = ctx.home_dirs.len();
        let mut i: usize = 0;
        while i < n
            invariant
                n == ctx.home_dirs@.len(),
                i <= n,
                out@.len() == i + 1,
                spec_entry_view(out@[0]) == spec_tier_entry_for_home("/root"@, "root"@),
                forall|j: int| 0 <= j < i ==> spec_entry_view(out@[j + 1])
                    == spec_tier_entry_for_home(
                    "/home/"@ + ctx.home_dirs.deep_view()[j],
                    ctx.home_dirs.deep_view()[j],
                ),
            decreases n - i,
        {
            let name = ctx.home_dirs[i].clone();
            let mut home = String::from_str("/home/");
            home.append(name.as_str());
            let entry = tier_entry_for_home(home.as_str(), name);
            out.push(entry);
            i += 1;
        }
        proof {
            assert(out@.map_values(|e: TierEntry| spec_entry_view(e)) =~~= spec_user_tier_entries(
                *ctx));
        }
        return out;
    }
    let apps = match ctx.apps_override {
        Some(ref o) => o.clone(),
        None => {
            let mut a = ctx.home_dir.clone();
            a.append("/Applications");
            a
        },
    };
    let user = match ctx.user {
        Some(ref u) => u.clone(),
        None => String::from_str("unknown"),
    };
    let entry = TierEntry {
        apps_dir: apps,
        desktop_dir: ctx.xdg_applications_dir.clone(),
        username: user,
    };
    let mut out: Vec<TierEntry> = Vec::new();
    out.push(entry);
    proof {
        assert(out@.map_values(|e: TierEntry| spec_entry_view(e)) =~~= spec_user_tier_entries(
            *ctx));
    }
    out
}

} // verus!

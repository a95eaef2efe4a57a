//! One full sync pass as a pure decision: what was observed on disk comes
//! in, and the plan of installs and removals comes out. Validation decides
//! which bundles take part; reconciliation removes managed menu entries
//! whose bundle has disappeared. Executing the plan (writing files, changing
//! owners, loading profiles, running the icon tool) happens outside this
//! crate.

use vstd::prelude::*;

use crate::apparmor::{
    generate_profile, profile_name_system, profile_name_user, spec_generate_profile,
    spec_profile_name_system, spec_profile_name_user,
};
use crate::config::{spec_confine, Config, ManifestError};
use crate::desktop::{
    desktop_file_name, generate_desktop, generate_directory_entry, set_gnome_folder_icon,
    spec_desktop_file_name, spec_directory_entry, spec_generate_desktop,
    spec_set_gnome_folder_icon, DesktopPaths,
};
use crate::paths::{path_join, spec_path_join};
use crate::text::{spec_ends_with, spec_starts_with, str_ends_with, str_eq, str_starts_with};
use crate::validate::{
    spec_valid_app_name, spec_validate_bundle, validate_app_name, validate_bundle, BundleFacts,
};
use vstd::string::{StrSliceExecFns, StringExecFns};

verus! {

/// A tier a pass synchronizes: per-user (owned by that user) or
/// system-wide.
pub enum Tier {
    User(String),
    System,
}

/// Everything observed about one discovered bundle directory: its path, its
/// manifest as loaded, and the filesystem facts validation and rendering
/// depend on.
pub struct BundleObservation {
    /// The bundle directory path.
    pub path: String,
    /// The manifest, or why loading it failed.
    pub manifest: Result<Config, ManifestError>,
    /// The facts validation needs.
    pub facts: BundleFacts,
    /// The resolved locations menu-entry rendering needs.
    pub desktop_paths: DesktopPaths,
}

/// Everything one tier's sync decision depends on.
pub struct TierInput {
    /// Whose artifacts these are.
    pub tier: Tier,
    /// Whether the tier's applications root exists; an absent root skips
    /// the tier.
    pub apps_dir_exists: bool,
    /// The menu directory that holds this tier's entries.
    pub desktop_dir: String,
    /// Whether that directory exists (reconciliation needs to scan it).
    pub desktop_dir_exists: bool,
    /// The bundle directories discovered under the applications root, in
    /// discovery order.
    pub bundles: Vec<BundleObservation>,
    /// The file names currently present in the menu directory.
    pub existing_desktop_files: Vec<String>,
    /// Whether the desktop-metadata tool is available.
    pub gio_available: bool,
    /// The owning user's runtime directory, when known.
    pub user_runtime: Option<String>,
    /// Whether the owning user's session bus exists.
    pub bus_available: bool,
}

/// What happens to an app's confinement profile during an install.
pub enum ProfileAction {
    /// Render and load this profile text under this name.
    Load { name: String, content: String },
    /// Remove any previously loaded profile of this name (the manifest
    /// opted out of confinement).
    Unload { name: String },
}

/// Everything to install for one valid bundle.
pub struct InstallAction {
    /// The bundle the artifacts belong to.
    pub bundle_path: String,
    /// Its declared name.
    pub app_name: String,
    /// Where the menu entry goes.
    pub desktop_path: String,
    /// The menu-entry text.
    pub desktop_content: String,
    /// Hand the menu entry to this user, when the pass runs elevated for a
    /// user tier.
    pub chown_desktop_to: Option<String>,
    /// The folder marker file to write into the bundle, when it has an
    /// icon.
    pub directory_file: Option<String>,
    /// Hand the marker file to this user.
    pub chown_directory_to: Option<String>,
    /// The desktop-metadata command that sets the folder icon, when one
    /// applies.
    pub folder_icon_command: Option<Vec<String>>,
    /// What happens to the confinement profile, when the pass runs
    /// elevated.
    pub profile: Option<ProfileAction>,
}

/// One stale menu entry to remove.
pub struct RemoveAction {
    /// The app name embedded in the stale file's name.
    pub app_name: String,
    /// The menu-entry file to delete.
    pub desktop_path: String,
    /// The profile to unload, when the pass runs elevated.
    pub unload_profile: Option<String>,
}

/// What one tier's pass does.
pub struct TierPlan {
    /// Installs for the bundles that validated, in discovery order.
    pub installs: Vec<InstallAction>,
    /// Removals for stale managed entries, in directory order.
    pub removals: Vec<RemoveAction>,
}

/// The view of an optional owned string.
pub open spec fn view_opt(o: Option<String>) -> Option<Seq<char>> {
    match o {
        Some(s) => Some(s@),
        None => None,
    }
}

/// Whether a bundle takes part in the pass: it validated.
pub open spec fn spec_bundle_ok(b: BundleObservation) -> bool {
    spec_validate_bundle(b.path@, b.manifest, b.facts) is Ok
}

/// The indices of the bundles that validated, in order.
pub open spec fn spec_valid_indices(bs: Seq<BundleObservation>) -> Seq<int>
    decreases bs.len(),
{
    if bs.len() == 0 {
        Seq::<int>::empty()
    } else {
        spec_valid_indices(bs.drop_last()) + (if spec_bundle_ok(bs.last()) {
            seq![bs.len() - 1]
        } else {
            Seq::<int>::empty()
        })
    }
}

/// The declared names of the bundles that validated, in order: the set of
/// currently present apps that reconciliation keeps.
pub open spec fn spec_valid_names(bs: Seq<BundleObservation>) -> Seq<Seq<char>>
    decreases bs.len(),
{
    if bs.len() == 0 {
        Seq::<Seq<char>>::empty()
    } else {
        spec_valid_names(bs.drop_last()) + (if spec_bundle_ok(bs.last()) {
            seq![bs.last().manifest->Ok_0.name@]
        } else {
            Seq::<Seq<char>>::empty()
        })
    }
}

/// The profile name an app has in a tier.
pub open spec fn spec_profile_name_for(t: Tier, name: Seq<char>) -> Seq<char> {
    match t {
        Tier::User(u) => spec_profile_name_user(u@, name),
        Tier::System => spec_profile_name_system(name),
    }
}

/// The user the pass acts for when elevated in a user tier.
pub open spec fn spec_run_as_user(t: Tier, is_root: bool) -> Option<Seq<char>> {
    if is_root {
        match t {
            Tier::User(u) => Some(u@),
            Tier::System => None,
        }
    } else {
        None
    }
}

/// What one install action holds for one validated bundle: the rendered
/// menu entry (wrapping the command in the profile loader exactly when the
/// pass is elevated and the manifest asks for confinement), ownership
/// handovers, the folder-icon work, and the profile action.
pub open spec fn spec_install_matches(
    a: InstallAction,
    b: BundleObservation,
    t: TierInput,
    is_root: bool,
) -> bool {
    let cfg = b.manifest->Ok_0;
    let profile_name = spec_profile_name_for(t.tier, cfg.name@);
    let confine = spec_confine(&cfg);
    let desktop_profile: Option<Seq<char>> = if is_root && confine {
        Some(profile_name)
    } else {
        None
    };
    &&& a.bundle_path@ == b.path@
    &&& a.app_name@ == cfg.name@
    &&& a.desktop_path@ == spec_path_join(t.desktop_dir@, spec_desktop_file_name(cfg.name@))
    &&& a.desktop_content@ == spec_generate_desktop(cfg, b.path@, desktop_profile, b.desktop_paths)
    &&& view_opt(a.chown_desktop_to) == spec_run_as_user(t.tier, is_root)
    &&& view_opt(a.directory_file) == spec_directory_entry(cfg, b.desktop_paths.icon_canonical)
    &&& view_opt(a.chown_directory_to) == (if cfg.icon is Some {
        spec_run_as_user(t.tier, is_root)
    } else {
        None
    })
    &&& (match a.folder_icon_command {
        Some(v) => spec_set_gnome_folder_icon(
            cfg,
            b.path@,
            b.desktop_paths.icon_canonical,
            spec_run_as_user(t.tier, is_root),
            view_opt(t.user_runtime),
            t.bus_available,
            t.gio_available,
        ) == Some(v.deep_view()),
        None => spec_set_gnome_folder_icon(
            cfg,
            b.path@,
            b.desktop_paths.icon_canonical,
            spec_run_as_user(t.tier, is_root),
            view_opt(t.user_runtime),
            t.bus_available,
            t.gio_available,
        ) is None,
    })
    &&& (if is_root {
        if confine {
            a.profile matches Some(ProfileAction::Load { name, content }) && name@
                == profile_name && content@ == spec_generate_profile(b.path@, cfg, profile_name)
        } else {
            a.profile matches Some(ProfileAction::Unload { name }) && name@ == profile_name
        }
    } else {
        a.profile is None
    })
}

/// Whether a file name is one of ours: `dotlnx-<app>.desktop`.
pub open spec fn spec_managed_file(f: Seq<char>) -> bool {
    f.len() >= 15 && spec_starts_with(f, "dotlnx-"@) && spec_ends_with(f, ".desktop"@)
}

/// The app name embedded in a managed file name.
pub open spec fn spec_app_of(f: Seq<char>) -> Seq<char> {
    f.subrange(7, f.len() - 8)
}

/// Whether reconciliation removes a file: it is one of ours, its app is not
/// among the currently valid names, and the embedded name still passes the
/// safety check (no artifact path is built from an unsafe name).
pub open spec fn spec_should_remove(f: Seq<char>, names: Seq<Seq<char>>) -> bool {
    &&& spec_managed_file(f)
    &&& !names.contains(spec_app_of(f))
    &&& spec_valid_app_name(spec_app_of(f))
}

/// The indices of the files reconciliation removes, in order.
pub open spec fn spec_removal_indices(files: Seq<Seq<char>>, names: Seq<Seq<char>>) -> Seq<int>
    decreases files.len(),
{
    if files.len() == 0 {
        Seq::<int>::empty()
    } else {
        spec_removal_indices(files.drop_last(), names) + (if spec_should_remove(
            files.last(),
            names,
        ) {
            seq![files.len() - 1]
        } else {
            Seq::<int>::empty()
        })
    }
}

/// What one removal action holds for one stale file.
pub open spec fn spec_remove_matches(
    ra: RemoveAction,
    f: Seq<char>,
    t: TierInput,
    is_root: bool,
) -> bool {
    let name = spec_app_of(f);
    &&& ra.app_name@ == name
    &&& ra.desktop_path@ == spec_path_join(t.desktop_dir@, spec_desktop_file_name(name))
    &&& view_opt(ra.unload_profile) == (if is_root {
        Some(spec_profile_name_for(t.tier, name))
    } else {
        None
    })
}

/// What a whole tier plan holds: one install per validated bundle in order,
/// and — outside dry-run, when the menu directory exists — one removal per
/// stale managed file in order. Dry run reports the installs and mutates
/// nothing, so it plans no removals.
pub open spec fn spec_tier_plan_matches(
    p: TierPlan,
    t: TierInput,
    dry_run: bool,
    is_root: bool,
) -> bool {
    let vidx = spec_valid_indices(t.bundles@);
    let ridx = spec_removal_indices(
        t.existing_desktop_files.deep_view(),
        spec_valid_names(t.bundles@),
    );
    &&& p.installs@.len() == vidx.len()
    &&& (forall|k: int|
        0 <= k < vidx.len() ==> #[trigger] spec_install_matches(
            p.installs@[k],
            t.bundles@[vidx[k]],
            t,
            is_root,
        ))
    &&& (if dry_run || !t.desktop_dir_exists {
        p.removals@.len() == 0
    } else {
        &&& p.removals@.len() == ridx.len()
        &&& (forall|k: int|
            0 <= k < ridx.len() ==> #[trigger] spec_remove_matches(
                p.removals@[k],
                t.existing_desktop_files.deep_view()[ridx[k]],
                t,
                is_root,
            ))
    })
}

/// Whether a list of names holds `s`.
fn names_contain(names: &Vec<String>, s: &str) -> (r: bool)
    ensures
        r == names.deep_view().contains(s@),
{
    let n = names.len();
    let mut i: usize = 0;
    while i < n
        invariant
            n == names@.len(),
            i <= n,
            forall|j: int| 0 <= j < i ==> names.deep_view()[j] != s@,
        decreases n - i,
    {
        if str_eq(names[i].as_str(), s) {
            assert(names.deep_view().contains(s@)) by {
                assert(names.deep_view()[i as int] == s@);
            }
            return true;
        }
        i += 1;
    }
    assert(!names.deep_view().contains(s@)) by {
        assert(forall|j: int| 0 <= j < names.deep_view().len() ==> names.deep_view()[j] != s@);
    }
    false
}

/// The removal for a single app in a tier: its menu entry, and — when the
/// pass runs elevated — its confinement profile.
pub fn uninstall_one(target_desktop_dir: &str, name: &str, tier: &Tier, is_root: bool) -> (r:
    RemoveAction)
    ensures
        r.app_name@ == name@,
        r.desktop_path@ == spec_path_join(target_desktop_dir@, spec_desktop_file_name(name@)),
        view_opt(r.unload_profile) == (if is_root {
            Some(spec_profile_name_for(*tier, name@))
        } else {
            None
        }),
{
    let file = desktop_file_name(name);
    let desktop_path = path_join(target_desktop_dir, file.as_str());
    let unload_profile = if is_root {
        Some(
            match tier {
                Tier::User(ref u) => profile_name_user(u.as_str(), name),
                Tier::System => profile_name_system(name),
            },
        )
    } else {
        None
    };
    RemoveAction { app_name: String::from_str(name), desktop_path, unload_profile }
}

/// Plan one tier's pass: validate each discovered bundle (a bad bundle is
/// skipped and never blocks the others), plan the artifacts of each valid
/// one, then plan the removal of every managed menu entry whose app is no
/// longer present. Dry run plans the installs only, for reporting.
#[verifier::loop_isolation(false)]
#[verifier::rlimit(60)]
pub fn sync_dir(t: &TierInput, dry_run: bool, is_root: bool) -> (p: TierPlan)
    ensures
        spec_tier_plan_matches(p, *t, dry_run, is_root),
{
    let mut installs: Vec<InstallAction> = Vec::new();
    let mut names: Vec<String> = Vec::new();
    let n = t.bundles.len();
    let mut i: usize = 0;
    while i < n
        invariant
            i <= n,
            names.deep_view() == spec_valid_names(t.bundles@.take(i as int)),
            installs@.len() == spec_valid_indices(t.bundles@.take(i as int)).len(),
            forall|k: int|
                0 <= k < installs@.len() ==> #[trigger] spec_install_matches(
                    installs@[k],
                    t.bundles@[spec_valid_indices(t.bundles@.take(i as int))[k]],
                    *t,
                    is_root,
                ),
        decreases n - i,
    {
        let b = &t.bundles[i];
        proof {
            assert(t.bundles@.take(i + 1).drop_last() =~= t.bundles@.take(i as int));
        }
        if validate_bundle(b.path.as_str(), &b.manifest, &b.facts).is_err() {
            proof {
                assert(spec_valid_names(t.bundles@.take(i + 1)) =~= spec_valid_names(
                    t.bundles@.take(i as int),
                ));
                assert(spec_valid_indices(t.bundles@.take(i + 1)) =~= spec_valid_indices(
                    t.bundles@.take(i as int),
                ));
            }
            i += 1;
            continue ;
        }
        let cfg = match b.manifest {
            Ok(ref c) => c,
            Err(_) => {
                proof {
                    assert(false);
                }
                i += 1;
                continue ;
            },
        };
        names.push(cfg.name.clone());
        let file = desktop_file_name(cfg.name.as_str());
        let desktop_path = path_join(t.desktop_dir.as_str(), file.as_str());
        let profile_name = match t.tier {
            Tier::User(ref u) => profile_name_user(u.as_str(), cfg.name.as_str()),
            Tier::System => profile_name_system(cfg.name.as_str()),
        };
        let confine = cfg.confine_requested();
        let desktop_profile: Option<&str> = if is_root && confine {
            Some(profile_name.as_str())
        } else {
            None
        };
        let desktop_content = generate_desktop(
            cfg,
            b.path.as_str(),
            desktop_profile,
            &b.desktop_paths,
        );
        let chown_desktop_to: Option<String> = if is_root {
            match t.tier {
                Tier::User(ref u) => Some(u.clone()),
                Tier::System => None,
            }
        } else {
            None
        };
        let directory_file = generate_directory_entry(cfg, &b.desktop_paths.icon_canonical);
        let has_icon = match cfg.icon {
            Some(_) => true,
            None => false,
        };
        let chown_directory_to: Option<String> = if has_icon {
            match chown_desktop_to {
                Some(ref u) => Some(u.clone()),
                None => None,
            }
        } else {
            None
        };
        let run_as_user: Option<&String> = if is_root {
            match t.tier {
                Tier::User(ref u) => Some(u),
                Tier::System => None,
            }
        } else {
            None
        };
        let folder_icon_command = set_gnome_folder_icon(
            cfg,
            b.path.as_str(),
            &b.desktop_paths.icon_canonical,
            run_as_user,
            &t.user_runtime,
            t.bus_available,
            t.gio_available,
        );
        let profile: Option<ProfileAction> = if is_root {
            if confine {
                let content = generate_profile(b.path.as_str(), cfg, profile_name.as_str());
                Some(ProfileAction::Load { name: profile_name, content })
            } else {
                Some(ProfileAction::Unload { name: profile_name })
            }
        } else {
            None
        };
        let action = InstallAction {
            bundle_path: b.path.clone(),
            app_name: cfg.name.clone(),
            desktop_path,
            desktop_content,
            chown_desktop_to,
            directory_file,
            chown_directory_to,
            folder_icon_command,
            profile,
        };
        installs.push(action);
        proof {
            assert(spec_valid_names(t.bundles@.take(i + 1)) =~= spec_valid_names(
                t.bundles@.take(i as int),
            ) + seq![cfg.name@]);
            assert(names.deep_view() =~= spec_valid_names(t.bundles@.take(i + 1)));
            assert(spec_valid_indices(t.bundles@.take(i + 1)) =~= spec_valid_indices(
                t.bundles@.take(i as int),
            ) + seq![i as int]);
            assert(spec_install_matches(installs@.last(), t.bundles@[i as int], *t, is_root));
        }
        i += 1;
    }
    proof {
        assert(t.bundles@.take(n as int) =~= t.bundles@);
    }
    let mut removals: Vec<RemoveAction> = Vec::new();
    if !dry_run && t.desktop_dir_exists {
        let m = t.existing_desktop_files.len();
        let ghost files: Seq<Seq<char>> = t.existing_desktop_files.deep_view();
        let mut j: usize = 0;
        while j < m
            invariant
                j <= m,
                removals@.len() == spec_removal_indices(
                    files.take(j as int),
                    spec_valid_names(t.bundles@),
                ).len(),
                forall|k: int|
                    0 <= k < removals@.len() ==> #[trigger] spec_remove_matches(
                        removals@[k],
                        files[spec_removal_indices(
                            files.take(j as int),
                            spec_valid_names(t.bundles@),
                        )[k]],
                        *t,
                        is_root,
                    ),
            decreases m - j,
        {
            let f = &t.existing_desktop_files[j];
            let fs = f.as_str();
            let fl = fs.unicode_len();
            proof {
                assert(files.take(j + 1).drop_last() =~= files.take(j as int));
                assert(files.take(j + 1).last() == files[j as int]);
            }
            let managed = fl >= 15 && str_starts_with(fs, "dotlnx-") && str_ends_with(
                fs,
                ".desktop",
            );
            let mut keep = !managed;
            if managed {
                let name = String::from_str(fs.substring_char(7, fl - 8));
                if names_contain(&names, name.as_str()) {
                    keep = true;
                } else if validate_app_name(name.as_str()).is_err() {
                    keep = true;
                } else {
                    let action = uninstall_one(
                        t.desktop_dir.as_str(),
                        name.as_str(),
                        &t.tier,
                        is_root,
                    );
                    removals.push(action);
                    proof {
                        assert(spec_should_remove(files[j as int], spec_valid_names(t.bundles@)));
                        assert(spec_removal_indices(files.take(j + 1), spec_valid_names(
                            t.bundles@)) =~= spec_removal_indices(
                            files.take(j as int),
                            spec_valid_names(t.bundles@),
                        ) + seq![j as int]);
                    }
                    j += 1;
                    continue ;
                }
            }
            proof {
                assert(!spec_should_remove(files[j as int], spec_valid_names(t.bundles@)));
                assert(spec_removal_indices(files.take(j + 1), spec_valid_names(t.bundles@))
                    =~= spec_removal_indices(files.take(j as int), spec_valid_names(t.bundles@)));
            }
            j += 1;
        }
        proof {
            assert(files.take(m as int) =~= files);
        }
    }
    TierPlan { installs, removals }
}

/// The indices of the tiers whose applications root exists, in order.
pub open spec fn spec_active_indices(ts: Seq<TierInput>) -> Seq<int>
    decreases ts.len(),
{
    if ts.len() == 0 {
        Seq::<int>::empty()
    } else {
        spec_active_indices(ts.drop_last()) + (if ts.last().apps_dir_exists {
            seq![ts.len() - 1]
        } else {
            Seq::<int>::empty()
        })
    }
}

/// Run a full sync pass over the given tiers: each tier whose applications
/// root exists gets a plan; an absent root skips the tier. The installed
/// state the plans produce is a function of what was observed, nothing
/// else, so a pass over unchanged observations plans the same artifacts.
#[verifier::loop_isolation(false)]
pub fn run(tiers: &Vec<TierInput>, dry_run: bool, is_root: bool) -> (r: Vec<TierPlan>)
    ensures
        r@.len() == spec_active_indices(tiers@).len(),
        forall|k: int|
            0 <= k < r@.len() ==> #[trigger] spec_tier_plan_matches(
                r@[k],
                tiers@[spec_active_indices(tiers@)[k]],
                dry_run,
                is_root,
            ),
{
    let n = tiers.len();
    let mut out: Vec<TierPlan> = Vec::new();
    let mut i: usize = 0;
    while i < n
        invariant
            i <= n,
            out@.len() == spec_active_indices(tiers@.take(i as int)).len(),
            forall|k: int|
                0 <= k < out@.len() ==> #[trigger] spec_tier_plan_matches(
                    out@[k],
                    tiers@[spec_active_indices(tiers@.take(i as int))[k]],
                    dry_run,
                    is_root,
                ),
        decreases n - i,
    {
        proof {
            assert(tiers@.take(i + 1).drop_last() =~= tiers@.take(i as int));
        }
        if tiers[i].apps_dir_exists {
            let plan = sync_dir(&tiers[i], dry_run, is_root);
            out.push(plan);
            proof {
                assert(spec_active_indices(tiers@.take(i + 1)) =~= spec_active_indices(
                    tiers@.take(i as int),
                ) + seq![i as int]);
            }
        } else {
            proof {
                assert(spec_active_indices(tiers@.take(i + 1)) =~= spec_active_indices(
                    tiers@.take(i as int),
                ));
            }
        }
        i += 1;
    }
    proof {
        assert(tiers@.take(n as int) =~= tiers@);
    }
    out
}

/// The file names a tier plan installs: one managed menu-entry name per
/// valid bundle.
pub open spec fn spec_install_file_names(bs: Seq<BundleObservation>) -> Seq<Seq<char>> {
    spec_valid_names(bs).map_values(|n: Seq<char>| spec_desktop_file_name(n))
}

/// A managed file name gives back the app name it was built from, and
/// passes the managed-name test.
proof fn lemma_desktop_file_name_roundtrip(n: Seq<char>)
    ensures
        spec_app_of(spec_desktop_file_name(n)) == n,
        spec_managed_file(spec_desktop_file_name(n)),
{
    reveal_strlit("dotlnx-");
    reveal_strlit(".desktop");
    let f = spec_desktop_file_name(n);
    assert(f.subrange(7, f.len() - 8) =~= n);
    assert(f.subrange(0, 7) =~= "dotlnx-"@);
    assert(f.subrange(f.len() - 8, f.len() as int) =~= ".desktop"@);
}

proof fn lemma_removal_indices_empty(files: Seq<Seq<char>>, names: Seq<Seq<char>>)
    requires
        forall|j: int| 0 <= j < files.len() ==> !spec_should_remove(files[j], names),
    ensures
        spec_removal_indices(files, names).len() == 0,
    decreases files.len(),
{
    if files.len() > 0 {
        lemma_removal_indices_empty(files.drop_last(), names);
    }
}

proof fn lemma_removal_indices_single(files: Seq<Seq<char>>, names: Seq<Seq<char>>, j: int)
    requires
        0 <= j < files.len(),
        spec_should_remove(files[j], names),
        forall|j2: int| 0 <= j2 < files.len() && j2 != j ==> !spec_should_remove(
            files[j2],
            names,
        ),
    ensures
        spec_removal_indices(files, names) == seq![j],
    decreases files.len(),
{
    if files.len() - 1 == j {
        lemma_removal_indices_empty(files.drop_last(), names);
        assert(spec_removal_indices(files.drop_last(), names) =~= Seq::<int>::empty());
        assert(spec_removal_indices(files, names) =~= seq![j]);
    } else {
        lemma_removal_indices_single(files.drop_last(), names, j);
        assert(spec_removal_indices(files, names) =~= seq![j]);
    }
}

/// Two installs that carry the same text, names, ownership and commands.
pub open spec fn spec_same_install(a: InstallAction, b: InstallAction) -> bool {
    &&& a.bundle_path@ == b.bundle_path@
    &&& a.app_name@ == b.app_name@
    &&& a.desktop_path@ == b.desktop_path@
    &&& a.desktop_content@ == b.desktop_content@
    &&& view_opt(a.chown_desktop_to) == view_opt(b.chown_desktop_to)
    &&& view_opt(a.directory_file) == view_opt(b.directory_file)
    &&& view_opt(a.chown_directory_to) == view_opt(b.chown_directory_to)
    &&& (match (a.folder_icon_command, b.folder_icon_command) {
        (Some(x), Some(y)) => x.deep_view() == y.deep_view(),
        (None, None) => true,
        _ => false,
    })
    &&& (match (a.profile, b.profile) {
        (
            Some(ProfileAction::Load { name: n1, content: c1 }),
            Some(ProfileAction::Load { name: n2, content: c2 }),
        ) => n1@ == n2@ && c1@ == c2@,
        (
            Some(ProfileAction::Unload { name: n1 }),
            Some(ProfileAction::Unload { name: n2 }),
        ) => n1@ == n2@,
        (None, None) => true,
        _ => false,
    })
}

/// Law: a sync pass is idempotent. When a second pass observes the same
/// bundles and tier, and the menu directory holds exactly the files the
/// first pass installed, the second pass plans identical artifacts (the
/// same entries, profiles and commands — its own reload of the same state)
/// and removes nothing.
pub proof fn lemma_sync_idempotent(
    t1: TierInput,
    t2: TierInput,
    p1: TierPlan,
    p2: TierPlan,
    is_root: bool,
)
    requires
        spec_tier_plan_matches(p1, t1, false, is_root),
        spec_tier_plan_matches(p2, t2, false, is_root),
        t2.tier == t1.tier,
        t2.desktop_dir == t1.desktop_dir,
        t2.bundles == t1.bundles,
        t2.gio_available == t1.gio_available,
        t2.user_runtime == t1.user_runtime,
        t2.bus_available == t1.bus_available,
        t2.desktop_dir_exists,
        t2.existing_desktop_files.deep_view() == spec_install_file_names(t1.bundles@),
    ensures
        p2.installs@.len() == p1.installs@.len(),
        forall|k: int| 0 <= k < p1.installs@.len() ==> #[trigger] spec_same_install(
            p2.installs@[k],
            p1.installs@[k],
        ),
        p2.removals@.len() == 0,
{
    let vidx = spec_valid_indices(t1.bundles@);
    let names = spec_valid_names(t1.bundles@);
    assert forall|k: int| 0 <= k < p1.installs@.len() implies #[trigger] spec_same_install(
        p2.installs@[k],
        p1.installs@[k],
    ) by {
        assert(spec_install_matches(p1.installs@[k], t1.bundles@[vidx[k]], t1, is_root));
        assert(spec_install_matches(p2.installs@[k], t1.bundles@[vidx[k]], t2, is_root));
    }
    let files = t2.existing_desktop_files.deep_view();
    assert forall|j: int| 0 <= j < files.len() implies !spec_should_remove(files[j], names) by {
        lemma_desktop_file_name_roundtrip(names[j]);
        assert(files[j] == spec_desktop_file_name(names[j]));
        assert(names.contains(spec_app_of(files[j]))) by {
            assert(spec_app_of(files[j]) == names[j]);
        }
    }
    lemma_removal_indices_empty(files, names);
}

/// The valid names of two runs of bundles, concatenated.
proof fn lemma_valid_names_concat(a: Seq<BundleObservation>, b: Seq<BundleObservation>)
    ensures
        spec_valid_names(a + b) == spec_valid_names(a) + spec_valid_names(b),
    decreases b.len(),
{
    if b.len() == 0 {
        assert(a + b =~= a);
        assert(spec_valid_names(a) + spec_valid_names(b) =~= spec_valid_names(a));
    } else {
        lemma_valid_names_concat(a, b.drop_last());
        assert((a + b).drop_last() =~= a + b.drop_last());
        assert((a + b).last() == b.last());
        if spec_bundle_ok(b.last()) {
            assert(spec_valid_names(a + b) =~= spec_valid_names(a) + spec_valid_names(b));
        } else {
            assert(spec_valid_names(a + b) =~= spec_valid_names(a) + spec_valid_names(b));
        }
    }
}

/// Law: reconciliation. When a bundle that validated disappears and the
/// second pass observes the remaining bundles unchanged, with the menu
/// directory holding exactly what the first pass installed, the second pass
/// removes exactly that bundle's menu entry (and, when elevated, plans its
/// profile unloaded) and touches no other app's entry.
pub proof fn lemma_sync_reconciles_removed_bundle(
    t1: TierInput,
    t2: TierInput,
    p1: TierPlan,
    p2: TierPlan,
    is_root: bool,
    i: int,
)
    requires
        spec_tier_plan_matches(p1, t1, false, is_root),
        spec_tier_plan_matches(p2, t2, false, is_root),
        t2.tier == t1.tier,
        t2.desktop_dir == t1.desktop_dir,
        0 <= i < t1.bundles@.len(),
        spec_bundle_ok(t1.bundles@[i]),
        t2.bundles@ == t1.bundles@.subrange(0, i) + t1.bundles@.subrange(
            i + 1,
            t1.bundles@.len() as int,
        ),
        forall|j: int|
            0 <= j < t1.bundles@.len() && j != i && spec_bundle_ok(#[trigger] t1.bundles@[j])
                ==> t1.bundles@[j].manifest->Ok_0.name@ != t1.bundles@[i].manifest->Ok_0.name@,
        t2.desktop_dir_exists,
        t2.existing_desktop_files.deep_view() == spec_install_file_names(t1.bundles@),
    ensures
        p2.removals@.len() == 1,
        p2.removals@[0].app_name@ == t1.bundles@[i].manifest->Ok_0.name@,
        p2.removals@[0].desktop_path@ == spec_path_join(
            t1.desktop_dir@,
            spec_desktop_file_name(t1.bundles@[i].manifest->Ok_0.name@),
        ),
        view_opt(p2.removals@[0].unload_profile) == (if is_root {
            Some(spec_profile_name_for(t1.tier, t1.bundles@[i].manifest->Ok_0.name@))
        } else {
            None
        }),
{
    let x = t1.bundles@[i].manifest->Ok_0.name@;
    let pre = t1.bundles@.subrange(0, i);
    let mid = t1.bundles@.subrange(i, i + 1);
    let post = t1.bundles@.subrange(i + 1, t1.bundles@.len() as int);
    assert(t1.bundles@ =~= pre + mid + post);
    lemma_valid_names_concat(pre + mid, post);
    lemma_valid_names_concat(pre, mid);
    assert(mid =~= seq![t1.bundles@[i]]);
    assert(spec_valid_names(mid) =~= seq![x]) by {
        assert(mid.drop_last() =~= Seq::<BundleObservation>::empty());
        assert(spec_valid_names(Seq::<BundleObservation>::empty())
            == Seq::<Seq<char>>::empty());
        assert(mid.last() == t1.bundles@[i]);
        assert(spec_bundle_ok(mid.last()));
        assert(spec_valid_names(mid) == spec_valid_names(mid.drop_last()) + seq![
            mid.last().manifest->Ok_0.name@,
        ]);
    }
    let names1 = spec_valid_names(t1.bundles@);
    let a = spec_valid_names(pre);
    let b = spec_valid_names(post);
    assert(names1 == a + seq![x] + b) by {
        assert(spec_valid_names(pre + mid) == a + seq![x]);
        assert(spec_valid_names(t1.bundles@) == spec_valid_names(pre + mid) + b);
    }
    lemma_valid_names_concat(pre, post);
    let names2 = spec_valid_names(t2.bundles@);
    assert(names2 == a + b);
    let pos = a.len() as int;
    // every valid name of the first pass except the removed one survives
    assert forall|j: int| 0 <= j < names1.len() && j != pos implies names2.contains(
        names1[j],
    ) by {
        if j < pos {
            assert(names2[j] == names1[j]);
        } else {
            assert(names2[j - 1] == names1[j]);
        }
    }
    // the removed name survives nowhere: its position in the first pass's
    // names came from bundle i, every other position from another bundle
    assert(!names2.contains(x)) by {
        if names2.contains(x) {
            let j = choose|j: int| 0 <= j < names2.len() && names2[j] == x;
            lemma_valid_name_has_source(t2.bundles@, j);
            let src = choose|s: int|
                0 <= s < t2.bundles@.len() && spec_bundle_ok(t2.bundles@[s]) && t2.bundles@[
                    s].manifest->Ok_0.name@ == names2[j];
            if src < i {
                assert(t2.bundles@[src] == t1.bundles@[src]);
            } else {
                assert(t2.bundles@[src] == t1.bundles@[src + 1]);
            }
        }
    }
    // the first pass validated bundle i, so its name passes the safety check
    assert(spec_valid_app_name(x));
    let files = t2.existing_desktop_files.deep_view();
    assert(files.len() == names1.len());
    assert forall|j: int| 0 <= j < files.len() && j != pos implies !spec_should_remove(
        files[j],
        names2,
    ) by {
        lemma_desktop_file_name_roundtrip(names1[j]);
        assert(files[j] == spec_desktop_file_name(names1[j]));
    }
    assert(spec_should_remove(files[pos], names2)) by {
        lemma_desktop_file_name_roundtrip(x);
        assert(files[pos] == spec_desktop_file_name(names1[pos]));
        assert(names1[pos] == x);
    }
    lemma_removal_indices_single(files, names2, pos);
    assert(spec_remove_matches(
        p2.removals@[0],
        t2.existing_desktop_files.deep_view()[spec_removal_indices(
            t2.existing_desktop_files.deep_view(),
            spec_valid_names(t2.bundles@),
        )[0]],
        t2,
        is_root,
    ));
    assert(spec_remove_matches(p2.removals@[0], files[pos], t2, is_root));
    assert(spec_app_of(files[pos]) == x) by {
        lemma_desktop_file_name_roundtrip(x);
        assert(names1[pos] == x);
    }
}

/// A name among the valid names comes from some valid bundle.
proof fn lemma_valid_name_has_source(bs: Seq<BundleObservation>, j: int)
    requires
        0 <= j < spec_valid_names(bs).len(),
    ensures
        exists|s: int|
            0 <= s < bs.len() && spec_bundle_ok(#[trigger] bs[s]) && bs[s].manifest->Ok_0.name@
                == spec_valid_names(bs)[j],
    decreases bs.len(),
{
    if bs.len() > 0 {
        if spec_bundle_ok(bs.last()) && j == spec_valid_names(bs).len() - 1 {
            assert(spec_bundle_ok(bs[bs.len() - 1]));
        } else {
            lemma_valid_name_has_source(bs.drop_last(), j);
            let s = choose|s: int|
                0 <= s < bs.drop_last().len() && spec_bundle_ok(#[trigger] bs.drop_last()[s])
                    && bs.drop_last()[s].manifest->Ok_0.name@ == spec_valid_names(
                    bs.drop_last(),
                )[j];
            assert(bs[s] == bs.drop_last()[s]);
            assert(spec_bundle_ok(bs[s]));
        }
    }
}

} // verus!

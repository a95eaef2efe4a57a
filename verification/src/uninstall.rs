//! Removing an app from management: which menu entries and profiles go,
//! decided from the app name and the execution context. The bundle folder
//! itself is never touched. Deleting the files and unloading the profiles
//! happen outside this crate.

use vstd::prelude::*;

use crate::apparmor::{
    profile_name_system, profile_name_user, spec_profile_name_system, spec_profile_name_user,
};
use crate::desktop::{desktop_file_name, spec_desktop_file_name, system_applications_dir};
use crate::paths::{path_join, spec_path_join};
use crate::text::str_eq;
use crate::validate::{spec_name_error, validate_app_name, NameError};
use vstd::string::StringExecFns;

verus! {

/// The execution context an uninstall reads: identity, the invoking-user
/// hint, and the per-user menu directory.
pub struct UninstallContext {
    /// Whether the process runs elevated.
    pub is_root: bool,
    /// The invoking-user hint, when present.
    pub sudo_user: Option<String>,
    /// The per-user menu directory from the XDG base directories, for the
    /// non-elevated case.
    pub xdg_applications_dir: String,
    /// The current user's name, when known.
    pub user: Option<String>,
}

/// What the per-user menu directory and username are.
/// Elevated with a hint: the invoking user's. Elevated without: root's own.
/// Not elevated: the XDG directory and the current user.
pub open spec fn spec_user_desktop_dir_and_username(ctx: UninstallContext) -> (Seq<char>, Seq<
    char>) {
    if ctx.is_root {
        let username: Seq<char> = match ctx.sudo_user {
            Some(su) => su@,
            None => "root"@,
        };
        let home: Seq<char> = if username == "root"@ {
            "/root"@
        } else {
            "/home/"@ + username
        };
        (home + "/.local/share/applications"@, username)
    } else {
        (
            ctx.xdg_applications_dir@,
            match ctx.user {
                Some(u) => u@,
                None => "unknown"@,
            },
        )
    }
}

/// The per-user menu directory and username the uninstall acts for.
fn user_desktop_dir_and_username(ctx: &UninstallContext) -> (r: (String, String))
    ensures
        (r.0@, r.1@) == spec_user_desktop_dir_and_username(*ctx),
{
    if ctx.is_root {
        let username = match ctx.sudo_user {
            Some(ref su) => su.clone(),
            None => String::from_str("root"),
        };
        let mut home = if str_eq(username.as_str(), "root") {
            String::from_str("/root")
        } else {
            let mut h = String::from_str("/home/");
            h.append(username.as_str());
            h
        };
        home.append("/.local/share/applications");
        (home, username)
    } else {
        let user = match ctx.user {
            Some(ref u) => u.clone(),
            None => String::from_str("unknown"),
        };
        (ctx.xdg_applications_dir.clone(), user)
    }
}

/// The artifacts an uninstall removes from the system tier, when elevated.
#[derive(Debug)]
pub struct SystemUninstall {
    /// The system-tier menu entry to delete.
    pub desktop_path: String,
    /// The system-tier profile to unload.
    pub profile: String,
}

/// Everything an uninstall removes: the user-tier menu entry and profile,
/// and — when elevated — the system-tier pair too.
#[derive(Debug)]
pub struct UninstallPlan {
    /// The user-tier menu directory (removal must stay inside it).
    pub user_desktop_dir: String,
    /// The user-tier menu entry to delete.
    pub user_desktop_path: String,
    /// The user-tier profile to unload, best effort.
    pub user_profile: String,
    /// The system-tier removals, when elevated.
    pub system: Option<SystemUninstall>,
}

/// Decide an uninstall: refuse an unsafe name (no artifact path is ever
/// built from one), then name every artifact to remove — the user-tier
/// menu entry and profile, and the system-tier pair when elevated.
pub fn run(name: &str, ctx: &UninstallContext) -> (r: Result<UninstallPlan, NameError>)
    ensures
        r is Ok <==> spec_name_error(name@) is None,
        r matches Err(e) ==> spec_name_error(name@) == Some(e),
        r matches Ok(plan) ==> {
            let (dir, username) = spec_user_desktop_dir_and_username(*ctx);
            &&& plan.user_desktop_dir@ == dir
            &&& plan.user_desktop_path@ == spec_path_join(dir, spec_desktop_file_name(name@))
            &&& plan.user_profile@ == spec_profile_name_user(username, name@)
            &&& (if ctx.is_root {
                plan.system matches Some(sys) && sys.desktop_path@ == spec_path_join(
                    "/usr/share/applications"@,
                    spec_desktop_file_name(name@),
                ) && sys.profile@ == spec_profile_name_system(name@)
            } else {
                plan.system is None
            })
        },
{
    if let Err(e) = validate_app_name(name) {
        return Err(e);
    }
    let (user_desktop_dir, current_user) = user_desktop_dir_and_username(ctx);
    let file = desktop_file_name(name);
    let user_desktop_path = path_join(user_desktop_dir.as_str(), file.as_str());
    let user_profile = profile_name_user(current_user.as_str(), name);
    let system = if ctx.is_root {
        let sys_dir = system_applications_dir();
        let sys_path = path_join(sys_dir.as_str(), file.as_str());
        Some(SystemUninstall { desktop_path: sys_path, profile: profile_name_system(name) })
    } else {
        None
    };
    Ok(UninstallPlan { user_desktop_dir, user_desktop_path, user_profile, system })
}

} // verus!

//! Rendering a manifest into menu-entry text. Every author-supplied value is
//! escaped per the entry format's key-value rule, and every command-line
//! token is escaped and quoted, so hostile manifest data cannot inject keys
//! or split arguments. Writing the file and changing its owner happen
//! outside this crate.

use vstd::prelude::*;

use crate::config::{spec_confine, Config};
use crate::paths::{path_join, spec_path_join};
use crate::text::{is_control_char, char_is_control, push_char};
use vstd::string::StringExecFns;

verus! {

/// What one character contributes to an escaped key value: `\` doubles,
/// newline, tab and carriage return take their two-character escapes, any
/// other control character becomes a space, everything else passes through.
pub open spec fn spec_escape_desktop_char(c: char) -> Seq<char> {
    if c == '\\' {
        seq!['\\', '\\']
    } else if c == '\n' {
        seq!['\\', 'n']
    } else if c == '\t' {
        seq!['\\', 't']
    } else if c == '\r' {
        seq!['\\', 'r']
    } else if is_control_char(c) {
        seq![' ']
    } else {
        seq![c]
    }
}

/// A string escaped for use as a key value.
pub open spec fn spec_escape_desktop_value(s: Seq<char>) -> Seq<char>
    decreases s.len(),
{
    if s.len() == 0 {
        s
    } else {
        spec_escape_desktop_value(s.drop_last()) + spec_escape_desktop_char(s.last())
    }
}

/// Escape a string for use as a menu-entry key value. Raw control characters
/// never pass through, so a value cannot inject additional keys.
pub fn escape_desktop_value(s: &str) -> (r: String)
    ensures
        r@ == spec_escape_desktop_value(s@),
{
    let n = s.unicode_len();
    let mut out = String::new();
    let mut i: usize = 0;
    while i < n
        invariant
            n == s@.len(),
            i <= n,
            out@ == spec_escape_desktop_value(s@.take(i as int)),
        decreases n - i,
    {
        let c = s.get_char(i);
        if c == '\\' {
            out.append("\\\\");
            proof {
                reveal_strlit("\\\\");
                assert("\\\\"@ =~= seq!['\\', '\\']);
            }
        } else if c == '\n' {
            out.append("\\n");
            proof {
                reveal_strlit("\\n");
                assert("\\n"@ =~= seq!['\\', 'n']);
            }
        } else if c == '\t' {
            out.append("\\t");
            proof {
                reveal_strlit("\\t");
                assert("\\t"@ =~= seq!['\\', 't']);
            }
        } else if c == '\r' {
            out.append("\\r");
            proof {
                reveal_strlit("\\r");
                assert("\\r"@ =~= seq!['\\', 'r']);
            }
        } else if char_is_control(c) {
            push_char(&mut out, ' ');
        } else {
            push_char(&mut out, c);
        }
        proof {
            assert(s@.take(i + 1).drop_last() =~= s@.take(i as int));
            assert(out@ =~= spec_escape_desktop_value(s@.take(i + 1)));
        }
        i += 1;
    }
    proof {
        assert(s@.take(n as int) =~= s@);
    }
    out
}

/// What one character contributes to an escaped command-line token:
/// backslash, double quote, backtick and dollar are backslash-escaped.
pub open spec fn spec_escape_exec_char(c: char) -> Seq<char> {
    if c == '\\' {
        seq!['\\', '\\']
    } else if c == '"' {
        seq!['\\', '"']
    } else if c == '`' {
        seq!['\\', '`']
    } else if c == '$' {
        seq!['\\', '$']
    } else {
        seq![c]
    }
}

/// A command-line token with its special characters escaped.
pub open spec fn spec_escape_exec_argument(s: Seq<char>) -> Seq<char>
    decreases s.len(),
{
    if s.len() == 0 {
        s
    } else {
        spec_escape_exec_argument(s.drop_last()) + spec_escape_exec_char(s.last())
    }
}

/// Escape a single argument for the command line of a menu entry.
fn escape_exec_argument(s: &str) -> (r: String)
    ensures
        r@ == spec_escape_exec_argument(s@),
{
    let n = s.unicode_len();
    let mut out = String::new();
    let mut i: usize = 0;
    while i < n
        invariant
            n == s@.len(),
            i <= n,
            out@ == spec_escape_exec_argument(s@.take(i as int)),
        decreases n - i,
    {
        let c = s.get_char(i);
        if c == '\\' {
            out.append("\\\\");
            proof {
                reveal_strlit("\\\\");
                assert("\\\\"@ =~= seq!['\\', '\\']);
            }
        } else if c == '"' {
            out.append("\\\"");
            proof {
                reveal_strlit("\\\"");
                assert("\\\""@ =~= seq!['\\', '"']);
            }
        } else if c == '`' {
            out.append("\\`");
            proof {
                reveal_strlit("\\`");
                assert("\\`"@ =~= seq!['\\', '`']);
            }
        } else if c == '$' {
            out.append("\\$");
            proof {
                reveal_strlit("\\$");
                assert("\\$"@ =~= seq!['\\', '$']);
            }
        } else {
            push_char(&mut out, c);
        }
        proof {
            assert(s@.take(i + 1).drop_last() =~= s@.take(i as int));
            assert(out@ =~= spec_escape_exec_argument(s@.take(i + 1)));
        }
        i += 1;
    }
    proof {
        assert(s@.take(n as int) =~= s@);
    }
    out
}

/// A character that forces the whole token into quotes.
pub open spec fn is_exec_special(c: char) -> bool {
    c == ' ' || c == '"' || c == '\\' || c == '`' || c == '$'
}

/// Whether the escaped token still holds a character that would split or
/// reinterpret it, so it must be quoted.
pub open spec fn spec_exec_needs_quoting(escaped: Seq<char>) -> bool {
    exists|i: int| 0 <= i < escaped.len() && is_exec_special(escaped[i])
}

/// One finished command-line token: escaped, and wrapped in double quotes
/// whenever escaping was necessary or it holds a space. This keeps every
/// rendered path and argument a single token, whatever it contains.
pub open spec fn spec_escape_for_exec_arg(s: Seq<char>) -> Seq<char> {
    let e = spec_escape_exec_argument(s);
    if spec_exec_needs_quoting(e) {
        seq!['"'] + e + seq!['"']
    } else {
        e
    }
}

/// Format one command-line component: quote and escape it if it contains a
/// space or a special character.
fn escape_for_exec_arg(s: &str) -> (r: String)
    ensures
        r@ == spec_escape_for_exec_arg(s@),
{
    let escaped = escape_exec_argument(s);
    let n = escaped.as_str().unicode_len();
    let mut needs: bool = false;
    let mut i: usize = 0;
    while i < n
        invariant
            n == escaped@.len(),
            i <= n,
            needs == exists|j: int| 0 <= j < i && is_exec_special(escaped@[j]),
        decreases n - i,
    {
        let c = escaped.as_str().get_char(i);
        if c == ' ' || c == '"' || c == '\\' || c == '`' || c == '$' {
            proof {
                assert(is_exec_special(escaped@[i as int]));
            }
            needs = true;
        }
        i += 1;
    }
    if !needs {
        return escaped;
    }
    let mut out = String::from_str("\"");
    out.append(escaped.as_str());
    out.append("\"");
    proof {
        reveal_strlit("\"");
        assert(out@ =~= seq!['"'] + escaped@ + seq!['"']);
    }
    out
}

/// The rendered arguments tail: each declared argument escaped, quoted when
/// needed, and preceded by a separating space.
pub open spec fn spec_exec_args_tail(args: Seq<Seq<char>>) -> Seq<char>
    decreases args.len(),
{
    if args.len() == 0 {
        Seq::<char>::empty()
    } else {
        spec_exec_args_tail(args.drop_last()) + " "@ + spec_escape_for_exec_arg(args.last())
    }
}

/// The command line of the menu entry: the absolute, canonicalized path to
/// the bundle's executable (falling back to the joined path when
/// canonicalization failed), wrapped in an `aa-exec` invocation when a
/// profile name is supplied and the manifest asks for confinement, followed
/// by each declared argument and the placeholder token the menu system
/// substitutes at invocation.
pub open spec fn spec_build_exec_line(
    cfg: Config,
    bundle_root: Seq<char>,
    exec_canonical: Option<String>,
    profile_name: Option<Seq<char>>,
) -> Seq<char> {
    let path_str = match exec_canonical {
        Some(p) => p@,
        None => spec_path_join(bundle_root, cfg.executable@),
    };
    let head = match profile_name {
        Some(pn) => if spec_confine(&cfg) {
            "aa-exec -p "@ + pn + " -- "@ + spec_escape_for_exec_arg(path_str)
        } else {
            spec_escape_for_exec_arg(path_str)
        },
        None => spec_escape_for_exec_arg(path_str),
    };
    head + spec_exec_args_tail(cfg.args.deep_view()) + " %u"@
}

/// Build the command line for a menu entry. `exec_canonical` is the
/// executable's real location when the caller could resolve it.
fn build_exec_line(
    config: &Config,
    bundle_root: &str,
    profile_name: Option<&str>,
    exec_canonical: &Option<String>,
) -> (r: String)
    ensures
        r@ == spec_build_exec_line(
            *config,
            bundle_root@,
            *exec_canonical,
            match profile_name {
                Some(p) => Some(p@),
                None => None,
            },
        ),
{
    let path_str = match exec_canonical {
        Some(p) => p.clone(),
        None => path_join(bundle_root, config.executable.as_str()),
    };
    let confine = config.confine_requested();
    let mut out = String::new();
    match profile_name {
        Some(profile) if confine => {
            out.append("aa-exec -p ");
            out.append(profile);
            out.append(" -- ");
            let e = escape_for_exec_arg(path_str.as_str());
            out.append(e.as_str());
        },
        _ => {
            let e = escape_for_exec_arg(path_str.as_str());
            out.append(e.as_str());
        },
    }
    let ghost head: Seq<char> = out@;
    let n = config.args.len();
    let mut i: usize = 0;
    while i < n
        invariant
            n == config.args@.len(),
            i <= n,
            out@ == head + spec_exec_args_tail(config.args.deep_view().take(i as int)),
        decreases n - i,
    {
        out.append(" ");
        let e = escape_for_exec_arg(config.args[i].as_str());
        out.append(e.as_str());
        proof {
            assert(config.args.deep_view().take(i + 1).drop_last() =~= config.args.deep_view()
                .take(i as int));
            assert(out@ =~= head + spec_exec_args_tail(config.args.deep_view().take(i + 1)));
        }
        i += 1;
    }
    out.append(" %u");
    proof {
        assert(config.args.deep_view().take(n as int) =~= config.args.deep_view());
        assert(out@ =~= spec_build_exec_line(
            *config,
            bundle_root@,
            *exec_canonical,
            match profile_name {
                Some(p) => Some(p@),
                None => None,
            },
        ));
    }
    out
}

/// System applications directory, for system-tier menu entries. Writing
/// there needs elevation.
pub fn system_applications_dir() -> (r: String)
    ensures
        r@ == "/usr/share/applications"@,
{
    String::from_str("/usr/share/applications")
}

/// The fixed name template of an installed menu-entry file.
pub open spec fn spec_desktop_file_name(name: Seq<char>) -> Seq<char> {
    "dotlnx-"@ + name + ".desktop"@
}

/// The file name a menu entry is installed under: `dotlnx-<name>.desktop`.
/// Stable across runs for the same name, so reconciliation finds the same
/// artifact again.
pub fn desktop_file_name(name: &str) -> (r: String)
    ensures
        r@ == spec_desktop_file_name(name@),
{
    let mut out = String::from_str("dotlnx-");
    out.append(name);
    out.append(".desktop");
    out
}

/// What the icon value of the entry is: a bundle-relative path that resolved
/// to a real file becomes that absolute location; a theme name, an absolute
/// path, or an unresolvable value passes through unchanged.
pub open spec fn spec_resolve_icon(icon: Seq<char>, icon_canonical: Option<String>) -> Seq<
    char> {
    if icon.len() == 0 {
        icon
    } else if icon[0] != '/' && !(icon.len() >= 2 && icon[0] == '~' && icon[1] == '/') {
        match icon_canonical {
            Some(p) => p@,
            None => icon,
        }
    } else {
        icon
    }
}

/// Resolve the icon value for the entry. `icon_canonical` is the real
/// location of the icon joined under the bundle root, when it names an
/// existing file there.
fn resolve_icon_for_desktop(icon: &str, icon_canonical: &Option<String>) -> (r: String)
    ensures
        r@ == spec_resolve_icon(icon@, *icon_canonical),
{
    let n = icon.unicode_len();
    if n == 0 {
        return String::from_str(icon);
    }
    let relative = icon.get_char(0) != '/' && !(n >= 2 && icon.get_char(0) == '~'
        && icon.get_char(1) == '/');
    if relative {
        if let Some(p) = icon_canonical {
            return p.clone();
        }
    }
    String::from_str(icon)
}

/// The category values escaped and joined with `;`.
pub open spec fn spec_categories_joined(cs: Seq<Seq<char>>) -> Seq<char>
    decreases cs.len(),
{
    if cs.len() == 0 {
        Seq::<char>::empty()
    } else if cs.len() == 1 {
        spec_escape_desktop_value(cs[0])
    } else {
        spec_categories_joined(cs.drop_last()) + ";"@ + spec_escape_desktop_value(cs.last())
    }
}

/// The real filesystem locations a menu entry depends on, resolved by the
/// caller: the executable's canonical path, and the canonical path of a
/// bundle-relative icon file when it exists.
pub struct DesktopPaths {
    /// The executable's real location, when it resolves to one.
    pub exec_canonical: Option<String>,
    /// The bundle-relative icon's real location, when it names an existing
    /// file in the bundle.
    pub icon_canonical: Option<String>,
}

/// The full menu-entry text for a bundle. Every author-supplied value is
/// escaped; the command line invokes the executable's absolute path, wrapped
/// in the profile loader when confinement applies.
pub open spec fn spec_generate_desktop(
    cfg: Config,
    bundle_root: Seq<char>,
    profile_name: Option<Seq<char>>,
    paths: DesktopPaths,
) -> Seq<char> {
    "[Desktop Entry]\nType=Application\nName="@ + spec_escape_desktop_value(cfg.name@)
        + "\nExec="@ + spec_build_exec_line(cfg, bundle_root, paths.exec_canonical, profile_name)
        + "\n"@ + (match cfg.working_dir {
        Some(wd) => "Path="@ + spec_escape_desktop_value(spec_path_join(bundle_root, wd@))
            + "\n"@,
        None => Seq::<char>::empty(),
    }) + (match cfg.comment {
        Some(c) => "Comment="@ + spec_escape_desktop_value(c@) + "\n"@,
        None => Seq::<char>::empty(),
    }) + (match cfg.icon {
        Some(ic) => "Icon="@ + spec_escape_desktop_value(
            spec_resolve_icon(ic@, paths.icon_canonical),
        ) + "\n"@,
        None => Seq::<char>::empty(),
    }) + (match cfg.categories {
        Some(cs) => "Categories="@ + spec_categories_joined(cs.deep_view()) + "\n"@,
        None => Seq::<char>::empty(),
    }) + (if cfg.terminal {
        "Terminal=true\n"@
    } else {
        Seq::<char>::empty()
    })
}

/// Generate the menu-entry text for an app. The command line is the absolute
/// path to the bundle's executable (or its `aa-exec` wrapping when a profile
/// name is supplied and the manifest asks for confinement), so the launched
/// process is the app itself. All author-supplied values are escaped; a
/// bundle-relative icon that resolved to a real file becomes an absolute
/// path.
#[verifier::loop_isolation(false)]
#[verifier::rlimit(60)]
pub fn generate_desktop(
    config: &Config,
    bundle_root: &str,
    profile_name: Option<&str>,
    paths: &DesktopPaths,
) -> (r: String)
    ensures
        r@ == spec_generate_desktop(
            *config,
            bundle_root@,
            match profile_name {
                Some(p) => Some(p@),
                None => None,
            },
            *paths,
        ),
{
    let ghost spec_profile: Option<Seq<char>> = match profile_name {
        Some(p) => Some(p@),
        None => None,
    };
    let mut out = String::from_str("[Desktop Entry]\nType=Application\nName=");
    let name = escape_desktop_value(config.name.as_str());
    out.append(name.as_str());
    out.append("\nExec=");
    let exec_line = build_exec_line(config, bundle_root, profile_name, &paths.exec_canonical);
    out.append(exec_line.as_str());
    out.append("\n");
    let ghost g_head: Seq<char> = "[Desktop Entry]\nType=Application\nName="@
        + spec_escape_desktop_value(config.name@) + "\nExec="@ + spec_build_exec_line(
        *config,
        bundle_root@,
        paths.exec_canonical,
        spec_profile,
    ) + "\n"@;
    proof {
        assert(out@ == g_head);
    }
    let ghost p_wd: Seq<char> = match config.working_dir {
        Some(ref wd) => "Path="@ + spec_escape_desktop_value(spec_path_join(bundle_root@, wd@))
            + "\n"@,
        None => Seq::<char>::empty(),
    };
    if let Some(ref workdir) = config.working_dir {
        let path_abs = path_join(bundle_root, workdir.as_str());
        out.append("Path=");
        let v = escape_desktop_value(path_abs.as_str());
        out.append(v.as_str());
        out.append("\n");
    }
    proof {
        assert(out@ =~= g_head + p_wd);
    }
    let ghost p_comment: Seq<char> = match config.comment {
        Some(ref c) => "Comment="@ + spec_escape_desktop_value(c@) + "\n"@,
        None => Seq::<char>::empty(),
    };
    if let Some(ref comment) = config.comment {
        out.append("Comment=");
        let v = escape_desktop_value(comment.as_str());
        out.append(v.as_str());
        out.append("\n");
    }
    proof {
        assert(out@ =~= g_head + p_wd + p_comment);
    }
    let ghost p_icon: Seq<char> = match config.icon {
        Some(ref ic) => "Icon="@ + spec_escape_desktop_value(
            spec_resolve_icon(ic@, paths.icon_canonical),
        ) + "\n"@,
        None => Seq::<char>::empty(),
    };
    if let Some(ref icon) = config.icon {
        let icon_value = resolve_icon_for_desktop(icon.as_str(), &paths.icon_canonical);
        out.append("Icon=");
        let v = escape_desktop_value(icon_value.as_str());
        out.append(v.as_str());
        out.append("\n");
    }
    proof {
        assert(out@ =~= g_head + p_wd + p_comment + p_icon);
    }
    let ghost p_cats: Seq<char> = match config.categories {
        Some(ref cs) => "Categories="@ + spec_categories_joined(cs.deep_view()) + "\n"@,
        None => Seq::<char>::empty(),
    };
    if let Some(ref cats) = config.categories {
        out.append("Categories=");
        let ghost before: Seq<char> = out@;
        let n = cats.len();
        let mut i: usize = 0;
        while i < n
            invariant
                n == cats@.len(),
                i <= n,
                out@ == before + spec_categories_joined(cats.deep_view().take(i as int)),
            decreases n - i,
        {
            if i > 0 {
                out.append(";");
            }
            let v = escape_desktop_value(cats[i].as_str());
            out.append(v.as_str());
            proof {
                assert(cats.deep_view().take(i + 1).drop_last() =~= cats.deep_view().take(
                    i as int));
                assert(out@ =~= before + spec_categories_joined(cats.deep_view().take(i + 1)));
            }
            i += 1;
        }
        out.append("\n");
        proof {
            assert(cats.deep_view().take(n as int) =~= cats.deep_view());
        }
    }
    proof {
        assert(out@ =~= g_head + p_wd + p_comment + p_icon + p_cats);
    }
    let ghost p_term: Seq<char> = if config.terminal {
        "Terminal=true\n"@
    } else {
        Seq::<char>::empty()
    };
    if config.terminal {
        out.append("Terminal=true\n");
    }
    proof {
        assert(out@ =~= g_head + p_wd + p_comment + p_icon + p_cats + p_term);
        assert(out@ == spec_generate_desktop(*config, bundle_root@, spec_profile, *paths));
    }
    out
}

/// The marker-file text that makes file managers show the app's icon on the
/// bundle folder; nothing when the manifest declares no icon.
pub open spec fn spec_directory_entry(cfg: Config, icon_canonical: Option<String>) -> Option<
    Seq<char>> {
    match cfg.icon {
        None => None,
        Some(ic) => Some(
            "[Desktop Entry]\nType=Directory\nName="@ + spec_escape_desktop_value(cfg.name@)
                + "\nIcon="@ + spec_escape_desktop_value(
                spec_resolve_icon(ic@, icon_canonical),
            ) + "\n"@,
        ),
    }
}

/// Generate the directory marker file for the bundle folder, when the
/// manifest declares an icon.
pub fn generate_directory_entry(config: &Config, icon_canonical: &Option<String>) -> (r:
    Option<String>)
    ensures
        match r {
            Some(s) => spec_directory_entry(*config, *icon_canonical) == Some(s@),
            None => spec_directory_entry(*config, *icon_canonical) is None,
        },
{
    let icon = match config.icon {
        Some(ref ic) => ic,
        None => {
            return None;
        },
    };
    let icon_value = resolve_icon_for_desktop(icon.as_str(), icon_canonical);
    let mut out = String::from_str("[Desktop Entry]\nType=Directory\nName=");
    let name = escape_desktop_value(config.name.as_str());
    out.append(name.as_str());
    out.append("\nIcon=");
    let v = escape_desktop_value(icon_value.as_str());
    out.append(v.as_str());
    out.append("\n");
    proof {
        assert(out@ =~= "[Desktop Entry]\nType=Directory\nName="@ + spec_escape_desktop_value(
            config.name@,
        ) + "\nIcon="@ + spec_escape_desktop_value(
            spec_resolve_icon(config.icon->Some_0@, *icon_canonical),
        ) + "\n"@);
    }
    Some(out)
}

/// An icon path turned into a file URL: spaces become `%20`.
pub open spec fn spec_url_escape_spaces(s: Seq<char>) -> Seq<char>
    decreases s.len(),
{
    if s.len() == 0 {
        s
    } else {
        spec_url_escape_spaces(s.drop_last()) + (if s.last() == ' ' {
            seq!['%', '2', '0']
        } else {
            seq![s.last()]
        })
    }
}

/// Escape spaces of a path for use in a `file://` URL.
fn url_escape_spaces(s: &str) -> (r: String)
    ensures
        r@ == spec_url_escape_spaces(s@),
{
    let n = s.unicode_len();
    let mut out = String::new();
    let mut i: usize = 0;
    while i < n
        invariant
            n == s@.len(),
            i <= n,
            out@ == spec_url_escape_spaces(s@.take(i as int)),
        decreases n - i,
    {
        let c = s.get_char(i);
        if c == ' ' {
            out.append("%20");
            proof {
                reveal_strlit("%20");
                assert("%20"@ =~= seq!['%', '2', '0']);
            }
        } else {
            push_char(&mut out, c);
        }
        proof {
            assert(s@.take(i + 1).drop_last() =~= s@.take(i as int));
            assert(out@ =~= spec_url_escape_spaces(s@.take(i + 1)));
        }
        i += 1;
    }
    proof {
        assert(s@.take(n as int) =~= s@);
    }
    out
}

/// The tail every folder-icon command ends with: the metadata tool, the
/// operation, the bundle folder, and the attribute.
pub open spec fn spec_gio_tail(
    op: Seq<char>,
    bundle_root: Seq<char>,
    extra: Seq<Seq<char>>,
) -> Seq<Seq<char>> {
    seq!["/usr/bin/gio"@, "set"@, "-t"@, op, bundle_root, "metadata::custom-icon"@] + extra
}

/// The head that reruns the tool as the owning user with that user's session
/// bus, so the desktop environment's metadata daemon receives the write when
/// the pass runs elevated.
pub open spec fn spec_gio_head(
    run_as_user: Option<Seq<char>>,
    user_runtime: Option<Seq<char>>,
    bus_available: bool,
) -> Seq<Seq<char>> {
    match run_as_user {
        Some(u) => seq!["runuser"@, "-u"@, u, "--"@, "env"@] + (match user_runtime {
            Some(rt) => if bus_available {
                seq!["DBUS_SESSION_BUS_ADDRESS=unix:path="@ + rt + "/bus"@, "XDG_RUNTIME_DIR="@
                    + rt]
            } else {
                Seq::<Seq<char>>::empty()
            },
            None => Seq::<Seq<char>>::empty(),
        }),
        None => Seq::<Seq<char>>::empty(),
    }
}

/// Append the command head for running as another user.
fn push_gio_head(
    argv: &mut Vec<String>,
    run_as_user: Option<&String>,
    user_runtime: &Option<String>,
    bus_available: bool,
)
    ensures
        final(argv).deep_view() == old(argv).deep_view() + spec_gio_head(
            match run_as_user {
                Some(u) => Some(u@),
                None => None,
            },
            match *user_runtime {
                Some(ref rt) => Some(rt@),
                None => None,
            },
            bus_available,
        ),
{
    let u = match run_as_user {
        Some(u) => u,
        None => {
            proof {
                assert(final(argv).deep_view() =~~= old(argv).deep_view() + Seq::<Seq<
                    char>>::empty());
            }
            return ;
        },
    };
    argv.push(String::from_str("runuser"));
    argv.push(String::from_str("-u"));
    argv.push(u.clone());
    argv.push(String::from_str("--"));
    argv.push(String::from_str("env"));
    if bus_available {
        if let Some(rt) = user_runtime {
            let mut bus = String::from_str("DBUS_SESSION_BUS_ADDRESS=unix:path=");
            bus.append(rt.as_str());
            bus.append("/bus");
            argv.push(bus);
            let mut xdg = String::from_str("XDG_RUNTIME_DIR=");
            xdg.append(rt.as_str());
            argv.push(xdg);
        }
    }
    proof {
        assert(argv.deep_view() =~~= old(argv).deep_view() + spec_gio_head(
            match run_as_user {
                Some(u) => Some(u@),
                None => None,
            },
            match *user_runtime {
                Some(ref rt) => Some(rt@),
                None => None,
            },
            bus_available,
        ));
    }
}

/// What setting the folder icon runs, if anything: nothing without an icon,
/// nothing for a non-absolute resolved icon value, nothing when the metadata
/// tool is absent; otherwise the tool invocation with the icon as a file
/// URL.
pub open spec fn spec_set_gnome_folder_icon(
    cfg: Config,
    bundle_root: Seq<char>,
    icon_canonical: Option<String>,
    run_as_user: Option<Seq<char>>,
    user_runtime: Option<Seq<char>>,
    bus_available: bool,
    gio_available: bool,
) -> Option<Seq<Seq<char>>> {
    match cfg.icon {
        None => None,
        Some(ic) => {
            let v = spec_resolve_icon(ic@, icon_canonical);
            if v.len() == 0 || v[0] != '/' {
                None
            } else if !gio_available {
                None
            } else {
                Some(
                    spec_gio_head(run_as_user, user_runtime, bus_available) + spec_gio_tail(
                        "string"@,
                        bundle_root,
                        seq!["file://"@ + spec_url_escape_spaces(v)],
                    ),
                )
            }
        },
    }
}

/// Plan the command that sets the desktop environment's folder icon for the
/// bundle (nothing to run when there is no icon or no metadata tool). The
/// caller supplies the tool's availability, the owning user's runtime
/// directory, and whether that user's session bus exists.
pub fn set_gnome_folder_icon(
    config: &Config,
    bundle_root: &str,
    icon_canonical: &Option<String>,
    run_as_user: Option<&String>,
    user_runtime: &Option<String>,
    bus_available: bool,
    gio_available: bool,
) -> (r: Option<Vec<String>>)
    ensures
        match r {
            Some(argv) => spec_set_gnome_folder_icon(
                *config,
                bundle_root@,
                *icon_canonical,
                match run_as_user {
                    Some(u) => Some(u@),
                    None => None,
                },
                match *user_runtime {
                    Some(ref rt) => Some(rt@),
                    None => None,
                },
                bus_available,
                gio_available,
            ) == Some(argv.deep_view()),
            None => spec_set_gnome_folder_icon(
                *config,
                bundle_root@,
                *icon_canonical,
                match run_as_user {
                    Some(u) => Some(u@),
                    None => None,
                },
                match *user_runtime {
                    Some(ref rt) => Some(rt@),
                    None => None,
                },
                bus_available,
                gio_available,
            ) is None,
        },
{
    let icon = match config.icon {
        Some(ref ic) => ic,
        None => {
            return None;
        },
    };
    let v = resolve_icon_for_desktop(icon.as_str(), icon_canonical);
    if v.as_str().unicode_len() == 0 || v.as_str().get_char(0) != '/' {
        return None;
    }
    if !gio_available {
        return None;
    }
    let mut url = String::from_str("file://");
    let escaped = url_escape_spaces(v.as_str());
    url.append(escaped.as_str());
    let mut argv: Vec<String> = Vec::new();
    push_gio_head(&mut argv, run_as_user, user_runtime, bus_available);
    argv.push(String::from_str("/usr/bin/gio"));
    argv.push(String::from_str("set"));
    argv.push(String::from_str("-t"));
    argv.push(String::from_str("string"));
    argv.push(String::from_str(bundle_root));
    argv.push(String::from_str("metadata::custom-icon"));
    argv.push(url);
    proof {
        assert(argv.deep_view() =~~= spec_gio_head(
            match run_as_user {
                Some(u) => Some(u@),
                None => None,
            },
            match *user_runtime {
                Some(ref rt) => Some(rt@),
                None => None,
            },
            bus_available,
        ) + spec_gio_tail(
            "string"@,
            bundle_root@,
            seq!["file://"@ + spec_url_escape_spaces(v@)],
        ));
    }
    Some(argv)
}

/// What clearing the folder icon runs: nothing when the metadata tool is
/// absent, otherwise the unset invocation.
pub open spec fn spec_clear_gnome_folder_icon(
    bundle_root: Seq<char>,
    run_as_user: Option<Seq<char>>,
    user_runtime: Option<Seq<char>>,
    bus_available: bool,
    gio_available: bool,
) -> Option<Seq<Seq<char>>> {
    if !gio_available {
        None
    } else {
        Some(
            spec_gio_head(run_as_user, user_runtime, bus_available) + spec_gio_tail(
                "unset"@,
                bundle_root,
                Seq::<Seq<char>>::empty(),
            ),
        )
    }
}

/// Plan the command that clears the desktop environment's folder icon for
/// the bundle.
pub fn clear_gnome_folder_icon(
    bundle_root: &str,
    run_as_user: Option<&String>,
    user_runtime: &Option<String>,
    bus_available: bool,
    gio_available: bool,
) -> (r: Option<Vec<String>>)
    ensures
        match r {
            Some(argv) => spec_clear_gnome_folder_icon(
                bundle_root@,
                match run_as_user {
                    Some(u) => Some(u@),
                    None => None,
                },
                match *user_runtime {
                    Some(ref rt) => Some(rt@),
                    None => None,
                },
                bus_available,
                gio_available,
            ) == Some(argv.deep_view()),
            None => spec_clear_gnome_folder_icon(
                bundle_root@,
                match run_as_user {
                    Some(u) => Some(u@),
                    None => None,
                },
                match *user_runtime {
                    Some(ref rt) => Some(rt@),
                    None => None,
                },
                bus_available,
                gio_available,
            ) is None,
        },
{
    if !gio_available {
        return None;
    }
    let mut argv: Vec<String> = Vec::new();
    push_gio_head(&mut argv, run_as_user, user_runtime, bus_available);
    argv.push(String::from_str("/usr/bin/gio"));
    argv.push(String::from_str("set"));
    argv.push(String::from_str("-t"));
    argv.push(String::from_str("unset"));
    argv.push(String::from_str(bundle_root));
    argv.push(String::from_str("metadata::custom-icon"));
    proof {
        assert(argv.deep_view() =~~= spec_gio_head(
            match run_as_user {
                Some(u) => Some(u@),
                None => None,
            },
            match *user_runtime {
                Some(ref rt) => Some(rt@),
                None => None,
            },
            bus_available,
        ) + spec_gio_tail("unset"@, bundle_root@, Seq::<Seq<char>>::empty()));
    }
    Some(argv)
}

} // verus!

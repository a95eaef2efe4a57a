//! Creating bundle scaffolds: naming, the launcher script for appimage
//! bundles, and the generated manifest text. The decision of what to create
//! is made here; copying files and writing the scaffold happen outside this
//! crate.

use vstd::prelude::*;

use crate::paths::{file_name_of, path_join, spec_file_name, spec_path_join};
use crate::text::{
    char_is_ascii_alphanumeric, is_ascii_digit, is_ascii_uppercase, is_ascii_alphanumeric,
    push_char, spec_trim, trim,
};
use crate::validate::{spec_name_error, validate_app_name, NameError};
use vstd::string::StringExecFns;

verus! {

/// An ASCII letter lowered; everything else unchanged.
pub open spec fn spec_ascii_lower(c: char) -> char {
    if is_ascii_uppercase(c) {
        (((c as u32) + 0x20) as char)
    } else {
        c
    }
}

/// What one character contributes to a slug: alphanumerics lowered, spaces
/// and connector characters a dash, everything else nothing.
pub open spec fn spec_slug_char(c: char) -> Seq<char> {
    if is_ascii_alphanumeric(c) {
        seq![spec_ascii_lower(c)]
    } else if c == ' ' || c == '-' || c == '_' {
        seq!['-']
    } else {
        Seq::<char>::empty()
    }
}

/// The raw slug characters before dash runs are collapsed.
pub open spec fn spec_slug_chars(s: Seq<char>) -> Seq<char>
    decreases s.len(),
{
    if s.len() == 0 {
        s
    } else {
        spec_slug_chars(s.drop_last()) + spec_slug_char(s.last())
    }
}

/// Dash runs collapsed to one dash, with leading and trailing dashes
/// dropped. `have_out` records whether a character was emitted yet and
/// `pending` whether a dash is waiting for the next character.
pub open spec fn spec_collapse_dashes_from(t: Seq<char>, have_out: bool, pending: bool) -> Seq<
    char>
    decreases t.len(),
{
    if t.len() == 0 {
        Seq::<char>::empty()
    } else if t[0] == '-' {
        spec_collapse_dashes_from(t.drop_first(), have_out, have_out)
    } else {
        (if pending {
            seq!['-']
        } else {
            Seq::<char>::empty()
        }) + seq![t[0]] + spec_collapse_dashes_from(t.drop_first(), true, false)
    }
}

/// What slugifying a name yields: lowercase alphanumerics and single dashes,
/// or `app` when nothing survives.
pub open spec fn spec_slugify_app_name(s: Seq<char>) -> Seq<char> {
    let c = spec_collapse_dashes_from(spec_slug_chars(s), false, false);
    if c.len() == 0 {
        "app"@
    } else {
        c
    }
}

/// Slugify an app name for a directory: lowercase, spaces to hyphens,
/// everything but alphanumerics dropped, dash runs collapsed.
pub fn slugify_app_name(name: &str) -> (r: String)
    ensures
        r@ == spec_slugify_app_name(name@),
{
    let n = name.unicode_len();
    let mut raw = String::new();
    let mut i: usize = 0;
    while i < n
        invariant
            n == name@.len(),
            i <= n,
            raw@ == spec_slug_chars(name@.take(i as int)),
        decreases n - i,
    {
        let c = name.get_char(i);
        if char_is_ascii_alphanumeric(c) {
            if 'A' <= c && c <= 'Z' {
                let lowered = (((c as u32) + 0x20) as u8) as char;
                proof {
                    assert('A' as u32 == 0x41 && 'Z' as u32 == 0x5a);
                    assert((c as u32) + 0x20 <= 0x7a);
                    assert(lowered == spec_ascii_lower(c));
                }
                push_char(&mut raw, lowered);
            } else {
                proof {
                    assert(spec_ascii_lower(c) == c);
                }
                push_char(&mut raw, c);
            }
        } else if c == ' ' || c == '-' || c == '_' {
            push_char(&mut raw, '-');
        }
        proof {
            assert(name@.take(i + 1).drop_last() =~= name@.take(i as int));
            assert(raw@ =~= spec_slug_chars(name@.take(i + 1)));
        }
        i += 1;
    }
    proof {
        assert(name@.take(n as int) =~= name@);
    }
    let t = raw.as_str();
    let m = t.unicode_len();
    let mut out = String::new();
    let mut have_out: bool = false;
    let mut pending: bool = false;
    proof {
        assert(t@.skip(0) =~= t@);
        assert(out@ + spec_collapse_dashes_from(t@, false, false) =~= spec_collapse_dashes_from(
            t@,
            false,
            false,
        ));
    }
    let mut j: usize = 0;
    while j < m
        invariant
            m == t@.len(),
            j <= m,
            have_out == (out@.len() > 0),
            spec_collapse_dashes_from(t@, false, false) == out@ + spec_collapse_dashes_from(
                t@.skip(j as int),
                have_out,
                pending,
            ),
        decreases m - j,
    {
        let c = t.get_char(j);
        proof {
            assert(t@.skip(j as int)[0] == t@[j as int]);
            assert(t@.skip(j as int).drop_first() =~= t@.skip(j + 1));
        }
        if c == '-' {
            pending = have_out;
        } else {
            if pending {
                push_char(&mut out, '-');
            }
            push_char(&mut out, c);
            have_out = true;
            pending = false;
        }
        j += 1;
    }
    proof {
        assert(t@.skip(m as int) =~= Seq::<char>::empty());
    }
    if out.as_str().unicode_len() == 0 {
        return String::from_str("app");
    }
    out
}

/// Whether a character can be part of a version segment.
pub open spec fn is_version_char(c: char) -> bool {
    is_ascii_digit(c) || c == '.'
}

/// The scan that replaces the first version-like segment of an appimage base
/// name with `*`: once inside a run of digits and dots, the first other
/// character closes the wildcard.
pub open spec fn spec_scan_version(
    base: Seq<char>,
    i: int,
    in_version: bool,
    version_start: int,
) -> Seq<char>
    decreases base.len() - i when 0 <= i <= base.len()
{
    if i >= base.len() {
        if in_version {
            base.subrange(0, version_start) + "*.appimage"@
        } else {
            "*.appimage"@
        }
    } else if is_version_char(base[i]) {
        if in_version {
            spec_scan_version(base, i + 1, true, version_start)
        } else {
            spec_scan_version(base, i + 1, true, i)
        }
    } else if in_version {
        base.subrange(0, version_start) + "*"@ + base.subrange(i, base.len() as int)
            + ".appimage"@
    } else {
        spec_scan_version(base, i + 1, false, version_start)
    }
}

/// What the pattern derived from an appimage path is: the file name with its
/// first version-like segment replaced by `*`, or the bare wildcard when the
/// name does not fit the convention.
pub open spec fn spec_derive_appimage_pattern(p: Seq<char>) -> Seq<char> {
    let name = spec_file_name(p);
    if !(name.len() >= 9 && name.subrange(name.len() - 9, name.len() as int) == ".appimage"@) {
        "*.appimage"@
    } else {
        spec_scan_version(name.subrange(0, name.len() - 9), 0, false, 0)
    }
}

/// Derive a glob pattern from an appimage path so the launcher script can
/// pick the newest of several versions dropped into the bundle.
#[verifier::loop_isolation(false)]
pub fn derive_appimage_pattern(appimage_path: &str) -> (r: String)
    ensures
        r@ == spec_derive_appimage_pattern(appimage_path@),
{
    let name = file_name_of(appimage_path);
    let s = name.as_str();
    let n = s.unicode_len();
    if !crate::text::str_ends_with(s, ".appimage") {
        proof {
            reveal_strlit(".appimage");
        }
        return String::from_str("*.appimage");
    }
    proof {
        reveal_strlit(".appimage");
    }
    let base_str = s.substring_char(0, n - 9);
    let base = base_str;
    let m = base.unicode_len();
    let mut i: usize = 0;
    let mut in_version: bool = false;
    let mut version_start: usize = 0;
    while i < m
        invariant
            m == base@.len(),
            i <= m,
            version_start <= i,
            spec_scan_version(base@, 0, false, 0) == spec_scan_version(
                base@,
                i as int,
                in_version,
                version_start as int,
            ),
        decreases m - i,
    {
        let c = base.get_char(i);
        let is_v = ('0' <= c && c <= '9') || c == '.';
        proof {
            assert(is_v == is_version_char(base@[i as int]));
        }
        if is_v {
            if !in_version {
                in_version = true;
                version_start = i;
            }
        } else {
            if in_version {
                let mut out = String::from_str(base.substring_char(0, version_start));
                out.append("*");
                out.append(base.substring_char(i, m));
                out.append(".appimage");
                proof {
                    assert(out@ =~= spec_scan_version(
                        base@,
                        i as int,
                        true,
                        version_start as int,
                    ));
                }
                return out;
            }
        }
        i += 1;
    }
    if in_version {
        let mut out = String::from_str(base.substring_char(0, version_start));
        out.append("*.appimage");
        proof {
            assert(out@ =~= spec_scan_version(base@, m as int, true, version_start as int));
        }
        return out;
    }
    String::from_str("*.appimage")
}

/// What one character contributes inside a double-quoted shell string:
/// backslash and double quote are backslash-escaped.
pub open spec fn spec_bash_escape_char(c: char) -> Seq<char> {
    if c == '\\' {
        seq!['\\', '\\']
    } else if c == '"' {
        seq!['\\', '"']
    } else {
        seq![c]
    }
}

/// A string escaped for use inside a double-quoted shell string.
pub open spec fn spec_escape_bash_double_quoted(s: Seq<char>) -> Seq<char>
    decreases s.len(),
{
    if s.len() == 0 {
        s
    } else {
        spec_escape_bash_double_quoted(s.drop_last()) + spec_bash_escape_char(s.last())
    }
}

/// Escape for use inside a double-quoted shell string.
pub fn escape_bash_double_quoted(s: &str) -> (r: String)
    ensures
        r@ == spec_escape_bash_double_quoted(s@),
{
    let n = s.unicode_len();
    let mut out = String::new();
    let mut i: usize = 0;
    while i < n
        invariant
            n == s@.len(),
            i <= n,
            out@ == spec_escape_bash_double_quoted(s@.take(i as int)),
        decreases n - i,
    {
        let c = s.get_char(i);
        if c == '\\' {
            out.append("\\\\");
            proof {
                reveal_strlit("\\\\");
                assert("\\\\"@ =~= seq!['\\', '\\']);
            }
        } else if c == '"' {
            out.append("\\\"");
            proof {
                reveal_strlit("\\\"");
                assert("\\\""@ =~= seq!['\\', '"']);
            }
        } else {
            push_char(&mut out, c);
        }
        proof {
            assert(s@.take(i + 1).drop_last() =~= s@.take(i as int));
            assert(out@ =~= spec_escape_bash_double_quoted(s@.take(i + 1)));
        }
        i += 1;
    }
    proof {
        assert(s@.take(n as int) =~= s@);
    }
    out
}

/// The launcher script of an appimage bundle: it finds the newest matching
/// appimage under `bin/` and hands control to it.
pub open spec fn spec_run_sh_appimage(app_name: Seq<char>, pattern: Seq<char>) -> Seq<char> {
    "#!/usr/bin/env bash\n\nAPPIMAGE=\""@ + pattern
        + "\"\n\nset -e\ncd \"$(dirname \"$0\")\"\nlatest=$(ls bin/$APPIMAGE 2>/dev/null | sort -V | tail -1)\nif [[ -z \"$latest\" ]]; then\n  echo \"No "@
        + spec_escape_bash_double_quoted(app_name)
        + " appimage (bin/$APPIMAGE) found in $(pwd)\" >&2\n  exit 1\nfi\nexec \"$(pwd)/bin/$latest\" \"$@\"\n"@
}

/// Generate the launcher-script text for an appimage bundle.
pub fn run_sh_appimage(app_name: &str, appimage_pattern: &str) -> (r: String)
    ensures
        r@ == spec_run_sh_appimage(app_name@, appimage_pattern@),
{
    let name_escaped = escape_bash_double_quoted(app_name);
    let mut out = String::from_str("#!/usr/bin/env bash\n\nAPPIMAGE=\"");
    out.append(appimage_pattern);
    out.append(
        "\"\n\nset -e\ncd \"$(dirname \"$0\")\"\nlatest=$(ls bin/$APPIMAGE 2>/dev/null | sort -V | tail -1)\nif [[ -z \"$latest\" ]]; then\n  echo \"No ",
    );
    out.append(name_escaped.as_str());
    out.append(
        " appimage (bin/$APPIMAGE) found in $(pwd)\" >&2\n  exit 1\nfi\nexec \"$(pwd)/bin/$latest\" \"$@\"\n",
    );
    out
}

/// The generated manifest text of a scaffolded bundle. The executable line
/// differs between the two bundle kinds; appimage bundles also get a launch
/// script comment.
pub open spec fn spec_scaffold_config_toml(
    app_name: Seq<char>,
    comment_line: Seq<char>,
    executable: Seq<char>,
) -> Seq<char> {
    "# dotlnx bundle: "@ + app_name + "\n"@ + comment_line + "\n\nname = \""@
        + spec_escape_bash_double_quoted(app_name) + "\"\nexecutable = \""@ + executable
        + "\"\nicon = \"assets/icon.png\"\n"@
}

/// Build the generated manifest text.
fn scaffold_config_toml(app_name: &str, comment_line: &str, executable: &str) -> (r: String)
    ensures
        r@ == spec_scaffold_config_toml(app_name@, comment_line@, executable@),
{
    let escaped = escape_bash_double_quoted(app_name);
    let mut out = String::from_str("# dotlnx bundle: ");
    out.append(app_name);
    out.append("\n");
    out.append(comment_line);
    out.append("\n\nname = \"");
    out.append(escaped.as_str());
    out.append("\"\nexecutable = \"");
    out.append(executable);
    out.append("\"\nicon = \"assets/icon.png\"\n");
    out
}

/// Why a bundling request was refused.
#[derive(Clone, Copy, Debug, PartialEq, Eq, Structural)]
pub enum BundlerError {
    /// The app name is empty after trimming.
    EmptyName,
    /// The app name fails the safety check.
    Name(NameError),
    /// Exactly one source (an appimage or a plain executable) must be given.
    SourceChoice,
}

/// Everything the caller must create for a new bundle scaffold: the
/// directories, the file to copy in, and the generated file contents.
#[derive(Debug)]
pub struct BundlePlan {
    /// The bundle directory to create: `<output_dir>/<name>.lnx`.
    pub bundle_root: String,
    /// The `bin` directory inside it.
    pub bin_dir: String,
    /// The `assets` directory inside it.
    pub assets_dir: String,
    /// The source file to copy into `bin`, made executable.
    pub source: String,
    /// Where the copy goes.
    pub dest: String,
    /// The launcher script to install as `run.sh`, for appimage bundles.
    pub run_sh: Option<String>,
    /// The manifest text to write as `config.toml`.
    pub config_toml: String,
}

/// The bundle directory name: the trimmed app name with the bundle suffix.
pub open spec fn spec_bundle_dir_name(app_name: Seq<char>) -> Seq<char> {
    spec_trim(app_name) + ".lnx"@
}

/// What the scaffolding decision is: the name must be non-empty and safe,
/// and exactly one source must be given; the plan then fixes every path and
/// file of the scaffold.
pub open spec fn spec_bundler_accepts(
    appname: Seq<char>,
    has_appimage: bool,
    has_bin: bool,
) -> Option<BundlerError> {
    if spec_trim(appname).len() == 0 {
        Some(BundlerError::EmptyName)
    } else {
        match spec_name_error(appname) {
            Some(e) => Some(BundlerError::Name(e)),
            None => if has_appimage == has_bin {
                Some(BundlerError::SourceChoice)
            } else {
                None
            },
        }
    }
}

/// Decide a bundling request: refuse an empty or unsafe name and an
/// ambiguous source, and otherwise plan the whole scaffold — directories,
/// the copied file, the launcher script for an appimage, and the generated
/// manifest.
pub fn run(
    appname: &str,
    appimage: Option<&String>,
    bin: Option<&String>,
    output_dir: &str,
) -> (r: Result<BundlePlan, BundlerError>)
    ensures
        r is Ok <==> spec_bundler_accepts(appname@, appimage is Some, bin is Some) is None,
        r matches Err(e) ==> spec_bundler_accepts(appname@, appimage is Some, bin is Some)
            == Some(e),
        r matches Ok(plan) ==> {
            &&& plan.bundle_root@ == spec_path_join(
                output_dir@,
                spec_bundle_dir_name(appname@),
            )
            &&& plan.bin_dir@ == plan.bundle_root@ + "/bin"@
            &&& plan.assets_dir@ == plan.bundle_root@ + "/assets"@
            &&& (appimage matches Some(src) ==> {
                &&& plan.source@ == src@
                &&& plan.dest@ == plan.bin_dir@ + "/"@ + spec_copied_file_name(
                    src@,
                    "app.appimage"@,
                )
                &&& plan.run_sh matches Some(sh) && sh@ == spec_run_sh_appimage(
                    appname@,
                    spec_derive_appimage_pattern(src@),
                )
                &&& plan.config_toml@ == spec_scaffold_config_toml(
                    appname@,
                    "# bin/ (AppImage copied in). run.sh launches the newest in bin/. Drop icon.png into assets/."@,
                    "run.sh"@,
                )
            })
            &&& (bin matches Some(src) ==> {
                &&& plan.source@ == src@
                &&& plan.dest@ == plan.bin_dir@ + "/"@ + spec_copied_file_name(src@, "run"@)
                &&& plan.run_sh is None
                &&& plan.config_toml@ == spec_scaffold_config_toml(
                    appname@,
                    "# bin/ (script or binary copied in). That file is the executable. Drop icon.png into assets/."@,
                    "bin/"@ + spec_copied_file_name(src@, "run"@),
                )
            })
        },
{
    let trimmed = trim(appname);
    if trimmed.as_str().unicode_len() == 0 {
        return Err(BundlerError::EmptyName);
    }
    if let Err(e) = validate_app_name(appname) {
        return Err(BundlerError::Name(e));
    }
    let (source, is_appimage) = match (appimage, bin) {
        (Some(p), None) => (p, true),
        (None, Some(p)) => (p, false),
        _ => {
            return Err(BundlerError::SourceChoice);
        },
    };
    let mut dir_name = trimmed;
    dir_name.append(".lnx");
    let bundle_root = path_join(output_dir, dir_name.as_str());
    let mut bin_dir = bundle_root.clone();
    bin_dir.append("/bin");
    let mut assets_dir = bundle_root.clone();
    assets_dir.append("/assets");
    let filename = copied_file_name(source.as_str(), if is_appimage {
        "app.appimage"
    } else {
        "run"
    });
    let mut dest = bin_dir.clone();
    dest.append("/");
    dest.append(filename.as_str());
    if is_appimage {
        let pattern = derive_appimage_pattern(source.as_str());
        let run_sh = run_sh_appimage(appname, pattern.as_str());
        let config_toml = scaffold_config_toml(
            appname,
            "# bin/ (AppImage copied in). run.sh launches the newest in bin/. Drop icon.png into assets/.",
            "run.sh",
        );
        Ok(
            BundlePlan {
                bundle_root,
                bin_dir,
                assets_dir,
                source: source.clone(),
                dest,
                run_sh: Some(run_sh),
                config_toml,
            },
        )
    } else {
        let mut executable = String::from_str("bin/");
        executable.append(filename.as_str());
        let config_toml = scaffold_config_toml(
            appname,
            "# bin/ (script or binary copied in). That file is the executable. Drop icon.png into assets/.",
            executable.as_str(),
        );
        Ok(
            BundlePlan {
                bundle_root,
                bin_dir,
                assets_dir,
                source: source.clone(),
                dest,
                run_sh: None,
                config_toml,
            },
        )
    }
}

/// The name the copied file keeps in `bin`: its own file name, or a default
/// when the path yields none.
pub open spec fn spec_copied_file_name(p: Seq<char>, fallback: Seq<char>) -> Seq<char> {
    if spec_file_name(p).len() == 0 {
        fallback
    } else {
        spec_file_name(p)
    }
}

/// Executable mirror of `spec_copied_file_name`.
fn copied_file_name(p: &str, fallback: &str) -> (r: String)
    ensures
        r@ == spec_copied_file_name(p@, fallback@),
{
    let name = file_name_of(p);
    if name.as_str().unicode_len() == 0 {
        String::from_str(fallback)
    } else {
        name
    }
}

} // verus!

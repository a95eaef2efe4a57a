//! Rendering a manifest into confinement-profile text. Author-supplied paths
//! are sanitized and quoted so they cannot break out of the rule grammar.
//! Handing the rendered text to the external profile compiler happens outside
//! this crate.

use vstd::prelude::*;

use crate::config::Config;
use crate::paths::{path_join, spec_path_join};
use crate::text::{
    char_is_ascii_alphanumeric, is_ascii_alphanumeric, prefix_before, push_char,
    spec_prefix_before, spec_trim, trim,
};
use vstd::string::StringExecFns;

verus! {

/// Directory under which generated profiles are stored. Writing there needs
/// elevation.
pub const DOTLNX_APPARMOR_DIR: &'static str = "/etc/apparmor.d/dotlnx.d";

/// A character that ends or breaks a profile rule: newline, carriage return,
/// or the rule-terminating comma.
pub open spec fn is_rule_break_char(c: char) -> bool {
    c == '\n' || c == '\r' || c == ','
}

/// `s` with every rule-breaking character replaced by a space.
pub open spec fn spec_replace_rule_breaks(s: Seq<char>) -> Seq<char> {
    s.map_values(|c: char| if is_rule_break_char(c) { ' ' } else { c })
}

/// What sanitizing an author-supplied profile path yields: everything from
/// the first `#` on is dropped, rule-breaking characters become spaces, and
/// surrounding whitespace is trimmed.
pub open spec fn spec_sanitize_apparmor_path(p: Seq<char>) -> Seq<char> {
    spec_trim(spec_replace_rule_breaks(spec_trim(spec_prefix_before(p, '#'))))
}

/// Sanitize a path for use in a profile rule: strip comments (`#`), and make
/// sure no newline or comma survives (either would break the profile).
pub fn sanitize_apparmor_path(p: &str) -> (r: String)
    ensures
        r@ == spec_sanitize_apparmor_path(p@),
{
    let no_comment = prefix_before(p, '#');
    let trimmed = trim(no_comment.as_str());
    let n = trimmed.as_str().unicode_len();
    let mut replaced = String::new();
    let mut i: usize = 0;
    while i < n
        invariant
            n == trimmed@.len(),
            i <= n,
            replaced@ == spec_replace_rule_breaks(trimmed@.take(i as int)),
        decreases n - i,
    {
        let c = trimmed.as_str().get_char(i);
        if c == '\n' || c == '\r' || c == ',' {
            push_char(&mut replaced, ' ');
        } else {
            push_char(&mut replaced, c);
        }
        proof {
            assert(spec_replace_rule_breaks(trimmed@.take(i + 1))
                =~= spec_replace_rule_breaks(trimmed@.take(i as int)).push(
                if is_rule_break_char(trimmed@[i as int]) {
                    ' '
                } else {
                    trimmed@[i as int]
                }));
        }
        i += 1;
    }
    proof {
        assert(trimmed@.take(n as int) =~= trimmed@);
    }
    trim(replaced.as_str())
}

/// Whether the profile lexer needs the path quoted: it holds a space, tab,
/// quote, or backslash.
pub open spec fn spec_needs_quote(s: Seq<char>) -> bool {
    exists|i: int| 0 <= i < s.len() && is_quote_trigger(s[i])
}

pub open spec fn is_quote_trigger(c: char) -> bool {
    c == ' ' || c == '\t' || c == '"' || c == '\\'
}

/// `s` with backslashes and quotes backslash-escaped.
pub open spec fn spec_quote_escaped(s: Seq<char>) -> Seq<char>
    decreases s.len(),
{
    if s.len() == 0 {
        s
    } else {
        spec_quote_escaped(s.drop_last()) + (if s.last() == '\\' {
            seq!['\\', '\\']
        } else if s.last() == '"' {
            seq!['\\', '"']
        } else {
            seq![s.last()]
        })
    }
}

/// What quoting a path for a profile rule yields: unchanged when no character
/// would break the lexer, otherwise escaped and wrapped in double quotes.
pub open spec fn spec_quote_path(s: Seq<char>) -> Seq<char> {
    if spec_needs_quote(s) {
        seq!['"'] + spec_quote_escaped(s) + seq!['"']
    } else {
        s
    }
}

/// Quote a path for use in a profile file rule if it contains characters that
/// would break the lexer. Rules with embedded spaces or tabs must be quoted.
pub fn quote_path_for_apparmor(path: &str) -> (r: String)
    ensures
        r@ == spec_quote_path(path@),
{
    let n = path.unicode_len();
    let mut needs_quote = false;
    let mut i: usize = 0;
    while i < n
        invariant
            n == path@.len(),
            i <= n,
            needs_quote == exists|j: int| 0 <= j < i && is_quote_trigger(path@[j]),
        decreases n - i,
    {
        let c = path.get_char(i);
        if c == ' ' || c == '\t' || c == '"' || c == '\\' {
            proof {
                assert(is_quote_trigger(path@[i as int]));
            }
            needs_quote = true;
        }
        i += 1;
    }
    if !needs_quote {
        return String::from_str(path);
    }
    let mut escaped = String::new();
    escaped.append("\"");
    proof {
        reveal_strlit("\"");
        assert(path@.take(0) =~= Seq::<char>::empty());
        assert(escaped@ =~= seq!['"'] + spec_quote_escaped(path@.take(0)));
    }
    let mut i: usize = 0;
    while i < n
        invariant
            n == path@.len(),
            i <= n,
            escaped@ == seq!['"'] + spec_quote_escaped(path@.take(i as int)),
        decreases n - i,
    {
        let c = path.get_char(i);
        if c == '\\' {
            escaped.append("\\\\");
            proof {
                reveal_strlit("\\\\");
                assert("\\\\"@ =~= seq!['\\', '\\']);
            }
        } else if c == '"' {
            escaped.append("\\\"");
            proof {
                reveal_strlit("\\\"");
                assert("\\\""@ =~= seq!['\\', '"']);
            }
        } else {
            push_char(&mut escaped, c);
        }
        proof {
            assert(path@.take(i + 1).drop_last() =~= path@.take(i as int));
            assert(escaped@ =~= seq!['"'] + spec_quote_escaped(path@.take(i + 1)));
        }
        i += 1;
    }
    escaped.append("\"");
    proof {
        reveal_strlit("\"");
        assert(path@.take(n as int) =~= path@);
        assert(escaped@ =~= seq!['"'] + spec_quote_escaped(path@) + seq!['"']);
    }
    escaped
}

/// What sanitizing a profile-name segment yields: alphanumerics, `-` and `_`
/// kept, everything else an underscore.
pub open spec fn spec_profile_segment(s: Seq<char>) -> Seq<char> {
    s.map_values(
        |c: char|
            if is_ascii_alphanumeric(c) || c == '-' || c == '_' {
                c
            } else {
                '_'
            },
    )
}

/// Sanitize a segment for use in a profile name (no path separator, no
/// `..`). Keeps alphanumerics, `-`, `_`.
fn sanitize_profile_segment(s: &str) -> (r: String)
    ensures
        r@ == spec_profile_segment(s@),
{
    let n = s.unicode_len();
    let mut out = String::new();
    let mut i: usize = 0;
    while i < n
        invariant
            n == s@.len(),
            i <= n,
            out@ == spec_profile_segment(s@.take(i as int)),
        decreases n - i,
    {
        let c = s.get_char(i);
        if char_is_ascii_alphanumeric(c) || c == '-' || c == '_' {
            push_char(&mut out, c);
        } else {
            push_char(&mut out, '_');
        }
        proof {
            assert(spec_profile_segment(s@.take(i + 1)) =~= spec_profile_segment(
                s@.take(i as int)).push(
                if is_ascii_alphanumeric(s@[i as int]) || s@[i as int] == '-' || s@[i as int]
                    == '_' {
                    s@[i as int]
                } else {
                    '_'
                }));
        }
        i += 1;
    }
    proof {
        assert(s@.take(n as int) =~= s@);
    }
    out
}

/// The profile name for a user-tier app.
pub open spec fn spec_profile_name_user(username: Seq<char>, app_name: Seq<char>) -> Seq<char> {
    "dotlnx-"@ + spec_profile_segment(username) + "-"@ + spec_profile_segment(app_name)
}

/// The profile name for a system-tier app.
pub open spec fn spec_profile_name_system(app_name: Seq<char>) -> Seq<char> {
    "dotlnx-"@ + spec_profile_segment(app_name)
}

/// Profile name for the user tier: `dotlnx-<username>-<name>` (avoids
/// collisions across users). Stable across runs for the same bundle.
pub fn profile_name_user(username: &str, app_name: &str) -> (r: String)
    ensures
        r@ == spec_profile_name_user(username@, app_name@),
{
    let mut out = String::from_str("dotlnx-");
    let u = sanitize_profile_segment(username);
    out.append(u.as_str());
    out.append("-");
    let a = sanitize_profile_segment(app_name);
    out.append(a.as_str());
    proof {
        assert(out@ =~= spec_profile_name_user(username@, app_name@));
    }
    out
}

/// Profile name for the system tier: `dotlnx-<name>`.
pub fn profile_name_system(app_name: &str) -> (r: String)
    ensures
        r@ == spec_profile_name_system(app_name@),
{
    let mut out = String::from_str("dotlnx-");
    let a = sanitize_profile_segment(app_name);
    out.append(a.as_str());
    proof {
        assert(out@ =~= spec_profile_name_system(app_name@));
    }
    out
}

/// Safe profile name for the user tier (use when the name may not have been
/// validated).
pub fn profile_name_safe(username: &str, app_name: &str) -> (r: String)
    ensures
        r@ == spec_profile_name_user(username@, app_name@),
{
    profile_name_user(username, app_name)
}

/// Safe profile name for the system tier.
pub fn profile_name_safe_system(app_name: &str) -> (r: String)
    ensures
        r@ == spec_profile_name_system(app_name@),
{
    profile_name_system(app_name)
}

/// Sanitizing leaves no comment marker, line break, or rule terminator in
/// the path.
pub proof fn lemma_sanitize_no_break(p: Seq<char>)
    ensures
        !spec_sanitize_apparmor_path(p).contains('#'),
        !spec_sanitize_apparmor_path(p).contains('\n'),
        !spec_sanitize_apparmor_path(p).contains('\r'),
        !spec_sanitize_apparmor_path(p).contains(','),
{
    let s0 = spec_prefix_before(p, '#');
    let s1 = spec_trim(s0);
    let s2 = spec_replace_rule_breaks(s1);
    crate::text::lemma_prefix_before_no_stop(p, '#');
    crate::text::lemma_trim_contains(s0, '#');
    assert(!s2.contains('#')) by {
        if s2.contains('#') {
            let i = choose|i: int| 0 <= i < s2.len() && s2[i] == '#';
            assert(s1[i] == '#');
            assert(s1.contains('#'));
        }
    }
    assert(!s2.contains('\n')) by {
        if s2.contains('\n') {
            let i = choose|i: int| 0 <= i < s2.len() && s2[i] == '\n';
        }
    }
    assert(!s2.contains('\r')) by {
        if s2.contains('\r') {
            let i = choose|i: int| 0 <= i < s2.len() && s2[i] == '\r';
        }
    }
    assert(!s2.contains(',')) by {
        if s2.contains(',') {
            let i = choose|i: int| 0 <= i < s2.len() && s2[i] == ',';
        }
    }
    crate::text::lemma_trim_contains(s2, '#');
    crate::text::lemma_trim_contains(s2, '\n');
    crate::text::lemma_trim_contains(s2, '\r');
    crate::text::lemma_trim_contains(s2, ',');
}

/// Escaping introduces only backslashes and quotes; every other character of
/// the result was in the input.
proof fn lemma_quote_escaped_contains(s: Seq<char>, c: char)
    requires
        c != '\\',
        c != '"',
    ensures
        spec_quote_escaped(s).contains(c) ==> s.contains(c),
    decreases s.len(),
{
    if s.len() > 0 {
        lemma_quote_escaped_contains(s.drop_last(), c);
        let piece: Seq<char> = if s.last() == '\\' {
            seq!['\\', '\\']
        } else if s.last() == '"' {
            seq!['\\', '"']
        } else {
            seq![s.last()]
        };
        crate::text::lemma_concat_contains(spec_quote_escaped(s.drop_last()), piece, c);
        if spec_quote_escaped(s).contains(c) {
            if spec_quote_escaped(s.drop_last()).contains(c) {
                let i = choose|i: int| 0 <= i < s.drop_last().len() && s.drop_last()[i] == c;
                assert(s[i] == c);
            } else {
                assert(piece.contains(c));
                let i = choose|i: int| 0 <= i < piece.len() && piece[i] == c;
                assert(s.last() == c);
                assert(s[s.len() - 1] == c);
            }
        }
    }
}

/// Law: however hostile the author-supplied path, its sanitized and quoted
/// form carries no comment marker, no line break, and no rule terminator
/// into the rendered profile, and whenever it holds an embedded space the
/// whole token is wrapped in double quotes.
pub proof fn lemma_security_path_rendering_safe(p: Seq<char>)
    ensures
        !spec_quote_path(spec_sanitize_apparmor_path(p)).contains('#'),
        !spec_quote_path(spec_sanitize_apparmor_path(p)).contains('\n'),
        !spec_quote_path(spec_sanitize_apparmor_path(p)).contains(','),
        spec_quote_path(spec_sanitize_apparmor_path(p)).contains(' ') ==> {
            let q = spec_quote_path(spec_sanitize_apparmor_path(p));
            &&& q.len() >= 2
            &&& q[0] == '"'
            &&& q[q.len() - 1] == '"'
        },
{
    lemma_sanitize_no_break(p);
    let s = spec_sanitize_apparmor_path(p);
    let q = spec_quote_path(s);
    if spec_needs_quote(s) {
        let esc = spec_quote_escaped(s);
        lemma_quote_escaped_contains(s, '#');
        lemma_quote_escaped_contains(s, '\n');
        lemma_quote_escaped_contains(s, ',');
        assert(!seq!['"'].contains('#') && !seq!['"'].contains('\n') && !seq!['"'].contains(
            ',',
        )) by {
            assert(seq!['"'][0] == '"');
        }
        crate::text::lemma_concat_contains(seq!['"'], esc, '#');
        crate::text::lemma_concat_contains(seq!['"'] + esc, seq!['"'], '#');
        crate::text::lemma_concat_contains(seq!['"'], esc, '\n');
        crate::text::lemma_concat_contains(seq!['"'] + esc, seq!['"'], '\n');
        crate::text::lemma_concat_contains(seq!['"'], esc, ',');
        crate::text::lemma_concat_contains(seq!['"'] + esc, seq!['"'], ',');
        assert(q[0] == '"');
        assert(q[q.len() - 1] == '"');
    } else {
        assert(q == s);
        if q.contains(' ') {
            let i = choose|i: int| 0 <= i < s.len() && s[i] == ' ';
            assert(is_quote_trigger(s[i]));
            assert(spec_needs_quote(s));
        }
    }
}

/// The rule emitted for one author-supplied security path: sanitized, quoted,
/// and given the permission; nothing at all when sanitizing leaves the path
/// empty (a broken rule is dropped, not emitted).
pub open spec fn spec_security_path_rule(p: Seq<char>, perm: Seq<char>) -> Seq<char> {
    let s = spec_sanitize_apparmor_path(p);
    if s.len() == 0 {
        Seq::<char>::empty()
    } else {
        "  "@ + spec_quote_path(s) + perm
    }
}

/// The rules emitted for a list of security paths, in order.
pub open spec fn spec_security_path_rules(ps: Seq<Seq<char>>, perm: Seq<char>) -> Seq<char>
    decreases ps.len(),
{
    if ps.len() == 0 {
        Seq::<char>::empty()
    } else {
        spec_security_path_rules(ps.drop_last(), perm) + spec_security_path_rule(
            ps.last(),
            perm,
        )
    }
}

/// The rules emitted for the manifest's security section: one read rule per
/// sanitized read path, one read-write rule per sanitized write path, and the
/// two network stream rules when networking is requested.
pub open spec fn spec_security_rules(cfg: Config) -> Seq<char> {
    match cfg.security {
        Some(sec) => spec_security_path_rules(sec.read_paths.deep_view(), " r,\n"@)
            + spec_security_path_rules(sec.write_paths.deep_view(), " rw,\n"@) + (if sec.network {
            "  network inet stream,\n  network inet6 stream,\n"@
        } else {
            Seq::<char>::empty()
        }),
        None => Seq::<char>::empty(),
    }
}

/// The full confinement-profile text for a bundle: a comment header, the
/// profile block with an execute rule for the bundle's executable, a
/// read-and-map rule for everything under the bundle root, the author's
/// sanitized security rules, and a fixed minimal allowlist of shared system
/// locations.
pub open spec fn spec_generate_profile(
    bundle_root: Seq<char>,
    cfg: Config,
    profile_name: Seq<char>,
) -> Seq<char> {
    "# dotlnx generated profile for "@ + cfg.name@ + "\n#include <tunables/global>\nprofile "@
        + profile_name + " {\n#include <abstractions/base>\n"@ + "  "@ + spec_quote_path(
        spec_path_join(bundle_root, cfg.executable@)) + " ix,\n"@ + "  "@ + spec_quote_path(
        bundle_root + "/**"@) + " rm,\n"@ + spec_security_rules(cfg)
        + "  /usr/lib/** rm,\n  /lib/** rm,\n  /proc/sys/** r,\n  /proc/** r,\n  owner @{HOME}/.config/** rw,\n  owner @{HOME}/.local/share/** rw,\n  /tmp/** rw,\n  /dev/shm/** rw,\n"@
        + "}\n"@
}

/// Append the rules for one list of security paths, each sanitized and
/// quoted; paths that sanitize to nothing are dropped.
fn append_security_path_rules(out: &mut String, ps: &Vec<String>, write: bool)
    ensures
        final(out)@ == old(out)@ + spec_security_path_rules(
            ps.deep_view(),
            if write {
                " rw,\n"@
            } else {
                " r,\n"@
            },
        ),
{
    let ghost perm: Seq<char> = if write {
        " rw,\n"@
    } else {
        " r,\n"@
    };
    let n = ps.len();
    let mut i: usize = 0;
    while i < n
        invariant
            n == ps@.len(),
            i <= n,
            perm == if write {
                " rw,\n"@
            } else {
                " r,\n"@
            },
            out@ == old(out)@ + spec_security_path_rules(ps.deep_view().take(i as int), perm),
        decreases n - i,
    {
        let s = sanitize_apparmor_path(ps[i].as_str());
        if s.as_str().unicode_len() > 0 {
            out.append("  ");
            let q = quote_path_for_apparmor(s.as_str());
            out.append(q.as_str());
            if write {
                out.append(" rw,\n");
            } else {
                out.append(" r,\n");
            }
        }
        proof {
            assert(ps.deep_view().take(i + 1).drop_last() =~= ps.deep_view().take(i as int));
            assert(ps.deep_view().take(i + 1).last() == ps@[i as int]@);
            assert(out@ =~= old(out)@ + spec_security_path_rules(
                ps.deep_view().take(i + 1),
                perm,
            ));
        }
        i += 1;
    }
    proof {
        assert(ps.deep_view().take(n as int) =~= ps.deep_view());
    }
}

/// Generate confinement-profile text from a manifest (bundle path plus
/// security section). `profile_name` is either `dotlnx-<username>-<name>`
/// (user tier) or `dotlnx-<name>` (system tier). Only used when the manifest
/// asks for confinement; when it opts out, no profile is kept.
pub fn generate_profile(bundle_root: &str, config: &Config, profile_name: &str) -> (r: String)
    ensures
        r@ == spec_generate_profile(bundle_root@, *config, profile_name@),
{
    generate_profile_minimal(bundle_root, config, profile_name)
}

/// The minimal profile layout: bundle access, the author's rules, and a
/// fixed allowlist for shared libraries, process metadata, per-user
/// configuration and data, temporary files, and shared memory.
fn generate_profile_minimal(bundle_root: &str, config: &Config, profile_name: &str) -> (r:
    String)
    ensures
        r@ == spec_generate_profile(bundle_root@, *config, profile_name@),
{
    let mut out = String::from_str("# dotlnx generated profile for ");
    out.append(config.name.as_str());
    out.append("\n#include <tunables/global>\nprofile ");
    out.append(profile_name);
    out.append(" {\n#include <abstractions/base>\n");

    // Execute and inherit the bundle's executable.
    let exec_path = path_join(bundle_root, config.executable.as_str());
    out.append("  ");
    let q_exec = quote_path_for_apparmor(exec_path.as_str());
    out.append(q_exec.as_str());
    out.append(" ix,\n");

    // Read and map everything under the bundle root (bundle-local libraries).
    let mut glob = String::from_str(bundle_root);
    glob.append("/**");
    out.append("  ");
    let q_glob = quote_path_for_apparmor(glob.as_str());
    out.append(q_glob.as_str());
    out.append(" rm,\n");

    let ghost head: Seq<char> = out@;
    match config.security {
        Some(ref sec) => {
            append_security_path_rules(&mut out, &sec.read_paths, false);
            append_security_path_rules(&mut out, &sec.write_paths, true);
            if sec.network {
                out.append("  network inet stream,\n  network inet6 stream,\n");
            }
            proof {
                assert(out@ =~= head + spec_security_rules(*config));
            }
        },
        None => {
            proof {
                assert(out@ =~= head + spec_security_rules(*config));
            }
        },
    }

    out.append(
        "  /usr/lib/** rm,\n  /lib/** rm,\n  /proc/sys/** r,\n  /proc/** r,\n  owner @{HOME}/.config/** rw,\n  owner @{HOME}/.local/share/** rw,\n  /tmp/** rw,\n  /dev/shm/** rw,\n",
    );
    out.append("}\n");
    proof {
        assert(out@ =~= spec_generate_profile(bundle_root@, *config, profile_name@));
    }
    out
}

} // verus!

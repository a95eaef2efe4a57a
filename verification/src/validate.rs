//! Bundle validation: name safety, path containment, metadata and security
//! checks. A manifest that fails here never has an artifact installed for it.
//! Filesystem facts (directory-ness, existence, canonical paths) arrive as
//! plain values gathered by the caller.

use vstd::prelude::*;

use crate::bundle::{is_lnx_bundle, spec_is_lnx_bundle};
use crate::config::{Config, ManifestError};
use crate::sync::BundleObservation;
use crate::paths::{path_within, spec_path_within};
use crate::text::{contains_char, contains_control_char, has_control_char};

verus! {

/// Why an app name was rejected.
#[derive(Clone, Copy, Debug, PartialEq, Eq, Structural)]
pub enum NameError {
    /// The name is empty.
    Empty,
    /// The name holds a path separator or `..`.
    Separator,
    /// The name holds `;` or a newline (menu-entry command-line safety).
    Injection,
    /// The name holds a control character.
    Control,
}

/// Why a bundle-relative path was rejected.
#[derive(Clone, Copy, Debug, PartialEq, Eq, Structural)]
pub enum PathError {
    /// The path is empty.
    Empty,
    /// The path is absolute; it must be relative to the bundle.
    Absolute,
    /// The path holds a `..` component.
    ParentDir,
}

/// Why a security path was rejected.
#[derive(Clone, Copy, Debug, PartialEq, Eq, Structural)]
pub enum SecurityPathError {
    /// The path is empty.
    Empty,
    /// The path holds `#`, the profile comment character.
    CommentChar,
    /// The path holds a newline or another control character.
    Control,
    /// The path holds a `..` component; it is used literally in the profile.
    ParentDir,
}

/// Which metadata value was rejected.
#[derive(Clone, Copy, Debug, PartialEq, Eq, Structural)]
pub enum MetadataField {
    Comment,
    Icon,
    Category(usize),
}

/// Why a resolved path failed the containment check against the bundle root.
#[derive(Clone, Copy, Debug, PartialEq, Eq, Structural)]
pub enum ContainmentError {
    /// The bundle root could not be resolved to a real location.
    BundleResolve,
    /// The target could not be resolved to a real location.
    TargetResolve,
    /// The resolved target lies outside the resolved bundle root.
    Outside,
}

/// Why a bundle failed validation, in the order the checks run.
#[derive(Clone, Copy, Debug, PartialEq, Eq, Structural)]
pub enum ValidateError {
    /// The path is not a bundle directory.
    NotLnxBundle,
    /// The manifest was missing or malformed.
    Manifest(ManifestError),
    /// The manifest declares no name.
    NameRequired,
    /// The declared name is unsafe.
    Name(NameError),
    /// The manifest declares no executable.
    ExecutableRequired,
    /// The executable path could escape the bundle.
    ExecutablePath(PathError),
    /// The executable does not exist in the bundle.
    ExecutableNotFound,
    /// The resolved executable escapes the resolved bundle root.
    Containment(ContainmentError),
    /// The working directory could escape the bundle.
    WorkingDir(PathError),
    /// A metadata value holds a control character.
    Metadata(MetadataField),
    /// A read path is unsafe for the profile grammar.
    SecurityRead(usize, SecurityPathError),
    /// A write path is unsafe for the profile grammar.
    SecurityWrite(usize, SecurityPathError),
}

/// Two consecutive dots starting at `i`.
pub open spec fn dot_dot_at(s: Seq<char>, i: int) -> bool {
    0 <= i && i + 2 <= s.len() && s[i] == '.' && s[i + 1] == '.'
}

/// Whether `s` holds `..` anywhere.
pub open spec fn spec_has_dot_dot(s: Seq<char>) -> bool {
    exists|i: int| dot_dot_at(s, i)
}

/// A whole `..` path component starting at `i`: bounded by the string's ends
/// or by `/` on both sides.
pub open spec fn parent_component_at(s: Seq<char>, i: int) -> bool {
    &&& dot_dot_at(s, i)
    &&& (i == 0 || s[i - 1] == '/')
    &&& (i + 2 == s.len() || s[i + 2] == '/')
}

/// Whether `s` holds a `..` path component.
pub open spec fn spec_has_parent_component(s: Seq<char>) -> bool {
    exists|i: int| parent_component_at(s, i)
}

/// Executable mirror of `spec_has_dot_dot`.
fn has_dot_dot(s: &str) -> (r: bool)
    ensures
        r == spec_has_dot_dot(s@),
{
    let n = s.unicode_len();
    if n < 2 {
        return false;
    }
    let mut i: usize = 0;
    while i < n - 1
        invariant
            n == s@.len(),
            2 <= n,
            i <= n - 1,
            forall|j: int| 0 <= j < i ==> !dot_dot_at(s@, j),
        decreases n - i,
    {
        if s.get_char(i) == '.' && s.get_char(i + 1) == '.' {
            assert(dot_dot_at(s@, i as int));
            return true;
        }
        i += 1;
    }
    assert(!spec_has_dot_dot(s@)) by {
        assert(forall|j: int| dot_dot_at(s@, j) ==> 0 <= j < i);
    }
    false
}

/// Executable mirror of `spec_has_parent_component`.
fn has_parent_component(s: &str) -> (r: bool)
    ensures
        r == spec_has_parent_component(s@),
{
    let n = s.unicode_len();
    if n < 2 {
        return false;
    }
    let mut i: usize = 0;
    while i < n - 1
        invariant
            n == s@.len(),
            2 <= n,
            i <= n - 1,
            forall|j: int| 0 <= j < i ==> !parent_component_at(s@, j),
        decreases n - i,
    {
        if s.get_char(i) == '.' && s.get_char(i + 1) == '.' && (i == 0 || s.get_char(i - 1)
            == '/') && (i + 2 == n || s.get_char(i + 2) == '/') {
            assert(parent_component_at(s@, i as int));
            return true;
        }
        i += 1;
    }
    assert(!spec_has_parent_component(s@)) by {
        assert(forall|j: int| parent_component_at(s@, j) ==> 0 <= j < i);
    }
    false
}

/// The first reason to reject an app name, if any: empty, then separators
/// and `..`, then injection characters, then control characters.
pub open spec fn spec_name_error(s: Seq<char>) -> Option<NameError> {
    if s.len() == 0 {
        Some(NameError::Empty)
    } else if s.contains('/') || s.contains('\\') || spec_has_dot_dot(s) {
        Some(NameError::Separator)
    } else if s.contains(';') || s.contains('\n') || s.contains('\r') {
        Some(NameError::Injection)
    } else if has_control_char(s) {
        Some(NameError::Control)
    } else {
        None
    }
}

/// A safe app name: non-empty, no path separator or `..`, no `;`, no
/// newline, no control character.
pub open spec fn spec_valid_app_name(s: Seq<char>) -> bool {
    &&& s.len() > 0
    &&& !s.contains('/')
    &&& !s.contains('\\')
    &&& !spec_has_dot_dot(s)
    &&& !s.contains(';')
    &&& !s.contains('\n')
    &&& !s.contains('\r')
    &&& !has_control_char(s)
}

/// An app name must be safe for profile names and the menu entry's command
/// line: no path separators, no injection characters. A bundle whose name
/// holds `/`, `..`, `;`, or a control character is rejected.
pub fn validate_app_name(name: &str) -> (r: Result<(), NameError>)
    ensures
        r == (match spec_name_error(name@) {
            Some(e) => Err::<(), NameError>(e),
            None => Ok::<(), NameError>(()),
        }),
        r is Ok <==> spec_valid_app_name(name@),
{
    if name.unicode_len() == 0 {
        return Err(NameError::Empty);
    }
    if contains_char(name, '/') || contains_char(name, '\\') || has_dot_dot(name) {
        return Err(NameError::Separator);
    }
    if contains_char(name, ';') || contains_char(name, '\n') || contains_char(name, '\r') {
        return Err(NameError::Injection);
    }
    if contains_control_char(name) {
        return Err(NameError::Control);
    }
    Ok(())
}

/// The first reason a bundle-relative path could escape the bundle, if any.
pub open spec fn spec_path_error(s: Seq<char>) -> Option<PathError> {
    if s.len() == 0 {
        Some(PathError::Empty)
    } else if s[0] == '/' {
        Some(PathError::Absolute)
    } else if spec_has_parent_component(s) {
        Some(PathError::ParentDir)
    } else {
        None
    }
}

/// Reject paths that could escape the bundle: empty, absolute, or holding a
/// `..` component.
pub fn path_stays_in_bundle(relative_path: &str) -> (r: Result<(), PathError>)
    ensures
        r == (match spec_path_error(relative_path@) {
            Some(e) => Err::<(), PathError>(e),
            None => Ok::<(), PathError>(()),
        }),
{
    if relative_path.unicode_len() == 0 {
        return Err(PathError::Empty);
    }
    if relative_path.get_char(0) == '/' {
        return Err(PathError::Absolute);
    }
    if has_parent_component(relative_path) {
        return Err(PathError::ParentDir);
    }
    Ok(())
}

/// Whether a string may be placed in a menu-entry value: control characters
/// would need escaping, so validation rejects them outright for clarity.
pub fn validate_desktop_string(s: &str) -> (ok: bool)
    ensures
        ok <==> !has_control_char(s@),
{
    !contains_control_char(s)
}

/// The first reason to reject a security path, if any: empty, then the
/// comment character, then control characters, then `..` components.
pub open spec fn spec_security_path_error(s: Seq<char>) -> Option<SecurityPathError> {
    if s.len() == 0 {
        Some(SecurityPathError::Empty)
    } else if s.contains('#') {
        Some(SecurityPathError::CommentChar)
    } else if s.contains('\n') || s.contains('\r') || has_control_char(s) {
        Some(SecurityPathError::Control)
    } else if spec_has_parent_component(s) {
        Some(SecurityPathError::ParentDir)
    } else {
        None
    }
}

/// Reject security paths that could break the profile grammar or are
/// ambiguous: `#` starts a comment there, and a `..` is used literally.
pub fn validate_security_path(p: &str) -> (r: Result<(), SecurityPathError>)
    ensures
        r == (match spec_security_path_error(p@) {
            Some(e) => Err::<(), SecurityPathError>(e),
            None => Ok::<(), SecurityPathError>(()),
        }),
{
    if p.unicode_len() == 0 {
        return Err(SecurityPathError::Empty);
    }
    if contains_char(p, '#') {
        return Err(SecurityPathError::CommentChar);
    }
    if contains_char(p, '\n') || contains_char(p, '\r') || contains_control_char(p) {
        return Err(SecurityPathError::Control);
    }
    if has_parent_component(p) {
        return Err(SecurityPathError::ParentDir);
    }
    Ok(())
}

/// What the containment check decides from the two canonicalization
/// outcomes: both paths must resolve and the target must lie at or under
/// the bundle root.
pub open spec fn spec_containment(
    resolved_canon: Option<String>,
    bundle_canon: Option<String>,
) -> Option<ContainmentError> {
    match bundle_canon {
        None => Some(ContainmentError::BundleResolve),
        Some(b) => match resolved_canon {
            None => Some(ContainmentError::TargetResolve),
            Some(t) => if spec_path_within(t@, b@) {
                None
            } else {
                Some(ContainmentError::Outside)
            },
        },
    }
}

/// Ensure a resolved path is under the bundle root. Both paths arrive as
/// canonicalization outcomes (their real filesystem locations, when they
/// have one); requiring a prefix relationship between the canonical forms
/// defeats symlink- and `..`-based escapes even when a textual check was
/// bypassed.
pub fn path_under_bundle(
    resolved_canon: &Option<String>,
    bundle_canon: &Option<String>,
) -> (r: Result<(), ContainmentError>)
    ensures
        r == (match spec_containment(*resolved_canon, *bundle_canon) {
            Some(e) => Err::<(), ContainmentError>(e),
            None => Ok::<(), ContainmentError>(()),
        }),
{
    let b = match bundle_canon {
        Some(b) => b,
        None => {
            return Err(ContainmentError::BundleResolve);
        },
    };
    let t = match resolved_canon {
        Some(t) => t,
        None => {
            return Err(ContainmentError::TargetResolve);
        },
    };
    if path_within(t.as_str(), b.as_str()) {
        Ok(())
    } else {
        Err(ContainmentError::Outside)
    }
}

/// The index of the first item holding a control character, if any.
pub open spec fn spec_first_control(items: Seq<Seq<char>>) -> Option<int>
    decreases items.len(),
{
    if items.len() == 0 {
        None
    } else if has_control_char(items[0]) {
        Some(0)
    } else {
        match spec_first_control(items.drop_first()) {
            Some(i) => Some(i + 1),
            None => None,
        }
    }
}

proof fn lemma_first_control_hit(items: Seq<Seq<char>>, i: int)
    requires
        0 <= i < items.len(),
        has_control_char(items[i]),
        forall|j: int| 0 <= j < i ==> !has_control_char(items[j]),
    ensures
        spec_first_control(items) == Some(i),
    decreases items.len(),
{
    if i > 0 {
        lemma_first_control_hit(items.drop_first(), i - 1);
    }
}

proof fn lemma_first_control_miss(items: Seq<Seq<char>>)
    requires
        forall|j: int| 0 <= j < items.len() ==> !has_control_char(items[j]),
    ensures
        spec_first_control(items) is None,
    decreases items.len(),
{
    if items.len() > 0 {
        lemma_first_control_miss(items.drop_first());
    }
}

/// The index and reason of the first unsafe security path, if any.
pub open spec fn spec_first_bad_security(ps: Seq<Seq<char>>) -> Option<(int, SecurityPathError)>
    decreases ps.len(),
{
    if ps.len() == 0 {
        None
    } else {
        match spec_security_path_error(ps[0]) {
            Some(e) => Some((0, e)),
            None => match spec_first_bad_security(ps.drop_first()) {
                Some((i, e)) => Some((i + 1, e)),
                None => None,
            },
        }
    }
}

proof fn lemma_first_bad_security_hit(ps: Seq<Seq<char>>, i: int, e: SecurityPathError)
    requires
        0 <= i < ps.len(),
        spec_security_path_error(ps[i]) == Some(e),
        forall|j: int| 0 <= j < i ==> spec_security_path_error(ps[j]) is None,
    ensures
        spec_first_bad_security(ps) == Some((i, e)),
    decreases ps.len(),
{
    if i > 0 {
        lemma_first_bad_security_hit(ps.drop_first(), i - 1, e);
    }
}

proof fn lemma_first_bad_security_miss(ps: Seq<Seq<char>>)
    requires
        forall|j: int| 0 <= j < ps.len() ==> spec_security_path_error(ps[j]) is None,
    ensures
        spec_first_bad_security(ps) is None,
    decreases ps.len(),
{
    if ps.len() > 0 {
        lemma_first_bad_security_miss(ps.drop_first());
    }
}

/// The metadata stage: comment, then icon, then each category in order must
/// be free of control characters.
pub open spec fn spec_validate_metadata(cfg: Config) -> Result<(), ValidateError> {
    if (match cfg.comment {
        Some(c) => has_control_char(c@),
        None => false,
    }) {
        Err(ValidateError::Metadata(MetadataField::Comment))
    } else if (match cfg.icon {
        Some(c) => has_control_char(c@),
        None => false,
    }) {
        Err(ValidateError::Metadata(MetadataField::Icon))
    } else {
        match (match cfg.categories {
            Some(cats) => spec_first_control(cats.deep_view()),
            None => None,
        }) {
            Some(i) => Err(ValidateError::Metadata(MetadataField::Category(i as usize))),
            None => Ok(()),
        }
    }
}

/// The security stage: every read path in order, then every write path.
pub open spec fn spec_validate_security(cfg: Config) -> Result<(), ValidateError> {
    match cfg.security {
        None => Ok(()),
        Some(sec) => match spec_first_bad_security(sec.read_paths.deep_view()) {
            Some((i, e)) => Err(ValidateError::SecurityRead(i as usize, e)),
            None => match spec_first_bad_security(sec.write_paths.deep_view()) {
                Some((i, e)) => Err(ValidateError::SecurityWrite(i as usize, e)),
                None => Ok(()),
            },
        },
    }
}

/// What validating a bundle decides, in check order: the directory-name
/// convention, the manifest itself, the name, the executable (textual check,
/// existence, canonical containment), the working directory, the metadata,
/// and the security paths.
pub open spec fn spec_validate_bundle(
    root: Seq<char>,
    m: Result<Config, ManifestError>,
    facts: BundleFacts,
) -> Result<(), ValidateError> {
    if !spec_is_lnx_bundle(root, facts.is_dir) {
        Err(ValidateError::NotLnxBundle)
    } else {
        match m {
            Err(e) => Err(ValidateError::Manifest(e)),
            Ok(cfg) => if cfg.name@.len() == 0 {
                Err(ValidateError::NameRequired)
            } else {
                match spec_name_error(cfg.name@) {
                    Some(e) => Err(ValidateError::Name(e)),
                    None => if cfg.executable@.len() == 0 {
                        Err(ValidateError::ExecutableRequired)
                    } else {
                        match spec_path_error(cfg.executable@) {
                            Some(e) => Err(ValidateError::ExecutablePath(e)),
                            None => if !facts.exec_exists {
                                Err(ValidateError::ExecutableNotFound)
                            } else {
                                match spec_containment(
                                    facts.exec_canonical,
                                    facts.bundle_canonical,
                                ) {
                                    Some(e) => Err(ValidateError::Containment(e)),
                                    None => match (match cfg.working_dir {
                                        Some(wd) => spec_path_error(wd@),
                                        None => None,
                                    }) {
                                        Some(e) => Err(ValidateError::WorkingDir(e)),
                                        None => match spec_validate_metadata(cfg) {
                                            Err(e) => Err(e),
                                            Ok(()) => spec_validate_security(cfg),
                                        },
                                    },
                                }
                            },
                        }
                    },
                }
            },
        }
    }
}

/// Filesystem facts about one discovered bundle, gathered by the caller
/// before validation.
pub struct BundleFacts {
    /// Whether the bundle path is a directory.
    pub is_dir: bool,
    /// Whether the executable named by the manifest exists in the bundle.
    pub exec_exists: bool,
    /// The bundle root's real location, when it resolves to one.
    pub bundle_canonical: Option<String>,
    /// The executable path's real location, when it resolves to one.
    pub exec_canonical: Option<String>,
}

/// Validate a single bundle: the directory-name convention, the manifest,
/// the declared name, the executable and working-directory containment, the
/// metadata strings, and the security paths, in that order. The first
/// failure is reported; a bundle that passes has everything checked.
#[verifier::loop_isolation(false)]
pub fn validate_bundle(
    bundle_root: &str,
    manifest: &Result<Config, ManifestError>,
    facts: &BundleFacts,
) -> (r: Result<(), ValidateError>)
    ensures
        r == spec_validate_bundle(bundle_root@, *manifest, *facts),
{
    if !is_lnx_bundle(bundle_root, facts.is_dir) {
        return Err(ValidateError::NotLnxBundle);
    }
    let cfg = match manifest {
        Ok(c) => c,
        Err(e) => {
            return Err(ValidateError::Manifest(*e));
        },
    };
    if cfg.name.as_str().unicode_len() == 0 {
        return Err(ValidateError::NameRequired);
    }
    if let Err(e) = validate_app_name(cfg.name.as_str()) {
        return Err(ValidateError::Name(e));
    }
    if cfg.executable.as_str().unicode_len() == 0 {
        return Err(ValidateError::ExecutableRequired);
    }
    if let Err(e) = path_stays_in_bundle(cfg.executable.as_str()) {
        return Err(ValidateError::ExecutablePath(e));
    }
    if !facts.exec_exists {
        return Err(ValidateError::ExecutableNotFound);
    }
    if let Err(e) = path_under_bundle(&facts.exec_canonical, &facts.bundle_canonical) {
        return Err(ValidateError::Containment(e));
    }
    if let Some(ref wd) = cfg.working_dir {
        if let Err(e) = path_stays_in_bundle(wd.as_str()) {
            return Err(ValidateError::WorkingDir(e));
        }
    }
    if let Some(ref comment) = cfg.comment {
        if !validate_desktop_string(comment.as_str()) {
            return Err(ValidateError::Metadata(MetadataField::Comment));
        }
    }
    if let Some(ref icon) = cfg.icon {
        if !validate_desktop_string(icon.as_str()) {
            return Err(ValidateError::Metadata(MetadataField::Icon));
        }
    }
    if let Some(ref cats) = cfg.categories {
        let n = cats.len();
        let mut i: usize = 0;
        while i < n
            invariant
                n == cats@.len(),
                i <= n,
                forall|j: int| 0 <= j < i ==> !has_control_char(cats.deep_view()[j]),
            decreases n - i,
        {
            if !validate_desktop_string(cats[i].as_str()) {
                proof {
                    lemma_first_control_hit(cats.deep_view(), i as int);
                }
                return Err(ValidateError::Metadata(MetadataField::Category(i)));
            }
            i += 1;
        }
        proof {
            lemma_first_control_miss(cats.deep_view());
        }
    }
    if let Some(ref sec) = cfg.security {
        if let Some((i, e)) = first_bad_security_path(&sec.read_paths) {
            return Err(ValidateError::SecurityRead(i, e));
        }
        if let Some((i, e)) = first_bad_security_path(&sec.write_paths) {
            return Err(ValidateError::SecurityWrite(i, e));
        }
    }
    Ok(())
}

/// Why validating a path of bundles failed.
#[derive(Clone, Copy, Debug, PartialEq, Eq, Structural)]
pub enum ValidateRunError {
    /// The path does not exist.
    PathMissing,
    /// The path is neither a bundle nor a directory that could hold some.
    NotBundleOrDir,
    /// Nothing bundle-shaped was found at the path.
    NoBundles,
    /// A bundle failed validation.
    Bundle(usize, ValidateError),
}

/// The first observed bundle that fails validation, if any.
pub open spec fn spec_first_invalid(bs: Seq<BundleObservation>) -> Option<(int, ValidateError)>
    decreases bs.len(),
{
    if bs.len() == 0 {
        None
    } else {
        match spec_validate_bundle(bs[0].path@, bs[0].manifest, bs[0].facts) {
            Err(e) => Some((0, e)),
            Ok(()) => match spec_first_invalid(bs.drop_first()) {
                Some((i, e)) => Some((i + 1, e)),
                None => None,
            },
        }
    }
}

proof fn lemma_first_invalid_hit(bs: Seq<BundleObservation>, i: int, e: ValidateError)
    requires
        0 <= i < bs.len(),
        spec_validate_bundle(bs[i].path@, bs[i].manifest, bs[i].facts) == Err::<(),
            ValidateError>(e),
        forall|j: int| 0 <= j < i ==> spec_validate_bundle(
            (#[trigger] bs[j]).path@,
            bs[j].manifest,
            bs[j].facts,
        ) is Ok,
    ensures
        spec_first_invalid(bs) == Some((i, e)),
    decreases bs.len(),
{
    if i > 0 {
        lemma_first_invalid_hit(bs.drop_first(), i - 1, e);
    }
}

proof fn lemma_first_invalid_miss(bs: Seq<BundleObservation>)
    requires
        forall|j: int| 0 <= j < bs.len() ==> spec_validate_bundle(
            (#[trigger] bs[j]).path@,
            bs[j].manifest,
            bs[j].facts,
        ) is Ok,
    ensures
        spec_first_invalid(bs) is None,
    decreases bs.len(),
{
    if bs.len() > 0 {
        lemma_first_invalid_miss(bs.drop_first());
    }
}

/// What validating a path decides: the path must exist and be a directory
/// (a bundle, or one that could hold bundles), something bundle-shaped must
/// be there, and every observed bundle must validate; the first failure is
/// reported with its position.
pub open spec fn spec_validate_run(
    path_exists: bool,
    path_is_dir: bool,
    bs: Seq<BundleObservation>,
) -> Result<(), ValidateRunError> {
    if !path_exists {
        Err(ValidateRunError::PathMissing)
    } else if !path_is_dir {
        Err(ValidateRunError::NotBundleOrDir)
    } else if bs.len() == 0 {
        Err(ValidateRunError::NoBundles)
    } else {
        match spec_first_invalid(bs) {
            Some((i, e)) => Err(ValidateRunError::Bundle(i as usize, e)),
            None => Ok(()),
        }
    }
}

/// Validate one or more bundles observed at a path (the path can be a
/// bundle, or a directory holding bundles).
#[verifier::loop_isolation(false)]
pub fn run(path_exists: bool, path_is_dir: bool, bundles: &Vec<BundleObservation>) -> (r:
    Result<(), ValidateRunError>)
    ensures
        r == spec_validate_run(path_exists, path_is_dir, bundles@),
{
    if !path_exists {
        return Err(ValidateRunError::PathMissing);
    }
    if !path_is_dir {
        return Err(ValidateRunError::NotBundleOrDir);
    }
    let n = bundles.len();
    if n == 0 {
        return Err(ValidateRunError::NoBundles);
    }
    let mut i: usize = 0;
    while i < n
        invariant
            i <= n,
            forall|j: int| 0 <= j < i ==> spec_validate_bundle(
                (#[trigger] bundles@[j]).path@,
                bundles@[j].manifest,
                bundles@[j].facts,
            ) is Ok,
        decreases n - i,
    {
        let b = &bundles[i];
        if let Err(e) = validate_bundle(b.path.as_str(), &b.manifest, &b.facts) {
            proof {
                lemma_first_invalid_hit(bundles@, i as int, e);
            }
            return Err(ValidateRunError::Bundle(i, e));
        }
        i += 1;
    }
    proof {
        lemma_first_invalid_miss(bundles@);
    }
    Ok(())
}

/// Law: a bundle that validates has a manifest whose name passes the
/// injection-safety check (so a name holding `/`, `..`, `;`, or a control
/// character is always rejected), whose executable is relative and free of
/// `..` components, and whose resolved executable lies inside the resolved
/// bundle root — an executable set to a climbing path is never accepted.
pub proof fn lemma_validated_bundle_is_safe(
    root: Seq<char>,
    m: Result<Config, ManifestError>,
    facts: BundleFacts,
)
    requires
        spec_validate_bundle(root, m, facts) is Ok,
    ensures
        m is Ok,
        spec_valid_app_name(m->Ok_0.name@),
        spec_path_error(m->Ok_0.executable@) is None,
        spec_containment(facts.exec_canonical, facts.bundle_canonical) is None,
{
}

/// Scan a security-path list in order for the first unsafe entry.
fn first_bad_security_path(ps: &Vec<String>) -> (r: Option<(usize, SecurityPathError)>)
    ensures
        match r {
            Some((i, e)) => spec_first_bad_security(ps.deep_view()) == Some((i as int, e)),
            None => spec_first_bad_security(ps.deep_view()) is None,
        },
{
    let n = ps.len();
    let mut i: usize = 0;
    while i < n
        invariant
            n == ps@.len(),
            i <= n,
            forall|j: int| 0 <= j < i ==> spec_security_path_error(ps.deep_view()[j]) is None,
        decreases n - i,
    {
        if let Err(e) = validate_security_path(ps[i].as_str()) {
            proof {
                lemma_first_bad_security_hit(ps.deep_view(), i as int, e);
            }
            return Some((i, e));
        }
        i += 1;
    }
    proof {
        lemma_first_bad_security_miss(ps.deep_view());
    }
    None
}

} // verus!

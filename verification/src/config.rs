//! The manifest data model: a bundle's run configuration and its optional
//! security section. Reading the manifest file off disk and decoding the TOML
//! document happen outside this crate; the decoded plain values arrive here.

use vstd::prelude::*;

verus! {

/// A bundle's manifest (its `config.toml`), as plain values.
pub struct Config {
    /// Required: the app name, used for the menu entry and the profile name.
    pub name: String,
    /// Required: the executable path, relative to the bundle root.
    pub executable: String,
    /// Arguments to pass to the executable.
    pub args: Vec<String>,
    /// Environment entries, each a `KEY=VALUE` string.
    pub env: Vec<String>,
    /// Working directory, relative to the bundle root.
    pub working_dir: Option<String>,
    /// Menu metadata: icon name or bundle-relative icon path.
    pub icon: Option<String>,
    /// Menu metadata: a one-line description.
    pub comment: Option<String>,
    /// Menu metadata: category names.
    pub categories: Option<Vec<String>>,
    /// When true the menu entry asks for a terminal.
    pub terminal: bool,
    /// The optional security section.
    pub security: Option<Security>,
}

/// The `[security]` section: what the app may touch when confined.
pub struct Security {
    /// When false the app runs unconfined and any previously installed
    /// profile is removed. Defaults to true.
    pub confine: bool,
    /// Paths or globs the app may read, copied into the profile.
    pub read_paths: Vec<String>,
    /// Paths or globs the app may read and write, copied into the profile.
    pub write_paths: Vec<String>,
    /// Whether the app may open network streams.
    pub network: bool,
    /// Reserved for future capability rules.
    pub capabilities: Vec<String>,
}

/// The default of the `confine` flag: bundles are confined unless they opt
/// out.
pub fn default_confine() -> (r: bool)
    ensures
        r == true,
{
    true
}

impl Default for Security {
    /// An absent security section behaves as this default: confined, with
    /// nothing extra allowed.
    fn default() -> (r: Security)
        ensures
            r.confine == true,
            r.read_paths@.len() == 0,
            r.write_paths@.len() == 0,
            r.network == false,
            r.capabilities@.len() == 0,
    {
        Security {
            confine: true,
            read_paths: Vec::new(),
            write_paths: Vec::new(),
            network: false,
            capabilities: Vec::new(),
        }
    }
}

/// Whether the manifest asks for confinement: the security section's
/// `confine` flag, true when the section is absent.
pub open spec fn spec_confine(c: &Config) -> bool {
    match c.security {
        Some(ref s) => s.confine,
        None => true,
    }
}

impl Config {
    /// Executable mirror of `spec_confine`.
    pub fn confine_requested(&self) -> (r: bool)
        ensures
            r == spec_confine(self),
    {
        match self.security {
            Some(ref s) => s.confine,
            None => true,
        }
    }
}

/// Why a manifest could not be turned into a `Config`: the file was missing,
/// or it did not decode as a well-formed manifest document.
#[derive(Clone, Copy, Debug, PartialEq, Eq, Structural)]
pub enum ManifestError {
    Missing,
    Malformed,
}

} // verus!

//! dotlnx keeps a machine's launcher menu and confinement state in step with
//! self-contained application bundles (directories whose name ends in `.lnx`)
//! dropped into well-known folders.
//!
//! This crate holds the synchronization and confinement-generation engine:
//! manifest validation, safe rendering of confinement-profile and menu-entry
//! text from untrusted manifest data, tier resolution, and the reconciliation
//! pass. Everything here is pure: filesystem facts come in as plain values and
//! plans for filesystem actions go out, so the whole engine is verified.

pub mod apparmor;
pub mod bundle;
pub mod bundler;
pub mod config;
pub mod desktop;
pub mod launch;
pub mod paths;
pub mod sync;
pub mod text;
pub mod uninstall;
pub mod validate;

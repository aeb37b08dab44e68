//! Release packaging for the Arch User Repository.
//!
//! From a project's package metadata this crate derives everything that a
//! binary release needs: which files go into the release archive and under
//! what name, the digest of that archive, and the text of the `PKGBUILD`
//! recipe that downloads, checks and installs it. All of it is computed on
//! plain values; reading the manifest, compiling, and writing files are left
//! to the caller.

pub mod args;
pub mod dist;
pub mod error;
pub mod license;
pub mod metadata;
pub mod pkgbuild;
pub mod run;
pub mod sha256;
pub mod text;

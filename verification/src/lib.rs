//! Rules and planning for replacing an installed `rust-analyzer` binary with
//! the latest published release.
//!
//! The crate decides and computes; it runs no program, sends no request and
//! touches no file. A caller carries out the steps that [`workflow`] names
//! and reports how each one ended.
//!
//! - [`platform`]: from the platform identifier to the suffix of asset names.
//! - [`version`]: the version in the output of `rust-analyzer --version`.
//! - [`release`]: release metadata and the choice of the asset to install.
//! - [`request`]: the metadata request and the download request.
//! - [`install`]: the install path and the path of the archived predecessor.
//! - [`workflow`]: the order of the steps and what follows each outcome.
//! - [`text`]: the string operations that the other modules share.

pub mod install;
pub mod platform;
pub mod release;
pub mod request;
pub mod text;
pub mod version;
pub mod workflow;

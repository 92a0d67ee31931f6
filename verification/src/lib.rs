//! Resolving, naming and tracking the download of one package release.
//!
//! A manifest describes a package and the URL template of its releases. From a manifest and
//! an optional requirement on the version, this library resolves the version to download and
//! its URL ([`version`], [`template`]), derives the local file names from the URL
//! ([`paths`]), follows the bytes as they arrive ([`progress`]), and decides at each step
//! of the download what comes next and what the download comes to ([`download`]).
//!
//! The library touches neither network nor disk: its caller does, step by step, as
//! [`download`] describes.

pub mod download;
pub mod error;
pub mod manifest;
pub mod paths;
pub mod progress;
pub mod template;
pub mod text;
pub mod version;

pub use crate::download::download;
pub use crate::download::DownloadInfo;
pub use crate::error::DownloadError;
pub use crate::manifest::Manifest;
pub use crate::manifest::Package;
pub use crate::version::Version;
pub use crate::version::VersionReq;

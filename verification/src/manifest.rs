//! The description of one package: what it is, and where its releases are downloaded from.

use crate::version::known_of;
use crate::version::view_of;
use crate::version::Version;
use crate::version::VersionView;
use vstd::prelude::*;

verus! {

/// The identity of a package.
#[derive(Clone, Debug, PartialEq, Eq)]
pub struct Package {
    pub name: String,
}

/// Where a package is downloaded from.
#[derive(Clone, Debug, PartialEq, Eq)]
pub struct Download {
    /// The URL of a release, with `{version}` wherever the version is to stand.
    pub url: String,
    /// The version to download where no known version is chosen.
    pub version: Option<Version>,
}

/// The manifest of one package.
#[derive(Clone, Debug, PartialEq, Eq)]
pub struct Manifest {
    pub package: Package,
    pub download: Download,
    /// The versions that are known to exist, if they are known.
    pub versions: Option<Vec<Version>>,
}

impl Manifest {
    /// The known versions, as plain values.
    pub open spec fn known(&self) -> Option<Seq<VersionView>> {
        known_of(self.versions)
    }

    /// The pinned version, as a plain value.
    pub open spec fn pinned(&self) -> Option<VersionView> {
        view_of(self.download.version)
    }
}

} // verus!

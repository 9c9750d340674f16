//! Failures of a conversion.
use vstd::prelude::*;

verus! {

#[derive(Debug, Clone, PartialEq, Eq)]
pub enum ConvertError {
    /// The lockfile has no environment of this name.
    EnvironmentNotFound(String),
    /// The selected environment is not locked for this platform.
    PlatformNotFound(String),
    /// A package of another ecosystem than conda, named here, was met without the override.
    UnsupportedPackageKind(String),
    /// The conda package named here carries no MD5 digest.
    MissingDigest(String),
    /// An explicit spec without a platform.
    NoPlatform,
}

} // verus!

use vstd::prelude::*;

verus! {

/// Every failure the build pipeline can report.
///
/// Each variant names one distinct terminal condition; a workflow run ends
/// with at most one of them.  Configuration problems carry the offending
/// name or value so the message can point at it.
#[derive(Debug, PartialEq, Eq)]
pub enum BuildError {
    /// A package was requested by name but the project does not contain it.
    PackageNotFound(String),
    /// No package was requested and the project has no root package.
    NoPackage,
    /// A configuration block contains a field the schema does not know.
    UnknownConfigField(String),
    /// A known configuration field holds a value of the wrong type.
    InvalidConfigField(String),
    /// A device reported an ABI string outside the supported set.
    UnknownAbi(String),
    /// A requested compilation triple is outside the supported set.
    UnsupportedTarget(String),
    /// No explicit target was given and none could be inferred.
    TargetNotSpecified,
    /// The install flow needs a device but none is attached.
    NoDevice,
    /// The install flow needs exactly one device; more are attached.
    MultipleDevices(usize),
    /// The device bridge tool is not installed.
    BridgeNotInstalled,
    /// The cross-compilation tool is not installed.
    CompilerNotInstalled,
    /// The compiler stream ended without an artifact for the package.
    ArtifactNotGenerated,
    /// The captured artifact has no shared-library output.
    NoSharedLibrary,
    /// The shared-library path the compiler reported is not absolute, so
    /// it cannot be re-rooted under the workspace.
    LibraryPathNotAbsolute(String),
    /// The platform resource is not cached and the run is offline.
    SdkOfflineMissing,
    /// The signing key text could not be parsed; the payload is the
    /// parser's message.
    InvalidSigningKey(String),
    /// A container-writer step failed; the payload is its message.
    PackagingFailed(String),
    /// The bridge reported a failing exit status for the install.
    InstallFailed,
}

} // verus!

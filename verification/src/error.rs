//! The failure categories of workspace inspection, target resolution,
//! plan construction and plan execution.

use vstd::prelude::*;
use vstd::string::StringExecFns;

verus! {

/// One failure category per way an invocation can end unsuccessfully.
#[derive(Debug, Clone)]
pub enum Error {
    /// An input/output failure, with its description.
    Io { message: String },
    /// An input/output failure tied to a path.
    PathIo { path: String, message: String },
    /// A manifest could not be parsed as TOML.
    Toml { message: String },
    /// More than one target-selection flag was given.
    MultipleTargetsFlagsSpecified,
    /// The build subprocess exited with failure.
    CargoBuildFailed,
    /// No binary target was discovered and none was requested.
    NoBinaryFound,
    /// Several binaries and no default; carries ready-to-paste suggestions.
    BinaryToRunNotDetermined { suggestions: String },
    /// The project manifest could not be located.
    CargoLocateProjectFailed,
    /// The resolved artifact path does not exist.
    BinaryNotFound { path: String },
    /// The named package is not a member of the workspace.
    PackageNotFound { name: String },
    /// The profiler program is not installed or not on the search path.
    SamplyNotFound,
    /// The toolchain sysroot query failed.
    RustSysrootFailed { message: String },
    /// The toolchain host-target query failed.
    RustHostTargetFailed { message: String },
}

/// The user-facing description of each error.
pub open spec fn spec_message(e: Error) -> Seq<char> {
    match e {
        Error::Io { message } => message@,
        Error::PathIo { path, message } => path@ + ": "@ + message@,
        Error::Toml { message } => message@,
        Error::MultipleTargetsFlagsSpecified => (
        "Target selection flags (--bin, --example, --bench, --test) are mutually exclusive")@,
        Error::CargoBuildFailed => "Build failed"@,
        Error::NoBinaryFound => "No binary found in 'Cargo.toml'"@,
        Error::BinaryToRunNotDetermined { suggestions } => (
        "The binary to run can't be determined. Use the `--bin` option to specify a binary, or the `default-run` manifest key.")@
            + suggestions@,
        Error::CargoLocateProjectFailed => "Failed to locate project"@,
        Error::BinaryNotFound { path } => "Binary not found: "@ + path@,
        Error::PackageNotFound { name } => "Package '"@ + name@ + "' not found in workspace"@,
        Error::SamplyNotFound => "samply is not installed or not in PATH"@,
        Error::RustSysrootFailed { message } => message@,
        Error::RustHostTargetFailed { message } => message@,
    }
}

impl Error {
    /// The user-facing description of this error.
    pub fn message(&self) -> (r: String)
        ensures
            r@ == spec_message(*self),
    {
        match self {
            Error::Io { message } => message.clone(),
            Error::PathIo { path, message } => {
                let mut s = path.clone();
                s.append(": ");
                s.append(message.as_str());
                s
            },
            Error::Toml { message } => message.clone(),
            Error::MultipleTargetsFlagsSpecified => String::from_str(
                "Target selection flags (--bin, --example, --bench, --test) are mutually exclusive",
            ),
            Error::CargoBuildFailed => String::from_str("Build failed"),
            Error::NoBinaryFound => String::from_str("No binary found in 'Cargo.toml'"),
            Error::BinaryToRunNotDetermined { suggestions } => {
                let mut s = String::from_str(
                    "The binary to run can't be determined. Use the `--bin` option to specify a binary, or the `default-run` manifest key.",
                );
                s.append(suggestions.as_str());
                s
            },
            Error::CargoLocateProjectFailed => String::from_str("Failed to locate project"),
            Error::BinaryNotFound { path } => {
                let mut s = String::from_str("Binary not found: ");
                s.append(path.as_str());
                s
            },
            Error::PackageNotFound { name } => {
                let mut s = String::from_str("Package '");
                s.append(name.as_str());
                s.append("' not found in workspace");
                s
            },
            Error::SamplyNotFound => String::from_str("samply is not installed or not in PATH"),
            Error::RustSysrootFailed { message } => message.clone(),
            Error::RustHostTargetFailed { message } => message.clone(),
        }
    }
}

} // verus!

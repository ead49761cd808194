//! The errors that the commands report. Causes that come from the operating
//! system or from a parser are carried as their rendered text.
use crate::text::{concat2, concat3, decimal, decimal_text, owned};
use vstd::prelude::*;

verus! {

#[derive(Debug, Clone)]
pub enum OhosAppError {
    /// An operating-system error on the given path.
    Io { path: String, message: String },
    /// A free-form message.
    Message(String),
    MissingFile { path: String },
    ConfigRead { path: String, message: String },
    ConfigParse { path: String, message: String },
    CommandSpawn { program: String, cwd: String, message: String },
    CommandFailed { program: String, cwd: String, code: Option<i32> },
    MissingLibraryTarget { manifest_path: String },
    MissingSdkRoot { path: String },
    MissingSdkVersion { path: String },
    NoSdkVersionsFound { root: String },
    UnsupportedTarget { target: String },
    PackageArtifactNotFound { search_root: String },
    /// `cargo metadata` could not be run or read.
    Metadata(String),
    /// Writing to the output stream failed.
    Output(String),
}

/// The former name of the error type.
pub type HarmonyAppError = OhosAppError;

pub type AppResult<T> = core::result::Result<T, OhosAppError>;

/// The text that reports an error to the user.
pub open spec fn describe_text(e: OhosAppError) -> Seq<char> {
    match e {
        OhosAppError::Io { path, message } => "I/O error at ["@ + path@ + "]: "@ + message@,
        OhosAppError::Message(message) => message@,
        OhosAppError::MissingFile { path } => "required file does not exist: ["@ + path@ + "]"@,
        OhosAppError::ConfigRead { path, message } => "failed to read config ["@ + path@ + "]: "@ + message@,
        OhosAppError::ConfigParse { path, message } => "failed to parse config ["@ + path@ + "]: "@ + message@,
        OhosAppError::CommandSpawn { program, cwd, message } => "failed to start ["@ + program@ + "] in ["@ + cwd@
            + "]: "@ + message@,
        OhosAppError::CommandFailed { program, cwd, code } => match code {
            Some(c) => "command ["@ + program@ + "] failed in ["@ + cwd@ + "] with exit code "@ + decimal(c as int),
            None => "command ["@ + program@ + "] failed in ["@ + cwd@ + "]"@,
        },
        OhosAppError::MissingLibraryTarget { manifest_path } => "no library target found in ["@ + manifest_path@
            + "]"@,
        OhosAppError::MissingSdkRoot { path } => "OpenHarmony SDK root does not exist: ["@ + path@ + "]"@,
        OhosAppError::MissingSdkVersion { path } => "OpenHarmony SDK version does not exist: ["@ + path@ + "]"@,
        OhosAppError::NoSdkVersionsFound { root } => "no OpenHarmony SDK versions found under ["@ + root@ + "]"@,
        OhosAppError::UnsupportedTarget { target } => "unsupported OHOS target ["@ + target@ + "]"@,
        OhosAppError::PackageArtifactNotFound { search_root } => "no package artifact found under ["@
            + search_root@ + "]"@,
        OhosAppError::Metadata(message) => "cargo metadata failed: "@ + message@,
        OhosAppError::Output(message) => "failed to write output: "@ + message@,
    }
}

impl OhosAppError {
    /// The text that reports this error to the user.
    pub fn describe(&self) -> (res: String)
        ensures
            res@ == describe_text(*self),
    {
        match self {
            OhosAppError::Io { path, message } => {
                let head = concat3("I/O error at [", path.as_str(), "]: ");
                concat2(head.as_str(), message.as_str())
            },
            OhosAppError::Message(message) => owned(message.as_str()),
            OhosAppError::MissingFile { path } => concat3("required file does not exist: [", path.as_str(), "]"),
            OhosAppError::ConfigRead { path, message } => {
                let head = concat3("failed to read config [", path.as_str(), "]: ");
                concat2(head.as_str(), message.as_str())
            },
            OhosAppError::ConfigParse { path, message } => {
                let head = concat3("failed to parse config [", path.as_str(), "]: ");
                concat2(head.as_str(), message.as_str())
            },
            OhosAppError::CommandSpawn { program, cwd, message } => {
                let head = concat3("failed to start [", program.as_str(), "] in [");
                let mid = concat3(head.as_str(), cwd.as_str(), "]: ");
                concat2(mid.as_str(), message.as_str())
            },
            OhosAppError::CommandFailed { program, cwd, code } => {
                let head = concat3("command [", program.as_str(), "] failed in [");
                let place = concat2(head.as_str(), cwd.as_str());
                match code {
                    Some(c) => {
                        let number = decimal_text(*c);
                        concat3(place.as_str(), "] with exit code ", number.as_str())
                    },
                    None => concat2(place.as_str(), "]"),
                }
            },
            OhosAppError::MissingLibraryTarget { manifest_path } => concat3(
                "no library target found in [",
                manifest_path.as_str(),
                "]",
            ),
            OhosAppError::MissingSdkRoot { path } => concat3("OpenHarmony SDK root does not exist: [", path.as_str(), "]"),
            OhosAppError::MissingSdkVersion { path } => concat3(
                "OpenHarmony SDK version does not exist: [",
                path.as_str(),
                "]",
            ),
            OhosAppError::NoSdkVersionsFound { root } => concat3(
                "no OpenHarmony SDK versions found under [",
                root.as_str(),
                "]",
            ),
            OhosAppError::UnsupportedTarget { target } => concat3("unsupported OHOS target [", target.as_str(), "]"),
            OhosAppError::PackageArtifactNotFound { search_root } => concat3(
                "no package artifact found under [",
                search_root.as_str(),
                "]",
            ),
            OhosAppError::Metadata(message) => concat2("cargo metadata failed: ", message.as_str()),
            OhosAppError::Output(message) => concat2("failed to write output: ", message.as_str()),
        }
    }
}

} // verus!

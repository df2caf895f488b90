//! The ways in which the runner refuses or fails a request.
use vstd::prelude::*;

verus! {

/// An error of the runner.
#[derive(Debug, Clone, PartialEq, Eq)]
pub enum NowError {
    /// `now init` found a `.now.yaml` already.
    ConfigExists,
    /// `now shell` was given a selector of an unknown toolchain.
    UnknownToolchain { selector: String },
    /// A configured step that runs in a container names no image.
    MissingStepImage,
    /// The daemon reported an error while pulling an image.
    PullFailed { image: String, detail: String },
    /// The container's wait stream ended without an exit status.
    NoExitStatus,
}

/// The message of an error, as the user reads it.
pub open spec fn spec_message(e: NowError) -> Seq<char> {
    match e {
        NowError::ConfigExists => ".now.yaml already exists"@,
        NowError::UnknownToolchain { selector } => "unknown toolchain selector: "@ + selector@,
        NowError::MissingStepImage => "container steps require an image"@,
        NowError::PullFailed { image, detail } => "failed to pull "@ + image@ + ": "@ + detail@,
        NowError::NoExitStatus => "container exited before Docker returned a status"@,
    }
}

impl NowError {
    /// The message of the error, as the user reads it.
    pub fn message(&self) -> (r: String)
        ensures
            r@ == spec_message(*self),
    {
        match self {
            NowError::ConfigExists => String::from_str(".now.yaml already exists"),
            NowError::UnknownToolchain { selector } => String::from_str(
                "unknown toolchain selector: ",
            ).concat(selector.as_str()),
            NowError::MissingStepImage => String::from_str("container steps require an image"),
            NowError::PullFailed { image, detail } => String::from_str("failed to pull ").concat(
                image.as_str(),
            ).concat(": ").concat(detail.as_str()),
            NowError::NoExitStatus => String::from_str(
                "container exited before Docker returned a status",
            ),
        }
    }
}

} // verus!

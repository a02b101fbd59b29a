//! The error taxonomy of the supervisor, with the exact user-facing
//! message of each case.

use vstd::prelude::*;
use crate::paths::file_name_of;
use crate::paths::file_name;

verus! {

/// Everything that can go wrong while setting the supervisor up or
/// running a job.  The first field of each variant carries the
/// underlying detail when one is available; paths travel as strings.
#[derive(Debug, Clone)]
pub enum Error {
    FileNotFound(Option<String>, String, String),
    NoFileSelected(Option<String>),
    FailedToUpscaleImage(Option<String>, String),
    UpscaylNotInPath(Option<String>),
    ModelsFolderNotFound(Option<String>, String),
    NoModels(Option<String>, String),
    FailedToInitImage(Option<String>, String, String),
    ImageFormatNotSupported(Option<String>, String),
    FailedToGetCurrentExecutablePath(Option<String>),
}

impl Error {
    /// The user-facing message of this error.
    pub open spec fn message_spec(&self) -> Seq<char> {
        match self {
            Error::FileNotFound(_, path, detail) => "The file path given '"@ + path@
                + "' does not exist! "@ + detail@,
            Error::NoFileSelected(_) => "No file was selected in the file dialogue!"@,
            Error::FailedToUpscaleImage(_, reason) => "Failed to upscale the image. \n\nReason: "@
                + reason@,
            Error::UpscaylNotInPath(_) =>
                "upscayl-bin isn't in your path. Install it: https://github.com/upscayl/upscayl-ncnn"@,
            Error::ModelsFolderNotFound(_, path) => "Models folder not found: "@ + path@,
            Error::NoModels(_, path) => "No models found in folder: '"@ + path@ + "'"@,
            Error::FailedToInitImage(_, path, reason) => "Failed to initialize the image ("@
                + file_name_of(path@) + ")! Reason: "@ + reason@,
            Error::ImageFormatNotSupported(_, format) => "The image format '"@ + format@
                + "' is not supported!"@,
            Error::FailedToGetCurrentExecutablePath(_) =>
                "Failed to get the current path where aeternum is located."@,
        }
    }

    /// Renders the user-facing message of this error.
    pub fn message(&self) -> (r: String)
        ensures
            r@ == self.message_spec(),
    {
        match self {
            Error::FileNotFound(_, path, detail) => {
                let mut s = "The file path given '".to_owned();
                s.append(path.as_str());
                s.append("' does not exist! ");
                s.append(detail.as_str());
                s
            },
            Error::NoFileSelected(_) => "No file was selected in the file dialogue!".to_owned(),
            Error::FailedToUpscaleImage(_, reason) => {
                let mut s = "Failed to upscale the image. \n\nReason: ".to_owned();
                s.append(reason.as_str());
                s
            },
            Error::UpscaylNotInPath(_) =>
                "upscayl-bin isn't in your path. Install it: https://github.com/upscayl/upscayl-ncnn".to_owned(),
            Error::ModelsFolderNotFound(_, path) => {
                let mut s = "Models folder not found: ".to_owned();
                s.append(path.as_str());
                s
            },
            Error::NoModels(_, path) => {
                let mut s = "No models found in folder: '".to_owned();
                s.append(path.as_str());
                s.append("'");
                s
            },
            Error::FailedToInitImage(_, path, reason) => {
                let name = file_name(path.as_str());
                let mut s = "Failed to initialize the image (".to_owned();
                s.append(name.as_str());
                s.append(")! Reason: ");
                s.append(reason.as_str());
                s
            },
            Error::ImageFormatNotSupported(_, format) => {
                let mut s = "The image format '".to_owned();
                s.append(format.as_str());
                s.append("' is not supported!");
                s
            },
            Error::FailedToGetCurrentExecutablePath(_) =>
                "Failed to get the current path where aeternum is located.".to_owned(),
        }
    }
}

} // verus!

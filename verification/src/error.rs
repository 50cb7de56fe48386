use vstd::prelude::*;
use vstd::string::StringExecFns;

verus! {

/// The error taxonomy of the upload engine.
///
/// `ConfigError` marks invalid input (empty token or project, a bad enum
/// value) and is never retried. `ApiError` marks a failed or unparsable
/// control-plane call. `UploadError` marks a failed byte transfer, including
/// decoded storage error envelopes and connection failures. `FileError`,
/// `HttpError` and `JsonError` carry the rendered text of the corresponding
/// lower-level failures, which arise outside the verified engine.
#[derive(Debug, Clone)]
pub enum Error {
    ApiError(String),
    FileError(String),
    HttpError(String),
    JsonError(String),
    ConfigError(String),
    UploadError(String),
}

impl Error {
    /// The message text carried inside the variant.
    pub open spec fn spec_text(&self) -> Seq<char> {
        match self {
            Error::ApiError(s) => s@,
            Error::FileError(s) => s@,
            Error::HttpError(s) => s@,
            Error::JsonError(s) => s@,
            Error::ConfigError(s) => s@,
            Error::UploadError(s) => s@,
        }
    }

    /// The human-readable prefix that introduces each variant.
    pub open spec fn spec_prefix(&self) -> Seq<char> {
        match self {
            Error::ApiError(_) => "API request failed: "@,
            Error::FileError(_) => "File error: "@,
            Error::HttpError(_) => "HTTP error: "@,
            Error::JsonError(_) => "JSON error: "@,
            Error::ConfigError(_) => "Invalid configuration: "@,
            Error::UploadError(_) => "Upload failed: "@,
        }
    }

    /// Renders the error as its prefixed message.
    pub fn to_message(&self) -> (r: String)
        ensures
            r@ == self.spec_prefix() + self.spec_text(),
    {
        let mut m: String = String::new();
        match self {
            Error::ApiError(s) => {
                m.append("API request failed: ");
                m.append(s.as_str());
            },
            Error::FileError(s) => {
                m.append("File error: ");
                m.append(s.as_str());
            },
            Error::HttpError(s) => {
                m.append("HTTP error: ");
                m.append(s.as_str());
            },
            Error::JsonError(s) => {
                m.append("JSON error: ");
                m.append(s.as_str());
            },
            Error::ConfigError(s) => {
                m.append("Invalid configuration: ");
                m.append(s.as_str());
            },
            Error::UploadError(s) => {
                m.append("Upload failed: ");
                m.append(s.as_str());
            },
        }
        proof {
            assert(m@ == self.spec_prefix() + self.spec_text());
        }
        m
    }
}

} // verus!

use vstd::prelude::*;
use vstd::string::StringExecFns;
use crate::error::Error;
use crate::text::{
    contains_sub, eq_ignore_ascii_case, spec_after, spec_before, spec_contains,
    spec_eq_ignore_ascii_case, text_after, text_before,
};
use crate::metadata::VcsMetadata;
use crate::ci_metadata::CiMetadata;

verus! {

/// Build platform tags accepted by the backend schema.
#[derive(Debug, Clone, Copy, PartialEq, Eq, Structural)]
pub enum BuildPlatform {
    Windows,
    Macos,
    Linux,
    Android,
    IosNative,
    IosSimulator,
    Xbox,
    Playstation,
}

/// Deletion policies for the auto-delete option.
#[derive(Debug, Clone, Copy, PartialEq, Eq, Structural)]
pub enum DeletionPolicy {
    LeastRecent,
    Oldest,
}

impl DeletionPolicy {
    /// The wire name of the policy.
    pub open spec fn spec_name(&self) -> Seq<char> {
        match self {
            DeletionPolicy::LeastRecent => "least_recent"@,
            DeletionPolicy::Oldest => "oldest"@,
        }
    }

    pub fn as_str(&self) -> (r: &str)
        ensures
            r@ == self.spec_name(),
    {
        match self {
            DeletionPolicy::LeastRecent => "least_recent",
            DeletionPolicy::Oldest => "oldest",
        }
    }

    /// The policy a string names, compared without regard to ASCII case,
    /// accepting both the underscore and the hyphen spelling.
    pub open spec fn spec_of_name(s: Seq<char>) -> Option<DeletionPolicy> {
        if spec_eq_ignore_ascii_case(s, "least_recent"@)
            || spec_eq_ignore_ascii_case(s, "least-recent"@) {
            Some(DeletionPolicy::LeastRecent)
        } else if spec_eq_ignore_ascii_case(s, "oldest"@) {
            Some(DeletionPolicy::Oldest)
        } else {
            None
        }
    }

    /// Parses a policy name; an unknown name is a configuration error
    /// that lists the valid policies.
    pub fn from_str(s: &str) -> (r: Result<DeletionPolicy, Error>)
        ensures
            match r {
                Ok(p) => Self::spec_of_name(s@) == Some(p),
                Err(e) => Self::spec_of_name(s@) is None && e is ConfigError
                    && e.spec_text() == "Invalid deletion policy: '"@ + s@
                        + "'. Valid policies are: least_recent, oldest"@,
            },
    {
        if eq_ignore_ascii_case(s, "least_recent") || eq_ignore_ascii_case(s, "least-recent") {
            Ok(DeletionPolicy::LeastRecent)
        } else if eq_ignore_ascii_case(s, "oldest") {
            Ok(DeletionPolicy::Oldest)
        } else {
            let mut m: String = String::new();
            m.append("Invalid deletion policy: '");
            m.append(s);
            m.append("'. Valid policies are: least_recent, oldest");
            Err(Error::ConfigError(m))
        }
    }
}

impl BuildPlatform {
    /// The wire name of the platform.
    pub open spec fn spec_name(&self) -> Seq<char> {
        match self {
            BuildPlatform::Windows => "windows"@,
            BuildPlatform::Macos => "macos"@,
            BuildPlatform::Linux => "linux"@,
            BuildPlatform::Android => "android"@,
            BuildPlatform::IosNative => "ios-native"@,
            BuildPlatform::IosSimulator => "ios-simulator"@,
            BuildPlatform::Xbox => "xbox"@,
            BuildPlatform::Playstation => "playstation"@,
        }
    }

    pub fn as_str(&self) -> (r: &str)
        ensures
            r@ == self.spec_name(),
    {
        match self {
            BuildPlatform::Windows => "windows",
            BuildPlatform::Macos => "macos",
            BuildPlatform::Linux => "linux",
            BuildPlatform::Android => "android",
            BuildPlatform::IosNative => "ios-native",
            BuildPlatform::IosSimulator => "ios-simulator",
            BuildPlatform::Xbox => "xbox",
            BuildPlatform::Playstation => "playstation",
        }
    }

    /// The platform a string names, compared without regard to ASCII case.
    pub open spec fn spec_of_name(s: Seq<char>) -> Option<BuildPlatform> {
        if spec_eq_ignore_ascii_case(s, "windows"@) {
            Some(BuildPlatform::Windows)
        } else if spec_eq_ignore_ascii_case(s, "macos"@) {
            Some(BuildPlatform::Macos)
        } else if spec_eq_ignore_ascii_case(s, "linux"@) {
            Some(BuildPlatform::Linux)
        } else if spec_eq_ignore_ascii_case(s, "android"@) {
            Some(BuildPlatform::Android)
        } else if spec_eq_ignore_ascii_case(s, "ios-native"@) {
            Some(BuildPlatform::IosNative)
        } else if spec_eq_ignore_ascii_case(s, "ios-simulator"@) {
            Some(BuildPlatform::IosSimulator)
        } else if spec_eq_ignore_ascii_case(s, "xbox"@) {
            Some(BuildPlatform::Xbox)
        } else if spec_eq_ignore_ascii_case(s, "playstation"@) {
            Some(BuildPlatform::Playstation)
        } else {
            None
        }
    }

    /// Parses a platform name; an unknown name is a configuration error
    /// that lists the valid platforms.
    pub fn from_str(s: &str) -> (r: Result<BuildPlatform, Error>)
        ensures
            match r {
                Ok(p) => Self::spec_of_name(s@) == Some(p),
                Err(e) => Self::spec_of_name(s@) is None && e is ConfigError
                    && e.spec_text() == "Invalid platform: '"@ + s@
                        + "'. Valid platforms are: windows, macos, linux, android, ios-native, ios-simulator, xbox, playstation"@,
            },
    {
        if eq_ignore_ascii_case(s, "windows") {
            Ok(BuildPlatform::Windows)
        } else if eq_ignore_ascii_case(s, "macos") {
            Ok(BuildPlatform::Macos)
        } else if eq_ignore_ascii_case(s, "linux") {
            Ok(BuildPlatform::Linux)
        } else if eq_ignore_ascii_case(s, "android") {
            Ok(BuildPlatform::Android)
        } else if eq_ignore_ascii_case(s, "ios-native") {
            Ok(BuildPlatform::IosNative)
        } else if eq_ignore_ascii_case(s, "ios-simulator") {
            Ok(BuildPlatform::IosSimulator)
        } else if eq_ignore_ascii_case(s, "xbox") {
            Ok(BuildPlatform::Xbox)
        } else if eq_ignore_ascii_case(s, "playstation") {
            Ok(BuildPlatform::Playstation)
        } else {
            let mut m: String = String::new();
            m.append("Invalid platform: '");
            m.append(s);
            m.append(
                "'. Valid platforms are: windows, macos, linux, android, ios-native, ios-simulator, xbox, playstation",
            );
            Err(Error::ConfigError(m))
        }
    }
}

/// Details attached to an upload: VCS state, CI run, and uploader info.
#[derive(Debug, Clone)]
pub struct BuildDetails {
    pub vcs: Option<VcsMetadata>,
    pub ci: Option<CiMetadata>,
    pub upload: Option<UploadInfo>,
}

/// How the upload was made and by whom.
#[derive(Debug, Clone)]
pub struct UploadInfo {
    pub method: String,
    pub cli_version: Option<String>,
    pub uploader: Option<String>,
}

/// The body of the initiate/request call.
#[derive(Debug)]
pub struct UploadRequest {
    pub name: String,
    pub description: Option<String>,
    pub file_name: String,
    pub file_size: u64,
    pub platform: String,
    pub multipart: bool,
    pub auto_delete: Option<bool>,
    pub deletion_policy: Option<String>,
    pub upload_timeout: Option<u32>,
    pub details: Option<BuildDetails>,
    pub tags: Option<Vec<String>>,
}

/// The backend's answer to a single-part upload request.
#[derive(Debug, Clone)]
pub struct SinglePartUploadResponse {
    pub build_id: String,
    pub upload_url: String,
    pub object_key: String,
}

/// The backend's answer to a multipart initiate request.
#[derive(Debug, Clone)]
pub struct MultipartUploadResponse {
    pub build_id: String,
    pub upload_id: String,
    pub object_key: String,
    pub total_parts: usize,
    pub part_size: usize,
}

/// The query of the part-URL request.
#[derive(Debug)]
pub struct GetUploadUrlsParams {
    pub upload_id: String,
    pub object_key: String,
    pub part_numbers: Vec<u64>,
}

/// The backend's answer to a part-URL request.
#[derive(Debug)]
pub struct GetUploadUrlsResponse {
    pub upload_urls: Vec<UploadUrlPart>,
}

/// One per-part upload URL.
#[derive(Debug, Clone)]
pub struct UploadUrlPart {
    pub part_number: u64,
    pub url: String,
}

/// The record of one successfully transferred part.
#[derive(Debug, Clone, PartialEq, Eq)]
pub struct UploadedPart {
    pub part_number: u64,
    pub etag: String,
}

/// The body of the multipart completion call.
#[derive(Debug)]
pub struct CompleteMultipartUploadRequest {
    pub build_id: String,
    pub upload_id: String,
    pub object_key: String,
    pub parts: Vec<UploadedPart>,
}

/// The body of the single-part completion call.
#[derive(Debug)]
pub struct CompleteRequest {
    pub build_id: String,
}

/// The code extracted from a storage error envelope: the text after the
/// first `<Code>`, up to the next `</Code>` (or all of the rest).
pub open spec fn spec_envelope_code(body: Seq<char>) -> Seq<char> {
    spec_before(spec_after(body, "<Code>"@), "</Code>"@)
}

/// The message extracted from a storage error envelope, falling back to
/// the whole body when no `<Message>` tag is present.
pub open spec fn spec_envelope_message(body: Seq<char>) -> Seq<char> {
    if spec_contains(body, "<Message>"@) {
        spec_before(spec_after(body, "<Message>"@), "</Message>"@)
    } else {
        body
    }
}

/// Decodes the storage layer's XML-like error envelope, when present.
pub fn storage_error_fields(body: &str) -> (r: Option<(String, String)>)
    ensures
        r is Some <==> spec_contains(body@, "<Code>"@) && spec_contains(body@, "</Code>"@),
        r matches Some(cm) ==> cm.0@ == spec_envelope_code(body@)
            && cm.1@ == spec_envelope_message(body@),
{
    if !contains_sub(body, "<Code>") || !contains_sub(body, "</Code>") {
        return None;
    }
    let after_code = match text_after(body, "<Code>") {
        Some(t) => t,
        None => {
            proof {
                assert(false);
            }
            return None;
        },
    };
    let code = text_before(after_code.as_str(), "</Code>");
    let message = match text_after(body, "<Message>") {
        Some(t) => text_before(t.as_str(), "</Message>"),
        None => body.to_owned(),
    };
    Some((code, message))
}

/// The error for a failed byte transfer: a decoded storage envelope when
/// the body carries one, the raw status and body otherwise.
pub fn upload_failure_error(status_text: &str, body: &str) -> (r: Error)
    ensures
        r is UploadError,
        spec_contains(body@, "<Code>"@) && spec_contains(body@, "</Code>"@) ==> r.spec_text()
            == "Storage error: "@ + spec_envelope_code(body@) + " - "@
                + spec_envelope_message(body@)
                + "\n\nTo diagnose, test the upload URL directly:\necho 'test' > test.txt\ncurl -X PUT -H 'Content-Type: application/octet-stream' --data-binary @test.txt -v '<presigned-url>'"@,
        !(spec_contains(body@, "<Code>"@) && spec_contains(body@, "</Code>"@)) ==> r.spec_text()
            == "Status "@ + status_text@ + ": "@ + body@,
{
    match storage_error_fields(body) {
        Some(cm) => {
            let mut m: String = String::new();
            m.append("Storage error: ");
            m.append(cm.0.as_str());
            m.append(" - ");
            m.append(cm.1.as_str());
            m.append(
                "\n\nTo diagnose, test the upload URL directly:\necho 'test' > test.txt\ncurl -X PUT -H 'Content-Type: application/octet-stream' --data-binary @test.txt -v '<presigned-url>'",
            );
            Error::UploadError(m)
        },
        None => {
            let mut m: String = String::new();
            m.append("Status ");
            m.append(status_text);
            m.append(": ");
            m.append(body);
            Error::UploadError(m)
        },
    }
}

/// The error for a non-success control-plane status.
pub fn api_status_error(status_text: &str, body: &str) -> (r: Error)
    ensures
        r is ApiError,
        r.spec_text() == "Status "@ + status_text@ + ": "@ + body@,
{
    let mut m: String = String::new();
    m.append("Status ");
    m.append(status_text);
    m.append(": ");
    m.append(body);
    Error::ApiError(m)
}

/// The error for an unparsable control-plane response body.
pub fn parse_failure_error(detail: &str, body: &str) -> (r: Error)
    ensures
        r is ApiError,
        r.spec_text() == "Failed to parse response: "@ + detail@ + ". Body was: "@ + body@,
{
    let mut m: String = String::new();
    m.append("Failed to parse response: ");
    m.append(detail);
    m.append(". Body was: ");
    m.append(body);
    Error::ApiError(m)
}

/// The error for a non-success status on a completion or abort call,
/// labelled with the operation that failed.
pub fn labelled_status_error(label: &str, status_text: &str, body: &str) -> (r: Error)
    ensures
        r is ApiError,
        r.spec_text() == label@ + " failed - Status "@ + status_text@ + ": "@ + body@,
{
    let mut m: String = String::new();
    m.append(label);
    m.append(" failed - Status ");
    m.append(status_text);
    m.append(": ");
    m.append(body);
    Error::ApiError(m)
}

/// The error for a part transfer whose response carried no integrity token.
pub fn missing_etag_error() -> (r: Error)
    ensures
        r is UploadError,
        r.spec_text() == "Missing ETag in response"@,
{
    let m = "Missing ETag in response".to_owned();
    Error::UploadError(m)
}

} // verus!

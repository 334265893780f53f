//! The error taxonomy of a run, its human-readable messages and its report categories.
use vstd::prelude::*;
use crate::text::{decimal, decimal_string};

verus! {

/// What went wrong at the transport level.
#[derive(Debug, Clone, Copy, PartialEq, Eq, Structural)]
pub enum NetworkFailure {
    Timeout,
    Connect,
    Request,
    Decode,
    Other,
}

/// What went wrong on the local file system.
#[derive(Debug, Clone, Copy, PartialEq, Eq, Structural)]
pub enum IoFailure {
    PermissionDenied,
    NotFound,
    AlreadyExists,
    InvalidInput,
    StorageFull,
    Other,
}

/// A failure of a run or of one download.
#[derive(Debug, Clone)]
#[allow(inconsistent_fields)]
pub enum DownloadError {
    /// A transport failure; `detail` is the transport's own description.
    NetworkError { kind: NetworkFailure, detail: String },
    /// A local file-system failure; `detail` is the system's own description.
    IoError { kind: IoFailure, detail: String },
    /// A malformed or unsupported URL.
    InvalidUrl(String),
    /// A manifest that cannot be read, or a reference that cannot be resolved.
    ParseError(String),
    /// A response whose status is neither success nor 404.
    HttpError { status: u16, url: String },
    /// A 404 response.
    FileNotFound(String),
    /// A request that timed out.
    Timeout(String),
}

/// The groups in which failures are reported.
#[derive(Debug, Clone, Copy, PartialEq, Eq, Structural)]
pub enum ErrorCategory {
    NotFound,
    Timeout,
    Permission,
    Network,
    Forbidden,
    ServerError,
    Other,
}

pub open spec fn status_message(status: u16, url: Seq<char>) -> Seq<char> {
    if status == 404 {
        "File not found (404): The file at "@ + url + " does not exist on the server."@
    } else if status == 403 {
        "Access forbidden (403): You don't have permission to access "@ + url + "."@
    } else if status == 401 {
        "Unauthorized (401): Authentication required to access "@ + url + "."@
    } else if 500 <= status <= 599 {
        "Server error ("@ + decimal(status as nat)
            + "): The server encountered an error while processing "@ + url + "."@
    } else {
        "HTTP error ("@ + decimal(status as nat) + "): Request to "@ + url + " failed."@
    }
}

pub open spec fn network_message(kind: NetworkFailure, detail: Seq<char>) -> Seq<char> {
    match kind {
        NetworkFailure::Timeout =>
            "Network timeout: The request took too long to complete. Try again later or check your internet connection."@,
        NetworkFailure::Connect =>
            "Connection failed: Unable to connect to the server. Please check your internet connection and verify the server is accessible."@,
        NetworkFailure::Request =>
            "Request error: Invalid request format or parameters. The URL may be malformed."@,
        NetworkFailure::Decode =>
            "Content decode error: The server response could not be decoded properly."@,
        NetworkFailure::Other => "Network error: "@ + detail,
    }
}

pub open spec fn io_message(kind: IoFailure, detail: Seq<char>) -> Seq<char> {
    match kind {
        IoFailure::PermissionDenied =>
            "Permission denied: Unable to write to the specified location. Check file permissions and try running with appropriate privileges."@,
        IoFailure::NotFound =>
            "Path not found: The specified directory does not exist and could not be created."@,
        IoFailure::AlreadyExists =>
            "File conflict: Unable to create file because it already exists in an unexpected way."@,
        IoFailure::InvalidInput =>
            "Invalid file path: The specified path contains invalid characters or is too long."@,
        IoFailure::StorageFull => "Storage full: Not enough disk space to save the file."@,
        IoFailure::Other => "File system error: "@ + detail,
    }
}

/// The message shown to the user for `e`.
pub open spec fn error_message(e: DownloadError) -> Seq<char> {
    match e {
        DownloadError::NetworkError { kind, detail } => network_message(kind, detail@),
        DownloadError::IoError { kind, detail } => io_message(kind, detail@),
        DownloadError::InvalidUrl(m) => "Invalid URL: "@ + m@
            + ". Please check the URL format and try again."@,
        DownloadError::ParseError(m) => "Parse error: "@ + m@
            + ". The content may be corrupted or in an unexpected format."@,
        DownloadError::HttpError { status, url } => status_message(status, url@),
        DownloadError::FileNotFound(url) => "File not found: "@ + url@
            + " is not available on the server."@,
        DownloadError::Timeout(url) => "Timeout: Request to "@ + url@
            + " took too long. The server may be overloaded."@,
    }
}

/// The report category of `e`, decided by its kind.
pub open spec fn error_category(e: DownloadError) -> ErrorCategory {
    match e {
        DownloadError::NetworkError { kind, .. } => match kind {
            NetworkFailure::Timeout => ErrorCategory::Timeout,
            NetworkFailure::Connect => ErrorCategory::Network,
            NetworkFailure::Other => ErrorCategory::Network,
            _ => ErrorCategory::Other,
        },
        DownloadError::IoError { kind, .. } => match kind {
            IoFailure::PermissionDenied => ErrorCategory::Permission,
            IoFailure::NotFound => ErrorCategory::NotFound,
            _ => ErrorCategory::Other,
        },
        DownloadError::HttpError { status, .. } => if status == 404 {
            ErrorCategory::NotFound
        } else if status == 403 {
            ErrorCategory::Forbidden
        } else if 500 <= status <= 599 {
            ErrorCategory::ServerError
        } else {
            ErrorCategory::Other
        },
        DownloadError::FileNotFound(_) => ErrorCategory::NotFound,
        DownloadError::Timeout(_) => ErrorCategory::Timeout,
        _ => ErrorCategory::Other,
    }
}

pub open spec fn category_name(c: ErrorCategory) -> Seq<char> {
    match c {
        ErrorCategory::NotFound => "not_found"@,
        ErrorCategory::Timeout => "timeout"@,
        ErrorCategory::Permission => "permission"@,
        ErrorCategory::Network => "network"@,
        ErrorCategory::Forbidden => "forbidden"@,
        ErrorCategory::ServerError => "server_error"@,
        ErrorCategory::Other => "other"@,
    }
}

/// `a`, then `b`.
fn concat2(a: &str, b: &str) -> (r: String)
    ensures
        r@ == a@ + b@,
{
    let mut s = String::from_str(a);
    s.append(b);
    s
}

/// `a`, then `b`, then `c`.
fn concat3(a: &str, b: &str, c: &str) -> (r: String)
    ensures
        r@ == a@ + b@ + c@,
{
    let mut s = String::from_str(a);
    s.append(b);
    s.append(c);
    s
}

/// `a`, `b`, `c`, `d` and `e` in turn.
fn concat5(a: &str, b: &str, c: &str, d: &str, e: &str) -> (r: String)
    ensures
        r@ == a@ + b@ + c@ + d@ + e@,
{
    let mut s = concat3(a, b, c);
    s.append(d);
    s.append(e);
    s
}

fn status_text(status: u16, url: &String) -> (r: String)
    ensures
        r@ == status_message(status, url@),
{
    let u = url.as_str();
    if status == 404 {
        concat3("File not found (404): The file at ", u, " does not exist on the server.")
    } else if status == 403 {
        concat3("Access forbidden (403): You don't have permission to access ", u, ".")
    } else if status == 401 {
        concat3("Unauthorized (401): Authentication required to access ", u, ".")
    } else if 500 <= status && status <= 599 {
        let d = decimal_string(status as u64);
        concat5(
            "Server error (",
            d.as_str(),
            "): The server encountered an error while processing ",
            u,
            ".",
        )
    } else {
        let d = decimal_string(status as u64);
        concat5("HTTP error (", d.as_str(), "): Request to ", u, " failed.")
    }
}

impl ErrorCategory {
    /// The name under which the category is reported.
    pub fn name(&self) -> (r: String)
        ensures
            r@ == category_name(*self),
    {
        match self {
            ErrorCategory::NotFound => String::from_str("not_found"),
            ErrorCategory::Timeout => String::from_str("timeout"),
            ErrorCategory::Permission => String::from_str("permission"),
            ErrorCategory::Network => String::from_str("network"),
            ErrorCategory::Forbidden => String::from_str("forbidden"),
            ErrorCategory::ServerError => String::from_str("server_error"),
            ErrorCategory::Other => String::from_str("other"),
        }
    }
}

impl DownloadError {
    /// The error for a response with a non-success status: 404 is a missing file.
    pub fn from_status(status: u16, url: &str) -> (r: DownloadError)
        ensures
            status == 404 ==> (r matches DownloadError::FileNotFound(u) && u@ == url@),
            status != 404 ==> (r matches DownloadError::HttpError { status: s, url: u } && s
                == status && u@ == url@),
    {
        if status == 404 {
            DownloadError::FileNotFound(String::from_str(url))
        } else {
            DownloadError::HttpError { status, url: String::from_str(url) }
        }
    }

    /// The message shown to the user.
    pub fn message(&self) -> (r: String)
        ensures
            r@ == error_message(*self),
    {
        match self {
            DownloadError::NetworkError { kind, detail } => match kind {
                NetworkFailure::Timeout => String::from_str(
                    "Network timeout: The request took too long to complete. Try again later or check your internet connection.",
                ),
                NetworkFailure::Connect => String::from_str(
                    "Connection failed: Unable to connect to the server. Please check your internet connection and verify the server is accessible.",
                ),
                NetworkFailure::Request => String::from_str(
                    "Request error: Invalid request format or parameters. The URL may be malformed.",
                ),
                NetworkFailure::Decode => String::from_str(
                    "Content decode error: The server response could not be decoded properly.",
                ),
                NetworkFailure::Other => concat2("Network error: ", detail.as_str()),
            },
            DownloadError::IoError { kind, detail } => match kind {
                IoFailure::PermissionDenied => String::from_str(
                    "Permission denied: Unable to write to the specified location. Check file permissions and try running with appropriate privileges.",
                ),
                IoFailure::NotFound => String::from_str(
                    "Path not found: The specified directory does not exist and could not be created.",
                ),
                IoFailure::AlreadyExists => String::from_str(
                    "File conflict: Unable to create file because it already exists in an unexpected way.",
                ),
                IoFailure::InvalidInput => String::from_str(
                    "Invalid file path: The specified path contains invalid characters or is too long.",
                ),
                IoFailure::StorageFull => String::from_str(
                    "Storage full: Not enough disk space to save the file.",
                ),
                IoFailure::Other => concat2("File system error: ", detail.as_str()),
            },
            DownloadError::InvalidUrl(m) => concat3(
                "Invalid URL: ",
                m.as_str(),
                ". Please check the URL format and try again.",
            ),
            DownloadError::ParseError(m) => concat3(
                "Parse error: ",
                m.as_str(),
                ". The content may be corrupted or in an unexpected format.",
            ),
            DownloadError::HttpError { status, url } => status_text(*status, url),
            DownloadError::FileNotFound(url) => concat3(
                "File not found: ",
                url.as_str(),
                " is not available on the server.",
            ),
            DownloadError::Timeout(url) => concat3(
                "Timeout: Request to ",
                url.as_str(),
                " took too long. The server may be overloaded.",
            ),
        }
    }

    /// The report category, decided by the kind of the error.
    pub fn category(&self) -> (r: ErrorCategory)
        ensures
            r == error_category(*self),
    {
        match self {
            DownloadError::NetworkError { kind, .. } => match kind {
                NetworkFailure::Timeout => ErrorCategory::Timeout,
                NetworkFailure::Connect => ErrorCategory::Network,
                NetworkFailure::Other => ErrorCategory::Network,
                _ => ErrorCategory::Other,
            },
            DownloadError::IoError { kind, .. } => match kind {
                IoFailure::PermissionDenied => ErrorCategory::Permission,
                IoFailure::NotFound => ErrorCategory::NotFound,
                _ => ErrorCategory::Other,
            },
            DownloadError::HttpError { status, .. } => if *status == 404 {
                ErrorCategory::NotFound
            } else if *status == 403 {
                ErrorCategory::Forbidden
            } else if 500 <= *status && *status <= 599 {
                ErrorCategory::ServerError
            } else {
                ErrorCategory::Other
            },
            DownloadError::FileNotFound(_) => ErrorCategory::NotFound,
            DownloadError::Timeout(_) => ErrorCategory::Timeout,
            _ => ErrorCategory::Other,
        }
    }
}

} // verus!

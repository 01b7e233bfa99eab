//! Error types for installer operations.
//!
//! Every failure carries structured context (paths, expected/actual values,
//! byte counts) so a caller can render a specific message without parsing an
//! opaque error string.

use vstd::prelude::*;

use crate::text::dec_string;
use crate::text::u64_to_string;

verus! {

/// Errors that can occur during installation.
#[derive(Debug, Clone, PartialEq, Eq)]
pub enum InstallerError {
    /// Filesystem failure; carries the OS-level error text.
    Io(String),
    /// Transport- or HTTP-level download failure.
    Download(String),
    /// A downloaded file's digest did not match the expected value.
    ChecksumMismatch { file: String, expected: String, actual: String },
    /// The target filesystem lacks the required space.
    InsufficientSpace { needed: u64, available: u64 },
    /// A system requirement other than disk space is unmet.
    RequirementsNotMet(String),
    /// The installation path is not absolute or not writable.
    InvalidPath(String),
    /// A component's installation failed.
    ComponentFailed { component: String, reason: String },
    /// The configuration is invalid.
    Config(String),
    /// The host platform is not supported.
    UnsupportedPlatform(String),
    /// A JSON document could not be read.
    Json(String),
    /// Any other failure.
    Other(String),
}

impl InstallerError {
    /// A short, fixed name for the error's kind, usable as a status label.
    pub fn kind_name(&self) -> (r: String)
        ensures
            r@ == self.kind_name_spec(),
    {
        match self {
            InstallerError::Io(_) => String::from_str("io error"),
            InstallerError::Download(_) => String::from_str("download failed"),
            InstallerError::ChecksumMismatch { .. } => String::from_str("checksum mismatch"),
            InstallerError::InsufficientSpace { .. } => String::from_str("insufficient space"),
            InstallerError::RequirementsNotMet(_) => String::from_str("requirements not met"),
            InstallerError::InvalidPath(_) => String::from_str("invalid path"),
            InstallerError::ComponentFailed { .. } => String::from_str("component failed"),
            InstallerError::Config(_) => String::from_str("configuration error"),
            InstallerError::UnsupportedPlatform(_) => String::from_str("unsupported platform"),
            InstallerError::Json(_) => String::from_str("json error"),
            InstallerError::Other(_) => String::from_str("error"),
        }
    }

    /// The kind name each variant maps to.
    pub open spec fn kind_name_spec(&self) -> Seq<char> {
        match self {
            InstallerError::Io(_) => "io error"@,
            InstallerError::Download(_) => "download failed"@,
            InstallerError::ChecksumMismatch { .. } => "checksum mismatch"@,
            InstallerError::InsufficientSpace { .. } => "insufficient space"@,
            InstallerError::RequirementsNotMet(_) => "requirements not met"@,
            InstallerError::InvalidPath(_) => "invalid path"@,
            InstallerError::ComponentFailed { .. } => "component failed"@,
            InstallerError::Config(_) => "configuration error"@,
            InstallerError::UnsupportedPlatform(_) => "unsupported platform"@,
            InstallerError::Json(_) => "json error"@,
            InstallerError::Other(_) => "error"@,
        }
    }
}

impl InstallerError {
    /// How the error renders as a message.
    pub open spec fn message_spec(&self) -> Seq<char> {
        match self {
            InstallerError::Io(e) => "I/O error: "@ + e@,
            InstallerError::Download(s) => "Download failed: "@ + s@,
            InstallerError::ChecksumMismatch { file, expected, actual } => "Checksum mismatch for "@
                + file@ + ": expected "@ + expected@ + ", got "@ + actual@,
            InstallerError::InsufficientSpace { needed, available } => "Insufficient disk space: need "@
                + dec_string(*needed as int) + " bytes, available "@ + dec_string(*available as int)
                + " bytes"@,
            InstallerError::RequirementsNotMet(s) => "System requirements not met: "@ + s@,
            InstallerError::InvalidPath(p) => "Invalid installation path: "@ + p@,
            InstallerError::ComponentFailed { component, reason } => "Failed to install component '"@
                + component@ + "': "@ + reason@,
            InstallerError::Config(s) => "Configuration error: "@ + s@,
            InstallerError::UnsupportedPlatform(s) => "Platform not supported: "@ + s@,
            InstallerError::Json(s) => "JSON error: "@ + s@,
            InstallerError::Other(s) => s@,
        }
    }

    /// Renders the failure as a specific, human-readable message, exactly
    /// as [`InstallerError::message_spec`] lays it out.
    pub fn message(&self) -> (r: String)
        ensures
            r@ == self.message_spec(),
    {
        match self {
            InstallerError::Io(e) => {
                let mut out = String::from_str("I/O error: ");
                out.append(e.as_str());
                out
            },
            InstallerError::Download(s) => {
                let mut out = String::from_str("Download failed: ");
                out.append(s.as_str());
                out
            },
            InstallerError::ChecksumMismatch { file, expected, actual } => {
                let mut out = String::from_str("Checksum mismatch for ");
                out.append(file.as_str());
                out.append(": expected ");
                out.append(expected.as_str());
                out.append(", got ");
                out.append(actual.as_str());
                proof {
                    assert(out@ =~= self.message_spec());
                }
                out
            },
            InstallerError::InsufficientSpace { needed, available } => {
                let mut out = String::from_str("Insufficient disk space: need ");
                let needed_digits = u64_to_string(*needed);
                out.append(needed_digits.as_str());
                out.append(" bytes, available ");
                let available_digits = u64_to_string(*available);
                out.append(available_digits.as_str());
                out.append(" bytes");
                proof {
                    assert(out@ =~= self.message_spec());
                }
                out
            },
            InstallerError::RequirementsNotMet(s) => {
                let mut out = String::from_str("System requirements not met: ");
                out.append(s.as_str());
                out
            },
            InstallerError::InvalidPath(p) => {
                let mut out = String::from_str("Invalid installation path: ");
                out.append(p.as_str());
                out
            },
            InstallerError::ComponentFailed { component, reason } => {
                let mut out = String::from_str("Failed to install component '");
                out.append(component.as_str());
                out.append("': ");
                out.append(reason.as_str());
                proof {
                    assert(out@ =~= self.message_spec());
                }
                out
            },
            InstallerError::Config(s) => {
                let mut out = String::from_str("Configuration error: ");
                out.append(s.as_str());
                out
            },
            InstallerError::UnsupportedPlatform(s) => {
                let mut out = String::from_str("Platform not supported: ");
                out.append(s.as_str());
                out
            },
            InstallerError::Json(s) => {
                let mut out = String::from_str("JSON error: ");
                out.append(s.as_str());
                out
            },
            InstallerError::Other(s) => s.clone(),
        }
    }
}

/// Result type alias for installer operations.
pub type InstallerResult<T> = Result<T, InstallerError>;

} // verus!

//! The application error taxonomy and its user-facing messages.

use vstd::prelude::*;

verus! {

/// Application errors, grouped by subsystem.
#[derive(Clone, Debug)]
pub enum CapError {
    NoActiveRecording,
    RecordingAlreadyActive,
    RecordingNotPaused,
    RecordingAlreadyPaused,
    RecordingFailed(String),
    FileNotFound(String),
    PathTraversalAttempt,
    InvalidPath(String),
    PermissionDenied(String),
    IoError(String),
    HotkeyRegistrationFailed(String),
    HotkeyNotFound,
    InvalidHotkeyConfiguration,
    ConfigurationError(String),
    InvalidConfiguration(String),
    InternalError(String),
    InvalidInput(String),
    NotImplemented(String),
}

/// A result carrying a `CapError` on failure.
pub type CapResult<T> = Result<T, CapError>;

/// The classes of input/output failure the error taxonomy distinguishes;
/// the shell reduces the platform's error kind to one of these.
#[derive(Clone, Copy, Debug, PartialEq, Eq, Structural)]
pub enum IoErrorKind {
    NotFound,
    PermissionDenied,
    Other,
}

impl CapError {
    /// The error an input/output failure maps to: a missing file and a
    /// denied permission get their own variants, everything else is a
    /// general input/output error, each carrying the platform's message.
    pub fn from_io(kind: IoErrorKind, message: String) -> (r: CapError)
        ensures
            kind == IoErrorKind::NotFound ==> r == CapError::FileNotFound(message),
            kind == IoErrorKind::PermissionDenied ==> r == CapError::PermissionDenied(message),
            kind == IoErrorKind::Other ==> r == CapError::IoError(message),
    {
        match kind {
            IoErrorKind::NotFound => CapError::FileNotFound(message),
            IoErrorKind::PermissionDenied => CapError::PermissionDenied(message),
            IoErrorKind::Other => CapError::IoError(message),
        }
    }
}

impl CapError {
    /// The characters of this error's user-facing message.
    pub open spec fn message_spec(&self) -> Seq<char> {
        match self {
            CapError::NoActiveRecording => "No active recording"@,
            CapError::RecordingAlreadyActive => "Recording is already active"@,
            CapError::RecordingNotPaused => "Recording is not paused"@,
            CapError::RecordingAlreadyPaused => "Recording is already paused"@,
            CapError::RecordingFailed(m) => "Recording failed: "@ + m@,
            CapError::FileNotFound(p) => "File not found: "@ + p@,
            CapError::PathTraversalAttempt => "Path traversal attempt detected"@,
            CapError::InvalidPath(p) => "Invalid path: "@ + p@,
            CapError::PermissionDenied(m) => "Permission denied: "@ + m@,
            CapError::IoError(m) => "IO error: "@ + m@,
            CapError::HotkeyRegistrationFailed(m) => "Failed to register hotkey: "@ + m@,
            CapError::HotkeyNotFound => "Hotkey not found"@,
            CapError::InvalidHotkeyConfiguration => "Invalid hotkey configuration"@,
            CapError::ConfigurationError(m) => "Configuration error: "@ + m@,
            CapError::InvalidConfiguration(m) => "Invalid configuration: "@ + m@,
            CapError::InternalError(m) => "Internal error: "@ + m@,
            CapError::InvalidInput(m) => "Invalid input: "@ + m@,
            CapError::NotImplemented(m) => "Not implemented: "@ + m@,
        }
    }

    /// The user-facing message: a fixed description, with the detail
    /// appended where the variant carries one.
    pub fn message(&self) -> (r: String)
        ensures
            r@ == self.message_spec(),
    {
        match self {
            CapError::NoActiveRecording => String::from_str("No active recording"),
            CapError::RecordingAlreadyActive => String::from_str("Recording is already active"),
            CapError::RecordingNotPaused => String::from_str("Recording is not paused"),
            CapError::RecordingAlreadyPaused => String::from_str("Recording is already paused"),
            CapError::RecordingFailed(m) => {
                let mut s = String::from_str("Recording failed: ");
                s.append(m.as_str());
                s
            },
            CapError::FileNotFound(p) => {
                let mut s = String::from_str("File not found: ");
                s.append(p.as_str());
                s
            },
            CapError::PathTraversalAttempt => String::from_str("Path traversal attempt detected"),
            CapError::InvalidPath(p) => {
                let mut s = String::from_str("Invalid path: ");
                s.append(p.as_str());
                s
            },
            CapError::PermissionDenied(m) => {
                let mut s = String::from_str("Permission denied: ");
                s.append(m.as_str());
                s
            },
            CapError::IoError(m) => {
                let mut s = String::from_str("IO error: ");
                s.append(m.as_str());
                s
            },
            CapError::HotkeyRegistrationFailed(m) => {
                let mut s = String::from_str("Failed to register hotkey: ");
                s.append(m.as_str());
                s
            },
            CapError::HotkeyNotFound => String::from_str("Hotkey not found"),
            CapError::InvalidHotkeyConfiguration => String::from_str(
                "Invalid hotkey configuration",
            ),
            CapError::ConfigurationError(m) => {
                let mut s = String::from_str("Configuration error: ");
                s.append(m.as_str());
                s
            },
            CapError::InvalidConfiguration(m) => {
                let mut s = String::from_str("Invalid configuration: ");
                s.append(m.as_str());
                s
            },
            CapError::InternalError(m) => {
                let mut s = String::from_str("Internal error: ");
                s.append(m.as_str());
                s
            },
            CapError::InvalidInput(m) => {
                let mut s = String::from_str("Invalid input: ");
                s.append(m.as_str());
                s
            },
            CapError::NotImplemented(m) => {
                let mut s = String::from_str("Not implemented: ");
                s.append(m.as_str());
                s
            },
        }
    }
}

} // verus!

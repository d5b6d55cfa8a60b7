//! Errors of the file sink and of the rotation scheduler.
use vstd::prelude::*;
use vstd::string::*;

verus! {

/// Failures of the file sink. Paths and underlying causes are carried as text.
#[derive(Debug, Clone, PartialEq, Eq)]
pub enum FileWriterError {
    FileOpen { path: String, source: String },
    WriteError(String),
    RenameError { from: String, to: String, source: String },
    ChannelClosed,
    OtherError(String),
}

/// Failures while choosing or requesting a rotation.
#[derive(Debug, Clone, PartialEq, Eq)]
pub enum RotationError {
    RegexError(String),
    InvalidFile(String),
    IOError(String),
    OtherError(String),
    SearchFilesError(String),
    ChannelSendError(String),
}

/// The human-readable text of a sink error.
pub open spec fn file_writer_error_text(e: FileWriterError) -> Seq<char> {
    match e {
        FileWriterError::FileOpen { path, source } => "Failed to open file "@ + path@ + ": "@
            + source@,
        FileWriterError::WriteError(s) => "Failed to write to file: "@ + s@,
        FileWriterError::RenameError { from, to, source } => "Failed to rename file from "@
            + from@ + " to "@ + to@ + ": "@ + source@,
        FileWriterError::ChannelClosed => "Channel closed"@,
        FileWriterError::OtherError(s) => "Other error: "@ + s@,
    }
}

/// The human-readable text of a rotation error.
pub open spec fn rotation_error_text(e: RotationError) -> Seq<char> {
    match e {
        RotationError::RegexError(s) => "Regex error: "@ + s@,
        RotationError::InvalidFile(s) => "Invalid file: "@ + s@,
        RotationError::IOError(s) => "IO error: "@ + s@,
        RotationError::OtherError(s) => "Other error: "@ + s@,
        RotationError::SearchFilesError(s) => "Search files error: "@ + s@,
        RotationError::ChannelSendError(s) => "Error sending RenameCommand: "@ + s@,
    }
}

/// `head` followed by `tail`.
fn prefixed(head: &str, tail: &String) -> (r: String)
    ensures
        r@ == head@ + tail@,
{
    let mut r = String::from_str(head);
    r.append(tail.as_str());
    r
}

impl FileWriterError {
    /// Whether the sink must stop on this error. A failed record write is
    /// surfaced and the sink goes on with the next command; any failure while
    /// rotating, a failed open or rename, and a closed channel end the sink.
    pub fn is_fatal(&self, during_rotation: bool) -> (r: bool)
        ensures
            r == (during_rotation || !(*self is WriteError)),
    {
        match self {
            FileWriterError::WriteError(_) => during_rotation,
            _ => true,
        }
    }

    /// The error as one line of text.
    pub fn message(&self) -> (r: String)
        ensures
            r@ == file_writer_error_text(*self),
    {
        match self {
            FileWriterError::FileOpen { path, source } => {
                let mut r = prefixed("Failed to open file ", path);
                r.append(": ");
                r.append(source.as_str());
                r
            },
            FileWriterError::WriteError(s) => prefixed("Failed to write to file: ", s),
            FileWriterError::RenameError { from, to, source } => {
                let mut r = prefixed("Failed to rename file from ", from);
                r.append(" to ");
                r.append(to.as_str());
                r.append(": ");
                r.append(source.as_str());
                r
            },
            FileWriterError::ChannelClosed => String::from_str("Channel closed"),
            FileWriterError::OtherError(s) => prefixed("Other error: ", s),
        }
    }
}

impl RotationError {
    /// The error as one line of text.
    pub fn message(&self) -> (r: String)
        ensures
            r@ == rotation_error_text(*self),
    {
        match self {
            RotationError::RegexError(s) => prefixed("Regex error: ", s),
            RotationError::InvalidFile(s) => prefixed("Invalid file: ", s),
            RotationError::IOError(s) => prefixed("IO error: ", s),
            RotationError::OtherError(s) => prefixed("Other error: ", s),
            RotationError::SearchFilesError(s) => prefixed("Search files error: ", s),
            RotationError::ChannelSendError(s) => prefixed("Error sending RenameCommand: ", s),
        }
    }
}

} // verus!

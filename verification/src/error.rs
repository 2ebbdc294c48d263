//! What can go wrong while a request is handled. A failure never escapes as a
//! fault: it is data, and reaches the content as a structured answer.

use vstd::prelude::*;
use vstd::string::*;
use vstd::utf8::*;
use crate::text::decode_text;

verus! {

/// Where bytes that had to be text came from.
#[derive(Debug, Clone, Copy, PartialEq, Eq)]
pub enum TextSource {
    Stdout,
    Stderr,
    File,
}

/// What a process wrote to one of its outputs: text where the bytes are
/// well-formed UTF-8, the bytes themselves where they are not.
#[derive(Debug, Clone, PartialEq, Eq)]
pub enum Captured {
    Text(String),
    Bytes(Vec<u8>),
}

/// The mathematical value of a [`Captured`].
pub enum Capture {
    Text(Seq<char>),
    Bytes(Seq<u8>),
}

impl View for Captured {
    type V = Capture;

    open spec fn view(&self) -> Capture {
        match *self {
            Captured::Text(text) => Capture::Text(text@),
            Captured::Bytes(raw) => Capture::Bytes(raw@),
        }
    }
}

/// What is kept of the bytes that a process wrote.
pub open spec fn capture_of(bytes: Seq<u8>) -> Capture {
    if valid_utf8(bytes) {
        Capture::Text(decode_utf8(bytes))
    } else {
        Capture::Bytes(bytes)
    }
}

/// Keeps what a process wrote: as text where it is text, else as bytes.
pub fn capture(bytes: Vec<u8>) -> (c: Captured)
    ensures
        c@ == capture_of(bytes@),
{
    match decode_text(bytes) {
        Ok(text) => Captured::Text(text),
        Err(raw) => Captured::Bytes(raw),
    }
}

/// A failure at the handler boundary.
#[derive(Debug, Clone, PartialEq, Eq)]
pub enum HandlerError {
    /// The command line had no program to run.
    EmptyCommand,
    /// The process could not be started or awaited; the text says why.
    SpawnFailure(String),
    /// The command ran longer than its timeout allowed.
    Timeout,
    /// The content navigated away while the command was in flight.
    Cancelled,
    /// The process ended with a status other than success. What it wrote is
    /// kept as it was captured.
    ExitFailure { exit_code: Option<i32>, stdout: Captured, stderr: Captured },
    /// Bytes that had to be text were not well-formed UTF-8.
    Encoding(TextSource),
    /// A file could not be read; the text says why.
    ReadFailure(String),
    /// A directory could not be listed; the text says why.
    ListFailure(String),
}

/// The mathematical value of a [`HandlerError`].
pub enum Failure {
    EmptyCommand,
    SpawnFailure(Seq<char>),
    Timeout,
    Cancelled,
    ExitFailure { exit_code: Option<i32>, stdout: Capture, stderr: Capture },
    Encoding(TextSource),
    ReadFailure(Seq<char>),
    ListFailure(Seq<char>),
}

impl View for HandlerError {
    type V = Failure;

    open spec fn view(&self) -> Failure {
        match *self {
            HandlerError::EmptyCommand => Failure::EmptyCommand,
            HandlerError::SpawnFailure(detail) => Failure::SpawnFailure(detail@),
            HandlerError::Timeout => Failure::Timeout,
            HandlerError::Cancelled => Failure::Cancelled,
            HandlerError::ExitFailure { exit_code, stdout, stderr } => Failure::ExitFailure {
                exit_code,
                stdout: stdout@,
                stderr: stderr@,
            },
            HandlerError::Encoding(source) => Failure::Encoding(source),
            HandlerError::ReadFailure(detail) => Failure::ReadFailure(detail@),
            HandlerError::ListFailure(detail) => Failure::ListFailure(detail@),
        }
    }
}

/// The message that the content is shown for a failure.
pub open spec fn failure_message(f: Failure) -> Seq<char> {
    match f {
        Failure::EmptyCommand => "Commandline is empty"@,
        Failure::SpawnFailure(detail) => "Error starting command: "@ + detail,
        Failure::Timeout => "Command execution duration exceeded timeout"@,
        Failure::Cancelled => "Navigation occurred"@,
        Failure::ExitFailure { .. } => "Command exited with unsuccessful status"@,
        Failure::Encoding(TextSource::Stdout) => "stdout was not valid utf-8"@,
        Failure::Encoding(TextSource::Stderr) => "stderr was not valid utf-8"@,
        Failure::Encoding(TextSource::File) => "File isn't valid utf-8"@,
        Failure::ReadFailure(detail) => "Error performing read command: "@ + detail,
        Failure::ListFailure(detail) => "Error listing directory: "@ + detail,
    }
}

impl HandlerError {
    /// The message that the content is shown for this failure.
    pub fn message(&self) -> (m: String)
        ensures
            m@ == failure_message(self@),
    {
        match self {
            HandlerError::EmptyCommand => String::from_str("Commandline is empty"),
            HandlerError::SpawnFailure(detail) => {
                String::from_str("Error starting command: ").concat(detail.as_str())
            },
            HandlerError::Timeout => String::from_str(
                "Command execution duration exceeded timeout",
            ),
            HandlerError::Cancelled => String::from_str("Navigation occurred"),
            HandlerError::ExitFailure { .. } => String::from_str(
                "Command exited with unsuccessful status",
            ),
            HandlerError::Encoding(TextSource::Stdout) => String::from_str(
                "stdout was not valid utf-8",
            ),
            HandlerError::Encoding(TextSource::Stderr) => String::from_str(
                "stderr was not valid utf-8",
            ),
            HandlerError::Encoding(TextSource::File) => String::from_str("File isn't valid utf-8"),
            HandlerError::ReadFailure(detail) => {
                String::from_str("Error performing read command: ").concat(detail.as_str())
            },
            HandlerError::ListFailure(detail) => {
                String::from_str("Error listing directory: ").concat(detail.as_str())
            },
        }
    }
}

} // verus!

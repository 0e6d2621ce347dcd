use vstd::prelude::*;
use vstd::string::*;

verus! {

/// What a successful command reports to the user interface.
#[derive(Debug, PartialEq, Eq)]
pub enum Status {
    /// A new backend process was spawned.
    Started,
    /// A backend process is already held; nothing was spawned.
    AlreadyRunning,
    /// The held backend process was terminated.
    Stopped,
    /// No backend process was held; nothing was terminated.
    NotRunning,
    /// The decoded bytes were written to the path carried here.
    Saved(String),
}

/// Why a command failed.
#[derive(Debug, PartialEq, Eq)]
pub enum ShellError {
    /// None of the candidate locations holds the backend executable.
    ResourceNotFound,
    /// The operating system refused to start the backend; its reason.
    SpawnFailure(String),
    /// The operating system refused to terminate the backend; its reason.
    KillFailure(String),
    /// The payload is not valid base64; the decoder's reason.
    DecodeError(String),
    /// The decoded bytes could not be written; the file system's reason.
    WriteFailure(String),
}

pub open spec fn status_text(s: Status) -> Seq<char> {
    match s {
        Status::Started => "Python backend started successfully"@,
        Status::AlreadyRunning => "Backend already running"@,
        Status::Stopped => "Backend stopped"@,
        Status::NotRunning => "Backend was not running"@,
        Status::Saved(path) => "File saved successfully to: "@ + path@,
    }
}

pub open spec fn error_text(e: ShellError) -> Seq<char> {
    match e {
        ShellError::ResourceNotFound => "Failed to find backend resource in any expected location"@,
        ShellError::SpawnFailure(why) => "Failed to start Python backend: "@ + why@,
        ShellError::KillFailure(why) => "Failed to stop backend: "@ + why@,
        ShellError::DecodeError(why) => "Failed to decode base64: "@ + why@,
        ShellError::WriteFailure(why) => "Failed to write file: "@ + why@,
    }
}

fn prefixed(prefix: &str, rest: &String) -> (r: String)
    ensures
        r@ == prefix@ + rest@,
{
    let mut r = String::from_str(prefix);
    r.append(rest.as_str());
    r
}

impl Status {
    /// The message shown to the user.
    pub fn message(&self) -> (r: String)
        ensures
            r@ == status_text(*self),
    {
        match self {
            Status::Started => String::from_str("Python backend started successfully"),
            Status::AlreadyRunning => String::from_str("Backend already running"),
            Status::Stopped => String::from_str("Backend stopped"),
            Status::NotRunning => String::from_str("Backend was not running"),
            Status::Saved(path) => prefixed("File saved successfully to: ", path),
        }
    }
}

impl ShellError {
    /// The message shown to the user.
    pub fn message(&self) -> (r: String)
        ensures
            r@ == error_text(*self),
    {
        match self {
            ShellError::ResourceNotFound => String::from_str(
                "Failed to find backend resource in any expected location",
            ),
            ShellError::SpawnFailure(why) => prefixed("Failed to start Python backend: ", why),
            ShellError::KillFailure(why) => prefixed("Failed to stop backend: ", why),
            ShellError::DecodeError(why) => prefixed("Failed to decode base64: ", why),
            ShellError::WriteFailure(why) => prefixed("Failed to write file: ", why),
        }
    }
}

} // verus!

use vstd::prelude::*;

use crate::audio::AudioError;

verus! {

/// The failures that a caller of the library can observe.
#[derive(Debug)]
pub enum Error {
    /// The audio backend refused an operation.
    Audio(AudioError),
    /// The resolved path does not name a regular file.
    FileNotFound(String),
    /// The path was rejected by the sandbox: the reason and the path as given.
    InvalidPath(&'static str, String),
}

impl Error {
    /// A human-readable description of the error.
    pub fn message(&self) -> (r: String)
        ensures
            r@ == match self {
                Error::Audio(e) => "Audio error: "@ + ("Failed to play sound: "@ + e.detail()),
                Error::FileNotFound(p) => "File not found: "@ + p@,
                Error::InvalidPath(reason, _) => "Invalid path: "@ + reason@,
            },
    {
        match self {
            Error::Audio(e) => {
                let mut s = "Audio error: ".to_owned();
                s.append(e.message().as_str());
                s
            },
            Error::FileNotFound(p) => {
                let mut s = "File not found: ".to_owned();
                s.append(p.as_str());
                s
            },
            Error::InvalidPath(reason, _) => {
                let mut s = "Invalid path: ".to_owned();
                s.append(reason);
                s
            },
        }
    }
}

} // verus!

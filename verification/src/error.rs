//! Errors of a session.

use vstd::prelude::*;
use vstd::string::*;

verus! {

/// Errors returned by [`SplitStreamBuilder::start`](crate::SplitStreamBuilder::start).
#[derive(Debug)]
pub enum SplitStreamError {
    NoBackend,
    NoMicDevice,
    SysAudioTap(String),
    ModelLoad(String),
}

impl SplitStreamError {
    /// The text shown to the user.
    pub open spec fn text(self) -> Seq<char> {
        match self {
            SplitStreamError::NoBackend =>
                "no backend configured — call with_deepgram, with_whisper, or with_parakeet"@,
            SplitStreamError::NoMicDevice => "no default microphone device found"@,
            SplitStreamError::SysAudioTap(cause) => "sys audio tap failed: "@ + cause@,
            SplitStreamError::ModelLoad(cause) => "model load failed: "@ + cause@,
        }
    }

    /// Writes the error for the user.
    pub fn message(&self) -> (message: String)
        ensures
            message@ == self.text(),
    {
        match self {
            SplitStreamError::NoBackend => String::from_str(
                "no backend configured — call with_deepgram, with_whisper, or with_parakeet",
            ),
            SplitStreamError::NoMicDevice => String::from_str("no default microphone device found"),
            SplitStreamError::SysAudioTap(cause) => String::from_str(
                "sys audio tap failed: ",
            ).concat(cause.as_str()),
            SplitStreamError::ModelLoad(cause) => String::from_str("model load failed: ").concat(
                cause.as_str(),
            ),
        }
    }
}

/// What can go wrong when the devices and the backend of a session are opened.
#[derive(Debug)]
pub enum OpenError {
    NoMicDevice,
    SysAudioTap(String),
    ModelLoad(String),
}

impl OpenError {
    /// The error that the session reports.
    pub open spec fn reported(self) -> SplitStreamError {
        match self {
            OpenError::NoMicDevice => SplitStreamError::NoMicDevice,
            OpenError::SysAudioTap(cause) => SplitStreamError::SysAudioTap(cause),
            OpenError::ModelLoad(cause) => SplitStreamError::ModelLoad(cause),
        }
    }

    /// Turns the error into the one that the session reports.
    pub fn report(self) -> (error: SplitStreamError)
        ensures
            error == self.reported(),
    {
        match self {
            OpenError::NoMicDevice => SplitStreamError::NoMicDevice,
            OpenError::SysAudioTap(cause) => SplitStreamError::SysAudioTap(cause),
            OpenError::ModelLoad(cause) => SplitStreamError::ModelLoad(cause),
        }
    }
}

} // verus!

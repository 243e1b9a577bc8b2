//! What can go wrong, and which of it the player survives.

use vstd::prelude::*;
use vstd::string::*;

verus! {

/// Why a seek did not happen.
#[derive(Debug)]
pub enum SeekError {
    /// The audio side went away before it answered.
    ErrorChannelClosed,
    /// The decoder refused; the text is its reason.
    SeekFailed(String),
}

impl SeekError {
    /// The error in words.
    pub open spec fn spec_message(&self) -> Seq<char> {
        match *self {
            SeekError::ErrorChannelClosed => "Internal Player Error: SeekError channel closed"@,
            SeekError::SeekFailed(reason) => reason@,
        }
    }

    /// The error in words: for a seek that the decoder refused, the
    /// decoder's reason.
    pub fn message(&self) -> (text: String)
        ensures
            text@ == self.spec_message(),
    {
        match self {
            SeekError::ErrorChannelClosed => {
                "Internal Player Error: SeekError channel closed".to_owned()
            },
            SeekError::SeekFailed(reason) => reason.clone(),
        }
    }
}

/// Why a track could not be loaded. Each text is the reason that the failing
/// layer gave.
#[derive(Debug)]
pub enum LoadTrackError {
    CannonicalizeFailed(String),
    OpenFailed(String),
    ReadDirFailed(String),
    ProbeFailed(String),
    CodecNotSupported,
    DecodingFailed(String),
}

impl LoadTrackError {
    /// The error in words.
    pub open spec fn spec_message(&self) -> Seq<char> {
        match *self {
            LoadTrackError::CannonicalizeFailed(reason) => reason@,
            LoadTrackError::OpenFailed(reason) => reason@,
            LoadTrackError::ReadDirFailed(reason) => reason@,
            LoadTrackError::ProbeFailed(reason) => reason@,
            LoadTrackError::CodecNotSupported => "Track has no supported audio codec"@,
            LoadTrackError::DecodingFailed(reason) => reason@,
        }
    }

    /// The error in words: the reason that the failing layer gave, where
    /// it gave one.
    pub fn message(&self) -> (text: String)
        ensures
            text@ == self.spec_message(),
    {
        match self {
            LoadTrackError::CannonicalizeFailed(reason) => reason.clone(),
            LoadTrackError::OpenFailed(reason) => reason.clone(),
            LoadTrackError::ReadDirFailed(reason) => reason.clone(),
            LoadTrackError::ProbeFailed(reason) => reason.clone(),
            LoadTrackError::CodecNotSupported => "Track has no supported audio codec".to_owned(),
            LoadTrackError::DecodingFailed(reason) => reason.clone(),
        }
    }
}

/// Why an operation of the player failed.
#[derive(Debug)]
pub enum PlayerError {
    /// The audio side is gone.
    SourceChannelClosed,
    /// Nobody listens for events any more.
    EventChannelClosed,
    LoadTrack(LoadTrackError),
    SeekFailed(SeekError),
}

impl PlayerError {
    /// Whether the player goes on after this error: it does after a track
    /// that would not load and after a seek that failed, and not after the
    /// loss of a channel.
    pub open spec fn spec_is_recoverable(&self) -> bool {
        self is LoadTrack || self is SeekFailed
    }

    #[verifier::when_used_as_spec(spec_is_recoverable)]
    pub fn is_recoverable(&self) -> (recoverable: bool)
        ensures
            recoverable == self.spec_is_recoverable(),
    {
        match self {
            PlayerError::LoadTrack(_) => true,
            PlayerError::SeekFailed(_) => true,
            _ => false,
        }
    }
}

impl PlayerError {
    /// The error in words.
    pub open spec fn spec_message(&self) -> Seq<char> {
        match *self {
            PlayerError::SourceChannelClosed => {
                "Internal Player Error: SourceEvent channel closed"@
            },
            PlayerError::EventChannelClosed => "Event channel closed"@,
            PlayerError::LoadTrack(error) => "Failed to load track: "@ + error.spec_message(),
            PlayerError::SeekFailed(_) => "failed to seek: "@,
        }
    }

    /// The error in words.
    pub fn message(&self) -> (text: String)
        ensures
            text@ == self.spec_message(),
    {
        match self {
            PlayerError::SourceChannelClosed => {
                "Internal Player Error: SourceEvent channel closed".to_owned()
            },
            PlayerError::EventChannelClosed => "Event channel closed".to_owned(),
            PlayerError::LoadTrack(error) => {
                let mut text = "Failed to load track: ".to_owned();
                let reason = error.message();
                text.append(reason.as_str());
                text
            },
            PlayerError::SeekFailed(_) => "failed to seek: ".to_owned(),
        }
    }
}

/// Why the server stopped serving.
#[derive(Debug)]
pub enum AudioServerError {
    /// No front-end can reach the server any more.
    MessageChannelClosed,
    PlayerError(PlayerError),
    /// A plugin failed; the text is its reason.
    PluginError(String),
}

impl AudioServerError {
    /// Whether the server goes on after this error: only after an error of
    /// the player that the player itself survives.
    pub open spec fn spec_is_recoverable(&self) -> bool {
        match *self {
            AudioServerError::PlayerError(error) => error.spec_is_recoverable(),
            _ => false,
        }
    }

    #[verifier::when_used_as_spec(spec_is_recoverable)]
    pub fn is_recoverable(&self) -> (recoverable: bool)
        ensures
            recoverable == self.spec_is_recoverable(),
    {
        match self {
            AudioServerError::PlayerError(error) => error.is_recoverable(),
            _ => false,
        }
    }
}

impl AudioServerError {
    /// The error in words.
    pub open spec fn spec_message(&self) -> Seq<char> {
        match *self {
            AudioServerError::MessageChannelClosed => "AudioServer Message channel closed"@,
            AudioServerError::PlayerError(error) => error.spec_message(),
            AudioServerError::PluginError(reason) => reason@,
        }
    }

    /// The error in words: for an error of the player or of a plugin,
    /// theirs.
    pub fn message(&self) -> (text: String)
        ensures
            text@ == self.spec_message(),
    {
        match self {
            AudioServerError::MessageChannelClosed => {
                "AudioServer Message channel closed".to_owned()
            },
            AudioServerError::PlayerError(error) => error.message(),
            AudioServerError::PluginError(reason) => reason.clone(),
        }
    }
}

} // verus!

//! The events that the player and the loader report.

use vstd::prelude::*;

verus! {

/// What the player reports, after the media element's events.
#[derive(Clone, Debug)]
pub enum PlayerEvent {
    /// Playback started or resumed.
    Play,
    /// Playback paused.
    Pause,
    /// Waiting for data.
    Waiting,
    /// Playing with enough data.
    Playing,
    /// The source played to its end.
    Ended,
    /// The loaded source was cleared.
    Emptied,
    /// The known total duration changed.
    DurationChange,
    /// The volume changed.
    VolumeChange,
    /// A seek started.
    Seeking,
    /// A seek finished.
    Seeked,
    /// Loading started.
    LoadStart,
    /// The source's data is ready.
    LoadedData,
    /// The source's metadata is ready.
    LoadedMetadata,
    /// Something failed.
    Error { message: String },
}

impl PlayerEvent {
    /// Which kind of event this is, as a number.
    pub open spec fn kind_spec(&self) -> nat {
        match self {
            PlayerEvent::Play => 0,
            PlayerEvent::Pause => 1,
            PlayerEvent::Waiting => 2,
            PlayerEvent::Playing => 3,
            PlayerEvent::Ended => 4,
            PlayerEvent::Emptied => 5,
            PlayerEvent::DurationChange => 6,
            PlayerEvent::VolumeChange => 7,
            PlayerEvent::Seeking => 8,
            PlayerEvent::Seeked => 9,
            PlayerEvent::LoadStart => 10,
            PlayerEvent::LoadedData => 11,
            PlayerEvent::LoadedMetadata => 12,
            PlayerEvent::Error { .. } => 13,
        }
    }

    fn kind(&self) -> (r: u8)
        ensures
            r as nat == self.kind_spec(),
    {
        match self {
            PlayerEvent::Play => 0,
            PlayerEvent::Pause => 1,
            PlayerEvent::Waiting => 2,
            PlayerEvent::Playing => 3,
            PlayerEvent::Ended => 4,
            PlayerEvent::Emptied => 5,
            PlayerEvent::DurationChange => 6,
            PlayerEvent::VolumeChange => 7,
            PlayerEvent::Seeking => 8,
            PlayerEvent::Seeked => 9,
            PlayerEvent::LoadStart => 10,
            PlayerEvent::LoadedData => 11,
            PlayerEvent::LoadedMetadata => 12,
            PlayerEvent::Error { .. } => 13,
        }
    }
}

impl PartialEq for PlayerEvent {
    fn eq(&self, o: &PlayerEvent) -> (r: bool) {
        match self {
            PlayerEvent::Error { message: a } => match o {
                PlayerEvent::Error { message: b } => a.eq(b),
                _ => false,
            },
            _ => self.kind() == o.kind(),
        }
    }
}

impl vstd::std_specs::cmp::PartialEqSpecImpl for PlayerEvent {
    open spec fn obeys_eq_spec() -> bool {
        true
    }

    open spec fn eq_spec(&self, o: &PlayerEvent) -> bool {
        match self {
            PlayerEvent::Error { message: a } => match o {
                PlayerEvent::Error { message: b } => a@ == b@,
                _ => false,
            },
            _ => self.kind_spec() == o.kind_spec(),
        }
    }
}

/// What the loader reports to the player's user.
#[derive(Clone, Copy, Debug, PartialEq, Eq, Structural)]
pub enum LoaderEvent {
    /// The download finished.
    Completed,
    /// The download was interrupted.
    Aborted,
}

} // verus!

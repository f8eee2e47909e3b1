//! The player's source lifecycle: what each operation does to the player's
//! flags, and the ordered list of actions (sink operations, signals to the
//! reader, events) that carrying it out takes.

use vstd::prelude::*;
use std::time::Duration;
use crate::events::PlayerEvent;

verus! {

/// Descriptive tags of a track.
pub struct AudioMetadata {
    pub title: String,
    pub artist: String,
    pub album: String,
}

/// One step of carrying out a player operation, in the order given.
#[derive(Clone, Debug)]
pub enum PlayerAction {
    /// Stop the current sink and drop what it queued.
    StopSink,
    /// Install a fresh sink on the same output, paused or playing, with no
    /// known duration.
    NewSink { paused: bool },
    /// Drop the downloader of the streamed source.
    DropLoader,
    /// Set the streamed source's cancellation signal.
    CancelReader,
    /// Wake every reader waiting for the streamed source's data.
    NotifyReaders,
    /// Hand this event to the player's callback.
    Emit(PlayerEvent),
    /// Append the decoded source to the sink.
    AppendSource,
    /// Append, after it, the marker that reports the end of the source.
    AppendEndedCallback,
    /// Keep the streamed source's downloader, signal and wake-up handles.
    KeepStreamHandles,
    /// Resume the sink.
    PlaySink,
    /// Pause the sink.
    PauseSink,
}

/// The player's flags.
pub struct PlayerView {
    /// No source is loaded.
    pub empty: bool,
    /// The loaded source played to its end.
    pub ended: bool,
    /// The latest explicit wish: playing (after `play`) or paused.
    pub autoplay: bool,
    /// The sink is paused.
    pub sink_paused: bool,
    /// The total duration of the loaded source, when known.
    pub duration: Option<Duration>,
    /// The loaded source is streamed from the network.
    pub streaming: bool,
}

impl PlayerView {
    pub open spec fn wf(self) -> bool {
        &&& self.sink_paused == !self.autoplay
        &&& self.empty ==> !self.ended && !self.streaming && self.duration.is_none()
    }
}

pub open spec fn emit(e: PlayerEvent) -> PlayerAction {
    PlayerAction::Emit(e)
}

/// Clearing the current source: stop the sink, install a fresh one that
/// follows the autoplay wish, release a streamed source's downloader and
/// unblock its reader, then report the source gone and the duration
/// unknown when they were not already.
pub open spec fn clear_spec(v: PlayerView) -> (PlayerView, Seq<PlayerAction>) {
    let actions = seq![PlayerAction::StopSink, PlayerAction::NewSink { paused: !v.autoplay }] + (
    if v.streaming {
        seq![PlayerAction::DropLoader, PlayerAction::CancelReader, PlayerAction::NotifyReaders]
    } else {
        Seq::empty()
    }) + (if !v.empty {
        seq![emit(PlayerEvent::Emptied)]
    } else {
        Seq::empty()
    }) + (if v.duration.is_some() {
        seq![emit(PlayerEvent::DurationChange)]
    } else {
        Seq::empty()
    });
    let after = PlayerView {
        empty: true,
        ended: false,
        autoplay: v.autoplay,
        sink_paused: !v.autoplay,
        duration: None,
        streaming: false,
    };
    (after, actions)
}

/// Clearing only when a source is loaded.
pub open spec fn clear_if_loaded(v: PlayerView) -> (PlayerView, Seq<PlayerAction>) {
    if !v.empty {
        clear_spec(v)
    } else {
        (v, Seq::empty())
    }
}

/// The start of a load: clear what is loaded, then report the start of
/// loading when `announce` asks for it.
pub open spec fn begin_load_spec(v: PlayerView, announce: bool) -> (PlayerView, Seq<PlayerAction>) {
    let (v1, a1) = clear_if_loaded(v);
    (v1, a1 + if announce {
        seq![emit(PlayerEvent::LoadStart)]
    } else {
        Seq::empty()
    })
}

/// The end of a load whose decoded source has duration `total`: record it,
/// report the duration, the metadata and the data, queue the source and its
/// end marker, and keep the stream handles of a streamed source.
pub open spec fn finish_load_spec(v: PlayerView, total: Option<Duration>, streaming: bool) -> (
    PlayerView,
    Seq<PlayerAction>,
) {
    let (v1, a1) = clear_if_loaded(v);
    let after = PlayerView {
        empty: false,
        ended: false,
        autoplay: v1.autoplay,
        sink_paused: v1.sink_paused,
        duration: total,
        streaming,
    };
    (after, a1 + seq![
        emit(PlayerEvent::DurationChange),
        emit(PlayerEvent::LoadedMetadata),
        emit(PlayerEvent::LoadedData),
        PlayerAction::AppendSource,
        PlayerAction::AppendEndedCallback,
    ] + if streaming {
        seq![PlayerAction::KeepStreamHandles]
    } else {
        Seq::empty()
    })
}

/// A whole load: its start, then its end.
pub open spec fn load_spec(
    v: PlayerView,
    total: Option<Duration>,
    streaming: bool,
    announce: bool,
) -> (PlayerView, Seq<PlayerAction>) {
    let (v1, a1) = begin_load_spec(v, announce);
    let (v2, a2) = finish_load_spec(v1, total, streaming);
    (v2, a1 + a2)
}

pub open spec fn play_spec(v: PlayerView) -> (PlayerView, Seq<PlayerAction>) {
    (
        PlayerView { autoplay: true, sink_paused: false, ..v },
        seq![PlayerAction::PlaySink, emit(PlayerEvent::Play)],
    )
}

pub open spec fn pause_spec(v: PlayerView) -> (PlayerView, Seq<PlayerAction>) {
    (
        PlayerView { autoplay: false, sink_paused: true, ..v },
        seq![PlayerAction::PauseSink, emit(PlayerEvent::Pause)],
    )
}

/// The events before the sink is asked to seek.
pub open spec fn seek_started_spec() -> Seq<PlayerAction> {
    seq![emit(PlayerEvent::Seeking)]
}

/// The events after the sink's seek: `Seeked` only when it succeeded.
pub open spec fn seek_finished_spec(succeeded: bool) -> Seq<PlayerAction> {
    if succeeded {
        seq![emit(PlayerEvent::Seeked)]
    } else {
        Seq::empty()
    }
}

/// A seek reports `Seeking` then `Seeked` when the sink's seek succeeds, and
/// `Seeking` alone when it fails.
pub proof fn law_seek_events(succeeded: bool)
    ensures
        seek_started_spec() + seek_finished_spec(succeeded) == if succeeded {
            seq![emit(PlayerEvent::Seeking), emit(PlayerEvent::Seeked)]
        } else {
            seq![emit(PlayerEvent::Seeking)]
        },
{
    assert(seek_started_spec() + seek_finished_spec(succeeded) =~= if succeeded {
        seq![emit(PlayerEvent::Seeking), emit(PlayerEvent::Seeked)]
    } else {
        seq![emit(PlayerEvent::Seeking)]
    });
}

/// The end marker of the loaded source was reached.
pub open spec fn source_ended_spec(v: PlayerView) -> (PlayerView, Seq<PlayerAction>) {
    if !v.empty {
        (PlayerView { ended: true, ..v }, seq![emit(PlayerEvent::Ended)])
    } else {
        (v, Seq::empty())
    }
}

/// Loading the same file twice into a player with nothing loaded leaves it
/// as one load does, and the second load clears the first: exactly one
/// `Emptied`, and `LoadedMetadata` once per load.
pub proof fn law_load_twice(v: PlayerView, total: Option<Duration>)
    requires
        v.wf(),
        v.empty,
    ensures
        ({
            let (v1, a1) = load_spec(v, total, false, false);
            let (v2, a2) = load_spec(v1, total, false, false);
            let loaded = seq![
                emit(PlayerEvent::DurationChange),
                emit(PlayerEvent::LoadedMetadata),
                emit(PlayerEvent::LoadedData),
                PlayerAction::AppendSource,
                PlayerAction::AppendEndedCallback,
            ];
            &&& v2 == v1
            &&& a1 == loaded
            &&& a2 == seq![
                PlayerAction::StopSink,
                PlayerAction::NewSink { paused: !v.autoplay },
                emit(PlayerEvent::Emptied),
            ] + (if total.is_some() {
                seq![emit(PlayerEvent::DurationChange)]
            } else {
                Seq::empty()
            }) + loaded
        }),
{
    let (v1, a1) = load_spec(v, total, false, false);
    let (v2, a2) = load_spec(v1, total, false, false);
    assert(a1 =~= seq![
        emit(PlayerEvent::DurationChange),
        emit(PlayerEvent::LoadedMetadata),
        emit(PlayerEvent::LoadedData),
        PlayerAction::AppendSource,
        PlayerAction::AppendEndedCallback,
    ]);
    assert(a2 =~= seq![
        PlayerAction::StopSink,
        PlayerAction::NewSink { paused: !v.autoplay },
        emit(PlayerEvent::Emptied),
    ] + (if total.is_some() {
        seq![emit(PlayerEvent::DurationChange)]
    } else {
        Seq::empty()
    }) + seq![
        emit(PlayerEvent::DurationChange),
        emit(PlayerEvent::LoadedMetadata),
        emit(PlayerEvent::LoadedData),
        PlayerAction::AppendSource,
        PlayerAction::AppendEndedCallback,
    ]);
}

/// A load keeps the latest play or pause wish: after `play` the new source
/// plays without another `play`, after `pause` it stays paused.
pub proof fn law_autoplay(v: PlayerView, total: Option<Duration>, streaming: bool, announce: bool)
    requires
        v.wf(),
    ensures
        !load_spec(play_spec(v).0, total, streaming, announce).0.sink_paused,
        load_spec(play_spec(v).0, total, streaming, announce).0.autoplay,
        load_spec(pause_spec(v).0, total, streaming, announce).0.sink_paused,
        !load_spec(pause_spec(v).0, total, streaming, announce).0.autoplay,
{
}

/// Clearing a streamed source drops its downloader, sets its reader's
/// cancellation signal and wakes the reader, in that order, before any event;
/// afterwards nothing is held of it.
pub proof fn law_clear_releases_stream(v: PlayerView)
    requires
        v.wf(),
        v.streaming,
    ensures
        clear_spec(v).1.subrange(2, 5) == seq![
            PlayerAction::DropLoader,
            PlayerAction::CancelReader,
            PlayerAction::NotifyReaders,
        ],
        !clear_spec(v).0.streaming,
        clear_spec(v).0.empty,
{
    assert(clear_spec(v).1.subrange(2, 5) =~= seq![
        PlayerAction::DropLoader,
        PlayerAction::CancelReader,
        PlayerAction::NotifyReaders,
    ]);
}

/// The flags of a player and the rules that change them.
pub struct PlayerState {
    empty: bool,
    ended: bool,
    autoplay: bool,
    sink_paused: bool,
    duration: Option<Duration>,
    streaming: bool,
}

impl View for PlayerState {
    type V = PlayerView;

    closed spec fn view(&self) -> PlayerView {
        PlayerView {
            empty: self.empty,
            ended: self.ended,
            autoplay: self.autoplay,
            sink_paused: self.sink_paused,
            duration: self.duration,
            streaming: self.streaming,
        }
    }
}

impl PlayerState {
    /// A player with nothing loaded and a paused sink.
    pub fn new() -> (r: Self)
        ensures
            r@ == (PlayerView {
                empty: true,
                ended: false,
                autoplay: false,
                sink_paused: true,
                duration: None,
                streaming: false,
            }),
            r@.wf(),
    {
        PlayerState {
            empty: true,
            ended: false,
            autoplay: false,
            sink_paused: true,
            duration: None,
            streaming: false,
        }
    }

    pub fn empty(&self) -> (r: bool)
        ensures
            r == self@.empty,
    {
        self.empty
    }

    pub fn ended(&self) -> (r: bool)
        ensures
            r == self@.ended,
    {
        self.ended
    }

    pub fn autoplay(&self) -> (r: bool)
        ensures
            r == self@.autoplay,
    {
        self.autoplay
    }

    pub fn sink_paused(&self) -> (r: bool)
        ensures
            r == self@.sink_paused,
    {
        self.sink_paused
    }

    pub fn streaming(&self) -> (r: bool)
        ensures
            r == self@.streaming,
    {
        self.streaming
    }

    pub fn duration(&self) -> (r: Option<Duration>)
        ensures
            r == self@.duration,
    {
        self.duration
    }

    /// Clears the current source (on stop, on teardown, before a load).
    pub fn clear(&mut self) -> (r: Vec<PlayerAction>)
        requires
            old(self)@.wf(),
        ensures
            (final(self)@, r@) == clear_spec(old(self)@),
            final(self)@.wf(),
    {
        let ghost v = self@;
        let mut r: Vec<PlayerAction> = Vec::new();
        r.push(PlayerAction::StopSink);
        r.push(PlayerAction::NewSink { paused: !self.autoplay });
        if self.streaming {
            r.push(PlayerAction::DropLoader);
            r.push(PlayerAction::CancelReader);
            r.push(PlayerAction::NotifyReaders);
        }
        if !self.empty {
            r.push(PlayerAction::Emit(PlayerEvent::Emptied));
        }
        if self.duration.is_some() {
            r.push(PlayerAction::Emit(PlayerEvent::DurationChange));
        }
        self.empty = true;
        self.ended = false;
        self.sink_paused = !self.autoplay;
        self.duration = None;
        self.streaming = false;
        assert(r@ =~= clear_spec(v).1);
        r
    }

    fn clear_if_loaded(&mut self) -> (r: Vec<PlayerAction>)
        requires
            old(self)@.wf(),
        ensures
            (final(self)@, r@) == clear_if_loaded(old(self)@),
            final(self)@.wf(),
    {
        if !self.empty {
            self.clear()
        } else {
            Vec::new()
        }
    }

    /// The start of a load; `announce` asks for a load-start event.
    pub fn begin_load(&mut self, announce: bool) -> (r: Vec<PlayerAction>)
        requires
            old(self)@.wf(),
        ensures
            (final(self)@, r@) == begin_load_spec(old(self)@, announce),
            final(self)@.wf(),
    {
        let ghost v = self@;
        let mut r = self.clear_if_loaded();
        if announce {
            r.push(PlayerAction::Emit(PlayerEvent::LoadStart));
        }
        assert(r@ =~= begin_load_spec(v, announce).1);
        r
    }

    /// The end of a load whose decoded source has duration `total`;
    /// `streaming` tells a network source.
    pub fn finish_load(&mut self, total: Option<Duration>, streaming: bool) -> (r: Vec<
        PlayerAction,
    >)
        requires
            old(self)@.wf(),
        ensures
            (final(self)@, r@) == finish_load_spec(old(self)@, total, streaming),
            final(self)@.wf(),
    {
        let ghost v = self@;
        let mut r = self.clear_if_loaded();
        self.empty = false;
        self.ended = false;
        self.duration = total;
        self.streaming = streaming;
        r.push(PlayerAction::Emit(PlayerEvent::DurationChange));
        r.push(PlayerAction::Emit(PlayerEvent::LoadedMetadata));
        r.push(PlayerAction::Emit(PlayerEvent::LoadedData));
        r.push(PlayerAction::AppendSource);
        r.push(PlayerAction::AppendEndedCallback);
        if streaming {
            r.push(PlayerAction::KeepStreamHandles);
        }
        assert(r@ =~= finish_load_spec(v, total, streaming).1);
        r
    }

    /// A load that failed after it started: the failure is reported.
    pub fn load_failed(&self, message: String) -> (r: Vec<PlayerAction>)
        ensures
            r@ == seq![emit(PlayerEvent::Error { message })],
    {
        let mut r: Vec<PlayerAction> = Vec::new();
        r.push(PlayerAction::Emit(PlayerEvent::Error { message }));
        assert(r@ =~= seq![emit(PlayerEvent::Error { message })]);
        r
    }

    pub fn play(&mut self) -> (r: Vec<PlayerAction>)
        requires
            old(self)@.wf(),
        ensures
            (final(self)@, r@) == play_spec(old(self)@),
            final(self)@.wf(),
    {
        self.autoplay = true;
        self.sink_paused = false;
        let mut r: Vec<PlayerAction> = Vec::new();
        r.push(PlayerAction::PlaySink);
        r.push(PlayerAction::Emit(PlayerEvent::Play));
        assert(r@ =~= play_spec(old(self)@).1);
        r
    }

    pub fn pause(&mut self) -> (r: Vec<PlayerAction>)
        requires
            old(self)@.wf(),
        ensures
            (final(self)@, r@) == pause_spec(old(self)@),
            final(self)@.wf(),
    {
        self.autoplay = false;
        self.sink_paused = true;
        let mut r: Vec<PlayerAction> = Vec::new();
        r.push(PlayerAction::PauseSink);
        r.push(PlayerAction::Emit(PlayerEvent::Pause));
        assert(r@ =~= pause_spec(old(self)@).1);
        r
    }

    /// The events around a seek: `Seeking` before the sink is asked.
    pub fn seek_started(&self) -> (r: Vec<PlayerAction>)
        ensures
            r@ == seek_started_spec(),
    {
        let mut r: Vec<PlayerAction> = Vec::new();
        r.push(PlayerAction::Emit(PlayerEvent::Seeking));
        assert(r@ =~= seq![emit(PlayerEvent::Seeking)]);
        r
    }

    /// After the sink's seek: `Seeked` only when it succeeded.
    pub fn seek_finished(&self, succeeded: bool) -> (r: Vec<PlayerAction>)
        ensures
            r@ == seek_finished_spec(succeeded),
    {
        let mut r: Vec<PlayerAction> = Vec::new();
        if succeeded {
            r.push(PlayerAction::Emit(PlayerEvent::Seeked));
        }
        assert(r@ =~= if succeeded {
            seq![emit(PlayerEvent::Seeked)]
        } else {
            Seq::<PlayerAction>::empty()
        });
        r
    }

    pub fn volume_changed(&self) -> (r: Vec<PlayerAction>)
        ensures
            r@ == seq![emit(PlayerEvent::VolumeChange)],
    {
        let mut r: Vec<PlayerAction> = Vec::new();
        r.push(PlayerAction::Emit(PlayerEvent::VolumeChange));
        assert(r@ =~= seq![emit(PlayerEvent::VolumeChange)]);
        r
    }

    /// The end marker of the loaded source was reached.
    pub fn source_ended(&mut self) -> (r: Vec<PlayerAction>)
        requires
            old(self)@.wf(),
        ensures
            (final(self)@, r@) == source_ended_spec(old(self)@),
            final(self)@.wf(),
    {
        let mut r: Vec<PlayerAction> = Vec::new();
        if !self.empty {
            self.ended = true;
            r.push(PlayerAction::Emit(PlayerEvent::Ended));
        }
        assert(r@ =~= source_ended_spec(old(self)@).1);
        r
    }
}

} // verus!

//! The playback session: one record (current track, volume, active sink)
//! and the transitions on it. Each transition that changes what is
//! sounding (load, seek, stop) asks for a new sink, which the caller builds
//! from a `SinkState` request, and then commits with the outcome of that
//! build: a failed build leaves the record as it was.
use vstd::prelude::*;
use crate::level::{Level, at_least_zero, clamp_unit, in_unit, is_nan, ZERO_BITS, ONE_BITS};

verus! {

/// Kind of a status notification.
#[derive(Clone, Copy, Debug, PartialEq, Eq, Structural)]
pub enum Status {
    Playing,
    Paused,
    Stopped,
    Volume,
    Seeking,
}

impl Status {
    pub open spec fn name(self) -> Seq<char> {
        match self {
            Status::Playing => "playing"@,
            Status::Paused => "paused"@,
            Status::Stopped => "stopped"@,
            Status::Volume => "volume"@,
            Status::Seeking => "seeking"@,
        }
    }

    /// The name observers receive.
    pub fn as_str(&self) -> (r: &'static str)
        ensures
            r@ == self.name(),
    {
        match self {
            Status::Playing => "playing",
            Status::Paused => "paused",
            Status::Stopped => "stopped",
            Status::Volume => "volume",
            Status::Seeking => "seeking",
        }
    }
}

/// What a sink was filled with: a file, played from `start` seconds on.
#[derive(Debug)]
pub struct Cue {
    pub path: String,
    pub start: Level,
}

/// A sink as the session knows it: its gain, what it plays (nothing for an
/// empty sink) and whether it is paused.
#[derive(Debug)]
pub struct SinkState {
    pub gain: Level,
    pub cue: Option<Cue>,
    pub paused: bool,
}

/// A newly built sink: not paused.
pub open spec fn fresh_sink(gain: Level, cue: Option<Cue>) -> SinkState {
    SinkState { gain, cue, paused: false }
}

/// A notification sent after a transition.
#[derive(Debug)]
pub struct StatusEvent {
    pub status: Status,
    pub file_path: Option<String>,
    pub position: Option<Level>,
    pub volume: Option<Level>,
}

/// What the caller does to its sink to follow a transition.
#[derive(Clone, Copy, Debug, PartialEq, Eq, Structural)]
pub enum SinkCommand {
    Pause,
    Resume,
    SetGain(Level),
    /// Stop the active sink and put the newly built one in its place.
    Install,
}

/// The outcome of a successful transition.
#[derive(Debug)]
pub struct Transition {
    pub command: SinkCommand,
    pub event: StatusEvent,
}

/// Failure of a session operation, with the detail the caller reports.
#[derive(Debug)]
pub enum PlaybackError {
    /// The file could not be opened or read.
    Io(String),
    /// The file holds no playable audio.
    Decode(String),
    /// The output device could not give a sink.
    Device(String),
    /// A seek with no track loaded.
    NoTrackLoaded,
    /// The session could not be locked.
    Lock(String),
}

/// Failure to build a sink that the session asked for.
#[derive(Debug)]
pub enum BuildError {
    /// The file could not be opened or read.
    Io(String),
    /// The file holds no playable audio.
    Decode(String),
    /// The output device could not give a sink.
    Device(String),
}

pub open spec fn build_failure(e: BuildError) -> PlaybackError {
    match e {
        BuildError::Io(d) => PlaybackError::Io(d),
        BuildError::Decode(d) => PlaybackError::Decode(d),
        BuildError::Device(d) => PlaybackError::Device(d),
    }
}

impl BuildError {
    /// The operation's error for this build failure.
    pub fn into_playback_error(self) -> (r: PlaybackError)
        ensures
            r == build_failure(self),
    {
        match self {
            BuildError::Io(d) => PlaybackError::Io(d),
            BuildError::Decode(d) => PlaybackError::Decode(d),
            BuildError::Device(d) => PlaybackError::Device(d),
        }
    }
}

pub open spec fn error_message(e: PlaybackError) -> Seq<char> {
    match e {
        PlaybackError::Io(d) => "File opening error: "@ + d@,
        PlaybackError::Decode(d) => "Decoder error: "@ + d@,
        PlaybackError::Device(d) => "Sink creation error: "@ + d@,
        PlaybackError::NoTrackLoaded => "No track loaded"@,
        PlaybackError::Lock(d) => "Mutex lock error: "@ + d@,
    }
}

impl PlaybackError {
    /// The text shown to the user.
    pub fn message(&self) -> (r: String)
        ensures
            r@ == error_message(*self),
    {
        match self {
            PlaybackError::Io(d) => String::from_str("File opening error: ").concat(d.as_str()),
            PlaybackError::Decode(d) => String::from_str("Decoder error: ").concat(d.as_str()),
            PlaybackError::Device(d) => String::from_str("Sink creation error: ").concat(d.as_str()),
            PlaybackError::NoTrackLoaded => String::from_str("No track loaded"),
            PlaybackError::Lock(d) => String::from_str("Mutex lock error: ").concat(d.as_str()),
        }
    }
}

/// The session record as a value.
pub struct SessionView {
    pub track: Option<String>,
    pub volume: Level,
    pub sink: SinkState,
}

impl SessionView {
    /// The volume lies in `[0, 1]` and is the active sink's gain; a track is
    /// loaded exactly when the active sink plays it.
    pub open spec fn wf(self) -> bool {
        &&& in_unit(self.volume.bits)
        &&& self.sink.gain == self.volume
        &&& match self.track {
            None => self.sink.cue is None,
            Some(t) => self.sink.cue is Some && self.sink.cue->0.path == t,
        }
    }
}

/// The session before any operation: no track, full volume, an empty sink.
pub open spec fn idle() -> SessionView {
    SessionView {
        track: None,
        volume: Level { bits: ONE_BITS },
        sink: fresh_sink(Level { bits: ONE_BITS }, None),
    }
}

pub open spec fn zero() -> Level {
    Level { bits: ZERO_BITS }
}

pub open spec fn load_sink(s: SessionView, path: String) -> SinkState {
    fresh_sink(s.volume, Some(Cue { path, start: zero() }))
}

pub open spec fn after_load(s: SessionView, path: String) -> SessionView {
    SessionView { track: Some(path), volume: s.volume, sink: load_sink(s, path) }
}

pub open spec fn load_event(s: SessionView, path: String) -> StatusEvent {
    StatusEvent {
        status: Status::Playing,
        file_path: Some(path),
        position: Some(zero()),
        volume: Some(s.volume),
    }
}

pub open spec fn after_pause(s: SessionView) -> SessionView {
    SessionView { sink: SinkState { paused: true, ..s.sink }, ..s }
}

pub open spec fn after_resume(s: SessionView) -> SessionView {
    SessionView { sink: SinkState { paused: false, ..s.sink }, ..s }
}

/// The event of a transition that keeps the track, without a position.
pub open spec fn track_event(s: SessionView, status: Status) -> StatusEvent {
    StatusEvent { status, file_path: s.track, position: None, volume: Some(s.volume) }
}

pub open spec fn stop_sink(s: SessionView) -> SinkState {
    fresh_sink(s.volume, None)
}

pub open spec fn after_stop(s: SessionView) -> SessionView {
    SessionView { track: None, volume: s.volume, sink: stop_sink(s) }
}

pub open spec fn stop_event(s: SessionView) -> StatusEvent {
    StatusEvent { status: Status::Stopped, file_path: None, position: None, volume: Some(s.volume) }
}

/// The volume a level sets: the level clamped to `[0, 1]`, or the volume
/// as it was for a NaN.
pub open spec fn stored_volume(s: SessionView, level: Level) -> Level {
    if is_nan(level.bits) {
        s.volume
    } else {
        Level { bits: clamp_unit(level.bits) }
    }
}

pub open spec fn after_set_volume(s: SessionView, level: Level) -> SessionView {
    let v = stored_volume(s, level);
    SessionView { volume: v, sink: SinkState { gain: v, ..s.sink }, ..s }
}

pub open spec fn seek_start(position: Level) -> Level {
    Level { bits: at_least_zero(position.bits) }
}

/// The sink a seek asks for; `s.track` is loaded.
pub open spec fn seek_sink(s: SessionView, position: Level) -> SinkState {
    fresh_sink(s.volume, Some(Cue { path: s.track->0, start: seek_start(position) }))
}

pub open spec fn after_seek(s: SessionView, position: Level) -> SessionView {
    SessionView { sink: seek_sink(s, position), ..s }
}

pub open spec fn seek_event(s: SessionView, position: Level) -> StatusEvent {
    StatusEvent {
        status: Status::Seeking,
        file_path: s.track,
        position: Some(seek_start(position)),
        volume: Some(s.volume),
    }
}

/// The single playback session of the process.
pub struct Session {
    track: Option<String>,
    volume: Level,
    sink: SinkState,
}

impl View for Session {
    type V = SessionView;

    closed spec fn view(&self) -> SessionView {
        SessionView { track: self.track, volume: self.volume, sink: self.sink }
    }
}

impl Session {
    /// An idle session: no track, full volume, an empty sink.
    pub fn new() -> (r: Session)
        ensures
            r@ == idle(),
            r@.wf(),
    {
        Session {
            track: None,
            volume: Level::one(),
            sink: SinkState { gain: Level::one(), cue: None, paused: false },
        }
    }

    pub fn volume(&self) -> (r: Level)
        ensures
            r == self@.volume,
    {
        self.volume
    }

    pub fn current_track(&self) -> (r: Option<String>)
        ensures
            r == self@.track,
    {
        match &self.track {
            Some(t) => Some(t.clone()),
            None => None,
        }
    }

    pub fn sink(&self) -> (r: &SinkState)
        ensures
            *r == self@.sink,
    {
        &self.sink
    }

    /// The sink to build for playing `path` from its start.
    pub fn load_request(&self, path: &String) -> (r: SinkState)
        ensures
            r == load_sink(self@, *path),
    {
        SinkState {
            gain: self.volume,
            cue: Some(Cue { path: path.clone(), start: Level::zero() }),
            paused: false,
        }
    }

    /// Makes `path` the current track, given the outcome of building the sink
    /// that `load_request` asked for. A failed build changes nothing.
    pub fn load(&mut self, path: String, built: Result<(), BuildError>) -> (r: Result<
        Transition,
        PlaybackError,
    >)
        requires
            old(self)@.wf(),
        ensures
            final(self)@.wf(),
            match built {
                Ok(_) => {
                    &&& r == Ok::<Transition, PlaybackError>(
                        Transition { command: SinkCommand::Install, event: load_event(old(self)@, path) },
                    )
                    &&& final(self)@ == after_load(old(self)@, path)
                },
                Err(e) => r == Err::<Transition, PlaybackError>(build_failure(e)) && final(self)@ == old(self)@,
            },
    {
        match built {
            Err(e) => Err(e.into_playback_error()),
            Ok(_) => {
                self.sink = self.load_request(&path);
                self.track = Some(path.clone());
                Ok(
                    Transition {
                        command: SinkCommand::Install,
                        event: StatusEvent {
                            status: Status::Playing,
                            file_path: Some(path),
                            position: Some(Level::zero()),
                            volume: Some(self.volume),
                        },
                    },
                )
            },
        }
    }

    /// Pauses the active sink in place.
    pub fn pause(&mut self) -> (r: Transition)
        requires
            old(self)@.wf(),
        ensures
            final(self)@.wf(),
            final(self)@ == after_pause(old(self)@),
            r == (Transition {
                command: SinkCommand::Pause,
                event: track_event(old(self)@, Status::Paused),
            }),
    {
        self.sink.paused = true;
        Transition { command: SinkCommand::Pause, event: self.track_event(Status::Paused) }
    }

    /// Resumes the active sink in place.
    pub fn resume(&mut self) -> (r: Transition)
        requires
            old(self)@.wf(),
        ensures
            final(self)@.wf(),
            final(self)@ == after_resume(old(self)@),
            r == (Transition {
                command: SinkCommand::Resume,
                event: track_event(old(self)@, Status::Playing),
            }),
    {
        self.sink.paused = false;
        Transition { command: SinkCommand::Resume, event: self.track_event(Status::Playing) }
    }

    fn track_event(&self, status: Status) -> (r: StatusEvent)
        ensures
            r == track_event(self@, status),
    {
        StatusEvent {
            status,
            file_path: self.current_track(),
            position: None,
            volume: Some(self.volume),
        }
    }

    /// The empty sink to build for a stop.
    pub fn stop_request(&self) -> (r: SinkState)
        ensures
            r == stop_sink(self@),
    {
        SinkState { gain: self.volume, cue: None, paused: false }
    }

    /// Clears the current track, given the outcome of building the empty
    /// sink that `stop_request` asked for. A failed build changes nothing.
    pub fn stop(&mut self, built: Result<(), BuildError>) -> (r: Result<
        Transition,
        PlaybackError,
    >)
        requires
            old(self)@.wf(),
        ensures
            final(self)@.wf(),
            match built {
                Ok(_) => {
                    &&& r == Ok::<Transition, PlaybackError>(
                        Transition { command: SinkCommand::Install, event: stop_event(old(self)@) },
                    )
                    &&& final(self)@ == after_stop(old(self)@)
                },
                Err(e) => r == Err::<Transition, PlaybackError>(build_failure(e)) && final(self)@ == old(self)@,
            },
    {
        match built {
            Err(e) => Err(e.into_playback_error()),
            Ok(_) => {
                self.sink = self.stop_request();
                self.track = None;
                Ok(
                    Transition {
                        command: SinkCommand::Install,
                        event: StatusEvent {
                            status: Status::Stopped,
                            file_path: None,
                            position: None,
                            volume: Some(self.volume),
                        },
                    },
                )
            },
        }
    }

    /// Stores `level` clamped to `[0, 1]` and applies it to the active sink
    /// in place; a NaN level keeps the volume as it was.
    pub fn set_volume(&mut self, level: Level) -> (r: Transition)
        requires
            old(self)@.wf(),
        ensures
            final(self)@.wf(),
            final(self)@ == after_set_volume(old(self)@, level),
            !is_nan(level.bits) ==> final(self)@.volume.bits == clamp_unit(level.bits),
            is_nan(level.bits) ==> final(self)@.volume == old(self)@.volume,
            r == (Transition {
                command: SinkCommand::SetGain(final(self)@.volume),
                event: track_event(final(self)@, Status::Volume),
            }),
    {
        let v = if level.is_nan() {
            self.volume
        } else {
            level.clamp_unit()
        };
        self.volume = v;
        self.sink.gain = v;
        Transition { command: SinkCommand::SetGain(v), event: self.track_event(Status::Volume) }
    }

    /// The sink to build for playing the current track from `position`
    /// seconds (a negative or NaN position counts as zero).
    pub fn seek_request(&self, position: Level) -> (r: Result<SinkState, PlaybackError>)
        ensures
            match self@.track {
                None => r == Err::<SinkState, PlaybackError>(PlaybackError::NoTrackLoaded),
                Some(_) => r == Ok::<SinkState, PlaybackError>(seek_sink(self@, position)),
            },
    {
        match &self.track {
            None => Err(PlaybackError::NoTrackLoaded),
            Some(t) => Ok(
                SinkState {
                    gain: self.volume,
                    cue: Some(Cue { path: t.clone(), start: position.at_least_zero() }),
                    paused: false,
                },
            ),
        }
    }

    /// Replays the current track from `position`, given the outcome of
    /// building the sink that `seek_request` asked for. With no track loaded
    /// it fails with `NoTrackLoaded`; then, and on a failed build, nothing
    /// changes.
    pub fn seek_to(&mut self, position: Level, built: Result<(), BuildError>) -> (r: Result<
        Transition,
        PlaybackError,
    >)
        requires
            old(self)@.wf(),
        ensures
            final(self)@.wf(),
            r matches Err(PlaybackError::NoTrackLoaded) <==> old(self)@.track is None,
            old(self)@.track is None ==> r == Err::<Transition, PlaybackError>(
                PlaybackError::NoTrackLoaded,
            ) && final(self)@ == old(self)@,
            old(self)@.track is Some ==> match built {
                Ok(_) => {
                    &&& r == Ok::<Transition, PlaybackError>(
                        Transition {
                            command: SinkCommand::Install,
                            event: seek_event(old(self)@, position),
                        },
                    )
                    &&& final(self)@ == after_seek(old(self)@, position)
                },
                Err(e) => r == Err::<Transition, PlaybackError>(build_failure(e)) && final(self)@ == old(self)@,
            },
    {
        let request = self.seek_request(position);
        match request {
            Err(e) => Err(e),
            Ok(sink) => match built {
                Err(e) => Err(e.into_playback_error()),
                Ok(_) => {
                    self.sink = sink;
                    Ok(
                        Transition {
                            command: SinkCommand::Install,
                            event: StatusEvent {
                                status: Status::Seeking,
                                file_path: self.current_track(),
                                position: Some(position.at_least_zero()),
                                volume: Some(self.volume),
                            },
                        },
                    )
                },
            },
        }
    }
}

/// Setting the volume stores the level clamped to `[0, 1]` (a NaN level
/// keeps the volume), applies it to the active sink, and every sink asked
/// for afterwards (by a load, a seek or a stop) gets that stored value as
/// its gain.
pub proof fn lemma_volume_reaches_new_sinks(s: SessionView, level: Level, path: String, position: Level)
    requires
        s.wf(),
    ensures
        ({
            let t = after_set_volume(s, level);
            &&& t.wf()
            &&& in_unit(t.volume.bits)
            &&& !is_nan(level.bits) ==> t.volume.bits == clamp_unit(level.bits)
            &&& is_nan(level.bits) ==> t.volume == s.volume
            &&& t.sink.gain == t.volume
            &&& load_sink(t, path).gain == t.volume
            &&& stop_sink(t).gain == t.volume
            &&& t.track is Some ==> seek_sink(t, position).gain == t.volume
        }),
{
}

/// A stop that follows a load clears the current track, whether or not the
/// load succeeded.
pub proof fn lemma_stop_after_load_clears_track(s: SessionView, path: String, load_succeeded: bool)
    requires
        s.wf(),
    ensures
        ({
            let loaded = if load_succeeded { after_load(s, path) } else { s };
            &&& loaded.wf()
            &&& after_stop(loaded).track is None
            &&& after_stop(loaded).wf()
        }),
{
}

/// Every transition keeps the session well formed: the volume stays in
/// `[0, 1]` and is the active sink's gain, and a track is loaded exactly when
/// the active sink plays it.
pub proof fn lemma_transitions_keep_invariant(s: SessionView, path: String, level: Level, position: Level)
    requires
        s.wf(),
    ensures
        idle().wf(),
        after_load(s, path).wf(),
        after_pause(s).wf(),
        after_resume(s).wf(),
        after_stop(s).wf(),
        after_set_volume(s, level).wf(),
        s.track is Some ==> after_seek(s, position).wf(),
        s.track is Some ==> after_seek(s, position).track == s.track,
{
}

} // verus!

use vstd::prelude::*;

use crate::duration_text::{clock_text, format_duration};
use crate::metadata::MetadataSnapshot;
use crate::progress::{progress_of, progress_spec, Progress};

verus! {

/// Why a load did not complete.
#[derive(Clone, Copy, Debug, PartialEq, Eq, Structural)]
pub enum ErrorKind {
    DeviceUnavailable,
    FileUnreadable,
    MetadataUnreadable,
    DecodeUnsupported,
}

/// The playback sink that the session currently owns. Each sink gets a fresh id;
/// `position_ms` is how far it has played.
#[derive(Clone, Copy, Debug, PartialEq, Eq, Structural)]
pub struct SinkState {
    pub id: u64,
    pub paused: bool,
    pub position_ms: u64,
}

/// What the audio device must do to its sink after a toggle.
#[derive(Clone, Copy, Debug, PartialEq, Eq, Structural)]
pub enum SinkCommand {
    Play,
    Pause,
}

/// The coarse state of a session.
#[derive(Clone, Copy, Debug, PartialEq, Eq, Structural)]
pub enum SessionState {
    Empty,
    Paused,
    Playing,
}

/// How far the steps of a load got, in the order they are taken: a new sink is
/// made, the file is probed for its properties and tags, then opened and decoded.
/// The first step that fails ends the load.
#[derive(Clone, Debug)]
pub enum LoadReport {
    /// No new sink could be made on the audio device.
    SinkUnavailable,
    /// The prober could not open the file.
    ProbeOpenFailed,
    /// The prober opened the file but could not read its properties.
    ProbeReadFailed,
    /// The file could not be opened for decoding.
    FileOpenFailed,
    /// The decoder does not handle the file's content.
    DecodeFailed,
    /// Every step succeeded; this is what the probe and the decoder found.
    Decoded(MetadataSnapshot),
}

/// The error that a load ending with `report` gives, if any.
pub open spec fn report_error(report: LoadReport) -> Option<ErrorKind> {
    match report {
        LoadReport::SinkUnavailable => Some(ErrorKind::DeviceUnavailable),
        LoadReport::ProbeOpenFailed => Some(ErrorKind::FileUnreadable),
        LoadReport::ProbeReadFailed => Some(ErrorKind::MetadataUnreadable),
        LoadReport::FileOpenFailed => Some(ErrorKind::FileUnreadable),
        LoadReport::DecodeFailed => Some(ErrorKind::DecodeUnsupported),
        LoadReport::Decoded(_) => None,
    }
}

/// What `load` returns for `report`.
pub open spec fn load_result(report: LoadReport) -> Result<(), ErrorKind> {
    match report_error(report) {
        Some(e) => Err(e),
        None => Ok(()),
    }
}

/// The controller of one playback session: the single sink it owns, the file
/// loaded into it with that file's metadata, and whether it is playing.
#[derive(Debug)]
pub struct PlaybackSession {
    pub sink: Option<SinkState>,
    pub next_sink_id: u64,
    pub current_path: Option<String>,
    pub metadata: Option<MetadataSnapshot>,
    pub is_playing: bool,
    pub last_error: Option<ErrorKind>,
}

impl PlaybackSession {
    /// A file is loaded exactly when its metadata is held, a loaded file has a
    /// sink, the session plays exactly when a file is loaded and its sink runs,
    /// and sink ids are handed out in increasing order.
    pub open spec fn wf(&self) -> bool {
        &&& self.current_path.is_some() == self.metadata.is_some()
        &&& self.current_path.is_some() ==> self.sink.is_some()
        &&& self.is_playing == (self.current_path.is_some() && self.sink.is_some()
            && !self.sink.unwrap().paused)
        &&& self.sink.is_some() ==> self.sink.unwrap().id < self.next_sink_id
    }

    pub open spec fn state_spec(&self) -> SessionState {
        if self.current_path.is_none() {
            SessionState::Empty
        } else if self.is_playing {
            SessionState::Playing
        } else {
            SessionState::Paused
        }
    }

    /// The position of the current sink; zero without one.
    pub open spec fn elapsed_spec(&self) -> u64 {
        match self.sink {
            Some(s) => s.position_ms,
            None => 0,
        }
    }

    /// The total duration of the loaded file, where known.
    pub open spec fn total_spec(&self) -> Option<u64> {
        match self.metadata {
            Some(m) => m.total_duration_ms,
            None => None,
        }
    }

    pub open spec fn progress_fraction_spec(&self) -> Progress {
        progress_spec(self.elapsed_spec(), self.total_spec())
    }

    /// The session after loading `path`, whose load steps ended as `report`: the
    /// old sink is dropped and a new paused one takes its place where the device
    /// gave one; the file and its metadata are held only if every step succeeded,
    /// and the session never plays right after a load.
    pub open spec fn load_next(self, path: String, report: LoadReport) -> PlaybackSession {
        let made_sink = !(report is SinkUnavailable);
        let sink = if made_sink {
            Some(SinkState { id: self.next_sink_id, paused: true, position_ms: 0 })
        } else {
            None
        };
        let next_sink_id = if made_sink {
            (self.next_sink_id + 1) as u64
        } else {
            self.next_sink_id
        };
        match report {
            LoadReport::Decoded(m) => PlaybackSession {
                sink,
                next_sink_id,
                current_path: Some(path),
                metadata: Some(m),
                is_playing: false,
                last_error: None,
            },
            _ => PlaybackSession {
                sink,
                next_sink_id,
                current_path: None,
                metadata: None,
                is_playing: false,
                last_error: report_error(report),
            },
        }
    }

    /// The session after a toggle: with a file loaded, its sink switches between
    /// paused and running; without one, nothing changes.
    pub open spec fn toggle_next(self) -> PlaybackSession {
        if self.current_path.is_some() && self.sink.is_some() {
            let s = self.sink.unwrap();
            PlaybackSession {
                sink: Some(SinkState { paused: !s.paused, ..s }),
                is_playing: s.paused,
                ..self
            }
        } else {
            self
        }
    }

    /// The command that a toggle hands to the device.
    pub open spec fn toggle_command(self) -> Option<SinkCommand> {
        if self.current_path.is_some() && self.sink.is_some() {
            if self.sink.unwrap().paused {
                Some(SinkCommand::Play)
            } else {
                Some(SinkCommand::Pause)
            }
        } else {
            None
        }
    }

    /// The session after the device reported position `pos_ms`: while playing the
    /// position moves forward to it, never back; while paused it stays.
    pub open spec fn record_next(self, pos_ms: u64) -> PlaybackSession {
        if self.is_playing {
            let s = self.sink.unwrap();
            PlaybackSession {
                sink: Some(SinkState {
                    position_ms: if pos_ms > s.position_ms { pos_ms } else { s.position_ms },
                    ..s
                }),
                ..self
            }
        } else {
            self
        }
    }

    /// A session with nothing loaded and no sink yet.
    pub fn new() -> (r: PlaybackSession)
        ensures
            r.wf(),
            r.sink.is_none(),
            r.next_sink_id == 0,
            r.current_path.is_none(),
            r.metadata.is_none(),
            !r.is_playing,
            r.last_error.is_none(),
    {
        PlaybackSession {
            sink: None,
            next_sink_id: 0,
            current_path: None,
            metadata: None,
            is_playing: false,
            last_error: None,
        }
    }

    /// Loads `path`, whose load steps ended as `report`. The previous sink is
    /// stopped and discarded first, whatever the outcome.
    pub fn load(&mut self, path: String, report: LoadReport) -> (r: Result<(), ErrorKind>)
        requires
            old(self).wf(),
            old(self).next_sink_id < u64::MAX,
        ensures
            final(self).wf(),
            *final(self) == old(self).load_next(path, report),
            r == load_result(report),
    {
        let made_sink = !matches!(report, LoadReport::SinkUnavailable);
        if made_sink {
            self.sink = Some(SinkState { id: self.next_sink_id, paused: true, position_ms: 0 });
            self.next_sink_id = self.next_sink_id + 1;
        } else {
            self.sink = None;
        }
        self.is_playing = false;
        let err: Option<ErrorKind> = match report {
            LoadReport::SinkUnavailable => Some(ErrorKind::DeviceUnavailable),
            LoadReport::ProbeOpenFailed => Some(ErrorKind::FileUnreadable),
            LoadReport::ProbeReadFailed => Some(ErrorKind::MetadataUnreadable),
            LoadReport::FileOpenFailed => Some(ErrorKind::FileUnreadable),
            LoadReport::DecodeFailed => Some(ErrorKind::DecodeUnsupported),
            LoadReport::Decoded(m) => {
                self.current_path = Some(path);
                self.metadata = Some(m);
                None
            },
        };
        match err {
            Some(e) => {
                self.current_path = None;
                self.metadata = None;
                self.last_error = Some(e);
                Err(e)
            },
            None => {
                self.last_error = None;
                Ok(())
            },
        }
    }

    /// Switches a loaded file between playing and paused, going by the sink's own
    /// state, and returns the command for the device; does nothing without a file.
    pub fn toggle_play_pause(&mut self) -> (r: Option<SinkCommand>)
        requires
            old(self).wf(),
        ensures
            final(self).wf(),
            *final(self) == old(self).toggle_next(),
            r == old(self).toggle_command(),
    {
        if self.current_path.is_none() {
            return None;
        }
        match self.sink {
            Some(s) => {
                if s.paused {
                    self.sink = Some(SinkState { id: s.id, paused: false, position_ms: s.position_ms });
                    self.is_playing = true;
                    Some(SinkCommand::Play)
                } else {
                    self.sink = Some(SinkState { id: s.id, paused: true, position_ms: s.position_ms });
                    self.is_playing = false;
                    Some(SinkCommand::Pause)
                }
            },
            None => None,
        }
    }

    /// Takes in the position that the device reports for the current sink.
    pub fn record_position(&mut self, pos_ms: u64)
        requires
            old(self).wf(),
        ensures
            final(self).wf(),
            *final(self) == old(self).record_next(pos_ms),
    {
        if self.is_playing {
            match self.sink {
                Some(s) => {
                    let position_ms: u64 = if pos_ms > s.position_ms { pos_ms } else { s.position_ms };
                    self.sink = Some(SinkState { id: s.id, paused: s.paused, position_ms });
                },
                None => {},
            }
        }
    }

    /// The playback position of the current sink, in milliseconds.
    pub fn elapsed(&self) -> (r: u64)
        ensures
            r == self.elapsed_spec(),
    {
        match self.sink {
            Some(s) => s.position_ms,
            None => 0,
        }
    }

    /// The total duration of the loaded file in milliseconds, where known.
    pub fn total_duration(&self) -> (r: Option<u64>)
        ensures
            r == self.total_spec(),
    {
        match &self.metadata {
            Some(m) => m.total_duration_ms,
            None => None,
        }
    }

    /// Elapsed over total time, clamped to `[0, 1]`; zero where the total is
    /// unknown or zero.
    pub fn progress_fraction(&self) -> (r: Progress)
        ensures
            r == self.progress_fraction_spec(),
            r.wf(),
    {
        progress_of(self.elapsed(), self.total_duration())
    }

    /// Whether the session is empty, paused or playing.
    pub fn state(&self) -> (r: SessionState)
        ensures
            r == self.state_spec(),
    {
        if self.current_path.is_none() {
            SessionState::Empty
        } else if self.is_playing {
            SessionState::Playing
        } else {
            SessionState::Paused
        }
    }

    /// The `elapsed / total` line, each as `mm:ss`, with zero for an unknown total.
    pub fn time_label(&self) -> (r: String)
        ensures
            r@ == clock_text(self.elapsed_spec() as nat) + seq![' ', '/', ' '] + clock_text(
                match self.total_spec() {
                    Some(t) => t as nat,
                    None => 0,
                },
            ),
    {
        let mut s = format_duration(self.elapsed());
        let total: u64 = match self.total_duration() {
            Some(t) => t,
            None => 0,
        };
        proof {
            reveal_strlit(" / ");
        }
        s.append(" / ");
        let t = format_duration(total);
        s.append(t.as_str());
        s
    }
}

} // verus!

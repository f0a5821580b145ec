use vstd::prelude::*;

use crate::metadata::MetadataSnapshot;
use crate::session::{ErrorKind, LoadReport, PlaybackSession, SessionState, load_result, report_error};

verus! {

/// One thing that can happen to a session between two loads: the device reports a
/// position, or the user toggles play and pause.
pub enum PollEvent {
    Position(u64),
    Toggle,
}

/// The session after `events`, taken in order.
pub open spec fn apply_events(s: PlaybackSession, events: Seq<PollEvent>) -> PlaybackSession
    decreases events.len(),
{
    if events.len() == 0 {
        s
    } else {
        let next = match events[0] {
            PollEvent::Position(p) => s.record_next(p),
            PollEvent::Toggle => s.toggle_next(),
        };
        apply_events(next, events.drop_first())
    }
}

/// A load whose every step succeeded returns `Ok`, and the session then shows no
/// progress at all, whatever the file's duration.
pub proof fn lemma_successful_load_starts_at_zero(
    s: PlaybackSession,
    path: String,
    m: MetadataSnapshot,
)
    requires
        s.wf(),
        s.next_sink_id < u64::MAX,
    ensures
        load_result(LoadReport::Decoded(m)) == Ok::<(), ErrorKind>(()),
        s.load_next(path, LoadReport::Decoded(m)).progress_fraction_spec().numer == 0,
        s.load_next(path, LoadReport::Decoded(m)).elapsed_spec() == 0,
{
}

/// Without a known duration the progress fraction is zero, whatever has played.
pub proof fn lemma_unknown_duration_no_progress(s: PlaybackSession)
    requires
        s.wf(),
        s.total_spec().is_none(),
    ensures
        s.progress_fraction_spec().numer == 0,
        s.progress_fraction_spec().wf(),
{
}

/// Toggling twice gives back the session as it was, playing state included.
pub proof fn lemma_toggle_twice_restores(s: PlaybackSession)
    requires
        s.wf(),
    ensures
        s.toggle_next().toggle_next() == s,
        s.toggle_next().toggle_next().is_playing == s.is_playing,
{
    if s.current_path.is_some() && s.sink.is_some() {
        let t = s.toggle_next().toggle_next();
        assert(t.sink == s.sink);
    }
}

/// A load, from any state and with any outcome, leaves at most one sink: the one
/// it made, which is new and paused, or none; the sink held before is gone, and
/// the session is not playing.
pub proof fn lemma_load_replaces_sink(s: PlaybackSession, path: String, report: LoadReport)
    requires
        s.wf(),
        s.next_sink_id < u64::MAX,
    ensures
        ({
            let t = s.load_next(path, report);
            &&& t.wf()
            &&& !t.is_playing
            &&& t.sink.is_some() ==> t.sink.unwrap().paused && t.sink.unwrap().position_ms == 0
            &&& (s.sink.is_some() && t.sink.is_some()) ==> t.sink.unwrap().id != s.sink.unwrap().id
        }),
{
}

/// A load that fails at any step returns that step's error and leaves the session
/// empty: the file loaded before is not restored.
pub proof fn lemma_failed_load_leaves_empty(s: PlaybackSession, path: String, report: LoadReport)
    requires
        s.wf(),
        s.next_sink_id < u64::MAX,
        !(report is Decoded),
    ensures
        ({
            let t = s.load_next(path, report);
            &&& load_result(report) is Err
            &&& t.state_spec() == SessionState::Empty
            &&& t.metadata.is_none()
            &&& t.last_error == report_error(report)
            &&& t.elapsed_spec() == 0
        }),
{
}

/// Between two loads the elapsed time never goes back, whatever positions the
/// device reports and however often play and pause are toggled.
pub proof fn lemma_elapsed_monotonic(s: PlaybackSession, events: Seq<PollEvent>)
    requires
        s.wf(),
    ensures
        apply_events(s, events).wf(),
        apply_events(s, events).elapsed_spec() >= s.elapsed_spec(),
    decreases events.len(),
{
    if events.len() > 0 {
        let next = match events[0] {
            PollEvent::Position(p) => s.record_next(p),
            PollEvent::Toggle => s.toggle_next(),
        };
        lemma_elapsed_monotonic(next, events.drop_first());
    }
}

} // verus!

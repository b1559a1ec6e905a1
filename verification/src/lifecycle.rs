//! The recording lifecycle: a single-flight state machine that sequences
//! start, stop, encode and transcribe, and the proof that any interleaving
//! of toggles keeps at most one capture session live.
//!
//! The orchestrator decides; the surrounding program acts. Every operation
//! returns the events to emit and the one action to perform: spawning the
//! capture worker, waiting out the stream drain before finalizing, sending
//! the payload, or writing the result to the clipboard.

use vstd::prelude::*;
use crate::payload::EncodedPayload;
use crate::recorder::AudioRecorder;
use crate::recorder::CaptureError;
use crate::recorder::RecorderView;
use crate::recorder;

verus! {

/// Application configuration as the settings store holds it.
#[derive(Debug, Clone)]
pub struct Config {
    /// The credential for the transcription service.
    pub api_key: String,
    /// The preferred input device name.
    pub audio_device: Option<String>,
    /// The transcription model to ask for.
    pub model: Option<String>,
    /// The trigger shortcut specification.
    pub shortcut: Option<String>,
}

impl Default for Config {
    /// An empty configuration: no credential, no preferences.
    fn default() -> (r: Self)
        ensures
            r.api_key@ == Seq::<char>::empty(),
            r.audio_device is None,
            r.model is None,
            r.shortcut is None,
    {
        Config { api_key: String::new(), audio_device: None, model: None, shortcut: None }
    }
}

/// Where the lifecycle stands.
#[derive(Debug, Clone, Copy, PartialEq, Eq, Structural)]
pub enum RecordingState {
    /// No session and no pipeline in flight.
    Idle,
    /// A capture session is live.
    Capturing,
    /// Stop requested; the stream is draining before the encode step.
    Finalizing,
    /// The payload is with the transcription service.
    Transcribing,
}

/// An event the lifecycle emits for the surrounding interface layer.
#[derive(Debug, Clone, PartialEq, Eq)]
pub enum LifecycleEvent {
    /// A capture session began.
    CaptureStarted,
    /// The capture session was told to stop.
    CaptureStopped,
    /// The payload went to the transcription service.
    TranscriptionStarted,
    /// Transcription finished with this text.
    TranscriptionComplete(String),
    /// Capture finalization or transcription failed with this message.
    TranscriptionError(String),
}

/// An action the surrounding program must perform after a lifecycle step.
pub enum LifecycleAction {
    /// Spawn the blocking capture worker on a dedicated thread.
    SpawnCaptureWorker,
    /// Wait for the worker's poll loop to drain the stream, then call
    /// [`LifecycleManager::finalize_and_dispatch`].
    FinalizeAfterDrain,
    /// Send this payload to the transcription service, then call
    /// [`LifecycleManager::complete_transcription`] with the outcome.
    Transcribe(EncodedPayload),
    /// Write the transcription to the clipboard.
    CopyToClipboard(String),
    /// No credential is configured; surface the configuration interface.
    ShowConfiguration,
}

/// What one lifecycle step asks of the surrounding program.
pub struct StepResult {
    /// The events to emit, in order.
    pub events: Vec<LifecycleEvent>,
    /// The one action to perform, if any.
    pub action: Option<LifecycleAction>,
}

/// The kind of an emitted event, for the trace model.
#[derive(Debug, Clone, Copy, PartialEq, Eq, Structural)]
pub enum EventKind {
    /// A `CaptureStarted` event.
    Started,
    /// A `CaptureStopped` event.
    Stopped,
    /// A `TranscriptionStarted` event.
    SentForTranscription,
    /// A `TranscriptionComplete` event.
    Completed,
    /// A `TranscriptionError` event.
    Failed,
}

/// The kind of an event, with its payload dropped.
pub open spec fn event_kind(e: LifecycleEvent) -> EventKind {
    match e {
        LifecycleEvent::CaptureStarted => EventKind::Started,
        LifecycleEvent::CaptureStopped => EventKind::Stopped,
        LifecycleEvent::TranscriptionStarted => EventKind::SentForTranscription,
        LifecycleEvent::TranscriptionComplete(_) => EventKind::Completed,
        LifecycleEvent::TranscriptionError(_) => EventKind::Failed,
    }
}

/// One operation driven into the lifecycle from outside: a toggle with or
/// without a configured credential, or the outcome of a finalize or
/// transcription step.
#[derive(Debug, Clone, Copy, PartialEq, Eq, Structural)]
pub enum LifecycleOp {
    /// A toggle request; the payload tells whether a credential is set.
    Toggle(bool),
    /// The finalize step ran; the payload tells whether it produced a
    /// payload.
    FinalizeDone(bool),
    /// The transcription step ran; the payload tells whether it succeeded.
    TranscribeDone(bool),
}

/// Whether a stop-to-transcribe pipeline is in flight: the single-flight
/// guard that makes `toggle` a no-op.
pub open spec fn is_busy(s: RecordingState) -> bool {
    s == RecordingState::Finalizing || s == RecordingState::Transcribing
}

/// The state machine: what one operation does to the lifecycle state and
/// which events it emits. A toggle is ignored while the pipeline is busy,
/// stops a live session, and otherwise starts one if a credential is set;
/// the completion operations advance the pipeline and fall back to idle,
/// and are ignored in any state they do not belong to.
pub open spec fn step(s: RecordingState, op: LifecycleOp) -> (RecordingState, Seq<EventKind>) {
    match op {
        LifecycleOp::Toggle(has_credential) => {
            if is_busy(s) {
                (s, Seq::empty())
            } else if s == RecordingState::Capturing {
                (RecordingState::Finalizing, seq![EventKind::Stopped])
            } else if !has_credential {
                (s, Seq::empty())
            } else {
                (RecordingState::Capturing, seq![EventKind::Started])
            }
        },
        LifecycleOp::FinalizeDone(ok) => {
            if s == RecordingState::Finalizing {
                if ok {
                    (RecordingState::Transcribing, seq![EventKind::SentForTranscription])
                } else {
                    (RecordingState::Idle, seq![EventKind::Failed])
                }
            } else {
                (s, Seq::empty())
            }
        },
        LifecycleOp::TranscribeDone(ok) => {
            if s == RecordingState::Transcribing {
                if ok {
                    (RecordingState::Idle, seq![EventKind::Completed])
                } else {
                    (RecordingState::Idle, seq![EventKind::Failed])
                }
            } else {
                (s, Seq::empty())
            }
        },
    }
}

/// The state and the concatenated event trace after a run of operations.
pub open spec fn run(s: RecordingState, ops: Seq<LifecycleOp>) -> (
    RecordingState,
    Seq<EventKind>,
)
    decreases ops.len(),
{
    if ops.len() == 0 {
        (s, Seq::empty())
    } else {
        let first = step(s, ops[0]);
        let rest = run(first.0, ops.drop_first());
        (rest.0, first.1 + rest.1)
    }
}

/// How many events of this kind the trace holds.
pub open spec fn count_kind(t: Seq<EventKind>, k: EventKind) -> int
    decreases t.len(),
{
    if t.len() == 0 {
        0
    } else {
        (if t[0] == k {
            1int
        } else {
            0int
        }) + count_kind(t.drop_first(), k)
    }
}

/// How many capture sessions a trace leaves open: sessions started and not
/// yet stopped.
pub open spec fn live_sessions(t: Seq<EventKind>) -> int {
    count_kind(t, EventKind::Started) - count_kind(t, EventKind::Stopped)
}

/// One live session while capturing, none otherwise.
pub open spec fn state_live(s: RecordingState) -> int {
    if s == RecordingState::Capturing {
        1
    } else {
        0
    }
}

proof fn lemma_count_kind_concat(a: Seq<EventKind>, b: Seq<EventKind>, k: EventKind)
    ensures
        count_kind(a + b, k) == count_kind(a, k) + count_kind(b, k),
    decreases a.len(),
{
    if a.len() == 0 {
        assert(a + b =~= b);
    } else {
        lemma_count_kind_concat(a.drop_first(), b, k);
        assert((a + b).drop_first() =~= a.drop_first() + b);
    }
}

/// A run's trace opens exactly as many sessions as its final state shows
/// live: every `Started` is matched by a `Stopped` except while capturing.
proof fn lemma_trace_delta(s: RecordingState, ops: Seq<LifecycleOp>)
    ensures
        live_sessions(run(s, ops).1) == state_live(run(s, ops).0) - state_live(s),
    decreases ops.len(),
{
    if ops.len() > 0 {
        let first = step(s, ops[0]);
        let t1 = first.1;
        if t1.len() == 0 {
            assert(count_kind(t1, EventKind::Started) == 0);
            assert(count_kind(t1, EventKind::Stopped) == 0);
        } else {
            assert(t1.len() == 1);
            assert(t1.drop_first() =~= Seq::<EventKind>::empty());
            assert(count_kind(Seq::<EventKind>::empty(), EventKind::Started) == 0);
            assert(count_kind(Seq::<EventKind>::empty(), EventKind::Stopped) == 0);
            assert(count_kind(t1, EventKind::Started) == (if t1[0] == EventKind::Started {
                1int
            } else {
                0int
            }));
            assert(count_kind(t1, EventKind::Stopped) == (if t1[0] == EventKind::Stopped {
                1int
            } else {
                0int
            }));
        }
        assert(live_sessions(t1) == state_live(first.0) - state_live(s));
        lemma_trace_delta(first.0, ops.drop_first());
        lemma_count_kind_concat(t1, run(first.0, ops.drop_first()).1, EventKind::Started);
        lemma_count_kind_concat(t1, run(first.0, ops.drop_first()).1, EventKind::Stopped);
    }
}

/// At most one capture session is ever live: after any prefix of any
/// sequence of interleaved toggles and completions driven from the idle
/// state, the emitted trace has opened at most one session more than it
/// has stopped, and never stopped more than it opened.
pub proof fn lemma_at_most_one_live_session(ops: Seq<LifecycleOp>, i: int)
    requires
        0 <= i <= ops.len(),
    ensures
        0 <= live_sessions(run(RecordingState::Idle, ops.take(i)).1) <= 1,
{
    lemma_trace_delta(RecordingState::Idle, ops.take(i));
}

/// The mathematical state of a [`LifecycleManager`].
pub struct ManagerView {
    /// Where the lifecycle stands.
    pub state: RecordingState,
    /// The capture engine's state.
    pub recorder: RecorderView,
}

/// The lifecycle orchestrator: owns the recording state and the capture
/// engine, and sequences start, stop, encode and transcribe as single
/// steps whose effects the surrounding program carries out.
pub struct LifecycleManager {
    state: RecordingState,
    recorder: AudioRecorder,
}

impl View for LifecycleManager {
    type V = ManagerView;

    closed spec fn view(&self) -> ManagerView {
        ManagerView { state: self.state, recorder: self.recorder@ }
    }
}

impl LifecycleManager {
    /// A recorder with a live session is always accounted for by the
    /// capturing state, and the capture engine stays well formed. Every
    /// constructor establishes this and every method preserves it.
    pub open spec fn wf(&self) -> bool {
        &&& self@.recorder.capturing ==> self@.state == RecordingState::Capturing
        &&& self@.recorder.channels >= 1
    }

    /// A fresh orchestrator: idle, with a fresh capture engine.
    pub fn new() -> (r: Self)
        ensures
            r.wf(),
            r@.state == RecordingState::Idle,
            !r@.recorder.capturing,
            r@.recorder.samples == Seq::<i16>::empty(),
            r@.recorder.selected_device is None,
    {
        LifecycleManager { state: RecordingState::Idle, recorder: AudioRecorder::new() }
    }

    /// Where the lifecycle stands.
    pub fn state(&self) -> (r: RecordingState)
        ensures
            r == self@.state,
    {
        self.state
    }

    /// Whether a capture session is live.
    pub fn is_recording(&self) -> (r: bool)
        ensures
            r == self@.recorder.capturing,
    {
        self.recorder.is_recording()
    }

    /// How many samples the capture engine's buffer holds.
    pub fn buffered_samples(&self) -> (r: usize)
        ensures
            r == self@.recorder.samples.len(),
    {
        self.recorder.buffered_samples()
    }

    /// Records the preferred device by name for the next session.
    pub fn set_device(&mut self, device_name: Option<String>)
        requires
            old(self).wf(),
        ensures
            final(self).wf(),
            final(self)@.state == old(self)@.state,
            final(self)@.recorder == (RecorderView {
                selected_device: match device_name {
                    Some(s) => Some(s@),
                    None => None::<Seq<char>>,
                },
                ..old(self)@.recorder
            }),
    {
        self.recorder.set_device(device_name);
    }

    /// The preferred device name, if one is set.
    pub fn selected_device(&self) -> (r: &Option<String>)
        ensures
            self@.recorder.selected_device == (match (*r) {
                Some(s) => Some(s@),
                None => None::<Seq<char>>,
            }),
    {
        self.recorder.selected_device()
    }

    /// Dispatches a toggle: ignored while a stop-to-transcribe pipeline is
    /// in flight, otherwise stops the live session or starts a new one.
    pub fn toggle(&mut self, api_key: &str) -> (r: StepResult)
        requires
            old(self).wf(),
        ensures
            final(self).wf(),
            final(self)@.state == step(old(self)@.state, LifecycleOp::Toggle(api_key@.len() > 0)).0,
            r.events@.map_values(|e: LifecycleEvent| event_kind(e)) == step(
                old(self)@.state,
                LifecycleOp::Toggle(api_key@.len() > 0),
            ).1,
            is_busy(old(self)@.state) ==> final(self)@ == old(self)@ && r.events@ == Seq::<
                LifecycleEvent,
            >::empty() && r.action is None,
            old(self)@.state == RecordingState::Capturing ==> final(self)@.recorder == (
            RecorderView { capturing: false, ..old(self)@.recorder }) && r.events@ == seq![
                LifecycleEvent::CaptureStopped,
            ] && r.action matches Some(LifecycleAction::FinalizeAfterDrain),
            old(self)@.state == RecordingState::Idle && api_key@.len() == 0 ==> final(self)@ == old(
                self,
            )@ && r.events@ == Seq::<LifecycleEvent>::empty() && r.action matches Some(
                LifecycleAction::ShowConfiguration,
            ),
            old(self)@.state == RecordingState::Idle && api_key@.len() > 0 ==> final(self)@ == (
            ManagerView { state: RecordingState::Capturing, ..old(self)@ }) && r.events@ == seq![
                LifecycleEvent::CaptureStarted,
            ] && r.action matches Some(LifecycleAction::SpawnCaptureWorker),
    {
        match self.state {
            RecordingState::Finalizing | RecordingState::Transcribing => {
                StepResult { events: Vec::new(), action: None }
            },
            RecordingState::Capturing => self.request_stop(),
            RecordingState::Idle => self.request_start(api_key),
        }
    }

    /// Starts a capture session: rejected unless idle, diverted to the
    /// configuration surface without a credential; otherwise the session
    /// begins and a worker must be spawned to open the stream.
    pub fn request_start(&mut self, api_key: &str) -> (r: StepResult)
        requires
            old(self).wf(),
        ensures
            final(self).wf(),
            old(self)@.state != RecordingState::Idle ==> final(self)@ == old(self)@ && r.events@
                == Seq::<LifecycleEvent>::empty() && r.action is None,
            old(self)@.state == RecordingState::Idle && api_key@.len() == 0 ==> final(self)@ == old(
                self,
            )@ && r.events@ == Seq::<LifecycleEvent>::empty() && r.action matches Some(
                LifecycleAction::ShowConfiguration,
            ),
            old(self)@.state == RecordingState::Idle && api_key@.len() > 0 ==> final(self)@ == (
            ManagerView { state: RecordingState::Capturing, ..old(self)@ }) && r.events@ == seq![
                LifecycleEvent::CaptureStarted,
            ] && r.action matches Some(LifecycleAction::SpawnCaptureWorker),
    {
        if !(self.state == RecordingState::Idle) {
            return StepResult { events: Vec::new(), action: None };
        }
        if api_key.is_empty() {
            return StepResult { events: Vec::new(), action: Some(
                LifecycleAction::ShowConfiguration,
            ) };
        }
        self.state = RecordingState::Capturing;
        let mut events: Vec<LifecycleEvent> = Vec::new();
        events.push(LifecycleEvent::CaptureStarted);
        proof {
            assert(events@ =~= seq![LifecycleEvent::CaptureStarted]);
        }
        StepResult { events, action: Some(LifecycleAction::SpawnCaptureWorker) }
    }

    /// Requests a stop: a no-op that emits nothing unless a session is
    /// live; otherwise signals the worker, leaves the buffer for the
    /// finalize step, and asks the caller to wait out the stream drain.
    pub fn request_stop(&mut self) -> (r: StepResult)
        requires
            old(self).wf(),
        ensures
            final(self).wf(),
            old(self)@.state != RecordingState::Capturing ==> final(self)@ == old(self)@
                && r.events@ == Seq::<LifecycleEvent>::empty() && r.action is None,
            old(self)@.state == RecordingState::Capturing ==> final(self)@.state
                == RecordingState::Finalizing && final(self)@.recorder == (RecorderView {
                capturing: false,
                ..old(self)@.recorder
            }) && r.events@ == seq![LifecycleEvent::CaptureStopped] && r.action matches Some(
                LifecycleAction::FinalizeAfterDrain,
            ),
    {
        if !(self.state == RecordingState::Capturing) {
            return StepResult { events: Vec::new(), action: None };
        }
        self.state = RecordingState::Finalizing;
        self.recorder.signal_stop();
        let mut events: Vec<LifecycleEvent> = Vec::new();
        events.push(LifecycleEvent::CaptureStopped);
        proof {
            assert(events@ =~= seq![LifecycleEvent::CaptureStopped]);
        }
        StepResult { events, action: Some(LifecycleAction::FinalizeAfterDrain) }
    }

    /// Arms the capture engine from the worker thread: validates the
    /// resolved device configuration and clears the buffer for the session.
    pub fn worker_prepare(&mut self, settings: Option<recorder::StreamSettings>) -> (r: Result<
        (),
        CaptureError,
    >)
        requires
            old(self).wf(),
        ensures
            final(self).wf(),
            final(self)@.state == old(self)@.state,
            r == recorder::prepare_decision(old(self)@.recorder, settings),
            r is Err ==> final(self)@ == old(self)@,
            r is Ok ==> (settings matches Some(s) && final(self)@.recorder == (RecorderView {
                capturing: false,
                samples: Seq::<i16>::empty(),
                sample_rate: s.sample_rate,
                channels: s.channels,
                selected_device: old(self)@.recorder.selected_device,
            })),
    {
        self.recorder.prepare_capture(settings)
    }

    /// Marks the stream live from the worker thread, once the stream
    /// plays; ignored when a stop already moved the lifecycle on.
    pub fn worker_stream_live(&mut self)
        requires
            old(self).wf(),
        ensures
            final(self).wf(),
            old(self)@.state == RecordingState::Capturing ==> final(self)@ == (ManagerView {
                recorder: RecorderView { capturing: true, ..old(self)@.recorder },
                ..old(self)@
            }),
            old(self)@.state != RecordingState::Capturing ==> final(self)@ == old(self)@,
    {
        if self.state == RecordingState::Capturing {
            self.recorder.mark_stream_live();
        }
    }

    /// Appends one delivered block of normalized samples from the driver
    /// callback.
    pub fn append_block(&mut self, block: &Vec<i16>)
        requires
            old(self).wf(),
            old(self)@.recorder.capturing,
            old(self)@.recorder.samples.len() + block@.len() <= usize::MAX,
        ensures
            final(self).wf(),
            final(self)@ == (ManagerView {
                recorder: RecorderView {
                    samples: old(self)@.recorder.samples + block@,
                    ..old(self)@.recorder
                },
                ..old(self)@
            }),
    {
        self.recorder.append_block(block);
    }

    /// Abandons a failed session start: the stream could not be opened, so
    /// the lifecycle falls back to idle. The failure is surfaced by the
    /// worker's own logging, not as an event.
    pub fn capture_failed(&mut self)
        requires
            old(self).wf(),
        ensures
            final(self).wf(),
            old(self)@.state == RecordingState::Capturing ==> final(self)@ == (ManagerView {
                state: RecordingState::Idle,
                recorder: RecorderView { capturing: false, ..old(self)@.recorder },
                ..old(self)@
            }),
            old(self)@.state != RecordingState::Capturing ==> final(self)@ == old(self)@,
    {
        if self.state == RecordingState::Capturing {
            self.state = RecordingState::Idle;
            self.recorder.signal_stop();
        }
    }

    /// Finalizes the drained buffer into a payload and moves to
    /// transcribing, or surfaces the failure and falls back to idle;
    /// ignored unless a stop is draining.
    pub fn finalize_and_dispatch(&mut self) -> (r: StepResult)
        requires
            old(self).wf(),
        ensures
            final(self).wf(),
            final(self)@.recorder == old(self)@.recorder,
            final(self)@.state == step(
                old(self)@.state,
                LifecycleOp::FinalizeDone(recorder::finalize_error(old(self)@.recorder) is None),
            ).0,
            r.events@.map_values(|e: LifecycleEvent| event_kind(e)) == step(
                old(self)@.state,
                LifecycleOp::FinalizeDone(recorder::finalize_error(old(self)@.recorder) is None),
            ).1,
            old(self)@.state != RecordingState::Finalizing ==> final(self)@ == old(self)@
                && r.events@ == Seq::<LifecycleEvent>::empty() && r.action is None,
            old(self)@.state == RecordingState::Finalizing && recorder::finalize_error(
                old(self)@.recorder,
            ) is None ==> final(self)@.state == RecordingState::Transcribing && r.events@ == seq![
                LifecycleEvent::TranscriptionStarted,
            ] && (r.action matches Some(LifecycleAction::Transcribe(p)) && p.is_encoding_of(
                recorder::mono_stream(old(self)@.recorder),
                recorder::payload_rate(old(self)@.recorder),
            )),
            old(self)@.state == RecordingState::Finalizing ==> (recorder::finalize_error(
                old(self)@.recorder,
            ) matches Some(e) ==> final(self)@.state == RecordingState::Idle && r.action is None
                && r.events@.len() == 1 && (r.events@[0] matches LifecycleEvent::TranscriptionError(
                m,
            ) && m@ == recorder::capture_error_text(e))),
    {
        if !(self.state == RecordingState::Finalizing) {
            return StepResult { events: Vec::new(), action: None };
        }
        match self.recorder.finalize_payload() {
            Ok(p) => {
                self.state = RecordingState::Transcribing;
                let mut events: Vec<LifecycleEvent> = Vec::new();
                events.push(LifecycleEvent::TranscriptionStarted);
                proof {
                    assert(events@ =~= seq![LifecycleEvent::TranscriptionStarted]);
                    assert(events@.map_values(|e: LifecycleEvent| event_kind(e)) =~= seq![
                        EventKind::SentForTranscription,
                    ]);
                }
                StepResult { events, action: Some(LifecycleAction::Transcribe(p)) }
            },
            Err(e) => {
                self.state = RecordingState::Idle;
                let mut events: Vec<LifecycleEvent> = Vec::new();
                events.push(LifecycleEvent::TranscriptionError(recorder::capture_error_message(e)));
                proof {
                    assert(events@.map_values(|e: LifecycleEvent| event_kind(e)) =~= seq![
                        EventKind::Failed,
                    ]);
                }
                StepResult { events, action: None }
            },
        }
    }

    /// Takes the transcription outcome: the text goes out as a completion
    /// event and to the clipboard, a failure as an error event; either way
    /// the pipeline is done and the lifecycle is idle again. Ignored unless
    /// a transcription is in flight.
    pub fn complete_transcription(&mut self, outcome: Result<String, String>) -> (r: StepResult)
        requires
            old(self).wf(),
        ensures
            final(self).wf(),
            final(self)@.recorder == old(self)@.recorder,
            final(self)@.state == step(
                old(self)@.state,
                LifecycleOp::TranscribeDone(outcome is Ok),
            ).0,
            r.events@.map_values(|e: LifecycleEvent| event_kind(e)) == step(
                old(self)@.state,
                LifecycleOp::TranscribeDone(outcome is Ok),
            ).1,
            old(self)@.state != RecordingState::Transcribing ==> final(self)@ == old(self)@
                && r.events@ == Seq::<LifecycleEvent>::empty() && r.action is None,
            old(self)@.state == RecordingState::Transcribing ==> final(self)@.state
                == RecordingState::Idle,
            old(self)@.state == RecordingState::Transcribing ==> (outcome matches Ok(t) ==> (
            r.events@.len() == 1 && (r.events@[0] matches LifecycleEvent::TranscriptionComplete(m)
                && m@ == t@) && (r.action matches Some(LifecycleAction::CopyToClipboard(c)) && c@
                == t@))),
            old(self)@.state == RecordingState::Transcribing ==> (outcome matches Err(e) ==> (
            r.events@.len() == 1 && (r.events@[0] matches LifecycleEvent::TranscriptionError(m)
                && m@ == e@) && r.action is None)),
    {
        if !(self.state == RecordingState::Transcribing) {
            return StepResult { events: Vec::new(), action: None };
        }
        self.state = RecordingState::Idle;
        match outcome {
            Ok(t) => {
                let text = t.clone();
                let mut events: Vec<LifecycleEvent> = Vec::new();
                events.push(LifecycleEvent::TranscriptionComplete(t));
                proof {
                    assert(events@.map_values(|e: LifecycleEvent| event_kind(e)) =~= seq![
                        EventKind::Completed,
                    ]);
                }
                StepResult { events, action: Some(LifecycleAction::CopyToClipboard(text)) }
            },
            Err(e) => {
                let mut events: Vec<LifecycleEvent> = Vec::new();
                events.push(LifecycleEvent::TranscriptionError(e));
                proof {
                    assert(events@.map_values(|e: LifecycleEvent| event_kind(e)) =~= seq![
                        EventKind::Failed,
                    ]);
                }
                StepResult { events, action: None }
            },
        }
    }
}

} // verus!

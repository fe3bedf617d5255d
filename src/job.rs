use vstd::prelude::*;

use crate::segment::{format_transcript, transcript_of, Segment};

verus! {

/// Why a job ended without a transcript.
pub enum JobError {
    /// The audio extraction tool failed; carries its diagnostic output.
    ExternalTool(String),
    /// The model could not be loaded.
    ModelLoad,
    /// The inference engine failed; carries its description.
    Inference(String),
    /// The user asked the job to stop.
    Cancelled,
    /// Nobody is listening for the job's messages any more.
    SinkGone,
}

/// How a job ended.
pub enum Outcome {
    Completed(String),
    Failed(JobError),
}

/// The pipeline position of a job: each phase waits for one event.
#[derive(Clone, Copy, Debug, PartialEq, Eq, Structural)]
pub enum Phase {
    Handshake,
    ExtractLog,
    Extract,
    ExtractCheck,
    LoadLog,
    Load,
    InferLog,
    Infer,
    InferCheck,
    Cleanup,
    Report,
    Done,
}

/// What the outside world reports back after performing an action.
pub enum Event {
    /// A message was handed to the sink; false when the sink is gone.
    Sent(bool),
    /// The extraction tool ran; its diagnostic text on failure.
    Extracted(Result<(), String>),
    /// The cancellation token was polled.
    Polled(bool),
    /// The model load succeeded or not.
    Loaded(bool),
    /// Inference finished with its segments, or failed.
    Transcribed(Result<Vec<Segment>, String>),
    /// The temporary artifact was removed (best effort).
    Removed,
}

/// The next piece of outside work the job asks for.
pub enum Action {
    SendHandshake,
    SendLog(String),
    ExtractAudio,
    PollCancellation,
    LoadModel,
    Transcribe,
    RemoveArtifact,
    SendFinished(String, String),
    SendError(String),
    Exit,
}

/// A message as it reached the sink.
pub enum Delivered {
    Handshake,
    Log(Seq<char>),
    Finished(Seq<char>, Seq<char>),
    Error(Seq<char>),
}

pub open spec fn is_terminal(d: Delivered) -> bool {
    d is Finished || d is Error
}

pub open spec fn extract_log() -> Seq<char> {
    seq!['E', 'x', 't', 'r', 'a', 'c', 't', 'i', 'n', 'g', ' ', 'a', 'u', 'd', 'i', 'o', '.', '.', '.']
}

pub open spec fn load_log() -> Seq<char> {
    seq!['L', 'o', 'a', 'd', 'i', 'n', 'g', ' ', 'M', 'o', 'd', 'e', 'l', '.', '.', '.']
}

pub open spec fn infer_log() -> Seq<char> {
    seq!['T', 'r', 'a', 'n', 's', 'c', 'r', 'i', 'b', 'i', 'n', 'g', '.', '.', '.']
}

pub open spec fn complete_status() -> Seq<char> {
    seq!['T', 'r', 'a', 'n', 's', 'c', 'r', 'i', 'p', 't', 'i', 'o', 'n', ' ', 'C', 'o', 'm', 'p', 'l', 'e', 't', 'e']
}

pub open spec fn stopped_status() -> Seq<char> {
    seq!['T', 'r', 'a', 'n', 's', 'c', 'r', 'i', 'p', 't', 'i', 'o', 'n', ' ', 'S', 't', 'o', 'p', 'p', 'e', 'd', ' ', 'b', 'y', ' ', 'U', 's', 'e', 'r']
}

pub open spec fn error_text(e: JobError) -> Seq<char> {
    match e {
        JobError::ExternalTool(d) => seq!['F', 'F', 'm', 'p', 'e', 'g', ' ', 'f', 'a', 'i', 'l', 'e', 'd', ':', ' '] + d@,
        JobError::ModelLoad => seq!['F', 'a', 'i', 'l', 'e', 'd', ' ', 't', 'o', ' ', 'l', 'o',
            'a', 'd', ' ', 'm', 'o', 'd', 'e', 'l'],
        JobError::Inference(d) => seq!['I', 'n', 'f', 'e', 'r', 'e', 'n', 'c', 'e', ' ', 'f', 'a',
            'i', 'l', 'e', 'd', ':', ' '] + d@,
        JobError::Cancelled => stopped_status(),
        JobError::SinkGone => seq!['M', 'e', 's', 's', 'a', 'g', 'e', ' ', 's', 'i', 'n', 'k',
            ' ', 'c', 'l', 'o', 's', 'e', 'd'],
    }
}

/// The terminal message for an outcome: a requested stop is reported as a
/// normal finish with an empty transcript, every other failure as an error.
pub open spec fn report_of(o: Outcome) -> Delivered {
    match o {
        Outcome::Completed(t) => Delivered::Finished(complete_status(), t@),
        Outcome::Failed(JobError::Cancelled) => Delivered::Finished(stopped_status(), Seq::empty()),
        Outcome::Failed(e) => Delivered::Error(error_text(e)),
    }
}

pub open spec fn is_sink_gone(o: Option<Outcome>) -> bool {
    o == Some(Outcome::Failed(JobError::SinkGone))
}

/// A message log in which the handshake comes first and once, and a terminal
/// message, if any, comes last and once.
pub open spec fn framed(s: Seq<Delivered>) -> bool {
    &&& s.len() > 0 ==> s[0] is Handshake
    &&& forall|i: int| 0 < i < s.len() ==> !(#[trigger] s[i] is Handshake)
    &&& forall|i: int| 0 <= i < s.len() - 1 ==> !is_terminal(#[trigger] s[i])
}

/// Order of the phases: every handled event moves strictly forward.
pub open spec fn rank(p: Phase) -> nat {
    match p {
        Phase::Handshake => 0,
        Phase::ExtractLog => 1,
        Phase::Extract => 2,
        Phase::ExtractCheck => 3,
        Phase::LoadLog => 4,
        Phase::Load => 5,
        Phase::InferLog => 6,
        Phase::Infer => 7,
        Phase::InferCheck => 8,
        Phase::Cleanup => 9,
        Phase::Report => 10,
        Phase::Done => 11,
    }
}

/// The decisions of one job: which stage runs next, when it stops early, and
/// what it reports. The outside work itself is performed by the caller.
pub struct JobRunner {
    pub phase: Phase,
    pub outcome: Option<Outcome>,
    /// Every message that reached the sink, in order.
    pub delivered: Ghost<Seq<Delivered>>,
    /// How many times the temporary artifact was removed.
    pub removals: Ghost<nat>,
}

} // verus!

verus! {

/// Whether an event lets the pipeline go on to its next stage.
pub open spec fn proceeds(ev: Event) -> bool {
    match ev {
        Event::Sent(b) => b,
        Event::Extracted(r) => r is Ok,
        Event::Polled(c) => !c,
        Event::Loaded(b) => b,
        Event::Transcribed(r) => r is Ok,
        Event::Removed => true,
    }
}

/// The error that an event which stops the pipeline stands for.
pub open spec fn failure_of(ev: Event) -> JobError {
    match ev {
        Event::Extracted(Err(d)) => JobError::ExternalTool(d),
        Event::Polled(true) => JobError::Cancelled,
        Event::Loaded(false) => JobError::ModelLoad,
        Event::Transcribed(Err(d)) => JobError::Inference(d),
        _ => JobError::SinkGone,
    }
}

/// The event that each phase waits for.
pub open spec fn fits(p: Phase, ev: Event) -> bool {
    match p {
        Phase::Handshake | Phase::ExtractLog | Phase::LoadLog | Phase::InferLog | Phase::Report =>
            ev is Sent,
        Phase::Extract => ev is Extracted,
        Phase::ExtractCheck | Phase::InferCheck => ev is Polled,
        Phase::Load => ev is Loaded,
        Phase::Infer => ev is Transcribed,
        Phase::Cleanup => ev is Removed,
        Phase::Done => false,
    }
}

/// The stage after `p` when the pipeline goes on.
pub open spec fn successor(p: Phase) -> Phase {
    match p {
        Phase::Handshake => Phase::ExtractLog,
        Phase::ExtractLog => Phase::Extract,
        Phase::Extract => Phase::ExtractCheck,
        Phase::ExtractCheck => Phase::LoadLog,
        Phase::LoadLog => Phase::Load,
        Phase::Load => Phase::InferLog,
        Phase::InferLog => Phase::Infer,
        Phase::Infer => Phase::InferCheck,
        Phase::InferCheck => Phase::Cleanup,
        Phase::Cleanup => Phase::Report,
        _ => Phase::Done,
    }
}

pub open spec fn is_work_phase(p: Phase) -> bool {
    rank(p) <= 8
}

/// Whether `a` hands exactly the message `d` to the sink.
pub open spec fn sends(a: Action, d: Delivered) -> bool {
    match a {
        Action::SendHandshake => d is Handshake,
        Action::SendLog(s) => d == Delivered::Log(s@),
        Action::SendFinished(s, t) => d == Delivered::Finished(s@, t@),
        Action::SendError(m) => d == Delivered::Error(m@),
        _ => false,
    }
}

impl JobRunner {
    /// The message that the current phase hands to the sink, if it sends one.
    pub open spec fn pending(&self) -> Delivered {
        match self.phase {
            Phase::ExtractLog => Delivered::Log(extract_log()),
            Phase::LoadLog => Delivered::Log(load_log()),
            Phase::InferLog => Delivered::Log(infer_log()),
            Phase::Report => report_of(self.outcome->0),
            _ => Delivered::Handshake,
        }
    }

    pub open spec fn wf(&self) -> bool {
        let d = self.delivered@;
        let p = self.phase;
        &&& framed(d)
        &&& p != Phase::Done ==> forall|i: int| 0 <= i < d.len() ==> !is_terminal(#[trigger] d[i])
        &&& p == Phase::Handshake ==> d.len() == 0
        &&& p != Phase::Handshake && !is_sink_gone(self.outcome) ==> d.len() >= 1
        &&& rank(p) <= 7 ==> self.outcome is None
        &&& p == Phase::InferCheck ==> (self.outcome is Some && self.outcome->0 is Completed)
        &&& rank(p) >= 9 ==> self.outcome is Some
        &&& rank(p) <= 9 ==> self.removals@ == 0
        &&& rank(p) >= 10 ==> self.removals@ == 1
        &&& p == Phase::Report ==> !is_sink_gone(self.outcome)
        &&& p == Phase::Done ==> (is_sink_gone(self.outcome) || d.last() == report_of(
            self.outcome->0,
        ))
    }

    /// A job that has done nothing yet.
    pub fn new() -> (r: Self)
        ensures
            r.wf(),
            r.phase == Phase::Handshake,
            r.outcome is None,
            r.delivered@.len() == 0,
            r.removals@ == 0,
    {
        JobRunner {
            phase: Phase::Handshake,
            outcome: None,
            delivered: Ghost(Seq::empty()),
            removals: Ghost(0),
        }
    }

    pub fn is_done(&self) -> (r: bool)
        ensures
            r == (self.phase == Phase::Done),
    {
        self.phase == Phase::Done
    }

    /// Whether `ev` is the event the current phase waits for.
    pub fn accepts(&self, ev: &Event) -> (r: bool)
        ensures
            r == fits(self.phase, *ev),
    {
        match self.phase {
            Phase::Handshake | Phase::ExtractLog | Phase::LoadLog | Phase::InferLog
            | Phase::Report => matches!(ev, Event::Sent(_)),
            Phase::Extract => matches!(ev, Event::Extracted(_)),
            Phase::ExtractCheck | Phase::InferCheck => matches!(ev, Event::Polled(_)),
            Phase::Load => matches!(ev, Event::Loaded(_)),
            Phase::Infer => matches!(ev, Event::Transcribed(_)),
            Phase::Cleanup => matches!(ev, Event::Removed),
            Phase::Done => false,
        }
    }
}

} // verus!

verus! {

fn text_of(s: &str) -> (r: String)
    ensures
        r@ == s@,
{
    s.to_owned()
}

/// The text of an error as it is reported to the foreground.
pub fn describe_error(e: &JobError) -> (r: String)
    ensures
        r@ == error_text(*e),
{
    match e {
        JobError::ExternalTool(d) => {
            proof {
                reveal_strlit("FFmpeg failed: ");
            }
            let mut s = text_of("FFmpeg failed: ");
            s.append(d.as_str());
            s
        },
        JobError::ModelLoad => {
            proof {
                reveal_strlit("Failed to load model");
            }
            text_of("Failed to load model")
        },
        JobError::Inference(d) => {
            proof {
                reveal_strlit("Inference failed: ");
            }
            let mut s = text_of("Inference failed: ");
            s.append(d.as_str());
            s
        },
        JobError::Cancelled => {
            proof {
                reveal_strlit("Transcription Stopped by User");
            }
            text_of("Transcription Stopped by User")
        },
        JobError::SinkGone => {
            proof {
                reveal_strlit("Message sink closed");
            }
            text_of("Message sink closed")
        },
    }
}

/// The terminal message for a job's outcome: `Cancelled` becomes a normal
/// finish with an empty transcript, any other error an error message.
pub fn report_action(o: &Outcome) -> (a: Action)
    ensures
        sends(a, report_of(*o)),
{
    match o {
        Outcome::Completed(t) => {
            proof {
                reveal_strlit("Transcription Complete");
            }
            let status = text_of("Transcription Complete");
            assert(status@ =~= complete_status());
            Action::SendFinished(status, t.clone())
        },
        Outcome::Failed(JobError::Cancelled) => {
            proof {
                reveal_strlit("Transcription Stopped by User");
            }
            let status = text_of("Transcription Stopped by User");
            assert(status@ =~= stopped_status());
            Action::SendFinished(status, String::new())
        },
        Outcome::Failed(e) => Action::SendError(describe_error(e)),
    }
}

impl JobRunner {
    /// The outside work the current phase asks for.
    pub fn next_action(&self) -> (a: Action)
        requires
            self.wf(),
        ensures
            self.phase == Phase::Handshake ==> a is SendHandshake,
            self.phase == Phase::ExtractLog || self.phase == Phase::LoadLog || self.phase
                == Phase::InferLog || self.phase == Phase::Report ==> sends(a, self.pending()),
            self.phase == Phase::Extract ==> a is ExtractAudio,
            self.phase == Phase::ExtractCheck || self.phase == Phase::InferCheck
                ==> a is PollCancellation,
            self.phase == Phase::Load ==> a is LoadModel,
            self.phase == Phase::Infer ==> a is Transcribe,
            self.phase == Phase::Cleanup ==> a is RemoveArtifact,
            self.phase == Phase::Done ==> a is Exit,
    {
        match self.phase {
            Phase::Handshake => Action::SendHandshake,
            Phase::ExtractLog => {
                proof {
                    reveal_strlit("Extracting audio...");
                }
                let s = text_of("Extracting audio...");
                assert(s@ =~= extract_log());
                Action::SendLog(s)
            },
            Phase::Extract => Action::ExtractAudio,
            Phase::ExtractCheck | Phase::InferCheck => Action::PollCancellation,
            Phase::LoadLog => {
                proof {
                    reveal_strlit("Loading Model...");
                }
                let s = text_of("Loading Model...");
                assert(s@ =~= load_log());
                Action::SendLog(s)
            },
            Phase::Load => Action::LoadModel,
            Phase::InferLog => {
                proof {
                    reveal_strlit("Transcribing...");
                }
                let s = text_of("Transcribing...");
                assert(s@ =~= infer_log());
                Action::SendLog(s)
            },
            Phase::Infer => Action::Transcribe,
            Phase::Cleanup => Action::RemoveArtifact,
            Phase::Report => {
                let o = self.outcome.as_ref().unwrap();
                report_action(o)
            },
            Phase::Done => Action::Exit,
        }
    }

    /// Takes in what the outside world reports for the current phase's action.
    ///
    /// Every stage failure, and cancellation seen at either checkpoint, skips
    /// the remaining stages but still goes through the removal of the
    /// temporary artifact; a gone sink ends the job after that removal.
    pub fn handle(&mut self, ev: Event)
        requires
            old(self).wf(),
            fits(old(self).phase, ev),
        ensures
            final(self).wf(),
            rank(final(self).phase) > rank(old(self).phase),
            proceeds(ev) && old(self).phase != Phase::Cleanup ==> final(self).phase == successor(
                old(self).phase,
            ),
            old(self).phase == Phase::Cleanup ==> final(self).phase == (if is_sink_gone(
                old(self).outcome,
            ) {
                Phase::Done
            } else {
                Phase::Report
            }),
            !proceeds(ev) && is_work_phase(old(self).phase) ==> final(self).phase
                == Phase::Cleanup && final(self).outcome == Some(Outcome::Failed(failure_of(ev))),
            old(self).phase == Phase::Report ==> final(self).phase == Phase::Done,
            old(self).phase == Phase::Report && !proceeds(ev) ==> is_sink_gone(
                final(self).outcome,
            ),
            ev is Sent && proceeds(ev) ==> final(self).delivered@ == old(self).delivered@.push(
                old(self).pending(),
            ),
            !(ev is Sent && proceeds(ev)) ==> final(self).delivered@ == old(self).delivered@,
            old(self).phase == Phase::Cleanup ==> final(self).removals@ == old(self).removals@ + 1,
            old(self).phase != Phase::Cleanup ==> final(self).removals@ == old(self).removals@,
            ev is Transcribed && ev->Transcribed_0 is Ok ==> final(self).outcome == Some(
                Outcome::Completed(final(self).outcome->0->Completed_0),
            ) && final(self).outcome->0->Completed_0@ == transcript_of(
                ev->Transcribed_0->Ok_0@,
            ),
            proceeds(ev) && old(self).phase != Phase::Infer ==> final(self).outcome
                == old(self).outcome,
    {
        let ghost pre = *self;
        let p = self.phase;
        match ev {
            Event::Sent(ok) => {
                if ok {
                    proof {
                        let d = self.delivered@;
                        let n = d.push(pre.pending());
                        assert(forall|i: int| 0 <= i < d.len() ==> n[i] == d[i]);
                    }
                    self.delivered = Ghost(self.delivered@.push(pre.pending()));
                    self.phase = if p == Phase::Handshake {
                        Phase::ExtractLog
                    } else if p == Phase::ExtractLog {
                        Phase::Extract
                    } else if p == Phase::LoadLog {
                        Phase::Load
                    } else if p == Phase::InferLog {
                        Phase::Infer
                    } else {
                        Phase::Done
                    };
                } else {
                    self.outcome = Some(Outcome::Failed(JobError::SinkGone));
                    self.phase = if p == Phase::Report {
                        Phase::Done
                    } else {
                        Phase::Cleanup
                    };
                }
            },
            Event::Extracted(r) => match r {
                Ok(()) => {
                    self.phase = Phase::ExtractCheck;
                },
                Err(d) => {
                    self.outcome = Some(Outcome::Failed(JobError::ExternalTool(d)));
                    self.phase = Phase::Cleanup;
                },
            },
            Event::Polled(cancelled) => {
                if cancelled {
                    self.outcome = Some(Outcome::Failed(JobError::Cancelled));
                    self.phase = Phase::Cleanup;
                } else {
                    self.phase = if p == Phase::ExtractCheck {
                        Phase::LoadLog
                    } else {
                        Phase::Cleanup
                    };
                }
            },
            Event::Loaded(ok) => {
                if ok {
                    self.phase = Phase::InferLog;
                } else {
                    self.outcome = Some(Outcome::Failed(JobError::ModelLoad));
                    self.phase = Phase::Cleanup;
                }
            },
            Event::Transcribed(r) => match r {
                Ok(segs) => {
                    let t = format_transcript(&segs);
                    self.outcome = Some(Outcome::Completed(t));
                    self.phase = Phase::InferCheck;
                },
                Err(d) => {
                    self.outcome = Some(Outcome::Failed(JobError::Inference(d)));
                    self.phase = Phase::Cleanup;
                },
            },
            Event::Removed => {
                self.removals = Ghost(self.removals@ + 1);
                self.phase = if is_gone(&self.outcome) {
                    Phase::Done
                } else {
                    Phase::Report
                };
            },
        }
    }
}

fn is_gone(o: &Option<Outcome>) -> (r: bool)
    ensures
        r == is_sink_gone(*o),
{
    match o {
        Some(Outcome::Failed(JobError::SinkGone)) => true,
        _ => false,
    }
}

} // verus!

verus! {

/// In every reachable state the messages that reached the sink begin with
/// exactly one handshake, hold at most one terminal message and nothing
/// after it; once the job is done with its sink alive, the last message is
/// the terminal one.
pub proof fn lemma_messages_framed(r: JobRunner)
    requires
        r.wf(),
    ensures
        r.delivered@.len() > 0 ==> r.delivered@[0] is Handshake,
        forall|i: int| 0 < i < r.delivered@.len() ==> !(#[trigger] r.delivered@[i] is Handshake),
        forall|i: int|
            0 <= i < r.delivered@.len() && is_terminal(#[trigger] r.delivered@[i]) ==> i
                == r.delivered@.len() - 1,
        r.phase == Phase::Done && !is_sink_gone(r.outcome) ==> r.delivered@.len() >= 2 && is_terminal(
            r.delivered@.last(),
        ),
{
    let d = r.delivered@;
    if r.phase == Phase::Done && !is_sink_gone(r.outcome) {
        assert(is_terminal(report_of(r.outcome->0)));
        assert(d.len() >= 1);
        if d.len() == 1 {
            assert(d[0] is Handshake);
        }
    }
}

/// A job whose cancellation was observed ends, if anyone is still listening,
/// with a normal finish that carries the stop status and an empty transcript,
/// never a partial one.
pub proof fn lemma_cancel_reports_stop(r: JobRunner)
    requires
        r.wf(),
        r.phase == Phase::Done,
        r.outcome == Some(Outcome::Failed(JobError::Cancelled)),
    ensures
        r.delivered@.last() == Delivered::Finished(stopped_status(), Seq::empty()),
{
}

/// The temporary artifact is removed exactly once before the job ends, and
/// before any terminal message reaches the sink, whatever the outcome.
pub proof fn lemma_artifact_removed(r: JobRunner)
    requires
        r.wf(),
    ensures
        r.phase == Phase::Done ==> r.removals@ == 1,
        (exists|i: int| 0 <= i < r.delivered@.len() && is_terminal(#[trigger] r.delivered@[i]))
            ==> r.removals@ == 1,
{
}

} // verus!

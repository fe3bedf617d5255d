use vstd::prelude::*;

use crate::channel::{clone_sender, new_channel, pending_count, send_message, try_receive, Poll};
use crate::job::{sends, Action, Delivered, Event};

verus! {

/// A message from a job to the foreground.
pub enum JobMessage {
    /// A coarse phase description; replaces the shown status.
    Log(String),
    /// Terminal success, or a requested stop: status text and transcript.
    Finished(String, String),
    /// Terminal failure with its description.
    Error(String),
    /// The handshake: the endpoint through which the job can be asked to stop.
    CancellationHandle(crossbeam_channel::Sender<()>),
}

pub open spec fn message_view(m: JobMessage) -> Delivered {
    match m {
        JobMessage::Log(t) => Delivered::Log(t@),
        JobMessage::Finished(s, t) => Delivered::Finished(s@, t@),
        JobMessage::Error(e) => Delivered::Error(e@),
        JobMessage::CancellationHandle(_) => Delivered::Handshake,
    }
}

/// What a started job is to work on.
pub struct JobRequest {
    pub input: String,
    pub model: String,
}

/// The foreground state as the contracts see it.
#[verifier::ext_equal]
pub struct ControllerView {
    pub running: bool,
    pub status: Seq<char>,
    pub transcript: Seq<char>,
    pub has_handle: bool,
    pub input: Option<Seq<char>>,
    pub models: Seq<Seq<char>>,
    pub selected: nat,
}

pub open spec fn error_status(e: Seq<char>) -> Seq<char> {
    seq!['❌', ' ', 'E', 'r', 'r', 'o', 'r', ':', ' '] + e
}

pub open spec fn stopping_status() -> Seq<char> {
    seq!['S', 't', 'o', 'p', 'p', 'i', 'n', 'g', ' ', 't', 'r', 'a', 'n', 's', 'c', 'r', 'i', 'p',
        't', 'i', 'o', 'n', '.', '.', '.']
}

pub open spec fn initializing_status() -> Seq<char> {
    seq!['I', 'n', 'i', 't', 'i', 'a', 'l', 'i', 'z', 'i', 'n', 'g', '.', '.', '.']
}

pub open spec fn nothing_to_export_status() -> Seq<char> {
    seq!['❌', ' ', 'N', 'o', 't', 'h', 'i', 'n', 'g', ' ', 't', 'o', ' ', 'e', 'x', 'p', 'o', 'r', 't', '!']
}

pub open spec fn exported_status(dest: Seq<char>) -> Seq<char> {
    seq!['✅', ' ', 'E', 'x', 'p', 'o', 'r', 't', 'e', 'd', ' ', 't', 'o', ':', ' '] + dest
}

pub open spec fn export_failed_status(e: Seq<char>) -> Seq<char> {
    seq!['❌', ' ', 'E', 'x', 'p', 'o', 'r', 't', ' ', 'f', 'a', 'i', 'l', 'e', 'd', ':', ' '] + e
}

/// The state after one drained message.
pub open spec fn applied(v: ControllerView, d: Delivered) -> ControllerView {
    match d {
        Delivered::Log(t) => ControllerView { status: t, ..v },
        Delivered::Finished(s, t) => ControllerView {
            running: false,
            status: s,
            transcript: t,
            has_handle: false,
            ..v
        },
        Delivered::Error(e) => ControllerView {
            running: false,
            status: error_status(e),
            has_handle: false,
            ..v
        },
        Delivered::Handshake => ControllerView { has_handle: true, ..v },
    }
}

/// The state after draining `ms`, in order.
pub open spec fn applied_all(v: ControllerView, ms: Seq<Delivered>) -> ControllerView
    decreases ms.len(),
{
    if ms.len() == 0 {
        v
    } else {
        applied(applied_all(v, ms.drop_last()), ms.last())
    }
}

pub open spec fn can_start(v: ControllerView) -> bool {
    !v.running && v.input is Some && v.models.len() > 0
}

/// The state right after a job was started.
pub open spec fn started(v: ControllerView) -> ControllerView {
    ControllerView {
        running: true,
        status: initializing_status(),
        transcript: Seq::empty(),
        has_handle: false,
        ..v
    }
}

/// The state after a stop request: only a running job whose handle has
/// arrived can be stopped; otherwise nothing changes.
pub open spec fn stopped(v: ControllerView) -> ControllerView {
    if v.running && v.has_handle {
        ControllerView { running: false, status: stopping_status(), has_handle: false, ..v }
    } else {
        v
    }
}

/// The foreground side: what is shown, the selected input and model, and the
/// single slot for the running job's cancellation handle.
pub struct Controller {
    running: bool,
    status: String,
    transcript: String,
    input: Option<String>,
    models: Vec<String>,
    selected: usize,
    handle: Option<crossbeam_channel::Sender<()>>,
    inbox: crossbeam_channel::Receiver<JobMessage>,
    outbox: crossbeam_channel::Sender<JobMessage>,
}

impl View for Controller {
    type V = ControllerView;

    closed spec fn view(&self) -> ControllerView {
        ControllerView {
            running: self.running,
            status: self.status@,
            transcript: self.transcript@,
            has_handle: self.handle is Some,
            input: match self.input {
                Some(s) => Some(s@),
                None => None,
            },
            models: self.models@.map_values(|m: String| m@),
            selected: self.selected as nat,
        }
    }
}

fn text_of(s: &str) -> (r: String)
    ensures
        r@ == s@,
{
    s.to_owned()
}

impl Controller {
    pub open spec fn wf(&self) -> bool {
        self@.models.len() == 0 || self@.selected < self@.models.len()
    }

    /// An idle controller over the discovered models, the first one selected.
    pub fn new(models: Vec<String>) -> (r: Self)
        ensures
            r.wf(),
            !r@.running,
            !r@.has_handle,
            r@.transcript.len() == 0,
            r@.status == ready_status(),
            r@.input is None,
            r@.models == models@.map_values(|m: String| m@),
            r@.selected == 0,
    {
        proof {
            reveal_strlit("Ready. Place models in './models' and select a video.");
        }
        let (outbox, inbox) = new_channel();
        let status = text_of("Ready. Place models in './models' and select a video.");
        assert(status@ =~= ready_status());
        Controller {
            running: false,
            status,
            transcript: String::new(),
            input: None,
            models,
            selected: 0,
            handle: None,
            inbox,
            outbox,
        }
    }

    pub fn is_running(&self) -> (r: bool)
        ensures
            r == self@.running,
    {
        self.running
    }

    pub fn status(&self) -> (r: &str)
        ensures
            r@ == self@.status,
    {
        self.status.as_str()
    }

    pub fn transcript(&self) -> (r: &str)
        ensures
            r@ == self@.transcript,
    {
        self.transcript.as_str()
    }

    pub fn has_handle(&self) -> (r: bool)
        ensures
            r == self@.has_handle,
    {
        self.handle.is_some()
    }

    /// The discovered model paths, in selection order.
    pub fn models(&self) -> (r: &Vec<String>)
        ensures
            r@.map_values(|m: String| m@) == self@.models,
    {
        &self.models
    }

    pub fn selected_model(&self) -> (r: usize)
        ensures
            r == self@.selected,
    {
        self.selected
    }

    pub fn input(&self) -> (r: Option<&String>)
        ensures
            r is None <==> self@.input is None,
            r is Some ==> r->0@ == self@.input->0,
    {
        self.input.as_ref()
    }

    /// Notes in the status that the transcript went to the clipboard.
    pub fn note_copied(&mut self)
        ensures
            final(self)@ == (ControllerView { status: copied_status(), ..old(self)@ }),
    {
        proof {
            reveal_strlit("Transcript copied to clipboard!");
        }
        self.status = text_of("Transcript copied to clipboard!");
        assert(self@.status =~= copied_status());
    }

    /// Another endpoint through which a job reaches this controller.
    pub fn job_sink(&self) -> crossbeam_channel::Sender<JobMessage> {
        clone_sender(&self.outbox)
    }

    /// Applies one message from the job to the shown state.
    pub fn apply_message(&mut self, m: JobMessage)
        ensures
            final(self)@ == applied(old(self)@, message_view(m)),
    {
        let ghost d = message_view(m);
        let ghost pre = self@;
        match m {
            JobMessage::Log(t) => {
                self.status = t;
            },
            JobMessage::Finished(s, t) => {
                self.running = false;
                self.status = s;
                self.transcript = t;
                self.handle = None;
            },
            JobMessage::Error(e) => {
                proof {
                    reveal_strlit("❌ Error: ");
                }
                let mut s = text_of("❌ Error: ");
                s.append(e.as_str());
                assert(s@ =~= error_status(e@));
                self.running = false;
                self.status = s;
                self.handle = None;
            },
            JobMessage::CancellationHandle(tx) => {
                self.handle = Some(tx);
            },
        }
        assert(self@ =~= applied(pre, d));
    }

    /// Drains, without blocking, the messages waiting when it is called, and
    /// applies them in the order they were sent. Returns how many there were;
    /// with none waiting the state is left as it was.
    pub fn poll_messages(&mut self) -> (r: usize)
        requires
            old(self).wf(),
        ensures
            final(self).wf(),
            exists|ms: Seq<Delivered>|
                ms.len() == r && final(self)@ == applied_all(old(self)@, ms),
            r == 0 ==> final(self)@ == old(self)@,
    {
        let n = pending_count(&self.inbox);
        let mut i: usize = 0;
        let ghost mut ms: Seq<Delivered> = Seq::empty();
        let ghost start = self@;
        while i < n
            invariant
                i <= n,
                ms.len() == i,
                self@ == applied_all(start, ms),
                self.wf(),
                start == old(self)@,
            decreases n - i,
        {
            match try_receive(&self.inbox) {
                Poll::Message(m) => {
                    proof {
                        let next = ms.push(message_view(m));
                        assert(next.drop_last() =~= ms);
                        ms = next;
                    }
                    self.apply_message(m);
                    i = i + 1;
                },
                _ => {
                    break;
                },
            }
        }
        assert(ms.len() == i);
        i
    }

    /// Whether a job can be started now.
    pub fn can_start(&self) -> (r: bool)
        ensures
            r == can_start(self@),
    {
        !self.running && self.input.is_some() && self.models.len() > 0
    }

    /// Starts a job when one can be started: clears the transcript, shows the
    /// job as running and returns the input and model it is to work on. No
    /// cancellation handle is held until the job's handshake arrives.
    pub fn start(&mut self) -> (r: Option<JobRequest>)
        requires
            old(self).wf(),
        ensures
            final(self).wf(),
            can_start(old(self)@) ==> final(self)@ == started(old(self)@) && r is Some
                && r->0.input@ == old(self)@.input->0 && r->0.model@ == old(self)@.models[old(
                self,
            )@.selected as int],
            !can_start(old(self)@) ==> final(self)@ == old(self)@ && r is None,
    {
        if !self.can_start() {
            return None;
        }
        proof {
            reveal_strlit("Initializing...");
        }
        let input = self.input.as_ref().unwrap().clone();
        let model = self.models[self.selected].clone();
        self.running = true;
        self.transcript = String::new();
        self.status = text_of("Initializing...");
        self.handle = None;
        assert(self@.status =~= initializing_status());
        Some(JobRequest { input, model })
    }

    /// Asks the running job to stop, once its handle has arrived. The state
    /// goes back to idle at once, without waiting for the job; a terminal
    /// message that still arrives later is applied like any other. A second
    /// request finds no handle and changes nothing.
    pub fn stop(&mut self)
        ensures
            final(self)@ == stopped(old(self)@),
    {
        if self.running && self.handle.is_some() {
            proof {
                reveal_strlit("Stopping transcription...");
            }
            let tx = self.handle.take().unwrap();
            let _ = send_message(&tx, ());
            self.running = false;
            self.status = text_of("Stopping transcription...");
            assert(self@.status =~= stopping_status());
        }
    }

    /// The text to write out, or `None` with a status saying that there is
    /// nothing to export when the transcript is empty.
    pub fn export_transcript(&mut self) -> (r: Option<String>)
        ensures
            old(self)@.transcript.len() == 0 ==> r is None && final(self)@ == (ControllerView {
                status: nothing_to_export_status(),
                ..old(self)@
            }),
            old(self)@.transcript.len() > 0 ==> r is Some && r->0@ == old(self)@.transcript
                && final(self)@ == old(self)@,
    {
        if self.transcript.as_str().is_empty() {
            proof {
                reveal_strlit("❌ Nothing to export!");
            }
            self.status = text_of("❌ Nothing to export!");
            assert(self@.status =~= nothing_to_export_status());
            return None;
        }
        Some(self.transcript.clone())
    }

    /// Shows how writing the exported transcript to `destination` went.
    pub fn finish_export(&mut self, destination: &str, result: Result<(), String>)
        ensures
            result is Ok ==> final(self)@ == (ControllerView {
                status: exported_status(destination@),
                ..old(self)@
            }),
            result is Err ==> final(self)@ == (ControllerView {
                status: export_failed_status(result->Err_0@),
                ..old(self)@
            }),
    {
        let s = match result {
            Ok(()) => {
                proof {
                    reveal_strlit("✅ Exported to: ");
                }
                let mut s = text_of("✅ Exported to: ");
                s.append(destination);
                assert(s@ =~= exported_status(destination@));
                s
            },
            Err(e) => {
                proof {
                    reveal_strlit("❌ Export failed: ");
                }
                let mut s = text_of("❌ Export failed: ");
                s.append(e.as_str());
                assert(s@ =~= export_failed_status(e@));
                s
            },
        };
        self.status = s;
    }

    /// Records the chosen input file.
    pub fn select_input(&mut self, path: String)
        ensures
            final(self)@ == (ControllerView {
                input: Some(path@),
                status: input_selected_status(),
                ..old(self)@
            }),
    {
        proof {
            reveal_strlit("Video selected.");
        }
        self.input = Some(path);
        self.status = text_of("Video selected.");
        assert(self@.status =~= input_selected_status());
    }

    /// Selects the model at `index`, when there is one.
    pub fn select_model(&mut self, index: usize)
        requires
            old(self).wf(),
        ensures
            final(self).wf(),
            index < old(self)@.models.len() ==> final(self)@ == (ControllerView {
                selected: index as nat,
                ..old(self)@
            }),
            index >= old(self)@.models.len() ==> final(self)@ == old(self)@,
    {
        if index < self.models.len() {
            self.selected = index;
        }
    }
}

pub open spec fn copied_status() -> Seq<char> {
    seq!['T', 'r', 'a', 'n', 's', 'c', 'r', 'i', 'p', 't', ' ', 'c', 'o', 'p', 'i', 'e', 'd', ' ',
        't', 'o', ' ', 'c', 'l', 'i', 'p', 'b', 'o', 'a', 'r', 'd', '!']
}

pub open spec fn ready_status() -> Seq<char> {
    seq!['R', 'e', 'a', 'd', 'y', '.', ' ', 'P', 'l', 'a', 'c', 'e', ' ', 'm', 'o', 'd', 'e', 'l', 's', ' ', 'i', 'n', ' ', '\'', '.', '/', 'm', 'o', 'd', 'e', 'l', 's', '\'', ' ', 'a', 'n', 'd', ' ', 's', 'e', 'l', 'e', 'c', 't', ' ', 'a', ' ', 'v', 'i', 'd', 'e', 'o', '.']
}

pub open spec fn input_selected_status() -> Seq<char> {
    seq!['V', 'i', 'd', 'e', 'o', ' ', 's', 'e', 'l', 'e', 'c', 't', 'e', 'd', '.']
}

/// The message that a runner's send action stands for. The handshake
/// carries the job's cancellation endpoint, which is handed over once.
pub fn message_for(a: Action, cancel: &mut Option<crossbeam_channel::Sender<()>>) -> (m:
    JobMessage)
    requires
        a is SendHandshake ==> (*old(cancel)) is Some,
        a is SendHandshake || a is SendLog || a is SendFinished || a is SendError,
    ensures
        sends(a, message_view(m)),
        a is SendHandshake ==> m == JobMessage::CancellationHandle((*old(cancel))->0),
        a is SendHandshake ==> (*final(cancel)) is None,
        !(a is SendHandshake) ==> *final(cancel) == *old(cancel),
{
    match a {
        Action::SendHandshake => JobMessage::CancellationHandle(cancel.take().unwrap()),
        Action::SendLog(t) => JobMessage::Log(t),
        Action::SendFinished(s, t) => JobMessage::Finished(s, t),
        Action::SendError(e) => JobMessage::Error(e),
        _ => JobMessage::Log(String::new()),
    }
}

/// Hands the message of a runner's send action to the job's message sink,
/// and reports whether the sink took it.
pub fn deliver(
    a: Action,
    sink: &crossbeam_channel::Sender<JobMessage>,
    cancel: &mut Option<crossbeam_channel::Sender<()>>,
) -> (ev: Event)
    requires
        a is SendHandshake ==> (*old(cancel)) is Some,
        a is SendHandshake || a is SendLog || a is SendFinished || a is SendError,
    ensures
        ev is Sent,
        a is SendHandshake ==> (*final(cancel)) is None,
        !(a is SendHandshake) ==> *final(cancel) == *old(cancel),
{
    let m = message_for(a, cancel);
    Event::Sent(send_message(sink, m))
}

/// Draining a channel with no message waiting changes nothing.
pub proof fn lemma_empty_drain(v: ControllerView)
    ensures
        applied_all(v, Seq::empty()) == v,
{
}

/// Draining applies messages one after another: two drains in a row end
/// where one drain of both batches would.
pub proof fn lemma_drain_in_order(v: ControllerView, a: Seq<Delivered>, b: Seq<Delivered>)
    ensures
        applied_all(applied_all(v, a), b) == applied_all(v, a + b),
    decreases b.len(),
{
    if b.len() == 0 {
        assert(a + b =~= a);
    } else {
        lemma_drain_in_order(v, a, b.drop_last());
        assert((a + b).drop_last() =~= a + b.drop_last());
        assert((a + b).last() == b.last());
    }
}

/// A second stop request right after a first one has no effect.
pub proof fn lemma_stop_twice(v: ControllerView)
    ensures
        stopped(stopped(v)) == stopped(v),
        v.running && v.has_handle ==> !stopped(v).running && !stopped(v).has_handle,
{
}

/// After a stop request that found the job's handle, draining whatever that
/// job still sends after its handshake (a late terminal message included)
/// never makes the controller running again nor gives it a handle, so a
/// further stop request changes nothing.
pub proof fn lemma_stop_then_drain(v: ControllerView, ms: Seq<Delivered>)
    requires
        v.running && v.has_handle,
        forall|i: int| 0 <= i < ms.len() ==> !(#[trigger] ms[i] is Handshake),
    ensures
        !applied_all(stopped(v), ms).running,
        !applied_all(stopped(v), ms).has_handle,
        stopped(applied_all(stopped(v), ms)) == applied_all(stopped(v), ms),
    decreases ms.len(),
{
    if ms.len() > 0 {
        let init = ms.drop_last();
        assert forall|i: int| 0 <= i < init.len() implies !(#[trigger] init[i] is Handshake) by {
            assert(init[i] == ms[i]);
        }
        lemma_stop_then_drain(v, init);
        assert(!(ms.last() is Handshake));
    }
}

} // verus!

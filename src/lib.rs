//! Orchestration of a cancellable background transcription job: the
//! cancellation token, the job's message protocol, the runner's decisions,
//! the foreground controller's state machine and the transcript format.

mod channel;
pub mod controller;
pub mod discovery;
pub mod job;
pub mod segment;
pub mod token;

pub use channel::Poll;
pub use controller::{deliver, message_for, Controller, JobMessage, JobRequest};
pub use discovery::{is_model_path_str, select_models};
pub use job::{describe_error, report_action, Action, Event, JobError, JobRunner, Outcome, Phase};
pub use segment::{format_segment_line, format_time_label, format_transcript, push_two_digits, Segment};
pub use token::CancellationToken;

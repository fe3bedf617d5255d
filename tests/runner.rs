use transcriber::{describe_error, report_action, Action, Event, JobError, JobRunner, Outcome, Phase, Segment};

fn seg(start: u64, end: u64, text: &str) -> Segment {
    Segment { start_centiseconds: start, end_centiseconds: end, text: text.to_string() }
}

/// Runs a job, feeding `events` in order, and returns every action it asked for.
fn drive(events: Vec<Event>) -> (JobRunner, Vec<Action>) {
    let mut runner = JobRunner::new();
    let mut actions = Vec::new();
    let mut events = events.into_iter();
    loop {
        let a = runner.next_action();
        let exit = matches!(a, Action::Exit);
        actions.push(a);
        if exit {
            break;
        }
        let ev = events.next().expect("an event for every action");
        assert!(runner.accepts(&ev));
        runner.handle(ev);
    }
    (runner, actions)
}

fn removals(actions: &[Action]) -> usize {
    actions.iter().filter(|a| matches!(a, Action::RemoveArtifact)).count()
}

fn sends(actions: &[Action]) -> Vec<String> {
    actions
        .iter()
        .filter_map(|a| match a {
            Action::SendHandshake => Some("handshake".to_string()),
            Action::SendLog(t) => Some(format!("log:{}", t)),
            Action::SendFinished(s, t) => Some(format!("finished:{}:{}", s, t)),
            Action::SendError(e) => Some(format!("error:{}", e)),
            _ => None,
        })
        .collect()
}

fn success_events(segs: Vec<Segment>) -> Vec<Event> {
    vec![
        Event::Sent(true),
        Event::Sent(true),
        Event::Extracted(Ok(())),
        Event::Polled(false),
        Event::Sent(true),
        Event::Loaded(true),
        Event::Sent(true),
        Event::Transcribed(Ok(segs)),
        Event::Polled(false),
        Event::Removed,
        Event::Sent(true),
    ]
}

#[test]
fn successful_job_reports_transcript_last() {
    let (runner, actions) = drive(success_events(vec![seg(0, 12300, " hi ")]));
    assert_eq!(
        sends(&actions),
        vec![
            "handshake",
            "log:Extracting audio...",
            "log:Loading Model...",
            "log:Transcribing...",
            "finished:Transcription Complete:[00:00 - 02:03] hi\n",
        ]
    );
    assert_eq!(removals(&actions), 1);
    assert_eq!(runner.phase, Phase::Done);
    assert!(runner.is_done());
}

#[test]
fn stages_run_in_order() {
    let (_, actions) = drive(success_events(vec![]));
    let kinds: Vec<&str> = actions
        .iter()
        .map(|a| match a {
            Action::SendHandshake => "handshake",
            Action::SendLog(_) => "log",
            Action::ExtractAudio => "extract",
            Action::PollCancellation => "poll",
            Action::LoadModel => "load",
            Action::Transcribe => "transcribe",
            Action::RemoveArtifact => "remove",
            Action::SendFinished(_, _) => "finished",
            Action::SendError(_) => "error",
            Action::Exit => "exit",
        })
        .collect();
    assert_eq!(
        kinds,
        vec![
            "handshake", "log", "extract", "poll", "log", "load", "log", "transcribe", "poll",
            "remove", "finished", "exit"
        ]
    );
}

#[test]
fn cancel_after_extraction_finishes_with_stop() {
    let (_, actions) = drive(vec![
        Event::Sent(true),
        Event::Sent(true),
        Event::Extracted(Ok(())),
        Event::Polled(true),
        Event::Removed,
        Event::Sent(true),
    ]);
    assert_eq!(
        sends(&actions),
        vec!["handshake", "log:Extracting audio...", "finished:Transcription Stopped by User:"]
    );
    assert!(!actions.iter().any(|a| matches!(a, Action::LoadModel)));
    assert_eq!(removals(&actions), 1);
}

#[test]
fn cancel_after_inference_drops_transcript() {
    let mut events = success_events(vec![seg(0, 100, "secret")]);
    events[8] = Event::Polled(true);
    let (_, actions) = drive(events);
    let sent = sends(&actions);
    assert_eq!(sent.last().unwrap(), "finished:Transcription Stopped by User:");
    assert!(!sent.iter().any(|m| m.contains("secret")));
    assert_eq!(removals(&actions), 1);
}

#[test]
fn extraction_failure_is_an_error() {
    let (_, actions) = drive(vec![
        Event::Sent(true),
        Event::Sent(true),
        Event::Extracted(Err("bad input".to_string())),
        Event::Removed,
        Event::Sent(true),
    ]);
    assert_eq!(sends(&actions).last().unwrap(), "error:FFmpeg failed: bad input");
    assert_eq!(removals(&actions), 1);
}

#[test]
fn model_load_failure_is_an_error() {
    let (_, actions) = drive(vec![
        Event::Sent(true),
        Event::Sent(true),
        Event::Extracted(Ok(())),
        Event::Polled(false),
        Event::Sent(true),
        Event::Loaded(false),
        Event::Removed,
        Event::Sent(true),
    ]);
    assert_eq!(sends(&actions).last().unwrap(), "error:Failed to load model");
    assert!(!actions.iter().any(|a| matches!(a, Action::Transcribe)));
}

#[test]
fn inference_failure_is_an_error() {
    let mut events = success_events(vec![]);
    events.truncate(7);
    events.push(Event::Transcribed(Err("engine".to_string())));
    events.push(Event::Removed);
    events.push(Event::Sent(true));
    let (_, actions) = drive(events);
    assert_eq!(sends(&actions).last().unwrap(), "error:Inference failed: engine");
    assert_eq!(removals(&actions), 1);
}

#[test]
fn gone_sink_stops_after_cleanup_without_report() {
    let (runner, actions) = drive(vec![Event::Sent(false), Event::Removed]);
    assert_eq!(sends(&actions), vec!["handshake"]);
    assert_eq!(removals(&actions), 1);
    assert!(matches!(runner.outcome, Some(Outcome::Failed(JobError::SinkGone))));
}

#[test]
fn gone_sink_during_logs_still_cleans_up() {
    let (_, actions) = drive(vec![Event::Sent(true), Event::Sent(true), Event::Extracted(Ok(())), Event::Polled(false), Event::Sent(false), Event::Removed]);
    assert_eq!(removals(&actions), 1);
    assert!(matches!(actions.last().unwrap(), Action::Exit));
}

#[test]
fn runner_refuses_unexpected_events() {
    let runner = JobRunner::new();
    assert!(runner.accepts(&Event::Sent(true)));
    assert!(!runner.accepts(&Event::Removed));
    assert!(!runner.accepts(&Event::Polled(false)));
}

#[test]
fn error_texts() {
    assert_eq!(describe_error(&JobError::ExternalTool("x".to_string())), "FFmpeg failed: x");
    assert_eq!(describe_error(&JobError::ModelLoad), "Failed to load model");
    assert_eq!(describe_error(&JobError::Inference("y".to_string())), "Inference failed: y");
    assert_eq!(describe_error(&JobError::Cancelled), "Transcription Stopped by User");
    assert_eq!(describe_error(&JobError::SinkGone), "Message sink closed");
}

#[test]
fn cancelled_outcome_reports_empty_finish() {
    match report_action(&Outcome::Failed(JobError::Cancelled)) {
        Action::SendFinished(s, t) => {
            assert_eq!(s, "Transcription Stopped by User");
            assert_eq!(t, "");
        }
        _ => panic!("expected a finish"),
    }
    assert!(matches!(report_action(&Outcome::Failed(JobError::ModelLoad)), Action::SendError(_)));
}

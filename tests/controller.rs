use transcriber::{deliver, message_for, is_model_path_str, select_models, Action, CancellationToken, Controller, Event, JobMessage};

fn ready() -> Controller {
    let mut c = Controller::new(vec!["/m/a.bin".to_string(), "/m/b.bin".to_string()]);
    c.select_input("/videos/talk.mp4".to_string());
    c
}

#[test]
fn new_controller_is_idle() {
    let c = Controller::new(vec!["/m/a.bin".to_string()]);
    assert!(!c.is_running());
    assert!(!c.has_handle());
    assert_eq!(c.transcript(), "");
    assert!(!c.can_start());
    assert_eq!(c.status(), "Ready. Place models in './models' and select a video.");
}

#[test]
fn selecting_input_notes_it() {
    let c = ready();
    assert_eq!(c.status(), "Video selected.");
    assert_eq!(c.input().map(|s| s.as_str()), Some("/videos/talk.mp4"));
}

#[test]
fn message_for_builds_each_kind() {
    let (tx, rx) = crossbeam_channel::unbounded::<()>();
    let mut cancel = Some(tx);
    match message_for(Action::SendHandshake, &mut cancel) {
        JobMessage::CancellationHandle(h) => {
            h.send(()).unwrap();
            assert!(rx.try_recv().is_ok());
        }
        _ => panic!("expected the handshake"),
    }
    assert!(cancel.is_none());
    assert!(matches!(message_for(Action::SendLog("a".to_string()), &mut cancel), JobMessage::Log(t) if t == "a"));
    assert!(matches!(message_for(Action::SendFinished("s".to_string(), "t".to_string()), &mut cancel), JobMessage::Finished(s, t) if s == "s" && t == "t"));
    assert!(matches!(message_for(Action::SendError("e".to_string()), &mut cancel), JobMessage::Error(e) if e == "e"));
}

#[test]
fn start_needs_a_model() {
    let mut c = Controller::new(vec![]);
    c.select_input("/v.mp4".to_string());
    assert!(!c.can_start());
    assert!(c.start().is_none());
    assert!(!c.is_running());
}

#[test]
fn start_hands_out_input_and_selected_model() {
    let mut c = ready();
    c.select_model(1);
    c.select_model(9);
    let req = c.start().expect("a job");
    assert_eq!(req.input, "/videos/talk.mp4");
    assert_eq!(req.model, "/m/b.bin");
    assert!(c.is_running());
    assert!(!c.has_handle());
    assert_eq!(c.status(), "Initializing...");
    assert!(c.start().is_none());
}

#[test]
fn draining_nothing_changes_nothing() {
    let mut c = ready();
    let before = (c.is_running(), c.status().to_string(), c.transcript().to_string(), c.has_handle());
    assert_eq!(c.poll_messages(), 0);
    assert_eq!(c.poll_messages(), 0);
    let after = (c.is_running(), c.status().to_string(), c.transcript().to_string(), c.has_handle());
    assert_eq!(before, after);
}

#[test]
fn drain_applies_all_messages_in_order() {
    let mut c = ready();
    c.start().unwrap();
    let sink = c.job_sink();
    let (tx, _rx) = crossbeam_channel::unbounded::<()>();
    sink.send(JobMessage::CancellationHandle(tx)).unwrap();
    sink.send(JobMessage::Log("Extracting audio...".to_string())).unwrap();
    sink.send(JobMessage::Log("Loading Model...".to_string())).unwrap();
    assert_eq!(c.poll_messages(), 3);
    assert!(c.has_handle());
    assert!(c.is_running());
    assert_eq!(c.status(), "Loading Model...");
    sink.send(JobMessage::Finished("Transcription Complete".to_string(), "[00:00 - 00:01] hi\n".to_string())).unwrap();
    assert_eq!(c.poll_messages(), 1);
    assert!(!c.is_running());
    assert!(!c.has_handle());
    assert_eq!(c.status(), "Transcription Complete");
    assert_eq!(c.transcript(), "[00:00 - 00:01] hi\n");
}

#[test]
fn error_message_ends_job() {
    let mut c = ready();
    c.start().unwrap();
    c.apply_message(JobMessage::Error("Failed to load model".to_string()));
    assert!(!c.is_running());
    assert_eq!(c.status(), "❌ Error: Failed to load model");
}

#[test]
fn second_stop_has_no_effect() {
    let mut c = ready();
    c.start().unwrap();
    let (tx, rx) = crossbeam_channel::unbounded::<()>();
    c.apply_message(JobMessage::CancellationHandle(tx));
    c.stop();
    assert!(!c.is_running());
    assert!(!c.has_handle());
    assert_eq!(c.status(), "Stopping transcription...");
    c.stop();
    assert_eq!(c.status(), "Stopping transcription...");
    assert!(rx.try_recv().is_ok());
    assert!(rx.try_recv().is_err());
}

#[test]
fn stop_before_handshake_does_nothing() {
    let mut c = ready();
    c.start().unwrap();
    c.stop();
    assert!(c.is_running());
    assert_eq!(c.status(), "Initializing...");
}

#[test]
fn late_terminal_after_stop_is_tolerated() {
    let mut c = ready();
    c.start().unwrap();
    let (tx, _rx) = crossbeam_channel::unbounded::<()>();
    c.apply_message(JobMessage::CancellationHandle(tx));
    c.stop();
    c.apply_message(JobMessage::Finished("Transcription Stopped by User".to_string(), String::new()));
    assert!(!c.is_running());
    assert!(!c.has_handle());
    assert_eq!(c.status(), "Transcription Stopped by User");
}

#[test]
fn export_of_empty_transcript_is_refused() {
    let mut c = ready();
    assert!(c.export_transcript().is_none());
    assert_eq!(c.status(), "❌ Nothing to export!");
}

#[test]
fn export_hands_out_transcript_verbatim() {
    let mut c = ready();
    c.apply_message(JobMessage::Finished("done".to_string(), "[00:00 - 00:02] é ü\n".to_string()));
    assert_eq!(c.export_transcript().unwrap(), "[00:00 - 00:02] é ü\n");
    assert_eq!(c.status(), "done");
    c.finish_export("/tmp/t.txt", Ok(()));
    assert_eq!(c.status(), "✅ Exported to: /tmp/t.txt");
    c.finish_export("/tmp/t.txt", Err("denied".to_string()));
    assert_eq!(c.status(), "❌ Export failed: denied");
}

#[test]
fn token_latches_cancellation() {
    let (tx, rx) = crossbeam_channel::unbounded::<()>();
    let mut token = CancellationToken::new(rx);
    assert!(!token.is_cancelled());
    tx.send(()).unwrap();
    assert!(token.is_cancelled());
    assert!(token.is_cancelled());
}

#[test]
fn dropped_sender_cancels() {
    let (tx, rx) = crossbeam_channel::unbounded::<()>();
    let mut token = CancellationToken::new(rx);
    drop(tx);
    assert!(token.is_cancelled());
}

#[test]
fn token_polls_the_given_receiver() {
    let (tx, rx) = crossbeam_channel::unbounded::<()>();
    let mut token = CancellationToken::new(rx);
    assert!(!token.is_cancelled());
    tx.send(()).unwrap();
    assert!(token.is_cancelled());
    assert!(tx.is_empty());
}

#[test]
fn deliver_hands_over_cancellation_endpoint_once() {
    let (sink, inbox) = crossbeam_channel::unbounded::<JobMessage>();
    let (tx, _rx) = crossbeam_channel::unbounded::<()>();
    let mut cancel = Some(tx);
    assert!(matches!(deliver(Action::SendHandshake, &sink, &mut cancel), Event::Sent(true)));
    assert!(cancel.is_none());
    assert!(matches!(inbox.try_recv(), Ok(JobMessage::CancellationHandle(_))));
    assert!(matches!(deliver(Action::SendLog("x".to_string()), &sink, &mut cancel), Event::Sent(true)));
    assert!(matches!(inbox.try_recv(), Ok(JobMessage::Log(t)) if t == "x"));
    drop(inbox);
    assert!(matches!(deliver(Action::SendError("e".to_string()), &sink, &mut cancel), Event::Sent(false)));
}

#[test]
fn model_paths_need_bin_extension_and_stem() {
    assert!(is_model_path_str("/m/ggml-base.bin"));
    assert!(is_model_path_str("a.bin"));
    assert!(!is_model_path_str(".bin"));
    assert!(!is_model_path_str("/m/.bin"));
    assert!(!is_model_path_str("/m/x.bin.txt"));
    assert!(!is_model_path_str("/m/x.BIN"));
}

#[test]
fn models_are_filtered_and_sorted() {
    let found = vec![
        "/m/small.bin".to_string(),
        "/m/readme.md".to_string(),
        "/m/base.bin".to_string(),
        "/m/.bin".to_string(),
        "/m/large.bin".to_string(),
    ];
    assert_eq!(select_models(found), vec!["/m/base.bin", "/m/large.bin", "/m/small.bin"]);
}

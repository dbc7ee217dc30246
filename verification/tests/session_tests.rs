use harmonia::{Action, Command, Event, GenerationSession, Input, LifecycleState, Note, Style};

fn fresh_session_with_style() -> GenerationSession {
    let mut session = GenerationSession::new();
    let effect = session.step(Input::Command(Command::SelectStyle(Style::AcousticGrand)));
    assert!(matches!(effect.action, Action::Stay));
    assert!(effect.event.is_none());
    session
}

#[test]
fn new_session_is_idle_with_closed_gate() {
    let session = GenerationSession::new();
    assert_eq!(session.state, LifecycleState::Idle);
    assert!(!session.download_gate);
    assert!(session.download_link.is_none());
    assert!(session.selected_style.is_none());
    assert_eq!(session.tempo_milli_bpm, 120_000);
    assert_eq!(session.time_sig_numerator, 4);
    assert_eq!(session.time_sig_denominator, 0);
    assert_eq!(session.scale, Note::CSharp);
    assert_eq!(session.generation_counter, 0);
}

#[test]
fn generate_without_style_is_noop() {
    let mut session = GenerationSession::new();
    let effect = session.step(Input::Command(Command::Generate));
    assert!(matches!(effect.action, Action::Stay));
    assert!(effect.event.is_none());
    assert_eq!(session.state, LifecycleState::Idle);
    assert!(!session.download_gate);
    assert_eq!(session.generation_counter, 0);
}

#[test]
fn generate_with_style_starts_generation() {
    let mut session = fresh_session_with_style();
    let effect = session.step(Input::Command(Command::Generate));
    assert_eq!(session.state, LifecycleState::Generating);
    assert!(!session.download_gate);
    assert_eq!(session.generation_counter, 1);
    match effect.action {
        Action::StartGeneration { counter, request } => {
            assert_eq!(counter, 1);
            assert_eq!(request.bpm_milli, 120_000);
            assert_eq!(request.duration, 128);
            assert_eq!(request.scale, Note::CSharp);
            assert_eq!(request.style, Style::AcousticGrand);
            assert_eq!(request.time_signature_num, 4);
            assert_eq!(request.time_signature_den, 0);
        },
        _ => panic!("expected a generation to start"),
    }
    assert!(effect.event.is_none());
}

#[test]
fn successful_generation_round_trips_the_link() {
    let mut session = fresh_session_with_style();
    session.step(Input::Command(Command::Generate));
    let effect = session.step(Input::GenerationFinished {
        counter: 1,
        outcome: Ok(String::from("https://x/y.mid")),
    });
    assert_eq!(session.state, LifecycleState::LinkReady);
    assert_eq!(session.download_link.as_deref(), Some("https://x/y.mid"));
    assert!(session.download_gate);
    assert!(matches!(effect.action, Action::Stay));
    assert!(matches!(effect.event, Some(Event::DownloadLinkAvailable(true))));
}

#[test]
fn failed_generation_returns_to_idle() {
    let mut session = fresh_session_with_style();
    session.step(Input::Command(Command::Generate));
    let effect = session.step(Input::GenerationFinished {
        counter: 1,
        outcome: Err(String::from("connection refused")),
    });
    assert_eq!(session.state, LifecycleState::Idle);
    assert!(!session.download_gate);
    assert!(session.download_link.is_none());
    assert!(matches!(effect.action, Action::Stay));
    assert!(effect.event.is_none());
}

#[test]
fn stale_generation_answer_is_discarded() {
    let mut session = fresh_session_with_style();
    session.step(Input::Command(Command::Generate));
    session.step(Input::Command(Command::Generate));
    assert_eq!(session.generation_counter, 2);
    let effect = session.step(Input::GenerationFinished {
        counter: 1,
        outcome: Ok(String::from("https://stale/old.mid")),
    });
    assert_eq!(session.state, LifecycleState::Generating);
    assert!(!session.download_gate);
    assert!(session.download_link.is_none());
    assert!(matches!(effect.action, Action::Stay));
    assert!(effect.event.is_none());
}

#[test]
fn regenerate_closes_the_gate_immediately() {
    let mut session = fresh_session_with_style();
    session.step(Input::Command(Command::Generate));
    session.step(Input::GenerationFinished {
        counter: 1,
        outcome: Ok(String::from("https://x/y.mid")),
    });
    assert!(session.download_gate);
    let effect = session.step(Input::Command(Command::Generate));
    assert_eq!(session.state, LifecycleState::Generating);
    assert!(!session.download_gate);
    assert!(session.download_link.is_none());
    assert!(matches!(effect.action, Action::StartGeneration { counter: 2, .. }));
}

#[test]
fn download_with_link_ready_starts_one_worker() {
    let mut session = fresh_session_with_style();
    session.step(Input::Command(Command::Generate));
    session.step(Input::GenerationFinished {
        counter: 1,
        outcome: Ok(String::from("https://x/y.mid")),
    });
    let effect = session.step(Input::Command(Command::Download));
    assert_eq!(session.state, LifecycleState::Downloading);
    match effect.action {
        Action::StartDownload { url } => assert_eq!(url, "https://x/y.mid"),
        _ => panic!("expected a download to start"),
    }
    assert!(effect.event.is_none());
}

#[test]
fn download_while_downloading_is_noop() {
    let mut session = fresh_session_with_style();
    session.step(Input::Command(Command::Generate));
    session.step(Input::GenerationFinished {
        counter: 1,
        outcome: Ok(String::from("https://x/y.mid")),
    });
    session.step(Input::Command(Command::Download));
    assert_eq!(session.state, LifecycleState::Downloading);
    let effect = session.step(Input::Command(Command::Download));
    assert!(matches!(effect.action, Action::Stay));
    assert!(effect.event.is_none());
    assert_eq!(session.state, LifecycleState::Downloading);
}

#[test]
fn download_without_link_is_noop() {
    let mut session = fresh_session_with_style();
    let effect = session.step(Input::Command(Command::Download));
    assert!(matches!(effect.action, Action::Stay));
    assert!(effect.event.is_none());
    assert_eq!(session.state, LifecycleState::Idle);

    session.step(Input::Command(Command::Generate));
    let effect = session.step(Input::Command(Command::Download));
    assert!(matches!(effect.action, Action::Stay));
    assert!(effect.event.is_none());
    assert_eq!(session.state, LifecycleState::Generating);
}

#[test]
fn finished_download_reports_full_progress_and_keeps_link() {
    let mut session = fresh_session_with_style();
    session.step(Input::Command(Command::Generate));
    session.step(Input::GenerationFinished {
        counter: 1,
        outcome: Ok(String::from("https://x/y.mid")),
    });
    session.step(Input::Command(Command::Download));
    let effect = session.step(Input::DownloadFinished { outcome: Ok(()) });
    assert_eq!(session.state, LifecycleState::LinkReady);
    assert!(session.download_gate);
    assert_eq!(session.download_link.as_deref(), Some("https://x/y.mid"));
    assert!(matches!(effect.event, Some(Event::DownloadProgress(100))));
}

#[test]
fn failed_download_recovers_for_a_retry() {
    let mut session = fresh_session_with_style();
    session.step(Input::Command(Command::Generate));
    session.step(Input::GenerationFinished {
        counter: 1,
        outcome: Ok(String::from("https://x/y.mid")),
    });
    session.step(Input::Command(Command::Download));
    let effect = session.step(Input::DownloadFinished {
        outcome: Err(String::from("connection reset")),
    });
    assert_eq!(session.state, LifecycleState::DownloadError);
    assert!(session.download_gate);
    match effect.event {
        Some(Event::DownloadError(message)) => assert_eq!(message, "connection reset"),
        _ => panic!("expected a download error event"),
    }
    let effect = session.step(Input::Command(Command::Download));
    assert_eq!(session.state, LifecycleState::Downloading);
    assert!(matches!(effect.action, Action::StartDownload { .. }));
}

#[test]
fn select_note_changes_the_scale_for_later_requests() {
    let mut session = fresh_session_with_style();
    session.step(Input::Command(Command::SelectNote(Note::GSharp)));
    assert_eq!(session.scale, Note::GSharp);
    let effect = session.step(Input::Command(Command::Generate));
    match effect.action {
        Action::StartGeneration { request, .. } => assert_eq!(request.scale, Note::GSharp),
        _ => panic!("expected a generation to start"),
    }
}

#[test]
fn transport_values_are_applied_each_block() {
    let mut session = fresh_session_with_style();
    let effect = session.process_block(Some(132_500), Some(3), Some(4), Input::Quiet);
    assert!(matches!(effect.action, Action::Stay));
    assert_eq!(session.tempo_milli_bpm, 132_500);
    assert_eq!(session.time_sig_numerator, 3);
    assert_eq!(session.time_sig_denominator, 4);
    session.process_block(None, None, None, Input::Quiet);
    assert_eq!(session.tempo_milli_bpm, 132_500);
    assert_eq!(session.time_sig_numerator, 3);
    assert_eq!(session.time_sig_denominator, 4);
}

#[test]
fn quiet_blocks_do_nothing() {
    let mut session = fresh_session_with_style();
    let effect = session.step(Input::Quiet);
    assert!(matches!(effect.action, Action::Stay));
    assert!(effect.event.is_none());
    assert_eq!(session.state, LifecycleState::Idle);
    let effect = session.step(Input::ChannelClosed);
    assert!(matches!(effect.action, Action::Stay));
    assert!(effect.event.is_none());
}

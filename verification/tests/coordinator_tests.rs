use harmonia::{Action, Command, Coordinator, Event, Input, LifecycleState, Style};

#[test]
fn one_block_drains_one_command() {
    let (sender, mut coordinator) = Coordinator::new();
    assert!(sender.send(Input::Command(Command::SelectStyle(Style::Marimba))));
    assert!(sender.send(Input::Command(Command::Generate)));

    let (_, effect) = coordinator.run_block(None, None, None);
    assert!(matches!(effect.action, Action::Stay));
    assert_eq!(coordinator.session.selected_style, Some(Style::Marimba));
    assert_eq!(coordinator.session.state, LifecycleState::Idle);

    let (_, effect) = coordinator.run_block(Some(90_000), None, None);
    match effect.action {
        Action::StartGeneration { counter, request } => {
            assert_eq!(counter, 1);
            assert_eq!(request.bpm_milli, 90_000);
            assert_eq!(request.style, Style::Marimba);
        },
        _ => panic!("expected a generation to start"),
    }
    assert_eq!(coordinator.session.state, LifecycleState::Generating);
}

#[test]
fn empty_blocks_change_nothing() {
    let (_sender, mut coordinator) = Coordinator::new();
    for _ in 0..8 {
        let (_, effect) = coordinator.run_block(None, None, None);
        assert!(matches!(effect.action, Action::Stay));
        assert!(effect.event.is_none());
    }
    assert_eq!(coordinator.session.state, LifecycleState::Idle);
}

#[test]
fn worker_answers_flow_back_through_the_channel() {
    let (sender, mut coordinator) = Coordinator::new();
    sender.send(Input::Command(Command::SelectStyle(Style::Koto)));
    coordinator.run_block(None, None, None);
    sender.send(Input::Command(Command::Generate));
    coordinator.run_block(None, None, None);

    sender.send(Input::GenerationFinished {
        counter: 1,
        outcome: Ok(String::from("https://x/y.mid")),
    });
    let (_, effect) = coordinator.run_block(None, None, None);
    assert!(matches!(effect.event, Some(Event::DownloadLinkAvailable(true))));
    assert_eq!(coordinator.session.state, LifecycleState::LinkReady);
    assert!(coordinator.session.download_gate);
}

#[test]
fn hangup_is_survived() {
    let (sender, mut coordinator) = Coordinator::new();
    drop(sender);
    coordinator.run_block(None, None, None);
    let (_, effect) = coordinator.run_block(None, None, None);
    assert!(matches!(effect.action, Action::Stay));
    assert!(effect.event.is_none());
    assert_eq!(coordinator.session.state, LifecycleState::Idle);
}

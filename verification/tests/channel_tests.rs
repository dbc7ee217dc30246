use harmonia::{Command, ControlChannel, Input, Poll, ThreadSafeMap};

#[test]
fn commands_arrive_in_send_order() {
    let (sender, mut channel) = ControlChannel::<Input>::new();
    assert!(sender.send(Input::Command(Command::Generate)));
    assert!(sender.send(Input::Command(Command::Download)));
    assert!(matches!(channel.poll(), Poll::Received(Input::Command(Command::Generate))));
    assert!(matches!(channel.poll(), Poll::Received(Input::Command(Command::Download))));
    assert!(matches!(channel.poll(), Poll::Empty));
}

#[test]
fn every_sender_clone_feeds_the_same_consumer() {
    let (sender, mut channel) = ControlChannel::<Input>::new();
    let second = sender.clone();
    assert!(second.send(Input::Quiet));
    assert!(matches!(channel.poll(), Poll::Received(Input::Quiet)));
}

#[test]
fn hangup_is_reported_once_then_polls_stay_quiet() {
    let (sender, mut channel) = ControlChannel::<Input>::new();
    assert!(matches!(channel.poll_input(), Input::Quiet));
    drop(sender);
    assert!(matches!(channel.poll_input(), Input::ChannelClosed));
    assert!(matches!(channel.poll_input(), Input::Quiet));
    assert!(matches!(channel.poll_input(), Input::Quiet));
}

#[test]
fn sending_to_a_dropped_consumer_reports_failure() {
    let (sender, channel) = ControlChannel::<Input>::new();
    drop(channel);
    assert!(!sender.send(Input::Quiet));
}

#[test]
fn telemetry_store_is_last_write_wins() {
    let map: ThreadSafeMap<String, String> = ThreadSafeMap::new();
    assert_eq!(map.get(&String::from("Folder")), Ok(None));
    assert_eq!(map.insert(String::from("Folder"), String::from("/tmp/a")), Ok(None));
    assert_eq!(
        map.insert(String::from("Folder"), String::from("/tmp/b")),
        Ok(Some(String::from("/tmp/a")))
    );
    assert_eq!(map.get(&String::from("Folder")), Ok(Some(String::from("/tmp/b"))));
}

#[test]
fn telemetry_clones_share_one_store() {
    let map: ThreadSafeMap<String, String> = ThreadSafeMap::new();
    let other = map.clone();
    other.insert(String::from("Transport"), String::from("Playing")).unwrap();
    assert_eq!(map.get(&String::from("Transport")), Ok(Some(String::from("Playing"))));
}

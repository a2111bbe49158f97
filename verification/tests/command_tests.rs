use mpd_webthing::command::{
    plan_random_enqueues, submit, transition, ActionStatus, Command, DeviceOp,
};
use mpd_webthing::model::PlaybackState;
use mpd_webthing::store::ValidationError;

#[test]
fn submit_known_commands() {
    for (name, expected) in [
        ("play", Command::Play),
        ("pause", Command::Pause),
        ("stop", Command::Stop),
        ("next", Command::Next),
        ("previous", Command::Previous),
    ] {
        let action = submit(name, None).unwrap();
        assert_eq!(action.command(), expected);
        assert_eq!(action.get_status(), ActionStatus::Created);
        assert_eq!(action.get_id().len(), 36);
    }
}

#[test]
fn submit_ignores_input_on_transport_commands() {
    let action = submit("play", Some(7)).unwrap();
    assert_eq!(action.command(), Command::Play);
}

#[test]
fn submit_generates_distinct_identifiers() {
    let a = submit("play", None).unwrap();
    let b = submit("play", None).unwrap();
    assert_ne!(a.get_id(), b.get_id());
}

#[test]
fn submit_unknown_command_is_rejected() {
    assert_eq!(
        submit("rewind", None).err().unwrap(),
        ValidationError::UnknownCommand
    );
}

#[test]
fn submit_queue_random_validates_count() {
    assert_eq!(
        submit("queueRandom", None).err().unwrap(),
        ValidationError::MissingInput
    );
    assert_eq!(
        submit("queueRandom", Some(0)).err().unwrap(),
        ValidationError::InvalidInput
    );
    let action = submit("queueRandom", Some(3)).unwrap();
    assert_eq!(action.command(), Command::QueueRandom { count: 3 });
}

#[test]
fn transition_table_for_play() {
    assert_eq!(transition(PlaybackState::Playing, &Command::Play), None);
    assert_eq!(
        transition(PlaybackState::Stopped, &Command::Play),
        Some(DeviceOp::Play)
    );
    assert_eq!(
        transition(PlaybackState::Paused, &Command::Play),
        Some(DeviceOp::Resume)
    );
}

#[test]
fn transition_table_for_pause() {
    assert_eq!(
        transition(PlaybackState::Playing, &Command::Pause),
        Some(DeviceOp::Pause)
    );
    assert_eq!(transition(PlaybackState::Stopped, &Command::Pause), None);
    assert_eq!(transition(PlaybackState::Paused, &Command::Pause), None);
}

#[test]
fn transition_table_for_stop_next_previous() {
    for (cmd, op) in [
        (Command::Stop, DeviceOp::Stop),
        (Command::Next, DeviceOp::Next),
        (Command::Previous, DeviceOp::Previous),
    ] {
        assert_eq!(transition(PlaybackState::Stopped, &cmd), None);
        assert_eq!(transition(PlaybackState::Playing, &cmd), Some(op));
        assert_eq!(transition(PlaybackState::Paused, &cmd), Some(op));
    }
}

#[test]
fn action_lifecycle_completes() {
    let mut action = submit("play", None).unwrap();
    action.start();
    assert_eq!(action.get_status(), ActionStatus::Running);
    action.finish(true);
    assert_eq!(action.get_status(), ActionStatus::Completed);
}

#[test]
fn action_lifecycle_fails() {
    let mut action = submit("stop", None).unwrap();
    action.start();
    action.finish(false);
    assert_eq!(action.get_status(), ActionStatus::Failed);
}

#[test]
fn action_lifecycle_cancels() {
    let mut action = submit("next", None).unwrap();
    action.start();
    action.cancel();
    assert_eq!(action.get_status(), ActionStatus::Cancelled);
}

#[test]
fn queue_random_draws_from_catalog() {
    let catalog: Vec<String> = ["a.ogg", "b.ogg", "c.ogg", "d.ogg", "e.ogg"]
        .iter()
        .map(|s| s.to_string())
        .collect();
    let picks = plan_random_enqueues(&catalog, 3);
    assert_eq!(picks.len(), 3);
    for pick in &picks {
        assert!(catalog.contains(pick));
    }
}

#[test]
fn queue_random_with_empty_catalog_draws_nothing() {
    let catalog: Vec<String> = Vec::new();
    let picks = plan_random_enqueues(&catalog, 3);
    assert_eq!(picks.len(), 0);
}

#[test]
fn queue_random_with_single_entry_repeats_it() {
    let catalog: Vec<String> = vec!["only.ogg".to_string()];
    let picks = plan_random_enqueues(&catalog, 4);
    assert_eq!(picks.len(), 4);
    for pick in &picks {
        assert_eq!(pick.as_str(), "only.ogg");
    }
}

use fluyendo::audio::{
    AudioCommand, CommandQueue, Controller, WorkerAction, WorkerState, QUEUE_CAPACITY,
    VOLUME_FULL, VOLUME_SILENT,
};

#[test]
fn queue_keeps_submission_order() {
    let mut q = CommandQueue::new(QUEUE_CAPACITY);
    assert!(q.try_send(AudioCommand::Start));
    assert!(q.try_send(AudioCommand::ChangeVolume(VOLUME_SILENT)));
    assert!(q.try_send(AudioCommand::Stop));
    assert_eq!(q.pop_front(), Some(AudioCommand::Start));
    assert_eq!(q.pop_front(), Some(AudioCommand::ChangeVolume(VOLUME_SILENT)));
    assert_eq!(q.pop_front(), Some(AudioCommand::Stop));
    assert_eq!(q.pop_front(), None);
}

#[test]
fn full_queue_drops_the_command() {
    let mut q = CommandQueue::new(QUEUE_CAPACITY);
    for _ in 0..QUEUE_CAPACITY {
        assert!(q.try_send(AudioCommand::Start));
    }
    assert_eq!(q.len(), QUEUE_CAPACITY);

    // One more command: dropped, the queue unchanged.
    assert!(!q.try_send(AudioCommand::Stop));
    assert_eq!(q.len(), QUEUE_CAPACITY);
    for _ in 0..QUEUE_CAPACITY {
        assert_eq!(q.pop_front(), Some(AudioCommand::Start));
    }
    assert_eq!(q.pop_front(), None);
}

#[test]
fn controller_maps_operations_to_commands() {
    let mut c = Controller::new(Some(String::from("alarm.mp3")));
    assert_eq!(c.initial_source, Some(String::from("alarm.mp3")));
    c.start();
    c.stop();
    c.update(None);
    c.mute();
    c.unmute();
    assert_eq!(c.queue.pop_front(), Some(AudioCommand::Start));
    assert_eq!(c.queue.pop_front(), Some(AudioCommand::Stop));
    assert_eq!(c.queue.pop_front(), Some(AudioCommand::ChangeSource(None)));
    assert_eq!(
        c.queue.pop_front(),
        Some(AudioCommand::ChangeVolume(VOLUME_SILENT))
    );
    assert_eq!(
        c.queue.pop_front(),
        Some(AudioCommand::ChangeVolume(VOLUME_FULL))
    );
    assert_eq!(c.queue.pop_front(), None);
}

#[test]
fn controller_drops_excess_commands_without_blocking() {
    let mut c = Controller::new(None);
    for _ in 0..QUEUE_CAPACITY {
        c.start();
    }
    // The queue is full now; this one is dropped silently.
    c.mute();
    assert_eq!(c.queue.len(), QUEUE_CAPACITY);
    for _ in 0..QUEUE_CAPACITY {
        assert_eq!(c.queue.pop_front(), Some(AudioCommand::Start));
    }
    assert_eq!(c.queue.pop_front(), None);
}

#[test]
fn stop_while_not_playing_needs_no_playback_call() {
    let w = WorkerState::new();
    assert!(!w.playing);
    let (w2, action) = w.step(AudioCommand::Stop);
    assert_eq!(action, WorkerAction::NoOp);
    assert!(!w2.playing);
}

#[test]
fn stop_while_playing_pauses_and_rewinds() {
    let w = WorkerState::new();
    let (w2, action) = w.step(AudioCommand::Start);
    assert_eq!(action, WorkerAction::Play);
    assert!(w2.playing);
    let (w3, action) = w2.step(AudioCommand::Stop);
    assert_eq!(action, WorkerAction::PauseAndRewind);
    assert!(!w3.playing);
}

#[test]
fn start_is_idempotent_for_the_worker() {
    let w = WorkerState::new();
    let (w2, _) = w.step(AudioCommand::Start);
    let (w3, action) = w2.step(AudioCommand::Start);
    assert_eq!(action, WorkerAction::Play);
    assert!(w3.playing);
}

#[test]
fn source_and_volume_changes_leave_play_state_alone() {
    let w = WorkerState::new();
    let (w2, action) = w.step(AudioCommand::ChangeSource(Some(String::from("x.mp3"))));
    assert_eq!(action, WorkerAction::Load(Some(String::from("x.mp3"))));
    assert!(!w2.playing);

    let (playing, _) = w.step(AudioCommand::Start);
    let (w3, action) = playing.step(AudioCommand::ChangeVolume(VOLUME_SILENT));
    assert_eq!(action, WorkerAction::SetVolume(VOLUME_SILENT));
    assert!(w3.playing);
    let (w4, action) = w3.step(AudioCommand::ChangeSource(None));
    assert_eq!(action, WorkerAction::Load(None));
    assert!(w4.playing);
}

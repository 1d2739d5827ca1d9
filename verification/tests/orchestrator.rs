use capturer::orchestrator::{Capturer, CapturerState};
use capturer::item::CaptureItem;
use capturer::protocol::{CapturerCommand, CapturerEvent, PlaybackConfig};

fn track(id: &str) -> CaptureItem {
    CaptureItem {
        item_id: String::from(id),
        name: String::from("So What"),
        artist: String::from("Miles Davis"),
    }
}

fn fresh_capturer() -> Capturer<u8, u16, u32, String> {
    Capturer::new(1, 2, 3, PlaybackConfig { bitrate: 160 }, String::from("music"))
}

#[test]
fn new_capturer_is_idle_with_the_given_configuration_and_an_empty_channel() {
    let capturer = fresh_capturer();
    assert_eq!(capturer.state(), &CapturerState::Idle);
    assert_eq!(capturer.config(), PlaybackConfig { bitrate: 160 });
    assert!(capturer.event_receiver().try_recv().is_err());
}

#[test]
fn configure_repeated_leaves_the_last_configuration() {
    let mut capturer = fresh_capturer();
    for bitrate in [96usize, 320, 320, 320] {
        let spawned = capturer.handle(CapturerEvent::Command(CapturerCommand::Configure {
            config: PlaybackConfig { bitrate },
        }));
        assert!(spawned.is_none());
    }
    assert_eq!(capturer.config(), PlaybackConfig { bitrate: 320 });
    assert_eq!(capturer.state(), &CapturerState::Idle);
    assert!(capturer.event_receiver().try_recv().is_err());
}

#[test]
fn configure_keeps_the_tracked_download() {
    let mut capturer = fresh_capturer();
    let item = track("abc123");
    capturer.handle(CapturerEvent::Command(CapturerCommand::Download { item: item.clone() }));
    capturer.handle(CapturerEvent::Command(CapturerCommand::Configure {
        config: PlaybackConfig { bitrate: 96 },
    }));
    assert_eq!(capturer.state(), &CapturerState::Downloading { item });
    assert_eq!(capturer.config(), PlaybackConfig { bitrate: 96 });
}

#[test]
fn accepted_download_hands_out_a_task_with_copies_of_the_handles() {
    let mut capturer = fresh_capturer();
    let item = track("abc123");
    let task = capturer
        .handle(CapturerEvent::Command(CapturerCommand::Download { item: item.clone() }))
        .expect("task");
    assert_eq!(task.item, item);
    assert_eq!(task.session, 1u8);
    assert_eq!(task.cdn, 2u16);
    assert_eq!(task.cache, 3u32);
    assert_eq!(task.destination_dir, "music");
    assert_eq!(task.config, PlaybackConfig { bitrate: 160 });
    assert!(task.event_sender.sender().same_channel(&capturer.event_sender()));
}

#[test]
fn second_download_replaces_the_tracked_one() {
    let mut capturer = fresh_capturer();
    let first = track("first");
    let second = track("second");
    capturer.handle(CapturerEvent::Command(CapturerCommand::Download { item: first }));
    capturer.handle(CapturerEvent::Command(CapturerCommand::Download { item: second.clone() }));
    assert_eq!(capturer.state(), &CapturerState::Downloading { item: second });
}

#[test]
fn notices_coming_back_change_nothing() {
    let mut capturer = fresh_capturer();
    let events = capturer.event_receiver();
    let item = track("abc123");
    capturer.handle(CapturerEvent::Command(CapturerCommand::Download { item: item.clone() }));
    assert_eq!(events.try_recv(), Ok(CapturerEvent::Downloading { item: item.clone() }));

    assert!(capturer.handle(CapturerEvent::Downloading { item: item.clone() }).is_none());
    assert_eq!(capturer.state(), &CapturerState::Downloading { item: item.clone() });
    assert!(capturer.handle(CapturerEvent::Downloaded { item: item.clone() }).is_none());
    assert_eq!(capturer.state(), &CapturerState::Downloading { item: item.clone() });
    assert!(capturer.handle(CapturerEvent::Downloaded { item: track("other") }).is_none());
    assert_eq!(capturer.state(), &CapturerState::Downloading { item });
    assert_eq!(capturer.config(), PlaybackConfig { bitrate: 160 });
    assert!(events.try_recv().is_err());

    let mut idle = fresh_capturer();
    assert!(idle.handle(CapturerEvent::Downloaded { item: track("abc123") }).is_none());
    assert_eq!(idle.state(), &CapturerState::Idle);
}

#[test]
fn register_with_delivery_tracks_the_download() {
    let mut capturer = fresh_capturer();
    let item = track("abc123");
    let task = capturer.register(item.clone(), true).expect("task");
    assert_eq!(task.item, item);
    assert_eq!(capturer.state(), &CapturerState::Downloading { item });
    assert!(capturer.event_receiver().try_recv().is_err());
}

#[test]
fn register_without_delivery_invalidates_the_capturer() {
    let mut capturer = fresh_capturer();
    assert!(capturer.register(track("abc123"), false).is_none());
    assert_eq!(capturer.state(), &CapturerState::Invalid);
    assert_eq!(capturer.config(), PlaybackConfig { bitrate: 160 });
}

#[test]
fn invalid_capturer_accepts_no_download_and_announces_nothing() {
    let mut capturer = fresh_capturer();
    let events = capturer.event_receiver();
    capturer.register(track("abc123"), false);

    let spawned =
        capturer.handle(CapturerEvent::Command(CapturerCommand::Download { item: track("next") }));
    assert!(spawned.is_none());
    assert_eq!(capturer.state(), &CapturerState::Invalid);
    assert!(events.try_recv().is_err());

    assert!(capturer.register(track("next"), true).is_none());
    assert_eq!(capturer.state(), &CapturerState::Invalid);

    capturer.handle(CapturerEvent::Command(CapturerCommand::Configure {
        config: PlaybackConfig { bitrate: 96 },
    }));
    assert_eq!(capturer.state(), &CapturerState::Invalid);
    assert_eq!(capturer.config(), PlaybackConfig { bitrate: 96 });

    assert!(capturer.handle(CapturerEvent::Downloaded { item: track("abc123") }).is_none());
    assert_eq!(capturer.state(), &CapturerState::Invalid);
}

#[test]
fn handles_given_out_share_the_capturer_channel() {
    let mut capturer = fresh_capturer();
    let sender = capturer.event_sender();
    let receiver = capturer.event_receiver();
    let other_receiver = capturer.event_receiver();
    let item = track("abc123");

    sender
        .send(CapturerEvent::Command(CapturerCommand::Download { item: item.clone() }))
        .expect("the capturer keeps the channel open");
    let command = receiver.try_recv().expect("the command sent through the handle");
    assert_eq!(command, CapturerEvent::Command(CapturerCommand::Download { item: item.clone() }));

    assert!(capturer.handle(command).is_some());
    assert_eq!(other_receiver.try_recv(), Ok(CapturerEvent::Downloading { item }));
    assert!(receiver.same_channel(&other_receiver));
    assert!(sender.same_channel(&capturer.event_sender()));
}

#[test]
fn task_sender_puts_events_on_the_capturer_channel() {
    let mut capturer = fresh_capturer();
    let events = capturer.event_receiver();
    let item = track("abc123");
    let task = capturer
        .handle(CapturerEvent::Command(CapturerCommand::Download { item: item.clone() }))
        .expect("task");
    assert_eq!(events.try_recv(), Ok(CapturerEvent::Downloading { item: item.clone() }));

    assert_eq!(task.event_sender.send(CapturerEvent::Downloaded { item: item.clone() }), Ok(()));
    assert_eq!(events.try_recv(), Ok(CapturerEvent::Downloaded { item }));
    assert!(events.try_recv().is_err());
}

#[test]
fn send_gives_the_event_back_once_every_receiver_is_gone() {
    let mut capturer = fresh_capturer();
    let item = track("abc123");
    let task = capturer
        .handle(CapturerEvent::Command(CapturerCommand::Download { item: item.clone() }))
        .expect("task");
    drop(capturer);
    assert_eq!(
        task.event_sender.send(CapturerEvent::Downloaded { item: item.clone() }),
        Err(CapturerEvent::Downloaded { item })
    );
}

#[test]
fn sending_does_not_wait_for_a_receiver() {
    let mut capturer = fresh_capturer();
    let events = capturer.event_receiver();
    let mut tasks = Vec::new();
    for round in 0..2000 {
        let item = track(&format!("item-{}", round));
        tasks.push(
            capturer
                .handle(CapturerEvent::Command(CapturerCommand::Download { item }))
                .expect("task"),
        );
    }
    assert_eq!(tasks.len(), 2000);
    assert_eq!(events.len(), 2000);
    assert_eq!(events.try_recv(), Ok(CapturerEvent::Downloading { item: track("item-0") }));
}

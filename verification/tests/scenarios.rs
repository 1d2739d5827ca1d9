use capturer::orchestrator::{Capturer, CapturerState};
use capturer::item::{CaptureItem, LoadError};
use capturer::protocol::{CapturerCommand, CapturerEvent, PlaybackConfig};
use capturer::task::{DownloadOutcome, DownloadReport, WriteError};

fn sample_item(id: &str) -> CaptureItem {
    CaptureItem {
        item_id: String::from(id),
        name: String::from("Blue in Green"),
        artist: String::from("Miles Davis"),
    }
}

fn download(item: &CaptureItem) -> CapturerEvent {
    CapturerEvent::Command(CapturerCommand::Download { item: item.clone() })
}

fn configure(bitrate: usize) -> CapturerEvent {
    CapturerEvent::Command(CapturerCommand::Configure { config: PlaybackConfig { bitrate } })
}

fn idle_capturer(bitrate: usize) -> Capturer<(), (), (), String> {
    Capturer::new((), (), (), PlaybackConfig { bitrate }, String::from("out"))
}

#[test]
fn download_announces_then_reports_and_stores_the_stream() {
    let mut capturer = idle_capturer(160);
    let events = capturer.event_receiver();
    let item = sample_item("abc123");
    let stream: Vec<u8> = vec![1, 2, 3, 4, 5, 6, 7, 8, 9, 10];

    let task = capturer.handle(download(&item)).expect("an accepted download hands out its task");
    assert_eq!(capturer.state(), &CapturerState::Downloading { item: item.clone() });

    let mut stored: Vec<(String, String, Vec<u8>)> = Vec::new();
    let report = task.run(
        |id: &String, _: &(), _: (), _: (), _: &PlaybackConfig| {
            assert_eq!(id, "abc123");
            Ok(stream.clone())
        },
        |dir: &String, name: &String, bytes: Vec<u8>| {
            stored.push((dir.clone(), name.clone(), bytes));
            Ok(())
        },
    );

    assert_eq!(report, DownloadReport { outcome: DownloadOutcome::Stored, notified: true });
    assert_eq!(
        stored,
        vec![(String::from("out"), String::from("Miles Davis - Blue in Green.ogg"), stream)]
    );
    assert_eq!(events.try_recv(), Ok(CapturerEvent::Downloading { item: item.clone() }));
    assert_eq!(events.try_recv(), Ok(CapturerEvent::Downloaded { item }));
    assert!(events.try_recv().is_err());
}

#[test]
fn task_observes_the_configuration_set_before_its_download() {
    let mut capturer = idle_capturer(160);
    let item = sample_item("abc123");

    assert!(capturer.handle(configure(320)).is_none());
    let task = capturer.handle(download(&item)).expect("task");
    assert_eq!(task.config, PlaybackConfig { bitrate: 320 });

    let mut observed: Option<PlaybackConfig> = None;
    task.run(
        |_: &String, _: &(), _: (), _: (), config: &PlaybackConfig| {
            observed = Some(*config);
            Ok(Vec::new())
        },
        |_: &String, _: &String, _: Vec<u8>| Ok(()),
    );
    assert_eq!(observed, Some(PlaybackConfig { bitrate: 320 }));
}

#[test]
fn later_configure_does_not_reach_a_task_already_handed_out() {
    let mut capturer = idle_capturer(160);
    let task = capturer.handle(download(&sample_item("abc123"))).expect("task");
    assert!(capturer.handle(configure(96)).is_none());
    assert_eq!(capturer.config(), PlaybackConfig { bitrate: 96 });
    assert_eq!(task.config, PlaybackConfig { bitrate: 160 });
}

#[test]
fn failed_resolution_is_still_reported() {
    let mut capturer = idle_capturer(160);
    let events = capturer.event_receiver();
    let item = sample_item("missing");
    let task = capturer.handle(download(&item)).expect("task");

    let mut sink_calls = 0;
    let report = task.run(
        |_: &String, _: &(), _: (), _: (), _: &PlaybackConfig| Err(LoadError::NotFound),
        |_: &String, _: &String, _: Vec<u8>| {
            sink_calls += 1;
            Ok(())
        },
    );

    assert_eq!(report.outcome, DownloadOutcome::LoadFailed(LoadError::NotFound));
    assert!(report.notified);
    assert_eq!(sink_calls, 0);
    assert_eq!(events.try_recv(), Ok(CapturerEvent::Downloading { item: item.clone() }));
    assert_eq!(events.try_recv(), Ok(CapturerEvent::Downloaded { item }));
    assert!(events.try_recv().is_err());
}

#[test]
fn every_resolution_error_becomes_the_outcome() {
    let reasons = vec![
        LoadError::NotFound,
        LoadError::SessionFailure,
        LoadError::CacheInconsistency,
        LoadError::TransportFailure,
    ];
    for reason in reasons {
        let mut capturer = idle_capturer(160);
        let task = capturer.handle(download(&sample_item("abc123"))).expect("task");
        let report = task.run(
            |_: &String, _: &(), _: (), _: (), _: &PlaybackConfig| Err(reason),
            |_: &String, _: &String, _: Vec<u8>| Ok(()),
        );
        assert_eq!(report, DownloadReport { outcome: DownloadOutcome::LoadFailed(reason), notified: true });
    }
}

#[test]
fn failed_write_is_still_reported() {
    let reasons = vec![WriteError::CannotCreate, WriteError::NoSpace, WriteError::Interrupted];
    for reason in reasons {
        let mut capturer = idle_capturer(160);
        let events = capturer.event_receiver();
        let item = sample_item("abc123");
        let task = capturer.handle(download(&item)).expect("task");
        let report = task.run(
            |_: &String, _: &(), _: (), _: (), _: &PlaybackConfig| Ok(vec![7, 7, 7]),
            |_: &String, _: &String, _: Vec<u8>| Err(reason),
        );
        assert_eq!(report, DownloadReport { outcome: DownloadOutcome::WriteFailed(reason), notified: true });
        assert_eq!(events.try_recv(), Ok(CapturerEvent::Downloading { item: item.clone() }));
        assert_eq!(events.try_recv(), Ok(CapturerEvent::Downloaded { item }));
    }
}

#[test]
fn downloads_handled_back_to_back_are_both_announced_before_either_reports() {
    let mut capturer = idle_capturer(160);
    let events = capturer.event_receiver();
    let first = sample_item("first");
    let second = sample_item("second");

    let first_task = capturer.handle(download(&first)).expect("first task");
    let second_task = capturer.handle(download(&second)).expect("second task");
    assert_eq!(capturer.state(), &CapturerState::Downloading { item: second.clone() });

    assert_eq!(events.try_recv(), Ok(CapturerEvent::Downloading { item: first.clone() }));
    assert_eq!(events.try_recv(), Ok(CapturerEvent::Downloading { item: second.clone() }));
    assert!(events.try_recv().is_err());

    second_task.run(
        |_: &String, _: &(), _: (), _: (), _: &PlaybackConfig| Ok(vec![2]),
        |_: &String, _: &String, _: Vec<u8>| Ok(()),
    );
    first_task.run(
        |_: &String, _: &(), _: (), _: (), _: &PlaybackConfig| Ok(vec![1]),
        |_: &String, _: &String, _: Vec<u8>| Ok(()),
    );
    assert_eq!(events.try_recv(), Ok(CapturerEvent::Downloaded { item: second }));
    assert_eq!(events.try_recv(), Ok(CapturerEvent::Downloaded { item: first }));
    assert!(events.try_recv().is_err());
}

#[test]
fn each_download_is_announced_once_and_reported_once() {
    let mut capturer = idle_capturer(160);
    let events = capturer.event_receiver();
    let wanted = vec![sample_item("a"), sample_item("b"), sample_item("a")];

    let mut tasks = Vec::new();
    for item in &wanted {
        tasks.push(capturer.handle(download(item)).expect("task"));
    }
    for task in tasks {
        task.run(
            |_: &String, _: &(), _: (), _: (), _: &PlaybackConfig| Ok(Vec::new()),
            |_: &String, _: &String, _: Vec<u8>| Ok(()),
        );
    }

    let mut seen = Vec::new();
    while let Ok(event) = events.try_recv() {
        seen.push(event);
    }
    for item in [sample_item("a"), sample_item("b")] {
        let asked = wanted.iter().filter(|w| **w == item).count();
        let announced = CapturerEvent::Downloading { item: item.clone() };
        let reported = CapturerEvent::Downloaded { item: item.clone() };
        assert_eq!(seen.iter().filter(|e| **e == announced).count(), asked);
        assert_eq!(seen.iter().filter(|e| **e == reported).count(), asked);
        let first_announced = seen.iter().position(|e| *e == announced).expect("announced");
        let first_reported = seen.iter().position(|e| *e == reported).expect("reported");
        assert!(first_announced < first_reported);
    }
    assert_eq!(seen.len(), 6);
}

#[test]
fn task_reports_failure_to_notify_once_every_receiver_is_gone() {
    let mut capturer = idle_capturer(160);
    let task = capturer.handle(download(&sample_item("abc123"))).expect("task");
    drop(capturer);
    let report = task.run(
        |_: &String, _: &(), _: (), _: (), _: &PlaybackConfig| Ok(vec![1, 2]),
        |_: &String, _: &String, _: Vec<u8>| Ok(()),
    );
    assert_eq!(report, DownloadReport { outcome: DownloadOutcome::Stored, notified: false });
}

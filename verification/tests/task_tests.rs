use portscan::outcome::{PortResult, PortStatus};
use portscan::task::{PortTask, TaskAction, TaskEvent, TaskPhase};

#[test]
fn new_task_is_connecting() {
    let task = PortTask::new(443, true);
    assert_eq!(task.port(), 443);
    assert_eq!(task.phase(), TaskPhase::Connecting);
    assert!(!task.is_finished());
}

#[test]
fn failed_connection_is_closed() {
    let mut task = PortTask::new(81, true);
    let action = task.handle(TaskEvent::ConnectFailed);
    assert_eq!(action, TaskAction::Emit(PortResult::closed(81)));
    assert!(task.is_finished());
}

#[test]
fn closed_port_is_closed_every_time() {
    for capture in [true, false] {
        for _ in 0..5 {
            let mut task = PortTask::new(9, capture);
            match task.handle(TaskEvent::ConnectFailed) {
                TaskAction::Emit(result) => {
                    assert_eq!(result.port(), 9);
                    assert_eq!(result.status(), PortStatus::Closed);
                    assert!(!result.is_open());
                    assert_eq!(result.banner(), None);
                }
                other => panic!("unexpected action {:?}", other),
            }
            assert_eq!(task.phase(), TaskPhase::Finished);
        }
    }
}

#[test]
fn open_port_without_capture_finishes_at_once() {
    let mut task = PortTask::new(22, false);
    let action = task.handle(TaskEvent::Connected);
    assert_eq!(action, TaskAction::Emit(PortResult::open(22)));
    assert!(task.is_finished());
}

#[test]
fn open_port_with_capture_asks_for_banner() {
    let mut task = PortTask::new(22, true);
    assert_eq!(task.handle(TaskEvent::Connected), TaskAction::CollectBanner);
    assert_eq!(task.phase(), TaskPhase::Collecting);
    assert!(!task.is_finished());
}

#[test]
fn captured_banner_is_attached_and_trimmed() {
    let mut task = PortTask::new(22, true);
    task.handle(TaskEvent::Connected);
    let action = task.handle(TaskEvent::BannerRead(b"SSH-2.0-demo\r\n".to_vec()));
    match action {
        TaskAction::Emit(result) => {
            assert_eq!(result.port(), 22);
            assert_eq!(result.status(), PortStatus::Open);
            assert_eq!(result.banner(), Some(&String::from("SSH-2.0-demo")));
        }
        other => panic!("unexpected action {:?}", other),
    }
    assert!(task.is_finished());
}

#[test]
fn peer_that_closes_without_data_is_open_without_banner() {
    let mut task = PortTask::new(8080, true);
    assert_eq!(task.handle(TaskEvent::Connected), TaskAction::CollectBanner);
    let action = task.handle(TaskEvent::BannerRead(Vec::new()));
    assert_eq!(action, TaskAction::Emit(PortResult::open(8080)));
    match action {
        TaskAction::Emit(result) => {
            assert!(result.is_open());
            assert_eq!(result.banner(), None);
        }
        other => panic!("unexpected action {:?}", other),
    }
}

#[test]
fn banner_of_white_space_counts_as_none() {
    let mut task = PortTask::new(25, true);
    task.handle(TaskEvent::Connected);
    let action = task.handle(TaskEvent::BannerRead(b"\r\n".to_vec()));
    assert_eq!(action, TaskAction::Emit(PortResult::open(25)));
}

#[test]
fn failed_banner_collection_is_open_without_banner() {
    let mut task = PortTask::new(25, true);
    task.handle(TaskEvent::Connected);
    let action = task.handle(TaskEvent::BannerFailed);
    assert_eq!(action, TaskAction::Emit(PortResult::open(25)));
    assert!(task.is_finished());
}

#[test]
fn finished_task_ignores_every_event() {
    let mut task = PortTask::new(7, false);
    task.handle(TaskEvent::ConnectFailed);
    assert_eq!(task.handle(TaskEvent::Connected), TaskAction::Ignore);
    assert_eq!(task.handle(TaskEvent::ConnectFailed), TaskAction::Ignore);
    assert_eq!(task.handle(TaskEvent::BannerRead(b"x".to_vec())), TaskAction::Ignore);
    assert_eq!(task.handle(TaskEvent::BannerFailed), TaskAction::Ignore);
    assert!(task.is_finished());
}

#[test]
fn banner_events_before_connection_are_ignored() {
    let mut task = PortTask::new(7, true);
    assert_eq!(task.handle(TaskEvent::BannerRead(b"x".to_vec())), TaskAction::Ignore);
    assert_eq!(task.handle(TaskEvent::BannerFailed), TaskAction::Ignore);
    assert_eq!(task.phase(), TaskPhase::Connecting);
}

#[test]
fn connection_events_while_collecting_are_ignored() {
    let mut task = PortTask::new(7, true);
    task.handle(TaskEvent::Connected);
    assert_eq!(task.handle(TaskEvent::Connected), TaskAction::Ignore);
    assert_eq!(task.handle(TaskEvent::ConnectFailed), TaskAction::Ignore);
    assert_eq!(task.phase(), TaskPhase::Collecting);
}

#[test]
fn task_emits_exactly_one_result_on_any_event_order() {
    let events = [
        TaskEvent::BannerFailed,
        TaskEvent::Connected,
        TaskEvent::Connected,
        TaskEvent::BannerRead(b"hello\n".to_vec()),
        TaskEvent::ConnectFailed,
        TaskEvent::BannerRead(b"again\n".to_vec()),
    ];
    let mut task = PortTask::new(110, true);
    let mut emitted = 0;
    for event in events {
        if let TaskAction::Emit(result) = task.handle(event) {
            emitted += 1;
            assert_eq!(result.banner(), Some(&String::from("hello")));
        }
    }
    assert_eq!(emitted, 1);
    assert!(task.is_finished());
}

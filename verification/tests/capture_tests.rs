use portscan::capture::{after_probe, after_read, capture_event, ReadOutcome, ReadStep};
use portscan::outcome::PortResult;
use portscan::task::{PortTask, TaskAction, TaskEvent};

#[test]
fn sent_probe_leads_to_reading() {
    assert_eq!(after_probe(true), ReadStep::ReadOn);
}

#[test]
fn unsent_probe_fails_the_capture() {
    assert_eq!(after_probe(false), ReadStep::Fail);
}

#[test]
fn data_and_interruptions_lead_to_the_next_read() {
    assert_eq!(after_read(ReadOutcome::Data), ReadStep::ReadOn);
    assert_eq!(after_read(ReadOutcome::Interrupted), ReadStep::ReadOn);
}

#[test]
fn closing_and_timeout_finish_the_capture() {
    assert_eq!(after_read(ReadOutcome::Closed), ReadStep::Finish);
    assert_eq!(after_read(ReadOutcome::TimedOut), ReadStep::Finish);
}

#[test]
fn other_read_errors_fail_the_capture() {
    assert_eq!(after_read(ReadOutcome::Failed), ReadStep::Fail);
}

#[test]
fn finished_capture_hands_over_its_bytes() {
    assert_eq!(
        capture_event(ReadStep::Finish, b"220 ready\r\n".to_vec()),
        TaskEvent::BannerRead(b"220 ready\r\n".to_vec())
    );
    assert_eq!(capture_event(ReadStep::Finish, Vec::new()), TaskEvent::BannerRead(Vec::new()));
}

#[test]
fn failed_capture_drops_its_bytes() {
    assert_eq!(capture_event(ReadStep::Fail, b"220 rea".to_vec()), TaskEvent::BannerFailed);
    assert_eq!(capture_event(ReadStep::Fail, Vec::new()), TaskEvent::BannerFailed);
}

#[test]
fn capture_cut_short_keeps_its_bytes() {
    assert_eq!(
        capture_event(ReadStep::ReadOn, b"partial".to_vec()),
        TaskEvent::BannerRead(b"partial".to_vec())
    );
}

#[test]
fn silent_peer_times_out_to_an_open_port_without_banner() {
    let mut task = PortTask::new(8080, true);
    assert_eq!(task.handle(TaskEvent::Connected), TaskAction::CollectBanner);
    assert_eq!(after_probe(true), ReadStep::ReadOn);
    let step = after_read(ReadOutcome::TimedOut);
    let action = task.handle(capture_event(step, Vec::new()));
    assert_eq!(action, TaskAction::Emit(PortResult::open(8080)));
}

#[test]
fn banner_read_before_the_timeout_is_kept() {
    let mut task = PortTask::new(22, true);
    task.handle(TaskEvent::Connected);
    assert_eq!(after_read(ReadOutcome::Data), ReadStep::ReadOn);
    let step = after_read(ReadOutcome::TimedOut);
    let action = task.handle(capture_event(step, b"SSH-2.0-demo\r\n".to_vec()));
    assert_eq!(
        action,
        TaskAction::Emit(PortResult::open_with(22, Some(String::from("SSH-2.0-demo"))))
    );
}

#[test]
fn read_error_after_data_gives_no_banner() {
    let mut task = PortTask::new(22, true);
    task.handle(TaskEvent::Connected);
    let step = after_read(ReadOutcome::Failed);
    let action = task.handle(capture_event(step, b"SSH-2".to_vec()));
    assert_eq!(action, TaskAction::Emit(PortResult::open(22)));
}

use portscan::outcome::{PortResult, PortStatus};

#[test]
fn closed_result_has_no_banner() {
    let result = PortResult::closed(1);
    assert_eq!(result.port(), 1);
    assert_eq!(result.status(), PortStatus::Closed);
    assert!(!result.is_open());
    assert_eq!(result.banner(), None);
}

#[test]
fn open_result_has_no_banner() {
    let result = PortResult::open(65535);
    assert_eq!(result.port(), 65535);
    assert_eq!(result.status(), PortStatus::Open);
    assert!(result.is_open());
    assert_eq!(result.banner(), None);
}

#[test]
fn open_result_keeps_its_banner() {
    let result = PortResult::open_with(80, Some(String::from("nginx")));
    assert_eq!(result.port(), 80);
    assert!(result.is_open());
    assert_eq!(result.banner(), Some(&String::from("nginx")));
}

#[test]
fn empty_banner_text_counts_as_none() {
    assert_eq!(PortResult::open_with(80, Some(String::new())), PortResult::open(80));
    assert_eq!(PortResult::open_with(80, None), PortResult::open(80));
}

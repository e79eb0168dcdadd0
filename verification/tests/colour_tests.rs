use portscan::outcome::PortResult;
use portscan::report::render;

#[test]
fn colouring_switches_between_the_two_renderings() {
    colored::control::set_override(true);
    assert_eq!(
        render(&PortResult::open(8080)),
        Some(String::from("Port \x1b[92m8080\x1b[0m is open\n"))
    );
    assert_eq!(
        render(&PortResult::open_with(21, Some(String::from("220 ftp")))),
        Some(String::from("Port \x1b[92m21\x1b[0m is open, banner:\n\n\r220 ftp\n"))
    );
    colored::control::set_override(false);
    assert_eq!(render(&PortResult::open(8080)), Some(String::from("Port 8080 is open\n")));
    assert_eq!(
        render(&PortResult::open_with(21, Some(String::from("220 ftp")))),
        Some(String::from("Port 21 is open, banner:\n\n\r220 ftp\n"))
    );
    colored::control::unset_override();
}

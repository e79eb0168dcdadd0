use portscan::banner::{banner_from_bytes, banner_from_text, probe_payload};

#[test]
fn probe_is_the_greeting_and_a_line_end() {
    assert_eq!(probe_payload(), b"hai\r\n".to_vec());
}

#[test]
fn no_bytes_give_no_banner() {
    assert_eq!(banner_from_bytes(&[]), None);
}

#[test]
fn line_end_is_trimmed_from_banner() {
    assert_eq!(
        banner_from_bytes(b"SSH-2.0-OpenSSH_8.9\r\n"),
        Some(String::from("SSH-2.0-OpenSSH_8.9"))
    );
}

#[test]
fn leading_and_inner_space_is_kept() {
    assert_eq!(
        banner_from_text("  220 mail ready \t\r\n"),
        Some(String::from("  220 mail ready"))
    );
    assert_eq!(banner_from_text("a\nb\n\n"), Some(String::from("a\nb")));
}

#[test]
fn text_without_trailing_space_is_unchanged() {
    assert_eq!(banner_from_text("HTTP/1.1 400"), Some(String::from("HTTP/1.1 400")));
}

#[test]
fn white_space_alone_gives_no_banner() {
    assert_eq!(banner_from_text(""), None);
    assert_eq!(banner_from_text(" \t\r\n\u{0B}\u{0C}"), None);
    assert_eq!(banner_from_bytes(b"\r\n"), None);
}

#[test]
fn every_white_space_character_is_trimmed() {
    let spaces = [
        '\u{09}', '\u{0A}', '\u{0B}', '\u{0C}', '\u{0D}', '\u{20}', '\u{85}', '\u{A0}',
        '\u{1680}', '\u{2000}', '\u{2001}', '\u{2002}', '\u{2003}', '\u{2004}', '\u{2005}',
        '\u{2006}', '\u{2007}', '\u{2008}', '\u{2009}', '\u{200A}', '\u{2028}', '\u{2029}',
        '\u{202F}', '\u{205F}', '\u{3000}',
    ];
    for c in spaces {
        let text = format!("x{}", c);
        assert_eq!(banner_from_text(&text), Some(String::from("x")));
    }
}

#[test]
fn characters_next_to_white_space_are_kept() {
    let kept = [
        '\u{08}', '\u{0E}', '\u{1F}', '\u{21}', '\u{84}', '\u{86}', '\u{9F}', '\u{A1}',
        '\u{167F}', '\u{1681}', '\u{180E}', '\u{1FFF}', '\u{200B}', '\u{2027}', '\u{202A}',
        '\u{202E}', '\u{2030}', '\u{205E}', '\u{2060}', '\u{2FFF}', '\u{3001}', '\u{FEFF}',
    ];
    for c in kept {
        let text = format!("x{}", c);
        assert_eq!(banner_from_text(&text), Some(text.clone()));
    }
}

#[test]
fn invalid_bytes_are_replaced() {
    assert_eq!(banner_from_bytes(&[0xFF]), Some(String::from("\u{FFFD}")));
    assert_eq!(
        banner_from_bytes(&[b'o', b'k', 0xC3, 0x28, b'\n']),
        Some(String::from("ok\u{FFFD}("))
    );
}

#[test]
fn valid_multibyte_text_is_decoded() {
    assert_eq!(
        banner_from_bytes("gr\u{FC}\u{DF} dich\u{3000}\n".as_bytes()),
        Some(String::from("gr\u{FC}\u{DF} dich"))
    );
}

#[test]
fn banner_is_never_empty_text() {
    let inputs: [&[u8]; 5] = [b"", b" ", b"\n\n", b"x", b"x \n"];
    for bytes in inputs {
        if let Some(text) = banner_from_bytes(bytes) {
            assert!(!text.is_empty());
            assert_eq!(text.trim_end(), text);
        }
    }
}

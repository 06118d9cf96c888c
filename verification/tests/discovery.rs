use idunsh::discovery::{banner_version, judge, probe, separates, Discovery, Probe, PROBE_PORT, PROBE_TIMEOUT_MS};
use idunsh::ultimate::C64Ultimate;

fn reply(payload: &[u8]) -> Probe {
    Probe::Reply { payload: payload.to_vec(), sender: String::from("192.168.1.64") }
}

#[test]
fn probe_is_ping() {
    assert_eq!(probe(), b"ping".to_vec());
    assert_eq!(PROBE_PORT, 64);
    assert_eq!(PROBE_TIMEOUT_MS, 500);
}

#[test]
fn banner_gives_its_version() {
    assert_eq!(banner_version("*** C64 Ultimate (V1.47) 3.14 ***"), Some(String::from("3.14")));
}

#[test]
fn other_text_is_no_banner() {
    assert_eq!(banner_version("*** Something Else ***"), None);
    assert_eq!(banner_version(""), None);
    assert_eq!(banner_version("C64 Ultimate"), None);
}

#[test]
fn banner_needs_a_closing_parenthesis() {
    assert_eq!(banner_version("C64 Ultimate 3.14"), None);
    assert_eq!(banner_version("C64 Ultimate (V1.47 3.14"), None);
    assert_eq!(banner_version("C64 Ultimate)3.14"), Some(String::from("3.14")));
}

#[test]
fn token_must_be_digits_and_dots() {
    assert_eq!(banner_version("C64 Ultimate (V1) 3.14b"), None);
    assert_eq!(banner_version("C64 Ultimate (V1) v3"), None);
    assert_eq!(banner_version("C64 Ultimate (V1) ... x"), Some(String::from("...")));
    assert_eq!(banner_version("C64 Ultimate (V1) 7"), Some(String::from("7")));
    assert_eq!(banner_version("C64 Ultimate (V1)"), None);
    assert_eq!(banner_version("C64 Ultimate (V1)   "), None);
}

#[test]
fn token_ends_at_the_next_parenthesis_or_marker() {
    assert_eq!(banner_version("C64 Ultimate (a) 1.2) 3"), Some(String::from("1.2")));
    assert_eq!(banner_version("C64 Ultimate (a) ) 3"), None);
    assert_eq!(banner_version("C64 Ultimate (a) 1.C64 Ultimate2"), Some(String::from("1.")));
    assert_eq!(banner_version("C64 Ultimate C64 Ultimate (a) 1.2"), None);
    assert_eq!(banner_version("xx C64 Ultimate (a) C64 Ultimate 1.2"), None);
}

#[test]
fn separators_are_unicode_white_space() {
    assert_eq!(banner_version("C64 Ultimate (V1)\t\n\u{A0}\u{3000}3.14\u{2003}x"), Some(String::from("3.14")));
    for c in [' ', '\t', '\n', '\u{B}', '\u{C}', '\r', '\u{85}', '\u{A0}', '\u{1680}', '\u{2000}', '\u{200A}', '\u{2028}', '\u{2029}', '\u{202F}', '\u{205F}', '\u{3000}'] {
        assert!(separates(c));
    }
    for c in ['a', '0', '.', ')', '\u{8}', '\u{E}', '\u{200B}', '\u{180E}', '\u{FEFF}'] {
        assert!(!separates(c));
    }
}

#[test]
fn separators_agree_with_char_is_whitespace() {
    let mut n: u32 = 0;
    while n <= 0x10FFFF {
        if let Some(c) = char::from_u32(n) {
            assert_eq!(separates(c), c.is_whitespace(), "U+{:04X}", n);
        }
        n += 1;
    }
}

#[test]
fn valid_banner_gives_the_sender() {
    match judge(reply(b"*** C64 Ultimate (V1.47) 3.14 ***")) {
        Discovery::Found { address, version } => {
            assert_eq!(address, "192.168.1.64");
            assert_eq!(version, "3.14");
        }
        _ => panic!("a device was expected"),
    }
    assert_eq!(
        C64Ultimate::detect(reply(b"*** C64 Ultimate (V1.47) 3.14 ***")),
        Some(String::from("192.168.1.64"))
    );
}

#[test]
fn payload_claims_are_ignored() {
    assert_eq!(
        C64Ultimate::detect(reply(b"10.0.0.1 C64 Ultimate (10.0.0.2) 1.0")),
        Some(String::from("192.168.1.64"))
    );
}

#[test]
fn failures_are_told_apart_and_all_mean_not_found() {
    assert!(matches!(judge(reply(b"*** Something Else ***")), Discovery::Malformed));
    assert!(matches!(judge(reply(b"C64 Ultimate (V1) 3.14\xFF")), Discovery::Malformed));
    assert!(matches!(judge(reply(b"")), Discovery::Malformed));
    assert!(matches!(judge(Probe::TimedOut), Discovery::TimedOut));
    assert!(matches!(judge(Probe::Failed), Discovery::Failed));
    assert_eq!(judge(Probe::TimedOut).address(), None);
    assert_eq!(judge(Probe::Failed).address(), None);
    assert_eq!(judge(reply(b"*** Something Else ***")).address(), None);
    assert_eq!(C64Ultimate::detect(Probe::TimedOut), None);
    assert_eq!(C64Ultimate::detect(reply(b"*** Something Else ***")), None);
    assert_eq!(C64Ultimate::detect(reply(b"\xC3")), None);
}

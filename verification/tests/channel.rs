use idunsh::channel::{decode_output, framed, status_of, ChannelError, LUAPORT};

#[test]
fn socket_path() {
    assert_eq!(LUAPORT, "/tmp/idunmm-lua");
}

#[test]
fn frame_ends_in_one_line_feed() {
    assert_eq!(framed("sys.stop()"), b"sys.stop()\n".to_vec());
    assert_eq!(framed(""), vec![0x0Au8]);
    assert_eq!(framed("\u{E9}"), vec![0xC3u8, 0xA9, 0x0A]);
}

#[test]
fn zero_status_is_success() {
    assert!(status_of(&[0x00]).is_ok());
    assert!(status_of(&[]).is_ok());
    assert!(status_of(&[0x00, 0x41, 0x42]).is_ok());
}

#[test]
fn nonzero_status_carries_the_decoded_message() {
    match status_of(&[0x01, 0xC2, 0x41, 0x44, 0x20, 0x43, 0x4D, 0x44]) {
        Err(ChannelError::Rejected(msg)) => assert_eq!(msg, "Bad cmd"),
        _ => panic!("a refusal was expected"),
    }
    match status_of(&[0xFF]) {
        Err(ChannelError::Rejected(msg)) => assert_eq!(msg, ""),
        _ => panic!("a refusal was expected"),
    }
    match status_of(&[0x02, 0x4F, 0x4B, 0xDB, 0x41]) {
        Err(ChannelError::Rejected(msg)) => assert_eq!(msg, "ok"),
        _ => panic!("a refusal was expected"),
    }
}

#[test]
fn error_texts() {
    assert_eq!(
        ChannelError::Rejected(String::from("no such device")).message(),
        "Remote sys.shell() fail: no such device"
    );
    assert_eq!(ChannelError::Unavailable.message(), "Local channel unavailable");
}

#[test]
fn output_is_decoded_and_line_ends_become_line_feeds() {
    assert_eq!(decode_output(&[0xC8, 0x49, 0x0D, 0x4F, 0x4B, 0x0D]), "Hi\nok\n");
    assert_eq!(decode_output(&[]), "");
    assert_eq!(decode_output(&[0x41, 0x0A, 0x0D]), "a\n\n");
    assert_eq!(decode_output(&[0x41, 0x0D, 0xDB, 0x0D]), "a\n");
}

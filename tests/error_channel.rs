use resvg_bridge::{set_err, ErrorChannel};

fn failed_channel(msg: &str) -> ErrorChannel {
    let mut chan = ErrorChannel::new();
    set_err(&mut chan, msg.to_string());
    chan
}

#[test]
fn new_channel_holds_no_error() {
    let chan = ErrorChannel::new();
    assert!(chan.last_error().is_none());
    assert!(chan.last_error_terminated().is_none());
}

#[test]
fn set_err_replaces_earlier_message() {
    let mut chan = failed_channel("first");
    set_err(&mut chan, "second".to_string());
    assert_eq!(chan.last_error().map(|s| s.as_str()), Some("second"));
}

#[test]
fn clear_removes_message() {
    let mut chan = failed_channel("boom");
    chan.clear();
    assert!(chan.last_error().is_none());
}

#[test]
fn terminated_message_ends_in_zero() {
    let chan = failed_channel("invalid args");
    assert_eq!(chan.last_error_terminated(), Some(b"invalid args\0".to_vec()));
}

#[test]
fn copy_into_one_byte_buffer_writes_only_terminator() {
    let chan = failed_channel("invalid args");
    let mut buf = [7u8; 1];
    assert_eq!(chan.copy_last_error(&mut buf), 0);
    assert_eq!(buf, [0u8]);
}

#[test]
fn copy_truncates_to_capacity_minus_one() {
    let chan = failed_channel("invalid args");
    let mut buf = [9u8; 8];
    assert_eq!(chan.copy_last_error(&mut buf), 7);
    assert_eq!(&buf, b"invalid\0");
}

#[test]
fn copy_whole_message_leaves_tail_untouched() {
    let chan = failed_channel("invalid args");
    let mut buf = [9u8; 16];
    assert_eq!(chan.copy_last_error(&mut buf), 12);
    assert_eq!(&buf[..13], b"invalid args\0");
    assert_eq!(&buf[13..], &[9u8, 9, 9]);
}

#[test]
fn copy_into_empty_buffer_writes_nothing() {
    let chan = failed_channel("invalid args");
    let mut buf: [u8; 0] = [];
    assert_eq!(chan.copy_last_error(&mut buf), 0);
}

#[test]
fn copy_without_error_writes_nothing() {
    let chan = ErrorChannel::new();
    let mut buf = [5u8; 4];
    assert_eq!(chan.copy_last_error(&mut buf), 0);
    assert_eq!(buf, [5u8; 4]);
}

#[test]
fn channels_do_not_share_errors() {
    let mut failing = ErrorChannel::new();
    let mut succeeding = ErrorChannel::new();
    set_err(&mut failing, "invalid args".to_string());
    succeeding.clear();
    assert_eq!(failing.last_error().map(|s| s.as_str()), Some("invalid args"));
    assert!(succeeding.last_error().is_none());
}

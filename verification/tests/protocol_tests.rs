use term_bridge::frames::{inbound_action, InboundAction, InboundFrame};
use term_bridge::numbers::parse_u16;
use term_bridge::resize::{is_resize_command, parse_resize};

#[test]
fn resize_frame_parses_columns_then_rows() {
    assert_eq!(parse_resize("resize:120:40"), Some((120, 40)));
}

#[test]
fn resize_frame_with_non_numeric_field_is_rejected() {
    assert_eq!(parse_resize("resize:abc:40"), None);
}

#[test]
fn resize_frame_with_missing_field_is_rejected() {
    assert_eq!(parse_resize("resize:120"), None);
}

#[test]
fn resize_frame_with_extra_field_is_rejected() {
    assert_eq!(parse_resize("resize:120:40:extra"), None);
}

#[test]
fn resize_frame_with_empty_fields_is_rejected() {
    assert_eq!(parse_resize("resize::"), None);
}

#[test]
fn resize_frame_accepts_plus_signed_fields() {
    assert_eq!(parse_resize("resize:+120:+40"), Some((120, 40)));
}

#[test]
fn resize_frame_rejects_field_over_sixteen_bits() {
    assert_eq!(parse_resize("resize:65536:40"), None);
    assert_eq!(parse_resize("resize:65535:40"), Some((65535, 40)));
}

#[test]
fn resize_prefix_is_recognized() {
    assert!(is_resize_command("resize:anything"));
    assert!(is_resize_command("resize:"));
    assert!(!is_resize_command("resiz"));
    assert!(!is_resize_command("echo resize:1:2"));
}

#[test]
fn parse_u16_accepts_plain_decimals() {
    assert_eq!(parse_u16("0"), Some(0));
    assert_eq!(parse_u16("3000"), Some(3000));
    assert_eq!(parse_u16("65535"), Some(65535));
}

#[test]
fn parse_u16_rejects_bad_input() {
    assert_eq!(parse_u16(""), None);
    assert_eq!(parse_u16("+"), None);
    assert_eq!(parse_u16("-1"), None);
    assert_eq!(parse_u16("12a"), None);
    assert_eq!(parse_u16("65536"), None);
    assert_eq!(parse_u16("999999999999999999999"), None);
}

#[test]
fn binary_frame_is_written_byte_for_byte() {
    let data = vec![0u8, 27, 91, 65, 255];
    match inbound_action(InboundFrame::Binary(data.clone())) {
        InboundAction::WriteAndFlush(bytes) => assert_eq!(bytes, data),
        _ => panic!("binary frame must be written to the terminal"),
    }
}

#[test]
fn resize_text_frame_becomes_exactly_one_resize() {
    match inbound_action(InboundFrame::Text("resize:120:40".to_string())) {
        InboundAction::Resize(cols, rows) => {
            assert_eq!(cols, 120);
            assert_eq!(rows, 40);
        },
        _ => panic!("well-formed resize frame must resize"),
    }
}

#[test]
fn malformed_resize_frame_writes_nothing() {
    for text in ["resize:abc:40", "resize:120", "resize:120:40:extra"] {
        match inbound_action(InboundFrame::Text(text.to_string())) {
            InboundAction::Ignore => {},
            _ => panic!("malformed resize frame must be dropped, not forwarded"),
        }
    }
}

#[test]
fn plain_text_frame_is_forwarded_as_its_bytes() {
    match inbound_action(InboundFrame::Text("ls -la\n".to_string())) {
        InboundAction::WriteAndFlush(bytes) => assert_eq!(bytes, b"ls -la\n".to_vec()),
        _ => panic!("plain text must reach the terminal as input"),
    }
}

#[test]
fn multibyte_text_frame_is_forwarded_as_utf8() {
    match inbound_action(InboundFrame::Text("é↑".to_string())) {
        InboundAction::WriteAndFlush(bytes) => assert_eq!(bytes, "é↑".as_bytes().to_vec()),
        _ => panic!("text must be forwarded as its UTF-8 bytes"),
    }
}

#[test]
fn close_frame_shuts_the_connection_down() {
    match inbound_action(InboundFrame::Close) {
        InboundAction::Shutdown => {},
        _ => panic!("close frame must end the connection"),
    }
}

#[test]
fn transport_control_frame_is_ignored() {
    match inbound_action(InboundFrame::Control) {
        InboundAction::Ignore => {},
        _ => panic!("transport control frames mean nothing to the relay"),
    }
}

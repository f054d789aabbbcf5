use color_guesser::codec::{format_hex, parse_hex, Color};

#[test]
fn round_trip_every_channel_value() {
    for v in 0..=255u8 {
        let inv = 255 - v;
        for c in [Color(v, 0, 255), Color(17, v, 204), Color(inv, 90, v)] {
            let text = format_hex(c);
            assert_eq!(parse_hex(&text), Some(c));
        }
    }
}

#[test]
fn round_trip_grid() {
    for r in (0..=255u8).step_by(17) {
        for g in (0..=255u8).step_by(17) {
            for b in (0..=255u8).step_by(17) {
                let c = Color(r, g, b);
                assert_eq!(parse_hex(&format_hex(c)), Some(c));
            }
        }
    }
}

#[test]
fn parse_mixed_case() {
    assert_eq!(parse_hex("#1A2b3C"), Some(Color(0x1A, 0x2B, 0x3C)));
    assert_eq!(parse_hex("#abcdef"), Some(Color(0xAB, 0xCD, 0xEF)));
    assert_eq!(parse_hex("#ABCDEF"), Some(Color(0xAB, 0xCD, 0xEF)));
}

#[test]
fn parse_without_leading_hash() {
    assert_eq!(parse_hex("1A2b3C"), parse_hex("#1A2b3C"));
    assert_eq!(parse_hex("1A2b3C"), Some(Color(0x1A, 0x2B, 0x3C)));
    assert_eq!(parse_hex("000000"), Some(Color(0, 0, 0)));
}

#[test]
fn parse_rejects_bad_inputs() {
    assert_eq!(parse_hex(""), None);
    assert_eq!(parse_hex("#12345"), None);
    assert_eq!(parse_hex("#GGGGGG"), None);
    assert_eq!(parse_hex("#1234567"), None);
}

#[test]
fn parse_rejects_more_bad_inputs() {
    assert_eq!(parse_hex("#"), None);
    assert_eq!(parse_hex("##1A2B3C"), None);
    assert_eq!(parse_hex("#12 456"), None);
    assert_eq!(parse_hex("12345"), None);
    assert_eq!(parse_hex("#café12"), None);
}

#[test]
fn format_black_and_white() {
    assert_eq!(format_hex(Color(0, 0, 0)), "#000000");
    assert_eq!(format_hex(Color(255, 255, 255)), "#FFFFFF");
}

#[test]
fn format_is_zero_padded_uppercase() {
    assert_eq!(format_hex(Color(0x0A, 0x0B, 0xCD)), "#0A0BCD");
    assert_eq!(format_hex(Color(1, 2, 3)), "#010203");
    assert_eq!(format_hex(Color(0xF0, 0x0F, 0x99)), "#F00F99");
}

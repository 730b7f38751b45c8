use pg_lens_tui::clipboard::{base64_encode, cap_payload, copy_to_clipboard, osc52_sequence, CLIPBOARD_MAX_BYTES};

const BASE64_ALPHABET: &[u8; 64] = b"ABCDEFGHIJKLMNOPQRSTUVWXYZabcdefghijklmnopqrstuvwxyz0123456789+/";

#[test]
fn base64_encode_matches_known_vectors() {
    assert_eq!(base64_encode(b""), "");
    assert_eq!(base64_encode(b"f"), "Zg==");
    assert_eq!(base64_encode(b"fo"), "Zm8=");
    assert_eq!(base64_encode(b"foo"), "Zm9v");
    assert_eq!(base64_encode(b"foob"), "Zm9vYg==");
    assert_eq!(base64_encode(b"fooba"), "Zm9vYmE=");
    assert_eq!(base64_encode(b"foobar"), "Zm9vYmFy");
}

#[test]
fn base64_encode_handles_a_sql_query() {
    let sql = "SELECT * FROM orders WHERE id = 1;";
    let encoded = base64_encode(sql.as_bytes());
    assert_eq!(encoded.len(), sql.len().div_ceil(3) * 4);
    assert!(encoded.chars().all(|c| BASE64_ALPHABET.contains(&(c as u8)) || c == '='));
}

#[test]
fn cap_payload_leaves_small_text_untouched() {
    let (text, capped) = cap_payload("SELECT 1");
    assert_eq!(text, "SELECT 1");
    assert!(!capped);
}

#[test]
fn cap_payload_caps_at_the_byte_limit_on_a_char_boundary() {
    let mut big = "a".repeat(CLIPBOARD_MAX_BYTES - 1);
    big.push('\u{e9}');
    big.push_str(&"b".repeat(1_000));
    let (text, capped) = cap_payload(&big);
    assert!(capped);
    assert!(text.len() <= CLIPBOARD_MAX_BYTES);
    assert!(text.is_char_boundary(text.len()));
}

#[test]
fn osc52_sequence_wraps_base64_in_the_escape_envelope() {
    let (seq, capped) = osc52_sequence("hi");
    assert!(!capped);
    assert_eq!(seq, "\u{1b}]52;c;aGk=\u{7}");
}

#[test]
fn osc52_sequence_reports_the_cap() {
    let big = "x".repeat(CLIPBOARD_MAX_BYTES + 500);
    let (seq, capped) = osc52_sequence(&big);
    assert!(capped);
    let expected_b64_len = CLIPBOARD_MAX_BYTES.div_ceil(3) * 4;
    let prefix = "\u{1b}]52;c;";
    let b64_part = &seq[prefix.len()..seq.len() - 1];
    assert_eq!(b64_part.len(), expected_b64_len);
}

#[test]
fn copy_to_clipboard_writes_bytes_and_reports_char_count() {
    let mut buf: Vec<u8> = Vec::new();
    let toast = copy_to_clipboard(&mut buf, "SELECT 1").expect("write to Vec never fails");
    assert!(toast.contains("copied 8 chars"), "{toast}");
    assert!(toast.contains("OSC 52"), "{toast}");
    let written = String::from_utf8(buf).expect("valid utf8");
    assert!(written.starts_with("\u{1b}]52;c;"));
    assert!(written.ends_with('\u{7}'));
}

#[test]
fn copy_to_clipboard_reports_the_cap_honestly() {
    let mut buf: Vec<u8> = Vec::new();
    let big = "q".repeat(CLIPBOARD_MAX_BYTES + 42);
    let toast = copy_to_clipboard(&mut buf, &big).expect("write to Vec never fails");
    assert!(toast.contains("capped"), "{toast}");
    assert!(toast.contains(&CLIPBOARD_MAX_BYTES.to_string()), "{toast}");
}

#[test]
fn cap_payload_backs_off_to_the_char_start() {
    let mut big = "a".repeat(CLIPBOARD_MAX_BYTES - 1);
    big.push('\u{e9}');
    let (text, capped) = cap_payload(&big);
    assert!(capped);
    assert_eq!(text.len(), CLIPBOARD_MAX_BYTES - 1);
}

#[test]
fn copy_toast_counts_characters_not_bytes() {
    let mut buf: Vec<u8> = Vec::new();
    let toast = copy_to_clipboard(&mut buf, "caf\u{e9}").expect("write to Vec never fails");
    assert_eq!(toast, "sent to clipboard (OSC 52) \u{2014} copied 4 chars");
    assert_eq!(buf, b"\x1b]52;c;Y2Fmw6k=\x07".to_vec());
}

#[test]
fn copy_toast_names_the_cap_and_the_total() {
    let mut buf: Vec<u8> = Vec::new();
    let big = "z".repeat(CLIPBOARD_MAX_BYTES + 1);
    let toast = copy_to_clipboard(&mut buf, &big).expect("write to Vec never fails");
    assert_eq!(
        toast,
        format!("sent to clipboard (OSC 52) \u{2014} capped at {} bytes ({} chars total)", CLIPBOARD_MAX_BYTES, CLIPBOARD_MAX_BYTES + 1)
    );
}

/// Standard padded base64 decoding, written out for the test.
fn decode(text: &str) -> Vec<u8> {
    let value = |c: u8| BASE64_ALPHABET.iter().position(|&a| a == c).expect("alphabet") as u32;
    let bytes = text.as_bytes();
    assert_eq!(bytes.len() % 4, 0);
    let mut out = Vec::new();
    for group in bytes.chunks(4) {
        let pad = group.iter().filter(|&&c| c == b'=').count();
        let v: Vec<u32> = group.iter().map(|&c| if c == b'=' { 0 } else { value(c) }).collect();
        let n = (v[0] << 18) | (v[1] << 12) | (v[2] << 6) | v[3];
        let three = [(n >> 16) as u8, (n >> 8) as u8, n as u8];
        out.extend_from_slice(&three[..3 - pad]);
    }
    out
}

#[test]
fn base64_decodes_back_to_the_input() {
    for data in [
        &b""[..],
        b"f",
        b"fo",
        b"foo",
        b"SELECT * FROM orders WHERE id = 1;",
        &[0u8, 255, 128, 7, 64][..],
    ] {
        assert_eq!(decode(&base64_encode(data)), data.to_vec());
    }
    assert_eq!(base64_encode(b"fo"), "Zm8=");
}

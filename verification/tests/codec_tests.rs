use rabbit_test::codec::{bytes_to_text, bytes_to_text_lossy, text_to_bytes};

#[test]
fn encoding_then_strict_decoding_restores_the_text() {
    for s in ["", "hello world", "info: Hello world!", "héllo ☃ 日本語"] {
        let bytes = text_to_bytes(s);
        assert_eq!(bytes_to_text(bytes), Some(s.to_string()));
    }
}

#[test]
fn encoding_matches_the_utf8_bytes() {
    assert_eq!(text_to_bytes("hi"), vec![104, 105]);
    assert_eq!(text_to_bytes("é"), vec![0xc3, 0xa9]);
}

#[test]
fn strict_decoding_rejects_invalid_utf8() {
    assert_eq!(bytes_to_text(vec![0xff, 0xfe]), None);
    assert_eq!(bytes_to_text(vec![0xc3]), None);
}

#[test]
fn strict_decoding_reads_valid_utf8() {
    assert_eq!(bytes_to_text(vec![104, 105]), Some("hi".to_string()));
}

#[test]
fn lossy_decoding_reads_valid_utf8_unchanged() {
    let bytes = text_to_bytes("héllo ☃");
    assert_eq!(bytes_to_text_lossy(&bytes), "héllo ☃");
}

#[test]
fn lossy_decoding_substitutes_replacement_characters() {
    assert_eq!(bytes_to_text_lossy(&vec![104, 0xff, 105]), "h\u{fffd}i");
}

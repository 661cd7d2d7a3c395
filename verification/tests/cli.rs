use textcrypt::cli::{parse_text_sign_format, TextSignFormat};

#[test]
fn test_parse_text_sign_format() {
    assert_eq!(parse_text_sign_format("blake3"), Some(TextSignFormat::Blake3));
    assert_eq!(parse_text_sign_format("ed25519"), Some(TextSignFormat::Ed25519));
    assert_eq!(parse_text_sign_format(""), None);
    assert_eq!(parse_text_sign_format("BLAKE3"), None);
    assert_eq!(parse_text_sign_format("ed25519 "), None);
    assert_eq!(parse_text_sign_format("sha256"), None);
}

#[test]
fn test_format_as_str() {
    assert_eq!(TextSignFormat::Blake3.as_str(), "blake3");
    assert_eq!(TextSignFormat::Ed25519.as_str(), "ed25519");
    assert_eq!(parse_text_sign_format(TextSignFormat::Blake3.as_str()), Some(TextSignFormat::Blake3));
    assert_eq!(parse_text_sign_format(TextSignFormat::Ed25519.as_str()), Some(TextSignFormat::Ed25519));
}

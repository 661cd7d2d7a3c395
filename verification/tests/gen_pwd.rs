use textcrypt::gen_pwd::process_genpwd;
use textcrypt::http_serve::format_html_list;

const SYMBOLS: &str = "!@#$%^&*_";

#[test]
fn test_genpwd_default_classes() {
    let pwd = process_genpwd(16, false, true, true, true).unwrap();
    assert_eq!(pwd.len(), 16);
    assert!(pwd.chars().any(|c| c.is_ascii_uppercase()));
    assert!(pwd.chars().any(|c| c.is_ascii_lowercase()));
    assert!(pwd.chars().any(|c| c.is_ascii_digit()));
    assert!(pwd.chars().any(|c| SYMBOLS.contains(c)));
    for c in pwd.chars() {
        assert!(
            c.is_ascii_uppercase()
                || c.is_ascii_lowercase()
                || c.is_ascii_digit()
                || SYMBOLS.contains(c),
            "unexpected character {:?}",
            c
        );
    }
}

#[test]
fn test_genpwd_no_upper() {
    let pwd = process_genpwd(32, true, true, true, true).unwrap();
    assert_eq!(pwd.len(), 32);
    assert!(!pwd.chars().any(|c| c.is_ascii_uppercase()));
    assert!(pwd.chars().any(|c| c.is_ascii_lowercase()));
    assert!(pwd.chars().any(|c| c.is_ascii_digit()));
    assert!(pwd.chars().any(|c| SYMBOLS.contains(c)));
}

#[test]
fn test_genpwd_single_class() {
    let pwd = process_genpwd(8, true, false, true, false).unwrap();
    assert_eq!(pwd.len(), 8);
    assert!(pwd.chars().all(|c| c.is_ascii_digit()));
}

#[test]
fn test_format_html_list() {
    assert_eq!(format_html_list(vec![]), "");
    assert_eq!(format_html_list(vec!["a".to_string()]), "a\n");
    assert_eq!(
        format_html_list(vec!["index.html".to_string(), "style.css".to_string()]),
        "index.html\nstyle.css\n"
    );
}

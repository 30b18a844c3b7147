use digital_server::chat::{logged_role, Role};
use digital_server::environment::Environment;
use digital_server::text::decimal_string;

#[test]
fn decimal_rendering() {
    assert_eq!(decimal_string(0), "0");
    assert_eq!(decimal_string(7), "7");
    assert_eq!(decimal_string(10), "10");
    assert_eq!(decimal_string(5432), "5432");
    assert_eq!(decimal_string(u64::MAX), "18446744073709551615");
}

#[test]
fn unicode_whitespace_is_trimmed() {
    assert_eq!(logged_role("\u{3000}user\u{a0}"), Some(Role::User));
    assert_eq!(logged_role("\u{2028}assistant\t"), Some(Role::Assistant));
    assert_eq!(Environment::parse("\u{85}local\u{2003}"), Ok(Environment::Local));
    assert_eq!(Environment::parse("lo cal"), Err("lo cal is not a supported environment.".to_string()));
}

#[test]
fn non_ascii_text_is_lower_cased() {
    assert_eq!(logged_role("ÜSER"), None);
    assert_eq!(Environment::parse("PRODUCTİON"), Err("producti\u{307}on is not a supported environment.".to_string()));
    assert_eq!(Environment::parse("ÄB"), Err("äb is not a supported environment.".to_string()));
}

use hadoop::conf::{parse_bool_setting, parse_int_setting, parse_long_setting, Configuration};
use hadoop::error::IpcError;

#[test]
fn absent_settings_give_defaults() {
    let conf = Configuration::new();
    assert_eq!(conf.get("a", None), None);
    assert_eq!(conf.get("a", Some("x")), Some("x".to_string()));
    assert_eq!(conf.get_int("a", 7), Ok(7));
    assert_eq!(conf.get_long("a", -7), Ok(-7));
    assert!(conf.get_bool("a", true));
    assert_eq!(conf.get_trimmed("a"), None);
    assert_eq!(conf.get_trimmed_with_default("a", "d"), "d");
}

#[test]
fn later_setting_wins_and_is_trimmed() {
    let mut conf = Configuration::new();
    conf.set("k", "  first ");
    conf.set("k", "\tsecond  ");
    assert_eq!(conf.get("k", None), Some("\tsecond  ".to_string()));
    assert_eq!(conf.get_trimmed("k"), Some("second".to_string()));
    assert_eq!(conf.get_trimmed_with_default("k", "d"), "second");
}

#[test]
fn integer_settings_read_decimal_first() {
    let mut conf = Configuration::new();
    conf.set("ten", " 10 ");
    conf.set("dec", "-12");
    conf.set("bad", "1.5");
    conf.set("letters", "ff");
    assert_eq!(conf.get_int("ten", 0), Ok(10));
    assert_eq!(conf.get_int("dec", 0), Ok(-12));
    assert_eq!(conf.get_int("bad", 0), Err(IpcError::NumberFormat));
    assert_eq!(conf.get_int("letters", 0), Ok(255));
    assert_eq!(conf.get_long("ten", 0), Ok(10));
    assert_eq!(parse_int_setting("5000"), Ok(5000));
    assert_eq!(parse_int_setting("zz"), Err(IpcError::NumberFormat));
    assert_eq!(parse_int_setting("80000000"), Ok(80_000_000));
    assert_eq!(parse_int_setting("7fffffff"), Ok(i32::MAX));
    assert_eq!(parse_int_setting("2147483648"), Err(IpcError::NumberFormat));
    assert_eq!(parse_long_setting("9223372036854775808"), Err(IpcError::NumberFormat));
    assert_eq!(parse_long_setting("ffffffff"), Ok(0xffff_ffff));
    assert_eq!(parse_int_setting("+"), Err(IpcError::NumberFormat));
}

#[test]
fn boolean_settings_ignore_case() {
    let mut conf = Configuration::new();
    conf.set("t", " TRUE ");
    conf.set("f", "False");
    conf.set("other", "yes");
    assert!(conf.get_bool("t", false));
    assert!(!conf.get_bool("f", true));
    assert!(conf.get_bool("other", true));
    assert!(!conf.get_bool("other", false));
    assert!(parse_bool_setting("true", false));
    assert!(!parse_bool_setting("TRUE", false));
}

#[test]
fn trimming_removes_unicode_white_space_only() {
    let mut conf = Configuration::new();
    conf.set("wide", "\u{3000}7\u{a0}\n");
    conf.set("zero_width", "\u{200b}7");
    assert_eq!(conf.get_int("wide", 0), Ok(7));
    assert_eq!(conf.get_trimmed("wide"), Some("7".to_string()));
    assert_eq!(conf.get_int("zero_width", 0), Err(IpcError::NumberFormat));
}

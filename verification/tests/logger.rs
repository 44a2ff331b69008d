use tabify_explorer::config::Config;
use tabify_explorer::logger::{decimal_chars, log_msg};

#[test]
fn log_lines() {
    let off = Config::default();
    assert_eq!(log_msg(&off, 5, "INFO", "x"), None);
    let on = Config { enable_log: true, ..Config::default() };
    assert_eq!(
        log_msg(&on, 1725029869, "WARN", "起動しました"),
        Some("[1725029869] [WARN] 起動しました\n".to_string())
    );
    assert_eq!(log_msg(&on, 0, "INFO", ""), Some("[0] [INFO] \n".to_string()));
}

#[test]
fn decimals() {
    assert_eq!(decimal_chars(0), vec!['0']);
    assert_eq!(decimal_chars(907), vec!['9', '0', '7']);
    assert_eq!(decimal_chars(u64::MAX).iter().collect::<String>(), u64::MAX.to_string());
}

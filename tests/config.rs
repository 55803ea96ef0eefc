use web_remote::config::{Config, DEFAULT_PORT};

#[test]
fn absent_setting_gives_default_port() {
    assert_eq!(Config::from_setting(None).server_port, 8080);
    assert_eq!(DEFAULT_PORT, 8080);
}

#[test]
fn numeric_setting_is_used() {
    assert_eq!(Config::from_setting(Some("3000")).server_port, 3000);
    assert_eq!(Config::from_setting(Some("+81")).server_port, 81);
    assert_eq!(Config::from_setting(Some("0065535")).server_port, 65535);
}

#[test]
fn unparsable_setting_gives_default_port() {
    assert_eq!(Config::from_setting(Some("")).server_port, 8080);
    assert_eq!(Config::from_setting(Some("abc")).server_port, 8080);
    assert_eq!(Config::from_setting(Some(" 80")).server_port, 8080);
    assert_eq!(Config::from_setting(Some("-1")).server_port, 8080);
    assert_eq!(Config::from_setting(Some("+")).server_port, 8080);
    assert_eq!(Config::from_setting(Some("65536")).server_port, 8080);
}

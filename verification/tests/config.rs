use tictactoe_server::config::{
    parse_port, Config, DEFAULT_DATABASE_PATH, DEFAULT_ENVIRONMENT, DEFAULT_PORT,
};

#[test]
fn ports_are_decimal_numbers() {
    assert_eq!(parse_port("0"), Some(0));
    assert_eq!(parse_port("80"), Some(80));
    assert_eq!(parse_port("3002"), Some(3002));
    assert_eq!(parse_port("65535"), Some(65535));
    assert_eq!(parse_port("+8080"), Some(8080));
    assert_eq!(parse_port("0080"), Some(80));
    assert_eq!(parse_port("000000000065535"), Some(65535));
}

#[test]
fn anything_else_is_no_port() {
    for text in
        ["", "+", "-1", "65536", "99999999999999999999", "80 ", " 80", "8o", "0x50", "++1", "1+", "٣"]
    {
        assert_eq!(parse_port(text), None, "{text:?}");
    }
}

#[test]
fn port_parsing_agrees_with_the_standard_library() {
    for text in ["7", "+7", "-7", "70000", "65535", "65536", "", "+", "12a", "001", "4294967296"] {
        assert_eq!(parse_port(text), text.parse::<u16>().ok(), "{text:?}");
    }
}

#[test]
fn missing_settings_take_their_defaults() {
    let config = Config::from_values(None, None, None);
    assert_eq!(config.port(), 3002);
    assert_eq!(config.database_path(), "./db/tictactoe.db");
    assert_eq!(config.environment(), "development");
    assert_eq!(DEFAULT_PORT, 3002);
    assert_eq!(DEFAULT_DATABASE_PATH, "./db/tictactoe.db");
    assert_eq!(DEFAULT_ENVIRONMENT, "development");
}

#[test]
fn given_settings_are_kept() {
    let config = Config::from_values(
        Some("8080".to_string()),
        Some("/var/lib/games/store.db".to_string()),
        Some("production".to_string()),
    );
    assert_eq!(config.port(), 8080);
    assert_eq!(config.database_path(), "/var/lib/games/store.db");
    assert_eq!(config.environment(), "production");
}

#[test]
fn an_invalid_port_falls_back_to_the_default() {
    for text in ["http", "", "70000", "-3"] {
        let config = Config::from_values(Some(text.to_string()), None, Some(String::new()));
        assert_eq!(config.port(), 3002);
        assert_eq!(config.environment(), "");
    }
}

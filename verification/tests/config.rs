use honeypot::config::{listen_address, parse_port, Config, ConfigError};

#[test]
fn parse_port_reads_decimal_numbers() {
    assert_eq!(parse_port("25565"), Some(25565));
    assert_eq!(parse_port("0"), Some(0));
    assert_eq!(parse_port("65535"), Some(65535));
    assert_eq!(parse_port("0065535"), Some(65535));
    assert_eq!(parse_port("+80"), Some(80));
}

#[test]
fn parse_port_refuses_what_is_no_port() {
    assert_eq!(parse_port(""), None);
    assert_eq!(parse_port("+"), None);
    assert_eq!(parse_port("-1"), None);
    assert_eq!(parse_port("65536"), None);
    assert_eq!(parse_port("100000x"), None);
    assert_eq!(parse_port("80 "), None);
    assert_eq!(parse_port("++80"), None);
    assert_eq!(parse_port("٣"), None);
}

#[test]
fn parse_port_agrees_with_std() {
    for text in [
        "", "+", "-", "0", "+0", "-0", "1", "80", "8080", "25565", "65535", "65536", "99999",
        "123456789012", "00000000000000080", "+65535", "1_000", " 1", "1a", "ab",
    ] {
        assert_eq!(parse_port(text), text.parse::<u16>().ok(), "{text}");
    }
}

#[test]
fn listen_address_names_every_interface() {
    assert_eq!(listen_address(25565), "0.0.0.0:25565");
    assert_eq!(listen_address(0), "0.0.0.0:0");
    assert_eq!(listen_address(65535), "0.0.0.0:65535");
    assert_eq!(listen_address(10), "0.0.0.0:10");
}

#[test]
fn listen_address_round_trips_the_port() {
    for port in [0u16, 1, 9, 10, 99, 100, 4242, 25565, 65535] {
        let addr = listen_address(port);
        assert_eq!(parse_port(&addr["0.0.0.0:".len()..]), Some(port));
    }
}

#[test]
fn config_from_both_values() {
    let config = Config::new(Some("25565"), Some("postgres://localhost/stats")).unwrap();
    assert_eq!(config.port, 25565);
    assert_eq!(config.db_url, "postgres://localhost/stats");
}

#[test]
fn config_errors_in_order() {
    assert_eq!(Config::new(None, None).err(), Some(ConfigError::MissingPort));
    assert_eq!(Config::new(Some("x"), None).err(), Some(ConfigError::InvalidPort));
    assert_eq!(Config::new(Some("70000"), Some("db")).err(), Some(ConfigError::InvalidPort));
    assert_eq!(Config::new(Some("80"), None).err(), Some(ConfigError::MissingDatabaseUrl));
}

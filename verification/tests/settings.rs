use verida::config::{parse_port, Config, Environment};

fn nothing_held() -> Environment {
    Environment {
        port: None,
        database_url: None,
        stellar_network: None,
        stellar_rpc_url: None,
        soroban_rpc_url: None,
        contract_donation_id: None,
        contract_escrow_id: None,
        contract_community_id: None,
        jwt_secret: None,
    }
}

#[test]
fn defaults_stand_where_nothing_is_held() {
    let c = Config::from_values(nothing_held());
    assert_eq!(c.port, 8000);
    assert_eq!(c.database_url, "sqlite:./verida.db");
    assert_eq!(c.stellar_network, "testnet");
    assert_eq!(c.stellar_rpc_url, "https://horizon-testnet.stellar.org");
    assert_eq!(c.soroban_rpc_url, "https://soroban-testnet.stellar.org");
    assert_eq!(c.contract_donation_id, "");
    assert_eq!(c.contract_escrow_id, "");
    assert_eq!(c.contract_community_id, "");
    assert_eq!(c.jwt_secret, "verida-secret-key");
}

#[test]
fn held_values_replace_the_defaults() {
    let c = Config::from_values(Environment {
        port: Some("9090".to_string()),
        database_url: Some("sqlite::memory:".to_string()),
        stellar_network: Some("public".to_string()),
        stellar_rpc_url: Some("https://horizon".to_string()),
        soroban_rpc_url: Some("https://soroban".to_string()),
        contract_donation_id: Some("CD".to_string()),
        contract_escrow_id: Some("CE".to_string()),
        contract_community_id: Some("CC".to_string()),
        jwt_secret: Some("s".to_string()),
    });
    assert_eq!(c.port, 9090);
    assert_eq!(c.database_url, "sqlite::memory:");
    assert_eq!(c.stellar_network, "public");
    assert_eq!(c.stellar_rpc_url, "https://horizon");
    assert_eq!(c.soroban_rpc_url, "https://soroban");
    assert_eq!(c.contract_donation_id, "CD");
    assert_eq!(c.contract_escrow_id, "CE");
    assert_eq!(c.contract_community_id, "CC");
    assert_eq!(c.jwt_secret, "s");
}

#[test]
fn port_that_is_no_number_falls_back() {
    for held in ["", "http", "80 ", " 80", "65536", "-1", "8_000", "+", "80.0", "٨٠"] {
        let mut env = nothing_held();
        env.port = Some(held.to_string());
        assert_eq!(Config::from_values(env).port, 8000, "{:?}", held);
    }
}

#[test]
fn port_texts_are_read_as_decimal_numbers() {
    assert_eq!(parse_port("0"), Some(0));
    assert_eq!(parse_port("80"), Some(80));
    assert_eq!(parse_port("+443"), Some(443));
    assert_eq!(parse_port("0008000"), Some(8000));
    assert_eq!(parse_port("65535"), Some(65535));
    assert_eq!(parse_port("65536"), None);
    assert_eq!(parse_port("99999999999999999999"), None);
    assert_eq!(parse_port(""), None);
    assert_eq!(parse_port("+"), None);
    assert_eq!(parse_port("++1"), None);
    assert_eq!(parse_port("-1"), None);
    assert_eq!(parse_port("12a"), None);
}

#[test]
fn port_texts_are_read_as_the_standard_library_reads_them() {
    let samples = [
        "0", "1", "+1", "-0", "+0", "00", "65535", "65536", "065535", "70000", "4294967296",
        "", "+", "-", " 1", "1 ", "1\n", "a", "0x10", "１２", "8000", "+-1", "1+",
    ];
    for s in samples {
        assert_eq!(parse_port(s), s.parse::<u16>().ok(), "{:?}", s);
    }
}

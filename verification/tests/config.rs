use mqtt_ws_bridge::config::{
    digit_value, listen_address, parse_decimal, resolve_broker_settings, BrokerSettings,
    SettingsError, DEFAULT_CHANNEL_CAPACITY, DEFAULT_KEEP_ALIVE_SECS,
};

fn some(s: &str) -> Option<String> {
    Some(s.to_string())
}

#[test]
fn decimal_numbers_are_read() {
    assert_eq!(parse_decimal("0", 65535), Some(0));
    assert_eq!(parse_decimal("7", 65535), Some(7));
    assert_eq!(parse_decimal("1883", 65535), Some(1883));
    assert_eq!(parse_decimal("+1883", 65535), Some(1883));
    assert_eq!(parse_decimal("007", 65535), Some(7));
    assert_eq!(parse_decimal("000000000000000000000000000065535", 65535), Some(65535));
    assert_eq!(parse_decimal("65535", 65535), Some(65535));
    assert_eq!(parse_decimal("18446744073709551615", u64::MAX), Some(u64::MAX));
    assert_eq!(parse_decimal("3", 3), Some(3));
}

#[test]
fn numbers_above_the_limit_are_not_read() {
    assert_eq!(parse_decimal("65536", 65535), None);
    assert_eq!(parse_decimal("70000", 65535), None);
    assert_eq!(parse_decimal("18446744073709551616", u64::MAX), None);
    assert_eq!(parse_decimal("99999999999999999999999999", u64::MAX), None);
    assert_eq!(parse_decimal("4", 3), None);
    assert_eq!(parse_decimal("10", 3), None);
}

#[test]
fn texts_that_are_no_number_are_not_read() {
    let texts = [
        "", "+", "-", "-1", "-0", "++1", "+-1", "1+", " 1", "1 ", "1_000", "0x10", "1.0", "1e3",
        "abc", "12a", "\u{661}\u{662}", "\u{ff11}", "1\n",
    ];
    for text in texts {
        assert_eq!(parse_decimal(text, u64::MAX), None);
    }
}

#[test]
fn parse_decimal_agrees_with_std() {
    let texts = [
        "0", "1", "+1", "-1", "65535", "65536", "0065535", "", "+", " 5", "5 ", "٣", "12345",
        "4294967295", "18446744073709551615", "18446744073709551616",
    ];
    for text in texts {
        assert_eq!(parse_decimal(text, 65535), text.parse::<u16>().ok().map(u64::from));
        assert_eq!(parse_decimal(text, u64::MAX), text.parse::<u64>().ok());
    }
}

#[test]
fn digits_have_their_values() {
    let digits = ['0', '1', '2', '3', '4', '5', '6', '7', '8', '9'];
    for (value, digit) in digits.iter().enumerate() {
        assert_eq!(digit_value(*digit), Some(value as u64));
    }
    for other in ['a', '/', ':', ' ', '+', '\u{661}'] {
        assert_eq!(digit_value(other), None);
    }
}

#[test]
fn full_settings_are_resolved() {
    let resolved =
        resolve_broker_settings(some("bridge"), some("broker.local"), some("1883"), some("30"), some("64"));
    assert_eq!(
        resolved,
        Ok(BrokerSettings {
            client_name: "bridge".to_string(),
            host: "broker.local".to_string(),
            port: 1883,
            keep_alive_secs: 30,
            channel_capacity: 64,
        })
    );
}

#[test]
fn keep_alive_and_capacity_fall_back_to_their_defaults() {
    assert_eq!(DEFAULT_KEEP_ALIVE_SECS, 5);
    assert_eq!(DEFAULT_CHANNEL_CAPACITY, 10);
    let missing = resolve_broker_settings(some("b"), some("h"), some("1"), None, None).unwrap();
    assert_eq!(missing.keep_alive_secs, 5);
    assert_eq!(missing.channel_capacity, 10);
    let unreadable =
        resolve_broker_settings(some("b"), some("h"), some("1"), some("soon"), some("-3")).unwrap();
    assert_eq!(unreadable.keep_alive_secs, 5);
    assert_eq!(unreadable.channel_capacity, 10);
    let mixed = resolve_broker_settings(some("b"), some("h"), some("1"), some("0"), some("")).unwrap();
    assert_eq!(mixed.keep_alive_secs, 0);
    assert_eq!(mixed.channel_capacity, 10);
    let too_large = resolve_broker_settings(
        some("b"),
        some("h"),
        some("1"),
        some("18446744073709551616"),
        some("340282366920938463463374607431768211456"),
    )
    .unwrap();
    assert_eq!(too_large.keep_alive_secs, 5);
    assert_eq!(too_large.channel_capacity, 10);
}

#[test]
fn missing_settings_are_reported_in_order() {
    assert_eq!(
        resolve_broker_settings(None, None, None, None, None),
        Err(SettingsError::ClientNameMissing)
    );
    assert_eq!(
        resolve_broker_settings(some("b"), None, None, None, None),
        Err(SettingsError::BrokerHostMissing)
    );
    assert_eq!(
        resolve_broker_settings(some("b"), some("h"), None, None, None),
        Err(SettingsError::BrokerPortMissing)
    );
    assert_eq!(
        resolve_broker_settings(None, some("h"), some("x"), None, None),
        Err(SettingsError::ClientNameMissing)
    );
}

#[test]
fn unreadable_port_is_reported() {
    for port in ["", "mqtt", "65536", "-1", "18 83", "1883\n"] {
        assert_eq!(
            resolve_broker_settings(some("b"), some("h"), some(port), None, None),
            Err(SettingsError::BrokerPortUnparsable)
        );
    }
    let top = resolve_broker_settings(some("b"), some("h"), some("65535"), None, None).unwrap();
    assert_eq!(top.port, 65535);
}

#[test]
fn empty_texts_are_settings_too() {
    let resolved = resolve_broker_settings(some(""), some(""), some("0"), None, None).unwrap();
    assert_eq!(resolved.client_name, "");
    assert_eq!(resolved.host, "");
    assert_eq!(resolved.port, 0);
}

#[test]
fn faults_are_put_in_words() {
    assert_eq!(SettingsError::ClientNameMissing.message(), "MQTT_CLIENT_NAME must be set");
    assert_eq!(SettingsError::BrokerHostMissing.message(), "MQTT_BROKER_HOST must be set");
    assert_eq!(SettingsError::BrokerPortMissing.message(), "MQTT_BROKER_PORT must be set");
    assert_eq!(SettingsError::BrokerPortUnparsable.message(), "MQTT_BROKER_PORT unparsable");
}

#[test]
fn listen_address_has_a_default() {
    assert_eq!(listen_address(None), "127.0.0.1:3030");
    assert_eq!(listen_address(some("0.0.0.0:80")), "0.0.0.0:80");
    assert_eq!(listen_address(some("")), "");
}

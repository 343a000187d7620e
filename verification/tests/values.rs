use std::str::FromStr;

use backend_rust::payment::invoice_status_endpoint;
use backend_rust::settings::{get_decimal, get_uuid, settings_writes, SettingsMap, UpdateSettings};
use backend_rust::values::{format_bool, DecimalValue};

fn one_row(key: &str, value: &str) -> SettingsMap {
    SettingsMap {
        entries: vec![(key.to_string(), Some(value.to_string()))],
    }
}

fn update_with_markup(d: DecimalValue) -> UpdateSettings {
    UpdateSettings {
        bot_messages_support: None,
        bot_messages_support_image_id: None,
        bot_messages_new_user_welcome: None,
        bot_messages_new_user_welcome_image_id: None,
        bot_messages_returning_user_welcome: None,
        bot_messages_returning_user_welcome_image_id: None,
        pricing_global_markup: Some(d),
        pricing_platform_commission: None,
        pricing_gateway_markup: None,
        pricing_gateway_bonus_mock_provider: None,
        pricing_gateway_bonus_platform_card: None,
        pricing_gateway_bonus_platform_sbp: None,
        referral_program_enabled: None,
        referral_percentage: None,
        bot_payment_system_support_operators: None,
        bot_about: None,
        bot_description: None,
    }
}

#[test]
fn uuids_are_read_and_written_as_the_uuid_crate_does() {
    let id = uuid::Uuid::new_v4();
    assert_eq!(invoice_status_endpoint(id.as_u128()), format!("status/{id}"));
    assert_eq!(get_uuid(&one_row("k", &id.to_string()), "k"), Some(id.as_u128()));
    assert_eq!(
        get_uuid(&one_row("k", &id.to_string().to_uppercase()), "k"),
        Some(id.as_u128())
    );
    assert_eq!(get_uuid(&one_row("k", "nope"), "k"), None);
}

#[test]
fn decimals_are_read_and_written_as_rust_decimal_does() {
    let zero = DecimalValue {
        mantissa: 0,
        scale: 0,
    };
    assert_eq!(
        get_decimal(&one_row("k", "15.5"), "k", zero),
        DecimalValue {
            mantissa: 155,
            scale: 1
        }
    );
    assert_eq!(
        get_decimal(&one_row("k", "-0.25"), "k", zero),
        DecimalValue {
            mantissa: -25,
            scale: 2
        }
    );
    assert_eq!(get_decimal(&one_row("k", "x1"), "k", zero), zero);
    let d = rust_decimal::Decimal::from_str("123.456").unwrap();
    for (value, text) in [
        (
            DecimalValue {
                mantissa: 150,
                scale: 2,
            },
            "1.50",
        ),
        (
            DecimalValue {
                mantissa: d.mantissa(),
                scale: d.scale(),
            },
            "123.456",
        ),
    ] {
        let writes = settings_writes(&update_with_markup(value));
        assert_eq!(
            writes,
            vec![("pricing_global_markup".to_string(), Some(text.to_string()))]
        );
    }
}

#[test]
fn written_decimals_read_back() {
    let max = (1i128 << 96) - 1;
    for (mantissa, scale) in [
        (25i128, 1u32),
        (0, 0),
        (0, 5),
        (-7, 3),
        (max, 0),
        (max, 28),
        (-max, 28),
        (1, 28),
        (-123456789012345678901234567, 10),
    ] {
        let d = DecimalValue { mantissa, scale };
        let writes = settings_writes(&update_with_markup(d));
        let text = writes[0].1.clone().unwrap();
        let zero = DecimalValue {
            mantissa: 7,
            scale: 0,
        };
        assert_eq!(get_decimal(&one_row("k", &text), "k", zero), d, "{text}");
    }
}

#[test]
fn booleans() {
    assert_eq!(format_bool(true), "true");
    assert_eq!(format_bool(false), "false");
}

use std::str::FromStr;

use backend_rust::settings::{
    get_bool, get_decimal, get_string, get_string_vec, get_uuid, join_strings,
    parse_bool_setting, settings_writes, Settings, SettingsMap, UpdateSettings,
};
use backend_rust::values::DecimalValue;
use rust_decimal::Decimal;
use uuid::Uuid;

fn rows(entries: &[(&str, Option<&str>)]) -> SettingsMap {
    SettingsMap {
        entries: entries
            .iter()
            .map(|(k, v)| (k.to_string(), v.map(|s| s.to_string())))
            .collect(),
    }
}

fn decimal(text: &str) -> DecimalValue {
    let d = Decimal::from_str(text).unwrap();
    DecimalValue {
        mantissa: d.mantissa(),
        scale: d.scale(),
    }
}

fn zero() -> DecimalValue {
    DecimalValue {
        mantissa: 0,
        scale: 0,
    }
}

fn no_update() -> UpdateSettings {
    UpdateSettings {
        bot_messages_support: None,
        bot_messages_support_image_id: None,
        bot_messages_new_user_welcome: None,
        bot_messages_new_user_welcome_image_id: None,
        bot_messages_returning_user_welcome: None,
        bot_messages_returning_user_welcome_image_id: None,
        pricing_global_markup: None,
        pricing_platform_commission: None,
        pricing_gateway_markup: None,
        pricing_gateway_bonus_mock_provider: None,
        pricing_gateway_bonus_platform_card: None,
        pricing_gateway_bonus_platform_sbp: None,
        referral_program_enabled: None,
        referral_percentage: None,
        bot_payment_system_support_operators: None,
        bot_about: None,
        bot_description: None,
    }
}

#[test]
fn test_load_settings_empty_db() {
    let settings = Settings::from_map(&rows(&[]));

    assert_eq!(settings.bot_messages_support, "Служба поддержки");
    assert_eq!(settings.pricing_global_markup, zero());
    assert!(!settings.referral_program_enabled);
    assert!(settings.bot_messages_support_image_id.is_none());
}

#[test]
fn test_load_settings_with_data() {
    let image_id = Uuid::new_v4();
    let image_text = image_id.to_string();
    let map = rows(&[
        ("bot_messages_support", Some("New Support Message")),
        ("pricing_global_markup", Some("15.5")),
        ("referral_program_enabled", Some("true")),
        ("bot_messages_support_image_id", Some(image_text.as_str())),
    ]);

    let settings = Settings::from_map(&map);

    assert_eq!(settings.bot_messages_support, "New Support Message");
    assert_eq!(settings.pricing_global_markup, decimal("15.5"));
    assert!(settings.referral_program_enabled);
    assert_eq!(settings.bot_messages_support_image_id, Some(image_id.as_u128()));
    assert_eq!(settings.pricing_platform_commission, zero());
}

#[test]
fn test_update_settings() {
    let mut map = rows(&[]);

    let initial_settings = Settings::from_map(&map);
    assert_eq!(
        initial_settings.bot_messages_new_user_welcome,
        "Добро пожаловать, {username}!"
    );
    assert!(initial_settings
        .bot_messages_new_user_welcome_image_id
        .is_none());

    let new_image_id = Uuid::new_v4().as_u128();
    let update = UpdateSettings {
        bot_messages_new_user_welcome: Some("Welcome, new user!".to_string()),
        bot_messages_new_user_welcome_image_id: Some(Some(new_image_id)),
        pricing_platform_commission: Some(decimal("2.5")),
        referral_program_enabled: Some(true),
        ..no_update()
    };

    let updated_settings = map.update(&update);

    assert_eq!(
        updated_settings.bot_messages_new_user_welcome,
        "Welcome, new user!"
    );
    assert_eq!(
        updated_settings.bot_messages_new_user_welcome_image_id,
        Some(new_image_id)
    );
    assert_eq!(updated_settings.pricing_platform_commission, decimal("2.5"));
    assert!(updated_settings.referral_program_enabled);
    assert_eq!(
        updated_settings.pricing_global_markup,
        initial_settings.pricing_global_markup
    );

    let reloaded_settings = Settings::from_map(&map);
    assert_eq!(
        reloaded_settings.bot_messages_new_user_welcome,
        "Welcome, new user!"
    );
    assert_eq!(
        reloaded_settings.bot_messages_new_user_welcome_image_id,
        Some(new_image_id)
    );
    assert_eq!(reloaded_settings.pricing_platform_commission, decimal("2.5"));
}

#[test]
fn test_update_settings_to_null() {
    let mut map = rows(&[]);

    let initial_image_id = Uuid::new_v4().as_u128();
    let initial_update = UpdateSettings {
        bot_messages_returning_user_welcome_image_id: Some(Some(initial_image_id)),
        ..no_update()
    };
    map.update(&initial_update);

    let settings_before_nulling = Settings::from_map(&map);
    assert_eq!(
        settings_before_nulling.bot_messages_returning_user_welcome_image_id,
        Some(initial_image_id)
    );

    let nulling_update = UpdateSettings {
        bot_messages_returning_user_welcome_image_id: Some(None),
        ..no_update()
    };
    let nulled_settings = map.update(&nulling_update);
    assert!(nulled_settings
        .bot_messages_returning_user_welcome_image_id
        .is_none());

    let reloaded_settings = Settings::from_map(&map);
    assert!(reloaded_settings
        .bot_messages_returning_user_welcome_image_id
        .is_none());
}

#[test]
fn later_row_of_a_key_wins() {
    let map = rows(&[("bot_about", Some("first")), ("bot_about", Some("second"))]);
    assert_eq!(get_string(&map, "bot_about", "default"), "second");
}

#[test]
fn null_value_reads_as_default() {
    let map = rows(&[("bot_about", Some("first")), ("bot_about", None)]);
    assert_eq!(get_string(&map, "bot_about", "default"), "default");
    assert_eq!(get_string(&map, "missing", "fallback"), "fallback");
}

#[test]
fn booleans_are_trimmed_and_case_insensitive() {
    let map = rows(&[
        ("a", Some("  YES ")),
        ("b", Some("Off")),
        ("c", Some("1")),
        ("d", Some("maybe")),
        ("e", None),
    ]);
    assert!(get_bool(&map, "a", false));
    assert!(!get_bool(&map, "b", true));
    assert!(get_bool(&map, "c", false));
    assert!(get_bool(&map, "d", true));
    assert!(!get_bool(&map, "d", false));
    assert!(get_bool(&map, "e", true));
    assert!(!get_bool(&map, "missing", false));
}

#[test]
fn parse_bool_setting_words() {
    for w in ["true", "1", "yes", "on"] {
        assert_eq!(parse_bool_setting(w), Some(true));
    }
    for w in ["false", "0", "no", "off"] {
        assert_eq!(parse_bool_setting(w), Some(false));
    }
    assert_eq!(parse_bool_setting("TRUE"), None);
    assert_eq!(parse_bool_setting(""), None);
}

#[test]
fn string_vec_splits_at_commas() {
    let map = rows(&[("ops", Some("alice,bob,,carol")), ("empty", Some(""))]);
    assert_eq!(get_string_vec(&map, "ops"), vec!["alice", "bob", "", "carol"]);
    assert_eq!(get_string_vec(&map, "empty"), vec![""]);
    assert!(get_string_vec(&map, "missing").is_empty());
}

#[test]
fn uuid_and_decimal_settings() {
    let id = Uuid::new_v4();
    let text = id.to_string();
    let map = rows(&[
        ("id", Some(text.as_str())),
        ("bad_id", Some("not-a-uuid")),
        ("markup", Some("0.25")),
        ("bad_markup", Some("abc")),
    ]);
    assert_eq!(get_uuid(&map, "id"), Some(id.as_u128()));
    assert_eq!(get_uuid(&map, "bad_id"), None);
    assert_eq!(get_decimal(&map, "markup", zero()), decimal("0.25"));
    assert_eq!(get_decimal(&map, "bad_markup", decimal("7")), decimal("7"));
}

#[test]
fn writes_only_changed_settings_in_order() {
    let image = Uuid::new_v4();
    let update = UpdateSettings {
        bot_about: Some("About us".to_string()),
        bot_messages_support_image_id: Some(Some(image.as_u128())),
        bot_messages_new_user_welcome_image_id: Some(None),
        referral_program_enabled: Some(false),
        pricing_gateway_markup: Some(decimal("1.50")),
        bot_payment_system_support_operators: Some(vec!["op1".to_string(), "op2".to_string()]),
        ..no_update()
    };
    let writes = settings_writes(&update);
    assert_eq!(
        writes,
        vec![
            (
                "bot_messages_support_image_id".to_string(),
                Some(image.to_string())
            ),
            ("bot_messages_new_user_welcome_image_id".to_string(), None),
            ("pricing_gateway_markup".to_string(), Some("1.50".to_string())),
            ("referral_program_enabled".to_string(), Some("false".to_string())),
            (
                "bot_payment_system_support_operators".to_string(),
                Some("op1,op2".to_string())
            ),
            ("bot_about".to_string(), Some("About us".to_string())),
        ]
    );
}

#[test]
fn untouched_settings_keep_their_values_after_update() {
    let mut map = rows(&[
        ("bot_description", Some("Shop bot")),
        ("referral_program_enabled", Some("on")),
    ]);
    let update = UpdateSettings {
        bot_about: Some("About".to_string()),
        ..no_update()
    };
    let settings = map.update(&update);
    assert_eq!(settings.bot_about, "About");
    assert_eq!(settings.bot_description, "Shop bot");
    assert!(settings.referral_program_enabled);
}

#[test]
fn operators_read_back_after_update() {
    let mut map = rows(&[]);
    let ops = vec!["anna".to_string(), "boris".to_string(), "clara".to_string()];
    let update = UpdateSettings {
        bot_payment_system_support_operators: Some(ops.clone()),
        ..no_update()
    };
    let settings = map.update(&update);
    assert_eq!(settings.bot_payment_system_support_operators, ops);
}

#[test]
fn join_strings_puts_separator_between_items() {
    let items = vec!["a".to_string(), "b".to_string(), "c".to_string()];
    assert_eq!(join_strings(&items, ","), "a,b,c");
    assert_eq!(join_strings(&Vec::new(), ","), "");
}

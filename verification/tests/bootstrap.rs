use rust_decimal::prelude::ToPrimitive;
use backend_rust::bootstrap::{
    admin_credentials, decimal_to_i64, find_id_by_name, generate_random_password,
    initial_store_balance, password_of, missing_permissions, needs_role_assignment, StoreBalanceStep,
    PASSWORD_LENGTH,
};
use backend_rust::payment::AutosalesCredentials;
use backend_rust::values::DecimalValue;

#[test]
fn passwords_are_twelve_alphanumerics() {
    for _ in 0..20 {
        let p = generate_random_password();
        assert_eq!(p.chars().count(), PASSWORD_LENGTH);
        assert!(p.chars().all(|c| c.is_ascii_alphanumeric()));
    }
}

#[test]
fn roles_are_found_by_name() {
    let roles = vec![
        (1, "viewer".to_string()),
        (2, "admin".to_string()),
        (3, "admin".to_string()),
    ];
    assert_eq!(find_id_by_name(&roles, "admin"), Some(2));
    assert_eq!(find_id_by_name(&roles, "viewer"), Some(1));
    assert_eq!(find_id_by_name(&roles, "Admin"), None);
    assert_eq!(find_id_by_name(&Vec::new(), "admin"), None);
}

#[test]
fn role_assignment_only_for_users_without_roles() {
    assert!(needs_role_assignment(true, 0));
    assert!(!needs_role_assignment(true, 1));
    assert!(!needs_role_assignment(false, 0));
}

#[test]
fn given_credentials_are_kept() {
    let c = admin_credentials(
        "admin_dev".to_string(),
        Some("password".to_string()),
        Some("QO4C6IF3RRNNUXLKAIVLOQPVYM5W3XEV".to_string()),
    )
    .unwrap();
    assert_eq!(c.login, "admin_dev");
    assert_eq!(c.password, "password");
    assert_eq!(c.two_fa, "QO4C6IF3RRNNUXLKAIVLOQPVYM5W3XEV");
    assert_eq!(c.hashed_password.len(), 60);
    assert!(c.hashed_password.starts_with("$2b$12$"));
    assert!(bcrypt::verify("password", &c.hashed_password).unwrap());
}

#[test]
fn missing_credentials_are_generated() {
    let c = admin_credentials("admin".to_string(), None, None).unwrap();
    assert_eq!(c.password.len(), PASSWORD_LENGTH);
    assert!(c.password.chars().all(|ch| ch.is_ascii_alphanumeric()));
    assert_eq!(c.two_fa.len(), 32);
    assert!(bcrypt::verify(&c.password, &c.hashed_password).unwrap());
    // A generated secret is long enough for the one-time codes.
    let creds = AutosalesCredentials {
        url: String::new(),
        login: String::new(),
        password: String::new(),
        two_fa: c.two_fa.clone(),
    };
    assert_eq!(creds.generate_2fa_code().unwrap().len(), 6);
}

#[test]
fn permissions_the_role_lacks() {
    let all = vec![1, 2, 3, 4, 5];
    assert_eq!(missing_permissions(&all, Some(&vec![2, 4])), vec![1, 3, 5]);
    assert_eq!(missing_permissions(&all, Some(&all.clone())), Vec::<i64>::new());
    assert_eq!(missing_permissions(&all, Some(&vec![])), all);
    assert_eq!(missing_permissions(&all, None), Vec::<i64>::new());
}

#[test]
fn decimals_to_whole_numbers() {
    let d = |mantissa: i128, scale: u32| DecimalValue { mantissa, scale };
    assert_eq!(decimal_to_i64(d(12345, 2)), Some(123));
    assert_eq!(decimal_to_i64(d(-12345, 2)), Some(-123));
    assert_eq!(decimal_to_i64(d(-99, 2)), Some(0));
    assert_eq!(decimal_to_i64(d(7, 0)), Some(7));
    assert_eq!(decimal_to_i64(d(i64::MAX as i128, 0)), Some(i64::MAX));
    assert_eq!(decimal_to_i64(d(i64::MIN as i128, 0)), Some(i64::MIN));
    assert_eq!(decimal_to_i64(d(i64::MAX as i128 + 1, 0)), None);
    assert_eq!(decimal_to_i64(d(i64::MIN as i128 - 1, 0)), None);
    assert_eq!(decimal_to_i64(d((i64::MAX as i128 + 1) * 10, 1)), None);
    assert_eq!(decimal_to_i64(d(5, 28)), Some(0));
    for (m, s) in [(123456789i128, 3u32), (-5000, 3), (0, 5), (-1, 0)] {
        let dec = rust_decimal::Decimal::from_i128_with_scale(m, s);
        assert_eq!(decimal_to_i64(d(m, s)), dec.to_i64());
    }
}

#[test]
fn store_balance_at_first_start() {
    let b = DecimalValue {
        mantissa: 150050,
        scale: 2,
    };
    assert_eq!(
        initial_store_balance(Some(b), Some("999")),
        StoreBalanceStep::Known(1500)
    );
    assert_eq!(
        initial_store_balance(None, Some("5000")),
        StoreBalanceStep::OpenWith(5000)
    );
    assert_eq!(initial_store_balance(None, Some("0")), StoreBalanceStep::Known(0));
    assert_eq!(initial_store_balance(None, Some("-3")), StoreBalanceStep::Known(0));
    assert_eq!(initial_store_balance(None, Some("ten")), StoreBalanceStep::Known(0));
    assert_eq!(initial_store_balance(None, None), StoreBalanceStep::Known(0));
}

#[test]
fn indices_spell_the_password() {
    assert_eq!(password_of(&vec![0, 25, 26, 51, 52, 61]), "AZaz09");
    assert_eq!(password_of(&vec![]), "");
    assert_eq!(password_of(&vec![7; 12]), "HHHHHHHHHHHH");
}

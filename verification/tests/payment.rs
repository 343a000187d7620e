use backend_rust::payment::{
    check_response, invoice_status_endpoint, parse_failure, transport_failure, ProviderClient,
    ResponseCheck,
};
use backend_rust::payment::{
    cached_token, endpoint_url, frame_request, fresh_token, handle_mock_webhook,
    AutosalesCredentials, AutosalesOperation, AutosalesToken, MockProviderInvoiceStatus,
    MockProviderInvoiceWebhookPayload, TOKEN_LIFETIME_MICROS,
};

fn credentials(two_fa: &str) -> AutosalesCredentials {
    AutosalesCredentials {
        url: "https://pay.example".to_string(),
        login: "merchant".to_string(),
        password: "pw".to_string(),
        two_fa: two_fa.to_string(),
    }
}

#[test]
fn endpoints_and_versions() {
    let cases = [
        (AutosalesOperation::AuthStep1, "api/method/client/auth/step1", 1),
        (AutosalesOperation::AuthStep2, "api/method/client/auth/step2", 1),
        (
            AutosalesOperation::InitOrder,
            "api/method/merch/payin/order_initialized/standart",
            3,
        ),
        (
            AutosalesOperation::CancelOrder,
            "api/method/merch/payin/order_cancel",
            1,
        ),
        (
            AutosalesOperation::ProcessOrder,
            "api/method/merch/payin/order_process",
            1,
        ),
        (
            AutosalesOperation::SendReceipt,
            "api/method/merch/payin/order_check_down",
            2,
        ),
        (
            AutosalesOperation::GetOrderStatus,
            "api/method/merch/payin/order_get_status",
            1,
        ),
    ];
    for (op, endpoint, version) in cases {
        assert_eq!(op.endpoint(), endpoint);
        assert_eq!(op.version(), version);
    }
    assert_eq!(
        endpoint_url("https://pay.example", AutosalesOperation::AuthStep1.endpoint()),
        "https://pay.example/api/method/client/auth/step1"
    );
}

#[test]
fn requests_carry_token_and_version() {
    let req = frame_request("tok".to_string(), 3, 17u8);
    assert_eq!(req.version, "3");
    assert_eq!(req.user_token, "tok");
    assert_eq!(req.payload, 17u8);
    let step1 = credentials("JBSWY3DPEHPK3PXPJBSWY3DPEHPK3PXP").auth_step_1_request();
    assert_eq!(step1.version, 1);
    assert_eq!(step1.login, "merchant");
    assert_eq!(step1.password, "pw");
}

#[test]
fn token_cache_expires() {
    assert_eq!(cached_token(&None, 10), None);
    let t = fresh_token("abc".to_string(), 1_000);
    assert_eq!(t.expires_at, 1_000 + TOKEN_LIFETIME_MICROS);
    let cache = Some(t);
    assert_eq!(cached_token(&cache, 1_000), Some("abc".to_string()));
    assert_eq!(cached_token(&cache, 1_000 + TOKEN_LIFETIME_MICROS), None);
    let stale = Some(AutosalesToken {
        token: "old".to_string(),
        expires_at: 5,
    });
    assert_eq!(cached_token(&stale, 4), Some("old".to_string()));
    assert_eq!(cached_token(&stale, 6), None);
}

#[test]
fn two_factor_codes() {
    let code = credentials("JBSWY3DPEHPK3PXPJBSWY3DPEHPK3PXP")
        .generate_2fa_code()
        .unwrap();
    assert_eq!(code.len(), 6);
    assert!(code.chars().all(|c| c.is_ascii_digit()));
    // Ten bytes: shorter than the 128 bits the TOTP needs.
    assert_eq!(
        credentials("JBSWY3DPEHPK3PXP").generate_2fa_code(),
        Err("The length of the shared secret MUST be at least 128 bits. 80 bits is not enough"
            .to_string())
    );
    // Not base32.
    assert_eq!(
        credentials("!!!!").generate_2fa_code(),
        Err("Could not decode base32 secret.".to_string())
    );
}

#[test]
fn mock_webhooks() {
    let order = uuid::Uuid::new_v4().as_u128();
    let mut payload = MockProviderInvoiceWebhookPayload {
        event: "invoice.updated".to_string(),
        order_id: order,
        invoice_id: 7,
        amount: serde_json::Number::from(100),
        status: MockProviderInvoiceStatus::Completed,
    };
    assert_eq!(handle_mock_webhook(&payload), Ok(order));
    for s in [
        MockProviderInvoiceStatus::Failed,
        MockProviderInvoiceStatus::Pending,
        MockProviderInvoiceStatus::Cancelled,
    ] {
        payload.status = s;
        assert_eq!(
            handle_mock_webhook(&payload),
            Err("Mock payments provider: received unexpected event type".to_string())
        );
    }
}

#[test]
fn provider_answers() {
    assert!(matches!(
        check_response(ProviderClient::Mock, "http://m/x", 200, "200 OK", "{}"),
        ResponseCheck::ParseBody
    ));
    assert!(matches!(
        check_response(ProviderClient::Mock, "http://m/x", 299, "299", ""),
        ResponseCheck::ParseBody
    ));
    match check_response(
        ProviderClient::Autosales,
        "http://a/y",
        404,
        "404 Not Found",
        "nope",
    ) {
        ResponseCheck::Failed(m) => assert_eq!(
            m,
            "[Autosales platform payments provider] Request to http://a/y failed with status code: 404 Not Found, body: nope"
        ),
        _ => panic!("expected a failure"),
    }
    match check_response(ProviderClient::Mock, "u", 302, "302 Found", "") {
        ResponseCheck::Failed(m) => assert_eq!(
            m,
            "Mock payments provider: Request to u failed with status code: 302 Found, body: "
        ),
        _ => panic!("expected a failure"),
    }
    assert_eq!(
        parse_failure(ProviderClient::Mock, "u", "200 OK", "x", "bad json"),
        "Mock payments provider: Failed to parse response from u failed with status code: 200 OK, body: x, error: bad json"
    );
    assert_eq!(
        transport_failure(ProviderClient::Autosales, "timeout"),
        "[Autosales platform payments provider] timeout"
    );
    let id = uuid::Uuid::new_v4();
    assert_eq!(invoice_status_endpoint(id.as_u128()), format!("status/{id}"));
}

#[test]
fn two_factor_code_is_the_totp_of_the_decoded_secret() {
    let encoded = "JBSWY3DPEHPK3PXPJBSWY3DPEHPK3PXP";
    let secret = totp_rs::Secret::Encoded(encoded.to_string()).to_bytes().unwrap();
    let totp = totp_rs::TOTP::new(totp_rs::Algorithm::SHA1, 6, 1, 30, secret).unwrap();
    let before = totp.generate_current().unwrap();
    let code = credentials(encoded).generate_2fa_code().unwrap();
    let after = totp.generate_current().unwrap();
    assert!(code == before || code == after);
    // The RFC 6238 test secret at 59 s gives the RFC code, cut to six digits.
    let other = totp_rs::Secret::Encoded("GEZDGNBVGY3TQOJQGEZDGNBVGY3TQOJQ".to_string())
        .to_bytes()
        .unwrap();
    let other_totp = totp_rs::TOTP::new(totp_rs::Algorithm::SHA1, 6, 1, 30, other).unwrap();
    assert_eq!(other_totp.generate(59), "287082".to_string());
}

use tesla::config::{debug_config, Config, MqttConfig, SqliteConfig, Token};
use tesla::error::{AuthFailure, TeslaError};
use tesla::sink::{new_sink, Sink, MQTT_KEEP_ALIVE, MQTT_QUEUE};
use tesla::token::{
    exchange_params, parse_oauth_token, refresh_check, refresh_params, renewed_token,
    token_from_members, OAuthToken, RefreshAction,
};
use tesla::web::pair_of;

const PAYLOAD: &str = r#"{"access_token":"A","refresh_token":"B","expires_in":3600}"#;

fn token(expires_ts: u64) -> Token {
    Token { access_token: "old".to_string(), refresh_token: "R".to_string(), expires_ts }
}

fn config() -> Config {
    Config::initial(token(0))
}

#[test]
fn token_payload_is_read() {
    let parsed = parse_oauth_token(200, PAYLOAD).unwrap();
    assert_eq!(
        parsed,
        OAuthToken { access_token: "A".to_string(), refresh_token: "B".to_string(), expires_in: 3600 }
    );
}

#[test]
fn token_received_at_1000_expires_at_4600() {
    let parsed = parse_oauth_token(200, PAYLOAD).unwrap();
    let credential = Token::from_oauth(parsed, 1000).unwrap();
    assert_eq!(credential.expires_ts, 4600);
    assert_eq!(credential.access_token, "A");
    assert_eq!(credential.refresh_token, "B");
    assert_eq!(renewed_token(200, PAYLOAD, 1000), Ok(credential));
}

#[test]
fn token_payload_may_hold_more_members() {
    let body = r#"{"token_type":"bearer","expires_in":28800,"id_token":"x",
        "refresh_token":"rt","access_token":"at","created_at":1}"#;
    let parsed = parse_oauth_token(201, body).unwrap();
    assert_eq!(parsed.access_token, "at");
    assert_eq!(parsed.refresh_token, "rt");
    assert_eq!(parsed.expires_in, 28800);
}

#[test]
fn refused_token_request_keeps_the_body() {
    let body = r#"{"error":"invalid_grant"}"#;
    for status in [400u16, 401, 403, 500, 302, 199] {
        assert_eq!(
            parse_oauth_token(status, body),
            Err(TeslaError::AuthError(AuthFailure::Rejected(body.to_string())))
        );
    }
    // A refusal is a refusal even where the body would do as a token.
    assert_eq!(
        parse_oauth_token(400, PAYLOAD),
        Err(TeslaError::AuthError(AuthFailure::Rejected(PAYLOAD.to_string())))
    );
}

#[test]
fn incomplete_token_payload_is_malformed() {
    let malformed = Err(TeslaError::AuthError(AuthFailure::MalformedToken));
    assert_eq!(parse_oauth_token(200, r#"{"access_token":"A","refresh_token":"B"}"#), malformed);
    assert_eq!(parse_oauth_token(200, r#"{"access_token":"A","expires_in":1}"#), malformed);
    assert_eq!(parse_oauth_token(200, r#"{"refresh_token":"B","expires_in":1}"#), malformed);
    assert_eq!(
        parse_oauth_token(200, r#"{"access_token":"A","refresh_token":"B","expires_in":-1}"#),
        malformed
    );
    assert_eq!(
        parse_oauth_token(200, r#"{"access_token":"A","refresh_token":"B","expires_in":"1"}"#),
        malformed
    );
    assert_eq!(
        parse_oauth_token(200, r#"{"access_token":7,"refresh_token":"B","expires_in":1}"#),
        malformed
    );
    assert_eq!(parse_oauth_token(200, "not json"), malformed);
    assert_eq!(parse_oauth_token(200, ""), malformed);
    assert_eq!(parse_oauth_token(200, r#"["access_token","refresh_token"]"#), malformed);
}

#[test]
fn token_from_members_needs_all_three() {
    let a = || Some("A".to_string());
    let b = || Some("B".to_string());
    assert_eq!(
        token_from_members(a(), b(), Some(5)),
        Some(OAuthToken { access_token: "A".to_string(), refresh_token: "B".to_string(), expires_in: 5 })
    );
    assert_eq!(token_from_members(None, b(), Some(5)), None);
    assert_eq!(token_from_members(a(), None, Some(5)), None);
    assert_eq!(token_from_members(a(), b(), None), None);
    assert_eq!(token_from_members(None, None, None), None);
}

#[test]
fn expiry_that_does_not_fit_is_refused() {
    let answer =
        OAuthToken { access_token: "A".to_string(), refresh_token: "B".to_string(), expires_in: 2 };
    assert_eq!(Token::from_oauth(answer.clone(), u64::MAX - 1), Err(TeslaError::SystemError));
    assert_eq!(Token::from_oauth(answer, u64::MAX - 2).unwrap().expires_ts, u64::MAX);
    assert_eq!(renewed_token(200, PAYLOAD, u64::MAX - 3599), Err(TeslaError::SystemError));
    assert_eq!(renewed_token(200, PAYLOAD, u64::MAX - 3600).unwrap().expires_ts, u64::MAX);
}

#[test]
fn renewal_hands_on_the_endpoints_refusal() {
    assert_eq!(
        renewed_token(401, "denied", 5),
        Err(TeslaError::AuthError(AuthFailure::Rejected("denied".to_string())))
    );
    assert_eq!(
        renewed_token(200, "{}", 5),
        Err(TeslaError::AuthError(AuthFailure::MalformedToken))
    );
}

#[test]
fn expires_in_days_rounds_down() {
    let t = |expires_in| OAuthToken {
        access_token: String::new(),
        refresh_token: String::new(),
        expires_in,
    };
    assert_eq!(t(0).expires_in_days(), 0);
    assert_eq!(t(86399).expires_in_days(), 0);
    assert_eq!(t(86400).expires_in_days(), 1);
    assert_eq!(t(3888000).expires_in_days(), 45);
}

#[test]
fn refresh_request_members() {
    assert_eq!(
        refresh_params("R1"),
        vec![
            pair_of("grant_type", "refresh_token"),
            pair_of("client_id", "ownerapi"),
            pair_of("scope", "openid email offline_access"),
            pair_of("refresh_token", "R1"),
        ]
    );
}

#[test]
fn exchange_request_members() {
    assert_eq!(
        exchange_params("CODE", "VERIFIER"),
        vec![
            pair_of("grant_type", "authorization_code"),
            pair_of("client_id", "ownerapi"),
            pair_of("code", "CODE"),
            pair_of("code_verifier", "VERIFIER"),
            pair_of("redirect_uri", "https://auth.tesla.com/void/callback"),
        ]
    );
}

#[test]
fn fresh_credential_passes_through() {
    let t = token(1000);
    assert!(!t.needs_refresh(999));
    assert_eq!(refresh_check(&t, 999), RefreshAction::PassThrough);
    assert_eq!(refresh_check(&t, 0), RefreshAction::PassThrough);
}

#[test]
fn stale_credential_is_exchanged() {
    let t = token(1000);
    assert!(t.needs_refresh(1000));
    assert!(t.needs_refresh(1001));
    assert_eq!(refresh_check(&t, 1000), RefreshAction::Exchange(refresh_params("R")));
    assert_eq!(refresh_check(&t, 5000), RefreshAction::Exchange(refresh_params("R")));
}

#[test]
fn second_check_after_a_renewal_does_nothing() {
    let now = 5000;
    let mut credential = token(1000);
    let mut exchanges = 0;
    for _ in 0..2 {
        match refresh_check(&credential, now) {
            RefreshAction::PassThrough => {}
            RefreshAction::Exchange(_) => {
                exchanges += 1;
                credential = renewed_token(200, PAYLOAD, now).unwrap();
            }
        }
    }
    assert_eq!(exchanges, 1);
    assert_eq!(credential.expires_ts, 8600);
    assert_eq!(credential.access_token, "A");
    assert_eq!(credential.refresh_token, "B");
}

#[test]
fn first_run_settings() {
    let c = Config::initial(token(42));
    assert_eq!(c.token, token(42));
    assert_eq!(c.global.default_vehicle, None);
    assert_eq!(c.global.default_vehicle_id, None);
    assert_eq!(c.global.logspec.as_deref(), Some("info"));
    assert_eq!(c.influx, None);
    assert_eq!(c.sqlite, None);
    assert_eq!(c.mqtt, None);
}

#[test]
fn debug_settings_text() {
    assert_eq!(
        debug_config(),
        "[global]\napi_token = \"abcdefghijklmnop1234567890\"\nlogspec = \"info\"\ndefault_vehicle = \"Test CAR\"\n"
    );
}

fn mqtt(username: Option<&str>, password: Option<&str>) -> MqttConfig {
    MqttConfig {
        host: "broker.example".to_string(),
        port: 1883,
        username: username.map(|s| s.to_string()),
        password: password.map(|s| s.to_string()),
        topic: "car".to_string(),
    }
}

#[test]
fn no_sink_without_settings() {
    assert_eq!(new_sink(config()), None);
}

#[test]
fn database_sink_comes_first() {
    let mut c = config();
    c.sqlite = Some(SqliteConfig { file: "car.db".to_string() });
    assert_eq!(new_sink(c.clone()), Some(Sink::Sqlite(SqliteConfig { file: "car.db".to_string() })));
    c.mqtt = Some(mqtt(None, None));
    assert_eq!(new_sink(c), Some(Sink::Sqlite(SqliteConfig { file: "car.db".to_string() })));
}

#[test]
fn broker_sink_where_no_database_is_set() {
    let mut c = config();
    c.mqtt = Some(mqtt(Some("u"), None));
    assert_eq!(new_sink(c), Some(Sink::Mqtt(mqtt(Some("u"), None))));
}

#[test]
fn broker_credentials_are_both_or_neither() {
    assert_eq!(mqtt(Some("u"), Some("p")).credentials(), Some(("u".to_string(), "p".to_string())));
    assert_eq!(mqtt(Some("u"), None).credentials(), None);
    assert_eq!(mqtt(None, Some("p")).credentials(), None);
    assert_eq!(mqtt(None, None).credentials(), None);
    assert_eq!(MQTT_KEEP_ALIVE, 10);
    assert_eq!(MQTT_QUEUE, 10);
}

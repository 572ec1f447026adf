//! Tests of the string tools, the extractor, the error mapping and the
//! configuration structures.

use polaris::config::{
    AppConfig, AuthConfig, DatabaseConfig, Environment, Format, Level, RsaJwtConfig, ServerConfig,
    TelemetryConfig,
};
use polaris::dto::{
    validate_role, BreedQuery, BreedResponse, BreedSummaryQuery, Gender, GenericResponse,
    HealthRecordsQuery, LoginResponse, OrganisationQuery, RegisterBreed, Subscription,
    UpdateBreed, UserQuery,
};
use polaris::errors::{json_message, AuthError};
use polaris::extract::{cookie_value, extract_bearer, parse_bearer};
use polaris::strutil::{eq_ignore_ascii_case, str_contains, trim, u64_to_string};

#[test]
fn str_trim_strips_ascii_whitespace() {
    assert_eq!(trim("  admin \t\r\n"), "admin");
    assert_eq!(trim("admin"), "admin");
    assert_eq!(trim("   "), "");
    assert_eq!(trim(""), "");
    assert_eq!(trim(" a b "), "a b");
}

#[test]
fn str_case_insensitive_equality() {
    assert!(eq_ignore_ascii_case("ADMIN", "admin"));
    assert!(eq_ignore_ascii_case("AdMiN", "aDmIn"));
    assert!(!eq_ignore_ascii_case("admin", "administrator"));
    assert!(!eq_ignore_ascii_case("admin", "admim"));
    assert!(eq_ignore_ascii_case("", ""));
}

#[test]
fn str_contains_finds_substrings() {
    assert!(str_contains("/api/v1/users/3", "users"));
    assert!(str_contains("users", "users"));
    assert!(!str_contains("/api/v1/user", "users"));
    assert!(!str_contains("use", "users"));
    assert!(str_contains("anything", ""));
}

#[test]
fn str_decimal_rendering_is_exact() {
    assert_eq!(u64_to_string(0), "0");
    assert_eq!(u64_to_string(7), "7");
    assert_eq!(u64_to_string(300), "300");
    assert_eq!(u64_to_string(65535), "65535");
    assert_eq!(u64_to_string(u64::MAX), "18446744073709551615");
}

#[test]
fn str_json_message_is_exact() {
    assert_eq!(json_message("Missing credentials"), "{\"message\":\"Missing credentials\"}");
    assert_eq!(json_message(""), "{\"message\":\"\"}");
}

#[test]
fn extract_parses_the_bearer_scheme() {
    assert_eq!(parse_bearer("Bearer abc.def.ghi"), Some("abc.def.ghi"));
    assert_eq!(parse_bearer("Bearer "), Some(""));
    assert_eq!(parse_bearer("Bearer"), None);
    assert_eq!(parse_bearer("bearer abc"), None);
    assert_eq!(parse_bearer("Token abc"), None);
    assert_eq!(parse_bearer(""), None);
}

#[test]
fn extract_prefers_the_header_and_falls_back_to_the_cookie() {
    assert_eq!(extract_bearer(Some("Bearer h-token"), Some("c-token")), Some("h-token"));
    assert_eq!(extract_bearer(Some("Bearer h-token"), None), Some("h-token"));
    assert_eq!(extract_bearer(None, Some("c-token")), Some("c-token"));
    assert_eq!(extract_bearer(Some("Basic zzz"), Some("c-token")), Some("c-token"));
    assert_eq!(extract_bearer(Some("Basic zzz"), None), None);
    assert_eq!(extract_bearer(None, None), None);
}

#[test]
fn extract_reads_the_named_cookie() {
    let header = "refreshToken=r.t.k; accessToken=a.t.k";
    assert_eq!(cookie_value(header, "accessToken"), Some("a.t.k"));
    assert_eq!(cookie_value(header, "refreshToken"), Some("r.t.k"));
    assert_eq!(cookie_value(header, "sessionId"), None);
    assert_eq!(cookie_value("accessToken = spaced ; x=y", "accessToken"), Some("spaced"));
    assert_eq!(cookie_value("a=1; a=2", "a"), Some("1"));
    assert_eq!(cookie_value("", "a"), None);
    assert_eq!(cookie_value("justnoise; a=2", "a"), Some("2"));
    assert_eq!(cookie_value("a=", "a"), Some(""));
}

#[test]
fn errors_map_to_fixed_status_and_message() {
    let cases = [
        (AuthError::MissingCredentials, 400, "Missing credentials"),
        (AuthError::InvalidToken, 400, "Invalid auth token"),
        (AuthError::ExpiredToken, 400, "Invalid auth token"),
        (AuthError::WrongCredentials, 401, "Wrong email or password"),
        (AuthError::Unauthorised, 401, "Login to continue."),
        (AuthError::Forbidden, 403, "You do not have permission"),
        (AuthError::InvalidSubscriptionType, 400, "Invalid subscription type"),
        (AuthError::Internal, 500, "Something went wrong on our end"),
    ];
    for (e, status, message) in cases {
        assert_eq!(e.status(), status);
        assert_eq!(e.message(), message);
        let r = e.response();
        assert_eq!(r.status, status);
        assert_eq!(r.body, format!("{{\"message\":\"{message}\"}}"));
    }
}

#[test]
fn config_server_url_and_address() {
    let s = ServerConfig::new("http", "127.0.0.1", 8080);
    assert_eq!(s.url(), "http://127.0.0.1:8080");
    assert_eq!(s.address(), "127.0.0.1:8080");
    let s = ServerConfig::new("https", "farm.example", 443);
    assert_eq!(s.url(), "https://farm.example:443");
    assert_eq!(s.address(), "farm.example:443");
}

#[test]
fn config_database_url_is_kept() {
    let db = DatabaseConfig::new("postgres://localhost/farm", 30, 600, 10, 1, true, false);
    assert_eq!(db.url(), "postgres://localhost/farm");
    assert_eq!(db.max_connections, 10);
    assert!(db.auto_migrate);
    assert!(!db.recreate);
}

#[test]
fn config_environment_names() {
    assert!(matches!(Environment::from_name("dev"), Environment::Development));
    assert!(matches!(Environment::from_name(" DEVELOPMENT "), Environment::Development));
    assert!(matches!(Environment::from_name("prod"), Environment::Production));
    assert!(matches!(Environment::from_name("Production"), Environment::Production));
    assert!(matches!(Environment::from_name("test"), Environment::Testing));
    assert!(matches!(Environment::from_name("testing"), Environment::Testing));
    match Environment::from_name("  local ") {
        Environment::Other(o) => assert_eq!(o, "local"),
        other => panic!("expected the name to be kept, got {other:?}"),
    }
    assert_eq!(Environment::Development.name(), "development");
    assert_eq!(Environment::Production.name(), "production");
    assert_eq!(Environment::Testing.name(), "testing");
    assert_eq!(Environment::Other("local".to_string()).name(), "local");
}

#[test]
fn config_format_and_level_names() {
    assert_eq!(Format::Compact.name(), "compact");
    assert_eq!(Format::Full.name(), "full");
    assert_eq!(Format::Json.name(), "json");
    assert_eq!(Format::Pretty.name(), "pretty");
    assert_eq!(Level::Debug.name(), "debug");
    assert_eq!(Level::Error.name(), "error");
    assert_eq!(Level::Info.name(), "info");
    assert_eq!(Level::Off.name(), "off");
    assert_eq!(Level::Trace.name(), "trace");
    assert_eq!(Level::Warn.name(), "warn");
}

#[test]
fn config_getters_hand_the_parts_back() {
    let config = AppConfig::new(
        ServerConfig::new("http", "0.0.0.0", 3000),
        TelemetryConfig::new(Format::Compact, Level::Info, vec!["sqlx=warn".to_string()]),
        DatabaseConfig::new("postgres://localhost/farm", 30, 600, 10, 1, false, false),
        AuthConfig::new(
            RsaJwtConfig::new("keys/access.pem", "keys/access.pub", 900),
            RsaJwtConfig::new("keys/refresh.pem", "keys/refresh.pub", 604800),
        ),
    );
    assert_eq!(config.server().port, 3000);
    assert_eq!(config.logger().directives.len(), 1);
    assert_eq!(config.database().url(), "postgres://localhost/farm");
    assert_eq!(config.auth().access().max_age, 900);
    assert_eq!(config.auth().refresh().max_age, 604800);
    assert_eq!(config.auth().access().private_key, "keys/access.pem");
}

#[test]
fn dto_breed_builders_fill_their_field() {
    let b = RegisterBreed::new("cattle", "boran")
        .male_weight_range("500-850 kg")
        .female_weight_range("380-450 kg")
        .gestation_period("283 days")
        .description("A hardy zebu breed kept across East Africa for beef.");
    assert_eq!(b.specie(), "cattle");
    assert_eq!(b.name, "boran");
    assert_eq!(b.typical_male_weight_range.as_deref(), Some("500-850 kg"));
    assert_eq!(b.typical_female_weight_range.as_deref(), Some("380-450 kg"));
    assert_eq!(b.typical_gestation_period.as_deref(), Some("283 days"));
    assert!(b.description.is_some());
    let u = UpdateBreed::default()
        .specie("goats")
        .name("galla")
        .description("A dairy goat line.")
        .male_weight_range("70 kg")
        .female_weight_range("45 kg")
        .gestation_period("150 days");
    assert_eq!(u.specie.as_deref(), Some("goats"));
    assert_eq!(u.name.as_deref(), Some("galla"));
    assert_eq!(u.typical_gestation_period.as_deref(), Some("150 days"));
}

#[test]
fn dto_gender_parses_case_insensitively() {
    assert_eq!(Gender::parse("male"), Some(Gender::Male));
    assert_eq!(Gender::parse(" FEMALE "), Some(Gender::Female));
    assert_eq!(Gender::parse("Male"), Some(Gender::Male));
    assert_eq!(Gender::parse("unknown"), None);
    assert_eq!(Gender::Male.name(), "male");
    assert_eq!(Gender::Female.name(), "female");
}

#[test]
fn dto_subscription_names_and_fallback() {
    assert_eq!(Subscription::from_name("business"), Subscription::Business);
    assert_eq!(Subscription::from_name(" Enterprise "), Subscription::Enterprise);
    assert_eq!(Subscription::from_name("anything else"), Subscription::Basic);
    assert_eq!(Subscription::parse("basic"), Ok(Subscription::Basic));
    assert_eq!(Subscription::parse("BUSINESS"), Ok(Subscription::Business));
    assert_eq!(Subscription::parse("gold"), Err(AuthError::InvalidSubscriptionType));
    assert_eq!(Subscription::Enterprise.name(), "enterprise");
}

#[test]
fn dto_role_names_an_admin_may_hand_out() {
    assert!(validate_role("admin"));
    assert!(validate_role(" Manager "));
    assert!(validate_role("STAFF"));
    assert!(!validate_role("owner"));
    assert!(!validate_role(""));
}

#[test]
fn dto_queries_and_views() {
    let q = OrganisationQuery::new(Subscription::Business);
    assert_eq!(q.subscription, Some(Subscription::Business));
    let u = UserQuery::new(Some("staff".to_string()), Some(true));
    assert_eq!(u.role.as_deref(), Some("staff"));
    assert_eq!(u.active, Some(true));
    let g = GenericResponse::new("Server is up and running");
    assert_eq!(g.message, "Server is up and running");
    let l = LoginResponse::new("pid-1", "jane@example.com", "Jane", "Doe", "01-01-2024 10:00:00");
    assert_eq!(l.name, "Jane Doe");
    assert_eq!(l.email, "jane@example.com");
    let h = HealthRecordsQuery::new(Some("pid-2"), None);
    assert_eq!(h.animal.as_deref(), Some("pid-2"));
    assert_eq!(h.record_type, None);
    let b = BreedQuery { specie: Some("cattle".to_string()), name: None };
    assert_eq!(b.specie.as_deref(), Some("cattle"));
    let s = BreedSummaryQuery::default();
    assert!(s.specie.is_none() && s.breed.is_none());
    let view = BreedResponse {
        id: 4,
        organisation_pid: None,
        specie: "cattle".to_string(),
        name: "boran".to_string(),
        male_weight_range: None,
        female_weight_range: None,
        gestation_period: None,
        description: None,
        created_at: "01-01-2024 10:00".to_string(),
        is_system_defined: true,
    };
    assert!(view.is_system_defined);
    assert_eq!(view.name, "boran");
}

use cascade_router::config::{
    Account, Auth, CheckReforwardTickTime, Config, Http, Log, PublishLeaveTimeout, Reforward,
    ReforwardCheckFrequency, StorageModel,
};

#[test]
fn account_renders_as_basic_authorization() {
    let account = Account { username: "user".to_string(), password: "pass".to_string() };
    assert_eq!(account.to_authorization(), "Basic dXNlcjpwYXNz");
}

#[test]
fn account_with_empty_credentials_still_encodes_the_colon() {
    let account = Account { username: String::new(), password: String::new() };
    assert_eq!(account.to_authorization(), "Basic Og==");
}

#[test]
fn authorizations_list_accounts_first_then_tokens() {
    let auth = Auth {
        accounts: vec![Account { username: "user".to_string(), password: "pass".to_string() }],
        tokens: vec!["tok123".to_string(), "tok456".to_string()],
    };
    let values = auth.to_authorizations();
    assert_eq!(
        values,
        vec![
            "Basic dXNlcjpwYXNz".to_string(),
            "Bearer tok123".to_string(),
            "Bearer tok456".to_string(),
        ]
    );
}

#[test]
fn empty_auth_yields_no_authorizations() {
    let auth = Auth { accounts: vec![], tokens: vec![] };
    assert!(auth.to_authorizations().is_empty());
}

#[test]
fn http_default_listens_on_port_8080_without_cors() {
    let http = Http::default();
    assert_eq!(http.listen, "0.0.0.0:8080");
    assert!(!http.cors);
}

#[test]
fn log_default_level_is_info() {
    assert_eq!(Log::default().level, "info");
}

#[test]
fn publish_leave_timeout_default_is_15_seconds() {
    assert_eq!(PublishLeaveTimeout::default().0, 15000);
}

#[test]
fn storage_default_is_local_redis() {
    let StorageModel::RedisStandalone { addr } = StorageModel::default();
    assert_eq!(addr, "redis://127.0.0.1:6379");
}

#[test]
fn reforward_defaults() {
    let reforward = Reforward::default();
    assert_eq!(reforward.reforward_check_frequency.0, 5);
    assert_eq!(reforward.check_reforward_tick_time.0, 3000);
    assert_eq!(ReforwardCheckFrequency::default().0, 5);
    assert_eq!(CheckReforwardTickTime::default().0, 3000);
}

#[test]
fn config_default_composes_the_section_defaults() {
    let config = Config::default();
    assert_eq!(config.http.listen, "0.0.0.0:8080");
    assert!(config.auth.accounts.is_empty());
    assert!(config.auth.tokens.is_empty());
    assert_eq!(config.log.level, "info");
    let StorageModel::RedisStandalone { addr } = config.storage;
    assert_eq!(addr, "redis://127.0.0.1:6379");
    assert_eq!(config.reforward.reforward_check_frequency.0, 5);
}

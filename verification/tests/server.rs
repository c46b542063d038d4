use wordbook::server::{
    CorsPolicy, ServerConfig, Startup, StartupAction, StartupError,
};

fn run(outcomes: &[bool]) -> Startup {
    let mut state = Startup::begin();
    for outcome in outcomes {
        state = state.advance(*outcome);
    }
    state
}

#[test]
fn default_settings() {
    let config = ServerConfig::default();
    assert_eq!(config.database_path, "wordbook.db");
    assert_eq!(config.max_connections, 5);
    assert_eq!(config.bind_address, "127.0.0.1");
    assert_eq!(config.bind_port, 8080);
    assert_eq!(config.cors, CorsPolicy::default());
}

#[test]
fn default_cross_origin_policy() {
    let policy = CorsPolicy::default();
    assert_eq!(policy.allowed_origin, "http://localhost:3000");
    assert_eq!(policy.allowed_methods, vec!["GET".to_string(), "POST".to_string()]);
    assert_eq!(
        policy.allowed_headers,
        vec![
            "authorization".to_string(),
            "accept".to_string(),
            "content-type".to_string(),
            "origin".to_string(),
        ]
    );
    assert_eq!(policy.max_age, 3000);
}

#[test]
fn startup_opens_the_pool_then_binds_then_serves() {
    let state = Startup::begin();
    assert_eq!(state.action(), StartupAction::OpenPool);
    let state = state.advance(true);
    assert_eq!(state, Startup::Binding);
    assert_eq!(state.action(), StartupAction::Bind);
    let state = state.advance(true);
    assert_eq!(state, Startup::Serving);
    assert_eq!(state.action(), StartupAction::Serve);
}

#[test]
fn pool_failure_is_fatal() {
    let state = Startup::begin().advance(false);
    assert_eq!(state, Startup::Failed(StartupError::PoolOpen));
    assert_eq!(state.action(), StartupAction::Abort(StartupError::PoolOpen));
    assert_eq!(run(&[false, true, true]), Startup::Failed(StartupError::PoolOpen));
}

#[test]
fn bind_failure_is_fatal() {
    let state = run(&[true, false]);
    assert_eq!(state, Startup::Failed(StartupError::Bind));
    assert_eq!(state.action(), StartupAction::Abort(StartupError::Bind));
    assert_eq!(run(&[true, false, true, true]), Startup::Failed(StartupError::Bind));
}

#[test]
fn serving_is_final() {
    assert_eq!(run(&[true, true, false]), Startup::Serving);
    assert_eq!(run(&[true, true, true]), Startup::Serving);
}

use tristate_bridge::config::ConnectionConfig;
use tristate_bridge::session::{
    session_options, subscription_filter, SessionRole, KEEP_ALIVE_SECS, MIN_KEEP_ALIVE_SECS,
    REQUEST_CAPACITY, SECURE_PORT,
};

fn broker() -> ConnectionConfig {
    ConnectionConfig {
        host: "broker.example".to_string(),
        user: "bridge".to_string(),
        password: "hunter2".to_string(),
    }
}

#[test]
fn source_session_settings() {
    let options = session_options(SessionRole::Source, &broker());
    assert_eq!(options.client_id, "source");
    assert_eq!(options.host, "broker.example");
    assert_eq!(options.port, 8883);
    assert_eq!(options.keep_alive_secs, 5);
    assert_eq!(options.user, "bridge");
    assert_eq!(options.password, "hunter2");
    assert_eq!(options.request_capacity, 64);
}

#[test]
fn target_session_settings() {
    let options = session_options(SessionRole::Target, &broker());
    assert_eq!(options.client_id, "target");
    assert_eq!(options.host, "broker.example");
    assert_eq!(options.port, 8883);
    assert_eq!(options.keep_alive_secs, 5);
    assert_eq!(options.user, "bridge");
    assert_eq!(options.password, "hunter2");
    assert_eq!(options.request_capacity, 64);
}

#[test]
fn session_constants() {
    assert_eq!(SECURE_PORT, 8883);
    assert_eq!(KEEP_ALIVE_SECS, 5);
    assert_eq!(REQUEST_CAPACITY, 64);
    assert!(KEEP_ALIVE_SECS >= MIN_KEEP_ALIVE_SECS);
}

#[test]
fn session_settings_are_acceptable() {
    for role in [SessionRole::Source, SessionRole::Target].iter() {
        let options = session_options(*role, &broker());
        assert!(!options.client_id.is_empty());
        assert!(!options.client_id.starts_with(' '));
        assert!(options.keep_alive_secs >= MIN_KEEP_ALIVE_SECS);
    }
}

#[test]
fn filter_is_prefix_and_wildcard() {
    assert_eq!(subscription_filter("home/"), "home/#");
    assert_eq!(subscription_filter(""), "#");
    assert_eq!(subscription_filter("gbridge/u1/"), "gbridge/u1/#");
    assert_eq!(subscription_filter("küche/"), "küche/#");
    assert_eq!(subscription_filter("a"), "a#");
}

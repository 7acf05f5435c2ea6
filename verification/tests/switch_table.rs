use tristate_bridge::config::SwitchConfig;
use tristate_bridge::table::prepare_switch_configs;

fn switch(name: &str, on: &str, off: &str) -> SwitchConfig {
    SwitchConfig { name: name.to_string(), on: on.to_string(), off: off.to_string() }
}

const SAMPLE_CONFIG: &str = r#"
statsd_host = "127.0.0.1:8125"
sentry_host = "https://key@sentry.example/1"
source_topic_prefix = "gbridge/u1/"
target_topic = "rf/send"

[source]
host = "source.example"
user = "reader"
password = "SECRET-REDACTED"

[target]
host = "target.example"
user = "writer"
password = "SECRET-REDACTED"

[[switches]]
name = "d2777"
on = "FFFFFFFF0001"
off = "FFFFFFFF0010"

[[switches]]
name = "d2778"
on = "FFFFFF0F0001"
off = "FFFFF0FF0010"
"#;

fn switches_of(config: &toml::Value) -> Vec<SwitchConfig> {
    let mut switches = Vec::new();
    for entry in config.get("switches").and_then(toml::Value::as_array).expect("switches") {
        let field = |key: &str| entry.get(key).and_then(toml::Value::as_str).expect("text");
        switches.push(switch(field("name"), field("on"), field("off")));
    }
    switches
}

#[test]
fn test_prepare_zap_configs() {
    let config: toml::Value = SAMPLE_CONFIG.parse().expect("Invalid sample config");

    let actual = prepare_switch_configs(switches_of(&config));

    assert_eq!(actual.len(), 2);
    assert_eq!(
        actual.get("d2777"),
        Some(&SwitchConfig {
            name: "d2777".to_string(),
            on: "FFFFFFFF0001".to_string(),
            off: "FFFFFFFF0010".to_string(),
        })
    );
    assert_eq!(
        actual.get("d2778"),
        Some(&SwitchConfig {
            name: "d2778".to_string(),
            on: "FFFFFF0F0001".to_string(),
            off: "FFFFF0FF0010".to_string(),
        })
    );
}

#[test]
fn empty_sequence_gives_empty_table() {
    let table = prepare_switch_configs(Vec::new());
    assert_eq!(table.len(), 0);
    assert_eq!(table.get("d2777"), None);
    assert_eq!(table.get(""), None);
}

#[test]
fn later_switch_of_same_name_wins() {
    let table = prepare_switch_configs(vec![
        switch("lamp", "ON-A", "OFF-A"),
        switch("fan", "ON-F", "OFF-F"),
        switch("lamp", "ON-B", "OFF-B"),
    ]);
    assert_eq!(table.len(), 2);
    assert_eq!(table.get("lamp"), Some(&switch("lamp", "ON-B", "OFF-B")));
    assert_eq!(table.get("fan"), Some(&switch("fan", "ON-F", "OFF-F")));
}

#[test]
fn distinct_names_are_all_kept() {
    let names = ["a", "b", "c", "d", "e"];
    let mut switches = Vec::new();
    for name in names.iter() {
        switches.push(switch(name, &format!("{}-on", name), &format!("{}-off", name)));
    }
    let table = prepare_switch_configs(switches);
    assert_eq!(table.len(), names.len());
    for name in names.iter() {
        let found = table.get(name).expect("every switch is found under its name");
        assert_eq!(found.name, *name);
        assert_eq!(found.on, format!("{}-on", name));
        assert_eq!(found.off, format!("{}-off", name));
    }
}

#[test]
fn lookup_is_exact() {
    let table = prepare_switch_configs(vec![switch("d2777", "1", "0")]);
    assert_eq!(table.get("D2777"), None);
    assert_eq!(table.get("d2777 "), None);
    assert_eq!(table.get("d277"), None);
    assert!(table.get("d2777").is_some());
}

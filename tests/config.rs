use pulse::{Config, MonitorConfig, PulseError};

fn monitor(name: &str, command: &str, interval: u64, webhook: &str) -> MonitorConfig {
    MonitorConfig {
        name: name.to_string(),
        command: command.to_string(),
        interval,
        webhook: webhook.to_string(),
    }
}

fn config_message(r: Result<(), PulseError>) -> String {
    match r {
        Err(PulseError::Config(m)) => m,
        _ => panic!("expected a configuration error"),
    }
}

#[test]
fn test_validate_empty_monitors() {
    let config = Config { monitors: vec![] };

    assert!(config.validate().is_err());
}

#[test]
fn test_validate_invalid_interval() {
    let config = Config {
        monitors: vec![MonitorConfig {
            name: "test".to_string(),
            command: "echo test".to_string(),
            interval: 0,
            webhook: "https://example.com".to_string(),
        }],
    };

    assert!(config.validate().is_err());
}

#[test]
fn validate_accepts_good_monitors() {
    let config = Config {
        monitors: vec![
            monitor("a", "echo a", 2, "https://example.com/a"),
            monitor("b", "date", 5, "https://example.com/b"),
        ],
    };
    assert!(config.validate().is_ok());
}

#[test]
fn validate_empty_list_message() {
    let config = Config { monitors: vec![] };
    assert_eq!(config_message(config.validate()), "No monitors defined in configuration");
}

#[test]
fn validate_names_position_of_nameless_monitor() {
    let config = Config {
        monitors: vec![
            monitor("a", "echo a", 2, "https://example.com"),
            monitor("", "echo b", 2, "https://example.com"),
        ],
    };
    assert_eq!(config_message(config.validate()), "Monitor 1 has empty name");
}

#[test]
fn validate_reports_empty_command() {
    let config = Config { monitors: vec![monitor("disk", "", 2, "https://example.com")] };
    assert_eq!(config_message(config.validate()), "Monitor 'disk' has empty command");
}

#[test]
fn validate_reports_empty_webhook() {
    let config = Config { monitors: vec![monitor("disk", "df -h", 2, "")] };
    assert_eq!(config_message(config.validate()), "Monitor 'disk' has empty webhook URL");
}

#[test]
fn validate_reports_zero_interval_message() {
    let config = Config { monitors: vec![monitor("disk", "df -h", 0, "https://example.com")] };
    assert_eq!(
        config_message(config.validate()),
        "Monitor 'disk' has invalid interval (must be > 0)"
    );
}

#[test]
fn validate_reports_first_problem_only() {
    let config = Config {
        monitors: vec![
            monitor("x", "", 0, ""),
            monitor("", "", 0, ""),
        ],
    };
    assert_eq!(config_message(config.validate()), "Monitor 'x' has empty command");
}

#[test]
fn error_message_has_kind_and_detail() {
    let e = PulseError::Config("bad".to_string());
    assert_eq!(e.message(), "Configuration error: bad");
    let e = PulseError::CommandExecution("Empty command".to_string());
    assert_eq!(e.message(), "Failed to execute command: Empty command");
    let e = PulseError::DiscordWebhook("HTTP 500".to_string());
    assert_eq!(e.message(), "Failed to send Discord webhook: HTTP 500");
}

#[test]
fn monitor_config_clone_keeps_fields() {
    let m = monitor("a", "echo a", 3, "https://example.com");
    let c = m.clone();
    assert_eq!(c.name, "a");
    assert_eq!(c.command, "echo a");
    assert_eq!(c.interval, 3);
    assert_eq!(c.webhook, "https://example.com");
}

use pulse::discord::{truncate_output, webhook_outcome};
use pulse::types::DiscordMessage;
use pulse::PulseError;

#[test]
fn short_output_is_kept_whole() {
    assert_eq!(truncate_output("hello"), "hello");
    let exact = "a".repeat(4000);
    assert_eq!(truncate_output(&exact), exact);
    assert_eq!(truncate_output(""), "");
}

#[test]
fn long_output_is_cut_at_four_thousand_chars() {
    let long = "a".repeat(4001);
    let t = truncate_output(&long);
    assert_eq!(t, format!("{}...\n(truncated)", "a".repeat(4000)));
    assert_eq!(t.chars().count(), 4000 + "...\n(truncated)".chars().count());
}

#[test]
fn truncation_counts_characters_not_bytes() {
    let long = "\u{e9}".repeat(4500);
    let t = truncate_output(&long);
    assert_eq!(t, format!("{}...\n(truncated)", "\u{e9}".repeat(4000)));
}

#[test]
fn plain_message_has_no_embeds() {
    let m = DiscordMessage::plain("hi");
    assert_eq!(m.content, "hi");
    assert!(m.embeds.is_none());
}

#[test]
fn started_message_names_monitor() {
    let m = DiscordMessage::started("disk");
    assert_eq!(m.content, "\u{2705} Monitor 'disk' started");
    assert!(m.embeds.is_none());
}

#[test]
fn change_message_layout() {
    let m = DiscordMessage::change("disk", "42% used");
    assert_eq!(m.content, "\u{1F514} **Change detected in disk**");
    let embeds = m.embeds.unwrap();
    assert_eq!(embeds.len(), 1);
    assert_eq!(embeds[0].title.as_deref(), Some("\u{1F4CA} Monitor: disk"));
    assert!(embeds[0].description.is_none());
    assert_eq!(embeds[0].color, Some(0x5865F2));
    let fields = embeds[0].fields.as_ref().unwrap();
    assert_eq!(fields.len(), 1);
    assert_eq!(fields[0].name, "Output");
    assert_eq!(fields[0].value, "42% used");
    assert_eq!(fields[0].inline, Some(false));
}

#[test]
fn change_message_truncates_output() {
    let m = DiscordMessage::change("big", &"x".repeat(5000));
    let embeds = m.embeds.unwrap();
    let value = &embeds[0].fields.as_ref().unwrap()[0].value;
    assert_eq!(*value, format!("{}...\n(truncated)", "x".repeat(4000)));
}

#[test]
fn success_statuses_are_ok() {
    assert!(webhook_outcome(200, "OK", "").is_ok());
    assert!(webhook_outcome(204, "No Content", "").is_ok());
    assert!(webhook_outcome(299, "", "").is_ok());
}

#[test]
fn server_error_status_is_webhook_error() {
    match webhook_outcome(500, "Internal Server Error", "oops") {
        Err(PulseError::DiscordWebhook(m)) => assert_eq!(m, "HTTP 500 Internal Server Error: oops"),
        _ => panic!("expected a webhook error"),
    }
    assert!(webhook_outcome(199, "", "").is_err());
    assert!(webhook_outcome(300, "Multiple Choices", "").is_err());
    assert!(webhook_outcome(404, "Not Found", "").is_err());
}

use vstd::prelude::*;

verus! {

/// Configuration for a single monitor.
#[derive(Debug)]
pub struct MonitorConfig {
    /// Name/identifier for this monitor.
    pub name: String,
    /// Command to execute.
    pub command: String,
    /// Interval in seconds between executions.
    pub interval: u64,
    /// Webhook URL that notifications go to.
    pub webhook: String,
}

/// Webhook message payload: a line of text and, optionally, embeds.
#[derive(Debug)]
pub struct DiscordMessage {
    pub content: String,
    pub embeds: Option<Vec<DiscordEmbed>>,
}

/// A rich attachment of a message.
#[derive(Debug)]
pub struct DiscordEmbed {
    pub title: Option<String>,
    pub description: Option<String>,
    pub color: Option<u32>,
    pub fields: Option<Vec<EmbedField>>,
}

/// A named field of an embed.
#[derive(Debug)]
pub struct EmbedField {
    pub name: String,
    pub value: String,
    pub inline: Option<bool>,
}

impl Clone for MonitorConfig {
    fn clone(&self) -> (r: Self)
        ensures
            r == *self,
    {
        MonitorConfig {
            name: self.name.clone(),
            command: self.command.clone(),
            interval: self.interval,
            webhook: self.webhook.clone(),
        }
    }
}

} // verus!

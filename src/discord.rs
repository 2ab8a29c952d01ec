use vstd::prelude::*;

use crate::error::PulseError;
use crate::text::{decimal, format_u64};
use crate::types::{DiscordEmbed, DiscordMessage, EmbedField};

verus! {

/// The most characters of command output that a change notification carries.
pub const MAX_OUTPUT_CHARS: usize = 4000;

/// The colour of change notifications (the webhook service's blurple).
pub const EMBED_COLOR: u32 = 0x5865F2;

/// What follows the kept characters of an output that was cut short.
pub open spec fn truncation_marker() -> Seq<char> {
    "...\n(truncated)"@
}

/// The output as a notification carries it: whole when it has at most
/// `MAX_OUTPUT_CHARS` characters, else its first `MAX_OUTPUT_CHARS`
/// characters followed by the truncation marker.
pub open spec fn truncated(output: Seq<char>) -> Seq<char> {
    if output.len() > MAX_OUTPUT_CHARS {
        output.subrange(0, MAX_OUTPUT_CHARS as int) + truncation_marker()
    } else {
        output
    }
}

/// Cuts `output` down to what a notification carries.
pub fn truncate_output(output: &str) -> (r: String)
    ensures
        r@ == truncated(output@),
{
    if output.unicode_len() > MAX_OUTPUT_CHARS {
        let mut r = String::from_str(output.substring_char(0, MAX_OUTPUT_CHARS));
        r.append("...\n(truncated)");
        r
    } else {
        String::from_str(output)
    }
}

/// A truncated output keeps exactly the first `MAX_OUTPUT_CHARS` characters
/// of a longer output, then the marker, and is never longer than both
/// together; a shorter output is kept whole.
pub proof fn lemma_truncation(output: Seq<char>)
    ensures
        output.len() > MAX_OUTPUT_CHARS ==> {
            &&& truncated(output).subrange(0, MAX_OUTPUT_CHARS as int) == output.subrange(
                0,
                MAX_OUTPUT_CHARS as int,
            )
            &&& truncated(output).subrange(MAX_OUTPUT_CHARS as int, truncated(output).len() as int)
                == truncation_marker()
        },
        output.len() <= MAX_OUTPUT_CHARS ==> truncated(output) == output,
        truncated(output).len() <= MAX_OUTPUT_CHARS + truncation_marker().len(),
{
    if output.len() > MAX_OUTPUT_CHARS {
        let t = truncated(output);
        assert(t.subrange(0, MAX_OUTPUT_CHARS as int) =~= output.subrange(0, MAX_OUTPUT_CHARS as int));
        assert(t.subrange(MAX_OUTPUT_CHARS as int, t.len() as int) =~= truncation_marker());
    }
}

/// The text of the message that announces that monitor `name` has started.
pub open spec fn started_text(name: Seq<char>) -> Seq<char> {
    "\u{2705} Monitor '"@ + name + "' started"@
}

/// A message with text only and no embeds.
pub open spec fn is_plain_message(m: DiscordMessage, content: Seq<char>) -> bool {
    m.content@ == content && m.embeds is None
}

/// The message that reports a change of monitor `name`'s output: a line
/// naming the monitor, and one embed with a title naming it, the fixed
/// colour, and one field "Output" that holds the truncated output.
pub open spec fn is_change_message(m: DiscordMessage, name: Seq<char>, output: Seq<char>) -> bool {
    &&& m.content@ == "\u{1F514} **Change detected in "@ + name + "**"@
    &&& m.embeds matches Some(embeds)
    &&& embeds@.len() == 1
    &&& embeds@[0].title matches Some(title)
    &&& title@ == "\u{1F4CA} Monitor: "@ + name
    &&& embeds@[0].description is None
    &&& embeds@[0].color == Some(EMBED_COLOR)
    &&& embeds@[0].fields matches Some(fields)
    &&& fields@.len() == 1
    &&& fields@[0].name@ == "Output"@
    &&& fields@[0].value@ == truncated(output)
    &&& fields@[0].inline == Some(false)
}

/// Whether an HTTP status code reports success (the 2xx range).
pub open spec fn is_success_status(status: u16) -> bool {
    200 <= status && status < 300
}

/// The detail of the error for a failed post: the status code and its
/// reason phrase, then the response body.
pub open spec fn webhook_failure_text(status: u16, reason: Seq<char>, body: Seq<char>) -> Seq<
    char,
> {
    "HTTP "@ + decimal(status as nat) + " "@ + reason + ": "@ + body
}

/// The outcome of posting to a webhook, from the response's status code,
/// the status's reason phrase and the response body: success for a 2xx
/// status, else a webhook error that carries status and body.
pub fn webhook_outcome(status: u16, reason: &str, body: &str) -> (r: Result<(), PulseError>)
    ensures
        r is Ok <==> is_success_status(status),
        r matches Err(e) ==> (e matches PulseError::DiscordWebhook(m) && m@
            == webhook_failure_text(status, reason@, body@)),
{
    if 200 <= status && status < 300 {
        Ok(())
    } else {
        let mut m = String::from_str("HTTP ");
        let code = format_u64(status as u64);
        m.append(code.as_str());
        m.append(" ");
        m.append(reason);
        m.append(": ");
        m.append(body);
        Err(PulseError::DiscordWebhook(m))
    }
}

impl DiscordMessage {
    /// A plain message holding `content`.
    pub fn plain(content: &str) -> (r: DiscordMessage)
        ensures
            is_plain_message(r, content@),
    {
        DiscordMessage { content: String::from_str(content), embeds: None }
    }

    /// The message that announces that monitor `name` has started.
    pub fn started(name: &str) -> (r: DiscordMessage)
        ensures
            is_plain_message(r, started_text(name@)),
    {
        let mut text = String::from_str("\u{2705} Monitor '");
        text.append(name);
        text.append("' started");
        DiscordMessage { content: text, embeds: None }
    }

    /// The message that reports new output of monitor `name`.
    pub fn change(name: &str, output: &str) -> (r: DiscordMessage)
        ensures
            is_change_message(r, name@, output@),
    {
        let mut title = String::from_str("\u{1F4CA} Monitor: ");
        title.append(name);
        let field = EmbedField {
            name: String::from_str("Output"),
            value: truncate_output(output),
            inline: Some(false),
        };
        let mut fields: Vec<EmbedField> = Vec::new();
        fields.push(field);
        let embed = DiscordEmbed {
            title: Some(title),
            description: None,
            color: Some(EMBED_COLOR),
            fields: Some(fields),
        };
        let mut embeds: Vec<DiscordEmbed> = Vec::new();
        embeds.push(embed);
        let mut content = String::from_str("\u{1F514} **Change detected in ");
        content.append(name);
        content.append("**");
        DiscordMessage { content, embeds: Some(embeds) }
    }
}

} // verus!

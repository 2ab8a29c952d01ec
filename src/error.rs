use vstd::prelude::*;

verus! {

/// What can go wrong while loading, running a command or notifying.
#[derive(Debug)]
pub enum PulseError {
    /// A command could not be run (or was empty).
    CommandExecution(String),
    /// The webhook answered with a failure status.
    DiscordWebhook(String),
    /// The configuration is invalid.
    Config(String),
    /// Reading a file failed; the text of the failure.
    Io(String),
    /// The HTTP transport failed; the text of the failure.
    Http(String),
    /// The configuration file is not valid TOML; the text of the failure.
    TomlParse(String),
    /// A JSON body could not be made; the text of the failure.
    Json(String),
}

/// The text before the detail in the message of each kind of error.
pub open spec fn error_prefix(e: PulseError) -> Seq<char> {
    match e {
        PulseError::CommandExecution(_) => "Failed to execute command: "@,
        PulseError::DiscordWebhook(_) => "Failed to send Discord webhook: "@,
        PulseError::Config(_) => "Configuration error: "@,
        PulseError::Io(_) => "IO error: "@,
        PulseError::Http(_) => "HTTP error: "@,
        PulseError::TomlParse(_) => "TOML parsing error: "@,
        PulseError::Json(_) => "JSON error: "@,
    }
}

/// The detail that an error carries.
pub open spec fn error_detail(e: PulseError) -> Seq<char> {
    match e {
        PulseError::CommandExecution(s) => s@,
        PulseError::DiscordWebhook(s) => s@,
        PulseError::Config(s) => s@,
        PulseError::Io(s) => s@,
        PulseError::Http(s) => s@,
        PulseError::TomlParse(s) => s@,
        PulseError::Json(s) => s@,
    }
}

impl PulseError {
    /// The human-readable message of this error: its kind, then its detail.
    pub fn message(&self) -> (r: String)
        ensures
            r@ == error_prefix(*self) + error_detail(*self),
    {
        let (prefix, detail) = match self {
            PulseError::CommandExecution(s) => ("Failed to execute command: ", s),
            PulseError::DiscordWebhook(s) => ("Failed to send Discord webhook: ", s),
            PulseError::Config(s) => ("Configuration error: ", s),
            PulseError::Io(s) => ("IO error: ", s),
            PulseError::Http(s) => ("HTTP error: ", s),
            PulseError::TomlParse(s) => ("TOML parsing error: ", s),
            PulseError::Json(s) => ("JSON error: ", s),
        };
        let mut r = String::from_str(prefix);
        r.append(detail.as_str());
        r
    }
}

} // verus!

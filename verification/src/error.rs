//! The error vocabulary shared by every command, and the friendly rendering
//! of each failure. Errors coming back from the remote service's client are
//! modelled as plain values (`SdkError`), so that the rendering rules can be
//! stated exactly: `format_friendly` returns, for every variant, precisely
//! the text given by `friendly_text`.

use vstd::prelude::*;

verus! {

/// The class of an error reported by the remote API.
#[derive(Debug, Clone, Copy, PartialEq, Eq, Structural)]
pub enum SdkErrorKind {
    Validation,
    Unauthorized,
    NotFound,
    RateLimit,
    Internal,
    Cancelled,
    Timeout,
    Network,
    Unknown,
}

/// A failure of the remote service's client, as plain values.
#[derive(Debug)]
pub enum SdkError {
    /// The API answered with an error body.
    Api { kind: SdkErrorKind, message: String, status: u16 },
    /// A request was rejected before it was sent.
    Validation(String),
    /// The HTTP transport failed; the flags say how.
    Http { timeout: bool, connect: bool, message: String },
    /// The API key environment variable was not set.
    EnvVarNotSet(String),
    /// Every retry attempt failed.
    RetriesExhausted(String),
    /// The request timed out client-side.
    Timeout,
    /// Any other client failure, rendered as text.
    Other(String),
}

/// A configuration-file failure, as plain values.
#[derive(Debug)]
pub enum ConfigError {
    NoConfigDir,
    ReadError(String),
    ParseError(String),
    SerializeError(String),
}

/// Everything a command can fail with.
#[derive(Debug)]
pub enum CliError {
    Sdk(SdkError),
    Config(ConfigError),
    NoApiKey,
    InvalidUrl(String),
    FileNotFound(String),
    FileReadError(String),
    FileWriteError(String),
    DisplayError(String),
    ClipboardError(String),
    Other(String),
}

/// The one-line rendering of a configuration failure.
pub open spec fn config_error_text(e: ConfigError) -> Seq<char> {
    match e {
        ConfigError::NoConfigDir => "Failed to determine config directory"@,
        ConfigError::ReadError(m) => "Failed to read config file: "@ + m@,
        ConfigError::ParseError(m) => "Failed to parse config file: "@ + m@,
        ConfigError::SerializeError(m) => "Failed to serialize config: "@ + m@,
    }
}

/// The guidance shown when no API key can be found.
pub open spec fn no_api_key_text() -> Seq<char> {
    "No API key found!\n\nYou can provide your API key in one of these ways:\n  1. Set the ALLSCREENSHOTS_API_KEY environment variable\n  2. Run: allscreenshots config add-authtoken <your-key>\n\nGet your API key at:\n  https://dashboard.allscreenshots.com/api-keys"@
}

/// The friendly rendering of an API error body, by its class.
pub open spec fn api_error_text(kind: SdkErrorKind, message: Seq<char>, status: u16) -> Seq<char> {
    match kind {
        SdkErrorKind::Unauthorized => "Authentication failed!\n\nYour API key appears to be invalid.\n  "@
            + message
            + "\n\nCheck your key at:\n  https://dashboard.allscreenshots.com/api-keys"@,
        SdkErrorKind::RateLimit => "Rate limit exceeded!\n\nYou've made too many requests. Please wait a moment and try again.\n\nUpgrade your plan for higher limits:\n  https://dashboard.allscreenshots.com/billing"@,
        SdkErrorKind::Validation => "Invalid request!\n\n"@ + message,
        SdkErrorKind::NotFound => "Resource not found!\n\n"@ + message,
        _ => "API Error (HTTP "@ + crate::strutil::dec_seq(status as nat) + ")\n\n"@ + message,
    }
}

/// The friendly rendering of a client failure.
pub open spec fn sdk_error_text(e: SdkError) -> Seq<char> {
    match e {
        SdkError::Api { kind, message, status } => api_error_text(kind, message@, status),
        SdkError::Validation(m) => "Invalid input!\n\n"@ + m@,
        SdkError::Http { timeout, connect, message } => if timeout {
            "Request timed out!\n\nThe server took too long to respond.\n  Try again or use --timeout to increase the limit"@
        } else if connect {
            "Connection failed!\n\nCould not connect to the AllScreenshots API.\n  Check your internet connection and try again."@
        } else {
            "Network error!\n\n"@ + message@
        },
        SdkError::EnvVarNotSet(_) => no_api_key_text(),
        SdkError::RetriesExhausted(m) => "Request failed after retries!\n\nAll retry attempts failed.\n  Last error: "@
            + m@,
        SdkError::Timeout => "Request timed out!\n\nThe request took too long.\n  Try increasing the timeout with --timeout"@,
        SdkError::Other(m) => "SDK Error!\n\n"@ + m@,
    }
}

/// The full friendly rendering of any command failure.
pub open spec fn friendly_text(e: CliError) -> Seq<char> {
    match e {
        CliError::Sdk(s) => sdk_error_text(s),
        CliError::Config(c) => "Configuration error!\n\n"@ + config_error_text(c),
        CliError::NoApiKey => no_api_key_text(),
        CliError::InvalidUrl(u) => "Invalid URL!\n\n'"@ + u@
            + "' is not a valid URL.\n  URLs should start with http:// or https://"@,
        CliError::FileNotFound(p) => "File not found!\n\nCould not find: "@ + p@,
        CliError::FileReadError(m) => "Failed to read file!\n\n"@ + m@,
        CliError::FileWriteError(m) => "Failed to write file!\n\n"@ + m@,
        CliError::DisplayError(m) => "Failed to display image!\n\n"@ + m@
            + "\n  Try using --no-display to skip terminal display"@,
        CliError::ClipboardError(m) => "Clipboard error!\n\n"@ + m@,
        CliError::Other(m) => "Error!\n\n"@ + m@,
    }
}

impl CliError {
    /// Renders the error with user-friendly messages and helpful suggestions.
    pub fn format_friendly(&self) -> (r: String)
        ensures
            r@ == friendly_text(*self),
    {
        match self {
            CliError::Sdk(s) => s.format_friendly(),
            CliError::Config(c) => {
                let r = String::from_str("Configuration error!\n\n").concat(
                    c.describe().as_str(),
                );
                r
            },
            CliError::NoApiKey => String::from_str(
                "No API key found!\n\nYou can provide your API key in one of these ways:\n  1. Set the ALLSCREENSHOTS_API_KEY environment variable\n  2. Run: allscreenshots config add-authtoken <your-key>\n\nGet your API key at:\n  https://dashboard.allscreenshots.com/api-keys",
            ),
            CliError::InvalidUrl(u) => String::from_str("Invalid URL!\n\n'").concat(
                u.as_str(),
            ).concat("' is not a valid URL.\n  URLs should start with http:// or https://"),
            CliError::FileNotFound(p) => String::from_str(
                "File not found!\n\nCould not find: ",
            ).concat(p.as_str()),
            CliError::FileReadError(m) => String::from_str("Failed to read file!\n\n").concat(
                m.as_str(),
            ),
            CliError::FileWriteError(m) => String::from_str("Failed to write file!\n\n").concat(
                m.as_str(),
            ),
            CliError::DisplayError(m) => String::from_str("Failed to display image!\n\n").concat(
                m.as_str(),
            ).concat("\n  Try using --no-display to skip terminal display"),
            CliError::ClipboardError(m) => String::from_str("Clipboard error!\n\n").concat(
                m.as_str(),
            ),
            CliError::Other(m) => String::from_str("Error!\n\n").concat(m.as_str()),
        }
    }
}

impl ConfigError {
    /// Renders the configuration failure as one line.
    pub fn describe(&self) -> (r: String)
        ensures
            r@ == config_error_text(*self),
    {
        match self {
            ConfigError::NoConfigDir => String::from_str(
                "Failed to determine config directory",
            ),
            ConfigError::ReadError(m) => String::from_str("Failed to read config file: ").concat(
                m.as_str(),
            ),
            ConfigError::ParseError(m) => String::from_str("Failed to parse config file: ").concat(
                m.as_str(),
            ),
            ConfigError::SerializeError(m) => String::from_str(
                "Failed to serialize config: ",
            ).concat(m.as_str()),
        }
    }
}

impl SdkError {
    /// Renders the client failure with user-friendly messages.
    pub fn format_friendly(&self) -> (r: String)
        ensures
            r@ == sdk_error_text(*self),
    {
        match self {
            SdkError::Api { kind, message, status } => match kind {
                SdkErrorKind::Unauthorized => String::from_str(
                    "Authentication failed!\n\nYour API key appears to be invalid.\n  ",
                ).concat(message.as_str()).concat(
                    "\n\nCheck your key at:\n  https://dashboard.allscreenshots.com/api-keys",
                ),
                SdkErrorKind::RateLimit => String::from_str(
                    "Rate limit exceeded!\n\nYou've made too many requests. Please wait a moment and try again.\n\nUpgrade your plan for higher limits:\n  https://dashboard.allscreenshots.com/billing",
                ),
                SdkErrorKind::Validation => String::from_str("Invalid request!\n\n").concat(
                    message.as_str(),
                ),
                SdkErrorKind::NotFound => String::from_str("Resource not found!\n\n").concat(
                    message.as_str(),
                ),
                _ => {
                    let st = crate::strutil::u64_to_string(*status as u64);
                    String::from_str("API Error (HTTP ").concat(st.as_str()).concat(
                        ")\n\n",
                    ).concat(message.as_str())
                },
            },
            SdkError::Validation(m) => String::from_str("Invalid input!\n\n").concat(m.as_str()),
            SdkError::Http { timeout, connect, message } => {
                if *timeout {
                    String::from_str(
                        "Request timed out!\n\nThe server took too long to respond.\n  Try again or use --timeout to increase the limit",
                    )
                } else if *connect {
                    String::from_str(
                        "Connection failed!\n\nCould not connect to the AllScreenshots API.\n  Check your internet connection and try again.",
                    )
                } else {
                    String::from_str("Network error!\n\n").concat(message.as_str())
                }
            },
            SdkError::EnvVarNotSet(_) => String::from_str(
                "No API key found!\n\nYou can provide your API key in one of these ways:\n  1. Set the ALLSCREENSHOTS_API_KEY environment variable\n  2. Run: allscreenshots config add-authtoken <your-key>\n\nGet your API key at:\n  https://dashboard.allscreenshots.com/api-keys",
            ),
            SdkError::RetriesExhausted(m) => String::from_str(
                "Request failed after retries!\n\nAll retry attempts failed.\n  Last error: ",
            ).concat(m.as_str()),
            SdkError::Timeout => String::from_str(
                "Request timed out!\n\nThe request took too long.\n  Try increasing the timeout with --timeout",
            ),
            SdkError::Other(m) => String::from_str("SDK Error!\n\n").concat(m.as_str()),
        }
    }
}

/// Result type for command operations.
pub type CliResult<T> = Result<T, CliError>;

} // verus!

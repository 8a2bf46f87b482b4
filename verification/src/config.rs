//! The persisted configuration as plain values: the stored key, capture
//! defaults and display preferences, with the rules for masking the key,
//! resolving it by priority, and reading or writing one field by its dotted
//! name. Reading and writing the file itself is I/O and happens outside the
//! library; the values come and go through these functions.

use vstd::prelude::*;

use crate::error::CliError;
use crate::error::CliResult;
use crate::strutil::dec_seq;
use crate::strutil::push_char;
use crate::strutil::str_eq;
use crate::strutil::u64_to_string;

verus! {

/// The stored authentication section.
#[derive(Debug, Clone)]
pub struct AuthConfig {
    pub api_key: Option<String>,
}

/// The stored capture defaults.
#[derive(Debug, Clone)]
pub struct DefaultsConfig {
    pub device: Option<String>,
    pub format: Option<String>,
    pub output_dir: Option<String>,
    pub display: Option<bool>,
}

/// The stored terminal-display preferences.
#[derive(Debug, Clone)]
pub struct DisplayConfig {
    pub protocol: Option<String>,
    pub width: Option<u32>,
    pub height: Option<u32>,
}

/// The whole persisted configuration.
#[derive(Debug, Clone)]
pub struct Config {
    pub auth: AuthConfig,
    pub defaults: DefaultsConfig,
    pub display: DisplayConfig,
}

impl Default for AuthConfig {
    /// No key stored.
    fn default() -> (r: Self)
        ensures
            r.api_key is None,
    {
        AuthConfig { api_key: None }
    }
}

impl Default for DefaultsConfig {
    /// The capture defaults shipped with the tool.
    fn default() -> (r: Self)
        ensures
            r.device matches Some(d) && d@ == "Desktop HD"@,
            r.format matches Some(f) && f@ == "png"@,
            r.output_dir matches Some(o) && o@ == "./screenshots"@,
            r.display == Some(true),
    {
        DefaultsConfig {
            device: Some(String::from_str("Desktop HD")),
            format: Some(String::from_str("png")),
            output_dir: Some(String::from_str("./screenshots")),
            display: Some(true),
        }
    }
}

impl Default for DisplayConfig {
    /// The display preferences shipped with the tool.
    fn default() -> (r: Self)
        ensures
            r.protocol matches Some(p) && p@ == "auto"@,
            r.width == Some(80u32),
            r.height == Some(24u32),
    {
        DisplayConfig {
            protocol: Some(String::from_str("auto")),
            width: Some(80),
            height: Some(24),
        }
    }
}

impl Default for Config {
    /// Every section at its shipped default.
    fn default() -> (r: Self)
        ensures
            r.auth.api_key is None,
            r.defaults.device matches Some(d) && d@ == "Desktop HD"@,
            r.defaults.format matches Some(f) && f@ == "png"@,
            r.defaults.output_dir matches Some(o) && o@ == "./screenshots"@,
            r.defaults.display == Some(true),
            r.display.protocol matches Some(p) && p@ == "auto"@,
            r.display.width == Some(80u32),
            r.display.height == Some(24u32),
    {
        Config {
            auth: AuthConfig::default(),
            defaults: DefaultsConfig::default(),
            display: DisplayConfig::default(),
        }
    }
}

/// A run of `n` mask characters.
pub open spec fn stars(n: nat) -> Seq<char>
    decreases n,
{
    if n == 0 {
        Seq::<char>::empty()
    } else {
        stars((n - 1) as nat).push('*')
    }
}

/// A key masked for display: fully starred when short, else its first eight
/// and last four characters around an ellipsis.
pub open spec fn masked_key(key: Seq<char>) -> Seq<char> {
    if key.len() <= 12 {
        stars(key.len())
    } else {
        key.subrange(0, 8) + "..."@ + key.subrange(key.len() - 4, key.len() as int)
    }
}

impl Config {
    /// Masks an API key for display.
    pub fn mask_api_key(key: &str) -> (r: String)
        ensures
            r@ == masked_key(key@),
    {
        let len = key.unicode_len();
        if len <= 12 {
            let mut out = String::new();
            let mut i: usize = 0;
            while i < len
                invariant
                    i <= len,
                    out@ == stars(i as nat),
                decreases len - i,
            {
                push_char(&mut out, '*');
                i = i + 1;
            }
            out
        } else {
            let head = key.substring_char(0, 8);
            let tail = key.substring_char(len - 4, len);
            String::from_str(head).concat("...").concat(tail)
        }
    }

    /// Stores a key. The caller persists the configuration afterwards.
    pub fn set_api_key(&mut self, key: String)
        ensures
            final(self).auth.api_key == Some(key),
            final(self).defaults == old(self).defaults,
            final(self).display == old(self).display,
    {
        self.auth.api_key = Some(key);
    }

    /// Forgets the stored key. The caller persists the configuration
    /// afterwards.
    pub fn remove_api_key(&mut self)
        ensures
            final(self).auth.api_key is None,
            final(self).defaults == old(self).defaults,
            final(self).display == old(self).display,
    {
        self.auth.api_key = None;
    }

    /// Relies on directories' ProjectDirs: the platform configuration
    /// directory for this tool. The environment decides it, so nothing is
    /// promised of the value.
    #[verifier::external_body]
    pub fn config_dir() -> (r: Option<String>) {
        directories::ProjectDirs::from("com", "allscreenshots", "cli").map(
            |d| d.config_dir().to_string_lossy().into_owned(),
        )
    }

    /// The configuration file path: the configuration directory with the
    /// file name appended.
    pub fn config_path() -> (r: Option<String>)
        ensures
            r matches Some(p) ==> exists|dir: Seq<char>| p@ == dir + "/config.toml"@,
    {
        match Config::config_dir() {
            Some(d) => {
                let p = d.concat("/config.toml");
                proof {
                    assert(p@ == d@ + "/config.toml"@);
                }
                Some(p)
            },
            None => None,
        }
    }
}

/// The API key that an invocation uses, picked once by priority: an explicit
/// flag first, then the environment, then the stored configuration.
pub fn resolve_api_key(cli: Option<String>, env: Option<String>, stored: &Option<String>) -> (r:
    Option<String>)
    ensures
        cli is Some ==> r == cli,
        cli is None && env is Some ==> r == env,
        cli is None && env is None ==> r == *stored,
{
    match cli {
        Some(k) => Some(k),
        None => match env {
            Some(k) => Some(k),
            None => match stored {
                Some(k) => Some(k.clone()),
                None => None,
            },
        },
    }
}

/// Rejects an empty authentication token.
pub fn validate_token(token: &str) -> (r: CliResult<()>)
    ensures
        r is Ok <==> token@.len() > 0,
        r matches Err(e) ==> e matches CliError::Other(m) && m@ == "Token cannot be empty"@,
{
    if token.unicode_len() == 0 {
        Err(CliError::Other(String::from_str("Token cannot be empty")))
    } else {
        Ok(())
    }
}

/// What `true` and `false` parse to; anything else does not parse.
pub open spec fn bool_parse(s: Seq<char>) -> Option<bool> {
    if s == "true"@ {
        Some(true)
    } else if s == "false"@ {
        Some(false)
    } else {
        None
    }
}

/// Parses a boolean configuration value.
pub fn parse_bool(s: &str) -> (r: Option<bool>)
    ensures
        r == bool_parse(s@),
{
    if str_eq(s, "true") {
        Some(true)
    } else if str_eq(s, "false") {
        Some(false)
    } else {
        None
    }
}

/// Whether the character is a decimal digit.
pub open spec fn is_digit(c: char) -> bool {
    '0' <= c <= '9'
}

/// The numeric value of a digit string, most significant first.
pub open spec fn digits_value(s: Seq<char>) -> nat
    decreases s.len(),
{
    if s.len() == 0 {
        0
    } else {
        (digits_value(s.drop_last()) * 10 + (s.last() as int - '0' as int)) as nat
    }
}

/// What a decimal string parses to as a thirty-two bit number: defined only
/// for non-empty all-digit strings whose value fits.
pub open spec fn u32_parse(s: Seq<char>) -> Option<u32> {
    if s.len() > 0 && (forall|i: int| 0 <= i < s.len() ==> is_digit(s[i])) && digits_value(s)
        <= u32::MAX {
        Some(digits_value(s) as u32)
    } else {
        None
    }
}

proof fn lemma_digits_prefix(s: Seq<char>, i: int)
    requires
        0 <= i <= s.len(),
        forall|j: int| 0 <= j < s.len() ==> is_digit(s[j]),
    ensures
        digits_value(s.subrange(0, i)) <= digits_value(s),
    decreases s.len() - i,
{
    if i < s.len() {
        let a = s.subrange(0, i);
        let b = s.subrange(0, i + 1);
        assert(b.drop_last() =~= a);
        assert(is_digit(s[i]) && b.last() == s[i]);
        assert(digits_value(b) >= digits_value(a) * 10);
        assert(digits_value(a) * 10 >= digits_value(a));
        lemma_digits_prefix(s, i + 1);
    } else {
        assert(s.subrange(0, i) =~= s);
    }
}

/// Parses a decimal configuration value.
pub fn parse_u32(s: &str) -> (r: Option<u32>)
    ensures
        r == u32_parse(s@),
{
    let len = s.unicode_len();
    if len == 0 {
        return None;
    }
    let mut acc: u64 = 0;
    let mut i: usize = 0;
    while i < len
        invariant
            len == s@.len(),
            i <= len,
            forall|j: int| 0 <= j < i ==> is_digit(s@[j]),
            acc == digits_value(s@.subrange(0, i as int)),
            acc <= u32::MAX,
        decreases len - i,
    {
        let c = s.get_char(i);
        if c < '0' || c > '9' {
            return None;
        }
        let d: u64 = (c as u32 - '0' as u32) as u64;
        assert(d <= 9);
        acc = acc * 10 + d;
        i = i + 1;
        proof {
            let pre = s@.subrange(0, i - 1);
            let post = s@.subrange(0, i as int);
            assert(post.drop_last() =~= pre);
            assert(post.last() == c);
        }
        if acc > 0xffff_ffff {
            proof {
                if u32_parse(s@) is Some {
                    lemma_digits_prefix(s@, i as int);
                }
            }
            return None;
        }
    }
    proof {
        assert(s@.subrange(0, len as int) =~= s@);
    }
    Some(acc as u32)
}

/// The answer to reading one configuration key.
pub type ConfigRead = CliResult<Option<String>>;

impl Config {
    /// Reads one configuration value by its dotted key. `Ok(None)` means
    /// the key is known but unset; an unknown key is an error naming it.
    /// The stored API key is only ever shown masked.
    pub fn get_value(&self, key: &str) -> (r: ConfigRead)
        ensures
            get_answer(*self, key@, r),
    {
        if str_eq(key, "auth.api_key") {
            match &self.auth.api_key {
                Some(k) => Ok(Some(Config::mask_api_key(k.as_str()))),
                None => Ok(None),
            }
        } else if str_eq(key, "defaults.device") {
            Ok(clone_opt(&self.defaults.device))
        } else if str_eq(key, "defaults.format") {
            Ok(clone_opt(&self.defaults.format))
        } else if str_eq(key, "defaults.output_dir") {
            Ok(clone_opt(&self.defaults.output_dir))
        } else if str_eq(key, "defaults.display") {
            match self.defaults.display {
                Some(b) => Ok(
                    Some(
                        if b {
                            String::from_str("true")
                        } else {
                            String::from_str("false")
                        },
                    ),
                ),
                None => Ok(None),
            }
        } else if str_eq(key, "display.protocol") {
            Ok(clone_opt(&self.display.protocol))
        } else if str_eq(key, "display.width") {
            match self.display.width {
                Some(w) => Ok(Some(u64_to_string(w as u64))),
                None => Ok(None),
            }
        } else if str_eq(key, "display.height") {
            match self.display.height {
                Some(h) => Ok(Some(u64_to_string(h as u64))),
                None => Ok(None),
            }
        } else {
            Err(CliError::Other(String::from_str("Unknown config key: ").concat(key)))
        }
    }

    /// Writes one configuration value by its dotted key, parsing booleans
    /// and numbers; an unknown key, or a value that does not parse, is an
    /// error and leaves the configuration unchanged. The caller persists
    /// the configuration afterwards.
    pub fn set_value(&mut self, key: &str, value: &str) -> (r: CliResult<()>)
        ensures
            set_answer(*old(self), *final(self), key@, value@, r),
    {
        if str_eq(key, "defaults.device") {
            self.defaults.device = Some(String::from_str(value));
            Ok(())
        } else if str_eq(key, "defaults.format") {
            self.defaults.format = Some(String::from_str(value));
            Ok(())
        } else if str_eq(key, "defaults.output_dir") {
            self.defaults.output_dir = Some(String::from_str(value));
            Ok(())
        } else if str_eq(key, "defaults.display") {
            match parse_bool(value) {
                Some(b) => {
                    self.defaults.display = Some(b);
                    Ok(())
                },
                None => Err(
                    CliError::Other(String::from_str("Value must be 'true' or 'false'")),
                ),
            }
        } else if str_eq(key, "display.protocol") {
            self.display.protocol = Some(String::from_str(value));
            Ok(())
        } else if str_eq(key, "display.width") {
            match parse_u32(value) {
                Some(w) => {
                    self.display.width = Some(w);
                    Ok(())
                },
                None => Err(CliError::Other(String::from_str("Value must be a number"))),
            }
        } else if str_eq(key, "display.height") {
            match parse_u32(value) {
                Some(h) => {
                    self.display.height = Some(h);
                    Ok(())
                },
                None => Err(CliError::Other(String::from_str("Value must be a number"))),
            }
        } else {
            Err(
                CliError::Other(
                    String::from_str("Unknown config key: ").concat(key).concat(
                        ". Valid keys: defaults.device, defaults.format, defaults.output_dir, defaults.display, display.protocol, display.width, display.height",
                    ),
                ),
            )
        }
    }
}

/// The write put exactly this device text, touching nothing else.
pub open spec fn set_device(before: Config, after: Config, v: Seq<char>) -> bool {
    &&& (after.defaults.device matches Some(d) && d@ == v)
    &&& after.defaults.format == before.defaults.format
    &&& after.defaults.output_dir == before.defaults.output_dir
    &&& after.defaults.display == before.defaults.display
    &&& untouched_but_defaults(before, after)
}

/// The write put exactly this format text, touching nothing else.
pub open spec fn set_format(before: Config, after: Config, v: Seq<char>) -> bool {
    &&& (after.defaults.format matches Some(f) && f@ == v)
    &&& after.defaults.device == before.defaults.device
    &&& after.defaults.output_dir == before.defaults.output_dir
    &&& after.defaults.display == before.defaults.display
    &&& untouched_but_defaults(before, after)
}

/// The write put exactly this output directory text, touching nothing else.
pub open spec fn set_output_dir(before: Config, after: Config, v: Seq<char>) -> bool {
    &&& (after.defaults.output_dir matches Some(o) && o@ == v)
    &&& after.defaults.device == before.defaults.device
    &&& after.defaults.format == before.defaults.format
    &&& after.defaults.display == before.defaults.display
    &&& untouched_but_defaults(before, after)
}

/// The write parsed the flag and stored it, or failed parsing, said so, and
/// changed nothing.
pub open spec fn set_display_flag_answer(
    before: Config,
    after: Config,
    v: Seq<char>,
    r: CliResult<()>,
) -> bool {
    match bool_parse(v) {
        Some(b) => {
            &&& r is Ok
            &&& after.defaults.display == Some(b)
            &&& after.defaults.device == before.defaults.device
            &&& after.defaults.format == before.defaults.format
            &&& after.defaults.output_dir == before.defaults.output_dir
            &&& untouched_but_defaults(before, after)
        },
        None => {
            &&& after == before
            &&& (r matches Err(e) && (e matches CliError::Other(m) && m@
                == "Value must be 'true' or 'false'"@))
        },
    }
}

/// The write put exactly this protocol text, touching nothing else.
pub open spec fn set_protocol(before: Config, after: Config, v: Seq<char>) -> bool {
    &&& (after.display.protocol matches Some(p) && p@ == v)
    &&& after.display.width == before.display.width
    &&& after.display.height == before.display.height
    &&& untouched_but_display(before, after)
}

/// The write parsed the width and stored it, or failed parsing, said so,
/// and changed nothing.
pub open spec fn set_width_answer(
    before: Config,
    after: Config,
    v: Seq<char>,
    r: CliResult<()>,
) -> bool {
    match u32_parse(v) {
        Some(w) => {
            &&& r is Ok
            &&& after.display.width == Some(w)
            &&& after.display.protocol == before.display.protocol
            &&& after.display.height == before.display.height
            &&& untouched_but_display(before, after)
        },
        None => {
            &&& after == before
            &&& (r matches Err(e) && (e matches CliError::Other(m) && m@
                == "Value must be a number"@))
        },
    }
}

/// The write parsed the height and stored it, or failed parsing, said so,
/// and changed nothing.
pub open spec fn set_height_answer(
    before: Config,
    after: Config,
    v: Seq<char>,
    r: CliResult<()>,
) -> bool {
    match u32_parse(v) {
        Some(h) => {
            &&& r is Ok
            &&& after.display.height == Some(h)
            &&& after.display.protocol == before.display.protocol
            &&& after.display.width == before.display.width
            &&& untouched_but_display(before, after)
        },
        None => {
            &&& after == before
            &&& (r matches Err(e) && (e matches CliError::Other(m) && m@
                == "Value must be a number"@))
        },
    }
}

/// An unknown key is reported by name, with the list of valid keys.
pub open spec fn unknown_set_error(key: Seq<char>, r: CliResult<()>) -> bool {
    r matches Err(e) && (e matches CliError::Other(m) && m@ == "Unknown config key: "@ + key
        + ". Valid keys: defaults.device, defaults.format, defaults.output_dir, defaults.display, display.protocol, display.width, display.height"@)
}

/// What reading one key yields, key by key, in the order they are tried:
/// the masked key, the stored text or flag or number, `Ok(None)` for a known
/// key with nothing stored, and an error naming any unknown key.
pub open spec fn get_answer(c: Config, key: Seq<char>, r: ConfigRead) -> bool {
    if key == "auth.api_key"@ {
        match c.auth.api_key {
            Some(k) => r matches Ok(v) && (v matches Some(t) && t@ == masked_key(k@)),
            None => r == Ok::<Option<String>, CliError>(None),
        }
    } else if key == "defaults.device"@ {
        r matches Ok(v) && option_text_matches(v, c.defaults.device)
    } else if key == "defaults.format"@ {
        r matches Ok(v) && option_text_matches(v, c.defaults.format)
    } else if key == "defaults.output_dir"@ {
        r matches Ok(v) && option_text_matches(v, c.defaults.output_dir)
    } else if key == "defaults.display"@ {
        match c.defaults.display {
            Some(b) => r matches Ok(v) && (v matches Some(t) && t@ == (if b {
                "true"@
            } else {
                "false"@
            })),
            None => r == Ok::<Option<String>, CliError>(None),
        }
    } else if key == "display.protocol"@ {
        r matches Ok(v) && option_text_matches(v, c.display.protocol)
    } else if key == "display.width"@ {
        match c.display.width {
            Some(w) => r matches Ok(v) && (v matches Some(t) && t@ == dec_seq(w as nat)),
            None => r == Ok::<Option<String>, CliError>(None),
        }
    } else if key == "display.height"@ {
        match c.display.height {
            Some(h) => r matches Ok(v) && (v matches Some(t) && t@ == dec_seq(h as nat)),
            None => r == Ok::<Option<String>, CliError>(None),
        }
    } else {
        r matches Err(e) && (e matches CliError::Other(m) && m@ == "Unknown config key: "@ + key)
    }
}

/// What writing one key does, key by key, in the order they are tried: the
/// named field is set to the given text, parsed where the field is a flag or
/// a number; a value that does not parse, or an unknown key, is an error and
/// changes nothing.
pub open spec fn set_answer(
    before: Config,
    after: Config,
    key: Seq<char>,
    value: Seq<char>,
    r: CliResult<()>,
) -> bool {
    if key == "defaults.device"@ {
        r is Ok && set_device(before, after, value)
    } else if key == "defaults.format"@ {
        r is Ok && set_format(before, after, value)
    } else if key == "defaults.output_dir"@ {
        r is Ok && set_output_dir(before, after, value)
    } else if key == "defaults.display"@ {
        set_display_flag_answer(before, after, value, r)
    } else if key == "display.protocol"@ {
        r is Ok && set_protocol(before, after, value)
    } else if key == "display.width"@ {
        set_width_answer(before, after, value, r)
    } else if key == "display.height"@ {
        set_height_answer(before, after, value, r)
    } else {
        after == before && unknown_set_error(key, r)
    }
}

/// The read answer mirrors the stored optional text.
pub open spec fn option_text_matches(v: Option<String>, stored: Option<String>) -> bool {
    match stored {
        Some(s) => v matches Some(t) && t@ == s@,
        None => v is None,
    }
}

/// A write under `defaults.` leaves the other sections alone.
pub open spec fn untouched_but_defaults(before: Config, after: Config) -> bool {
    after.auth == before.auth && after.display == before.display
}

/// A write under `display.` leaves the other sections alone.
pub open spec fn untouched_but_display(before: Config, after: Config) -> bool {
    after.auth == before.auth && after.defaults == before.defaults
}

/// A field-by-field copy of an optional text.
fn clone_opt(o: &Option<String>) -> (r: Option<String>)
    ensures
        option_text_matches(r, *o),
{
    match o {
        Some(s) => Some(s.clone()),
        None => None,
    }
}

} // verus!

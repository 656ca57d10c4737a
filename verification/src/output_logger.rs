use vstd::prelude::*;

use crate::logging_utils::{sanitize_secret_key, spec_sanitize_secret_key};
use crate::specs_adapter::{ascii_lowercase, to_ascii_lowercase};
use crate::text::{chars_to_string, extend_range, extend_str, str_eq_chars, str_to_chars};

verus! {

/// How much the SDK logs, from nothing to everything.
#[derive(Clone, Copy, Debug, PartialEq, Eq, Structural)]
pub enum LogLevel {
    Off,
    Debug,
    Info,
    Warn,
    Error,
}

/// The level used when none is given or a given one is not recognised.
pub open spec fn default_log_level() -> LogLevel {
    LogLevel::Warn
}

/// The level a name stands for, case aside. The names are ASCII words and no non-ASCII
/// character lower-cases to one of their letters, so lower-casing the ASCII letters alone
/// decides the same as full Unicode lower-casing.
pub open spec fn spec_log_level_from_name(name: Seq<char>) -> LogLevel {
    let l = ascii_lowercase(name);
    if l == "debug"@ {
        LogLevel::Debug
    } else if l == "info"@ {
        LogLevel::Info
    } else if l == "warn"@ {
        LogLevel::Warn
    } else if l == "error"@ {
        LogLevel::Error
    } else if l == "none"@ {
        LogLevel::Off
    } else {
        default_log_level()
    }
}

/// The level a number stands for: 0 off, 1 error, 2 warn, 3 info, 4 debug.
pub open spec fn spec_log_level_from_number(level: u32) -> LogLevel {
    if level == 0 {
        LogLevel::Off
    } else if level == 1 {
        LogLevel::Error
    } else if level == 2 {
        LogLevel::Warn
    } else if level == 3 {
        LogLevel::Info
    } else if level == 4 {
        LogLevel::Debug
    } else {
        default_log_level()
    }
}

/// The number of a level: 0 off, 1 error, 2 warn, 3 info, 4 debug.
pub open spec fn spec_log_level_number(level: LogLevel) -> u32 {
    match level {
        LogLevel::Debug => 4,
        LogLevel::Info => 3,
        LogLevel::Warn => 2,
        LogLevel::Error => 1,
        LogLevel::Off => 0,
    }
}

impl<'a> From<&'a str> for LogLevel {
    /// The level a name stands for, case aside; the default level for an unknown name.
    fn from(level: &'a str) -> (r: Self) {
        let l = to_ascii_lowercase(&str_to_chars(level));
        if str_eq_chars("debug", &l) {
            LogLevel::Debug
        } else if str_eq_chars("info", &l) {
            LogLevel::Info
        } else if str_eq_chars("warn", &l) {
            LogLevel::Warn
        } else if str_eq_chars("error", &l) {
            LogLevel::Error
        } else if str_eq_chars("none", &l) {
            LogLevel::Off
        } else {
            LogLevel::Warn
        }
    }
}

impl<'a> vstd::std_specs::convert::FromSpecImpl<&'a str> for LogLevel {
    open spec fn obeys_from_spec() -> bool {
        true
    }

    open spec fn from_spec(level: &'a str) -> LogLevel {
        spec_log_level_from_name(level@)
    }
}

impl From<u32> for LogLevel {
    /// The level a number stands for; the default level for any other number.
    fn from(level: u32) -> (r: Self) {
        match level {
            0 => LogLevel::Off,
            1 => LogLevel::Error,
            2 => LogLevel::Warn,
            3 => LogLevel::Info,
            4 => LogLevel::Debug,
            _ => LogLevel::Warn,
        }
    }
}

impl vstd::std_specs::convert::FromSpecImpl<u32> for LogLevel {
    open spec fn obeys_from_spec() -> bool {
        true
    }

    open spec fn from_spec(level: u32) -> LogLevel {
        spec_log_level_from_number(level)
    }
}

impl LogLevel {
    /// The number of the level.
    pub fn to_number(&self) -> (r: u32)
        ensures
            r == spec_log_level_number(*self),
    {
        match self {
            LogLevel::Debug => 4,
            LogLevel::Info => 3,
            LogLevel::Warn => 2,
            LogLevel::Error => 1,
            LogLevel::Off => 0,
        }
    }
}

/// Reading a level's number back gives the level.
pub proof fn lemma_log_level_number_round_trip(level: LogLevel)
    ensures
        spec_log_level_from_number(spec_log_level_number(level)) == level,
{
}

/// Receives the SDK's log output. Implemented by the SDK's users.
pub trait OutputLogProvider {
    fn initialize(&self);

    fn debug(&self, tag: &str, msg: String);

    fn info(&self, tag: &str, msg: String);

    fn warn(&self, tag: &str, msg: String);

    fn error(&self, tag: &str, msg: String);

    fn shutdown(&self);
}

/// Longest message logged in full, in characters.
pub const MAX_CHARS: usize = 400;

/// What replaces the end of a message that is too long.
pub open spec fn truncated_suffix() -> Seq<char> {
    "...[TRUNCATED]"@
}

/// Characters kept of a message that is too long.
pub const VISIBLE_CHARS: usize = 386;

/// A message cut to `VISIBLE_CHARS` characters and marked as truncated when it is longer than
/// `MAX_CHARS`.
pub open spec fn spec_truncate_log_message(msg: Seq<char>) -> Seq<char> {
    if msg.len() > MAX_CHARS {
        msg.take(VISIBLE_CHARS as int) + truncated_suffix()
    } else {
        msg
    }
}

/// The truncation marker is fourteen characters long.
pub proof fn lemma_truncated_suffix_len()
    ensures
        truncated_suffix().len() == 14,
{
    reveal_strlit("...[TRUNCATED]");
}

/// Cuts a message that is too long.
pub fn truncate_log_message(msg: &str) -> (r: String)
    ensures
        r@ == spec_truncate_log_message(msg@),
{
    let chars = str_to_chars(msg);
    if chars.len() > MAX_CHARS {
        let mut out: Vec<char> = Vec::new();
        extend_range(&mut out, &chars, 0, VISIBLE_CHARS);
        assert(chars@.subrange(0, VISIBLE_CHARS as int) == chars@.take(VISIBLE_CHARS as int));
        extend_str(&mut out, "...[TRUNCATED]");
        chars_to_string(&out)
    } else {
        chars_to_string(&chars)
    }
}

/// The text logged for a message: cut when too long, then with SDK keys masked.
pub fn prepare_log_message(msg: &str) -> (r: String)
    ensures
        r@ == spec_sanitize_secret_key(spec_truncate_log_message(msg@)),
{
    let truncated = truncate_log_message(msg);
    sanitize_secret_key(truncated.as_str())
}

/// Whether a message of `level` is logged when the logger is set to `current`.
pub fn has_valid_log_level(level: &LogLevel, current: &LogLevel) -> (r: bool)
    ensures
        r == (spec_log_level_number(*level) <= spec_log_level_number(*current)),
{
    level.to_number() <= current.to_number()
}

/// The logger's settings: its level and the provider messages go to, if any.
pub struct LoggerState<P: OutputLogProvider> {
    pub level: LogLevel,
    pub provider: Option<P>,
}

impl<P: OutputLogProvider> LoggerState<P> {
    /// The default level and no provider.
    pub fn new() -> (r: Self)
        ensures
            r.level == default_log_level(),
            r.provider is None,
    {
        LoggerState { level: LogLevel::Warn, provider: None }
    }

    /// Sets the level (the default one when none is given) and the provider, which is
    /// initialized. Without a provider, the result is the level the standard logger is to be
    /// set up with (none for the level `Off`).
    pub fn initialize(&mut self, level: Option<LogLevel>, provider: Option<P>) -> (r: Option<LogLevel>)
        ensures
            final(self).level == (match level {
                Some(l) => l,
                None => default_log_level(),
            }),
            final(self).provider == (match provider {
                Some(p) => Some(p),
                None => old(self).provider,
            }),
            provider is Some ==> r is None,
            provider is None ==> r == (if final(self).level == LogLevel::Off {
                None
            } else {
                Some(final(self).level)
            }),
    {
        let level = match level {
            Some(l) => l,
            None => LogLevel::Warn,
        };
        self.level = level;
        match provider {
            Some(p) => {
                p.initialize();
                self.provider = Some(p);
                None
            },
            None => {
                if level == LogLevel::Off {
                    None
                } else {
                    Some(level)
                }
            },
        }
    }

    /// Hands a prepared message to the provider, by level (an `Off` level is dropped). The
    /// result tells whether a provider took it; without one, the standard logger is used.
    pub fn log_message(&self, tag: &str, level: LogLevel, msg: String) -> (r: bool)
        ensures
            r == self.provider is Some,
    {
        match &self.provider {
            Some(provider) => {
                match level {
                    LogLevel::Debug => provider.debug(tag, msg),
                    LogLevel::Info => provider.info(tag, msg),
                    LogLevel::Warn => provider.warn(tag, msg),
                    LogLevel::Error => provider.error(tag, msg),
                    LogLevel::Off => {},
                }
                true
            },
            None => false,
        }
    }

    /// Shuts the provider down, if there is one.
    pub fn shutdown(&self) {
        match &self.provider {
            Some(provider) => provider.shutdown(),
            None => {},
        }
    }
}

} // verus!

//! What a handler decides when it starts.

use vstd::prelude::*;

use crate::config::Config;
use crate::text::{has_text, join3, opt_text, seq_has_text};

verus! {

/// Where the API keys come from.
#[derive(Debug)]
pub enum KeySource<'a> {
    /// A JSON text.
    Inline(&'a String),
    /// A file that holds a JSON text.
    File(&'a String),
    /// The bundled demonstration key.
    Demo,
    /// Nowhere: every request will fail.
    Empty,
}

/// Where the API keys come from: the text in the settings, else the file that they
/// name, else the demonstration key where it is enabled.
pub fn key_source(config: &Config) -> (r: KeySource<'_>)
    ensures
        match r {
            KeySource::Inline(t) => config.api_keys_json == Some(*t),
            KeySource::File(p) => config.api_keys_json is None && config.api_keys_file == Some(*p),
            KeySource::Demo => config.api_keys_json is None && config.api_keys_file is None
                && config.enable_demo_keys,
            KeySource::Empty => config.api_keys_json is None && config.api_keys_file is None
                && !config.enable_demo_keys,
        },
{
    match &config.api_keys_json {
        Some(t) => KeySource::Inline(t),
        None => match &config.api_keys_file {
            Some(p) => KeySource::File(p),
            None => if config.enable_demo_keys {
                KeySource::Demo
            } else {
                KeySource::Empty
            },
        },
    }
}

/// Whether the handler may go on without a part that failed to start: not in
/// production, where `Some` is the reason to stop.
pub fn startup_failure(config: &Config, part: &str, error: &str) -> (r: Option<String>)
    ensures
        opt_text(r) == (if config.production {
            Some(part@ + ": "@ + error@)
        } else {
            None
        }),
{
    if config.is_production() {
        Some(join3(part, ": ", error))
    } else {
        None
    }
}

/// Whether responses may be read from every origin.
pub fn any_origin(origins: &Vec<String>) -> (r: bool)
    ensures
        r == seq_has_text(origins@, "*"@),
{
    has_text(origins, "*")
}

/// Seconds between two runs of the subscription scheduler, when it runs: at least
/// one.
pub fn scheduler_interval(config: &Config) -> (r: Option<u64>)
    ensures
        r == (if config.subscription_scheduler_enabled {
            Some(
                if config.subscription_scheduler_interval_secs == 0 {
                    1u64
                } else {
                    config.subscription_scheduler_interval_secs
                },
            )
        } else {
            None
        }),
{
    if !config.subscription_scheduler_enabled {
        None
    } else if config.subscription_scheduler_interval_secs == 0 {
        Some(1)
    } else {
        Some(config.subscription_scheduler_interval_secs)
    }
}

} // verus!

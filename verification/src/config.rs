//! Server settings and the defaults used when a setting is absent or does
//! not parse.

use vstd::prelude::*;
use crate::text::{decimal, law_parse_reads_decimal, parse_unsigned, parse_unsigned_text};

verus! {

/// The server's settings.
#[derive(Debug, Clone)]
pub struct Config {
    pub port: u16,
    pub log_level: String,
    pub default_memory_limit_kb: u64,
    pub default_time_limit_ms: u64,
    pub max_source_size: usize,
    pub max_concurrent_sandboxes: u32,
    pub worker_threads: usize,
}

/// A numeric setting: the number `value` holds when it parses as an integer
/// no larger than `max`, else `default`.
pub open spec fn numeric_setting(value: Option<Seq<char>>, max: int, default: int) -> int {
    match value {
        Some(v) => match parse_unsigned(v, max) {
            Some(x) => x,
            None => default,
        },
        None => default,
    }
}

/// The text of an optional setting.
pub open spec fn setting_text(value: Option<&str>) -> Option<Seq<char>> {
    match value {
        Some(v) => Some(v@),
        None => None,
    }
}

/// Reads a numeric setting.
fn numeric(value: Option<&str>, max: u64, default: u64) -> (r: u64)
    requires
        default <= max,
    ensures
        r == numeric_setting(setting_text(value), max as int, default as int),
        r <= max,
{
    match value {
        Some(v) => match parse_unsigned_text(v, max) {
            Some(x) => {
                proof {
                    crate::text::lemma_parse_unsigned_range(v@, max as int);
                }
                x
            },
            None => default,
        },
        None => default,
    }
}

impl Config {
    /// The settings from the values of `PORT`, `LOG_LEVEL`,
    /// `DEFAULT_MEMORY_LIMIT_KB`, `DEFAULT_TIME_LIMIT_MS`, `MAX_SOURCE_SIZE`,
    /// `MAX_CONCURRENT_SANDBOXES` and `WORKER_THREADS` (`None` when unset).
    /// Defaults: port 54054, log level `info`, 262144 KB, 2000 ms,
    /// 1048576 bytes, 20 sandboxes, 4 workers.
    pub fn from_settings(
        port: Option<&str>,
        log_level: Option<&str>,
        default_memory_limit_kb: Option<&str>,
        default_time_limit_ms: Option<&str>,
        max_source_size: Option<&str>,
        max_concurrent_sandboxes: Option<&str>,
        worker_threads: Option<&str>,
    ) -> (r: Config)
        ensures
            r.port == numeric_setting(setting_text(port), u16::MAX as int, 54054),
            r.log_level@ == (match log_level {
                Some(l) => l@,
                None => "info"@,
            }),
            r.default_memory_limit_kb == numeric_setting(
                setting_text(default_memory_limit_kb),
                u64::MAX as int,
                262144,
            ),
            r.default_time_limit_ms == numeric_setting(
                setting_text(default_time_limit_ms),
                u64::MAX as int,
                2000,
            ),
            r.max_source_size == numeric_setting(
                setting_text(max_source_size),
                usize::MAX as int,
                1048576,
            ),
            r.max_concurrent_sandboxes == numeric_setting(
                setting_text(max_concurrent_sandboxes),
                u32::MAX as int,
                20,
            ),
            r.worker_threads == numeric_setting(setting_text(worker_threads), usize::MAX as int, 4),
    {
        let level = match log_level {
            Some(l) => l.to_string(),
            None => "info".to_string(),
        };
        let max_usize = usize::MAX as u64;
        Config {
            port: numeric(port, 65535, 54054) as u16,
            log_level: level,
            default_memory_limit_kb: numeric(default_memory_limit_kb, u64::MAX, 262144),
            default_time_limit_ms: numeric(default_time_limit_ms, u64::MAX, 2000),
            max_source_size: numeric(max_source_size, max_usize, 1048576) as usize,
            max_concurrent_sandboxes: numeric(max_concurrent_sandboxes, 4294967295, 20) as u32,
            worker_threads: numeric(worker_threads, max_usize, 4) as usize,
        }
    }
}

/// An unset setting takes its default, and a setting written as a number
/// within range takes that number.
pub proof fn law_numeric_setting_reads_number(n: nat, max: int, default: int)
    ensures
        numeric_setting(None, max, default) == default,
        n <= max ==> numeric_setting(Some(decimal(n)), max, default) == n,
{
    if n <= max {
        law_parse_reads_decimal(n, max);
    }
}

} // verus!

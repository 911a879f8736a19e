//! The program's settings, read from the values of its environment
//! variables, and the rule by which old log files are removed.
use vstd::prelude::*;

use crate::text::{is_blank, is_blank_text, owned, parse_u64, parse_u64_text};

verus! {

/// Seconds to wait for a saved replay when `WATCH_TIMEOUT_SECS` gives none.
pub const DEFAULT_WATCH_TIMEOUT_SECS: u64 = 300;

/// Days that log files are kept.
pub const LOG_RETENTION_DAYS: u64 = 14;

/// The settings of a run.
#[derive(Debug, Clone)]
pub struct Config {
    /// The ballchasing.com API token.
    pub token: String,
    /// The folder Rocket League saves replays in, as path components from
    /// the user's profile folder down.
    pub demos_dir: Vec<String>,
    /// Where the Stats API listens.
    pub tcp_addr: String,
    /// `public`, `unlisted` or `private`.
    pub visibility: String,
    /// The ballchasing.com group to upload into, if any.
    pub group: Option<String>,
    /// How long to wait for a saved replay after a match, in seconds.
    pub watch_timeout_secs: u64,
}

/// Why the settings cannot be read.
#[derive(Debug, Clone, Copy, PartialEq, Eq, Structural)]
pub enum ConfigError {
    /// `BALLCHASING_TOKEN` is unset or blank.
    MissingToken,
    /// `USERPROFILE` is unset.
    MissingUserProfile,
}

/// The view of an optional string.
pub open spec fn opt_view(o: Option<String>) -> Option<Seq<char>> {
    match o {
        Some(s) => Some(s@),
        None => None,
    }
}

/// The replay folder below a profile folder.
pub open spec fn demos_dir_of(profile: Seq<char>) -> Seq<Seq<char>> {
    seq![profile, "Documents"@, "My Games"@, "Rocket League"@, "TAGame"@, "Demos"@]
}

/// The seconds to wait for a replay: `WATCH_TIMEOUT_SECS` when it is a
/// number, 300 otherwise.
pub open spec fn timeout_of(value: Option<Seq<char>>) -> u64 {
    match value {
        Some(v) => match parse_u64_text(v) {
            Some(n) => n,
            None => DEFAULT_WATCH_TIMEOUT_SECS,
        },
        None => DEFAULT_WATCH_TIMEOUT_SECS,
    }
}

/// Whether the token is usable: set, and not blank.
pub open spec fn token_ok(token: Option<Seq<char>>) -> bool {
    match token {
        Some(t) => !is_blank_text(t),
        None => false,
    }
}

impl Config {
    /// The components of the replay folder, as views.
    pub open spec fn demos_dir_view(&self) -> Seq<Seq<char>> {
        self.demos_dir@.map_values(|s: String| s@)
    }

    /// Reads the settings from the values of `BALLCHASING_TOKEN`,
    /// `USERPROFILE`, `RLS_TCP_ADDR`, `BALLCHASING_VISIBILITY`,
    /// `BALLCHASING_GROUP` and `WATCH_TIMEOUT_SECS` (`None` for an unset
    /// variable). The token must be set and not blank, and the profile folder
    /// set; the address defaults to `127.0.0.1:49123`, the visibility to
    /// `private`, an empty group means none, and the wait defaults to 300
    /// seconds when no number is given.
    pub fn from_env(
        token: Option<String>,
        user_profile: Option<String>,
        tcp_addr: Option<String>,
        visibility: Option<String>,
        group: Option<String>,
        watch_timeout: Option<String>,
    ) -> (r: Result<Config, ConfigError>)
        ensures
            !token_ok(opt_view(token)) ==> r == Err::<Config, ConfigError>(
                ConfigError::MissingToken,
            ),
            token_ok(opt_view(token)) && user_profile is None ==> r == Err::<Config, ConfigError>(
                ConfigError::MissingUserProfile,
            ),
            token_ok(opt_view(token)) && user_profile is Some ==> r is Ok,
            r matches Ok(c) ==> {
                &&& Some(c.token@) == opt_view(token)
                &&& c.demos_dir_view() == demos_dir_of(opt_view(user_profile).unwrap())
                &&& c.tcp_addr@ == match opt_view(tcp_addr) {
                    Some(a) => a,
                    None => "127.0.0.1:49123"@,
                }
                &&& c.visibility@ == match opt_view(visibility) {
                    Some(v) => v,
                    None => "private"@,
                }
                &&& opt_view(c.group) == match opt_view(group) {
                    Some(g) => if g.len() == 0 {
                        None
                    } else {
                        Some(g)
                    },
                    None => None,
                }
                &&& c.watch_timeout_secs == timeout_of(opt_view(watch_timeout))
                &&& (watch_timeout is Some && parse_u64_text(watch_timeout->Some_0@) is Some)
                    ==> c.watch_timeout_secs == parse_u64_text(watch_timeout->Some_0@)->Some_0
                &&& (watch_timeout is None || parse_u64_text(watch_timeout->Some_0@) is None)
                    ==> c.watch_timeout_secs == 300
            },
    {
        let token = match token {
            Some(t) => {
                if is_blank(t.as_str()) {
                    return Err(ConfigError::MissingToken);
                }
                t
            },
            None => {
                return Err(ConfigError::MissingToken);
            },
        };
        let profile = match user_profile {
            Some(p) => p,
            None => {
                return Err(ConfigError::MissingUserProfile);
            },
        };
        let ghost profile_view = profile@;
        let demos_dir = vec![
            profile,
            owned("Documents"),
            owned("My Games"),
            owned("Rocket League"),
            owned("TAGame"),
            owned("Demos"),
        ];
        let tcp_addr = match tcp_addr {
            Some(a) => a,
            None => owned("127.0.0.1:49123"),
        };
        let visibility = match visibility {
            Some(v) => v,
            None => owned("private"),
        };
        let group = match group {
            Some(g) => {
                if g.as_str().unicode_len() == 0 {
                    None
                } else {
                    Some(g)
                }
            },
            None => None,
        };
        let watch_timeout_secs = match watch_timeout {
            Some(v) => match parse_u64(v.as_str()) {
                Some(n) => n,
                None => DEFAULT_WATCH_TIMEOUT_SECS,
            },
            None => DEFAULT_WATCH_TIMEOUT_SECS,
        };
        let c = Config { token, demos_dir, tcp_addr, visibility, group, watch_timeout_secs };
        assert(c.demos_dir_view() =~= demos_dir_of(profile_view));
        Ok(c)
    }
}

/// Nanoseconds in a day.
pub const NANOS_PER_DAY: u64 = 86_400_000_000_000;

/// The time before which log files are old, for a clock reading `now`
/// (nanoseconds since the Unix epoch): fourteen days earlier, when that can
/// be represented.
pub fn log_cutoff(now: i128) -> (r: Option<i128>)
    ensures
        r matches Some(c) ==> c == now - 1_209_600_000_000_000,
        r == (if now - LOG_RETENTION_DAYS * NANOS_PER_DAY >= i128::MIN {
            Some((now - LOG_RETENTION_DAYS * NANOS_PER_DAY) as i128)
        } else {
            None
        }),
{
    now.checked_sub((LOG_RETENTION_DAYS as i128) * (NANOS_PER_DAY as i128))
}

/// Whether an entry of the log folder is removed: it is a file and was last
/// written before the cutoff; an entry whose time cannot be read stays.
pub fn is_old_log(is_file: bool, modified: Option<i128>, cutoff: i128) -> (r: bool)
    ensures
        r == (is_file && (match modified {
            Some(m) => m < cutoff,
            None => false,
        })),
{
    if !is_file {
        return false;
    }
    match modified {
        Some(m) => m < cutoff,
        None => false,
    }
}

/// A wait given as a number is used as given, whatever its size; without
/// one, or when it is not a number, the wait is 300 seconds.
pub proof fn given_timeout_is_used(v: Seq<char>, n: u64)
    ensures
        parse_u64_text(v) == Some(n) ==> timeout_of(Some(v)) == n,
        parse_u64_text(v) is None ==> timeout_of(Some(v)) == 300,
        timeout_of(None) == 300,
{
}

/// The replay folder is `Documents/My Games/Rocket League/TAGame/Demos` below
/// the profile folder, whatever that is.
pub proof fn demos_dir_is_below_profile(profile: Seq<char>)
    ensures
        demos_dir_of(profile).len() == 6,
        demos_dir_of(profile)[0] == profile,
        demos_dir_of(profile)[1] == "Documents"@,
        demos_dir_of(profile)[2] == "My Games"@,
        demos_dir_of(profile)[3] == "Rocket League"@,
        demos_dir_of(profile)[4] == "TAGame"@,
        demos_dir_of(profile)[5] == "Demos"@,
{
}

} // verus!

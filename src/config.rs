use crate::forum::ForumAutoCloseConfig;
use vstd::prelude::*;

verus! {

/// The fixed identifiers of one deployment: the community that is moderated,
/// the channel that receives the moderation log, and the suspension marker
/// role.
#[derive(Clone, Copy, Debug, PartialEq, Eq, Structural)]
pub struct ModerationConfig {
    pub home_guild_id: u64,
    pub notifications_channel_id: u64,
    pub dunce_role_id: u64,
}

pub const P2SR_SERVER: u64 = 146404426746167296;
pub const P2SR_NOTIFICATIONS_CHANNEL: u64 = 432229671711670272;
pub const P2SR_DUNCE_ROLE: u64 = 146404426746167296;

impl ModerationConfig {
    /// The identifiers of the Portal 2 Speedrun server.
    pub fn p2sr() -> (r: ModerationConfig)
        ensures
            r.home_guild_id == P2SR_SERVER,
            r.notifications_channel_id == P2SR_NOTIFICATIONS_CHANNEL,
            r.dunce_role_id == P2SR_DUNCE_ROLE,
    {
        ModerationConfig {
            home_guild_id: P2SR_SERVER,
            notifications_channel_id: P2SR_NOTIFICATIONS_CHANNEL,
            dunce_role_id: P2SR_DUNCE_ROLE,
        }
    }
}

pub open spec fn is_digit(c: char) -> bool {
    '0' <= c && c <= '9'
}

/// The value of a run of decimal digits.
pub open spec fn digits_value(s: Seq<char>) -> int
    decreases s.len(),
{
    if s.len() == 0 {
        0
    } else {
        digits_value(s.drop_last()) * 10 + (s.last() as int - '0' as int)
    }
}

/// What reading `s` as an unsigned 64-bit decimal number gives: an optional
/// `+` sign followed by one or more digits, whose value fits.
pub open spec fn parsed_u64(s: Seq<char>) -> Option<u64> {
    let d = if s.len() > 0 && s[0] == '+' {
        s.drop_first()
    } else {
        s
    };
    if d.len() > 0 && (forall|i: int| 0 <= i < d.len() ==> is_digit(#[trigger] d[i]))
        && digits_value(d) <= u64::MAX {
        Some(digits_value(d) as u64)
    } else {
        None
    }
}

/// What reading `s` as a boolean gives: exactly `true` or `false`.
pub open spec fn parsed_bool(s: Seq<char>) -> Option<bool> {
    if s == seq!['t', 'r', 'u', 'e'] {
        Some(true)
    } else if s == seq!['f', 'a', 'l', 's', 'e'] {
        Some(false)
    } else {
        None
    }
}

/// Relies on std's `u64::from_str` (through `str::parse`): it accepts an
/// optional `+` followed by ASCII digits only, and fails on overflow.
#[verifier::external_body]
fn parse_u64(s: &str) -> (r: Option<u64>)
    ensures
        r == parsed_u64(s@),
{
    s.parse::<u64>().ok()
}

/// Relies on std's `bool::from_str` (through `str::parse`): it accepts
/// exactly `true` and `false`.
#[verifier::external_body]
fn parse_bool(s: &str) -> (r: Option<bool>)
    ensures
        r == parsed_bool(s@),
{
    s.parse::<bool>().ok()
}

/// Why the forum auto-close settings were refused.
#[derive(Clone, Copy, Debug, PartialEq, Eq, Structural)]
pub enum ConfigError {
    /// The lock flag was given without the channel and tag.
    LockWithoutIds,
    /// Only one of the channel and the tag was given.
    IncompleteIds,
    /// The channel id is no nonzero integer.
    BadChannelId,
    /// The tag id is no nonzero integer.
    BadTagId,
    /// The lock flag is neither `true` nor `false`.
    BadLockFlag,
}

impl ConfigError {
    /// The text that stops startup.
    pub fn message(&self) -> (r: &'static str)
        ensures
            *self == ConfigError::LockWithoutIds ==> r@ == "FORUM_AUTO_CLOSE_LOCK requires FORUM_AUTO_CLOSE_CHANNEL_ID and FORUM_AUTO_CLOSE_TAG_ID"@,
            *self == ConfigError::IncompleteIds ==> r@ == "FORUM_AUTO_CLOSE_CHANNEL_ID and FORUM_AUTO_CLOSE_TAG_ID must both be provided when enabling forum auto-close"@,
            *self == ConfigError::BadChannelId ==> r@ == "FORUM_AUTO_CLOSE_CHANNEL_ID must be a nonzero integer Discord channel id"@,
            *self == ConfigError::BadTagId ==> r@ == "FORUM_AUTO_CLOSE_TAG_ID must be a nonzero integer Discord forum tag id"@,
            *self == ConfigError::BadLockFlag ==> r@ == "FORUM_AUTO_CLOSE_LOCK must be either true or false"@,
    {
        match self {
            ConfigError::LockWithoutIds => "FORUM_AUTO_CLOSE_LOCK requires FORUM_AUTO_CLOSE_CHANNEL_ID and FORUM_AUTO_CLOSE_TAG_ID",
            ConfigError::IncompleteIds => "FORUM_AUTO_CLOSE_CHANNEL_ID and FORUM_AUTO_CLOSE_TAG_ID must both be provided when enabling forum auto-close",
            ConfigError::BadChannelId => "FORUM_AUTO_CLOSE_CHANNEL_ID must be a nonzero integer Discord channel id",
            ConfigError::BadTagId => "FORUM_AUTO_CLOSE_TAG_ID must be a nonzero integer Discord forum tag id",
            ConfigError::BadLockFlag => "FORUM_AUTO_CLOSE_LOCK must be either true or false",
        }
    }
}

/// The settings that the three optional values describe: none of them turns
/// the automation off; the channel and the tag together turn it on, locking
/// only when the flag says `true`; anything else is refused, ids of zero
/// included, since the platform gives no object that id.
pub open spec fn forum_config_spec(
    channel: Option<Seq<char>>,
    tag: Option<Seq<char>>,
    lock: Option<Seq<char>>,
) -> Result<Option<ForumAutoCloseConfig>, ConfigError> {
    match (channel, tag) {
        (None, None) => if lock is None {
            Ok(None)
        } else {
            Err(ConfigError::LockWithoutIds)
        },
        (Some(c), Some(t)) => if parsed_u64(c) is None || parsed_u64(c) == Some(0u64) {
            Err(ConfigError::BadChannelId)
        } else if parsed_u64(t) is None || parsed_u64(t) == Some(0u64) {
            Err(ConfigError::BadTagId)
        } else {
            match lock {
                Some(l) if parsed_bool(l) is None => Err(ConfigError::BadLockFlag),
                _ => Ok(
                    Some(
                        ForumAutoCloseConfig {
                            forum_channel_id: parsed_u64(c).unwrap(),
                            close_tag_id: parsed_u64(t).unwrap(),
                            lock_on_close: match lock {
                                Some(l) => parsed_bool(l).unwrap(),
                                None => false,
                            },
                        },
                    ),
                ),
            }
        },
        _ => Err(ConfigError::IncompleteIds),
    }
}

pub open spec fn opt_view(s: Option<&str>) -> Option<Seq<char>> {
    match s {
        Some(v) => Some(v@),
        None => None,
    }
}

/// Reads the forum auto-close settings from the forum channel id, the close
/// tag id and the lock flag, each as given or absent.
pub fn load_forum_auto_close_config(
    channel: Option<&str>,
    tag: Option<&str>,
    lock: Option<&str>,
) -> (r: Result<Option<ForumAutoCloseConfig>, ConfigError>)
    ensures
        r == forum_config_spec(opt_view(channel), opt_view(tag), opt_view(lock)),
{
    match (channel, tag) {
        (None, None) => {
            if lock.is_none() {
                Ok(None)
            } else {
                Err(ConfigError::LockWithoutIds)
            }
        },
        (Some(c), Some(t)) => {
            let forum_channel_id = match parse_u64(c) {
                Some(v) if v != 0 => v,
                _ => return Err(ConfigError::BadChannelId),
            };
            let close_tag_id = match parse_u64(t) {
                Some(v) if v != 0 => v,
                _ => return Err(ConfigError::BadTagId),
            };
            let lock_on_close = match lock {
                Some(l) => match parse_bool(l) {
                    Some(b) => b,
                    None => return Err(ConfigError::BadLockFlag),
                },
                None => false,
            };
            Ok(Some(ForumAutoCloseConfig { forum_channel_id, close_tag_id, lock_on_close }))
        },
        _ => Err(ConfigError::IncompleteIds),
    }
}

} // verus!

//! The settings of the NTP client, of the display and of the clock, and the
//! rules that a usable set of them meets.

use std::time::Duration;
use vstd::prelude::*;
use vstd::string::StrSliceExecFns;

verus! {

/// The rule that a set of settings breaks.
#[derive(Clone, Copy, Debug, PartialEq, Eq, Structural)]
pub enum ConfigError {
    /// The list of servers is empty.
    EmptyServerList,
    /// The packet size is zero.
    ZeroPacketSize,
    /// The receive timestamp does not lie inside the packet.
    RecvOffsetOutOfPacket,
    /// The transmit timestamp does not lie inside the packet.
    TransmitOffsetOutOfPacket,
    /// The shortest pause between two syncs is longer than the longest.
    SyncIntervalInverted,
    /// The distance between the NTP and the Unix epoch does not fit in 32 bits.
    EpochDiffTooLarge,
    /// The display would be refreshed every zero milliseconds.
    ZeroRefreshInterval,
    /// The time format is empty or holds white space only.
    BlankTimeFormat,
    /// The initial time is not an RFC 3339 timestamp.
    InvalidInitialUtc,
    /// The initial time is too far from the Unix epoch to be counted in
    /// nanoseconds.
    InitialUtcOutOfRange,
}

/// The length of a `Duration` in nanoseconds.
pub uninterp spec fn duration_nanos(d: Duration) -> int;

/// The instant that `text` denotes as an RFC 3339 timestamp, as whole seconds
/// since the Unix epoch and the nanoseconds past them, or `None` where
/// `text` is no such timestamp.
pub uninterp spec fn rfc3339_instant(text: Seq<char>) -> Option<(i64, u32)>;

/// `Duration::from_millis` of std: a duration of `millis` milliseconds.
#[verifier::external_body]
fn duration_from_millis(millis: u64) -> (d: Duration)
    ensures
        duration_nanos(d) == millis * 1_000_000,
{
    Duration::from_millis(millis)
}

/// `Duration::from_secs` of std: a duration of `secs` whole seconds.
#[verifier::external_body]
fn duration_from_secs(secs: u64) -> (d: Duration)
    ensures
        duration_nanos(d) == secs * 1_000_000_000,
{
    Duration::from_secs(secs)
}

/// `DateTime::parse_from_rfc3339` of chrono, read through the accessors
/// `timestamp` and `timestamp_subsec_nanos`. The result depends on the text
/// alone; nothing is claimed here of which texts parse or of the instant
/// they give.
#[verifier::external_body]
fn parse_rfc3339(text: &str) -> (r: Option<(i64, u32)>)
    ensures
        r == rfc3339_instant(text@),
{
    match chrono::DateTime::parse_from_rfc3339(text) {
        Ok(t) => Some((t.timestamp(), t.timestamp_subsec_nanos())),
        Err(_) => None,
    }
}

/// Whether `c` has the Unicode property White_Space.
pub open spec fn is_white_space(c: char) -> bool {
    let p = c as u32;
    ||| 0x09 <= p <= 0x0D
    ||| p == 0x20
    ||| p == 0x85
    ||| p == 0xA0
    ||| p == 0x1680
    ||| 0x2000 <= p <= 0x200A
    ||| p == 0x2028
    ||| p == 0x2029
    ||| p == 0x202F
    ||| p == 0x205F
    ||| p == 0x3000
}

/// Whether `text` is empty once leading and trailing white space is removed.
pub open spec fn is_blank(text: Seq<char>) -> bool {
    forall|i: int| 0 <= i < text.len() ==> is_white_space(#[trigger] text[i])
}

/// Tells whether `c` has the Unicode property White_Space.
pub fn char_is_white_space(c: char) -> (r: bool)
    ensures
        r == is_white_space(c),
{
    let p: u32 = c as u32;
    (0x09 <= p && p <= 0x0D) || p == 0x20 || p == 0x85 || p == 0xA0 || p == 0x1680 || (0x2000 <= p
        && p <= 0x200A) || p == 0x2028 || p == 0x2029 || p == 0x202F || p == 0x205F || p == 0x3000
}

/// Tells whether `text` is empty once leading and trailing white space is
/// removed.
pub fn text_is_blank(text: &str) -> (r: bool)
    ensures
        r == is_blank(text@),
{
    let n = text.unicode_len();
    let mut i: usize = 0;
    while i < n
        invariant
            i <= n,
            n == text@.len(),
            forall|k: int| 0 <= k < i ==> is_white_space(#[trigger] text@[k]),
        decreases n - i,
    {
        if !char_is_white_space(text.get_char(i)) {
            return false;
        }
        i = i + 1;
    }
    true
}

/// The settings of the NTP client.
#[derive(Clone, Debug)]
pub struct NtpConfig {
    pub servers: Vec<String>,
    pub port: u16,
    pub packet_size: usize,
    pub unix_epoch_diff_seconds: u64,
    pub recv_timestamp_offset: usize,
    pub transmit_timestamp_offset: usize,
    pub initial_sync_timeout_millis: u64,
    pub initial_sync_retry_interval_secs: u64,
    pub sync_timeout_millis: u64,
    pub sync_interval_min_secs: u64,
    pub sync_interval_max_secs: u64,
}

impl NtpConfig {
    /// The first rule that the settings break, in the order in which the
    /// rules are checked, or `Ok` where they break none.
    pub open spec fn verdict(self) -> Result<(), ConfigError> {
        if self.servers@.len() == 0 {
            Err(ConfigError::EmptyServerList)
        } else if self.packet_size == 0 {
            Err(ConfigError::ZeroPacketSize)
        } else if self.recv_timestamp_offset + 8 > self.packet_size {
            Err(ConfigError::RecvOffsetOutOfPacket)
        } else if self.transmit_timestamp_offset + 8 > self.packet_size {
            Err(ConfigError::TransmitOffsetOutOfPacket)
        } else if self.sync_interval_min_secs > self.sync_interval_max_secs {
            Err(ConfigError::SyncIntervalInverted)
        } else if self.unix_epoch_diff_seconds > u32::MAX {
            Err(ConfigError::EpochDiffTooLarge)
        } else {
            Ok(())
        }
    }

    /// How long the first synchronisation waits for a server's answer.
    pub fn initial_sync_timeout(&self) -> (d: Duration)
        ensures
            duration_nanos(d) == self.initial_sync_timeout_millis * 1_000_000,
    {
        duration_from_millis(self.initial_sync_timeout_millis)
    }

    /// How long the first synchronisation pauses after a failed query.
    pub fn initial_sync_retry_interval(&self) -> (d: Duration)
        ensures
            duration_nanos(d) == self.initial_sync_retry_interval_secs * 1_000_000_000,
    {
        duration_from_secs(self.initial_sync_retry_interval_secs)
    }

    /// How long a later query waits for a server's answer.
    pub fn sync_timeout(&self) -> (d: Duration)
        ensures
            duration_nanos(d) == self.sync_timeout_millis * 1_000_000,
    {
        duration_from_millis(self.sync_timeout_millis)
    }

    /// The distance between the NTP and the Unix epoch as a 32-bit number.
    pub fn unix_epoch_diff_u32(&self) -> (r: Result<u32, ConfigError>)
        ensures
            self.unix_epoch_diff_seconds <= u32::MAX ==> r == Ok::<u32, ConfigError>(
                self.unix_epoch_diff_seconds as u32,
            ),
            self.unix_epoch_diff_seconds > u32::MAX ==> r == Err::<u32, ConfigError>(
                ConfigError::EpochDiffTooLarge,
            ),
    {
        if self.unix_epoch_diff_seconds > 0xFFFF_FFFF {
            Err(ConfigError::EpochDiffTooLarge)
        } else {
            Ok(self.unix_epoch_diff_seconds as u32)
        }
    }

    /// Checks the settings against the rules, in their order.
    pub fn validate(&self) -> (r: Result<(), ConfigError>)
        ensures
            r == self.verdict(),
    {
        if self.servers.len() == 0 {
            return Err(ConfigError::EmptyServerList);
        }
        if self.packet_size == 0 {
            return Err(ConfigError::ZeroPacketSize);
        }
        if self.packet_size < 8 || self.recv_timestamp_offset > self.packet_size - 8 {
            return Err(ConfigError::RecvOffsetOutOfPacket);
        }
        if self.transmit_timestamp_offset > self.packet_size - 8 {
            return Err(ConfigError::TransmitOffsetOutOfPacket);
        }
        if self.sync_interval_min_secs > self.sync_interval_max_secs {
            return Err(ConfigError::SyncIntervalInverted);
        }
        match self.unix_epoch_diff_u32() {
            Ok(_) => Ok(()),
            Err(e) => Err(e),
        }
    }
}

/// The settings of the display.
#[derive(Clone, Debug)]
pub struct UiConfig {
    pub refresh_interval_millis: u64,
    pub time_format: String,
}

impl UiConfig {
    /// The first rule that the settings break, or `Ok` where they break none.
    pub open spec fn verdict(self) -> Result<(), ConfigError> {
        if self.refresh_interval_millis == 0 {
            Err(ConfigError::ZeroRefreshInterval)
        } else if is_blank(self.time_format@) {
            Err(ConfigError::BlankTimeFormat)
        } else {
            Ok(())
        }
    }

    /// The pause between two refreshes of the display.
    pub fn refresh_interval(&self) -> (d: Duration)
        ensures
            duration_nanos(d) == self.refresh_interval_millis * 1_000_000,
    {
        duration_from_millis(self.refresh_interval_millis)
    }

    /// Checks the settings against the rules, in their order.
    pub fn validate(&self) -> (r: Result<(), ConfigError>)
        ensures
            r == self.verdict(),
    {
        if self.refresh_interval_millis == 0 {
            return Err(ConfigError::ZeroRefreshInterval);
        }
        if text_is_blank(self.time_format.as_str()) {
            return Err(ConfigError::BlankTimeFormat);
        }
        Ok(())
    }
}

/// The setting of the clock: the time it shows when the program starts.
#[derive(Clone, Debug)]
pub struct ClockConfig {
    pub initial_utc: String,
}

/// The instant of `secs` whole seconds and `nanos` nanoseconds since the
/// Unix epoch, in nanoseconds.
pub open spec fn instant_nanos(secs: int, nanos: int) -> int {
    secs * 1_000_000_000 + nanos
}

/// What a parsed initial time becomes: nanoseconds since the Unix epoch, or
/// the reason why there are none.
pub open spec fn initial_utc_of(parsed: Option<(i64, u32)>) -> Result<i64, ConfigError> {
    match parsed {
        None => Err(ConfigError::InvalidInitialUtc),
        Some((secs, nanos)) => if i64::MIN <= instant_nanos(secs as int, nanos as int)
            <= i64::MAX {
            Ok(instant_nanos(secs as int, nanos as int) as i64)
        } else {
            Err(ConfigError::InitialUtcOutOfRange)
        },
    }
}

/// Turns a parsed initial time into nanoseconds since the Unix epoch.
pub fn resolve_initial_utc(parsed: Option<(i64, u32)>) -> (r: Result<i64, ConfigError>)
    ensures
        r == initial_utc_of(parsed),
{
    match parsed {
        None => Err(ConfigError::InvalidInitialUtc),
        Some((secs, nanos)) => {
            let total: i128 = secs as i128 * 1_000_000_000 + nanos as i128;
            if total < i64::MIN as i128 || total > i64::MAX as i128 {
                Err(ConfigError::InitialUtcOutOfRange)
            } else {
                Ok(total as i64)
            }
        },
    }
}

impl ClockConfig {
    /// The initial time in nanoseconds since the Unix epoch.
    pub fn initial_utc(&self) -> (r: Result<i64, ConfigError>)
        ensures
            r == initial_utc_of(rfc3339_instant(self.initial_utc@)),
    {
        resolve_initial_utc(parse_rfc3339(self.initial_utc.as_str()))
    }

    /// Checks that the initial time can be used: the verdict is the error of
    /// `initial_utc`, if it has one.
    pub fn validate(&self) -> (r: Result<(), ConfigError>)
        ensures
            r == match initial_utc_of(rfc3339_instant(self.initial_utc@)) {
                Ok(_) => Ok::<(), ConfigError>(()),
                Err(e) => Err::<(), ConfigError>(e),
            },
    {
        match self.initial_utc() {
            Ok(_) => Ok(()),
            Err(e) => Err(e),
        }
    }
}

} // verus!

//! NTP timestamps: 32-bit seconds since 1900 and a 32-bit binary fraction.

use vstd::prelude::*;

verus! {

/// Seconds between the NTP epoch (1900) and the Unix epoch (1970).
pub const NTP_UNIX_EPOCH_DIFF: u64 = 2_208_988_800;

/// Nanoseconds in one second.
pub const NANOS_PER_SEC: u64 = 1_000_000_000;

/// Sub-units of the binary fraction in one second: two to the power 32.
pub const FRACTION_PER_SEC: u64 = 0x1_0000_0000;

/// Why a time could not be converted or a response could not be used.
#[derive(Clone, Copy, Debug, PartialEq, Eq, Structural)]
pub enum NtpError {
    /// The server name did not resolve to an address.
    Resolve,
    /// Sending or receiving timed out.
    IoTimeout,
    /// Another failure of the socket.
    IoOther,
    /// Fewer bytes than one packet were received.
    ShortPacket,
    /// A timestamp of the response lies before the Unix epoch.
    TimestampDecode,
    /// A time or a duration is outside what the conversion can represent.
    ArithmeticOverflow,
    /// The delay of a sample is negative: the server claims to have held the
    /// request for longer than the whole exchange took.
    NegativeDelay,
}

/// A timestamp as it travels in an NTP packet.
#[derive(Clone, Copy, Debug, PartialEq, Eq, Structural)]
pub struct NtpTimestamp {
    pub seconds: u32,
    pub fraction: u32,
}

/// The big-endian value of four bytes.
pub open spec fn be_u32(b0: u8, b1: u8, b2: u8, b3: u8) -> int {
    b0 as int * 0x100_0000 + b1 as int * 0x1_0000 + b2 as int * 0x100 + b3 as int
}

/// The byte of `v` at position `k`, counted from the least significant one.
pub open spec fn byte_of(v: int, k: int) -> int {
    if k == 0 {
        v % 0x100
    } else if k == 1 {
        (v / 0x100) % 0x100
    } else if k == 2 {
        (v / 0x1_0000) % 0x100
    } else {
        (v / 0x100_0000) % 0x100
    }
}

/// The binary fraction that stands for `nanos` nanoseconds, rounded down.
pub open spec fn fraction_of_nanos(nanos: int) -> int {
    nanos * 0x1_0000_0000 / 1_000_000_000
}

/// The nanoseconds that the binary fraction `fraction` stands for, rounded down.
pub open spec fn nanos_of_fraction(fraction: int) -> int {
    fraction * 1_000_000_000 / 0x1_0000_0000
}

/// Whether the instant `unix_nanos` has an NTP timestamp: it is not before the
/// Unix epoch and its NTP seconds fit in 32 bits.
pub open spec fn encodable(unix_nanos: int) -> bool {
    0 <= unix_nanos && unix_nanos / 1_000_000_000 + 2_208_988_800 <= 0xFFFF_FFFF
}

fn be_word(b0: u8, b1: u8, b2: u8, b3: u8) -> (w: u32)
    ensures
        w == be_u32(b0, b1, b2, b3),
{
    let hi: u32 = b0 as u32 * 0x100_0000 + b1 as u32 * 0x1_0000;
    let lo: u32 = b2 as u32 * 0x100 + b3 as u32;
    hi + lo
}

fn word_byte(v: u32, k: u8) -> (b: u8)
    requires
        k < 4,
    ensures
        b == byte_of(v as int, k as int),
{
    if k == 0 {
        (v % 0x100) as u8
    } else if k == 1 {
        ((v / 0x100) % 0x100) as u8
    } else if k == 2 {
        ((v / 0x1_0000) % 0x100) as u8
    } else {
        ((v / 0x100_0000) % 0x100) as u8
    }
}

impl NtpTimestamp {
    /// The instant as nanoseconds since the Unix epoch, where it is not
    /// before that epoch.
    pub open spec fn unix_nanos(self) -> int {
        (self.seconds as int - 2_208_988_800) * 1_000_000_000 + nanos_of_fraction(
            self.fraction as int,
        )
    }

    /// The eight bytes of the timestamp in network order.
    pub open spec fn wire(self) -> Seq<u8> {
        seq![
            byte_of(self.seconds as int, 3) as u8,
            byte_of(self.seconds as int, 2) as u8,
            byte_of(self.seconds as int, 1) as u8,
            byte_of(self.seconds as int, 0) as u8,
            byte_of(self.fraction as int, 3) as u8,
            byte_of(self.fraction as int, 2) as u8,
            byte_of(self.fraction as int, 1) as u8,
            byte_of(self.fraction as int, 0) as u8,
        ]
    }

    /// The timestamp of the instant `unix_nanos`, where it is `encodable`.
    pub open spec fn encoded(unix_nanos: int) -> NtpTimestamp {
        NtpTimestamp {
            seconds: (unix_nanos / 1_000_000_000 + 2_208_988_800) as u32,
            fraction: fraction_of_nanos(unix_nanos % 1_000_000_000) as u32,
        }
    }

    /// The timestamp that eight bytes in network order stand for.
    pub open spec fn of_wire(bytes: Seq<u8>) -> NtpTimestamp {
        NtpTimestamp {
            seconds: be_u32(bytes[0], bytes[1], bytes[2], bytes[3]) as u32,
            fraction: be_u32(bytes[4], bytes[5], bytes[6], bytes[7]) as u32,
        }
    }

    /// Encodes an instant given as nanoseconds since the Unix epoch.
    ///
    /// Fails with `ArithmeticOverflow` exactly when the instant lies before
    /// the Unix epoch or its NTP seconds do not fit in 32 bits.
    pub fn from_unix_nanos(unix_nanos: i64) -> (r: Result<NtpTimestamp, NtpError>)
        ensures
            encodable(unix_nanos as int) ==> r == Ok::<NtpTimestamp, NtpError>(
                Self::encoded(unix_nanos as int),
            ),
            !encodable(unix_nanos as int) ==> r == Err::<NtpTimestamp, NtpError>(
                NtpError::ArithmeticOverflow,
            ),
    {
        if unix_nanos < 0 {
            return Err(NtpError::ArithmeticOverflow);
        }
        let total: u64 = unix_nanos as u64;
        let secs: u64 = total / NANOS_PER_SEC + NTP_UNIX_EPOCH_DIFF;
        if secs > 0xFFFF_FFFF {
            return Err(NtpError::ArithmeticOverflow);
        }
        let nanos: u64 = total % NANOS_PER_SEC;
        let fraction: u64 = nanos * FRACTION_PER_SEC / NANOS_PER_SEC;
        Ok(NtpTimestamp { seconds: secs as u32, fraction: fraction as u32 })
    }

    /// Decodes the timestamp to nanoseconds since the Unix epoch.
    ///
    /// Fails with `TimestampDecode` exactly when the timestamp lies before the
    /// Unix epoch.
    pub fn to_system_time(self) -> (r: Result<i64, NtpError>)
        ensures
            self.seconds >= NTP_UNIX_EPOCH_DIFF ==> r == Ok::<i64, NtpError>(
                self.unix_nanos() as i64,
            ) && i64::MIN <= self.unix_nanos() <= i64::MAX,
            self.seconds < NTP_UNIX_EPOCH_DIFF ==> r == Err::<i64, NtpError>(
                NtpError::TimestampDecode,
            ),
    {
        if (self.seconds as u64) < NTP_UNIX_EPOCH_DIFF {
            return Err(NtpError::TimestampDecode);
        }
        let unix_secs: u64 = self.seconds as u64 - NTP_UNIX_EPOCH_DIFF;
        let nanos: u64 = self.fraction as u64 * NANOS_PER_SEC / FRACTION_PER_SEC;
        Ok((unix_secs * NANOS_PER_SEC + nanos) as i64)
    }

    /// Reads a timestamp from eight bytes in network order.
    pub fn from_bytes(bytes: [u8; 8]) -> (ts: NtpTimestamp)
        ensures
            ts == Self::of_wire(bytes@),
    {
        let seconds = be_word(bytes[0], bytes[1], bytes[2], bytes[3]);
        let fraction = be_word(bytes[4], bytes[5], bytes[6], bytes[7]);
        NtpTimestamp { seconds, fraction }
    }

    /// Writes the timestamp as eight bytes in network order.
    pub fn to_bytes(self) -> (bytes: [u8; 8])
        ensures
            bytes@ == self.wire(),
    {
        let bytes = [
            word_byte(self.seconds, 3),
            word_byte(self.seconds, 2),
            word_byte(self.seconds, 1),
            word_byte(self.seconds, 0),
            word_byte(self.fraction, 3),
            word_byte(self.fraction, 2),
            word_byte(self.fraction, 1),
            word_byte(self.fraction, 0),
        ];
        assert(bytes@ =~= self.wire());
        bytes
    }
}

/// The four bytes of a 32-bit value, most significant first, are bytes and
/// put together give the value back.
proof fn lemma_word_bytes(v: int)
    requires
        0 <= v < 0x1_0000_0000,
    ensures
        0 <= byte_of(v, 0) < 0x100,
        0 <= byte_of(v, 1) < 0x100,
        0 <= byte_of(v, 2) < 0x100,
        0 <= byte_of(v, 3) < 0x100,
        byte_of(v, 3) * 0x100_0000 + byte_of(v, 2) * 0x1_0000 + byte_of(v, 1) * 0x100 + byte_of(
            v,
            0,
        ) == v,
{
    let a = v / 0x100;
    let b = a / 0x100;
    let c = b / 0x100;
    assert(v == a * 0x100 + v % 0x100);
    assert(a == b * 0x100 + a % 0x100);
    assert(b == c * 0x100 + b % 0x100);
    assert(v / 0x1_0000 == b);
    assert(v / 0x100_0000 == c);
    assert(0 <= c < 0x100);
}

/// A value put together from four bytes has exactly these bytes.
proof fn lemma_bytes_word(b0: u8, b1: u8, b2: u8, b3: u8)
    ensures
        0 <= be_u32(b0, b1, b2, b3) < 0x1_0000_0000,
        byte_of(be_u32(b0, b1, b2, b3), 3) == b0,
        byte_of(be_u32(b0, b1, b2, b3), 2) == b1,
        byte_of(be_u32(b0, b1, b2, b3), 1) == b2,
        byte_of(be_u32(b0, b1, b2, b3), 0) == b3,
{
    let v = be_u32(b0, b1, b2, b3);
    let a = b0 as int * 0x1_0000 + b1 as int * 0x100 + b2 as int;
    let b = b0 as int * 0x100 + b1 as int;
    assert(v == a * 0x100 + b3 as int);
    assert(v / 0x100 == a && v % 0x100 == b3 as int);
    assert(a == b * 0x100 + b2 as int);
    assert(a / 0x100 == b && a % 0x100 == b2 as int);
    assert(v / 0x1_0000 == b);
    assert(b / 0x100 == b0 as int && b % 0x100 == b1 as int);
    assert(v / 0x100_0000 == b0 as int);
}

/// Writing a timestamp to bytes and reading it back gives the same timestamp.
pub proof fn lemma_wire_round_trip(ts: NtpTimestamp)
    ensures
        ts.wire().len() == 8,
        NtpTimestamp::of_wire(ts.wire()) == ts,
{
    lemma_word_bytes(ts.seconds as int);
    lemma_word_bytes(ts.fraction as int);
}

/// Reading a timestamp from eight bytes and writing it gives the same bytes.
pub proof fn lemma_wire_is_canonical(bytes: Seq<u8>)
    requires
        bytes.len() == 8,
    ensures
        NtpTimestamp::of_wire(bytes).wire() == bytes,
{
    lemma_bytes_word(bytes[0], bytes[1], bytes[2], bytes[3]);
    lemma_bytes_word(bytes[4], bytes[5], bytes[6], bytes[7]);
    assert(NtpTimestamp::of_wire(bytes).wire() =~= bytes);
}

/// Encoding an instant and decoding it again keeps the second and gives the
/// instant itself or the nanosecond before it.
pub proof fn lemma_instant_round_trip(unix_nanos: int)
    requires
        encodable(unix_nanos),
    ensures
        NtpTimestamp::encoded(unix_nanos).seconds >= NTP_UNIX_EPOCH_DIFF,
        unix_nanos - 1 <= NtpTimestamp::encoded(unix_nanos).unix_nanos() <= unix_nanos,
{
    let secs = unix_nanos / 1_000_000_000;
    let nanos = unix_nanos % 1_000_000_000;
    let fraction = fraction_of_nanos(nanos);
    assert(0 <= fraction < 0x1_0000_0000);
    let back = nanos_of_fraction(fraction);
    assert(fraction * 1_000_000_000 <= nanos * 0x1_0000_0000);
    assert(nanos * 0x1_0000_0000 < (fraction + 1) * 1_000_000_000);
    assert(nanos - 1 <= back <= nanos);
}

/// Decoding a timestamp and encoding it again keeps the seconds and lowers
/// the fraction by at most five sub-units, the width of one nanosecond.
pub proof fn lemma_timestamp_round_trip(ts: NtpTimestamp)
    requires
        ts.seconds >= NTP_UNIX_EPOCH_DIFF,
    ensures
        encodable(ts.unix_nanos()),
        NtpTimestamp::encoded(ts.unix_nanos()).seconds == ts.seconds,
        ts.fraction - 5 <= NtpTimestamp::encoded(ts.unix_nanos()).fraction <= ts.fraction,
{
    let fraction = ts.fraction as int;
    let nanos = nanos_of_fraction(fraction);
    assert(0 <= nanos < 1_000_000_000);
    assert(nanos * 0x1_0000_0000 <= fraction * 1_000_000_000);
    assert(fraction * 1_000_000_000 < (nanos + 1) * 0x1_0000_0000);
    let total = ts.unix_nanos();
    let secs = ts.seconds as int - 2_208_988_800;
    assert(total == secs * 1_000_000_000 + nanos);
    assert(total / 1_000_000_000 == secs && total % 1_000_000_000 == nanos);
    let again = fraction_of_nanos(nanos);
    assert(fraction - 5 <= again <= fraction);
}

} // verus!

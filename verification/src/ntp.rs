//! The client side of one NTP exchange: the request packet, the reading of
//! the response, and the offset and delay that four timestamps give.

use crate::timestamp::{encodable, NtpError, NtpTimestamp, NTP_UNIX_EPOCH_DIFF};
use vstd::prelude::*;

verus! {

/// The UDP port of the protocol.
pub const NTP_PORT: u16 = 123;

/// The length of a request and the least length of a response.
pub const NTP_PACKET_SIZE: usize = 48;

/// Where the server's receive timestamp stands in a response.
pub const RECV_TS_OFFSET: usize = 32;

/// Where the transmit timestamp stands in a request and in a response.
pub const TX_TS_OFFSET: usize = 40;

/// The first byte of a request: no leap warning, version 4, client mode.
pub const CLIENT_HEADER: u8 = 0x23;

/// The client request that carries `t1` as its transmit timestamp.
pub open spec fn request_packet(t1: NtpTimestamp) -> Seq<u8> {
    Seq::new(
        48,
        |i: int|
            if i == 0 {
                0x23u8
            } else if i >= 40 {
                t1.wire()[i - 40]
            } else {
                0u8
            },
    )
}

/// The timestamp that stands at `offset` in `packet`.
pub open spec fn timestamp_at(packet: Seq<u8>, offset: int) -> NtpTimestamp {
    NtpTimestamp::of_wire(packet.subrange(offset, offset + 8))
}

/// The clock offset that the four timestamps of an exchange give: half the
/// sum of the two one-way differences, rounded down.
pub open spec fn offset_of(t1: int, t2: int, t3: int, t4: int) -> int {
    ((t2 - t1) + (t3 - t4)) / 2
}

/// The round-trip delay that the four timestamps give: the time the client
/// waited less the time the server held the request.
pub open spec fn delay_of(t1: int, t2: int, t3: int, t4: int) -> int {
    (t4 - t1) - (t3 - t2)
}

/// Whether `v` is a value of a signed 64-bit integer.
pub open spec fn fits_i64(v: int) -> bool {
    i64::MIN <= v <= i64::MAX
}

/// What an exchange with the timestamps `t1` to `t4` yields: offset and
/// delay, or `ArithmeticOverflow` where one of them does not fit.
pub open spec fn exchange_outcome(t1: int, t2: int, t3: int, t4: int) -> Result<
    (i64, i64),
    NtpError,
> {
    if fits_i64(offset_of(t1, t2, t3, t4)) && fits_i64(delay_of(t1, t2, t3, t4)) {
        Ok((offset_of(t1, t2, t3, t4) as i64, delay_of(t1, t2, t3, t4) as i64))
    } else {
        Err(NtpError::ArithmeticOverflow)
    }
}

/// What a query yields that sent its request at program time `t1`, waited
/// `round_trip` nanoseconds of monotonic time and received `response`.
///
/// A response is refused, in this order, where it is shorter than a packet,
/// where the client's receive time is not representable, where one of the
/// server's timestamps lies before the Unix epoch, and where the server
/// held the request for longer than the round trip, so that the delay would
/// be negative. What is left is an exchange whose delay is not negative.
pub open spec fn query_outcome(t1: int, round_trip: int, response: Seq<u8>) -> Result<
    (i64, i64),
    NtpError,
> {
    let t2 = timestamp_at(response, 32);
    let t3 = timestamp_at(response, 40);
    if response.len() < 48 {
        Err(NtpError::ShortPacket)
    } else if !fits_i64(t1 + round_trip) {
        Err(NtpError::ArithmeticOverflow)
    } else if t2.seconds < NTP_UNIX_EPOCH_DIFF || t3.seconds < NTP_UNIX_EPOCH_DIFF {
        Err(NtpError::TimestampDecode)
    } else if delay_of(t1, t2.unix_nanos(), t3.unix_nanos(), t1 + round_trip) < 0 {
        Err(NtpError::NegativeDelay)
    } else {
        exchange_outcome(t1, t2.unix_nanos(), t3.unix_nanos(), t1 + round_trip)
    }
}

/// Builds the 48-byte client request for a query that starts at program time
/// `t1`, in nanoseconds since the Unix epoch.
///
/// Fails with `ArithmeticOverflow` exactly when `t1` has no NTP timestamp.
pub fn build_request(t1: i64) -> (r: Result<[u8; 48], NtpError>)
    ensures
        encodable(t1 as int) ==> r is Ok && r->Ok_0@ == request_packet(
            NtpTimestamp::encoded(t1 as int),
        ),
        !encodable(t1 as int) ==> r == Err::<[u8; 48], NtpError>(NtpError::ArithmeticOverflow),
{
    let stamp = match NtpTimestamp::from_unix_nanos(t1) {
        Ok(stamp) => stamp,
        Err(e) => {
            return Err(e);
        },
    };
    let bytes = stamp.to_bytes();
    let mut packet = [0u8; 48];
    packet[0] = CLIENT_HEADER;
    let mut i: usize = 0;
    while i < 8
        invariant
            i <= 8,
            bytes@ == stamp.wire(),
            packet@.len() == 48,
            packet@[0] == 0x23u8,
            forall|k: int| 1 <= k < 40 ==> packet@[k] == 0u8,
            forall|k: int| 40 <= k < 40 + i ==> packet@[k] == stamp.wire()[k - 40],
        decreases 8 - i,
    {
        packet[TX_TS_OFFSET + i] = bytes[i];
        i = i + 1;
    }
    assert(packet@ =~= request_packet(stamp));
    Ok(packet)
}

/// Reads the timestamp that stands at `offset` in `packet`.
pub fn read_timestamp(packet: &[u8], offset: usize) -> (ts: NtpTimestamp)
    requires
        offset + 8 <= packet@.len(),
    ensures
        ts == timestamp_at(packet@, offset as int),
{
    let bytes = [
        packet[offset],
        packet[offset + 1],
        packet[offset + 2],
        packet[offset + 3],
        packet[offset + 4],
        packet[offset + 5],
        packet[offset + 6],
        packet[offset + 7],
    ];
    assert(bytes@ =~= packet@.subrange(offset as int, offset + 8));
    NtpTimestamp::from_bytes(bytes)
}

/// Half of `v`, rounded down.
fn half_floor(v: i128) -> (h: i128)
    ensures
        h == v as int / 2,
{
    if v >= 0 {
        v / 2
    } else {
        let up: i128 = (v + 1) / 2;
        up - 1
    }
}

/// Computes offset and delay from the four timestamps of an exchange, each
/// in nanoseconds since the Unix epoch: `t1` client send, `t2` server
/// receive, `t3` server transmit, `t4` client receive.
pub fn exchange(t1: i64, t2: i64, t3: i64, t4: i64) -> (r: Result<(i64, i64), NtpError>)
    ensures
        r == exchange_outcome(t1 as int, t2 as int, t3 as int, t4 as int),
{
    let sum: i128 = (t2 as i128 - t1 as i128) + (t3 as i128 - t4 as i128);
    let offset: i128 = half_floor(sum);
    let delay: i128 = (t4 as i128 - t1 as i128) - (t3 as i128 - t2 as i128);
    if offset < i64::MIN as i128 || offset > i64::MAX as i128 {
        return Err(NtpError::ArithmeticOverflow);
    }
    if delay < i64::MIN as i128 || delay > i64::MAX as i128 {
        return Err(NtpError::ArithmeticOverflow);
    }
    Ok((offset as i64, delay as i64))
}

/// Evaluates the response to a query: `t1` is the program time at which the
/// request was sent, `round_trip` the monotonic nanoseconds until the
/// response arrived, `response` the bytes received.
///
/// The client's receive time is `t1 + round_trip`, so that it is measured
/// against the same clock as `t1`. The delay of a sample that is returned
/// is never negative.
pub fn finish_query(t1: i64, round_trip: u64, response: &[u8]) -> (r: Result<
    (i64, i64),
    NtpError,
>)
    ensures
        r == query_outcome(t1 as int, round_trip as int, response@),
        r is Ok ==> r->Ok_0.1 >= 0,
{
    if response.len() < NTP_PACKET_SIZE {
        return Err(NtpError::ShortPacket);
    }
    let t4_wide: i128 = t1 as i128 + round_trip as i128;
    if t4_wide > i64::MAX as i128 {
        return Err(NtpError::ArithmeticOverflow);
    }
    let t4: i64 = t4_wide as i64;
    let t2_stamp = read_timestamp(response, RECV_TS_OFFSET);
    let t3_stamp = read_timestamp(response, TX_TS_OFFSET);
    let t2 = match t2_stamp.to_system_time() {
        Ok(t) => t,
        Err(e) => {
            return Err(e);
        },
    };
    let t3 = match t3_stamp.to_system_time() {
        Ok(t) => t,
        Err(e) => {
            return Err(e);
        },
    };
    let held: i128 = t3 as i128 - t2 as i128;
    if (round_trip as i128) < held {
        return Err(NtpError::NegativeDelay);
    }
    exchange(t1, t2, t3, t4)
}

/// What the exchange measures. Let the server's clock be `theta` ahead of
/// the client's, let the request travel for `out`, the server hold it for
/// `held` and the response travel for `back`. Then the delay is the time
/// spent on the network, and the offset is `theta` with an error of half the
/// difference between the two ways: on a symmetric path it is `theta`
/// exactly.
pub proof fn lemma_exchange_measures_offset(
    t1: int,
    theta: int,
    out: nat,
    held: nat,
    back: nat,
)
    ensures
        ({
            let t2 = t1 + out + theta;
            let t3 = t2 + held;
            let t4 = t1 + out + held + back;
            &&& delay_of(t1, t2, t3, t4) == out + back
            &&& offset_of(t1, t2, t3, t4) == (2 * theta + out - back) / 2
            &&& out == back ==> offset_of(t1, t2, t3, t4) == theta
            &&& 2 * (offset_of(t1, t2, t3, t4) - theta) <= delay_of(t1, t2, t3, t4)
            &&& 2 * (theta - offset_of(t1, t2, t3, t4)) <= delay_of(t1, t2, t3, t4) + 1
        }),
{
}

} // verus!

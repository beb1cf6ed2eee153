use ntp_clock::ntp::{build_request, exchange, finish_query, read_timestamp};
use ntp_clock::timestamp::{NtpError, NtpTimestamp};

const SEC: i64 = 1_000_000_000;

fn response(t2: NtpTimestamp, t3: NtpTimestamp) -> Vec<u8> {
    let mut packet = vec![0u8; 48];
    packet[0] = 0x24;
    packet[32..40].copy_from_slice(&t2.to_bytes());
    packet[40..48].copy_from_slice(&t3.to_bytes());
    packet
}

#[test]
fn offset_and_delay_of_four_timestamps() {
    let r = exchange(1000 * SEC, 1005 * SEC, 1006 * SEC, 1002 * SEC);
    assert_eq!(r, Ok((4_500_000_000, SEC)));
}

#[test]
fn offset_is_rounded_down() {
    assert_eq!(exchange(0, 1, 0, 0), Ok((0, 1)));
    assert_eq!(exchange(1, 0, 0, 0), Ok((-1, -1)));
    assert_eq!(exchange(0, 3, 0, 0), Ok((1, 3)));
    assert_eq!(exchange(3, 0, 0, 0), Ok((-2, -3)));
    assert_eq!(exchange(0, -4, 0, 0), Ok((-2, -4)));
}

#[test]
fn exchange_of_a_clock_that_is_right() {
    assert_eq!(exchange(100, 110, 115, 125), Ok((0, 20)));
}

#[test]
fn exchange_reports_overflow() {
    assert_eq!(exchange(i64::MIN, i64::MAX, i64::MAX, i64::MIN), Err(NtpError::ArithmeticOverflow));
    assert_eq!(exchange(i64::MIN, i64::MAX, 0, i64::MAX), Err(NtpError::ArithmeticOverflow));
    assert_eq!(exchange(0, i64::MAX, i64::MAX, 0), Ok((i64::MAX, 0)));
    assert_eq!(exchange(0, i64::MIN, i64::MIN, 0), Ok((i64::MIN, 0)));
}

#[test]
fn request_has_client_header_and_transmit_timestamp() {
    let packet = build_request(946_684_800 * SEC + 500_000_000).unwrap();
    assert_eq!(packet.len(), 48);
    assert_eq!(packet[0], 0b00_100_011);
    assert!(packet[1..40].iter().all(|b| *b == 0));
    assert_eq!(&packet[40..48], &[0xBC, 0x17, 0xC2, 0x00, 0x80, 0, 0, 0]);
}

#[test]
fn request_needs_an_encodable_time() {
    assert_eq!(build_request(-1), Err(NtpError::ArithmeticOverflow));
    assert_eq!(build_request(i64::MAX), Err(NtpError::ArithmeticOverflow));
}

#[test]
fn read_timestamp_at_both_slots() {
    let t2 = NtpTimestamp { seconds: 0x0102_0304, fraction: 0x0506_0708 };
    let t3 = NtpTimestamp { seconds: 0xA0B0_C0D0, fraction: 0xE0F0_0102 };
    let packet = response(t2, t3);
    assert_eq!(read_timestamp(&packet, 32), t2);
    assert_eq!(read_timestamp(&packet, 40), t3);
}

#[test]
fn finish_query_computes_offset_and_delay() {
    let unix = |s: i64| NtpTimestamp::from_unix_nanos(s * SEC).unwrap();
    let packet = response(unix(1005), unix(1006));
    assert_eq!(finish_query(1000 * SEC, 2 * SEC as u64, &packet), Ok((4_500_000_000, SEC)));
}

#[test]
fn finish_query_rejects_short_packet() {
    let unix = |s: i64| NtpTimestamp::from_unix_nanos(s * SEC).unwrap();
    let packet = response(unix(1005), unix(1006));
    assert_eq!(finish_query(1000 * SEC, 0, &packet[..47]), Err(NtpError::ShortPacket));
    assert_eq!(finish_query(1000 * SEC, 0, &[]), Err(NtpError::ShortPacket));
    assert_eq!(finish_query(i64::MAX, 1, &packet[..47]), Err(NtpError::ShortPacket));
}

#[test]
fn finish_query_accepts_longer_packet() {
    let unix = |s: i64| NtpTimestamp::from_unix_nanos(s * SEC).unwrap();
    let mut packet = response(unix(1005), unix(1006));
    packet.extend_from_slice(&[0xFF; 20]);
    assert_eq!(finish_query(1000 * SEC, 2 * SEC as u64, &packet), Ok((4_500_000_000, SEC)));
}

#[test]
fn finish_query_rejects_timestamps_before_unix_epoch() {
    let unix = |s: i64| NtpTimestamp::from_unix_nanos(s * SEC).unwrap();
    let early = NtpTimestamp { seconds: 1, fraction: 0 };
    assert_eq!(
        finish_query(1000 * SEC, 0, &response(early, unix(1006))),
        Err(NtpError::TimestampDecode)
    );
    assert_eq!(
        finish_query(1000 * SEC, 0, &response(unix(1005), early)),
        Err(NtpError::TimestampDecode)
    );
    assert_eq!(finish_query(1000 * SEC, 0, &[0u8; 48]), Err(NtpError::TimestampDecode));
}

#[test]
fn finish_query_reports_overflow_of_receive_time() {
    let unix = |s: i64| NtpTimestamp::from_unix_nanos(s * SEC).unwrap();
    let packet = response(unix(1005), unix(1006));
    assert_eq!(finish_query(i64::MAX, 1, &packet), Err(NtpError::ArithmeticOverflow));
    assert_eq!(finish_query(0, u64::MAX, &packet), Err(NtpError::ArithmeticOverflow));
    assert_eq!(finish_query(1, i64::MAX as u64, &[0u8; 48]), Err(NtpError::ArithmeticOverflow));
}

#[test]
fn finish_query_measures_receive_time_from_send_time() {
    let unix = |s: i64| NtpTimestamp::from_unix_nanos(s * SEC).unwrap();
    let packet = response(unix(2000), unix(2000));
    assert_eq!(finish_query(2000 * SEC, 0, &packet), Ok((0, 0)));
    assert_eq!(finish_query(2000 * SEC, 10, &packet), Ok((-5, 10)));
    assert_eq!(finish_query(2000 * SEC, 11, &packet), Ok((-6, 11)));
}

#[test]
fn symmetric_path_measures_the_true_offset() {
    let (theta, out, held, back) = (250i64, 30i64, 5i64, 30i64);
    let t1 = 1_000_000;
    let t2 = t1 + out + theta;
    let t3 = t2 + held;
    let t4 = t1 + out + held + back;
    assert_eq!(exchange(t1, t2, t3, t4), Ok((250, 60)));
    let t4 = t1 + out + held + 50;
    assert_eq!(exchange(t1, t2, t3, t4), Ok((240, 80)));
}

#[test]
fn finish_query_rejects_negative_delay() {
    let unix = |s: i64| NtpTimestamp::from_unix_nanos(s * SEC).unwrap();
    let packet = response(unix(1005), unix(1010));
    assert_eq!(finish_query(1000 * SEC, 2 * SEC as u64, &packet), Err(NtpError::NegativeDelay));
    assert_eq!(finish_query(1000 * SEC, 5 * SEC as u64 - 1, &packet), Err(NtpError::NegativeDelay));
    assert_eq!(finish_query(1000 * SEC, 0, &packet), Err(NtpError::NegativeDelay));
}

#[test]
fn finish_query_accepts_zero_delay() {
    let unix = |s: i64| NtpTimestamp::from_unix_nanos(s * SEC).unwrap();
    let packet = response(unix(1005), unix(1010));
    assert_eq!(finish_query(1000 * SEC, 5 * SEC as u64, &packet), Ok((5 * SEC, 0)));
    assert_eq!(finish_query(1000 * SEC, 5 * SEC as u64 + 1, &packet), Ok((4_999_999_999, 1)));
}

#[test]
fn finish_query_checks_timestamps_before_the_delay() {
    let unix = |s: i64| NtpTimestamp::from_unix_nanos(s * SEC).unwrap();
    let early = NtpTimestamp { seconds: 1, fraction: 0 };
    assert_eq!(
        finish_query(1000 * SEC, 0, &response(early, unix(1010))),
        Err(NtpError::TimestampDecode)
    );
    let packet = response(unix(1005), unix(1010));
    assert_eq!(finish_query(i64::MAX, 1, &packet), Err(NtpError::ArithmeticOverflow));
    assert_eq!(finish_query(1000 * SEC, 0, &packet[..40]), Err(NtpError::ShortPacket));
}

#[test]
fn exchange_keeps_the_bare_formulas() {
    assert_eq!(
        exchange(1000 * SEC, 1005 * SEC, 1010 * SEC, 1002 * SEC),
        Ok((6_500_000_000, -3_000_000_000))
    );
}

#[test]
fn returned_delay_is_never_negative() {
    let unix = |s: i64| NtpTimestamp::from_unix_nanos(s * SEC).unwrap();
    for held in 0..6i64 {
        for round_trip in 0..6u64 {
            let packet = response(unix(2000), unix(2000 + held));
            match finish_query(1990 * SEC, round_trip * SEC as u64, &packet) {
                Ok((_, delay)) => {
                    assert!(delay >= 0);
                    assert_eq!(delay, (round_trip as i64 - held) * SEC);
                }
                Err(e) => {
                    assert_eq!(e, NtpError::NegativeDelay);
                    assert!((round_trip as i64) < held);
                }
            }
        }
    }
}

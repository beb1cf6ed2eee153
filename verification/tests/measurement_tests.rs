use ntp_clock::measurement::{
    measure, nanos_to_micros, nanos_to_millis, split_micros, Measurement, MicrosParts,
    MAX_EXACT_MICROS,
};
use ntp_clock::timestamp::NtpError;

fn parts(negative: bool, high: u32, low: u32) -> MicrosParts {
    MicrosParts { negative, high, low }
}

#[test]
fn microseconds_are_rounded_towards_zero() {
    assert_eq!(nanos_to_micros(0), 0);
    assert_eq!(nanos_to_micros(999), 0);
    assert_eq!(nanos_to_micros(1_000), 1);
    assert_eq!(nanos_to_micros(1_999), 1);
    assert_eq!(nanos_to_micros(-999), 0);
    assert_eq!(nanos_to_micros(-1_000), -1);
    assert_eq!(nanos_to_micros(-1_500), -1);
    assert_eq!(nanos_to_micros(i64::MAX), 9_223_372_036_854_775);
    assert_eq!(nanos_to_micros(i64::MIN), -9_223_372_036_854_775);
}

#[test]
fn milliseconds_are_rounded_towards_zero() {
    assert_eq!(nanos_to_millis(2_000_000), 2);
    assert_eq!(nanos_to_millis(2_999_999), 2);
    assert_eq!(nanos_to_millis(-2_999_999), -2);
    assert_eq!(nanos_to_millis(-999_999), 0);
}

#[test]
fn split_small_counts() {
    assert_eq!(split_micros(0), Ok(parts(false, 0, 0)));
    assert_eq!(split_micros(10_000), Ok(parts(false, 0, 10_000)));
    assert_eq!(split_micros(-10_000), Ok(parts(true, 0, 10_000)));
    assert_eq!(split_micros(0xFFFF_FFFF), Ok(parts(false, 0, u32::MAX)));
    assert_eq!(split_micros(0x1_0000_0000), Ok(parts(false, 1, 0)));
    assert_eq!(split_micros(-0x1_0000_0005), Ok(parts(true, 1, 5)));
}

#[test]
fn split_at_the_limit_of_exact_floats() {
    let max = MAX_EXACT_MICROS as i64;
    assert_eq!(max, 1i64 << 53);
    assert_eq!(split_micros(max), Ok(parts(false, 0x20_0000, 0)));
    assert_eq!(split_micros(-max), Ok(parts(true, 0x20_0000, 0)));
    assert_eq!(split_micros(max - 1), Ok(parts(false, 0x1F_FFFF, u32::MAX)));
    assert_eq!(split_micros(max + 1), Err(NtpError::ArithmeticOverflow));
    assert_eq!(split_micros(-max - 1), Err(NtpError::ArithmeticOverflow));
    assert_eq!(split_micros(i64::MAX), Err(NtpError::ArithmeticOverflow));
    assert_eq!(split_micros(i64::MIN), Err(NtpError::ArithmeticOverflow));
}

#[test]
fn parts_give_the_count_back_as_a_float() {
    for micros in [0i64, 1, -1, 20_000, -4_500_000, 0x1_0000_0000, -(1i64 << 53), (1i64 << 53) - 1] {
        let p = split_micros(micros).unwrap();
        let abs = f64::from(p.high) * 4_294_967_296.0 + f64::from(p.low);
        let value = if p.negative { -abs } else { abs };
        assert_eq!(value, micros as f64);
        assert_eq!(value as i64, micros);
    }
}

#[test]
fn measure_ten_milliseconds_offset_two_milliseconds_delay() {
    assert_eq!(
        measure(10_000_000, 2_000_000),
        Ok(Measurement {
            offset: parts(false, 0, 10_000),
            delay: parts(false, 0, 2_000),
            delay_millis: 2,
        })
    );
    assert_eq!(
        measure(-10_000_999, 2_999_999),
        Ok(Measurement {
            offset: parts(true, 0, 10_000),
            delay: parts(false, 0, 2_999),
            delay_millis: 2,
        })
    );
}

#[test]
fn measure_rejects_what_a_float_cannot_hold() {
    let limit = (1i64 << 53) * 1000;
    assert!(measure(limit + 999, 0).is_ok());
    assert_eq!(measure(limit + 1000, 0), Err(NtpError::ArithmeticOverflow));
    assert_eq!(measure(0, limit + 1000), Err(NtpError::ArithmeticOverflow));
    assert_eq!(measure(-limit - 1000, 0), Err(NtpError::ArithmeticOverflow));
    assert_eq!(measure(i64::MIN, i64::MAX), Err(NtpError::ArithmeticOverflow));
    assert!(measure(-limit - 999, limit).is_ok());
}

#[test]
fn measure_rejects_negative_delay() {
    assert_eq!(measure(6_500_000_000, -3_000_000_000), Err(NtpError::NegativeDelay));
    assert_eq!(measure(0, -1), Err(NtpError::NegativeDelay));
    assert_eq!(measure(-5, -999), Err(NtpError::NegativeDelay));
    assert!(measure(-5, 0).is_ok());
}

#[test]
fn measure_checks_the_range_before_the_sign() {
    let limit = (1i64 << 53) * 1000;
    assert_eq!(measure(0, -limit - 1000), Err(NtpError::ArithmeticOverflow));
    assert_eq!(measure(limit + 1000, -1), Err(NtpError::ArithmeticOverflow));
    assert_eq!(measure(0, -limit), Err(NtpError::NegativeDelay));
}

#[test]
fn measured_delay_is_never_negative() {
    for delay in [-2_000_000i64, -1, 0, 1, 999, 1_000, 2_000_000] {
        match measure(123, delay) {
            Ok(m) => {
                assert!(delay >= 0);
                assert!(!m.delay.negative);
                assert!(m.delay_millis >= 0);
            }
            Err(e) => {
                assert!(delay < 0);
                assert_eq!(e, NtpError::NegativeDelay);
            }
        }
    }
}

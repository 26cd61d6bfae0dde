use elsys_uplink::{
    bin16_to_dec, close, verify_array_length, verify_pattern_matches, DecodeError, Occupancy,
    Uplink,
};

fn decode_b64(s: &str) -> Vec<u8> {
    base64::decode(s).unwrap()
}

#[test]
fn uplink_partial_eq() {
    let uplink0 = Uplink {
        temperature_x10: Some(221),
        co2: Some(9876),
        battery_mv: Some(3809),
        occupancy: Some(Occupancy::OccupiedOrHeat),
        external_digital: Some(false),
    };

    let uplink1 = uplink0.clone();

    assert_eq!(uplink0, uplink1);
}

#[test]
fn test_close() {
    // values and resolutions in hundredths
    assert!(close(Some(100), Some(100), 100));
    assert!(close(Some(980), Some(961), 40));
    assert!(!close(Some(980), Some(959), 40));
}

#[test]
fn deserialize_00() {
    let expected_output = Uplink {
        occupancy: Some(Occupancy::PendingOrPir),
        ..Uplink::default()
    };

    assert_eq!(
        expected_output,
        Uplink::deserialize(&decode_b64("BQERAQ==")).unwrap()
    )
}

#[test]
fn deserialize_01() {
    let expected_output = Uplink {
        temperature_x10: Some(220),
        battery_mv: Some(3649),
        ..Uplink::default()
    };

    assert_eq!(
        expected_output,
        Uplink::deserialize(&decode_b64("AQDcAjwHDkE=")).unwrap()
    )
}

#[test]
fn deserialize_02() {
    let expected_output = Uplink {
        temperature_x10: Some(249),
        battery_mv: Some(3658),
        ..Uplink::default()
    };

    assert_eq!(
        expected_output,
        Uplink::deserialize(&decode_b64("AQD5AjYEAk8FAgcOSg==")).unwrap()
    )
}

#[test]
fn deserialize_03() {
    let expected_output = Uplink {
        temperature_x10: Some(212),
        battery_mv: Some(3613),
        occupancy: Some(Occupancy::PendingOrPir),
        ..Uplink::default()
    };

    assert_eq!(
        expected_output,
        Uplink::deserialize(&decode_b64("AQDUAigEABQFAAcOHREB")).unwrap()
    )
}

#[test]
fn deserialize_no_identifier() {
    assert!(Uplink::deserialize(&[0x20, 0x00, 0x00]).is_err());
}

#[test]
fn deserialize_too_short() {
    assert!(Uplink::deserialize(&[0x06, 0x00]).is_err());
    assert!(Uplink::deserialize(&[0x06, 0x00, 0x00]).is_ok());
}

#[test]
fn empty_input_gives_empty_record() {
    let u = Uplink::deserialize(&[]).unwrap();
    assert_eq!(u.temperature_x10(), None);
    assert_eq!(u.co2_ppm(), None);
    assert_eq!(u.battery_mv(), None);
    assert_eq!(u.occupancy(), None);
    assert_eq!(u.external_digital(), None);
}

#[test]
fn unknown_tag_error_carries_position() {
    let e = Uplink::deserialize(&[0x20]).unwrap_err();
    assert_eq!(e.kind, DecodeError::UnrecognizedTag { index: 0, value: 0x20 });
    assert_eq!(e.input, vec![0x20]);
    let e = Uplink::deserialize(&[0x02, 0x10, 0xff, 0x00]).unwrap_err();
    assert_eq!(e.kind, DecodeError::UnrecognizedTag { index: 2, value: 0xff });
}

#[test]
fn truncated_error_carries_size() {
    let e = Uplink::deserialize(&[0x06, 0x00]).unwrap_err();
    assert_eq!(e.kind, DecodeError::TruncatedPayload { index: 0, value: 0x06, size: 2 });
    assert_eq!(e.input, vec![0x06, 0x00]);
}

#[test]
fn co2_is_big_endian() {
    let u = Uplink::deserialize(&[0x06, 0x01, 0x90]).unwrap();
    assert_eq!(u.co2_ppm(), Some(400));
    assert_eq!(u.temperature_x10(), None);
}

#[test]
fn temperature_zero_and_negative() {
    let u = Uplink::deserialize(&[0x01, 0x00, 0x00]).unwrap();
    assert_eq!(u.temperature_x10(), Some(0));
    let u = Uplink::deserialize(&[0x01, 0xff, 0x38]).unwrap();
    assert_eq!(u.temperature_x10().map(i32::from), Some(0xff38 - 65536));
    assert_eq!(u.temperature_x10(), Some(-200));
}

#[test]
fn sign_extension_bounds() {
    assert_eq!(bin16_to_dec(0x0000), 0);
    assert_eq!(bin16_to_dec(0x7fff), 32767);
    assert_eq!(bin16_to_dec(0x8000), -32768);
    assert_eq!(bin16_to_dec(0xffff), -1);
    assert_eq!(bin16_to_dec(0x00dc), 220);
}

#[test]
fn occupancy_values() {
    let u = Uplink::deserialize(&[0x11, 0x00]).unwrap();
    assert_eq!(u.occupancy(), Some(Occupancy::NoBody));
    let u = Uplink::deserialize(&[0x11, 0x02]).unwrap();
    assert_eq!(u.occupancy(), Some(Occupancy::OccupiedOrHeat));
    let e = Uplink::deserialize(&[0x11, 0x03]).unwrap_err();
    assert_eq!(e.kind, DecodeError::InvalidEnumValue { index: 1, value: 3 });
}

#[test]
fn external_digital_values() {
    let u = Uplink::deserialize(&[0x0d, 0x00]).unwrap();
    assert_eq!(u.external_digital(), Some(false));
    let u = Uplink::deserialize(&[0x0d, 0x01]).unwrap();
    assert_eq!(u.external_digital(), Some(true));
    let e = Uplink::deserialize(&[0x0d, 0x02]).unwrap_err();
    assert_eq!(e.kind, DecodeError::InvalidEnumValue { index: 1, value: 2 });
}

#[test]
fn no_op_tag_span_is_skipped() {
    // temperature, light (two ignored bytes that look like tags), battery
    let bytes = [0x01, 0x00, 0xdc, 0x04, 0x07, 0x11, 0x07, 0x0e, 0x41];
    let u = Uplink::deserialize(&bytes).unwrap();
    let expected = Uplink {
        temperature_x10: Some(220),
        battery_mv: Some(3649),
        ..Uplink::default()
    };
    assert_eq!(u, expected);
    assert_eq!(u.occupancy(), None);
}

#[test]
fn last_tag_needs_its_whole_payload() {
    assert!(Uplink::deserialize(&[0x02, 0x10, 0x07, 0x0e]).is_err());
    assert!(Uplink::deserialize(&[0x02, 0x10, 0x07, 0x0e, 0x41]).is_ok());
    assert!(Uplink::deserialize(&[0x13]).is_err());
}

#[test]
fn decoding_twice_agrees() {
    let bytes = decode_b64("AQDUAigEABQFAAcOHREB");
    assert_eq!(Uplink::deserialize(&bytes), Uplink::deserialize(&bytes));
    let bad = [0x11, 0x09];
    assert_eq!(Uplink::deserialize(&bad), Uplink::deserialize(&bad));
}

#[test]
fn approximate_equality() {
    assert!(close(Some(10), Some(10), 1));
    assert!(!close(Some(10), Some(11), 1));
    assert!(close(Some(100), Some(104), 10));
    assert!(!close(Some(100), Some(105), 10));
    assert!(!close(Some(100), None, 10));
    assert!(!close(None, Some(100), 10));
    assert!(close(None, None, 10));
    let a = Uplink { temperature_x10: Some(220), ..Uplink::default() };
    let b = Uplink::default();
    assert_ne!(a, b);
    assert_ne!(b, a);
    let c = Uplink { co2: Some(0), ..Uplink::default() };
    assert_ne!(c, b);
}

#[test]
fn length_and_identifier_checks() {
    let input = [0x06, 0x00, 0x00];
    assert!(verify_array_length(&input, 0, 2).is_ok());
    let e = verify_array_length(&input, 0, 3).unwrap_err();
    assert_eq!(e.kind, DecodeError::TruncatedPayload { index: 0, value: 0x06, size: 3 });
    assert!(verify_pattern_matches(&input, 1, true).is_ok());
    let e = verify_pattern_matches(&input, 1, false).unwrap_err();
    assert_eq!(e.kind, DecodeError::UnrecognizedTag { index: 1, value: 0x00 });
}

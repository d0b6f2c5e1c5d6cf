use awaur::base62::{base62_decode, base62_encode, Base62DecodeError};

// Encoding agrees with the `base62` crate over a thousand large numbers,
// and zero for pedanticism.
#[test]
fn base62_test_roundtrip() {
    let range = ((u128::MAX - 1000)..u128::MAX).chain([0]);
    for value in range {
        let expect = base62::encode(value);
        let actual = base62_encode(value);
        assert_eq!(&expect, &actual);
    }
}

#[test]
fn base62_encode_exact_values() {
    assert_eq!(base62_encode(0), "0");
    assert_eq!(base62_encode(9), "9");
    assert_eq!(base62_encode(10), "A");
    assert_eq!(base62_encode(35), "Z");
    assert_eq!(base62_encode(36), "a");
    assert_eq!(base62_encode(61), "z");
    assert_eq!(base62_encode(62), "10");
    assert_eq!(base62_encode(124), "20");
    assert_eq!(base62_encode(62 * 62), "100");
    assert_eq!(base62_encode(u128::MAX), base62::encode(u128::MAX));
}

#[test]
fn base62_decode_inverts_encode() {
    for value in [0u128, 1, 61, 62, 4095, u128::MAX - 1, u128::MAX] {
        assert_eq!(base62_decode(&base62_encode(value)), Ok(value));
    }
}

#[test]
fn base62_decode_exact_values() {
    assert_eq!(base62_decode("0"), Ok(0));
    assert_eq!(base62_decode("z"), Ok(61));
    assert_eq!(base62_decode("10"), Ok(62));
    assert_eq!(base62_decode("00010"), Ok(62));
}

// A thousand large 64-bit numbers, and zero, survive the round trip and
// agree with the `base62` crate.
#[test]
fn base62_u64_values_round_trip() {
    for value in ((u64::MAX - 1000)..u64::MAX).chain([0]) {
        let encoded = base62_encode(value as u128);
        assert_eq!(encoded, base62::encode(value));
        assert_eq!(base62_decode(&encoded), Ok(value as u128));
    }
}

#[test]
fn base62_decode_empty_input() {
    assert_eq!(base62_decode(""), Err(Base62DecodeError::EmptyInput));
}

#[test]
fn base62_decode_invalid_character() {
    assert_eq!(
        base62_decode("ab!c"),
        Err(Base62DecodeError::InvalidCharacter('!', 2))
    );
    assert_eq!(
        base62_decode("_"),
        Err(Base62DecodeError::InvalidCharacter('_', 0))
    );
}

#[test]
fn base62_decode_overflow() {
    // One more digit than the largest value's encoding overflows.
    let mut too_long = base62_encode(u128::MAX);
    too_long.push('0');
    assert_eq!(base62_decode(&too_long), Err(Base62DecodeError::Overflow));
}

use purplesector::float32::{Float32, MINUS_ONE_BITS, ONE_BITS};
use purplesector::text::{
    decimal_text, encode_utf16, hexadecimal_text, joined, same_text, strip_prefix, trim_end_char,
};
use purplesector::time::{epoch_millis, Duration};
use purplesector::wire::{push_i32, push_u16, push_u32, read_i32, read_u16, read_u32, to_signed32};

#[test]
fn numerals() {
    for n in [0u64, 9, 10, 42, 99, 100, 9996, 65535, u64::MAX] {
        assert_eq!(decimal_text(n), n.to_string());
    }
    for n in [0u128, 15, 16, 255, 1_700_000_000_123, u128::MAX] {
        assert_eq!(hexadecimal_text(n), format!("{n:x}"));
    }
}

#[test]
fn trimming_and_prefixes() {
    assert_eq!(trim_end_char("https://a/", '/'), "https://a");
    assert_eq!(trim_end_char("a///", '/'), "a");
    assert_eq!(trim_end_char("//", '/'), "");
    assert_eq!(trim_end_char("a/b", '/'), "a/b");
    assert_eq!(strip_prefix("Bearer abc", "Bearer "), Some("abc"));
    assert_eq!(strip_prefix("Bearer ", "Bearer "), Some(""));
    assert_eq!(strip_prefix("bearer abc", "Bearer "), None);
    assert_eq!(strip_prefix("Be", "Bearer "), None);
    assert_eq!(strip_prefix("\u{e9}t\u{e9}", "\u{e9}"), Some("t\u{e9}"));
    assert!(same_text("demo", "demo"));
    assert!(!same_text("demo", "Demo"));
    assert_eq!(joined("a", "b"), "ab");
}

#[test]
fn utf16_code_units() {
    for s in ["", "PurpleSector", "\u{e9}\u{4e2d}", "\u{1f3ce}\u{fe0f} rig", "\u{ffff}\u{10000}\u{10ffff}"] {
        assert_eq!(encode_utf16(s), s.encode_utf16().collect::<Vec<u16>>());
    }
}

#[test]
fn little_endian_integers() {
    let mut buf: Vec<u8> = vec![7];
    push_u16(&mut buf, 0x1234);
    push_u32(&mut buf, 0xdead_beef);
    push_i32(&mut buf, -2);
    assert_eq!(buf, vec![7, 0x34, 0x12, 0xef, 0xbe, 0xad, 0xde, 0xfe, 0xff, 0xff, 0xff]);
    assert_eq!(read_u16(&buf, 1), 0x1234);
    assert_eq!(read_u32(&buf, 3), 0xdead_beef);
    assert_eq!(read_i32(&buf, 7), -2);
    for i in [0, 1, -1, i32::MAX, i32::MIN] {
        let mut bytes: Vec<u8> = Vec::new();
        push_i32(&mut bytes, i);
        assert_eq!(bytes, i.to_le_bytes().to_vec());
        assert_eq!(read_i32(&bytes, 0), i);
        assert_eq!(to_signed32(i as u32), i);
    }
}

#[test]
fn clamping_agrees_with_the_machine() {
    let values = [
        0.0f32,
        -0.0,
        0.5,
        1.0,
        1.0000001,
        -1.0,
        -1.5,
        2.0,
        f32::MIN_POSITIVE,
        -f32::MIN_POSITIVE,
        f32::from_bits(1),
        f32::from_bits(0x8000_0001),
        f32::MAX,
        f32::MIN,
        f32::INFINITY,
        f32::NEG_INFINITY,
    ];
    let one = Float32 { bits: ONE_BITS };
    let minus_one = Float32 { bits: MINUS_ONE_BITS };
    let zero = Float32 { bits: 0 };
    assert_eq!(ONE_BITS, 1.0f32.to_bits());
    assert_eq!(MINUS_ONE_BITS, (-1.0f32).to_bits());
    for v in values {
        let x = Float32 { bits: v.to_bits() };
        assert_eq!(x.clamp(zero, one).bits, v.clamp(0.0, 1.0).to_bits());
        assert_eq!(x.clamp(minus_one, one).bits, v.clamp(-1.0, 1.0).to_bits());
        assert_eq!(x.clamp(zero, one).clamp(zero, one), x.clamp(zero, one));
    }
    let nan = Float32 { bits: f32::NAN.to_bits() };
    assert_eq!(nan.clamp(zero, one), nan);
}

#[test]
fn spans_and_timestamps() {
    assert_eq!(Duration::from_millis(3).nanos, 3_000_000);
    assert_eq!(Duration::from_secs(2).nanos, 2_000_000_000);
    assert_eq!(Duration::from_secs(u64::MAX).nanos, u64::MAX as u128 * 1_000_000_000);
    assert_eq!(epoch_millis(None), 0);
    for ms in [0u128, 1_700_000_000_123, u64::MAX as u128, 1 << 63, 1 << 64, u128::MAX] {
        assert_eq!(epoch_millis(Some(ms)), ms as i64);
    }
}

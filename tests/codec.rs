use nano_mc::codec::{MinecraftReadable, MinecraftReadableVar, MinecraftWriteable, MinecraftWriteableVar};
use nano_mc::cursor::Cursor;
use nano_mc::error::{MinecraftReadError, MinecraftWriteError};
use nano_mc::text::{read_string, write_string};

fn varint_bytes(v: i32) -> Vec<u8> {
    let mut out = Vec::new();
    v.write_var_to(&mut out).unwrap();
    out
}

fn varlong_bytes(v: i64) -> Vec<u8> {
    let mut out = Vec::new();
    v.write_var_to(&mut out).unwrap();
    out
}

fn read_varint(bytes: &[u8]) -> Result<i32, MinecraftReadError> {
    let mut c = Cursor::new(bytes.to_vec());
    i32::read_var_from(&mut c)
}

#[test]
fn varint_zero() {
    assert_eq!(varint_bytes(0), vec![0x00]);
}

#[test]
fn varint_one() {
    assert_eq!(varint_bytes(1), vec![0x01]);
}

#[test]
fn varint_127() {
    assert_eq!(varint_bytes(127), vec![0x7F]);
}

#[test]
fn varint_128() {
    assert_eq!(varint_bytes(128), vec![0x80, 0x01]);
}

#[test]
fn varint_255() {
    assert_eq!(varint_bytes(255), vec![0xFF, 0x01]);
}

#[test]
fn varint_i32_max() {
    assert_eq!(varint_bytes(2147483647), vec![0xFF, 0xFF, 0xFF, 0xFF, 0x07]);
}

#[test]
fn varint_minus_one() {
    assert_eq!(varint_bytes(-1), vec![0xFF, 0xFF, 0xFF, 0xFF, 0x0F]);
}

#[test]
fn varint_i32_min() {
    assert_eq!(varint_bytes(-2147483648), vec![0x80, 0x80, 0x80, 0x80, 0x08]);
}

#[test]
fn varint_vectors_decode() {
    let cases: Vec<(i32, Vec<u8>)> = vec![
        (0, vec![0x00]),
        (1, vec![0x01]),
        (127, vec![0x7F]),
        (128, vec![0x80, 0x01]),
        (255, vec![0xFF, 0x01]),
        (2147483647, vec![0xFF, 0xFF, 0xFF, 0xFF, 0x07]),
        (-1, vec![0xFF, 0xFF, 0xFF, 0xFF, 0x0F]),
        (-2147483648, vec![0x80, 0x80, 0x80, 0x80, 0x08]),
    ];
    for (v, bytes) in cases {
        let mut c = Cursor::new(bytes.clone());
        assert_eq!(i32::read_var_from(&mut c), Ok(v));
        assert_eq!(c.position(), bytes.len() as u64);
    }
}

#[test]
fn varint_six_continuation_bytes_invalid() {
    assert_eq!(read_varint(&[0x80, 0x80, 0x80, 0x80, 0x80, 0x80]), Err(MinecraftReadError::InvalidVarInt));
}

#[test]
fn varint_five_continuation_bytes_invalid() {
    assert_eq!(read_varint(&[0xFF, 0xFF, 0xFF, 0xFF, 0xFF]), Err(MinecraftReadError::InvalidVarInt));
}

#[test]
fn varint_truncated_is_eof() {
    assert_eq!(read_varint(&[0x80, 0x80]), Err(MinecraftReadError::UnexpectedEof));
    assert_eq!(read_varint(&[]), Err(MinecraftReadError::UnexpectedEof));
}

#[test]
fn varint_non_canonical_still_reads() {
    assert_eq!(read_varint(&[0x80, 0x00]), Ok(0));
}

#[test]
fn varint_stops_at_terminator() {
    let mut c = Cursor::new(vec![0xAC, 0x02, 0x99]);
    assert_eq!(i32::read_var_from(&mut c), Ok(300));
    assert_eq!(c.position(), 2);
}

#[test]
fn varlong_vectors() {
    assert_eq!(varlong_bytes(0), vec![0x00]);
    assert_eq!(varlong_bytes(2147483647), vec![0xFF, 0xFF, 0xFF, 0xFF, 0x07]);
    assert_eq!(varlong_bytes(-1), vec![0xFF, 0xFF, 0xFF, 0xFF, 0xFF, 0xFF, 0xFF, 0xFF, 0xFF, 0x01]);
    assert_eq!(varlong_bytes(i64::MAX), vec![0xFF, 0xFF, 0xFF, 0xFF, 0xFF, 0xFF, 0xFF, 0xFF, 0x7F]);
    assert_eq!(varlong_bytes(i64::MIN), vec![0x80, 0x80, 0x80, 0x80, 0x80, 0x80, 0x80, 0x80, 0x80, 0x01]);
}

#[test]
fn varlong_round_trip_extremes() {
    for v in [0i64, 1, -1, 300, i64::MAX, i64::MIN, 0x0123456789ABCDEF] {
        let bytes = varlong_bytes(v);
        let mut c = Cursor::new(bytes.clone());
        assert_eq!(i64::read_var_from(&mut c), Ok(v));
        assert_eq!(c.position(), bytes.len() as u64);
    }
}

#[test]
fn varlong_eleven_continuation_bytes_invalid() {
    let mut c = Cursor::new(vec![0x80; 11]);
    assert_eq!(i64::read_var_from(&mut c), Err(MinecraftReadError::InvalidVarLong));
}

#[test]
fn fixed_width_big_endian() {
    let mut out = Vec::new();
    0x1234u16.write_to(&mut out).unwrap();
    (-2i32).write_to(&mut out).unwrap();
    0x0102030405060708u64.write_to(&mut out).unwrap();
    (-1i8).write_to(&mut out).unwrap();
    assert_eq!(
        out,
        vec![0x12, 0x34, 0xFF, 0xFF, 0xFF, 0xFE, 1, 2, 3, 4, 5, 6, 7, 8, 0xFF]
    );
    let mut c = Cursor::new(out);
    assert_eq!(u16::read_from(&mut c), Ok(0x1234));
    assert_eq!(i32::read_from(&mut c), Ok(-2));
    assert_eq!(u64::read_from(&mut c), Ok(0x0102030405060708));
    assert_eq!(i8::read_from(&mut c), Ok(-1));
    assert_eq!(u8::read_from(&mut c), Err(MinecraftReadError::UnexpectedEof));
}

#[test]
fn fixed_width_128_bits() {
    let mut out = Vec::new();
    1u128.write_to(&mut out).unwrap();
    i128::MIN.write_to(&mut out).unwrap();
    assert_eq!(out.len(), 32);
    assert_eq!(out[15], 1);
    assert_eq!(out[16], 0x80);
    let mut c = Cursor::new(out);
    assert_eq!(u128::read_from(&mut c), Ok(1));
    assert_eq!(i128::read_from(&mut c), Ok(i128::MIN));
}

#[test]
fn fixed_width_extremes_round_trip() {
    let mut out = Vec::new();
    i16::MIN.write_to(&mut out).unwrap();
    u32::MAX.write_to(&mut out).unwrap();
    i64::MIN.write_to(&mut out).unwrap();
    let mut c = Cursor::new(out);
    assert_eq!(i16::read_from(&mut c), Ok(i16::MIN));
    assert_eq!(u32::read_from(&mut c), Ok(u32::MAX));
    assert_eq!(i64::read_from(&mut c), Ok(i64::MIN));
}

#[test]
fn bool_encoding() {
    let mut out = Vec::new();
    true.write_to(&mut out).unwrap();
    false.write_to(&mut out).unwrap();
    assert_eq!(out, vec![1, 0]);
    let mut c = Cursor::new(vec![0, 1, 7]);
    assert_eq!(bool::read_from(&mut c), Ok(false));
    assert_eq!(bool::read_from(&mut c), Ok(true));
    assert_eq!(bool::read_from(&mut c), Ok(true));
}

#[test]
fn string_ascii_32767_encodes() {
    let s = "a".repeat(32767);
    let mut out = Vec::new();
    assert_eq!(s.write_to(&mut out), Ok(()));
    assert_eq!(&out[..3], &[0xFF, 0xFF, 0x01]);
    assert_eq!(out.len(), 3 + 32767);
    let mut c = Cursor::new(out);
    assert_eq!(String::read_from(&mut c), Ok(s));
}

#[test]
fn string_ascii_32768_too_long() {
    let s = "a".repeat(32768);
    let mut out = Vec::new();
    assert_eq!(
        s.write_to(&mut out),
        Err(MinecraftWriteError::StringTooLong { length: 32768, max_length: 32767 })
    );
}

#[test]
fn string_short_supply_fails_exact_read() {
    let mut bytes = Vec::new();
    32767i32.write_var_to(&mut bytes).unwrap();
    bytes.extend(std::iter::repeat(b'a').take(32766));
    let mut c = Cursor::new(bytes);
    assert_eq!(String::read_from(&mut c), Err(MinecraftReadError::UnexpectedEof));
}

#[test]
fn string_length_over_read_maximum() {
    let mut bytes = Vec::new();
    131072i32.write_var_to(&mut bytes).unwrap();
    let mut c = Cursor::new(bytes);
    assert_eq!(
        String::read_from(&mut c),
        Err(MinecraftReadError::StringTooLong { length: 131072, max_length: 131071 })
    );
}

#[test]
fn string_negative_length() {
    let mut bytes = Vec::new();
    (-1i32).write_var_to(&mut bytes).unwrap();
    let mut c = Cursor::new(bytes);
    assert_eq!(
        read_string(&mut c, 255),
        Err(MinecraftReadError::StringTooLong { length: -1, max_length: 255 })
    );
}

#[test]
fn string_invalid_utf8() {
    let mut c = Cursor::new(vec![2, 0xC3, 0x28]);
    assert_eq!(String::read_from(&mut c), Err(MinecraftReadError::InvalidUtf8));
}

#[test]
fn string_length_counts_bytes() {
    let s = "héllo ✓".to_string();
    let mut out = Vec::new();
    s.write_to(&mut out).unwrap();
    assert_eq!(out[0] as usize, s.len());
    assert_eq!(out[0], 10);
    let mut c = Cursor::new(out);
    assert_eq!(String::read_from(&mut c), Ok(s));
}

#[test]
fn string_declared_maximum_applies_both_ways() {
    let mut out = Vec::new();
    assert_eq!(
        write_string("seventeen chars!!", 16, &mut out),
        Err(MinecraftWriteError::StringTooLong { length: 17, max_length: 16 })
    );
    assert!(out.is_empty());
    write_string("sixteen chars!!!", 16, &mut out).unwrap();
    let mut c = Cursor::new(out);
    assert_eq!(read_string(&mut c, 16), Ok("sixteen chars!!!".to_string()));
    let mut long = Vec::new();
    write_string("seventeen chars!!", 17, &mut long).unwrap();
    let mut c = Cursor::new(long);
    assert_eq!(
        read_string(&mut c, 16),
        Err(MinecraftReadError::StringTooLong { length: 17, max_length: 16 })
    );
}

#[test]
fn option_encoding() {
    let mut out = Vec::new();
    Some(5u8).write_to(&mut out).unwrap();
    None::<u8>.write_to(&mut out).unwrap();
    assert_eq!(out, vec![1, 5, 0]);
    let mut c = Cursor::new(out);
    assert_eq!(Option::<u8>::read_from(&mut c), Ok(Some(5)));
    assert_eq!(Option::<u8>::read_from(&mut c), Ok(None));
}

#[test]
fn sequence_encoding() {
    let v: Vec<u16> = vec![1, 0x0203];
    let mut out = Vec::new();
    v.write_to(&mut out).unwrap();
    assert_eq!(out, vec![2, 0, 1, 2, 3]);
    let mut c = Cursor::new(out);
    assert_eq!(Vec::<u16>::read_from(&mut c), Ok(v));
}

#[test]
fn sequence_of_strings_round_trip() {
    let v = vec!["a".to_string(), String::new(), "ü".to_string()];
    let mut out = Vec::new();
    v.write_to(&mut out).unwrap();
    assert_eq!(out, vec![3, 1, b'a', 0, 2, 0xC3, 0xBC]);
    let mut c = Cursor::new(out);
    assert_eq!(Vec::<String>::read_from(&mut c), Ok(v));
}

#[test]
fn sequence_negative_count() {
    let mut bytes = Vec::new();
    (-3i32).write_var_to(&mut bytes).unwrap();
    let mut c = Cursor::new(bytes);
    assert_eq!(Vec::<u8>::read_from(&mut c), Err(MinecraftReadError::NegativeLength { count: -3 }));
}

#[test]
fn sequence_element_error_propagates() {
    let v = vec!["ok".to_string(), "b".repeat(40000)];
    let mut out = Vec::new();
    assert_eq!(
        v.write_to(&mut out),
        Err(MinecraftWriteError::StringTooLong { length: 40000, max_length: 32767 })
    );
}

#[test]
fn sequence_short_supply() {
    let mut c = Cursor::new(vec![3, 1, 2]);
    assert_eq!(Vec::<u8>::read_from(&mut c), Err(MinecraftReadError::UnexpectedEof));
}

#[test]
fn cursor_basics() {
    let mut c = Cursor::new(vec![1, 2, 3]);
    assert_eq!(c.read_byte(), Some(1));
    assert_eq!(c.position(), 1);
    assert_eq!(c.read_exact(5), None);
    assert_eq!(c.position(), 1);
    assert_eq!(c.read_exact(2), Some(vec![2, 3]));
    assert_eq!(c.read_byte(), None);
    c.set_position(10);
    assert_eq!(c.read_byte(), None);
    assert_eq!(c.read_exact(0), Some(vec![]));
    c.set_position(0);
    assert_eq!(c.get_ref(), &vec![1, 2, 3]);
    assert_eq!(c.into_inner(), vec![1, 2, 3]);
}

#[test]
fn optional_and_sequence_of_varints() {
    let mut out = Vec::new();
    Some(300i32).write_var_to(&mut out).unwrap();
    None::<i32>.write_var_to(&mut out).unwrap();
    vec![1i64, -1].write_var_to(&mut out).unwrap();
    let mut expected = vec![1, 0xAC, 0x02, 0, 2, 1];
    expected.extend_from_slice(&[0xFF; 9]);
    expected.push(0x01);
    assert_eq!(out, expected);
    let mut c = Cursor::new(out);
    assert_eq!(Option::<i32>::read_var_from(&mut c), Ok(Some(300)));
    assert_eq!(Option::<i32>::read_var_from(&mut c), Ok(None));
    assert_eq!(Vec::<i64>::read_var_from(&mut c), Ok(vec![1, -1]));
}

#[test]
fn cursor_get_mut_keeps_position() {
    let mut c = Cursor::new(vec![1, 2]);
    assert_eq!(c.read_byte(), Some(1));
    c.get_mut().push(3);
    assert_eq!(c.position(), 1);
    assert_eq!(c.read_exact(2), Some(vec![2, 3]));
}

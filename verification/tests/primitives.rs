use tap_plugin_lnk::bytes::{u128_from_le, u16_from_le, u32_from_le, u64_from_le};
use tap_plugin_lnk::cursor::ByteCursor;
use tap_plugin_lnk::error::DecodeError;
use tap_plugin_lnk::filetime::FileTime;
use tap_plugin_lnk::header::has_flag;
use tap_plugin_lnk::string_data::{decode_optional_text, string_encoding};
use tap_plugin_lnk::text::{decode_ansi, decode_text, decode_utf16, read_utf16_units, Encoding};

#[test]
fn little_endian_halves_combine() {
    assert_eq!(u16_from_le(0x34, 0x12), 0x1234);
    assert_eq!(u16_from_le(0xFF, 0xFF), 0xFFFF);
    assert_eq!(u32_from_le(0x5678, 0x1234), 0x1234_5678);
    assert_eq!(u64_from_le(0x9ABC_DEF0, 0x1234_5678), 0x1234_5678_9ABC_DEF0);
    assert_eq!(
        u128_from_le(0x1122_3344_5566_7788, 0x99AA_BBCC_DDEE_FF00),
        0x99AA_BBCC_DDEE_FF00_1122_3344_5566_7788u128
    );
}

#[test]
fn cursor_reads_integers_in_sequence() {
    let data: Vec<u8> = (1u8..=40).collect();
    let mut cursor = ByteCursor::new(&data);
    assert_eq!(cursor.len(), 40);
    assert_eq!(cursor.remaining_len(), 40);
    assert_eq!(cursor.read_u8(), Ok(1));
    assert_eq!(cursor.read_u16(), Ok(0x0302));
    assert_eq!(cursor.read_u32(), Ok(0x0706_0504));
    assert_eq!(cursor.read_u64(), Ok(0x0F0E_0D0C_0B0A_0908));
    assert_eq!(cursor.position(), 15);
    assert_eq!(cursor.read_guid(), Ok(0x1F1E_1D1C_1B1A_1918_1716_1514_1312_1110u128));
    assert_eq!(cursor.position(), 31);
    assert_eq!(cursor.remaining_len(), 9);
    assert_eq!(cursor.read_fixed_bytes(3), Ok(vec![32, 33, 34]));
    assert_eq!(cursor.read_fixed_bytes(0), Ok(vec![]));
    assert_eq!(cursor.read_filetime(), Err(DecodeError::TruncatedInput));
    assert_eq!(cursor.position(), 34);
}

#[test]
fn cursor_failed_reads_do_not_move() {
    let data = [1u8, 2, 3];
    let mut cursor = ByteCursor::new(&data);
    assert_eq!(cursor.read_u32(), Err(DecodeError::TruncatedInput));
    assert_eq!(cursor.read_u64(), Err(DecodeError::TruncatedInput));
    assert_eq!(cursor.read_guid(), Err(DecodeError::TruncatedInput));
    assert_eq!(cursor.read_fixed_bytes(4), Err(DecodeError::TruncatedInput));
    assert_eq!(cursor.read_fixed_bytes(usize::MAX), Err(DecodeError::TruncatedInput));
    assert_eq!(cursor.position(), 0);
    assert_eq!(cursor.read_u16(), Ok(0x0201));
    assert_eq!(cursor.read_u16(), Err(DecodeError::TruncatedInput));
    assert_eq!(cursor.position(), 2);
    assert_eq!(cursor.read_u8(), Ok(3));
    assert_eq!(cursor.read_u8(), Err(DecodeError::TruncatedInput));
}

#[test]
fn seek_accepts_the_end_and_nothing_beyond() {
    let data = [1u8, 2, 3];
    let mut cursor = ByteCursor::new(&data);
    assert_eq!(cursor.seek_absolute(3), Ok(()));
    assert_eq!(cursor.position(), 3);
    assert_eq!(cursor.remaining_len(), 0);
    assert_eq!(cursor.seek_absolute(4), Err(DecodeError::OffsetOutOfRange));
    assert_eq!(cursor.position(), 3);
    assert_eq!(cursor.seek_absolute(1), Ok(()));
    assert_eq!(cursor.read_u8(), Ok(2));
    assert_eq!(cursor.seek_absolute(usize::MAX), Err(DecodeError::OffsetOutOfRange));
}

#[test]
fn filetime_zero_is_absent() {
    assert_eq!(FileTime::from_ticks(0), None);
    assert_eq!(FileTime::from_ticks(1), Some(FileTime { ticks: 1 }));
    let mut zero = ByteCursor::new(&[0u8; 8]);
    assert_eq!(zero.read_filetime(), Ok(None));
    assert_eq!(zero.position(), 8);
    let bytes = 116_444_736_000_000_000u64.to_le_bytes();
    let mut cursor = ByteCursor::new(&bytes);
    assert_eq!(cursor.read_filetime(), Ok(Some(FileTime { ticks: 116_444_736_000_000_000 })));
}

#[test]
fn filetime_unix_millis() {
    assert_eq!(FileTime { ticks: 116_444_736_000_000_000 }.unix_millis(), 0);
    assert_eq!(FileTime { ticks: 132_223_104_000_000_000 }.unix_millis(), 1_577_836_800_000);
    assert_eq!(FileTime { ticks: 1 }.unix_millis(), -11_644_473_600_000);
    assert_eq!(FileTime { ticks: 116_444_736_000_019_999 }.unix_millis(), 1);
    assert_eq!(
        FileTime { ticks: u64::MAX }.unix_millis(),
        1_844_674_407_370_955 - 11_644_473_600_000
    );
}

#[test]
fn ansi_bytes_become_code_points() {
    assert_eq!(decode_ansi(b"Test"), "Test");
    assert_eq!(decode_ansi(&[]), "");
    assert_eq!(decode_ansi(&[0x41, 0xE9, 0xFF, 0x00, 0x80]), "A\u{e9}\u{ff}\u{0}\u{80}");
    assert_eq!(decode_text(&[0x41, 0xE9], Encoding::Ansi), "A\u{e9}");
}

#[test]
fn utf16_units_are_little_endian() {
    assert_eq!(read_utf16_units(&[0x34, 0x12, 0x78, 0x56]), vec![0x1234, 0x5678]);
    assert_eq!(read_utf16_units(&[0x34, 0x12, 0x78]), vec![0x1234]);
    assert_eq!(read_utf16_units(&[]), Vec::<u16>::new());
}

#[test]
fn utf16_pairs_and_lone_surrogates() {
    assert_eq!(decode_utf16(&[0x54, 0x65, 0x73, 0x74]), "Test");
    assert_eq!(decode_utf16(&[0xD83D, 0xDE00]), "\u{1F600}");
    assert_eq!(decode_utf16(&[0xD800, 0xDC00]), "\u{10000}");
    assert_eq!(decode_utf16(&[0xDBFF, 0xDFFF]), "\u{10FFFF}");
    assert_eq!(decode_utf16(&[0xD83D]), "\u{FFFD}");
    assert_eq!(decode_utf16(&[0xDE00, 0x41]), "\u{FFFD}A");
    assert_eq!(decode_utf16(&[0xD83D, 0x41]), "\u{FFFD}A");
    assert_eq!(decode_utf16(&[0xD83D, 0xD83D, 0xDE00]), "\u{FFFD}\u{1F600}");
    assert_eq!(decode_utf16(&[0xD7FF, 0xE000, 0xFFFF]), "\u{D7FF}\u{E000}\u{FFFF}");
    let units = [0x41u16, 0xD83D, 0xDE00, 0xDC00, 0x20AC];
    assert_eq!(decode_utf16(&units), String::from_utf16_lossy(&units));
    assert_eq!(decode_text(&[0xAC, 0x20, 0x3D, 0xD8, 0x00, 0xDE], Encoding::Utf16Le), "\u{20AC}\u{1F600}");
}

#[test]
fn encoding_widths() {
    assert_eq!(Encoding::Ansi.width(), 1);
    assert_eq!(Encoding::Utf16Le.width(), 2);
    assert_eq!(string_encoding(0x80), Encoding::Utf16Le);
    assert_eq!(string_encoding(0x7F), Encoding::Ansi);
    assert!(has_flag(0x84, 0x04));
    assert!(!has_flag(0x84, 0x08));
}

#[test]
fn length_prefixed_strings() {
    let data = [2u8, 0, b'h', b'i', 1, 0, 0xE9, 0x00, 3, 0, b'x'];
    let mut cursor = ByteCursor::new(&data);
    assert_eq!(cursor.read_length_prefixed_string(Encoding::Ansi), Ok("hi".to_string()));
    assert_eq!(cursor.position(), 4);
    assert_eq!(cursor.read_length_prefixed_string(Encoding::Utf16Le), Ok("\u{e9}".to_string()));
    assert_eq!(cursor.position(), 8);
    assert_eq!(
        cursor.read_length_prefixed_string(Encoding::Ansi),
        Err(DecodeError::TruncatedInput)
    );
    assert_eq!(cursor.position(), 8);
    let mut big: Vec<u8> = vec![0xFF, 0xFF];
    big.extend(std::iter::repeat(b'a').take(0x1FFFE));
    let mut cursor = ByteCursor::new(&big);
    let text = cursor.read_length_prefixed_string(Encoding::Utf16Le).unwrap();
    assert_eq!(text.chars().count(), 0xFFFF);
    assert_eq!(cursor.position(), 0x20000);
}

#[test]
fn optional_text_absent_reads_nothing() {
    let data = [2u8, 0, b'h', b'i'];
    let mut cursor = ByteCursor::new(&data);
    assert_eq!(decode_optional_text(&mut cursor, false, Encoding::Ansi), Ok(None));
    assert_eq!(cursor.position(), 0);
    assert_eq!(decode_optional_text(&mut cursor, true, Encoding::Ansi), Ok(Some("hi".to_string())));
    assert_eq!(cursor.position(), 4);
    assert_eq!(decode_optional_text(&mut cursor, false, Encoding::Utf16Le), Ok(None));
    assert_eq!(
        decode_optional_text(&mut cursor, true, Encoding::Utf16Le),
        Err(DecodeError::TruncatedInput)
    );
}

#[test]
fn error_messages_differ() {
    let all = [
        DecodeError::TruncatedInput,
        DecodeError::OffsetOutOfRange,
        DecodeError::InvalidHeader,
        DecodeError::MalformedIdList,
        DecodeError::MalformedLinkInfo,
    ];
    for (i, a) in all.iter().enumerate() {
        assert!(!a.message().is_empty());
        for b in all.iter().skip(i + 1) {
            assert_ne!(a.message(), b.message());
        }
    }
    assert_eq!(DecodeError::InvalidHeader.message(), "not a shell link header");
}

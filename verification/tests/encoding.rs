use encoding_rs::Encoding;
use lol_html_core::table::{
    encoding_at, encoding_to_index, position, ASCII_COMPATIBLE_LEN, TABLE_LEN,
};
use lol_html_core::{AsciiCompatibleEncoding, SharedEncoding};

fn all_encodings() -> [&'static Encoding; 40] {
    [
        encoding_rs::UTF_8,
        encoding_rs::SHIFT_JIS,
        encoding_rs::BIG5,
        encoding_rs::EUC_JP,
        encoding_rs::EUC_KR,
        encoding_rs::GB18030,
        encoding_rs::GBK,
        encoding_rs::IBM866,
        encoding_rs::ISO_8859_2,
        encoding_rs::ISO_8859_3,
        encoding_rs::ISO_8859_4,
        encoding_rs::ISO_8859_5,
        encoding_rs::ISO_8859_6,
        encoding_rs::ISO_8859_7,
        encoding_rs::ISO_8859_8_I,
        encoding_rs::ISO_8859_8,
        encoding_rs::ISO_8859_10,
        encoding_rs::ISO_8859_13,
        encoding_rs::ISO_8859_14,
        encoding_rs::ISO_8859_15,
        encoding_rs::ISO_8859_16,
        encoding_rs::KOI8_R,
        encoding_rs::KOI8_U,
        encoding_rs::MACINTOSH,
        encoding_rs::WINDOWS_1250,
        encoding_rs::WINDOWS_1251,
        encoding_rs::WINDOWS_1252,
        encoding_rs::WINDOWS_1253,
        encoding_rs::WINDOWS_1254,
        encoding_rs::WINDOWS_1255,
        encoding_rs::WINDOWS_1256,
        encoding_rs::WINDOWS_1257,
        encoding_rs::WINDOWS_1258,
        encoding_rs::WINDOWS_874,
        encoding_rs::X_MAC_CYRILLIC,
        encoding_rs::X_USER_DEFINED,
        // not ASCII-compatible
        encoding_rs::REPLACEMENT,
        encoding_rs::UTF_16BE,
        encoding_rs::UTF_16LE,
        encoding_rs::ISO_2022_JP,
    ]
}

#[test]
fn test_encoding_round_trip() {
    let shared_encoding = SharedEncoding::new(AsciiCompatibleEncoding::utf_8());

    for encoding in all_encodings() {
        if let Some(ascii_compat_encoding) = AsciiCompatibleEncoding::new(encoding) {
            shared_encoding.set(ascii_compat_encoding);
            assert_eq!(shared_encoding.get(), encoding);
        }
    }
}

#[test]
fn new_then_get_returns_the_encoding() {
    let mut seen = 0;
    for encoding in all_encodings() {
        if let Some(compatible) = AsciiCompatibleEncoding::new(encoding) {
            assert_eq!(SharedEncoding::new(compatible).get(), encoding);
            seen += 1;
        }
    }
    assert_eq!(seen, 36);
}

#[test]
fn table_holds_the_encodings_in_order() {
    assert_eq!(TABLE_LEN, 40);
    let expected = all_encodings();
    for index in 0..TABLE_LEN {
        assert_eq!(encoding_at(index), expected[index]);
    }
}

#[test]
fn table_names_are_those_of_the_encodings() {
    let names = [
        "UTF-8", "Shift_JIS", "Big5", "EUC-JP", "EUC-KR", "gb18030", "GBK", "IBM866",
        "ISO-8859-2", "ISO-8859-3", "ISO-8859-4", "ISO-8859-5", "ISO-8859-6", "ISO-8859-7",
        "ISO-8859-8-I", "ISO-8859-8", "ISO-8859-10", "ISO-8859-13", "ISO-8859-14",
        "ISO-8859-15", "ISO-8859-16", "KOI8-R", "KOI8-U", "macintosh", "windows-1250",
        "windows-1251", "windows-1252", "windows-1253", "windows-1254", "windows-1255",
        "windows-1256", "windows-1257", "windows-1258", "windows-874", "x-mac-cyrillic",
        "x-user-defined", "replacement", "UTF-16BE", "UTF-16LE", "ISO-2022-JP",
    ];
    for index in 0..TABLE_LEN {
        assert_eq!(encoding_at(index).name(), names[index]);
    }
}

#[test]
fn position_zero_is_utf_8() {
    assert_eq!(encoding_at(0), encoding_rs::UTF_8);
    assert_eq!(AsciiCompatibleEncoding::utf_8().encoding(), encoding_rs::UTF_8);
    assert_eq!(encoding_to_index(AsciiCompatibleEncoding::utf_8()), 0);
}

#[test]
fn position_outside_the_table_reads_as_utf_8() {
    assert_eq!(encoding_at(40), encoding_rs::UTF_8);
    assert_eq!(encoding_at(41), encoding_rs::UTF_8);
    assert_eq!(encoding_at(usize::MAX), encoding_rs::UTF_8);
}

#[test]
fn position_finds_every_encoding_where_the_table_holds_it() {
    let expected = all_encodings();
    for index in 0..TABLE_LEN {
        assert_eq!(position(expected[index]), Some(index));
    }
    assert_eq!(position(encoding_rs::WINDOWS_1252), Some(26));
    assert_eq!(position(encoding_rs::ISO_2022_JP), Some(39));
}

#[test]
fn encoding_to_index_is_the_position_in_the_table() {
    let expected = all_encodings();
    for index in 0..ASCII_COMPATIBLE_LEN {
        let compatible = AsciiCompatibleEncoding::new(expected[index]).unwrap();
        assert_eq!(encoding_to_index(compatible), index);
    }
    let windows_1252 = AsciiCompatibleEncoding::new(encoding_rs::WINDOWS_1252).unwrap();
    assert_eq!(encoding_to_index(windows_1252), 26);
}

#[test]
fn ascii_compatible_encodings_come_first() {
    assert_eq!(ASCII_COMPATIBLE_LEN, 36);
    for index in 0..TABLE_LEN {
        let wrapped = AsciiCompatibleEncoding::new(encoding_at(index));
        assert_eq!(wrapped.is_some(), index < ASCII_COMPATIBLE_LEN);
        assert_eq!(encoding_at(index).is_ascii_compatible(), index < ASCII_COMPATIBLE_LEN);
    }
}

#[test]
fn encodings_that_are_not_ascii_compatible_are_refused() {
    assert!(AsciiCompatibleEncoding::new(encoding_rs::REPLACEMENT).is_none());
    assert!(AsciiCompatibleEncoding::new(encoding_rs::UTF_16BE).is_none());
    assert!(AsciiCompatibleEncoding::new(encoding_rs::UTF_16LE).is_none());
    assert!(AsciiCompatibleEncoding::new(encoding_rs::ISO_2022_JP).is_none());
    assert!(AsciiCompatibleEncoding::new(encoding_rs::X_USER_DEFINED).is_some());
}

#[test]
fn wrapped_encoding_is_the_one_given() {
    let wrapped = AsciiCompatibleEncoding::new(encoding_rs::KOI8_U).unwrap();
    assert_eq!(wrapped.encoding(), encoding_rs::KOI8_U);
    assert_ne!(wrapped.encoding(), encoding_rs::KOI8_R);
    assert_eq!(wrapped, AsciiCompatibleEncoding::new(encoding_rs::KOI8_U).unwrap());
}

#[test]
fn table_entries_are_distinct() {
    for left in 0..TABLE_LEN {
        for right in 0..TABLE_LEN {
            assert_eq!(encoding_at(left) == encoding_at(right), left == right);
        }
    }
}

#[test]
fn clones_share_the_cell() {
    let shared = SharedEncoding::new(AsciiCompatibleEncoding::utf_8());
    let other = shared.clone();
    other.set(AsciiCompatibleEncoding::new(encoding_rs::SHIFT_JIS).unwrap());
    assert_eq!(shared.get(), encoding_rs::SHIFT_JIS);
    shared.set(AsciiCompatibleEncoding::new(encoding_rs::BIG5).unwrap());
    assert_eq!(other.get(), encoding_rs::BIG5);
}

#[test]
fn later_set_replaces_earlier_one() {
    let shared = SharedEncoding::new(AsciiCompatibleEncoding::utf_8());
    assert_eq!(shared.get(), encoding_rs::UTF_8);
    shared.set(AsciiCompatibleEncoding::new(encoding_rs::WINDOWS_1252).unwrap());
    shared.set(AsciiCompatibleEncoding::new(encoding_rs::EUC_KR).unwrap());
    assert_eq!(shared.get(), encoding_rs::EUC_KR);
}

#[test]
fn reader_sees_only_written_encodings_while_holders_take_turns() {
    let written = [
        encoding_rs::SHIFT_JIS,
        encoding_rs::BIG5,
        encoding_rs::KOI8_R,
        encoding_rs::WINDOWS_1251,
    ];
    let shared = SharedEncoding::new(AsciiCompatibleEncoding::utf_8());
    let reader = shared.clone();
    let writers = [shared.clone(), shared.clone(), shared.clone(), shared.clone()];
    assert_eq!(reader.get(), encoding_rs::UTF_8);
    for round in 0..100 {
        for turn in 0..writers.len() {
            let holder = (turn + round) % writers.len();
            writers[holder].set(AsciiCompatibleEncoding::new(written[holder]).unwrap());
            let seen = reader.get();
            assert_eq!(seen, written[holder]);
            assert!(position(seen).unwrap() < TABLE_LEN);
        }
    }
    assert!(written.contains(&shared.get()));
}

#[test]
fn get_returns_utf_8_before_the_set_and_windows_1252_after_it() {
    let shared = SharedEncoding::new(AsciiCompatibleEncoding::utf_8());
    let readers = [shared.clone(), shared.clone(), shared.clone()];
    for reader in &readers {
        assert_eq!(reader.get(), encoding_rs::UTF_8);
    }
    shared.set(AsciiCompatibleEncoding::new(encoding_rs::WINDOWS_1252).unwrap());
    for reader in &readers {
        for _ in 0..10 {
            assert_eq!(reader.get(), encoding_rs::WINDOWS_1252);
        }
    }
    assert_eq!(shared.get(), encoding_rs::WINDOWS_1252);
}

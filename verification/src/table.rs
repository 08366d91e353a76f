//! The table of supported encodings: a fixed sequence of forty encodings, each
//! at a stable position. Position 0 is UTF-8, the fallback. The ASCII-compatible
//! encodings come first, the four that are not come last.

use crate::ascii_compatible::AsciiCompatibleEncoding;
use crate::encodings;
use crate::encodings::{ascii_compatible_name, encoding_name};
use encoding_rs::Encoding;
use vstd::prelude::*;

verus! {

/// The number of encodings in the table.
pub const TABLE_LEN: usize = 40;

/// The number of ASCII-compatible encodings, which fill the positions below it.
pub const ASCII_COMPATIBLE_LEN: usize = 36;

/// The name of the encoding at `index`. An index outside the table reads as
/// position 0, so there it is the name of UTF-8.
pub open spec fn entry_name(index: int) -> Seq<char> {
    if index == 0 {
        "UTF-8"@
    } else if index == 1 {
        "Shift_JIS"@
    } else if index == 2 {
        "Big5"@
    } else if index == 3 {
        "EUC-JP"@
    } else if index == 4 {
        "EUC-KR"@
    } else if index == 5 {
        "gb18030"@
    } else if index == 6 {
        "GBK"@
    } else if index == 7 {
        "IBM866"@
    } else if index == 8 {
        "ISO-8859-2"@
    } else if index == 9 {
        "ISO-8859-3"@
    } else if index == 10 {
        "ISO-8859-4"@
    } else if index == 11 {
        "ISO-8859-5"@
    } else if index == 12 {
        "ISO-8859-6"@
    } else if index == 13 {
        "ISO-8859-7"@
    } else if index == 14 {
        "ISO-8859-8-I"@
    } else if index == 15 {
        "ISO-8859-8"@
    } else if index == 16 {
        "ISO-8859-10"@
    } else if index == 17 {
        "ISO-8859-13"@
    } else if index == 18 {
        "ISO-8859-14"@
    } else if index == 19 {
        "ISO-8859-15"@
    } else if index == 20 {
        "ISO-8859-16"@
    } else if index == 21 {
        "KOI8-R"@
    } else if index == 22 {
        "KOI8-U"@
    } else if index == 23 {
        "macintosh"@
    } else if index == 24 {
        "windows-1250"@
    } else if index == 25 {
        "windows-1251"@
    } else if index == 26 {
        "windows-1252"@
    } else if index == 27 {
        "windows-1253"@
    } else if index == 28 {
        "windows-1254"@
    } else if index == 29 {
        "windows-1255"@
    } else if index == 30 {
        "windows-1256"@
    } else if index == 31 {
        "windows-1257"@
    } else if index == 32 {
        "windows-1258"@
    } else if index == 33 {
        "windows-874"@
    } else if index == 34 {
        "x-mac-cyrillic"@
    } else if index == 35 {
        "x-user-defined"@
    } else if index == 36 {
        "replacement"@
    } else if index == 37 {
        "UTF-16BE"@
    } else if index == 38 {
        "UTF-16LE"@
    } else if index == 39 {
        "ISO-2022-JP"@
    } else {
        "UTF-8"@
    }
}

/// Whether the table holds an encoding of this name.
pub open spec fn in_table(name: Seq<char>) -> bool {
    exists|index: int| 0 <= index < TABLE_LEN && entry_name(index) == name
}

/// The position of the encoding of this name, or 0 where the table holds none.
pub open spec fn index_of(name: Seq<char>) -> int {
    if in_table(name) {
        choose|index: int| 0 <= index < TABLE_LEN && entry_name(index) == name
    } else {
        0
    }
}

/// The encoding at a position of the table.
fn table_entry(index: usize) -> (encoding: &'static Encoding)
    requires
        index < TABLE_LEN,
    ensures
        encoding_name(encoding) == entry_name(index as int),
{
    match index {
        0 => encodings::utf_8(),
        1 => encodings::shift_jis(),
        2 => encodings::big5(),
        3 => encodings::euc_jp(),
        4 => encodings::euc_kr(),
        5 => encodings::gb18030(),
        6 => encodings::gbk(),
        7 => encodings::ibm866(),
        8 => encodings::iso_8859_2(),
        9 => encodings::iso_8859_3(),
        10 => encodings::iso_8859_4(),
        11 => encodings::iso_8859_5(),
        12 => encodings::iso_8859_6(),
        13 => encodings::iso_8859_7(),
        14 => encodings::iso_8859_8_i(),
        15 => encodings::iso_8859_8(),
        16 => encodings::iso_8859_10(),
        17 => encodings::iso_8859_13(),
        18 => encodings::iso_8859_14(),
        19 => encodings::iso_8859_15(),
        20 => encodings::iso_8859_16(),
        21 => encodings::koi8_r(),
        22 => encodings::koi8_u(),
        23 => encodings::macintosh(),
        24 => encodings::windows_1250(),
        25 => encodings::windows_1251(),
        26 => encodings::windows_1252(),
        27 => encodings::windows_1253(),
        28 => encodings::windows_1254(),
        29 => encodings::windows_1255(),
        30 => encodings::windows_1256(),
        31 => encodings::windows_1257(),
        32 => encodings::windows_1258(),
        33 => encodings::windows_874(),
        34 => encodings::x_mac_cyrillic(),
        35 => encodings::x_user_defined(),
        36 => encodings::replacement(),
        37 => encodings::utf_16be(),
        38 => encodings::utf_16le(),
        _ => encodings::iso_2022_jp(),
    }
}

/// The length of a name and its last two characters. They tell the names of
/// the table apart.
spec fn name_ending(name: Seq<char>) -> (nat, char, char) {
    (name.len(), name[name.len() - 1], name[name.len() - 2])
}

/// No two positions of the table hold the same encoding.
pub proof fn lemma_entries_distinct()
    ensures
        forall|i: int, j: int|
            0 <= i < j < TABLE_LEN ==> #[trigger] entry_name(i) != #[trigger] entry_name(j),
{
    reveal_strlit("UTF-8");
    reveal_strlit("Shift_JIS");
    reveal_strlit("Big5");
    reveal_strlit("EUC-JP");
    reveal_strlit("EUC-KR");
    reveal_strlit("gb18030");
    reveal_strlit("GBK");
    reveal_strlit("IBM866");
    reveal_strlit("ISO-8859-2");
    reveal_strlit("ISO-8859-3");
    reveal_strlit("ISO-8859-4");
    reveal_strlit("ISO-8859-5");
    reveal_strlit("ISO-8859-6");
    reveal_strlit("ISO-8859-7");
    reveal_strlit("ISO-8859-8-I");
    reveal_strlit("ISO-8859-8");
    reveal_strlit("ISO-8859-10");
    reveal_strlit("ISO-8859-13");
    reveal_strlit("ISO-8859-14");
    reveal_strlit("ISO-8859-15");
    reveal_strlit("ISO-8859-16");
    reveal_strlit("KOI8-R");
    reveal_strlit("KOI8-U");
    reveal_strlit("macintosh");
    reveal_strlit("windows-1250");
    reveal_strlit("windows-1251");
    reveal_strlit("windows-1252");
    reveal_strlit("windows-1253");
    reveal_strlit("windows-1254");
    reveal_strlit("windows-1255");
    reveal_strlit("windows-1256");
    reveal_strlit("windows-1257");
    reveal_strlit("windows-1258");
    reveal_strlit("windows-874");
    reveal_strlit("x-mac-cyrillic");
    reveal_strlit("x-user-defined");
    reveal_strlit("replacement");
    reveal_strlit("UTF-16BE");
    reveal_strlit("UTF-16LE");
    reveal_strlit("ISO-2022-JP");
    assert forall|i: int, j: int| 0 <= i < j < TABLE_LEN implies #[trigger] entry_name(i)
        != #[trigger] entry_name(j) by {
        assert(name_ending(entry_name(i)) != name_ending(entry_name(j)));
    }
}

/// Among the positions of the table, those below `ASCII_COMPATIBLE_LEN` hold
/// the ASCII-compatible encodings and the others hold the rest.
pub proof fn lemma_ascii_compatible_first(index: int)
    requires
        0 <= index < TABLE_LEN,
    ensures
        ascii_compatible_name(entry_name(index)) <==> index < ASCII_COMPATIBLE_LEN,
{
    lemma_entries_distinct();
    assert(entry_name(36) == "replacement"@);
    assert(entry_name(37) == "UTF-16BE"@);
    assert(entry_name(38) == "UTF-16LE"@);
    assert(entry_name(39) == "ISO-2022-JP"@);
    if index < 36 {
        assert(entry_name(index) != entry_name(36));
        assert(entry_name(index) != entry_name(37));
        assert(entry_name(index) != entry_name(38));
        assert(entry_name(index) != entry_name(39));
    }
}

/// Each position of the table is the position of the encoding that it holds.
pub proof fn lemma_index_of_entry(index: int)
    requires
        0 <= index < TABLE_LEN,
    ensures
        in_table(entry_name(index)),
        index_of(entry_name(index)) == index,
{
    lemma_entries_distinct();
    let found = index_of(entry_name(index));
    if found < index {
        assert(entry_name(found) != entry_name(index));
    } else if index < found {
        assert(entry_name(index) != entry_name(found));
    }
}

/// An encoding of the table that is turned into its position and back is the
/// same encoding again, and it is ASCII-compatible exactly if the position is
/// below `ASCII_COMPATIBLE_LEN`.
pub proof fn lemma_round_trip(name: Seq<char>)
    requires
        in_table(name),
    ensures
        0 <= index_of(name) < TABLE_LEN,
        entry_name(index_of(name)) == name,
        ascii_compatible_name(name) <==> index_of(name) < ASCII_COMPATIBLE_LEN,
{
    lemma_ascii_compatible_first(index_of(name));
}

/// The encoding at `index`, or UTF-8, the encoding at position 0, where
/// `index` lies outside the table.
pub fn encoding_at(index: usize) -> (encoding: &'static Encoding)
    ensures
        encoding_name(encoding) == entry_name(index as int),
        in_table(encoding_name(encoding)),
{
    if index < TABLE_LEN {
        table_entry(index)
    } else {
        assert(entry_name(index as int) == entry_name(0));
        table_entry(0)
    }
}

/// Looks `encoding` up in the table, position by position.
pub fn position(encoding: &'static Encoding) -> (found: Option<usize>)
    ensures
        match found {
            Some(index) => index == index_of(encoding_name(encoding)) && in_table(
                encoding_name(encoding),
            ),
            None => !in_table(encoding_name(encoding)),
        },
{
    let mut index: usize = 0;
    while index < TABLE_LEN
        invariant
            index <= TABLE_LEN,
            forall|earlier: int|
                0 <= earlier < index ==> entry_name(earlier) != encoding_name(encoding),
        decreases TABLE_LEN - index,
    {
        if encodings::same_encoding(table_entry(index), encoding) {
            proof {
                lemma_index_of_entry(index as int);
            }
            return Some(index);
        }
        index += 1;
    }
    None
}

/// The position under which `encoding` is stored: its position in the table,
/// or 0 if the table does not hold it.
pub fn encoding_to_index(encoding: AsciiCompatibleEncoding) -> (index: usize)
    ensures
        index == index_of(encoding.name()),
        index < ASCII_COMPATIBLE_LEN,
{
    match position(encoding.encoding()) {
        Some(index) => {
            proof {
                lemma_round_trip(encoding.name());
            }
            index
        },
        None => 0,
    }
}

} // verus!

//! What this library takes from `encoding_rs`: the type `Encoding`, the
//! statics that stand for the encodings, the comparison of two encodings and
//! `Encoding::is_ascii_compatible`. Nothing in this file is proved: each
//! contract states what the source of `encoding_rs` shows.

use encoding_rs::Encoding;
use vstd::prelude::*;

verus! {

/// `encoding_rs::Encoding`, opaque to the verifier. Every instance is one of
/// the statics of `encoding_rs`, and there is exactly one for each encoding.
#[verifier::external_type_specification]
#[verifier::external_body]
pub struct ExEncoding(Encoding);

/// The name of an encoding, as `Encoding::name` gives it. Each instance has a
/// name of its own, so the name stands for the identity of the instance.
pub uninterp spec fn encoding_name(encoding: &Encoding) -> Seq<char>;

/// The names of the four encodings of which `Encoding::is_ascii_compatible`
/// is false: the replacement encoding, UTF-16BE, UTF-16LE and ISO-2022-JP.
pub open spec fn ascii_compatible_name(name: Seq<char>) -> bool {
    &&& name != "replacement"@
    &&& name != "UTF-16BE"@
    &&& name != "UTF-16LE"@
    &&& name != "ISO-2022-JP"@
}

/// `==` on two encodings. `encoding_rs` compares the addresses of the two
/// instances, and two instances are the same exactly when their names are.
#[verifier::external_body]
pub(crate) fn same_encoding(left: &'static Encoding, right: &'static Encoding) -> (same: bool)
    ensures
        same == (encoding_name(left) == encoding_name(right)),
{
    left == right
}

/// `Encoding::is_ascii_compatible`: false of the replacement encoding,
/// UTF-16BE, UTF-16LE and ISO-2022-JP, true of every other encoding.
#[verifier::external_body]
pub(crate) fn is_ascii_compatible(encoding: &'static Encoding) -> (compatible: bool)
    ensures
        compatible == ascii_compatible_name(encoding_name(encoding)),
{
    encoding.is_ascii_compatible()
}

/// `encoding_rs::UTF_8`, whose name is "UTF-8".
#[verifier::external_body]
pub(crate) fn utf_8() -> (encoding: &'static Encoding)
    ensures
        encoding_name(encoding) == "UTF-8"@,
{
    encoding_rs::UTF_8
}

/// `encoding_rs::SHIFT_JIS`, whose name is "Shift_JIS".
#[verifier::external_body]
pub(crate) fn shift_jis() -> (encoding: &'static Encoding)
    ensures
        encoding_name(encoding) == "Shift_JIS"@,
{
    encoding_rs::SHIFT_JIS
}

/// `encoding_rs::BIG5`, whose name is "Big5".
#[verifier::external_body]
pub(crate) fn big5() -> (encoding: &'static Encoding)
    ensures
        encoding_name(encoding) == "Big5"@,
{
    encoding_rs::BIG5
}

/// `encoding_rs::EUC_JP`, whose name is "EUC-JP".
#[verifier::external_body]
pub(crate) fn euc_jp() -> (encoding: &'static Encoding)
    ensures
        encoding_name(encoding) == "EUC-JP"@,
{
    encoding_rs::EUC_JP
}

/// `encoding_rs::EUC_KR`, whose name is "EUC-KR".
#[verifier::external_body]
pub(crate) fn euc_kr() -> (encoding: &'static Encoding)
    ensures
        encoding_name(encoding) == "EUC-KR"@,
{
    encoding_rs::EUC_KR
}

/// `encoding_rs::GB18030`, whose name is "gb18030".
#[verifier::external_body]
pub(crate) fn gb18030() -> (encoding: &'static Encoding)
    ensures
        encoding_name(encoding) == "gb18030"@,
{
    encoding_rs::GB18030
}

/// `encoding_rs::GBK`, whose name is "GBK".
#[verifier::external_body]
pub(crate) fn gbk() -> (encoding: &'static Encoding)
    ensures
        encoding_name(encoding) == "GBK"@,
{
    encoding_rs::GBK
}

/// `encoding_rs::IBM866`, whose name is "IBM866".
#[verifier::external_body]
pub(crate) fn ibm866() -> (encoding: &'static Encoding)
    ensures
        encoding_name(encoding) == "IBM866"@,
{
    encoding_rs::IBM866
}

/// `encoding_rs::ISO_8859_2`, whose name is "ISO-8859-2".
#[verifier::external_body]
pub(crate) fn iso_8859_2() -> (encoding: &'static Encoding)
    ensures
        encoding_name(encoding) == "ISO-8859-2"@,
{
    encoding_rs::ISO_8859_2
}

/// `encoding_rs::ISO_8859_3`, whose name is "ISO-8859-3".
#[verifier::external_body]
pub(crate) fn iso_8859_3() -> (encoding: &'static Encoding)
    ensures
        encoding_name(encoding) == "ISO-8859-3"@,
{
    encoding_rs::ISO_8859_3
}

/// `encoding_rs::ISO_8859_4`, whose name is "ISO-8859-4".
#[verifier::external_body]
pub(crate) fn iso_8859_4() -> (encoding: &'static Encoding)
    ensures
        encoding_name(encoding) == "ISO-8859-4"@,
{
    encoding_rs::ISO_8859_4
}

/// `encoding_rs::ISO_8859_5`, whose name is "ISO-8859-5".
#[verifier::external_body]
pub(crate) fn iso_8859_5() -> (encoding: &'static Encoding)
    ensures
        encoding_name(encoding) == "ISO-8859-5"@,
{
    encoding_rs::ISO_8859_5
}

/// `encoding_rs::ISO_8859_6`, whose name is "ISO-8859-6".
#[verifier::external_body]
pub(crate) fn iso_8859_6() -> (encoding: &'static Encoding)
    ensures
        encoding_name(encoding) == "ISO-8859-6"@,
{
    encoding_rs::ISO_8859_6
}

/// `encoding_rs::ISO_8859_7`, whose name is "ISO-8859-7".
#[verifier::external_body]
pub(crate) fn iso_8859_7() -> (encoding: &'static Encoding)
    ensures
        encoding_name(encoding) == "ISO-8859-7"@,
{
    encoding_rs::ISO_8859_7
}

/// `encoding_rs::ISO_8859_8_I`, whose name is "ISO-8859-8-I".
#[verifier::external_body]
pub(crate) fn iso_8859_8_i() -> (encoding: &'static Encoding)
    ensures
        encoding_name(encoding) == "ISO-8859-8-I"@,
{
    encoding_rs::ISO_8859_8_I
}

/// `encoding_rs::ISO_8859_8`, whose name is "ISO-8859-8".
#[verifier::external_body]
pub(crate) fn iso_8859_8() -> (encoding: &'static Encoding)
    ensures
        encoding_name(encoding) == "ISO-8859-8"@,
{
    encoding_rs::ISO_8859_8
}

/// `encoding_rs::ISO_8859_10`, whose name is "ISO-8859-10".
#[verifier::external_body]
pub(crate) fn iso_8859_10() -> (encoding: &'static Encoding)
    ensures
        encoding_name(encoding) == "ISO-8859-10"@,
{
    encoding_rs::ISO_8859_10
}

/// `encoding_rs::ISO_8859_13`, whose name is "ISO-8859-13".
#[verifier::external_body]
pub(crate) fn iso_8859_13() -> (encoding: &'static Encoding)
    ensures
        encoding_name(encoding) == "ISO-8859-13"@,
{
    encoding_rs::ISO_8859_13
}

/// `encoding_rs::ISO_8859_14`, whose name is "ISO-8859-14".
#[verifier::external_body]
pub(crate) fn iso_8859_14() -> (encoding: &'static Encoding)
    ensures
        encoding_name(encoding) == "ISO-8859-14"@,
{
    encoding_rs::ISO_8859_14
}

/// `encoding_rs::ISO_8859_15`, whose name is "ISO-8859-15".
#[verifier::external_body]
pub(crate) fn iso_8859_15() -> (encoding: &'static Encoding)
    ensures
        encoding_name(encoding) == "ISO-8859-15"@,
{
    encoding_rs::ISO_8859_15
}

/// `encoding_rs::ISO_8859_16`, whose name is "ISO-8859-16".
#[verifier::external_body]
pub(crate) fn iso_8859_16() -> (encoding: &'static Encoding)
    ensures
        encoding_name(encoding) == "ISO-8859-16"@,
{
    encoding_rs::ISO_8859_16
}

/// `encoding_rs::KOI8_R`, whose name is "KOI8-R".
#[verifier::external_body]
pub(crate) fn koi8_r() -> (encoding: &'static Encoding)
    ensures
        encoding_name(encoding) == "KOI8-R"@,
{
    encoding_rs::KOI8_R
}

/// `encoding_rs::KOI8_U`, whose name is "KOI8-U".
#[verifier::external_body]
pub(crate) fn koi8_u() -> (encoding: &'static Encoding)
    ensures
        encoding_name(encoding) == "KOI8-U"@,
{
    encoding_rs::KOI8_U
}

/// `encoding_rs::MACINTOSH`, whose name is "macintosh".
#[verifier::external_body]
pub(crate) fn macintosh() -> (encoding: &'static Encoding)
    ensures
        encoding_name(encoding) == "macintosh"@,
{
    encoding_rs::MACINTOSH
}

/// `encoding_rs::WINDOWS_1250`, whose name is "windows-1250".
#[verifier::external_body]
pub(crate) fn windows_1250() -> (encoding: &'static Encoding)
    ensures
        encoding_name(encoding) == "windows-1250"@,
{
    encoding_rs::WINDOWS_1250
}

/// `encoding_rs::WINDOWS_1251`, whose name is "windows-1251".
#[verifier::external_body]
pub(crate) fn windows_1251() -> (encoding: &'static Encoding)
    ensures
        encoding_name(encoding) == "windows-1251"@,
{
    encoding_rs::WINDOWS_1251
}

/// `encoding_rs::WINDOWS_1252`, whose name is "windows-1252".
#[verifier::external_body]
pub(crate) fn windows_1252() -> (encoding: &'static Encoding)
    ensures
        encoding_name(encoding) == "windows-1252"@,
{
    encoding_rs::WINDOWS_1252
}

/// `encoding_rs::WINDOWS_1253`, whose name is "windows-1253".
#[verifier::external_body]
pub(crate) fn windows_1253() -> (encoding: &'static Encoding)
    ensures
        encoding_name(encoding) == "windows-1253"@,
{
    encoding_rs::WINDOWS_1253
}

/// `encoding_rs::WINDOWS_1254`, whose name is "windows-1254".
#[verifier::external_body]
pub(crate) fn windows_1254() -> (encoding: &'static Encoding)
    ensures
        encoding_name(encoding) == "windows-1254"@,
{
    encoding_rs::WINDOWS_1254
}

/// `encoding_rs::WINDOWS_1255`, whose name is "windows-1255".
#[verifier::external_body]
pub(crate) fn windows_1255() -> (encoding: &'static Encoding)
    ensures
        encoding_name(encoding) == "windows-1255"@,
{
    encoding_rs::WINDOWS_1255
}

/// `encoding_rs::WINDOWS_1256`, whose name is "windows-1256".
#[verifier::external_body]
pub(crate) fn windows_1256() -> (encoding: &'static Encoding)
    ensures
        encoding_name(encoding) == "windows-1256"@,
{
    encoding_rs::WINDOWS_1256
}

/// `encoding_rs::WINDOWS_1257`, whose name is "windows-1257".
#[verifier::external_body]
pub(crate) fn windows_1257() -> (encoding: &'static Encoding)
    ensures
        encoding_name(encoding) == "windows-1257"@,
{
    encoding_rs::WINDOWS_1257
}

/// `encoding_rs::WINDOWS_1258`, whose name is "windows-1258".
#[verifier::external_body]
pub(crate) fn windows_1258() -> (encoding: &'static Encoding)
    ensures
        encoding_name(encoding) == "windows-1258"@,
{
    encoding_rs::WINDOWS_1258
}

/// `encoding_rs::WINDOWS_874`, whose name is "windows-874".
#[verifier::external_body]
pub(crate) fn windows_874() -> (encoding: &'static Encoding)
    ensures
        encoding_name(encoding) == "windows-874"@,
{
    encoding_rs::WINDOWS_874
}

/// `encoding_rs::X_MAC_CYRILLIC`, whose name is "x-mac-cyrillic".
#[verifier::external_body]
pub(crate) fn x_mac_cyrillic() -> (encoding: &'static Encoding)
    ensures
        encoding_name(encoding) == "x-mac-cyrillic"@,
{
    encoding_rs::X_MAC_CYRILLIC
}

/// `encoding_rs::X_USER_DEFINED`, whose name is "x-user-defined".
#[verifier::external_body]
pub(crate) fn x_user_defined() -> (encoding: &'static Encoding)
    ensures
        encoding_name(encoding) == "x-user-defined"@,
{
    encoding_rs::X_USER_DEFINED
}

/// `encoding_rs::REPLACEMENT`, whose name is "replacement".
#[verifier::external_body]
pub(crate) fn replacement() -> (encoding: &'static Encoding)
    ensures
        encoding_name(encoding) == "replacement"@,
{
    encoding_rs::REPLACEMENT
}

/// `encoding_rs::UTF_16BE`, whose name is "UTF-16BE".
#[verifier::external_body]
pub(crate) fn utf_16be() -> (encoding: &'static Encoding)
    ensures
        encoding_name(encoding) == "UTF-16BE"@,
{
    encoding_rs::UTF_16BE
}

/// `encoding_rs::UTF_16LE`, whose name is "UTF-16LE".
#[verifier::external_body]
pub(crate) fn utf_16le() -> (encoding: &'static Encoding)
    ensures
        encoding_name(encoding) == "UTF-16LE"@,
{
    encoding_rs::UTF_16LE
}

/// `encoding_rs::ISO_2022_JP`, whose name is "ISO-2022-JP".
#[verifier::external_body]
pub(crate) fn iso_2022_jp() -> (encoding: &'static Encoding)
    ensures
        encoding_name(encoding) == "ISO-2022-JP"@,
{
    encoding_rs::ISO_2022_JP
}

} // verus!

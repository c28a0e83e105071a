//! Decoding of captured probe output.
//!
//! The platform probe utility writes in the console's detected code page.
//! UTF-8 output is decoded lossily; a small table of legacy code pages maps
//! to their encodings; an unknown code page falls back to lossy UTF-8.  On
//! platforms without code pages the caller passes the UTF-8 code page.

use vstd::prelude::*;

verus! {

/// What decoding the bytes as GBK (code page 936) yields; a function of the
/// bytes alone.
pub uninterp spec fn gbk_decoded(bytes: Seq<u8>) -> Seq<char>;

/// What decoding the bytes as Big5 (code page 950) yields.
pub uninterp spec fn big5_decoded(bytes: Seq<u8>) -> Seq<char>;

/// What decoding the bytes as Shift_JIS (code page 932) yields.
pub uninterp spec fn shift_jis_decoded(bytes: Seq<u8>) -> Seq<char>;

/// What decoding the bytes as EUC-KR (code page 949) yields.
pub uninterp spec fn euc_kr_decoded(bytes: Seq<u8>) -> Seq<char>;

/// What decoding the bytes as UTF-8, replacing malformed sequences, yields.
pub uninterp spec fn utf8_lossy_decoded(bytes: Seq<u8>) -> Seq<char>;

/// All bytes are plain ASCII.
pub open spec fn all_ascii(bytes: Seq<u8>) -> bool {
    forall|i: int| 0 <= i < bytes.len() ==> #[trigger] bytes[i] < 128
}

/// ASCII bytes read as the characters they are.
pub open spec fn ascii_chars(bytes: Seq<u8>) -> Seq<char> {
    bytes.map_values(|b: u8| b as char)
}

/// Relies on encoding_rs::GBK.decode: the result is a function of the bytes
/// alone, and GBK is ASCII-compatible, so ASCII-only input decodes to itself.
#[verifier::external_body]
fn decode_gbk(bytes: &[u8]) -> (r: String)
    ensures
        r@ == gbk_decoded(bytes@),
        all_ascii(bytes@) ==> r@ == ascii_chars(bytes@),
{
    let (cow, _, _) = encoding_rs::GBK.decode(bytes);
    cow.into_owned()
}

/// Relies on encoding_rs::BIG5.decode: a function of the bytes alone;
/// ASCII-compatible.
#[verifier::external_body]
fn decode_big5(bytes: &[u8]) -> (r: String)
    ensures
        r@ == big5_decoded(bytes@),
        all_ascii(bytes@) ==> r@ == ascii_chars(bytes@),
{
    let (cow, _, _) = encoding_rs::BIG5.decode(bytes);
    cow.into_owned()
}

/// Relies on encoding_rs::SHIFT_JIS.decode: a function of the bytes alone;
/// ASCII-compatible.
#[verifier::external_body]
fn decode_shift_jis(bytes: &[u8]) -> (r: String)
    ensures
        r@ == shift_jis_decoded(bytes@),
        all_ascii(bytes@) ==> r@ == ascii_chars(bytes@),
{
    let (cow, _, _) = encoding_rs::SHIFT_JIS.decode(bytes);
    cow.into_owned()
}

/// Relies on encoding_rs::EUC_KR.decode: a function of the bytes alone;
/// ASCII-compatible.
#[verifier::external_body]
fn decode_euc_kr(bytes: &[u8]) -> (r: String)
    ensures
        r@ == euc_kr_decoded(bytes@),
        all_ascii(bytes@) ==> r@ == ascii_chars(bytes@),
{
    let (cow, _, _) = encoding_rs::EUC_KR.decode(bytes);
    cow.into_owned()
}

/// Relies on String::from_utf8_lossy: malformed sequences become the
/// replacement character, so the result is a function of the bytes alone,
/// and valid UTF-8 — in particular ASCII — decodes to itself.
#[verifier::external_body]
fn decode_utf8_lossy(bytes: &[u8]) -> (r: String)
    ensures
        r@ == utf8_lossy_decoded(bytes@),
        all_ascii(bytes@) ==> r@ == ascii_chars(bytes@),
{
    String::from_utf8_lossy(bytes).into_owned()
}

/// The decoded text for a detected code page: the legacy table for 936, 950,
/// 932 and 949, lossy UTF-8 for 65001 and for anything unknown.
pub open spec fn spec_decoded(code_page: u32, bytes: Seq<u8>) -> Seq<char> {
    if code_page == 936 {
        gbk_decoded(bytes)
    } else if code_page == 950 {
        big5_decoded(bytes)
    } else if code_page == 932 {
        shift_jis_decoded(bytes)
    } else if code_page == 949 {
        euc_kr_decoded(bytes)
    } else {
        utf8_lossy_decoded(bytes)
    }
}

/// Decode captured probe output under the console's detected code page.
///
/// Whatever the code page, ASCII-only output decodes to the characters it
/// spells: the legacy code pages of the table are all ASCII-compatible.
pub fn decode_ping_output(code_page: u32, bytes: &[u8]) -> (r: String)
    ensures
        r@ == spec_decoded(code_page, bytes@),
        all_ascii(bytes@) ==> r@ == ascii_chars(bytes@),
{
    if code_page == 936 {
        decode_gbk(bytes)
    } else if code_page == 950 {
        decode_big5(bytes)
    } else if code_page == 932 {
        decode_shift_jis(bytes)
    } else if code_page == 949 {
        decode_euc_kr(bytes)
    } else {
        decode_utf8_lossy(bytes)
    }
}

} // verus!

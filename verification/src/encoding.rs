//! Encoding detection: bytes in, text out. UTF-8 (with or without a byte
//! order mark) is taken as is; anything else is read as Shift_JIS.

use vstd::prelude::*;

use vstd::utf8::{decode_utf8, valid_utf8};

verus! {

/// What the Shift_JIS decoder returns for the given bytes: a pure function
/// of the bytes alone.
pub uninterp spec fn shift_jis_chars_of(bytes: Seq<u8>) -> Seq<char>;

/// Relies on `str::from_utf8`: accepts exactly the valid UTF-8 byte
/// strings, and returns their decoding.
#[verifier::external_body]
fn utf8_decode(v: &Vec<u8>) -> (r: Option<String>)
    ensures
        r is Some <==> valid_utf8(v@),
        r is Some ==> r->0@ == decode_utf8(v@),
{
    match std::str::from_utf8(v.as_slice()) {
        Ok(s) => Some(s.to_string()),
        Err(_) => None,
    }
}

/// Relies on `encoding_rs::SHIFT_JIS.decode`: decodes the bytes as
/// Shift_JIS with replacement characters for errors; the result depends on
/// the bytes alone.
#[verifier::external_body]
fn sjis_decode(v: &Vec<u8>) -> (r: String)
    ensures
        r@ == shift_jis_chars_of(v@),
{
    let (cow, _, _) = encoding_rs::SHIFT_JIS.decode(v.as_slice());
    cow.into_owned()
}

/// The bytes with a leading UTF-8 byte order mark removed.
pub open spec fn spec_strip_bom(bytes: Seq<u8>) -> Seq<u8> {
    if bytes.len() >= 3 && bytes[0] == 0xEFu8 && bytes[1] == 0xBBu8 && bytes[2] == 0xBFu8 {
        bytes.subrange(3, bytes.len() as int)
    } else {
        bytes
    }
}

/// The text of the bytes: their UTF-8 decoding where they are valid UTF-8
/// after dropping a byte order mark, and their Shift_JIS decoding
/// otherwise.
pub open spec fn spec_decode(bytes: Seq<u8>) -> Seq<char> {
    let b = spec_strip_bom(bytes);
    if valid_utf8(b) {
        decode_utf8(b)
    } else {
        shift_jis_chars_of(b)
    }
}

/// Decode bytes to text: UTF-8 where valid, Shift_JIS otherwise.
pub fn decode_to_utf8(bytes: &[u8]) -> (r: String)
    ensures
        r@ == spec_decode(bytes@),
{
    let n = bytes.len();
    let has_bom = n >= 3 && bytes[0] == 0xEF && bytes[1] == 0xBB && bytes[2] == 0xBF;
    let start: usize = if has_bom {
        3
    } else {
        0
    };
    let mut v: Vec<u8> = Vec::new();
    let mut i: usize = start;
    while i < n
        invariant
            start <= i <= n,
            n == bytes@.len(),
            v@ == bytes@.subrange(start as int, i as int),
        decreases n - i,
    {
        v.push(bytes[i]);
        i += 1;
        proof {
            assert(v@ =~= bytes@.subrange(start as int, i as int));
        }
    }
    proof {
        if has_bom {
            assert(v@ =~= spec_strip_bom(bytes@));
        } else {
            assert(bytes@.subrange(0, n as int) =~= bytes@);
            assert(v@ =~= spec_strip_bom(bytes@));
        }
    }
    match utf8_decode(&v) {
        Some(s) => s,
        None => sjis_decode(&v),
    }
}

/// Whether the bytes begin like a ZIP archive: the local-file or the
/// empty-archive magic.
pub open spec fn spec_is_zip(bytes: Seq<u8>) -> bool {
    bytes.len() >= 4 && bytes[0] == 0x50u8 && bytes[1] == 0x4Bu8 && ((bytes[2] == 0x03u8
        && bytes[3] == 0x04u8) || (bytes[2] == 0x05u8 && bytes[3] == 0x06u8))
}

/// Whether the bytes begin like a ZIP archive.
pub fn is_zip_file(bytes: &[u8]) -> (r: bool)
    ensures
        r == spec_is_zip(bytes@),
{
    bytes.len() >= 4 && bytes[0] == 0x50 && bytes[1] == 0x4B && ((bytes[2] == 0x03
        && bytes[3] == 0x04) || (bytes[2] == 0x05 && bytes[3] == 0x06))
}

} // verus!

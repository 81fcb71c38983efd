//! Turning a command's raw output bytes into text.
use vstd::prelude::*;
use vstd::utf8::{decode_utf8, valid_utf8};

use crate::platform::Platform;

verus! {

/// What GBK decoding of `b` gives (with byte-order-mark sniffing), and
/// whether malformed sequences were met.
pub uninterp spec fn gbk_decode_of(b: Seq<u8>) -> (Seq<char>, bool);

/// What lossy UTF-8 decoding of `b` gives.
pub uninterp spec fn utf8_lossy_of(b: Seq<u8>) -> Seq<char>;

/// Relies on `std::str::from_utf8`: succeeds exactly on valid UTF-8, and
/// then gives the characters the bytes encode.
#[verifier::external_body]
fn utf8_text(b: &[u8]) -> (r: Option<&str>)
    ensures
        r is Some <==> valid_utf8(b@),
        r matches Some(s) ==> s@ == decode_utf8(b@),
{
    std::str::from_utf8(b).ok()
}

/// Relies on `encoding_rs::Encoding::decode` on `encoding_rs::GBK`: the
/// decoded text and whether there were malformed sequences.
#[verifier::external_body]
fn gbk_decode(b: &[u8]) -> (r: (String, bool))
    ensures
        (r.0@, r.1) == gbk_decode_of(b@),
{
    let (text, _, had_errors) = encoding_rs::GBK.decode(b);
    (text.into_owned(), had_errors)
}

/// Relies on `String::from_utf8_lossy`: invalid sequences become the
/// replacement character, and valid input is decoded as it is.
#[verifier::external_body]
fn utf8_lossy(b: &[u8]) -> (r: String)
    ensures
        r@ == utf8_lossy_of(b@),
        valid_utf8(b@) ==> r@ == decode_utf8(b@),
{
    String::from_utf8_lossy(b).into_owned()
}

/// The text of a command's output on `p`: the characters the bytes encode
/// when they are valid UTF-8; otherwise, on Windows, GBK (the default code
/// page of Chinese Windows) when that decodes without errors, else lossy
/// UTF-8; elsewhere lossy UTF-8.
pub open spec fn decoded_text(b: Seq<u8>, p: Platform) -> Seq<char> {
    if valid_utf8(b) {
        decode_utf8(b)
    } else if p is Windows && !gbk_decode_of(b).1 {
        gbk_decode_of(b).0
    } else {
        utf8_lossy_of(b)
    }
}

/// Decodes a command's output bytes as `decoded_text` says.
pub fn smart_decode(bytes: &[u8], platform: Platform) -> (r: String)
    ensures
        r@ == decoded_text(bytes@, platform),
{
    match platform {
        Platform::Windows => {
            if let Some(s) = utf8_text(bytes) {
                return String::from_str(s);
            }
            let (text, had_errors) = gbk_decode(bytes);
            if !had_errors {
                return text;
            }
            utf8_lossy(bytes)
        },
        _ => utf8_lossy(bytes),
    }
}

} // verus!

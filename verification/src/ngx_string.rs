//! Byte strings as the host hands them around.
//!
//! An [`NgxStr`] owns a byte string; its view is the byte sequence. The two
//! character-level conversions go through the standard library's UTF-8
//! decoding, taken on trust: what they return is named by [`utf8_decoded`]
//! and [`utf8_lossy`], functions of the bytes alone.

use vstd::prelude::*;

verus! {

/// The character sequence that strict UTF-8 decoding yields for these bytes,
/// or `None` where the bytes are not valid UTF-8.
pub uninterp spec fn utf8_decoded(bytes: Seq<u8>) -> Option<Seq<char>>;

/// The character sequence that lossy UTF-8 decoding yields for these bytes:
/// invalid sequences become replacement characters.
pub uninterp spec fn utf8_lossy(bytes: Seq<u8>) -> Seq<char>;

/// Relies on `String::from_utf8`: returns the decoded string exactly on
/// valid UTF-8 input, and an error otherwise; the result is a function of
/// the bytes alone.
#[verifier::external_body]
fn utf8_to_string(bytes: &[u8]) -> (r: Option<String>)
    ensures
        r is Some <==> utf8_decoded(bytes@) is Some,
        r is Some ==> r->Some_0@ == utf8_decoded(bytes@)->Some_0,
{
    match String::from_utf8(bytes.to_vec()) {
        Ok(s) => Some(s),
        Err(_) => None,
    }
}

/// Relies on `String::from_utf8_lossy`: replaces invalid sequences with the
/// replacement character, and documents that valid UTF-8 input comes back
/// unchanged, i.e. as its strict decoding; the result is a function of the
/// bytes alone.
#[verifier::external_body]
fn utf8_to_string_lossy(bytes: &[u8]) -> (r: String)
    ensures
        r@ == utf8_lossy(bytes@),
        utf8_decoded(bytes@) is Some ==> r@ == utf8_decoded(bytes@)->Some_0,
{
    String::from_utf8_lossy(bytes).into_owned()
}

/// The error of [`NgxStr::to_str`]: the bytes are not valid UTF-8.
#[derive(PartialEq, Eq, Structural, Clone, Copy, Debug)]
pub struct Utf8Error;

/// A byte string of the host.
pub struct NgxStr {
    bytes: Vec<u8>,
}

impl View for NgxStr {
    type V = Seq<u8>;

    closed spec fn view(&self) -> Seq<u8> {
        self.bytes@
    }
}

impl NgxStr {
    /// Wraps owned bytes.
    pub fn from_bytes(bytes: Vec<u8>) -> (s: NgxStr)
        ensures
            s@ == bytes@,
    {
        NgxStr { bytes }
    }

    /// The bytes themselves.
    pub fn as_bytes(&self) -> (r: &[u8])
        ensures
            r@ == self@,
    {
        self.bytes.as_slice()
    }

    /// The string decoded as UTF-8, if it is valid UTF-8.
    pub fn to_str(&self) -> (r: Result<String, Utf8Error>)
        ensures
            r is Ok <==> utf8_decoded(self@) is Some,
            r is Ok ==> r->Ok_0@ == utf8_decoded(self@)->Some_0,
    {
        match utf8_to_string(self.bytes.as_slice()) {
            Some(s) => Ok(s),
            None => Err(Utf8Error),
        }
    }

    /// The string decoded as UTF-8, with invalid sequences replaced; valid
    /// UTF-8 decodes exactly as [`NgxStr::to_str`] would.
    pub fn to_string_lossy(&self) -> (r: String)
        ensures
            r@ == utf8_lossy(self@),
            utf8_decoded(self@) is Some ==> r@ == utf8_decoded(self@)->Some_0,
    {
        utf8_to_string_lossy(self.bytes.as_slice())
    }

    /// True exactly on the empty string.
    pub fn is_empty(&self) -> (r: bool)
        ensures
            r == (self@.len() == 0),
    {
        self.bytes.len() == 0
    }
}

impl Default for NgxStr {
    /// The empty byte string.
    fn default() -> (s: NgxStr)
        ensures
            s@ =~= Seq::<u8>::empty(),
    {
        NgxStr { bytes: Vec::new() }
    }
}

} // verus!

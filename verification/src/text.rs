//! Text as the game stores it: a fixed buffer of bytes, ended by a NUL where
//! the text is shorter than the buffer.

use vstd::prelude::*;
use vstd::utf8::{decode_utf8, encode_utf8, encode_utf8_decode_utf8, valid_utf8};

verus! {

/// The bytes of `buffer` before its first NUL; all of them where it has none.
pub open spec fn until_nul(buffer: Seq<u8>) -> Seq<u8> {
    match buffer.index_of_first(0u8) {
        Some(end) => buffer.subrange(0, end),
        None => buffer,
    }
}

/// `pattern` stands in `text` from position `start` on.
pub open spec fn occurs_at(text: Seq<char>, pattern: Seq<char>, start: int) -> bool {
    &&& 0 <= start
    &&& start + pattern.len() <= text.len()
    &&& text.subrange(start, start + pattern.len()) == pattern
}

/// `pattern` stands somewhere in `text`, as one unbroken run of characters.
pub open spec fn has_substring(text: Seq<char>, pattern: Seq<char>) -> bool {
    exists|start: int| occurs_at(text, pattern, start)
}

#[verifier::external_type_specification]
#[verifier::external_body]
pub struct ExUtf8Error(core::str::Utf8Error);

/// `core::str::from_utf8`, taken on trust: it succeeds exactly on well-formed
/// UTF-8, and the string slice it then returns is made of the very bytes it
/// was given.
pub assume_specification[ core::str::from_utf8 ](v: &[u8]) -> (result: Result<
    &str,
    core::str::Utf8Error,
>)
    ensures
        result is Ok <==> valid_utf8(v@),
        result matches Ok(text) ==> encode_utf8(text@) == v@,
;

/// `str::contains` with a string as the pattern, taken on trust: it tells
/// whether the pattern occurs in the text as a substring.
#[verifier::external_body]
pub(crate) fn str_contains(text: &str, pattern: &str) -> (found: bool)
    ensures
        found == has_substring(text@, pattern@),
{
    text.contains(pattern)
}

/// A NUL-terminated string in a buffer of 255 bytes, as read from the game.
#[derive(Clone, Copy, Debug, PartialEq, Eq)]
pub struct ArrayCString {
    bytes: [u8; 255],
}

impl View for ArrayCString {
    type V = Seq<u8>;

    /// The whole buffer, terminator and what follows it included.
    closed spec fn view(&self) -> Seq<u8> {
        self.bytes@
    }
}

impl ArrayCString {
    /// The bytes of the text proper.
    pub open spec fn text_bytes(&self) -> Seq<u8> {
        until_nul(self@)
    }

    /// The text held, where its bytes are well-formed UTF-8.
    pub open spec fn text(&self) -> Option<Seq<char>> {
        if valid_utf8(self.text_bytes()) {
            Some(decode_utf8(self.text_bytes()))
        } else {
            None
        }
    }

    /// Wraps a buffer as it was read.
    pub fn new(bytes: [u8; 255]) -> (cstring: Self)
        ensures
            cstring@ == bytes@,
    {
        ArrayCString { bytes }
    }

    /// The bytes up to, and without, the first NUL.
    pub fn as_bytes(&self) -> (text: &[u8])
        ensures
            text@ == self.text_bytes(),
    {
        let mut end: usize = 0;
        while end < 255 && self.bytes[end] != 0
            invariant
                end <= 255,
                forall|i: int| 0 <= i < end ==> self.bytes@[i] != 0,
            decreases 255 - end,
        {
            end += 1;
        }
        proof {
            self.bytes@.index_of_first_ensures(0u8);
            if end < 255 {
                assert(self.bytes@.contains(0u8));
            }
        }
        vstd::slice::slice_subrange(self.bytes.as_slice(), 0, end)
    }

    /// Decodes the text proper as UTF-8.
    pub fn validate_utf8(&self) -> (result: Result<&str, core::str::Utf8Error>)
        ensures
            result is Ok <==> self.text() is Some,
            result matches Ok(text) ==> Some(text@) == self.text(),
    {
        let result = core::str::from_utf8(self.as_bytes());
        proof {
            if let Ok(text) = result {
                encode_utf8_decode_utf8(text@);
            }
        }
        result
    }
}

} // verus!

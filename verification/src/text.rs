//! Text as the player hands it over: raw bytes that may or may not be UTF-8.

use std::str::Utf8Error;
use vstd::prelude::*;
use vstd::string::*;
use vstd::utf8::*;

verus! {

/// The error of `std::str::from_utf8`, of which nothing is read.
#[verifier::external_type_specification]
#[verifier::external_body]
pub struct ExUtf8Error(Utf8Error);

/// The text that `bytes` spell, or `None` where they are not well-formed UTF-8.
pub open spec fn text_of(bytes: Seq<u8>) -> Option<Seq<char>> {
    if valid_utf8(bytes) {
        Some(decode_utf8(bytes))
    } else {
        None
    }
}

/// The text of a value that the player may not have: `None` where the value
/// is absent and where its bytes are not well-formed UTF-8.
pub open spec fn optional_text_of(bytes: Option<Seq<u8>>) -> Option<Seq<char>> {
    match bytes {
        Some(b) => text_of(b),
        None => None,
    }
}

/// Calls `std::str::from_utf8`. Its contract is not proved but taken from the
/// function's documentation: it succeeds exactly on well-formed UTF-8, and
/// the string slice that it then returns consists of the very bytes given.
#[verifier::external_body]
fn from_utf8(bytes: &[u8]) -> (r: Result<&str, Utf8Error>)
    ensures
        r is Ok <==> valid_utf8(bytes@),
        r matches Ok(s) ==> s.spec_bytes() == bytes@,
{
    std::str::from_utf8(bytes)
}

/// Reads a value of the player as text, in place.
pub fn read_text(bytes: &[u8]) -> (r: Option<&str>)
    ensures
        match r {
            Some(text) => text_of(bytes@) == Some(text@),
            None => text_of(bytes@) is None,
        },
{
    match from_utf8(bytes) {
        Ok(text) => {
            proof {
                encode_utf8_decode_utf8(text@);
            }
            Some(text)
        },
        Err(_) => None,
    }
}

/// Decodes a value of the player into owned text.
pub fn decode_text(bytes: &[u8]) -> (r: Option<String>)
    ensures
        match r {
            Some(text) => text_of(bytes@) == Some(text@),
            None => text_of(bytes@) is None,
        },
{
    match read_text(bytes) {
        Some(text) => Some(text.to_owned()),
        None => None,
    }
}

/// The bytes that spell a text are well-formed, and spell this text and no
/// other.
pub proof fn lemma_text_of_its_bytes(text: Seq<char>)
    ensures
        text_of(encode_utf8(text)) == Some(text),
{
    encode_utf8_valid_utf8(text);
    encode_utf8_decode_utf8(text);
}

/// Whether two string slices hold the same text.
pub fn same_text(a: &str, b: &str) -> (same: bool)
    ensures
        same == (a@ == b@),
{
    let x = a.as_bytes();
    let y = b.as_bytes();
    proof {
        encode_utf8_decode_utf8(a@);
        encode_utf8_decode_utf8(b@);
    }
    if x.len() != y.len() {
        return false;
    }
    let mut i: usize = 0;
    while i < x.len()
        invariant
            i <= x.len(),
            x.len() == y.len(),
            x@ == a.spec_bytes(),
            y@ == b.spec_bytes(),
            forall|j: int| 0 <= j < i ==> x@[j] == y@[j],
        decreases x.len() - i,
    {
        if x[i] != y[i] {
            assert(x@[i as int] != y@[i as int]);
            return false;
        }
        i += 1;
    }
    assert(x@ =~= y@);
    true
}

/// Whether `text` begins with the characters of `prefix`.
pub fn starts_with(text: &str, prefix: &str) -> (found: bool)
    ensures
        found == prefix@.is_prefix_of(text@),
{
    let n: usize = prefix.unicode_len();
    if text.unicode_len() < n {
        return false;
    }
    let mut i: usize = 0;
    while i < n
        invariant
            i <= n,
            n == prefix@.len(),
            n <= text@.len(),
            forall|j: int| 0 <= j < i ==> text@[j] == prefix@[j],
        decreases n - i,
    {
        if text.get_char(i) != prefix.get_char(i) {
            assert(text@.subrange(0, n as int)[i as int] != prefix@[i as int]);
            return false;
        }
        i += 1;
    }
    assert(text@.subrange(0, n as int) =~= prefix@);
    true
}

/// Text that the player handed over and that this library now owns. The
/// buffer behind it is freed once, when the value is dropped or overwritten.
#[derive(Debug, Clone, PartialEq, Eq, Hash)]
pub struct MpvStr {
    text: String,
}

impl View for MpvStr {
    type V = Seq<char>;

    closed spec fn view(&self) -> Seq<char> {
        self.text@
    }
}

impl MpvStr {
    /// Takes ownership of text that is already decoded.
    pub fn new(text: String) -> (s: MpvStr)
        ensures
            s@ == text@,
    {
        MpvStr { text }
    }

    /// Decodes a value of the player; `None` where it is not well-formed UTF-8.
    pub fn decode(bytes: &[u8]) -> (r: Option<MpvStr>)
        ensures
            optional_view(r) == text_of(bytes@),
    {
        match decode_text(bytes) {
            Some(text) => Some(MpvStr { text }),
            None => None,
        }
    }

    /// The text itself.
    pub fn as_str(&self) -> (s: &str)
        ensures
            s@ == self@,
    {
        self.text.as_str()
    }
}

/// The text of a field that may be absent.
pub open spec fn optional_view(field: Option<MpvStr>) -> Option<Seq<char>> {
    match field {
        Some(s) => Some(s@),
        None => None,
    }
}

} // verus!

//! The byte strings of the host.

use vstd::prelude::*;
use vstd::string::StringSliceAdditionalSpecFns;
use vstd::utf8::{encode_utf8, valid_utf8};

verus! {

/// `core::str::Utf8Error`, the error of reading bytes that are not valid
/// UTF-8 as text. Nothing is known of what is inside it.
#[verifier::external_type_specification]
#[verifier::external_body]
pub struct ExUtf8Error(core::str::Utf8Error);

/// `core::str::from_utf8`: succeeds exactly on valid UTF-8, and the string
/// it gives has the bytes it was given.
#[verifier::external_body]
fn str_from_utf8(bytes: &[u8]) -> (r: Result<&str, core::str::Utf8Error>)
    ensures
        r is Ok <==> valid_utf8(bytes@),
        r matches Ok(s) ==> s.spec_bytes() == bytes@,
{
    core::str::from_utf8(bytes)
}

/// The text that `String::from_utf8_lossy` makes of bytes: the bytes read
/// as UTF-8, with the replacement character in place of each sequence that
/// is not valid.
pub uninterp spec fn lossy_text(bytes: Seq<u8>) -> Seq<char>;

/// `String::from_utf8_lossy`, as an owned string. Valid UTF-8 comes back
/// as it is.
#[verifier::external_body]
fn string_from_utf8_lossy(bytes: &[u8]) -> (s: String)
    ensures
        s@ == lossy_text(bytes@),
        valid_utf8(bytes@) ==> encode_utf8(s@) == bytes@,
{
    String::from_utf8_lossy(bytes).into_owned()
}

/// A string of the host: a run of bytes, with no promise that they are
/// text.
#[derive(Debug)]
pub struct NgxStr {
    data: Vec<u8>,
}

impl View for NgxStr {
    type V = Seq<u8>;

    closed spec fn view(&self) -> Seq<u8> {
        self.data@
    }
}

impl Default for NgxStr {
    fn default() -> (s: Self)
        ensures
            s@ == Seq::<u8>::empty(),
    {
        NgxStr::from_ngx_str(Vec::new())
    }
}

impl Clone for NgxStr {
    fn clone(&self) -> (s: Self)
        ensures
            s@ == self@,
    {
        NgxStr { data: self.data.clone() }
    }
}

impl NgxStr {
    /// The string of the bytes `str`.
    pub fn from_ngx_str(str: Vec<u8>) -> (s: Self)
        ensures
            s@ == str@,
    {
        NgxStr { data: str }
    }

    /// The bytes of the string.
    pub fn as_bytes(&self) -> (b: &[u8])
        ensures
            b@ == self@,
    {
        self.data.as_slice()
    }

    /// The number of bytes.
    pub fn len(&self) -> (n: usize)
        ensures
            n == self@.len(),
    {
        self.data.len()
    }

    /// Whether the string has no bytes.
    pub fn is_empty(&self) -> (r: bool)
        ensures
            r == (self@.len() == 0),
    {
        self.data.len() == 0
    }

    /// The string as text, if its bytes are valid UTF-8.
    pub fn to_str(&self) -> (r: Result<&str, core::str::Utf8Error>)
        ensures
            r is Ok <==> valid_utf8(self@),
            r matches Ok(s) ==> s.spec_bytes() == self@,
    {
        str_from_utf8(self.data.as_slice())
    }

    /// The string as text, with the replacement character in place of what
    /// is not valid UTF-8.
    pub fn to_string_lossy(&self) -> (s: String)
        ensures
            s@ == lossy_text(self@),
            valid_utf8(self@) ==> encode_utf8(s@) == self@,
    {
        string_from_utf8_lossy(self.data.as_slice())
    }
}

/// A string of the host that someone else owns.
pub type NgxStrRef = NgxStr;

} // verus!

//! Errors reported by pass-manager operations, and the conversion of the
//! texts that the C stubs hand back.

use vstd::prelude::*;
use vstd::slice::slice_to_vec;
use vstd::string::StringExecFns;
use vstd::string::StringSliceAdditionalSpecFns;
use vstd::utf8::*;

verus! {

/// The characters that `from_utf8_lossy` makes of a byte string.
pub uninterp spec fn utf8_lossy(bytes: Seq<u8>) -> Seq<char>;

/// The message of an error whose C text was missing (a null pointer).
pub open spec fn missing_message() -> Seq<char> {
    "the pass manager reported an error without a message"@
}

/// Decimal digits of a natural number, most significant first.
pub open spec fn decimal(n: nat) -> Seq<char>
    decreases n,
{
    if n < 10 {
        seq![digit_char(n)]
    } else {
        decimal(n / 10).push(digit_char(n % 10))
    }
}

/// The character of a decimal digit.
pub open spec fn digit_char(d: nat) -> char {
    ((48 + d) as u32) as char
}

/// Calls `String::from_utf8_lossy`: the result is named `utf8_lossy` of the
/// bytes; for bytes that are valid UTF-8 it is their decoding (invalid
/// sequences are the only thing the function replaces).
#[verifier::external_body]
fn string_from_utf8_lossy(bytes: &[u8]) -> (s: String)
    ensures
        s@ == utf8_lossy(bytes@),
        valid_utf8(bytes@) ==> s@ == decode_utf8(bytes@),
{
    String::from_utf8_lossy(bytes).into_owned()
}

/// Calls `<usize as ToString>::to_string`, which writes the number in
/// decimal without sign or padding.
#[verifier::external_body]
fn usize_to_decimal(n: usize) -> (s: String)
    ensures
        s@ == decimal(n as nat),
{
    n.to_string()
}

/// Error type for pass manager operations.
#[derive(Debug)]
pub struct Error {
    message: String,
}

impl View for Error {
    type V = Seq<char>;

    closed spec fn view(&self) -> Seq<char> {
        self.message@
    }
}

impl Error {
    /// An error with the given message.
    pub fn from_message(message: String) -> (e: Error)
        ensures
            e@ == message@,
    {
        Error { message }
    }

    /// Returns the error message.
    pub fn message(&self) -> (m: &str)
        ensures
            m@ == self@,
    {
        self.message.as_str()
    }
}

/// The error made of a text reported by the C stubs: the text read as
/// UTF-8, with invalid sequences replaced, or a fixed message where the
/// stubs reported no text at all.
pub open spec fn spec_c_error(text: Option<Seq<u8>>) -> Seq<char> {
    match text {
        Some(bytes) => utf8_lossy(bytes),
        None => missing_message(),
    }
}

/// Turn an error text reported by the C stubs into an [`Error`]. `None`
/// stands for a null text pointer.
pub fn consume_c_error(text: Option<&[u8]>) -> (e: Error)
    ensures
        e@ == spec_c_error(
            match text {
                Some(t) => Some(t@),
                None => None,
            },
        ),
        text matches Some(t) ==> (valid_utf8(t@) ==> e@ == decode_utf8(t@)),
{
    match text {
        Some(bytes) => Error::from_message(string_from_utf8_lossy(bytes)),
        None => Error::from_message(String::from_str("the pass manager reported an error without a message")),
    }
}

/// No byte before `end` is a nul byte.
pub open spec fn nul_free_before(bytes: Seq<u8>, end: int) -> bool {
    forall|j: int| 0 <= j < end ==> bytes[j] != 0u8
}

/// `pos` is the position of the first nul byte.
pub open spec fn is_first_nul(bytes: Seq<u8>, pos: int) -> bool {
    &&& 0 <= pos < bytes.len()
    &&& bytes[pos] == 0u8
    &&& nul_free_before(bytes, pos)
}

/// The message of the error for pipeline text with a nul byte at `pos`.
pub open spec fn nul_error_message(pos: nat) -> Seq<char> {
    "Pipeline string contains null byte: nul byte found in provided data at position: "@
        + decimal(pos)
}

/// The nul-terminated C string of a pipeline description, or the error
/// for a description that holds a nul byte (which a C string cannot carry).
pub fn pipeline_c_string(pipeline: &str) -> (r: Result<Vec<u8>, Error>)
    ensures
        r is Ok <==> nul_free_before(pipeline.spec_bytes(), pipeline.spec_bytes().len() as int),
        r matches Ok(c) ==> c@ == pipeline.spec_bytes().push(0u8),
        r matches Err(e) ==> exists|pos: int|
            is_first_nul(pipeline.spec_bytes(), pos) && e@ == nul_error_message(pos as nat),
{
    let bytes = pipeline.as_bytes();
    let n = bytes.len();
    let mut i: usize = 0;
    while i < n
        invariant
            n == bytes@.len(),
            bytes@ == pipeline.spec_bytes(),
            i <= n,
            nul_free_before(bytes@, i as int),
        decreases n - i,
    {
        if bytes[i] == 0u8 {
            let mut message = String::from_str("Pipeline string contains null byte: nul byte found in provided data at position: ");
            let digits = usize_to_decimal(i);
            message.append(digits.as_str());
            proof {
                reveal_strlit("Pipeline string contains null byte: nul byte found in provided data at position: ");
                assert(is_first_nul(bytes@, i as int));
            }
            return Err(Error::from_message(message));
        }
        i = i + 1;
    }
    let mut c = slice_to_vec(bytes);
    c.push(0u8);
    Ok(c)
}

/// A C string made of text without nul bytes reads back as that text: its
/// first nul byte is the terminator, and the bytes before it are the text.
pub proof fn law_c_string_reads_back(text: Seq<u8>, c_string: Seq<u8>)
    requires
        c_string == text.push(0u8),
        nul_free_before(text, text.len() as int),
    ensures
        is_first_nul(c_string, text.len() as int),
        c_string.subrange(0, text.len() as int) == text,
{
    assert(c_string.subrange(0, text.len() as int) =~= text);
}

} // verus!

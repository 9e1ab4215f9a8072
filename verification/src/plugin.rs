//! The parts of the plugin API that decide: the plugin API version, the
//! reading of pass names handed over by LLVM, and the answer of a
//! pipeline-parsing callback.

use vstd::prelude::*;
use vstd::string::StringSliceAdditionalSpecFns;
use vstd::utf8::*;

pub use crate::opt_level::opt_level_from_c;

verus! {

/// `LLVM_PLUGIN_API_VERSION` of the LLVM plugin interface.
pub const LLVM_PLUGIN_API_VERSION: u32 = 1;

/// Return the LLVM plugin API version.
pub fn plugin_api_version() -> (v: u32)
    ensures
        v == LLVM_PLUGIN_API_VERSION,
{
    LLVM_PLUGIN_API_VERSION
}

/// Whether a pipeline parsing callback parsed its pipeline element.
#[derive(Clone, Copy, Debug, PartialEq, Eq, Structural)]
pub enum PipelineParsing {
    /// The pipeline element was successfully parsed.
    Parsed,
    /// The pipeline element was not parsed.
    NotParsed,
}

/// The C code of a callback's answer: 1 for `Parsed`, 0 for `NotParsed`.
pub open spec fn spec_parsing_code(p: PipelineParsing) -> i32 {
    match p {
        PipelineParsing::Parsed => 1,
        PipelineParsing::NotParsed => 0,
    }
}

impl PipelineParsing {
    /// The code of this answer in the C ABI.
    pub fn to_c(self) -> (code: i32)
        ensures
            code == spec_parsing_code(self),
    {
        match self {
            PipelineParsing::Parsed => 1,
            PipelineParsing::NotParsed => 0,
        }
    }
}

/// Calls `std::str::from_utf8`: it succeeds exactly on valid UTF-8, and
/// the text it gives has the bytes it was given.
#[verifier::external_body]
fn str_from_utf8(bytes: &[u8]) -> (r: Option<&str>)
    ensures
        r is Some <==> valid_utf8(bytes@),
        r matches Some(s) ==> s.spec_bytes() == bytes@,
{
    std::str::from_utf8(bytes).ok()
}

/// The pass name that LLVM hands to a pipeline parsing callback, as text.
/// `None` stands for a null name pointer. A callback is only consulted for
/// a name that is present and valid UTF-8; for any other input the answer
/// is `NotParsed`.
pub fn pipeline_element_name(name: Option<&[u8]>) -> (r: Option<&str>)
    ensures
        name is None ==> r is None,
        name matches Some(b) ==> (r is Some <==> valid_utf8(b@)),
        name matches Some(b) ==> (r matches Some(s) ==> s.spec_bytes() == b@),
{
    match name {
        Some(bytes) => str_from_utf8(bytes),
        None => None,
    }
}

} // verus!

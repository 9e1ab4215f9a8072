//! Optimization levels and their encoding in the C ABI of the stubs.

use vstd::prelude::*;

verus! {

/// The C representation of an optimization level (`LlvmPmOptLevel`).
pub type LlvmPmOptLevel = u32;

/// `LlvmPmOptLevel_O0`.
pub const LLVM_PM_OPT_LEVEL_O0: LlvmPmOptLevel = 0;
/// `LlvmPmOptLevel_O1`.
pub const LLVM_PM_OPT_LEVEL_O1: LlvmPmOptLevel = 1;
/// `LlvmPmOptLevel_O2`.
pub const LLVM_PM_OPT_LEVEL_O2: LlvmPmOptLevel = 2;
/// `LlvmPmOptLevel_O3`.
pub const LLVM_PM_OPT_LEVEL_O3: LlvmPmOptLevel = 3;
/// `LlvmPmOptLevel_Os`.
pub const LLVM_PM_OPT_LEVEL_OS: LlvmPmOptLevel = 4;
/// `LlvmPmOptLevel_Oz`.
pub const LLVM_PM_OPT_LEVEL_OZ: LlvmPmOptLevel = 5;

/// Optimization level for the default pass pipeline.
#[derive(Debug, Clone, Copy, PartialEq, Eq, Hash, Structural)]
pub enum OptLevel {
    O0,
    O1,
    O2,
    O3,
    Os,
    Oz,
}

/// The C code of an optimization level.
pub open spec fn spec_opt_level_code(level: OptLevel) -> LlvmPmOptLevel {
    match level {
        OptLevel::O0 => LLVM_PM_OPT_LEVEL_O0,
        OptLevel::O1 => LLVM_PM_OPT_LEVEL_O1,
        OptLevel::O2 => LLVM_PM_OPT_LEVEL_O2,
        OptLevel::O3 => LLVM_PM_OPT_LEVEL_O3,
        OptLevel::Os => LLVM_PM_OPT_LEVEL_OS,
        OptLevel::Oz => LLVM_PM_OPT_LEVEL_OZ,
    }
}

/// The optimization level that a C code stands for; a code that names no
/// level is read as `O2`.
pub open spec fn spec_opt_level_from_code(code: LlvmPmOptLevel) -> OptLevel {
    if code == LLVM_PM_OPT_LEVEL_O0 {
        OptLevel::O0
    } else if code == LLVM_PM_OPT_LEVEL_O1 {
        OptLevel::O1
    } else if code == LLVM_PM_OPT_LEVEL_O2 {
        OptLevel::O2
    } else if code == LLVM_PM_OPT_LEVEL_O3 {
        OptLevel::O3
    } else if code == LLVM_PM_OPT_LEVEL_OS {
        OptLevel::Os
    } else if code == LLVM_PM_OPT_LEVEL_OZ {
        OptLevel::Oz
    } else {
        OptLevel::O2
    }
}

impl OptLevel {
    /// The code of this level in the C ABI.
    pub fn to_c(self) -> (code: LlvmPmOptLevel)
        ensures
            code == spec_opt_level_code(self),
    {
        match self {
            OptLevel::O0 => LLVM_PM_OPT_LEVEL_O0,
            OptLevel::O1 => LLVM_PM_OPT_LEVEL_O1,
            OptLevel::O2 => LLVM_PM_OPT_LEVEL_O2,
            OptLevel::O3 => LLVM_PM_OPT_LEVEL_O3,
            OptLevel::Os => LLVM_PM_OPT_LEVEL_OS,
            OptLevel::Oz => LLVM_PM_OPT_LEVEL_OZ,
        }
    }
}

/// Convert a C optimization-level code to an [`OptLevel`]; unknown codes
/// are read as `O2`.
pub fn opt_level_from_c(level: LlvmPmOptLevel) -> (r: OptLevel)
    ensures
        r == spec_opt_level_from_code(level),
{
    if level == LLVM_PM_OPT_LEVEL_O0 {
        OptLevel::O0
    } else if level == LLVM_PM_OPT_LEVEL_O1 {
        OptLevel::O1
    } else if level == LLVM_PM_OPT_LEVEL_O2 {
        OptLevel::O2
    } else if level == LLVM_PM_OPT_LEVEL_O3 {
        OptLevel::O3
    } else if level == LLVM_PM_OPT_LEVEL_OS {
        OptLevel::Os
    } else if level == LLVM_PM_OPT_LEVEL_OZ {
        OptLevel::Oz
    } else {
        OptLevel::O2
    }
}

/// Reading back the code of a level gives the level: the encoding of
/// optimization levels loses nothing.
pub proof fn lemma_opt_level_round_trip(level: OptLevel)
    ensures
        spec_opt_level_from_code(spec_opt_level_code(level)) == level,
{
}

/// Two different levels never share a code.
pub proof fn lemma_opt_level_code_injective(a: OptLevel, b: OptLevel)
    ensures
        spec_opt_level_code(a) == spec_opt_level_code(b) ==> a == b,
{
}

/// Every code is read as some level, and a code that no level has is read
/// as `O2`.
pub proof fn lemma_unknown_code_is_o2(code: LlvmPmOptLevel)
    requires
        code > LLVM_PM_OPT_LEVEL_OZ,
    ensures
        spec_opt_level_from_code(code) == OptLevel::O2,
{
}

} // verus!

//! What a pass reports about the analyses it leaves valid, and its
//! encoding in the C ABI of the stubs.

use vstd::prelude::*;

verus! {

/// Which analyses a pass leaves valid.
#[derive(Clone, Copy, Debug, PartialEq, Eq, Hash, Structural)]
pub enum PreservedAnalyses {
    /// Every analysis stays valid.
    All,
    /// No analysis stays valid.
    Nothing,
}

/// The C code of a [`PreservedAnalyses`]: `All` is 0 and `Nothing` is 1.
pub open spec fn spec_preserved_code(pa: PreservedAnalyses) -> i32 {
    match pa {
        PreservedAnalyses::All => 0,
        PreservedAnalyses::Nothing => 1,
    }
}

/// The code that a pass trampoline hands back to the stubs.
pub fn preserved_to_c(pa: PreservedAnalyses) -> (code: i32)
    ensures
        code == spec_preserved_code(pa),
{
    match pa {
        PreservedAnalyses::All => 0,
        PreservedAnalyses::Nothing => 1,
    }
}

/// The code that a pass trampoline hands back for a run of a pass: what
/// the pass answered, or `None` when the pass panicked, in which case no
/// analysis is assumed to stay valid.
pub fn pass_outcome_to_c(outcome: Option<PreservedAnalyses>) -> (code: i32)
    ensures
        code == spec_preserved_code(
            match outcome {
                Some(pa) => pa,
                None => PreservedAnalyses::Nothing,
            },
        ),
{
    match outcome {
        Some(pa) => preserved_to_c(pa),
        None => preserved_to_c(PreservedAnalyses::Nothing),
    }
}

/// The two answers of a pass have different codes.
pub proof fn lemma_preserved_code_injective(a: PreservedAnalyses, b: PreservedAnalyses)
    ensures
        spec_preserved_code(a) == spec_preserved_code(b) ==> a == b,
{
}

} // verus!

//! Handles of LLVM's analysis managers, as the wrapper hands them to passes
//! and analyses.
//!
//! A handle carries the address of the LLVM analysis manager and, when it
//! was handed to an analysis, the identity of that analysis, so that an
//! analysis can be kept from asking for its own result.

use std::any::TypeId;
use vstd::prelude::*;

use crate::registry::{AnalysisRegistry, ResultPlan};

verus! {

/// The identity of a module or function analysis: the address that the
/// analysis gives as its id.
pub type AnalysisKey = usize;

/// Handle of LLVM's module analysis manager.
pub struct ModuleAnalysisManager {
    inner: usize,
    from_analysis_id: Option<AnalysisKey>,
}

impl View for ModuleAnalysisManager {
    /// The manager's address and the analysis it was handed to, if any.
    type V = (usize, Option<AnalysisKey>);

    closed spec fn view(&self) -> (usize, Option<AnalysisKey>) {
        (self.inner, self.from_analysis_id)
    }
}

impl ModuleAnalysisManager {
    /// A handle of the module analysis manager at address `inner`, handed
    /// to the analysis `from_analysis_id` (if any).
    pub fn from_raw(inner: usize, from_analysis_id: Option<AnalysisKey>) -> (r: Self)
        ensures
            r@ == (inner, from_analysis_id),
    {
        ModuleAnalysisManager { inner, from_analysis_id }
    }

    /// The address of the analysis manager.
    pub fn as_raw(&self) -> (r: usize)
        ensures
            r == self@.0,
    {
        self.inner
    }

    /// The analysis that this handle was handed to, if any.
    pub fn from_analysis_id(&self) -> (r: Option<AnalysisKey>)
        ensures
            r == self@.1,
    {
        self.from_analysis_id
    }
}

/// Handle of LLVM's function analysis manager.
pub struct FunctionAnalysisManager {
    inner: usize,
    from_analysis_id: Option<AnalysisKey>,
}

impl View for FunctionAnalysisManager {
    /// The manager's address and the analysis it was handed to, if any.
    type V = (usize, Option<AnalysisKey>);

    closed spec fn view(&self) -> (usize, Option<AnalysisKey>) {
        (self.inner, self.from_analysis_id)
    }
}

impl FunctionAnalysisManager {
    /// A handle of the function analysis manager at address `inner`,
    /// handed to the analysis `from_analysis_id` (if any).
    pub fn from_raw(inner: usize, from_analysis_id: Option<AnalysisKey>) -> (r: Self)
        ensures
            r@ == (inner, from_analysis_id),
    {
        FunctionAnalysisManager { inner, from_analysis_id }
    }

    /// The address of the analysis manager.
    pub fn as_raw(&self) -> (r: usize)
        ensures
            r == self@.0,
    {
        self.inner
    }

    /// The analysis that this handle was handed to, if any.
    pub fn from_analysis_id(&self) -> (r: Option<AnalysisKey>)
        ensures
            r == self@.1,
    {
        self.from_analysis_id
    }
}

/// Analysis manager handle for CGSCC passes and analyses.
pub struct CgsccAnalysisManager {
    raw: usize,
    from_analysis_id: Option<TypeId>,
}

impl View for CgsccAnalysisManager {
    /// The manager's address and the type of the analysis it was handed
    /// to, if any.
    type V = (usize, Option<TypeId>);

    closed spec fn view(&self) -> (usize, Option<TypeId>) {
        (self.raw, self.from_analysis_id)
    }
}

impl CgsccAnalysisManager {
    /// A handle of the CGSCC analysis manager at address `raw`, as a pass
    /// receives it.
    pub fn from_raw(raw: usize) -> (r: Self)
        ensures
            r@ == (raw, None::<TypeId>),
    {
        CgsccAnalysisManager { raw, from_analysis_id: None }
    }

    /// A handle of the CGSCC analysis manager at address `raw`, as the
    /// analysis `from_analysis_id` receives it.
    pub fn from_raw_with_analysis_id(raw: usize, from_analysis_id: Option<TypeId>) -> (r: Self)
        ensures
            r@ == (raw, from_analysis_id),
    {
        CgsccAnalysisManager { raw, from_analysis_id }
    }

    /// Get the underlying manager address.
    pub fn as_raw(&self) -> (r: usize)
        ensures
            r == self@.0,
    {
        self.raw
    }

    /// How a request through this handle for the result of `analysis` on
    /// `unit` is answered by `registry`.
    pub fn plan_request<E, R>(
        &self,
        registry: &AnalysisRegistry<E, R>,
        analysis: &TypeId,
        unit: usize,
    ) -> (r: ResultPlan)
        ensures
            r == registry.spec_plan(self@.1, self@.0, *analysis, unit),
    {
        registry.plan(self.from_analysis_id, self.raw, analysis, unit)
    }
}

/// Analysis manager handle for loop passes and analyses.
pub struct LoopAnalysisManager {
    raw: usize,
    from_analysis_id: Option<TypeId>,
}

impl View for LoopAnalysisManager {
    /// The manager's address and the type of the analysis it was handed
    /// to, if any.
    type V = (usize, Option<TypeId>);

    closed spec fn view(&self) -> (usize, Option<TypeId>) {
        (self.raw, self.from_analysis_id)
    }
}

impl LoopAnalysisManager {
    /// A handle of the loop analysis manager at address `raw`, as a pass
    /// receives it.
    pub fn from_raw(raw: usize) -> (r: Self)
        ensures
            r@ == (raw, None::<TypeId>),
    {
        LoopAnalysisManager { raw, from_analysis_id: None }
    }

    /// A handle of the loop analysis manager at address `raw`, as the
    /// analysis `from_analysis_id` receives it.
    pub fn from_raw_with_analysis_id(raw: usize, from_analysis_id: Option<TypeId>) -> (r: Self)
        ensures
            r@ == (raw, from_analysis_id),
    {
        LoopAnalysisManager { raw, from_analysis_id }
    }

    /// Get the underlying manager address.
    pub fn as_raw(&self) -> (r: usize)
        ensures
            r == self@.0,
    {
        self.raw
    }

    /// How a request through this handle for the result of `analysis` on
    /// `unit` (a loop header) is answered by `registry`.
    pub fn plan_request<E, R>(
        &self,
        registry: &AnalysisRegistry<E, R>,
        analysis: &TypeId,
        unit: usize,
    ) -> (r: ResultPlan)
        ensures
            r == registry.spec_plan(self@.1, self@.0, *analysis, unit),
    {
        registry.plan(self.from_analysis_id, self.raw, analysis, unit)
    }
}

} // verus!

//! Module and function pass managers: a handle of the pass-manager bundle
//! that the C stubs build (analysis managers, pass builder,
//! instrumentation and the pass manager itself), together with the custom
//! passes that must stay alive as long as the bundle.

use vstd::prelude::*;

use crate::error::{consume_c_error, spec_c_error, Error};

verus! {

/// The text of an error pointer handed back by the stubs, as bytes.
pub open spec fn spec_text(text: Option<&[u8]>) -> Option<Seq<u8>> {
    match text {
        Some(t) => Some(t@),
        None => None,
    }
}

/// The outcome of an operation of the stubs that reports failure by an
/// error text: no text is success, a text is the error it describes.
pub fn status_from_c(error: Option<&[u8]>) -> (r: Result<(), Error>)
    ensures
        error is None <==> r is Ok,
        r matches Err(e) ==> e@ == spec_c_error(spec_text(error)),
{
    match error {
        None => Ok(()),
        Some(text) => Err(consume_c_error(Some(text))),
    }
}

/// A configured LLVM module pass manager using the new PassManager
/// infrastructure, and the custom passes (`P`) that it runs.
#[derive(Debug)]
pub struct ModulePassManager<P> {
    raw: usize,
    passes: Vec<P>,
}

impl<P> View for ModulePassManager<P> {
    /// The address of the bundle and the custom passes, in the order they
    /// were added.
    type V = (usize, Seq<P>);

    closed spec fn view(&self) -> (usize, Seq<P>) {
        (self.raw, self.passes@)
    }
}

impl<P> ModulePassManager<P> {
    /// The pass manager for what a creation function of the stubs
    /// returned: the bundle's address (0 when creation failed) and the
    /// error text it reported (`None` for a null text).
    pub fn created(raw: usize, error: Option<&[u8]>) -> (r: Result<Self, Error>)
        ensures
            raw != 0 <==> r is Ok,
            r matches Ok(pm) ==> pm@ == (raw, Seq::<P>::empty()),
            r matches Err(e) ==> e@ == spec_c_error(spec_text(error)),
    {
        if raw == 0 {
            Err(consume_c_error(error))
        } else {
            Ok(ModulePassManager { raw, passes: Vec::new() })
        }
    }

    /// The address of the bundle.
    pub fn as_raw(&self) -> (r: usize)
        ensures
            r == self@.0,
    {
        self.raw
    }

    /// Keep `pass` alive with this pass manager, after the passes added
    /// before; the stubs run custom passes in the order they were added.
    pub fn keep_pass(&mut self, pass: P)
        ensures
            final(self)@ == (old(self)@.0, old(self)@.1.push(pass)),
    {
        self.passes.push(pass);
    }

    /// The number of custom passes added.
    pub fn pass_count(&self) -> (n: usize)
        ensures
            n == self@.1.len(),
    {
        self.passes.len()
    }
}

/// A configured LLVM function pass manager using the new PassManager
/// infrastructure, and the custom passes (`P`) that it runs.
#[derive(Debug)]
pub struct FunctionPassManager<P> {
    raw: usize,
    passes: Vec<P>,
}

impl<P> View for FunctionPassManager<P> {
    /// The address of the bundle and the custom passes, in the order they
    /// were added.
    type V = (usize, Seq<P>);

    closed spec fn view(&self) -> (usize, Seq<P>) {
        (self.raw, self.passes@)
    }
}

impl<P> FunctionPassManager<P> {
    /// The pass manager for what a creation function of the stubs
    /// returned: the bundle's address (0 when creation failed) and the
    /// error text it reported (`None` for a null text).
    pub fn created(raw: usize, error: Option<&[u8]>) -> (r: Result<Self, Error>)
        ensures
            raw != 0 <==> r is Ok,
            r matches Ok(pm) ==> pm@ == (raw, Seq::<P>::empty()),
            r matches Err(e) ==> e@ == spec_c_error(spec_text(error)),
    {
        if raw == 0 {
            Err(consume_c_error(error))
        } else {
            Ok(FunctionPassManager { raw, passes: Vec::new() })
        }
    }

    /// The address of the bundle.
    pub fn as_raw(&self) -> (r: usize)
        ensures
            r == self@.0,
    {
        self.raw
    }

    /// Keep `pass` alive with this pass manager, after the passes added
    /// before; the stubs run custom passes in the order they were added.
    pub fn keep_pass(&mut self, pass: P)
        ensures
            final(self)@ == (old(self)@.0, old(self)@.1.push(pass)),
    {
        self.passes.push(pass);
    }

    /// The number of custom passes added.
    pub fn pass_count(&self) -> (n: usize)
        ensures
            n == self@.1.len(),
    {
        self.passes.len()
    }
}

} // verus!

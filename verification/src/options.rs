//! Options of a pass manager: debug logging, IR verification after each
//! pass, and pipelines added at the extension points of the default
//! pipelines.

use vstd::prelude::*;
use vstd::string::StringSliceAdditionalSpecFns;

use crate::error::nul_free_before;

verus! {

/// An extension point of LLVM's default pipelines.
#[derive(Clone, Copy, Debug, PartialEq, Eq, Hash, Structural)]
pub enum ExtensionPoint {
    /// After instcombine (function level).
    Peephole,
    /// Before the optimizer's module passes (module level).
    OptimizerEarly,
    /// At the end of the optimizer (module level).
    OptimizerLast,
    /// Before the vectorizer (function level).
    VectorizerStart,
    /// Late in the scalar optimizer (function level).
    ScalarOptimizerLate,
    /// At the start of the pipeline (module level).
    PipelineStart,
    /// At the start of early simplification (module level).
    PipelineEarlySimplification,
}

/// Text that can be handed to the stubs as a C string: it holds no nul
/// byte.
pub open spec fn c_compatible(text: &str) -> bool {
    nul_free_before(text.spec_bytes(), text.spec_bytes().len() as int)
}

/// What a set of options says: debug logging, verification after each
/// pass, and the pipelines added at extension points, in the order they
/// were added.
pub struct OptionsView {
    pub debug_logging: bool,
    pub verify_each: bool,
    pub extension_pipelines: Seq<(ExtensionPoint, Seq<char>)>,
}

/// Builder for pass manager options.
///
/// Controls debug logging, IR verification, and extension point pipeline
/// additions.
pub struct Options {
    debug_logging: bool,
    verify_each: bool,
    extension_pipelines: Vec<(ExtensionPoint, String)>,
}

impl View for Options {
    type V = OptionsView;

    closed spec fn view(&self) -> OptionsView {
        OptionsView {
            debug_logging: self.debug_logging,
            verify_each: self.verify_each,
            extension_pipelines: self.extension_pipelines@.map_values(
                |p: (ExtensionPoint, String)| (p.0, p.1@),
            ),
        }
    }
}

impl Options {
    /// Create default options (debug logging off, verify each off, no
    /// extension point pipelines).
    pub fn new() -> (r: Self)
        ensures
            r@ == (OptionsView {
                debug_logging: false,
                verify_each: false,
                extension_pipelines: Seq::empty(),
            }),
    {
        let r = Options { debug_logging: false, verify_each: false, extension_pipelines: Vec::new() };
        assert(r@.extension_pipelines =~= Seq::empty());
        r
    }

    /// Enable or disable debug logging output during pass execution.
    pub fn debug_logging(&mut self, val: bool) -> (r: &mut Self)
        ensures
            r@ == (OptionsView { debug_logging: val, ..old(self)@ }),
            final(self)@ == final(r)@,
    {
        self.debug_logging = val;
        self
    }

    /// Enable or disable IR verification after each pass.
    pub fn verify_each(&mut self, val: bool) -> (r: &mut Self)
        ensures
            r@ == (OptionsView { verify_each: val, ..old(self)@ }),
            final(self)@ == final(r)@,
    {
        self.verify_each = val;
        self
    }

    /// Whether debug logging is on.
    pub fn debug_logging_enabled(&self) -> (r: bool)
        ensures
            r == self@.debug_logging,
    {
        self.debug_logging
    }

    /// Whether verification after each pass is on.
    pub fn verify_each_enabled(&self) -> (r: bool)
        ensures
            r == self@.verify_each,
    {
        self.verify_each
    }

    /// The pipelines added at extension points, in the order they were
    /// added.
    pub fn extension_pipelines(&self) -> (r: &Vec<(ExtensionPoint, String)>)
        ensures
            r@.map_values(|p: (ExtensionPoint, String)| (p.0, p.1@)) == self@.extension_pipelines,
    {
        &self.extension_pipelines
    }

    /// Add `pipeline` at extension point `ep`, after the pipelines added
    /// there before.
    fn add_extension_pipeline(&mut self, ep: ExtensionPoint, pipeline: &str) -> (r: &mut Self)
        requires
            c_compatible(pipeline),
        ensures
            r@ == (OptionsView {
                extension_pipelines: old(self)@.extension_pipelines.push((ep, pipeline@)),
                ..old(self)@
            }),
            final(self)@ == final(r)@,
    {
        let ghost before = self.extension_pipelines@;
        self.extension_pipelines.push((ep, pipeline.to_owned()));
        proof {
            assert(self.extension_pipelines@.map_values(|p: (ExtensionPoint, String)| (p.0, p.1@))
                =~= before.map_values(|p: (ExtensionPoint, String)| (p.0, p.1@)).push((ep, pipeline@)));
        }
        self
    }

    /// Add a pass pipeline at the peephole extension point (after
    /// instcombine, function-level).
    pub fn add_peephole_ep(&mut self, pipeline: &str) -> (r: &mut Self)
        requires
            c_compatible(pipeline),
        ensures
            r@ == (OptionsView {
                extension_pipelines: old(self)@.extension_pipelines.push(
                    (ExtensionPoint::Peephole, pipeline@),
                ),
                ..old(self)@
            }),
            final(self)@ == final(r)@,
    {
        self.add_extension_pipeline(ExtensionPoint::Peephole, pipeline)
    }

    /// Add a pass pipeline at the optimizer-early extension point (module-level).
    pub fn add_optimizer_early_ep(&mut self, pipeline: &str) -> (r: &mut Self)
        requires
            c_compatible(pipeline),
        ensures
            r@ == (OptionsView {
                extension_pipelines: old(self)@.extension_pipelines.push(
                    (ExtensionPoint::OptimizerEarly, pipeline@),
                ),
                ..old(self)@
            }),
            final(self)@ == final(r)@,
    {
        self.add_extension_pipeline(ExtensionPoint::OptimizerEarly, pipeline)
    }

    /// Add a pass pipeline at the optimizer-last extension point (module-level).
    pub fn add_optimizer_last_ep(&mut self, pipeline: &str) -> (r: &mut Self)
        requires
            c_compatible(pipeline),
        ensures
            r@ == (OptionsView {
                extension_pipelines: old(self)@.extension_pipelines.push(
                    (ExtensionPoint::OptimizerLast, pipeline@),
                ),
                ..old(self)@
            }),
            final(self)@ == final(r)@,
    {
        self.add_extension_pipeline(ExtensionPoint::OptimizerLast, pipeline)
    }

    /// Add a pass pipeline at the vectorizer-start extension point (function-level).
    pub fn add_vectorizer_start_ep(&mut self, pipeline: &str) -> (r: &mut Self)
        requires
            c_compatible(pipeline),
        ensures
            r@ == (OptionsView {
                extension_pipelines: old(self)@.extension_pipelines.push(
                    (ExtensionPoint::VectorizerStart, pipeline@),
                ),
                ..old(self)@
            }),
            final(self)@ == final(r)@,
    {
        self.add_extension_pipeline(ExtensionPoint::VectorizerStart, pipeline)
    }

    /// Add a pass pipeline at the scalar-optimizer-late extension point (function-level).
    pub fn add_scalar_optimizer_late_ep(&mut self, pipeline: &str) -> (r: &mut Self)
        requires
            c_compatible(pipeline),
        ensures
            r@ == (OptionsView {
                extension_pipelines: old(self)@.extension_pipelines.push(
                    (ExtensionPoint::ScalarOptimizerLate, pipeline@),
                ),
                ..old(self)@
            }),
            final(self)@ == final(r)@,
    {
        self.add_extension_pipeline(ExtensionPoint::ScalarOptimizerLate, pipeline)
    }

    /// Add a pass pipeline at the pipeline-start extension point (module-level).
    pub fn add_pipeline_start_ep(&mut self, pipeline: &str) -> (r: &mut Self)
        requires
            c_compatible(pipeline),
        ensures
            r@ == (OptionsView {
                extension_pipelines: old(self)@.extension_pipelines.push(
                    (ExtensionPoint::PipelineStart, pipeline@),
                ),
                ..old(self)@
            }),
            final(self)@ == final(r)@,
    {
        self.add_extension_pipeline(ExtensionPoint::PipelineStart, pipeline)
    }

    /// Add a pass pipeline at the pipeline-early-simplification extension point
    /// (module-level).
    pub fn add_pipeline_early_simplification_ep(&mut self, pipeline: &str) -> (r: &mut Self)
        requires
            c_compatible(pipeline),
        ensures
            r@ == (OptionsView {
                extension_pipelines: old(self)@.extension_pipelines.push(
                    (ExtensionPoint::PipelineEarlySimplification, pipeline@),
                ),
                ..old(self)@
            }),
            final(self)@ == final(r)@,
    {
        self.add_extension_pipeline(ExtensionPoint::PipelineEarlySimplification, pipeline)
    }
}

impl Default for Options {
    fn default() -> (r: Self)
        ensures
            r@ == (OptionsView {
                debug_logging: false,
                verify_each: false,
                extension_pipelines: Seq::empty(),
            }),
    {
        Self::new()
    }
}

} // verus!

//! Verified core of a Rust wrapper around LLVM's new pass manager.
//!
//! The modules hold the decisions that the wrapper makes around the
//! C ABI of the pass-manager stubs: how optimization levels and pass
//! results are encoded, how pipeline text becomes a C string, how errors
//! reported by the stubs become [`Error`] values, which options a pass
//! manager is built with, how analysis results are registered and cached
//! per analysis manager, and how a plugin declaration is read.

pub mod analysis;
pub mod error;
pub mod opt_level;
pub mod options;
pub mod pass_manager;
pub mod plugin;
pub mod plugin_args;
pub mod registry;
pub mod traits;

pub use analysis::{
    AnalysisKey, CgsccAnalysisManager, FunctionAnalysisManager, LoopAnalysisManager,
    ModuleAnalysisManager,
};
pub use error::Error;
pub use opt_level::OptLevel;
pub use options::Options;
pub use pass_manager::{FunctionPassManager, ModulePassManager};

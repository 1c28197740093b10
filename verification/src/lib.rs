//! Build/test orchestration core for a multi-crate, multi-target embedded
//! workspace.
//!
//! The library models abstract operations (check, build, run an example,
//! measure its size, ...) over combinations of workspace package, hardware
//! backend and example program, renders each operation into a concrete
//! toolchain invocation, classifies execution results, and aggregates the
//! outcomes of a parallel fan-out without letting one failure hide another.
//! Running the external toolchain itself is left to the surrounding binary.

pub mod backend;
pub mod commands;
pub mod features;
pub mod batch;
pub mod operation;
pub mod outcome;
pub mod pipeline;
pub mod render;

pub use backend::Backend;
pub use backend::Target;
pub use batch::BatchEntry;
pub use batch::BatchResult;
pub use features::FeatureSet;
pub use features::Package;
pub use features::PackageSelector;
pub use operation::BuildMode;
pub use operation::BuildOrCheck;
pub use operation::ExtraArguments;
pub use operation::Operation;
pub use outcome::OperationOutcome;
pub use pipeline::ExamplePipeline;
pub use pipeline::PipelineState;
pub use render::Invocation;

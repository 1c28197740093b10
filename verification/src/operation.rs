//! The closed set of orchestrated operations and their constructors.

use vstd::prelude::*;
use crate::backend::Target;
use crate::features::{FeatureSet, Package, PackageSelector};

verus! {

/// How the toolchain is asked to compile. Release is the default for
/// size-sensitive and continuous-integration operations.
#[derive(Clone, Copy, PartialEq, Eq, Structural, Debug)]
pub enum BuildMode {
    Debug,
    Release,
}

/// Opaque passthrough tokens forwarded verbatim to the external invocation,
/// always appended last.
#[derive(Clone, Debug)]
pub struct ExtraArguments {
    pub args: Vec<String>,
}

impl ExtraArguments {
    /// The tokens, each as a character sequence, in order.
    pub open spec fn view_args(self) -> Seq<Seq<char>> {
        self.args@.map_values(|s: String| s@)
    }

    /// No passthrough tokens at all.
    pub fn none() -> (r: ExtraArguments)
        ensures
            r.view_args() == Seq::<Seq<char>>::empty(),
    {
        let r = ExtraArguments { args: Vec::new() };
        proof {
            assert(r.view_args() =~= Seq::<Seq<char>>::empty());
        }
        r
    }
}

/// Whether a compilation-family operation checks or fully builds.
#[derive(Clone, Copy, PartialEq, Eq, Structural, Debug)]
pub enum BuildOrCheck {
    Check,
    Build,
}

/// One unit of orchestrated work: a tagged variant per supported action,
/// each carrying exactly the parameters that action needs. Immutable once
/// constructed; construction never touches the filesystem or a process.
#[derive(Clone, Debug)]
pub enum Operation {
    /// Type-check a package selection for a target.
    Check {
        cargoarg: Option<String>,
        package: PackageSelector,
        target: Target,
        features: FeatureSet,
        mode: BuildMode,
    },
    /// Build a package selection for a target.
    Build {
        cargoarg: Option<String>,
        package: PackageSelector,
        target: Target,
        features: FeatureSet,
        mode: BuildMode,
    },
    /// Lint a package selection.
    Clippy {
        cargoarg: Option<String>,
        package: PackageSelector,
        target: Target,
        features: FeatureSet,
    },
    /// Format a package selection, or only verify formatting.
    Format { cargoarg: Option<String>, package: PackageSelector, check_only: bool },
    /// Generate API documentation.
    Doc { cargoarg: Option<String>, features: FeatureSet, arguments: ExtraArguments },
    /// Build the book.
    Book { arguments: ExtraArguments },
    /// Run one package's test suite with the features its backend needs.
    Test { package: Package, features: FeatureSet },
    /// Type-check one example program.
    ExampleCheck {
        cargoarg: Option<String>,
        example: String,
        target: Target,
        features: FeatureSet,
        mode: BuildMode,
    },
    /// Build one example program.
    ExampleBuild {
        cargoarg: Option<String>,
        example: String,
        target: Target,
        features: FeatureSet,
        mode: BuildMode,
    },
    /// Measure one example's binary size.
    ExampleSize {
        cargoarg: Option<String>,
        example: String,
        target: Target,
        features: FeatureSet,
        mode: BuildMode,
        arguments: ExtraArguments,
    },
    /// Run one example under the emulator and compare its output against the
    /// stored baseline.
    Qemu {
        cargoarg: Option<String>,
        example: String,
        target: Target,
        features: FeatureSet,
        mode: BuildMode,
    },
}

impl Operation {
    /// Whether executing this operation compares emulator output against a
    /// stored baseline instead of judging by exit status alone.
    pub open spec fn spec_is_emulate(self) -> bool {
        self is Qemu
    }

    /// Executable form of `spec_is_emulate`.
    pub fn is_emulate(&self) -> (r: bool)
        ensures
            r == self.spec_is_emulate(),
    {
        match self {
            Operation::Qemu { .. } => true,
            _ => false,
        }
    }
}

/// A structural fault found while constructing an operation, before any
/// dispatch.
#[derive(Clone, Copy, PartialEq, Eq, Structural, Debug)]
pub enum ConstructError {
    EmptyExampleName,
}

/// Construct an example-build operation. An example operation must carry a
/// non-empty example name; nothing else is validated and no I/O happens.
pub fn example_build(
    cargoarg: Option<String>,
    example: String,
    target: Target,
    features: FeatureSet,
    mode: BuildMode,
) -> (r: Result<Operation, ConstructError>)
    ensures
        example@.len() > 0 <==> r is Ok,
        r matches Ok(op) ==> op == (Operation::ExampleBuild {
            cargoarg,
            example,
            target,
            features,
            mode,
        }),
        r matches Err(e) ==> e == ConstructError::EmptyExampleName,
{
    if example.as_str().is_empty() {
        Err(ConstructError::EmptyExampleName)
    } else {
        Ok(Operation::ExampleBuild { cargoarg, example, target, features, mode })
    }
}

/// Construct an example-check operation; the example name must be non-empty.
pub fn example_check(
    cargoarg: Option<String>,
    example: String,
    target: Target,
    features: FeatureSet,
    mode: BuildMode,
) -> (r: Result<Operation, ConstructError>)
    ensures
        example@.len() > 0 <==> r is Ok,
        r matches Ok(op) ==> op == (Operation::ExampleCheck {
            cargoarg,
            example,
            target,
            features,
            mode,
        }),
        r matches Err(e) ==> e == ConstructError::EmptyExampleName,
{
    if example.as_str().is_empty() {
        Err(ConstructError::EmptyExampleName)
    } else {
        Ok(Operation::ExampleCheck { cargoarg, example, target, features, mode })
    }
}

/// Construct an example-size operation; the example name must be non-empty.
pub fn example_size(
    cargoarg: Option<String>,
    example: String,
    target: Target,
    features: FeatureSet,
    mode: BuildMode,
    arguments: ExtraArguments,
) -> (r: Result<Operation, ConstructError>)
    ensures
        example@.len() > 0 <==> r is Ok,
        r matches Ok(op) ==> op == (Operation::ExampleSize {
            cargoarg,
            example,
            target,
            features,
            mode,
            arguments,
        }),
        r matches Err(e) ==> e == ConstructError::EmptyExampleName,
{
    if example.as_str().is_empty() {
        Err(ConstructError::EmptyExampleName)
    } else {
        Ok(Operation::ExampleSize { cargoarg, example, target, features, mode, arguments })
    }
}

/// Construct an emulate operation; the example name must be non-empty.
pub fn qemu(
    cargoarg: Option<String>,
    example: String,
    target: Target,
    features: FeatureSet,
    mode: BuildMode,
) -> (r: Result<Operation, ConstructError>)
    ensures
        example@.len() > 0 <==> r is Ok,
        r matches Ok(op) ==> op == (Operation::Qemu { cargoarg, example, target, features, mode }),
        r matches Err(e) ==> e == ConstructError::EmptyExampleName,
{
    if example.as_str().is_empty() {
        Err(ConstructError::EmptyExampleName)
    } else {
        Ok(Operation::Qemu { cargoarg, example, target, features, mode })
    }
}

} // verus!

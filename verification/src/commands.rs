//! The top-level command planners: each turns a user-selected action into
//! the exact operations (or per-example pipelines) to execute. Planning is
//! pure — no file, process or network is touched here; the surrounding
//! binary executes what these functions hand it.

use vstd::prelude::*;
use crate::backend::{Backend, spec_triple, spec_backend_feature};
use crate::features::{
    PackageSelector, package_feature_extractor, example_features, all_packages, spec_features,
    spec_example_features, spec_all_packages,
};
use crate::operation::{BuildMode, BuildOrCheck, ExtraArguments, Operation};
use crate::pipeline::ExamplePipeline;

verus! {

/// Whether an operation's target is the one `backend` resolves to.
pub open spec fn spec_bound_target(op_target: crate::backend::Target, backend: Backend) -> bool {
    op_target.triple@ == spec_triple(backend) && op_target.backend_feature@
        == spec_backend_feature(backend)
}

/// Plan a build or check of a package selection: one operation, in release
/// mode, for the backend's resolved target with the selection's features.
pub fn cargo(
    operation: BuildOrCheck,
    cargoarg: Option<String>,
    package: PackageSelector,
    backend: Backend,
) -> (r: Operation)
    ensures
        operation is Check ==> (r matches Operation::Check {
            cargoarg: c,
            package: p,
            target: t,
            features: f,
            mode: m,
        } && c == cargoarg && p == package && spec_bound_target(t, backend) && f.view_flags()
            == spec_features(package, backend) && m == BuildMode::Release),
        operation is Build ==> (r matches Operation::Build {
            cargoarg: c,
            package: p,
            target: t,
            features: f,
            mode: m,
        } && c == cargoarg && p == package && spec_bound_target(t, backend) && f.view_flags()
            == spec_features(package, backend) && m == BuildMode::Release),
{
    let target = backend.to_target();
    let features = package_feature_extractor(package, backend);
    match operation {
        BuildOrCheck::Check => Operation::Check {
            cargoarg,
            package,
            target,
            features,
            mode: BuildMode::Release,
        },
        BuildOrCheck::Build => Operation::Build {
            cargoarg,
            package,
            target,
            features,
            mode: BuildMode::Release,
        },
    }
}

/// Plan a build or check of every named example: one operation per example,
/// in the examples' given order, each bound to its example name, the
/// backend's resolved target and the example feature set, in release mode.
pub fn cargo_example(
    operation: BuildOrCheck,
    cargoarg: Option<String>,
    backend: Backend,
    examples: &Vec<String>,
) -> (r: Vec<Operation>)
    ensures
        r@.len() == examples@.len(),
        operation is Check ==> forall|i: int|
            0 <= i < r@.len() ==> (#[trigger] r@[i] matches Operation::ExampleCheck {
                cargoarg: c,
                example: e,
                target: t,
                features: f,
                mode: m,
            } && c == cargoarg && e@ == examples@[i]@ && spec_bound_target(t, backend)
                && f.view_flags() == spec_example_features(backend) && m == BuildMode::Release),
        operation is Build ==> forall|i: int|
            0 <= i < r@.len() ==> (#[trigger] r@[i] matches Operation::ExampleBuild {
                cargoarg: c,
                example: e,
                target: t,
                features: f,
                mode: m,
            } && c == cargoarg && e@ == examples@[i]@ && spec_bound_target(t, backend)
                && f.view_flags() == spec_example_features(backend) && m == BuildMode::Release),
{
    let mut r: Vec<Operation> = Vec::new();
    let mut i: usize = 0;
    while i < examples.len()
        invariant
            0 <= i <= examples@.len(),
            r@.len() == i,
            operation is Check ==> forall|j: int|
                0 <= j < i ==> (#[trigger] r@[j] matches Operation::ExampleCheck {
                    cargoarg: c,
                    example: e,
                    target: t,
                    features: f,
                    mode: m,
                } && c == cargoarg && e@ == examples@[j]@ && spec_bound_target(t, backend)
                    && f.view_flags() == spec_example_features(backend) && m == BuildMode::Release),
            operation is Build ==> forall|j: int|
                0 <= j < i ==> (#[trigger] r@[j] matches Operation::ExampleBuild {
                    cargoarg: c,
                    example: e,
                    target: t,
                    features: f,
                    mode: m,
                } && c == cargoarg && e@ == examples@[j]@ && spec_bound_target(t, backend)
                    && f.view_flags() == spec_example_features(backend) && m == BuildMode::Release),
        decreases examples@.len() - i,
    {
        let features = example_features(backend);
        let target = backend.to_target();
        let example = examples[i].clone();
        let c = clone_cargoarg(&cargoarg);
        let op = match operation {
            BuildOrCheck::Check => Operation::ExampleCheck {
                cargoarg: c,
                example,
                target,
                features,
                mode: BuildMode::Release,
            },
            BuildOrCheck::Build => Operation::ExampleBuild {
                cargoarg: c,
                example,
                target,
                features,
                mode: BuildMode::Release,
            },
        };
        r.push(op);
        i = i + 1;
    }
    r
}

/// An equal optional passthrough flag as a fresh value.
fn clone_cargoarg(c: &Option<String>) -> (r: Option<String>)
    ensures
        r == *c,
{
    match c {
        None => None,
        Some(s) => Some(s.clone()),
    }
}

/// Plan a lint run over a package selection for a backend's target.
pub fn cargo_clippy(cargoarg: Option<String>, package: PackageSelector, backend: Backend) -> (r:
    Operation)
    ensures
        r matches Operation::Clippy { cargoarg: c, package: p, target: t, features: f } && c
            == cargoarg && p == package && spec_bound_target(t, backend) && f.view_flags()
            == spec_features(package, backend),
{
    let target = backend.to_target();
    let features = package_feature_extractor(package, backend);
    Operation::Clippy { cargoarg, package, target, features }
}

/// Plan a format run (or a format check) over a package selection.
pub fn cargo_format(cargoarg: Option<String>, package: PackageSelector, check_only: bool) -> (r:
    Operation)
    ensures
        r == (Operation::Format { cargoarg, package, check_only }),
{
    Operation::Format { cargoarg, package, check_only }
}

/// Plan a documentation build with the backend's example feature set and the
/// given passthrough arguments.
pub fn cargo_doc(cargoarg: Option<String>, backend: Backend, arguments: ExtraArguments) -> (r:
    Operation)
    ensures
        r matches Operation::Doc { cargoarg: c, features: f, arguments: a } && c == cargoarg
            && f.view_flags() == spec_example_features(backend) && a == arguments,
{
    let features = example_features(backend);
    Operation::Doc { cargoarg, features, arguments }
}

/// Plan the test runs for a package selection: the one named package's test
/// operation, or — for the whole workspace — one test operation per package
/// of the fixed list, in exactly the list's order, none omitted. Whether one
/// package's test later fails has no bearing on the plan: every package is
/// always attempted, and failures are collected, not fatal.
pub fn cargo_test(package: PackageSelector, backend: Backend) -> (r: Vec<Operation>)
    ensures
        package matches PackageSelector::One(p) ==> r@.len() == 1 && (
        r@[0] matches Operation::Test { package: q, features: f } && q == p && f.view_flags()
            == spec_features(PackageSelector::One(p), backend)),
        package is All ==> r@.len() == spec_all_packages().len() && forall|i: int|
            0 <= i < r@.len() ==> (#[trigger] r@[i] matches Operation::Test {
                package: q,
                features: f,
            } && q == spec_all_packages()[i] && f.view_flags() == spec_features(
                PackageSelector::One(spec_all_packages()[i]),
                backend,
            )),
{
    let mut r: Vec<Operation> = Vec::new();
    match package {
        PackageSelector::One(p) => {
            let features = package_feature_extractor(PackageSelector::One(p), backend);
            r.push(Operation::Test { package: p, features });
        },
        PackageSelector::All => {
            let packages = all_packages();
            let mut i: usize = 0;
            while i < packages.len()
                invariant
                    packages@ == spec_all_packages(),
                    0 <= i <= packages@.len(),
                    r@.len() == i,
                    forall|j: int|
                        0 <= j < i ==> (#[trigger] r@[j] matches Operation::Test {
                            package: q,
                            features: f,
                        } && q == spec_all_packages()[j] && f.view_flags() == spec_features(
                            PackageSelector::One(spec_all_packages()[j]),
                            backend,
                        )),
                decreases packages@.len() - i,
            {
                let p = packages[i];
                let features = package_feature_extractor(PackageSelector::One(p), backend);
                r.push(Operation::Test { package: p, features });
                i = i + 1;
            }
        },
    }
    r
}

/// Plan the book build with the given passthrough arguments.
pub fn cargo_book(arguments: ExtraArguments) -> (r: Operation)
    ensures
        r == (Operation::Book { arguments }),
{
    Operation::Book { arguments }
}

/// What a fresh run-or-size pipeline for one example must look like: ready
/// to build, quiet release example build first, and the given dependent
/// operation only after the build succeeds.
pub open spec fn spec_example_pipeline_shape(
    p: ExamplePipeline,
    example: Seq<char>,
    backend: Backend,
) -> bool {
    &&& p.example@ == example
    &&& p.state is NeedBuild
    &&& (p.build_op matches Operation::ExampleBuild {
        cargoarg: c,
        example: e,
        target: t,
        features: f,
        mode: m,
    } && (c matches Some(q) && q@ == "--quiet"@) && e@ == example && spec_bound_target(t, backend)
        && f.view_flags() == spec_example_features(backend) && m == BuildMode::Release)
}

/// Plan the emulate run of every named example: one two-stage pipeline per
/// example, in the examples' given order. Each pipeline builds the example
/// quietly first and emulates it only after the build succeeded.
pub fn run_test(cargoarg: Option<String>, backend: Backend, examples: &Vec<String>) -> (r: Vec<
    ExamplePipeline,
>)
    ensures
        r@.len() == examples@.len(),
        forall|i: int|
            0 <= i < r@.len() ==> spec_example_pipeline_shape(
                #[trigger] r@[i],
                examples@[i]@,
                backend,
            ),
        forall|i: int|
            0 <= i < r@.len() ==> (#[trigger] r@[i].dependent_op matches Operation::Qemu {
                cargoarg: c,
                example: e,
                target: t,
                features: f,
                mode: m,
            } && c == cargoarg && e@ == examples@[i]@ && spec_bound_target(t, backend)
                && f.view_flags() == spec_example_features(backend) && m == BuildMode::Release),
{
    let mut r: Vec<ExamplePipeline> = Vec::new();
    let mut i: usize = 0;
    while i < examples.len()
        invariant
            0 <= i <= examples@.len(),
            r@.len() == i,
            forall|j: int|
                0 <= j < i ==> spec_example_pipeline_shape(
                    #[trigger] r@[j],
                    examples@[j]@,
                    backend,
                ),
            forall|j: int|
                0 <= j < i ==> (#[trigger] r@[j].dependent_op matches Operation::Qemu {
                    cargoarg: c,
                    example: e,
                    target: t,
                    features: f,
                    mode: m,
                } && c == cargoarg && e@ == examples@[j]@ && spec_bound_target(t, backend)
                    && f.view_flags() == spec_example_features(backend) && m == BuildMode::Release),
        decreases examples@.len() - i,
    {
        let example = examples[i].clone();
        let target = backend.to_target();
        let build_op = Operation::ExampleBuild {
            cargoarg: Some(String::from_str("--quiet")),
            example: examples[i].clone(),
            target,
            features: example_features(backend),
            mode: BuildMode::Release,
        };
        let dependent_op = Operation::Qemu {
            cargoarg: clone_cargoarg(&cargoarg),
            example: examples[i].clone(),
            target,
            features: example_features(backend),
            mode: BuildMode::Release,
        };
        r.push(ExamplePipeline::new(example, build_op, dependent_op));
        i = i + 1;
    }
    r
}

/// Plan the size check of every named example: one two-stage pipeline per
/// example, in the examples' given order. Each pipeline builds the example
/// quietly first and measures its size only after the build succeeded; the
/// passthrough arguments ride on the size operation.
pub fn build_and_check_size(
    cargoarg: Option<String>,
    backend: Backend,
    examples: &Vec<String>,
    arguments: &ExtraArguments,
) -> (r: Vec<ExamplePipeline>)
    ensures
        r@.len() == examples@.len(),
        forall|i: int|
            0 <= i < r@.len() ==> spec_example_pipeline_shape(
                #[trigger] r@[i],
                examples@[i]@,
                backend,
            ),
        forall|i: int|
            0 <= i < r@.len() ==> (#[trigger] r@[i].dependent_op matches Operation::ExampleSize {
                cargoarg: c,
                example: e,
                target: t,
                features: f,
                mode: m,
                arguments: a,
            } && c == cargoarg && e@ == examples@[i]@ && spec_bound_target(t, backend)
                && f.view_flags() == spec_example_features(backend) && m == BuildMode::Release
                && a.view_args() == arguments.view_args()),
{
    let mut r: Vec<ExamplePipeline> = Vec::new();
    let mut i: usize = 0;
    while i < examples.len()
        invariant
            0 <= i <= examples@.len(),
            r@.len() == i,
            forall|j: int|
                0 <= j < i ==> spec_example_pipeline_shape(
                    #[trigger] r@[j],
                    examples@[j]@,
                    backend,
                ),
            forall|j: int|
                0 <= j < i ==> (#[trigger] r@[j].dependent_op matches Operation::ExampleSize {
                    cargoarg: c,
                    example: e,
                    target: t,
                    features: f,
                    mode: m,
                    arguments: a,
                } && c == cargoarg && e@ == examples@[j]@ && spec_bound_target(t, backend)
                    && f.view_flags() == spec_example_features(backend) && m == BuildMode::Release
                    && a.view_args() == arguments.view_args()),
        decreases examples@.len() - i,
    {
        let example = examples[i].clone();
        let target = backend.to_target();
        let build_op = Operation::ExampleBuild {
            cargoarg: Some(String::from_str("--quiet")),
            example: examples[i].clone(),
            target,
            features: example_features(backend),
            mode: BuildMode::Release,
        };
        let dependent_op = Operation::ExampleSize {
            cargoarg: clone_cargoarg(&cargoarg),
            example: examples[i].clone(),
            target,
            features: example_features(backend),
            mode: BuildMode::Release,
            arguments: clone_extra(arguments),
        };
        r.push(ExamplePipeline::new(example, build_op, dependent_op));
        i = i + 1;
    }
    r
}

/// Equal passthrough arguments as a fresh value.
fn clone_extra(a: &ExtraArguments) -> (r: ExtraArguments)
    ensures
        r.view_args() == a.view_args(),
{
    let mut args: Vec<String> = Vec::new();
    let mut i: usize = 0;
    while i < a.args.len()
        invariant
            0 <= i <= a.args@.len(),
            args@.len() == i,
            forall|j: int| 0 <= j < i ==> args@[j]@ == a.args@[j]@,
        decreases a.args@.len() - i,
    {
        args.push(a.args[i].clone());
        i = i + 1;
    }
    let r = ExtraArguments { args };
    proof {
        assert(r.view_args() =~= a.view_args());
    }
    r
}

} // verus!

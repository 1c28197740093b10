use xtask_core::commands::{
    build_and_check_size, cargo, cargo_book, cargo_clippy, cargo_doc, cargo_example, cargo_format,
    run_test,
};
use xtask_core::{
    Backend, BuildMode, BuildOrCheck, ExtraArguments, Operation, Package, PackageSelector,
};

#[test]
fn cargo_plans_release_check() {
    let op = cargo(
        BuildOrCheck::Check,
        None,
        PackageSelector::One(Package::Rtic),
        Backend::Thumbv7,
    );
    match op {
        Operation::Check { package, target, features, mode, .. } => {
            assert_eq!(package, PackageSelector::One(Package::Rtic));
            assert_eq!(target.triple, "thumbv7m-none-eabi");
            assert_eq!(features.flags, vec!["thumbv7-backend"]);
            assert_eq!(mode, BuildMode::Release);
        }
        other => panic!("expected a check operation, got {other:?}"),
    }
}

#[test]
fn cargo_plans_release_build() {
    let op = cargo(BuildOrCheck::Build, None, PackageSelector::All, Backend::Thumbv6);
    assert!(matches!(op, Operation::Build { mode: BuildMode::Release, .. }));
}

#[test]
fn cargo_example_binds_one_operation_per_example() {
    let examples = vec!["one".to_string(), "two".to_string(), "three".to_string()];
    let ops = cargo_example(BuildOrCheck::Build, None, Backend::Thumbv8Base, &examples);
    assert_eq!(ops.len(), 3);
    for (op, name) in ops.iter().zip(examples.iter()) {
        match op {
            Operation::ExampleBuild { example, target, features, mode, .. } => {
                assert_eq!(example, name);
                assert_eq!(target.triple, "thumbv8m.base-none-eabi");
                assert_eq!(features.flags, vec!["thumbv8base-backend"]);
                assert_eq!(*mode, BuildMode::Release);
            }
            other => panic!("expected an example build, got {other:?}"),
        }
    }
}

#[test]
fn cargo_example_check_variant() {
    let examples = vec!["one".to_string()];
    let ops = cargo_example(BuildOrCheck::Check, None, Backend::Thumbv6, &examples);
    assert!(matches!(&ops[0], Operation::ExampleCheck { .. }));
}

#[test]
fn clippy_carries_selection_and_features() {
    let op = cargo_clippy(None, PackageSelector::One(Package::RticMacros), Backend::Thumbv6);
    match op {
        Operation::Clippy { package, features, .. } => {
            assert_eq!(package, PackageSelector::One(Package::RticMacros));
            assert_eq!(features.flags, vec!["cortex-m-source-masking"]);
        }
        other => panic!("expected a lint operation, got {other:?}"),
    }
}

#[test]
fn format_carries_check_only_flag() {
    let op = cargo_format(None, PackageSelector::All, true);
    assert!(matches!(op, Operation::Format { check_only: true, .. }));
}

#[test]
fn doc_and_book_carry_passthrough() {
    let doc = cargo_doc(
        None,
        Backend::Thumbv7,
        ExtraArguments { args: vec!["--open".to_string()] },
    );
    match doc {
        Operation::Doc { features, arguments, .. } => {
            assert_eq!(features.flags, vec!["thumbv7-backend"]);
            assert_eq!(arguments.args, vec!["--open"]);
        }
        other => panic!("expected a doc operation, got {other:?}"),
    }
    let book = cargo_book(ExtraArguments { args: vec![] });
    assert!(matches!(book, Operation::Book { .. }));
}

#[test]
fn run_test_builds_quietly_then_emulates() {
    let examples = vec!["blinky".to_string()];
    let pipelines = run_test(Some("--verbose".to_string()), Backend::Thumbv6, &examples);
    assert_eq!(pipelines.len(), 1);
    let p = &pipelines[0];
    assert_eq!(p.example, "blinky");
    match &p.build_op {
        Operation::ExampleBuild { cargoarg, example, mode, .. } => {
            assert_eq!(cargoarg.as_deref(), Some("--quiet"));
            assert_eq!(example, "blinky");
            assert_eq!(*mode, BuildMode::Release);
        }
        other => panic!("expected an example build, got {other:?}"),
    }
    match &p.dependent_op {
        Operation::Qemu { cargoarg, example, .. } => {
            assert_eq!(cargoarg.as_deref(), Some("--verbose"));
            assert_eq!(example, "blinky");
        }
        other => panic!("expected an emulate operation, got {other:?}"),
    }
}

#[test]
fn size_pipeline_carries_passthrough_on_dependent() {
    let examples = vec!["blinky".to_string()];
    let pipelines = build_and_check_size(
        None,
        Backend::Thumbv7,
        &examples,
        &ExtraArguments { args: vec!["-A".to_string()] },
    );
    match &pipelines[0].dependent_op {
        Operation::ExampleSize { arguments, .. } => assert_eq!(arguments.args, vec!["-A"]),
        other => panic!("expected a size operation, got {other:?}"),
    }
}

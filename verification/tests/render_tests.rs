use xtask_core::features::example_features;
use xtask_core::operation::ConstructError;
use xtask_core::render::{join_features, render};
use xtask_core::{Backend, BuildMode, ExtraArguments, FeatureSet, Operation, PackageSelector};

#[test]
fn join_features_separates_with_commas() {
    let fs = FeatureSet { flags: vec!["alpha", "beta", "gamma"] };
    assert_eq!(join_features(&fs), "alpha,beta,gamma");
}

#[test]
fn join_features_single_flag_unchanged() {
    let fs = FeatureSet { flags: vec!["only"] };
    assert_eq!(join_features(&fs), "only");
}

#[test]
fn join_features_empty_is_empty() {
    let fs = FeatureSet { flags: vec![] };
    assert_eq!(join_features(&fs), "");
}

#[test]
fn render_check_invocation_exact() {
    let op = Operation::Check {
        cargoarg: None,
        package: PackageSelector::One(xtask_core::Package::Rtic),
        target: Backend::Thumbv7.to_target(),
        features: example_features(Backend::Thumbv7),
        mode: BuildMode::Release,
    };
    let inv = render(&op);
    assert_eq!(inv.program, "cargo");
    assert_eq!(
        inv.args,
        vec![
            "check",
            "--package",
            "rtic",
            "--target",
            "thumbv7m-none-eabi",
            "--features=thumbv7-backend",
            "--release",
        ]
    );
}

#[test]
fn render_same_operation_same_invocation() {
    let make = || Operation::Build {
        cargoarg: Some("--quiet".to_string()),
        package: PackageSelector::All,
        target: Backend::Thumbv6.to_target(),
        features: example_features(Backend::Thumbv6),
        mode: BuildMode::Release,
    };
    let a = render(&make());
    let b = render(&make());
    assert_eq!(a.program, b.program);
    assert_eq!(a.args, b.args);
}

#[test]
fn render_example_build_with_cargoarg() {
    let op = Operation::ExampleBuild {
        cargoarg: Some("--quiet".to_string()),
        example: "blinky".to_string(),
        target: Backend::Thumbv6.to_target(),
        features: example_features(Backend::Thumbv6),
        mode: BuildMode::Release,
    };
    let inv = render(&op);
    assert_eq!(inv.program, "cargo");
    assert_eq!(
        inv.args,
        vec![
            "build",
            "--quiet",
            "--example",
            "blinky",
            "--target",
            "thumbv6m-none-eabi",
            "--features=thumbv6-backend",
            "--release",
        ]
    );
}

#[test]
fn render_debug_mode_has_no_release_flag() {
    let op = Operation::ExampleCheck {
        cargoarg: None,
        example: "blinky".to_string(),
        target: Backend::Thumbv6.to_target(),
        features: FeatureSet { flags: vec![] },
        mode: BuildMode::Debug,
    };
    let inv = render(&op);
    assert_eq!(inv.args, vec!["check", "--example", "blinky", "--target", "thumbv6m-none-eabi"]);
}

#[test]
fn render_size_appends_passthrough_last() {
    let op = Operation::ExampleSize {
        cargoarg: None,
        example: "blinky".to_string(),
        target: Backend::Thumbv7.to_target(),
        features: example_features(Backend::Thumbv7),
        mode: BuildMode::Release,
        arguments: ExtraArguments { args: vec!["-A".to_string(), "-x".to_string()] },
    };
    let inv = render(&op);
    assert_eq!(
        inv.args,
        vec![
            "size",
            "--example",
            "blinky",
            "--target",
            "thumbv7m-none-eabi",
            "--features=thumbv7-backend",
            "--release",
            "-A",
            "-x",
        ]
    );
}

#[test]
fn render_book_uses_book_generator() {
    let op = Operation::Book { arguments: ExtraArguments { args: vec![] } };
    let inv = render(&op);
    assert_eq!(inv.program, "mdbook");
    assert_eq!(inv.args, vec!["build"]);
}

#[test]
fn render_format_check_only() {
    let op = Operation::Format {
        cargoarg: None,
        package: PackageSelector::One(xtask_core::Package::RticSync),
        check_only: true,
    };
    let inv = render(&op);
    assert_eq!(inv.args, vec!["fmt", "--package", "rtic-sync", "--check"]);
}

#[test]
fn constructors_reject_empty_example_name() {
    let t = Backend::Thumbv6.to_target();
    let fs = example_features(Backend::Thumbv6);
    let r = xtask_core::operation::example_build(
        None,
        String::new(),
        t,
        fs,
        BuildMode::Release,
    );
    assert_eq!(r.unwrap_err(), ConstructError::EmptyExampleName);
}

#[test]
fn constructors_accept_nonempty_example_name() {
    let t = Backend::Thumbv6.to_target();
    let fs = example_features(Backend::Thumbv6);
    let r = xtask_core::operation::qemu(
        None,
        "blinky".to_string(),
        t,
        fs,
        BuildMode::Release,
    );
    let op = r.unwrap();
    assert!(op.is_emulate());
    assert!(matches!(op, Operation::Qemu { ref example, .. } if example == "blinky"));
}

use xtask_core::batch::batch_from;
use xtask_core::commands::{build_and_check_size, cargo_test, run_test};
use xtask_core::features::all_packages;
use xtask_core::{
    Backend, ExamplePipeline, ExtraArguments, Operation, OperationOutcome, PackageSelector,
};

fn tool_failure(msg: &str) -> OperationOutcome {
    OperationOutcome::ToolFailure { exit_code: 1, stderr: msg.to_string() }
}

/// Drive one pipeline, deciding each handed-out operation's outcome by the
/// example name: `failing` examples fail their build step, everything else
/// succeeds everywhere.
fn drive(pipeline: &mut ExamplePipeline, failing: &[&str]) -> OperationOutcome {
    let mut steps = 0;
    while let Some(op) = pipeline.next_operation() {
        let fails_build = matches!(
            op,
            Operation::ExampleBuild { example, .. } if failing.contains(&example.as_str())
        );
        let outcome =
            if fails_build { tool_failure("build failed") } else { OperationOutcome::Success };
        pipeline.step(outcome);
        steps += 1;
        assert!(steps <= 2, "a pipeline has at most two stages");
    }
    pipeline.final_outcome().expect("a finished pipeline has an outcome")
}

#[test]
fn failed_build_skips_dependent_and_keeps_siblings() {
    let examples = vec!["good_one".to_string(), "bad".to_string(), "good_two".to_string()];
    let mut pipelines = run_test(None, Backend::Thumbv6, &examples);
    assert_eq!(pipelines.len(), 3);

    let mut outcomes = Vec::new();
    for p in pipelines.iter_mut() {
        outcomes.push(drive(p, &["bad"]));
    }

    // The failing example's outcome is exactly its build failure, and its
    // pipeline handed out no dependent operation (drive saw one stage only).
    match &outcomes[1] {
        OperationOutcome::ToolFailure { exit_code, stderr } => {
            assert_eq!(*exit_code, 1);
            assert_eq!(stderr, "build failed");
        }
        other => panic!("expected the build failure, got {other:?}"),
    }
    assert!(pipelines[1].next_operation().is_none());

    // Sibling examples are unaffected.
    assert!(outcomes[0].is_success());
    assert!(outcomes[2].is_success());
}

#[test]
fn dependent_step_runs_only_after_successful_build() {
    let examples = vec!["blinky".to_string()];
    let mut pipelines =
        build_and_check_size(None, Backend::Thumbv7, &examples, &ExtraArguments { args: vec![] });
    let p = &mut pipelines[0];

    // First handed-out operation is the build.
    assert!(matches!(p.next_operation(), Some(Operation::ExampleBuild { .. })));
    p.step(OperationOutcome::Success);

    // Only then comes the dependent size operation, for the same example.
    match p.next_operation() {
        Some(Operation::ExampleSize { example, .. }) => assert_eq!(example, "blinky"),
        other => panic!("expected the size operation, got {other:?}"),
    }
    p.step(OperationOutcome::Success);
    assert!(p.next_operation().is_none());
    assert!(p.final_outcome().unwrap().is_success());
}

#[test]
fn collect_finished_has_one_entry_per_pipeline() {
    let examples = vec!["a".to_string(), "b".to_string()];
    let mut pipelines = run_test(None, Backend::Thumbv6, &examples);
    for p in pipelines.iter_mut() {
        drive(p, &["b"]);
    }
    let batch = xtask_core::batch::collect_finished(&pipelines);
    assert_eq!(batch.entries.len(), 2);
    assert_eq!(batch.entries[0].id, "a");
    assert!(batch.entries[0].outcome.is_success());
    assert_eq!(batch.entries[1].id, "b");
    assert!(!batch.entries[1].outcome.is_success());
}

#[test]
fn batch_has_one_entry_per_example() {
    let names = vec!["a".to_string(), "b".to_string(), "c".to_string(), "d".to_string()];
    let outcomes = vec![
        OperationOutcome::Success,
        tool_failure("x"),
        OperationOutcome::Success,
        OperationOutcome::Success,
    ];
    let batch = batch_from(names.clone(), outcomes);
    assert_eq!(batch.entries.len(), 4);
    for (entry, name) in batch.entries.iter().zip(names.iter()) {
        assert_eq!(&entry.id, name);
    }
}

#[test]
fn batch_deterministic_across_runs() {
    let make = || {
        let names = vec!["a".to_string(), "b".to_string()];
        let outcomes = vec![OperationOutcome::Success, tool_failure("boom")];
        batch_from(names, outcomes)
    };
    let first = make();
    let second = make();
    assert_eq!(first.entries.len(), second.entries.len());
    for (x, y) in first.entries.iter().zip(second.entries.iter()) {
        assert_eq!(x.id, y.id);
        assert_eq!(x.outcome.is_success(), y.outcome.is_success());
        assert_eq!(format!("{:?}", x.outcome), format!("{:?}", y.outcome));
    }
}

#[test]
fn overall_success_iff_no_failure() {
    let good = batch_from(
        vec!["a".to_string(), "b".to_string()],
        vec![OperationOutcome::Success, OperationOutcome::Success],
    );
    assert!(good.overall_success());
    assert!(good.failures().is_empty());

    let mixed = batch_from(
        vec!["a".to_string(), "b".to_string(), "c".to_string()],
        vec![OperationOutcome::Success, tool_failure("x"), tool_failure("y")],
    );
    assert!(!mixed.overall_success());
    let failures = mixed.failures();
    assert_eq!(failures.len(), 2);
    assert_eq!(failures[0].id, "b");
    assert_eq!(failures[1].id, "c");
}

#[test]
fn all_packages_tested_once_each_in_order_despite_failures() {
    let plan = cargo_test(PackageSelector::All, Backend::Thumbv6);
    let packages = all_packages();
    assert_eq!(plan.len(), packages.len());
    for (op, expected) in plan.iter().zip(packages.iter()) {
        match op {
            Operation::Test { package, .. } => assert_eq!(package, expected),
            other => panic!("expected a test operation, got {other:?}"),
        }
    }

    // Execute the plan with the third package failing: every package is
    // still attempted, and the failure is collected, not fatal.
    let mut names = Vec::new();
    let mut outcomes = Vec::new();
    for (i, op) in plan.iter().enumerate() {
        let Operation::Test { package, .. } = op else { unreachable!() };
        names.push(package.name().to_string());
        outcomes.push(if i == 2 { tool_failure("tests failed") } else { OperationOutcome::Success });
    }
    let batch = batch_from(names, outcomes);
    assert_eq!(batch.entries.len(), packages.len());
    assert!(!batch.overall_success());
    let failures = batch.failures();
    assert_eq!(failures.len(), 1);
    assert_eq!(failures[0].id, "rtic-macros");
}

#[test]
fn single_package_test_plan() {
    let plan = cargo_test(
        PackageSelector::One(xtask_core::Package::RticTime),
        Backend::Thumbv8Main,
    );
    assert_eq!(plan.len(), 1);
    assert!(matches!(
        &plan[0],
        Operation::Test { package, .. } if *package == xtask_core::Package::RticTime
    ));
}

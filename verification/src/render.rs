//! Rendering an operation into a concrete external invocation: a program
//! name and an ordered argument list, derived deterministically from the
//! operation's fields.

use vstd::prelude::*;
use crate::backend::Target;
use crate::features::{FeatureSet, PackageSelector, spec_package_name};
use crate::operation::{BuildMode, ExtraArguments, Operation};

verus! {

/// A concrete external-process invocation, ready to be executed.
#[derive(Clone, Debug)]
pub struct Invocation {
    pub program: String,
    pub args: Vec<String>,
}

/// The character sequences of a vector of strings, in order.
pub open spec fn strings_view(v: Seq<String>) -> Seq<Seq<char>> {
    v.map_values(|s: String| s@)
}

/// Feature flags joined into one token, separated by commas.
pub open spec fn spec_join_features(flags: Seq<Seq<char>>) -> Seq<char>
    decreases flags.len(),
{
    if flags.len() == 0 {
        Seq::empty()
    } else if flags.len() == 1 {
        flags[0]
    } else {
        flags[0] + seq![','] + spec_join_features(flags.drop_first())
    }
}

/// Joining distributes over appending one flag at the end.
proof fn lemma_join_push(flags: Seq<Seq<char>>, f: Seq<char>)
    ensures
        spec_join_features(flags.push(f)) == if flags.len() == 0 {
            f
        } else {
            spec_join_features(flags) + seq![','] + f
        },
    decreases flags.len(),
{
    if flags.len() == 0 {
        assert(flags.push(f)[0] == f);
    } else {
        assert(flags.push(f).drop_first() =~= flags.drop_first().push(f));
        lemma_join_push(flags.drop_first(), f);
        assert(spec_join_features(flags.push(f)) =~= spec_join_features(flags) + seq![','] + f);
    }
}

/// Join a feature set's flags into the single comma-separated token the
/// toolchain expects.
pub fn join_features(fs: &FeatureSet) -> (r: String)
    ensures
        r@ == spec_join_features(fs.view_flags()),
{
    let ghost all = fs.view_flags();
    let mut r = String::new();
    let mut i: usize = 0;
    while i < fs.flags.len()
        invariant
            0 <= i <= fs.flags.len(),
            all == fs.view_flags(),
            r@ == spec_join_features(all.take(i as int)),
        decreases fs.flags.len() - i,
    {
        if i > 0 {
            r.append(",");
            proof {
                reveal_strlit(",");
                assert(","@ =~= seq![',']);
            }
        }
        r.append(fs.flags[i]);
        proof {
            assert(all.take(i + 1 as int) =~= all.take(i as int).push(all[i as int]));
            lemma_join_push(all.take(i as int), all[i as int]);
            assert(all[i as int] == fs.flags@[i as int]@);
        }
        i = i + 1;
    }
    proof {
        assert(all.take(fs.flags@.len() as int) =~= all);
    }
    r
}

/// The argument contributed by an optional single passthrough flag.
pub open spec fn spec_cargoarg_args(c: Option<String>) -> Seq<Seq<char>> {
    match c {
        None => Seq::empty(),
        Some(s) => seq![s@],
    }
}

/// The arguments selecting a package scope: nothing for the whole workspace,
/// `--package <name>` for one named package.
pub open spec fn spec_package_args(sel: PackageSelector) -> Seq<Seq<char>> {
    match sel {
        PackageSelector::All => Seq::empty(),
        PackageSelector::One(p) => seq!["--package"@, spec_package_name(p)],
    }
}

/// The arguments selecting the target triple.
pub open spec fn spec_target_args(t: Target) -> Seq<Seq<char>> {
    seq!["--target"@, t.triple@]
}

/// The feature arguments: one `--features=<joined>` token, or nothing when
/// the set is empty.
pub open spec fn spec_features_args(flags: Seq<Seq<char>>) -> Seq<Seq<char>> {
    if flags.len() == 0 {
        Seq::empty()
    } else {
        seq!["--features="@ + spec_join_features(flags)]
    }
}

/// The build-mode flag: release asks for `--release`, debug needs nothing.
pub open spec fn spec_mode_args(m: BuildMode) -> Seq<Seq<char>> {
    match m {
        BuildMode::Debug => Seq::empty(),
        BuildMode::Release => seq!["--release"@],
    }
}

/// The arguments selecting one example program.
pub open spec fn spec_example_args(example: Seq<char>) -> Seq<Seq<char>> {
    seq!["--example"@, example]
}

/// The program an operation invokes: the book generator for the book
/// operation, the build toolchain for everything else.
pub open spec fn spec_program(op: Operation) -> Seq<char> {
    match op {
        Operation::Book { .. } => "mdbook"@,
        _ => "cargo"@,
    }
}

/// The exact ordered argument list of an operation's invocation: subcommand
/// first, then the optional passthrough flag, the selectors, target and
/// features, the build-mode flag, and passthrough arguments last.
pub open spec fn spec_args(op: Operation) -> Seq<Seq<char>> {
    match op {
        Operation::Check { cargoarg, package, target, features, mode } => seq!["check"@]
            + spec_cargoarg_args(cargoarg) + spec_package_args(package) + spec_target_args(target)
            + spec_features_args(features.view_flags()) + spec_mode_args(mode),
        Operation::Build { cargoarg, package, target, features, mode } => seq!["build"@]
            + spec_cargoarg_args(cargoarg) + spec_package_args(package) + spec_target_args(target)
            + spec_features_args(features.view_flags()) + spec_mode_args(mode),
        Operation::Clippy { cargoarg, package, target, features } => seq!["clippy"@]
            + spec_cargoarg_args(cargoarg) + spec_package_args(package) + spec_target_args(target)
            + spec_features_args(features.view_flags()),
        Operation::Format { cargoarg, package, check_only } => seq!["fmt"@] + spec_cargoarg_args(
            cargoarg,
        ) + spec_package_args(package) + if check_only {
            seq!["--check"@]
        } else {
            Seq::empty()
        },
        Operation::Doc { cargoarg, features, arguments } => seq!["doc"@] + spec_cargoarg_args(
            cargoarg,
        ) + spec_features_args(features.view_flags()) + arguments.view_args(),
        Operation::Book { arguments } => seq!["build"@] + arguments.view_args(),
        Operation::Test { package, features } => seq!["test"@] + spec_package_args(
            PackageSelector::One(package),
        ) + spec_features_args(features.view_flags()),
        Operation::ExampleCheck { cargoarg, example, target, features, mode } => seq!["check"@]
            + spec_cargoarg_args(cargoarg) + spec_example_args(example@) + spec_target_args(target)
            + spec_features_args(features.view_flags()) + spec_mode_args(mode),
        Operation::ExampleBuild { cargoarg, example, target, features, mode } => seq!["build"@]
            + spec_cargoarg_args(cargoarg) + spec_example_args(example@) + spec_target_args(target)
            + spec_features_args(features.view_flags()) + spec_mode_args(mode),
        Operation::ExampleSize { cargoarg, example, target, features, mode, arguments } => seq![
            "size"@,
        ] + spec_cargoarg_args(cargoarg) + spec_example_args(example@) + spec_target_args(target)
            + spec_features_args(features.view_flags()) + spec_mode_args(mode)
            + arguments.view_args(),
        Operation::Qemu { cargoarg, example, target, features, mode } => seq!["run"@]
            + spec_cargoarg_args(cargoarg) + spec_example_args(example@) + spec_target_args(target)
            + spec_features_args(features.view_flags()) + spec_mode_args(mode),
    }
}

/// Append the optional passthrough flag.
fn push_cargoarg(args: &mut Vec<String>, c: &Option<String>)
    ensures
        strings_view(final(args)@) == strings_view(old(args)@) + spec_cargoarg_args(*c),
{
    match c {
        None => {
            proof {
                assert(strings_view(args@) =~= strings_view(args@) + spec_cargoarg_args(*c));
            }
        },
        Some(s) => {
            let ghost before = args@;
            args.push(s.clone());
            proof {
                assert(strings_view(args@) =~= strings_view(before) + spec_cargoarg_args(*c));
            }
        },
    }
}

/// Append the package-scope arguments.
fn push_package_args(args: &mut Vec<String>, sel: PackageSelector)
    ensures
        strings_view(final(args)@) == strings_view(old(args)@) + spec_package_args(sel),
{
    let ghost before = args@;
    match sel {
        PackageSelector::All => {},
        PackageSelector::One(p) => {
            args.push(String::from_str("--package"));
            args.push(String::from_str(p.name()));
        },
    }
    proof {
        assert(strings_view(args@) =~= strings_view(before) + spec_package_args(sel));
    }
}

/// Append the target-triple arguments.
fn push_target_args(args: &mut Vec<String>, t: &Target)
    ensures
        strings_view(final(args)@) == strings_view(old(args)@) + spec_target_args(*t),
{
    let ghost before = args@;
    args.push(String::from_str("--target"));
    args.push(String::from_str(t.triple));
    proof {
        assert(strings_view(args@) =~= strings_view(before) + spec_target_args(*t));
    }
}

/// Append the feature arguments.
fn push_features_args(args: &mut Vec<String>, fs: &FeatureSet)
    ensures
        strings_view(final(args)@) == strings_view(old(args)@) + spec_features_args(
            fs.view_flags(),
        ),
{
    let ghost before = args@;
    if fs.flags.len() > 0 {
        let mut token = String::from_str("--features=");
        let joined = join_features(fs);
        token.append(joined.as_str());
        args.push(token);
    }
    proof {
        assert(strings_view(args@) =~= strings_view(before) + spec_features_args(fs.view_flags()));
    }
}

/// Append the build-mode flag.
fn push_mode_args(args: &mut Vec<String>, m: BuildMode)
    ensures
        strings_view(final(args)@) == strings_view(old(args)@) + spec_mode_args(m),
{
    let ghost before = args@;
    match m {
        BuildMode::Debug => {},
        BuildMode::Release => {
            args.push(String::from_str("--release"));
        },
    }
    proof {
        assert(strings_view(args@) =~= strings_view(before) + spec_mode_args(m));
    }
}

/// Append the example-selection arguments.
fn push_example_args(args: &mut Vec<String>, example: &String)
    ensures
        strings_view(final(args)@) == strings_view(old(args)@) + spec_example_args(example@),
{
    let ghost before = args@;
    args.push(String::from_str("--example"));
    args.push(example.clone());
    proof {
        assert(strings_view(args@) =~= strings_view(before) + spec_example_args(example@));
    }
}

/// Append the passthrough arguments, verbatim and last.
fn push_extra_args(args: &mut Vec<String>, extra: &ExtraArguments)
    ensures
        strings_view(final(args)@) == strings_view(old(args)@) + extra.view_args(),
{
    let ghost before = args@;
    let mut i: usize = 0;
    while i < extra.args.len()
        invariant
            0 <= i <= extra.args.len(),
            strings_view(args@) == strings_view(before) + extra.view_args().take(i as int),
        decreases extra.args.len() - i,
    {
        let ghost mid = args@;
        args.push(extra.args[i].clone());
        proof {
            assert(extra.view_args().take(i + 1 as int) =~= extra.view_args().take(i as int).push(
                extra.view_args()[i as int],
            ));
            assert(strings_view(args@) =~= strings_view(mid).push(extra.args@[i as int]@));
            assert(strings_view(args@) =~= strings_view(before) + extra.view_args().take(
                i + 1 as int,
            ));
        }
        i = i + 1;
    }
    proof {
        assert(extra.view_args().take(extra.args@.len() as int) =~= extra.view_args());
    }
}

/// Render an operation into its concrete invocation. The result is a pure
/// function of the operation: the same operation always renders to the same
/// program and the same ordered argument list.
#[verifier::rlimit(100)]
pub fn render(op: &Operation) -> (r: Invocation)
    ensures
        r.program@ == spec_program(*op),
        strings_view(r.args@) == spec_args(*op),
{
    let mut args: Vec<String> = Vec::new();
    let program: String;
    match op {
        Operation::Check { cargoarg, package, target, features, mode } => {
            program = String::from_str("cargo");
            args.push(String::from_str("check"));
            push_cargoarg(&mut args, cargoarg);
            push_package_args(&mut args, *package);
            push_target_args(&mut args, target);
            push_features_args(&mut args, features);
            push_mode_args(&mut args, *mode);
            proof {
                assert(strings_view(args@) =~= spec_args(*op));
            }
        },
        Operation::Build { cargoarg, package, target, features, mode } => {
            program = String::from_str("cargo");
            args.push(String::from_str("build"));
            push_cargoarg(&mut args, cargoarg);
            push_package_args(&mut args, *package);
            push_target_args(&mut args, target);
            push_features_args(&mut args, features);
            push_mode_args(&mut args, *mode);
            proof {
                assert(strings_view(args@) =~= spec_args(*op));
            }
        },
        Operation::Clippy { cargoarg, package, target, features } => {
            program = String::from_str("cargo");
            args.push(String::from_str("clippy"));
            push_cargoarg(&mut args, cargoarg);
            push_package_args(&mut args, *package);
            push_target_args(&mut args, target);
            push_features_args(&mut args, features);
            proof {
                assert(strings_view(args@) =~= spec_args(*op));
            }
        },
        Operation::Format { cargoarg, package, check_only } => {
            program = String::from_str("cargo");
            args.push(String::from_str("fmt"));
            push_cargoarg(&mut args, cargoarg);
            push_package_args(&mut args, *package);
            let ghost before_check = args@;
            if *check_only {
                args.push(String::from_str("--check"));
                proof {
                    assert(strings_view(args@) =~= strings_view(before_check).push("--check"@));
                }
            }
            proof {
                assert(strings_view(args@) =~= spec_args(*op));
            }
        },
        Operation::Doc { cargoarg, features, arguments } => {
            program = String::from_str("cargo");
            args.push(String::from_str("doc"));
            push_cargoarg(&mut args, cargoarg);
            push_features_args(&mut args, features);
            push_extra_args(&mut args, arguments);
            proof {
                assert(strings_view(args@) =~= spec_args(*op));
            }
        },
        Operation::Book { arguments } => {
            program = String::from_str("mdbook");
            args.push(String::from_str("build"));
            push_extra_args(&mut args, arguments);
            proof {
                assert(strings_view(args@) =~= spec_args(*op));
            }
        },
        Operation::Test { package, features } => {
            program = String::from_str("cargo");
            args.push(String::from_str("test"));
            push_package_args(&mut args, PackageSelector::One(*package));
            push_features_args(&mut args, features);
            proof {
                assert(strings_view(args@) =~= spec_args(*op));
            }
        },
        Operation::ExampleCheck { cargoarg, example, target, features, mode } => {
            program = String::from_str("cargo");
            args.push(String::from_str("check"));
            push_cargoarg(&mut args, cargoarg);
            push_example_args(&mut args, example);
            push_target_args(&mut args, target);
            push_features_args(&mut args, features);
            push_mode_args(&mut args, *mode);
            proof {
                assert(strings_view(args@) =~= spec_args(*op));
            }
        },
        Operation::ExampleBuild { cargoarg, example, target, features, mode } => {
            program = String::from_str("cargo");
            args.push(String::from_str("build"));
            push_cargoarg(&mut args, cargoarg);
            push_example_args(&mut args, example);
            push_target_args(&mut args, target);
            push_features_args(&mut args, features);
            push_mode_args(&mut args, *mode);
            proof {
                assert(strings_view(args@) =~= spec_args(*op));
            }
        },
        Operation::ExampleSize { cargoarg, example, target, features, mode, arguments } => {
            program = String::from_str("cargo");
            args.push(String::from_str("size"));
            push_cargoarg(&mut args, cargoarg);
            push_example_args(&mut args, example);
            push_target_args(&mut args, target);
            push_features_args(&mut args, features);
            push_mode_args(&mut args, *mode);
            push_extra_args(&mut args, arguments);
            proof {
                assert(strings_view(args@) =~= spec_args(*op));
            }
        },
        Operation::Qemu { cargoarg, example, target, features, mode } => {
            program = String::from_str("cargo");
            args.push(String::from_str("run"));
            push_cargoarg(&mut args, cargoarg);
            push_example_args(&mut args, example);
            push_target_args(&mut args, target);
            push_features_args(&mut args, features);
            push_mode_args(&mut args, *mode);
            proof {
                assert(strings_view(args@) =~= spec_args(*op));
            }
        },
    }
    Invocation { program, args }
}

} // verus!

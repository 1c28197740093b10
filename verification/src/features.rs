//! Workspace packages and per-(package, backend) feature-set derivation.

use vstd::prelude::*;
use crate::backend::{Backend, spec_backend_feature};

verus! {

/// One named package of the fixed workspace.
#[derive(Clone, Copy, PartialEq, Eq, Structural, Debug)]
pub enum Package {
    Rtic,
    RticCommon,
    RticMacros,
    RticMonotonics,
    RticSync,
    RticTime,
}

/// Scope of a package-level operation: the whole fixed package list, or
/// exactly one named package.
#[derive(Clone, Copy, PartialEq, Eq, Structural, Debug)]
pub enum PackageSelector {
    All,
    One(Package),
}

/// The fixed, ordered list of workspace packages. Package-level operations
/// over "all packages" iterate this list in exactly this order.
pub open spec fn spec_all_packages() -> Seq<Package> {
    seq![
        Package::Rtic,
        Package::RticCommon,
        Package::RticMacros,
        Package::RticMonotonics,
        Package::RticSync,
        Package::RticTime,
    ]
}

/// The package's name as the toolchain knows it.
pub open spec fn spec_package_name(p: Package) -> Seq<char> {
    match p {
        Package::Rtic => "rtic"@,
        Package::RticCommon => "rtic-common"@,
        Package::RticMacros => "rtic-macros"@,
        Package::RticMonotonics => "rtic-monotonics"@,
        Package::RticSync => "rtic-sync"@,
        Package::RticTime => "rtic-time"@,
    }
}

/// The fixed package list as an executable vector.
pub fn all_packages() -> (r: Vec<Package>)
    ensures
        r@ == spec_all_packages(),
{
    let mut v: Vec<Package> = Vec::new();
    v.push(Package::Rtic);
    v.push(Package::RticCommon);
    v.push(Package::RticMacros);
    v.push(Package::RticMonotonics);
    v.push(Package::RticSync);
    v.push(Package::RticTime);
    proof {
        assert(v@ =~= spec_all_packages());
    }
    v
}

impl Package {
    /// The package's name as the toolchain knows it.
    pub fn name(self) -> (r: &'static str)
        ensures
            r@ == spec_package_name(self),
    {
        match self {
            Package::Rtic => "rtic",
            Package::RticCommon => "rtic-common",
            Package::RticMacros => "rtic-macros",
            Package::RticMonotonics => "rtic-monotonics",
            Package::RticSync => "rtic-sync",
            Package::RticTime => "rtic-time",
        }
    }
}

/// An ordered, duplicate-free collection of build-time feature flags.
#[derive(Clone, Debug)]
pub struct FeatureSet {
    pub flags: Vec<&'static str>,
}

impl FeatureSet {
    /// The flags, each as a character sequence, in order.
    pub open spec fn view_flags(self) -> Seq<Seq<char>> {
        self.flags@.map_values(|f: &'static str| f@)
    }

    /// Well-formed: no flag occurs twice.
    pub open spec fn well_formed(self) -> bool {
        forall|i: int, j: int|
            0 <= i < j < self.view_flags().len() ==> self.view_flags()[i] != self.view_flags()[j]
    }
}

/// The feature flags the interrupt-dispatch macro package needs for a
/// backend: the interrupt-source strategy of the architecture.
pub open spec fn spec_macros_feature(b: Backend) -> Seq<char> {
    match b {
        Backend::Thumbv6 => "cortex-m-source-masking"@,
        Backend::Thumbv7 => "cortex-m-basepri"@,
        Backend::Thumbv8Base => "cortex-m-source-masking"@,
        Backend::Thumbv8Main => "cortex-m-basepri"@,
    }
}

/// The exact ordered feature flags required to build one package for one
/// backend. The core package needs the backend's exclusive capability flag;
/// the macro package needs the backend's interrupt-source strategy; the
/// portable packages need none.
pub open spec fn spec_package_features(p: Package, b: Backend) -> Seq<Seq<char>> {
    match p {
        Package::Rtic => seq![spec_backend_feature(b)],
        Package::RticMacros => seq![spec_macros_feature(b)],
        Package::RticCommon => Seq::empty(),
        Package::RticMonotonics => Seq::empty(),
        Package::RticSync => Seq::empty(),
        Package::RticTime => Seq::empty(),
    }
}

/// The exact ordered feature flags for a selector: one named package's own
/// flags, or, over the whole workspace, the backend capability flag alone.
/// Two packages' flags are never mixed into one set.
pub open spec fn spec_features(sel: PackageSelector, b: Backend) -> Seq<Seq<char>> {
    match sel {
        PackageSelector::All => seq![spec_backend_feature(b)],
        PackageSelector::One(p) => spec_package_features(p, b),
    }
}

/// The feature flags an example program needs: the backend capability flag.
pub open spec fn spec_example_features(b: Backend) -> Seq<Seq<char>> {
    seq![spec_backend_feature(b)]
}

/// Compute the feature set for a (selector, backend) pair. Deterministic:
/// the result is a function of the two arguments, flags in a fixed order.
pub fn package_feature_extractor(sel: PackageSelector, backend: Backend) -> (r: FeatureSet)
    ensures
        r.view_flags() == spec_features(sel, backend),
        r.well_formed(),
{
    let mut flags: Vec<&'static str> = Vec::new();
    match sel {
        PackageSelector::All => {
            flags.push(backend.to_rtic_feature());
        },
        PackageSelector::One(p) => {
            match p {
                Package::Rtic => {
                    flags.push(backend.to_rtic_feature());
                },
                Package::RticMacros => {
                    let f: &'static str = match backend {
                        Backend::Thumbv6 => "cortex-m-source-masking",
                        Backend::Thumbv7 => "cortex-m-basepri",
                        Backend::Thumbv8Base => "cortex-m-source-masking",
                        Backend::Thumbv8Main => "cortex-m-basepri",
                    };
                    flags.push(f);
                },
                Package::RticCommon => {},
                Package::RticMonotonics => {},
                Package::RticSync => {},
                Package::RticTime => {},
            }
        },
    }
    let r = FeatureSet { flags };
    proof {
        assert(r.view_flags() =~= spec_features(sel, backend));
    }
    r
}

/// The feature set an example program is built with for a backend.
pub fn example_features(backend: Backend) -> (r: FeatureSet)
    ensures
        r.view_flags() == spec_example_features(backend),
        r.well_formed(),
{
    let mut flags: Vec<&'static str> = Vec::new();
    flags.push(backend.to_rtic_feature());
    let r = FeatureSet { flags };
    proof {
        assert(r.view_flags() =~= spec_example_features(backend));
    }
    r
}

/// Feature derivation is deterministic: two calls with identical inputs
/// yield identical ordered flag sequences.
pub proof fn lemma_features_deterministic(
    sel1: PackageSelector,
    sel2: PackageSelector,
    b1: Backend,
    b2: Backend,
)
    requires
        sel1 == sel2,
        b1 == b2,
    ensures
        spec_features(sel1, b1) == spec_features(sel2, b2),
{
}

/// A feature set computed for backend `b` never contains a flag that belongs
/// exclusively to a different backend.
pub proof fn lemma_no_foreign_backend_flag(sel: PackageSelector, b: Backend, other: Backend)
    requires
        other != b,
    ensures
        !spec_features(sel, b).contains(spec_backend_feature(other)),
{
    crate::backend::lemma_backend_features_distinct(b, other);
    lemma_macros_feature_is_no_backend_flag(b, other);
}

/// Example feature sets obey the same exclusivity: no foreign backend flag.
pub proof fn lemma_example_no_foreign_backend_flag(b: Backend, other: Backend)
    requires
        other != b,
    ensures
        !spec_example_features(b).contains(spec_backend_feature(other)),
{
    crate::backend::lemma_backend_features_distinct(b, other);
}

/// The interrupt-source strategy flags are shared between backends and are
/// no backend's exclusive capability flag.
proof fn lemma_macros_feature_is_no_backend_flag(b: Backend, other: Backend)
    ensures
        spec_macros_feature(b) != spec_backend_feature(other),
{
    reveal_strlit("cortex-m-source-masking");
    reveal_strlit("cortex-m-basepri");
    reveal_strlit("thumbv6-backend");
    reveal_strlit("thumbv7-backend");
    reveal_strlit("thumbv8base-backend");
    reveal_strlit("thumbv8main-backend");
    assert(spec_macros_feature(b)[0] == 'c');
    assert(spec_backend_feature(other)[0] == 't');
}

} // verus!

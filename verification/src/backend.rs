//! Hardware backend selectors and their resolution to toolchain targets.

use vstd::prelude::*;

verus! {

/// A supported hardware backend: one variant per architecture/board family.
/// Chosen once per batch and immutable afterwards.
#[derive(Clone, Copy, PartialEq, Eq, Structural, Debug)]
pub enum Backend {
    Thumbv6,
    Thumbv7,
    Thumbv8Base,
    Thumbv8Main,
}

/// The concrete toolchain target a backend resolves to: a target triple plus
/// the backend capability feature flag used for feature gating. In one-to-one
/// correspondence with `Backend`.
#[derive(Clone, Copy, Debug)]
pub struct Target {
    pub triple: &'static str,
    pub backend_feature: &'static str,
}

/// The target triple of a backend, as the toolchain expects it.
pub open spec fn spec_triple(b: Backend) -> Seq<char> {
    match b {
        Backend::Thumbv6 => "thumbv6m-none-eabi"@,
        Backend::Thumbv7 => "thumbv7m-none-eabi"@,
        Backend::Thumbv8Base => "thumbv8m.base-none-eabi"@,
        Backend::Thumbv8Main => "thumbv8m.main-none-eabi"@,
    }
}

/// The feature flag that belongs exclusively to a backend: it gates
/// backend-specific code and must never appear in a feature set computed for
/// a different backend.
pub open spec fn spec_backend_feature(b: Backend) -> Seq<char> {
    match b {
        Backend::Thumbv6 => "thumbv6-backend"@,
        Backend::Thumbv7 => "thumbv7-backend"@,
        Backend::Thumbv8Base => "thumbv8base-backend"@,
        Backend::Thumbv8Main => "thumbv8main-backend"@,
    }
}

impl Backend {
    /// Resolve this backend to its concrete target. Total over the closed
    /// enumeration; no failure mode.
    pub fn to_target(self) -> (t: Target)
        ensures
            t.triple@ == spec_triple(self),
            t.backend_feature@ == spec_backend_feature(self),
    {
        match self {
            Backend::Thumbv6 => Target {
                triple: "thumbv6m-none-eabi",
                backend_feature: "thumbv6-backend",
            },
            Backend::Thumbv7 => Target {
                triple: "thumbv7m-none-eabi",
                backend_feature: "thumbv7-backend",
            },
            Backend::Thumbv8Base => Target {
                triple: "thumbv8m.base-none-eabi",
                backend_feature: "thumbv8base-backend",
            },
            Backend::Thumbv8Main => Target {
                triple: "thumbv8m.main-none-eabi",
                backend_feature: "thumbv8main-backend",
            },
        }
    }

    /// The backend capability feature flag, as an executable value.
    pub fn to_rtic_feature(self) -> (f: &'static str)
        ensures
            f@ == spec_backend_feature(self),
    {
        match self {
            Backend::Thumbv6 => "thumbv6-backend",
            Backend::Thumbv7 => "thumbv7-backend",
            Backend::Thumbv8Base => "thumbv8base-backend",
            Backend::Thumbv8Main => "thumbv8main-backend",
        }
    }
}

/// Distinct backends resolve to distinct targets: their target triples
/// already differ.
pub proof fn lemma_resolve_injective(b1: Backend, b2: Backend)
    requires
        b1 != b2,
    ensures
        spec_triple(b1) != spec_triple(b2),
{
    reveal_strlit("thumbv6m-none-eabi");
    reveal_strlit("thumbv7m-none-eabi");
    reveal_strlit("thumbv8m.base-none-eabi");
    reveal_strlit("thumbv8m.main-none-eabi");
    assert(spec_triple(Backend::Thumbv6)[6] == '6');
    assert(spec_triple(Backend::Thumbv7)[6] == '7');
    assert(spec_triple(Backend::Thumbv6).len() == 18);
    assert(spec_triple(Backend::Thumbv7).len() == 18);
    assert(spec_triple(Backend::Thumbv8Base).len() == 23);
    assert(spec_triple(Backend::Thumbv8Main).len() == 23);
    assert(spec_triple(Backend::Thumbv8Base)[9] == 'b');
    assert(spec_triple(Backend::Thumbv8Main)[9] == 'm');
}

/// Distinct backends own distinct exclusive feature flags.
pub proof fn lemma_backend_features_distinct(b1: Backend, b2: Backend)
    requires
        b1 != b2,
    ensures
        spec_backend_feature(b1) != spec_backend_feature(b2),
{
    reveal_strlit("thumbv6-backend");
    reveal_strlit("thumbv7-backend");
    reveal_strlit("thumbv8base-backend");
    reveal_strlit("thumbv8main-backend");
    assert(spec_backend_feature(Backend::Thumbv6)[6] == '6');
    assert(spec_backend_feature(Backend::Thumbv7)[6] == '7');
    assert(spec_backend_feature(Backend::Thumbv6).len() == 15);
    assert(spec_backend_feature(Backend::Thumbv7).len() == 15);
    assert(spec_backend_feature(Backend::Thumbv8Base).len() == 19);
    assert(spec_backend_feature(Backend::Thumbv8Main).len() == 19);
    assert(spec_backend_feature(Backend::Thumbv8Base)[7] == 'b');
    assert(spec_backend_feature(Backend::Thumbv8Main)[7] == 'm');
}

} // verus!

//! The install modes that a request resolves to.

use vstd::prelude::*;

verus! {

/// An explicit lockfile policy given by the caller, overriding the settings files.
#[derive(Debug, Clone, Copy, PartialEq, Eq, Structural)]
pub enum FrozenOverride {
    Frozen,
    No,
    Prefer,
}

/// The lockfile policy an install runs with.
#[derive(Debug, Clone, Copy, PartialEq, Eq, Structural)]
pub enum FrozenMode {
    Frozen,
    No,
    Prefer,
}

/// How an install may use the network.
#[derive(Debug, Clone, Copy, PartialEq, Eq, Structural)]
pub enum NetworkMode {
    Offline,
    PreferOffline,
    Online,
}

/// The dependency groups an install is asked to consider.
#[derive(Debug, Clone, Copy, PartialEq, Eq, Structural)]
pub struct DepSelection {
    pub prod: bool,
    pub dev: bool,
    pub no_optional: bool,
}

impl DepSelection {
    /// The selection made by the `prod`, `dev` and `no_optional` flags.
    pub fn from_flags(prod: bool, dev: bool, no_optional: bool) -> (sel: DepSelection)
        ensures
            sel.prod == prod,
            sel.dev == dev,
            sel.no_optional == no_optional,
    {
        DepSelection { prod, dev, no_optional }
    }
}

/// The settings key written for an override in the CLI flag bag.
/// The keys and values of the flag bag are assumed: the settings module that
/// reads them is not part of this crate.
pub open spec fn override_key(o: FrozenOverride) -> Seq<char> {
    match o {
        FrozenOverride::Frozen => "frozen-lockfile"@,
        FrozenOverride::No => "frozen-lockfile"@,
        FrozenOverride::Prefer => "prefer-frozen-lockfile"@,
    }
}

/// The settings value written for an override in the CLI flag bag.
pub open spec fn override_value(o: FrozenOverride) -> Seq<char> {
    match o {
        FrozenOverride::Frozen => "true"@,
        FrozenOverride::No => "false"@,
        FrozenOverride::Prefer => "true"@,
    }
}

impl FrozenOverride {
    /// The `(key, value)` pair by which this override enters the CLI flag bag;
    /// the pairs are assumed (see [`override_key`]).
    pub fn cli_flag_bag_entry(self) -> (entry: (&'static str, &'static str))
        ensures
            entry.0@ == override_key(self),
            entry.1@ == override_value(self),
    {
        match self {
            FrozenOverride::Frozen => ("frozen-lockfile", "true"),
            FrozenOverride::No => ("frozen-lockfile", "false"),
            FrozenOverride::Prefer => ("prefer-frozen-lockfile", "true"),
        }
    }
}

/// The install mode that an override asks for.
pub open spec fn override_mode(o: FrozenOverride) -> FrozenMode {
    match o {
        FrozenOverride::Frozen => FrozenMode::Frozen,
        FrozenOverride::No => FrozenMode::No,
        FrozenOverride::Prefer => FrozenMode::Prefer,
    }
}

} // verus!

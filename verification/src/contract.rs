//! The three contract kinds and what each one checks.

use vstd::prelude::*;

verus! {

/// Which contract was requested by the metadata entry that triggered the
/// rewrite.  An invariant is a precondition and a postcondition combined,
/// with its own pair of labels.
#[derive(Clone, Copy, PartialEq, Eq, Debug)]
pub enum Contract {
    Precond,
    Postcond,
    Invariant,
}

/// The metadata keyword of a contract kind.
pub open spec fn short_kw_v(c: Contract) -> Seq<char> {
    match c {
        Contract::Precond => "precond"@,
        Contract::Postcond => "postcond"@,
        Contract::Invariant => "invariant"@,
    }
}

/// The capitalized kind name used in unsupported-shape messages.
pub open spec fn long_kind_v(c: Contract) -> Seq<char> {
    match c {
        Contract::Precond => "Precondition"@,
        Contract::Postcond => "Postcondition"@,
        Contract::Invariant => "Invariant"@,
    }
}

/// Whether a kind checks the predicate at entry.
pub open spec fn has_precond_v(c: Contract) -> bool {
    c is Precond || c is Invariant
}

/// Whether a kind checks the predicate at exit.
pub open spec fn has_postcond_v(c: Contract) -> bool {
    c is Postcond || c is Invariant
}

/// The label prefix of a kind's entry check.
pub open spec fn pre_kind_v(c: Contract) -> Seq<char> {
    if c is Invariant {
        "Invariant entering"@
    } else {
        "Precondition"@
    }
}

/// The label prefix of a kind's exit check.
pub open spec fn post_kind_v(c: Contract) -> Seq<char> {
    if c is Invariant {
        "Invariant leaving"@
    } else {
        "Postcondition"@
    }
}

impl Contract {
    /// The metadata keyword that selects this contract kind.
    pub fn short_str(&self) -> (r: &'static str)
        ensures
            r@ == short_kw_v(*self),
    {
        match self {
            Contract::Precond => "precond",
            Contract::Postcond => "postcond",
            Contract::Invariant => "invariant",
        }
    }

    /// The capitalized kind name used in diagnostics about unsupported
    /// declaration shapes.
    pub fn long_str(&self) -> (r: &'static str)
        ensures
            r@ == long_kind_v(*self),
    {
        match self {
            Contract::Precond => "Precondition",
            Contract::Postcond => "Postcondition",
            Contract::Invariant => "Invariant",
        }
    }

    /// The label prefix of the entry check, for the kinds that have one.
    pub fn pre_str(&self) -> (r: &'static str)
        requires
            has_precond_v(*self),
        ensures
            r@ == pre_kind_v(*self),
    {
        match self {
            Contract::Precond => "Precondition",
            Contract::Postcond => "Precondition",
            Contract::Invariant => "Invariant entering",
        }
    }

    /// The label prefix of the exit check, for the kinds that have one.
    pub fn post_str(&self) -> (r: &'static str)
        requires
            has_postcond_v(*self),
        ensures
            r@ == post_kind_v(*self),
    {
        match self {
            Contract::Precond => "Postcondition",
            Contract::Postcond => "Postcondition",
            Contract::Invariant => "Invariant leaving",
        }
    }

    /// Whether this kind checks the predicate before the original body runs.
    pub fn has_precond(&self) -> (r: bool)
        ensures
            r == has_precond_v(*self),
    {
        match self {
            Contract::Precond => true,
            Contract::Postcond => false,
            Contract::Invariant => true,
        }
    }

    /// Whether this kind checks the predicate after the result is captured.
    pub fn has_postcond(&self) -> (r: bool)
        ensures
            r == has_postcond_v(*self),
    {
        match self {
            Contract::Precond => false,
            Contract::Postcond => true,
            Contract::Invariant => true,
        }
    }

    /// Whether the predicate of this kind's exit check may use the reserved
    /// return-alias for the captured result.
    pub fn checks_return(&self) -> (r: bool)
        ensures
            r == (self is Postcond || self is Invariant),
    {
        match self {
            Contract::Postcond => true,
            Contract::Invariant => true,
            _ => false,
        }
    }
}

} // verus!

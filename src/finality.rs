//! Finality intent of the user and the finality requirement of a chain query.
use vstd::prelude::*;

verus! {

/// Different types of finality.
#[derive(Debug, Clone, Copy, PartialEq, Eq, Structural)]
pub enum FinalityArg {
    Optimistic,
    NearFinal,
    Final,
}

/// Finality requirement attached to a query made to the chain client.
#[derive(Debug, Clone, Copy, PartialEq, Eq, Structural)]
pub enum ChainFinality {
    /// No finality requirement: the optimistic head.
    NoRequirement,
    /// Near-final, as certified by doom-slug.
    DoomSlug,
    /// Final.
    Final,
}

/// The chain query finality that stands for a finality intent.
pub open spec fn finality_of(level: FinalityArg) -> ChainFinality {
    match level {
        FinalityArg::Optimistic => ChainFinality::NoRequirement,
        FinalityArg::NearFinal => ChainFinality::DoomSlug,
        FinalityArg::Final => ChainFinality::Final,
    }
}

/// Maps a finality intent to the finality requirement of chain queries.
pub fn resolve_finality(level: FinalityArg) -> (r: ChainFinality)
    ensures
        r == finality_of(level),
{
    match level {
        FinalityArg::Optimistic => ChainFinality::NoRequirement,
        FinalityArg::NearFinal => ChainFinality::DoomSlug,
        FinalityArg::Final => ChainFinality::Final,
    }
}

impl From<FinalityArg> for ChainFinality {
    fn from(value: FinalityArg) -> (r: ChainFinality)
        ensures
            r == finality_of(value),
    {
        resolve_finality(value)
    }
}

impl vstd::std_specs::convert::FromSpecImpl<FinalityArg> for ChainFinality {
    open spec fn obeys_from_spec() -> bool {
        true
    }

    open spec fn from_spec(v: FinalityArg) -> ChainFinality {
        finality_of(v)
    }
}

/// Distinct finality intents give distinct chain query finalities: the
/// mapping loses no choice of the user.
pub proof fn lemma_finality_distinct(a: FinalityArg, b: FinalityArg)
    ensures
        a != b ==> finality_of(a) != finality_of(b),
{
}

} // verus!

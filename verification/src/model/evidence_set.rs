//! Evidence set: the collection of evidence envelopes for one claim.
//!
//! Insertion order is kept for trace and debug output only; outcomes do not
//! depend on it.
use vstd::prelude::*;

use crate::model::build_error::BuildError;
use crate::model::evidence::Evidence;

verus! {

/// Collection of [`Evidence`] associated with one claim; immutable once built.
#[derive(Debug, Clone, PartialEq, Eq)]
pub struct EvidenceSet {
    evidence: Vec<Evidence>,
}

impl View for EvidenceSet {
    type V = Seq<Evidence>;

    closed spec fn view(&self) -> Seq<Evidence> {
        self.evidence@
    }
}

impl EvidenceSet {
    /// Empty evidence set (zero envelopes).
    pub fn empty() -> (r: Self)
        ensures
            r@ == Seq::<Evidence>::empty(),
    {
        EvidenceSet { evidence: Vec::new() }
    }

    /// Wraps a vector of evidence envelopes, preserving its order.
    pub fn from_vec(evidence: Vec<Evidence>) -> (r: Self)
        ensures
            r@ == evidence@,
    {
        EvidenceSet { evidence }
    }

    pub fn builder() -> (r: EvidenceSetBuilder)
        ensures
            r@ == Seq::<Evidence>::empty(),
    {
        EvidenceSetBuilder::new()
    }

    pub fn len(&self) -> (r: usize)
        ensures
            r == self@.len(),
    {
        self.evidence.len()
    }

    pub fn is_empty(&self) -> (r: bool)
        ensures
            r == (self@.len() == 0),
    {
        self.evidence.len() == 0
    }

    /// Evidence envelopes in insertion order.
    pub fn evidence(&self) -> (r: &[Evidence])
        ensures
            r@ == self@,
    {
        self.evidence.as_slice()
    }
}

/// Constructs an [`EvidenceSet`].
#[derive(Debug)]
pub struct EvidenceSetBuilder {
    evidence: Vec<Evidence>,
}

impl View for EvidenceSetBuilder {
    type V = Seq<Evidence>;

    closed spec fn view(&self) -> Seq<Evidence> {
        self.evidence@
    }
}

impl Default for EvidenceSetBuilder {
    fn default() -> (r: Self)
        ensures
            r@ == Seq::<Evidence>::empty(),
    {
        EvidenceSetBuilder::new()
    }
}

impl EvidenceSetBuilder {
    pub fn new() -> (r: Self)
        ensures
            r@ == Seq::<Evidence>::empty(),
    {
        EvidenceSetBuilder { evidence: Vec::new() }
    }

    /// Appends one envelope after those already added.
    pub fn evidence(self, evidence: Evidence) -> (r: Self)
        ensures
            r@ == self@.push(evidence),
    {
        let mut all = self.evidence;
        all.push(evidence);
        EvidenceSetBuilder { evidence: all }
    }

    /// Appends envelopes in their order after those already added.
    pub fn evidence_vec(self, evidence: Vec<Evidence>) -> (r: Self)
        ensures
            r@ == self@ + evidence@,
    {
        let mut all = self.evidence;
        let mut more = evidence;
        all.append(&mut more);
        EvidenceSetBuilder { evidence: all }
    }

    /// Builds the set; an empty set is allowed, so this always succeeds.
    pub fn build(self) -> (r: Result<EvidenceSet, BuildError>)
        ensures
            r matches Ok(set) && set@ == self@,
    {
        Ok(EvidenceSet { evidence: self.evidence })
    }
}

} // verus!

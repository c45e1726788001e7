//! Equality, order and hashing of refspecs.
//!
//! All three go by the instruction that a refspec amounts to, never by its
//! parts: two refspecs that ask for the same are the same, however they
//! were written.

use std::cmp::Ordering;
use std::hash::Hash;
use std::hash::Hasher;
use vstd::prelude::*;

use crate::instruction::compare_instructions;
use crate::instruction::Instruction;
use crate::refspec::RefSpec;
use crate::refspec::RefSpecModel;
use crate::refspec::RefSpecRef;

verus! {

impl RefSpecModel {
    /// Whether two refspecs amount to the same instruction.
    pub open spec fn same_as(self, other: RefSpecModel) -> bool {
        self.instruction() == other.instruction()
    }

    /// How the instruction of `self` stands to that of `other`. Parts that
    /// are not those of a refspec have no place in the order.
    pub open spec fn order(self, other: RefSpecModel) -> Option<Ordering> {
        match (self.instruction(), other.instruction()) {
            (Some(a), Some(b)) => Some(a.order(b)),
            _ => None,
        }
    }
}

/// `Hash::hash` as derived for [`Instruction`]: feeds the variant, its byte
/// strings and its flag to the hasher. Nothing is claimed of the hasher's
/// state afterwards.
#[verifier::external_body]
fn hash_instruction<H: Hasher>(instruction: &Instruction<'_>, state: &mut H) {
    instruction.hash(state)
}

impl PartialEq for RefSpecRef<'_> {
    /// Two refspecs are equal when their instructions are.
    fn eq(&self, other: &Self) -> (same: bool) {
        self.instruction() == other.instruction()
    }
}

impl vstd::std_specs::cmp::PartialEqSpecImpl for RefSpecRef<'_> {
    open spec fn obeys_eq_spec() -> bool {
        true
    }

    open spec fn eq_spec(&self, other: &Self) -> bool {
        self@.same_as(other@)
    }
}

impl PartialEq for RefSpec {
    /// Equal as the borrowed forms are.
    fn eq(&self, other: &Self) -> (same: bool) {
        self.to_ref() == other.to_ref()
    }
}

impl vstd::std_specs::cmp::PartialEqSpecImpl for RefSpec {
    open spec fn obeys_eq_spec() -> bool {
        true
    }

    open spec fn eq_spec(&self, other: &Self) -> bool {
        self@.same_as(other@)
    }
}

impl PartialOrd for RefSpecRef<'_> {
    /// Refspecs are ordered as their instructions are.
    fn partial_cmp(&self, other: &Self) -> (o: Option<Ordering>) {
        self.instruction().partial_cmp(&other.instruction())
    }
}

impl vstd::std_specs::cmp::PartialOrdSpecImpl for RefSpecRef<'_> {
    open spec fn obeys_partial_cmp_spec() -> bool {
        true
    }

    open spec fn partial_cmp_spec(&self, other: &Self) -> Option<Ordering> {
        self@.order(other@)
    }
}

impl PartialOrd for RefSpec {
    /// Ordered as the borrowed forms are.
    fn partial_cmp(&self, other: &Self) -> (o: Option<Ordering>) {
        self.to_ref().partial_cmp(&other.to_ref())
    }
}

impl vstd::std_specs::cmp::PartialOrdSpecImpl for RefSpec {
    open spec fn obeys_partial_cmp_spec() -> bool {
        true
    }

    open spec fn partial_cmp_spec(&self, other: &Self) -> Option<Ordering> {
        self@.order(other@)
    }
}

impl Hash for RefSpecRef<'_> {
    /// Hashes the instruction, so that equal refspecs hash alike.
    fn hash<H: Hasher>(&self, state: &mut H) {
        let instruction = self.instruction();
        hash_instruction(&instruction, state)
    }
}

impl Hash for RefSpec {
    /// Hashes as the borrowed form does.
    fn hash<H: Hasher>(&self, state: &mut H) {
        self.to_ref().hash(state)
    }
}

impl RefSpecRef<'_> {
    /// How `self` stands to `other` by their instructions.
    pub fn cmp(&self, other: &Self) -> (o: Ordering)
        ensures
            Some(o) == self@.order(other@),
    {
        compare_instructions(&self.instruction(), &other.instruction())
    }
}

impl RefSpec {
    /// How `self` stands to `other` by their instructions.
    pub fn cmp(&self, other: &Self) -> (o: Ordering)
        ensures
            Some(o) == self@.order(other@),
    {
        self.to_ref().cmp(&other.to_ref())
    }
}

} // verus!

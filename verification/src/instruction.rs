//! What a refspec asks for, said outright.
//!
//! An [`Instruction`] names the action that the shape of a refspec implies,
//! so that whoever acts on refspecs never has to work it out again from the
//! mode and the two optional sides.

use bstr::BStr;
use std::cmp::Ordering;
use vstd::prelude::*;

use crate::bytes::bstr_bytes;
use crate::bytes::same_bytes;
use crate::order::and_then;
use crate::order::compare_bytes;
use crate::order::compare_flags;
use crate::order::flag_order;
use crate::order::lex_order;
use crate::order::rank_order;

verus! {

/// What a fetch refspec asks for.
#[derive(Clone, Copy, Debug, Eq, Ord, Hash)]
pub enum Fetch<'a> {
    /// Fetch `src` and update no local reference.
    Only {
        /// The remote reference or pattern to fetch.
        src: &'a BStr,
    },
    /// Fetch `src` and update the local `dst` with it.
    AndUpdate {
        /// The remote reference or pattern to fetch.
        src: &'a BStr,
        /// The local reference or pattern to update.
        dst: &'a BStr,
        /// Whether the update may be other than a fast-forward.
        allow_non_fast_forward: bool,
    },
    /// Leave `src` out of what other refspecs fetch.
    Exclude {
        /// The remote reference or pattern to leave out.
        src: &'a BStr,
    },
}

/// What a push refspec asks for.
#[derive(Clone, Copy, Debug, Eq, Ord, Hash)]
pub enum Push<'a> {
    /// Push the local `src` to the remote `dst`.
    Matching {
        /// The local reference or pattern to push.
        src: &'a BStr,
        /// The remote reference or pattern to update.
        dst: &'a BStr,
        /// Whether the update may be other than a fast-forward.
        allow_non_fast_forward: bool,
    },
    /// Delete what `ref_or_pattern` matches on the remote.
    Delete {
        /// The remote reference or pattern to delete.
        ref_or_pattern: &'a BStr,
    },
    /// Push every local branch that the remote has under the same name.
    AllMatchingBranches {
        /// Whether the updates may be other than fast-forwards.
        allow_non_fast_forward: bool,
    },
}

/// What a refspec asks for.
#[derive(Clone, Copy, Debug, Eq, Ord, Hash)]
pub enum Instruction<'a> {
    /// The refspec is for fetching.
    Fetch(Fetch<'a>),
    /// The refspec is for pushing.
    Push(Push<'a>),
}

/// A fetch instruction with its byte strings written out.
pub enum FetchModel {
    Only { src: Seq<u8> },
    AndUpdate { src: Seq<u8>, dst: Seq<u8>, allow_non_fast_forward: bool },
    Exclude { src: Seq<u8> },
}

/// A push instruction with its byte strings written out.
pub enum PushModel {
    Matching { src: Seq<u8>, dst: Seq<u8>, allow_non_fast_forward: bool },
    Delete { ref_or_pattern: Seq<u8> },
    AllMatchingBranches { allow_non_fast_forward: bool },
}

/// An instruction with its byte strings written out.
pub enum InstructionModel {
    Fetch(FetchModel),
    Push(PushModel),
}

impl FetchModel {
    /// The place of the variant among the variants.
    pub open spec fn rank(self) -> int {
        match self {
            FetchModel::Only { .. } => 0,
            FetchModel::AndUpdate { .. } => 1,
            FetchModel::Exclude { .. } => 2,
        }
    }

    /// How `self` stands to `other`: by variant first, then by the fields
    /// from first to last.
    pub open spec fn order(self, other: FetchModel) -> Ordering {
        match (self, other) {
            (FetchModel::Only { src: a }, FetchModel::Only { src: b }) => lex_order(a, b),
            (
                FetchModel::AndUpdate { src: s1, dst: d1, allow_non_fast_forward: f1 },
                FetchModel::AndUpdate { src: s2, dst: d2, allow_non_fast_forward: f2 },
            ) => and_then(lex_order(s1, s2), and_then(lex_order(d1, d2), flag_order(f1, f2))),
            (FetchModel::Exclude { src: a }, FetchModel::Exclude { src: b }) => lex_order(a, b),
            _ => rank_order(self.rank(), other.rank()),
        }
    }
}

impl PushModel {
    /// The place of the variant among the variants.
    pub open spec fn rank(self) -> int {
        match self {
            PushModel::Matching { .. } => 0,
            PushModel::Delete { .. } => 1,
            PushModel::AllMatchingBranches { .. } => 2,
        }
    }

    /// How `self` stands to `other`: by variant first, then by the fields
    /// from first to last.
    pub open spec fn order(self, other: PushModel) -> Ordering {
        match (self, other) {
            (
                PushModel::Matching { src: s1, dst: d1, allow_non_fast_forward: f1 },
                PushModel::Matching { src: s2, dst: d2, allow_non_fast_forward: f2 },
            ) => and_then(lex_order(s1, s2), and_then(lex_order(d1, d2), flag_order(f1, f2))),
            (PushModel::Delete { ref_or_pattern: a }, PushModel::Delete { ref_or_pattern: b }) => {
                lex_order(a, b)
            },
            (
                PushModel::AllMatchingBranches { allow_non_fast_forward: f1 },
                PushModel::AllMatchingBranches { allow_non_fast_forward: f2 },
            ) => flag_order(f1, f2),
            _ => rank_order(self.rank(), other.rank()),
        }
    }
}

impl InstructionModel {
    /// How `self` stands to `other`: every fetch comes before every push.
    pub open spec fn order(self, other: InstructionModel) -> Ordering {
        match (self, other) {
            (InstructionModel::Fetch(a), InstructionModel::Fetch(b)) => a.order(b),
            (InstructionModel::Fetch(_), InstructionModel::Push(_)) => Ordering::Less,
            (InstructionModel::Push(_), InstructionModel::Fetch(_)) => Ordering::Greater,
            (InstructionModel::Push(a), InstructionModel::Push(b)) => a.order(b),
        }
    }
}

impl View for Fetch<'_> {
    type V = FetchModel;

    open spec fn view(&self) -> FetchModel {
        match *self {
            Fetch::Only { src } => FetchModel::Only { src: bstr_bytes(src) },
            Fetch::AndUpdate { src, dst, allow_non_fast_forward } => FetchModel::AndUpdate {
                src: bstr_bytes(src),
                dst: bstr_bytes(dst),
                allow_non_fast_forward,
            },
            Fetch::Exclude { src } => FetchModel::Exclude { src: bstr_bytes(src) },
        }
    }
}

impl View for Push<'_> {
    type V = PushModel;

    open spec fn view(&self) -> PushModel {
        match *self {
            Push::Matching { src, dst, allow_non_fast_forward } => PushModel::Matching {
                src: bstr_bytes(src),
                dst: bstr_bytes(dst),
                allow_non_fast_forward,
            },
            Push::Delete { ref_or_pattern } => PushModel::Delete {
                ref_or_pattern: bstr_bytes(ref_or_pattern),
            },
            Push::AllMatchingBranches { allow_non_fast_forward } => PushModel::AllMatchingBranches {
                allow_non_fast_forward,
            },
        }
    }
}

impl View for Instruction<'_> {
    type V = InstructionModel;

    open spec fn view(&self) -> InstructionModel {
        match *self {
            Instruction::Fetch(fetch) => InstructionModel::Fetch(fetch@),
            Instruction::Push(push) => InstructionModel::Push(push@),
        }
    }
}

impl PartialEq for Fetch<'_> {
    /// Two fetch instructions are equal when they are of one variant and
    /// hold the same bytes and flags.
    fn eq(&self, other: &Self) -> (same: bool) {
        match (*self, *other) {
            (Fetch::Only { src: a }, Fetch::Only { src: b }) => same_bytes(a, b),
            (
                Fetch::AndUpdate { src: s1, dst: d1, allow_non_fast_forward: f1 },
                Fetch::AndUpdate { src: s2, dst: d2, allow_non_fast_forward: f2 },
            ) => same_bytes(s1, s2) && same_bytes(d1, d2) && f1 == f2,
            (Fetch::Exclude { src: a }, Fetch::Exclude { src: b }) => same_bytes(a, b),
            _ => false,
        }
    }
}

impl vstd::std_specs::cmp::PartialEqSpecImpl for Fetch<'_> {
    open spec fn obeys_eq_spec() -> bool {
        true
    }

    open spec fn eq_spec(&self, other: &Self) -> bool {
        self@ == other@
    }
}

impl PartialEq for Push<'_> {
    /// Two push instructions are equal when they are of one variant and
    /// hold the same bytes and flags.
    fn eq(&self, other: &Self) -> (same: bool) {
        match (*self, *other) {
            (
                Push::Matching { src: s1, dst: d1, allow_non_fast_forward: f1 },
                Push::Matching { src: s2, dst: d2, allow_non_fast_forward: f2 },
            ) => same_bytes(s1, s2) && same_bytes(d1, d2) && f1 == f2,
            (Push::Delete { ref_or_pattern: a }, Push::Delete { ref_or_pattern: b }) => {
                same_bytes(a, b)
            },
            (
                Push::AllMatchingBranches { allow_non_fast_forward: f1 },
                Push::AllMatchingBranches { allow_non_fast_forward: f2 },
            ) => f1 == f2,
            _ => false,
        }
    }
}

impl vstd::std_specs::cmp::PartialEqSpecImpl for Push<'_> {
    open spec fn obeys_eq_spec() -> bool {
        true
    }

    open spec fn eq_spec(&self, other: &Self) -> bool {
        self@ == other@
    }
}

impl PartialEq for Instruction<'_> {
    /// Two instructions are equal when both fetch or both push, and ask for
    /// the same.
    fn eq(&self, other: &Self) -> (same: bool) {
        match (*self, *other) {
            (Instruction::Fetch(a), Instruction::Fetch(b)) => a == b,
            (Instruction::Push(a), Instruction::Push(b)) => a == b,
            _ => false,
        }
    }
}

impl vstd::std_specs::cmp::PartialEqSpecImpl for Instruction<'_> {
    open spec fn obeys_eq_spec() -> bool {
        true
    }

    open spec fn eq_spec(&self, other: &Self) -> bool {
        self@ == other@
    }
}

/// Settles a comparison by `first`, and by `second` where `first` is a tie.
fn settle(first: Ordering, second: Ordering) -> (o: Ordering)
    ensures
        o == and_then(first, second),
{
    match first {
        Ordering::Equal => second,
        _ => first,
    }
}

/// How one fetch instruction stands to another.
fn compare_fetch(a: &Fetch<'_>, b: &Fetch<'_>) -> (o: Ordering)
    ensures
        o == a@.order(b@),
{
    match (*a, *b) {
        (Fetch::Only { src: x }, Fetch::Only { src: y }) => compare_bytes(x, y),
        (Fetch::Only { .. }, _) => Ordering::Less,
        (_, Fetch::Only { .. }) => Ordering::Greater,
        (
            Fetch::AndUpdate { src: s1, dst: d1, allow_non_fast_forward: f1 },
            Fetch::AndUpdate { src: s2, dst: d2, allow_non_fast_forward: f2 },
        ) => settle(compare_bytes(s1, s2), settle(compare_bytes(d1, d2), compare_flags(f1, f2))),
        (Fetch::AndUpdate { .. }, _) => Ordering::Less,
        (_, Fetch::AndUpdate { .. }) => Ordering::Greater,
        (Fetch::Exclude { src: x }, Fetch::Exclude { src: y }) => compare_bytes(x, y),
    }
}

/// How one push instruction stands to another.
fn compare_push(a: &Push<'_>, b: &Push<'_>) -> (o: Ordering)
    ensures
        o == a@.order(b@),
{
    match (*a, *b) {
        (
            Push::Matching { src: s1, dst: d1, allow_non_fast_forward: f1 },
            Push::Matching { src: s2, dst: d2, allow_non_fast_forward: f2 },
        ) => settle(compare_bytes(s1, s2), settle(compare_bytes(d1, d2), compare_flags(f1, f2))),
        (Push::Matching { .. }, _) => Ordering::Less,
        (_, Push::Matching { .. }) => Ordering::Greater,
        (Push::Delete { ref_or_pattern: x }, Push::Delete { ref_or_pattern: y }) => {
            compare_bytes(x, y)
        },
        (Push::Delete { .. }, _) => Ordering::Less,
        (_, Push::Delete { .. }) => Ordering::Greater,
        (
            Push::AllMatchingBranches { allow_non_fast_forward: f1 },
            Push::AllMatchingBranches { allow_non_fast_forward: f2 },
        ) => compare_flags(f1, f2),
    }
}

/// How one instruction stands to another.
pub(crate) fn compare_instructions(a: &Instruction<'_>, b: &Instruction<'_>) -> (o: Ordering)
    ensures
        o == a@.order(b@),
{
    match (*a, *b) {
        (Instruction::Fetch(x), Instruction::Fetch(y)) => compare_fetch(&x, &y),
        (Instruction::Fetch(_), Instruction::Push(_)) => Ordering::Less,
        (Instruction::Push(_), Instruction::Fetch(_)) => Ordering::Greater,
        (Instruction::Push(x), Instruction::Push(y)) => compare_push(&x, &y),
    }
}

impl PartialOrd for Fetch<'_> {
    /// Fetch instructions are ordered by variant, then by their fields.
    fn partial_cmp(&self, other: &Self) -> (o: Option<Ordering>) {
        Some(compare_fetch(self, other))
    }
}

impl vstd::std_specs::cmp::PartialOrdSpecImpl for Fetch<'_> {
    open spec fn obeys_partial_cmp_spec() -> bool {
        true
    }

    open spec fn partial_cmp_spec(&self, other: &Self) -> Option<Ordering> {
        Some(self@.order(other@))
    }
}

impl PartialOrd for Push<'_> {
    /// Push instructions are ordered by variant, then by their fields.
    fn partial_cmp(&self, other: &Self) -> (o: Option<Ordering>) {
        Some(compare_push(self, other))
    }
}

impl vstd::std_specs::cmp::PartialOrdSpecImpl for Push<'_> {
    open spec fn obeys_partial_cmp_spec() -> bool {
        true
    }

    open spec fn partial_cmp_spec(&self, other: &Self) -> Option<Ordering> {
        Some(self@.order(other@))
    }
}

impl PartialOrd for Instruction<'_> {
    /// Fetch instructions come before push instructions.
    fn partial_cmp(&self, other: &Self) -> (o: Option<Ordering>) {
        Some(compare_instructions(self, other))
    }
}

impl vstd::std_specs::cmp::PartialOrdSpecImpl for Instruction<'_> {
    open spec fn obeys_partial_cmp_spec() -> bool {
        true
    }

    open spec fn partial_cmp_spec(&self, other: &Self) -> Option<Ordering> {
        Some(self@.order(other@))
    }
}

} // verus!

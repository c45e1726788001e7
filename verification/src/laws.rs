//! What holds of every refspec: how its sides relate, that copying keeps
//! its meaning, and that equality and order behave as such.

use std::cmp::Ordering;
use vstd::prelude::*;
use vstd::std_specs::cmp::PartialEqSpec;
use vstd::std_specs::cmp::PartialOrdSpec;

use crate::instruction::FetchModel;
use crate::instruction::InstructionModel;
use crate::instruction::PushModel;
use crate::order::flipped;
use crate::order::lemma_lex_order_equal;
use crate::order::lemma_lex_order_flipped;
use crate::order::lemma_lex_order_transitive;
use crate::order::lex_order;
use crate::refspec::prefix_of;
use crate::refspec::RefSpec;
use crate::refspec::RefSpecModel;
use crate::refspec::RefSpecRef;
use crate::refspec::REFS;
use crate::refspec::SEPARATOR;
use crate::refspec::WILDCARD;
use crate::types::Mode;
use crate::types::Operation;

verus! {

/// Where `a` is not after `b` and `b` is not after `c`, `a` is not after
/// `c`, and is the same as `c` only where all three are the same.
proof fn lemma_lex_order_chain(a: Seq<u8>, b: Seq<u8>, c: Seq<u8>)
    requires
        lex_order(a, b) != Ordering::Greater,
        lex_order(b, c) != Ordering::Greater,
    ensures
        lex_order(a, c) != Ordering::Greater,
        lex_order(a, c) == Ordering::Equal ==> a == b && b == c,
{
    lemma_lex_order_equal(a, b);
    lemma_lex_order_equal(b, c);
    lemma_lex_order_equal(a, c);
    if lex_order(a, b) == Ordering::Less && lex_order(b, c) == Ordering::Less {
        lemma_lex_order_transitive(a, b, c);
    }
}

/// Two fetch instructions compare as equal exactly when they are the same.
pub proof fn lemma_fetch_order_equal(a: FetchModel, b: FetchModel)
    ensures
        a.order(b) == Ordering::Equal <==> a == b,
{
    match (a, b) {
        (FetchModel::Only { src: x }, FetchModel::Only { src: y }) => {
            lemma_lex_order_equal(x, y);
        },
        (
            FetchModel::AndUpdate { src: s1, dst: d1, .. },
            FetchModel::AndUpdate { src: s2, dst: d2, .. },
        ) => {
            lemma_lex_order_equal(s1, s2);
            lemma_lex_order_equal(d1, d2);
        },
        (FetchModel::Exclude { src: x }, FetchModel::Exclude { src: y }) => {
            lemma_lex_order_equal(x, y);
        },
        _ => {},
    }
}

/// Exchanging two fetch instructions reverses how they compare.
pub proof fn lemma_fetch_order_flipped(a: FetchModel, b: FetchModel)
    ensures
        b.order(a) == flipped(a.order(b)),
{
    match (a, b) {
        (FetchModel::Only { src: x }, FetchModel::Only { src: y }) => {
            lemma_lex_order_flipped(x, y);
        },
        (
            FetchModel::AndUpdate { src: s1, dst: d1, .. },
            FetchModel::AndUpdate { src: s2, dst: d2, .. },
        ) => {
            lemma_lex_order_flipped(s1, s2);
            lemma_lex_order_flipped(d1, d2);
        },
        (FetchModel::Exclude { src: x }, FetchModel::Exclude { src: y }) => {
            lemma_lex_order_flipped(x, y);
        },
        _ => {},
    }
}

/// The order of fetch instructions is transitive.
pub proof fn lemma_fetch_order_transitive(a: FetchModel, b: FetchModel, c: FetchModel)
    requires
        a.order(b) == Ordering::Less,
        b.order(c) == Ordering::Less,
    ensures
        a.order(c) == Ordering::Less,
{
    match (a, b, c) {
        (
            FetchModel::Only { src: x },
            FetchModel::Only { src: y },
            FetchModel::Only { src: z },
        ) => {
            lemma_lex_order_transitive(x, y, z);
        },
        (
            FetchModel::AndUpdate { src: s1, dst: d1, .. },
            FetchModel::AndUpdate { src: s2, dst: d2, .. },
            FetchModel::AndUpdate { src: s3, dst: d3, .. },
        ) => {
            lemma_lex_order_chain(s1, s2, s3);
            if lex_order(s1, s3) == Ordering::Equal {
                lemma_lex_order_chain(d1, d2, d3);
            }
        },
        (
            FetchModel::Exclude { src: x },
            FetchModel::Exclude { src: y },
            FetchModel::Exclude { src: z },
        ) => {
            lemma_lex_order_transitive(x, y, z);
        },
        _ => {},
    }
}

/// Two push instructions compare as equal exactly when they are the same.
pub proof fn lemma_push_order_equal(a: PushModel, b: PushModel)
    ensures
        a.order(b) == Ordering::Equal <==> a == b,
{
    match (a, b) {
        (
            PushModel::Matching { src: s1, dst: d1, .. },
            PushModel::Matching { src: s2, dst: d2, .. },
        ) => {
            lemma_lex_order_equal(s1, s2);
            lemma_lex_order_equal(d1, d2);
        },
        (PushModel::Delete { ref_or_pattern: x }, PushModel::Delete { ref_or_pattern: y }) => {
            lemma_lex_order_equal(x, y);
        },
        _ => {},
    }
}

/// Exchanging two push instructions reverses how they compare.
pub proof fn lemma_push_order_flipped(a: PushModel, b: PushModel)
    ensures
        b.order(a) == flipped(a.order(b)),
{
    match (a, b) {
        (
            PushModel::Matching { src: s1, dst: d1, .. },
            PushModel::Matching { src: s2, dst: d2, .. },
        ) => {
            lemma_lex_order_flipped(s1, s2);
            lemma_lex_order_flipped(d1, d2);
        },
        (PushModel::Delete { ref_or_pattern: x }, PushModel::Delete { ref_or_pattern: y }) => {
            lemma_lex_order_flipped(x, y);
        },
        _ => {},
    }
}

/// The order of push instructions is transitive.
pub proof fn lemma_push_order_transitive(a: PushModel, b: PushModel, c: PushModel)
    requires
        a.order(b) == Ordering::Less,
        b.order(c) == Ordering::Less,
    ensures
        a.order(c) == Ordering::Less,
{
    match (a, b, c) {
        (
            PushModel::Matching { src: s1, dst: d1, .. },
            PushModel::Matching { src: s2, dst: d2, .. },
            PushModel::Matching { src: s3, dst: d3, .. },
        ) => {
            lemma_lex_order_chain(s1, s2, s3);
            if lex_order(s1, s3) == Ordering::Equal {
                lemma_lex_order_chain(d1, d2, d3);
            }
        },
        (
            PushModel::Delete { ref_or_pattern: x },
            PushModel::Delete { ref_or_pattern: y },
            PushModel::Delete { ref_or_pattern: z },
        ) => {
            lemma_lex_order_transitive(x, y, z);
        },
        _ => {},
    }
}

/// Two instructions compare as equal exactly when they are the same.
pub proof fn lemma_instruction_order_equal(a: InstructionModel, b: InstructionModel)
    ensures
        a.order(b) == Ordering::Equal <==> a == b,
{
    match (a, b) {
        (InstructionModel::Fetch(x), InstructionModel::Fetch(y)) => {
            lemma_fetch_order_equal(x, y);
        },
        (InstructionModel::Push(x), InstructionModel::Push(y)) => {
            lemma_push_order_equal(x, y);
        },
        _ => {},
    }
}

/// Exchanging two instructions reverses how they compare.
pub proof fn lemma_instruction_order_flipped(a: InstructionModel, b: InstructionModel)
    ensures
        b.order(a) == flipped(a.order(b)),
{
    match (a, b) {
        (InstructionModel::Fetch(x), InstructionModel::Fetch(y)) => {
            lemma_fetch_order_flipped(x, y);
        },
        (InstructionModel::Push(x), InstructionModel::Push(y)) => {
            lemma_push_order_flipped(x, y);
        },
        _ => {},
    }
}

/// The order of instructions is transitive.
pub proof fn lemma_instruction_order_transitive(
    a: InstructionModel,
    b: InstructionModel,
    c: InstructionModel,
)
    requires
        a.order(b) == Ordering::Less,
        b.order(c) == Ordering::Less,
    ensures
        a.order(c) == Ordering::Less,
{
    match (a, b, c) {
        (InstructionModel::Fetch(x), InstructionModel::Fetch(y), InstructionModel::Fetch(z)) => {
            lemma_fetch_order_transitive(x, y, z);
        },
        (InstructionModel::Push(x), InstructionModel::Push(y), InstructionModel::Push(z)) => {
            lemma_push_order_transitive(x, y, z);
        },
        _ => {},
    }
}

/// The remote and the local side of a refspec are its source and its
/// destination: in this order for a fetch, exchanged for a push.
pub proof fn lemma_sides_are_source_and_destination(spec: RefSpecModel)
    ensures
        spec.op == Operation::Fetch ==> spec.remote() == spec.src && spec.local() == spec.dst,
        spec.op == Operation::Push ==> spec.remote() == spec.dst && spec.local() == spec.src,
{
}

/// A prefix is a leading part of its source. It begins with `refs/`, ends
/// with the first `/` after that and so has two segments, and holds no `*`.
pub proof fn lemma_prefix_shape(source: Seq<u8>)
    ensures
        match prefix_of(source) {
            Some(prefix) => {
                &&& prefix.is_prefix_of(source)
                &&& REFS@.is_prefix_of(prefix)
                &&& prefix.len() > REFS@.len()
                &&& prefix.last() == SEPARATOR
                &&& forall|i: int| REFS@.len() <= i < prefix.len() - 1 ==> prefix[i] != SEPARATOR
                &&& !prefix.contains(WILDCARD)
            },
            None => true,
        },
{
    if let Some(prefix) = prefix_of(source) {
        let marker = REFS@.len() as int;
        let rest = source.skip(marker);
        rest.index_of_first_ensures(SEPARATOR);
        let at = rest.index_of_first(SEPARATOR).unwrap();
        assert(prefix =~= source.subrange(0, prefix.len() as int));
        assert(REFS@ =~= prefix.subrange(0, marker));
        assert(prefix.last() == rest[at]);
        assert forall|i: int| marker <= i < prefix.len() - 1 implies prefix[i] != SEPARATOR by {
            assert(prefix[i] == rest[i - marker]);
        }
    }
}

/// A source has a prefix exactly when it begins with `refs/`, a `/` follows
/// after that, and no `*` stands before that `/`.
pub proof fn lemma_prefix_exists(source: Seq<u8>)
    ensures
        prefix_of(source) is Some <==> {
            &&& REFS@.is_prefix_of(source)
            &&& exists|end: int|
                {
                    &&& REFS@.len() <= end < source.len()
                    &&& source[end] == SEPARATOR
                    &&& forall|i: int| 0 <= i < end ==> source[i] != WILDCARD
                }
        },
{
    if REFS@.is_prefix_of(source) {
        let marker = REFS@.len() as int;
        let rest = source.skip(marker);
        rest.index_of_first_ensures(SEPARATOR);
        assert forall|i: int| 0 <= i < marker implies source[i] != WILDCARD by {
            assert(source[i] == source.subrange(0, marker)[i]);
        }
        match rest.index_of_first(SEPARATOR) {
            Some(at) => {
                let prefix = source.subrange(0, marker + at + 1);
                if prefix.contains(WILDCARD) {
                    let w = choose|w: int| 0 <= w < prefix.len() && prefix[w] == WILDCARD;
                    assert(source[w] == WILDCARD);
                    assert forall|end: int|
                        marker <= end < source.len() && source[end] == SEPARATOR implies !(forall|
                        i: int,
                    | 0 <= i < end ==> source[i] != WILDCARD) by {
                        assert(rest[end - marker] == SEPARATOR);
                        assert(w < end);
                    }
                } else {
                    let end = marker + at;
                    assert(source[end] == rest[at]);
                    assert forall|i: int| 0 <= i < end implies source[i] != WILDCARD by {
                        assert(prefix[i] == source[i]);
                    }
                }
            },
            None => {
                assert forall|end: int| marker <= end < source.len() implies source[end]
                    != SEPARATOR by {
                    assert(rest[end - marker] == source[end]);
                }
            },
        }
    }
}

/// A refspec that was copied into an owned one and borrowed back from it
/// amounts to the instruction it amounted to before, byte for byte.
pub proof fn lemma_round_trip_keeps_instruction(
    borrowed: RefSpecRef<'_>,
    owned: RefSpec,
    back: RefSpecRef<'_>,
)
    requires
        owned@ == borrowed@,
        back@ == owned@,
    ensures
        back@.instruction() == borrowed@.instruction(),
        back.eq_spec(&borrowed),
{
}

/// Equality of refspecs is reflexive, symmetric and transitive.
pub proof fn lemma_equality_is_an_equivalence(
    a: RefSpecRef<'_>,
    b: RefSpecRef<'_>,
    c: RefSpecRef<'_>,
)
    ensures
        a.eq_spec(&a),
        a.eq_spec(&b) ==> b.eq_spec(&a),
        a.eq_spec(&b) && b.eq_spec(&c) ==> a.eq_spec(&c),
{
}

/// Two refspecs are equal exactly when they amount to the same
/// instruction, whatever their parts are.
pub proof fn lemma_equal_by_instruction(a: RefSpecRef<'_>, b: RefSpecRef<'_>)
    ensures
        a.eq_spec(&b) <==> a@.instruction() == b@.instruction(),
{
}

/// A push of a source under its own name equals the push of that source to
/// a destination of the same name, though the parts of the two differ.
pub proof fn lemma_push_by_name_equals_push_to_same_name(
    by_name: RefSpecRef<'_>,
    explicit: RefSpecRef<'_>,
)
    requires
        by_name@.op == Operation::Push,
        explicit@.op == Operation::Push,
        by_name@.mode != Mode::Negative,
        explicit@.mode == by_name@.mode,
        by_name@.src is Some,
        by_name@.dst is None,
        explicit@.src == by_name@.src,
        explicit@.dst == by_name@.src,
    ensures
        by_name@ != explicit@,
        by_name.eq_spec(&explicit),
{
}

/// Any two refspecs are ordered, and as equal exactly when they are equal.
pub proof fn lemma_order_is_total(a: RefSpecRef<'_>, b: RefSpecRef<'_>)
    requires
        a@.is_valid(),
        b@.is_valid(),
    ensures
        a.partial_cmp_spec(&b) is Some,
        a.partial_cmp_spec(&b) == Some(Ordering::Equal) <==> a.eq_spec(&b),
{
    lemma_instruction_order_equal(a@.instruction().unwrap(), b@.instruction().unwrap());
}

/// No refspec comes before itself, and of two refspecs at most one comes
/// before the other: exchanging them reverses how they compare.
pub proof fn lemma_order_is_antisymmetric(a: RefSpecRef<'_>, b: RefSpecRef<'_>)
    requires
        a@.is_valid(),
        b@.is_valid(),
    ensures
        a.partial_cmp_spec(&a) == Some(Ordering::Equal),
        b.partial_cmp_spec(&a) == Some(flipped(a.partial_cmp_spec(&b).unwrap())),
{
    lemma_instruction_order_equal(a@.instruction().unwrap(), a@.instruction().unwrap());
    lemma_instruction_order_flipped(a@.instruction().unwrap(), b@.instruction().unwrap());
}

/// The order of refspecs is transitive.
pub proof fn lemma_order_is_transitive(a: RefSpecRef<'_>, b: RefSpecRef<'_>, c: RefSpecRef<'_>)
    requires
        a.partial_cmp_spec(&b) == Some(Ordering::Less),
        b.partial_cmp_spec(&c) == Some(Ordering::Less),
    ensures
        a.partial_cmp_spec(&c) == Some(Ordering::Less),
{
    lemma_instruction_order_transitive(
        a@.instruction().unwrap(),
        b@.instruction().unwrap(),
        c@.instruction().unwrap(),
    );
}

/// Owned refspecs are equal and ordered as the refspecs they were copied
/// from.
pub proof fn lemma_owned_compares_as_borrowed(
    a: RefSpecRef<'_>,
    b: RefSpecRef<'_>,
    owned_a: RefSpec,
    owned_b: RefSpec,
)
    requires
        owned_a@ == a@,
        owned_b@ == b@,
    ensures
        owned_a.eq_spec(&owned_b) == a.eq_spec(&b),
        owned_a.partial_cmp_spec(&owned_b) == a.partial_cmp_spec(&b),
{
}

} // verus!

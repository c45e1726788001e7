//! The refspec itself, borrowed and owned, and what follows from its parts.

use bstr::BStr;
use bstr::BString;
use vstd::prelude::*;
use vstd::slice::slice_subrange;

use crate::bytes::as_bytes;
use crate::bytes::borrow_owned;
use crate::bytes::find_byte;
use crate::bytes::opt_bytes;
use crate::bytes::opt_owned_bytes;
use crate::bytes::to_owned_bytes;
use crate::bytes::up_to_inclusive;
use crate::instruction::Fetch;
use crate::instruction::FetchModel;
use crate::instruction::Instruction;
use crate::instruction::InstructionModel;
use crate::instruction::Push;
use crate::instruction::PushModel;
use crate::types::Mode;
use crate::types::Operation;

verus! {

/// The namespace marker `refs/` that a source must begin with to have a
/// prefix.
pub const REFS: [u8; 5] = [0x72, 0x65, 0x66, 0x73, 0x2f];

/// The byte `/`, which parts the segments of a reference name.
pub const SEPARATOR: u8 = 0x2f;

/// The byte `*`, which marks a pattern.
pub const WILDCARD: u8 = 0x2a;

/// The prefix of a source: its leading part up to and including the first
/// `/` after the marker `refs/`, such as `refs/heads/`. There is none where
/// the source does not begin with the marker, where no `/` follows the
/// marker, or where that leading part holds a `*`.
pub open spec fn prefix_of(source: Seq<u8>) -> Option<Seq<u8>> {
    if REFS@.is_prefix_of(source) {
        let marker = REFS@.len() as int;
        match source.skip(marker).index_of_first(SEPARATOR) {
            Some(at) => {
                let prefix = source.subrange(0, marker + at + 1);
                if prefix.contains(WILDCARD) {
                    None
                } else {
                    Some(prefix)
                }
            },
            None => None,
        }
    } else {
        None
    }
}

/// A refspec with its byte strings written out.
pub struct RefSpecModel {
    pub mode: Mode,
    pub op: Operation,
    pub src: Option<Seq<u8>>,
    pub dst: Option<Seq<u8>>,
}

impl RefSpecModel {
    /// The instruction that the parts amount to, or `None` where no refspec
    /// has such parts: a fetch needs a source, an exclusion has no
    /// destination, and a push cannot be negative.
    pub open spec fn instruction(self) -> Option<InstructionModel> {
        match self.op {
            Operation::Fetch => match (self.mode, self.src, self.dst) {
                (Mode::Normal | Mode::Force, Some(src), None) => Some(
                    InstructionModel::Fetch(FetchModel::Only { src }),
                ),
                (Mode::Normal | Mode::Force, Some(src), Some(dst)) => Some(
                    InstructionModel::Fetch(
                        FetchModel::AndUpdate {
                            src,
                            dst,
                            allow_non_fast_forward: self.mode == Mode::Force,
                        },
                    ),
                ),
                (Mode::Negative, Some(src), None) => Some(
                    InstructionModel::Fetch(FetchModel::Exclude { src }),
                ),
                _ => None,
            },
            Operation::Push => match (self.mode, self.src, self.dst) {
                (Mode::Normal | Mode::Force, Some(src), None) => Some(
                    InstructionModel::Push(
                        PushModel::Matching {
                            src,
                            dst: src,
                            allow_non_fast_forward: self.mode == Mode::Force,
                        },
                    ),
                ),
                (Mode::Normal | Mode::Force, None, Some(dst)) => Some(
                    InstructionModel::Push(PushModel::Delete { ref_or_pattern: dst }),
                ),
                (Mode::Normal | Mode::Force, None, None) => Some(
                    InstructionModel::Push(
                        PushModel::AllMatchingBranches {
                            allow_non_fast_forward: self.mode == Mode::Force,
                        },
                    ),
                ),
                (Mode::Normal | Mode::Force, Some(src), Some(dst)) => Some(
                    InstructionModel::Push(
                        PushModel::Matching {
                            src,
                            dst,
                            allow_non_fast_forward: self.mode == Mode::Force,
                        },
                    ),
                ),
                _ => None,
            },
        }
    }

    /// Whether the parts are those of a refspec.
    pub open spec fn is_valid(self) -> bool {
        self.instruction() is Some
    }

    /// The side that names a reference of the remote.
    pub open spec fn remote(self) -> Option<Seq<u8>> {
        match self.op {
            Operation::Push => self.dst,
            Operation::Fetch => self.src,
        }
    }

    /// The side that names a reference of the local repository.
    pub open spec fn local(self) -> Option<Seq<u8>> {
        match self.op {
            Operation::Push => self.src,
            Operation::Fetch => self.dst,
        }
    }

    /// The prefix of the source, where there is a source and it has one.
    pub open spec fn prefix(self) -> Option<Seq<u8>> {
        match self.src {
            Some(source) => prefix_of(source),
            None => None,
        }
    }
}

/// Parts that no refspec has, as they were offered to [`RefSpecRef::new`].
#[derive(Clone, Copy, Debug, PartialEq, Eq, Structural)]
pub struct InvalidParts {
    /// The operation that was offered.
    pub op: Operation,
    /// The mode that was offered.
    pub mode: Mode,
    /// Whether a source was offered.
    pub has_source: bool,
    /// Whether a destination was offered.
    pub has_destination: bool,
}

/// A refspec whose two sides are borrowed.
#[derive(Clone, Copy, Debug, Eq)]
pub struct RefSpecRef<'a> {
    mode: Mode,
    op: Operation,
    src: Option<&'a BStr>,
    dst: Option<&'a BStr>,
}

/// A refspec that owns its two sides.
#[derive(Debug, Eq)]
pub struct RefSpec {
    mode: Mode,
    op: Operation,
    src: Option<BString>,
    dst: Option<BString>,
}

impl View for RefSpecRef<'_> {
    type V = RefSpecModel;

    closed spec fn view(&self) -> RefSpecModel {
        RefSpecModel {
            mode: self.mode,
            op: self.op,
            src: opt_bytes(self.src),
            dst: opt_bytes(self.dst),
        }
    }
}

impl View for RefSpec {
    type V = RefSpecModel;

    closed spec fn view(&self) -> RefSpecModel {
        RefSpecModel {
            mode: self.mode,
            op: self.op,
            src: opt_owned_bytes(self.src),
            dst: opt_owned_bytes(self.dst),
        }
    }
}

/// Whether `bytes` begin with `refs/`.
fn starts_with_refs(bytes: &[u8]) -> (yes: bool)
    ensures
        yes == REFS@.is_prefix_of(bytes@),
{
    if bytes.len() < REFS.len() {
        return false;
    }
    let mut i: usize = 0;
    while i < REFS.len()
        invariant
            i <= REFS@.len() <= bytes@.len(),
            forall|k: int| 0 <= k < i ==> bytes@[k] == REFS@[k],
        decreases REFS@.len() - i,
    {
        if bytes[i] != REFS[i] {
            assert(bytes@.subrange(0, REFS@.len() as int)[i as int] != REFS@[i as int]);
            return false;
        }
        i += 1;
    }
    assert(REFS@ =~= bytes@.subrange(0, REFS@.len() as int));
    true
}

/// Whether `byte` occurs in `bytes`.
fn contains_byte(bytes: &[u8], byte: u8) -> (yes: bool)
    ensures
        yes == bytes@.contains(byte),
{
    let mut i: usize = 0;
    while i < bytes.len()
        invariant
            i <= bytes.len(),
            forall|k: int| 0 <= k < i ==> bytes@[k] != byte,
        decreases bytes.len() - i,
    {
        if bytes[i] == byte {
            return true;
        }
        i += 1;
    }
    false
}

impl<'a> RefSpecRef<'a> {
    #[verifier::type_invariant]
    spec fn well_formed(self) -> bool {
        self@.is_valid()
    }

    /// Makes a refspec of its four parts, where they are the parts of a
    /// refspec, and otherwise says which parts were offered.
    pub fn new(
        op: Operation,
        mode: Mode,
        src: Option<&'a BStr>,
        dst: Option<&'a BStr>,
    ) -> (made: Result<RefSpecRef<'a>, InvalidParts>)
        ensures
            match made {
                Ok(spec) => {
                    &&& spec@ == (RefSpecModel { mode, op, src: opt_bytes(src), dst: opt_bytes(dst) })
                    &&& spec@.is_valid()
                },
                Err(parts) => {
                    &&& !(RefSpecModel { mode, op, src: opt_bytes(src), dst: opt_bytes(dst) }).is_valid()
                    &&& parts == (InvalidParts {
                        op,
                        mode,
                        has_source: src is Some,
                        has_destination: dst is Some,
                    })
                },
            },
    {
        let valid = match op {
            Operation::Fetch => match mode {
                Mode::Normal | Mode::Force => src.is_some(),
                Mode::Negative => src.is_some() && dst.is_none(),
            },
            Operation::Push => match mode {
                Mode::Normal | Mode::Force => true,
                Mode::Negative => false,
            },
        };
        if valid {
            Ok(RefSpecRef { mode, op, src, dst })
        } else {
            Err(InvalidParts { op, mode, has_source: src.is_some(), has_destination: dst.is_some() })
        }
    }

    /// The left-hand side, which is what to take. It may be a pattern or
    /// another way to name a commit, not only a reference name.
    ///
    /// A push that deletes has none.
    pub fn source(&self) -> (side: Option<&'a BStr>)
        ensures
            opt_bytes(side) == self@.src,
    {
        self.src
    }

    /// The right-hand side, which is what to update. It may be a pattern.
    ///
    /// A refspec that names only its source has none.
    pub fn destination(&self) -> (side: Option<&'a BStr>)
        ensures
            opt_bytes(side) == self@.dst,
    {
        self.dst
    }

    /// The side that names a reference of the remote: the source of a
    /// fetch, the destination of a push.
    pub fn remote(&self) -> (side: Option<&'a BStr>)
        ensures
            opt_bytes(side) == self@.remote(),
    {
        match self.op {
            Operation::Push => self.dst,
            Operation::Fetch => self.src,
        }
    }

    /// The side that names a reference of the local repository: the
    /// destination of a fetch, the source of a push.
    pub fn local(&self) -> (side: Option<&'a BStr>)
        ensures
            opt_bytes(side) == self@.local(),
    {
        match self.op {
            Operation::Push => self.src,
            Operation::Fetch => self.dst,
        }
    }

    /// The namespace that the source lies in, such as `refs/heads/`, for
    /// sorting refspecs roughly without matching patterns. See
    /// [`prefix_of`] for when a source has one.
    pub fn prefix(&self) -> (prefix: Option<&'a BStr>)
        ensures
            opt_bytes(prefix) == self@.prefix(),
    {
        let source = match self.source() {
            Some(source) => source,
            None => return None,
        };
        let bytes = as_bytes(source);
        if !starts_with_refs(bytes) {
            return None;
        }
        let suffix = slice_subrange(bytes, REFS.len(), bytes.len());
        proof {
            assert(suffix@ =~= bytes@.skip(REFS@.len() as int));
            suffix@.index_of_first_ensures(SEPARATOR);
        }
        let slash_pos = match find_byte(suffix, SEPARATOR) {
            Some(at) => at,
            None => {
                return None;
            },
        };
        let prefix = up_to_inclusive(source, REFS.len() + slash_pos);
        if contains_byte(as_bytes(prefix), WILDCARD) {
            None
        } else {
            Some(prefix)
        }
    }

    /// What the refspec asks for. Every refspec asks for exactly one thing;
    /// which one follows from the operation, the mode and the sides that
    /// are present.
    pub fn instruction(&self) -> (instruction: Instruction<'a>)
        ensures
            Some(instruction@) == self@.instruction(),
    {
        proof {
            use_type_invariant(self);
        }
        let force = match self.mode {
            Mode::Force => true,
            _ => false,
        };
        match self.op {
            Operation::Fetch => match (self.mode, self.src, self.dst) {
                (Mode::Normal | Mode::Force, Some(src), None) => Instruction::Fetch(
                    Fetch::Only { src },
                ),
                (Mode::Normal | Mode::Force, Some(src), Some(dst)) => Instruction::Fetch(
                    Fetch::AndUpdate { src, dst, allow_non_fast_forward: force },
                ),
                (Mode::Negative, Some(src), None) => Instruction::Fetch(Fetch::Exclude { src }),
                _ => unreached(),
            },
            Operation::Push => match (self.mode, self.src, self.dst) {
                (Mode::Normal | Mode::Force, Some(src), None) => Instruction::Push(
                    Push::Matching { src, dst: src, allow_non_fast_forward: force },
                ),
                (Mode::Normal | Mode::Force, None, Some(dst)) => Instruction::Push(
                    Push::Delete { ref_or_pattern: dst },
                ),
                (Mode::Normal | Mode::Force, None, None) => Instruction::Push(
                    Push::AllMatchingBranches { allow_non_fast_forward: force },
                ),
                (Mode::Normal | Mode::Force, Some(src), Some(dst)) => Instruction::Push(
                    Push::Matching { src, dst, allow_non_fast_forward: force },
                ),
                _ => unreached(),
            },
        }
    }

    /// A copy that owns its two sides and so outlives what `self` borrows.
    pub fn to_owned(&self) -> (owned: RefSpec)
        ensures
            owned@ == self@,
    {
        proof {
            use_type_invariant(self);
        }
        RefSpec {
            mode: self.mode,
            op: self.op,
            src: match self.src {
                Some(s) => Some(to_owned_bytes(s)),
                None => None,
            },
            dst: match self.dst {
                Some(s) => Some(to_owned_bytes(s)),
                None => None,
            },
        }
    }
}

impl RefSpec {
    #[verifier::type_invariant]
    spec fn well_formed(self) -> bool {
        self@.is_valid()
    }

    /// The same refspec, borrowing its two sides from `self`.
    pub fn to_ref(&self) -> (borrowed: RefSpecRef<'_>)
        ensures
            borrowed@ == self@,
    {
        proof {
            use_type_invariant(self);
        }
        RefSpecRef {
            mode: self.mode,
            op: self.op,
            src: match &self.src {
                Some(s) => Some(borrow_owned(s)),
                None => None,
            },
            dst: match &self.dst {
                Some(s) => Some(borrow_owned(s)),
                None => None,
            },
        }
    }
}

impl From<RefSpecRef<'_>> for RefSpec {
    /// The owned copy of `borrowed`.
    fn from(borrowed: RefSpecRef<'_>) -> (owned: RefSpec)
        ensures
            owned@ == borrowed@,
    {
        borrowed.to_owned()
    }
}

impl vstd::std_specs::convert::FromSpecImpl<RefSpecRef<'_>> for RefSpec {
    open spec fn obeys_from_spec() -> bool {
        false
    }

    open spec fn from_spec(borrowed: RefSpecRef<'_>) -> RefSpec {
        arbitrary()
    }
}

impl Clone for RefSpec {
    /// A copy that owns its own bytes.
    fn clone(&self) -> (copy: RefSpec)
        ensures
            copy@ == self@,
    {
        self.to_ref().to_owned()
    }
}

} // verus!

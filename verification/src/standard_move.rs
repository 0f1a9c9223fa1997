//! Moves on a standard 8x8 board, as the downstream collaborator of the
//! parser sees them: a candidate move between two square indices, the
//! wrapper marking a candidate as validated, and the errors a validation
//! can produce.

use vstd::prelude::*;

verus! {

/// A square on a standard 8x8 board, numbered 0 through 63.
#[derive(Debug, PartialEq, Eq, Clone, Copy)]
pub struct StandardIndex {
    index: u8,
}

impl StandardIndex {
    /// The number of the square.
    pub closed spec fn spec_index(self) -> int {
        self.index as int
    }

    /// Well-formed: the square is on the 64-square board. Every value
    /// built by [`StandardIndex::new`] satisfies this.
    pub closed spec fn is_valid(self) -> bool {
        self.index < 64
    }

    /// Builds the index of the given square, or none when the number
    /// does not name a square of the 8x8 board.
    pub fn new(index: u8) -> (r: Option<StandardIndex>)
        ensures
            index < 64 ==> (r matches Some(ix) && ix.spec_index() == index as int
                && ix.is_valid()),
            index >= 64 ==> r is None,
    {
        if index < 64 {
            Some(StandardIndex { index })
        } else {
            None
        }
    }

    /// The number of the square, as a value.
    pub fn get(self) -> (r: u8)
        ensures
            r as int == self.spec_index(),
    {
        self.index
    }
}

/// Represents a possible move on a standard board, including illegal
/// moves: the parser's downstream collaborator builds one from a source
/// and a target square, and only validation against a position tells a
/// legal move from an illegal one.
#[derive(Debug, PartialEq, Eq, Clone, Copy)]
pub struct StandardMove {
    pub source: StandardIndex,
    pub target: StandardIndex,
}

impl From<(StandardIndex, StandardIndex)> for StandardMove {
    fn from(value: (StandardIndex, StandardIndex)) -> (r: StandardMove) {
        StandardMove { source: value.0, target: value.1 }
    }
}

impl vstd::std_specs::convert::FromSpecImpl<(StandardIndex, StandardIndex)> for StandardMove {
    open spec fn obeys_from_spec() -> bool {
        true
    }

    open spec fn from_spec(value: (StandardIndex, StandardIndex)) -> StandardMove {
        StandardMove { source: value.0, target: value.1 }
    }
}

/// Represents a move on a standard board that has been confirmed to be
/// legal by a validating board.
#[derive(Debug, PartialEq, Eq, Clone, Copy)]
pub struct LegalStandardMove(pub StandardMove);

/// Results when a [`StandardMove`] cannot be confirmed as a
/// [`LegalStandardMove`].
#[derive(Debug, PartialEq, Eq, Clone, Copy)]
pub enum IllegalStandardMoveError {
    /// The move is illegal because the friendly king is in check.
    Check(StandardMove),
    /// The move has an invalid source index.
    InvalidSource(StandardIndex),
    /// The move has an invalid target index.
    InvalidTarget(StandardIndex),
}

} // verus!

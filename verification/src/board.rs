//! Traits for the downstream collaborators that resolve a parsed
//! [`San`](crate::san::San) value against a concrete board position.
//!
//! The parser itself never validates chess legality: it guarantees only
//! that the `San` it returns is internally well-formed. Whether the move
//! can actually be played is decided by an implementation of these
//! traits, which is outside the parser's scope.

use vstd::prelude::*;

verus! {

/// Represents a static view into a single board position, with no notion
/// of moves or move legality.
///
/// For a notion of legality see [`Validate`]. For a notion of moves
/// acting on state, see [`Process`].
pub trait Board {
    /// Represents a specific place on the board.
    type Index;

    /// Represents the pieces which may be on the board.
    type Piece;

    /// Returns the piece at the given index by reference if it exists,
    /// otherwise returns none.
    fn get_piece_at(&self, index: Self::Index) -> Option<&Self::Piece>;
}

/// Represents a board which can validate candidate moves.
pub trait Validate: Board {
    /// Represents a move which may or may not be legal.
    type Move;

    /// Represents a move which has been confirmed to be legal.
    type LegalMove;

    /// The error created when move validation fails.
    type ValidationError;

    /// Validates the given candidate move based on the current state of
    /// self.
    fn validate(&self, candidate: Self::Move) -> Result<
        Self::LegalMove,
        Self::ValidationError,
    >;
}

/// Represents a board which can process validated moves.
pub trait Process: Validate + Sized {
    /// Updates the board state with the given legal move and returns
    /// the new state.
    ///
    /// The only valid source for the candidate move is [`Validate`]'s
    /// `validate` method; in general prefer `validate_and_process` for
    /// updating the board's state with a single candidate move.
    fn process(&self, candidate: Self::LegalMove) -> Self;

    /// First validates the given candidate move, and then either returns
    /// the validation error or uses the legal move to update the
    /// board state and returns it.
    fn validate_and_process(&self, candidate: Self::Move) -> Result<
        Self,
        Self::ValidationError,
    > {
        match self.validate(candidate) {
            Ok(legal_move) => Ok(self.process(legal_move)),
            Err(e) => Err(e),
        }
    }
}

} // verus!

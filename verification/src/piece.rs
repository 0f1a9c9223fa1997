//! The kinds of piece that can appear in a SAN literal.

use vstd::prelude::*;

verus! {

/// The kind of a chess piece on a standard board.
///
/// A SAN literal names a piece kind in two places: the leading letter of
/// a normal (non-pawn) move, and the letter after `=` in a promotion
/// suffix. Pawn moves carry no leading letter, so `Pawn` itself is never
/// decoded from a literal; it exists for the downstream board
/// collaborator that resolves parsed moves.
#[derive(Debug, PartialEq, Eq, Clone, Copy)]
pub enum StandardPieceKind {
    Pawn,
    Rook,
    Knight,
    Bishop,
    Queen,
    King,
}

} // verus!

//! A parser for the family of textual chess-move notations known as
//! Standard Algebraic Notation (SAN).
//!
//! SAN is not one fixed grammar but a set of loosely compatible
//! conventions. This library accepts the union of the common variants
//! (castling written as `0-0`/`O-O`, several capture glyphs, abbreviated
//! pawn captures, disambiguation fields, promotion suffixes, and
//! check/checkmate/annotation suffixes) and normalizes each literal into
//! one unambiguous [`san::San`] value, without any knowledge of a board
//! position. Legality against a position is the concern of a downstream
//! consumer, reached through the traits in [`board`].

pub mod board;
pub mod laws;
pub mod parser;
pub mod piece;
pub mod san;
pub mod standard_move;

//! The data model for parsed SAN literals and the error taxonomy.
//!
//! A [`San`] value is produced only by a successful parse of a complete
//! literal (see [`crate::parser`]); it is immutable and carries no
//! relationship to any board position, so equality is purely structural.

use crate::piece::StandardPieceKind;
use vstd::prelude::*;

verus! {

/// The error returned when attempting to parse an invalid SAN literal.
///
/// The set is closed: every failure of the parser is one of these kinds,
/// carrying the offending character or substring where applicable.
#[derive(Debug, PartialEq, Eq)]
pub enum ParseError {
    /// The leading character of the literal belongs to no move shape.
    InvalidLeadingPiece(char),
    /// The mandatory target square field is invalid; carries the
    /// remaining input from the point where a target square was expected.
    InvalidTargetSquare(String),
    /// The optional capture field is invalid.
    InvalidCaptureField(char),
    /// The optional disambiguation field is invalid.
    InvalidDisambiguationField(String),
    /// The optional annotation suffix field is invalid.
    InvalidAnnotationSuffixField(String),
    /// The optional en passant suffix is invalid.
    InvalidEnPassantSuffix(String),
    /// The optional check field is invalid.
    InvalidCheckField(char),
    /// The optional checkmate field is invalid.
    InvalidCheckmateField(char),
    /// A promotion glyph `=` was not followed by one of `R`, `N`, `B`,
    /// `Q`; carries the input remaining after the `=`. This failure is
    /// terminal: no other move shape is retried after `=` is seen.
    InvalidPromotionField(String),
    /// The literal starts like a castle (`0` or `O`) but matches neither
    /// `0-0`/`O-O` nor `0-0-0`/`O-O-O`; carries the whole literal.
    InvalidCastlingField(String),
    /// The literal is shorter than 2 or longer than 12 characters;
    /// carries the character count.
    InvalidLiteralLength(usize),
    /// A structurally valid literal was followed by extra characters;
    /// carries the unconsumed remainder.
    TrailingGarbage(String),
    /// No more specific error kind applies.
    Unknown,
}

/// The mathematical counterpart of [`ParseError`]: the same taxonomy with
/// each text payload as a `Seq<char>`. Contracts state which error a
/// parse returns in terms of this type, through the [`View`] impl below.
pub enum SpecParseError {
    InvalidLeadingPiece(char),
    InvalidTargetSquare(Seq<char>),
    InvalidCaptureField(char),
    InvalidDisambiguationField(Seq<char>),
    InvalidAnnotationSuffixField(Seq<char>),
    InvalidEnPassantSuffix(Seq<char>),
    InvalidCheckField(char),
    InvalidCheckmateField(char),
    InvalidPromotionField(Seq<char>),
    InvalidCastlingField(Seq<char>),
    InvalidLiteralLength(nat),
    TrailingGarbage(Seq<char>),
    Unknown,
}

impl View for ParseError {
    type V = SpecParseError;

    open spec fn view(&self) -> SpecParseError {
        match self {
            ParseError::InvalidLeadingPiece(c) => SpecParseError::InvalidLeadingPiece(*c),
            ParseError::InvalidTargetSquare(t) => SpecParseError::InvalidTargetSquare(t@),
            ParseError::InvalidCaptureField(c) => SpecParseError::InvalidCaptureField(*c),
            ParseError::InvalidDisambiguationField(t) => SpecParseError::InvalidDisambiguationField(
                t@,
            ),
            ParseError::InvalidAnnotationSuffixField(t) => SpecParseError::InvalidAnnotationSuffixField(
                t@,
            ),
            ParseError::InvalidEnPassantSuffix(t) => SpecParseError::InvalidEnPassantSuffix(t@),
            ParseError::InvalidCheckField(c) => SpecParseError::InvalidCheckField(*c),
            ParseError::InvalidCheckmateField(c) => SpecParseError::InvalidCheckmateField(*c),
            ParseError::InvalidPromotionField(t) => SpecParseError::InvalidPromotionField(t@),
            ParseError::InvalidCastlingField(t) => SpecParseError::InvalidCastlingField(t@),
            ParseError::InvalidLiteralLength(n) => SpecParseError::InvalidLiteralLength(*n as nat),
            ParseError::TrailingGarbage(t) => SpecParseError::TrailingGarbage(t@),
            ParseError::Unknown => SpecParseError::Unknown,
        }
    }
}

/// Represents the data derived from parsing a valid SAN literal.
///
/// Parsing is provided by [`San::try_from`].
#[derive(Debug, PartialEq, Eq, Clone, Copy)]
pub struct San {
    /// The move-shape payload: exactly one of the four shapes.
    pub data: SanData,
    /// True if a bare check glyph `+` was present.
    pub is_check: bool,
    /// True if a checkmate glyph `#` was present. Independent of
    /// `is_check`: a literal may carry neither, either, or both.
    pub is_checkmate: bool,
    /// The optional qualitative suffix built from `!` and `?` glyphs.
    pub annotation: Option<SuffixAnnotation>,
}

/// The distinct kinds of move conveyed by a SAN literal.
///
/// A SAN literal conveys a move which may or may not be valid in the
/// context of a given board position; this type stores exactly the data
/// conveyed by the literal, and a board collaborator is needed to resolve
/// it into a concrete move.
#[derive(Debug, PartialEq, Eq, Clone, Copy)]
pub enum SanData {
    AbbreviatedPawnMove(AbbreviatedPawnMove),
    CastleMove(CastleMove),
    NormalMove(NormalMove),
    PawnMove(PawnMove),
}

/// A SAN literal denoting a castling move.
///
/// Castle moves are entirely described by their direction, and are
/// written `0-0` (kingside) or `0-0-0` (queenside), with `O` accepted in
/// place of `0`. The common check/checkmate/annotation suffixes may still
/// follow a castle literal.
#[derive(Debug, PartialEq, Eq, Clone, Copy)]
pub enum CastleMove {
    QueenSide,
    KingSide,
}

/// A SAN literal denoting a normal (non-pawn) move.
///
/// Normal moves are always preceded by a capital letter naming the piece,
/// since the absence of such a letter indicates a pawn move. The letter
/// is followed by an optional disambiguation field, an optional capture
/// glyph, and a mandatory target square.
#[derive(Debug, PartialEq, Eq, Clone, Copy)]
pub struct NormalMove {
    pub piece: StandardPieceKind,
    pub disambiguation_field: Option<DisambiguationField>,
    pub target: (char, char),
    pub is_capture: bool,
}

/// A SAN literal denoting a plain pawn move.
///
/// A pawn move is a normal move with no leading letter, which permits an
/// additional promotion component. `capture_rank` is the source file
/// letter and is populated only when `is_capture` is true.
#[derive(Debug, PartialEq, Eq, Clone, Copy)]
pub struct PawnMove {
    pub target: (char, char),
    pub is_capture: bool,
    pub capture_rank: Option<char>,
    pub promotion_piece: Option<StandardPieceKind>,
}

/// A SAN literal denoting an abbreviated pawn move.
///
/// Abbreviated pawn moves are hugely contextual; they list just the
/// source and target files, with a capture glyph in between if necessary.
/// Despite their names, `source_rank` and `target_rank` hold file
/// letters: the elliptical notation omits rank information entirely.
#[derive(Debug, PartialEq, Eq, Clone, Copy)]
pub struct AbbreviatedPawnMove {
    pub source_rank: char,
    pub target_rank: char,
    pub is_capture: bool,
    pub promotion_piece: Option<StandardPieceKind>,
}

/// The optional field used to tell potentially ambiguous moves apart:
/// a file letter, a rank digit, or a full source square.
#[derive(Debug, PartialEq, Eq, Clone, Copy)]
pub enum DisambiguationField {
    FileLetter(char),
    RankDigit(char),
    SourceSquare((char, char)),
}

/// The traditional suffix annotation describing the qualitative aspects
/// of a move.
///
/// Here the word bang corresponds to the exclamation mark (`!`) and the
/// word hook corresponds to the question mark (`?`).
#[derive(Debug, PartialEq, Eq, Clone, Copy)]
pub enum SuffixAnnotation {
    /// `!`: a good move.
    Bang,
    /// `?`: a mistake.
    Hook,
    /// `!!`: a brilliant move.
    BangBang,
    /// `!?`: an interesting move of ambiguous value.
    BangHook,
    /// `?!`: a dubious move of potentially negative value.
    HookBang,
    /// `??`: a blunder.
    HookHook,
}

} // verus!

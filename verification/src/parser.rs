//! The SAN grammar: field recognizers, move-shape recognizers, and the
//! top-level driver.
//!
//! The grammar is stated twice. The `spec_` functions define it
//! mathematically over a `Seq<char>`: each field recognizer gives the
//! decoded value of a field at a position, each move-shape recognizer
//! gives the shape recognized at the start of the input, and
//! [`spec_san_result`] gives the outcome of a whole parse, error kind
//! included. The executable functions carry contracts tying them to
//! those definitions, so a caller knows the exact result of every parse.
//!
//! The driver tries the four move shapes in a fixed priority order:
//! castle, abbreviated pawn move, pawn move, normal move. The first
//! shape to match wins and is never revisited: leftover input after the
//! optional check/checkmate/annotation tail is trailing garbage, not a
//! reason to retry another shape. The one hard commit point is the
//! promotion glyph `=`: once it is seen, a missing or invalid promotion
//! piece aborts the whole parse.

use crate::piece::StandardPieceKind;
use crate::san::{
    AbbreviatedPawnMove, CastleMove, DisambiguationField, NormalMove, ParseError, PawnMove, San,
    SanData, SpecParseError, SuffixAnnotation,
};
use vstd::prelude::*;
use vstd::string::StrSliceExecFns;

verus! {

/// The outcome of trying one move shape against the start of the input:
/// the shape matched and consumed a prefix, the shape is not present (and
/// the next alternative may be tried), or the parse is aborted by the
/// promotion commit point and no alternative may be tried.
pub enum ShapeParse {
    Recognized(int, SanData),
    NoShape,
    Aborted(SpecParseError),
}

/// Tells a missing promotion field (no `=` at the position, so the move
/// simply carries no promotion) apart from a malformed one (`=` present
/// but not followed by a valid piece letter, which aborts the parse).
#[derive(Debug, PartialEq, Eq, Clone, Copy)]
pub enum PromotionFieldError {
    MissingEq,
    InvalidPiece,
}

// ---------------------------------------------------------------------
// Character alphabets
// ---------------------------------------------------------------------

/// The file letters `a`-`h`.
pub open spec fn is_file_char(c: char) -> bool {
    c == 'a' || c == 'b' || c == 'c' || c == 'd' || c == 'e' || c == 'f' || c == 'g' || c == 'h'
}

/// The rank digits `1`-`8`.
pub open spec fn is_rank_char(c: char) -> bool {
    c == '1' || c == '2' || c == '3' || c == '4' || c == '5' || c == '6' || c == '7' || c == '8'
}

/// The leading letters of a normal move: `K`, `Q`, `B`, `N`, `R`.
pub open spec fn is_piece_char(c: char) -> bool {
    c == 'K' || c == 'Q' || c == 'B' || c == 'N' || c == 'R'
}

/// The letters accepted after a promotion glyph: `R`, `N`, `B`, `Q`.
pub open spec fn is_promotion_piece_char(c: char) -> bool {
    c == 'R' || c == 'N' || c == 'B' || c == 'Q'
}

/// The capture glyphs `x`, `X`, `\u{00d7}` (the multiplication sign) and `:`.
pub open spec fn is_capture_char(c: char) -> bool {
    c == 'x' || c == 'X' || c == '\u{00d7}' || c == ':'
}

/// The annotation glyphs `!` and `?`.
pub open spec fn is_annotation_char(c: char) -> bool {
    c == '!' || c == '?'
}

/// The piece kind named by a piece or promotion letter.
pub open spec fn piece_of_char(c: char) -> StandardPieceKind
    recommends
        is_piece_char(c) || is_promotion_piece_char(c),
{
    if c == 'K' {
        StandardPieceKind::King
    } else if c == 'Q' {
        StandardPieceKind::Queen
    } else if c == 'B' {
        StandardPieceKind::Bishop
    } else if c == 'N' {
        StandardPieceKind::Knight
    } else {
        StandardPieceKind::Rook
    }
}

// ---------------------------------------------------------------------
// Field recognizers: the grammar in spec form
// ---------------------------------------------------------------------

/// A file letter at position `i`, consuming one character.
pub open spec fn spec_file(s: Seq<char>, i: int) -> Option<char> {
    if 0 <= i < s.len() && is_file_char(s[i]) {
        Some(s[i])
    } else {
        None
    }
}

/// A rank digit at position `i`, consuming one character.
pub open spec fn spec_rank(s: Seq<char>, i: int) -> Option<char> {
    if 0 <= i < s.len() && is_rank_char(s[i]) {
        Some(s[i])
    } else {
        None
    }
}

/// A piece letter at position `i`, consuming one character.
pub open spec fn spec_piece(s: Seq<char>, i: int) -> Option<StandardPieceKind> {
    if 0 <= i < s.len() && is_piece_char(s[i]) {
        Some(piece_of_char(s[i]))
    } else {
        None
    }
}

/// A capture glyph at position `i`, consuming one character.
pub open spec fn spec_capture(s: Seq<char>, i: int) -> Option<char> {
    if 0 <= i < s.len() && is_capture_char(s[i]) {
        Some(s[i])
    } else {
        None
    }
}

/// A target square at position `i`: a file letter then a rank digit,
/// consuming two characters.
pub open spec fn spec_target(s: Seq<char>, i: int) -> Option<(char, char)> {
    match (spec_file(s, i), spec_rank(s, i + 1)) {
        (Some(f), Some(r)) => Some((f, r)),
        _ => None,
    }
}

/// A check glyph `+` at position `i`.
pub open spec fn spec_check(s: Seq<char>, i: int) -> bool {
    0 <= i < s.len() && s[i] == '+'
}

/// A checkmate glyph `#` at position `i`.
pub open spec fn spec_checkmate(s: Seq<char>, i: int) -> bool {
    0 <= i < s.len() && s[i] == '#'
}

/// The disambiguation field at position `i`: an optional file letter,
/// then an optional rank digit. Gives the number of characters consumed
/// (zero, one or two) and the decoded field.
pub open spec fn spec_disambiguation(s: Seq<char>, i: int) -> (int, Option<DisambiguationField>) {
    let f = spec_file(s, i);
    let j = if f is Some {
        i + 1
    } else {
        i
    };
    match (f, spec_rank(s, j)) {
        (Some(fc), Some(rc)) => (2int, Some(DisambiguationField::SourceSquare((fc, rc)))),
        (Some(fc), None) => (1int, Some(DisambiguationField::FileLetter(fc))),
        (None, Some(rc)) => (1int, Some(DisambiguationField::RankDigit(rc))),
        (None, None) => (0int, None),
    }
}

/// The promotion field at position `i`: the glyph `=` followed by a
/// promotion piece letter, consuming two characters when it succeeds.
/// `Err(MissingEq)` means the field is absent; `Err(InvalidPiece)` means
/// `=` was seen without a valid piece letter after it, which commits the
/// whole parse to failure.
pub open spec fn spec_promotion(s: Seq<char>, i: int) -> Result<
    StandardPieceKind,
    PromotionFieldError,
> {
    if !(0 <= i < s.len() && s[i] == '=') {
        Err(PromotionFieldError::MissingEq)
    } else if i + 1 < s.len() && is_promotion_piece_char(s[i + 1]) {
        Ok(piece_of_char(s[i + 1]))
    } else {
        Err(PromotionFieldError::InvalidPiece)
    }
}

/// The check/checkmate tail at position `i`: either glyph, both in
/// either order, or neither. Gives the position after the consumed
/// glyphs and the two flags; the flags depend only on which glyphs are
/// present, not on their order.
pub open spec fn spec_flags(s: Seq<char>, i: int) -> (int, bool, bool) {
    if spec_check(s, i) {
        if spec_checkmate(s, i + 1) {
            (i + 2, true, true)
        } else {
            (i + 1, true, false)
        }
    } else if spec_checkmate(s, i) {
        if spec_check(s, i + 1) {
            (i + 2, true, true)
        } else {
            (i + 1, false, true)
        }
    } else {
        (i, false, false)
    }
}

/// An annotation glyph at position `i`, consuming one character.
pub open spec fn spec_annotation_char(s: Seq<char>, i: int) -> Option<char> {
    if 0 <= i < s.len() && is_annotation_char(s[i]) {
        Some(s[i])
    } else {
        None
    }
}

/// The annotation decoded from a single glyph.
pub open spec fn annotation_of_one(a: char) -> SuffixAnnotation
    recommends
        is_annotation_char(a),
{
    if a == '!' {
        SuffixAnnotation::Bang
    } else {
        SuffixAnnotation::Hook
    }
}

/// The annotation decoded from two glyphs.
pub open spec fn annotation_of_two(a: char, b: char) -> SuffixAnnotation
    recommends
        is_annotation_char(a) && is_annotation_char(b),
{
    if a == '!' && b == '!' {
        SuffixAnnotation::BangBang
    } else if a == '!' && b == '?' {
        SuffixAnnotation::BangHook
    } else if a == '?' && b == '!' {
        SuffixAnnotation::HookBang
    } else {
        SuffixAnnotation::HookHook
    }
}

/// The annotation suffix at position `i`: zero, one or two of `!`/`?`,
/// consumed greedily. Gives the number of characters consumed (never
/// more than two) and the decoded annotation.
pub open spec fn spec_annotation(s: Seq<char>, i: int) -> (int, Option<SuffixAnnotation>) {
    match spec_annotation_char(s, i) {
        None => (0int, None),
        Some(a) => match spec_annotation_char(s, i + 1) {
            None => (1int, Some(annotation_of_one(a))),
            Some(b) => (2int, Some(annotation_of_two(a, b))),
        },
    }
}

// ---------------------------------------------------------------------
// Move-shape recognizers in spec form
// ---------------------------------------------------------------------

/// True if the first five characters spell a queenside castle,
/// `O-O-O` or `0-0-0` (the two glyph styles are not mixed).
pub open spec fn is_queenside_castle(s: Seq<char>) -> bool {
    s.len() >= 5 && ((s[0] == 'O' && s[1] == '-' && s[2] == 'O' && s[3] == '-' && s[4] == 'O') || (
    s[0] == '0' && s[1] == '-' && s[2] == '0' && s[3] == '-' && s[4] == '0'))
}

/// True if the first three characters spell a kingside castle,
/// `O-O` or `0-0`.
pub open spec fn is_kingside_castle(s: Seq<char>) -> bool {
    s.len() >= 3 && ((s[0] == 'O' && s[1] == '-' && s[2] == 'O') || (s[0] == '0' && s[1] == '-'
        && s[2] == '0'))
}

/// The castle shape at the start of the input. The longer queenside
/// form is tried before the kingside form, so a queenside literal is
/// never cut short by an early kingside match.
pub open spec fn spec_castle(s: Seq<char>) -> ShapeParse {
    if is_queenside_castle(s) {
        ShapeParse::Recognized(5, SanData::CastleMove(CastleMove::QueenSide))
    } else if is_kingside_castle(s) {
        ShapeParse::Recognized(3, SanData::CastleMove(CastleMove::KingSide))
    } else {
        ShapeParse::NoShape
    }
}

/// The abbreviated pawn move shape at the start of the input: a file
/// letter, an optional capture glyph, a file letter, and an optional
/// promotion field.
pub open spec fn spec_abbreviated_pawn_move(s: Seq<char>) -> ShapeParse {
    match spec_file(s, 0) {
        None => ShapeParse::NoShape,
        Some(src) => {
            let cap = spec_capture(s, 1) is Some;
            let p = if cap {
                2int
            } else {
                1int
            };
            match spec_file(s, p) {
                None => ShapeParse::NoShape,
                Some(tgt) => {
                    let q = p + 1;
                    match spec_promotion(s, q) {
                        Ok(k) => ShapeParse::Recognized(
                            q + 2,
                            SanData::AbbreviatedPawnMove(
                                AbbreviatedPawnMove {
                                    source_rank: src,
                                    target_rank: tgt,
                                    is_capture: cap,
                                    promotion_piece: Some(k),
                                },
                            ),
                        ),
                        Err(PromotionFieldError::MissingEq) => ShapeParse::Recognized(
                            q,
                            SanData::AbbreviatedPawnMove(
                                AbbreviatedPawnMove {
                                    source_rank: src,
                                    target_rank: tgt,
                                    is_capture: cap,
                                    promotion_piece: None,
                                },
                            ),
                        ),
                        Err(PromotionFieldError::InvalidPiece) => ShapeParse::Aborted(
                            SpecParseError::InvalidPromotionField(
                                s.subrange(q + 1, s.len() as int),
                            ),
                        ),
                    }
                },
            }
        },
    }
}

/// The pawn move shape at the start of the input: an optional pair of a
/// file letter and a capture glyph, a target square, and an optional
/// promotion field.
pub open spec fn spec_pawn_move(s: Seq<char>) -> ShapeParse {
    let has_fc = spec_file(s, 0) is Some && spec_capture(s, 1) is Some;
    let p = if has_fc {
        2int
    } else {
        0int
    };
    match spec_target(s, p) {
        None => ShapeParse::NoShape,
        Some(tgt) => {
            let q = p + 2;
            match spec_promotion(s, q) {
                Ok(k) => ShapeParse::Recognized(
                    q + 2,
                    SanData::PawnMove(
                        PawnMove {
                            target: tgt,
                            is_capture: has_fc,
                            capture_rank: if has_fc {
                                Some(s[0])
                            } else {
                                None
                            },
                            promotion_piece: Some(k),
                        },
                    ),
                ),
                Err(PromotionFieldError::MissingEq) => ShapeParse::Recognized(
                    q,
                    SanData::PawnMove(
                        PawnMove {
                            target: tgt,
                            is_capture: has_fc,
                            capture_rank: if has_fc {
                                Some(s[0])
                            } else {
                                None
                            },
                            promotion_piece: None,
                        },
                    ),
                ),
                Err(PromotionFieldError::InvalidPiece) => ShapeParse::Aborted(
                    SpecParseError::InvalidPromotionField(s.subrange(q + 1, s.len() as int)),
                ),
            }
        },
    }
}

/// The normal (piece) move shape at the start of the input: a piece
/// letter, a greedily optional disambiguation field, an optional capture
/// glyph, and a target square.
pub open spec fn spec_normal_move(s: Seq<char>) -> ShapeParse {
    match spec_piece(s, 0) {
        None => ShapeParse::NoShape,
        Some(k) => {
            let d = spec_disambiguation(s, 1);
            let p = 1 + d.0;
            let cap = spec_capture(s, p) is Some;
            let p2 = if cap {
                p + 1
            } else {
                p
            };
            match spec_target(s, p2) {
                None => ShapeParse::NoShape,
                Some(tgt) => ShapeParse::Recognized(
                    p2 + 2,
                    SanData::NormalMove(
                        NormalMove {
                            piece: k,
                            disambiguation_field: d.1,
                            target: tgt,
                            is_capture: cap,
                        },
                    ),
                ),
            }
        },
    }
}

/// The four move shapes tried in the driver's fixed priority order:
/// castle, abbreviated pawn move, pawn move, normal move. The first
/// shape to match wins; an abort by the promotion commit point stops the
/// alternation outright.
pub open spec fn spec_shape(s: Seq<char>) -> ShapeParse {
    match spec_castle(s) {
        ShapeParse::NoShape => match spec_abbreviated_pawn_move(s) {
            ShapeParse::NoShape => match spec_pawn_move(s) {
                ShapeParse::NoShape => spec_normal_move(s),
                o => o,
            },
            o => o,
        },
        o => o,
    }
}

/// The error reported when no move shape matches: the most specific kind
/// the leading character allows. A castle-style lead (`O`/`0`) that is
/// no castle is an invalid castling field; a file or piece letter lead
/// that reaches no target square is an invalid target square, carrying
/// the input from the position where the target was expected; any other
/// lead is an invalid leading piece.
pub open spec fn spec_no_shape_error(s: Seq<char>) -> SpecParseError
    recommends
        s.len() >= 1,
{
    if s[0] == 'O' || s[0] == '0' {
        SpecParseError::InvalidCastlingField(s)
    } else if is_file_char(s[0]) {
        let p = if spec_capture(s, 1) is Some {
            2int
        } else {
            0int
        };
        SpecParseError::InvalidTargetSquare(s.subrange(p, s.len() as int))
    } else if is_piece_char(s[0]) {
        let d = spec_disambiguation(s, 1);
        let p = 1 + d.0;
        let p2 = if spec_capture(s, p) is Some {
            p + 1
        } else {
            p
        };
        SpecParseError::InvalidTargetSquare(s.subrange(p2, s.len() as int))
    } else {
        SpecParseError::InvalidLeadingPiece(s[0])
    }
}

/// The outcome of parsing a whole literal: the exact `San` value on
/// success, and the exact error kind on failure. A literal shorter than
/// 2 or longer than 12 characters is rejected before structural parsing;
/// otherwise the matched shape is followed by the optional check and
/// checkmate glyphs and the optional annotation suffix, and the whole
/// input must have been consumed.
pub open spec fn spec_san_result(s: Seq<char>) -> Result<San, SpecParseError> {
    if s.len() < 2 || s.len() > 12 {
        Err(SpecParseError::InvalidLiteralLength(s.len()))
    } else {
        match spec_shape(s) {
            ShapeParse::Aborted(e) => Err(e),
            ShapeParse::NoShape => Err(spec_no_shape_error(s)),
            ShapeParse::Recognized(p, data) => {
                let f = spec_flags(s, p);
                let a = spec_annotation(s, f.0);
                let end = f.0 + a.0;
                if end == s.len() {
                    Ok(
                        San {
                            data,
                            is_check: f.1,
                            is_checkmate: f.2,
                            annotation: a.1,
                        },
                    )
                } else {
                    Err(SpecParseError::TrailingGarbage(s.subrange(end, s.len() as int)))
                }
            },
        }
    }
}

// ---------------------------------------------------------------------
// Executable field recognizers
// ---------------------------------------------------------------------

/// Parses a single file character of the form `[abcdefgh]` at position `i`.
pub fn file(s: &str, i: usize) -> (r: Option<char>)
    ensures
        r == spec_file(s@, i as int),
{
    if i < s.unicode_len() {
        let c = s.get_char(i);
        if c == 'a' || c == 'b' || c == 'c' || c == 'd' || c == 'e' || c == 'f' || c == 'g' || c
            == 'h' {
            Some(c)
        } else {
            None
        }
    } else {
        None
    }
}

/// Parses a single rank digit of the form `[12345678]` at position `i`.
pub fn rank_digit(s: &str, i: usize) -> (r: Option<char>)
    ensures
        r == spec_rank(s@, i as int),
{
    if i < s.unicode_len() {
        let c = s.get_char(i);
        if c == '1' || c == '2' || c == '3' || c == '4' || c == '5' || c == '6' || c == '7' || c
            == '8' {
            Some(c)
        } else {
            None
        }
    } else {
        None
    }
}

/// Parses a piece of the form `[KQBNR]` at position `i`.
pub fn piece(s: &str, i: usize) -> (r: Option<StandardPieceKind>)
    ensures
        r == spec_piece(s@, i as int),
{
    if i < s.unicode_len() {
        let c = s.get_char(i);
        if c == 'K' {
            Some(StandardPieceKind::King)
        } else if c == 'Q' {
            Some(StandardPieceKind::Queen)
        } else if c == 'B' {
            Some(StandardPieceKind::Bishop)
        } else if c == 'N' {
            Some(StandardPieceKind::Knight)
        } else if c == 'R' {
            Some(StandardPieceKind::Rook)
        } else {
            None
        }
    } else {
        None
    }
}

/// Parses a single capture glyph of the form `[xX\u{00d7}:]` at position `i`.
pub fn capture(s: &str, i: usize) -> (r: Option<char>)
    ensures
        r == spec_capture(s@, i as int),
{
    if i < s.unicode_len() {
        let c = s.get_char(i);
        if c == 'x' || c == 'X' || c == '\u{00d7}' || c == ':' {
            Some(c)
        } else {
            None
        }
    } else {
        None
    }
}

/// Parses a target square of the form `[abcdefgh][12345678]` at position `i`.
pub fn target(s: &str, i: usize) -> (r: Option<(char, char)>)
    ensures
        r == spec_target(s@, i as int),
{
    // The length call bounds the view's length by usize::MAX, which the
    // position arithmetic below needs.
    let _len: usize = s.unicode_len();
    match file(s, i) {
        None => None,
        Some(f) => match rank_digit(s, i + 1) {
            None => None,
            Some(rk) => Some((f, rk)),
        },
    }
}

/// Parses the check glyph `+` at position `i` and returns true if it
/// finds it.
pub fn check(s: &str, i: usize) -> (r: bool)
    ensures
        r == spec_check(s@, i as int),
{
    i < s.unicode_len() && s.get_char(i) == '+'
}

/// Parses the checkmate glyph `#` at position `i` and returns true if it
/// finds it.
pub fn checkmate(s: &str, i: usize) -> (r: bool)
    ensures
        r == spec_checkmate(s@, i as int),
{
    i < s.unicode_len() && s.get_char(i) == '#'
}

/// Parses a disambiguation field of the form `[abcdefgh]?[12345678]?` at
/// position `i`, returning the number of characters consumed and the
/// decoded field.
pub fn disambiguation_field(s: &str, i: usize) -> (r: (usize, Option<DisambiguationField>))
    ensures
        r.0 as int == spec_disambiguation(s@, i as int).0,
        r.1 == spec_disambiguation(s@, i as int).1,
        r.0 <= 2,
        i as int + r.0 as int <= s@.len() || r.0 == 0,
{
    // The length call bounds the view's length by usize::MAX, which the
    // position arithmetic below needs.
    let _len: usize = s.unicode_len();
    let f = file(s, i);
    let j: usize = if f.is_some() {
        i + 1
    } else {
        i
    };
    let rk = rank_digit(s, j);
    match (f, rk) {
        (Some(fc), Some(rc)) => (2, Some(DisambiguationField::SourceSquare((fc, rc)))),
        (Some(fc), None) => (1, Some(DisambiguationField::FileLetter(fc))),
        (None, Some(rc)) => (1, Some(DisambiguationField::RankDigit(rc))),
        (None, None) => (0, None),
    }
}

/// Parses the `=[RNBQ]` promotion segment at position `i`.
///
/// `Err(MissingEq)` is recoverable: the move simply has no promotion
/// field. `Err(InvalidPiece)` means the `=` glyph was present without a
/// valid piece letter after it; the callers turn that into the terminal
/// `InvalidPromotionField` failure.
pub fn promotion(s: &str, i: usize) -> (r: Result<StandardPieceKind, PromotionFieldError>)
    ensures
        r == spec_promotion(s@, i as int),
{
    let n = s.unicode_len();
    if !(i < n && s.get_char(i) == '=') {
        Err(PromotionFieldError::MissingEq)
    } else if i + 1 < n {
        let c = s.get_char(i + 1);
        if c == 'R' {
            Ok(StandardPieceKind::Rook)
        } else if c == 'N' {
            Ok(StandardPieceKind::Knight)
        } else if c == 'B' {
            Ok(StandardPieceKind::Bishop)
        } else if c == 'Q' {
            Ok(StandardPieceKind::Queen)
        } else {
            Err(PromotionFieldError::InvalidPiece)
        }
    } else {
        Err(PromotionFieldError::InvalidPiece)
    }
}

/// Parses the annotation suffix `[?!]?[?!]?` at position `i`, returning
/// the number of characters consumed (at most two) and the decoded
/// annotation.
pub fn annotation(s: &str, i: usize) -> (r: (usize, Option<SuffixAnnotation>))
    ensures
        r.0 as int == spec_annotation(s@, i as int).0,
        r.1 == spec_annotation(s@, i as int).1,
        r.0 <= 2,
        i as int + r.0 as int <= s@.len() || r.0 == 0,
{
    let n = s.unicode_len();
    if i < n && (s.get_char(i) == '!' || s.get_char(i) == '?') {
        let a = s.get_char(i);
        if i + 1 < n && (s.get_char(i + 1) == '!' || s.get_char(i + 1) == '?') {
            let b = s.get_char(i + 1);
            let ann = if a == '!' && b == '!' {
                SuffixAnnotation::BangBang
            } else if a == '!' && b == '?' {
                SuffixAnnotation::BangHook
            } else if a == '?' && b == '!' {
                SuffixAnnotation::HookBang
            } else {
                SuffixAnnotation::HookHook
            };
            (2, Some(ann))
        } else {
            let ann = if a == '!' {
                SuffixAnnotation::Bang
            } else {
                SuffixAnnotation::Hook
            };
            (1, Some(ann))
        }
    } else {
        (0, None)
    }
}

// ---------------------------------------------------------------------
// Executable move-shape recognizers
// ---------------------------------------------------------------------

/// Parses a castle move of the form `[0O]-[0O](-[0O])?` at the start of
/// the input, trying the longer queenside form first.
pub fn castle_move(s: &str) -> (r: Option<(usize, SanData)>)
    ensures
        (r matches Some((p, d)) ==> spec_castle(s@) == ShapeParse::Recognized(p as int, d) && p
            <= s@.len()),
        (r is None ==> spec_castle(s@) is NoShape),
{
    let n = s.unicode_len();
    if n >= 5 {
        let c0 = s.get_char(0);
        let c1 = s.get_char(1);
        let c2 = s.get_char(2);
        let c3 = s.get_char(3);
        let c4 = s.get_char(4);
        if (c0 == 'O' && c1 == '-' && c2 == 'O' && c3 == '-' && c4 == 'O') || (c0 == '0' && c1
            == '-' && c2 == '0' && c3 == '-' && c4 == '0') {
            return Some((5, SanData::CastleMove(CastleMove::QueenSide)));
        }
    }
    if n >= 3 {
        let c0 = s.get_char(0);
        let c1 = s.get_char(1);
        let c2 = s.get_char(2);
        if (c0 == 'O' && c1 == '-' && c2 == 'O') || (c0 == '0' && c1 == '-' && c2 == '0') {
            return Some((3, SanData::CastleMove(CastleMove::KingSide)));
        }
    }
    None
}

/// Parses an abbreviated pawn move of the form
/// `[abcdefgh][capture]?[abcdefgh][promotion]?` at the start of the
/// input. An `Err` is the terminal promotion-commit failure.
pub fn abbreviated_pawn_move(s: &str) -> (r: Result<Option<(usize, SanData)>, ParseError>)
    ensures
        (r matches Ok(Some((p, d))) ==> spec_abbreviated_pawn_move(s@) == ShapeParse::Recognized(
            p as int,
            d,
        ) && p <= s@.len()),
        (r matches Ok(None) ==> spec_abbreviated_pawn_move(s@) is NoShape),
        (r matches Err(e) ==> spec_abbreviated_pawn_move(s@) matches ShapeParse::Aborted(se) && e@
            == se),
{
    let n = s.unicode_len();
    let src = match file(s, 0) {
        Some(c) => c,
        None => {
            return Ok(None);
        },
    };
    let is_cap = capture(s, 1).is_some();
    let p: usize = if is_cap {
        2
    } else {
        1
    };
    let tgt = match file(s, p) {
        Some(c) => c,
        None => {
            return Ok(None);
        },
    };
    let q: usize = p + 1;
    match promotion(s, q) {
        Ok(k) => Ok(
            Some(
                (
                    q + 2,
                    SanData::AbbreviatedPawnMove(
                        AbbreviatedPawnMove {
                            source_rank: src,
                            target_rank: tgt,
                            is_capture: is_cap,
                            promotion_piece: Some(k),
                        },
                    ),
                ),
            ),
        ),
        Err(PromotionFieldError::MissingEq) => Ok(
            Some(
                (
                    q,
                    SanData::AbbreviatedPawnMove(
                        AbbreviatedPawnMove {
                            source_rank: src,
                            target_rank: tgt,
                            is_capture: is_cap,
                            promotion_piece: None,
                        },
                    ),
                ),
            ),
        ),
        Err(PromotionFieldError::InvalidPiece) => Err(
            ParseError::InvalidPromotionField(s.substring_char(q + 1, n).to_owned()),
        ),
    }
}

/// Parses a pawn move of the form `([abcdefgh][capture])?(target)(promotion)?`
/// at the start of the input. An `Err` is the terminal promotion-commit
/// failure.
pub fn pawn_move(s: &str) -> (r: Result<Option<(usize, SanData)>, ParseError>)
    ensures
        (r matches Ok(Some((p, d))) ==> spec_pawn_move(s@) == ShapeParse::Recognized(p as int, d)
            && p <= s@.len()),
        (r matches Ok(None) ==> spec_pawn_move(s@) is NoShape),
        (r matches Err(e) ==> spec_pawn_move(s@) matches ShapeParse::Aborted(se) && e@ == se),
{
    let n = s.unicode_len();
    let cap_file = match file(s, 0) {
        Some(f) => {
            if capture(s, 1).is_some() {
                Some(f)
            } else {
                None
            }
        },
        None => None,
    };
    let p: usize = if cap_file.is_some() {
        2
    } else {
        0
    };
    let tgt = match target(s, p) {
        Some(t) => t,
        None => {
            return Ok(None);
        },
    };
    let q: usize = p + 2;
    match promotion(s, q) {
        Ok(k) => Ok(
            Some(
                (
                    q + 2,
                    SanData::PawnMove(
                        PawnMove {
                            target: tgt,
                            is_capture: cap_file.is_some(),
                            capture_rank: cap_file,
                            promotion_piece: Some(k),
                        },
                    ),
                ),
            ),
        ),
        Err(PromotionFieldError::MissingEq) => Ok(
            Some(
                (
                    q,
                    SanData::PawnMove(
                        PawnMove {
                            target: tgt,
                            is_capture: cap_file.is_some(),
                            capture_rank: cap_file,
                            promotion_piece: None,
                        },
                    ),
                ),
            ),
        ),
        Err(PromotionFieldError::InvalidPiece) => Err(
            ParseError::InvalidPromotionField(s.substring_char(q + 1, n).to_owned()),
        ),
    }
}

/// Parses a normal (non-pawn) move of the form
/// `[piece][disambiguation_field]?[capture]?[target]` at the start of
/// the input.
pub fn normal_move(s: &str) -> (r: Option<(usize, SanData)>)
    ensures
        (r matches Some((p, d)) ==> spec_normal_move(s@) == ShapeParse::Recognized(p as int, d)
            && p <= s@.len()),
        (r is None ==> spec_normal_move(s@) is NoShape),
{
    let k = match piece(s, 0) {
        Some(k) => k,
        None => {
            return None;
        },
    };
    let (dn, dis) = disambiguation_field(s, 1);
    let p: usize = 1 + dn;
    let is_cap = capture(s, p).is_some();
    let p2: usize = if is_cap {
        p + 1
    } else {
        p
    };
    match target(s, p2) {
        Some(tgt) => Some(
            (
                p2 + 2,
                SanData::NormalMove(
                    NormalMove {
                        piece: k,
                        disambiguation_field: dis,
                        target: tgt,
                        is_capture: is_cap,
                    },
                ),
            ),
        ),
        None => None,
    }
}

// ---------------------------------------------------------------------
// The driver
// ---------------------------------------------------------------------

/// Builds the error reported when no move shape matched, choosing the
/// most specific kind the leading character allows.
fn no_shape_error(s: &str) -> (e: ParseError)
    requires
        s@.len() >= 1,
    ensures
        e@ == spec_no_shape_error(s@),
{
    let n = s.unicode_len();
    let c = s.get_char(0);
    if c == 'O' || c == '0' {
        ParseError::InvalidCastlingField(s.to_owned())
    } else if c == 'a' || c == 'b' || c == 'c' || c == 'd' || c == 'e' || c == 'f' || c == 'g' || c
        == 'h' {
        let p: usize = if capture(s, 1).is_some() {
            2
        } else {
            0
        };
        ParseError::InvalidTargetSquare(s.substring_char(p, n).to_owned())
    } else if c == 'K' || c == 'Q' || c == 'B' || c == 'N' || c == 'R' {
        let (dn, _dis) = disambiguation_field(s, 1);
        let p: usize = 1 + dn;
        let p2: usize = if capture(s, p).is_some() {
            p + 1
        } else {
            p
        };
        ParseError::InvalidTargetSquare(s.substring_char(p2, n).to_owned())
    } else {
        ParseError::InvalidLeadingPiece(c)
    }
}

/// Parses a complete SAN literal.
///
/// The result is exactly what [`spec_san_result`] says: `Ok` with the
/// decoded `San` when the literal is one full, well-formed move, and the
/// most specific typed error otherwise.
pub fn san_literal(s: &str) -> (r: Result<San, ParseError>)
    ensures
        (r matches Ok(san) ==> spec_san_result(s@) == Ok::<San, SpecParseError>(san)),
        (r matches Err(e) ==> spec_san_result(s@) matches Err(se) && e@ == se),
        r is Ok <==> spec_san_result(s@) is Ok,
{
    let n = s.unicode_len();
    if n < 2 || n > 12 {
        return Err(ParseError::InvalidLiteralLength(n));
    }
    let shape: Option<(usize, SanData)> = match castle_move(s) {
        Some(m) => Some(m),
        None => match abbreviated_pawn_move(s) {
            Ok(Some(m)) => Some(m),
            Ok(None) => match pawn_move(s) {
                Ok(Some(m)) => Some(m),
                Ok(None) => normal_move(s),
                Err(e) => {
                    return Err(e);
                },
            },
            Err(e) => {
                return Err(e);
            },
        },
    };
    let (p, data) = match shape {
        Some(m) => m,
        None => {
            return Err(no_shape_error(s));
        },
    };
    let (p2, is_check, is_checkmate): (usize, bool, bool) = if check(s, p) {
        if checkmate(s, p + 1) {
            (p + 2, true, true)
        } else {
            (p + 1, true, false)
        }
    } else if checkmate(s, p) {
        if check(s, p + 1) {
            (p + 2, true, true)
        } else {
            (p + 1, false, true)
        }
    } else {
        (p, false, false)
    };
    let (alen, ann) = annotation(s, p2);
    let end: usize = p2 + alen;
    if end == n {
        Ok(
            San {
                data,
                is_check,
                is_checkmate,
                annotation: ann,
            },
        )
    } else {
        Err(ParseError::TrailingGarbage(s.substring_char(end, n).to_owned()))
    }
}

impl San {
    /// Parses a SAN literal into its structured form; the inverse of
    /// writing a move down. See [`san_literal`] for the exact contract.
    pub fn try_from(value: &str) -> (r: Result<San, ParseError>)
        ensures
            (r matches Ok(san) ==> spec_san_result(value@) == Ok::<San, SpecParseError>(san)),
            (r matches Err(e) ==> spec_san_result(value@) matches Err(se) && e@ == se),
            r is Ok <==> spec_san_result(value@) is Ok,
    {
        san_literal(value)
    }
}

} // verus!

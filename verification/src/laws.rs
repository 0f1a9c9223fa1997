//! Laws of the parser, stated over the spec-level grammar of
//! [`crate::parser`] and proved once and for all.

use crate::parser::{
    is_file_char, is_rank_char, spec_annotation, spec_flags, spec_san_result, spec_shape,
    ShapeParse,
};
use crate::piece::StandardPieceKind;
use crate::san::{DisambiguationField, San, SanData, SpecParseError};
use vstd::prelude::*;

verus! {

/// Internal well-formedness of a parsed value: every character field
/// holds a member of its closed alphabet, a normal move never names a
/// pawn, and a pawn move carries a capture rank exactly when it is a
/// capture.
pub open spec fn san_well_formed(san: San) -> bool {
    match san.data {
        SanData::CastleMove(_) => true,
        SanData::NormalMove(m) => {
            &&& m.piece != StandardPieceKind::Pawn
            &&& is_file_char(m.target.0)
            &&& is_rank_char(m.target.1)
            &&& (match m.disambiguation_field {
                None => true,
                Some(DisambiguationField::FileLetter(c)) => is_file_char(c),
                Some(DisambiguationField::RankDigit(c)) => is_rank_char(c),
                Some(DisambiguationField::SourceSquare((f, r))) => is_file_char(f)
                    && is_rank_char(r),
            })
        },
        SanData::PawnMove(m) => {
            &&& is_file_char(m.target.0)
            &&& is_rank_char(m.target.1)
            &&& (m.capture_rank is Some <==> m.is_capture)
            &&& (m.capture_rank matches Some(c) ==> is_file_char(c))
        },
        SanData::AbbreviatedPawnMove(m) => is_file_char(m.source_rank) && is_file_char(
            m.target_rank,
        ),
    }
}

/// Every value a successful parse returns is internally well-formed:
/// invalid characters are rejected during recognition and never reach
/// the data model.
pub proof fn lemma_successful_parse_well_formed(s: Seq<char>)
    requires
        spec_san_result(s) is Ok,
    ensures
        san_well_formed(spec_san_result(s)->Ok_0),
{
}

/// Parsing is a pure function of its input: two parses of the same
/// literal yield structurally equal results, success and error kind
/// included.
pub proof fn lemma_parse_deterministic(s1: Seq<char>, s2: Seq<char>)
    requires
        s1 == s2,
    ensures
        spec_san_result(s1) == spec_san_result(s2),
{
}

/// A successful parse consumes the whole literal, and a literal whose
/// valid structure ends before the input does fails with
/// `TrailingGarbage` carrying exactly the unconsumed remainder: a
/// premature match never silently truncates the input.
pub proof fn lemma_full_consumption(s: Seq<char>, p: int, d: SanData)
    requires
        2 <= s.len() <= 12,
        spec_shape(s) == ShapeParse::Recognized(p, d),
    ensures
        ({
            let f = spec_flags(s, p);
            let a = spec_annotation(s, f.0);
            let end = f.0 + a.0;
            &&& (end == s.len() ==> spec_san_result(s) == Ok::<San, SpecParseError>(
                San { data: d, is_check: f.1, is_checkmate: f.2, annotation: a.1 },
            ))
            &&& (end != s.len() ==> spec_san_result(s) == Err::<San, SpecParseError>(
                SpecParseError::TrailingGarbage(s.subrange(end, s.len() as int)),
            ))
        }),
{
}

/// Every successful parse populates exactly one move-shape variant:
/// never zero, never more than one.
pub proof fn lemma_shape_exclusivity(s: Seq<char>)
    requires
        spec_san_result(s) is Ok,
    ensures
        ({
            let d = spec_san_result(s)->Ok_0.data;
            let shapes: int = (if d is CastleMove { 1int } else { 0int }) + (
            if d is AbbreviatedPawnMove { 1int } else { 0int }) + (if d is PawnMove { 1int } else { 0int })
                + (if d is NormalMove { 1int } else { 0int });
            shapes == 1
        }),
{
}

/// The promotion glyph `=` is a commit point: when a move shape aborts
/// on a malformed promotion field, the whole parse fails with exactly
/// that `InvalidPromotionField` error, regardless of whether some other
/// move shape could have matched the literal.
pub proof fn lemma_promotion_commit(s: Seq<char>, e: SpecParseError)
    requires
        2 <= s.len() <= 12,
        spec_shape(s) == ShapeParse::Aborted(e),
    ensures
        spec_san_result(s) == Err::<San, SpecParseError>(e),
        e is InvalidPromotionField,
{
}

/// The annotation suffix never consumes more than two characters, and
/// consumes only `!`/`?` glyphs that are actually present.
pub proof fn lemma_annotation_bounded(s: Seq<char>, i: int)
    requires
        0 <= i <= s.len(),
    ensures
        0 <= spec_annotation(s, i).0 <= 2,
        i + spec_annotation(s, i).0 <= s.len(),
{
}

/// The check and checkmate flags depend only on which glyphs are present
/// in the consumed tail, not on their order: `+#` and `#+` decode
/// identically, and each flag is set exactly when its glyph was consumed.
pub proof fn lemma_flags_order_independent(s: Seq<char>, i: int)
    requires
        0 <= i <= s.len(),
    ensures
        ({
            let f = spec_flags(s, i);
            let consumed = s.subrange(i, f.0);
            &&& i <= f.0 <= i + 2
            &&& f.0 <= s.len()
            &&& (f.1 <==> consumed.contains('+'))
            &&& (f.2 <==> consumed.contains('#'))
        }),
{
    let f = spec_flags(s, i);
    let consumed = s.subrange(i, f.0);
    if f.0 == i + 2 {
        assert(consumed.len() == 2);
        assert(consumed[0] == s[i] && consumed[1] == s[i + 1]);
        assert(consumed.contains('+')) by {
            if s[i] == '+' {
                assert(consumed[0] == '+');
            } else {
                assert(consumed[1] == '+');
            }
        }
        assert(consumed.contains('#')) by {
            if s[i] == '#' {
                assert(consumed[0] == '#');
            } else {
                assert(consumed[1] == '#');
            }
        }
    } else if f.0 == i + 1 {
        assert(consumed.len() == 1);
        assert(consumed[0] == s[i]);
        if s[i] == '+' {
            assert(consumed.contains('+'));
            assert(!consumed.contains('#')) by {
                assert(forall|j: int| 0 <= j < consumed.len() ==> consumed[j] == s[i]);
            }
        } else {
            assert(consumed.contains('#'));
            assert(!consumed.contains('+')) by {
                assert(forall|j: int| 0 <= j < consumed.len() ==> consumed[j] == s[i]);
            }
        }
    } else {
        assert(consumed.len() == 0);
        assert(!consumed.contains('+'));
        assert(!consumed.contains('#'));
    }
}

} // verus!

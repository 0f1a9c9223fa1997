use chess_san::parser::{promotion, san_literal};
use chess_san::piece::StandardPieceKind;
use chess_san::san::{
    AbbreviatedPawnMove, CastleMove, DisambiguationField, NormalMove, ParseError, PawnMove, San,
    SanData, SuffixAnnotation,
};

#[test]
fn basic_san_parsing() {
    san_literal("e5").unwrap();
    san_literal("Kxd3??").unwrap();
    san_literal("fxg=Q+#!").unwrap();
}

#[test]
fn correct_errors_from_san_parsing() {
    san_literal("fxd=+#!").expect_err("should fail without a promotion piece");
    san_literal("fd!!!").expect_err("should fail because of too many exclamation marks");
    san_literal("").expect_err("should fail because it's empty");
}

#[test]
fn parse_promotion_chunk_correctly() {
    promotion("=Q", 0).expect("should return a StandardPieceKind::Queen.");
    promotion("=", 0).expect_err("should fail with no piece kind");
    promotion("=A", 0).expect_err("should fail");
    promotion("B", 0).expect_err("should fail");
    promotion("", 0).expect_err("should fail");
}

#[test]
fn plain_pawn_move() {
    let san = san_literal("e5").unwrap();
    assert_eq!(
        san,
        San {
            data: SanData::PawnMove(PawnMove {
                target: ('e', '5'),
                is_capture: false,
                capture_rank: None,
                promotion_piece: None,
            }),
            is_check: false,
            is_checkmate: false,
            annotation: None,
        }
    );
}

#[test]
fn normal_move_with_capture_and_blunder_annotation() {
    let san = san_literal("Kxd3??").unwrap();
    assert_eq!(
        san,
        San {
            data: SanData::NormalMove(NormalMove {
                piece: StandardPieceKind::King,
                disambiguation_field: None,
                target: ('d', '3'),
                is_capture: true,
            }),
            is_check: false,
            is_checkmate: false,
            annotation: Some(SuffixAnnotation::HookHook),
        }
    );
}

#[test]
fn abbreviated_capture_with_promotion_and_suffixes() {
    let san = san_literal("fxg=Q+#!").unwrap();
    assert_eq!(
        san,
        San {
            data: SanData::AbbreviatedPawnMove(AbbreviatedPawnMove {
                source_rank: 'f',
                target_rank: 'g',
                is_capture: true,
                promotion_piece: Some(StandardPieceKind::Queen),
            }),
            is_check: true,
            is_checkmate: true,
            annotation: Some(SuffixAnnotation::Bang),
        }
    );
}

#[test]
fn malformed_promotion_aborts_the_parse() {
    let err = san_literal("fxd=+#!").unwrap_err();
    assert_eq!(err, ParseError::InvalidPromotionField(String::from("+#!")));
}

#[test]
fn missing_promotion_piece_aborts_the_parse() {
    let err = san_literal("e8=").unwrap_err();
    assert_eq!(err, ParseError::InvalidPromotionField(String::new()));
}

#[test]
fn third_annotation_glyph_is_trailing_garbage() {
    let err = san_literal("fd!!!").unwrap_err();
    assert_eq!(err, ParseError::TrailingGarbage(String::from("!")));
}

#[test]
fn empty_literal_is_rejected_by_length() {
    let err = san_literal("").unwrap_err();
    assert_eq!(err, ParseError::InvalidLiteralLength(0));
}

#[test]
fn overlong_literal_is_rejected_by_length() {
    let err = san_literal("Kxd3?!?!?!?!?").unwrap_err();
    assert_eq!(err, ParseError::InvalidLiteralLength(13));
}

#[test]
fn queenside_castle_with_check() {
    let san = san_literal("O-O-O+").unwrap();
    assert_eq!(
        san,
        San {
            data: SanData::CastleMove(CastleMove::QueenSide),
            is_check: true,
            is_checkmate: false,
            annotation: None,
        }
    );
}

#[test]
fn castle_glyph_styles() {
    let kingside = SanData::CastleMove(CastleMove::KingSide);
    let queenside = SanData::CastleMove(CastleMove::QueenSide);
    assert_eq!(san_literal("O-O").unwrap().data, kingside);
    assert_eq!(san_literal("0-0").unwrap().data, kingside);
    assert_eq!(san_literal("O-O-O").unwrap().data, queenside);
    assert_eq!(san_literal("0-0-0").unwrap().data, queenside);
}

#[test]
fn castle_lead_without_castle_shape() {
    let err = san_literal("0-1").unwrap_err();
    assert_eq!(err, ParseError::InvalidCastlingField(String::from("0-1")));
}

#[test]
fn unknown_leading_character() {
    let err = san_literal("%5").unwrap_err();
    assert_eq!(err, ParseError::InvalidLeadingPiece('%'));
}

#[test]
fn pawn_lead_without_target_square() {
    let err = san_literal("e9").unwrap_err();
    assert_eq!(err, ParseError::InvalidTargetSquare(String::from("e9")));
}

#[test]
fn piece_lead_without_target_square() {
    // The disambiguation field is greedy: it consumes "d3", after which
    // the mandatory target square is missing.
    let err = san_literal("Kd3").unwrap_err();
    assert_eq!(err, ParseError::InvalidTargetSquare(String::new()));
}

#[test]
fn check_and_checkmate_flags_are_order_independent() {
    let plus_hash = san_literal("e4+#").unwrap();
    let hash_plus = san_literal("e4#+").unwrap();
    assert_eq!(plus_hash, hash_plus);
    assert!(plus_hash.is_check);
    assert!(plus_hash.is_checkmate);
}

#[test]
fn single_check_and_single_checkmate() {
    let check = san_literal("e4+").unwrap();
    assert!(check.is_check);
    assert!(!check.is_checkmate);
    let mate = san_literal("e4#").unwrap();
    assert!(!mate.is_check);
    assert!(mate.is_checkmate);
}

#[test]
fn parsing_is_deterministic() {
    assert_eq!(san_literal("Kxd3??").unwrap(), san_literal("Kxd3??").unwrap());
    assert_eq!(san_literal("fxd=+#!").unwrap_err(), san_literal("fxd=+#!").unwrap_err());
}

#[test]
fn try_from_matches_san_literal() {
    assert_eq!(San::try_from("e5").unwrap(), san_literal("e5").unwrap());
    assert_eq!(San::try_from("").unwrap_err(), san_literal("").unwrap_err());
}

#[test]
fn pawn_promotion_without_capture() {
    let san = san_literal("e8=Q").unwrap();
    assert_eq!(
        san.data,
        SanData::PawnMove(PawnMove {
            target: ('e', '8'),
            is_capture: false,
            capture_rank: None,
            promotion_piece: Some(StandardPieceKind::Queen),
        })
    );
}

#[test]
fn abbreviated_pawn_moves() {
    assert_eq!(
        san_literal("fg").unwrap().data,
        SanData::AbbreviatedPawnMove(AbbreviatedPawnMove {
            source_rank: 'f',
            target_rank: 'g',
            is_capture: false,
            promotion_piece: None,
        })
    );
    assert_eq!(
        san_literal("fxg").unwrap().data,
        SanData::AbbreviatedPawnMove(AbbreviatedPawnMove {
            source_rank: 'f',
            target_rank: 'g',
            is_capture: true,
            promotion_piece: None,
        })
    );
}

#[test]
fn capture_glyph_variants() {
    let expected = SanData::NormalMove(NormalMove {
        piece: StandardPieceKind::Queen,
        disambiguation_field: None,
        target: ('d', '3'),
        is_capture: true,
    });
    assert_eq!(san_literal("Qxd3").unwrap().data, expected);
    assert_eq!(san_literal("QXd3").unwrap().data, expected);
    assert_eq!(san_literal("Q:d3").unwrap().data, expected);
    assert_eq!(san_literal("Q\u{00d7}d3").unwrap().data, expected);
}

#[test]
fn disambiguation_field_variants() {
    let san = san_literal("Rdxf8").unwrap();
    assert_eq!(
        san.data,
        SanData::NormalMove(NormalMove {
            piece: StandardPieceKind::Rook,
            disambiguation_field: Some(DisambiguationField::FileLetter('d')),
            target: ('f', '8'),
            is_capture: true,
        })
    );
    let san = san_literal("R1xf8").unwrap();
    assert_eq!(
        san.data,
        SanData::NormalMove(NormalMove {
            piece: StandardPieceKind::Rook,
            disambiguation_field: Some(DisambiguationField::RankDigit('1')),
            target: ('f', '8'),
            is_capture: true,
        })
    );
    let san = san_literal("Ra1xf8").unwrap();
    assert_eq!(
        san.data,
        SanData::NormalMove(NormalMove {
            piece: StandardPieceKind::Rook,
            disambiguation_field: Some(DisambiguationField::SourceSquare(('a', '1'))),
            target: ('f', '8'),
            is_capture: true,
        })
    );
}

#[test]
fn annotation_suffix_variants() {
    assert_eq!(san_literal("e4!").unwrap().annotation, Some(SuffixAnnotation::Bang));
    assert_eq!(san_literal("e4?").unwrap().annotation, Some(SuffixAnnotation::Hook));
    assert_eq!(san_literal("e4!!").unwrap().annotation, Some(SuffixAnnotation::BangBang));
    assert_eq!(san_literal("e4!?").unwrap().annotation, Some(SuffixAnnotation::BangHook));
    assert_eq!(san_literal("e4?!").unwrap().annotation, Some(SuffixAnnotation::HookBang));
    assert_eq!(san_literal("e4??").unwrap().annotation, Some(SuffixAnnotation::HookHook));
}

#[test]
fn matched_shape_is_never_retried_on_trailing_garbage() {
    // "exd" matches the abbreviated pawn shape, so the trailing rank
    // digit of "exd5" is garbage rather than a reason to reparse the
    // literal as a full pawn move.
    let err = san_literal("exd5").unwrap_err();
    assert_eq!(err, ParseError::TrailingGarbage(String::from("5")));
}

#[test]
fn double_check_glyph_is_trailing_garbage() {
    let err = san_literal("e4++").unwrap_err();
    assert_eq!(err, ParseError::TrailingGarbage(String::from("+")));
}

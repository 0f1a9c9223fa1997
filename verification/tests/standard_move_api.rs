use chess_san::standard_move::{IllegalStandardMoveError, StandardIndex, StandardMove};

#[test]
fn standard_index_accepts_only_board_squares() {
    let first = StandardIndex::new(0).unwrap();
    assert_eq!(first.get(), 0);
    let last = StandardIndex::new(63).unwrap();
    assert_eq!(last.get(), 63);
    assert!(StandardIndex::new(64).is_none());
    assert!(StandardIndex::new(255).is_none());
}

#[test]
fn standard_move_from_index_pair() {
    let source = StandardIndex::new(12).unwrap();
    let target = StandardIndex::new(28).unwrap();
    let mv = StandardMove::from((source, target));
    assert_eq!(mv.source, source);
    assert_eq!(mv.target, target);
}

#[test]
fn illegal_move_errors_carry_their_payloads() {
    let source = StandardIndex::new(1).unwrap();
    let target = StandardIndex::new(2).unwrap();
    let mv = StandardMove::from((source, target));
    assert_eq!(IllegalStandardMoveError::Check(mv), IllegalStandardMoveError::Check(mv));
    assert!(matches!(
        IllegalStandardMoveError::InvalidSource(source),
        IllegalStandardMoveError::InvalidSource(ix) if ix == source
    ));
    assert!(matches!(
        IllegalStandardMoveError::InvalidTarget(target),
        IllegalStandardMoveError::InvalidTarget(ix) if ix == target
    ));
}

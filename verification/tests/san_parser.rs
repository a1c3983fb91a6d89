use chess_core::moves::CastleType;
use chess_core::moves::Disambiguation;
use chess_core::moves::GameResult;
use chess_core::moves::Move;
use chess_core::moves::MoveParseError;
use chess_core::moves::MoveType;
use chess_core::File;
use chess_core::PieceType;
use chess_core::Rank;
use chess_core::Square;

fn square(file: File, rank: Rank) -> Square {
    Square::new(file, rank)
}

// valid inputs

#[test]
#[allow(non_snake_case)]
fn Be5() {
    let parsed = Move::parse("Be5");
    let expected = Move::NoCheck(MoveType::Normal {
        from: None,
        to: square(File::E, Rank::Five),
        piece: PieceType::Bishop,
    });
    assert!(parsed == Ok(expected))
}

#[test]
#[allow(non_snake_case)]
fn Nf3() {
    let parsed = Move::parse("Nf3");
    let expected = Move::NoCheck(MoveType::Normal {
        from: None,
        to: square(File::F, Rank::Three),
        piece: PieceType::Knight,
    });
    assert!(parsed == Ok(expected))
}

#[test]
fn c5() {
    let parsed = Move::parse("c5");
    let expected = Move::NoCheck(MoveType::Normal {
        from: None,
        to: square(File::C, Rank::Five),
        piece: PieceType::Pawn,
    });
    assert!(parsed == Ok(expected))
}

#[test]
#[allow(non_snake_case)]
fn Bxe5() {
    let parsed = Move::parse("Bxe5");
    let expected = Move::NoCheck(MoveType::Capture {
        from: None,
        to: square(File::E, Rank::Five),
        piece: PieceType::Bishop,
    });
    assert!(parsed == Ok(expected))
}

#[test]
fn exd6() {
    let parsed = Move::parse("exd6");
    let expected = Move::NoCheck(MoveType::Capture {
        from: Some(Disambiguation::File(File::E)),
        to: square(File::D, Rank::Six),
        piece: PieceType::Pawn,
    });
    assert!(parsed == Ok(expected))
}

#[test]
#[allow(non_snake_case)]
fn Rdf8() {
    let parsed = Move::parse("Rdf8");
    let expected = Move::NoCheck(MoveType::Normal {
        from: Some(Disambiguation::File(File::D)),
        to: square(File::F, Rank::Eight),
        piece: PieceType::Rook,
    });
    assert!(parsed == Ok(expected))
}

#[test]
#[allow(non_snake_case)]
fn R1a3() {
    let parsed = Move::parse("R1a3");
    let expected = Move::NoCheck(MoveType::Normal {
        from: Some(Disambiguation::Rank(Rank::One)),
        to: square(File::A, Rank::Three),
        piece: PieceType::Rook,
    });
    assert!(parsed == Ok(expected))
}

#[test]
#[allow(non_snake_case)]
fn Qh4e1() {
    let parsed = Move::parse("Qh4e1");
    let expected = Move::NoCheck(MoveType::Normal {
        from: Some(Disambiguation::Square(square(File::H, Rank::Four))),
        to: square(File::E, Rank::One),
        piece: PieceType::Queen,
    });
    assert!(parsed == Ok(expected))
}

#[test]
#[allow(non_snake_case)]
fn Rdxf8() {
    let parsed = Move::parse("Rdxf8");
    let expected = Move::NoCheck(MoveType::Capture {
        from: Some(Disambiguation::File(File::D)),
        to: square(File::F, Rank::Eight),
        piece: PieceType::Rook,
    });
    assert!(parsed == Ok(expected))
}

#[test]
#[allow(non_snake_case)]
fn R1xa3() {
    let parsed = Move::parse("R1xa3");
    let expected = Move::NoCheck(MoveType::Capture {
        from: Some(Disambiguation::Rank(Rank::One)),
        to: square(File::A, Rank::Three),
        piece: PieceType::Rook,
    });
    assert!(parsed == Ok(expected))
}

#[test]
#[allow(non_snake_case)]
fn Qh4xe1() {
    let parsed = Move::parse("Qh4xe1");
    let expected = Move::NoCheck(MoveType::Capture {
        from: Some(Disambiguation::Square(square(File::H, Rank::Four))),
        to: square(File::E, Rank::One),
        piece: PieceType::Queen,
    });
    assert!(parsed == Ok(expected))
}

#[test]
#[allow(non_snake_case)]
fn e8_eq_Q() {
    let parsed = Move::parse("e8=Q");
    let expected = Move::NoCheck(MoveType::Promotion {
        to: square(File::E, Rank::Eight),
        promote_to: PieceType::Queen,
    });
    assert!(parsed == Ok(expected))
}

#[test]
#[allow(non_snake_case)]
fn gxf8_eq_N() {
    let parsed = Move::parse("gxf8=N");
    let expected = Move::NoCheck(MoveType::PromotionCapture {
        from: File::G,
        to: square(File::F, Rank::Eight),
        promote_to: PieceType::Knight,
    });
    assert!(parsed == Ok(expected))
}

#[test]
fn draw_offer() {
    let parsed = Move::parse("(=)");
    let expected = Move::DrawOffer;
    assert!(parsed == Ok(expected))
}

#[test]
fn short_castle() {
    let parsed = Move::parse("O-O");
    let expected = Move::NoCheck(MoveType::Castle(CastleType::Short));
    assert!(parsed == Ok(expected))
}

#[test]
fn long_castle() {
    let parsed = Move::parse("O-O-O");
    let expected = Move::NoCheck(MoveType::Castle(CastleType::Long));
    assert!(parsed == Ok(expected))
}

#[test]
fn check() {
    let parsed = Move::parse("Qh4+");
    let expected = Move::Check(MoveType::Normal {
        from: None,
        to: square(File::H, Rank::Four),
        piece: PieceType::Queen,
    });
    assert!(parsed == Ok(expected))
}

#[test]
fn checkmate() {
    let parsed = Move::parse("Qh4#");
    let expected = Move::Checkmate(MoveType::Normal {
        from: None,
        to: square(File::H, Rank::Four),
        piece: PieceType::Queen,
    });
    assert!(parsed == Ok(expected))
}

#[test]
fn white_wins() {
    let parsed = Move::parse("1-0");
    let expected = Move::EndOfGame(GameResult::WhiteWins);
    assert!(parsed == Ok(expected))
}

#[test]
fn black_wins() {
    let parsed = Move::parse("0-1");
    let expected = Move::EndOfGame(GameResult::BlackWins);
    assert!(parsed == Ok(expected))
}

#[test]
fn draw() {
    let parsed = Move::parse("1/2-1/2");
    let expected = Move::EndOfGame(GameResult::Draw);
    assert!(parsed == Ok(expected))
}

// invalid inputs

#[test]
fn empty() {
    let parsed = Move::parse("");
    assert!(parsed == Err(MoveParseError::NotAMove))
}

#[test]
fn invalid_move() {
    let parsed = Move::parse("invalid");
    assert!(parsed == Err(MoveParseError::NotAMove))
}

#[test]
fn not_a_square() {
    let parsed = Move::parse("Qh9");
    assert!(parsed == Err(MoveParseError::NotAMove))
}

#[test]
fn not_a_piece() {
    let parsed = Move::parse("Jf3");
    assert!(parsed == Err(MoveParseError::NotAMove))
}

// the two parser stages on their own

#[test]
fn tokenize_one_of_each_kind() {
    let tokens = Move::tokenize("Nax1=+#").unwrap();
    assert!(
        tokens
            == vec![
                chess_core::moves::InputToken::Piece(PieceType::Knight),
                chess_core::moves::InputToken::File(File::A),
                chess_core::moves::InputToken::Capture,
                chess_core::moves::InputToken::Rank(Rank::One),
                chess_core::moves::InputToken::Promotion,
                chess_core::moves::InputToken::Check,
                chess_core::moves::InputToken::Checkmate,
            ]
    );
}

#[test]
fn tokenize_rejects_unknown_character() {
    assert!(Move::tokenize("N?3") == Err(MoveParseError::NotAMove));
}

#[test]
fn parse_move_type_rejects_unknown_shape() {
    // Three files in a row match no shape of the table.
    let tokens = Move::tokenize("abc").unwrap();
    assert!(Move::parse_move_type(&tokens) == Err(MoveParseError::NotAMove));
}

#[test]
fn parse_strips_check_before_matching() {
    // "e4+" tokenizes to [File, Rank, Check]; the trailing Check is
    // stripped and the rest parses as a pawn move.
    let parsed = Move::parse("e4+");
    let expected = Move::Check(MoveType::Normal {
        from: None,
        to: square(File::E, Rank::Four),
        piece: PieceType::Pawn,
    });
    assert!(parsed == Ok(expected));
}

#[test]
fn lone_check_token_is_not_a_move() {
    assert!(Move::parse("+") == Err(MoveParseError::NotAMove));
}

#[test]
fn castle_literals_match_whole_string_only() {
    // The castle words are matched before tokenization, and 'O' is no
    // token, so an annotated castle is rejected.
    assert!(Move::parse("O-O+") == Err(MoveParseError::NotAMove));
    assert!(Move::parse("O-O-O-O") == Err(MoveParseError::NotAMove));
}

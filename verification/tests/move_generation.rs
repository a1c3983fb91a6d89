use chess_core::generate_starting_position;
use chess_core::Board;
use chess_core::Color;
use chess_core::File;
use chess_core::Game;
use chess_core::Move;
use chess_core::Piece;
use chess_core::PieceType;
use chess_core::Rank;
use chess_core::Square;

fn sq(file_index: usize, rank_index: usize) -> Square {
    Square::from_index(file_index, rank_index)
}

fn mv(ffi: usize, fri: usize, tfi: usize, tri: usize) -> Move {
    Move { from: sq(ffi, fri), to: sq(tfi, tri) }
}

fn piece(color: Color, piece_type: PieceType) -> Piece {
    Piece { piece_type, color }
}

fn lone(color: Color, piece_type: PieceType, fi: usize, ri: usize) -> (Board, Piece, Square) {
    let board = Board::new(vec![(sq(fi, ri), piece(color, piece_type))]);
    (board, piece(color, piece_type), sq(fi, ri))
}

// coordinate model

#[test]
fn file_char_conversions() {
    assert!(File::from_char('a') == Some(File::A));
    assert!(File::from_char('h') == Some(File::H));
    assert!(File::from_char('i') == None);
    assert!(File::from_char('A') == None);
    assert!(File::A.to_char() == 'a');
    assert!(File::H.to_char() == 'h');
}

#[test]
fn file_index_conversions() {
    assert!(File::from_index(0) == Some(File::A));
    assert!(File::from_index(7) == Some(File::H));
    assert!(File::from_index(8) == None);
    assert!(File::D.to_index() == 3);
}

#[test]
fn rank_conversions() {
    assert!(Rank::from_char('1') == Some(Rank::One));
    assert!(Rank::from_char('8') == Some(Rank::Eight));
    assert!(Rank::from_char('9') == None);
    assert!(Rank::from_char('0') == None);
    assert!(Rank::from_index(5) == Some(Rank::Six));
    assert!(Rank::from_index(8) == None);
    assert!(Rank::Three.to_index() == 2);
}

#[test]
fn square_constructors_agree() {
    let by_pair = Square::new(File::C, Rank::Seven);
    let by_index = Square::from_index(2, 6);
    assert!(by_pair == by_index);
    assert!(by_pair.get_file_index() == 2);
    assert!(by_pair.get_rank_index() == 6);
}

#[test]
fn light_square_parity() {
    // a1 has index sum 0; b1 has index sum 1.
    assert!(sq(0, 0).is_light_square());
    assert!(!sq(1, 0).is_light_square());
    assert!(sq(1, 1).is_light_square());
}

// board lookups

#[test]
fn board_get_and_bounds() {
    let board = Board::new(vec![(sq(3, 3), piece(Color::White, PieceType::Queen))]);
    assert!(board.get_width() == 8);
    assert!(board.get_height() == 8);
    assert!(board.get(&sq(3, 3)) == Some(piece(Color::White, PieceType::Queen)));
    assert!(board.get(&sq(0, 0)) == None);
}

#[test]
fn board_last_entry_wins() {
    let board = Board::new(vec![
        (sq(3, 3), piece(Color::White, PieceType::Queen)),
        (sq(3, 3), piece(Color::Black, PieceType::Rook)),
    ]);
    assert!(board.get(&sq(3, 3)) == Some(piece(Color::Black, PieceType::Rook)));
}

#[test]
fn board_get_offset() {
    let board = Board::new(vec![(sq(4, 4), piece(Color::Black, PieceType::Knight))]);
    // A step within the board names the square and its occupant.
    assert!(
        board.get_offset(&sq(3, 3), 1, 1)
            == Some((sq(4, 4), Some(piece(Color::Black, PieceType::Knight))))
    );
    assert!(board.get_offset(&sq(3, 3), -1, 2) == Some((sq(2, 5), None)));
    // A step past either edge is rejected.
    assert!(board.get_offset(&sq(0, 0), -1, 0) == None);
    assert!(board.get_offset(&sq(0, 0), 0, -1) == None);
    assert!(board.get_offset(&sq(7, 7), 1, 0) == None);
    assert!(board.get_offset(&sq(7, 7), 0, 1) == None);
}

#[test]
fn board_validate_square() {
    let board = Board::new(vec![]);
    assert!(board.validate_square(2, 5) == Some(sq(2, 5)));
    assert!(board.validate_square(8, 0) == None);
    assert!(board.validate_square(0, 8) == None);
}

#[test]
fn board_enumerations() {
    let board = Board::new(vec![
        (sq(0, 0), piece(Color::White, PieceType::Rook)),
        (sq(7, 7), piece(Color::Black, PieceType::King)),
    ]);
    let all = board.get_all_squares();
    assert!(all.len() == 64);
    // File-major order: a1 first, then a2, ..., h8 last.
    assert!(all[0] == (sq(0, 0), Some(piece(Color::White, PieceType::Rook))));
    assert!(all[1] == (sq(0, 1), None));
    assert!(all[8] == (sq(1, 0), None));
    assert!(all[63] == (sq(7, 7), Some(piece(Color::Black, PieceType::King))));
    let occupied = board.get_all_pieces();
    assert!(
        occupied
            == vec![
                (sq(0, 0), piece(Color::White, PieceType::Rook)),
                (sq(7, 7), piece(Color::Black, PieceType::King)),
            ]
    );
}

// the starting position

#[test]
fn starting_position_placement() {
    let placement = generate_starting_position();
    assert!(placement.len() == 32);
    let board = Board::new(placement);
    assert!(board.get(&sq(0, 0)) == Some(piece(Color::White, PieceType::Rook)));
    assert!(board.get(&sq(1, 0)) == Some(piece(Color::White, PieceType::Knight)));
    assert!(board.get(&sq(2, 0)) == Some(piece(Color::White, PieceType::Bishop)));
    assert!(board.get(&sq(3, 0)) == Some(piece(Color::White, PieceType::Queen)));
    assert!(board.get(&sq(4, 0)) == Some(piece(Color::White, PieceType::King)));
    assert!(board.get(&sq(5, 7)) == Some(piece(Color::Black, PieceType::Bishop)));
    assert!(board.get(&sq(6, 6)) == Some(piece(Color::Black, PieceType::Pawn)));
    assert!(board.get(&sq(2, 1)) == Some(piece(Color::White, PieceType::Pawn)));
    assert!(board.get(&sq(3, 4)) == None);
}

// pawn rule

#[test]
fn pawn_single_push_when_forward_empty() {
    let (board, mover, from) = lone(Color::White, PieceType::Pawn, 4, 1);
    assert!(mover.get_moves(&board, &from) == vec![mv(4, 1, 4, 2)]);
}

#[test]
fn pawn_blocked_generates_nothing() {
    // Blocked by a piece of either colour: pawns cannot capture forwards.
    let board = Board::new(vec![
        (sq(4, 1), piece(Color::White, PieceType::Pawn)),
        (sq(4, 2), piece(Color::Black, PieceType::Rook)),
    ]);
    let moves = piece(Color::White, PieceType::Pawn).get_moves(&board, &sq(4, 1));
    assert!(moves.is_empty());
}

#[test]
fn pawn_diagonal_captures() {
    let board = Board::new(vec![
        (sq(4, 1), piece(Color::White, PieceType::Pawn)),
        (sq(3, 2), piece(Color::Black, PieceType::Knight)),
        (sq(5, 2), piece(Color::Black, PieceType::Bishop)),
    ]);
    let moves = piece(Color::White, PieceType::Pawn).get_moves(&board, &sq(4, 1));
    // The push first, then the left diagonal, then the right.
    assert!(moves == vec![mv(4, 1, 4, 2), mv(4, 1, 3, 2), mv(4, 1, 5, 2)]);
}

#[test]
fn pawn_ignores_own_colour_on_diagonal() {
    let board = Board::new(vec![
        (sq(4, 1), piece(Color::White, PieceType::Pawn)),
        (sq(3, 2), piece(Color::White, PieceType::Knight)),
    ]);
    let moves = piece(Color::White, PieceType::Pawn).get_moves(&board, &sq(4, 1));
    assert!(moves == vec![mv(4, 1, 4, 2)]);
}

#[test]
fn black_pawn_moves_down_the_board() {
    let board = Board::new(vec![
        (sq(3, 4), piece(Color::Black, PieceType::Pawn)),
        (sq(2, 3), piece(Color::White, PieceType::Rook)),
    ]);
    let moves = piece(Color::Black, PieceType::Pawn).get_moves(&board, &sq(3, 4));
    assert!(moves == vec![mv(3, 4, 3, 3), mv(3, 4, 2, 3)]);
}

// knight rule

#[test]
fn knight_in_the_open_has_eight_moves() {
    let (board, mover, from) = lone(Color::White, PieceType::Knight, 3, 3);
    let moves = mover.get_moves(&board, &from);
    assert!(
        moves
            == vec![
                mv(3, 3, 1, 2),
                mv(3, 3, 1, 4),
                mv(3, 3, 2, 1),
                mv(3, 3, 2, 5),
                mv(3, 3, 4, 1),
                mv(3, 3, 4, 5),
                mv(3, 3, 5, 2),
                mv(3, 3, 5, 4),
            ]
    );
}

#[test]
fn knight_in_corner_has_two_moves() {
    let (board, mover, from) = lone(Color::Black, PieceType::Knight, 0, 0);
    assert!(mover.get_moves(&board, &from) == vec![mv(0, 0, 1, 2), mv(0, 0, 2, 1)]);
}

#[test]
fn knight_skips_own_colour_and_captures_opposing() {
    let board = Board::new(vec![
        (sq(3, 3), piece(Color::White, PieceType::Knight)),
        (sq(1, 2), piece(Color::White, PieceType::Pawn)),
        (sq(1, 4), piece(Color::Black, PieceType::Pawn)),
    ]);
    let moves = piece(Color::White, PieceType::Knight).get_moves(&board, &sq(3, 3));
    assert!(
        moves
            == vec![
                mv(3, 3, 1, 4),
                mv(3, 3, 2, 1),
                mv(3, 3, 2, 5),
                mv(3, 3, 4, 1),
                mv(3, 3, 4, 5),
                mv(3, 3, 5, 2),
                mv(3, 3, 5, 4),
            ]
    );
}

// sliding rules

#[test]
fn rook_on_empty_board_has_fourteen_moves() {
    let (board, mover, from) = lone(Color::White, PieceType::Rook, 0, 0);
    let moves = mover.get_moves(&board, &from);
    assert!(moves.len() == 14);
    // East along rank 1, then north up file a.
    assert!(
        moves
            == vec![
                mv(0, 0, 1, 0),
                mv(0, 0, 2, 0),
                mv(0, 0, 3, 0),
                mv(0, 0, 4, 0),
                mv(0, 0, 5, 0),
                mv(0, 0, 6, 0),
                mv(0, 0, 7, 0),
                mv(0, 0, 0, 1),
                mv(0, 0, 0, 2),
                mv(0, 0, 0, 3),
                mv(0, 0, 0, 4),
                mv(0, 0, 0, 5),
                mv(0, 0, 0, 6),
                mv(0, 0, 0, 7),
            ]
    );
}

#[test]
fn rook_in_centre_still_has_fourteen_moves() {
    let (board, mover, from) = lone(Color::Black, PieceType::Rook, 3, 4);
    assert!(mover.get_moves(&board, &from).len() == 14);
}

#[test]
fn ray_includes_first_opposing_piece_and_stops() {
    let board = Board::new(vec![
        (sq(0, 0), piece(Color::White, PieceType::Rook)),
        (sq(0, 3), piece(Color::Black, PieceType::Pawn)),
        (sq(0, 5), piece(Color::Black, PieceType::Pawn)),
    ]);
    let moves = piece(Color::White, PieceType::Rook).get_moves(&board, &sq(0, 0));
    // The northern ray ends on the capture at a4; a6 is never reached.
    assert!(
        moves
            == vec![
                mv(0, 0, 1, 0),
                mv(0, 0, 2, 0),
                mv(0, 0, 3, 0),
                mv(0, 0, 4, 0),
                mv(0, 0, 5, 0),
                mv(0, 0, 6, 0),
                mv(0, 0, 7, 0),
                mv(0, 0, 0, 1),
                mv(0, 0, 0, 2),
                mv(0, 0, 0, 3),
            ]
    );
}

#[test]
fn ray_stops_short_of_own_piece() {
    let board = Board::new(vec![
        (sq(0, 0), piece(Color::White, PieceType::Rook)),
        (sq(0, 3), piece(Color::White, PieceType::Pawn)),
    ]);
    let moves = piece(Color::White, PieceType::Rook).get_moves(&board, &sq(0, 0));
    // The northern ray yields a2 and a3 only; a4 is excluded.
    assert!(
        moves
            == vec![
                mv(0, 0, 1, 0),
                mv(0, 0, 2, 0),
                mv(0, 0, 3, 0),
                mv(0, 0, 4, 0),
                mv(0, 0, 5, 0),
                mv(0, 0, 6, 0),
                mv(0, 0, 7, 0),
                mv(0, 0, 0, 1),
                mv(0, 0, 0, 2),
            ]
    );
}

#[test]
fn bishop_walks_the_four_diagonals() {
    let (board, mover, from) = lone(Color::White, PieceType::Bishop, 3, 3);
    let moves = mover.get_moves(&board, &from);
    assert!(
        moves
            == vec![
                mv(3, 3, 4, 4),
                mv(3, 3, 5, 5),
                mv(3, 3, 6, 6),
                mv(3, 3, 7, 7),
                mv(3, 3, 4, 2),
                mv(3, 3, 5, 1),
                mv(3, 3, 6, 0),
                mv(3, 3, 2, 4),
                mv(3, 3, 1, 5),
                mv(3, 3, 0, 6),
                mv(3, 3, 2, 2),
                mv(3, 3, 1, 1),
                mv(3, 3, 0, 0),
            ]
    );
}

#[test]
fn queen_moves_are_bishop_rays_then_rook_rays() {
    let (board, mover, from) = lone(Color::White, PieceType::Queen, 3, 3);
    let queen_list = mover.get_moves(&board, &from);
    let bishop_list =
        piece(Color::White, PieceType::Bishop).get_moves(&board, &sq(3, 3));
    let rook_list = piece(Color::White, PieceType::Rook).get_moves(&board, &sq(3, 3));
    assert!(queen_list.len() == 27);
    assert!(queen_list[..bishop_list.len()] == bishop_list[..]);
    assert!(queen_list[bishop_list.len()..] == rook_list[..]);
}

// king rule

#[test]
fn king_walks_its_box() {
    let (board, mover, from) = lone(Color::Black, PieceType::King, 4, 0);
    let moves = mover.get_moves(&board, &from);
    assert!(
        moves
            == vec![mv(4, 0, 3, 0), mv(4, 0, 3, 1), mv(4, 0, 4, 1), mv(4, 0, 5, 0), mv(4, 0, 5, 1)]
    );
}

// the whole game

#[test]
fn starting_position_moves_are_pushes_and_knight_moves() {
    let game = Game::new(generate_starting_position());
    let moves = game.get_all_possible_moves();
    // Every bishop, rook, the queen and the king are boxed in by the pawn
    // rank, and this core generates no pawn double-step: eight single
    // pushes and four knight moves remain, in board order.
    assert!(
        moves
            == vec![
                mv(0, 1, 0, 2),
                mv(1, 0, 0, 2),
                mv(1, 0, 2, 2),
                mv(1, 1, 1, 2),
                mv(2, 1, 2, 2),
                mv(3, 1, 3, 2),
                mv(4, 1, 4, 2),
                mv(5, 1, 5, 2),
                mv(6, 0, 5, 2),
                mv(6, 0, 7, 2),
                mv(6, 1, 6, 2),
                mv(7, 1, 7, 2),
            ]
    );
}

#[test]
fn black_to_move_enumerates_only_black_pieces() {
    let board_setup = vec![
        (sq(0, 0), piece(Color::White, PieceType::Rook)),
        (sq(7, 7), piece(Color::Black, PieceType::Knight)),
    ];
    let game = Game { board: Board::new(board_setup), turn: Color::Black };
    let moves = game.get_all_possible_moves();
    assert!(moves == vec![mv(7, 7, 5, 6), mv(7, 7, 6, 5)]);
}

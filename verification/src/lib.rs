//! A chess rules core: an 8x8 board and coordinate model, a per-piece
//! pseudo-legal move generator, and a Standard Algebraic Notation (SAN)
//! parser that turns move text into a structured move description.

use vstd::prelude::*;

pub mod board;
pub mod game;
pub mod moves;
pub mod pieces;
pub mod squares;

pub use board::Board;
pub use game::Color;
pub use game::Game;
pub use game::Move;
pub use pieces::Piece;
pub use pieces::PieceType;
pub use squares::File;
pub use squares::Rank;
pub use squares::Square;

use crate::board::placement_at;

verus! {

/// The back-rank piece kind on the file at index `fi` in the standard
/// starting position: rooks outside, then knights, then bishops, the queen
/// on file `d` and the king on file `e`.
pub open spec fn back_rank_type(fi: int) -> PieceType {
    if fi == 0 || fi == 7 {
        PieceType::Rook
    } else if fi == 1 || fi == 6 {
        PieceType::Knight
    } else if fi == 2 || fi == 5 {
        PieceType::Bishop
    } else if fi == 3 {
        PieceType::Queen
    } else {
        PieceType::King
    }
}

/// The piece the standard starting position puts on the square at
/// `(fi, ri)`: White's back rank and pawns on rank indices 0 and 1,
/// Black's pawns and back rank on rank indices 6 and 7.
pub open spec fn starting_piece_at(fi: int, ri: int) -> Option<Piece> {
    if ri == 0 {
        Some(Piece { piece_type: back_rank_type(fi), color: Color::White })
    } else if ri == 1 {
        Some(Piece { piece_type: PieceType::Pawn, color: Color::White })
    } else if ri == 6 {
        Some(Piece { piece_type: PieceType::Pawn, color: Color::Black })
    } else if ri == 7 {
        Some(Piece { piece_type: back_rank_type(fi), color: Color::Black })
    } else {
        None
    }
}

fn back_rank_piece(file_index: usize) -> (r: PieceType)
    requires
        file_index < 8,
    ensures
        r == back_rank_type(file_index as int),
{
    if file_index == 0 || file_index == 7 {
        PieceType::Rook
    } else if file_index == 1 || file_index == 6 {
        PieceType::Knight
    } else if file_index == 2 || file_index == 5 {
        PieceType::Bishop
    } else if file_index == 3 {
        PieceType::Queen
    } else {
        PieceType::King
    }
}

/// Adds one piece to a placement list, covering any earlier entry for the
/// same square.
fn place(placement: &mut Vec<(Square, Piece)>, file_index: usize, rank_index: usize, piece: Piece)
    requires
        file_index < 8,
        rank_index < 8,
    ensures
        final(placement)@.len() == old(placement)@.len() + 1,
        forall|fi: int, ri: int|
            0 <= fi < 8 && 0 <= ri < 8 ==> #[trigger] placement_at(final(placement)@, fi, ri) == (
            if fi == file_index as int && ri == rank_index as int {
                Some(piece)
            } else {
                placement_at(old(placement)@, fi, ri)
            }),
{
    placement.push((Square::from_index(file_index, rank_index), piece));
    proof {
        assert(placement@.drop_last() =~= old(placement)@);
    }
}

/// The standard 32-piece starting placement.  Squares it does not name
/// start empty when a board is built from it.
pub fn generate_starting_position() -> (r: Vec<(Square, Piece)>)
    ensures
        r@.len() == 32,
        forall|fi: int, ri: int|
            0 <= fi < 8 && 0 <= ri < 8 ==> #[trigger] placement_at(r@, fi, ri)
                == starting_piece_at(fi, ri),
{
    let mut placement: Vec<(Square, Piece)> = Vec::new();
    let mut file_index: usize = 0;
    while file_index < 8
        invariant
            file_index <= 8,
            placement@.len() == 4 * file_index,
            forall|fi: int, ri: int|
                0 <= fi < 8 && 0 <= ri < 8 ==> #[trigger] placement_at(placement@, fi, ri) == (
                if fi < file_index as int {
                    starting_piece_at(fi, ri)
                } else {
                    Option::<Piece>::None
                }),
        decreases 8 - file_index,
    {
        place(
            &mut placement,
            file_index,
            0,
            Piece { piece_type: back_rank_piece(file_index), color: Color::White },
        );
        place(
            &mut placement,
            file_index,
            1,
            Piece { piece_type: PieceType::Pawn, color: Color::White },
        );
        place(
            &mut placement,
            file_index,
            6,
            Piece { piece_type: PieceType::Pawn, color: Color::Black },
        );
        place(
            &mut placement,
            file_index,
            7,
            Piece { piece_type: back_rank_piece(file_index), color: Color::Black },
        );
        file_index = file_index + 1;
    }
    placement
}

} // verus!

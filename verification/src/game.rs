//! The game state: a board paired with the side to move, and the move
//! record produced by the generator.

use vstd::prelude::*;

use crate::board::Board;
use crate::board::board_pieces;
use crate::board::placement_at;
use crate::pieces::Piece;
use crate::pieces::piece_moves;
use crate::squares::Square;

verus! {

/// A pseudo-legal candidate move: the square a piece stands on and the
/// square it may move to.  The generator attaches no capture or promotion
/// metadata.
#[derive(Debug, Copy, Clone, PartialEq, Eq, Structural)]
pub struct Move {
    pub from: Square,
    pub to: Square,
}

/// The side a piece belongs to.
#[derive(Debug, Copy, Clone, PartialEq, Eq, Structural, Hash)]
pub enum Color {
    White,
    Black,
}

/// A board together with the side to move.  Nothing in this core advances
/// the turn.
pub struct Game {
    pub board: Board,
    pub turn: Color,
}

impl Game {
    /// Builds a game from an initial placement, White to move.  Squares not
    /// named in the placement start empty; when a square is named twice, the
    /// last entry wins.
    pub fn new(starting_position: Vec<(Square, Piece)>) -> (g: Game)
        ensures
            g.turn == Color::White,
            forall|fi: int, ri: int|
                0 <= fi < 8 && 0 <= ri < 8 ==> g.board.at(fi, ri) == placement_at(
                    starting_position@,
                    fi,
                    ri,
                ),
    {
        Game { board: Board::new(starting_position), turn: Color::White }
    }

    /// Every pseudo-legal move of the side to move: the pieces of that
    /// colour are visited in board order, and each contributes its moves in
    /// its rule's order.  No check or pin filtering is applied.
    pub fn get_all_possible_moves(&self) -> (r: Vec<Move>)
        ensures
            r@ == game_moves(self.board, self.turn),
    {
        let mut moves: Vec<Move> = Vec::new();
        let pieces = self.board.get_all_pieces();
        let n = pieces.len();
        let mut i: usize = 0;
        while i < n
            invariant
                i <= n,
                n == pieces@.len(),
                pieces@ == board_pieces(self.board),
                moves@ == moves_of_pieces(self.board, self.turn, pieces@.take(i as int)),
            decreases n - i,
        {
            let (square, piece) = pieces[i];
            if piece.color == self.turn {
                let mut generated = piece.get_moves(&self.board, &square);
                moves.append(&mut generated);
            }
            proof {
                let pre = pieces@.take(i as int);
                let post = pieces@.take(i as int + 1);
                assert(post.drop_last() =~= pre);
                assert(post.last() == pieces@[i as int]);
                assert(moves@ =~= moves_of_pieces(self.board, self.turn, post));
            }
            i = i + 1;
        }
        proof {
            assert(pieces@.take(n as int) =~= pieces@);
        }
        moves
    }
}

/// The moves a list of placed pieces contributes, in list order: each piece
/// of the side to move adds the moves its rule generates, other pieces add
/// nothing.
pub open spec fn moves_of_pieces(board: Board, turn: Color, pieces: Seq<(Square, Piece)>) -> Seq<
    Move,
>
    decreases pieces.len(),
{
    if pieces.len() == 0 {
        Seq::empty()
    } else {
        moves_of_pieces(board, turn, pieces.drop_last()) + (if pieces.last().1.color == turn {
            piece_moves(pieces.last().1, board, pieces.last().0)
        } else {
            Seq::empty()
        })
    }
}

/// Every pseudo-legal move of the side to move, over the occupied squares
/// in board order.
pub open spec fn game_moves(board: Board, turn: Color) -> Seq<Move> {
    moves_of_pieces(board, turn, board_pieces(board))
}

} // verus!

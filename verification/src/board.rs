//! The board: a fixed 8x8 grid mapping each square to an optional piece.
//!
//! The grid is built once from an initial placement and never mutated
//! afterwards.  `get_offset` is the single bounds-checked neighbour lookup
//! that all piece-movement code goes through; no piece logic computes raw
//! indices itself.

use vstd::prelude::*;

use crate::pieces::Piece;
use crate::squares::Square;

verus! {

/// The piece an initial placement puts on the square at `(fi, ri)`: the
/// last entry for that square wins, and squares never named are empty.
pub open spec fn placement_at(placement: Seq<(Square, Piece)>, fi: int, ri: int) -> Option<Piece>
    decreases placement.len(),
{
    if placement.len() == 0 {
        None
    } else if placement.last().0@ == (fi, ri) {
        Some(placement.last().1)
    } else {
        placement_at(placement.drop_last(), fi, ri)
    }
}

/// An 8x8 board.  Cells are stored file-major: the square at indices
/// `(fi, ri)` lives at position `fi * 8 + ri`.
pub struct Board {
    squares: Vec<Option<Piece>>,
}

impl Board {
    #[verifier::type_invariant]
    spec fn wf(self) -> bool {
        self.squares@.len() == 64
    }

    /// The occupant of the square at indices `(fi, ri)`.
    pub closed spec fn at(self, fi: int, ri: int) -> Option<Piece> {
        self.squares@[fi * 8 + ri]
    }

    /// Builds the board from an initial placement.  Squares not named in
    /// the placement start empty; when a square is named twice, the last
    /// entry wins.
    pub fn new(starting_position: Vec<(Square, Piece)>) -> (r: Board)
        ensures
            forall|fi: int, ri: int|
                0 <= fi < 8 && 0 <= ri < 8 ==> r.at(fi, ri) == placement_at(
                    starting_position@,
                    fi,
                    ri,
                ),
    {
        let mut cells: Vec<Option<Piece>> = Vec::new();
        let mut k: usize = 0;
        while k < 64
            invariant
                k <= 64,
                cells@.len() == k,
                forall|j: int| 0 <= j < k ==> cells@[j] is None,
            decreases 64 - k,
        {
            cells.push(None);
            k = k + 1;
        }
        let n = starting_position.len();
        let mut i: usize = 0;
        while i < n
            invariant
                cells@.len() == 64,
                i <= n,
                n == starting_position@.len(),
                forall|fi: int, ri: int|
                    0 <= fi < 8 && 0 <= ri < 8 ==> cells@[fi * 8 + ri] == #[trigger] placement_at(
                        starting_position@.take(i as int),
                        fi,
                        ri,
                    ),
            decreases n - i,
        {
            let (sq, piece) = starting_position[i];
            let fi = sq.get_file_index();
            let ri = sq.get_rank_index();
            cells.set(fi * 8 + ri, Some(piece));
            proof {
                let pre = starting_position@.take(i as int);
                let post = starting_position@.take(i as int + 1);
                assert(post.drop_last() =~= pre);
                assert(post.last() == starting_position@[i as int]);
                assert forall|fi2: int, ri2: int|
                    0 <= fi2 < 8 && 0 <= ri2 < 8 implies cells@[fi2 * 8 + ri2]
                    == #[trigger] placement_at(post, fi2, ri2) by {
                    if post.last().0@ == (fi2, ri2) {
                        assert(placement_at(post, fi2, ri2) == Some(post.last().1));
                        assert(fi2 * 8 + ri2 == fi * 8 + ri);
                    } else {
                        assert(placement_at(post, fi2, ri2) == placement_at(pre, fi2, ri2));
                        assert(fi2 * 8 + ri2 != fi * 8 + ri);
                    }
                }
            }
            i = i + 1;
        }
        proof {
            assert(starting_position@.take(n as int) =~= starting_position@);
        }
        Board { squares: cells }
    }

    /// The board is fixed at 8 files wide.
    pub fn get_width(&self) -> (r: usize)
        ensures
            r == 8,
    {
        8
    }

    /// The board is fixed at 8 ranks high.
    pub fn get_height(&self) -> (r: usize)
        ensures
            r == 8,
    {
        8
    }

    /// The occupant of a square.  Never out of bounds, because every
    /// `Square` is on the board by construction.
    pub fn get(&self, square: &Square) -> (r: Option<Piece>)
        ensures
            r == self.at(square@.0, square@.1),
    {
        proof {
            use_type_invariant(self);
        }
        self.squares[square.get_file_index() * 8 + square.get_rank_index()]
    }

    /// The square and occupant a given offset away from a valid square, or
    /// `None` when either resulting index would leave the board.  This is
    /// the single chokepoint all piece-movement code uses to stay on-board.
    pub fn get_offset(&self, square: &Square, file_offset: i8, rank_offset: i8) -> (r: Option<
        (Square, Option<Piece>),
    >)
        ensures
            ({
                let nfi = square@.0 + file_offset as int;
                let nri = square@.1 + rank_offset as int;
                if 0 <= nfi < 8 && 0 <= nri < 8 {
                    r == Some((Square::spec_at(nfi, nri), self.at(nfi, nri)))
                } else {
                    r is None
                }
            }),
    {
        let file_index = square.get_file_index() as i16 + file_offset as i16;
        let rank_index = square.get_rank_index() as i16 + rank_offset as i16;
        if file_index < 0 || rank_index < 0 {
            return None;
        }
        match self.validate_square(file_index as usize, rank_index as usize) {
            Some(neighbour) => Some((neighbour, self.get(&neighbour))),
            None => None,
        }
    }

    /// Checks a pair of raw indices against the board bounds, returning the
    /// square they name when both are in range.
    pub fn validate_square(&self, file_index: usize, rank_index: usize) -> (r: Option<Square>)
        ensures
            if file_index < 8 && rank_index < 8 {
                r == Some(Square::spec_at(file_index as int, rank_index as int))
            } else {
                r is None
            },
    {
        if file_index < 8 && rank_index < 8 {
            Some(Square::from_index(file_index, rank_index))
        } else {
            None
        }
    }
}

/// The first `ri` squares of file `fi`, each with its occupant, in rank
/// order.
pub open spec fn squares_file_upto(board: Board, fi: int, ri: int) -> Seq<(Square, Option<Piece>)>
    decreases ri,
{
    if ri <= 0 {
        Seq::empty()
    } else {
        squares_file_upto(board, fi, ri - 1).push(
            (Square::spec_at(fi, ri - 1), board.at(fi, ri - 1)),
        )
    }
}

/// All squares of the first `fi` files, each with its occupant, file-major.
pub open spec fn squares_upto(board: Board, fi: int) -> Seq<(Square, Option<Piece>)>
    decreases fi,
{
    if fi <= 0 {
        Seq::empty()
    } else {
        squares_upto(board, fi - 1) + squares_file_upto(board, fi - 1, 8)
    }
}

/// All 64 squares with their occupants, ordered by file and then rank.
pub open spec fn board_squares(board: Board) -> Seq<(Square, Option<Piece>)> {
    squares_upto(board, 8)
}

/// The occupied squares of file `fi` with rank index below `ri`, with their
/// pieces, in rank order.
pub open spec fn pieces_file_upto(board: Board, fi: int, ri: int) -> Seq<(Square, Piece)>
    decreases ri,
{
    if ri <= 0 {
        Seq::empty()
    } else {
        let rest = pieces_file_upto(board, fi, ri - 1);
        match board.at(fi, ri - 1) {
            Some(p) => rest.push((Square::spec_at(fi, ri - 1), p)),
            None => rest,
        }
    }
}

/// The occupied squares of the first `fi` files with their pieces,
/// file-major.
pub open spec fn pieces_upto(board: Board, fi: int) -> Seq<(Square, Piece)>
    decreases fi,
{
    if fi <= 0 {
        Seq::empty()
    } else {
        pieces_upto(board, fi - 1) + pieces_file_upto(board, fi - 1, 8)
    }
}

/// All occupied squares with their pieces, ordered by file and then rank.
pub open spec fn board_pieces(board: Board) -> Seq<(Square, Piece)> {
    pieces_upto(board, 8)
}

impl Board {
    /// Every square of the board with its occupant, ordered by file and
    /// then rank.
    pub fn get_all_squares(&self) -> (r: Vec<(Square, Option<Piece>)>)
        ensures
            r@ == board_squares(*self),
    {
        let mut result: Vec<(Square, Option<Piece>)> = Vec::new();
        let mut fi: usize = 0;
        while fi < 8
            invariant
                fi <= 8,
                result@ == squares_upto(*self, fi as int),
            decreases 8 - fi,
        {
            let mut ri: usize = 0;
            while ri < 8
                invariant
                    fi < 8,
                    ri <= 8,
                    result@ == squares_upto(*self, fi as int) + squares_file_upto(
                        *self,
                        fi as int,
                        ri as int,
                    ),
                decreases 8 - ri,
            {
                let square = Square::from_index(fi, ri);
                result.push((square, self.get(&square)));
                proof {
                    assert(result@ =~= squares_upto(*self, fi as int) + squares_file_upto(
                        *self,
                        fi as int,
                        ri as int + 1,
                    ));
                }
                ri = ri + 1;
            }
            fi = fi + 1;
        }
        result
    }

    /// Every occupied square with its piece, ordered by file and then rank.
    pub fn get_all_pieces(&self) -> (r: Vec<(Square, Piece)>)
        ensures
            r@ == board_pieces(*self),
    {
        let mut result: Vec<(Square, Piece)> = Vec::new();
        let mut fi: usize = 0;
        while fi < 8
            invariant
                fi <= 8,
                result@ == pieces_upto(*self, fi as int),
            decreases 8 - fi,
        {
            let mut ri: usize = 0;
            while ri < 8
                invariant
                    fi < 8,
                    ri <= 8,
                    result@ == pieces_upto(*self, fi as int) + pieces_file_upto(
                        *self,
                        fi as int,
                        ri as int,
                    ),
                decreases 8 - ri,
            {
                let square = Square::from_index(fi, ri);
                match self.get(&square) {
                    Some(piece) => {
                        result.push((square, piece));
                        proof {
                            assert(result@ =~= pieces_upto(*self, fi as int) + pieces_file_upto(
                                *self,
                                fi as int,
                                ri as int + 1,
                            ));
                        }
                    },
                    None => {
                        proof {
                            assert(result@ =~= pieces_upto(*self, fi as int) + pieces_file_upto(
                                *self,
                                fi as int,
                                ri as int + 1,
                            ));
                        }
                    },
                }
                ri = ri + 1;
            }
            fi = fi + 1;
        }
        result
    }
}

} // verus!

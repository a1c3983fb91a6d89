//! The piece model and the per-piece pseudo-legal move generator.
//!
//! Dispatch is purely by `PieceType`, a closed set of six generation rules.
//! A destination is enumerated iff it is on-board and not occupied by a
//! piece of the mover's own colour; captures land only on squares occupied
//! by the opposite colour.  All movement code stays on the board by going
//! through `Board::get_offset`, never by computing raw indices itself.

use vstd::prelude::*;

use crate::board::Board;
use crate::game::Color;
use crate::game::Move;
use crate::squares::Square;

verus! {

/// The six kinds of chess piece.
#[derive(Debug, Copy, Clone, PartialEq, Eq, Structural)]
pub enum PieceType {
    Pawn,
    Knight,
    Bishop,
    Rook,
    Queen,
    King,
}

impl PieceType {
    /// The piece kind named by an uppercase SAN letter, if any.  Pawns have
    /// no letter in SAN and are never returned here.
    pub open spec fn spec_from_char(c: char) -> Option<PieceType> {
        match c {
            'N' => Some(PieceType::Knight),
            'B' => Some(PieceType::Bishop),
            'R' => Some(PieceType::Rook),
            'Q' => Some(PieceType::Queen),
            'K' => Some(PieceType::King),
            _ => None,
        }
    }

    pub fn from_char(c: char) -> (r: Option<PieceType>)
        ensures
            r == PieceType::spec_from_char(c),
    {
        match c {
            'N' => Some(PieceType::Knight),
            'B' => Some(PieceType::Bishop),
            'R' => Some(PieceType::Rook),
            'Q' => Some(PieceType::Queen),
            'K' => Some(PieceType::King),
            _ => None,
        }
    }
}

/// A piece on the board: a kind and the side it belongs to.
#[derive(Debug, Copy, Clone, PartialEq, Eq, Structural)]
pub struct Piece {
    pub piece_type: PieceType,
    pub color: Color,
}

/// Whether a pair of zero-based indices names an on-board square.
pub open spec fn in_range(fi: int, ri: int) -> bool {
    0 <= fi < 8 && 0 <= ri < 8
}

/// The destination a knight or king reaches at one fixed offset from
/// `(fi, ri)`: the stepped-to square when it is on-board and not occupied
/// by the mover's own colour, and nothing otherwise.
pub open spec fn box_dest(
    board: Board,
    color: Color,
    fi: int,
    ri: int,
    df: int,
    dr: int,
) -> Option<Square> {
    let nfi = fi + df;
    let nri = ri + dr;
    if in_range(nfi, nri) {
        match board.at(nfi, nri) {
            None => Some(Square::spec_at(nfi, nri)),
            Some(p) => if p.color != color {
                Some(Square::spec_at(nfi, nri))
            } else {
                None
            },
        }
    } else {
        None
    }
}

/// An optional destination as a move sequence of length zero or one.
pub open spec fn dest_moves(from: Square, dest: Option<Square>) -> Seq<Move> {
    match dest {
        Some(to) => seq![Move { from: from, to: to }],
        None => Seq::empty(),
    }
}

/// The rank direction a pawn moves in: up the board for White, down for
/// Black.
pub open spec fn pawn_forward(color: Color) -> int {
    match color {
        Color::White => 1,
        Color::Black => -1,
    }
}

/// A pawn may push one square forward only when that square is on-board
/// and empty.
pub open spec fn pawn_can_push(board: Board, color: Color, from: Square) -> bool {
    let nri = from@.1 + pawn_forward(color);
    in_range(from@.0, nri) && board.at(from@.0, nri) is None
}

/// The square one step forward of a pawn.
pub open spec fn pawn_push_dest(color: Color, from: Square) -> Square {
    Square::spec_at(from@.0, from@.1 + pawn_forward(color))
}

/// A pawn may capture one square diagonally forward (`df` is -1 or 1) only
/// when that square is on-board and occupied by the opposite colour.
pub open spec fn pawn_can_capture(board: Board, color: Color, from: Square, df: int) -> bool {
    let nfi = from@.0 + df;
    let nri = from@.1 + pawn_forward(color);
    in_range(nfi, nri) && (board.at(nfi, nri) matches Some(p) && p.color != color)
}

/// The square one step diagonally forward of a pawn.
pub open spec fn pawn_capture_dest(color: Color, from: Square, df: int) -> Square {
    Square::spec_at(from@.0 + df, from@.1 + pawn_forward(color))
}

/// The pawn rule: the single push when the forward square is empty, then
/// the two diagonal captures, left diagonal first.
pub open spec fn pawn_moves(board: Board, color: Color, from: Square) -> Seq<Move> {
    (if pawn_can_push(board, color, from) {
        seq![Move { from: from, to: pawn_push_dest(color, from) }]
    } else {
        Seq::empty()
    }) + (if pawn_can_capture(board, color, from, -1) {
        seq![Move { from: from, to: pawn_capture_dest(color, from, -1) }]
    } else {
        Seq::empty()
    }) + (if pawn_can_capture(board, color, from, 1) {
        seq![Move { from: from, to: pawn_capture_dest(color, from, 1) }]
    } else {
        Seq::empty()
    })
}

/// The knight rule: the eight offsets whose deltas are a permutation of
/// {1, 2} up to sign, in the order a scan of the 5x5 box around the piece
/// visits them.
pub open spec fn knight_moves(board: Board, color: Color, from: Square) -> Seq<Move> {
    let fi = from@.0;
    let ri = from@.1;
    dest_moves(from, box_dest(board, color, fi, ri, -2, -1)) + dest_moves(
        from,
        box_dest(board, color, fi, ri, -2, 1),
    ) + dest_moves(from, box_dest(board, color, fi, ri, -1, -2)) + dest_moves(
        from,
        box_dest(board, color, fi, ri, -1, 2),
    ) + dest_moves(from, box_dest(board, color, fi, ri, 1, -2)) + dest_moves(
        from,
        box_dest(board, color, fi, ri, 1, 2),
    ) + dest_moves(from, box_dest(board, color, fi, ri, 2, -1)) + dest_moves(
        from,
        box_dest(board, color, fi, ri, 2, 1),
    )
}

/// The king rule: the eight unit offsets of the 3x3 box around the piece,
/// in the order a scan of that box visits them.
pub open spec fn king_moves(board: Board, color: Color, from: Square) -> Seq<Move> {
    let fi = from@.0;
    let ri = from@.1;
    dest_moves(from, box_dest(board, color, fi, ri, -1, -1)) + dest_moves(
        from,
        box_dest(board, color, fi, ri, -1, 0),
    ) + dest_moves(from, box_dest(board, color, fi, ri, -1, 1)) + dest_moves(
        from,
        box_dest(board, color, fi, ri, 0, -1),
    ) + dest_moves(from, box_dest(board, color, fi, ri, 0, 1)) + dest_moves(
        from,
        box_dest(board, color, fi, ri, 1, -1),
    ) + dest_moves(from, box_dest(board, color, fi, ri, 1, 0)) + dest_moves(
        from,
        box_dest(board, color, fi, ri, 1, 1),
    )
}

/// One ray of a sliding piece, walked one step at a time from `(fi, ri)` in
/// direction `(df, dr)`.  Each empty on-board square is a destination and
/// the walk continues; the first square holding an opposing piece is a
/// destination and ends the ray; an own-colour piece or the board edge ends
/// the ray without a destination.  Seven steps of fuel always outlast the
/// board.
pub open spec fn ray_moves(
    board: Board,
    color: Color,
    from: Square,
    fi: int,
    ri: int,
    df: int,
    dr: int,
    fuel: nat,
) -> Seq<Move>
    decreases fuel,
{
    if fuel == 0 {
        Seq::empty()
    } else {
        let nfi = fi + df;
        let nri = ri + dr;
        if !in_range(nfi, nri) {
            Seq::empty()
        } else {
            match board.at(nfi, nri) {
                None => seq![Move { from: from, to: Square::spec_at(nfi, nri) }] + ray_moves(
                    board,
                    color,
                    from,
                    nfi,
                    nri,
                    df,
                    dr,
                    (fuel - 1) as nat,
                ),
                Some(p) => if p.color != color {
                    seq![Move { from: from, to: Square::spec_at(nfi, nri) }]
                } else {
                    Seq::empty()
                },
            }
        }
    }
}

/// A full ray from a piece's own square.
pub open spec fn ray_from(board: Board, color: Color, from: Square, df: int, dr: int) -> Seq<
    Move,
> {
    ray_moves(board, color, from, from@.0, from@.1, df, dr, 7)
}

/// The bishop rule: the four diagonal rays.
pub open spec fn bishop_moves(board: Board, color: Color, from: Square) -> Seq<Move> {
    ray_from(board, color, from, 1, 1) + ray_from(board, color, from, 1, -1) + ray_from(
        board,
        color,
        from,
        -1,
        1,
    ) + ray_from(board, color, from, -1, -1)
}

/// The rook rule: the four orthogonal rays.
pub open spec fn rook_moves(board: Board, color: Color, from: Square) -> Seq<Move> {
    ray_from(board, color, from, 1, 0) + ray_from(board, color, from, -1, 0) + ray_from(
        board,
        color,
        from,
        0,
        1,
    ) + ray_from(board, color, from, 0, -1)
}

/// The queen rule: the bishop's rays followed by the rook's.
pub open spec fn queen_moves(board: Board, color: Color, from: Square) -> Seq<Move> {
    bishop_moves(board, color, from) + rook_moves(board, color, from)
}

/// The closed dispatch over the six generation rules.
pub open spec fn piece_moves(piece: Piece, board: Board, from: Square) -> Seq<Move> {
    match piece.piece_type {
        PieceType::Pawn => pawn_moves(board, piece.color, from),
        PieceType::Knight => knight_moves(board, piece.color, from),
        PieceType::Bishop => bishop_moves(board, piece.color, from),
        PieceType::Rook => rook_moves(board, piece.color, from),
        PieceType::Queen => queen_moves(board, piece.color, from),
        PieceType::King => king_moves(board, piece.color, from),
    }
}

/// Appends the destination, if any, that a knight or king reaches at one
/// fixed offset.
fn push_box_move(
    board: &Board,
    color: Color,
    from: &Square,
    file_offset: i8,
    rank_offset: i8,
    moves: &mut Vec<Move>,
)
    ensures
        final(moves)@ == old(moves)@ + dest_moves(
            *from,
            box_dest(*board, color, from@.0, from@.1, file_offset as int, rank_offset as int),
        ),
{
    let result = board.get_offset(from, file_offset, rank_offset);
    match result {
        Some((new_square, occupant)) => {
            match occupant {
                Some(taken_piece) => {
                    if taken_piece.color != color {
                        moves.push(Move { from: *from, to: new_square });
                    }
                },
                None => {
                    moves.push(Move { from: *from, to: new_square });
                },
            }
        },
        None => {},
    }
    proof {
        assert(moves@ =~= old(moves)@ + dest_moves(
            *from,
            box_dest(*board, color, from@.0, from@.1, file_offset as int, rank_offset as int),
        ));
    }
}

/// Walks one ray of a sliding piece, appending each destination.  The
/// recursion mirrors the ray rule step for step; seven units of fuel are
/// enough to cross the whole board.
#[verifier::rlimit(100)]
#[verifier::spinoff_prover]
fn push_ray_moves(
    board: &Board,
    color: Color,
    from: &Square,
    current: Square,
    file_direction: i8,
    rank_direction: i8,
    fuel: u8,
    moves: &mut Vec<Move>,
)
    ensures
        final(moves)@ == old(moves)@ + ray_moves(
            *board,
            color,
            *from,
            current@.0,
            current@.1,
            file_direction as int,
            rank_direction as int,
            fuel as nat,
        ),
    decreases fuel,
{
    let ghost full = ray_moves(
        *board,
        color,
        *from,
        current@.0,
        current@.1,
        file_direction as int,
        rank_direction as int,
        fuel as nat,
    );
    if fuel == 0 {
        proof {
            assert(moves@ =~= old(moves)@ + full);
        }
        return ;
    }
    let result = board.get_offset(&current, file_direction, rank_direction);
    match result {
        Some((new_square, occupant)) => {
            match occupant {
                Some(taken_piece) => {
                    // The first piece on the ray ends it; an opposing piece
                    // is also a capture destination.
                    if taken_piece.color != color {
                        moves.push(Move { from: *from, to: new_square });
                        proof {
                            assert(full =~= seq![Move { from: *from, to: new_square }]);
                            assert(moves@ =~= old(moves)@ + full);
                        }
                    } else {
                        proof {
                            assert(full =~= Seq::empty());
                            assert(moves@ =~= old(moves)@ + full);
                        }
                    }
                },
                None => {
                    // An empty square is a destination and the ray goes on.
                    moves.push(Move { from: *from, to: new_square });
                    push_ray_moves(
                        board,
                        color,
                        from,
                        new_square,
                        file_direction,
                        rank_direction,
                        fuel - 1,
                        moves,
                    );
                    proof {
                        let rest = ray_moves(
                            *board,
                            color,
                            *from,
                            new_square@.0,
                            new_square@.1,
                            file_direction as int,
                            rank_direction as int,
                            (fuel - 1) as nat,
                        );
                        assert(full =~= seq![Move { from: *from, to: new_square }] + rest);
                        assert(moves@ =~= old(moves)@ + full);
                    }
                },
            }
        },
        None => {
            proof {
                assert(full =~= Seq::empty());
                assert(moves@ =~= old(moves)@ + full);
            }
        },
    }
}

impl Piece {
    /// Enumerates this piece's pseudo-legal destinations from a square, by
    /// the rule its kind selects.
    pub fn get_moves(&self, board: &Board, from_square: &Square) -> (r: Vec<Move>)
        ensures
            r@ == piece_moves(*self, *board, *from_square),
    {
        match self.piece_type {
            PieceType::Pawn => self.get_pawn_moves(board, from_square),
            PieceType::Knight => self.get_knight_moves(board, from_square),
            PieceType::Bishop => self.get_bishop_moves(board, from_square),
            PieceType::Rook => self.get_rook_moves(board, from_square),
            PieceType::Queen => self.get_queen_moves(board, from_square),
            PieceType::King => self.get_king_moves(board, from_square),
        }
    }

    /// The pawn rule: a single push onto an empty forward square, and a
    /// capture onto each diagonally-forward square held by the opposite
    /// colour.
    pub fn get_pawn_moves(&self, board: &Board, from_square: &Square) -> (r: Vec<Move>)
        ensures
            r@ == pawn_moves(*board, self.color, *from_square),
    {
        let mut moves: Vec<Move> = Vec::new();
        let forward: i8 = match self.color {
            Color::White => 1,
            Color::Black => -1,
        };

        // A push may only land on an empty square: pawns cannot capture
        // forwards.
        let result = board.get_offset(from_square, 0, forward);
        if let Some((new_square, None)) = result {
            moves.push(Move { from: *from_square, to: new_square });
        }

        // The two diagonal captures, left first.
        let result = board.get_offset(from_square, -1, forward);
        if let Some((new_square, Some(taken_piece))) = result {
            if taken_piece.color != self.color {
                moves.push(Move { from: *from_square, to: new_square });
            }
        }
        let result = board.get_offset(from_square, 1, forward);
        if let Some((new_square, Some(taken_piece))) = result {
            if taken_piece.color != self.color {
                moves.push(Move { from: *from_square, to: new_square });
            }
        }

        proof {
            assert(moves@ =~= pawn_moves(*board, self.color, *from_square));
        }
        moves
    }

    /// The knight rule: every square two away on one axis and one on the
    /// other, scanned in 5x5-box order.
    pub fn get_knight_moves(&self, board: &Board, from_square: &Square) -> (r: Vec<Move>)
        ensures
            r@ == knight_moves(*board, self.color, *from_square),
    {
        let mut moves: Vec<Move> = Vec::new();
        push_box_move(board, self.color, from_square, -2, -1, &mut moves);
        push_box_move(board, self.color, from_square, -2, 1, &mut moves);
        push_box_move(board, self.color, from_square, -1, -2, &mut moves);
        push_box_move(board, self.color, from_square, -1, 2, &mut moves);
        push_box_move(board, self.color, from_square, 1, -2, &mut moves);
        push_box_move(board, self.color, from_square, 1, 2, &mut moves);
        push_box_move(board, self.color, from_square, 2, -1, &mut moves);
        push_box_move(board, self.color, from_square, 2, 1, &mut moves);
        proof {
            assert(moves@ =~= knight_moves(*board, self.color, *from_square));
        }
        moves
    }

    /// The bishop rule: the four diagonal rays.
    pub fn get_bishop_moves(&self, board: &Board, from_square: &Square) -> (r: Vec<Move>)
        ensures
            r@ == bishop_moves(*board, self.color, *from_square),
    {
        let mut moves: Vec<Move> = Vec::new();
        push_ray_moves(board, self.color, from_square, *from_square, 1, 1, 7, &mut moves);
        push_ray_moves(board, self.color, from_square, *from_square, 1, -1, 7, &mut moves);
        push_ray_moves(board, self.color, from_square, *from_square, -1, 1, 7, &mut moves);
        push_ray_moves(board, self.color, from_square, *from_square, -1, -1, 7, &mut moves);
        proof {
            assert(moves@ =~= bishop_moves(*board, self.color, *from_square));
        }
        moves
    }

    /// The rook rule: the four orthogonal rays.
    pub fn get_rook_moves(&self, board: &Board, from_square: &Square) -> (r: Vec<Move>)
        ensures
            r@ == rook_moves(*board, self.color, *from_square),
    {
        let mut moves: Vec<Move> = Vec::new();
        push_ray_moves(board, self.color, from_square, *from_square, 1, 0, 7, &mut moves);
        push_ray_moves(board, self.color, from_square, *from_square, -1, 0, 7, &mut moves);
        push_ray_moves(board, self.color, from_square, *from_square, 0, 1, 7, &mut moves);
        push_ray_moves(board, self.color, from_square, *from_square, 0, -1, 7, &mut moves);
        proof {
            assert(moves@ =~= rook_moves(*board, self.color, *from_square));
        }
        moves
    }

    /// The queen rule: the bishop's rays followed by the rook's.
    pub fn get_queen_moves(&self, board: &Board, from_square: &Square) -> (r: Vec<Move>)
        ensures
            r@ == queen_moves(*board, self.color, *from_square),
    {
        let mut moves = self.get_bishop_moves(board, from_square);
        let mut orthogonal = self.get_rook_moves(board, from_square);
        moves.append(&mut orthogonal);
        moves
    }

    /// The king rule: the eight unit offsets, scanned in 3x3-box order.
    pub fn get_king_moves(&self, board: &Board, from_square: &Square) -> (r: Vec<Move>)
        ensures
            r@ == king_moves(*board, self.color, *from_square),
    {
        let mut moves: Vec<Move> = Vec::new();
        push_box_move(board, self.color, from_square, -1, -1, &mut moves);
        push_box_move(board, self.color, from_square, -1, 0, &mut moves);
        push_box_move(board, self.color, from_square, -1, 1, &mut moves);
        push_box_move(board, self.color, from_square, 0, -1, &mut moves);
        push_box_move(board, self.color, from_square, 0, 1, &mut moves);
        push_box_move(board, self.color, from_square, 1, -1, &mut moves);
        push_box_move(board, self.color, from_square, 1, 0, &mut moves);
        push_box_move(board, self.color, from_square, 1, 1, &mut moves);
        proof {
            assert(moves@ =~= king_moves(*board, self.color, *from_square));
        }
        moves
    }
}

/// A pawn's move list holds exactly the single push when the forward
/// square is empty, nothing forward when it is blocked or off-board, and
/// one capture for each diagonally-forward square held by the opposite
/// colour; nothing else ever appears in it.
pub proof fn lemma_pawn_moves_exact(board: Board, color: Color, from: Square)
    ensures
        pawn_moves(board, color, from).len() == (if pawn_can_push(board, color, from) {
            1int
        } else {
            0int
        }) + (if pawn_can_capture(board, color, from, -1) {
            1int
        } else {
            0int
        }) + (if pawn_can_capture(board, color, from, 1) {
            1int
        } else {
            0int
        }),
        forall|m: Move|
            pawn_moves(board, color, from).contains(m) <==> ((pawn_can_push(board, color, from)
                && m == (Move { from: from, to: pawn_push_dest(color, from) })) || (
            pawn_can_capture(board, color, from, -1) && m == (Move {
                from: from,
                to: pawn_capture_dest(color, from, -1),
            })) || (pawn_can_capture(board, color, from, 1) && m == (Move {
                from: from,
                to: pawn_capture_dest(color, from, 1),
            }))),
{
    let moves = pawn_moves(board, color, from);
    assert forall|m: Move|
        moves.contains(m) <==> ((pawn_can_push(board, color, from) && m == (Move {
            from: from,
            to: pawn_push_dest(color, from),
        })) || (pawn_can_capture(board, color, from, -1) && m == (Move {
            from: from,
            to: pawn_capture_dest(color, from, -1),
        })) || (pawn_can_capture(board, color, from, 1) && m == (Move {
            from: from,
            to: pawn_capture_dest(color, from, 1),
        }))) by {
        if moves.contains(m) {
            let i = choose|i: int| 0 <= i < moves.len() && moves[i] == m;
            assert(moves[i] == m);
        }
        if pawn_can_push(board, color, from) && m == (Move {
            from: from,
            to: pawn_push_dest(color, from),
        }) {
            assert(moves[0] == m);
        }
        if pawn_can_capture(board, color, from, -1) && m == (Move {
            from: from,
            to: pawn_capture_dest(color, from, -1),
        }) {
            let i = if pawn_can_push(board, color, from) {
                1int
            } else {
                0int
            };
            assert(moves[i] == m);
        }
        if pawn_can_capture(board, color, from, 1) && m == (Move {
            from: from,
            to: pawn_capture_dest(color, from, 1),
        }) {
            let i = moves.len() - 1;
            assert(moves[i] == m);
        }
    }
}

/// A knight far enough from every edge that all eight target squares are
/// on the board, alone there, has exactly eight destinations.
pub proof fn lemma_knight_moves_all_targets_clear(board: Board, color: Color, from: Square)
    requires
        2 <= from@.0 <= 5,
        2 <= from@.1 <= 5,
        forall|fi: int, ri: int|
            in_range(fi, ri) && (fi, ri) != from@ ==> #[trigger] board.at(fi, ri) is None,
    ensures
        knight_moves(board, color, from).len() == 8,
{
    let fi = from@.0;
    let ri = from@.1;
    assert(board.at(fi - 2, ri - 1) is None);
    assert(board.at(fi - 2, ri + 1) is None);
    assert(board.at(fi - 1, ri - 2) is None);
    assert(board.at(fi - 1, ri + 2) is None);
    assert(board.at(fi + 1, ri - 2) is None);
    assert(board.at(fi + 1, ri + 2) is None);
    assert(board.at(fi + 2, ri - 1) is None);
    assert(board.at(fi + 2, ri + 1) is None);
}

/// A knight alone in a corner of the board has exactly two destinations.
pub proof fn lemma_knight_moves_in_corner(board: Board, color: Color, from: Square)
    requires
        from@ == (0int, 0int) || from@ == (0int, 7int) || from@ == (7int, 0int) || from@ == (
            7int,
            7int,
        ),
        forall|fi: int, ri: int|
            in_range(fi, ri) && (fi, ri) != from@ ==> #[trigger] board.at(fi, ri) is None,
    ensures
        knight_moves(board, color, from).len() == 2,
{
    let fi = from@.0;
    let ri = from@.1;
    assert forall|df: int, dr: int|
        in_range(fi + df, ri + dr) && (df, dr) != (0int, 0int) implies #[trigger] board.at(
        fi + df,
        ri + dr,
    ) is None by {
        assert((fi + df, ri + dr) != from@);
    }
}

proof fn lemma_ray_east_on_empty(board: Board, color: Color, from: Square, fi: int, ri: int, fuel: nat)
    requires
        in_range(fi, ri),
        fuel >= 7 - fi,
        forall|a: int| fi < a < 8 ==> #[trigger] board.at(a, ri) is None,
    ensures
        ray_moves(board, color, from, fi, ri, 1, 0, fuel).len() == 7 - fi,
    decreases fuel,
{
    if fi < 7 {
        lemma_ray_east_on_empty(board, color, from, fi + 1, ri, (fuel - 1) as nat);
    }
}

proof fn lemma_ray_west_on_empty(board: Board, color: Color, from: Square, fi: int, ri: int, fuel: nat)
    requires
        in_range(fi, ri),
        fuel >= fi,
        forall|a: int| 0 <= a < fi ==> #[trigger] board.at(a, ri) is None,
    ensures
        ray_moves(board, color, from, fi, ri, -1, 0, fuel).len() == fi,
    decreases fuel,
{
    if fi > 0 {
        lemma_ray_west_on_empty(board, color, from, fi - 1, ri, (fuel - 1) as nat);
    }
}

proof fn lemma_ray_north_on_empty(board: Board, color: Color, from: Square, fi: int, ri: int, fuel: nat)
    requires
        in_range(fi, ri),
        fuel >= 7 - ri,
        forall|b: int| ri < b < 8 ==> #[trigger] board.at(fi, b) is None,
    ensures
        ray_moves(board, color, from, fi, ri, 0, 1, fuel).len() == 7 - ri,
    decreases fuel,
{
    if ri < 7 {
        lemma_ray_north_on_empty(board, color, from, fi, ri + 1, (fuel - 1) as nat);
    }
}

proof fn lemma_ray_south_on_empty(board: Board, color: Color, from: Square, fi: int, ri: int, fuel: nat)
    requires
        in_range(fi, ri),
        fuel >= ri,
        forall|b: int| 0 <= b < ri ==> #[trigger] board.at(fi, b) is None,
    ensures
        ray_moves(board, color, from, fi, ri, 0, -1, fuel).len() == ri,
    decreases fuel,
{
    if ri > 0 {
        lemma_ray_south_on_empty(board, color, from, fi, ri - 1, (fuel - 1) as nat);
    }
}

/// A lone rook on an otherwise-empty board has exactly 14 destinations,
/// wherever it stands: its two orthogonal axes always split into rays of
/// together 7 squares each.
pub proof fn lemma_rook_moves_on_empty_board(board: Board, color: Color, from: Square)
    requires
        forall|fi: int, ri: int|
            in_range(fi, ri) && (fi, ri) != from@ ==> #[trigger] board.at(fi, ri) is None,
    ensures
        rook_moves(board, color, from).len() == 14,
{
    let fi = from@.0;
    let ri = from@.1;
    crate::squares::lemma_square_in_range(from);
    lemma_ray_east_on_empty(board, color, from, fi, ri, 7);
    lemma_ray_west_on_empty(board, color, from, fi, ri, 7);
    lemma_ray_north_on_empty(board, color, from, fi, ri, 7);
    lemma_ray_south_on_empty(board, color, from, fi, ri, 7);
}

/// The square indices `k` steps along a ray of direction `(df, dr)`.
pub open spec fn ray_step(fi: int, ri: int, df: int, dr: int, k: nat) -> (int, int)
    decreases k,
{
    if k == 0 {
        (fi, ri)
    } else {
        let prev = ray_step(fi, ri, df, dr, (k - 1) as nat);
        (prev.0 + df, prev.1 + dr)
    }
}

proof fn lemma_ray_step_shift(fi: int, ri: int, df: int, dr: int, k: nat)
    requires
        k >= 1,
    ensures
        ray_step(fi, ri, df, dr, k) == ray_step(fi + df, ri + dr, df, dr, (k - 1) as nat),
    decreases k,
{
    reveal_with_fuel(ray_step, 2);
    if k > 1 {
        lemma_ray_step_shift(fi, ri, df, dr, (k - 1) as nat);
    }
}

/// In every direction independently, a ray whose first `k - 1` steps cross
/// empty on-board squares and whose `k`-th step meets an opposing piece
/// stops immediately after that piece and includes its square: the
/// destinations are exactly steps 1 through `k`.
pub proof fn lemma_ray_stops_at_opposing(
    board: Board,
    color: Color,
    from: Square,
    fi: int,
    ri: int,
    df: int,
    dr: int,
    fuel: nat,
    k: nat,
)
    requires
        1 <= k <= fuel,
        forall|j: nat|
            #![trigger ray_step(fi, ri, df, dr, j)]
            1 <= j < k ==> in_range(ray_step(fi, ri, df, dr, j).0, ray_step(fi, ri, df, dr, j).1)
                && board.at(ray_step(fi, ri, df, dr, j).0, ray_step(fi, ri, df, dr, j).1) is None,
        in_range(ray_step(fi, ri, df, dr, k).0, ray_step(fi, ri, df, dr, k).1),
        board.at(ray_step(fi, ri, df, dr, k).0, ray_step(fi, ri, df, dr, k).1) matches Some(p)
            && p.color != color,
    ensures
        ray_moves(board, color, from, fi, ri, df, dr, fuel).len() == k,
        forall|j: nat|
            1 <= j <= k ==> ray_moves(board, color, from, fi, ri, df, dr, fuel)[j - 1] == (Move {
                from: from,
                to: Square::spec_at(
                    ray_step(fi, ri, df, dr, j).0,
                    ray_step(fi, ri, df, dr, j).1,
                ),
            }),
    decreases k,
{
    let nfi = fi + df;
    let nri = ri + dr;
    assert(ray_step(fi, ri, df, dr, 1) == (nfi, nri)) by {
        reveal_with_fuel(ray_step, 2);
    }
    if k == 1 {
    } else {
        assert(in_range(nfi, nri) && board.at(nfi, nri) is None);
        assert forall|j: nat|
            #![trigger ray_step(nfi, nri, df, dr, j)]
            1 <= j < k - 1 implies in_range(
            ray_step(nfi, nri, df, dr, j).0,
            ray_step(nfi, nri, df, dr, j).1,
        ) && board.at(
            ray_step(nfi, nri, df, dr, j).0,
            ray_step(nfi, nri, df, dr, j).1,
        ) is None by {
            lemma_ray_step_shift(fi, ri, df, dr, (j + 1) as nat);
            assert(ray_step(fi, ri, df, dr, (j + 1) as nat) == ray_step(nfi, nri, df, dr, j));
        }
        lemma_ray_step_shift(fi, ri, df, dr, k);
        lemma_ray_stops_at_opposing(
            board,
            color,
            from,
            nfi,
            nri,
            df,
            dr,
            (fuel - 1) as nat,
            (k - 1) as nat,
        );
        assert forall|j: nat|
            1 <= j <= k implies ray_moves(board, color, from, fi, ri, df, dr, fuel)[j - 1] == (
        Move {
            from: from,
            to: Square::spec_at(ray_step(fi, ri, df, dr, j).0, ray_step(fi, ri, df, dr, j).1),
        }) by {
            if j >= 2 {
                lemma_ray_step_shift(fi, ri, df, dr, j);
                assert(ray_moves(board, color, from, nfi, nri, df, dr, (fuel - 1) as nat)[j - 2]
                    == (Move {
                    from: from,
                    to: Square::spec_at(
                        ray_step(nfi, nri, df, dr, (j - 1) as nat).0,
                        ray_step(nfi, nri, df, dr, (j - 1) as nat).1,
                    ),
                }));
            }
        }
    }
}

/// In every direction independently, a ray whose first `k - 1` steps cross
/// empty on-board squares and whose `k`-th step meets a piece of the
/// mover's own colour stops immediately before that piece and excludes its
/// square: the destinations are exactly steps 1 through `k - 1`.
pub proof fn lemma_ray_stops_before_own(
    board: Board,
    color: Color,
    from: Square,
    fi: int,
    ri: int,
    df: int,
    dr: int,
    fuel: nat,
    k: nat,
)
    requires
        1 <= k <= fuel,
        forall|j: nat|
            #![trigger ray_step(fi, ri, df, dr, j)]
            1 <= j < k ==> in_range(ray_step(fi, ri, df, dr, j).0, ray_step(fi, ri, df, dr, j).1)
                && board.at(ray_step(fi, ri, df, dr, j).0, ray_step(fi, ri, df, dr, j).1) is None,
        in_range(ray_step(fi, ri, df, dr, k).0, ray_step(fi, ri, df, dr, k).1),
        board.at(ray_step(fi, ri, df, dr, k).0, ray_step(fi, ri, df, dr, k).1) matches Some(p)
            && p.color == color,
    ensures
        ray_moves(board, color, from, fi, ri, df, dr, fuel).len() == k - 1,
        forall|j: nat|
            1 <= j < k ==> ray_moves(board, color, from, fi, ri, df, dr, fuel)[j - 1] == (Move {
                from: from,
                to: Square::spec_at(
                    ray_step(fi, ri, df, dr, j).0,
                    ray_step(fi, ri, df, dr, j).1,
                ),
            }),
    decreases k,
{
    let nfi = fi + df;
    let nri = ri + dr;
    assert(ray_step(fi, ri, df, dr, 1) == (nfi, nri)) by {
        reveal_with_fuel(ray_step, 2);
    }
    if k == 1 {
    } else {
        assert(in_range(nfi, nri) && board.at(nfi, nri) is None);
        assert forall|j: nat|
            #![trigger ray_step(nfi, nri, df, dr, j)]
            1 <= j < k - 1 implies in_range(
            ray_step(nfi, nri, df, dr, j).0,
            ray_step(nfi, nri, df, dr, j).1,
        ) && board.at(
            ray_step(nfi, nri, df, dr, j).0,
            ray_step(nfi, nri, df, dr, j).1,
        ) is None by {
            lemma_ray_step_shift(fi, ri, df, dr, (j + 1) as nat);
            assert(ray_step(fi, ri, df, dr, (j + 1) as nat) == ray_step(nfi, nri, df, dr, j));
        }
        lemma_ray_step_shift(fi, ri, df, dr, k);
        lemma_ray_stops_before_own(
            board,
            color,
            from,
            nfi,
            nri,
            df,
            dr,
            (fuel - 1) as nat,
            (k - 1) as nat,
        );
        assert forall|j: nat|
            1 <= j < k implies ray_moves(board, color, from, fi, ri, df, dr, fuel)[j - 1] == (
        Move {
            from: from,
            to: Square::spec_at(ray_step(fi, ri, df, dr, j).0, ray_step(fi, ri, df, dr, j).1),
        }) by {
            if j >= 2 {
                lemma_ray_step_shift(fi, ri, df, dr, j);
                assert(ray_moves(board, color, from, nfi, nri, df, dr, (fuel - 1) as nat)[j - 2]
                    == (Move {
                    from: from,
                    to: Square::spec_at(
                        ray_step(nfi, nri, df, dr, (j - 1) as nat).0,
                        ray_step(nfi, nri, df, dr, (j - 1) as nat).1,
                    ),
                }));
            }
        }
    }
}

} // verus!


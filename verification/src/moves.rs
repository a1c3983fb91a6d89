//! The Standard Algebraic Notation (SAN) parser: a stateless pipeline from
//! move text to a structured move description.
//!
//! Parsing has two stages.  A handful of whole-string literals (castling,
//! the draw offer and the three game results) are matched first and bypass
//! tokenization.  Any other input is tokenized one character at a time over
//! a small closed alphabet and the token sequence is then matched against a
//! fixed table of shape patterns.  The parser never consults board state,
//! and its one failure kind is `NotAMove`.

use vstd::prelude::*;

use crate::pieces::PieceType;
use crate::squares::File;
use crate::squares::Rank;
use crate::squares::Square;

verus! {

/// The two castling moves.
#[derive(Debug, Copy, Clone, PartialEq, Eq)]
pub enum CastleType {
    Short,
    Long,
}

/// The origin hint SAN adds when several like pieces could reach the same
/// destination: a file, a rank, or a whole square.
#[derive(Debug, Copy, Clone, PartialEq, Eq)]
pub enum Disambiguation {
    File(File),
    Rank(Rank),
    Square(Square),
}

/// The move a SAN string describes, before its check annotation.
#[derive(Debug, Copy, Clone, PartialEq, Eq)]
pub enum MoveType {
    Normal { from: Option<Disambiguation>, to: Square, piece: PieceType },
    Capture { from: Option<Disambiguation>, to: Square, piece: PieceType },
    Castle(CastleType),
    Promotion { to: Square, promote_to: PieceType },
    PromotionCapture { from: File, to: Square, promote_to: PieceType },
}

/// The outcome a game-result literal announces.
#[derive(Debug, Copy, Clone, PartialEq, Eq)]
pub enum GameResult {
    WhiteWins,
    BlackWins,
    Draw,
}

/// A parsed SAN input: a move wrapped in its check annotation, a draw
/// offer, or the end of the game.
#[derive(Debug, Copy, Clone, PartialEq, Eq)]
pub enum Move {
    NoCheck(MoveType),
    Check(MoveType),
    Checkmate(MoveType),
    DrawOffer,
    EndOfGame(GameResult),
}

/// A symbol for one character of the input.
#[derive(Debug, Copy, Clone, PartialEq, Eq)]
pub enum InputToken {
    Piece(PieceType),
    File(File),
    Rank(Rank),
    Capture,
    Promotion,
    Check,
    Checkmate,
}

/// The parser's one failure kind, raised at tokenization for an
/// unrecognized character and at pattern matching for an unrecognized
/// shape.
#[derive(Debug, Copy, Clone, PartialEq, Eq)]
pub enum MoveParseError {
    NotAMove,
}

/// The token one input character stands for, if any: `x`, `=`, `+` and `#`
/// are operators, an uppercase piece letter names a piece, a lowercase
/// `a`-`h` a file, a digit `1`-`8` a rank.
pub open spec fn spec_char_token(c: char) -> Option<InputToken> {
    if c == 'x' {
        Some(InputToken::Capture)
    } else if c == '=' {
        Some(InputToken::Promotion)
    } else if c == '+' {
        Some(InputToken::Check)
    } else if c == '#' {
        Some(InputToken::Checkmate)
    } else {
        match PieceType::spec_from_char(c) {
            Some(piece) => Some(InputToken::Piece(piece)),
            None => match File::spec_from_char(c) {
                Some(file) => Some(InputToken::File(file)),
                None => match Rank::spec_from_char(c) {
                    Some(rank) => Some(InputToken::Rank(rank)),
                    None => None,
                },
            },
        }
    }
}

/// One token per character, or nothing when any character is
/// unrecognized.
pub open spec fn spec_tokenize(s: Seq<char>) -> Option<Seq<InputToken>>
    decreases s.len(),
{
    if s.len() == 0 {
        Some(Seq::empty())
    } else {
        match (spec_tokenize(s.drop_last()), spec_char_token(s.last())) {
            (Some(tokens), Some(token)) => Some(tokens.push(token)),
            _ => None,
        }
    }
}

/// A single unrecognized character fails the whole tokenization.
proof fn lemma_tokenize_fails(s: Seq<char>, i: int)
    requires
        0 <= i < s.len(),
        spec_char_token(s[i]) is None,
    ensures
        spec_tokenize(s) is None,
    decreases s.len(),
{
    if i < s.len() - 1 {
        lemma_tokenize_fails(s.drop_last(), i);
    }
}

/// The fixed table of token-sequence shapes, in the order the parser tries
/// them.  A sequence matching no shape is not a move.
pub open spec fn spec_move_type(tokens: Seq<InputToken>) -> Option<MoveType> {
    if tokens.len() == 2 {
        match (tokens[0], tokens[1]) {
            (InputToken::File(f), InputToken::Rank(r)) => Some(
                MoveType::Normal {
                    from: None,
                    to: Square::spec_at(f@, r@),
                    piece: PieceType::Pawn,
                },
            ),
            _ => None,
        }
    } else if tokens.len() == 3 {
        match (tokens[0], tokens[1], tokens[2]) {
            (InputToken::Piece(p), InputToken::File(f), InputToken::Rank(r)) => Some(
                MoveType::Normal { from: None, to: Square::spec_at(f@, r@), piece: p },
            ),
            _ => None,
        }
    } else if tokens.len() == 4 {
        match (tokens[0], tokens[1], tokens[2], tokens[3]) {
            (
                InputToken::Piece(p),
                InputToken::File(ff),
                InputToken::File(f),
                InputToken::Rank(r),
            ) => Some(
                MoveType::Normal {
                    from: Some(Disambiguation::File(ff)),
                    to: Square::spec_at(f@, r@),
                    piece: p,
                },
            ),
            (
                InputToken::Piece(p),
                InputToken::Rank(fr),
                InputToken::File(f),
                InputToken::Rank(r),
            ) => Some(
                MoveType::Normal {
                    from: Some(Disambiguation::Rank(fr)),
                    to: Square::spec_at(f@, r@),
                    piece: p,
                },
            ),
            (
                InputToken::Piece(p),
                InputToken::Capture,
                InputToken::File(f),
                InputToken::Rank(r),
            ) => Some(
                MoveType::Capture { from: None, to: Square::spec_at(f@, r@), piece: p },
            ),
            (
                InputToken::File(ff),
                InputToken::Capture,
                InputToken::File(f),
                InputToken::Rank(r),
            ) => Some(
                MoveType::Capture {
                    from: Some(Disambiguation::File(ff)),
                    to: Square::spec_at(f@, r@),
                    piece: PieceType::Pawn,
                },
            ),
            (
                InputToken::File(f),
                InputToken::Rank(r),
                InputToken::Promotion,
                InputToken::Piece(pp),
            ) => Some(MoveType::Promotion { to: Square::spec_at(f@, r@), promote_to: pp }),
            _ => None,
        }
    } else if tokens.len() == 5 {
        match (tokens[0], tokens[1], tokens[2], tokens[3], tokens[4]) {
            (
                InputToken::Piece(p),
                InputToken::File(ff),
                InputToken::Rank(fr),
                InputToken::File(f),
                InputToken::Rank(r),
            ) => Some(
                MoveType::Normal {
                    from: Some(Disambiguation::Square(Square::spec_at(ff@, fr@))),
                    to: Square::spec_at(f@, r@),
                    piece: p,
                },
            ),
            (
                InputToken::Piece(p),
                InputToken::File(ff),
                InputToken::Capture,
                InputToken::File(f),
                InputToken::Rank(r),
            ) => Some(
                MoveType::Capture {
                    from: Some(Disambiguation::File(ff)),
                    to: Square::spec_at(f@, r@),
                    piece: p,
                },
            ),
            (
                InputToken::Piece(p),
                InputToken::Rank(fr),
                InputToken::Capture,
                InputToken::File(f),
                InputToken::Rank(r),
            ) => Some(
                MoveType::Capture {
                    from: Some(Disambiguation::Rank(fr)),
                    to: Square::spec_at(f@, r@),
                    piece: p,
                },
            ),
            _ => None,
        }
    } else if tokens.len() == 6 {
        match (tokens[0], tokens[1], tokens[2], tokens[3], tokens[4], tokens[5]) {
            (
                InputToken::Piece(p),
                InputToken::File(ff),
                InputToken::Rank(fr),
                InputToken::Capture,
                InputToken::File(f),
                InputToken::Rank(r),
            ) => Some(
                MoveType::Capture {
                    from: Some(Disambiguation::Square(Square::spec_at(ff@, fr@))),
                    to: Square::spec_at(f@, r@),
                    piece: p,
                },
            ),
            (
                InputToken::File(ff),
                InputToken::Capture,
                InputToken::File(f),
                InputToken::Rank(r),
                InputToken::Promotion,
                InputToken::Piece(pp),
            ) => Some(
                MoveType::PromotionCapture {
                    from: ff,
                    to: Square::spec_at(f@, r@),
                    promote_to: pp,
                },
            ),
            _ => None,
        }
    } else {
        None
    }
}

/// What a SAN input means, if anything: first the whole-string literals,
/// then tokenization, then a trailing `+` or `#` is stripped and names the
/// annotation, and the rest is matched against the shape table.
pub open spec fn spec_parse(s: Seq<char>) -> Option<Move> {
    if s == "O-O"@ {
        Some(Move::NoCheck(MoveType::Castle(CastleType::Short)))
    } else if s == "O-O-O"@ {
        Some(Move::NoCheck(MoveType::Castle(CastleType::Long)))
    } else if s == "(=)"@ {
        Some(Move::DrawOffer)
    } else if s == "1-0"@ {
        Some(Move::EndOfGame(GameResult::WhiteWins))
    } else if s == "0-1"@ {
        Some(Move::EndOfGame(GameResult::BlackWins))
    } else if s == "1/2-1/2"@ {
        Some(Move::EndOfGame(GameResult::Draw))
    } else {
        match spec_tokenize(s) {
            None => None,
            Some(tokens) => if tokens.len() > 0 && tokens.last() == InputToken::Check {
                match spec_move_type(tokens.drop_last()) {
                    Some(mt) => Some(Move::Check(mt)),
                    None => None,
                }
            } else if tokens.len() > 0 && tokens.last() == InputToken::Checkmate {
                match spec_move_type(tokens.drop_last()) {
                    Some(mt) => Some(Move::Checkmate(mt)),
                    None => None,
                }
            } else {
                match spec_move_type(tokens) {
                    Some(mt) => Some(Move::NoCheck(mt)),
                    None => None,
                }
            },
        }
    }
}

/// Character-by-character string equality.
fn str_eq(a: &str, b: &str) -> (r: bool)
    ensures
        r == (a@ == b@),
{
    let a_len = a.unicode_len();
    if a_len != b.unicode_len() {
        return false;
    }
    let mut i: usize = 0;
    while i < a_len
        invariant
            i <= a_len,
            a_len == a@.len(),
            a@.len() == b@.len(),
            forall|j: int| 0 <= j < i ==> a@[j] == b@[j],
        decreases a_len - i,
    {
        if a.get_char(i) != b.get_char(i) {
            return false;
        }
        i = i + 1;
    }
    proof {
        assert(a@ =~= b@);
    }
    true
}

impl Move {
    /// One token per input character, or `NotAMove` at the first
    /// unrecognized character.
    pub fn tokenize(input: &str) -> (r: Result<Vec<InputToken>, MoveParseError>)
        ensures
            match spec_tokenize(input@) {
                Some(tokens) => r matches Ok(v) && v@ == tokens,
                None => r == Err::<Vec<InputToken>, MoveParseError>(MoveParseError::NotAMove),
            },
    {
        let n = input.unicode_len();
        let mut tokens: Vec<InputToken> = Vec::new();
        let mut i: usize = 0;
        while i < n
            invariant
                i <= n,
                n == input@.len(),
                spec_tokenize(input@.take(i as int)) == Some(tokens@),
            decreases n - i,
        {
            let c = input.get_char(i);
            let token: InputToken;
            if c == 'x' {
                token = InputToken::Capture;
            } else if c == '=' {
                token = InputToken::Promotion;
            } else if c == '+' {
                token = InputToken::Check;
            } else if c == '#' {
                token = InputToken::Checkmate;
            } else if let Some(piece) = PieceType::from_char(c) {
                token = InputToken::Piece(piece);
            } else if let Some(file) = File::from_char(c) {
                token = InputToken::File(file);
            } else if let Some(rank) = Rank::from_char(c) {
                token = InputToken::Rank(rank);
            } else {
                proof {
                    lemma_tokenize_fails(input@, i as int);
                }
                return Err(MoveParseError::NotAMove);
            }
            tokens.push(token);
            proof {
                assert(input@.take(i as int + 1).drop_last() =~= input@.take(i as int));
                assert(input@.take(i as int + 1).last() == input@[i as int]);
            }
            i = i + 1;
        }
        proof {
            assert(input@.take(n as int) =~= input@);
        }
        Ok(tokens)
    }

    /// Matches a token sequence against the shape table.
    pub fn parse_move_type(input_parts: &Vec<InputToken>) -> (r: Result<MoveType, MoveParseError>)
        ensures
            match spec_move_type(input_parts@) {
                Some(mt) => r == Ok::<MoveType, MoveParseError>(mt),
                None => r == Err::<MoveType, MoveParseError>(MoveParseError::NotAMove),
            },
    {
        let n = input_parts.len();
        if n == 2 {
            match (input_parts[0], input_parts[1]) {
                (InputToken::File(f), InputToken::Rank(r)) => Ok(
                    MoveType::Normal {
                        from: None,
                        to: Square::new(f, r),
                        piece: PieceType::Pawn,
                    },
                ),
                _ => Err(MoveParseError::NotAMove),
            }
        } else if n == 3 {
            match (input_parts[0], input_parts[1], input_parts[2]) {
                (InputToken::Piece(p), InputToken::File(f), InputToken::Rank(r)) => Ok(
                    MoveType::Normal { from: None, to: Square::new(f, r), piece: p },
                ),
                _ => Err(MoveParseError::NotAMove),
            }
        } else if n == 4 {
            match (input_parts[0], input_parts[1], input_parts[2], input_parts[3]) {
                (
                    InputToken::Piece(p),
                    InputToken::File(ff),
                    InputToken::File(f),
                    InputToken::Rank(r),
                ) => Ok(
                    MoveType::Normal {
                        from: Some(Disambiguation::File(ff)),
                        to: Square::new(f, r),
                        piece: p,
                    },
                ),
                (
                    InputToken::Piece(p),
                    InputToken::Rank(fr),
                    InputToken::File(f),
                    InputToken::Rank(r),
                ) => Ok(
                    MoveType::Normal {
                        from: Some(Disambiguation::Rank(fr)),
                        to: Square::new(f, r),
                        piece: p,
                    },
                ),
                (
                    InputToken::Piece(p),
                    InputToken::Capture,
                    InputToken::File(f),
                    InputToken::Rank(r),
                ) => Ok(MoveType::Capture { from: None, to: Square::new(f, r), piece: p }),
                (
                    InputToken::File(ff),
                    InputToken::Capture,
                    InputToken::File(f),
                    InputToken::Rank(r),
                ) => Ok(
                    MoveType::Capture {
                        from: Some(Disambiguation::File(ff)),
                        to: Square::new(f, r),
                        piece: PieceType::Pawn,
                    },
                ),
                (
                    InputToken::File(f),
                    InputToken::Rank(r),
                    InputToken::Promotion,
                    InputToken::Piece(pp),
                ) => Ok(MoveType::Promotion { to: Square::new(f, r), promote_to: pp }),
                _ => Err(MoveParseError::NotAMove),
            }
        } else if n == 5 {
            match (
                input_parts[0],
                input_parts[1],
                input_parts[2],
                input_parts[3],
                input_parts[4],
            ) {
                (
                    InputToken::Piece(p),
                    InputToken::File(ff),
                    InputToken::Rank(fr),
                    InputToken::File(f),
                    InputToken::Rank(r),
                ) => Ok(
                    MoveType::Normal {
                        from: Some(Disambiguation::Square(Square::new(ff, fr))),
                        to: Square::new(f, r),
                        piece: p,
                    },
                ),
                (
                    InputToken::Piece(p),
                    InputToken::File(ff),
                    InputToken::Capture,
                    InputToken::File(f),
                    InputToken::Rank(r),
                ) => Ok(
                    MoveType::Capture {
                        from: Some(Disambiguation::File(ff)),
                        to: Square::new(f, r),
                        piece: p,
                    },
                ),
                (
                    InputToken::Piece(p),
                    InputToken::Rank(fr),
                    InputToken::Capture,
                    InputToken::File(f),
                    InputToken::Rank(r),
                ) => Ok(
                    MoveType::Capture {
                        from: Some(Disambiguation::Rank(fr)),
                        to: Square::new(f, r),
                        piece: p,
                    },
                ),
                _ => Err(MoveParseError::NotAMove),
            }
        } else if n == 6 {
            match (
                input_parts[0],
                input_parts[1],
                input_parts[2],
                input_parts[3],
                input_parts[4],
                input_parts[5],
            ) {
                (
                    InputToken::Piece(p),
                    InputToken::File(ff),
                    InputToken::Rank(fr),
                    InputToken::Capture,
                    InputToken::File(f),
                    InputToken::Rank(r),
                ) => Ok(
                    MoveType::Capture {
                        from: Some(Disambiguation::Square(Square::new(ff, fr))),
                        to: Square::new(f, r),
                        piece: p,
                    },
                ),
                (
                    InputToken::File(ff),
                    InputToken::Capture,
                    InputToken::File(f),
                    InputToken::Rank(r),
                    InputToken::Promotion,
                    InputToken::Piece(pp),
                ) => Ok(
                    MoveType::PromotionCapture {
                        from: ff,
                        to: Square::new(f, r),
                        promote_to: pp,
                    },
                ),
                _ => Err(MoveParseError::NotAMove),
            }
        } else {
            Err(MoveParseError::NotAMove)
        }
    }

    /// Parses one SAN input.  The whole-string literals take priority; any
    /// other input is tokenized, a trailing `+` or `#` names the check
    /// annotation, and the remaining tokens must match a shape of the
    /// table.
    pub fn parse(input: &str) -> (r: Result<Move, MoveParseError>)
        ensures
            match spec_parse(input@) {
                Some(m) => r == Ok::<Move, MoveParseError>(m),
                None => r == Err::<Move, MoveParseError>(MoveParseError::NotAMove),
            },
    {
        if str_eq(input, "O-O") {
            return Ok(Move::NoCheck(MoveType::Castle(CastleType::Short)));
        }
        if str_eq(input, "O-O-O") {
            return Ok(Move::NoCheck(MoveType::Castle(CastleType::Long)));
        }
        if str_eq(input, "(=)") {
            return Ok(Move::DrawOffer);
        }
        if str_eq(input, "1-0") {
            return Ok(Move::EndOfGame(GameResult::WhiteWins));
        }
        if str_eq(input, "0-1") {
            return Ok(Move::EndOfGame(GameResult::BlackWins));
        }
        if str_eq(input, "1/2-1/2") {
            return Ok(Move::EndOfGame(GameResult::Draw));
        }
        let mut tokens = match Move::tokenize(input) {
            Ok(tokens) => tokens,
            Err(e) => {
                return Err(e);
            },
        };
        let n = tokens.len();
        if n > 0 {
            let ghost full_tokens = tokens@;
            let last = tokens[n - 1];
            match last {
                InputToken::Check => {
                    tokens.pop();
                    proof {
                        assert(tokens@ =~= full_tokens.drop_last());
                    }
                    return match Move::parse_move_type(&tokens) {
                        Ok(mt) => Ok(Move::Check(mt)),
                        Err(e) => Err(e),
                    };
                },
                InputToken::Checkmate => {
                    tokens.pop();
                    proof {
                        assert(tokens@ =~= full_tokens.drop_last());
                    }
                    return match Move::parse_move_type(&tokens) {
                        Ok(mt) => Ok(Move::Checkmate(mt)),
                        Err(e) => Err(e),
                    };
                },
                _ => {},
            }
        }
        match Move::parse_move_type(&tokens) {
            Ok(mt) => Ok(Move::NoCheck(mt)),
            Err(e) => Err(e),
        }
    }
}

} // verus!


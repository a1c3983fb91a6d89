//! The coordinate model: files `a`-`h`, ranks `1`-`8`, and board squares.
//!
//! A `Square` pairs a `File` and a `Rank`.  Because the file and rank are
//! eight-valued enums, every square is on the board by construction; the
//! zero-based indices a square exposes are always in `[0, 8)`.  Building a
//! square from raw indices goes through `Square::from_index`, whose
//! precondition demands in-range indices.

use vstd::prelude::*;

verus! {

/// A board file (column), `a` through `h`.
#[derive(Debug, PartialEq, Eq, Structural, Hash, Copy, Clone)]
pub enum File {
    A,
    B,
    C,
    D,
    E,
    F,
    G,
    H,
}

/// A board rank (row), `1` through `8`.
#[derive(Debug, PartialEq, Eq, Structural, Hash, Copy, Clone)]
pub enum Rank {
    One,
    Two,
    Three,
    Four,
    Five,
    Six,
    Seven,
    Eight,
}

impl View for File {
    type V = int;

    /// A file is abstractly its zero-based index: `a` is 0, `h` is 7.
    open spec fn view(&self) -> int {
        match self {
            File::A => 0,
            File::B => 1,
            File::C => 2,
            File::D => 3,
            File::E => 4,
            File::F => 5,
            File::G => 6,
            File::H => 7,
        }
    }
}

impl View for Rank {
    type V = int;

    /// A rank is abstractly its zero-based index: rank `1` is 0, rank `8` is 7.
    open spec fn view(&self) -> int {
        match self {
            Rank::One => 0,
            Rank::Two => 1,
            Rank::Three => 2,
            Rank::Four => 3,
            Rank::Five => 4,
            Rank::Six => 5,
            Rank::Seven => 6,
            Rank::Eight => 7,
        }
    }
}

/// The file whose zero-based index is `i`, for `i` in `[0, 8)`.
pub open spec fn file_of_index(i: int) -> File {
    if i == 0 {
        File::A
    } else if i == 1 {
        File::B
    } else if i == 2 {
        File::C
    } else if i == 3 {
        File::D
    } else if i == 4 {
        File::E
    } else if i == 5 {
        File::F
    } else if i == 6 {
        File::G
    } else {
        File::H
    }
}

/// The rank whose zero-based index is `i`, for `i` in `[0, 8)`.
pub open spec fn rank_of_index(i: int) -> Rank {
    if i == 0 {
        Rank::One
    } else if i == 1 {
        Rank::Two
    } else if i == 2 {
        Rank::Three
    } else if i == 3 {
        Rank::Four
    } else if i == 4 {
        Rank::Five
    } else if i == 5 {
        Rank::Six
    } else if i == 6 {
        Rank::Seven
    } else {
        Rank::Eight
    }
}

impl File {
    /// The file named by a lowercase letter `a`-`h`, if any.
    pub open spec fn spec_from_char(c: char) -> Option<File> {
        match c {
            'a' => Some(File::A),
            'b' => Some(File::B),
            'c' => Some(File::C),
            'd' => Some(File::D),
            'e' => Some(File::E),
            'f' => Some(File::F),
            'g' => Some(File::G),
            'h' => Some(File::H),
            _ => None,
        }
    }

    pub fn from_char(c: char) -> (r: Option<File>)
        ensures
            r == File::spec_from_char(c),
    {
        match c {
            'a' => Some(File::A),
            'b' => Some(File::B),
            'c' => Some(File::C),
            'd' => Some(File::D),
            'e' => Some(File::E),
            'f' => Some(File::F),
            'g' => Some(File::G),
            'h' => Some(File::H),
            _ => None,
        }
    }

    pub fn from_index(i: usize) -> (r: Option<File>)
        ensures
            i < 8 ==> r == Some(file_of_index(i as int)),
            i >= 8 ==> r is None,
    {
        match i {
            0 => Some(File::A),
            1 => Some(File::B),
            2 => Some(File::C),
            3 => Some(File::D),
            4 => Some(File::E),
            5 => Some(File::F),
            6 => Some(File::G),
            7 => Some(File::H),
            _ => None,
        }
    }

    /// The zero-based index of this file: `a` is 0, `h` is 7.
    pub fn to_index(self) -> (r: usize)
        ensures
            r as int == self@,
            r < 8,
    {
        match self {
            File::A => 0,
            File::B => 1,
            File::C => 2,
            File::D => 3,
            File::E => 4,
            File::F => 5,
            File::G => 6,
            File::H => 7,
        }
    }

    /// The lowercase letter naming this file.
    pub open spec fn spec_to_char(self) -> char {
        match self {
            File::A => 'a',
            File::B => 'b',
            File::C => 'c',
            File::D => 'd',
            File::E => 'e',
            File::F => 'f',
            File::G => 'g',
            File::H => 'h',
        }
    }

    pub fn to_char(&self) -> (r: char)
        ensures
            r == self.spec_to_char(),
    {
        match self {
            File::A => 'a',
            File::B => 'b',
            File::C => 'c',
            File::D => 'd',
            File::E => 'e',
            File::F => 'f',
            File::G => 'g',
            File::H => 'h',
        }
    }
}

impl Rank {
    /// The rank named by a digit `1`-`8`, if any.
    pub open spec fn spec_from_char(c: char) -> Option<Rank> {
        match c {
            '1' => Some(Rank::One),
            '2' => Some(Rank::Two),
            '3' => Some(Rank::Three),
            '4' => Some(Rank::Four),
            '5' => Some(Rank::Five),
            '6' => Some(Rank::Six),
            '7' => Some(Rank::Seven),
            '8' => Some(Rank::Eight),
            _ => None,
        }
    }

    pub fn from_char(c: char) -> (r: Option<Rank>)
        ensures
            r == Rank::spec_from_char(c),
    {
        match c {
            '1' => Some(Rank::One),
            '2' => Some(Rank::Two),
            '3' => Some(Rank::Three),
            '4' => Some(Rank::Four),
            '5' => Some(Rank::Five),
            '6' => Some(Rank::Six),
            '7' => Some(Rank::Seven),
            '8' => Some(Rank::Eight),
            _ => None,
        }
    }

    pub fn from_index(i: usize) -> (r: Option<Rank>)
        ensures
            i < 8 ==> r == Some(rank_of_index(i as int)),
            i >= 8 ==> r is None,
    {
        match i {
            0 => Some(Rank::One),
            1 => Some(Rank::Two),
            2 => Some(Rank::Three),
            3 => Some(Rank::Four),
            4 => Some(Rank::Five),
            5 => Some(Rank::Six),
            6 => Some(Rank::Seven),
            7 => Some(Rank::Eight),
            _ => None,
        }
    }

    /// The zero-based index of this rank: rank `1` is 0, rank `8` is 7.
    pub fn to_index(self) -> (r: usize)
        ensures
            r as int == self@,
            r < 8,
    {
        match self {
            Rank::One => 0,
            Rank::Two => 1,
            Rank::Three => 2,
            Rank::Four => 3,
            Rank::Five => 4,
            Rank::Six => 5,
            Rank::Seven => 6,
            Rank::Eight => 7,
        }
    }
}

/// A board square: a file and a rank.
///
/// Every value of this type names a real square of the 8x8 board, so the
/// indices it exposes are in range by construction and need no runtime
/// checks anywhere in the move generator.
#[derive(Debug, PartialEq, Eq, Structural, Hash, Copy, Clone)]
pub struct Square {
    pub rank: Rank,
    pub file: File,
}

impl View for Square {
    type V = (int, int);

    /// A square is abstractly its pair of zero-based (file, rank) indices.
    open spec fn view(&self) -> (int, int) {
        (self.file@, self.rank@)
    }
}

impl Square {
    /// The square at zero-based indices `(fi, ri)`, for indices in `[0, 8)`.
    pub open spec fn spec_at(fi: int, ri: int) -> Square {
        Square { rank: rank_of_index(ri), file: file_of_index(fi) }
    }

    pub fn new(file: File, rank: Rank) -> (r: Square)
        ensures
            r == Square::spec_at(file@, rank@),
            r@ == (file@, rank@),
    {
        Square { file, rank }
    }

    /// Builds the square at a pair of zero-based indices.  Passing an index
    /// outside `[0, 8)` is a programming error, excluded by precondition;
    /// all board code reaches this only through a bounds check.
    pub fn from_index(file_index: usize, rank_index: usize) -> (r: Square)
        requires
            file_index < 8,
            rank_index < 8,
        ensures
            r == Square::spec_at(file_index as int, rank_index as int),
            r@ == (file_index as int, rank_index as int),
    {
        let file = File::from_index(file_index).unwrap();
        let rank = Rank::from_index(rank_index).unwrap();
        Square { file, rank }
    }

    pub fn get_file_index(&self) -> (r: usize)
        ensures
            r as int == self@.0,
            r < 8,
    {
        self.file.to_index()
    }

    pub fn get_rank_index(&self) -> (r: usize)
        ensures
            r as int == self@.1,
            r < 8,
    {
        self.rank.to_index()
    }

    /// Whether the file and rank indices have an even sum.
    pub fn is_light_square(&self) -> (r: bool)
        ensures
            r == ((self@.0 + self@.1) % 2 == 0),
    {
        (self.file.to_index() + self.rank.to_index()) % 2 == 0
    }
}

/// Every square's indices are in `[0, 8)`: the file and rank enums admit no
/// other values.
pub proof fn lemma_square_in_range(sq: Square)
    ensures
        0 <= sq@.0 < 8,
        0 <= sq@.1 < 8,
{
}

} // verus!

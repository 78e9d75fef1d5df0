//! The alphabet of face turns: six faces, three kinds of turn, eighteen moves.

use vstd::prelude::*;

verus! {

/// One of the six sides of the cube.
#[derive(Debug, Clone, Copy, PartialEq, Eq, Hash, Structural)]
pub enum Face {
    U,
    D,
    F,
    B,
    L,
    R,
}

/// How far, and which way, a face is turned.
#[derive(Debug, Clone, Copy, PartialEq, Eq, Hash, Structural)]
pub enum Turn {
    /// A quarter turn clockwise, written bare.
    Clockwise,
    /// A half turn, written with a trailing `2`.
    Double,
    /// A quarter turn counter-clockwise, written with a trailing `'`.
    CounterClockwise,
}

/// A single turn of one face. The plain name is the clockwise quarter turn,
/// `2` marks the half turn and `p` the counter-clockwise quarter turn.
#[derive(Debug, Clone, Copy, PartialEq, Eq, Hash, Structural)]
pub enum Move {
    U,
    U2,
    Up,
    D,
    D2,
    Dp,
    F,
    F2,
    Fp,
    B,
    B2,
    Bp,
    L,
    L2,
    Lp,
    R,
    R2,
    Rp,
}

/// Every move, in declaration order.
#[verifier::opaque]
pub open spec fn alphabet() -> Seq<Move> {
    seq![
        Move::U, Move::U2, Move::Up,
        Move::D, Move::D2, Move::Dp,
        Move::F, Move::F2, Move::Fp,
        Move::B, Move::B2, Move::Bp,
        Move::L, Move::L2, Move::Lp,
        Move::R, Move::R2, Move::Rp,
    ]
}

impl Face {
    /// The letter that names the face.
    pub open spec fn spec_letter(self) -> char {
        match self {
            Face::U => 'U',
            Face::D => 'D',
            Face::F => 'F',
            Face::B => 'B',
            Face::L => 'L',
            Face::R => 'R',
        }
    }

    /// The face's letter as a one-character string.
    pub fn letter(&self) -> (s: &'static str)
        ensures
            s@ == seq![self.spec_letter()],
    {
        proof {
            reveal_strlit("U");
            reveal_strlit("D");
            reveal_strlit("F");
            reveal_strlit("B");
            reveal_strlit("L");
            reveal_strlit("R");
        }
        let s = match self {
            Face::U => "U",
            Face::D => "D",
            Face::F => "F",
            Face::B => "B",
            Face::L => "L",
            Face::R => "R",
        };
        assert(s@ =~= seq![self.spec_letter()]);
        s
    }
}

impl Turn {
    /// What is written after the face's letter.
    pub open spec fn spec_suffix(self) -> Seq<char> {
        match self {
            Turn::Clockwise => seq![],
            Turn::Double => seq!['2'],
            Turn::CounterClockwise => seq!['\''],
        }
    }

    /// The suffix as a string: empty, `2` or `'`.
    pub fn suffix(&self) -> (s: &'static str)
        ensures
            s@ == self.spec_suffix(),
    {
        proof {
            reveal_strlit("");
            reveal_strlit("2");
            reveal_strlit("'");
        }
        let s = match self {
            Turn::Clockwise => "",
            Turn::Double => "2",
            Turn::CounterClockwise => "'",
        };
        assert(s@ =~= self.spec_suffix());
        s
    }
}

impl Move {
    /// The face that the move turns.
    pub open spec fn spec_face(&self) -> Face {
        match self {
            Move::U | Move::U2 | Move::Up => Face::U,
            Move::D | Move::D2 | Move::Dp => Face::D,
            Move::F | Move::F2 | Move::Fp => Face::F,
            Move::B | Move::B2 | Move::Bp => Face::B,
            Move::L | Move::L2 | Move::Lp => Face::L,
            Move::R | Move::R2 | Move::Rp => Face::R,
        }
    }

    /// The kind of turn.
    pub open spec fn spec_turn(&self) -> Turn {
        match self {
            Move::U | Move::D | Move::F | Move::B | Move::L | Move::R => Turn::Clockwise,
            Move::U2 | Move::D2 | Move::F2 | Move::B2 | Move::L2 | Move::R2 => Turn::Double,
            Move::Up | Move::Dp | Move::Fp | Move::Bp | Move::Lp | Move::Rp => {
                Turn::CounterClockwise
            },
        }
    }

    /// The move in standard notation: the face's letter, then the suffix of
    /// the turn.
    pub open spec fn spec_notation(self) -> Seq<char> {
        seq![self.spec_face().spec_letter()] + self.spec_turn().spec_suffix()
    }

    #[verifier::when_used_as_spec(spec_face)]
    pub fn face(&self) -> (f: Face)
        ensures
            f == self.spec_face(),
    {
        match self {
            Move::U | Move::U2 | Move::Up => Face::U,
            Move::D | Move::D2 | Move::Dp => Face::D,
            Move::F | Move::F2 | Move::Fp => Face::F,
            Move::B | Move::B2 | Move::Bp => Face::B,
            Move::L | Move::L2 | Move::Lp => Face::L,
            Move::R | Move::R2 | Move::Rp => Face::R,
        }
    }

    #[verifier::when_used_as_spec(spec_turn)]
    pub fn turn(&self) -> (t: Turn)
        ensures
            t == self.spec_turn(),
    {
        match self {
            Move::U | Move::D | Move::F | Move::B | Move::L | Move::R => Turn::Clockwise,
            Move::U2 | Move::D2 | Move::F2 | Move::B2 | Move::L2 | Move::R2 => Turn::Double,
            Move::Up | Move::Dp | Move::Fp | Move::Bp | Move::Lp | Move::Rp => {
                Turn::CounterClockwise
            },
        }
    }

    /// Renders the move for display: `U`, `U2`, `U'` and so on.
    pub fn notation(&self) -> (s: String)
        ensures
            s@ == self.spec_notation(),
    {
        let mut s = self.face().letter().to_owned();
        s.append(self.turn().suffix());
        s
    }

    /// All eighteen moves, in declaration order.
    pub fn all() -> (v: Vec<Move>)
        ensures
            v@ == alphabet(),
    {
        let v = vec![
            Move::U, Move::U2, Move::Up,
            Move::D, Move::D2, Move::Dp,
            Move::F, Move::F2, Move::Fp,
            Move::B, Move::B2, Move::Bp,
            Move::L, Move::L2, Move::Lp,
            Move::R, Move::R2, Move::Rp,
        ];
        proof {
            reveal(alphabet);
            assert(v@ =~= alphabet());
        }
        v
    }
}

/// A clockwise move is written as the bare letter of its face, a half turn
/// with a trailing `2`, a counter-clockwise move with a trailing `'`.
pub proof fn lemma_notation_by_turn(m: Move)
    ensures
        m.spec_turn() == Turn::Clockwise ==> m.spec_notation() == seq![m.spec_face().spec_letter()],
        m.spec_turn() == Turn::Double ==> m.spec_notation() == seq![
            m.spec_face().spec_letter(),
            '2',
        ],
        m.spec_turn() == Turn::CounterClockwise ==> m.spec_notation() == seq![
            m.spec_face().spec_letter(),
            '\'',
        ],
{
    let letter = m.spec_face().spec_letter();
    assert(seq![letter] + Seq::<char>::empty() =~= seq![letter]);
    assert(seq![letter] + seq!['2'] =~= seq![letter, '2']);
    assert(seq![letter] + seq!['\''] =~= seq![letter, '\'']);
}

/// The alphabet holds eighteen moves, none of them twice, and every move is
/// in it.
pub proof fn lemma_alphabet_is_every_move()
    ensures
        alphabet().len() == 18,
        alphabet().no_duplicates(),
        forall|m: Move| alphabet().contains(m),
{
    reveal(alphabet);
    let a = alphabet();
    assert forall|m: Move| a.contains(m) by {
        let i: int = match m {
            Move::U => 0,
            Move::U2 => 1,
            Move::Up => 2,
            Move::D => 3,
            Move::D2 => 4,
            Move::Dp => 5,
            Move::F => 6,
            Move::F2 => 7,
            Move::Fp => 8,
            Move::B => 9,
            Move::B2 => 10,
            Move::Bp => 11,
            Move::L => 12,
            Move::L2 => 13,
            Move::Lp => 14,
            Move::R => 15,
            Move::R2 => 16,
            Move::Rp => 17,
        };
        assert(a[i] == m);
    }
}

} // verus!

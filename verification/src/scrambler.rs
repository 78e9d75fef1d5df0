//! Scrambles: twenty random moves, no two neighbours on the same face.

use vstd::prelude::*;

use crate::moves::{alphabet, lemma_alphabet_is_every_move, Move};
use crate::random::choose_move;

verus! {

/// The number of moves in a scramble.
pub const SCRAMBLE_LEN: usize = 20;

/// How many draws in a row may be rejected for one position. Redrawing until
/// a move fits picks each fitting move with the same chance; once this many
/// draws have been rejected, the next one is made among the fitting moves
/// alone, which picks with that same chance and cannot be rejected. So the
/// number of draws is bounded and the outcome is distributed as if it were
/// not.
pub const MAX_REDRAWS: usize = 64;

/// A move may follow `prefix` when it does not turn the face that the last
/// move of `prefix` turned. Anything may follow the empty sequence.
pub open spec fn fits_after(prefix: Seq<Move>, m: Move) -> bool {
    prefix.len() == 0 || prefix.last().spec_face() != m.spec_face()
}

/// No move turns the same face as the move just before it: wherever `j` is
/// the position after `i`, the two moves there turn different faces.
pub open spec fn no_face_repeats(s: Seq<Move>) -> bool {
    forall|i: int, j: int|
        #![trigger s[i], s[j]]
        0 <= i && j == i + 1 && j < s.len() ==> s[i].spec_face() != s[j].spec_face()
}

/// What every scramble is: twenty moves without a repeated face.
pub open spec fn valid_scramble(s: Seq<Move>) -> bool {
    s.len() == SCRAMBLE_LEN && no_face_repeats(s)
}

/// A sequence of moves as it is shown: each move in standard notation, two
/// spaces between neighbours.
pub open spec fn spec_display(moves: Seq<Move>) -> Seq<char>
    decreases moves.len(),
{
    if moves.len() == 0 {
        Seq::empty()
    } else if moves.len() == 1 {
        moves[0].spec_notation()
    } else {
        spec_display(moves.drop_last()) + seq![' ', ' '] + moves.last().spec_notation()
    }
}

/// Appending a move that fits keeps a sequence free of repeated faces, and
/// only such a move does.
pub proof fn lemma_push_keeps_faces_apart(prefix: Seq<Move>, m: Move)
    requires
        no_face_repeats(prefix),
    ensures
        no_face_repeats(prefix.push(m)) <==> fits_after(prefix, m),
{
    let extended = prefix.push(m);
    let last = prefix.len() as int;
    if fits_after(prefix, m) {
        assert forall|i: int, j: int|
            #![trigger extended[i], extended[j]]
            0 <= i && j == i + 1 && j < extended.len() implies extended[i].spec_face()
                != extended[j].spec_face() by {
            if j < last {
                assert(prefix[i].spec_face() != prefix[j].spec_face());
            }
        }
    } else {
        assert(extended[last] == m);
        assert(extended[last - 1] == prefix.last());
    }
}

/// Decides on a drawn move: appends `candidate` to `prefix` if it fits after
/// it, and leaves `prefix` alone otherwise. Says which of the two happened.
pub fn offer(prefix: &mut Vec<Move>, candidate: Move) -> (accepted: bool)
    ensures
        accepted == fits_after(old(prefix)@, candidate),
        accepted ==> final(prefix)@ == old(prefix)@.push(candidate),
        !accepted ==> final(prefix)@ == old(prefix)@,
{
    let n = prefix.len();
    if n == 0 || prefix[n - 1].face() != candidate.face() {
        prefix.push(candidate);
        true
    } else {
        false
    }
}

/// The moves of `moves` that fit after `prefix`, in the order in which
/// `moves` holds them.
pub fn allowed_after(moves: &Vec<Move>, prefix: &Vec<Move>) -> (allowed: Vec<Move>)
    ensures
        allowed@ == moves@.filter(|m: Move| fits_after(prefix@, m)),
{
    let ghost fits = |m: Move| fits_after(prefix@, m);
    let mut allowed: Vec<Move> = Vec::new();
    let n = prefix.len();
    let mut i: usize = 0;
    proof {
        reveal(Seq::filter);
        assert(moves@.take(0) =~= Seq::<Move>::empty());
    }
    while i < moves.len()
        invariant
            i <= moves.len(),
            n == prefix.len(),
            fits == (|m: Move| fits_after(prefix@, m)),
            allowed@ == moves@.take(i as int).filter(fits),
        decreases moves.len() - i,
    {
        let m = moves[i];
        proof {
            reveal(Seq::filter);
            assert(moves@.take(i + 1).drop_last() =~= moves@.take(i as int));
            assert(moves@.take(i + 1).last() == m);
        }
        if n == 0 || prefix[n - 1].face() != m.face() {
            allowed.push(m);
        }
        i = i + 1;
    }
    proof {
        assert(moves@.take(i as int) =~= moves@);
    }
    allowed
}

/// Whatever the last face was, some move of the alphabet fits after it.
pub proof fn lemma_some_move_always_fits(prefix: Seq<Move>)
    ensures
        alphabet().filter(|m: Move| fits_after(prefix, m)).len() > 0,
{
    reveal(alphabet);
    let fits = |m: Move| fits_after(prefix, m);
    let a = alphabet();
    // U and D turn different faces, so at least one of them fits.
    assert(a[0] == Move::U);
    assert(a[3] == Move::D);
    if fits(Move::U) {
        a.lemma_filter_contains(fits, 0);
    } else {
        assert(fits(Move::D));
        a.lemma_filter_contains(fits, 3);
    }
}

/// Draws one move among those of `all_moves` that fit after `prefix`.
fn draw_fitting(
    all_moves: &Vec<Move>,
    prefix: &Vec<Move>,
    rng: &mut rand::rngs::ThreadRng,
) -> (m: Move)
    requires
        all_moves@ == alphabet(),
    ensures
        fits_after(prefix@, m),
{
    let allowed = allowed_after(all_moves, prefix);
    proof {
        lemma_some_move_always_fits(prefix@);
    }
    let m = choose_move(allowed.as_slice(), rng).unwrap();
    proof {
        let fits = |m: Move| fits_after(prefix@, m);
        let j = choose|j: int| 0 <= j < allowed@.len() && allowed@[j] == m;
        alphabet().lemma_filter_pred(fits, j);
    }
    m
}

/// Draws moves until twenty have been accepted. Each draw is uniform over
/// the whole alphabet; a move on the face of the one before it is rejected
/// and drawn again. After `MAX_REDRAWS` rejections in a row the draw is
/// made among the moves that fit.
pub fn generate_scramble() -> (scramble: Vec<Move>)
    ensures
        scramble@.len() == SCRAMBLE_LEN,
        no_face_repeats(scramble@),
        forall|i: int| 0 <= i < scramble@.len() ==> alphabet().contains(#[trigger] scramble@[i]),
{
    let mut rng = rand::rng();
    let all_moves = Move::all();
    let mut scramble: Vec<Move> = Vec::with_capacity(SCRAMBLE_LEN);
    let mut redraws_left: usize = MAX_REDRAWS;
    assert(all_moves@.len() == 18) by {
        lemma_alphabet_is_every_move();
    }
    while scramble.len() < SCRAMBLE_LEN
        invariant
            all_moves@ == alphabet(),
            all_moves@.len() == 18,
            scramble@.len() <= SCRAMBLE_LEN,
            no_face_repeats(scramble@),
            redraws_left <= MAX_REDRAWS,
        decreases SCRAMBLE_LEN - scramble.len(), redraws_left,
    {
        let next_move = if redraws_left > 0 {
            choose_move(all_moves.as_slice(), &mut rng).unwrap()
        } else {
            draw_fitting(&all_moves, &scramble, &mut rng)
        };
        proof {
            lemma_push_keeps_faces_apart(scramble@, next_move);
        }
        if offer(&mut scramble, next_move) {
            redraws_left = MAX_REDRAWS;
        } else {
            redraws_left = redraws_left - 1;
        }
    }
    proof {
        lemma_alphabet_is_every_move();
    }
    scramble
}

/// Twenty moves, no two neighbours on the same face. A scramble cannot be
/// changed once it is made.
#[derive(Debug)]
pub struct Scramble {
    moves: Vec<Move>,
}

impl View for Scramble {
    type V = Seq<Move>;

    closed spec fn view(&self) -> Seq<Move> {
        self.moves@
    }
}

impl Scramble {
    /// Holds of every scramble there is.
    #[verifier::type_invariant]
    pub open spec fn well_formed(&self) -> bool {
        valid_scramble(self@)
    }

    /// Generates a fresh random scramble: twenty moves of the alphabet, each
    /// drawn anew until it turns another face than the move before it.
    /// Nothing is kept between calls.
    pub fn new() -> (scramble: Scramble)
        ensures
            valid_scramble(scramble@),
            forall|i: int|
                0 <= i < scramble@.len() ==> alphabet().contains(#[trigger] scramble@[i]),
    {
        let moves: Vec<Move> = generate_scramble();
        proof {
            lemma_alphabet_is_every_move();
        }
        Scramble { moves }
    }

    /// The scramble that holds exactly `moves`, if they make one.
    pub fn from_moves(moves: Vec<Move>) -> (made: Option<Scramble>)
        ensures
            made is Some <==> valid_scramble(moves@),
            made matches Some(scramble) ==> scramble@ == moves@,
    {
        if is_valid_scramble(&moves) {
            Some(Scramble { moves })
        } else {
            None
        }
    }

    /// The moves, first to last.
    pub fn moves(&self) -> (moves: &Vec<Move>)
        ensures
            moves@ == self@,
            valid_scramble(self@),
    {
        proof {
            use_type_invariant(self);
        }
        &self.moves
    }

    /// The scramble as text: the moves in standard notation, joined by two
    /// spaces.
    pub fn display(&self) -> (text: String)
        ensures
            text@ == spec_display(self@),
    {
        display_moves(&self.moves)
    }
}

/// Moves as text: each in standard notation, joined by two spaces. No moves
/// give the empty text.
pub fn display_moves(moves: &Vec<Move>) -> (text: String)
    ensures
        text@ == spec_display(moves@),
{
    let mut text = String::new();
    let mut i: usize = 0;
    proof {
        assert(moves@.take(0) =~= Seq::<Move>::empty());
    }
    while i < moves.len()
        invariant
            i <= moves.len(),
            text@ == spec_display(moves@.take(i as int)),
        decreases moves.len() - i,
    {
        let ghost before = text@;
        proof {
            assert(moves@.take(i + 1).drop_last() =~= moves@.take(i as int));
            assert(moves@.take(i + 1).last() == moves@[i as int]);
        }
        if i > 0 {
            proof {
                reveal_strlit("  ");
                assert("  "@ =~= seq![' ', ' ']);
            }
            text.append("  ");
        }
        let word = moves[i].notation();
        text.append(word.as_str());
        proof {
            if i == 0 {
                assert(before =~= Seq::<char>::empty());
                assert(text@ =~= word@);
            }
        }
        i = i + 1;
    }
    proof {
        assert(moves@.take(i as int) =~= moves@);
    }
    text
}

/// Whether `moves` are twenty moves without a repeated face.
pub fn is_valid_scramble(moves: &Vec<Move>) -> (valid: bool)
    ensures
        valid == valid_scramble(moves@),
{
    if moves.len() != SCRAMBLE_LEN {
        return false;
    }
    let mut i: usize = 1;
    while i < moves.len()
        invariant
            1 <= i <= moves.len(),
            no_face_repeats(moves@.take(i as int)),
        decreases moves.len() - i,
    {
        if moves[i].face() == moves[i - 1].face() {
            assert(moves@[i - 1].spec_face() == moves@[i as int].spec_face());
            return false;
        }
        proof {
            let seen = moves@.take(i as int);
            assert(seen.last() == moves@[i - 1]);
            assert(moves@.take(i + 1) =~= seen.push(moves@[i as int]));
            lemma_push_keeps_faces_apart(seen, moves@[i as int]);
        }
        i = i + 1;
    }
    proof {
        assert(moves@.take(i as int) =~= moves@);
    }
    true
}

impl Clone for Scramble {
    fn clone(&self) -> (copy: Scramble)
        ensures
            copy@ == self@,
    {
        proof {
            use_type_invariant(self);
        }
        Scramble { moves: self.moves.clone() }
    }
}

} // verus!

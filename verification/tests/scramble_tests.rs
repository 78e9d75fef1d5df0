use tesseract_timer::moves::{Face, Move, Turn};
use tesseract_timer::scrambler::{
    allowed_after, display_moves, generate_scramble, is_valid_scramble, offer, Scramble,
    MAX_REDRAWS, SCRAMBLE_LEN,
};

const NOTATIONS: [&str; 18] = [
    "U", "U2", "U'", "D", "D2", "D'", "F", "F2", "F'", "B", "B2", "B'", "L", "L2", "L'", "R", "R2",
    "R'",
];

fn alternating() -> Vec<Move> {
    let mut moves = Vec::new();
    for i in 0..SCRAMBLE_LEN {
        moves.push(if i % 2 == 0 { Move::R } else { Move::Up });
    }
    moves
}

#[test]
fn generated_scramble_has_twenty_moves() {
    for _ in 0..200 {
        assert_eq!(Scramble::new().moves().len(), 20);
    }
}

#[test]
fn generated_scramble_never_repeats_a_face() {
    for _ in 0..500 {
        let scramble = Scramble::new();
        let moves = scramble.moves();
        for i in 1..moves.len() {
            assert_ne!(moves[i].face(), moves[i - 1].face());
        }
        assert!(is_valid_scramble(moves));
    }
}

#[test]
fn generated_moves_come_from_the_alphabet() {
    let all = Move::all();
    for _ in 0..200 {
        let scramble = Scramble::new();
        for m in scramble.moves() {
            assert!(all.contains(m));
        }
    }
}

#[test]
fn generated_scrambles_differ() {
    let first = Scramble::new();
    let mut seen_other = false;
    for _ in 0..50 {
        if Scramble::new().moves() != first.moves() {
            seen_other = true;
        }
    }
    assert!(seen_other);
}

#[test]
fn every_move_turns_up_in_generated_scrambles() {
    let all = Move::all();
    let mut seen = vec![false; all.len()];
    for _ in 0..400 {
        for m in Scramble::new().moves() {
            let at = all.iter().position(|x| x == m).unwrap();
            seen[at] = true;
        }
    }
    assert!(seen.iter().all(|s| *s));
}

#[test]
fn alphabet_has_eighteen_distinct_moves() {
    let all = Move::all();
    assert_eq!(all.len(), 18);
    for i in 0..all.len() {
        for j in 0..i {
            assert_ne!(all[i], all[j]);
        }
    }
    assert_eq!(all[0], Move::U);
    assert_eq!(all[2], Move::Up);
    assert_eq!(all[17], Move::Rp);
}

#[test]
fn each_face_has_three_moves() {
    let all = Move::all();
    for face in [Face::U, Face::D, Face::F, Face::B, Face::L, Face::R] {
        let on_face: Vec<&Move> = all.iter().filter(|m| m.face() == face).collect();
        assert_eq!(on_face.len(), 3);
        assert_eq!(on_face[0].turn(), Turn::Clockwise);
        assert_eq!(on_face[1].turn(), Turn::Double);
        assert_eq!(on_face[2].turn(), Turn::CounterClockwise);
    }
}

#[test]
fn notation_of_every_move() {
    let all = Move::all();
    for i in 0..all.len() {
        assert_eq!(all[i].notation(), NOTATIONS[i]);
    }
}

#[test]
fn notation_suffix_follows_the_turn() {
    assert_eq!(Move::Up.notation(), "U'");
    assert_eq!(Move::U2.notation(), "U2");
    assert_eq!(Move::U.notation(), "U");
    for m in Move::all() {
        let text = m.notation();
        match m.turn() {
            Turn::Clockwise => assert_eq!(text.len(), 1),
            Turn::Double => assert!(text.len() == 2 && text.ends_with('2')),
            Turn::CounterClockwise => assert!(text.len() == 2 && text.ends_with('\'')),
        }
        assert!(text.starts_with(m.face().letter()));
    }
}

#[test]
fn face_letters_and_turn_suffixes() {
    assert_eq!(Face::U.letter(), "U");
    assert_eq!(Face::D.letter(), "D");
    assert_eq!(Face::F.letter(), "F");
    assert_eq!(Face::B.letter(), "B");
    assert_eq!(Face::L.letter(), "L");
    assert_eq!(Face::R.letter(), "R");
    assert_eq!(Turn::Clockwise.suffix(), "");
    assert_eq!(Turn::Double.suffix(), "2");
    assert_eq!(Turn::CounterClockwise.suffix(), "'");
}

#[test]
fn offer_accepts_anything_first() {
    for m in Move::all() {
        let mut prefix = Vec::new();
        assert!(offer(&mut prefix, m));
        assert_eq!(prefix, vec![m]);
    }
}

#[test]
fn offer_rejects_the_same_face() {
    let mut prefix = vec![Move::F, Move::U];
    assert!(!offer(&mut prefix, Move::U));
    assert!(!offer(&mut prefix, Move::U2));
    assert!(!offer(&mut prefix, Move::Up));
    assert_eq!(prefix, vec![Move::F, Move::U]);
}

#[test]
fn offer_accepts_another_face() {
    let mut prefix = vec![Move::F, Move::U];
    assert!(offer(&mut prefix, Move::F2));
    assert_eq!(prefix, vec![Move::F, Move::U, Move::F2]);
    assert!(offer(&mut prefix, Move::Rp));
    assert_eq!(prefix, vec![Move::F, Move::U, Move::F2, Move::Rp]);
}

#[test]
fn allowed_after_nothing_is_everything() {
    assert_eq!(allowed_after(&Move::all(), &Vec::new()), Move::all());
}

#[test]
fn allowed_after_a_move_leaves_fifteen() {
    let allowed = allowed_after(&Move::all(), &vec![Move::D, Move::L2]);
    assert_eq!(
        allowed,
        vec![
            Move::U, Move::U2, Move::Up, Move::D, Move::D2, Move::Dp, Move::F, Move::F2, Move::Fp,
            Move::B, Move::B2, Move::Bp, Move::R, Move::R2, Move::Rp,
        ]
    );
}

#[test]
fn allowed_after_keeps_order_and_repeats() {
    let from = vec![Move::R, Move::U, Move::R, Move::Up, Move::F];
    assert_eq!(allowed_after(&from, &vec![Move::U2]), vec![Move::R, Move::R, Move::F]);
}

#[test]
fn redraw_limit_is_positive() {
    assert!(MAX_REDRAWS > 0);
    assert_eq!(SCRAMBLE_LEN, 20);
}

#[test]
fn from_moves_takes_a_valid_sequence() {
    let moves = alternating();
    let scramble = Scramble::from_moves(moves.clone()).unwrap();
    assert_eq!(scramble.moves(), &moves);
}

#[test]
fn from_moves_refuses_a_wrong_length() {
    let mut short = alternating();
    short.pop();
    assert!(Scramble::from_moves(short).is_none());
    let mut long = alternating();
    long.push(Move::F);
    assert!(Scramble::from_moves(long).is_none());
    assert!(Scramble::from_moves(Vec::new()).is_none());
}

#[test]
fn from_moves_refuses_a_repeated_face() {
    let mut moves = alternating();
    moves[7] = Move::R2;
    assert!(!is_valid_scramble(&moves));
    assert!(Scramble::from_moves(moves).is_none());
    let mut at_end = alternating();
    at_end[19] = Move::Rp;
    assert!(Scramble::from_moves(at_end).is_none());
    let mut at_start = alternating();
    at_start[0] = Move::U;
    assert!(Scramble::from_moves(at_start).is_none());
}

#[test]
fn display_joins_with_two_spaces() {
    let scramble = Scramble::from_moves(alternating()).unwrap();
    assert_eq!(
        scramble.display(),
        "R  U'  R  U'  R  U'  R  U'  R  U'  R  U'  R  U'  R  U'  R  U'  R  U'"
    );
}

#[test]
fn display_of_a_mixed_scramble() {
    let moves = vec![
        Move::U, Move::D2, Move::Fp, Move::B, Move::L2, Move::Rp, Move::U2, Move::Dp, Move::F,
        Move::B2, Move::Lp, Move::R, Move::Up, Move::D, Move::F2, Move::Bp, Move::L, Move::R2,
        Move::U, Move::D,
    ];
    let scramble = Scramble::from_moves(moves).unwrap();
    assert_eq!(
        scramble.display(),
        "U  D2  F'  B  L2  R'  U2  D'  F  B2  L'  R  U'  D  F2  B'  L  R2  U  D"
    );
}

#[test]
fn display_of_a_generated_scramble_matches_its_moves() {
    for _ in 0..50 {
        let scramble = Scramble::new();
        let words: Vec<String> = scramble.moves().iter().map(|m| m.notation()).collect();
        assert_eq!(scramble.display(), words.join("  "));
        for word in scramble.display().split("  ") {
            assert!(NOTATIONS.contains(&word));
        }
    }
}

#[test]
fn clone_keeps_the_moves() {
    let scramble = Scramble::new();
    let copy = scramble.clone();
    assert_eq!(copy.moves(), scramble.moves());
    assert_eq!(copy.display(), scramble.display());
}

#[test]
fn generate_gives_twenty_moves_with_faces_apart() {
    for _ in 0..500 {
        let moves = generate_scramble();
        assert_eq!(moves.len(), 20);
        for i in 1..moves.len() {
            assert_ne!(moves[i].face(), moves[i - 1].face());
        }
        assert!(Scramble::from_moves(moves).is_some());
    }
}

#[test]
fn display_of_no_moves_is_empty() {
    assert_eq!(display_moves(&Vec::new()), "");
}

#[test]
fn display_of_one_move_has_no_spaces() {
    assert_eq!(display_moves(&vec![Move::Bp]), "B'");
    assert_eq!(display_moves(&vec![Move::L]), "L");
}

#[test]
fn display_of_three_moves() {
    assert_eq!(display_moves(&vec![Move::U, Move::Rp, Move::F2]), "U  R'  F2");
}

#[test]
fn display_of_a_scramble_is_that_of_its_moves() {
    let scramble = Scramble::new();
    assert_eq!(scramble.display(), display_moves(scramble.moves()));
}

use rock_paper_scissors::moves::{Move, ParseMoveError};

const ALL: [Move; 3] = [Move::Rock, Move::Paper, Move::Scissors];

#[test]
fn beats_follows_the_cycle() {
    assert!(Move::Rock.beats(&Move::Scissors));
    assert!(Move::Scissors.beats(&Move::Paper));
    assert!(Move::Paper.beats(&Move::Rock));

    assert!(!Move::Scissors.beats(&Move::Rock));
    assert!(!Move::Paper.beats(&Move::Scissors));
    assert!(!Move::Rock.beats(&Move::Paper));
}

#[test]
fn exactly_one_of_two_different_moves_beats_the_other() {
    for a in ALL {
        for b in ALL {
            if a != b {
                assert_ne!(a.beats(&b), b.beats(&a), "{:?} against {:?}", a, b);
            }
        }
    }
}

#[test]
fn no_move_beats_itself() {
    for a in ALL {
        assert!(!a.beats(&a), "{:?}", a);
    }
}

#[test]
fn wins_against_names_the_beaten_move() {
    assert_eq!(Move::Rock.wins_against(), Move::Scissors);
    assert_eq!(Move::Paper.wins_against(), Move::Rock);
    assert_eq!(Move::Scissors.wins_against(), Move::Paper);
    for a in ALL {
        assert!(a.beats(&a.wins_against()));
    }
}

#[test]
fn all_lists_rock_paper_scissors_in_order() {
    assert_eq!(Move::all(), ALL);
}

#[test]
fn names_are_lowercase_words() {
    assert_eq!(Move::Rock.to_string(), "rock");
    assert_eq!(Move::Paper.to_string(), "paper");
    assert_eq!(Move::Scissors.to_string(), "scissors");
    assert_eq!(Move::Rock.as_str(), "rock");
    assert_eq!(Move::Paper.as_str(), "paper");
    assert_eq!(Move::Scissors.as_str(), "scissors");
}

#[test]
fn from_str_reads_each_name() {
    assert_eq!(Move::from_str("rock"), Ok(Move::Rock));
    assert_eq!(Move::from_str("paper"), Ok(Move::Paper));
    assert_eq!(Move::from_str("scissors"), Ok(Move::Scissors));
}

#[test]
fn parsing_a_rendered_move_gives_it_back() {
    for m in ALL {
        assert_eq!(Move::from_str(&m.to_string()), Ok(m));
        assert_eq!(Move::from_str(m.as_str()), Ok(m));
    }
}

#[test]
fn from_str_rejects_everything_else() {
    let rejected = [
        "", " ", "Rock", "ROCK", " rock", "rock ", "rock\n", "rocks", "roc", "lizard", "spock",
        "papers", "scissor", "rockpaper", "r\u{f6}ck",
    ];
    for s in rejected {
        assert_eq!(Move::from_str(s), Err(ParseMoveError::UnrecognizedName), "{:?}", s);
    }
}

use rock_paper_scissors::game::{Ending, Game, Outcome, Prompt, State};
use rock_paper_scissors::input::{normalize, validate};
use rock_paper_scissors::moves::Move;

#[test]
fn capitalised_line_is_read_as_rock() {
    let guess = normalize("Rock\n");
    assert_eq!(guess, "rock");
    assert!(validate(&guess));
    assert_eq!(Move::from_str(&guess), Ok(Move::Rock));
}

#[test]
fn rock_against_scissors_wins_and_ends_the_game() {
    assert!(Move::Rock.beats(&Move::Scissors));
    let turn = Game::new(Move::Scissors).respond("rock", Move::Paper);
    assert_eq!(turn.outcome, Outcome::Win);
    assert!(turn.message.contains("You won"));
    assert!(turn.message.contains("scissors"));
    assert_eq!(turn.next, State::Terminal(Ending::Win));
}

#[test]
fn scissors_against_rock_loses_and_ends_the_game() {
    assert!(!Move::Scissors.beats(&Move::Rock));
    assert_ne!(Move::Scissors, Move::Rock);
    let turn = Game::new(Move::Rock).respond("scissors", Move::Paper);
    assert_eq!(turn.outcome, Outcome::Loss);
    assert!(turn.message.contains("You lost"));
    assert!(turn.message.contains("rock"));
    assert_eq!(turn.next, State::Terminal(Ending::Loss));
}

#[test]
fn paper_against_paper_ties_and_the_game_goes_on_with_a_new_move() {
    let turn = Game::new(Move::Paper).respond("paper", Move::Scissors);
    assert_eq!(turn.outcome, Outcome::Tie);
    assert!(!turn.outcome.is_final());
    assert!(turn.message.contains("same move"));
    assert_eq!(
        turn.next,
        State::AwaitInput(Game { computer: Move::Scissors, prompt: Prompt::RetryAfterTie })
    );
}

#[test]
fn lizard_is_invalid_and_the_computer_keeps_its_move() {
    assert!(!validate("lizard"));
    for computer in [Move::Rock, Move::Paper, Move::Scissors] {
        let turn = Game::new(computer).respond("lizard", computer.wins_against());
        assert_eq!(turn.outcome, Outcome::Invalid);
        assert!(turn.message.contains("invalid guess"));
        assert_eq!(
            turn.next,
            State::AwaitInput(Game { computer, prompt: Prompt::RetryAfterInvalid })
        );
    }
}

#[test]
fn padded_upper_case_line_plays_like_the_plain_name() {
    let guess = normalize("  ROCK  \n");
    assert_eq!(guess, "rock");
    for computer in [Move::Rock, Move::Paper, Move::Scissors] {
        let padded = Game::new(computer).respond(&guess, Move::Paper);
        let plain = Game::new(computer).respond("rock", Move::Paper);
        assert_eq!(padded.outcome, plain.outcome);
        assert_eq!(padded.message, plain.message);
        assert_eq!(padded.next, plain.next);
    }
    let turn = Game::new(Move::Scissors).play("  ROCK  \n");
    assert_eq!(turn.outcome, Outcome::Win);
    assert_eq!(turn.next, State::Terminal(Ending::Win));
    let turn = Game::new(Move::Paper).play("  ROCK  \n");
    assert_eq!(turn.outcome, Outcome::Loss);
    assert_eq!(turn.next, State::Terminal(Ending::Loss));
}

#[test]
fn a_whole_game_of_invalid_tie_and_win() {
    let mut state = State::AwaitInput(Game::new(Move::Paper));
    let lines = ["spock\n", "Paper\n", " scissors\n"];
    let fresh = [Move::Rock, Move::Paper, Move::Rock];
    let mut prompts = Vec::new();
    let mut outcomes = Vec::new();
    for (line, next_move) in lines.iter().zip(fresh) {
        let game = match state {
            State::AwaitInput(game) => game,
            State::Terminal(ending) => panic!("ended early: {:?}", ending),
        };
        prompts.push(game.prompt);
        let turn = game.respond(&normalize(line), next_move);
        outcomes.push(turn.outcome);
        state = turn.next;
    }
    assert_eq!(prompts, vec![Prompt::Greeting, Prompt::RetryAfterInvalid, Prompt::RetryAfterTie]);
    assert_eq!(outcomes, vec![Outcome::Invalid, Outcome::Tie, Outcome::Win]);
    assert_eq!(state, State::Terminal(Ending::Win));
}

//! One game: the prompt, the judgement of a guess, the lines that report it
//! and the step from one state to the next.

use crate::input::{normalize, normalized, validate};
use crate::moves::{is_move_name, lemma_name_round_trip, parsed, Move};
use crate::sampler::sample_move;
use vstd::prelude::*;
use vstd::string::StringExecFns;

verus! {

/// The tag that starts every line the game prints.
pub const GAME_TAG: &'static str = "[GAME]:";

/// Which introduction the next prompt shows.
#[derive(Clone, Copy, Debug, PartialEq, Eq, Structural)]
pub enum Prompt {
    /// The first round of a game.
    Greeting,
    /// The round before ended in a tie.
    RetryAfterTie,
    /// The guess before was not a move.
    RetryAfterInvalid,
}

impl Prompt {
    /// The introduction: a greeting at the start, and the same call to try
    /// again after a tie as after an invalid guess.
    pub open spec fn introduction(self) -> Seq<char> {
        match self {
            Prompt::Greeting => GAME_TAG@ + " Let's go...rock, paper, scissors!"@,
            Prompt::RetryAfterTie | Prompt::RetryAfterInvalid => "\n"@ + GAME_TAG@
                + " Again...rock, paper, scissors!"@,
        }
    }

    /// The whole prompt: the introduction, and on a line of its own the
    /// request for a move.
    pub open spec fn shown(self) -> Seq<char> {
        self.introduction() + "\nEnter your move:  "@
    }

    /// The text to show before reading the player's line.
    pub fn text(&self) -> (text: String)
        ensures
            text@ == self.shown(),
    {
        let mut text = match self {
            Prompt::Greeting => {
                let mut intro = String::from_str(GAME_TAG);
                intro.append(" Let's go...rock, paper, scissors!");
                intro
            },
            Prompt::RetryAfterTie | Prompt::RetryAfterInvalid => {
                let mut intro = String::from_str("\n");
                intro.append(GAME_TAG);
                intro.append(" Again...rock, paper, scissors!");
                intro
            },
        };
        text.append("\nEnter your move:  ");
        text
    }
}

/// How one guess fared against the computer's move.
#[derive(Clone, Copy, Debug, PartialEq, Eq, Structural)]
pub enum Outcome {
    /// The guess names no move.
    Invalid,
    /// The player's move defeats the computer's.
    Win,
    /// Both picked the same move.
    Tie,
    /// The computer's move defeats the player's.
    Loss,
}

/// How a game ended.
#[derive(Clone, Copy, Debug, PartialEq, Eq, Structural)]
pub enum Ending {
    Win,
    Loss,
}

/// A game that waits for the player's line.
#[derive(Clone, Copy, Debug, PartialEq, Eq, Structural)]
pub struct Game {
    /// The move the computer has drawn for this round.
    pub computer: Move,
    /// The introduction the next prompt shows.
    pub prompt: Prompt,
}

/// Where a game stands between two lines of input.
#[derive(Clone, Copy, Debug, PartialEq, Eq, Structural)]
pub enum State {
    /// The game goes on and waits for a line.
    AwaitInput(Game),
    /// The game is over.
    Terminal(Ending),
}

/// What one line of input led to.
#[derive(Debug)]
pub struct Turn {
    /// How the guess fared.
    pub outcome: Outcome,
    /// The line that reports it to the player.
    pub message: String,
    /// The state after the line.
    pub next: State,
}

/// How the guess `guess`, already normalised, fares against `computer`: it
/// is invalid unless it names a move; a move wins if it defeats the
/// computer's, ties if it is the same, and loses otherwise.
pub open spec fn outcome_of(guess: Seq<char>, computer: Move) -> Outcome {
    match parsed(guess) {
        Err(_) => Outcome::Invalid,
        Ok(player) => if player.defeats(computer) {
            Outcome::Win
        } else if player == computer {
            Outcome::Tie
        } else {
            Outcome::Loss
        },
    }
}

/// The line that reports `outcome` against the computer's move `computer`.
/// A win and a loss name that move.
pub open spec fn announcement(outcome: Outcome, computer: Move) -> Seq<char> {
    match outcome {
        Outcome::Invalid => "\n"@ + GAME_TAG@ + " Hey, that's an invalid guess!"@,
        Outcome::Win => "\n"@ + GAME_TAG@ + " Arghh...I picked "@ + computer.name()
            + ". You won!"@,
        Outcome::Tie => "\n"@ + GAME_TAG@
            + " Looks like we picked the same move, let's try again!"@,
        Outcome::Loss => "\n"@ + GAME_TAG@ + " Ha! I picked "@ + computer.name()
            + ". You lost!"@,
    }
}

/// The closing line of a game.
pub open spec fn farewell_text() -> Seq<char> {
    "\n"@ + GAME_TAG@ + " Thank you for playing!"@
}

/// A guess that names the move `player` is never invalid: it wins where
/// `player` defeats `computer`, loses where `computer` defeats `player`, and
/// ties where the two are the same move.
pub proof fn lemma_outcome_of_a_move(player: Move, computer: Move)
    ensures
        outcome_of(player.name(), computer) != Outcome::Invalid,
        outcome_of(player.name(), computer) == Outcome::Win <==> player.defeats(computer),
        outcome_of(player.name(), computer) == Outcome::Loss <==> computer.defeats(player),
        outcome_of(player.name(), computer) == Outcome::Tie <==> player == computer,
{
    lemma_name_round_trip(player);
}

/// A guess is invalid exactly when it names no move.
pub proof fn lemma_invalid_iff_no_move_name(guess: Seq<char>, computer: Move)
    ensures
        outcome_of(guess, computer) == Outcome::Invalid <==> !is_move_name(guess),
{
}

impl Outcome {
    /// Whether the outcome ends the game: a win or a loss does, a tie or an
    /// invalid guess does not.
    pub open spec fn ends_game(self) -> bool {
        self == Outcome::Win || self == Outcome::Loss
    }

    /// Whether the outcome ends the game.
    pub fn is_final(&self) -> (over: bool)
        ensures
            over == self.ends_game(),
    {
        match self {
            Outcome::Win | Outcome::Loss => true,
            Outcome::Invalid | Outcome::Tie => false,
        }
    }
}

/// Judges a normalised guess against the computer's move.
pub fn judge(guess: &str, computer: Move) -> (outcome: Outcome)
    ensures
        outcome == outcome_of(guess@, computer),
{
    if !validate(guess) {
        return Outcome::Invalid;
    }
    match Move::from_str(guess) {
        Err(_) => Outcome::Invalid,
        Ok(player) => {
            if player.beats(&computer) {
                Outcome::Win
            } else if player == computer {
                Outcome::Tie
            } else {
                Outcome::Loss
            }
        },
    }
}

/// Writes the line that reports `outcome` against the computer's move.
pub fn announce(outcome: Outcome, computer: Move) -> (message: String)
    ensures
        message@ == announcement(outcome, computer),
{
    let mut message = String::from_str("\n");
    message.append(GAME_TAG);
    match outcome {
        Outcome::Invalid => {
            message.append(" Hey, that's an invalid guess!");
        },
        Outcome::Win => {
            message.append(" Arghh...I picked ");
            message.append(computer.as_str());
            message.append(". You won!");
        },
        Outcome::Tie => {
            message.append(" Looks like we picked the same move, let's try again!");
        },
        Outcome::Loss => {
            message.append(" Ha! I picked ");
            message.append(computer.as_str());
            message.append(". You lost!");
        },
    }
    message
}

/// Writes the closing line of a game.
pub fn farewell() -> (message: String)
    ensures
        message@ == farewell_text(),
{
    let mut message = String::from_str("\n");
    message.append(GAME_TAG);
    message.append(" Thank you for playing!");
    message
}

impl Game {
    /// The state that follows `outcome`. An invalid guess keeps the
    /// computer's move and asks again; a tie asks again with the move
    /// `fresh`; a win or a loss ends the game.
    pub open spec fn after(self, outcome: Outcome, fresh: Move) -> State {
        match outcome {
            Outcome::Invalid => State::AwaitInput(
                Game { computer: self.computer, prompt: Prompt::RetryAfterInvalid },
            ),
            Outcome::Tie => State::AwaitInput(
                Game { computer: fresh, prompt: Prompt::RetryAfterTie },
            ),
            Outcome::Win => State::Terminal(Ending::Win),
            Outcome::Loss => State::Terminal(Ending::Loss),
        }
    }

    /// A new game against the move `computer`, with the greeting as prompt.
    pub fn new(computer: Move) -> (game: Game)
        ensures
            game == (Game { computer, prompt: Prompt::Greeting }),
    {
        Game { computer, prompt: Prompt::Greeting }
    }

    /// A new game against a move drawn at random.
    pub fn start() -> (game: Game)
        ensures
            game.prompt == Prompt::Greeting,
    {
        Game::new(sample_move())
    }

    /// The text to show before reading the player's line.
    pub fn prompt_text(&self) -> (text: String)
        ensures
            text@ == self.prompt.shown(),
    {
        self.prompt.text()
    }

    /// The state that follows `outcome`, with `fresh` as the computer's
    /// move after a tie.
    pub fn settle(self, outcome: Outcome, fresh: Move) -> (next: State)
        ensures
            next == self.after(outcome, fresh),
    {
        match outcome {
            Outcome::Invalid => State::AwaitInput(
                Game { computer: self.computer, prompt: Prompt::RetryAfterInvalid },
            ),
            Outcome::Tie => State::AwaitInput(
                Game { computer: fresh, prompt: Prompt::RetryAfterTie },
            ),
            Outcome::Win => State::Terminal(Ending::Win),
            Outcome::Loss => State::Terminal(Ending::Loss),
        }
    }

    /// Plays the normalised guess `guess`, with `fresh` as the computer's
    /// move for the next round should this one end in a tie.
    pub fn respond(self, guess: &str, fresh: Move) -> (turn: Turn)
        ensures
            turn.outcome == outcome_of(guess@, self.computer),
            turn.message@ == announcement(turn.outcome, self.computer),
            turn.next == self.after(turn.outcome, fresh),
    {
        let outcome = judge(guess, self.computer);
        let message = announce(outcome, self.computer);
        let next = self.settle(outcome, fresh);
        Turn { outcome, message, next }
    }

    /// Plays the raw line `line`: normalises it, judges it and, after a tie,
    /// draws the computer's next move at random. The draw is the one thing
    /// left open: after a tie the game goes on against some move.
    pub fn play(self, line: &str) -> (turn: Turn)
        ensures
            turn.outcome == outcome_of(normalized(line@), self.computer),
            turn.message@ == announcement(turn.outcome, self.computer),
            exists|fresh: Move| turn.next == #[trigger] self.after(turn.outcome, fresh),
            turn.outcome != Outcome::Tie ==> turn.next == self.after(turn.outcome, self.computer),
    {
        let guess = normalize(line);
        let outcome = judge(guess.as_str(), self.computer);
        let message = announce(outcome, self.computer);
        let fresh = match outcome {
            Outcome::Tie => sample_move(),
            _ => self.computer,
        };
        let next = self.settle(outcome, fresh);
        Turn { outcome, message, next }
    }
}

} // verus!

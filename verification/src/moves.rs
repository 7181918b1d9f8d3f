//! The three moves, their names, and the relation that says which one
//! defeats which.

use crate::text::same_text;
use vstd::prelude::*;
use vstd::string::StringExecFns;

verus! {

/// One of the three moves of the game.
#[derive(Clone, Copy, Debug, PartialEq, Eq, Hash, Structural)]
pub enum Move {
    Rock,
    Paper,
    Scissors,
}

/// Why a string could not be read as a move.
#[derive(Clone, Copy, Debug, PartialEq, Eq, Structural)]
pub enum ParseMoveError {
    /// The string is not the name of any move.
    UnrecognizedName,
}

/// Whether `s` is the name of one of the three moves.
pub open spec fn is_move_name(s: Seq<char>) -> bool {
    s == "rock"@ || s == "paper"@ || s == "scissors"@
}

/// What reading `s` as a move gives: the move of that name, or the error
/// when no move has that name.
pub open spec fn parsed(s: Seq<char>) -> Result<Move, ParseMoveError> {
    if s == "rock"@ {
        Ok(Move::Rock)
    } else if s == "paper"@ {
        Ok(Move::Paper)
    } else if s == "scissors"@ {
        Ok(Move::Scissors)
    } else {
        Err(ParseMoveError::UnrecognizedName)
    }
}

impl Move {
    /// The lowercase name of the move.
    pub open spec fn name(self) -> Seq<char> {
        match self {
            Move::Rock => "rock"@,
            Move::Paper => "paper"@,
            Move::Scissors => "scissors"@,
        }
    }

    /// The win relation: rock defeats scissors, scissors defeats paper and
    /// paper defeats rock. Nothing else defeats anything.
    pub open spec fn defeats(self, other: Move) -> bool {
        ||| self == Move::Rock && other == Move::Scissors
        ||| self == Move::Scissors && other == Move::Paper
        ||| self == Move::Paper && other == Move::Rock
    }

    /// The three moves, in the order rock, paper, scissors.
    pub open spec fn all_moves() -> Seq<Move> {
        seq![Move::Rock, Move::Paper, Move::Scissors]
    }

    /// The three moves, in the order rock, paper, scissors. Every move is
    /// among them.
    pub fn all() -> (moves: [Move; 3])
        ensures
            moves@ == Move::all_moves(),
            forall|m: Move| moves@.contains(m),
    {
        let moves = [Move::Rock, Move::Paper, Move::Scissors];
        proof {
            assert(moves@ =~= Move::all_moves());
            assert forall|m: Move| moves@.contains(m) by {
                match m {
                    Move::Rock => assert(moves@[0] == m),
                    Move::Paper => assert(moves@[1] == m),
                    Move::Scissors => assert(moves@[2] == m),
                }
            }
        }
        moves
    }

    /// The name of the move as a string slice.
    pub fn as_str(&self) -> (name: &'static str)
        ensures
            name@ == self.name(),
    {
        match self {
            Move::Rock => "rock",
            Move::Paper => "paper",
            Move::Scissors => "scissors",
        }
    }

    /// The name of the move as an owned string.
    pub fn to_string(&self) -> (name: String)
        ensures
            name@ == self.name(),
    {
        String::from_str(self.as_str())
    }

    /// Reads a move from its exact lowercase name. Any other string, a name
    /// in another case or with spaces around it included, is an error.
    pub fn from_str(string: &str) -> (result: Result<Move, ParseMoveError>)
        ensures
            result == parsed(string@),
            result is Ok <==> is_move_name(string@),
            result matches Ok(m) ==> m.name() == string@,
    {
        proof {
            lemma_names_distinct();
        }
        if same_text(string, "rock") {
            Ok(Move::Rock)
        } else if same_text(string, "paper") {
            Ok(Move::Paper)
        } else if same_text(string, "scissors") {
            Ok(Move::Scissors)
        } else {
            Err(ParseMoveError::UnrecognizedName)
        }
    }

    /// Returns the one move that `self` wins against.
    pub fn wins_against(&self) -> (beaten: Move)
        ensures
            self.defeats(beaten),
            forall|m: Move| self.defeats(m) ==> m == beaten,
    {
        match self {
            Move::Rock => Move::Scissors,
            Move::Paper => Move::Rock,
            Move::Scissors => Move::Paper,
        }
    }

    /// Whether `self` defeats `other`.
    pub fn beats(&self, other: &Move) -> (won: bool)
        ensures
            won == self.defeats(*other),
    {
        self.wins_against() == *other
    }
}

/// The three names have the lengths 4, 5 and 8, so no two moves share one.
pub proof fn lemma_names_distinct()
    ensures
        "rock"@.len() == 4,
        "paper"@.len() == 5,
        "scissors"@.len() == 8,
        forall|a: Move, b: Move| a.name() == b.name() ==> a == b,
{
    reveal_strlit("rock");
    reveal_strlit("paper");
    reveal_strlit("scissors");
}

/// Of two different moves exactly one defeats the other.
pub proof fn lemma_exactly_one_defeats(a: Move, b: Move)
    requires
        a != b,
    ensures
        a.defeats(b) != b.defeats(a),
{
}

/// No move defeats itself.
pub proof fn lemma_no_move_defeats_itself(a: Move)
    ensures
        !a.defeats(a),
{
}

/// Reading the name of a move gives that move back.
pub proof fn lemma_name_round_trip(m: Move)
    ensures
        parsed(m.name()) == Ok::<Move, ParseMoveError>(m),
        is_move_name(m.name()),
{
    lemma_names_distinct();
}

} // verus!

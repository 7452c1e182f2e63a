//! Rock, paper, scissors: the hands, who beats whom, and the running score.

use crate::chance::random_below;
use crate::words::{trim, trimmed};
use vstd::prelude::*;
use vstd::string::StrSliceExecFns;

verus! {

/// What a player can show.
#[derive(Clone, Copy, Debug, PartialEq, Eq, Structural)]
pub enum Hand {
    Rock,
    Paper,
    Scissors,
}

/// An input that names no hand.
#[derive(Clone, Copy, Debug, PartialEq, Eq, Structural)]
pub struct InvalidHand;

/// The running score of a match between two players.
#[derive(Clone, Copy, Debug, PartialEq, Eq)]
pub struct Score {
    pub player1: u32,
    pub player2: u32,
}

/// Whether the hand `a` beats the hand `b`: rock blunts scissors, paper wraps
/// rock, scissors cut paper.
pub open spec fn beats(a: Hand, b: Hand) -> bool {
    ||| (a == Hand::Rock && b == Hand::Scissors)
    ||| (a == Hand::Paper && b == Hand::Rock)
    ||| (a == Hand::Scissors && b == Hand::Paper)
}

/// Who wins a round: 0 for a draw, 1 for the first player, 2 for the second.
pub open spec fn winner(player1: Hand, player2: Hand) -> u8 {
    if beats(player1, player2) {
        1
    } else if beats(player2, player1) {
        2
    } else {
        0
    }
}

/// The hand that an input names: `r`, `p` or `s`, and nothing else.
pub open spec fn named_hand(input: Seq<char>) -> Option<Hand> {
    if input == seq!['r'] {
        Some(Hand::Rock)
    } else if input == seq!['p'] {
        Some(Hand::Paper)
    } else if input == seq!['s'] {
        Some(Hand::Scissors)
    } else {
        None
    }
}

/// The hand for a number: 1 is paper, 2 is scissors, anything else is rock.
pub open spec fn hand_at(n: usize) -> Hand {
    if n == 1 {
        Hand::Paper
    } else if n == 2 {
        Hand::Scissors
    } else {
        Hand::Rock
    }
}

impl Score {
    /// A score with no round won by either player.
    pub fn new() -> (score: Score)
        ensures
            score.player1 == 0,
            score.player2 == 0,
    {
        Score { player1: 0, player2: 0 }
    }

    /// Counts a round for its winner: 1 for the first player, 2 for the
    /// second. Any other number is a draw and counts for nobody.
    pub fn add(&mut self, player: u8)
        requires
            player == 1 ==> old(self).player1 < u32::MAX,
            player == 2 ==> old(self).player2 < u32::MAX,
        ensures
            final(self).player1 == old(self).player1 + (if player == 1 {
                1int
            } else {
                0int
            }),
            final(self).player2 == old(self).player2 + (if player == 2 {
                1int
            } else {
                0int
            }),
    {
        match player {
            1 => self.player1 += 1,
            2 => self.player2 += 1,
            _ => (),
        }
    }
}

impl Hand {
    /// Reads a hand from what a player typed, already trimmed.
    pub fn from_str(s: &str) -> (r: Result<Hand, InvalidHand>)
        ensures
            r == match named_hand(s@) {
                Some(hand) => Ok::<Hand, InvalidHand>(hand),
                None => Err(InvalidHand),
            },
    {
        if s.unicode_len() != 1 {
            return Err(InvalidHand);
        }
        let c = s.get_char(0);
        assert(s@ =~= seq![c]);
        if c == 'r' {
            Ok(Hand::Rock)
        } else if c == 'p' {
            Ok(Hand::Paper)
        } else if c == 's' {
            Ok(Hand::Scissors)
        } else {
            Err(InvalidHand)
        }
    }

    /// The hand for a number, as [`hand_at`] has it.
    pub fn from_index(n: usize) -> (hand: Hand)
        ensures
            hand == hand_at(n),
    {
        match n {
            1 => Hand::Paper,
            2 => Hand::Scissors,
            _ => Hand::Rock,
        }
    }
}

impl InvalidHand {
    /// What to tell the player.
    pub fn message(&self) -> (message: &'static str)
        ensures
            message@ == "Invalid input. Please try again."@,
    {
        "Invalid input. Please try again."
    }
}

/// A hand drawn at random, each with the same chance.
pub fn gen_hand() -> (hand: Hand)
    ensures
        exists|n: usize| n < 3 && hand == hand_at(n),
{
    Hand::from_index(random_below(3))
}

/// Reads a hand from a line as the player typed it: the white space around
/// is taken off, and what is left has to name a hand.
pub fn get_hand(line: &str) -> (r: Result<Hand, InvalidHand>)
    ensures
        r == match named_hand(trimmed(line@)) {
            Some(hand) => Ok::<Hand, InvalidHand>(hand),
            None => Err(InvalidHand),
        },
{
    Hand::from_str(trim(line))
}

/// Whether an answer asks for another round: whether it is a `y`, small or
/// capital, with nothing but white space around.
pub open spec fn says_yes(answer: Seq<char>) -> bool {
    trimmed(answer) == seq!['y'] || trimmed(answer) == seq!['Y']
}

/// Whether the player, asked to play again, said yes.
pub fn continue_game(answer: &str) -> (again: bool)
    ensures
        again == says_yes(answer@),
{
    let text = trim(answer);
    if text.unicode_len() != 1 {
        return false;
    }
    let c = text.get_char(0);
    assert(text@ =~= seq![c]);
    c == 'y' || c == 'Y'
}

/// Decides a round between two hands: 0 for a draw, 1 where the first player
/// wins, 2 where the second does.
pub fn compare_hands(player1: Hand, player2: Hand) -> (who_won: u8)
    ensures
        who_won == winner(player1, player2),
{
    match (player1, player2) {
        (Hand::Rock, Hand::Rock) => 0,
        (Hand::Rock, Hand::Paper) => 2,
        (Hand::Rock, Hand::Scissors) => 1,
        (Hand::Paper, Hand::Rock) => 1,
        (Hand::Paper, Hand::Paper) => 0,
        (Hand::Paper, Hand::Scissors) => 2,
        (Hand::Scissors, Hand::Rock) => 2,
        (Hand::Scissors, Hand::Paper) => 1,
        (Hand::Scissors, Hand::Scissors) => 0,
    }
}

/// What to announce for the result of a round.
pub fn announcement(who_won: u8) -> (text: &'static str)
    ensures
        text@ == (if who_won == 1 {
            "Player 1 wins!\n"@
        } else if who_won == 2 {
            "Player 2 wins!\n"@
        } else {
            "Draw!\n"@
        }),
{
    match who_won {
        1 => "Player 1 wins!\n",
        2 => "Player 2 wins!\n",
        _ => "Draw!\n",
    }
}

} // verus!

use crate::board::{other_mark, TicTac};
use vstd::prelude::*;

verus! {

/// Which mark moves first when a round begins.
#[derive(Clone, Copy, PartialEq, Eq, Debug, Structural)]
pub enum FirstTurn {
    /// The winner of the previous round.
    Winner,
    /// The loser of the previous round.
    Loser,
    Random,
    X,
    O,
}

/// Strength of a computer opponent; no opponent consults it yet.
#[derive(Clone, Copy, PartialEq, Eq, Debug, Structural)]
pub enum Difficulty {
    Easy,
    Medium,
    Impossible,
}

/// Settings of a match, fixed when the program starts.
pub struct Args {
    /// Draw the small board instead of the large one.
    pub small_board: bool,
    /// Two human players; there is no computer player.
    pub second_player: bool,
    /// Round wins that end the match.
    pub out_of: u8,
    /// Let the human move first whatever `first_turn` says; no computer
    /// player exists, so it changes nothing.
    pub human_first: bool,
    pub first_turn: FirstTurn,
    pub difficulty: Difficulty,
}

/// The mark that a fair coin picks: `X` on tails, `O` on heads.
pub open spec fn mark_of_coin(coin: bool) -> TicTac {
    if coin {
        TicTac::O
    } else {
        TicTac::X
    }
}

/// The first mark of a round under `policy`, given the winner of the previous
/// round (`None` on the first round or after a draw) and a coin toss. Where
/// the policy needs a previous winner and there is none, the coin decides.
pub open spec fn first_mark(policy: FirstTurn, previous: Option<TicTac>, coin: bool) -> TicTac {
    match policy {
        FirstTurn::X => TicTac::X,
        FirstTurn::O => TicTac::O,
        FirstTurn::Random => mark_of_coin(coin),
        FirstTurn::Winner => match previous {
            Some(m) => m,
            None => mark_of_coin(coin),
        },
        FirstTurn::Loser => match previous {
            Some(m) => other_mark(m),
            None => mark_of_coin(coin),
        },
    }
}

/// Relies on `rand::random::<bool>`: a fair coin toss from the thread's
/// generator. Nothing is known of its outcome.
#[verifier::external_body]
fn toss() -> (r: bool) {
    rand::random::<bool>()
}

/// The first mark of a round under `policy` for a given coin toss.
pub fn choose_first(policy: FirstTurn, previous: Option<TicTac>, coin: bool) -> (r: TicTac)
    ensures
        r == first_mark(policy, previous, coin),
{
    let by_coin = if coin {
        TicTac::O
    } else {
        TicTac::X
    };
    match policy {
        FirstTurn::X => TicTac::X,
        FirstTurn::O => TicTac::O,
        FirstTurn::Random => by_coin,
        FirstTurn::Winner => match previous {
            Some(m) => m,
            None => by_coin,
        },
        FirstTurn::Loser => match previous {
            Some(m) => m.other(),
            None => by_coin,
        },
    }
}

impl FirstTurn {
    /// The first mark of a round, tossing a coin where the policy asks for one.
    pub fn get_tic_tac(&self, previous: Option<TicTac>) -> (r: TicTac)
        ensures
            r == first_mark(*self, previous, true) || r == first_mark(*self, previous, false),
    {
        let coin = toss();
        choose_first(*self, previous, coin)
    }

    /// The name of the policy as it is typed on the command line.
    pub fn name(&self) -> (r: &'static str)
        ensures
            *self == FirstTurn::Winner ==> r == "winner",
            *self == FirstTurn::Loser ==> r == "loser",
            *self == FirstTurn::Random ==> r == "random",
            *self == FirstTurn::X ==> r == "x",
            *self == FirstTurn::O ==> r == "o",
    {
        match *self {
            FirstTurn::Winner => "winner",
            FirstTurn::Loser => "loser",
            FirstTurn::Random => "random",
            FirstTurn::X => "x",
            FirstTurn::O => "o",
        }
    }
}

impl Difficulty {
    /// The name of the difficulty as it is typed on the command line.
    pub fn name(&self) -> (r: &'static str)
        ensures
            *self == Difficulty::Easy ==> r == "easy",
            *self == Difficulty::Medium ==> r == "medium",
            *self == Difficulty::Impossible ==> r == "impossible",
    {
        match *self {
            Difficulty::Easy => "easy",
            Difficulty::Medium => "medium",
            Difficulty::Impossible => "impossible",
        }
    }
}

} // verus!

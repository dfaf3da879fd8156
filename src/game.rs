use crate::board::{
    filled, full, has_line, lemma_filled_full, lemma_filled_mark, other_mark, winner_of, Board,
    TicTac, Wins,
};
use crate::command::Command;
use vstd::prelude::*;

verus! {

/// What became of one command.
pub enum Event {
    /// The players asked to leave.
    Exit,
    ShowHelp,
    Redraw,
    /// The line was no command; it is handed back.
    NotACommand(String),
    /// The chosen cell is taken; the same player moves again.
    Occupied,
    /// A mark was placed and the round goes on.
    Placed,
    /// A mark was placed and completed a line for this mark.
    RoundWon(TicTac),
    /// The ninth mark was placed and no line is complete.
    Scratch,
}

/// The state of a match as numbers and cells.
pub ghost struct GameView {
    pub cells: Seq<Option<TicTac>>,
    pub turn: TicTac,
    pub num_turns: nat,
    pub x_wins: nat,
    pub o_wins: nat,
    pub scratches: nat,
    pub out_of: nat,
    pub in_round: bool,
}

/// Round wins of `m` in a view.
pub open spec fn wins_of(v: GameView, m: TicTac) -> nat {
    match m {
        TicTac::X => v.x_wins,
        TicTac::O => v.o_wins,
    }
}

/// The larger of the two win counts.
pub open spec fn best_score(v: GameView) -> nat {
    if v.x_wins >= v.o_wins {
        v.x_wins
    } else {
        v.o_wins
    }
}

/// The match is decided: the better mark has won `out_of` rounds.
pub open spec fn decided(v: GameView) -> bool {
    best_score(v) >= v.out_of
}

/// A fresh round under `v`'s tally, starting with `first`.
pub open spec fn fresh_round(v: GameView, first: TicTac) -> bool {
    &&& v.cells == Seq::new(9, |i: int| None::<TicTac>)
    &&& v.turn == first
    &&& v.num_turns == 0
    &&& v.in_round
}

/// A match: the board of the current round, whose turn it is, and the tally.
pub struct Game {
    board: Board,
    turn: TicTac,
    num_turns: u8,
    wins: Wins,
    scratches: u64,
    out_of: u8,
    in_round: bool,
}

impl View for Game {
    type V = GameView;

    closed spec fn view(&self) -> GameView {
        GameView {
            cells: self.board@,
            turn: self.turn,
            num_turns: self.num_turns as nat,
            x_wins: self.wins.count(TicTac::X) as nat,
            o_wins: self.wins.count(TicTac::O) as nat,
            scratches: self.scratches as nat,
            out_of: self.out_of as nat,
            in_round: self.in_round,
        }
    }
}

impl Game {
    /// The match is consistent: the move count is the number of marked cells,
    /// a round in play has no winner and an empty cell, and no mark has more
    /// wins than the match needs.
    pub open spec fn wf(&self) -> bool {
        let v = self@;
        &&& v.cells.len() == 9
        &&& filled(v.cells) == v.num_turns
        &&& v.num_turns <= 9
        &&& 1 <= v.out_of <= u8::MAX
        &&& v.x_wins <= v.out_of
        &&& v.o_wins <= v.out_of
        &&& v.scratches <= u64::MAX
        &&& v.in_round ==> (v.num_turns < 9 && winner_of(v.cells) is None && !decided(v))
    }

    /// A match to `out_of` round wins whose first round starts with `first`.
    pub fn new(out_of: u8, first: TicTac) -> (r: Game)
        requires
            out_of >= 1,
        ensures
            r.wf(),
            fresh_round(r@, first),
            r@.x_wins == 0,
            r@.o_wins == 0,
            r@.scratches == 0,
            r@.out_of == out_of,
    {
        let board = Board::new();
        let r = Game {
            board,
            turn: first,
            num_turns: 0,
            wins: Wins::new(),
            scratches: 0,
            out_of,
            in_round: true,
        };
        proof {
            let e = Seq::new(9, |i: int| None::<TicTac>);
            lemma_empty_filled(e);
            assert(!has_line(e, TicTac::X));
            assert(!has_line(e, TicTac::O));
        }
        r
    }

    /// Acts on one command. A move on an empty cell places the current mark,
    /// passes the turn and counts the move; a completed line ends the round
    /// as a win for that mark, and a ninth move without one as a scratch.
    /// Every other command leaves the match as it was.
    pub fn step(&mut self, cmd: &Command) -> (r: Event)
        requires
            old(self).wf(),
            old(self)@.in_round,
            old(self)@.scratches < u64::MAX,
            cmd matches Command::PlaceAt(i) ==> i < 9,
        ensures
            final(self).wf(),
            final(self)@.out_of == old(self)@.out_of,
            match *cmd {
                Command::Quit => r is Exit && final(self)@ == old(self)@,
                Command::Help => r is ShowHelp && final(self)@ == old(self)@,
                Command::Redraw => r is Redraw && final(self)@ == old(self)@,
                Command::Invalid(s) => final(self)@ == old(self)@ && (r matches Event::NotACommand(
                    t,
                ) && t@ == s@),
                Command::PlaceAt(i) => placed(old(self)@, final(self)@, i as int, r),
            },
    {
        match cmd {
            Command::Quit => Event::Exit,
            Command::Help => Event::ShowHelp,
            Command::Redraw => Event::Redraw,
            Command::Invalid(s) => Event::NotACommand(s.clone()),
            Command::PlaceAt(i) => self.place(*i),
        }
    }

    fn place(&mut self, index: usize) -> (r: Event)
        requires
            old(self).wf(),
            old(self)@.in_round,
            old(self)@.scratches < u64::MAX,
            index < 9,
        ensures
            final(self).wf(),
            final(self)@.out_of == old(self)@.out_of,
            placed(old(self)@, final(self)@, index as int, r),
    {
        let mark = self.turn;
        proof {
            self.board.lemma_len();
        }
        if self.board.try_mark(index, &mark).is_err() {
            return Event::Occupied;
        }
        proof {
            lemma_filled_mark(old(self).board@, index as int, mark);
        }
        self.turn = mark.other();
        self.num_turns = self.num_turns + 1;
        match self.board.winner() {
            Some(w) => {
                self.wins.add(w);
                self.in_round = false;
                Event::RoundWon(w)
            },
            None => {
                if self.num_turns >= 9 {
                    self.scratches = self.scratches + 1;
                    self.in_round = false;
                    Event::Scratch
                } else {
                    Event::Placed
                }
            },
        }
    }

    /// Whether the match is decided.
    pub fn is_over(&self) -> (r: bool)
        ensures
            r == decided(self@),
    {
        self.wins.get(TicTac::X) >= self.out_of || self.wins.get(TicTac::O) >= self.out_of
    }

    /// Starts the next round on an empty board with `first` to move; the
    /// tally is kept.
    pub fn next_round(&mut self, first: TicTac)
        requires
            old(self).wf(),
            !old(self)@.in_round,
            !decided(old(self)@),
        ensures
            final(self).wf(),
            fresh_round(final(self)@, first),
            final(self)@.x_wins == old(self)@.x_wins,
            final(self)@.o_wins == old(self)@.o_wins,
            final(self)@.scratches == old(self)@.scratches,
            final(self)@.out_of == old(self)@.out_of,
    {
        self.board = Board::new();
        self.turn = first;
        self.num_turns = 0;
        self.in_round = true;
        proof {
            let e = Seq::new(9, |i: int| None::<TicTac>);
            lemma_empty_filled(e);
            assert(!has_line(e, TicTac::X));
            assert(!has_line(e, TicTac::O));
        }
    }

    /// The board of the current round.
    pub fn board(&self) -> (r: &Board)
        ensures
            r@ == self@.cells,
    {
        &self.board
    }

    /// The mark to move next.
    pub fn turn(&self) -> (r: TicTac)
        ensures
            r == self@.turn,
    {
        self.turn
    }

    /// Moves made in the current round.
    pub fn num_turns(&self) -> (r: u8)
        ensures
            r as nat == self@.num_turns,
    {
        self.num_turns
    }

    /// Round wins of each mark.
    pub fn wins(&self) -> (r: &Wins)
        ensures
            r.count(TicTac::X) as nat == self@.x_wins,
            r.count(TicTac::O) as nat == self@.o_wins,
    {
        &self.wins
    }

    /// Rounds that ended as scratches.
    pub fn scratches(&self) -> (r: u64)
        ensures
            r as nat == self@.scratches,
    {
        self.scratches
    }

    /// Whether a round is in play.
    pub fn in_round(&self) -> (r: bool)
        ensures
            r == self@.in_round,
    {
        self.in_round
    }
}

/// How the match moved on after a move on cell `i` gave event `r`: an occupied
/// cell changes nothing; otherwise the mark is placed, the turn passes, the
/// move is counted, and a win or a scratch is tallied and ends the round.
pub open spec fn placed(pre: GameView, post: GameView, i: int, r: Event) -> bool {
    if pre.cells[i] is Some {
        r is Occupied && post == pre
    } else {
        let cells = pre.cells.update(i, Some(pre.turn));
        &&& post.cells == cells
        &&& post.turn == other_mark(pre.turn)
        &&& post.num_turns == pre.num_turns + 1
        &&& post.out_of == pre.out_of
        &&& match winner_of(cells) {
            Some(w) => {
                &&& r == Event::RoundWon(w)
                &&& !post.in_round
                &&& wins_of(post, w) == wins_of(pre, w) + 1
                &&& wins_of(post, other_mark(w)) == wins_of(pre, other_mark(w))
                &&& post.scratches == pre.scratches
            },
            None => {
                &&& post.x_wins == pre.x_wins
                &&& post.o_wins == pre.o_wins
                &&& if post.num_turns == 9 {
                    r is Scratch && !post.in_round && post.scratches == pre.scratches + 1
                } else {
                    r is Placed && post.in_round && post.scratches == pre.scratches
                }
            },
        }
    }
}

/// The tally never goes down: a move adds exactly one to it, to the winner's
/// count or to the scratches, when it ends the round, and nothing otherwise.
pub proof fn lemma_tally_step(pre: GameView, post: GameView, i: int, r: Event)
    requires
        placed(pre, post, i, r),
    ensures
        post.x_wins >= pre.x_wins,
        post.o_wins >= pre.o_wins,
        post.scratches >= pre.scratches,
        post.x_wins + post.o_wins + post.scratches == pre.x_wins + pre.o_wins + pre.scratches + (
        if r is RoundWon || r is Scratch {
            1int
        } else {
            0int
        }),
{
}

/// The ninth move of a round, when it completes no line, ends the round as a
/// scratch on a full board and adds no win.
pub proof fn lemma_ninth_move_scratch(pre: GameView, post: GameView, i: int, r: Event)
    requires
        pre.cells.len() == 9,
        filled(pre.cells) == pre.num_turns,
        pre.num_turns == 8,
        0 <= i < 9,
        pre.cells[i] is None,
        placed(pre, post, i, r),
        !has_line(post.cells, TicTac::X),
        !has_line(post.cells, TicTac::O),
    ensures
        r is Scratch,
        full(post.cells),
        winner_of(post.cells) is None,
        post.x_wins == pre.x_wins,
        post.o_wins == pre.o_wins,
{
    lemma_filled_mark(pre.cells, i, pre.turn);
    lemma_filled_full(post.cells);
}

/// An empty grid has no marked cell.
proof fn lemma_empty_filled(e: Seq<Option<TicTac>>)
    requires
        forall|i: int| 0 <= i < e.len() ==> (#[trigger] e[i]) is None,
    ensures
        filled(e) == 0,
    decreases e.len(),
{
    if e.len() > 0 {
        let d = e.drop_last();
        assert forall|i: int| 0 <= i < d.len() implies (#[trigger] d[i]) is None by {
            assert(d[i] == e[i]);
        }
        lemma_empty_filled(d);
    }
}

} // verus!

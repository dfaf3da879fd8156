use crate::ascii::{frame_of, get_frame};
use vstd::prelude::*;
use vstd::string::*;

verus! {

/// One of the two players' symbols.
#[derive(Clone, Copy, PartialEq, Eq, Debug, Structural)]
pub enum TicTac {
    X,
    O,
}

/// The mark that is not `m`.
pub open spec fn other_mark(m: TicTac) -> TicTac {
    match m {
        TicTac::X => TicTac::O,
        TicTac::O => TicTac::X,
    }
}

impl TicTac {
    /// The mark of the opposing player.
    pub fn other(&self) -> (r: TicTac)
        ensures
            r == other_mark(*self),
    {
        match *self {
            TicTac::X => TicTac::O,
            TicTac::O => TicTac::X,
        }
    }

    /// The one-letter name of the mark.
    pub fn symbol(&self) -> (r: &'static str)
        ensures
            *self == TicTac::X ==> r@ == seq!['X'],
            *self == TicTac::O ==> r@ == seq!['O'],
    {
        proof {
            reveal_strlit("X");
            reveal_strlit("O");
        }
        match *self {
            TicTac::X => "X",
            TicTac::O => "O",
        }
    }
}

/// Rounds won by each mark over a match.
pub struct Wins {
    x: u8,
    o: u8,
}

impl Wins {
    /// Rounds won so far by `m`.
    pub closed spec fn count(&self, m: TicTac) -> u8 {
        match m {
            TicTac::X => self.x,
            TicTac::O => self.o,
        }
    }

    /// A tally with no rounds won.
    pub fn new() -> (r: Wins)
        ensures
            r.count(TicTac::X) == 0,
            r.count(TicTac::O) == 0,
    {
        Wins { x: 0, o: 0 }
    }

    /// Records one more round won by `tic_tac`.
    pub fn add(&mut self, tic_tac: TicTac)
        requires
            old(self).count(tic_tac) < u8::MAX,
        ensures
            final(self).count(tic_tac) == old(self).count(tic_tac) + 1,
            final(self).count(other_mark(tic_tac)) == old(self).count(other_mark(tic_tac)),
    {
        if tic_tac == TicTac::X {
            self.x = self.x + 1;
        } else {
            self.o = self.o + 1;
        }
    }

    /// Rounds won so far by `tic_tac`.
    #[verifier::when_used_as_spec(count)]
    pub fn get(&self, tic_tac: TicTac) -> (r: u8)
        ensures
            r == self.count(tic_tac),
    {
        if tic_tac == TicTac::X {
            self.x
        } else {
            self.o
        }
    }

    /// The mark with more wins; `O` on a tie.
    pub fn winner(&self) -> (r: TicTac)
        ensures
            r == (if self.count(TicTac::X) > self.count(TicTac::O) {
                TicTac::X
            } else {
                TicTac::O
            }),
    {
        if self.x > self.o {
            TicTac::X
        } else {
            TicTac::O
        }
    }

    /// The mark with fewer wins; `O` on a tie.
    pub fn loser(&self) -> (r: TicTac)
        ensures
            r == (if self.count(TicTac::X) < self.count(TicTac::O) {
                TicTac::X
            } else {
                TicTac::O
            }),
    {
        if self.x < self.o {
            TicTac::X
        } else {
            TicTac::O
        }
    }
}

/// How large a board is drawn.
pub enum Size {
    Small,
    Large,
}

/// The three cells of the `k`-th winning line: rows, then columns, then the
/// two diagonals.
pub open spec fn line(k: int) -> (int, int, int) {
    if k == 0 {
        (0, 1, 2)
    } else if k == 1 {
        (3, 4, 5)
    } else if k == 2 {
        (6, 7, 8)
    } else if k == 3 {
        (0, 3, 6)
    } else if k == 4 {
        (1, 4, 7)
    } else if k == 5 {
        (2, 5, 8)
    } else if k == 6 {
        (0, 4, 8)
    } else {
        (2, 4, 6)
    }
}

/// Every cell of line `k` holds `m`.
pub open spec fn line_held(cells: Seq<Option<TicTac>>, k: int, m: TicTac) -> bool {
    let (a, b, c) = line(k);
    cells[a] == Some(m) && cells[b] == Some(m) && cells[c] == Some(m)
}

/// Some canonical line is entirely held by `m`.
pub open spec fn has_line(cells: Seq<Option<TicTac>>, m: TicTac) -> bool {
    exists|k: int| 0 <= k < 8 && #[trigger] line_held(cells, k, m)
}

/// The winner of a grid: `X` is looked for before `O`.
pub open spec fn winner_of(cells: Seq<Option<TicTac>>) -> Option<TicTac> {
    if has_line(cells, TicTac::X) {
        Some(TicTac::X)
    } else if has_line(cells, TicTac::O) {
        Some(TicTac::O)
    } else {
        None
    }
}

/// No cell is empty.
pub open spec fn full(cells: Seq<Option<TicTac>>) -> bool {
    forall|i: int| 0 <= i < cells.len() ==> (#[trigger] cells[i]) is Some
}

/// The number of marked cells.
pub open spec fn filled(cells: Seq<Option<TicTac>>) -> nat
    decreases cells.len(),
{
    if cells.len() == 0 {
        0
    } else {
        filled(cells.drop_last()) + if cells.last() is Some {
            1nat
        } else {
            0nat
        }
    }
}


/// Marking an empty cell adds exactly one to the count of marked cells.
pub proof fn lemma_filled_mark(cells: Seq<Option<TicTac>>, i: int, m: TicTac)
    requires
        0 <= i < cells.len(),
        cells[i] is None,
    ensures
        filled(cells.update(i, Some(m))) == filled(cells) + 1,
    decreases cells.len(),
{
    let u = cells.update(i, Some(m));
    if i == cells.len() - 1 {
        assert(u.drop_last() =~= cells.drop_last());
    } else {
        assert(u.drop_last() =~= cells.drop_last().update(i, Some(m)));
        lemma_filled_mark(cells.drop_last(), i, m);
    }
}

/// The count of marked cells reaches the number of cells exactly when no cell
/// is empty.
pub proof fn lemma_filled_full(cells: Seq<Option<TicTac>>)
    ensures
        filled(cells) <= cells.len(),
        filled(cells) == cells.len() <==> full(cells),
    decreases cells.len(),
{
    if cells.len() > 0 {
        let d = cells.drop_last();
        lemma_filled_full(d);
        if full(cells) {
            assert forall|i: int| 0 <= i < d.len() implies (#[trigger] d[i]) is Some by {
                assert(d[i] == cells[i]);
            }
        }
        if filled(cells) == cells.len() {
            assert forall|i: int| 0 <= i < cells.len() implies (#[trigger] cells[i]) is Some by {
                if i < d.len() {
                    assert(d[i] == cells[i]);
                }
            }
        }
    }
}

/// The winner is a mark exactly when that mark holds a whole line and `X`
/// does not; there is no winner exactly when neither mark holds a line.
pub proof fn lemma_winner_iff_line(cells: Seq<Option<TicTac>>)
    ensures
        winner_of(cells) == Some(TicTac::X) <==> has_line(cells, TicTac::X),
        winner_of(cells) == Some(TicTac::O) <==> (has_line(cells, TicTac::O) && !has_line(
            cells,
            TicTac::X,
        )),
        winner_of(cells) is None <==> (!has_line(cells, TicTac::X) && !has_line(
            cells,
            TicTac::O,
        )),
        forall|m: TicTac| winner_of(cells) == Some(m) ==> has_line(cells, m),
{
}

/// A board filled by nine marks on which no line is complete is a draw: it
/// has no winner and no empty cell.
pub proof fn lemma_full_without_line_is_draw(cells: Seq<Option<TicTac>>)
    requires
        cells.len() == 9,
        filled(cells) == 9,
        !has_line(cells, TicTac::X),
        !has_line(cells, TicTac::O),
    ensures
        full(cells),
        winner_of(cells) is None,
{
    lemma_filled_full(cells);
}

/// Number of text lines of a drawing of the board.
pub open spec fn drawing_len(size: Size) -> int {
    match size {
        Size::Small => 5,
        Size::Large => 28,
    }
}

/// Outer border of the large drawing.
pub const BORDER: &'static str = "-------------------------------------------------------------";

/// Border between two rows of the large drawing.
pub const ROW_RULE: &'static str = "|-------------------|-------------------|-------------------|";

/// Border between two rows of the small drawing.
pub const SMALL_RULE: &'static str = "-+-+-";

/// Line `k` of the large drawing: a border, then for each row eight lines of
/// glyphs and a rule below them, the last rule being the outer border.
pub open spec fn large_line(cells: Seq<Option<TicTac>>, k: int) -> Seq<char> {
    if k == 0 {
        BORDER@
    } else {
        let i = (k - 1) / 9;
        let j = (k - 1) % 9;
        if j == 8 {
            if i == 2 {
                BORDER@
            } else {
                ROW_RULE@
            }
        } else {
            "|"@ + frame_of(cells[3 * i], j)@ + "|"@ + frame_of(cells[3 * i + 1], j)@ + "|"@
                + frame_of(cells[3 * i + 2], j)@ + "|"@
        }
    }
}

/// One character for a cell of the small drawing.
pub open spec fn small_cell(c: Option<TicTac>) -> &'static str {
    match c {
        Some(TicTac::X) => "X",
        Some(TicTac::O) => "O",
        None => " ",
    }
}

/// Line `k` of the small drawing: rows of one character per cell, with rules
/// between them.
pub open spec fn small_line(cells: Seq<Option<TicTac>>, k: int) -> Seq<char> {
    if k % 2 == 1 {
        SMALL_RULE@
    } else {
        let i = k / 2;
        small_cell(cells[3 * i])@ + "|"@ + small_cell(cells[3 * i + 1])@ + "|"@ + small_cell(
            cells[3 * i + 2],
        )@
    }
}

/// Line `k` of the drawing of a board at the given size.
pub open spec fn drawing_line(cells: Seq<Option<TicTac>>, size: Size, k: int) -> Seq<char> {
    match size {
        Size::Small => small_line(cells, k),
        Size::Large => large_line(cells, k),
    }
}

fn small_text(c: Option<TicTac>) -> (r: &'static str)
    ensures
        r == small_cell(c),
{
    match c {
        Some(TicTac::X) => "X",
        Some(TicTac::O) => "O",
        None => " ",
    }
}

/// A 3x3 grid of cells, indexed row by row from 0 to 8.
pub struct Board {
    board: [Option<TicTac>; 9],
}

impl View for Board {
    type V = Seq<Option<TicTac>>;

    closed spec fn view(&self) -> Seq<Option<TicTac>> {
        self.board@
    }
}

/// The cells of line `k`, as indices.
fn line_at(k: usize) -> (r: (usize, usize, usize))
    requires
        k < 8,
    ensures
        (r.0 as int, r.1 as int, r.2 as int) == line(k as int),
{
    match k {
        0 => (0, 1, 2),
        1 => (3, 4, 5),
        2 => (6, 7, 8),
        3 => (0, 3, 6),
        4 => (1, 4, 7),
        5 => (2, 5, 8),
        6 => (0, 4, 8),
        _ => (2, 4, 6),
    }
}

impl Board {
    /// Every board has nine cells.
    pub proof fn lemma_len(&self)
        ensures
            self@.len() == 9,
    {
    }

    /// An empty board.
    pub fn new() -> (r: Board)
        ensures
            r@ == Seq::new(9, |i: int| None::<TicTac>),
    {
        let r = Board { board: [None; 9] };
        assert(r@ =~= Seq::new(9, |i: int| None::<TicTac>));
        r
    }

    /// What cell `index` holds.
    pub fn cell(&self, index: usize) -> (r: Option<TicTac>)
        requires
            index < 9,
        ensures
            r == self@[index as int],
    {
        self.board[index]
    }

    /// Places `mark` on cell `index` if that cell is empty; an occupied cell
    /// leaves the board as it was and gives an error.
    pub fn try_mark(&mut self, index: usize, mark: &TicTac) -> (r: Result<(), &'static str>)
        requires
            index < 9,
        ensures
            old(self)@[index as int] is Some ==> r == Err::<(), &'static str>("slot already occupied")
                && final(self)@ == old(self)@,
            old(self)@[index as int] is None ==> r is Ok && final(self)@ == old(self)@.update(
                index as int,
                Some(*mark),
            ),
            forall|i: int|
                0 <= i < 9 && (#[trigger] old(self)@[i]) is Some ==> final(self)@[i] == old(
                    self,
                )@[i],
    {
        if self.board[index].is_none() {
            self.board[index] = Some(*mark);
            Ok(())
        } else {
            Err("slot already occupied")
        }
    }

    /// The mark that holds a whole line, `X` looked for first.
    pub fn winner(&self) -> (r: Option<TicTac>)
        ensures
            r == winner_of(self@),
    {
        if self.has_won(TicTac::X) {
            Some(TicTac::X)
        } else if self.has_won(TicTac::O) {
            Some(TicTac::O)
        } else {
            None
        }
    }

    /// Whether `tic_tac` holds some row, column or diagonal.
    fn has_won(&self, tic_tac: TicTac) -> (r: bool)
        ensures
            r == has_line(self@, tic_tac),
    {
        let mut k: usize = 0;
        while k < 8
            invariant
                k <= 8,
                self@.len() == 9,
                forall|j: int| 0 <= j < k ==> !#[trigger] line_held(self@, j, tic_tac),
            decreases 8 - k,
        {
            let (a, b, c) = line_at(k);
            if self.board[a] == Some(tic_tac) && self.board[b] == Some(tic_tac) && self.board[c]
                == Some(tic_tac) {
                assert(line_held(self@, k as int, tic_tac));
                return true;
            }
            k = k + 1;
        }
        false
    }


    fn large_row_line(&self, i: usize, j: usize) -> (r: String)
        requires
            i < 3,
            j < 8,
        ensures
            r@ == large_line(self@, 9 * i + j + 1),
    {
        let mut r = String::new();
        r.append("|");
        r.append(get_frame(self.board[3 * i], j));
        r.append("|");
        r.append(get_frame(self.board[3 * i + 1], j));
        r.append("|");
        r.append(get_frame(self.board[3 * i + 2], j));
        r.append("|");
        assert((9 * i + j + 1 - 1) / 9 == i && (9 * i + j + 1 - 1) % 9 == j) by (nonlinear_arith)
            requires
                j < 8,
        ;
        r
    }

    fn small_row_line(&self, i: usize) -> (r: String)
        requires
            i < 3,
        ensures
            r@ == small_line(self@, 2 * i),
    {
        let mut r = String::new();
        r.append(small_text(self.board[3 * i]));
        r.append("|");
        r.append(small_text(self.board[3 * i + 1]));
        r.append("|");
        r.append(small_text(self.board[3 * i + 2]));
        r
    }

    /// The board drawn as lines of text. The large drawing gives each cell an
    /// eight-line glyph; the small one a single character.
    pub fn render(&self, size: &Size) -> (r: Vec<String>)
        ensures
            r@.len() == drawing_len(*size),
            forall|k: int| 0 <= k < r@.len() ==> (#[trigger] r@[k])@ == drawing_line(self@, *size, k),
    {
        let mut r: Vec<String> = Vec::new();
        match size {
            Size::Small => {
                let mut i: usize = 0;
                while i < 3
                    invariant
                        i <= 3,
                        *size == Size::Small,
                        r@.len() == if i == 0 { 0 } else { 2 * i - 1 },
                        forall|k: int| 0 <= k < r@.len() ==> (#[trigger] r@[k])@ == small_line(self@, k),
                    decreases 3 - i,
                {
                    if i > 0 {
                        r.push(String::from_str(SMALL_RULE));
                    }
                    r.push(self.small_row_line(i));
                    i = i + 1;
                }
            },
            Size::Large => {
                r.push(String::from_str(BORDER));
                let mut i: usize = 0;
                while i < 3
                    invariant
                        i <= 3,
                        *size == Size::Large,
                        r@.len() == 9 * i + 1,
                        forall|k: int| 0 <= k < r@.len() ==> (#[trigger] r@[k])@ == large_line(self@, k),
                    decreases 3 - i,
                {
                    let mut j: usize = 0;
                    while j < 8
                        invariant
                            i < 3,
                            j <= 8,
                            r@.len() == 9 * i + j + 1,
                            forall|k: int| 0 <= k < r@.len() ==> (#[trigger] r@[k])@ == large_line(self@, k),
                        decreases 8 - j,
                    {
                        r.push(self.large_row_line(i, j));
                        j = j + 1;
                    }
                    assert((9 * i + 8) / 9 == i && (9 * i + 8) % 9 == 8) by (nonlinear_arith);
                    if i < 2 {
                        r.push(String::from_str(ROW_RULE));
                    } else {
                        r.push(String::from_str(BORDER));
                    }
                    i = i + 1;
                }
            },
        }
        r
    }

    /// Whether no cell is empty.
    pub fn is_full(&self) -> (r: bool)
        ensures
            r == full(self@),
    {
        let mut i: usize = 0;
        while i < 9
            invariant
                i <= 9,
                self@.len() == 9,
                forall|j: int| 0 <= j < i ==> (#[trigger] self@[j]) is Some,
            decreases 9 - i,
        {
            if self.board[i].is_none() {
                return false;
            }
            i = i + 1;
        }
        true
    }
}

} // verus!

use tictactoe::board::TicTac;
use tictactoe::command::{parse, Command};
use tictactoe::config::{choose_first, Difficulty, FirstTurn};
use tictactoe::game::{Event, Game};

fn place(g: &mut Game, key: &str) -> Event {
    let c = parse(key);
    g.step(&c)
}

#[test]
fn keys_name_cells() {
    let keys = [
        ("7", "q", 0),
        ("8", "w", 1),
        ("9", "e", 2),
        ("4", "a", 3),
        ("5", "s", 4),
        ("6", "d", 5),
        ("1", "z", 6),
        ("2", "x", 7),
        ("3", "c", 8),
    ];
    for (digit, letter, cell) in keys.iter() {
        assert!(matches!(parse(digit), Command::PlaceAt(i) if i == *cell));
        assert!(matches!(parse(letter), Command::PlaceAt(i) if i == *cell));
    }
}

#[test]
fn other_commands() {
    assert!(matches!(parse("Q"), Command::Quit));
    assert!(matches!(parse("h"), Command::Help));
    assert!(matches!(parse(""), Command::Redraw));
    assert!(matches!(parse("\n"), Command::Redraw));
    assert!(matches!(parse("q"), Command::PlaceAt(0)));
    assert!(matches!(parse("H"), Command::Invalid(ref s) if s == "H"));
    assert!(matches!(parse("55"), Command::Invalid(ref s) if s == "55"));
    assert!(matches!(parse("quit"), Command::Invalid(ref s) if s == "quit"));
    assert!(matches!(parse("0"), Command::Invalid(ref s) if s == "0"));
}

#[test]
fn lines_are_trimmed() {
    assert!(matches!(parse("  5 \n"), Command::PlaceAt(4)));
    assert!(matches!(parse(" Q\r\n"), Command::Quit));
    assert!(matches!(parse(" foo \n"), Command::Invalid(ref s) if s == "foo"));
}

#[test]
fn top_row_round() {
    let mut g = Game::new(1, TicTac::X);
    assert!(matches!(place(&mut g, "7"), Event::Placed));
    assert!(matches!(place(&mut g, "4"), Event::Placed));
    assert!(matches!(place(&mut g, "8"), Event::Placed));
    assert!(matches!(place(&mut g, "5"), Event::Placed));
    assert!(matches!(place(&mut g, "9"), Event::RoundWon(TicTac::X)));
    assert_eq!(g.num_turns(), 5);
    assert_eq!(g.board().winner(), Some(TicTac::X));
    assert_eq!(g.wins().get(TicTac::X), 1);
    assert_eq!(g.wins().get(TicTac::O), 0);
    assert!(!g.in_round());
    assert!(g.is_over());
}

#[test]
fn full_board_is_a_scratch() {
    // X O X / X O O / O X X, placed alternately starting with X
    let mut g = Game::new(1, TicTac::X);
    let order = [0, 1, 2, 4, 3, 5, 7, 6, 8];
    for (n, cell) in order.iter().enumerate() {
        let e = g.step(&Command::PlaceAt(*cell));
        if n < 8 {
            assert!(matches!(e, Event::Placed));
        } else {
            assert!(matches!(e, Event::Scratch));
        }
    }
    assert!(g.board().is_full());
    assert_eq!(g.board().winner(), None);
    assert_eq!(g.scratches(), 1);
    assert_eq!(g.wins().get(TicTac::X), 0);
    assert_eq!(g.wins().get(TicTac::O), 0);
    assert!(!g.is_over());
    assert_eq!(g.board().cell(3), Some(TicTac::X));
    assert_eq!(g.board().cell(6), Some(TicTac::O));
}

#[test]
fn same_cell_twice_is_occupied() {
    let mut g = Game::new(1, TicTac::X);
    assert!(matches!(place(&mut g, "5"), Event::Placed));
    assert_eq!(g.turn(), TicTac::O);
    assert_eq!(g.num_turns(), 1);
    assert!(matches!(place(&mut g, "5"), Event::Occupied));
    assert_eq!(g.turn(), TicTac::O);
    assert_eq!(g.num_turns(), 1);
    assert_eq!(g.board().cell(4), Some(TicTac::X));
}

#[test]
fn other_commands_change_nothing() {
    let mut g = Game::new(1, TicTac::O);
    assert!(matches!(place(&mut g, "s"), Event::Placed));
    assert!(matches!(g.step(&parse("h")), Event::ShowHelp));
    assert!(matches!(g.step(&parse("")), Event::Redraw));
    assert!(matches!(g.step(&parse("Q")), Event::Exit));
    assert!(matches!(g.step(&parse("zz")), Event::NotACommand(ref s) if s == "zz"));
    assert_eq!(g.turn(), TicTac::X);
    assert_eq!(g.num_turns(), 1);
    assert!(g.in_round());
}

fn win_round(g: &mut Game, first: TicTac, winner: TicTac) {
    g.next_round(first);
    // the winner takes the top row, the other mark the middle row
    let a = [0, 1, 2];
    let b = [3, 4];
    let mut moves = Vec::new();
    if first == winner {
        for k in 0..2 {
            moves.push(a[k]);
            moves.push(b[k]);
        }
        moves.push(a[2]);
    } else {
        moves.push(8);
        for k in 0..2 {
            moves.push(a[k]);
            moves.push(b[k]);
        }
        moves.push(a[2]);
    }
    let mut last = Event::Placed;
    for cell in moves {
        last = g.step(&Command::PlaceAt(cell));
    }
    assert!(matches!(last, Event::RoundWon(m) if m == winner));
}

#[test]
fn match_to_two_wins() {
    let mut g = Game::new(2, TicTac::X);
    for cell in [0, 3, 1, 4, 2] {
        g.step(&Command::PlaceAt(cell));
    }
    assert_eq!(g.wins().get(TicTac::X), 1);
    assert!(!g.is_over());
    win_round(&mut g, TicTac::O, TicTac::O);
    assert_eq!(g.wins().get(TicTac::O), 1);
    assert!(!g.is_over());
    win_round(&mut g, TicTac::O, TicTac::X);
    assert!(g.is_over());
    assert_eq!(g.wins().winner(), TicTac::X);
    assert_eq!(g.wins().get(TicTac::X), 2);
    assert_eq!(g.wins().loser(), TicTac::O);
    assert_eq!(g.wins().get(TicTac::O), 1);
    assert_eq!(g.scratches(), 0);
}

#[test]
fn new_round_keeps_the_tally() {
    let mut g = Game::new(3, TicTac::X);
    for cell in [0, 3, 1, 4, 2] {
        g.step(&Command::PlaceAt(cell));
    }
    g.next_round(TicTac::O);
    assert_eq!(g.turn(), TicTac::O);
    assert_eq!(g.num_turns(), 0);
    assert!(g.in_round());
    assert_eq!(g.wins().get(TicTac::X), 1);
    for i in 0..9 {
        assert_eq!(g.board().cell(i), None);
    }
}

#[test]
fn first_turn_policies() {
    for coin in [false, true] {
        assert_eq!(choose_first(FirstTurn::X, None, coin), TicTac::X);
        assert_eq!(choose_first(FirstTurn::O, Some(TicTac::X), coin), TicTac::O);
        assert_eq!(choose_first(FirstTurn::Winner, Some(TicTac::O), coin), TicTac::O);
        assert_eq!(choose_first(FirstTurn::Loser, Some(TicTac::O), coin), TicTac::X);
    }
    assert_eq!(choose_first(FirstTurn::Random, Some(TicTac::X), false), TicTac::X);
    assert_eq!(choose_first(FirstTurn::Random, None, true), TicTac::O);
    assert_eq!(choose_first(FirstTurn::Winner, None, true), TicTac::O);
    assert_eq!(choose_first(FirstTurn::Loser, None, false), TicTac::X);
    assert_eq!(FirstTurn::X.get_tic_tac(None), TicTac::X);
    assert_eq!(FirstTurn::Loser.get_tic_tac(Some(TicTac::X)), TicTac::O);
}

#[test]
fn setting_names() {
    assert_eq!(FirstTurn::Winner.name(), "winner");
    assert_eq!(FirstTurn::Random.name(), "random");
    assert_eq!(FirstTurn::O.name(), "o");
    assert_eq!(Difficulty::Easy.name(), "easy");
    assert_eq!(Difficulty::Impossible.name(), "impossible");
}

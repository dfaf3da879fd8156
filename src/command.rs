use vstd::prelude::*;
use vstd::string::*;

verus! {

/// What one line of input asks for.
pub enum Command {
    /// Put the current mark on this cell (0 to 8, row by row).
    PlaceAt(usize),
    Quit,
    Help,
    Redraw,
    /// Anything else, as it was typed once trimmed.
    Invalid(String),
}

/// The cell that a key names. Keys follow a numeric keypad (`7 8 9` on top)
/// or the letter block `q w e / a s d / z x c`.
pub open spec fn key_cell(c: char) -> Option<int> {
    if c == '7' || c == 'q' {
        Some(0)
    } else if c == '8' || c == 'w' {
        Some(1)
    } else if c == '9' || c == 'e' {
        Some(2)
    } else if c == '4' || c == 'a' {
        Some(3)
    } else if c == '5' || c == 's' {
        Some(4)
    } else if c == '6' || c == 'd' {
        Some(5)
    } else if c == '1' || c == 'z' {
        Some(6)
    } else if c == '2' || c == 'x' {
        Some(7)
    } else if c == '3' || c == 'c' {
        Some(8)
    } else {
        None
    }
}

/// `cmd` is the command that the trimmed line `t` stands for.
pub open spec fn means(cmd: Command, t: Seq<char>) -> bool {
    if t.len() == 0 {
        cmd is Redraw
    } else if t.len() == 1 && key_cell(t[0]) is Some {
        cmd matches Command::PlaceAt(i) && i as int == key_cell(t[0])->0
    } else if t == seq!['Q'] {
        cmd is Quit
    } else if t == seq!['h'] {
        cmd is Help
    } else {
        cmd matches Command::Invalid(s) && s@ == t
    }
}

/// A line with its leading and trailing whitespace removed.
pub uninterp spec fn trimmed(s: Seq<char>) -> Seq<char>;

/// Relies on `str::trim`: the slice without leading and trailing whitespace,
/// which depends on the characters of the line alone.
#[verifier::external_body]
fn trim(s: &str) -> (r: &str)
    ensures
        r@ == trimmed(s@),
{
    s.trim()
}

fn cell_for_key(c: char) -> (r: Option<usize>)
    ensures
        r matches Some(i) ==> key_cell(c) == Some(i as int),
        r is None ==> key_cell(c) is None,
{
    match c {
        '7' | 'q' => Some(0),
        '8' | 'w' => Some(1),
        '9' | 'e' => Some(2),
        '4' | 'a' => Some(3),
        '5' | 's' => Some(4),
        '6' | 'd' => Some(5),
        '1' | 'z' => Some(6),
        '2' | 'x' => Some(7),
        '3' | 'c' => Some(8),
        _ => None,
    }
}

/// The command for a line that is already trimmed.
pub fn parse_trimmed(t: &str) -> (r: Command)
    ensures
        means(r, t@),
        r matches Command::PlaceAt(i) ==> i < 9,
{
    let n = t.unicode_len();
    if n == 0 {
        return Command::Redraw;
    }
    if n == 1 {
        let c = t.get_char(0);
        match cell_for_key(c) {
            Some(i) => {
                return Command::PlaceAt(i);
            },
            None => {},
        }
        if c == 'Q' {
            assert(t@ =~= seq!['Q']);
            return Command::Quit;
        }
        if c == 'h' {
            assert(t@ =~= seq!['h']);
            return Command::Help;
        }
        assert(t@ != seq!['Q'] && t@ != seq!['h']) by {
            assert(seq!['Q'][0] == 'Q');
            assert(seq!['h'][0] == 'h');
        }
    }
    if n > 1 {
        assert(seq!['Q'].len() == 1 && seq!['h'].len() == 1);
    }
    Command::Invalid(t.to_owned())
}

/// The command for a raw input line, which is trimmed first.
pub fn parse(line: &str) -> (r: Command)
    ensures
        means(r, trimmed(line@)),
        r matches Command::PlaceAt(i) ==> i < 9,
{
    parse_trimmed(trim(line))
}

} // verus!

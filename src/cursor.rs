use vstd::prelude::*;

use crate::text::{decimal, decimal_of};

verus! {

/// A cursor motion or a save / restore of the cursor position.
#[derive(Debug, Clone, Copy, PartialEq, Eq, Structural)]
pub enum CursorKind {
    /// Moves the cursor to `(0, 0)`.
    Home,
    /// Moves the cursor to the coordinates `(x, y)`.
    Move(usize, usize),
    /// Moves the cursor up by a number of lines.
    Up(usize),
    /// Moves the cursor down by a number of lines.
    Down(usize),
    /// Moves the cursor left by a number of columns.
    Left(usize),
    /// Moves the cursor right by a number of columns.
    Right(usize),
    /// Moves the cursor to a column.
    Column(usize),
    /// Saves the cursor position.
    Save,
    /// Restores the cursor position.
    Restore,
}

/// `ESC [`, then the decimal rendering of `n`, then the final character.
pub open spec fn csi_count(n: usize, fin: Seq<char>) -> Seq<char> {
    "\x1b["@ + decimal_of(n as nat) + fin
}

/// The escape sequence of each cursor operation.
///
/// `Move(x, y)` is rendered as `ESC [ {x} ; {y}`, braces included and with no
/// final `H`: terminals that read it strictly do not move the cursor. This
/// rendering is kept as it is for compatibility with existing callers.
/// `Save` and `Restore` use the two-byte forms `ESC 7` and `ESC 8` with a space
/// after the escape character.
pub open spec fn cursor_sequence(k: CursorKind) -> Seq<char> {
    match k {
        CursorKind::Home => "\x1b[H"@,
        CursorKind::Move(x, y) => "\x1b[{"@ + decimal_of(x as nat) + "};{"@ + decimal_of(y as nat)
            + "}"@,
        CursorKind::Up(n) => csi_count(n, "A"@),
        CursorKind::Down(n) => csi_count(n, "B"@),
        CursorKind::Left(n) => csi_count(n, "D"@),
        CursorKind::Right(n) => csi_count(n, "C"@),
        CursorKind::Column(n) => csi_count(n, "G"@),
        CursorKind::Save => "\x1b 7"@,
        CursorKind::Restore => "\x1b 8"@,
    }
}

fn csi_with_count(n: usize, fin: &str) -> (r: String)
    ensures
        r@ == csi_count(n, fin@),
{
    String::from_str("\x1b[").concat(decimal(n).as_str()).concat(fin)
}

impl CursorKind {
    pub fn home() -> (r: Self)
        ensures
            r == CursorKind::Home,
    {
        CursorKind::Home
    }

    pub fn move_to(x: usize, y: usize) -> (r: Self)
        ensures
            r == CursorKind::Move(x, y),
    {
        CursorKind::Move(x, y)
    }

    pub fn up(n: usize) -> (r: Self)
        ensures
            r == CursorKind::Up(n),
    {
        CursorKind::Up(n)
    }

    pub fn down(n: usize) -> (r: Self)
        ensures
            r == CursorKind::Down(n),
    {
        CursorKind::Down(n)
    }

    pub fn left(n: usize) -> (r: Self)
        ensures
            r == CursorKind::Left(n),
    {
        CursorKind::Left(n)
    }

    pub fn right(n: usize) -> (r: Self)
        ensures
            r == CursorKind::Right(n),
    {
        CursorKind::Right(n)
    }

    pub fn column(n: usize) -> (r: Self)
        ensures
            r == CursorKind::Column(n),
    {
        CursorKind::Column(n)
    }

    pub fn save() -> (r: Self)
        ensures
            r == CursorKind::Save,
    {
        CursorKind::Save
    }

    pub fn restore() -> (r: Self)
        ensures
            r == CursorKind::Restore,
    {
        CursorKind::Restore
    }

    /// The escape sequence that performs this operation. Defined for every
    /// operation and every count, zero included.
    pub fn ansi_escape_sequence(self) -> (r: String)
        ensures
            r@ == cursor_sequence(self),
    {
        match self {
            CursorKind::Home => String::from_str("\x1b[H"),
            CursorKind::Move(x, y) => String::from_str("\x1b[{").concat(decimal(x).as_str()).concat(
                "};{",
            ).concat(decimal(y).as_str()).concat("}"),
            CursorKind::Up(n) => csi_with_count(n, "A"),
            CursorKind::Down(n) => csi_with_count(n, "B"),
            CursorKind::Left(n) => csi_with_count(n, "D"),
            CursorKind::Right(n) => csi_with_count(n, "C"),
            CursorKind::Column(n) => csi_with_count(n, "G"),
            CursorKind::Save => String::from_str("\x1b 7"),
            CursorKind::Restore => String::from_str("\x1b 8"),
        }
    }
}

} // verus!

use vstd::prelude::*;

use crate::error::TermError;
use crate::text::{join, joined, str_eq, views};

verus! {

/// A region of the screen or of the current line to erase.
#[derive(Debug, Clone, Copy, PartialEq, Eq, Structural)]
pub enum EraseKind {
    /// Clears the entire screen.
    Screen,
    /// Clears from the cursor to the end of the screen.
    ScreenEnd,
    /// Clears from the cursor to the start of the screen.
    ScreenStart,
    /// Clears the current line.
    Line,
    /// Clears from the cursor to the end of the line.
    LineEnd,
    /// Clears from the cursor to the start of the line.
    LineStart,
    /// Clears the saved lines.
    Saved,
}

/// Every region, in the order in which diagnostics list them.
pub open spec fn all_erase_kinds() -> Seq<EraseKind> {
    seq![
        EraseKind::Screen,
        EraseKind::ScreenEnd,
        EraseKind::ScreenStart,
        EraseKind::Line,
        EraseKind::LineStart,
        EraseKind::LineEnd,
        EraseKind::Saved,
    ]
}

/// The user-facing name of a region.
pub open spec fn erase_name(k: EraseKind) -> Seq<char> {
    match k {
        EraseKind::Screen => "clear"@,
        EraseKind::ScreenEnd => "clearEnd"@,
        EraseKind::ScreenStart => "clearStart"@,
        EraseKind::Line => "clearLine"@,
        EraseKind::LineEnd => "clearLineEnd"@,
        EraseKind::LineStart => "clearLineStart"@,
        EraseKind::Saved => "clearSaved"@,
    }
}

/// The escape sequence that erases a region.
pub open spec fn erase_sequence(k: EraseKind) -> Seq<char> {
    match k {
        EraseKind::Screen => "\x1b[2J"@,
        EraseKind::ScreenEnd => "\x1b[0J"@,
        EraseKind::ScreenStart => "\x1b[1J"@,
        EraseKind::Line => "\x1b[2K"@,
        EraseKind::LineEnd => "\x1b[0K"@,
        EraseKind::LineStart => "\x1b[1K"@,
        EraseKind::Saved => "\x1b[3J"@,
    }
}

/// The region whose name is exactly `s`, if there is one.
pub open spec fn erase_kind_named(s: Seq<char>) -> Option<EraseKind> {
    if s == "clear"@ {
        Some(EraseKind::Screen)
    } else if s == "clearEnd"@ {
        Some(EraseKind::ScreenEnd)
    } else if s == "clearStart"@ {
        Some(EraseKind::ScreenStart)
    } else if s == "clearLine"@ {
        Some(EraseKind::Line)
    } else if s == "clearLineEnd"@ {
        Some(EraseKind::LineEnd)
    } else if s == "clearLineStart"@ {
        Some(EraseKind::LineStart)
    } else if s == "clearSaved"@ {
        Some(EraseKind::Saved)
    } else {
        None
    }
}

/// The names of all regions, separated by `", "`.
pub open spec fn erase_names_listing() -> Seq<char> {
    joined(all_erase_kinds().map_values(|k: EraseKind| erase_name(k)), ", "@)
}

impl EraseKind {
    /// Every region, in the order of `all_erase_kinds`.
    pub fn all() -> (r: Vec<EraseKind>)
        ensures
            r@ == all_erase_kinds(),
    {
        let r = vec![
            EraseKind::Screen,
            EraseKind::ScreenEnd,
            EraseKind::ScreenStart,
            EraseKind::Line,
            EraseKind::LineStart,
            EraseKind::LineEnd,
            EraseKind::Saved,
        ];
        assert(r@ =~= all_erase_kinds());
        r
    }

    /// The user-facing name of the region, also the key that `parse` reads.
    pub fn name(self) -> (r: &'static str)
        ensures
            r@ == erase_name(self),
    {
        match self {
            EraseKind::Screen => "clear",
            EraseKind::ScreenEnd => "clearEnd",
            EraseKind::ScreenStart => "clearStart",
            EraseKind::Line => "clearLine",
            EraseKind::LineEnd => "clearLineEnd",
            EraseKind::LineStart => "clearLineStart",
            EraseKind::Saved => "clearSaved",
        }
    }

    /// The escape sequence that erases the region. Defined for every region.
    pub fn ansi_escape_sequence(self) -> (r: &'static str)
        ensures
            r@ == erase_sequence(self),
    {
        match self {
            EraseKind::Screen => "\x1b[2J",
            EraseKind::ScreenEnd => "\x1b[0J",
            EraseKind::ScreenStart => "\x1b[1J",
            EraseKind::Line => "\x1b[2K",
            EraseKind::LineEnd => "\x1b[0K",
            EraseKind::LineStart => "\x1b[1K",
            EraseKind::Saved => "\x1b[3J",
        }
    }

    /// The region with the given name. Any other text is rejected with
    /// `UnknownOperation`, which carries the text as it was given.
    pub fn parse(name: &str) -> (r: Result<EraseKind, TermError>)
        ensures
            erase_kind_named(name@) matches Some(k) ==> r == Ok::<EraseKind, TermError>(k),
            erase_kind_named(name@) is None ==> (r matches Err(TermError::UnknownOperation {
                name: n,
            }) && n@ == name@),
    {
        if str_eq(name, "clear") {
            Ok(EraseKind::Screen)
        } else if str_eq(name, "clearEnd") {
            Ok(EraseKind::ScreenEnd)
        } else if str_eq(name, "clearStart") {
            Ok(EraseKind::ScreenStart)
        } else if str_eq(name, "clearLine") {
            Ok(EraseKind::Line)
        } else if str_eq(name, "clearLineEnd") {
            Ok(EraseKind::LineEnd)
        } else if str_eq(name, "clearLineStart") {
            Ok(EraseKind::LineStart)
        } else if str_eq(name, "clearSaved") {
            Ok(EraseKind::Saved)
        } else {
            Err(TermError::UnknownOperation { name: String::from_str(name) })
        }
    }
}

/// The names of all regions, separated by `", "`.
pub fn erase_names() -> (r: String)
    ensures
        r@ == erase_names_listing(),
{
    let kinds = EraseKind::all();
    let mut names: Vec<String> = Vec::new();
    let mut i: usize = 0;
    while i < kinds.len()
        invariant
            kinds@ == all_erase_kinds(),
            i <= kinds@.len(),
            names@.len() == i,
            forall|j: int| 0 <= j < i ==> names@[j]@ == erase_name(kinds@[j]),
        decreases kinds@.len() - i,
    {
        names.push(String::from_str(kinds[i].name()));
        i = i + 1;
    }
    assert(views(names@) =~= all_erase_kinds().map_values(|k: EraseKind| erase_name(k)));
    join(&names, ", ")
}

/// A region's name reads back as that region.
pub proof fn lemma_name_round_trip(k: EraseKind)
    ensures
        erase_kind_named(erase_name(k)) == Some(k),
{
    reveal_strlit("clear");
    reveal_strlit("clearEnd");
    reveal_strlit("clearStart");
    reveal_strlit("clearLine");
    reveal_strlit("clearLineEnd");
    reveal_strlit("clearLineStart");
    reveal_strlit("clearSaved");
    assert("clear"@.len() == 5);
    assert("clearEnd"@.len() == 8);
    assert("clearStart"@.len() == 10);
    assert("clearLine"@.len() == 9);
    assert("clearLineEnd"@.len() == 12);
    assert("clearLineStart"@.len() == 14);
    assert("clearSaved"@.len() == 10);
    assert("clearStart"@[6] != "clearSaved"@[6]);
}

} // verus!

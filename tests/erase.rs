use lune_term::erase::{erase_names, EraseKind};
use lune_term::error::TermError;

#[test]
fn every_name_parses_back() {
    for kind in EraseKind::all() {
        assert_eq!(EraseKind::parse(kind.name()), Ok(kind));
    }
    assert_eq!(EraseKind::all().len(), 7);
}

#[test]
fn clear_line_end_parses() {
    assert_eq!(EraseKind::parse("clearLineEnd"), Ok(EraseKind::LineEnd));
}

#[test]
fn bogus_name_is_rejected_with_all_names() {
    let err = EraseKind::parse("bogus").unwrap_err();
    assert_eq!(err, TermError::UnknownOperation { name: "bogus".to_string() });
    assert_eq!(
        err.message(),
        "Method bogus not found on Terminal, valid methods are clear, clearEnd, clearStart, clearLine, clearLineStart, clearLineEnd, clearSaved"
    );
}

#[test]
fn names_are_case_sensitive_and_exact() {
    assert!(EraseKind::parse("Clear").is_err());
    assert!(EraseKind::parse("clear ").is_err());
    assert!(EraseKind::parse("").is_err());
}

#[test]
fn erase_sequences() {
    assert_eq!(EraseKind::Screen.ansi_escape_sequence(), "\x1b[2J");
    assert_eq!(EraseKind::ScreenEnd.ansi_escape_sequence(), "\x1b[0J");
    assert_eq!(EraseKind::ScreenStart.ansi_escape_sequence(), "\x1b[1J");
    assert_eq!(EraseKind::Line.ansi_escape_sequence(), "\x1b[2K");
    assert_eq!(EraseKind::LineEnd.ansi_escape_sequence(), "\x1b[0K");
    assert_eq!(EraseKind::LineStart.ansi_escape_sequence(), "\x1b[1K");
    assert_eq!(EraseKind::Saved.ansi_escape_sequence(), "\x1b[3J");
}

#[test]
fn name_listing() {
    assert_eq!(
        erase_names(),
        "clear, clearEnd, clearStart, clearLine, clearLineStart, clearLineEnd, clearSaved"
    );
}

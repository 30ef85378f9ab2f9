use lune_term::error::{Field, TermError};
use lune_term::screen::{ColorKind, ModeArg, ScreenKind, ScreenMode};

fn text(s: &str) -> Option<ModeArg> {
    Some(ModeArg::Str(s.to_string()))
}

fn request(color: &str, screen: &str, w: usize, h: usize, depth: Option<usize>) -> Result<ScreenMode, TermError> {
    ScreenMode::decode_request(text(color), text(screen), Some(ModeArg::Pair(w, h)), depth)
}

#[test]
fn mixed_case_request_decodes_and_encodes() {
    let mode = request("Monochrome", "TEXT", 40, 25, None).unwrap();
    assert_eq!(mode, ScreenMode::Monochrome { screen_kind: ScreenKind::Text, dims: (40, 25) });
    assert_eq!(mode.ansi_escape_sequence(), Ok("\x1b[=0h"));
}

#[test]
fn every_table_entry_round_trips() {
    let cases: [(&str, &str, usize, usize, Option<usize>, &str); 14] = [
        ("monochrome", "text", 40, 25, None, "\x1b[=0h"),
        ("color", "text", 40, 25, None, "\x1b[=1h"),
        ("monochrome", "text", 80, 25, None, "\x1b[=2h"),
        ("color", "text", 80, 25, None, "\x1b[=3h"),
        ("color", "graphics", 320, 200, Some(2), "\x1b[=4h"),
        ("monochrome", "graphics", 320, 200, None, "\x1b[=5h"),
        ("monochrome", "graphics", 640, 200, None, "\x1b[=6h"),
        ("color", "graphics", 320, 200, None, "\x1b[=13h"),
        ("color", "graphics", 640, 200, Some(4), "\x1b[=14h"),
        ("monochrome", "graphics", 640, 350, None, "\x1b[=15h"),
        ("color", "graphics", 640, 350, Some(4), "\x1b[=16h"),
        ("monochrome", "graphics", 640, 480, None, "\x1b[=17h"),
        ("color", "graphics", 640, 480, Some(4), "\x1b[=18h"),
        ("color", "graphics", 300, 200, Some(8), "\x1b[=19h"),
    ];
    for (c, s, w, h, d, seq) in cases {
        let mode = request(c, s, w, h, d).unwrap();
        assert_eq!(mode.ansi_escape_sequence(), Ok(seq));
    }
    assert_eq!(ScreenMode::EnableWrapping.ansi_escape_sequence(), Ok("\x1b[=7h"));
}

#[test]
fn all_lists_fifteen_encodable_modes() {
    let all = ScreenMode::all();
    assert_eq!(all.len(), 15);
    for m in all {
        assert!(m.ansi_escape_sequence().is_ok());
    }
}

#[test]
fn unlisted_mode_is_rejected() {
    let mode = ScreenMode::Color { screen_kind: ScreenKind::Text, dims: (40, 25), bit_depth: Some(3) };
    assert_eq!(mode.ansi_escape_sequence(), Err(TermError::InvalidModeConfiguration));
    let odd = ScreenMode::Monochrome { screen_kind: ScreenKind::Graphics, dims: (41, 25) };
    assert_eq!(odd.ansi_escape_sequence(), Err(TermError::InvalidModeConfiguration));
    let undepthed = ScreenMode::Color { screen_kind: ScreenKind::Graphics, dims: (640, 200), bit_depth: None };
    assert_eq!(undepthed.ansi_escape_sequence(), Err(TermError::InvalidModeConfiguration));
}

#[test]
fn invalid_configuration_message_lists_every_mode() {
    let msg = TermError::InvalidModeConfiguration.message();
    let mut expected = String::from("Invalid mode configuration, valid configurations are:");
    for m in ScreenMode::all() {
        expected.push_str(&format!("\n- {m:?}"));
    }
    assert_eq!(msg, expected);
    assert_eq!(msg.lines().count(), 16);
}

#[test]
fn names_match_debug_rendering() {
    for m in ScreenMode::all() {
        assert_eq!(m.name(), format!("{m:?}"));
    }
    assert_eq!(
        ScreenMode::Color { screen_kind: ScreenKind::Graphics, dims: (320, 200), bit_depth: Some(2) }.name(),
        "Color { screen_kind: Graphics, dims: (320, 200), bit_depth: Some(2) }"
    );
}

#[test]
fn decode_does_not_check_the_table() {
    let mode = request("color", "text", 1, 2, Some(9)).unwrap();
    assert_eq!(mode, ScreenMode::Color { screen_kind: ScreenKind::Text, dims: (1, 2), bit_depth: Some(9) });
    assert_eq!(mode.ansi_escape_sequence(), Err(TermError::InvalidModeConfiguration));
}

#[test]
fn monochrome_drops_bit_depth() {
    let mode = request("MONOCHROME", "Graphics", 640, 480, Some(4)).unwrap();
    assert_eq!(mode, ScreenMode::Monochrome { screen_kind: ScreenKind::Graphics, dims: (640, 480) });
}

#[test]
fn missing_fields_name_their_position() {
    let e = ScreenMode::decode_request(None, text("text"), Some(ModeArg::Pair(40, 25)), None).unwrap_err();
    assert_eq!(e, TermError::MissingField { field: Field::ColorKind });
    assert_eq!(e.message(), "bad argument #1 (ColorKind): expected ColorKind of mode, got nil");
    let e = ScreenMode::decode_request(text("color"), None, None, None).unwrap_err();
    assert_eq!(e, TermError::MissingField { field: Field::ScreenKind });
    let e = ScreenMode::decode_request(text("color"), text("text"), None, None).unwrap_err();
    assert_eq!(e, TermError::MissingField { field: Field::Dimensions });
    assert_eq!(e.message(), "bad argument #3 (Dimensions): expected Dimensions of mode, got nil");
}

#[test]
fn wrong_shapes_are_type_mismatches() {
    let e = ScreenMode::decode_request(Some(ModeArg::Other), text("text"), Some(ModeArg::Pair(40, 25)), None)
        .unwrap_err();
    assert_eq!(e, TermError::TypeMismatch { field: Field::ColorKind });
    let e = ScreenMode::decode_request(text("color"), Some(ModeArg::Pair(1, 1)), Some(ModeArg::Pair(40, 25)), None)
        .unwrap_err();
    assert_eq!(e, TermError::TypeMismatch { field: Field::ScreenKind });
    let e = ScreenMode::decode_request(text("color"), text("text"), text("40x25"), None).unwrap_err();
    assert_eq!(e, TermError::TypeMismatch { field: Field::Dimensions });
    assert_eq!(
        e.message(),
        "bad argument #3 (Dimensions): expected a table with integer width and height"
    );
}

#[test]
fn unknown_tokens_are_rejected() {
    let e = request("color", "vector", 40, 25, None).unwrap_err();
    assert_eq!(e, TermError::UnknownEnumValue { field: Field::ScreenKind });
    assert_eq!(e.message(), "unknown ScreenKind, valid values are text, graphics");
    let e = request("sepia", "text", 40, 25, None).unwrap_err();
    assert_eq!(e, TermError::UnknownEnumValue { field: Field::ColorKind });
    assert_eq!(e.message(), "unknown ColorKind, valid values are monochrome, color");
    // the rendering kind is checked first
    let e = request("sepia", "vector", 40, 25, None).unwrap_err();
    assert_eq!(e, TermError::UnknownEnumValue { field: Field::ScreenKind });
}

#[test]
fn folded_tokens() {
    assert_eq!(ScreenKind::from_folded("graphics"), Some(ScreenKind::Graphics));
    assert_eq!(ScreenKind::from_folded("Graphics"), None);
    assert_eq!(ColorKind::from_folded("color"), Some(ColorKind::Color));
    assert_eq!(ColorKind::from_folded("colour"), None);
    assert_eq!(
        ScreenMode::from_folded("color", "graphics", (300, 200), Some(8)),
        Ok(ScreenMode::Color { screen_kind: ScreenKind::Graphics, dims: (300, 200), bit_depth: Some(8) })
    );
}

#[test]
fn upper_case_tokens_are_folded() {
    let mode = request("COLOR", "GRAPHICS", 300, 200, Some(8)).unwrap();
    assert_eq!(mode.ansi_escape_sequence(), Ok("\x1b[=19h"));
}

use vstd::prelude::*;

use crate::error::{Field, TermError};
use crate::text::{decimal, decimal_of, join, joined, lowercase, lower_of, str_eq, views};

verus! {

/// How the screen renders.
#[derive(Debug, Clone, Copy, PartialEq, Eq, Structural)]
pub enum ScreenKind {
    /// Graphics rendering mode.
    Graphics,
    /// Text rendering mode.
    Text,
}

/// The colour capability that a screen-mode request asks for.
#[derive(Debug, Clone, Copy, PartialEq, Eq, Structural)]
pub enum ColorKind {
    /// A single colour.
    Monochrome,
    /// Several colours.
    Color,
}

/// A screen mode. Any value can be built; only those in `all_screen_modes`
/// have an escape sequence.
#[derive(Debug, Clone, Copy, PartialEq, Eq)]
pub enum ScreenMode {
    /// Monochrome screen mode.
    Monochrome {
        /// The type of screen rendering.
        screen_kind: ScreenKind,
        /// The width and height of the screen.
        dims: (usize, usize),
    },
    /// Colour screen mode.
    Color {
        /// The type of screen rendering.
        screen_kind: ScreenKind,
        /// The width and height of the screen.
        dims: (usize, usize),
        /// The bit depth of the colour mode, `log2(n)` for `n` colours.
        bit_depth: Option<usize>,
    },
    /// Enables line wrapping.
    EnableWrapping,
}

/// One input of a screen-mode request, as the caller handed it over.
#[derive(Debug, PartialEq, Eq)]
pub enum ModeArg {
    /// A string.
    Str(String),
    /// A width / height pair.
    Pair(usize, usize),
    /// Any other value.
    Other,
}

pub open spec fn mono(k: ScreenKind, w: usize, h: usize) -> ScreenMode {
    ScreenMode::Monochrome { screen_kind: k, dims: (w, h) }
}

pub open spec fn color(k: ScreenKind, w: usize, h: usize, b: Option<usize>) -> ScreenMode {
    ScreenMode::Color { screen_kind: k, dims: (w, h), bit_depth: b }
}

/// The supported configurations, in the order of their codes.
pub open spec fn all_screen_modes() -> Seq<ScreenMode> {
    seq![
        mono(ScreenKind::Text, 40, 25),
        color(ScreenKind::Text, 40, 25, None),
        mono(ScreenKind::Text, 80, 25),
        color(ScreenKind::Text, 80, 25, None),
        color(ScreenKind::Graphics, 320, 200, Some(2)),
        mono(ScreenKind::Graphics, 320, 200),
        mono(ScreenKind::Graphics, 640, 200),
        ScreenMode::EnableWrapping,
        color(ScreenKind::Graphics, 320, 200, None),
        color(ScreenKind::Graphics, 640, 200, Some(4)),
        mono(ScreenKind::Graphics, 640, 350),
        color(ScreenKind::Graphics, 640, 350, Some(4)),
        mono(ScreenKind::Graphics, 640, 480),
        color(ScreenKind::Graphics, 640, 480, Some(4)),
        color(ScreenKind::Graphics, 300, 200, Some(8)),
    ]
}

/// The escape sequence of each supported configuration, in the order of
/// `all_screen_modes`.
pub open spec fn all_mode_sequences() -> Seq<Seq<char>> {
    seq![
        "\x1b[=0h"@,
        "\x1b[=1h"@,
        "\x1b[=2h"@,
        "\x1b[=3h"@,
        "\x1b[=4h"@,
        "\x1b[=5h"@,
        "\x1b[=6h"@,
        "\x1b[=7h"@,
        "\x1b[=13h"@,
        "\x1b[=14h"@,
        "\x1b[=15h"@,
        "\x1b[=16h"@,
        "\x1b[=17h"@,
        "\x1b[=18h"@,
        "\x1b[=19h"@,
    ]
}

/// The escape sequence of a mode: that of its entry among the supported
/// configurations, or none where it has no entry.
pub open spec fn mode_sequence(m: ScreenMode) -> Option<Seq<char>> {
    if exists|i: int| 0 <= i < 15 && all_screen_modes()[i] == m {
        let i = choose|i: int| 0 <= i < 15 && all_screen_modes()[i] == m;
        Some(all_mode_sequences()[i])
    } else {
        None
    }
}


impl ScreenMode {
    /// Every supported configuration, in the order of `all_screen_modes`.
    pub fn all() -> (r: Vec<ScreenMode>)
        ensures
            r@ == all_screen_modes(),
    {
        let r = vec![
            ScreenMode::Monochrome { screen_kind: ScreenKind::Text, dims: (40, 25) },
            ScreenMode::Color { screen_kind: ScreenKind::Text, dims: (40, 25), bit_depth: None },
            ScreenMode::Monochrome { screen_kind: ScreenKind::Text, dims: (80, 25) },
            ScreenMode::Color { screen_kind: ScreenKind::Text, dims: (80, 25), bit_depth: None },
            ScreenMode::Color { screen_kind: ScreenKind::Graphics, dims: (320, 200), bit_depth: Some(2) },
            ScreenMode::Monochrome { screen_kind: ScreenKind::Graphics, dims: (320, 200) },
            ScreenMode::Monochrome { screen_kind: ScreenKind::Graphics, dims: (640, 200) },
            ScreenMode::EnableWrapping,
            ScreenMode::Color { screen_kind: ScreenKind::Graphics, dims: (320, 200), bit_depth: None },
            ScreenMode::Color { screen_kind: ScreenKind::Graphics, dims: (640, 200), bit_depth: Some(4) },
            ScreenMode::Monochrome { screen_kind: ScreenKind::Graphics, dims: (640, 350) },
            ScreenMode::Color { screen_kind: ScreenKind::Graphics, dims: (640, 350), bit_depth: Some(4) },
            ScreenMode::Monochrome { screen_kind: ScreenKind::Graphics, dims: (640, 480) },
            ScreenMode::Color { screen_kind: ScreenKind::Graphics, dims: (640, 480), bit_depth: Some(4) },
            ScreenMode::Color { screen_kind: ScreenKind::Graphics, dims: (300, 200), bit_depth: Some(8) },
        ];
        assert(r@ =~= all_screen_modes());
        r
    }

    /// The escape sequence that switches to this mode. A mode that is not one
    /// of the supported configurations is rejected with
    /// `InvalidModeConfiguration`.
    pub fn ansi_escape_sequence(self) -> (r: Result<&'static str, TermError>)
        ensures
            mode_sequence(self) matches Some(s) ==> (r matches Ok(t) && t@ == s),
            mode_sequence(self) is None ==> r == Err::<&'static str, TermError>(
                TermError::InvalidModeConfiguration,
            ),
    {
        proof {
            lemma_mode_sequence_at(self);
        }
        match self {
            ScreenMode::Monochrome { screen_kind: ScreenKind::Text, dims: (40, 25) } => Ok("\x1b[=0h"),
            ScreenMode::Color { screen_kind: ScreenKind::Text, dims: (40, 25), bit_depth: None } => Ok("\x1b[=1h"),
            ScreenMode::Monochrome { screen_kind: ScreenKind::Text, dims: (80, 25) } => Ok("\x1b[=2h"),
            ScreenMode::Color { screen_kind: ScreenKind::Text, dims: (80, 25), bit_depth: None } => Ok("\x1b[=3h"),
            ScreenMode::Color { screen_kind: ScreenKind::Graphics, dims: (320, 200), bit_depth: Some(2) } => Ok("\x1b[=4h"),
            ScreenMode::Monochrome { screen_kind: ScreenKind::Graphics, dims: (320, 200) } => Ok("\x1b[=5h"),
            ScreenMode::Monochrome { screen_kind: ScreenKind::Graphics, dims: (640, 200) } => Ok("\x1b[=6h"),
            ScreenMode::EnableWrapping => Ok("\x1b[=7h"),
            ScreenMode::Color { screen_kind: ScreenKind::Graphics, dims: (320, 200), bit_depth: None } => Ok("\x1b[=13h"),
            ScreenMode::Color { screen_kind: ScreenKind::Graphics, dims: (640, 200), bit_depth: Some(4) } => Ok("\x1b[=14h"),
            ScreenMode::Monochrome { screen_kind: ScreenKind::Graphics, dims: (640, 350) } => Ok("\x1b[=15h"),
            ScreenMode::Color { screen_kind: ScreenKind::Graphics, dims: (640, 350), bit_depth: Some(4) } => Ok("\x1b[=16h"),
            ScreenMode::Monochrome { screen_kind: ScreenKind::Graphics, dims: (640, 480) } => Ok("\x1b[=17h"),
            ScreenMode::Color { screen_kind: ScreenKind::Graphics, dims: (640, 480), bit_depth: Some(4) } => Ok("\x1b[=18h"),
            ScreenMode::Color { screen_kind: ScreenKind::Graphics, dims: (300, 200), bit_depth: Some(8) } => Ok("\x1b[=19h"),
            _ => Err(TermError::InvalidModeConfiguration),
        }
    }
}

/// Where a mode stands among the supported configurations decides its
/// escape sequence: the entries are pairwise distinct, so a mode found at
/// index `i` has the sequence listed at `i`.
proof fn lemma_mode_sequence_at(m: ScreenMode)
    ensures
        forall|i: int|
            0 <= i < 15 && all_screen_modes()[i] == m ==> mode_sequence(m) == Some(
                all_mode_sequences()[i],
            ),
        (forall|i: int| 0 <= i < 15 ==> all_screen_modes()[i] != m) ==> mode_sequence(m) is None,
{
    let t = all_screen_modes();
    assert forall|i: int, j: int| 0 <= i < 15 && 0 <= j < 15 && t[i] == t[j] implies i == j by {
    }
}


/// The rendering kind that a lowercase token names.
pub open spec fn screen_kind_token(t: Seq<char>) -> Option<ScreenKind> {
    if t == "text"@ {
        Some(ScreenKind::Text)
    } else if t == "graphics"@ {
        Some(ScreenKind::Graphics)
    } else {
        None
    }
}

/// The colour capability that a lowercase token names.
pub open spec fn color_kind_token(t: Seq<char>) -> Option<ColorKind> {
    if t == "monochrome"@ {
        Some(ColorKind::Monochrome)
    } else if t == "color"@ {
        Some(ColorKind::Color)
    } else {
        None
    }
}

/// The mode that a request with lowercase tokens describes. The rendering
/// kind is checked before the colour capability. The bit depth is kept only
/// for a colour mode.
pub open spec fn mode_from_tokens(
    color: Seq<char>,
    screen: Seq<char>,
    dims: (usize, usize),
    bit_depth: Option<usize>,
) -> Result<ScreenMode, TermError> {
    match screen_kind_token(screen) {
        None => Err(TermError::UnknownEnumValue { field: Field::ScreenKind }),
        Some(k) => match color_kind_token(color) {
            None => Err(TermError::UnknownEnumValue { field: Field::ColorKind }),
            Some(ColorKind::Monochrome) => Ok(ScreenMode::Monochrome { screen_kind: k, dims }),
            Some(ColorKind::Color) => Ok(ScreenMode::Color { screen_kind: k, dims, bit_depth }),
        },
    }
}

/// The text of an input that must be a string.
pub open spec fn text_arg(a: Option<ModeArg>, f: Field) -> Result<Seq<char>, TermError> {
    match a {
        None => Err(TermError::MissingField { field: f }),
        Some(ModeArg::Str(s)) => Ok(s@),
        Some(_) => Err(TermError::TypeMismatch { field: f }),
    }
}

/// The mode that a request describes, or why it is malformed. The inputs are
/// checked in order; the kind tokens are compared after case folding. Whether
/// the mode is supported is not checked here.
pub open spec fn decoded_request(
    color: Option<ModeArg>,
    screen: Option<ModeArg>,
    dims: Option<ModeArg>,
    bit_depth: Option<usize>,
) -> Result<ScreenMode, TermError> {
    match text_arg(color, Field::ColorKind) {
        Err(e) => Err(e),
        Ok(c) => match text_arg(screen, Field::ScreenKind) {
            Err(e) => Err(e),
            Ok(s) => match dims {
                None => Err(TermError::MissingField { field: Field::Dimensions }),
                Some(ModeArg::Pair(w, h)) => mode_from_tokens(
                    lower_of(c),
                    lower_of(s),
                    (w, h),
                    bit_depth,
                ),
                Some(_) => Err(TermError::TypeMismatch { field: Field::Dimensions }),
            },
        },
    }
}

impl ScreenKind {
    /// The rendering kind that a lowercase token names.
    pub fn from_folded(t: &str) -> (r: Option<ScreenKind>)
        ensures
            r == screen_kind_token(t@),
    {
        if str_eq(t, "text") {
            Some(ScreenKind::Text)
        } else if str_eq(t, "graphics") {
            Some(ScreenKind::Graphics)
        } else {
            None
        }
    }
}

impl ColorKind {
    /// The colour capability that a lowercase token names.
    pub fn from_folded(t: &str) -> (r: Option<ColorKind>)
        ensures
            r == color_kind_token(t@),
    {
        if str_eq(t, "monochrome") {
            Some(ColorKind::Monochrome)
        } else if str_eq(t, "color") {
            Some(ColorKind::Color)
        } else {
            None
        }
    }
}

impl ScreenMode {
    /// Builds a mode from lowercase kind tokens, dimensions and an optional
    /// bit depth.
    pub fn from_folded(color: &str, screen: &str, dims: (usize, usize), bit_depth: Option<usize>) -> (r:
        Result<ScreenMode, TermError>)
        ensures
            r == mode_from_tokens(color@, screen@, dims, bit_depth),
    {
        let screen_kind = match ScreenKind::from_folded(screen) {
            Some(k) => k,
            None => {
                return Err(TermError::UnknownEnumValue { field: Field::ScreenKind });
            },
        };
        match ColorKind::from_folded(color) {
            Some(ColorKind::Monochrome) => Ok(ScreenMode::Monochrome { screen_kind, dims }),
            Some(ColorKind::Color) => Ok(ScreenMode::Color { screen_kind, dims, bit_depth }),
            None => Err(TermError::UnknownEnumValue { field: Field::ColorKind }),
        }
    }

    /// Builds a mode from a request: a colour capability and a rendering kind
    /// as strings in any case, the dimensions, and an optional bit depth.
    /// `None` stands for an input that was not given. The result may still be
    /// an unsupported configuration.
    pub fn decode_request(
        color: Option<ModeArg>,
        screen: Option<ModeArg>,
        dims: Option<ModeArg>,
        bit_depth: Option<usize>,
    ) -> (r: Result<ScreenMode, TermError>)
        ensures
            r == decoded_request(color, screen, dims, bit_depth),
    {
        let color_text = match &color {
            None => {
                return Err(TermError::MissingField { field: Field::ColorKind });
            },
            Some(ModeArg::Str(s)) => s,
            Some(_) => {
                return Err(TermError::TypeMismatch { field: Field::ColorKind });
            },
        };
        let screen_text = match &screen {
            None => {
                return Err(TermError::MissingField { field: Field::ScreenKind });
            },
            Some(ModeArg::Str(s)) => s,
            Some(_) => {
                return Err(TermError::TypeMismatch { field: Field::ScreenKind });
            },
        };
        let pair = match dims {
            None => {
                return Err(TermError::MissingField { field: Field::Dimensions });
            },
            Some(ModeArg::Pair(w, h)) => (w, h),
            Some(_) => {
                return Err(TermError::TypeMismatch { field: Field::Dimensions });
            },
        };
        let color_folded = lowercase(color_text.as_str());
        let screen_folded = lowercase(screen_text.as_str());
        ScreenMode::from_folded(color_folded.as_str(), screen_folded.as_str(), pair, bit_depth)
    }
}


pub open spec fn screen_kind_name(k: ScreenKind) -> Seq<char> {
    match k {
        ScreenKind::Graphics => "Graphics"@,
        ScreenKind::Text => "Text"@,
    }
}

pub open spec fn dims_name(dims: (usize, usize)) -> Seq<char> {
    "("@ + decimal_of(dims.0 as nat) + ", "@ + decimal_of(dims.1 as nat) + ")"@
}

pub open spec fn bit_depth_name(b: Option<usize>) -> Seq<char> {
    match b {
        None => "None"@,
        Some(n) => "Some("@ + decimal_of(n as nat) + ")"@,
    }
}

/// The canonical rendering of a mode, field by field, as Rust's derived
/// `Debug` writes it on one line.
pub open spec fn mode_name(m: ScreenMode) -> Seq<char> {
    match m {
        ScreenMode::Monochrome { screen_kind, dims } => "Monochrome { screen_kind: "@
            + screen_kind_name(screen_kind) + ", dims: "@ + dims_name(dims) + " }"@,
        ScreenMode::Color { screen_kind, dims, bit_depth } => "Color { screen_kind: "@
            + screen_kind_name(screen_kind) + ", dims: "@ + dims_name(dims) + ", bit_depth: "@
            + bit_depth_name(bit_depth) + " }"@,
        ScreenMode::EnableWrapping => "EnableWrapping"@,
    }
}

/// The names of all supported configurations, one per line, each after `- `.
pub open spec fn modes_listing() -> Seq<char> {
    "- "@ + joined(all_screen_modes().map_values(|m: ScreenMode| mode_name(m)), "\n- "@)
}

impl ScreenKind {
    pub fn name(self) -> (r: &'static str)
        ensures
            r@ == screen_kind_name(self),
    {
        match self {
            ScreenKind::Graphics => "Graphics",
            ScreenKind::Text => "Text",
        }
    }
}

fn dims_text(dims: (usize, usize)) -> (r: String)
    ensures
        r@ == dims_name(dims),
{
    String::from_str("(").concat(decimal(dims.0).as_str()).concat(", ").concat(
        decimal(dims.1).as_str(),
    ).concat(")")
}

fn bit_depth_text(b: Option<usize>) -> (r: String)
    ensures
        r@ == bit_depth_name(b),
{
    match b {
        None => String::from_str("None"),
        Some(n) => String::from_str("Some(").concat(decimal(n).as_str()).concat(")"),
    }
}

impl ScreenMode {
    /// The canonical rendering of the mode, as listed in diagnostics.
    pub fn name(self) -> (r: String)
        ensures
            r@ == mode_name(self),
    {
        match self {
            ScreenMode::Monochrome { screen_kind, dims } => String::from_str(
                "Monochrome { screen_kind: ",
            ).concat(screen_kind.name()).concat(", dims: ").concat(dims_text(dims).as_str()).concat(
                " }",
            ),
            ScreenMode::Color { screen_kind, dims, bit_depth } => String::from_str(
                "Color { screen_kind: ",
            ).concat(screen_kind.name()).concat(", dims: ").concat(dims_text(dims).as_str()).concat(
                ", bit_depth: ",
            ).concat(bit_depth_text(bit_depth).as_str()).concat(" }"),
            ScreenMode::EnableWrapping => String::from_str("EnableWrapping"),
        }
    }
}

/// The names of all supported configurations, one per line, each after `- `.
pub fn mode_names() -> (r: String)
    ensures
        r@ == modes_listing(),
{
    let modes = ScreenMode::all();
    let mut names: Vec<String> = Vec::new();
    let mut i: usize = 0;
    while i < modes.len()
        invariant
            modes@ == all_screen_modes(),
            i <= modes@.len(),
            names@.len() == i,
            forall|j: int| 0 <= j < i ==> names@[j]@ == mode_name(modes@[j]),
        decreases modes@.len() - i,
    {
        names.push(modes[i].name());
        i = i + 1;
    }
    assert(views(names@) =~= all_screen_modes().map_values(|m: ScreenMode| mode_name(m)));
    String::from_str("- ").concat(join(&names, "\n- ").as_str())
}


/// The lowercase colour token of a request for `m`.
pub open spec fn request_color(m: ScreenMode) -> Seq<char> {
    match m {
        ScreenMode::Color { .. } => "color"@,
        _ => "monochrome"@,
    }
}

/// The lowercase rendering token of a request for `m`.
pub open spec fn request_screen(m: ScreenMode) -> Seq<char> {
    match m {
        ScreenMode::Monochrome { screen_kind: ScreenKind::Graphics, .. } => "graphics"@,
        ScreenMode::Color { screen_kind: ScreenKind::Graphics, .. } => "graphics"@,
        _ => "text"@,
    }
}

/// The dimensions of a request for `m`.
pub open spec fn request_dims(m: ScreenMode) -> (usize, usize) {
    match m {
        ScreenMode::Monochrome { dims, .. } => dims,
        ScreenMode::Color { dims, .. } => dims,
        ScreenMode::EnableWrapping => (0, 0),
    }
}

/// The bit depth of a request for `m`.
pub open spec fn request_bit_depth(m: ScreenMode) -> Option<usize> {
    match m {
        ScreenMode::Color { bit_depth, .. } => bit_depth,
        _ => None,
    }
}

/// Each supported configuration encodes to the sequence listed beside it;
/// each one but line wrapping is also what a request with its tokens,
/// dimensions and bit depth decodes to.
pub proof fn lemma_table_round_trip(i: int)
    requires
        0 <= i < 15,
    ensures
        mode_sequence(all_screen_modes()[i]) == Some(all_mode_sequences()[i]),
        all_screen_modes()[i] != ScreenMode::EnableWrapping ==> mode_from_tokens(
            request_color(all_screen_modes()[i]),
            request_screen(all_screen_modes()[i]),
            request_dims(all_screen_modes()[i]),
            request_bit_depth(all_screen_modes()[i]),
        ) == Ok::<ScreenMode, TermError>(all_screen_modes()[i]),
{
    lemma_mode_sequence_at(all_screen_modes()[i]);
    reveal_strlit("text");
    reveal_strlit("graphics");
    reveal_strlit("monochrome");
    reveal_strlit("color");
    assert("text"@.len() == 4);
    assert("graphics"@.len() == 8);
    assert("monochrome"@.len() == 10);
    assert("color"@.len() == 5);
}

/// A mode that is not among the supported configurations has no escape
/// sequence, whatever its shape.
pub proof fn lemma_unlisted_mode_rejected(m: ScreenMode)
    requires
        !all_screen_modes().contains(m),
    ensures
        mode_sequence(m) is None,
{
}

} // verus!

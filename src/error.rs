use vstd::prelude::*;

use crate::erase::{erase_names, erase_names_listing};
use crate::screen::{mode_names, modes_listing};
use crate::text::{decimal, decimal_of};

verus! {

/// A positional input of a screen-mode request.
#[derive(Debug, Clone, Copy, PartialEq, Eq, Structural)]
pub enum Field {
    /// The colour capability: `"monochrome"` or `"color"`.
    ColorKind,
    /// The rendering kind: `"text"` or `"graphics"`.
    ScreenKind,
    /// The width and height.
    Dimensions,
}

/// Why a request was rejected.
#[derive(Debug, PartialEq, Eq)]
pub enum TermError {
    /// An erase operation was asked for by a name that no region has.
    UnknownOperation { name: String },
    /// A screen mode that is not one of the supported configurations.
    InvalidModeConfiguration,
    /// A positional input of a screen-mode request is absent.
    MissingField { field: Field },
    /// A positional input of a screen-mode request has the wrong shape.
    TypeMismatch { field: Field },
    /// A kind token of a screen-mode request is not one of its two values.
    UnknownEnumValue { field: Field },
}

/// The name of a field as diagnostics show it.
pub open spec fn field_name(f: Field) -> Seq<char> {
    match f {
        Field::ColorKind => "ColorKind"@,
        Field::ScreenKind => "ScreenKind"@,
        Field::Dimensions => "Dimensions"@,
    }
}

/// The 1-based position of a field among the inputs of a request.
pub open spec fn field_position(f: Field) -> nat {
    match f {
        Field::ColorKind => 1,
        Field::ScreenKind => 2,
        Field::Dimensions => 3,
    }
}

/// What a field must hold, as diagnostics show it.
pub open spec fn field_expectation(f: Field) -> Seq<char> {
    match f {
        Field::ColorKind => "a string: monochrome or color"@,
        Field::ScreenKind => "a string: text or graphics"@,
        Field::Dimensions => "a table with integer width and height"@,
    }
}

/// The values a kind token may take, as diagnostics show them.
pub open spec fn field_values(f: Field) -> Seq<char> {
    match f {
        Field::ColorKind => "monochrome, color"@,
        Field::ScreenKind => "text, graphics"@,
        Field::Dimensions => "a table with integer width and height"@,
    }
}

/// The diagnostic of an error. Each one lists what would have been accepted.
pub open spec fn error_message(e: TermError) -> Seq<char> {
    match e {
        TermError::UnknownOperation { name } => "Method "@ + name@
            + " not found on Terminal, valid methods are "@ + erase_names_listing(),
        TermError::InvalidModeConfiguration => "Invalid mode configuration, valid configurations are:\n"@
            + modes_listing(),
        TermError::MissingField { field } => "bad argument #"@ + decimal_of(field_position(field))
            + " ("@ + field_name(field) + "): expected "@ + field_name(field)
            + " of mode, got nil"@,
        TermError::TypeMismatch { field } => "bad argument #"@ + decimal_of(field_position(field))
            + " ("@ + field_name(field) + "): expected "@ + field_expectation(field),
        TermError::UnknownEnumValue { field } => "unknown "@ + field_name(field)
            + ", valid values are "@ + field_values(field),
    }
}

impl TermError {
    /// The diagnostic of this error.
    pub fn message(&self) -> (r: String)
        ensures
            r@ == error_message(*self),
    {
        match self {
            TermError::UnknownOperation { name } => String::from_str("Method ").concat(
                name.as_str(),
            ).concat(" not found on Terminal, valid methods are ").concat(erase_names().as_str()),
            TermError::InvalidModeConfiguration => String::from_str(
                "Invalid mode configuration, valid configurations are:\n",
            ).concat(mode_names().as_str()),
            TermError::MissingField { field } => String::from_str("bad argument #").concat(
                decimal(field.position()).as_str(),
            ).concat(" (").concat(field.name()).concat("): expected ").concat(field.name()).concat(
                " of mode, got nil",
            ),
            TermError::TypeMismatch { field } => String::from_str("bad argument #").concat(
                decimal(field.position()).as_str(),
            ).concat(" (").concat(field.name()).concat("): expected ").concat(field.expectation()),
            TermError::UnknownEnumValue { field } => String::from_str("unknown ").concat(
                field.name(),
            ).concat(", valid values are ").concat(field.values()),
        }
    }
}

impl Field {
    pub fn name(self) -> (r: &'static str)
        ensures
            r@ == field_name(self),
    {
        match self {
            Field::ColorKind => "ColorKind",
            Field::ScreenKind => "ScreenKind",
            Field::Dimensions => "Dimensions",
        }
    }

    pub fn position(self) -> (r: usize)
        ensures
            r == field_position(self),
    {
        match self {
            Field::ColorKind => 1,
            Field::ScreenKind => 2,
            Field::Dimensions => 3,
        }
    }

    fn expectation(self) -> (r: &'static str)
        ensures
            r@ == field_expectation(self),
    {
        match self {
            Field::ColorKind => "a string: monochrome or color",
            Field::ScreenKind => "a string: text or graphics",
            Field::Dimensions => "a table with integer width and height",
        }
    }

    fn values(self) -> (r: &'static str)
        ensures
            r@ == field_values(self),
    {
        match self {
            Field::ColorKind => "monochrome, color",
            Field::ScreenKind => "text, graphics",
            Field::Dimensions => "a table with integer width and height",
        }
    }
}

} // verus!

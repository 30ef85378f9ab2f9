//! Terminal control codes: cursor motions, erase regions and screen modes,
//! each encoded as its ANSI / VT escape sequence, and screen-mode requests
//! decoded from loosely typed inputs.

use vstd::prelude::*;

pub mod cursor;
pub mod erase;
pub mod error;
pub mod screen;
pub mod text;

verus! {

} // verus!

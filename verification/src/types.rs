//! Plain value types shared across the library.

use vstd::prelude::*;

verus! {

/// An RGB color: three byte channels. A pure value, no identity.
#[derive(Clone, Copy, Debug, PartialEq, Eq, Structural)]
pub struct Color {
    pub red: u8,
    pub green: u8,
    pub blue: u8,
}

} // verus!

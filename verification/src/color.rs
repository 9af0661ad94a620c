//! One color sample, as the extraction pipeline hands it over.

use vstd::prelude::*;

verus! {

/// A color taken from an image, by its red, green and blue components.
///
/// The dialog never looks inside a color: it keeps the samples in the order
/// in which it received them and copies them into the command it sends.
#[derive(Clone, Copy, Debug, PartialEq, Eq, Hash, Structural)]
pub struct ExtractedColor {
    pub red: u8,
    pub green: u8,
    pub blue: u8,
}

} // verus!

//! Commands for the worker that keeps the palettes.

use vstd::prelude::*;
use crate::color::ExtractedColor;

verus! {

/// A command for the database worker. The worker owns whatever it is handed.
#[derive(Debug, PartialEq, Eq)]
pub enum DatabaseAction {
    /// Store a new palette: its name, then its colors in order.
    AddPaletteFromExtracted((String, Vec<ExtractedColor>)),
}

/// A command as a mathematical value.
pub enum DatabaseActionView {
    AddPaletteFromExtracted { name: Seq<char>, colors: Seq<ExtractedColor> },
}

impl View for DatabaseAction {
    type V = DatabaseActionView;

    open spec fn view(&self) -> DatabaseActionView {
        match *self {
            DatabaseAction::AddPaletteFromExtracted((name, colors)) => {
                DatabaseActionView::AddPaletteFromExtracted { name: name@, colors: colors@ }
            },
        }
    }
}

} // verus!

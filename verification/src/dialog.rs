//! The save-palette dialog as a value, and what a response to it brings about.

use vstd::prelude::*;
use vstd::string::*;
use crate::color::ExtractedColor;
use crate::database::{DatabaseAction, DatabaseActionView};
use crate::text::{decimal, push_decimal, same_text};

verus! {

/// The response that confirms the dialog.
pub const SAVE_RESPONSE: &'static str = "save";

/// The message shown when there is nothing to save.
pub const NO_COLORS_MESSAGE: &'static str = "Unable to add palette, no colors extracted.";

/// The name proposed for a new palette when `palette_count` palettes exist
/// already: "Palette #" and the decimal numeral of the count plus one.
pub open spec fn default_name(palette_count: nat) -> Seq<char> {
    "Palette #"@ + decimal(palette_count + 1)
}

/// Builds the name proposed for a new palette when `palette_count` palettes
/// exist already.
pub fn generate_default_name(palette_count: u64) -> (name: String)
    ensures
        name@ == default_name(palette_count as nat),
{
    let mut name = "Palette #".to_owned();
    push_decimal(&mut name, palette_count as u128 + 1);
    name
}

/// What the dialog asks of its surroundings in answer to a response.
#[derive(Debug, PartialEq, Eq)]
pub enum Effect {
    /// Nothing is to be done.
    Nothing,
    /// This one command is to be sent to the database worker.
    Send(DatabaseAction),
    /// This one error message is to be shown to the user.
    ShowError(String),
}

/// An effect as a mathematical value.
pub enum EffectView {
    Nothing,
    Send(DatabaseActionView),
    ShowError(Seq<char>),
}

impl View for Effect {
    type V = EffectView;

    open spec fn view(&self) -> EffectView {
        match *self {
            Effect::Nothing => EffectView::Nothing,
            Effect::Send(action) => EffectView::Send(action@),
            Effect::ShowError(message) => EffectView::ShowError(message@),
        }
    }
}

impl EffectView {
    /// The commands that carrying out the effect sends, in order.
    pub open spec fn commands(self) -> Seq<DatabaseActionView> {
        match self {
            EffectView::Send(action) => seq![action],
            _ => seq![],
        }
    }

    /// The error messages that carrying out the effect shows, in order.
    pub open spec fn errors(self) -> Seq<Seq<char>> {
        match self {
            EffectView::ShowError(message) => seq![message],
            _ => seq![],
        }
    }
}

/// The dialog as a mathematical value.
pub struct DialogView {
    /// The colors to save, in the order in which they were extracted.
    pub colors: Seq<ExtractedColor>,
    /// The name that was last set: the fallback when the entry row is empty.
    pub name: Seq<char>,
    /// The text that the entry row holds.
    pub entry_text: Seq<char>,
}

impl DialogView {
    /// A dialog before anything was loaded into it.
    pub open spec fn empty() -> DialogView {
        DialogView { colors: seq![], name: seq![], entry_text: seq![] }
    }

    /// The dialog with `colors` in place of its colors.
    pub open spec fn load(self, colors: Seq<ExtractedColor>) -> DialogView {
        DialogView { colors, ..self }
    }

    /// The dialog with `name` as its name and as the text of its entry row.
    pub open spec fn set_name(self, name: Seq<char>) -> DialogView {
        DialogView { name, entry_text: name, ..self }
    }

    /// The dialog after the user has changed the entry row's text to `text`.
    pub open spec fn edit(self, text: Seq<char>) -> DialogView {
        DialogView { entry_text: text, ..self }
    }

    /// The dialog as it is opened for `colors` when `palette_count` palettes
    /// exist: it proposes the default name.
    pub open spec fn initial(colors: Seq<ExtractedColor>, palette_count: nat) -> DialogView {
        DialogView {
            colors,
            name: default_name(palette_count),
            entry_text: default_name(palette_count),
        }
    }

    /// The name under which the palette is saved: the entry row's text, or the
    /// dialog's name where the entry row is empty.
    pub open spec fn resolved_name(self) -> Seq<char> {
        if self.entry_text.len() == 0 {
            self.name
        } else {
            self.entry_text
        }
    }

    /// The effect of saving: with no colors an error message, else the command
    /// that adds the palette under its resolved name.
    pub open spec fn save(self) -> EffectView {
        if self.colors.len() == 0 {
            EffectView::ShowError(NO_COLORS_MESSAGE@)
        } else {
            EffectView::Send(
                DatabaseActionView::AddPaletteFromExtracted {
                    name: self.resolved_name(),
                    colors: self.colors,
                },
            )
        }
    }

    /// The effect of a response: "save" saves, any other does nothing.
    pub open spec fn respond(self, response: Seq<char>) -> EffectView {
        if response == SAVE_RESPONSE@ {
            self.save()
        } else {
            EffectView::Nothing
        }
    }
}

/// Confirming a dialog that has colors and a non-empty entry row sends exactly
/// one command, which adds a palette under the entered text with the dialog's
/// colors, all of them and in their order; no error is shown.
pub proof fn lemma_save_sends_entered_name(dialog: DialogView)
    requires
        dialog.colors.len() > 0,
        dialog.entry_text.len() > 0,
    ensures
        dialog.respond(SAVE_RESPONSE@).commands() == seq![
            DatabaseActionView::AddPaletteFromExtracted {
                name: dialog.entry_text,
                colors: dialog.colors,
            },
        ],
        dialog.respond(SAVE_RESPONSE@).errors().len() == 0,
{
}

/// Confirming a dialog that has colors and an empty entry row sends exactly
/// one command, which adds the palette under the dialog's name.
pub proof fn lemma_save_falls_back_to_name(dialog: DialogView)
    requires
        dialog.colors.len() > 0,
        dialog.entry_text.len() == 0,
    ensures
        dialog.respond(SAVE_RESPONSE@).commands() == seq![
            DatabaseActionView::AddPaletteFromExtracted {
                name: dialog.name,
                colors: dialog.colors,
            },
        ],
        dialog.respond(SAVE_RESPONSE@).errors().len() == 0,
{
}

/// The name that a dialog falls back to is the one it was opened with,
/// whatever the user typed since: after any edit, clearing the entry row and
/// confirming saves the colors under the default name of the palette count at
/// opening.
pub proof fn lemma_cleared_entry_saves_default_name(
    colors: Seq<ExtractedColor>,
    palette_count: nat,
    typed: Seq<char>,
)
    requires
        colors.len() > 0,
    ensures
        DialogView::initial(colors, palette_count).edit(typed).edit(seq![]).respond(
            SAVE_RESPONSE@,
        ) == EffectView::Send(
            DatabaseActionView::AddPaletteFromExtracted {
                name: default_name(palette_count),
                colors,
            },
        ),
{
}

/// Confirming a dialog that has no colors sends no command and shows exactly
/// one error, the message that no colors were extracted, whatever the entry
/// row holds.
pub proof fn lemma_save_without_colors_shows_error(dialog: DialogView)
    requires
        dialog.colors.len() == 0,
    ensures
        dialog.respond(SAVE_RESPONSE@).commands().len() == 0,
        dialog.respond(SAVE_RESPONSE@).errors() == seq![NO_COLORS_MESSAGE@],
{
}

/// A response other than "save" sends no command and shows no error, whatever
/// the dialog holds.
pub proof fn lemma_other_response_does_nothing(dialog: DialogView, response: Seq<char>)
    requires
        response != SAVE_RESPONSE@,
    ensures
        dialog.respond(response) == EffectView::Nothing,
        dialog.respond(response).commands().len() == 0,
        dialog.respond(response).errors().len() == 0,
{
}

/// No response makes a dialog send more than one command or show more than
/// one error, and none makes it do both; a command is never sent for an empty
/// sequence of colors.
pub proof fn lemma_at_most_one_effect(dialog: DialogView, response: Seq<char>)
    ensures
        dialog.respond(response).commands().len() + dialog.respond(response).errors().len() <= 1,
        dialog.colors.len() == 0 ==> dialog.respond(response).commands().len() == 0,
{
}

/// A dialog is opened with the default name, "Palette #" and the numeral of
/// the palette count plus one, both as its name and in its entry row.
pub proof fn lemma_opens_with_default_name(colors: Seq<ExtractedColor>, palette_count: nat)
    ensures
        DialogView::initial(colors, palette_count).name == "Palette #"@ + decimal(
            palette_count + 1,
        ),
        DialogView::initial(colors, palette_count).entry_text == DialogView::initial(
            colors,
            palette_count,
        ).name,
        DialogView::initial(colors, palette_count).colors == colors,
{
}

/// The state behind a dialog.
#[derive(Debug, PartialEq, Eq)]
pub struct SavePaletteDialogPriv {
    /// The text that the entry row holds.
    pub entry_text: String,
    /// The colors to save.
    pub colors: Vec<ExtractedColor>,
    /// The name that was last set.
    pub name: String,
}

impl View for SavePaletteDialogPriv {
    type V = DialogView;

    open spec fn view(&self) -> DialogView {
        DialogView { colors: self.colors@, name: self.name@, entry_text: self.entry_text@ }
    }
}

impl SavePaletteDialogPriv {
    /// The state of a dialog before anything was loaded into it.
    pub fn new() -> (state: Self)
        ensures
            state@ == DialogView::empty(),
    {
        SavePaletteDialogPriv {
            entry_text: String::new(),
            colors: Vec::new(),
            name: String::new(),
        }
    }
}

/// A save-palette dialog: it holds the colors to save and the name under which
/// to save them, and answers each response with an effect.
#[derive(Debug, PartialEq, Eq)]
pub struct SavePaletteDialog {
    imp: SavePaletteDialogPriv,
}

impl View for SavePaletteDialog {
    type V = DialogView;

    closed spec fn view(&self) -> DialogView {
        self.imp@
    }
}

impl SavePaletteDialog {
    /// Opens a dialog for `colors` when `palette_count` palettes exist already.
    /// It proposes the default name, which also fills the entry row.
    pub fn new(colors: Vec<ExtractedColor>, palette_count: u64) -> (dialog: Self)
        ensures
            dialog@ == DialogView::initial(colors@, palette_count as nat),
            dialog@.name == default_name(palette_count as nat),
    {
        let mut dialog = SavePaletteDialog { imp: SavePaletteDialogPriv::new() };
        dialog.initialize(palette_count);
        dialog.load(colors);
        dialog
    }

    /// The colors to save.
    pub fn colors(&self) -> (colors: &Vec<ExtractedColor>)
        ensures
            colors@ == self@.colors,
    {
        &self.imp.colors
    }

    /// The name that the dialog falls back to.
    pub fn name(&self) -> (name: &str)
        ensures
            name@ == self@.name,
    {
        self.imp.name.as_str()
    }

    /// The text that the entry row holds.
    pub fn text(&self) -> (text: &str)
        ensures
            text@ == self@.entry_text,
    {
        self.imp.entry_text.as_str()
    }

    /// Sets the default name for `palette_count` existing palettes.
    pub fn initialize(&mut self, palette_count: u64)
        ensures
            final(self)@ == old(self)@.set_name(default_name(palette_count as nat)),
    {
        self.set_name(generate_default_name(palette_count));
    }

    /// Replaces the colors to save.
    pub fn load(&mut self, colors: Vec<ExtractedColor>)
        ensures
            final(self)@ == old(self)@.load(colors@),
    {
        self.imp.colors = colors;
    }

    /// Sets the dialog's name and shows it in the entry row.
    pub fn set_name(&mut self, name: String)
        ensures
            final(self)@ == old(self)@.set_name(name@),
    {
        self.imp.entry_text = name.clone();
        self.imp.name = name;
    }

    /// Records that the user has changed the entry row's text to `text`.
    pub fn set_text(&mut self, text: &str)
        ensures
            final(self)@ == old(self)@.edit(text@),
    {
        self.imp.entry_text = text.to_owned();
    }

    /// Saves the colors under the resolved name: the effect is the command to
    /// send, or, with no colors, the error message to show. The dialog stays
    /// as it is.
    pub fn save_colors(&self) -> (effect: Effect)
        ensures
            effect@ == self@.save(),
    {
        if !self.imp.colors.is_empty() {
            let mut name = self.imp.entry_text.clone();
            if name.as_str().is_empty() {
                name = self.imp.name.clone();
            }
            let colors = self.imp.colors.clone();
            return Effect::Send(DatabaseAction::AddPaletteFromExtracted((name, colors)));
        }
        Effect::ShowError(NO_COLORS_MESSAGE.to_owned())
    }

    /// Answers a response: "save" saves the colors, any other response does
    /// nothing.
    pub fn on_response(&self, response: &str) -> (effect: Effect)
        ensures
            effect@ == self@.respond(response@),
    {
        if same_text(response, SAVE_RESPONSE) {
            self.save_colors()
        } else {
            Effect::Nothing
        }
    }
}

} // verus!

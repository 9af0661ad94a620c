use save_palette::color::ExtractedColor;
use save_palette::database::DatabaseAction;
use save_palette::dialog::{
    generate_default_name, Effect, SavePaletteDialog, SavePaletteDialogPriv, NO_COLORS_MESSAGE,
    SAVE_RESPONSE,
};

fn rgb(red: u8, green: u8, blue: u8) -> ExtractedColor {
    ExtractedColor { red, green, blue }
}

fn sunset() -> Vec<ExtractedColor> {
    vec![rgb(250, 128, 114), rgb(255, 215, 0), rgb(25, 25, 112), rgb(250, 128, 114)]
}

fn added(name: &str, colors: Vec<ExtractedColor>) -> Effect {
    Effect::Send(DatabaseAction::AddPaletteFromExtracted((name.to_string(), colors)))
}

#[test]
fn default_name_counts_from_one() {
    assert_eq!(generate_default_name(0), "Palette #1");
    assert_eq!(generate_default_name(1), "Palette #2");
    assert_eq!(generate_default_name(2), "Palette #3");
}

#[test]
fn default_name_carries_into_new_digits() {
    assert_eq!(generate_default_name(8), "Palette #9");
    assert_eq!(generate_default_name(9), "Palette #10");
    assert_eq!(generate_default_name(41), "Palette #42");
    assert_eq!(generate_default_name(99), "Palette #100");
    assert_eq!(generate_default_name(999_999), "Palette #1000000");
}

#[test]
fn default_name_of_largest_count() {
    assert_eq!(generate_default_name(u64::MAX), "Palette #18446744073709551616");
    assert_eq!(generate_default_name(u64::MAX - 1), "Palette #18446744073709551615");
}

#[test]
fn state_starts_empty() {
    let state = SavePaletteDialogPriv::new();
    assert_eq!(state.entry_text, "");
    assert_eq!(state.name, "");
    assert!(state.colors.is_empty());
}

#[test]
fn new_dialog_proposes_default_name() {
    let dialog = SavePaletteDialog::new(sunset(), 2);
    assert_eq!(dialog.name(), "Palette #3");
    assert_eq!(dialog.text(), "Palette #3");
    assert_eq!(dialog.colors(), &sunset());
}

#[test]
fn new_dialog_without_colors_still_has_a_name() {
    let dialog = SavePaletteDialog::new(Vec::new(), 0);
    assert_eq!(dialog.name(), "Palette #1");
    assert_eq!(dialog.text(), "Palette #1");
    assert!(dialog.colors().is_empty());
}

#[test]
fn save_sends_entered_name_and_all_colors() {
    let mut dialog = SavePaletteDialog::new(sunset(), 2);
    dialog.set_text("Sunset");
    assert_eq!(dialog.on_response("save"), added("Sunset", sunset()));
}

#[test]
fn save_keeps_the_entered_name_as_typed() {
    let mut dialog = SavePaletteDialog::new(vec![rgb(0, 0, 0)], 0);
    dialog.set_text("  caf\u{e9} \u{1f3a8} #2 ");
    assert_eq!(
        dialog.on_response("save"),
        added("  caf\u{e9} \u{1f3a8} #2 ", vec![rgb(0, 0, 0)])
    );
}

#[test]
fn save_of_untouched_dialog_sends_default_name() {
    let dialog = SavePaletteDialog::new(sunset(), 6);
    assert_eq!(dialog.on_response("save"), added("Palette #7", sunset()));
}

#[test]
fn save_with_empty_entry_falls_back_to_default_name() {
    let mut dialog = SavePaletteDialog::new(sunset(), 41);
    dialog.set_text("");
    assert_eq!(dialog.on_response("save"), added("Palette #42", sunset()));
}

#[test]
fn fallback_is_the_name_from_opening_not_a_later_edit() {
    let mut dialog = SavePaletteDialog::new(sunset(), 9);
    dialog.set_text("Dusk");
    dialog.set_text("Dus");
    dialog.set_text("");
    assert_eq!(dialog.name(), "Palette #10");
    assert_eq!(dialog.on_response("save"), added("Palette #10", sunset()));
}

#[test]
fn save_without_colors_shows_the_error_and_sends_nothing() {
    let dialog = SavePaletteDialog::new(Vec::new(), 3);
    assert_eq!(
        dialog.on_response("save"),
        Effect::ShowError("Unable to add palette, no colors extracted.".to_string())
    );
}

#[test]
fn save_without_colors_ignores_the_entry() {
    let mut dialog = SavePaletteDialog::new(Vec::new(), 3);
    dialog.set_text("Sunset");
    assert_eq!(dialog.on_response("save"), Effect::ShowError(NO_COLORS_MESSAGE.to_string()));
    dialog.set_text("");
    assert_eq!(dialog.on_response("save"), Effect::ShowError(NO_COLORS_MESSAGE.to_string()));
}

#[test]
fn error_message_is_fixed() {
    assert_eq!(NO_COLORS_MESSAGE, "Unable to add palette, no colors extracted.");
    assert_eq!(SAVE_RESPONSE, "save");
}

#[test]
fn other_responses_do_nothing() {
    let mut dialog = SavePaletteDialog::new(sunset(), 2);
    for response in ["cancel", "close", "", "Save", "SAVE", "save ", " save", "sav", "saved"] {
        assert_eq!(dialog.on_response(response), Effect::Nothing);
    }
    dialog.set_text("");
    assert_eq!(dialog.on_response("cancel"), Effect::Nothing);
    dialog.set_text("Sunset");
    assert_eq!(dialog.on_response("cancel"), Effect::Nothing);
}

#[test]
fn other_responses_do_nothing_without_colors() {
    let dialog = SavePaletteDialog::new(Vec::new(), 2);
    assert_eq!(dialog.on_response("cancel"), Effect::Nothing);
    assert_eq!(dialog.on_response(""), Effect::Nothing);
}

#[test]
fn save_colors_is_what_the_save_response_does() {
    let mut dialog = SavePaletteDialog::new(sunset(), 2);
    dialog.set_text("Sunset");
    assert_eq!(dialog.save_colors(), added("Sunset", sunset()));
    assert_eq!(dialog.save_colors(), dialog.on_response("save"));
    let empty = SavePaletteDialog::new(Vec::new(), 2);
    assert_eq!(empty.save_colors(), Effect::ShowError(NO_COLORS_MESSAGE.to_string()));
}

#[test]
fn saving_leaves_the_dialog_as_it_was() {
    let mut dialog = SavePaletteDialog::new(sunset(), 2);
    dialog.set_text("Sunset");
    let first = dialog.on_response("save");
    assert_eq!(dialog.text(), "Sunset");
    assert_eq!(dialog.name(), "Palette #3");
    assert_eq!(dialog.colors(), &sunset());
    assert_eq!(dialog.on_response("save"), first);
}

#[test]
fn colors_keep_their_order_and_repeats() {
    let colors = vec![rgb(3, 3, 3), rgb(1, 1, 1), rgb(3, 3, 3), rgb(2, 2, 2)];
    let dialog = SavePaletteDialog::new(colors.clone(), 0);
    match dialog.on_response("save") {
        Effect::Send(DatabaseAction::AddPaletteFromExtracted((name, sent))) => {
            assert_eq!(name, "Palette #1");
            assert_eq!(sent, colors);
        }
        other => panic!("expected a command, got {:?}", other),
    }
}

#[test]
fn set_name_fills_name_and_entry() {
    let mut dialog = SavePaletteDialog::new(sunset(), 2);
    dialog.set_text("typed");
    dialog.set_name("Paleta n.\u{ba} 3".to_string());
    assert_eq!(dialog.name(), "Paleta n.\u{ba} 3");
    assert_eq!(dialog.text(), "Paleta n.\u{ba} 3");
    assert_eq!(dialog.colors(), &sunset());
    dialog.set_text("");
    assert_eq!(dialog.on_response("save"), added("Paleta n.\u{ba} 3", sunset()));
}

#[test]
fn set_text_changes_the_entry_only() {
    let mut dialog = SavePaletteDialog::new(sunset(), 2);
    dialog.set_text("Sunset");
    assert_eq!(dialog.text(), "Sunset");
    assert_eq!(dialog.name(), "Palette #3");
    assert_eq!(dialog.colors(), &sunset());
}

#[test]
fn load_replaces_the_colors_only() {
    let mut dialog = SavePaletteDialog::new(sunset(), 2);
    dialog.set_text("Sunset");
    dialog.load(vec![rgb(9, 8, 7)]);
    assert_eq!(dialog.colors(), &vec![rgb(9, 8, 7)]);
    assert_eq!(dialog.text(), "Sunset");
    assert_eq!(dialog.name(), "Palette #3");
    assert_eq!(dialog.on_response("save"), added("Sunset", vec![rgb(9, 8, 7)]));
    dialog.load(Vec::new());
    assert_eq!(dialog.on_response("save"), Effect::ShowError(NO_COLORS_MESSAGE.to_string()));
}

#[test]
fn initialize_sets_the_default_name_again() {
    let mut dialog = SavePaletteDialog::new(sunset(), 2);
    dialog.set_text("Sunset");
    dialog.initialize(10);
    assert_eq!(dialog.name(), "Palette #11");
    assert_eq!(dialog.text(), "Palette #11");
    assert_eq!(dialog.colors(), &sunset());
}

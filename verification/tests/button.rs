use keyboard_color_button::button::KeyboardColorButton;
use keyboard_color_button::color::Rgb;
use keyboard_color_button::swatch::Glyph;

fn white() -> Rgb { Rgb::new(255, 255, 255) }
fn blue() -> Rgb { Rgb::new(0, 0, 255) }
fn red() -> Rgb { Rgb::new(255, 0, 0) }
fn yellow() -> Rgb { Rgb::new(255, 255, 0) }
fn green() -> Rgb { Rgb::new(0, 255, 0) }
fn black() -> Rgb { Rgb::new(0, 0, 0) }

#[test]
fn construction_seeds_the_five_defaults() {
    let c = KeyboardColorButton::new(Some(Rgb::new(9, 9, 9)));
    let colors: Vec<Rgb> = c.swatches.iter().map(|s| s.color).collect();
    assert_eq!(colors, vec![white(), blue(), red(), yellow(), green()]);
    assert!(c.swatches.iter().all(|s| s.symbol == Glyph::Empty));
    assert_eq!(c.selected, None);
    assert_eq!(c.rgb(), Rgb::new(9, 9, 9));
    assert!(c.remove_visible);
    assert_eq!(c.add_swatch.symbol, Glyph::Plus);
}

#[test]
fn construction_falls_back_to_black_when_hardware_read_fails() {
    let c = KeyboardColorButton::new(None);
    assert_eq!(c.rgb(), black());
}

#[test]
fn grid_places_defaults_in_rows_of_three() {
    let c = KeyboardColorButton::new(None);
    let cells = c.grid_layout();
    assert_eq!(cells.len(), 6);
    let placed: Vec<(Rgb, usize, usize)> =
        cells.iter().map(|g| (g.swatch.color, g.col, g.row)).collect();
    assert_eq!(placed[0], (white(), 0, 0));
    assert_eq!(placed[1], (blue(), 1, 0));
    assert_eq!(placed[2], (red(), 2, 0));
    assert_eq!(placed[3], (yellow(), 0, 1));
    assert_eq!(placed[4], (green(), 1, 1));
    assert_eq!(cells[5].swatch.symbol, Glyph::Plus);
    assert_eq!((cells[5].col, cells[5].row), (2, 1));
}

#[test]
fn clicking_green_selects_it_and_pushes_its_color() {
    let mut c = KeyboardColorButton::new(None);
    let green_id = c.swatches[4].id;
    let pushed = c.circle_clicked(green_id);
    assert_eq!(pushed, green());
    assert_eq!(c.selected, Some(green_id));
    assert_eq!(c.swatches[4].symbol, Glyph::Check);
    for i in 0..4 {
        assert_eq!(c.swatches[i].symbol, Glyph::Empty);
    }
    assert_eq!(c.rgb(), green());
}

#[test]
fn reselecting_the_selected_swatch_changes_nothing_but_still_pushes() {
    let mut c = KeyboardColorButton::new(None);
    let red_id = c.swatches[2].id;
    let first = c.circle_clicked(red_id);
    let before = c.swatches.clone();
    let again = c.circle_clicked(red_id);
    assert_eq!(first, red());
    assert_eq!(again, red());
    assert_eq!(c.swatches, before);
    assert_eq!(c.selected, Some(red_id));
}

#[test]
fn removing_green_selects_the_former_yellow() {
    let mut c = KeyboardColorButton::new(None);
    let green_id = c.swatches[4].id;
    c.circle_clicked(green_id);
    c.remove_clicked();
    assert_eq!(c.swatches.len(), 4);
    let colors: Vec<Rgb> = c.swatches.iter().map(|s| s.color).collect();
    assert_eq!(colors, vec![white(), blue(), red(), yellow()]);
    assert_eq!(c.selected, Some(c.swatches[3].id));
    assert_eq!(c.swatches[3].symbol, Glyph::Check);
    assert_eq!(c.swatches[3].color, yellow());
    assert!(!c.contains_id(green_id));
    assert!(c.remove_visible);
}

#[test]
fn removing_the_first_swatch_selects_its_successor() {
    let mut c = KeyboardColorButton::new(None);
    let white_id = c.swatches[0].id;
    c.circle_clicked(white_id);
    c.remove_clicked();
    assert_eq!(c.swatches.len(), 4);
    assert_eq!(c.swatches[0].color, blue());
    assert_eq!(c.selected, Some(c.swatches[0].id));
    assert_eq!(c.swatches[0].symbol, Glyph::Check);
}

#[test]
fn remove_is_hidden_exactly_when_one_swatch_is_left() {
    let mut c = KeyboardColorButton::new(None);
    c.circle_clicked(c.swatches[4].id);
    while c.swatches.len() > 1 {
        assert!(c.remove_visible);
        c.remove_clicked();
    }
    assert_eq!(c.swatches.len(), 1);
    assert!(!c.remove_visible);
}

#[test]
fn confirming_the_add_chooser_appends_an_unselected_swatch() {
    let mut c = KeyboardColorButton::new(None);
    let blue_id = c.swatches[1].id;
    c.circle_clicked(blue_id);
    c.remove_clicked();
    c.remove_clicked();
    assert_eq!(c.swatches.len(), 3);
    let selected_before = c.selected;
    c.add_color(Rgb::new(10, 20, 30));
    assert_eq!(c.swatches.len(), 4);
    let added = c.swatches[3];
    assert_eq!(added.color, Rgb::new(10, 20, 30));
    assert_eq!(added.symbol, Glyph::Empty);
    assert_eq!(c.selected, selected_before);
    assert!(c.remove_visible);
    let cells = c.grid_layout();
    assert_eq!(cells.len(), 5);
    assert_eq!(cells.iter().map(|g| g.row).max(), Some(1));
}

#[test]
fn adding_to_the_full_default_palette_reflows_to_three_rows() {
    let mut c = KeyboardColorButton::new(None);
    c.add_color(Rgb::new(10, 20, 30));
    assert_eq!(c.swatches.len(), 6);
    let cells = c.grid_layout();
    assert_eq!(cells.len(), 7);
    assert_eq!((cells[6].col, cells[6].row), (0, 2));
    assert_eq!(cells[6].swatch.symbol, Glyph::Plus);
}

#[test]
fn cancelling_add_repushes_the_selected_color() {
    let mut c = KeyboardColorButton::new(None);
    let red_id = c.swatches[2].id;
    c.circle_clicked(red_id);
    let before = c.swatches.clone();
    assert_eq!(c.add_cancelled(), Some(red()));
    assert_eq!(c.swatches, before);
    assert_eq!(c.selected, Some(red_id));
}

#[test]
fn cancelling_add_with_nothing_selected_pushes_nothing() {
    let c = KeyboardColorButton::new(None);
    assert_eq!(c.add_cancelled(), None);
}

#[test]
fn edit_round_trip_changes_only_the_selected_color() {
    let mut c = KeyboardColorButton::new(None);
    let white_id = c.swatches[0].id;
    c.circle_clicked(white_id);
    let ids_before: Vec<u64> = c.swatches.iter().map(|s| s.id).collect();
    c.edit_confirmed(Rgb::new(1, 2, 3));
    assert_eq!(c.swatches[0].color, Rgb::new(1, 2, 3));
    let ids_after: Vec<u64> = c.swatches.iter().map(|s| s.id).collect();
    assert_eq!(ids_after, ids_before);
    let colors: Vec<Rgb> = c.swatches.iter().map(|s| s.color).collect();
    assert_eq!(colors, vec![Rgb::new(1, 2, 3), blue(), red(), yellow(), green()]);
    assert_eq!(c.selected, Some(white_id));
    // editing pushed nothing: the summary color still shows the select-time color
    assert_eq!(c.rgb(), white());
}

#[test]
fn cancelling_edit_repushes_the_current_color() {
    let mut c = KeyboardColorButton::new(None);
    let yellow_id = c.swatches[3].id;
    c.circle_clicked(yellow_id);
    c.edit_confirmed(Rgb::new(7, 7, 7));
    assert_eq!(c.edit_cancelled(), Rgb::new(7, 7, 7));
}

#[test]
fn selected_color_preseeds_the_edit_chooser() {
    let mut c = KeyboardColorButton::new(None);
    assert_eq!(c.selected_color(), None);
    c.circle_clicked(c.swatches[1].id);
    assert_eq!(c.selected_color(), Some(blue()));
}

#[test]
fn the_summary_color_is_a_pure_display_property() {
    let mut c = KeyboardColorButton::new(None);
    let before = c.swatches.clone();
    c.set_rgb(Rgb::new(42, 42, 42));
    assert_eq!(c.rgb(), Rgb::new(42, 42, 42));
    assert_eq!(c.swatches, before);
    assert_eq!(c.selected, None);
}

#[test]
fn membership_is_by_identity_not_color() {
    let mut c = KeyboardColorButton::new(None);
    assert!(c.contains_id(c.swatches[0].id));
    assert!(!c.contains_id(c.add_swatch.id));
    // two swatches of the same color stay distinguishable
    c.add_color(green());
    let old_green = c.swatches[4].id;
    let new_green = c.swatches[5].id;
    assert_ne!(old_green, new_green);
    c.circle_clicked(new_green);
    assert_eq!(c.swatches[4].symbol, Glyph::Empty);
    assert_eq!(c.swatches[5].symbol, Glyph::Check);
}

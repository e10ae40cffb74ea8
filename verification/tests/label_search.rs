use radio_tui::label::truncate_label;
use radio_tui::mode::State;
use radio_tui::render::DrawOp;
use radio_tui::search::{Search, SEARCH_COLUMN, SEARCH_ROW};

#[test]
fn long_label_is_cut_to_twenty_characters() {
    let name = "X".repeat(25);
    assert_eq!(name.len(), 25);
    let label = truncate_label(name);
    assert_eq!(label, "X".repeat(20));
    assert_eq!(label, "XXXXXXXXXXXXXXXXXXXX");
}

#[test]
fn short_label_is_kept() {
    assert_eq!(truncate_label("Radio Paradise".to_string()), "Radio Paradise");
    assert_eq!(truncate_label(String::new()), "");
    assert_eq!(truncate_label("a".repeat(20)), "a".repeat(20));
    assert_eq!(truncate_label("é".repeat(10)), "é".repeat(10));
}

#[test]
fn label_is_measured_in_bytes() {
    assert_eq!(truncate_label("é".repeat(11)), "é".repeat(10));
    assert_eq!(truncate_label("0123456789abcdefghij-tail".to_string()), "0123456789abcdefghij");
}

#[test]
fn cut_inside_a_character_leaves_a_replacement() {
    let name = format!("a{}", "é".repeat(10));
    assert_eq!(name.len(), 21);
    assert_eq!(truncate_label(name), format!("a{}\u{fffd}", "é".repeat(9)));
}

#[test]
fn state_next_toggles() {
    let mut state = State::Search;
    state.next();
    assert_eq!(state, State::Term);
    state.next();
    assert_eq!(state, State::Search);
}

#[test]
fn search_bar_edits_its_text() {
    let mut bar = Search::new();
    assert_eq!(bar.text(), "");
    bar.pop();
    assert_eq!(bar.text(), "");
    bar.push('j');
    bar.push('a');
    bar.push('z');
    assert_eq!(bar.text(), "jaz");
    bar.pop();
    assert_eq!(bar.text(), "ja");
    bar.clear();
    assert_eq!(bar.text(), "");
}

#[test]
fn search_bar_is_drawn_at_its_place() {
    let mut bar = Search::new();
    assert_eq!(
        bar.draw(true),
        DrawOp::LabelAt { column: 0, row: 100, text: "Search: ".to_string(), highlighted: true }
    );
    bar.push('f');
    bar.push('m');
    assert_eq!(
        bar.draw(false),
        DrawOp::LabelAt {
            column: SEARCH_COLUMN,
            row: SEARCH_ROW,
            text: "Search: fm".to_string(),
            highlighted: false,
        }
    );
}

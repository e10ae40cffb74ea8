use radio_tui::mode::State;
use radio_tui::render::DrawOp;
use radio_tui::ui::{Action, Key, Ui};
use std::cell::Cell;
use std::rc::Rc;

type Click = Box<dyn Fn()>;

fn idle() -> Click {
    Box::new(|| {})
}

fn entries(names: &[&str]) -> Vec<(String, Click)> {
    names.iter().map(|name| (name.to_string(), idle())).collect()
}

fn typed(ui: &mut Ui<Click>, text: &str) {
    for c in text.chars() {
        assert_eq!(ui.handle(Key::Char(c)), Action::Continue);
    }
}

#[test]
fn ui_starts_in_the_search_bar() {
    let ui: Ui<Click> = Ui::new(75, 3);
    assert_eq!(ui.state, State::Search);
    assert_eq!(ui.search_bar.text(), "");
    assert_eq!(ui.term.columns(), 3);
    assert_eq!(ui.term.visible_rows(), 2);
    assert_eq!(ui.term.labels(), vec![Vec::<String>::new()]);
}

#[test]
fn tab_toggles_and_esc_quits_in_both_modes() {
    let mut ui: Ui<Click> = Ui::new(75, 3);
    assert_eq!(ui.handle(Key::Esc), Action::Quit);
    assert_eq!(ui.state, State::Search);
    assert_eq!(ui.handle(Key::Tab), Action::Continue);
    assert_eq!(ui.state, State::Term);
    assert_eq!(ui.handle(Key::Esc), Action::Quit);
    assert_eq!(ui.state, State::Term);
    assert_eq!(ui.handle(Key::Tab), Action::Continue);
    assert_eq!(ui.state, State::Search);
}

#[test]
fn resize_reaches_the_grid_in_both_modes() {
    let mut ui: Ui<Click> = Ui::new(75, 3);
    assert_eq!(ui.handle(Key::Size(11, 100)), Action::Continue);
    assert_eq!(ui.term.columns(), 4);
    assert_eq!(ui.term.visible_rows(), 10);
    ui.handle(Key::Tab);
    assert_eq!(ui.handle(Key::Size(5, 50)), Action::Continue);
    assert_eq!(ui.term.columns(), 2);
    assert_eq!(ui.term.visible_rows(), 4);
}

#[test]
fn search_mode_edits_the_text_and_leaves_the_cursor() {
    let mut ui: Ui<Click> = Ui::new(75, 3);
    ui.load(entries(&["A", "B", "C", "D"]));
    typed(&mut ui, "rock");
    assert_eq!(ui.handle(Key::Backspace), Action::Continue);
    assert_eq!(ui.search_bar.text(), "roc");
    for key in [Key::Up, Key::Down, Key::Left, Key::Right, Key::Unknown] {
        assert_eq!(ui.handle(key), Action::Continue);
    }
    assert_eq!(ui.term.cursor(), (0, 0));
    assert_eq!(ui.search_bar.text(), "roc");
    assert_eq!(ui.handle(Key::Enter), Action::Search("roc".to_string()));
    assert_eq!(ui.search_bar.text(), "roc");
    assert_eq!(ui.term.labels(), vec![vec!["A", "B", "C"], vec!["D"]]);
}

#[test]
fn grid_mode_moves_the_cursor_and_leaves_the_text() {
    let mut ui: Ui<Click> = Ui::new(75, 3);
    typed(&mut ui, "ab");
    ui.load(entries(&["A", "B", "C", "D"]));
    typed(&mut ui, "x");
    ui.handle(Key::Tab);
    assert_eq!(ui.handle(Key::Right), Action::Continue);
    assert_eq!(ui.term.cursor(), (0, 1));
    assert_eq!(ui.handle(Key::Down), Action::Continue);
    assert_eq!(ui.term.cursor(), (1, 1));
    assert_eq!(ui.handle(Key::Left), Action::Continue);
    assert_eq!(ui.term.cursor(), (1, 0));
    assert_eq!(ui.handle(Key::Up), Action::Continue);
    assert_eq!(ui.term.cursor(), (0, 0));
    for key in [Key::Char('q'), Key::Backspace, Key::Unknown] {
        assert_eq!(ui.handle(key), Action::Continue);
    }
    assert_eq!(ui.search_bar.text(), "x");
    assert_eq!(ui.term.cursor(), (0, 0));
}

#[test]
fn enter_in_grid_mode_runs_the_action_under_the_cursor() {
    let played: Rc<Cell<Vec<String>>> = Rc::new(Cell::new(Vec::new()));
    let mut found: Vec<(String, Click)> = Vec::new();
    for name in ["one", "two", "three"] {
        let played = played.clone();
        let url = format!("http://example.org/{}", name);
        found.push((
            name.to_string(),
            Box::new(move || {
                let mut seen = played.take();
                seen.push(url.clone());
                played.set(seen);
            }),
        ));
    }
    let mut ui: Ui<Click> = Ui::new(50, 3);
    ui.load(found);
    assert_eq!(ui.handle(Key::Enter), Action::Search(String::new()));
    assert_eq!(played.take(), Vec::<String>::new());
    ui.handle(Key::Tab);
    ui.handle(Key::Right);
    assert_eq!(ui.handle(Key::Enter), Action::Continue);
    ui.handle(Key::Right);
    assert_eq!(ui.handle(Key::Enter), Action::Continue);
    assert_eq!(played.take(), vec!["http://example.org/two", "http://example.org/three"]);
}

#[test]
fn load_replaces_the_grid_and_empties_the_search_bar() {
    let mut ui: Ui<Click> = Ui::new(75, 3);
    ui.load(entries(&["old1", "old2"]));
    ui.handle(Key::Tab);
    ui.handle(Key::Right);
    ui.handle(Key::Tab);
    typed(&mut ui, "jazz");
    let long = "Y".repeat(30);
    ui.load(entries(&["A", &long, "C", "D"]));
    assert_eq!(ui.term.labels(), vec![vec!["A", &"Y".repeat(20)[..], "C"], vec!["D"]]);
    assert_eq!(ui.term.cursor(), (0, 0));
    assert_eq!(ui.search_bar.text(), "");
    assert_eq!(ui.state, State::Search);
}

#[test]
fn load_drops_what_the_grid_has_no_room_for() {
    let mut ui: Ui<Click> = Ui::new(50, 3);
    ui.load(entries(&["a", "b", "c", "d", "e", "f"]));
    assert_eq!(ui.term.labels(), vec![vec!["a", "b"], vec!["c", "d"]]);
    assert!(ui.term.is_full());
    ui.load(entries(&[]));
    assert_eq!(ui.term.labels(), vec![Vec::<String>::new()]);
    let mut ui: Ui<Click> = Ui::new(10, 3);
    ui.load(entries(&["a"]));
    assert_eq!(ui.term.labels(), vec![Vec::<String>::new()]);
}

#[test]
fn frame_draws_grid_then_search_bar() {
    let mut ui: Ui<Click> = Ui::new(50, 3);
    ui.load(entries(&["a", "b", "c"]));
    typed(&mut ui, "fm");
    let bar = |highlighted: bool| DrawOp::LabelAt {
        column: 0,
        row: 100,
        text: "Search: fm".to_string(),
        highlighted,
    };
    let cell = |text: &str, highlighted: bool| DrawOp::Label { text: text.to_string(), highlighted };
    assert_eq!(
        ui.frame(),
        vec![
            DrawOp::MoveTo { column: 0, row: 0 },
            DrawOp::ClearBelow,
            cell("a", false),
            cell("b", false),
            DrawOp::NextLine,
            cell("c", false),
            DrawOp::NextLine,
            bar(true),
            DrawOp::Flush,
        ]
    );
    ui.handle(Key::Tab);
    ui.handle(Key::Down);
    assert_eq!(
        ui.frame(),
        vec![
            DrawOp::MoveTo { column: 0, row: 0 },
            DrawOp::ClearBelow,
            cell("a", false),
            cell("b", false),
            DrawOp::NextLine,
            cell("c", true),
            DrawOp::NextLine,
            bar(false),
            DrawOp::Flush,
        ]
    );
}

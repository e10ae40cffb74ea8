//! The interface as a whole: the grid, the search bar, the mode that decides
//! which of the two takes the keys, and what a key press does.

use vstd::prelude::*;
use crate::button::Button;
use crate::grid::Grid;
use crate::label::{truncate_label, truncated};
use crate::mode::State;
use crate::nav::Direction;
use crate::render::{views, DrawOp, DrawOpView};
use crate::search::{Search, SEARCH_COLUMN, SEARCH_ROW};
use crate::term::{Term, TermErr};

verus! {

/// An input event.
#[derive(Clone, Copy, Debug, PartialEq, Eq, Structural)]
pub enum Key {
    Up,
    Down,
    Right,
    Left,
    Enter,
    Esc,
    Unknown,
    Tab,
    Backspace,
    /// The terminal was resized: its new height, then its new width.
    Size(usize, usize),
    Char(char),
}

/// What the caller does after a key has been handled.
#[derive(Debug, PartialEq, Eq)]
pub enum Action {
    /// Draw the next frame and read the next key.
    Continue,
    /// Leave the loop.
    Quit,
    /// Look the text up in the station directory, and hand the stations
    /// found to [`Ui::load`].
    Search(String),
}

/// An [`Action`] with its text as a sequence of characters.
pub enum ActionView {
    Continue,
    Quit,
    Search(Seq<char>),
}

impl View for Action {
    type V = ActionView;

    open spec fn view(&self) -> ActionView {
        match *self {
            Action::Continue => ActionView::Continue,
            Action::Quit => ActionView::Quit,
            Action::Search(text) => ActionView::Search(text@),
        }
    }
}

/// The state of the interface.
pub struct Ui<F: Fn()> {
    pub term: Term<F>,
    pub search_bar: Search,
    pub state: State,
}

/// The state of the interface, as mathematical values.
pub struct UiModel<F: Fn()> {
    pub term: Grid<Button<F>>,
    pub search: Seq<char>,
    pub state: State,
}

impl<F: Fn()> UiModel<F> {
    /// The direction that `key` moves the cursor in, if it is an arrow key.
    pub open spec fn direction(key: Key) -> Option<Direction> {
        match key {
            Key::Up => Some(Direction::Up),
            Key::Down => Some(Direction::Down),
            Key::Right => Some(Direction::Right),
            Key::Left => Some(Direction::Left),
            _ => None,
        }
    }

    /// The state after `key`. `Tab` switches the mode and a resize refits the
    /// grid, whatever the mode. Arrow keys move the cursor while the grid
    /// has the focus; characters and `Backspace` edit the text while the
    /// search bar has it. Every other key leaves the state as it is.
    pub open spec fn after(self, key: Key) -> Self {
        match key {
            Key::Tab => UiModel { state: self.state.toggled(), ..self },
            Key::Size(height, width) => UiModel {
                term: self.term.resized(width as nat, height as nat),
                ..self
            },
            _ => match self.state {
                State::Term => match Self::direction(key) {
                    Some(dir) => UiModel { term: self.term.moved(dir), ..self },
                    None => self,
                },
                State::Search => match key {
                    Key::Char(c) => UiModel { search: self.search.push(c), ..self },
                    Key::Backspace => UiModel {
                        search: if self.search.len() > 0 {
                            self.search.drop_last()
                        } else {
                            self.search
                        },
                        ..self
                    },
                    _ => self,
                },
            },
        }
    }

    /// What the caller is asked to do after `key`: `Esc` ends the loop,
    /// `Enter` in the search bar asks for a search of the text, and every
    /// other key goes on to the next frame.
    pub open spec fn action(self, key: Key) -> ActionView {
        match key {
            Key::Esc => ActionView::Quit,
            Key::Enter => match self.state {
                State::Search => ActionView::Search(self.search),
                State::Term => ActionView::Continue,
            },
            _ => ActionView::Continue,
        }
    }

    /// The button that `key` activates: the one under the cursor, on `Enter`
    /// while the grid has the focus.
    pub open spec fn activated(self, key: Key) -> Option<Button<F>> {
        if key == Key::Enter && self.state == State::Term {
            self.term.cell_at_cursor()
        } else {
            None
        }
    }

    /// The commands of one frame: go to the origin, clear the screen, draw
    /// the grid, draw the search bar, flush. The component that has the
    /// focus is drawn highlighted.
    pub open spec fn frame(self) -> Seq<DrawOpView> {
        seq![DrawOpView::MoveTo { column: 0, row: 0 }, DrawOpView::ClearBelow]
            + self.term.draw_ops(self.state == State::Term)
            + seq![
            DrawOpView::LabelAt {
                column: SEARCH_COLUMN as nat,
                row: SEARCH_ROW as nat,
                text: "Search: "@ + self.search,
                highlighted: self.state == State::Search,
            },
            DrawOpView::Flush,
        ]
    }
}

impl<F: Fn()> View for Ui<F> {
    type V = UiModel<F>;

    open spec fn view(&self) -> UiModel<F> {
        UiModel { term: self.term@, search: self.search_bar@, state: self.state }
    }
}

/// Whether `button` is the one made for `entry`: its label is the entry's
/// name cut to the width of a cell, its action is the entry's.
pub open spec fn made_for<F: Fn()>(button: Button<F>, entry: (String, F)) -> bool {
    button.label_view() == truncated(entry.0@) && button.action() == entry.1
}

impl<F: Fn()> Ui<F> {
    /// The interface at start: an empty grid for a terminal `width` columns
    /// wide and `height` lines high, an empty search bar, and the focus on
    /// the search bar.
    pub fn new(width: usize, height: usize) -> (ui: Self)
        ensures
            ui@.term == Grid::<Button<F>>::empty(
                crate::grid::columns_for(width as nat),
                crate::grid::rows_for(height as nat),
            ),
            ui@.search == Seq::<char>::empty(),
            ui@.state == State::Search,
    {
        Ui { term: Term::new(width, height), search_bar: Search::new(), state: State::Search }
    }

    /// The drawing commands of one frame.
    pub fn frame(&self) -> (ops: Vec<DrawOp>)
        ensures
            views(ops@) == self@.frame(),
    {
        let mut ops: Vec<DrawOp> = Vec::new();
        ops.push(DrawOp::MoveTo { column: 0, row: 0 });
        ops.push(DrawOp::ClearBelow);
        let ghost head = ops@;
        let mut grid_ops = self.term.draw(matches!(self.state, State::Term));
        let ghost grid = grid_ops@;
        ops.append(&mut grid_ops);
        let bar = self.search_bar.draw(matches!(self.state, State::Search));
        ops.push(bar);
        ops.push(DrawOp::Flush);
        proof {
            assert(ops@ =~= head + grid + seq![bar, DrawOp::Flush]);
            assert(views(ops@) =~= views(head) + views(grid) + views(seq![bar, DrawOp::Flush]));
            assert(views(head) =~= seq![
                DrawOpView::MoveTo { column: 0, row: 0 },
                DrawOpView::ClearBelow,
            ]);
            assert(views(seq![bar, DrawOp::Flush]) =~= seq![bar@, DrawOpView::Flush]);
        }
        ops
    }

    /// Shows the stations found by a search: drops the buttons of the grid,
    /// makes one button for each entry, in order, for as long as the grid
    /// takes them, and empties the search bar. Entries that the grid has no
    /// room for are left out.
    pub fn load(&mut self, entries: Vec<(String, F)>)
        requires
            forall|i: int| 0 <= i < entries@.len() ==> call_requires((#[trigger] entries@[i]).1, ()),
        ensures
            final(self)@.state == old(self)@.state,
            final(self)@.search == Seq::<char>::empty(),
            final(self)@.term.columns == old(self)@.term.columns,
            final(self)@.term.visible_rows == old(self)@.term.visible_rows,
            final(self)@.term.cursor == (0nat, 0nat),
            final(self)@.term.rows_filled(),
            final(self)@.term.cells().len() == if entries@.len() <= old(self)@.term.capacity() {
                entries@.len()
            } else {
                old(self)@.term.capacity()
            },
            forall|i: int|
                0 <= i < final(self)@.term.cells().len() ==> made_for(
                    #[trigger] final(self)@.term.cells()[i],
                    entries@[i],
                ),
    {
        self.term.clear();
        let ghost all = entries@;
        let mut full = false;
        for entry in it: entries
            invariant
                it.seq() == all,
                forall|i: int| 0 <= i < all.len() ==> call_requires((#[trigger] all[i]).1, ()),
                self@.state == old(self)@.state,
                self@.search == old(self)@.search,
                self@.term.columns == old(self)@.term.columns,
                self@.term.visible_rows == old(self)@.term.visible_rows,
                self@.term.cursor == (0nat, 0nat),
                self@.term.rows_filled(),
                self@.term.cells().len() <= it.index(),
                self@.term.cells().len() <= self@.term.capacity(),
                full ==> self@.term.is_full(),
                !full ==> self@.term.cells().len() == it.index(),
                forall|i: int|
                    0 <= i < self@.term.cells().len() ==> made_for(
                        #[trigger] self@.term.cells()[i],
                        all[i],
                    ),
        {
            if !full {
                let (name, on_click) = entry;
                let button = Button::new(truncate_label(name), on_click);
                match self.term.push(button) {
                    Ok(()) => {},
                    Err(TermErr::Full) => {
                        full = true;
                    },
                }
            }
        }
        self.search_bar.clear();
    }

    /// Handles one key and says what the caller does next. On `Enter` while
    /// the grid has the focus, the action of the button under the cursor is
    /// run.
    pub fn handle(&mut self, key: Key) -> (action: Action)
        ensures
            final(self)@ == old(self)@.after(key),
            action@ == old(self)@.action(key),
            old(self)@.activated(key) matches Some(button) ==> call_ensures(
                button.action(),
                (),
                (),
            ),
    {
        match key {
            Key::Esc => Action::Quit,
            Key::Tab => {
                self.state.next();
                Action::Continue
            },
            Key::Size(height, width) => {
                self.term.update_size(width, height);
                Action::Continue
            },
            _ => match self.state {
                State::Term => {
                    match key {
                        Key::Up => self.term.go(Direction::Up),
                        Key::Down => self.term.go(Direction::Down),
                        Key::Right => self.term.go(Direction::Right),
                        Key::Left => self.term.go(Direction::Left),
                        Key::Enter => self.term.click(),
                        _ => (),
                    }
                    Action::Continue
                },
                State::Search => match key {
                    Key::Backspace => {
                        self.search_bar.pop();
                        Action::Continue
                    },
                    Key::Char(c) => {
                        self.search_bar.push(c);
                        Action::Continue
                    },
                    Key::Enter => Action::Search(self.search_bar.text()),
                    _ => Action::Continue,
                },
            },
        }
    }
}

} // verus!

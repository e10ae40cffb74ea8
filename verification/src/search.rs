//! The search bar: a line of text that the user edits.

use vstd::prelude::*;
use crate::render::{DrawOp, DrawOpView};

verus! {

/// Screen column at which the search bar is drawn.
pub const SEARCH_COLUMN: usize = 0;

/// Screen line at which the search bar is drawn.
pub const SEARCH_ROW: usize = 100;

/// `String::push` appends the character to the end of the string.
pub assume_specification[ String::push ](text: &mut String, ch: char)
    ensures
        final(text)@ == old(text)@.push(ch),
;

/// `String::pop` removes the last character and returns it; on an empty
/// string it returns `None` and leaves the string empty.
pub assume_specification[ String::pop ](text: &mut String) -> (last: Option<char>)
    ensures
        old(text)@.len() == 0 ==> last is None && final(text)@ == old(text)@,
        old(text)@.len() > 0 ==> last == Some(old(text)@.last()) && final(text)@ == old(
            text,
        )@.drop_last(),
;

/// The text that the user has typed into the search bar.
pub struct Search {
    buffer: String,
}

impl View for Search {
    type V = Seq<char>;

    closed spec fn view(&self) -> Seq<char> {
        self.buffer@
    }
}

impl Search {
    /// An empty search bar.
    pub fn new() -> (search: Self)
        ensures
            search@ == Seq::<char>::empty(),
    {
        Self { buffer: String::new() }
    }

    /// The command that draws the search bar at its fixed place on the
    /// screen: the caption followed by the text, highlighted if
    /// `is_selected`.
    pub fn draw(&self, is_selected: bool) -> (op: DrawOp)
        ensures
            op@ == (DrawOpView::LabelAt {
                column: SEARCH_COLUMN as nat,
                row: SEARCH_ROW as nat,
                text: "Search: "@ + self@,
                highlighted: is_selected,
            }),
    {
        let mut text = "Search: ".to_owned();
        text.append(self.buffer.as_str());
        DrawOp::LabelAt { column: SEARCH_COLUMN, row: SEARCH_ROW, text, highlighted: is_selected }
    }

    /// Appends `c` to the text.
    pub fn push(&mut self, c: char)
        ensures
            final(self)@ == old(self)@.push(c),
    {
        self.buffer.push(c);
    }

    /// Removes the last character of the text, if there is one.
    pub fn pop(&mut self)
        ensures
            final(self)@ == if old(self)@.len() > 0 {
                old(self)@.drop_last()
            } else {
                old(self)@
            },
    {
        let _ = self.buffer.pop();
    }

    /// A copy of the text.
    pub fn text(&self) -> (text: String)
        ensures
            text@ == self@,
    {
        self.buffer.clone()
    }

    /// Empties the text.
    pub fn clear(&mut self)
        ensures
            final(self)@ == Seq::<char>::empty(),
    {
        self.buffer = String::new();
    }
}

} // verus!

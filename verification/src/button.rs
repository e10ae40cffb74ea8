//! A labelled cell with an action.

use vstd::prelude::*;
use crate::render::{DrawOp, DrawOpView};

verus! {

/// A grid entry: a label to display and an action to run when the entry is
/// activated. The action is any closure that can be called with no argument;
/// the library never runs it on its own.
pub struct Button<F: Fn()> {
    label: String,
    on_click: F,
}

impl<F: Fn()> Button<F> {
    /// Every button holds an action that may be called.
    #[verifier::type_invariant]
    spec fn callable(self) -> bool {
        call_requires(self.on_click, ())
    }

    /// The label, as a sequence of characters.
    pub closed spec fn label_view(self) -> Seq<char> {
        self.label@
    }

    /// The action.
    pub closed spec fn action(self) -> F {
        self.on_click
    }

    /// A button that shows `label` as it is and runs `on_click` when clicked.
    pub fn new(label: String, on_click: F) -> (button: Self)
        requires
            call_requires(on_click, ()),
        ensures
            button.label_view() == label@,
            button.action() == on_click,
    {
        Button { label, on_click }
    }

    /// The label.
    pub fn label(&self) -> (label: &str)
        ensures
            label@ == self.label_view(),
    {
        self.label.as_str()
    }

    /// The command that draws this button at the write position, highlighted
    /// if `is_selected`.
    pub fn draw(&self, is_selected: bool) -> (op: DrawOp)
        ensures
            op@ == (DrawOpView::Label { text: self.label_view(), highlighted: is_selected }),
    {
        DrawOp::Label { text: self.label.clone(), highlighted: is_selected }
    }

    /// Runs the action once.
    pub fn click(&self)
        ensures
            call_ensures(self.action(), (), ()),
    {
        proof {
            use_type_invariant(self);
        }
        (self.on_click)()
    }
}

} // verus!

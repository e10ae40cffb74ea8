//! The two input modes of the interface.

use vstd::prelude::*;

verus! {

/// Which component receives keyboard input.
#[derive(Clone, Copy, Debug, PartialEq, Eq, Structural)]
pub enum State {
    /// The grid of stations has the focus.
    Term,
    /// The search bar has the focus.
    Search,
}

impl State {
    /// The mode that `Tab` switches to from `self`.
    pub open spec fn toggled(self) -> State {
        match self {
            State::Term => State::Search,
            State::Search => State::Term,
        }
    }

    /// Switches to the other mode.
    pub fn next(&mut self)
        ensures
            *final(self) == old(self).toggled(),
    {
        match self {
            State::Term => {
                *self = State::Search;
            },
            State::Search => {
                *self = State::Term;
            },
        }
    }
}

} // verus!

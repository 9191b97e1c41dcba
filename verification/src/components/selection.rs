//! Whether a node is selected.

use vstd::prelude::*;

verus! {

/// A request to change a node's selection state.
#[derive(Clone, Copy, Debug, PartialEq, Eq, Structural)]
pub enum SelectionMessage {
    SetSelected(bool),
}

/// The selection state of a node.
#[derive(Clone, Copy, Debug, PartialEq, Eq, Structural)]
pub struct SelectionComponent {
    selected: bool,
}

impl View for SelectionComponent {
    type V = bool;

    closed spec fn view(&self) -> bool {
        self.selected
    }
}

impl SelectionComponent {
    /// The state of a node that is not selected.
    pub fn new() -> (component: Self)
        ensures
            !component@,
    {
        SelectionComponent { selected: false }
    }

    /// Whether the node is selected.
    pub fn is_selected(&self) -> (selected: bool)
        ensures
            selected == self@,
    {
        self.selected
    }

    /// Selects the node, or clears its selection.
    pub fn set_selected(&mut self, selected: bool)
        ensures
            final(self)@ == selected,
    {
        self.selected = selected;
    }

    /// Carries out a request.
    pub fn handle_message(&mut self, message: SelectionMessage)
        ensures
            final(self)@ == (match message {
                SelectionMessage::SetSelected(selected) => selected,
            }),
    {
        match message {
            SelectionMessage::SetSelected(selected) => {
                self.selected = selected;
            },
        }
    }
}

} // verus!

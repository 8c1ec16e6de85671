//! What the store leaves to its caller: the writing.

use vstd::prelude::*;

verus! {

/// Something the caller of the store is to do once an operation has gone
/// through. An operation hands out its actions in the order in which they are
/// to be carried out.
#[derive(Debug, PartialEq, Eq)]
pub enum Action {
    /// Write the store's record to the store's place.
    PersistRecord,
    /// Write this text to the tracked file, in place of what it holds.
    WriteFile(String),
}

/// An action, as contracts see it.
pub enum ActionView {
    /// Write the store's record to the store's place.
    PersistRecord,
    /// Write this text to the tracked file.
    WriteFile(Seq<char>),
}

impl View for Action {
    type V = ActionView;

    open spec fn view(&self) -> ActionView {
        match self {
            Action::PersistRecord => ActionView::PersistRecord,
            Action::WriteFile(text) => ActionView::WriteFile(text@),
        }
    }
}

/// The actions of `actions`, each by its view.
pub open spec fn action_views(actions: Seq<Action>) -> Seq<ActionView> {
    actions.map_values(|action: Action| action@)
}

/// The actions of an operation that changed the record only: the record is
/// to be written.
pub open spec fn persist_only() -> Seq<ActionView> {
    seq![ActionView::PersistRecord]
}

/// The actions of a switch to a version whose text is `text`: the record is
/// to be written first, the tracked file after it.
pub open spec fn persist_then_write(text: Seq<char>) -> Seq<ActionView> {
    seq![ActionView::PersistRecord, ActionView::WriteFile(text)]
}

/// Hands out the single action of writing the record.
pub(crate) fn persist() -> (actions: Vec<Action>)
    ensures
        action_views(actions@) == persist_only(),
{
    let mut actions = Vec::new();
    actions.push(Action::PersistRecord);
    actions
}

/// Hands out the actions of writing the record and then `text` to the
/// tracked file.
pub(crate) fn persist_and_write(text: String) -> (actions: Vec<Action>)
    ensures
        action_views(actions@) == persist_then_write(text@),
{
    let mut actions = Vec::new();
    actions.push(Action::PersistRecord);
    actions.push(Action::WriteFile(text));
    actions
}

} // verus!

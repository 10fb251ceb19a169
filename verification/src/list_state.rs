//! Which entry of a list is selected, and from where on the list is shown.
use vstd::prelude::*;

verus! {

/// The state of a list on the screen. `selected` may lie behind the end of the
/// list: drawing the list moves it to the last entry.
#[derive(Clone, Copy, Debug, PartialEq, Eq, Structural)]
pub struct ListState {
    pub offset: usize,
    pub selected: Option<usize>,
}

/// The entry below the selected one; the first one if none is selected.
pub open spec fn entry_below(selected: Option<usize>) -> usize {
    match selected {
        Some(i) => if i < usize::MAX {
            (i + 1) as usize
        } else {
            usize::MAX
        },
        None => 0,
    }
}

/// The entry above the selected one; the last one if none is selected.
pub open spec fn entry_above(selected: Option<usize>) -> usize {
    match selected {
        Some(i) => if i > 0 {
            (i - 1) as usize
        } else {
            0
        },
        None => usize::MAX,
    }
}

/// `ratatui::widgets::ListState::select_next` selects the entry below.
#[verifier::external_body]
fn next_selected(state: ListState) -> (r: ListState)
    ensures
        r == (ListState { offset: state.offset, selected: Some(entry_below(state.selected)) }),
{
    let mut list = ratatui::widgets::ListState::default().with_offset(state.offset).with_selected(
        state.selected,
    );
    list.select_next();
    ListState { offset: list.offset(), selected: list.selected() }
}

/// `ratatui::widgets::ListState::select_previous` selects the entry above.
#[verifier::external_body]
fn previous_selected(state: ListState) -> (r: ListState)
    ensures
        r == (ListState { offset: state.offset, selected: Some(entry_above(state.selected)) }),
{
    let mut list = ratatui::widgets::ListState::default().with_offset(state.offset).with_selected(
        state.selected,
    );
    list.select_previous();
    ListState { offset: list.offset(), selected: list.selected() }
}

/// `ratatui::widgets::ListState::select_first` selects entry 0.
#[verifier::external_body]
fn first_selected(state: ListState) -> (r: ListState)
    ensures
        r == (ListState { offset: state.offset, selected: Some(0) }),
{
    let mut list = ratatui::widgets::ListState::default().with_offset(state.offset).with_selected(
        state.selected,
    );
    list.select_first();
    ListState { offset: list.offset(), selected: list.selected() }
}

/// `ratatui::widgets::ListState::select_last` selects the largest possible
/// entry, which stands for the last one.
#[verifier::external_body]
fn last_selected(state: ListState) -> (r: ListState)
    ensures
        r == (ListState { offset: state.offset, selected: Some(usize::MAX) }),
{
    let mut list = ratatui::widgets::ListState::default().with_offset(state.offset).with_selected(
        state.selected,
    );
    list.select_last();
    ListState { offset: list.offset(), selected: list.selected() }
}

impl ListState {
    /// Nothing is selected, and the list is shown from its start.
    pub open spec fn initial() -> ListState {
        ListState { offset: 0, selected: None }
    }

    pub fn select_next(&mut self)
        ensures
            *final(self) == (ListState { selected: Some(entry_below(old(self).selected)), ..*old(self) }),
    {
        *self = next_selected(*self);
    }

    pub fn select_previous(&mut self)
        ensures
            *final(self) == (ListState { selected: Some(entry_above(old(self).selected)), ..*old(self) }),
    {
        *self = previous_selected(*self);
    }

    pub fn select_first(&mut self)
        ensures
            *final(self) == (ListState { selected: Some(0usize), ..*old(self) }),
    {
        *self = first_selected(*self);
    }

    pub fn select_last(&mut self)
        ensures
            *final(self) == (ListState { selected: Some(usize::MAX), ..*old(self) }),
    {
        *self = last_selected(*self);
    }
}

impl Default for ListState {
    fn default() -> (r: Self)
        ensures
            r == ListState::initial(),
    {
        ListState { offset: 0, selected: None }
    }
}

/// Going down and then up again comes back to the entry that was selected.
pub proof fn down_then_up_returns(i: usize)
    requires
        i < usize::MAX,
    ensures
        entry_above(Some(entry_below(Some(i)))) == i,
{
}

/// Going up and then down again comes back to the entry that was selected,
/// unless that was the first one.
pub proof fn up_then_down_returns(i: usize)
    requires
        i > 0,
    ensures
        entry_below(Some(entry_above(Some(i)))) == i,
{
}

} // verus!

//! The external, mutable view-state of the list: the selection cursor owned
//! by the hosting list framework plus the bookmarked page index, and the
//! pre-draw pass that ties bookmark and selection together.

use vstd::prelude::*;

use crate::list::{bookmark_applied, PagesList};

verus! {

/// The selection cursor of the hosting list framework, declared so that a
/// value of it can be carried through this crate. This crate touches it only
/// through the trusted accessors below.
#[verifier::external_type_specification]
#[verifier::external_body]
pub struct ExListState(tui_widget_list::ListState);

/// The selection a `tui_widget_list::ListState` currently holds.
pub uninterp spec fn list_selected(s: tui_widget_list::ListState) -> Option<usize>;

/// Relies on tui_widget_list::ListState::default: a fresh cursor selects nothing.
#[verifier::external_body]
fn list_state_new() -> (s: tui_widget_list::ListState)
    ensures
        list_selected(s) == None::<usize>,
{
    tui_widget_list::ListState::default()
}

/// Relies on the public `selected` field of tui_widget_list::ListState.
#[verifier::external_body]
fn list_state_selected(s: &tui_widget_list::ListState) -> (r: Option<usize>)
    ensures
        r == list_selected(*s),
{
    s.selected
}

/// Relies on tui_widget_list::ListState::select: it stores exactly the given
/// selection.
#[verifier::external_body]
fn list_state_select(s: &mut tui_widget_list::ListState, index: Option<usize>)
    ensures
        list_selected(*final(s)) == index,
{
    s.select(index)
}

/// View-state of one pages list: the framework's selection cursor and the
/// index of the page currently considered the bookmark, if any.
#[derive(Debug)]
pub struct PagesListState {
    pub list_state: tui_widget_list::ListState,
    pub page_bookmarked: Option<usize>,
}

impl PagesListState {
    /// Fresh view-state: the selection cursor starts unset.
    pub fn new(page_bookmarked: Option<usize>) -> (s: PagesListState)
        ensures
            s.page_bookmarked == page_bookmarked,
            list_selected(s.list_state) == None::<usize>,
    {
        PagesListState { list_state: list_state_new(), page_bookmarked }
    }

    /// Remember `page_bookmarked` as the bookmark; the last write wins, and
    /// no row style moves until the next render pass.
    pub fn set_page_bookmarked(&mut self, page_bookmarked: usize)
        ensures
            final(self).page_bookmarked == Some(page_bookmarked),
            final(self).list_state == old(self).list_state,
    {
        self.page_bookmarked = Some(page_bookmarked);
    }
}

impl Default for PagesListState {
    /// Fresh view-state with no bookmark.
    fn default() -> (s: PagesListState)
        ensures
            s.page_bookmarked == None::<usize>,
            list_selected(s.list_state) == None::<usize>,
    {
        PagesListState::new(None)
    }
}

impl PagesList {
    /// The pre-draw pass, run once per draw cycle before the framework takes
    /// over. With a bookmark set it pre-focuses the bookmarked page — but
    /// only while nothing is selected yet, never overriding the user's
    /// cursor — and re-applies the bookmark highlight to the rows. Without a
    /// bookmark it leaves rows and cursor exactly as they are.
    pub fn prepare_render(&mut self, state: &mut PagesListState)
        ensures
            final(state).page_bookmarked == old(state).page_bookmarked,
            match old(state).page_bookmarked {
                Some(i) => {
                    &&& final(self).pages@ == bookmark_applied(old(self).pages@, i as int)
                    &&& list_selected(final(state).list_state) == if list_selected(
                        old(state).list_state,
                    ) == None::<usize> {
                        Some(i)
                    } else {
                        list_selected(old(state).list_state)
                    }
                },
                None => {
                    &&& *final(self) == *old(self)
                    &&& *final(state) == *old(state)
                },
            },
    {
        match state.page_bookmarked {
            Some(page) => {
                let cur = list_state_selected(&state.list_state);
                if cur.is_none() {
                    list_state_select(&mut state.list_state, Some(page));
                }
                self.highlight_page_as_bookmarked(page);
            },
            None => {},
        }
    }
}

} // verus!

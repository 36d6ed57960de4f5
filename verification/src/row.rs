//! One page's display unit: its load state, the spinner phase that moves
//! while it is loading, and the highlight it is painted with.

use vstd::prelude::*;

use crate::style::{default_row_style, RowStyle};

verus! {

/// How many frames the loading spinner cycles through before it repeats.
pub const SPINNER_CYCLE: u8 = 6;

/// The load status of one page. Transitions are driven by the surrounding
/// application; this core only reacts to the current value.
#[derive(PartialEq, Eq, Structural, Clone, Copy, Debug)]
pub enum PageItemState {
    Loading,
    FinishedLoad,
    FailedLoad,
    Waiting,
}

/// One row of the pages list: the page's ordinal, its load state, the
/// current spinner phase, and the highlight it will be painted with.
#[derive(PartialEq, Eq, Clone, Copy, Debug)]
pub struct PagesItem {
    pub number: usize,
    pub state: PageItemState,
    pub animation_phase: u8,
    pub style: RowStyle,
}

/// The same row, restyled.
pub open spec fn with_style(r: PagesItem, s: RowStyle) -> PagesItem {
    PagesItem { style: s, ..r }
}

/// The spinner phase one tick later: one step forward, wrapping at the
/// spinner's cycle length.
pub open spec fn next_phase(p: u8) -> u8 {
    if p + 1 >= SPINNER_CYCLE {
        0
    } else {
        (p + 1) as u8
    }
}

/// The row one tick later: the phase advances while the page is loading,
/// and nothing moves in any other state.
pub open spec fn ticked(r: PagesItem) -> PagesItem {
    if r.state == PageItemState::Loading {
        PagesItem { animation_phase: next_phase(r.animation_phase), ..r }
    } else {
        r
    }
}

/// What the row's drawable area should show, as decided from its state.
#[derive(PartialEq, Eq, Clone, Copy, Debug)]
pub enum RowPlan {
    /// The page label alone, across the entire row width.
    FullWidthLabel,
    /// Label on the left half; an active spinner at this phase on the right.
    SplitWithSpinner { phase: u8 },
    /// Label on the left half; a bold warning glyph on the right.
    SplitWithWarning,
    /// Label on the left half; a bold idle glyph on the right.
    SplitWithIdle,
}

/// The layout each state asks for.
pub open spec fn plan_of(r: PagesItem) -> RowPlan {
    match r.state {
        PageItemState::Loading => RowPlan::SplitWithSpinner { phase: r.animation_phase },
        PageItemState::FinishedLoad => RowPlan::FullWidthLabel,
        PageItemState::FailedLoad => RowPlan::SplitWithWarning,
        PageItemState::Waiting => RowPlan::SplitWithIdle,
    }
}

impl PagesItem {
    /// A fresh row: waiting, spinner at rest, no highlight.
    pub fn new(number: usize) -> (r: PagesItem)
        ensures
            r.number == number,
            r.state == PageItemState::Waiting,
            r.animation_phase == 0,
            r.style == default_row_style(),
    {
        PagesItem {
            number,
            state: PageItemState::Waiting,
            animation_phase: 0,
            style: RowStyle::default(),
        }
    }

    /// One animation tick: advance the spinner phase while loading, and do
    /// nothing in every other state. Safe to call every tick.
    pub fn on_tick(&mut self)
        ensures
            *final(self) == ticked(*old(self)),
    {
        if self.state == PageItemState::Loading {
            if self.animation_phase >= SPINNER_CYCLE - 1 {
                self.animation_phase = 0;
            } else {
                self.animation_phase = self.animation_phase + 1;
            }
        }
    }

    /// The hook the hosting list framework calls right before drawing: a
    /// selected row takes the caller's selection style, and every row asks
    /// for the same fixed height of two lines, whatever its state.
    pub fn pre_render(&mut self, is_selected: bool, selected_style: RowStyle) -> (height: u16)
        ensures
            height == 2,
            *final(self) == if is_selected {
                with_style(*old(self), selected_style)
            } else {
                *old(self)
            },
    {
        if is_selected {
            self.style = selected_style;
        }
        2
    }

    /// Decide the row layout: the page label spans the full width exactly
    /// when the page has finished loading; every other state splits the row
    /// into two halves, with a state marker on the right one.
    pub fn plan(&self) -> (p: RowPlan)
        ensures
            p == plan_of(*self),
            p is FullWidthLabel <==> self.state == PageItemState::FinishedLoad,
    {
        match self.state {
            PageItemState::Loading => RowPlan::SplitWithSpinner { phase: self.animation_phase },
            PageItemState::FinishedLoad => RowPlan::FullWidthLabel,
            PageItemState::FailedLoad => RowPlan::SplitWithWarning,
            PageItemState::Waiting => RowPlan::SplitWithIdle,
        }
    }
}

/// Animation gating: a tick changes the spinner phase if and only if the row
/// is loading, and it never touches the number, the state, or the style.
pub proof fn lemma_animation_gating(r: PagesItem)
    ensures
        r.state == PageItemState::Loading ==> ticked(r).animation_phase != r.animation_phase,
        r.state != PageItemState::Loading ==> ticked(r) == r,
        ticked(r).number == r.number,
        ticked(r).state == r.state,
        ticked(r).style == r.style,
{
}

} // verus!

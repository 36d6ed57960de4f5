use pages_list::list::PagesList;
use pages_list::row::{PageItemState, PagesItem, RowPlan};
use pages_list::state::PagesListState;
use pages_list::style::RowStyle;

fn rows(n: usize) -> Vec<PagesItem> {
    let mut v = Vec::new();
    let mut k: usize = 0;
    while k < n {
        v.push(PagesItem::new(k));
        k += 1;
    }
    v
}

#[test]
fn it_highlights_page_item_which_is_bookmarked() {
    let mut page_list = PagesList::new(vec![PagesItem::new(0), PagesItem::new(1)]);

    page_list.highlight_page_as_bookmarked(1);

    let page_item = page_list.pages[1].clone();

    assert_eq!(RowStyle::bookmarked(), page_item.style);
}

#[test]
fn it_keeps_only_one_item_bookmarked_at_a_time() {
    let mut page1 = PagesItem::new(0);

    page1.style = RowStyle::bookmarked();

    let mut page_list = PagesList::new(vec![page1, PagesItem::new(1)]);

    page_list.highlight_page_as_bookmarked(1);

    let page_item_with_no_highlight = page_list.pages[0].clone();
    let page_item_highlighet = page_list.pages[1].clone();

    assert_eq!(RowStyle::bookmarked(), page_item_highlighet.style);
    assert_eq!(RowStyle::default(), page_item_with_no_highlight.style);
}

#[test]
fn highlighting_clears_the_other_rows() {
    let mut page_list = PagesList::new(rows(2));

    page_list.highlight_page_as_bookmarked(1);

    assert_eq!(RowStyle::bookmarked(), page_list.pages[1].style);
    assert_eq!(RowStyle::default(), page_list.pages[0].style);
}

#[test]
fn out_of_range_highlight_clears_every_row() {
    let mut page_list = PagesList::new(rows(3));
    page_list.pages[0].style = RowStyle::bookmarked();

    page_list.highlight_page_as_bookmarked(5);

    for row in &page_list.pages {
        assert_eq!(RowStyle::default(), row.style);
    }
}

#[test]
fn highlighting_twice_equals_highlighting_once() {
    let mut once = PagesList::new(rows(4));
    let mut twice = PagesList::new(rows(4));

    once.highlight_page_as_bookmarked(2);
    twice.highlight_page_as_bookmarked(2);
    twice.highlight_page_as_bookmarked(2);

    assert_eq!(once, twice);
}

#[test]
fn loading_row_phase_moves_and_then_freezes() {
    let mut row = PagesItem::new(1);
    row.state = PageItemState::Loading;

    let initial = row.animation_phase;
    for _ in 0..5 {
        row.on_tick();
    }
    assert_ne!(initial, row.animation_phase);

    let frozen = {
        row.state = PageItemState::Waiting;
        let before = row.animation_phase;
        row.on_tick();
        before
    };
    assert_eq!(frozen, row.animation_phase);
}

#[test]
fn tick_changes_phase_only_in_loading_state() {
    let states = [
        PageItemState::Loading,
        PageItemState::FinishedLoad,
        PageItemState::FailedLoad,
        PageItemState::Waiting,
    ];
    for state in states {
        let mut row = PagesItem::new(7);
        row.state = state;
        let before = row.animation_phase;
        row.on_tick();
        if state == PageItemState::Loading {
            assert_ne!(before, row.animation_phase);
        } else {
            assert_eq!(before, row.animation_phase);
        }
    }
}

#[test]
fn spinner_phase_wraps_at_cycle_length() {
    let mut row = PagesItem::new(1);
    row.state = PageItemState::Loading;
    for _ in 0..6 {
        row.on_tick();
    }
    assert_eq!(0, row.animation_phase);
}

#[test]
fn collection_tick_advances_only_loading_rows() {
    let mut page_list = PagesList::new(rows(3));
    page_list.pages[1].state = PageItemState::Loading;

    page_list.on_tick();

    assert_eq!(0, page_list.pages[0].animation_phase);
    assert_eq!(1, page_list.pages[1].animation_phase);
    assert_eq!(0, page_list.pages[2].animation_phase);
}

#[test]
fn every_state_requests_height_two() {
    let states = [
        PageItemState::Loading,
        PageItemState::FinishedLoad,
        PageItemState::FailedLoad,
        PageItemState::Waiting,
    ];
    for state in states {
        let mut row = PagesItem::new(3);
        row.state = state;
        assert_eq!(2, row.pre_render(false, RowStyle::bookmarked()));
    }
}

#[test]
fn pre_render_applies_selection_style_only_when_selected() {
    let selection = RowStyle { fg: Some(7), bg: Some(4), modifiers: 1 };

    let mut row = PagesItem::new(3);
    row.pre_render(false, selection);
    assert_eq!(RowStyle::default(), row.style);

    row.pre_render(true, selection);
    assert_eq!(selection, row.style);
}

#[test]
fn finished_load_takes_the_full_width() {
    let mut row = PagesItem::new(9);
    row.state = PageItemState::FinishedLoad;
    assert_eq!(RowPlan::FullWidthLabel, row.plan());

    row.state = PageItemState::Loading;
    row.animation_phase = 3;
    assert_eq!(RowPlan::SplitWithSpinner { phase: 3 }, row.plan());

    row.state = PageItemState::FailedLoad;
    assert_eq!(RowPlan::SplitWithWarning, row.plan());

    row.state = PageItemState::Waiting;
    assert_eq!(RowPlan::SplitWithIdle, row.plan());
}

#[test]
fn first_render_prefocuses_bookmark_but_never_overrides_selection() {
    let mut page_list = PagesList::new(rows(3));
    let mut state = PagesListState::new(Some(2));
    assert_eq!(None, state.list_state.selected);

    page_list.prepare_render(&mut state);
    assert_eq!(Some(2), state.list_state.selected);
    assert_eq!(RowStyle::bookmarked(), page_list.pages[2].style);

    state.list_state.select(Some(0));
    page_list.prepare_render(&mut state);
    assert_eq!(Some(0), state.list_state.selected);
}

#[test]
fn render_without_bookmark_leaves_everything_alone() {
    let mut page_list = PagesList::new(rows(2));
    page_list.pages[0].style = RowStyle::bookmarked();
    let mut state = PagesListState::new(None);

    page_list.prepare_render(&mut state);

    assert_eq!(None, state.list_state.selected);
    assert_eq!(RowStyle::bookmarked(), page_list.pages[0].style);
    assert_eq!(None, state.page_bookmarked);
}

#[test]
fn set_page_bookmarked_lets_the_last_write_win() {
    let mut state = PagesListState::new(None);
    state.set_page_bookmarked(4);
    state.set_page_bookmarked(1);
    assert_eq!(Some(1), state.page_bookmarked);
}

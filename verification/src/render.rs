//! Drawing one row into the terminal buffer. The decision of what to draw
//! where is verified (see `PagesItem::plan`), and `render_into`'s contract
//! pins the whole draw as a composition of named drawing results: the
//! highlight painted first, then the label, then the state marker. What each
//! named result looks like cell by cell is delegated to the ratatui and
//! throbber widgets behind trusted wrappers.

use ratatui::style::Stylize;
use vstd::prelude::*;

use crate::row::{PagesItem, RowPlan, SPINNER_CYCLE};
use crate::style::RowStyle;

verus! {

/// A rectangular drawing area of the terminal, declared so that rows can
/// hand it through to the drawing layer.
#[verifier::external_type_specification]
#[verifier::external_body]
pub struct ExRect(ratatui::layout::Rect);

/// The terminal cell buffer rows draw into.
#[verifier::external_type_specification]
#[verifier::external_body]
pub struct ExBuffer(ratatui::buffer::Buffer);

/// The left and right half an area splits into under two fifty-percent
/// layout constraints.
pub uninterp spec fn split_halves(area: ratatui::layout::Rect) -> (
    ratatui::layout::Rect,
    ratatui::layout::Rect,
);

/// The buffer after the given style has been painted across the part of
/// `area` that lies within the buffer.
pub uninterp spec fn bg_painted(
    b: ratatui::buffer::Buffer,
    s: RowStyle,
    area: ratatui::layout::Rect,
) -> ratatui::buffer::Buffer;

/// The buffer after the word-wrapped, trimmed page label for page `number`
/// has been drawn into the part of `area` that lies within the buffer.
pub uninterp spec fn label_drawn(
    b: ratatui::buffer::Buffer,
    number: usize,
    area: ratatui::layout::Rect,
) -> ratatui::buffer::Buffer;

/// The buffer after the yellow six-frame braille spinner with its "Loading"
/// caption has been drawn at the given frame into the part of `area` that
/// lies within the buffer.
pub uninterp spec fn spinner_drawn(
    b: ratatui::buffer::Buffer,
    frame: u8,
    area: ratatui::layout::Rect,
) -> ratatui::buffer::Buffer;

/// The buffer after the bold red warning glyph has been drawn into the part
/// of `area` that lies within the buffer.
pub uninterp spec fn warning_drawn(
    b: ratatui::buffer::Buffer,
    area: ratatui::layout::Rect,
) -> ratatui::buffer::Buffer;

/// The buffer after the bold idle glyph has been drawn into the part of
/// `area` that lies within the buffer.
pub uninterp spec fn idle_drawn(
    b: ratatui::buffer::Buffer,
    area: ratatui::layout::Rect,
) -> ratatui::buffer::Buffer;

/// Relies on ratatui's Layout: two fifty-percent constraints split an area
/// into a left and a right half, deterministically from the area alone.
#[verifier::external_body]
fn split_half(area: ratatui::layout::Rect) -> (halves: (
    ratatui::layout::Rect,
    ratatui::layout::Rect,
))
    ensures
        halves == split_halves(area),
{
    let layout = ratatui::layout::Layout::horizontal([
        ratatui::layout::Constraint::Percentage(50),
        ratatui::layout::Constraint::Percentage(50),
    ]);
    let rects: [ratatui::layout::Rect; 2] = layout.areas(area);
    (rects[0], rects[1])
}

/// Relies on ratatui's Block widget: an empty block styled with the row
/// style paints the area with it before any text is drawn. Block itself
/// intersects the area with the buffer's own area first, so the call writes
/// no cell out of bounds; the result depends on its arguments alone.
#[verifier::external_body]
fn paint_background(style: &RowStyle, area: ratatui::layout::Rect, buf: &mut ratatui::buffer::Buffer)
    ensures
        *final(buf) == bg_painted(*old(buf), *style, area),
{
    let s = ratatui::style::Style {
        fg: style.fg.map(ratatui::style::Color::Indexed),
        bg: style.bg.map(ratatui::style::Color::Indexed),
        add_modifier: ratatui::style::Modifier::from_bits_truncate(style.modifiers),
        sub_modifier: ratatui::style::Modifier::empty(),
        ..Default::default()
    };
    ratatui::widgets::Widget::render(
        ratatui::widgets::Block::default().style(s),
        area,
        buf,
    );
}

/// Relies on ratatui's Paragraph widget: draws the word-wrapped, trimmed
/// page label into the given area. Paragraph writes at raw coordinates, so
/// the area is first clipped to the buffer's own area, as ratatui's Block
/// does itself; the call then cannot write out of bounds, and the result
/// depends on its arguments alone.
#[verifier::external_body]
fn draw_page_label(number: usize, area: ratatui::layout::Rect, buf: &mut ratatui::buffer::Buffer)
    ensures
        *final(buf) == label_drawn(*old(buf), number, area),
{
    let area = area.intersection(buf.area);
    let label = ratatui::widgets::Paragraph::new(format!("Page {}", number)).wrap(
        ratatui::widgets::Wrap { trim: true },
    );
    ratatui::widgets::Widget::render(label, area, buf);
}

/// Relies on throbber_widgets_tui's Throbber widget and ThrobberState:
/// `calc_step` moves the frame index by a nonzero step (a zero step would
/// pick a random frame), and rendering normalizes a negative index from the
/// tail of the six-frame braille set — so a step of `frame - 6` shows
/// exactly frame `frame` of the spinner, with its yellow "Loading" caption,
/// deterministically. The throbber guards the column but not the row, so
/// the area is first clipped to the buffer's own area, as ratatui's Block
/// does itself; the call then cannot write out of bounds.
#[verifier::external_body]
fn draw_spinner(step: i8, area: ratatui::layout::Rect, buf: &mut ratatui::buffer::Buffer)
    requires
        -6 <= step < 0,
    ensures
        *final(buf) == spinner_drawn(*old(buf), (step + 6) as u8, area),
{
    let area = area.intersection(buf.area);
    let throbber = throbber_widgets_tui::Throbber::default()
        .label("Loading")
        .style(ratatui::style::Style::default().fg(ratatui::style::Color::Yellow))
        .throbber_set(throbber_widgets_tui::BRAILLE_SIX)
        .use_type(throbber_widgets_tui::WhichUse::Spin);
    let mut spin_state = throbber_widgets_tui::ThrobberState::default();
    spin_state.calc_step(step);
    ratatui::widgets::StatefulWidget::render(throbber, area, buf, &mut spin_state);
}

/// Relies on ratatui's Paragraph widget: a bold red warning glyph for a
/// page whose load failed. The area is first clipped to the buffer's own
/// area, as ratatui's Block does itself, so the call cannot write out of
/// bounds; the result depends on its arguments alone.
#[verifier::external_body]
fn draw_warning(area: ratatui::layout::Rect, buf: &mut ratatui::buffer::Buffer)
    ensures
        *final(buf) == warning_drawn(*old(buf), area),
{
    let area = area.intersection(buf.area);
    let glyph = ratatui::widgets::Paragraph::new("⚠")
        .wrap(ratatui::widgets::Wrap { trim: true })
        .red()
        .bold();
    ratatui::widgets::Widget::render(glyph, area, buf);
}

/// Relies on ratatui's Paragraph widget: a bold idle glyph for a page that
/// still waits for its load to begin. The area is first clipped to the
/// buffer's own area, as ratatui's Block does itself, so the call cannot
/// write out of bounds; the result depends on its arguments alone.
#[verifier::external_body]
fn draw_idle(area: ratatui::layout::Rect, buf: &mut ratatui::buffer::Buffer)
    ensures
        *final(buf) == idle_drawn(*old(buf), area),
{
    let area = area.intersection(buf.area);
    let glyph = ratatui::widgets::Paragraph::new("💤").wrap(
        ratatui::widgets::Wrap { trim: true },
    ).bold();
    ratatui::widgets::Widget::render(glyph, area, buf);
}

/// The buffer after one whole row draw: the row's highlight painted across
/// the full area first — so it stays visible behind the text — then the
/// page label and the state marker where the layout plan puts them. The
/// label takes the entire width exactly when the page has finished loading;
/// every other state confines it to the left half and marks the right half
/// with its spinner frame, warning glyph, or idle glyph.
pub open spec fn row_drawn(
    r: PagesItem,
    area: ratatui::layout::Rect,
    b: ratatui::buffer::Buffer,
) -> ratatui::buffer::Buffer {
    let bg = bg_painted(b, r.style, area);
    let left = split_halves(area).0;
    let right = split_halves(area).1;
    match r.state {
        crate::row::PageItemState::FinishedLoad => label_drawn(bg, r.number, area),
        crate::row::PageItemState::Loading => spinner_drawn(
            label_drawn(bg, r.number, left),
            (r.animation_phase % SPINNER_CYCLE) as u8,
            right,
        ),
        crate::row::PageItemState::FailedLoad => warning_drawn(label_drawn(bg, r.number, left), right),
        crate::row::PageItemState::Waiting => idle_drawn(label_drawn(bg, r.number, left), right),
    }
}

impl PagesItem {
    /// Draw this row. The new buffer is exactly `row_drawn` of the row, the
    /// area and the old buffer: background first, then the label over the
    /// full width or the left half as the plan dictates, then the state
    /// marker on the right half — a pure function of its inputs, and the
    /// row itself never changes.
    pub fn render_into(&self, area: ratatui::layout::Rect, buf: &mut ratatui::buffer::Buffer)
        ensures
            *final(buf) == row_drawn(*self, area, *old(buf)),
    {
        paint_background(&self.style, area, buf);
        match self.plan() {
            RowPlan::FullWidthLabel => {
                draw_page_label(self.number, area, buf);
            },
            RowPlan::SplitWithSpinner { phase } => {
                let (left, right) = split_half(area);
                draw_page_label(self.number, left, buf);
                let frame = phase % SPINNER_CYCLE;
                let step: i8 = (frame as i8) - (SPINNER_CYCLE as i8);
                draw_spinner(step, right, buf);
            },
            RowPlan::SplitWithWarning => {
                let (left, right) = split_half(area);
                draw_page_label(self.number, left, buf);
                draw_warning(right, buf);
            },
            RowPlan::SplitWithIdle => {
                let (left, right) = split_half(area);
                draw_page_label(self.number, left, buf);
                draw_idle(right, buf);
            },
        }
    }
}

} // verus!

//! The calls into ratatui that put a screen into a cell buffer, each with a
//! name for what it produces.

use vstd::prelude::*;

use ratatui::buffer::Buffer;
use ratatui::layout::{Constraint, Layout, Rect};
use ratatui::style::{Color, Style, Stylize};
use ratatui::symbols::border;
use ratatui::text::{Line, Span};
use ratatui::widgets::{Block, Gauge, Paragraph, Widget};

use crate::view::{Extent, Hue};

verus! {

/// A rectangle of cells: its four fields are public in ratatui and plain
/// `u16`s here.
#[verifier::external_type_specification]
pub struct ExRect(Rect);

#[verifier::external_type_specification]
#[verifier::external_body]
pub struct ExBuffer(Buffer);

#[verifier::external_type_specification]
#[verifier::external_body]
pub struct ExColor(Color);

#[verifier::external_type_specification]
#[verifier::external_body]
pub struct ExStyle(Style);

/// The area that a buffer covers.
pub uninterp spec fn area_of(b: Buffer) -> Rect;

/// The colour that ratatui gives a hue.
pub uninterp spec fn hue_color(h: Hue) -> Color;

/// ratatui's default style.
pub uninterp spec fn default_style(u: ()) -> Style;

/// A style with its text colour set.
pub uninterp spec fn fg_set(s: Style, c: Color) -> Style;

/// A style with its background colour set.
pub uninterp spec fn bg_set(s: Style, c: Color) -> Style;

/// A style with the bold modifier added.
pub uninterp spec fn bold_set(s: Style) -> Style;

/// The three bands into which a vertical layout cuts an area.
pub uninterp spec fn rows_split(area: Rect, a: Extent, b: Extent, c: Extent, margin: u16) -> (
    Rect,
    Rect,
    Rect,
);

/// A buffer after the banner block is drawn into it.
pub uninterp spec fn banner_drawn(
    b: Buffer,
    area: Rect,
    title: Seq<(Seq<char>, Style)>,
    hints: Seq<(Seq<char>, Style)>,
) -> Buffer;

/// A buffer after a titled gauge is drawn into it.
pub uninterp spec fn gauge_drawn(
    b: Buffer,
    area: Rect,
    title: Seq<char>,
    percent: u16,
    label: Seq<char>,
    bar: Style,
) -> Buffer;

/// A buffer after a centred line is drawn into it.
pub uninterp spec fn line_drawn(b: Buffer, area: Rect, line: Seq<(Seq<char>, Style)>) -> Buffer;

/// The texts of a styled line as characters, each with its style.
pub open spec fn spans_view(v: Seq<(String, Style)>) -> Seq<(Seq<char>, Style)> {
    v.map_values(|p: (String, Style)| (p.0@, p.1))
}

/// A line short enough for ratatui's title placement, which adds one to the
/// line's width in a `u16`: at most 16 spans of at most 2000 characters, and
/// no character is more than two columns wide.
pub open spec fn short_line(ps: Seq<(Seq<char>, Style)>) -> bool {
    ps.len() <= 16 && forall|i: int| 0 <= i < ps.len() ==> (#[trigger] ps[i]).0.len() <= 2000
}

/// `r` lies inside `outer`, and `outer` inside the `u16` plane.
pub open spec fn within(r: Rect, outer: Rect) -> bool {
    outer.x <= r.x && outer.y <= r.y && r.x + r.width <= outer.x + outer.width && r.y + r.height
        <= outer.y + outer.height && outer.x + outer.width <= u16::MAX && outer.y + outer.height
        <= u16::MAX
}

/// `area` less a border of one cell on each side: ratatui's `Block::inner`
/// of a block with all four borders and no padding.
pub open spec fn border_inside(area: Rect) -> Rect {
    Rect {
        x: if area.width == 0 { area.x } else { (area.x + 1) as u16 },
        y: if area.height == 0 { area.y } else { (area.y + 1) as u16 },
        width: if area.width >= 2 { (area.width - 2) as u16 } else { 0 },
        height: if area.height >= 2 { (area.height - 2) as u16 } else { 0 },
    }
}

/// Relies on ratatui's public field `Buffer::area`.
#[verifier::external_body]
pub(crate) fn buffer_area(buf: &Buffer) -> (r: Rect)
    ensures
        r == area_of(*buf),
{
    buf.area
}

/// Relies on ratatui's `Color`: names the colour of each hue.
#[verifier::external_body]
pub(crate) fn color_of(h: Hue) -> (r: Color)
    ensures
        r == hue_color(h),
{
    match h {
        Hue::Yellow => Color::Yellow,
        Hue::LightGreen => Color::LightGreen,
        Hue::LightRed => Color::LightRed,
        Hue::Green => Color::Green,
        Hue::Magenta => Color::Magenta,
        Hue::Cyan => Color::Cyan,
        Hue::Blue => Color::Blue,
        Hue::DarkGray => Color::DarkGray,
    }
}

/// Relies on ratatui's `Style::default`: no colour, no modifier.
#[verifier::external_body]
pub(crate) fn plain_style() -> (r: Style)
    ensures
        r == default_style(()),
{
    Style::default()
}

/// Relies on ratatui's `Style::fg`: sets the text colour.
#[verifier::external_body]
pub(crate) fn with_fg(s: Style, c: Color) -> (r: Style)
    ensures
        r == fg_set(s, c),
{
    s.fg(c)
}

/// Relies on ratatui's `Style::bg`: sets the background colour.
#[verifier::external_body]
pub(crate) fn with_bg(s: Style, c: Color) -> (r: Style)
    ensures
        r == bg_set(s, c),
{
    s.bg(c)
}

/// Relies on ratatui's `Stylize::bold` on a `Style`: adds the bold modifier.
#[verifier::external_body]
pub(crate) fn with_bold(s: Style) -> (r: Style)
    ensures
        r == bold_set(s),
{
    s.bold()
}

/// Relies on ratatui's vertical `Layout` (`constraints`, `margin`, `split`):
/// cuts `area`, less `margin` on every side, into three bands from the top.
#[verifier::external_body]
pub(crate) fn split_rows(area: Rect, a: Extent, b: Extent, c: Extent, margin: u16) -> (r: (
    Rect,
    Rect,
    Rect,
))
    ensures
        r == rows_split(area, a, b, c, margin),
{
    let cons = [a, b, c].map(|e| match e {
        Extent::Exact(n) => Constraint::Length(n),
        Extent::AtLeast(n) => Constraint::Min(n),
    });
    let rows = Layout::vertical(cons).margin(margin).split(area);
    (rows[0], rows[1], rows[2])
}

/// Relies on ratatui's `Span::styled` and `Line::from` (one span per text,
/// in order) and `Block::bordered` with the thick border set, which clips
/// `area` to the buffer before drawing: draws the frame of `area` with
/// `title` centred on its top edge and `hints` centred on its bottom edge.
/// Centring a title computes its width plus one in a `u16`, hence the bound
/// on both lines. Only cells change, never the buffer's area.
#[verifier::external_body]
pub(crate) fn draw_banner(buf: &mut Buffer, area: Rect, title: &Vec<(String, Style)>, hints: &Vec<(String, Style)>)
    requires
        short_line(spans_view(title@)),
        short_line(spans_view(hints@)),
    ensures
        *final(buf) == banner_drawn(*old(buf), area, spans_view(title@), spans_view(hints@)),
        area_of(*final(buf)) == area_of(*old(buf)),
{
    let line = |ps: &Vec<(String, Style)>| {
        Line::from(ps.iter().map(|(t, s)| Span::styled(t.clone(), *s)).collect::<Vec<Span>>())
    };
    Block::bordered()
        .title(line(title).centered())
        .title_bottom(line(hints).centered())
        .border_set(border::THICK)
        .render(area, buf);
}

/// Relies on ratatui's `Gauge` (`percent`, which panics above 100, and
/// `label`) framed by `Block::bordered` titled `title`: draws it in `area`,
/// which must lie in the buffer, since the gauge indexes cells without
/// clipping. Placing the title computes its width plus one in a `u16`, hence
/// the bound on its length. Only cells change, never the buffer's area.
#[verifier::external_body]
pub(crate) fn draw_gauge(buf: &mut Buffer, area: Rect, title: &str, percent: u16, label: &str, bar: Style)
    requires
        percent <= 100,
        title@.len() <= 2000,
        within(area, area_of(*old(buf))),
    ensures
        *final(buf) == gauge_drawn(*old(buf), area, title@, percent, label@, bar),
        area_of(*final(buf)) == area_of(*old(buf)),
{
    Gauge::default()
        .block(Block::bordered().title(title.to_string()))
        .gauge_style(bar)
        .percent(percent)
        .label(label.to_string())
        .render(area, buf);
}

/// Relies on ratatui's `Block::inner` of a `Block::bordered`, computed with
/// saturating arithmetic: `area` less its border.
#[verifier::external_body]
pub(crate) fn inside_border(area: Rect) -> (r: Rect)
    requires
        area.x + area.width <= u16::MAX,
        area.y + area.height <= u16::MAX,
    ensures
        r == border_inside(area),
{
    Block::bordered().inner(area)
}

/// Relies on ratatui's `Span::styled` and `Line::from` (one span per text,
/// in order) and `Paragraph`: draws the line centred in `area`, which must lie
/// in the buffer, since the paragraph indexes cells without clipping. Only
/// cells change, never the buffer's area.
#[verifier::external_body]
pub(crate) fn draw_line(buf: &mut Buffer, area: Rect, line: &Vec<(String, Style)>)
    requires
        within(area, area_of(*old(buf))),
    ensures
        *final(buf) == line_drawn(*old(buf), area, spans_view(line@)),
        area_of(*final(buf)) == area_of(*old(buf)),
{
    let spans: Vec<Span> = line.iter().map(|(t, s)| Span::styled(t.clone(), *s)).collect();
    Paragraph::new(Line::from(spans).centered()).render(area, buf);
}

} // verus!

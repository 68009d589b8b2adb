//! What the counter screen shows, computed from the state, and how it is
//! laid out.

use vstd::prelude::*;
use vstd::string::*;

use ratatui::buffer::Buffer;
use ratatui::layout::Rect;
use ratatui::style::Style;

use crate::counter::{App, AppModel};
use crate::draw::{
    area_of, banner_drawn, bg_set, bold_set, border_inside, buffer_area, color_of, default_style,
    draw_banner, draw_gauge, draw_line, fg_set, gauge_drawn, hue_color, inside_border, line_drawn,
    plain_style, rows_split, short_line, spans_view, split_rows, with_bg, with_bold, with_fg, within,
};
use crate::text::{i32_text, int_text};

verus! {

/// A colour of the screen.
#[derive(Clone, Copy, Debug, PartialEq, Eq, Structural)]
pub enum Hue {
    Yellow,
    LightGreen,
    LightRed,
    Green,
    Magenta,
    Cyan,
    Blue,
    DarkGray,
}

/// How a piece of text is drawn: colour and weight.
#[derive(Clone, Copy, Debug, PartialEq, Eq, Structural)]
pub enum Tint {
    Plain,
    Bold,
    In(Hue),
    BoldIn(Hue),
}

/// The height of a band of the screen: exactly `n` rows, or at least `n`.
#[derive(Clone, Copy, Debug, PartialEq, Eq, Structural)]
pub enum Extent {
    Exact(u16),
    AtLeast(u16),
}

/// A run of text with one tint.
pub struct Piece {
    pub text: String,
    pub tint: Tint,
}

/// A titled gauge with its fill in percent, its label, its colours, and a
/// caption line drawn over it.
pub struct GaugePanel {
    pub title: String,
    pub percent: u16,
    pub label: String,
    pub bar: Hue,
    pub track: Hue,
    pub caption: Vec<Piece>,
}

/// Everything the screen shows: the banner's title and key hints, the two
/// gauge panels, and the message line when there is a message.
pub struct Screen {
    pub title: Vec<Piece>,
    pub hints: Vec<Piece>,
    pub counter: GaugePanel,
    pub rounds: GaugePanel,
    pub message: Option<Vec<Piece>>,
}

/// The mathematical content of a [`GaugePanel`]; each piece of text is its
/// characters and its tint.
pub struct GaugeModel {
    pub title: Seq<char>,
    pub percent: int,
    pub label: Seq<char>,
    pub bar: Hue,
    pub track: Hue,
    pub caption: Seq<(Seq<char>, Tint)>,
}

/// The mathematical content of a [`Screen`].
pub struct ScreenModel {
    pub title: Seq<(Seq<char>, Tint)>,
    pub hints: Seq<(Seq<char>, Tint)>,
    pub counter: GaugeModel,
    pub rounds: GaugeModel,
    pub message: Option<Seq<(Seq<char>, Tint)>>,
}

/// Each piece as its characters and its tint.
pub open spec fn pieces_model(v: Seq<Piece>) -> Seq<(Seq<char>, Tint)> {
    v.map_values(|p: Piece| (p.text@, p.tint))
}

impl View for GaugePanel {
    type V = GaugeModel;

    open spec fn view(&self) -> GaugeModel {
        GaugeModel {
            title: self.title@,
            percent: self.percent as int,
            label: self.label@,
            bar: self.bar,
            track: self.track,
            caption: pieces_model(self.caption@),
        }
    }
}

impl View for Screen {
    type V = ScreenModel;

    open spec fn view(&self) -> ScreenModel {
        ScreenModel {
            title: pieces_model(self.title@),
            hints: pieces_model(self.hints@),
            counter: self.counter@,
            rounds: self.rounds@,
            message: match self.message {
                Some(m) => Some(pieces_model(m@)),
                None => None,
            },
        }
    }
}

/// `100 * num / den` rounded to the nearest integer, a tie going to the even
/// neighbour.
pub open spec fn rounded_percent(num: int, den: int) -> int {
    let q = 100 * num / den;
    let r = 100 * num % den;
    if 2 * r > den {
        q + 1
    } else if 2 * r == den {
        q + q % 2
    } else {
        q
    }
}

/// The fill of the counter gauge in percent: the share of the upper bound
/// reached, kept within `[0, 100]`; none for a negative counter or a negative
/// bound, full for a zero bound.
pub open spec fn counter_percent(counter: int, max_counter: int) -> int {
    if counter < 0 || max_counter < 0 {
        0
    } else if max_counter == 0 || counter >= max_counter {
        100
    } else {
        rounded_percent(counter, max_counter)
    }
}

/// The fill of the round gauge in percent: the share of the target reached,
/// kept within `[0, 100]`; none when the target is not positive.
pub open spec fn round_percent(rounds: int, max_rounds: int) -> int {
    if max_rounds <= 0 || rounds <= 0 {
        0
    } else if rounds >= max_rounds {
        100
    } else {
        rounded_percent(rounds, max_rounds)
    }
}

/// The colour of the counter's value: green above zero, red below, yellow at
/// zero.
pub open spec fn counter_hue(counter: int) -> Hue {
    if counter > 0 {
        Hue::LightGreen
    } else if counter < 0 {
        Hue::LightRed
    } else {
        Hue::Yellow
    }
}

/// What the screen shows for a state: the title and key hints; the counter
/// gauge with its fill in percent, that number followed by `%` as its label,
/// and the counter's value in its colour; the round gauge with its fill, the
/// round count over the target as its label, and the round count; and the
/// message line in yellow when there is a message.
pub open spec fn screen_model(v: AppModel) -> ScreenModel {
    let cp = counter_percent(v.counter, v.max_counter);
    ScreenModel {
        title: seq![(" Compteur Avancé "@, Tint::Bold)],
        hints: seq![
            (" Décrémenter "@, Tint::Plain),
            ("<Gauche>"@, Tint::BoldIn(Hue::Blue)),
            (" Incrémenter "@, Tint::Plain),
            ("<Droite>"@, Tint::BoldIn(Hue::Blue)),
            (" Quitter "@, Tint::Plain),
            ("<Q> "@, Tint::BoldIn(Hue::Blue)),
        ],
        counter: GaugeModel {
            title: "Progression Compteur"@,
            percent: cp,
            label: int_text(cp) + "%"@,
            bar: Hue::Green,
            track: Hue::DarkGray,
            caption: seq![
                ("Valeur: "@, Tint::Plain),
                (int_text(v.counter), Tint::BoldIn(counter_hue(v.counter))),
            ],
        },
        rounds: GaugeModel {
            title: "Objectif Tours"@,
            percent: round_percent(v.round_counter, v.max_rounds),
            label: int_text(v.round_counter) + "/"@ + int_text(v.max_rounds),
            bar: Hue::Magenta,
            track: Hue::DarkGray,
            caption: seq![
                ("Tours: "@, Tint::Plain),
                (int_text(v.round_counter), Tint::BoldIn(Hue::Cyan)),
            ],
        },
        message: if v.message.len() == 0 {
            None
        } else {
            Some(seq![(v.message, Tint::In(Hue::Yellow))])
        },
    }
}

/// The share `num / den` in percent, rounded to nearest, ties to even.
fn share_percent(num: u64, den: u64) -> (r: u16)
    requires
        num < den,
        den <= 0x1_0000_0000,
    ensures
        r as int == rounded_percent(num as int, den as int),
        r <= 100,
{
    assert(100 * num < 100 * den) by (nonlinear_arith)
        requires num < den;
    let p: u64 = 100 * num;
    let q: u64 = p / den;
    let r: u64 = p % den;
    assert(q < 100) by (nonlinear_arith)
        requires q == p / den, p < 100 * den, den > 0;
    if 2 * r > den {
        (q + 1) as u16
    } else if 2 * r == den {
        (q + q % 2) as u16
    } else {
        q as u16
    }
}

/// The fill of the counter gauge in percent.
pub fn gauge_percent(counter: i8, max_counter: i8) -> (r: u16)
    ensures
        r as int == counter_percent(counter as int, max_counter as int),
        r <= 100,
{
    if counter < 0 || max_counter < 0 {
        0
    } else if max_counter == 0 || counter >= max_counter {
        100
    } else {
        share_percent(counter as u64, max_counter as u64)
    }
}

/// The fill of the round gauge in percent.
pub fn rounds_percent(rounds: i32, max_rounds: i32) -> (r: u16)
    ensures
        r as int == round_percent(rounds as int, max_rounds as int),
        r <= 100,
{
    if max_rounds <= 0 || rounds <= 0 {
        0
    } else if rounds >= max_rounds {
        100
    } else {
        share_percent(rounds as u64, max_rounds as u64)
    }
}

/// The colour of the counter's value.
pub fn value_hue(counter: i8) -> (r: Hue)
    ensures
        r == counter_hue(counter as int),
{
    if counter > 0 {
        Hue::LightGreen
    } else if counter < 0 {
        Hue::LightRed
    } else {
        Hue::Yellow
    }
}

fn piece(text: &str, tint: Tint) -> (r: Piece)
    ensures
        r.text@ == text@,
        r.tint == tint,
{
    Piece { text: String::from_str(text), tint }
}

impl App {
    /// What the screen shows for this state.
    pub fn screen(&self) -> (r: Screen)
        ensures
            r@ == screen_model(self@),
            r.counter.percent <= 100,
            r.rounds.percent <= 100,
    {
        let title = vec![piece(" Compteur Avancé ", Tint::Bold)];
        let hints = vec![
            piece(" Décrémenter ", Tint::Plain),
            piece("<Gauche>", Tint::BoldIn(Hue::Blue)),
            piece(" Incrémenter ", Tint::Plain),
            piece("<Droite>", Tint::BoldIn(Hue::Blue)),
            piece(" Quitter ", Tint::Plain),
            piece("<Q> ", Tint::BoldIn(Hue::Blue)),
        ];

        let cp = gauge_percent(self.counter, self.max_counter);
        let mut counter_label = i32_text(cp as i32);
        counter_label.append("%");
        let counter_caption = vec![
            piece("Valeur: ", Tint::Plain),
            Piece { text: i32_text(self.counter as i32), tint: Tint::BoldIn(value_hue(self.counter)) },
        ];
        let counter = GaugePanel {
            title: String::from_str("Progression Compteur"),
            percent: cp,
            label: counter_label,
            bar: Hue::Green,
            track: Hue::DarkGray,
            caption: counter_caption,
        };

        let mut round_label = i32_text(self.round_counter);
        round_label.append("/");
        let max_text = i32_text(self.max_rounds);
        round_label.append(max_text.as_str());
        let round_caption = vec![
            piece("Tours: ", Tint::Plain),
            Piece { text: i32_text(self.round_counter), tint: Tint::BoldIn(Hue::Cyan) },
        ];
        let rounds = GaugePanel {
            title: String::from_str("Objectif Tours"),
            percent: rounds_percent(self.round_counter, self.max_rounds),
            label: round_label,
            bar: Hue::Magenta,
            track: Hue::DarkGray,
            caption: round_caption,
        };

        let message = if self.message.as_str().is_empty() {
            None
        } else {
            Some(vec![Piece { text: self.message.clone(), tint: Tint::In(Hue::Yellow) }])
        };

        let r = Screen { title, hints, counter, rounds, message };
        let ghost m = screen_model(self@);
        assert(r@.title =~= m.title);
        assert(r@.hints =~= m.hints);
        assert(r@.counter.caption =~= m.counter.caption);
        assert(r@.rounds.caption =~= m.rounds.caption);
        assert(r@.counter.label =~= m.counter.label);
        assert(r@.rounds.label =~= m.rounds.label);
        if self.message.as_str().is_empty() {
        } else {
            assert(pieces_model(r.message->Some_0@) =~= m.message->Some_0);
        }
        r
    }

    /// Draws this state into `buf` over `area`, clipped to the buffer: a
    /// banner band of four rows at the top, a message row at the bottom, and
    /// between them, inside a margin of one cell, the counter panel and the
    /// round panel of four rows each. A band that does not lie in the buffer
    /// is left out.
    pub fn render(&self, area: Rect, buf: &mut Buffer)
        ensures
            *final(buf) == frame_drawn(*old(buf), area, screen_model(self@)),
    {
        let s = self.screen();
        proof {
            texts_are_short(self@);
        }
        let bounds = buffer_area(buf);
        let clipped = clip_rect(area, bounds);
        let (head, body, foot) = split_rows(clipped, Extent::Exact(4), Extent::AtLeast(0), Extent::Exact(1), 0);
        draw_banner(buf, head, &styled_texts(&s.title), &styled_texts(&s.hints));
        let (top, middle, _rest) = split_rows(body, Extent::Exact(4), Extent::Exact(4), Extent::AtLeast(0), 1);
        draw_panel(buf, bounds, top, &s.counter);
        draw_panel(buf, bounds, middle, &s.rounds);
        match &s.message {
            Some(line) => {
                if fits(foot, bounds) {
                    draw_line(buf, foot, &styled_texts(line));
                }
            },
            None => {},
        }
    }
}

/// The style of a tint.
pub open spec fn tint_model(t: Tint) -> Style {
    match t {
        Tint::Plain => default_style(()),
        Tint::Bold => bold_set(default_style(())),
        Tint::In(h) => fg_set(default_style(()), hue_color(h)),
        Tint::BoldIn(h) => bold_set(fg_set(default_style(()), hue_color(h))),
    }
}

/// Each piece with the style of its tint.
pub open spec fn line_model(ps: Seq<(Seq<char>, Tint)>) -> Seq<(Seq<char>, Style)> {
    ps.map_values(|p: (Seq<char>, Tint)| (p.0, tint_model(p.1)))
}

/// The banner's texts and the gauge titles are short enough to be placed.
proof fn texts_are_short(v: AppModel)
    ensures
        short_line(line_model(screen_model(v).title)),
        short_line(line_model(screen_model(v).hints)),
        screen_model(v).counter.title.len() <= 2000,
        screen_model(v).rounds.title.len() <= 2000,
{
    reveal_strlit(" Compteur Avancé ");
    reveal_strlit(" Décrémenter ");
    reveal_strlit("<Gauche>");
    reveal_strlit(" Incrémenter ");
    reveal_strlit("<Droite>");
    reveal_strlit(" Quitter ");
    reveal_strlit("<Q> ");
    reveal_strlit("Progression Compteur");
    reveal_strlit("Objectif Tours");
    let m = screen_model(v);
    assert(line_model(m.hints)[0].0 == " Décrémenter "@);
    assert(line_model(m.hints)[1].0 == "<Gauche>"@);
    assert(line_model(m.hints)[2].0 == " Incrémenter "@);
    assert(line_model(m.hints)[3].0 == "<Droite>"@);
    assert(line_model(m.hints)[4].0 == " Quitter "@);
    assert(line_model(m.hints)[5].0 == "<Q> "@);
    assert(line_model(m.title)[0].0 == " Compteur Avancé "@);
}

/// The part of `area` that lies in `outer`; an empty rectangle at the corner
/// of `outer` when they do not meet.
pub open spec fn clip(area: Rect, outer: Rect) -> Rect {
    let x0 = if area.x >= outer.x { area.x as int } else { outer.x as int };
    let y0 = if area.y >= outer.y { area.y as int } else { outer.y as int };
    let x1 = if area.x + area.width <= outer.x + outer.width { area.x + area.width } else { outer.x + outer.width };
    let y1 = if area.y + area.height <= outer.y + outer.height { area.y + area.height } else { outer.y + outer.height };
    if x1 < x0 || y1 < y0 {
        Rect { x: outer.x, y: outer.y, width: 0, height: 0 }
    } else {
        Rect { x: x0 as u16, y: y0 as u16, width: (x1 - x0) as u16, height: (y1 - y0) as u16 }
    }
}

/// A buffer after a gauge panel is drawn into `area`: the gauge, then its
/// caption inside the gauge's border; unchanged when `area` does not lie in
/// `bounds`.
pub open spec fn panel_drawn(b: Buffer, bounds: Rect, area: Rect, g: GaugeModel) -> Buffer {
    if within(area, bounds) {
        let bar = bg_set(fg_set(default_style(()), hue_color(g.bar)), hue_color(g.track));
        let b1 = gauge_drawn(b, area, g.title, g.percent as u16, g.label, bar);
        line_drawn(b1, border_inside(area), line_model(g.caption))
    } else {
        b
    }
}

/// The buffer after the whole screen `s` is drawn into `area` of `b`.
pub open spec fn frame_drawn(b: Buffer, area: Rect, s: ScreenModel) -> Buffer {
    let bounds = area_of(b);
    let bands = rows_split(clip(area, bounds), Extent::Exact(4), Extent::AtLeast(0), Extent::Exact(1), 0);
    let b1 = banner_drawn(b, bands.0, line_model(s.title), line_model(s.hints));
    let panels = rows_split(bands.1, Extent::Exact(4), Extent::Exact(4), Extent::AtLeast(0), 1);
    let b2 = panel_drawn(b1, bounds, panels.0, s.counter);
    let b3 = panel_drawn(b2, bounds, panels.1, s.rounds);
    match s.message {
        Some(m) => if within(bands.2, bounds) { line_drawn(b3, bands.2, line_model(m)) } else { b3 },
        None => b3,
    }
}

/// Whether `r` lies in `outer`.
fn fits(r: Rect, outer: Rect) -> (ok: bool)
    ensures
        ok == within(r, outer),
{
    let ox = outer.x as u32;
    let oy = outer.y as u32;
    let ow = outer.width as u32;
    let oh = outer.height as u32;
    ox <= r.x as u32 && oy <= r.y as u32 && r.x as u32 + r.width as u32 <= ox + ow && r.y as u32
        + r.height as u32 <= oy + oh && ox + ow <= 0xffff && oy + oh <= 0xffff
}

/// The part of `area` that lies in `outer`.
fn clip_rect(area: Rect, outer: Rect) -> (r: Rect)
    ensures
        r == clip(area, outer),
{
    let x0: u32 = if area.x >= outer.x { area.x as u32 } else { outer.x as u32 };
    let y0: u32 = if area.y >= outer.y { area.y as u32 } else { outer.y as u32 };
    let x1: u32 = if area.x as u32 + area.width as u32 <= outer.x as u32 + outer.width as u32 {
        area.x as u32 + area.width as u32
    } else {
        outer.x as u32 + outer.width as u32
    };
    let y1: u32 = if area.y as u32 + area.height as u32 <= outer.y as u32 + outer.height as u32 {
        area.y as u32 + area.height as u32
    } else {
        outer.y as u32 + outer.height as u32
    };
    if x1 < x0 || y1 < y0 {
        Rect { x: outer.x, y: outer.y, width: 0, height: 0 }
    } else {
        Rect { x: x0 as u16, y: y0 as u16, width: (x1 - x0) as u16, height: (y1 - y0) as u16 }
    }
}

/// The style of a tint.
fn tint_style(t: Tint) -> (r: Style)
    ensures
        r == tint_model(t),
{
    match t {
        Tint::Plain => plain_style(),
        Tint::Bold => with_bold(plain_style()),
        Tint::In(h) => with_fg(plain_style(), color_of(h)),
        Tint::BoldIn(h) => with_bold(with_fg(plain_style(), color_of(h))),
    }
}

/// Each piece's text with the style of its tint, in order.
fn styled_texts(pieces: &Vec<Piece>) -> (r: Vec<(String, Style)>)
    ensures
        spans_view(r@) == line_model(pieces_model(pieces@)),
{
    let mut out: Vec<(String, Style)> = Vec::new();
    let mut k: usize = 0;
    assert(spans_view(out@) =~= line_model(pieces_model(pieces@.subrange(0, 0))));
    while k < pieces.len()
        invariant
            0 <= k <= pieces.len(),
            out@.len() == k,
            spans_view(out@) == line_model(pieces_model(pieces@.subrange(0, k as int))),
        decreases pieces.len() - k,
    {
        let ghost before = out@;
        let text = pieces[k].text.clone();
        let style = tint_style(pieces[k].tint);
        out.push((text, style));
        let ghost want = line_model(pieces_model(pieces@.subrange(0, k + 1)));
        assert forall|i: int| 0 <= i < k + 1 implies spans_view(out@)[i] == want[i] by {
            if i < k {
                assert(out@[i] == before[i]);
                assert(spans_view(before)[i] == line_model(pieces_model(pieces@.subrange(0, k as int)))[i]);
            }
        }
        assert(spans_view(out@) =~= want);
        k = k + 1;
    }
    assert(pieces@.subrange(0, k as int) =~= pieces@);
    out
}

/// Draws a gauge panel into `area` when it lies in `bounds`, the buffer's
/// area: the bar in its colour over its track colour, and the caption
/// centred inside the gauge's border.
fn draw_panel(buf: &mut Buffer, bounds: Rect, area: Rect, panel: &GaugePanel)
    requires
        panel.percent <= 100,
        panel.title@.len() <= 2000,
        area_of(*old(buf)) == bounds,
    ensures
        *final(buf) == panel_drawn(*old(buf), bounds, area, panel@),
        area_of(*final(buf)) == bounds,
{
    if fits(area, bounds) {
        let bar = with_bg(with_fg(plain_style(), color_of(panel.bar)), color_of(panel.track));
        draw_gauge(buf, area, panel.title.as_str(), panel.percent, panel.label.as_str(), bar);
        let inner = inside_border(area);
        draw_line(buf, inner, &styled_texts(&panel.caption));
    }
}

proof fn rounded_percent_bounds(num: int, den: int)
    requires
        0 <= num < den,
    ensures
        0 <= rounded_percent(num, den) <= 100,
{
    let q = 100 * num / den;
    let r = 100 * num % den;
    assert(0 <= q < 100 && 0 <= r < den) by (nonlinear_arith)
        requires q == 100 * num / den, r == 100 * num % den, 0 <= num < den;
}

/// Both gauges always show a fill within `[0, 100]` percent.
pub proof fn gauge_fill_bounds(v: AppModel)
    ensures
        0 <= screen_model(v).counter.percent <= 100,
        0 <= screen_model(v).rounds.percent <= 100,
{
    if 0 <= v.counter < v.max_counter {
        rounded_percent_bounds(v.counter, v.max_counter);
    }
    if 0 < v.round_counter < v.max_rounds {
        rounded_percent_bounds(v.round_counter, v.max_rounds);
    }
}

/// Past its target, the round gauge is exactly full, while its label still
/// shows the true round count.
pub proof fn round_gauge_saturates(v: AppModel)
    requires
        v.max_rounds > 0,
        v.round_counter > v.max_rounds,
    ensures
        screen_model(v).rounds.percent == 100,
        screen_model(v).rounds.label == int_text(v.round_counter) + "/"@ + int_text(v.max_rounds),
{
}

/// Drawing is a function of the state, the area and the buffer drawn into:
/// drawing an unchanged state into the same area of equal buffers gives equal
/// buffers.
pub proof fn render_is_repeatable(b: Buffer, area: Rect, s: AppModel, t: AppModel)
    requires
        s == t,
    ensures
        frame_drawn(b, area, screen_model(s)) == frame_drawn(b, area, screen_model(t)),
{
}

} // verus!

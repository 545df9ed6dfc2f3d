//! Display segments: each pairs one metric's snapshot type with a fixed
//! pixel width and a render function producing the protocol text drawn at
//! the position the layout engine assigns. Widths are fixed at construction;
//! rendering never changes them.

use vstd::prelude::*;
use vstd::string::*;

use crate::color::color_string;
use crate::color::string_push;
use crate::color::Color;
use crate::colormap::ColorMap;
use crate::draw;
use crate::draw::push_str;
use crate::draw::spec_bar;
use crate::draw::spec_space;
use crate::numfmt::push_u64;
use crate::numfmt::spec_digits;
use crate::tick;
use crate::tick::spec_rate;
use crate::tick::BatteryState;

verus! {

/// A wall-clock time as plain calendar fields, in the zone the runtime
/// sampled it in. The year is an `i16`, the calendar type's own range, so
/// every field reaches the formatter as itself.
#[derive(Copy, Clone, Debug, PartialEq, Eq, Structural)]
pub struct ClockTime {
    pub year: i16,
    pub month: u8,
    pub day: u8,
    pub hour: u8,
    pub minute: u8,
    pub second: u8,
}

/// What formatting a calendar time with a strftime format string yields:
/// a function of the fields and the format alone, or nothing when the fields
/// are no valid date or the format is malformed.
pub uninterp spec fn strftime_of(
    year: int,
    month: int,
    day: int,
    hour: int,
    minute: int,
    second: int,
    fmt: Seq<char>,
) -> Option<Seq<char>>;

/// Relies on jiff's `civil::DateTime` strftime formatting: the text depends
/// on the calendar fields and the format string alone, and formatting fails
/// only on an invalid date or a malformed format.
#[verifier::external_body]
fn strftime(t: &ClockTime, fmt: &str) -> (r: Option<String>)
    ensures
        r is Some <==> strftime_of(
            t.year as int,
            t.month as int,
            t.day as int,
            t.hour as int,
            t.minute as int,
            t.second as int,
            fmt@,
        ) is Some,
        r matches Some(s) ==> s@ == strftime_of(
            t.year as int,
            t.month as int,
            t.day as int,
            t.hour as int,
            t.minute as int,
            t.second as int,
            fmt@,
        ).unwrap(),
{
    let dt = jiff::civil::DateTime::new(
        t.year,
        t.month as i8,
        t.day as i8,
        t.hour as i8,
        t.minute as i8,
        t.second as i8,
        0,
    ).ok()?;
    jiff::fmt::strtime::format(fmt, dt).ok()
}

/// The `^fg(#rrggbb)` command selecting a color, as a sequence.
pub open spec fn spec_fg(c: Color) -> Seq<char> {
    seq!['^', 'f', 'g', '('] + color_string(c) + seq![')']
}

/// A value clamped into the colormap's `i64` domain.
pub open spec fn clamp_map_input(v: int) -> int {
    if v > i64::MAX {
        i64::MAX as int
    } else {
        v
    }
}

fn clamp_u64_to_i64(v: u64) -> (r: i64)
    ensures
        r as int == clamp_map_input(v as int),
{
    if v > i64::MAX as u64 {
        i64::MAX
    } else {
        v as i64
    }
}

/// A permille value clamped to the gauge's domain: readings above full
/// (which a noisy sampler can produce) draw as full, never corrupt layout.
pub open spec fn clamp_permille(v: int) -> int {
    if v > 1000 {
        1000
    } else {
        v
    }
}

fn clamp_permille_exec(v: u32) -> (r: u32)
    ensures
        r as int == clamp_permille(v as int),
        r <= 1000,
{
    if v > 1000 {
        1000
    } else {
        v
    }
}

/// The clock segment: the sampled time rendered through a strftime format,
/// in a fixed color.
#[derive(Clone, Debug)]
pub struct Clock {
    pub color: Color,
    pub format: String,
    pub width: u32,
}

impl Clock {
    /// A clock wide enough for `num_chars` glyphs plus padding.
    pub fn new(color: Color, format: String, num_chars: u32, padding: u32, char_width: u32) -> (c:
        Clock)
        requires
            char_width * num_chars + padding <= u32::MAX,
        ensures
            c.width == char_width * num_chars + padding,
            c.color == color,
            c.format == format,
    {
        Clock { color, format, width: char_width * num_chars + padding }
    }

    /// The width of the segment in pixels.
    pub fn width(&self) -> (w: u32)
        ensures
            w == self.width,
    {
        self.width
    }

    /// The time in the segment's color: the color command, then the
    /// formatted text. Nothing when the format string or date is invalid.
    pub fn render(&self, t: &ClockTime) -> (r: Option<String>)
        ensures
            r is Some <==> strftime_of(
                t.year as int,
                t.month as int,
                t.day as int,
                t.hour as int,
                t.minute as int,
                t.second as int,
                self.format@,
            ) is Some,
            r matches Some(s) ==> s@ == spec_fg(self.color) + strftime_of(
                t.year as int,
                t.month as int,
                t.day as int,
                t.hour as int,
                t.minute as int,
                t.second as int,
                self.format@,
            ).unwrap(),
    {
        let text = match strftime(t, self.format.as_str()) {
            Some(text) => text,
            None => {
                return None;
            },
        };
        Some(render_time_text(self.color, &text))
    }
}

/// The clock's rendered line for an already formatted time text: the color
/// command, then the text unchanged.
pub fn render_time_text(color: Color, text: &String) -> (r: String)
    ensures
        r@ == spec_fg(color) + text@,
{
    let mut s = String::new();
    draw::push_fg(&mut s, color);
    push_str(&mut s, text.as_str());
    assert(s@ =~= spec_fg(color) + text@);
    s
}

/// The memory segment: available bytes, colored by a table over bytes.
#[derive(Clone, Debug)]
pub struct Memory {
    pub colormap: ColorMap,
    pub width: u32,
}

/// Configuration of a memory segment: its colormap over available bytes.
#[derive(Clone, Debug)]
pub struct MemoryConfig {
    pub colormap: ColorMap,
}

impl Memory {
    /// Six glyphs of formatted bytes plus padding.
    pub fn new(colormap: ColorMap, padding: u32, char_width: u32) -> (m: Memory)
        requires
            colormap.wf(),
            char_width * 6 + padding <= u32::MAX,
        ensures
            m.width == char_width * 6 + padding,
            m.colormap == colormap,
            m.colormap.wf(),
    {
        Memory { colormap, width: char_width * 6 + padding }
    }

    /// The width of the segment in pixels.
    pub fn width(&self) -> (w: u32)
        ensures
            w == self.width,
    {
        self.width
    }

    /// The available bytes, colored by the table and formatted with their
    /// decimal unit.
    pub fn render(&self, available: u64) -> (r: String)
        requires
            self.colormap.wf(),
        ensures
            r@ == spec_fg(self.colormap.spec_map(clamp_map_input(available as int)))
                + crate::bytes::spec_format_bytes(available as int),
    {
        let color = self.colormap.map(clamp_u64_to_i64(available));
        let mut s = String::new();
        draw::push_fg(&mut s, color);
        let text = crate::bytes::format_bytes(available);
        push_str(&mut s, text.as_str());
        assert(s@ =~= spec_fg(self.colormap.spec_map(clamp_map_input(available as int)))
            + crate::bytes::spec_format_bytes(available as int));
        s
    }
}

/// The network segment: receive and transmit rates, each colored by one
/// table over bytes per second.
#[derive(Clone, Debug)]
pub struct Network {
    pub colormap: ColorMap,
    pub width: u32,
}

impl Network {
    /// Thirteen glyphs of two formatted rates plus padding.
    pub fn new(colormap: ColorMap, padding: u32, char_width: u32) -> (n: Network)
        requires
            colormap.wf(),
            char_width * 13 + padding <= u32::MAX,
        ensures
            n.width == char_width * 13 + padding,
            n.colormap == colormap,
            n.colormap.wf(),
    {
        Network { colormap, width: char_width * 13 + padding }
    }

    /// The width of the segment in pixels.
    pub fn width(&self) -> (w: u32)
        ensures
            w == self.width,
    {
        self.width
    }

    /// What one rate renders as: its color command, then the rate with its
    /// decimal unit.
    pub open spec fn spec_rate_text(self, rate: int) -> Seq<char> {
        spec_fg(self.colormap.spec_map(clamp_map_input(rate)))
            + crate::bytes::spec_format_bytes(rate)
    }

    /// Both directions' rates, derived from the tick's counter deltas and
    /// elapsed time, received first, separated by one space character.
    pub fn render(&self, net: &tick::Network, elapsed_ms: u64) -> (r: String)
        requires
            self.colormap.wf(),
        ensures
            r@ == self.spec_rate_text(spec_rate(net.bytes_received as int, elapsed_ms as int))
                + seq![' '] + self.spec_rate_text(
                spec_rate(net.bytes_transmitted as int, elapsed_ms as int),
            ),
    {
        let rx = tick::rate_per_second(net.bytes_received, elapsed_ms);
        let tx = tick::rate_per_second(net.bytes_transmitted, elapsed_ms);
        let mut s = String::new();
        draw::push_fg(&mut s, self.colormap.map(clamp_u64_to_i64(rx)));
        let rx_text = crate::bytes::format_bytes(rx);
        push_str(&mut s, rx_text.as_str());
        string_push(&mut s, ' ');
        draw::push_fg(&mut s, self.colormap.map(clamp_u64_to_i64(tx)));
        let tx_text = crate::bytes::format_bytes(tx);
        push_str(&mut s, tx_text.as_str());
        assert(s@ =~= self.spec_rate_text(spec_rate(net.bytes_received as int, elapsed_ms as int))
            + seq![' '] + self.spec_rate_text(
            spec_rate(net.bytes_transmitted as int, elapsed_ms as int),
        ));
        s
    }
}

/// The degrees a millidegree reading rounds to, toward the nearest degree,
/// halves away from zero.
pub open spec fn spec_degrees(millideg: int) -> int {
    if millideg >= 0 {
        (millideg + 500) / 1000
    } else {
        -((-millideg + 500) / 1000)
    }
}

/// A signed number's decimal text.
pub open spec fn spec_i64_string(v: int) -> Seq<char> {
    if v < 0 {
        seq!['-'] + spec_digits(-v)
    } else {
        spec_digits(v)
    }
}

/// The text padded with spaces on the left to at least three characters,
/// as a fixed-width temperature column expects.
pub open spec fn spec_pad3(s: Seq<char>) -> Seq<char> {
    if s.len() >= 3 {
        s
    } else if s.len() == 2 {
        seq![' '] + s
    } else {
        seq![' ', ' '] + s
    }
}

/// The temperature segment: the hottest sensor in degrees Celsius, colored
/// by a table over millidegrees.
#[derive(Clone, Debug)]
pub struct Temp {
    pub colormap: ColorMap,
    pub width: u32,
}

/// Configuration of a temperature segment: its colormap over millidegrees.
#[derive(Clone, Debug)]
pub struct TempConfig {
    pub colormap: ColorMap,
}

impl Temp {
    /// Six glyphs of degrees and unit plus padding.
    pub fn new(colormap: ColorMap, padding: u32, char_width: u32) -> (t: Temp)
        requires
            colormap.wf(),
            char_width * 6 + padding <= u32::MAX,
        ensures
            t.width == char_width * 6 + padding,
            t.colormap == colormap,
            t.colormap.wf(),
    {
        Temp { colormap, width: char_width * 6 + padding }
    }

    /// The width of the segment in pixels.
    pub fn width(&self) -> (w: u32)
        ensures
            w == self.width,
    {
        self.width
    }

    /// The reading in whole degrees, at least three columns wide, colored by
    /// the table over the raw millidegrees, with the unit after it.
    pub fn render(&self, t: &tick::Temperature) -> (r: String)
        requires
            self.colormap.wf(),
        ensures
            r@ == spec_fg(self.colormap.spec_map(t.max as int)) + spec_pad3(
                spec_i64_string(spec_degrees(t.max as int)),
            ) + seq![' ', '°', 'C'],
    {
        let color = self.colormap.map(t.max);
        let deg = degrees_of(t.max);
        let mut s = String::new();
        draw::push_fg(&mut s, color);
        let text = i64_string(deg);
        if text.as_str().unicode_len() == 1 {
            string_push(&mut s, ' ');
            string_push(&mut s, ' ');
        } else if text.as_str().unicode_len() == 2 {
            string_push(&mut s, ' ');
        }
        push_str(&mut s, text.as_str());
        string_push(&mut s, ' ');
        string_push(&mut s, '°');
        string_push(&mut s, 'C');
        assert(s@ =~= spec_fg(self.colormap.spec_map(t.max as int)) + spec_pad3(
            spec_i64_string(spec_degrees(t.max as int)),
        ) + seq![' ', '°', 'C']);
        s
    }
}

fn degrees_of(millideg: i64) -> (d: i64)
    ensures
        d as int == spec_degrees(millideg as int),
{
    if millideg >= 0 {
        (((millideg as u64) + 500) / 1000) as i64
    } else {
        let pos: u64 = if millideg == i64::MIN {
            0x8000_0000_0000_0000
        } else {
            (-millideg) as u64
        };
        -(((pos + 500) / 1000) as i64)
    }
}

fn i64_string(v: i64) -> (r: String)
    ensures
        r@ == spec_i64_string(v as int),
        r@.len() >= 1,
{
    let mut s = String::new();
    if v < 0 {
        string_push(&mut s, '-');
        let pos = if v == i64::MIN {
            i64::MAX as u64 + 1
        } else {
            (-v) as u64
        };
        push_u64(&mut s, pos);
        proof {
            crate::numfmt::lemma_digits_len(pos as int);
            assert(s@ =~= spec_i64_string(v as int));
        }
    } else {
        push_u64(&mut s, v as u64);
        proof {
            crate::numfmt::lemma_digits_len(v as int);
            assert(s@ =~= spec_i64_string(v as int));
        }
    }
    s
}

/// The cpu segment: three gauges — the least loaded core, the overall
/// average, the most loaded core — separated by fixed spaces.
#[derive(Clone, Debug)]
pub struct Cpu {
    pub colormap: ColorMap,
    pub min_max_width: u32,
    pub avg_width: u32,
    pub bar_height: u32,
    pub space: u32,
    pub padding: u32,
}

impl Cpu {
    /// Two narrow gauges, one wide one, two spaces, and padding.
    pub fn new(
        colormap: ColorMap,
        min_max_width: u32,
        avg_width: u32,
        bar_height: u32,
        space: u32,
        padding: u32,
    ) -> (c: Cpu)
        requires
            colormap.wf(),
            min_max_width * 2 + avg_width + space * 2 + padding <= u32::MAX,
        ensures
            c == (Cpu { colormap, min_max_width, avg_width, bar_height, space, padding }),
            c.colormap.wf(),
    {
        Cpu { colormap, min_max_width, avg_width, bar_height, space, padding }
    }

    /// The width of the segment in pixels.
    pub fn width(&self) -> (w: u32)
        requires
            self.min_max_width * 2 + self.avg_width + self.space * 2 + self.padding <= u32::MAX,
        ensures
            w == self.min_max_width * 2 + self.avg_width + self.space * 2 + self.padding,
    {
        self.min_max_width * 2 + self.avg_width + self.space * 2 + self.padding
    }

    /// What one gauge of this segment renders as, for a raw permille value:
    /// clamped to full, colored by the clamped value.
    pub open spec fn spec_gauge(self, raw: int, width: int) -> Seq<char> {
        spec_bar(
            clamp_permille(raw),
            self.colormap.spec_map(clamp_permille(raw)),
            width,
            self.bar_height as int,
        )
    }

    /// The three gauges with spaces between: the least loaded core, the
    /// average, the most loaded core, each colored by its own value.
    pub fn render(&self, c: &tick::Cpu) -> (r: String)
        requires
            self.colormap.wf(),
        ensures
            r@ == self.spec_gauge(c.min as int, self.min_max_width as int) + spec_space(
                self.space as int,
            ) + self.spec_gauge(c.avg as int, self.avg_width as int) + spec_space(
                self.space as int,
            ) + self.spec_gauge(c.max as int, self.min_max_width as int),
    {
        let mut s = self.gauge(c.min, self.min_max_width);
        let sp = draw::space(self.space);
        push_str(&mut s, sp.as_str());
        let avg = self.gauge(c.avg, self.avg_width);
        push_str(&mut s, avg.as_str());
        push_str(&mut s, sp.as_str());
        let max = self.gauge(c.max, self.min_max_width);
        push_str(&mut s, max.as_str());
        assert(s@ =~= self.spec_gauge(c.min as int, self.min_max_width as int) + spec_space(
            self.space as int,
        ) + self.spec_gauge(c.avg as int, self.avg_width as int) + spec_space(self.space as int)
            + self.spec_gauge(c.max as int, self.min_max_width as int));
        s
    }

    fn gauge(&self, raw: u32, width: u32) -> (r: String)
        requires
            self.colormap.wf(),
        ensures
            r@ == self.spec_gauge(raw as int, width as int),
    {
        let v = clamp_permille_exec(raw);
        draw::bar(v, self.colormap.map(v as i64), width, self.bar_height)
    }
}

/// The colors of the battery's state glyph.
#[derive(Copy, Clone, Debug, PartialEq, Eq, Structural)]
pub struct BatteryColors {
    pub charge: Color,
    pub discharge: Color,
    pub unknown: Color,
}

/// The battery segment: a charge gauge and one state glyph beside it.
#[derive(Clone, Debug)]
pub struct Battery {
    pub colormap: ColorMap,
    pub colors: BatteryColors,
    pub bar_width: u32,
    pub bar_height: u32,
    pub char_width: u32,
    pub space: u32,
    pub padding: u32,
}

/// The glyph drawn for each battery state.
pub open spec fn spec_state_char(s: BatteryState) -> char {
    match s {
        BatteryState::Unknown => '*',
        BatteryState::Charging => '+',
        BatteryState::Discharging => '-',
        BatteryState::Empty => '!',
        BatteryState::Full => ' ',
    }
}

/// The color of each battery state's glyph.
pub open spec fn spec_state_color(colors: BatteryColors, s: BatteryState) -> Color {
    match s {
        BatteryState::Unknown => colors.unknown,
        BatteryState::Charging => colors.charge,
        BatteryState::Discharging => colors.discharge,
        BatteryState::Empty => colors.unknown,
        BatteryState::Full => colors.charge,
    }
}

impl Battery {
    /// A gauge, a space, one glyph, and padding.
    pub fn new(
        colormap: ColorMap,
        state_colors: BatteryColors,
        bar_width: u32,
        bar_height: u32,
        char_width: u32,
        space: u32,
        padding: u32,
    ) -> (b: Battery)
        requires
            colormap.wf(),
            bar_width + space + char_width + padding <= u32::MAX,
        ensures
            b == (Battery {
                colormap,
                colors: state_colors,
                bar_width,
                bar_height,
                char_width,
                space,
                padding,
            }),
            b.colormap.wf(),
    {
        Battery {
            colormap,
            colors: state_colors,
            bar_width,
            bar_height,
            char_width,
            space,
            padding,
        }
    }

    /// The width of the segment in pixels.
    pub fn width(&self) -> (w: u32)
        requires
            self.bar_width + self.space + self.char_width + self.padding <= u32::MAX,
        ensures
            w == self.bar_width + self.space + self.char_width + self.padding,
    {
        self.bar_width + self.space + self.char_width + self.padding
    }

    /// The charge as a gauge colored by the charge itself, a space, and the
    /// state's glyph in the state's color.
    pub fn render(&self, b: &tick::Battery) -> (r: String)
        requires
            self.colormap.wf(),
        ensures
            r@ == spec_bar(
                clamp_permille(b.charge_permille as int),
                self.colormap.spec_map(clamp_permille(b.charge_permille as int)),
                self.bar_width as int,
                self.bar_height as int,
            ) + spec_space(self.space as int) + spec_fg(spec_state_color(self.colors, b.state))
                + seq![spec_state_char(b.state)],
    {
        let v = clamp_permille_exec(b.charge_permille);
        let mut s = draw::bar(v, self.colormap.map(v as i64), self.bar_width, self.bar_height);
        let sp = draw::space(self.space);
        push_str(&mut s, sp.as_str());
        let (glyph, color) = match b.state {
            BatteryState::Unknown => ('*', self.colors.unknown),
            BatteryState::Charging => ('+', self.colors.charge),
            BatteryState::Discharging => ('-', self.colors.discharge),
            BatteryState::Empty => ('!', self.colors.unknown),
            BatteryState::Full => (' ', self.colors.charge),
        };
        draw::push_fg(&mut s, color);
        string_push(&mut s, glyph);
        assert(s@ =~= spec_bar(
            clamp_permille(b.charge_permille as int),
            self.colormap.spec_map(clamp_permille(b.charge_permille as int)),
            self.bar_width as int,
            self.bar_height as int,
        ) + spec_space(self.space as int) + spec_fg(spec_state_color(self.colors, b.state))
            + seq![spec_state_char(b.state)]);
        s
    }
}

} // verus!

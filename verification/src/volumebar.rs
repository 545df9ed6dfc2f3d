//! The volume bar: a gauge of the mixer volume, wrapped in the click
//! commands that mute or step the volume, drawn in a distinct color while
//! muted.

use vstd::prelude::*;
use vstd::string::*;

use crate::color::Color;
use crate::colormap::ColorMap;
use crate::draw;
use crate::draw::push_str;
use crate::draw::spec_bar;
use crate::screen::parse_number;
use crate::screen::take_number;

verus! {

/// A status bar showing the mixer volume.
#[derive(Clone, Debug)]
pub struct VolumeBar {
    pub card: u32,
    pub channel: String,
    pub mute_color: Color,
    pub cmap: ColorMap,
    pub width: u32,
    pub height: u32,
    pub lspace: u32,
}

/// The click bindings that precede the gauge: mute on a left click, volume
/// up and down on the wheel.
pub open spec fn spec_click_prefix() -> Seq<char> {
    "^ca(1,xdotool key XF86AudioMute)^ca(4,xdotool key XF86AudioRaiseVolume)^ca(5,xdotool key XF86AudioLowerVolume)"@
}

/// The closing of the three click bindings.
pub open spec fn spec_click_suffix() -> Seq<char> {
    "^ca()^ca()^ca()"@
}

impl VolumeBar {
    /// A bar over the given table, with the customary mute color and
    /// geometry.
    pub fn new(cmap: ColorMap) -> (b: VolumeBar)
        requires
            cmap.wf(),
        ensures
            b.card == 0,
            b.channel@ == "Master"@,
            b.mute_color == (Color { r: 130, g: 0, b: 200 }),
            b.cmap == cmap,
            b.cmap.wf(),
            b.width == 30,
            b.height == 10,
            b.lspace == 0,
    {
        VolumeBar {
            card: 0,
            channel: String::from_str("Master"),
            mute_color: Color::new(130, 0, 200),
            cmap,
            width: 30,
            height: 10,
            lspace: 0,
        }
    }

    /// The length in pixels of the bar's output, leading space included.
    pub fn len(&self) -> (l: u32)
        requires
            self.lspace + self.width <= u32::MAX,
        ensures
            l == self.lspace + self.width,
    {
        self.lspace + self.width
    }

    /// The gauge for a volume percentage, inside the click bindings: colored
    /// by the table at the percentage, or by the mute color while muted.
    pub fn render(&self, percent: u8, muted: bool) -> (r: String)
        requires
            self.cmap.wf(),
            percent <= 100,
        ensures
            r@ == spec_click_prefix() + spec_bar(
                percent * 10,
                if muted {
                    self.mute_color
                } else {
                    self.cmap.spec_map(percent as int)
                },
                self.width as int,
                self.height as int,
            ) + spec_click_suffix(),
    {
        let color = if muted {
            self.mute_color
        } else {
            self.cmap.map(percent as i64)
        };
        let mut s = String::new();
        push_str(
            &mut s,
            "^ca(1,xdotool key XF86AudioMute)^ca(4,xdotool key XF86AudioRaiseVolume)^ca(5,xdotool key XF86AudioLowerVolume)",
        );
        let gauge = draw::bar(percent as u32 * 10, color, self.width, self.height);
        push_str(&mut s, gauge.as_str());
        push_str(&mut s, "^ca()^ca()^ca()");
        assert(s@ =~= spec_click_prefix() + spec_bar(
            percent * 10,
            color,
            self.width as int,
            self.height as int,
        ) + spec_click_suffix());
        s
    }
}

/// Whether the word `Playback` stands at position `i`.
pub open spec fn playback_at(s: Seq<char>, i: int) -> bool {
    &&& i + 8 <= s.len()
    &&& s[i] == 'P'
    &&& s[i + 1] == 'l'
    &&& s[i + 2] == 'a'
    &&& s[i + 3] == 'y'
    &&& s[i + 4] == 'b'
    &&& s[i + 5] == 'a'
    &&& s[i + 6] == 'c'
    &&& s[i + 7] == 'k'
}

/// The first position at or after `i` where `Playback` stands, if any.
pub open spec fn find_playback(s: Seq<char>, i: int) -> Option<int>
    recommends
        0 <= i <= s.len(),
    decreases s.len() - i,
{
    if i >= s.len() {
        None
    } else if playback_at(s, i) {
        Some(i)
    } else {
        find_playback(s, i + 1)
    }
}

/// The volume group standing at `i`: a bracketed percentage such as `[57%]`.
pub open spec fn percent_at(s: Seq<char>, i: int) -> Option<int>
    recommends
        0 <= i <= s.len(),
{
    if i < s.len() && s[i] == '[' {
        match parse_number(s, i + 1) {
            None => None,
            Some((v, k)) => {
                if k + 1 < s.len() && s[k] == '%' && s[k + 1] == ']' {
                    Some(v)
                } else {
                    None
                }
            },
        }
    } else {
        None
    }
}

/// The first volume group at or after `i`, if any.
pub open spec fn scan_percent(s: Seq<char>, i: int) -> Option<int>
    recommends
        0 <= i <= s.len(),
    decreases s.len() - i,
{
    if i >= s.len() {
        None
    } else {
        match percent_at(s, i) {
            Some(v) => Some(v),
            None => scan_percent(s, i + 1),
        }
    }
}

/// The mute group standing at `i`: `[on]` is audible, `[off]` muted.
pub open spec fn state_at(s: Seq<char>, i: int) -> Option<bool> {
    if i + 4 <= s.len() && s[i] == '[' && s[i + 1] == 'o' && s[i + 2] == 'n' && s[i + 3] == ']' {
        Some(false)
    } else if i + 5 <= s.len() && s[i] == '[' && s[i + 1] == 'o' && s[i + 2] == 'f' && s[i + 3]
        == 'f' && s[i + 4] == ']' {
        Some(true)
    } else {
        None
    }
}

/// The first mute group at or after `i`, if any.
pub open spec fn scan_state(s: Seq<char>, i: int) -> Option<bool>
    recommends
        0 <= i <= s.len(),
    decreases s.len() - i,
{
    if i >= s.len() {
        None
    } else {
        match state_at(s, i) {
            Some(m) => Some(m),
            None => scan_state(s, i + 1),
        }
    }
}

/// What the mixer's status text says: from the first `Playback` onward, the
/// first bracketed percentage and the first bracketed on/off group. Nothing
/// when either is missing, or when the percentage does not fit the byte the
/// display works with.
pub open spec fn parse_mixer_spec(s: Seq<char>) -> Option<(int, bool)> {
    match find_playback(s, 0) {
        None => None,
        Some(p) => {
            match (scan_percent(s, p), scan_state(s, p)) {
                (Some(v), Some(m)) => {
                    if v <= 255 {
                        Some((v, m))
                    } else {
                        None
                    }
                },
                _ => None,
            }
        },
    }
}

fn playback_at_exec(s: &str, i: usize) -> (r: bool)
    requires
        i <= s@.len(),
    ensures
        r == playback_at(s@, i as int),
        s@.len() <= usize::MAX,
{
    let n = s.unicode_len();
    if i >= n || n - i < 8 {
        return false;
    }
    s.get_char(i) == 'P' && s.get_char(i + 1) == 'l' && s.get_char(i + 2) == 'a' && s.get_char(
        i + 3,
    ) == 'y' && s.get_char(i + 4) == 'b' && s.get_char(i + 5) == 'a' && s.get_char(i + 6) == 'c'
        && s.get_char(i + 7) == 'k'
}

fn percent_at_exec(s: &str, i: usize) -> (r: Option<u64>)
    requires
        i <= s@.len(),
    ensures
        (match (r, percent_at(s@, i as int)) {
            (Some(v), Some(sv)) => (sv <= u32::MAX ==> v as int == sv) && ((v as int > u32::MAX)
                <==> sv > u32::MAX),
            (None, None) => true,
            _ => false,
        }),
{
    let n = s.unicode_len();
    if !(i < n && s.get_char(i) == '[') {
        return None;
    }
    let (v, k) = match take_number(s, i + 1) {
        Some(p) => p,
        None => {
            return None;
        },
    };
    if k < n && s.get_char(k) == '%' && k + 1 < n && s.get_char(k + 1) == ']' {
        Some(v)
    } else {
        None
    }
}

fn state_at_exec(s: &str, i: usize) -> (r: Option<bool>)
    requires
        i <= s@.len(),
    ensures
        r == state_at(s@, i as int),
{
    let n = s.unicode_len();
    if i < n && n - i >= 4 && s.get_char(i) == '[' && s.get_char(i + 1) == 'o' && s.get_char(i + 2)
        == 'n' && s.get_char(i + 3) == ']' {
        Some(false)
    } else if i < n && n - i >= 5 && s.get_char(i) == '[' && s.get_char(i + 1) == 'o'
        && s.get_char(i + 2) == 'f' && s.get_char(i + 3) == 'f' && s.get_char(i + 4) == ']' {
        Some(true)
    } else {
        None
    }
}

fn find_playback_exec(s: &str) -> (r: Option<usize>)
    ensures
        (match (r, find_playback(s@, 0)) {
            (Some(p), Some(sp)) => p as int == sp && p <= s@.len(),
            (None, None) => true,
            _ => false,
        }),
{
    let n = s.unicode_len();
    let mut i: usize = 0;
    while i < n
        invariant
            i <= n,
            n == s@.len(),
            find_playback(s@, 0) == find_playback(s@, i as int),
        decreases n - i,
    {
        if playback_at_exec(s, i) {
            return Some(i);
        }
        i += 1;
    }
    None
}

fn scan_percent_exec(s: &str, start: usize) -> (r: Option<u64>)
    requires
        start <= s@.len(),
    ensures
        (match (r, scan_percent(s@, start as int)) {
            (Some(v), Some(sv)) => (sv <= u32::MAX ==> v as int == sv) && ((v as int > u32::MAX)
                <==> sv > u32::MAX),
            (None, None) => true,
            _ => false,
        }),
{
    let n = s.unicode_len();
    let mut j = start;
    while j < n
        invariant
            start <= j <= n,
            n == s@.len(),
            scan_percent(s@, start as int) == scan_percent(s@, j as int),
        decreases n - j,
    {
        if let Some(v) = percent_at_exec(s, j) {
            return Some(v);
        }
        j += 1;
    }
    None
}

fn scan_state_exec(s: &str, start: usize) -> (r: Option<bool>)
    requires
        start <= s@.len(),
    ensures
        r == scan_state(s@, start as int),
{
    let n = s.unicode_len();
    let mut k = start;
    while k < n
        invariant
            start <= k <= n,
            n == s@.len(),
            scan_state(s@, start as int) == scan_state(s@, k as int),
        decreases n - k,
    {
        if let Some(m) = state_at_exec(s, k) {
            return Some(m);
        }
        k += 1;
    }
    None
}

/// Reads the volume percentage and the mute state out of the mixer's status
/// text, as the volume bar's refresh does: the first bracketed percentage
/// and on/off group after the word `Playback`. Any other shape of text reads
/// as nothing, so a hiccup of the mixer skips one refresh rather than fail.
pub fn parse_mixer(s: &str) -> (r: Option<(u8, bool)>)
    ensures
        (match (r, parse_mixer_spec(s@)) {
            (Some((v, m)), Some(sp)) => v as int == sp.0 && m == sp.1,
            (None, None) => true,
            _ => false,
        }),
{
    let p = match find_playback_exec(s) {
        Some(p) => p,
        None => {
            return None;
        },
    };
    let v = match scan_percent_exec(s, p) {
        Some(v) => v,
        None => {
            return None;
        },
    };
    let m = match scan_state_exec(s, p) {
        Some(m) => m,
        None => {
            return None;
        },
    };
    if v <= 255 {
        Some((v as u8, m))
    } else {
        None
    }
}

} // verus!

//! Binding regions to a physical screen: the center cluster is sized to its
//! own content and centered; the space at either side of it, less a gap,
//! bounds the left and right regions; every placed block is then shifted to
//! absolute screen coordinates. A screen-configuration change discards the
//! whole arrangement and recomputes it from scratch, since the three regions'
//! geometry is interdependent.

use vstd::prelude::*;
use vstd::string::*;

use crate::color::Color;
use crate::draw::push_str;
use crate::draw::spec_space;
use crate::layout::blocks_bounded;
use crate::layout::compute;
use crate::layout::fixed_sum;
use crate::layout::layout_spec;
use crate::layout::pos_view;
use crate::layout::weight_sum;
use crate::layout::Entry;
use crate::layout::LayoutError;
use crate::layout::PositionedSegment;
use crate::screen::Screen;

verus! {

/// How an external render target is started: geometry, background color and
/// font.
#[derive(Clone, Debug)]
pub struct BarParams {
    pub x: u32,
    pub y: u32,
    pub w: u32,
    pub h: u32,
    pub bg: Color,
    pub font: String,
}

impl Default for BarParams {
    /// The customary defaults: top of the screen, black background,
    /// monospace font.
    fn default() -> (r: Self)
        ensures
            r.x == 0,
            r.y == 100,
            r.w == 0,
            r.h == 0,
            r.bg == (Color { r: 0, g: 0, b: 0 }),
            r.font@ == "Monospace-12"@,
    {
        BarParams {
            x: 0,
            y: 100,
            w: 0,
            h: 0,
            bg: Color::new(0, 0, 0),
            font: String::from_str("Monospace-12"),
        }
    }
}

/// The three regions of one bar, placed in absolute screen coordinates.
pub struct ScreenLayout {
    pub left: Vec<PositionedSegment>,
    pub center: Vec<PositionedSegment>,
    pub right: Vec<PositionedSegment>,
}

/// A sequence of placed blocks shifted right by `dx`.
pub open spec fn spec_shift(v: Seq<(int, int)>, dx: int) -> Seq<(int, int)> {
    v.map_values(|p: (int, int)| (p.0 + dx, p.1))
}

/// The arrangement of one bar on one screen. The center cluster may hold no
/// proportional spacer (it is sized to its content) and must fit the screen;
/// the left and right regions are laid out against the space beside the
/// centered cluster, less the configured gap.
pub open spec fn spec_arrange(
    screen: Screen,
    left: Seq<Entry>,
    center: Seq<Entry>,
    right: Seq<Entry>,
    gap: u32,
) -> Result<(Seq<(int, int)>, Seq<(int, int)>, Seq<(int, int)>), LayoutError> {
    if weight_sum(center) > 0 {
        Err(LayoutError::UnboundedFill)
    } else if fixed_sum(center) > screen.width {
        Err(LayoutError::OutOfSpace { need: (fixed_sum(center) - screen.width) as u64 })
    } else {
        let cw = fixed_sum(center);
        let side = (screen.width - cw) / 2;
        let avail = if gap <= side {
            side - gap
        } else {
            0
        };
        match (layout_spec(left, Some(avail as u32)), layout_spec(right, Some(avail as u32))) {
            (Err(e), _) => Err(e),
            (_, Err(e)) => Err(e),
            (Ok(lp), Ok(rp)) => Ok(
                (
                    spec_shift(lp, screen.x as int),
                    spec_shift(layout_spec(center, None)->Ok_0, screen.x + side),
                    spec_shift(rp, screen.x + screen.width - avail),
                ),
            ),
        }
    }
}

/// The fixed width of an entry list: what a content-sized region occupies.
pub fn fixed_width(entries: &Vec<Entry>) -> (r: u64)
    requires
        entries@.len() <= 0x1000_0000,
    ensures
        r == fixed_sum(entries@),
{
    let ghost s = entries@;
    let n = entries.len();
    let mut fs: u64 = 0;
    let mut i: usize = 0;
    proof {
        assert(s.skip(0) =~= s);
    }
    while i < n
        invariant
            i <= n,
            n == s.len(),
            s == entries@,
            n <= 0x1000_0000,
            fs + crate::layout::fixed_sum(s.skip(i as int)) == fixed_sum(s),
            fs <= i * 0xffff_ffffu64,
        decreases n - i,
    {
        proof {
            assert(s.skip(i as int)[0] == s[i as int]);
            assert(s.skip(i as int).skip(1) =~= s.skip(i as int + 1));
        }
        match entries[i] {
            Entry::Segment { width } => {
                fs = fs + width as u64;
            },
            Entry::Spacer { amount } => {
                if amount >= 0 {
                    fs = fs + amount as u64;
                }
            },
        }
        i += 1;
    }
    proof {
        assert(s.skip(n as int) =~= Seq::<Entry>::empty());
    }
    fs
}

/// Shifts every placed block right by `dx`, moving a region from its own
/// coordinates to absolute screen coordinates.
fn offset_positions(v: &mut Vec<PositionedSegment>, dx: u64)
    requires
        dx <= 0x2_0000_0000,
        blocks_bounded(old(v)@),
    ensures
        final(v)@.map_values(|ps: PositionedSegment| pos_view(ps)) == spec_shift(
            old(v)@.map_values(|ps: PositionedSegment| pos_view(ps)),
            dx as int,
        ),
{
    let n = v.len();
    let mut i: usize = 0;
    let ghost orig = v@;
    while i < n
        invariant
            i <= n,
            n == v@.len(),
            n == orig.len(),
            dx <= 0x2_0000_0000,
            blocks_bounded(orig),
            forall|j: int| i <= j < n ==> v@[j] == orig[j],
            forall|j: int|
                0 <= j < i ==> (#[trigger] v@[j]) == (PositionedSegment {
                    x: (orig[j].x + dx) as u64,
                    width: orig[j].width,
                }),
        decreases n - i,
    {
        let ps = v[i];
        proof {
            assert(ps == orig[i as int]);
            assert((orig[i as int].x as int) + (orig[i as int].width as int) < 0x2000_0000_0000_0000);
        }
        let moved = PositionedSegment { x: ps.x + dx, width: ps.width };
        v[i] = moved;
        i += 1;
    }
    proof {
        assert(v@.map_values(|ps: PositionedSegment| pos_view(ps)) =~= spec_shift(
            orig.map_values(|ps: PositionedSegment| pos_view(ps)),
            dx as int,
        ));
    }
}

/// Arranges one bar on one screen: lays the center cluster out against its
/// own content width, centers it, bounds the side regions by what remains
/// beside it less the gap, and shifts everything to absolute coordinates.
/// Fails, naming the cause, rather than proceed with a corrupted geometry.
pub fn arrange(
    screen: &Screen,
    left: &Vec<Entry>,
    center: &Vec<Entry>,
    right: &Vec<Entry>,
    gap: u32,
) -> (r: Result<ScreenLayout, LayoutError>)
    requires
        left@.len() <= 0x1000_0000,
        center@.len() <= 0x1000_0000,
        right@.len() <= 0x1000_0000,
    ensures
        (match (r, spec_arrange(*screen, left@, center@, right@, gap)) {
            (Ok(sl), Ok(sp)) => sl.left@.map_values(|ps: PositionedSegment| pos_view(ps)) == sp.0
                && sl.center@.map_values(|ps: PositionedSegment| pos_view(ps)) == sp.1
                && sl.right@.map_values(|ps: PositionedSegment| pos_view(ps)) == sp.2,
            (Err(e), Err(spe)) => e == spe,
            _ => false,
        }),
{
    let cw = fixed_width(center);
    let mut center_placed = match compute(center, None) {
        Ok(v) => v,
        Err(e) => {
            return Err(e);
        },
    };
    if cw > screen.width as u64 {
        return Err(LayoutError::OutOfSpace { need: cw - screen.width as u64 });
    }
    let side = (screen.width - cw as u32) / 2;
    let avail = if gap <= side {
        side - gap
    } else {
        0
    };
    let mut left_placed = match compute(left, Some(avail)) {
        Ok(v) => v,
        Err(e) => {
            return Err(e);
        },
    };
    let mut right_placed = match compute(right, Some(avail)) {
        Ok(v) => v,
        Err(e) => {
            return Err(e);
        },
    };
    offset_positions(&mut left_placed, screen.x as u64);
    offset_positions(&mut center_placed, screen.x as u64 + side as u64);
    offset_positions(&mut right_placed, screen.x as u64 + screen.width as u64 - avail as u64);
    Ok(ScreenLayout { left: left_placed, center: center_placed, right: right_placed })
}

/// One segment's text, placed: the x-offset its content starts at, the
/// pixels the content occupies, and the rendered protocol text.
pub struct RenderedSegment {
    pub x: u64,
    pub width: u64,
    pub text: String,
}

/// The view of a placed text used by the line specification.
pub open spec fn rendered_view(rs: RenderedSegment) -> (int, int, Seq<char>) {
    (rs.x as int, rs.width as int, rs.text@)
}

/// Placed texts are in order and non-overlapping, starting at or after the
/// region origin, and nothing reaches further than `u32::MAX` pixels past
/// the origin — the widest gap the protocol's space command can draw.
pub open spec fn line_wf(origin: int, parts: Seq<(int, int, Seq<char>)>) -> bool {
    &&& forall|i: int|
        0 <= i < parts.len() ==> (#[trigger] parts[i]).0 >= (if i == 0 {
            origin
        } else {
            parts[i - 1].0 + parts[i - 1].1
        })
    &&& forall|i: int|
        0 <= i < parts.len() ==> (#[trigger] parts[i]).0 + parts[i].1 <= origin + u32::MAX
}

/// One bar's protocol line: each text after a space command covering the gap
/// from the previous text's end (or the origin) to its offset.
pub open spec fn spec_line(cursor: int, parts: Seq<(int, int, Seq<char>)>) -> Seq<char>
    decreases parts.len(),
{
    if parts.len() == 0 {
        Seq::empty()
    } else {
        let p = parts[0];
        (if p.0 > cursor {
            spec_space(p.0 - cursor)
        } else {
            Seq::empty()
        }) + p.2 + spec_line(p.0 + p.1, parts.skip(1))
    }
}

/// Joins one bar's rendered segments into the protocol line the backend
/// draws: the texts in position order, with a zero-height space rectangle
/// filling each gap, measured from the region origin.
pub fn assemble_line(origin: u64, parts: &Vec<RenderedSegment>) -> (r: String)
    requires
        origin <= 0x1_0000_0000,
        line_wf(
            origin as int,
            parts@.map_values(|rs: RenderedSegment| rendered_view(rs)),
        ),
    ensures
        r@ == spec_line(
            origin as int,
            parts@.map_values(|rs: RenderedSegment| rendered_view(rs)),
        ),
{
    let ghost view = parts@.map_values(|rs: RenderedSegment| rendered_view(rs));
    let n = parts.len();
    let mut s = String::new();
    let mut cursor: u64 = origin;
    let mut i: usize = 0;
    proof {
        assert(view.skip(0) =~= view);
    }
    while i < n
        invariant
            i <= n,
            n == parts@.len(),
            view == parts@.map_values(|rs: RenderedSegment| rendered_view(rs)),
            line_wf(origin as int, view),
            origin <= 0x1_0000_0000,
            cursor as int == (if i == 0 {
                origin as int
            } else {
                view[i as int - 1].0 + view[i as int - 1].1
            }),
            cursor >= origin,
            spec_line(origin as int, view) == s@ + spec_line(cursor as int, view.skip(i as int)),
        decreases n - i,
    {
        proof {
            assert(view.skip(i as int)[0] == view[i as int]);
            assert(view.skip(i as int).skip(1) =~= view.skip(i as int + 1));
            assert(view[i as int].0 >= (if i == 0 {
                origin as int
            } else {
                view[i as int - 1].0 + view[i as int - 1].1
            }));
            assert(view[i as int].0 + view[i as int].1 <= origin as int + u32::MAX);
        }
        let part = &parts[i];
        if part.x > cursor {
            let gap = crate::draw::space((part.x - cursor) as u32);
            push_str(&mut s, gap.as_str());
        }
        push_str(&mut s, part.text.as_str());
        cursor = part.x + part.width;
        i += 1;
    }
    proof {
        assert(view.skip(n as int) =~= Seq::<(int, int, Seq<char>)>::empty());
        assert(s@ =~= spec_line(origin as int, view));
    }
    s
}

} // verus!

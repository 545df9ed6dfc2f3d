//! The layout engine: places an ordered list of fixed-width segments and
//! spacers across a screen region, distributing leftover space among
//! proportional spacers and folding spacer widths into segment margins.
//!
//! An entry is either a segment of fixed pixel width or a spacer. A spacer
//! with a non-negative amount occupies that many pixels; a negative amount is
//! a weight, and the spacer receives a share of the space left over after all
//! fixed content, proportional to the weight's magnitude. Walking the entries
//! left to right, resolved spacer widths accumulate as pending space attached
//! as a leading margin to the next segment; trailing spacers, and the
//! remainder that integer division leaves undistributed, widen the last
//! segment, so that the region is filled exactly.

use vstd::prelude::*;
use vstd::arithmetic::div_mod::lemma_div_is_ordered;
use vstd::arithmetic::div_mod::lemma_div_multiples_vanish;
use vstd::arithmetic::div_mod::lemma_fundamental_div_mod;
use vstd::arithmetic::div_mod::lemma_fundamental_div_mod_converse;
use vstd::arithmetic::mul::lemma_mul_inequality;

use crate::numfmt::spec_digits;

verus! {

/// One element of a region: a display segment of fixed width, or a spacer.
#[derive(Copy, Clone, Debug, PartialEq, Eq, Structural)]
pub enum Entry {
    /// A display segment occupying a fixed number of pixels.
    Segment { width: u32 },
    /// A gap: non-negative amounts are pixels, negative amounts are weights
    /// for sharing the leftover space of a bounded region.
    Spacer { amount: i32 },
}

/// A segment placed in a region: the x-offset of its block (leading margin
/// included) relative to the region start, and the block's total width.
#[derive(Copy, Clone, Debug, PartialEq, Eq, Structural)]
pub struct PositionedSegment {
    pub x: u64,
    pub width: u64,
}

/// Why a region could not be laid out.
#[derive(Copy, Clone, Debug, PartialEq, Eq, Structural)]
pub enum LayoutError {
    /// The fixed content overflows the region by `need` pixels.
    OutOfSpace { need: u64 },
    /// A proportional spacer appeared in a region without a width bound, so
    /// there is nothing to share out.
    UnboundedFill,
}

/// The pixels an entry occupies regardless of leftover space.
pub open spec fn entry_fixed(e: Entry) -> int {
    match e {
        Entry::Segment { width } => width as int,
        Entry::Spacer { amount } => if amount >= 0 {
            amount as int
        } else {
            0
        },
    }
}

/// The weight an entry contributes to sharing leftover space.
pub open spec fn entry_weight(e: Entry) -> int {
    match e {
        Entry::Segment { .. } => 0,
        Entry::Spacer { amount } => if amount < 0 {
            -(amount as int)
        } else {
            0
        },
    }
}

/// Total fixed pixels: segment widths plus non-negative spacers.
pub open spec fn fixed_sum(s: Seq<Entry>) -> int
    decreases s.len(),
{
    if s.len() == 0 {
        0
    } else {
        entry_fixed(s[0]) + fixed_sum(s.skip(1))
    }
}

/// Total weight of the proportional spacers.
pub open spec fn weight_sum(s: Seq<Entry>) -> int
    decreases s.len(),
{
    if s.len() == 0 {
        0
    } else {
        entry_weight(s[0]) + weight_sum(s.skip(1))
    }
}

/// How many segments the entries hold.
pub open spec fn seg_count(s: Seq<Entry>) -> int
    decreases s.len(),
{
    if s.len() == 0 {
        0
    } else {
        (match s[0] {
            Entry::Segment { .. } => 1int,
            Entry::Spacer { .. } => 0int,
        }) + seg_count(s.skip(1))
    }
}

/// The pixels one spacer resolves to, given leftover `l` and total weight
/// `w`: its own amount if fixed, its proportional share if a weight.
pub open spec fn spacer_resolved(amount: int, l: int, w: int) -> int {
    if amount >= 0 {
        amount
    } else if w > 0 {
        (-amount) * l / w
    } else {
        0
    }
}

/// The leftover pixels handed to proportional spacers, summed over the
/// entries: what integer division actually grants, before the remainder.
pub open spec fn prop_alloc(s: Seq<Entry>, l: int, w: int) -> int
    decreases s.len(),
{
    if s.len() == 0 {
        0
    } else {
        (if entry_weight(s[0]) > 0 && w > 0 {
            entry_weight(s[0]) * l / w
        } else {
            0
        }) + prop_alloc(s.skip(1), l, w)
    }
}

/// The left-to-right walk: starting at offset `x` with `p` pending pixels of
/// margin, yields the placed segments, the offset after the last placed
/// block, and the pending margin left at the end.
pub open spec fn walk(s: Seq<Entry>, x: int, p: int, l: int, w: int) -> (Seq<(int, int)>, int, int)
    decreases s.len(),
{
    if s.len() == 0 {
        (Seq::empty(), x, p)
    } else {
        match s[0] {
            Entry::Segment { width } => {
                let rest = walk(s.skip(1), x + p + width, 0, l, w);
                (seq![(x, p + width as int)] + rest.0, rest.1, rest.2)
            },
            Entry::Spacer { amount } => walk(
                s.skip(1),
                x,
                p + spacer_resolved(amount as int, l, w),
                l,
                w,
            ),
        }
    }
}

/// The placed segments of a region with leftover `l` and weight total `w`:
/// the walk's output, with the trailing margin and the undistributed
/// remainder widening the last segment.
pub open spec fn positions(s: Seq<Entry>, l: int, w: int) -> Seq<(int, int)> {
    let t = walk(s, 0, 0, l, w);
    let rem = if w > 0 {
        l - prop_alloc(s, l, w)
    } else {
        0
    };
    if t.0.len() == 0 {
        t.0
    } else {
        t.0.update(t.0.len() - 1, (t.0.last().0, t.0.last().1 + t.2 + rem))
    }
}

/// The whole layout computation: rejects fixed content that overflows a
/// bounded region (naming the overflow), rejects proportional spacers in an
/// unbounded region, and otherwise places every segment.
pub open spec fn layout_spec(s: Seq<Entry>, available: Option<u32>) -> Result<
    Seq<(int, int)>,
    LayoutError,
> {
    match available {
        Some(bound) => {
            if fixed_sum(s) > bound {
                Err(LayoutError::OutOfSpace { need: (fixed_sum(s) - bound) as u64 })
            } else {
                Ok(positions(s, bound - fixed_sum(s), weight_sum(s)))
            }
        },
        None => {
            if weight_sum(s) > 0 {
                Err(LayoutError::UnboundedFill)
            } else {
                Ok(positions(s, 0, weight_sum(s)))
            }
        },
    }
}

/// The view of a placed segment used by the layout specification.
pub open spec fn pos_view(ps: PositionedSegment) -> (int, int) {
    (ps.x as int, ps.width as int)
}

/// Every placed block ends comfortably inside the `u64` range, leaving room
/// to shift a region to its absolute position on a screen.
pub open spec fn blocks_bounded(v: Seq<PositionedSegment>) -> bool {
    forall|j: int|
        0 <= j < v.len() ==> ((#[trigger] v[j]).x as int) + (v[j].width as int)
            < 0x2000_0000_0000_0000
}

proof fn lemma_fixed_sum_nonneg(s: Seq<Entry>)
    ensures
        fixed_sum(s) >= 0,
    decreases s.len(),
{
    if s.len() > 0 {
        lemma_fixed_sum_nonneg(s.skip(1));
    }
}

proof fn lemma_weight_sum_nonneg(s: Seq<Entry>)
    ensures
        weight_sum(s) >= 0,
    decreases s.len(),
{
    if s.len() > 0 {
        lemma_weight_sum_nonneg(s.skip(1));
    }
}

proof fn lemma_resolved_nonneg(amount: int, l: int, w: int)
    requires
        l >= 0,
    ensures
        spacer_resolved(amount, l, w) >= 0,
{
    if amount < 0 && w > 0 {
        let a = -amount;
        assert(a * l >= 0) by (nonlinear_arith)
            requires
                a >= 0,
                l >= 0,
        ;
        lemma_div_is_ordered(0, a * l, w);
        lemma_div_multiples_vanish(0, w);
    }
}

proof fn lemma_prop_alloc_nonneg(s: Seq<Entry>, l: int, w: int)
    requires
        l >= 0,
    ensures
        prop_alloc(s, l, w) >= 0,
    decreases s.len(),
{
    if s.len() > 0 {
        lemma_prop_alloc_nonneg(s.skip(1), l, w);
        let wa = entry_weight(s[0]);
        if wa > 0 && w > 0 {
            assert(wa * l >= 0) by (nonlinear_arith)
                requires
                    wa >= 0,
                    l >= 0,
            ;
            lemma_div_is_ordered(0, wa * l, w);
            lemma_div_multiples_vanish(0, w);
        }
    }
}

/// Floor division is superadditive: dividing two parts separately never
/// yields more than dividing their sum.
proof fn lemma_div_add_le(a: int, b: int, d: int)
    requires
        a >= 0,
        b >= 0,
        d > 0,
    ensures
        a / d + b / d <= (a + b) / d,
{
    lemma_fundamental_div_mod(a, d);
    lemma_fundamental_div_mod(b, d);
    let q = a / d + b / d;
    let r = a % d + b % d;
    assert(a + b == q * d + r) by (nonlinear_arith)
        requires
            a == d * (a / d) + a % d,
            b == d * (b / d) + b % d,
            q == a / d + b / d,
            r == a % d + b % d,
    ;
    if r < d {
        lemma_fundamental_div_mod_converse(a + b, d, q, r);
    } else {
        assert(a + b == (q + 1) * d + (r - d)) by (nonlinear_arith)
            requires
                a + b == q * d + r,
    ;
        lemma_fundamental_div_mod_converse(a + b, d, q + 1, r - d);
    }
}

/// What integer division grants to the proportional spacers never exceeds
/// their collective entitlement `weight_sum * l / w`.
proof fn lemma_prop_alloc_le(s: Seq<Entry>, l: int, w: int)
    requires
        l >= 0,
        w > 0,
    ensures
        prop_alloc(s, l, w) <= weight_sum(s) * l / w,
    decreases s.len(),
{
    if s.len() == 0 {
        lemma_div_multiples_vanish(0, w);
        assert(weight_sum(s) * l == 0) by (nonlinear_arith)
            requires
                weight_sum(s) == 0,
        ;
    } else {
        lemma_prop_alloc_le(s.skip(1), l, w);
        let wa = entry_weight(s[0]);
        let wr = weight_sum(s.skip(1));
        lemma_weight_sum_nonneg(s.skip(1));
        assert(wa * l >= 0 && wr * l >= 0) by (nonlinear_arith)
            requires
                wa >= 0,
                wr >= 0,
                l >= 0,
        ;
        lemma_div_add_le(wa * l, wr * l, w);
        assert(wa * l + wr * l == (wa + wr) * l) by (nonlinear_arith);
        if wa > 0 {
            assert(prop_alloc(s, l, w) <= wa * l / w + wr * l / w);
        } else {
            assert(wa == 0);
            assert(wa * l == 0) by (nonlinear_arith)
                requires
                    wa == 0,
        ;
            lemma_div_multiples_vanish(0, w);
            assert(prop_alloc(s, l, w) <= wa * l / w + wr * l / w);
        }
    }
}

/// With no proportional spacer at all, nothing is granted.
proof fn lemma_prop_alloc_zero(s: Seq<Entry>, l: int, w: int)
    requires
        weight_sum(s) == 0,
    ensures
        prop_alloc(s, l, w) == 0,
    decreases s.len(),
{
    if s.len() > 0 {
        lemma_weight_sum_nonneg(s.skip(1));
        assert(entry_weight(s[0]) == 0);
        lemma_prop_alloc_zero(s.skip(1), l, w);
    }
}

/// Structure of the walk: one placed block per segment; blocks are laid end
/// to end from the start offset; the final offset sits at the end of the
/// last block; and offset plus pending always advance by exactly the
/// resolved widths consumed.
proof fn lemma_walk_shape(s: Seq<Entry>, x: int, p: int, l: int, w: int)
    requires
        p >= 0,
        l >= 0,
    ensures
        ({
            let t = walk(s, x, p, l, w);
            &&& t.0.len() == seg_count(s)
            &&& t.2 >= 0
            &&& t.1 + t.2 == x + p + fixed_sum(s) + prop_alloc(s, l, w)
            &&& (t.0.len() > 0 ==> t.0[0].0 == x && t.1 == t.0.last().0 + t.0.last().1 && t.0[0].1
                >= p)
            &&& (t.0.len() == 0 ==> t.1 == x && t.2 >= p)
            &&& (forall|j: int|
                0 <= j < t.0.len() - 1 ==> (#[trigger] t.0[j + 1]).0 == t.0[j].0 + t.0[j].1)
        }),
    decreases s.len(),
{
    let t = walk(s, x, p, l, w);
    if s.len() == 0 {
    } else {
        match s[0] {
            Entry::Segment { width } => {
                let rest = walk(s.skip(1), x + p + width, 0, l, w);
                lemma_walk_shape(s.skip(1), x + p + width, 0, l, w);
                assert(entry_weight(s[0]) == 0);
                assert(t.0 == seq![(x, p + width as int)] + rest.0);
                assert(t.0[0] == (x, p + width as int));
                if rest.0.len() > 0 {
                    assert(t.0[1] == rest.0[0]);
                    assert(rest.0[0].0 == x + p + width);
                    assert(t.0.last() == rest.0.last());
                }
                assert(forall|j: int|
                    1 <= j < t.0.len() ==> #[trigger] t.0[j] == rest.0[j - 1]);
                assert(t.0.len() == seg_count(s));
                assert(t.2 >= 0);
                assert(t.1 + t.2 == x + p + fixed_sum(s) + prop_alloc(s, l, w));
                assert(t.0.len() > 0 ==> t.0[0].0 == x && t.1 == t.0.last().0 + t.0.last().1
                    && t.0[0].1 >= p);
                assert forall|j: int| 0 <= j < t.0.len() - 1 implies (#[trigger] t.0[j + 1]).0
                    == t.0[j].0 + t.0[j].1 by {
                    if j == 0 {
                        assert(rest.0[0].0 == x + p + width);
                    } else {
                        assert(t.0[j] == rest.0[j - 1]);
                        assert(t.0[j + 1] == rest.0[j]);
                        assert(rest.0[(j - 1) + 1].0 == rest.0[j - 1].0 + rest.0[j - 1].1);
                    }
                }
            },
            Entry::Spacer { amount } => {
                lemma_resolved_nonneg(amount as int, l, w);
                lemma_walk_shape(s.skip(1), x, p + spacer_resolved(amount as int, l, w), l, w);
                assert(entry_fixed(s[0]) + (if entry_weight(s[0]) > 0 && w > 0 {
                    entry_weight(s[0]) * l / w
                } else {
                    0
                }) == spacer_resolved(amount as int, l, w));
                assert(t.0.len() == seg_count(s));
                assert(t.2 >= 0);
                assert(t.1 + t.2 == x + p + fixed_sum(s) + prop_alloc(s, l, w));
                assert(t.0.len() > 0 ==> t.0[0].0 == x && t.1 == t.0.last().0 + t.0.last().1
                    && t.0[0].1 >= p);
                assert(t.0.len() == 0 ==> t.1 == x && t.2 >= p);
                assert(forall|j: int|
                    0 <= j < t.0.len() - 1 ==> (#[trigger] t.0[j + 1]).0 == t.0[j].0 + t.0[j].1);
            },
        }
    }
}

/// Law: a bounded region with at least one segment is consumed exactly. With
/// a proportional spacer present the placed blocks end precisely at the
/// bound; without one they end at the fixed content's width. Nothing is
/// silently dropped or clipped.
pub proof fn lemma_layout_exact(s: Seq<Entry>, bound: u32)
    requires
        layout_spec(s, Some(bound)) is Ok,
        seg_count(s) > 0,
    ensures
        ({
            let ps = layout_spec(s, Some(bound))->Ok_0;
            &&& ps.len() == seg_count(s)
            &&& weight_sum(s) > 0 ==> ps.last().0 + ps.last().1 == bound
            &&& weight_sum(s) == 0 ==> ps.last().0 + ps.last().1 == fixed_sum(s)
        }),
{
    let l = bound - fixed_sum(s);
    let w = weight_sum(s);
    lemma_fixed_sum_nonneg(s);
    lemma_weight_sum_nonneg(s);
    let t = walk(s, 0, 0, l, w);
    lemma_walk_shape(s, 0, 0, l, w);
    let ps = layout_spec(s, Some(bound))->Ok_0;
    assert(ps.len() == t.0.len());
    assert(ps.last() == (t.0.last().0, t.0.last().1 + t.2 + (if w > 0 {
        l - prop_alloc(s, l, w)
    } else {
        0
    })));
    if w > 0 {
        assert(ps.last().0 + ps.last().1 == t.1 + t.2 + l - prop_alloc(s, l, w));
    } else {
        lemma_prop_alloc_zero(s, l, w);
    }
}

/// Computes the placement of an ordered entry list in a region. With a width
/// bound, fixed content that overflows it is rejected with the exact number
/// of missing pixels, and the space left over is shared among the
/// proportional spacers by weight; without a bound, proportional spacers are
/// rejected, since there is nothing to share. Spacer widths fold into the
/// margins of the neighbouring segments: each placed block is one segment
/// with its leading margin, and the last also carries the trailing margin
/// and the remainder of the integer division.
pub fn compute(entries: &Vec<Entry>, available: Option<u32>) -> (r: Result<
    Vec<PositionedSegment>,
    LayoutError,
>)
    requires
        entries@.len() <= 0x1000_0000,
    ensures
        (match (r, layout_spec(entries@, available)) {
            (Ok(v), Ok(sp)) => v@.map_values(|ps: PositionedSegment| pos_view(ps)) == sp,
            (Err(e), Err(spe)) => e == spe,
            _ => false,
        }),
        r is Err <==> (available matches Some(bound) && fixed_sum(entries@) > bound) || (
        available is None && weight_sum(entries@) > 0),
        r matches Ok(v) ==> blocks_bounded(v@),
{
    let ghost s = entries@;
    let n = entries.len();
    let mut fs: u64 = 0;
    let mut ws: u64 = 0;
    let mut i: usize = 0;
    proof {
        assert(s.skip(0) =~= s);
    }
    while i < n
        invariant
            i <= n,
            n == s.len(),
            s == entries@,
            n <= 0x1000_0000,
            fs + fixed_sum(s.skip(i as int)) == fixed_sum(s),
            ws + weight_sum(s.skip(i as int)) == weight_sum(s),
            fs <= i * 0xffff_ffffu64,
            ws <= i * 0x8000_0000u64,
        decreases n - i,
    {
        proof {
            assert(s.skip(i as int)[0] == s[i as int]);
            assert(s.skip(i as int).skip(1) =~= s.skip(i as int + 1));
        }
        match entries[i] {
            Entry::Segment { width } => {
                fs = fs + width as u64;
            },
            Entry::Spacer { amount } => {
                if amount >= 0 {
                    fs = fs + amount as u64;
                } else {
                    ws = ws + ((-(amount as i64)) as u64);
                }
            },
        }
        i += 1;
    }
    proof {
        assert(s.skip(n as int) =~= Seq::<Entry>::empty());
    }
    match available {
        Some(bound) => {
            if fs > bound as u64 {
                return Err(LayoutError::OutOfSpace { need: fs - bound as u64 });
            }
        },
        None => {
            if ws > 0 {
                return Err(LayoutError::UnboundedFill);
            }
        },
    }
    let l: u64 = match available {
        Some(bound) => bound as u64 - fs,
        None => 0,
    };
    let ghost li = l as int;
    let ghost wi = ws as int;
    let ghost palloc = prop_alloc(s, li, wi);
    proof {
        lemma_prop_alloc_nonneg(s, li, wi);
        if ws > 0 {
            lemma_prop_alloc_le(s, li, wi);
            lemma_div_multiples_vanish(li, wi);
            assert(weight_sum(s) * li == wi * li);
        } else {
            lemma_prop_alloc_zero(s, li, wi);
        }
        assert(0 <= palloc <= li);
        lemma_fixed_sum_nonneg(s);
        lemma_weight_sum_nonneg(s);
    }
    let mut out: Vec<PositionedSegment> = Vec::new();
    let mut x: u64 = 0;
    let mut p: u64 = 0;
    let mut alloc: u64 = 0;
    let mut k: usize = 0;
    proof {
        assert(s.skip(0) =~= s);
    }
    while k < n
        invariant
            k <= n,
            n == s.len(),
            s == entries@,
            n <= 0x1000_0000,
            li == l,
            li <= 0xffff_ffffu64,
            wi == ws,
            fs == fixed_sum(s),
            ws == weight_sum(s),
            li >= 0,
            fs <= 0x1000_0000u64 * 0xffff_ffffu64,
            palloc == prop_alloc(s, li, wi),
            0 <= palloc <= li,
            alloc + prop_alloc(s.skip(k as int), li, wi) == palloc,
            0 <= prop_alloc(s.skip(k as int), li, wi),
            0 <= weight_sum(s.skip(k as int)) <= wi,
            0 <= fixed_sum(s.skip(k as int)) <= fs,
            x + p == fs - fixed_sum(s.skip(k as int)) + alloc,
            forall|j: int|
                0 <= j < out@.len() ==> (#[trigger] out@[j]).x as int + out@[j].width as int <= x
                    as int + p as int,
            walk(s, 0, 0, li, wi) == ({
                let t = walk(s.skip(k as int), x as int, p as int, li, wi);
                (out@.map_values(|ps: PositionedSegment| pos_view(ps)) + t.0, t.1, t.2)
            }),
        decreases n - k,
    {
        proof {
            assert(s.skip(k as int)[0] == s[k as int]);
            assert(s.skip(k as int).skip(1) =~= s.skip(k as int + 1));
            lemma_fixed_sum_nonneg(s.skip(k as int + 1));
            lemma_weight_sum_nonneg(s.skip(k as int + 1));
            lemma_prop_alloc_nonneg(s.skip(k as int + 1), li, wi);
        }
        let ghost prev = out@;
        let ghost xg = x as int;
        let ghost pg = p as int;
        match entries[k] {
            Entry::Segment { width } => {
                let bw = p + width as u64;
                out.push(PositionedSegment { x, width: bw });
                x = x + bw;
                p = 0;
                proof {
                    let pv = |ps: PositionedSegment| pos_view(ps);
                    assert(out@.map_values(pv) =~= prev.map_values(pv).push((xg, bw as int)));
                    let trest = walk(s.skip(k as int + 1), x as int, 0, li, wi);
                    assert(prev.map_values(pv).push((xg, bw as int)) + trest.0 =~= prev.map_values(
                        pv,
                    ) + (seq![(xg, bw as int)] + trest.0));
                }
            },
            Entry::Spacer { amount } => {
                if amount >= 0 {
                    p = p + amount as u64;
                } else {
                    let wa: u64 = (-(amount as i64)) as u64;
                    proof {
                        assert(wa as int == entry_weight(s[k as int]));
                        assert(wa as int <= weight_sum(s.skip(k as int)));
                        assert(wa <= ws);
                        lemma_mul_inequality(wa as int, wi, li);
                        lemma_div_is_ordered(wa as int * li, wi * li, wi);
                        lemma_div_multiples_vanish(li, wi);
                        assert(wa as int * li >= 0) by (nonlinear_arith)
                            requires
                                wa as int >= 0,
                                li >= 0,
                        ;
                        lemma_div_is_ordered(0, wa as int * li, wi);
                        lemma_div_multiples_vanish(0, wi);
                        assert(wa as int * li <= 0x8000_0000 * 0xffff_ffff) by (nonlinear_arith)
                            requires
                                0 <= wa as int <= 0x8000_0000,
                                0 <= li <= 0xffff_ffff,
                        ;
                    }
                    let share = ((wa as u128) * (l as u128) / (ws as u128)) as u64;
                    proof {
                        assert(share as int == wa as int * li / wi);
                    }
                    p = p + share;
                    alloc = alloc + share;
                }
            },
        }
        k += 1;
    }
    proof {
        assert(s.skip(n as int) =~= Seq::<Entry>::empty());
    }
    let rem: u64 = if ws > 0 {
        l - alloc
    } else {
        0
    };
    let extra = p + rem;
    let ghost tfull = walk(s, 0, 0, li, wi);
    proof {
        lemma_walk_shape(s, 0, 0, li, wi);
    }
    match out.pop() {
        Some(lastseg) => {
            proof {
                let pv = |ps: PositionedSegment| pos_view(ps);
                assert(pos_view(lastseg) == tfull.0.last());
                assert(tfull.0.last().0 + tfull.0.last().1 == tfull.1);
            }
            let widened = PositionedSegment { x: lastseg.x, width: lastseg.width + extra };
            out.push(widened);
            proof {
                let pv = |ps: PositionedSegment| pos_view(ps);
                assert(out@.map_values(pv) =~= positions(s, li, wi));
            }
            Ok(out)
        },
        None => {
            proof {
                assert(out@.map_values(|ps: PositionedSegment| pos_view(ps)) =~= positions(
                    s,
                    li,
                    wi,
                ));
            }
            Ok(out)
        },
    }
}

/// Law: placed blocks tile the region from its start: the first block sits
/// at offset zero and each further block begins exactly where the previous
/// one ends.
pub proof fn lemma_layout_contiguous(s: Seq<Entry>, available: Option<u32>)
    requires
        layout_spec(s, available) is Ok,
    ensures
        ({
            let ps = layout_spec(s, available)->Ok_0;
            &&& ps.len() == seg_count(s)
            &&& ps.len() > 0 ==> ps[0].0 == 0
            &&& (forall|j: int| 0 <= j < ps.len() - 1 ==> (#[trigger] ps[j + 1]).0 == ps[j].0 + ps[j].1)
        }),
{
    let l = match available {
        Some(bound) => bound - fixed_sum(s),
        None => 0int,
    };
    let w = weight_sum(s);
    lemma_fixed_sum_nonneg(s);
    let t = walk(s, 0, 0, l, w);
    lemma_walk_shape(s, 0, 0, l, w);
    let ps = layout_spec(s, available)->Ok_0;
    assert(ps.len() == t.0.len());
    assert(forall|j: int| 0 <= j < ps.len() - 1 ==> (#[trigger] ps[j + 1]).0 == t.0[j + 1].0);
    assert(forall|j: int| 0 <= j < ps.len() - 1 ==> ps[j].0 == t.0[j].0);
    assert(forall|j: int| 0 <= j < ps.len() - 1 ==> ps[j].1 == t.0[j].1);
}

impl LayoutError {
    /// The diagnostic shown to the user: what went wrong, and for an
    /// overflow, by how much.
    pub fn message(&self) -> (r: String)
        ensures
            r@ == (match *self {
                LayoutError::OutOfSpace { need } => "out of space: need "@ + spec_digits(
                    need as int,
                ) + " more"@,
                LayoutError::UnboundedFill => "proportional space in a region without a width bound"@,
            }),
    {
        match self {
            LayoutError::OutOfSpace { need } => {
                let mut s = String::new();
                crate::draw::push_str(&mut s, "out of space: need ");
                crate::numfmt::push_u64(&mut s, *need);
                crate::draw::push_str(&mut s, " more");
                assert(s@ =~= "out of space: need "@ + spec_digits(*need as int) + " more"@);
                s
            },
            LayoutError::UnboundedFill => {
                let mut s = String::new();
                crate::draw::push_str(
                    &mut s,
                    "proportional space in a region without a width bound",
                );
                assert(s@ =~= "proportional space in a region without a width bound"@);
                s
            },
        }
    }
}

} // verus!

//! A piecewise-linear lookup from a scalar metric value to an interpolated
//! color, given a table of (key, color) control points with strictly
//! increasing keys.

use vstd::prelude::*;

use crate::color::Color;

verus! {

/// Why a control-point table was rejected.
#[derive(Debug, PartialEq, Eq, Structural)]
pub enum ConfigError {
    /// Fewer than two control points were supplied.
    TooFewPoints,
    /// The keys are not strictly increasing; carries the offending index.
    KeysNotIncreasing(usize),
}

/// A map that stores (key, color) control points and interpolates linearly
/// between the two colors that bracket a looked-up value. Values outside the
/// key range are clamped to the first or last color.
#[derive(Clone, Debug)]
pub struct ColorMap {
    keys: Vec<i64>,
    colors: Vec<Color>,
}

/// One channel interpolated between `c0` at key `k0` and `c1` at key `k1`,
/// for a value `v` with `k0 < v <= k1`: the integer part of
/// `(c0*(k1-v) + c1*(v-k0)) / (k1-k0)`.
pub open spec fn lerp_channel(c0: int, c1: int, k0: int, k1: int, v: int) -> int
    recommends
        k0 < v <= k1,
{
    (c0 * (k1 - v) + c1 * (v - k0)) / (k1 - k0)
}

/// Both colors interpolated channel by channel.
pub open spec fn lerp_color(c0: Color, c1: Color, k0: int, k1: int, v: int) -> Color {
    Color {
        r: lerp_channel(c0.r as int, c1.r as int, k0, k1, v) as u8,
        g: lerp_channel(c0.g as int, c1.g as int, k0, k1, v) as u8,
        b: lerp_channel(c0.b as int, c1.b as int, k0, k1, v) as u8,
    }
}

/// The least index `i >= from` whose key is at least `v`, or the last index
/// when no key reaches `v`. This is the linear scan from the low end that the
/// lookup performs: the first index whose key is `>= v` wins.
pub open spec fn bracket_index(keys: Seq<i64>, v: int, from: int) -> int
    recommends
        1 <= from < keys.len(),
    decreases keys.len() - from,
{
    if from >= keys.len() - 1 {
        keys.len() - 1
    } else if keys[from] >= v {
        from
    } else {
        bracket_index(keys, v, from + 1)
    }
}

impl ColorMap {
    /// The control-point keys, in order.
    pub closed spec fn spec_keys(self) -> Seq<i64> {
        self.keys@
    }

    /// The control-point colors, in key order.
    pub closed spec fn spec_colors(self) -> Seq<Color> {
        self.colors@
    }

    /// A well-formed table: at least two points, keys strictly increasing.
    pub open spec fn wf(self) -> bool {
        &&& self.spec_keys().len() == self.spec_colors().len()
        &&& self.spec_keys().len() >= 2
        &&& forall|i: int|
            0 <= i < self.spec_keys().len() - 1 ==> #[trigger] self.spec_keys()[i]
                < self.spec_keys()[i + 1]
    }

    /// What the lookup returns: the first color below the first key, the last
    /// color above the last key, and otherwise the linear interpolation
    /// between the bracketing pair of control points.
    pub open spec fn spec_map(self, v: int) -> Color
        recommends
            self.wf(),
    {
        let keys = self.spec_keys();
        let colors = self.spec_colors();
        if v <= keys[0] {
            colors[0]
        } else if v >= keys[keys.len() - 1] {
            colors[keys.len() - 1]
        } else {
            let i = bracket_index(keys, v, 1);
            lerp_color(colors[i - 1], colors[i], keys[i - 1] as int, keys[i] as int, v)
        }
    }

    /// Builds a table from (key, color) pairs. Fails when fewer than two
    /// points are supplied or when the keys are not strictly increasing.
    pub fn from_points(points: &Vec<(i64, Color)>) -> (r: Result<ColorMap, ConfigError>)
        ensures
            r is Ok <==> points@.len() >= 2 && (forall|i: int|
                0 <= i < points@.len() - 1 ==> (#[trigger] points@[i]).0 < points@[i + 1].0),
            r matches Ok(cm) ==> cm.wf() && cm.spec_keys() == points@.map_values(|p: (i64, Color)| p.0)
                && cm.spec_colors() == points@.map_values(|p: (i64, Color)| p.1),
            r matches Err(e) ==> (match e {
                ConfigError::TooFewPoints => points@.len() < 2,
                ConfigError::KeysNotIncreasing(i) => 0 <= i < points@.len() - 1 && points@[
                    i as int
                ].0 >= points@[i as int + 1].0,
            }),
    {
        if points.len() < 2 {
            return Err(ConfigError::TooFewPoints);
        }
        let mut keys: Vec<i64> = Vec::new();
        let mut colors: Vec<Color> = Vec::new();
        let n = points.len();
        let mut i: usize = 0;
        while i < n
            invariant
                0 <= i <= n,
                n == points@.len(),
                keys@.len() == i,
                colors@.len() == i,
                forall|j: int| 0 <= j < i ==> keys@[j] == (#[trigger] points@[j]).0,
                forall|j: int| 0 <= j < i ==> colors@[j] == (#[trigger] points@[j]).1,
                forall|j: int| 0 <= j < i - 1 ==> (#[trigger] points@[j]).0 < points@[j + 1].0,
            decreases n - i,
        {
            if i > 0 && points[i - 1].0 >= points[i].0 {
                return Err(ConfigError::KeysNotIncreasing(i - 1));
            }
            keys.push(points[i].0);
            colors.push(points[i].1);
            i += 1;
        }
        proof {
            assert(keys@ =~= points@.map_values(|p: (i64, Color)| p.0));
            assert(colors@ =~= points@.map_values(|p: (i64, Color)| p.1));
        }
        Ok(ColorMap { keys, colors })
    }

    /// The number of control points.
    pub fn len(&self) -> (n: usize)
        ensures
            n == self.spec_keys().len(),
    {
        self.keys.len()
    }

    /// Interpolates: gives the color corresponding to the value, as dictated
    /// by the table. Values at or below the first key give the first color;
    /// values at or beyond the last key give the last color.
    pub fn map(&self, val: i64) -> (c: Color)
        requires
            self.wf(),
        ensures
            c == self.spec_map(val as int),
    {
        let n = self.keys.len();
        if val <= self.keys[0] {
            return self.colors[0];
        }
        if val >= self.keys[n - 1] {
            return self.colors[n - 1];
        }
        let mut i: usize = 1;
        while self.keys[i] < val && i < n - 1
            invariant
                self.wf(),
                1 <= i < n,
                n == self.spec_keys().len(),
                self.spec_keys()[i - 1] < val,
                val < self.spec_keys()[n - 1],
                bracket_index(self.spec_keys(), val as int, 1) == bracket_index(
                    self.spec_keys(),
                    val as int,
                    i as int,
                ),
            decreases n - i,
        {
            i += 1;
        }
        proof {
            assert(bracket_index(self.spec_keys(), val as int, i as int) == i);
        }
        let k0 = self.keys[i - 1];
        let k1 = self.keys[i];
        assert(k0 < val <= k1);
        let c0 = self.colors[i - 1];
        let c1 = self.colors[i];
        let red = lerp_channel_exec(c0.r, c1.r, k0, k1, val);
        let green = lerp_channel_exec(c0.g, c1.g, k0, k1, val);
        let blue = lerp_channel_exec(c0.b, c1.b, k0, k1, val);
        Color { r: red, g: green, b: blue }
    }
}

/// The interpolated value of one channel lies between the endpoint values, so
/// it fits a `u8` again.
proof fn lemma_lerp_channel_bounds(c0: int, c1: int, k0: int, k1: int, v: int)
    requires
        0 <= c0 <= 255,
        0 <= c1 <= 255,
        k0 < v <= k1,
    ensures
        0 <= lerp_channel(c0, c1, k0, k1, v) <= 255,
{
    let d = k1 - k0;
    let num = c0 * (k1 - v) + c1 * (v - k0);
    assert(num >= 0) by (nonlinear_arith)
        requires
            num == c0 * (k1 - v) + c1 * (v - k0),
            0 <= c0,
            0 <= c1,
            k0 < v <= k1,
    ;
    assert(num <= 255 * d) by (nonlinear_arith)
        requires
            num == c0 * (k1 - v) + c1 * (v - k0),
            c0 <= 255,
            c1 <= 255,
            0 <= c0,
            0 <= c1,
            k0 < v <= k1,
            d == k1 - k0,
    ;
    assert(num / d >= 0) by (nonlinear_arith)
        requires
            num >= 0,
            d > 0,
    ;
    assert(num / d <= 255) by (nonlinear_arith)
        requires
            num <= 255 * d,
            d > 0,
    ;
}

/// Keys of a well-formed table are increasing between any two indices, not
/// only between neighbours.
proof fn lemma_keys_sorted(cm: ColorMap, i: int, j: int)
    requires
        cm.wf(),
        0 <= i < j < cm.spec_keys().len(),
    ensures
        cm.spec_keys()[i] < cm.spec_keys()[j],
    decreases j - i,
{
    if j == i + 1 {
    } else {
        lemma_keys_sorted(cm, i, j - 1);
    }
}

/// Law: lookups clamp. Any value at or below the first key maps to the same
/// color as the first key itself, and any value at or beyond the last key to
/// the same color as the last key: the table is never extrapolated.
pub proof fn lemma_map_clamps(cm: ColorMap, v: int)
    requires
        cm.wf(),
    ensures
        v <= cm.spec_keys()[0] ==> cm.spec_map(v) == cm.spec_map(cm.spec_keys()[0] as int),
        v >= cm.spec_keys()[cm.spec_keys().len() - 1] ==> cm.spec_map(v) == cm.spec_map(
            cm.spec_keys()[cm.spec_keys().len() - 1] as int,
        ),
{
    lemma_keys_sorted(cm, 0, cm.spec_keys().len() - 1);
}

/// One channel at the exact midpoint of an interval is the truncated average
/// of the endpoint channels.
proof fn lemma_lerp_midpoint(c0: int, c1: int, k0: int, k1: int, v: int)
    requires
        0 <= c0,
        0 <= c1,
        k0 < v <= k1,
        v - k0 == k1 - v,
    ensures
        lerp_channel(c0, c1, k0, k1, v) == (c0 + c1) / 2,
{
    let e = v - k0;
    let q = (c0 + c1) / 2;
    let rm = (c0 + c1) % 2;
    vstd::arithmetic::div_mod::lemma_fundamental_div_mod(c0 + c1, 2);
    assert(c0 * (k1 - v) + c1 * (v - k0) == q * (2 * e) + rm * e) by (nonlinear_arith)
        requires
            k1 - v == e,
            v - k0 == e,
            c0 + c1 == 2 * q + rm,
    ;
    assert(0 <= rm * e < 2 * e) by (nonlinear_arith)
        requires
            0 <= rm < 2,
            e >= 1,
    ;
    vstd::arithmetic::div_mod::lemma_fundamental_div_mod_converse(
        c0 * (k1 - v) + c1 * (v - k0),
        2 * e,
        q,
        rm * e,
    );
}

/// Law: for a two-point table, the value halfway between the keys maps to the
/// exact even blend of the two colors, channel by channel (the average,
/// truncated toward zero on an odd sum).
pub proof fn lemma_map_midpoint(cm: ColorMap, v: int)
    requires
        cm.wf(),
        cm.spec_keys().len() == 2,
        v - cm.spec_keys()[0] == cm.spec_keys()[1] - v,
    ensures
        cm.spec_map(v) == (Color {
            r: ((cm.spec_colors()[0].r + cm.spec_colors()[1].r) / 2) as u8,
            g: ((cm.spec_colors()[0].g + cm.spec_colors()[1].g) / 2) as u8,
            b: ((cm.spec_colors()[0].b + cm.spec_colors()[1].b) / 2) as u8,
        }),
{
    let k0 = cm.spec_keys()[0] as int;
    let k1 = cm.spec_keys()[1] as int;
    let c0 = cm.spec_colors()[0];
    let c1 = cm.spec_colors()[1];
    assert(k0 < v < k1);
    lemma_lerp_midpoint(c0.r as int, c1.r as int, k0, k1, v);
    lemma_lerp_midpoint(c0.g as int, c1.g as int, k0, k1, v);
    lemma_lerp_midpoint(c0.b as int, c1.b as int, k0, k1, v);
}

fn lerp_channel_exec(c0: u8, c1: u8, k0: i64, k1: i64, v: i64) -> (r: u8)
    requires
        k0 < v <= k1,
    ensures
        r as int == lerp_channel(c0 as int, c1 as int, k0 as int, k1 as int, v as int),
{
    proof {
        lemma_lerp_channel_bounds(c0 as int, c1 as int, k0 as int, k1 as int, v as int);
    }
    let d = (k1 as i128 - k0 as i128) as u128;
    let dk1v = (k1 as i128 - v as i128) as u128;
    let dvk0 = (v as i128 - k0 as i128) as u128;
    proof {
        assert((c0 as u128) * dk1v <= 255 * 0xffff_ffff_ffff_ffffu128) by (nonlinear_arith)
            requires
                c0 as u128 <= 255,
                dk1v <= 0xffff_ffff_ffff_ffffu128,
        ;
        assert((c1 as u128) * dvk0 <= 255 * 0xffff_ffff_ffff_ffffu128) by (nonlinear_arith)
            requires
                c1 as u128 <= 255,
                dvk0 <= 0xffff_ffff_ffff_ffffu128,
        ;
    }
    let num = (c0 as u128) * dk1v + (c1 as u128) * dvk0;
    (num / d) as u8
}

} // verus!

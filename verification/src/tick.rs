//! Typed metric snapshots and the producer that assembles one per tick.
//!
//! The producer here is the decision core of the sampling loop: the runtime
//! hands it plain readings (cumulative network counters, per-cpu usage,
//! temperatures, available memory, an optional battery reading, the elapsed
//! time) and it turns them into one immutable [`TickMessage`], computing
//! counter deltas against its own previous sample and substituting defined
//! sentinels where a reading is absent. Rates are derived from deltas and
//! elapsed wall time, never from raw counters.
//!
//! Fractional quantities (charge, per-cpu usage) are carried in permille
//! (thousandths), temperatures in millidegrees Celsius.

use vstd::prelude::*;

verus! {

/// The battery's charging state, with `Unknown` doubling as the sentinel for
/// a machine without a battery.
#[derive(Copy, Clone, Debug, PartialEq, Eq, Structural)]
pub enum BatteryState {
    Unknown,
    Charging,
    Discharging,
    Empty,
    Full,
}

/// Battery snapshot: charge in permille of full, and the charging state.
#[derive(Copy, Clone, Debug, PartialEq, Eq, Structural)]
pub struct Battery {
    pub charge_permille: u32,
    pub state: BatteryState,
}

/// Bytes moved across all network interfaces since the last tick.
#[derive(Copy, Clone, Debug, PartialEq, Eq, Structural)]
pub struct Network {
    pub bytes_received: u64,
    pub bytes_transmitted: u64,
}

/// Cpu usage over the last tick, in permille: the least and most loaded
/// core, and the overall average.
#[derive(Copy, Clone, Debug, PartialEq, Eq, Structural)]
pub struct Cpu {
    pub min: u32,
    pub avg: u32,
    pub max: u32,
}

/// The hottest sensor, in millidegrees Celsius. `-1000` (that is, -1 °C)
/// stands for "no sensor reported".
#[derive(Copy, Clone, Debug, PartialEq, Eq, Structural)]
pub struct Temperature {
    pub max: i64,
}

/// Available memory in bytes.
#[derive(Copy, Clone, Debug, PartialEq, Eq, Structural)]
pub struct Memory {
    pub available: u64,
}

/// Everything sampled on one tick, shared read-only with every segment.
#[derive(Copy, Clone, Debug, PartialEq, Eq, Structural)]
pub struct TickMessage {
    /// Milliseconds since the previous tick.
    pub tick_duration_ms: u64,
    /// The time at this tick, as milliseconds since the Unix epoch.
    pub time_ms: i64,
    pub battery: Battery,
    pub network: Network,
    pub cpu: Cpu,
    pub temp: Temperature,
    pub memory: Memory,
}

/// The raw readings the runtime hands the producer for one tick. Counters
/// are cumulative since boot; everything else is instantaneous.
#[derive(Clone, Debug, PartialEq, Eq)]
pub struct TickSample {
    /// Cumulative bytes received across non-loopback interfaces.
    pub rx_total: u64,
    /// Cumulative bytes transmitted across non-loopback interfaces.
    pub tx_total: u64,
    /// Milliseconds elapsed since the previous sample.
    pub elapsed_ms: u64,
    /// The time now, as milliseconds since the Unix epoch.
    pub time_ms: i64,
    /// The battery reading, or nothing on a machine without one.
    pub battery: Option<Battery>,
    /// Available memory in bytes.
    pub available_memory: u64,
    /// Per-core usage over the tick, in permille.
    pub cpus: Vec<u32>,
    /// Overall usage over the tick, in permille.
    pub global_cpu: u32,
    /// Sensor temperatures, in millidegrees Celsius.
    pub temps: Vec<i64>,
}

/// A counter's move since the last sample: the difference when it grew, zero
/// when it was reset underneath us (a counter that shrank has wrapped or
/// restarted, and no meaningful delta exists).
pub open spec fn spec_delta(prev: int, now: int) -> int {
    if now >= prev {
        now - prev
    } else {
        0
    }
}

/// A per-second rate from a delta and the elapsed wall time: the delta
/// scaled by 1000 over the elapsed milliseconds, truncated; zero when no
/// time has passed (never a division by zero), and saturated at `u64::MAX`.
pub open spec fn spec_rate(delta: int, elapsed_ms: int) -> int {
    if elapsed_ms <= 0 {
        0
    } else {
        let r = delta * 1000 / elapsed_ms;
        if r > u64::MAX {
            u64::MAX as int
        } else {
            r
        }
    }
}

/// The battery snapshot for a reading: the reading itself, or the absent
/// sentinel (`Unknown` state, zero charge) on a machine without a battery.
pub open spec fn spec_battery(reading: Option<Battery>) -> Battery {
    match reading {
        Some(b) => b,
        None => Battery { charge_permille: 0, state: BatteryState::Unknown },
    }
}

/// The per-second rate for a counter delta. Fed the counters `1000` and then
/// `3000` two seconds apart, a producer reports `1000` bytes per second: the
/// delta over the elapsed time, not the raw delta and not the raw total.
pub fn rate_per_second(delta: u64, elapsed_ms: u64) -> (r: u64)
    ensures
        r as int == spec_rate(delta as int, elapsed_ms as int),
{
    if elapsed_ms == 0 {
        return 0;
    }
    let scaled = (delta as u128) * 1000 / (elapsed_ms as u128);
    proof {
        assert((delta as u128) * 1000 <= 0xffff_ffff_ffff_ffffu128 * 1000) by (nonlinear_arith)
            requires
                delta as u128 <= 0xffff_ffff_ffff_ffffu128,
        ;
    }
    if scaled > u64::MAX as u128 {
        u64::MAX
    } else {
        scaled as u64
    }
}

/// The producer that samples everything shown on a one-second tick. It keeps
/// the cumulative counters of its previous sample so that each message
/// carries deltas; the baseline is the reading taken at construction, so the
/// first tick reports what moved since process start over the actual elapsed
/// time, a low but correct figure rather than a spike.
pub struct TickProducer {
    prev_rx: u64,
    prev_tx: u64,
}

impl TickProducer {
    /// The cumulative received-bytes counter of the previous sample.
    pub closed spec fn spec_prev_rx(self) -> u64 {
        self.prev_rx
    }

    /// The cumulative transmitted-bytes counter of the previous sample.
    pub closed spec fn spec_prev_tx(self) -> u64 {
        self.prev_tx
    }

    /// A producer whose baseline is the counters read at process start.
    pub fn new(initial_rx: u64, initial_tx: u64) -> (p: TickProducer)
        ensures
            p.spec_prev_rx() == initial_rx,
            p.spec_prev_tx() == initial_tx,
    {
        TickProducer { prev_rx: initial_rx, prev_tx: initial_tx }
    }

    /// The message that seeds every cell before the first real tick: no
    /// elapsed time, nothing moved, and the battery sentinel when the
    /// machine has none. On a machine with no battery this is the `Unknown`
    /// state, not an error.
    pub fn initial_value(&self, time_ms: i64, battery: Option<Battery>, available_memory: u64) -> (m:
        TickMessage)
        ensures
            m.tick_duration_ms == 0,
            m.time_ms == time_ms,
            m.battery == spec_battery(battery),
            m.network == (Network { bytes_received: 0, bytes_transmitted: 0 }),
            m.cpu == (Cpu { min: 0, avg: 0, max: 0 }),
            m.temp == (Temperature { max: -1000i64 }),
            m.memory == (Memory { available: available_memory }),
    {
        TickMessage {
            tick_duration_ms: 0,
            time_ms,
            battery: battery_snapshot(battery),
            network: Network { bytes_received: 0, bytes_transmitted: 0 },
            cpu: Cpu { min: 0, avg: 0, max: 0 },
            temp: Temperature { max: -1000 },
            memory: Memory { available: available_memory },
        }
    }

    /// One tick: turns the raw readings into a message. The network field
    /// carries the counter movement since the previous sample; the producer
    /// then remembers the new counters as its next baseline. Per-core usage
    /// folds to its extrema, temperatures to the hottest sensor, and a
    /// missing battery becomes the `Unknown` sentinel, never a failure.
    pub fn step(&mut self, sample: &TickSample) -> (m: TickMessage)
        ensures
            m.tick_duration_ms == sample.elapsed_ms,
            m.time_ms == sample.time_ms,
            m.battery == spec_battery(sample.battery),
            m.network.bytes_received as int == spec_delta(
                old(self).spec_prev_rx() as int,
                sample.rx_total as int,
            ),
            m.network.bytes_transmitted as int == spec_delta(
                old(self).spec_prev_tx() as int,
                sample.tx_total as int,
            ),
            m.cpu.min as int == seq_min(sample.cpus@),
            m.cpu.max as int == seq_max(sample.cpus@),
            m.cpu.avg == sample.global_cpu,
            m.temp.max as int == spec_temp_max(sample.temps@),
            m.memory == (Memory { available: sample.available_memory }),
            final(self).spec_prev_rx() == sample.rx_total,
            final(self).spec_prev_tx() == sample.tx_total,
    {
        let rx_delta = counter_delta(self.prev_rx, sample.rx_total);
        let tx_delta = counter_delta(self.prev_tx, sample.tx_total);
        self.prev_rx = sample.rx_total;
        self.prev_tx = sample.tx_total;
        TickMessage {
            tick_duration_ms: sample.elapsed_ms,
            time_ms: sample.time_ms,
            battery: battery_snapshot(sample.battery),
            network: Network { bytes_received: rx_delta, bytes_transmitted: tx_delta },
            cpu: cpu_snapshot(&sample.cpus, sample.global_cpu),
            temp: temp_snapshot(&sample.temps),
            memory: Memory { available: sample.available_memory },
        }
    }
}

fn counter_delta(prev: u64, now: u64) -> (d: u64)
    ensures
        d as int == spec_delta(prev as int, now as int),
{
    if now >= prev {
        now - prev
    } else {
        0
    }
}

/// The defined reading for a possibly absent battery: the reading itself, or
/// the `Unknown` sentinel on a machine with none.
pub fn battery_snapshot(reading: Option<Battery>) -> (b: Battery)
    ensures
        b == spec_battery(reading),
{
    match reading {
        Some(b) => b,
        None => Battery { charge_permille: 0, state: BatteryState::Unknown },
    }
}

/// The least element of a sequence of permille readings, or 0 when empty.
pub open spec fn seq_min(s: Seq<u32>) -> int
    decreases s.len(),
{
    if s.len() == 0 {
        0
    } else if s.len() == 1 {
        s[0] as int
    } else if s[0] as int <= seq_min(s.skip(1)) {
        s[0] as int
    } else {
        seq_min(s.skip(1))
    }
}

/// The greatest element of a sequence of permille readings, or 0 when empty.
pub open spec fn seq_max(s: Seq<u32>) -> int
    decreases s.len(),
{
    if s.len() == 0 {
        0
    } else if s.len() == 1 {
        s[0] as int
    } else if s[0] as int >= seq_max(s.skip(1)) {
        s[0] as int
    } else {
        seq_max(s.skip(1))
    }
}

/// Folds per-core usage readings into the cpu snapshot: the least and
/// greatest core and the overall average the sampler reported. With no cores
/// reported, everything is zero.
pub fn cpu_snapshot(usages: &Vec<u32>, avg: u32) -> (c: Cpu)
    ensures
        c.min as int == seq_min(usages@),
        c.max as int == seq_max(usages@),
        c.avg == avg,
{
    let n = usages.len();
    if n == 0 {
        return Cpu { min: 0, avg, max: 0 };
    }
    let mut min = usages[0];
    let mut max = usages[0];
    let mut i: usize = 1;
    proof {
        assert(usages@.skip(0) =~= usages@);
    }
    while i < n
        invariant
            1 <= i <= n,
            n == usages@.len(),
            min as int == seq_min(usages@.take(i as int)),
            max as int == seq_max(usages@.take(i as int)),
        decreases n - i,
    {
        proof {
            lemma_minmax_take_step(usages@, i as int);
        }
        if usages[i] < min {
            min = usages[i];
        }
        if usages[i] > max {
            max = usages[i];
        }
        i += 1;
    }
    proof {
        assert(usages@.take(n as int) =~= usages@);
    }
    Cpu { min, avg, max }
}

/// Extending a non-empty prefix by one element updates its extrema in the
/// obvious way.
proof fn lemma_minmax_take_step(s: Seq<u32>, i: int)
    requires
        1 <= i < s.len(),
    ensures
        seq_min(s.take(i + 1)) == if s[i] as int <= seq_min(s.take(i)) {
            s[i] as int
        } else {
            seq_min(s.take(i))
        },
        seq_max(s.take(i + 1)) == if s[i] as int >= seq_max(s.take(i)) {
            s[i] as int
        } else {
            seq_max(s.take(i))
        },
{
    lemma_minmax_push(s.take(i), s[i]);
    assert(s.take(i + 1) =~= s.take(i).push(s[i]));
}

/// Appending an element to a non-empty sequence takes the minimum and
/// maximum of the old extrema and the new element.
proof fn lemma_minmax_push(s: Seq<u32>, v: u32)
    requires
        s.len() >= 1,
    ensures
        seq_min(s.push(v)) == if v as int <= seq_min(s) {
            v as int
        } else {
            seq_min(s)
        },
        seq_max(s.push(v)) == if v as int >= seq_max(s) {
            v as int
        } else {
            seq_max(s)
        },
    decreases s.len(),
{
    if s.len() == 1 {
        assert(s.push(v).skip(1) =~= seq![v]);
        assert(seq_min(s.push(v).skip(1)) == v as int);
        assert(seq_max(s.push(v).skip(1)) == v as int);
    } else {
        lemma_minmax_push(s.skip(1), v);
        assert(s.push(v).skip(1) =~= s.skip(1).push(v));
    }
}

/// The hottest of the reported sensor temperatures, in millidegrees, or the
/// `-1000` sentinel when no sensor reported anything.
pub open spec fn spec_temp_max(s: Seq<i64>) -> int
    decreases s.len(),
{
    if s.len() == 0 {
        -1000
    } else if s.len() == 1 {
        s[0] as int
    } else if s[0] as int >= spec_temp_max(s.skip(1)) {
        s[0] as int
    } else {
        spec_temp_max(s.skip(1))
    }
}

/// Folds sensor readings into the temperature snapshot: the hottest sensor,
/// or the sentinel when there is none.
pub fn temp_snapshot(readings: &Vec<i64>) -> (t: Temperature)
    ensures
        t.max as int == spec_temp_max(readings@),
{
    let n = readings.len();
    if n == 0 {
        return Temperature { max: -1000 };
    }
    let mut max = readings[0];
    let mut i: usize = 1;
    while i < n
        invariant
            1 <= i <= n,
            n == readings@.len(),
            max as int == spec_temp_max(readings@.take(i as int)),
        decreases n - i,
    {
        proof {
            lemma_temp_max_push(readings@.take(i as int), readings@[i as int]);
            assert(readings@.take(i as int + 1) =~= readings@.take(i as int).push(
                readings@[i as int],
            ));
        }
        if readings[i] > max {
            max = readings[i];
        }
        i += 1;
    }
    proof {
        assert(readings@.take(n as int) =~= readings@);
    }
    Temperature { max }
}

proof fn lemma_temp_max_push(s: Seq<i64>, v: i64)
    requires
        s.len() >= 1,
    ensures
        spec_temp_max(s.push(v)) == if v as int >= spec_temp_max(s) {
            v as int
        } else {
            spec_temp_max(s)
        },
    decreases s.len(),
{
    if s.len() == 1 {
        assert(s.push(v).skip(1) =~= seq![v]);
        assert(spec_temp_max(s.push(v).skip(1)) == v as int);
    } else {
        lemma_temp_max_push(s.skip(1), v);
        assert(s.push(v).skip(1) =~= s.skip(1).push(v));
    }
}

/// Sums the counters of the interfaces that matter: loopback devices (any
/// whose name starts with `lo`) are left out, all others contribute their
/// received and transmitted totals. Sums saturate rather than wrap.
pub fn sum_network_counters(interfaces: &Vec<(String, u64, u64)>) -> (r: (u64, u64))
    ensures
        r.0 as int == spec_net_sum_rx(interfaces@.map_values(|t: (String, u64, u64)| (t.0@, t.1, t.2))),
        r.1 as int == spec_net_sum_tx(interfaces@.map_values(|t: (String, u64, u64)| (t.0@, t.1, t.2))),
{
    let ghost view = interfaces@.map_values(|t: (String, u64, u64)| (t.0@, t.1, t.2));
    let n = interfaces.len();
    let mut rx: u64 = 0;
    let mut tx: u64 = 0;
    let mut i: usize = 0;
    proof {
        assert(view.skip(0) =~= view);
        lemma_net_sums_nonneg(view);
    }
    while i < n
        invariant
            i <= n,
            n == interfaces@.len(),
            view == interfaces@.map_values(|t: (String, u64, u64)| (t.0@, t.1, t.2)),
            spec_net_sum_rx(view) == (if rx as int + spec_net_sum_rx(view.skip(i as int))
                > u64::MAX {
                u64::MAX as int
            } else {
                rx as int + spec_net_sum_rx(view.skip(i as int))
            }),
            spec_net_sum_tx(view) == (if tx as int + spec_net_sum_tx(view.skip(i as int))
                > u64::MAX {
                u64::MAX as int
            } else {
                tx as int + spec_net_sum_tx(view.skip(i as int))
            }),
            spec_net_sum_rx(view.skip(i as int)) >= 0,
            spec_net_sum_tx(view.skip(i as int)) >= 0,
        decreases n - i,
    {
        proof {
            assert(view.skip(i as int)[0] == view[i as int]);
            assert(view.skip(i as int).skip(1) =~= view.skip(i as int + 1));
            lemma_net_sums_nonneg(view.skip(i as int + 1));
        }
        let skip = is_loopback(&interfaces[i].0);
        if !skip {
            rx = saturating_add(rx, interfaces[i].1);
            tx = saturating_add(tx, interfaces[i].2);
        }
        i += 1;
    }
    proof {
        assert(view.skip(n as int) =~= Seq::<(Seq<char>, u64, u64)>::empty());
    }
    (rx, tx)
}

/// Whether an interface name names a loopback device: it starts with `lo`.
pub open spec fn spec_is_loopback(name: Seq<char>) -> bool {
    name.len() >= 2 && name[0] == 'l' && name[1] == 'o'
}

fn is_loopback(name: &String) -> (r: bool)
    ensures
        r == spec_is_loopback(name@),
{
    let s = name.as_str();
    s.unicode_len() >= 2 && s.get_char(0) == 'l' && s.get_char(1) == 'o'
}

/// Received bytes summed over the non-loopback interfaces, saturating.
pub open spec fn spec_net_sum_rx(s: Seq<(Seq<char>, u64, u64)>) -> int
    decreases s.len(),
{
    if s.len() == 0 {
        0
    } else {
        let rest = spec_net_sum_rx(s.skip(1));
        if spec_is_loopback(s[0].0) {
            rest
        } else if s[0].1 + rest > u64::MAX {
            u64::MAX as int
        } else {
            s[0].1 + rest
        }
    }
}

/// Transmitted bytes summed over the non-loopback interfaces, saturating.
pub open spec fn spec_net_sum_tx(s: Seq<(Seq<char>, u64, u64)>) -> int
    decreases s.len(),
{
    if s.len() == 0 {
        0
    } else {
        let rest = spec_net_sum_tx(s.skip(1));
        if spec_is_loopback(s[0].0) {
            rest
        } else if s[0].2 + rest > u64::MAX {
            u64::MAX as int
        } else {
            s[0].2 + rest
        }
    }
}

proof fn lemma_net_sums_nonneg(s: Seq<(Seq<char>, u64, u64)>)
    ensures
        0 <= spec_net_sum_rx(s) <= u64::MAX,
        0 <= spec_net_sum_tx(s) <= u64::MAX,
    decreases s.len(),
{
    if s.len() > 0 {
        lemma_net_sums_nonneg(s.skip(1));
    }
}

fn saturating_add(a: u64, b: u64) -> (r: u64)
    ensures
        r as int == if a as int + b as int > u64::MAX {
            u64::MAX as int
        } else {
            a as int + b as int
        },
{
    if a > u64::MAX - b {
        u64::MAX
    } else {
        a + b
    }
}

/// The usage fraction of one cpu over an interval, in permille: one minus
/// the idle share. `idle_delta` counts scheduler ticks of ten milliseconds
/// (ten million nanoseconds) spent idle; `dt_ns` is the interval's length in
/// nanoseconds. Clamped into `[0, 1000]` against clock skew, and zero for an
/// empty interval.
pub open spec fn spec_cpu_usage(idle_delta: int, dt_ns: int) -> int {
    if dt_ns <= 0 {
        0
    } else {
        let idle_permille = idle_delta * 10_000_000_000 / dt_ns;
        if idle_permille >= 1000 {
            0
        } else {
            1000 - idle_permille
        }
    }
}

/// The usage of one cpu over an interval, from its idle-tick delta.
pub fn cpu_usage_permille(idle_delta: u64, dt_ns: u64) -> (r: u32)
    ensures
        r as int == spec_cpu_usage(idle_delta as int, dt_ns as int),
        r <= 1000,
{
    if dt_ns == 0 {
        return 0;
    }
    proof {
        assert((idle_delta as u128) * 10_000_000_000 <= 0xffff_ffff_ffff_ffffu128
            * 10_000_000_000) by (nonlinear_arith)
            requires
                idle_delta as u128 <= 0xffff_ffff_ffff_ffffu128,
        ;
    }
    let idle_permille = (idle_delta as u128) * 10_000_000_000 / (dt_ns as u128);
    if idle_permille >= 1000 {
        0
    } else {
        1000 - (idle_permille as u32)
    }
}

/// The usage of every cpu over an interval, from the idle-tick counters at
/// its start and end (paired by position). A counter that shrank reads as
/// zero idle time, so the cpu shows fully loaded rather than wrapping.
pub fn cpu_usages_from_idles(old_idles: &Vec<u64>, idles: &Vec<u64>, dt_ns: u64) -> (r: Vec<u32>)
    requires
        old_idles@.len() == idles@.len(),
    ensures
        r@.len() == idles@.len(),
        forall|i: int|
            0 <= i < r@.len() ==> (#[trigger] r@[i]) as int == spec_cpu_usage(
                spec_delta(old_idles@[i] as int, idles@[i] as int),
                dt_ns as int,
            ),
{
    let n = idles.len();
    let mut r: Vec<u32> = Vec::new();
    let mut i: usize = 0;
    while i < n
        invariant
            i <= n,
            n == idles@.len(),
            n == old_idles@.len(),
            r@.len() == i,
            forall|j: int|
                0 <= j < i ==> (#[trigger] r@[j]) as int == spec_cpu_usage(
                    spec_delta(old_idles@[j] as int, idles@[j] as int),
                    dt_ns as int,
                ),
        decreases n - i,
    {
        let delta = counter_delta(old_idles[i], idles[i]);
        r.push(cpu_usage_permille(delta, dt_ns));
        i += 1;
    }
    r
}

/// Where a reading sits between two bounds, in permille: zero at or below
/// the lower bound, full at or beyond the upper, linear in between. This is
/// how a temperature becomes a gauge value.
pub open spec fn spec_fraction_between(v: int, low: int, high: int) -> int
    recommends
        low < high,
{
    if v <= low {
        0
    } else if v >= high {
        1000
    } else {
        (v - low) * 1000 / (high - low)
    }
}

/// Scales a reading against a configured range into a permille gauge value,
/// clamped at the ends rather than extrapolated.
pub fn fraction_between(v: i64, low: i64, high: i64) -> (r: u32)
    requires
        low < high,
    ensures
        r as int == spec_fraction_between(v as int, low as int, high as int),
        r <= 1000,
{
    if v <= low {
        return 0;
    }
    if v >= high {
        return 1000;
    }
    let num = ((v as i128 - low as i128) as u128) * 1000;
    let den = (high as i128 - low as i128) as u128;
    proof {
        assert(((v as i128 - low as i128) as u128) * 1000 <= 0x1_0000_0000_0000_0000_0000u128)
            by (nonlinear_arith)
            requires
                ((v as i128 - low as i128) as u128) <= 0xffff_ffff_ffff_ffffu128,
        ;
        let vi = v as int;
        let lowi = low as int;
        let highi = high as int;
        assert((vi - lowi) * 1000 <= (highi - lowi) * 1000) by (nonlinear_arith)
            requires
                vi <= highi,
        ;
        vstd::arithmetic::div_mod::lemma_div_is_ordered(
            (vi - lowi) * 1000,
            (highi - lowi) * 1000,
            highi - lowi,
        );
        vstd::arithmetic::div_mod::lemma_div_multiples_vanish(1000, highi - lowi);
        assert((vi - lowi) * 1000 >= 0) by (nonlinear_arith)
            requires
                vi > lowi,
        ;
        vstd::arithmetic::div_mod::lemma_div_is_ordered(0, (vi - lowi) * 1000, highi - lowi);
        vstd::arithmetic::div_mod::lemma_div_multiples_vanish(0, highi - lowi);
    }
    (num / den) as u32
}

} // verus!

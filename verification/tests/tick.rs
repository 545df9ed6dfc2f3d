use rustybar::tick::battery_snapshot;
use rustybar::tick::cpu_snapshot;
use rustybar::tick::cpu_usage_permille;
use rustybar::tick::cpu_usages_from_idles;
use rustybar::tick::fraction_between;
use rustybar::tick::rate_per_second;
use rustybar::tick::sum_network_counters;
use rustybar::tick::temp_snapshot;
use rustybar::tick::Battery;
use rustybar::tick::BatteryState;
use rustybar::tick::TickProducer;
use rustybar::tick::TickSample;

#[test]
fn rate_is_delta_over_elapsed_time() {
    // Counters 1000 then 3000 two seconds apart: 1000 bytes per second, not
    // the raw delta 2000 and not the raw total 3000.
    let mut p = TickProducer::new(1000, 1000);
    let msg = p.step(&TickSample {
        rx_total: 3000,
        tx_total: 3000,
        elapsed_ms: 2000,
        time_ms: 0,
        battery: None,
        available_memory: 0,
        cpus: vec![],
        global_cpu: 0,
        temps: vec![],
    });
    assert_eq!(msg.network.bytes_received, 2000);
    assert_eq!(msg.tick_duration_ms, 2000);
    assert_eq!(
        rate_per_second(msg.network.bytes_received, msg.tick_duration_ms),
        1000
    );
}

#[test]
fn rate_handles_zero_elapsed_and_truncates() {
    assert_eq!(rate_per_second(500, 0), 0);
    assert_eq!(rate_per_second(999, 2000), 499);
    assert_eq!(rate_per_second(1, 1), 1000);
}

#[test]
fn counter_reset_reads_as_zero_delta() {
    let mut p = TickProducer::new(5000, 5000);
    let msg = p.step(&TickSample {
        rx_total: 100,
        tx_total: 4000,
        elapsed_ms: 1000,
        time_ms: 0,
        battery: None,
        available_memory: 0,
        cpus: vec![],
        global_cpu: 0,
        temps: vec![],
    });
    assert_eq!(msg.network.bytes_received, 0);
    assert_eq!(msg.network.bytes_transmitted, 0);
    // The new counters become the next baseline.
    let msg2 = p.step(&TickSample {
        rx_total: 200,
        tx_total: 4100,
        elapsed_ms: 1000,
        time_ms: 0,
        battery: None,
        available_memory: 0,
        cpus: vec![],
        global_cpu: 0,
        temps: vec![],
    });
    assert_eq!(msg2.network.bytes_received, 100);
    assert_eq!(msg2.network.bytes_transmitted, 100);
}

#[test]
fn absent_battery_is_unknown_not_error() {
    // A machine without a battery: the initial value carries the Unknown
    // sentinel, and every later tick does too — no panic anywhere.
    let p = TickProducer::new(0, 0);
    let initial = p.initial_value(0, None, 0);
    assert_eq!(initial.battery.state, BatteryState::Unknown);
    assert_eq!(initial.battery.charge_permille, 0);

    let mut p = p;
    for _ in 0..3 {
        let msg = p.step(&TickSample {
            rx_total: 0,
            tx_total: 0,
            elapsed_ms: 1000,
            time_ms: 0,
            battery: None,
            available_memory: 0,
            cpus: vec![],
            global_cpu: 0,
            temps: vec![],
        });
        assert_eq!(msg.battery.state, BatteryState::Unknown);
    }
}

#[test]
fn present_battery_passes_through() {
    let b = battery_snapshot(Some(Battery {
        charge_permille: 730,
        state: BatteryState::Discharging,
    }));
    assert_eq!(b.charge_permille, 730);
    assert_eq!(b.state, BatteryState::Discharging);
}

#[test]
fn cpu_fold_finds_extrema() {
    let c = cpu_snapshot(&vec![300, 100, 900, 400], 425);
    assert_eq!(c.min, 100);
    assert_eq!(c.max, 900);
    assert_eq!(c.avg, 425);
    let empty = cpu_snapshot(&vec![], 0);
    assert_eq!((empty.min, empty.avg, empty.max), (0, 0, 0));
}

#[test]
fn temperature_fold_takes_hottest_or_sentinel() {
    assert_eq!(temp_snapshot(&vec![41000, 67500, 55000]).max, 67500);
    assert_eq!(temp_snapshot(&vec![]).max, -1000);
}

#[test]
fn network_sum_skips_loopback() {
    let counters = vec![
        ("lo".to_string(), 999u64, 999u64),
        ("eth0".to_string(), 100, 10),
        ("wlan0".to_string(), 50, 5),
        ("lo0".to_string(), 777, 777),
    ];
    assert_eq!(sum_network_counters(&counters), (150, 15));
}

#[test]
fn cpu_usage_from_idle_ticks() {
    // One second, 40 idle ticks of 10 ms: 400 ms idle, 600 permille busy.
    assert_eq!(cpu_usage_permille(40, 1_000_000_000), 600);
    // Fully idle clamps to zero; an empty interval reads as idle.
    assert_eq!(cpu_usage_permille(100, 1_000_000_000), 0);
    assert_eq!(cpu_usage_permille(0, 0), 0);
    let usages = cpu_usages_from_idles(&vec![0, 100], &vec![40, 160], 1_000_000_000);
    assert_eq!(usages, vec![600, 400]);
}

#[test]
fn fraction_scales_and_clamps() {
    assert_eq!(fraction_between(30, 20, 80), 166);
    assert_eq!(fraction_between(10, 20, 80), 0);
    assert_eq!(fraction_between(95, 20, 80), 1000);
}

#[test]
fn proc_map_groups_hyperthreads_by_core() {
    // An interleaved two-core listing: processors 0 and 2 share core 0,
    // processors 1 and 3 share core 1. Display order groups each core's
    // threads together.
    let pairs = vec![(0usize, 0usize), (1, 1), (2, 0), (3, 1)];
    let map = rustybar::cpubar::build_proc_map(&pairs, 2, 2);
    assert_eq!(map, vec![0, 2, 1, 3]);
}

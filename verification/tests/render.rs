use rustybar::bytes::format_bytes;
use rustybar::color::Color;
use rustybar::color::ParseError;
use rustybar::colormap::ColorMap;
use rustybar::draw;
use rustybar::segment;
use rustybar::segment::ClockTime;
use rustybar::statusbar::write_one_bar;
use rustybar::statusbar::write_sep;
use rustybar::statusbar::write_space;
use rustybar::stdinbar::StdinBar;
use rustybar::tick;

#[test]
fn color_parses_hex() {
    let c = Color::from_hex("#4f97d7").unwrap();
    assert_eq!(c, Color::new(0x4f, 0x97, 0xd7));
    let upper = Color::from_hex("#4F97D7").unwrap();
    assert_eq!(upper, c);
}

#[test]
fn color_rejects_bad_strings() {
    assert!(matches!(Color::from_hex("4f97d7"), Err(ParseError::Other(_))));
    assert!(matches!(Color::from_hex("#4f97d"), Err(ParseError::Other(_))));
    assert!(matches!(
        Color::from_hex("#4g97d7"),
        Err(ParseError::ParseIntError('g'))
    ));
}

#[test]
fn color_parses_through_from_str() {
    let c: Color = "#a31db1".parse().unwrap();
    assert_eq!(c, Color::new(0xa3, 0x1d, 0xb1));
    assert!("nonsense".parse::<Color>().is_err());
}

#[test]
fn color_round_trips_through_hex() {
    let c = Color::new(18, 52, 86);
    assert_eq!(Color::from_hex(&c.to_hex()).unwrap(), c);
    assert_eq!(c.to_hex(), "#123456");
    assert_eq!(Color::new(0, 0, 0).to_hex(), "#000000");
}

#[test]
fn bytes_format_with_units() {
    assert_eq!(format_bytes(2345), "2.35 kB");
    assert_eq!(format_bytes(0), "0.00 kB");
    assert_eq!(format_bytes(999_490), "999. kB");
    assert_eq!(format_bytes(1_000_000), "1.00 MB");
    assert_eq!(format_bytes(99_949_000_000), "99.9 GB");
    assert_eq!(format_bytes(123_000_000_000_000), "123. TB");
    assert_eq!(format_bytes(u64::MAX), "18.4 EB");
}

#[test]
fn bytes_format_keeps_precision_across_rounding_boundaries() {
    // The decimal count follows the unrounded quotient: 9.996 is below ten,
    // so two decimals stay even though the value rounds up to 10.00; same
    // one step up.
    assert_eq!(format_bytes(9_996), "10.00 kB");
    assert_eq!(format_bytes(99_960), "100.0 kB");
    assert_eq!(format_bytes(999_990), "1000. kB");
    assert_eq!(format_bytes(10_000), "10.0 kB");
    assert_eq!(format_bytes(100_000), "100. kB");
}

#[test]
fn drawing_primitives_emit_protocol_text() {
    assert_eq!(draw::space(12), "^r(12x0)");
    assert_eq!(write_space(0), "^r(0x0)");
    assert_eq!(write_sep(10), "^fg(#888888)^r(2x10)");
    // Half full, 30 wide: 15 filled, 15 outlined.
    assert_eq!(
        write_one_bar(500, Color::new(255, 0, 0), 30, 10),
        "^fg(#ff0000)^r(15x10)^ro(15x10)"
    );
    // Rounding: 0.5 rounds the fill up.
    assert_eq!(
        draw::bar(500, Color::new(0, 0, 0), 31, 2),
        "^fg(#000000)^r(16x2)^ro(15x2)"
    );
}

fn gray_map() -> ColorMap {
    let pts = vec![
        (0i64, Color::new(0, 0, 0)),
        (1000, Color::new(200, 200, 200)),
    ];
    ColorMap::from_points(&pts).unwrap()
}

#[test]
fn clock_segment_formats_through_its_format_string() {
    let clock = segment::Clock::new(
        Color::new(0x4f, 0x97, 0xd7),
        "%Y-%m-%d %H:%M:%S".to_string(),
        19,
        4,
        7,
    );
    assert_eq!(clock.width(), 7 * 19 + 4);
    let t = ClockTime {
        year: 2024,
        month: 7,
        day: 15,
        hour: 16,
        minute: 24,
        second: 59,
    };
    // Would fail if the formatter handed its input back unchanged.
    assert_eq!(
        clock.render(&t).unwrap(),
        "^fg(#4f97d7)2024-07-15 16:24:59"
    );
    // An invalid date yields nothing rather than a panic.
    let bad = ClockTime {
        year: 2023,
        month: 2,
        day: 29,
        hour: 0,
        minute: 0,
        second: 0,
    };
    assert!(clock.render(&bad).is_none());
}

#[test]
fn memory_segment_colors_and_formats() {
    let pts = vec![
        (1_000_000_000i64, Color::new(0xf2, 0x24, 0x1f)),
        (3_000_000_000, Color::new(0x4f, 0x97, 0xd7)),
        (8_000_000_000, Color::new(0x2d, 0x95, 0x74)),
    ];
    let cm = ColorMap::from_points(&pts).unwrap();
    let mem = segment::Memory::new(cm, 4, 7);
    assert_eq!(mem.width(), 7 * 6 + 4);
    // Below the first key: clamped to the first color.
    assert_eq!(mem.render(500_000_000), "^fg(#f2241f)500. MB");
}

#[test]
fn network_segment_renders_both_rates() {
    let net = segment::Network::new(gray_map(), 4, 7);
    assert_eq!(net.width(), 7 * 13 + 4);
    let snapshot = tick::Network {
        bytes_received: 2000,
        bytes_transmitted: 0,
    };
    // 2000 bytes over 2 s: 1000 B/s received, 0 transmitted; 1000 permille
    // of the gray table is (200,200,200), 0 is black.
    assert_eq!(
        net.render(&snapshot, 2000),
        "^fg(#c8c8c8)1.00 kB ^fg(#000000)0.00 kB"
    );
}

#[test]
fn temp_segment_rounds_and_pads() {
    let pts = vec![
        (40_000i64, Color::new(0x2d, 0x95, 0x74)),
        (100_000, Color::new(0xf2, 0x24, 0x1f)),
    ];
    let cm = ColorMap::from_points(&pts).unwrap();
    let temp = segment::Temp::new(cm, 4, 7);
    assert_eq!(
        temp.render(&tick::Temperature { max: 67_500 }),
        "^fg(#87614d) 68 °C"
    );
    // The absent-sensor sentinel shows as -1, clamped to the first color.
    assert_eq!(
        temp.render(&tick::Temperature { max: -1000 }),
        "^fg(#2d9574) -1 °C"
    );
}

#[test]
fn cpu_segment_draws_three_gauges() {
    let cpu = segment::Cpu::new(gray_map(), 10, 20, 8, 2, 0);
    assert_eq!(cpu.width(), 10 * 2 + 20 + 2 * 2);
    let s = cpu.render(&tick::Cpu {
        min: 0,
        avg: 500,
        max: 1000,
    });
    assert_eq!(
        s,
        "^fg(#000000)^r(0x8)^ro(10x8)^r(2x0)^fg(#646464)^r(10x8)^ro(10x8)^r(2x0)^fg(#c8c8c8)^r(10x8)^ro(0x8)"
    );
}

#[test]
fn battery_segment_shows_state_glyph() {
    let colors = segment::BatteryColors {
        charge: Color::new(0, 255, 0),
        discharge: Color::new(255, 0, 0),
        unknown: Color::new(128, 0, 128),
    };
    let bat = segment::Battery::new(gray_map(), colors, 20, 8, 7, 2, 0);
    assert_eq!(bat.width(), 20 + 2 + 7);
    let s = bat.render(&tick::Battery {
        charge_permille: 1000,
        state: tick::BatteryState::Charging,
    });
    assert_eq!(s, "^fg(#c8c8c8)^r(20x8)^ro(0x8)^r(2x0)^fg(#00ff00)+");
    let unknown = bat.render(&tick::Battery {
        charge_permille: 0,
        state: tick::BatteryState::Unknown,
    });
    assert_eq!(unknown, "^fg(#000000)^r(0x8)^ro(20x8)^r(2x0)^fg(#800080)*");
}

#[test]
fn stdin_bar_echoes_its_line() {
    let bar = StdinBar::new();
    assert_eq!(bar.len(), 30);
    assert_eq!(bar.render(&"hello".to_string()), "hello");
}

#[test]
fn volume_bar_wraps_gauge_in_click_bindings() {
    let pts = vec![
        (0i64, Color::new(0, 0, 0)),
        (100, Color::new(200, 200, 200)),
    ];
    let bar = rustybar::volumebar::VolumeBar::new(ColorMap::from_points(&pts).unwrap());
    assert_eq!(bar.len(), 30);
    assert_eq!(bar.channel, "Master");
    // 40%: the table gives (80,80,80); 12 of 30 pixels fill.
    assert_eq!(
        bar.render(40, false),
        "^ca(1,xdotool key XF86AudioMute)^ca(4,xdotool key XF86AudioRaiseVolume)^ca(5,xdotool key XF86AudioLowerVolume)\
         ^fg(#505050)^r(12x10)^ro(18x10)^ca()^ca()^ca()".replace("\n         ", "")
    );
    // Muted: the mute color regardless of the level.
    assert!(bar.render(40, true).contains("^fg(#8200c8)"));
}

#[test]
fn rainbow_sweeps_the_table() {
    let config = rustybar::rainbow::RainbowConfig {
        colormap: gray_map(),
        width: 4,
        height: 5,
    };
    let strip = rustybar::rainbow::Rainbow::from_config(config);
    assert_eq!(strip.len(), 4);
    assert_eq!(
        strip.write(),
        "^fg(#000000)^r(1x5)^fg(#323232)^r(1x5)^fg(#646464)^r(1x5)^fg(#969696)^r(1x5)"
    );
}

#[test]
fn numbers_render_in_decimal() {
    assert_eq!(rustybar::numfmt::u64_string(0), "0");
    assert_eq!(rustybar::numfmt::u64_string(90210), "90210");
    assert_eq!(rustybar::numfmt::u64_string(u64::MAX), "18446744073709551615");
}

#[test]
fn mixer_output_parses_volume_and_mute() {
    let text = "Simple mixer control 'Master',0\n\
                  Capabilities: pvolume pswitch\n\
                  Front Left: Playback 39 [60%] [-18.00dB] [on]\n\
                  Front Right: Playback 39 [60%] [-18.00dB] [on]";
    assert_eq!(rustybar::volumebar::parse_mixer(text), Some((60, false)));
    let muted = "Mono: Playback 0 [7%] [off]";
    assert_eq!(rustybar::volumebar::parse_mixer(muted), Some((7, true)));
    // No Playback group, or a percentage that does not fit a byte: nothing.
    assert_eq!(rustybar::volumebar::parse_mixer("Capture 39 [60%] [on]"), None);
    assert_eq!(
        rustybar::volumebar::parse_mixer("Mono: Playback [999%] [on]"),
        None
    );
    assert_eq!(rustybar::volumebar::parse_mixer("Mono: Playback [60%]"), None);
}

use rustybar::clockbar::ClockBar;
use rustybar::config::ConsumerConfig;
use rustybar::config::RustybarConfig;

#[test]
fn default_theme_has_three_populated_regions() {
    let config = RustybarConfig::default();
    assert_eq!(config.global.height, 24);
    assert_eq!(config.global.background.to_hex(), "#000000");
    assert_eq!(config.global.font_size, 16);
    assert_eq!(config.global.spacing, 12);
    assert_eq!(config.left.len(), 2);
    assert_eq!(config.center.len(), 3);
    assert_eq!(config.right.len(), 4);
    assert!(matches!(config.left[0], ConsumerConfig::ClockConfig(_)));
    assert!(matches!(config.center[1], ConsumerConfig::CpuConfig(_)));
    assert!(matches!(config.right[2], ConsumerConfig::BatteryConfig(_)));
}

#[test]
fn default_theme_colormaps_interpolate() {
    let config = RustybarConfig::default();
    match &config.center[1] {
        ConsumerConfig::CpuConfig(cc) => {
            // The permille load table runs from the dark background at idle
            // to red at full load.
            assert_eq!(cc.colormap.map(1000).to_hex(), "#f2241f");
            assert_eq!(cc.colormap.map(0).to_hex(), "#1f2022");
            assert_eq!(cc.colormap.len(), 5);
        }
        other => panic!("unexpected center declaration: {:?}", other),
    }
}

#[test]
fn clock_bar_defaults_and_initialization() {
    let mut bar = ClockBar::new();
    assert_eq!(bar.format, "%I:%M:%S");
    assert_eq!(bar.color, "#cccccc");
    assert_eq!(bar.len(), 0);
    // Eight glyphs at seven pixels each.
    bar.initialize(7, 8);
    bar.set_lspace(10);
    assert_eq!(bar.get_lspace(), 10);
    assert_eq!(bar.len(), 10 + 56);
}

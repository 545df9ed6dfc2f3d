use rustybar::color::Color;
use rustybar::colormap::ColorMap;
use rustybar::colormap::ConfigError;

fn table(points: &[(i64, (u8, u8, u8))]) -> ColorMap {
    let pts: Vec<(i64, Color)> = points
        .iter()
        .map(|&(k, (r, g, b))| (k, Color::new(r, g, b)))
        .collect();
    ColorMap::from_points(&pts).expect("well-formed table")
}

#[test]
fn clamps_below_first_key() {
    let cm = table(&[(0, (10, 20, 30)), (50, (100, 100, 100)), (100, (200, 200, 200))]);
    assert_eq!(cm.map(-5), cm.map(0));
    assert_eq!(cm.map(-5), Color::new(10, 20, 30));
}

#[test]
fn clamps_above_last_key() {
    let cm = table(&[(0, (10, 20, 30)), (50, (100, 100, 100)), (100, (200, 200, 200))]);
    assert_eq!(cm.map(150), cm.map(100));
    assert_eq!(cm.map(150), Color::new(200, 200, 200));
}

#[test]
fn midpoint_is_even_blend_of_black_and_white() {
    let cm = table(&[(0, (0, 0, 0)), (100, (255, 255, 255))]);
    // The exact 50/50 blend of black and white with truncating integer
    // arithmetic: (0 + 255) / 2 = 127 on every channel.
    assert_eq!(cm.map(50), Color::new(127, 127, 127));
}

#[test]
fn interpolates_between_bracketing_points() {
    let cm = table(&[(0, (0, 0, 0)), (100, (200, 100, 50))]);
    assert_eq!(cm.map(25), Color::new(50, 25, 12));
    assert_eq!(cm.map(100), Color::new(200, 100, 50));
    assert_eq!(cm.map(0), Color::new(0, 0, 0));
}

#[test]
fn boundary_key_takes_upper_point() {
    // The first index whose key reaches the value wins the bracket, so a
    // value equal to an interior key yields that point's color exactly.
    let cm = table(&[(0, (0, 0, 0)), (50, (80, 80, 80)), (100, (255, 255, 255))]);
    assert_eq!(cm.map(50), Color::new(80, 80, 80));
}

#[test]
fn too_few_points_rejected() {
    let pts = vec![(0i64, Color::new(0, 0, 0))];
    assert!(matches!(
        ColorMap::from_points(&pts),
        Err(ConfigError::TooFewPoints)
    ));
}

#[test]
fn non_increasing_keys_rejected() {
    let pts = vec![
        (0i64, Color::new(0, 0, 0)),
        (50, Color::new(1, 1, 1)),
        (50, Color::new(2, 2, 2)),
    ];
    assert!(matches!(
        ColorMap::from_points(&pts),
        Err(ConfigError::KeysNotIncreasing(1))
    ));
}

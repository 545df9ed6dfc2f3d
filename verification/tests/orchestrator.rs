use rustybar::bar::arrange;
use rustybar::bar::fixed_width;
use rustybar::bar::BarParams;
use rustybar::layout::Entry;
use rustybar::layout::LayoutError;
use rustybar::layout::PositionedSegment;
use rustybar::producer::ProducerEnum;
use rustybar::producer::ProducerMap;
use rustybar::screen::find_screen;
use rustybar::screen::parse_geometry_token;
use rustybar::screen::parse_screen_line;
use rustybar::screen::parse_u32;
use rustybar::screen::screens_equal;
use rustybar::screen::Screen;
use rustybar::tick::TickProducer;

fn seg(width: u32) -> Entry {
    Entry::Segment { width }
}

fn spacer(amount: i32) -> Entry {
    Entry::Spacer { amount }
}

fn screens() -> Vec<Screen> {
    vec![
        Screen { id: 0, x: 0, y: 0, width: 1000 },
        Screen { id: 1, x: 1000, y: 0, width: 800 },
    ]
}

#[test]
fn center_cluster_is_centered_per_screen() {
    // Two screens; a two-segment center cluster of 50 pixels each. On each
    // screen the 100-pixel cluster starts at x + (width - 100) / 2 and the
    // two blocks tile it.
    let center = vec![seg(50), seg(50)];
    let none: Vec<Entry> = vec![];

    let s1 = find_screen(&screens(), 1).unwrap();
    let placed = arrange(&s1, &none, &center, &none, 0).expect("fits");
    assert_eq!(
        placed.center,
        vec![
            PositionedSegment { x: 1000 + 350, width: 50 },
            PositionedSegment { x: 1000 + 400, width: 50 },
        ]
    );

    let s0 = find_screen(&screens(), 0).unwrap();
    let placed = arrange(&s0, &none, &center, &none, 0).expect("fits");
    assert_eq!(
        placed.center,
        vec![
            PositionedSegment { x: 450, width: 50 },
            PositionedSegment { x: 500, width: 50 },
        ]
    );
}

#[test]
fn side_regions_are_bounded_beside_the_center() {
    let center = vec![seg(50), seg(50)];
    // Left content pinned to the screen edge; right content pushed to the
    // screen's right edge by a proportional spacer.
    let left = vec![seg(120)];
    let right = vec![spacer(-1), seg(80)];
    let s1 = Screen { id: 1, x: 1000, y: 0, width: 800 };
    let placed = arrange(&s1, &left, &center, &right, 10).expect("fits");
    // side = (800 - 100) / 2 = 350, less the 10-pixel gap: 340 available.
    assert_eq!(placed.left, vec![PositionedSegment { x: 1000, width: 120 }]);
    // The right region occupies the rightmost 340 pixels; its one segment,
    // preceded by the filled spacer, ends at the screen's right edge.
    assert_eq!(
        placed.right,
        vec![PositionedSegment { x: 1000 + 800 - 340, width: 340 }]
    );
}

#[test]
fn overfull_center_is_rejected() {
    let center = vec![seg(500), seg(400)];
    let none: Vec<Entry> = vec![];
    let s = Screen { id: 0, x: 0, y: 0, width: 800 };
    assert!(matches!(
        arrange(&s, &none, &center, &none, 0),
        Err(LayoutError::OutOfSpace { need: 100 })
    ));
}

#[test]
fn proportional_spacer_in_center_is_rejected() {
    let center = vec![seg(50), spacer(-1), seg(50)];
    let none: Vec<Entry> = vec![];
    let s = Screen { id: 0, x: 0, y: 0, width: 800 };
    assert!(matches!(
        arrange(&s, &none, &center, &none, 0),
        Err(LayoutError::UnboundedFill)
    ));
}

#[test]
fn overfull_side_region_is_rejected() {
    let center = vec![seg(100)];
    let left = vec![seg(400)];
    let none: Vec<Entry> = vec![];
    let s = Screen { id: 0, x: 0, y: 0, width: 800 };
    // side = (800 - 100) / 2 = 350: a 400-pixel left region misses 50.
    assert!(matches!(
        arrange(&s, &left, &center, &none, 0),
        Err(LayoutError::OutOfSpace { need: 50 })
    ));
}

#[test]
fn fixed_width_sums_segments_and_fixed_spacers() {
    let entries = vec![seg(50), spacer(10), spacer(-3), seg(40)];
    assert_eq!(fixed_width(&entries), 100);
}

#[test]
fn screen_lists_compare_by_value() {
    let a = screens();
    let b = screens();
    assert!(screens_equal(&a, &b));
    let mut c = screens();
    c[1].width = 801;
    assert!(!screens_equal(&a, &c));
    let shorter = vec![a[0]];
    assert!(!screens_equal(&a, &shorter));
}

#[test]
fn find_screen_matches_id() {
    assert_eq!(find_screen(&screens(), 1).unwrap().x, 1000);
    assert!(find_screen(&screens(), 7).is_none());
}

#[test]
fn bar_params_defaults() {
    let p = BarParams::default();
    assert_eq!((p.x, p.y, p.w, p.h), (0, 100, 0, 0));
    assert_eq!(p.bg.to_hex(), "#000000");
    assert_eq!(p.font, "Monospace-12");
}

#[test]
fn producer_map_keeps_one_per_kind() {
    let mut map = ProducerMap::new();
    map.register(ProducerEnum::TickProducer(TickProducer::new(0, 0)));
    map.register(ProducerEnum::TickProducer(TickProducer::new(9, 9)));
    let producers = map.into_producers();
    assert_eq!(producers.len(), 1);
    // The first registration won.
    match &producers[0] {
        ProducerEnum::TickProducer(_) => {}
    }
}

#[test]
fn geometry_token_parses_the_monitor_listing_shape() {
    assert_eq!(
        parse_geometry_token("1920/344x1080/194+0+0"),
        Some((1920, 1080, 0, 0))
    );
    assert_eq!(
        parse_geometry_token("800/211x600/158+1000+24"),
        Some((800, 600, 1000, 24))
    );
    assert_eq!(parse_geometry_token("1920/344x1080/194+0"), None);
    assert_eq!(parse_geometry_token("x1080/194+0+0"), None);
    assert_eq!(parse_geometry_token("1920/344x1080/194+0+0junk"), None);
    assert_eq!(parse_geometry_token("99999999999/1x1/1+0+0"), None);
    assert_eq!(parse_u32(" 0"), None);
    assert_eq!(parse_u32("12"), Some(12));
    assert_eq!(parse_u32("4294967296"), None);
}

#[test]
fn monitor_lines_parse_to_screens() {
    assert_eq!(
        parse_screen_line(" 0: +*eDP-1 1920/344x1080/194+0+0  eDP-1"),
        Some(Screen { id: 0, x: 0, y: 0, width: 1920 })
    );
    assert_eq!(
        parse_screen_line("1: +DP-3 800/211x600/158+1000+24  DP-3"),
        Some(Screen { id: 1, x: 1000, y: 24, width: 800 })
    );
    // A geometry-shaped suffix inside a longer token does not count.
    assert_eq!(parse_screen_line(" 0: ab1920/344x1080/194+0+0"), None);
    assert_eq!(parse_screen_line("Monitors: 2"), None);
    assert_eq!(parse_screen_line(""), None);
}

#[test]
fn line_assembly_fills_gaps_with_space_commands() {
    let parts = vec![
        rustybar::bar::RenderedSegment { x: 1010, width: 4, text: "AA".to_string() },
        rustybar::bar::RenderedSegment { x: 1020, width: 3, text: "BB".to_string() },
        rustybar::bar::RenderedSegment { x: 1023, width: 2, text: "CC".to_string() },
    ];
    // Gaps of 10 and 6 pixels; the third part abuts the second.
    assert_eq!(
        rustybar::bar::assemble_line(1000, &parts),
        "^r(10x0)AA^r(6x0)BBCC"
    );
    let empty: Vec<rustybar::bar::RenderedSegment> = vec![];
    assert_eq!(rustybar::bar::assemble_line(0, &empty), "");
}

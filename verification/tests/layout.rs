use rustybar::layout::compute;
use rustybar::layout::Entry;
use rustybar::layout::LayoutError;
use rustybar::layout::PositionedSegment;

fn seg(width: u32) -> Entry {
    Entry::Segment { width }
}

fn spacer(amount: i32) -> Entry {
    Entry::Spacer { amount }
}

#[test]
fn proportional_spacers_fill_region_exactly() {
    // Segments of 20/20/20 with an equal-weight proportional spacer between
    // each pair, in a region of 100: the leftover 40 splits 20/20, and the
    // blocks tile the region exactly.
    let entries = vec![seg(20), spacer(-1), seg(20), spacer(-1), seg(20)];
    let placed = compute(&entries, Some(100)).expect("fits");
    assert_eq!(
        placed,
        vec![
            PositionedSegment { x: 0, width: 20 },
            PositionedSegment { x: 20, width: 40 },
            PositionedSegment { x: 60, width: 40 },
        ]
    );
    let last = placed.last().unwrap();
    assert_eq!(last.x + last.width, 100);
}

#[test]
fn remainder_goes_to_last_segment() {
    // Leftover 41 over two unit weights grants 20 + 20 and leaves 1, which
    // widens the last block rather than vanish: the total is exactly 101.
    let entries = vec![seg(20), spacer(-1), seg(20), spacer(-1), seg(20)];
    let placed = compute(&entries, Some(101)).expect("fits");
    assert_eq!(
        placed,
        vec![
            PositionedSegment { x: 0, width: 20 },
            PositionedSegment { x: 20, width: 40 },
            PositionedSegment { x: 60, width: 41 },
        ]
    );
}

#[test]
fn weights_share_proportionally() {
    let entries = vec![seg(10), spacer(-1), seg(10), spacer(-3), seg(10)];
    // leftover = 100 - 30 = 70; weight total 4: shares 17 and 52, remainder
    // 1 widens the last block.
    let placed = compute(&entries, Some(100)).expect("fits");
    assert_eq!(
        placed,
        vec![
            PositionedSegment { x: 0, width: 10 },
            PositionedSegment { x: 10, width: 27 },
            PositionedSegment { x: 37, width: 63 },
        ]
    );
    let last = placed.last().unwrap();
    assert_eq!(last.x + last.width, 100);
}

#[test]
fn layout_error_messages_name_the_cause() {
    let e = LayoutError::OutOfSpace { need: 20 };
    assert_eq!(e.message(), "out of space: need 20 more");
    assert_eq!(
        LayoutError::UnboundedFill.message(),
        "proportional space in a region without a width bound"
    );
}

#[test]
fn overflow_is_rejected_with_the_missing_amount() {
    // Fixed content of 120 in a region of 100 must fail naming the 20
    // missing pixels, never silently clip.
    let entries = vec![seg(50), seg(50), seg(20)];
    assert_eq!(
        compute(&entries, Some(100)),
        Err(LayoutError::OutOfSpace { need: 20 })
    );
}

#[test]
fn fixed_spacers_count_as_fixed_content() {
    let entries = vec![seg(50), spacer(30), seg(40)];
    assert_eq!(
        compute(&entries, Some(100)),
        Err(LayoutError::OutOfSpace { need: 20 })
    );
}

#[test]
fn proportional_spacer_in_unbounded_region_rejected() {
    let entries = vec![seg(20), spacer(-1), seg(20)];
    assert_eq!(compute(&entries, None), Err(LayoutError::UnboundedFill));
}

#[test]
fn unbounded_region_sizes_to_content() {
    let entries = vec![seg(20), spacer(5), seg(30)];
    let placed = compute(&entries, None).expect("no bound needed");
    assert_eq!(
        placed,
        vec![
            PositionedSegment { x: 0, width: 20 },
            PositionedSegment { x: 20, width: 35 },
        ]
    );
}

#[test]
fn spacers_fold_into_margins() {
    // A leading spacer becomes the first block's leading margin; a trailing
    // spacer widens the last block.
    let entries = vec![spacer(7), seg(20), spacer(4)];
    let placed = compute(&entries, None).expect("no bound needed");
    assert_eq!(placed, vec![PositionedSegment { x: 0, width: 31 }]);
}

#[test]
fn empty_entries_place_nothing() {
    let entries: Vec<Entry> = vec![];
    assert_eq!(compute(&entries, Some(50)), Ok(vec![]));
    assert_eq!(compute(&entries, None), Ok(vec![]));
}

#[test]
fn exact_fit_has_no_leftover() {
    let entries = vec![seg(60), spacer(-2), seg(40)];
    let placed = compute(&entries, Some(100)).expect("fits exactly");
    assert_eq!(
        placed,
        vec![
            PositionedSegment { x: 0, width: 60 },
            PositionedSegment { x: 60, width: 40 },
        ]
    );
}

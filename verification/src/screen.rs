//! Physical outputs as the layout engine sees them: an id and a pixel
//! geometry. The runtime enumerates them; a change in the list tears every
//! bar down and recomputes the layout from scratch.

use vstd::prelude::*;

verus! {

/// One physical output.
#[derive(Debug, Eq, PartialEq, Copy, Clone, Structural)]
pub struct Screen {
    pub id: u32,
    pub x: u32,
    pub y: u32,
    pub width: u32,
}

/// Whether two enumerations describe the same outputs in the same order:
/// the test that decides if a screen change must restart the bars.
pub fn screens_equal(a: &Vec<Screen>, b: &Vec<Screen>) -> (r: bool)
    ensures
        r <==> a@ == b@,
{
    if a.len() != b.len() {
        proof {
            assert(a@.len() != b@.len());
        }
        return false;
    }
    let n = a.len();
    let mut i: usize = 0;
    while i < n
        invariant
            i <= n,
            n == a@.len(),
            n == b@.len(),
            forall|j: int| 0 <= j < i ==> a@[j] == b@[j],
        decreases n - i,
    {
        if a[i].id != b[i].id || a[i].x != b[i].x || a[i].y != b[i].y || a[i].width != b[i].width {
            proof {
                assert(a@[i as int] != b@[i as int]);
            }
            return false;
        }
        i += 1;
    }
    proof {
        assert(a@ =~= b@);
    }
    true
}

/// Finds the screen with a given id, as a bar bound to one output does
/// after each enumeration.
pub fn find_screen(screens: &Vec<Screen>, id: u32) -> (r: Option<Screen>)
    ensures
        (match r {
            Some(s) => exists|j: int|
                0 <= j < screens@.len() && screens@[j] == s && s.id == id && (forall|k: int|
                    0 <= k < j ==> screens@[k].id != id),
            None => forall|j: int| 0 <= j < screens@.len() ==> screens@[j].id != id,
        }),
{
    let n = screens.len();
    let mut i: usize = 0;
    while i < n
        invariant
            i <= n,
            n == screens@.len(),
            forall|k: int| 0 <= k < i ==> screens@[k].id != id,
        decreases n - i,
    {
        if screens[i].id == id {
            return Some(screens[i]);
        }
        i += 1;
    }
    None
}

/// The value of a decimal digit character, if it is one.
pub open spec fn digit_of(c: char) -> Option<int> {
    if '0' <= c && c <= '9' {
        Some((c as u8 - '0' as u8) as int)
    } else {
        None
    }
}

/// The maximal run of digits from position `i`, read as a number appended to
/// `acc`: the value and the position after the run.
pub open spec fn scan_digits(s: Seq<char>, i: int, acc: int) -> (int, int)
    recommends
        0 <= i <= s.len(),
    decreases s.len() - i,
{
    if i < s.len() && digit_of(s[i]) is Some {
        scan_digits(s, i + 1, acc * 10 + digit_of(s[i]).unwrap())
    } else {
        (acc, i)
    }
}

/// A number at position `i`: at least one digit, read maximally.
pub open spec fn parse_number(s: Seq<char>, i: int) -> Option<(int, int)>
    recommends
        0 <= i <= s.len(),
{
    if i < s.len() && digit_of(s[i]) is Some {
        Some(scan_digits(s, i, 0))
    } else {
        None
    }
}

/// The geometry token of a monitor listing, `W/wmmxH/hmm+X+Y`: pixel width,
/// then the physical width, the same pair for the height, then the x and y
/// offsets. Numbers wider than `u32` are rejected, as no pixel geometry
/// holds them.
pub open spec fn parse_geometry(s: Seq<char>) -> Option<(int, int, int, int)> {
    match parse_number(s, 0) {
        None => None,
        Some((w, i)) => {
            if !(i < s.len() && s[i] == '/') {
                None
            } else {
                match parse_number(s, i + 1) {
                    None => None,
                    Some((_wmm, i)) => {
                        if !(i < s.len() && s[i] == 'x') {
                            None
                        } else {
                            match parse_number(s, i + 1) {
                                None => None,
                                Some((h, i)) => {
                                    if !(i < s.len() && s[i] == '/') {
                                        None
                                    } else {
                                        match parse_number(s, i + 1) {
                                            None => None,
                                            Some((_hmm, i)) => {
                                                if !(i < s.len() && s[i] == '+') {
                                                    None
                                                } else {
                                                    match parse_number(s, i + 1) {
                                                        None => None,
                                                        Some((x, i)) => {
                                                            if !(i < s.len() && s[i] == '+') {
                                                                None
                                                            } else {
                                                                match parse_number(s, i + 1) {
                                                                    None => None,
                                                                    Some((y, i)) => {
                                                                        if i != s.len() {
                                                                            None
                                                                        } else if w > u32::MAX
                                                                            || h > u32::MAX || x
                                                                            > u32::MAX || y
                                                                            > u32::MAX {
                                                                            None
                                                                        } else {
                                                                            Some((w, h, x, y))
                                                                        }
                                                                    },
                                                                }
                                                            }
                                                        },
                                                    }
                                                }
                                            },
                                        }
                                    }
                                }
                            }
                        }
                    },
                }
            }
        },
    }
}

fn digit_of_exec(c: char) -> (r: Option<u8>)
    ensures
        (match r {
            Some(d) => digit_of(c) == Some(d as int),
            None => digit_of(c) is None,
        }),
{
    if '0' <= c && c <= '9' {
        Some(c as u8 - '0' as u8)
    } else {
        None
    }
}

/// Reads the maximal digit run from position `i`. The returned value is
/// exact when it fits a `u32` and sticks above `u32::MAX` when it does not,
/// which is all the geometry parser asks.
pub(crate) fn take_number(s: &str, i: usize) -> (r: Option<(u64, usize)>)
    requires
        i <= s@.len(),
    ensures
        (match (r, parse_number(s@, i as int)) {
            (Some((v, next)), Some(sp)) => {
                &&& next == sp.1
                &&& sp.0 <= u32::MAX ==> v == sp.0
                &&& (v > u32::MAX <==> sp.0 > u32::MAX)
                &&& next <= s@.len()
            },
            (None, None) => true,
            _ => false,
        }),
{
    let n = s.unicode_len();
    if i >= n {
        return None;
    }
    let first = match digit_of_exec(s.get_char(i)) {
        Some(d) => d,
        None => {
            return None;
        },
    };
    let ghost total = scan_digits(s@, i as int, 0);
    let mut acc: u64 = first as u64;
    let mut j: usize = i + 1;
    let ghost mut spec_acc: int = first as int;
    while j < n && digit_of_exec_is_some(s, j)
        invariant
            i < j <= n,
            n == s@.len(),
            scan_digits(s@, i as int, 0) == scan_digits(s@, j as int, spec_acc),
            spec_acc >= 0,
            spec_acc <= u32::MAX ==> acc == spec_acc,
            acc > u32::MAX <==> spec_acc > u32::MAX,
            acc <= 0xa_0000_0000u64,
        decreases n - j,
    {
        let d = match digit_of_exec(s.get_char(j)) {
            Some(d) => d,
            None => {
                proof {
                    assert(false);
                }
                0
            },
        };
        proof {
            spec_acc = spec_acc * 10 + digit_of(s@[j as int]).unwrap();
        }
        if acc <= 0xffff_ffff {
            acc = acc * 10 + d as u64;
        }
        j += 1;
    }
    proof {
        assert(scan_digits(s@, j as int, spec_acc) == (spec_acc, j as int));
    }
    Some((acc, j))
}

fn digit_of_exec_is_some(s: &str, j: usize) -> (r: bool)
    requires
        j < s@.len(),
    ensures
        r == (digit_of(s@[j as int]) is Some),
{
    digit_of_exec(s.get_char(j)).is_some()
}

fn expect_char(s: &str, i: usize, c: char) -> (r: bool)
    requires
        i <= s@.len(),
    ensures
        r == (i < s@.len() && s@[i as int] == c),
        s@.len() <= usize::MAX,
{
    i < s.unicode_len() && s.get_char(i) == c
}

/// Parses one geometry token of a monitor listing, such as
/// `1920/344x1080/194+0+0`: the pixel width and height and the x and y
/// offsets, exactly when the token matches the grammar and its numbers fit.
pub fn parse_geometry_token(s: &str) -> (r: Option<(u32, u32, u32, u32)>)
    ensures
        (match (r, parse_geometry(s@)) {
            (Some((w, h, x, y)), Some(sp)) => w == sp.0 && h == sp.1 && x == sp.2 && y == sp.3,
            (None, None) => true,
            _ => false,
        }),
{
    let (w, i) = match take_number(s, 0) {
        Some(p) => p,
        None => {
            return None;
        },
    };
    if !expect_char(s, i, '/') {
        return None;
    }
    let (_wmm, i) = match take_number(s, i + 1) {
        Some(p) => p,
        None => {
            return None;
        },
    };
    if !expect_char(s, i, 'x') {
        return None;
    }
    let (h, i) = match take_number(s, i + 1) {
        Some(p) => p,
        None => {
            return None;
        },
    };
    if !expect_char(s, i, '/') {
        return None;
    }
    let (_hmm, i) = match take_number(s, i + 1) {
        Some(p) => p,
        None => {
            return None;
        },
    };
    if !expect_char(s, i, '+') {
        return None;
    }
    let (x, i) = match take_number(s, i + 1) {
        Some(p) => p,
        None => {
            return None;
        },
    };
    if !expect_char(s, i, '+') {
        return None;
    }
    let (y, i) = match take_number(s, i + 1) {
        Some(p) => p,
        None => {
            return None;
        },
    };
    if i != s.unicode_len() {
        return None;
    }
    if w > u32::MAX as u64 || h > u32::MAX as u64 || x > u32::MAX as u64 || y > u32::MAX as u64 {
        return None;
    }
    Some((w as u32, h as u32, x as u32, y as u32))
}

/// Parses a whole number occupying a string, as the monitor id before the
/// colon is read. Rejected when anything but digits is present or the value
/// does not fit.
pub fn parse_u32(s: &str) -> (r: Option<u32>)
    ensures
        (match (r, parse_number(s@, 0)) {
            (Some(v), Some(sp)) => sp.1 == s@.len() && v == sp.0 && sp.0 <= u32::MAX,
            (None, _) => (match parse_number(s@, 0) {
                Some(sp) => sp.1 != s@.len() || sp.0 > u32::MAX,
                None => true,
            }),
            _ => false,
        }),
{
    let (v, i) = match take_number(s, 0) {
        Some(p) => p,
        None => {
            return None;
        },
    };
    if i != s.unicode_len() || v > u32::MAX as u64 {
        return None;
    }
    Some(v as u32)
}

/// The first position at or after `i` that does not hold a space.
pub open spec fn skip_spaces(s: Seq<char>, i: int) -> int
    recommends
        0 <= i <= s.len(),
    decreases s.len() - i,
{
    if i < s.len() && s[i] == ' ' {
        skip_spaces(s, i + 1)
    } else {
        i
    }
}

/// The end of the whitespace-delimited token running from `i`: the first
/// space at or after it, or the end of the line.
pub open spec fn token_end(s: Seq<char>, i: int) -> int
    recommends
        0 <= i <= s.len(),
    decreases s.len() - i,
{
    if i < s.len() && s[i] != ' ' {
        token_end(s, i + 1)
    } else {
        i
    }
}

/// The first whitespace-delimited token at or after `start` that is a
/// geometry, if any. Only token boundaries are tried, so a geometry-shaped
/// suffix inside a longer token does not count.
pub open spec fn scan_geometry(s: Seq<char>, i: int, start: int) -> Option<(int, int, int, int)>
    recommends
        0 <= start <= i <= s.len(),
    decreases s.len() - i,
{
    if i >= s.len() {
        None
    } else if s[i] != ' ' && (i == start || s[i - 1] == ' ') {
        match parse_geometry(s.subrange(i, token_end(s, i))) {
            Some(g) => Some(g),
            None => scan_geometry(s, i + 1, start),
        }
    } else {
        scan_geometry(s, i + 1, start)
    }
}

/// One line of the monitor listing: optional leading spaces, the monitor id,
/// a colon, and then — among the whitespace-separated tokens — the geometry.
/// Yields (id, width, x, y); the height the geometry also carries is not
/// kept, as the bars' height comes from the global configuration.
pub open spec fn parse_screen_line_spec(s: Seq<char>) -> Option<(int, int, int, int)> {
    let i0 = skip_spaces(s, 0);
    match parse_number(s, i0) {
        None => None,
        Some((id, i1)) => {
            if !(i1 < s.len() && s[i1] == ':') {
                None
            } else if id > u32::MAX {
                None
            } else {
                match scan_geometry(s, i1 + 1, i1 + 1) {
                    None => None,
                    Some((w, _h, x, y)) => Some((id, w, x, y)),
                }
            }
        },
    }
}

fn skip_spaces_exec(s: &str, i: usize) -> (r: usize)
    requires
        i <= s@.len(),
    ensures
        r as int == skip_spaces(s@, i as int),
        i <= r <= s@.len(),
{
    let n = s.unicode_len();
    let mut j = i;
    while j < n && s.get_char(j) == ' '
        invariant
            i <= j <= n,
            n == s@.len(),
            skip_spaces(s@, i as int) == skip_spaces(s@, j as int),
        decreases n - j,
    {
        j += 1;
    }
    j
}

fn token_end_exec(s: &str, i: usize) -> (r: usize)
    requires
        i <= s@.len(),
    ensures
        r as int == token_end(s@, i as int),
        i <= r <= s@.len(),
{
    let n = s.unicode_len();
    let mut j = i;
    while j < n && s.get_char(j) != ' '
        invariant
            i <= j <= n,
            n == s@.len(),
            token_end(s@, i as int) == token_end(s@, j as int),
        decreases n - j,
    {
        j += 1;
    }
    j
}

/// Parses one line of the monitor listing, such as
/// ` 0: +*eDP-1 1920/344x1080/194+0+0  eDP-1`: the id before the colon, and
/// the first token after it shaped like a geometry. A line of any other
/// shape yields nothing, so unparsable listing output reads as no screens
/// rather than a failure.
pub fn parse_screen_line(s: &str) -> (r: Option<Screen>)
    ensures
        (match (r, parse_screen_line_spec(s@)) {
            (Some(sc), Some(sp)) => sc.id == sp.0 && sc.width == sp.1 && sc.x == sp.2 && sc.y
                == sp.3,
            (None, None) => true,
            _ => false,
        }),
{
    let n = s.unicode_len();
    let i0 = skip_spaces_exec(s, 0);
    let (id, i1) = match take_number(s, i0) {
        Some(p) => p,
        None => {
            return None;
        },
    };
    if !(i1 < n && s.get_char(i1) == ':') {
        return None;
    }
    if id > u32::MAX as u64 {
        return None;
    }
    let start = i1 + 1;
    let mut j = start;
    while j < n
        invariant
            start <= j <= n,
            start == i1 + 1,
            i1 < n,
            n == s@.len(),
            id <= u32::MAX,
            parse_number(s@, skip_spaces(s@, 0)) == Some((id as int, i1 as int)),
            s@[i1 as int] == ':',
            scan_geometry(s@, start as int, start as int) == scan_geometry(
                s@,
                j as int,
                start as int,
            ),
        decreases n - j,
    {
        let boundary = j == start || s.get_char(j - 1) == ' ';
        if boundary && s.get_char(j) != ' ' {
            let k = token_end_exec(s, j);
            let token = s.substring_char(j, k);
            if let Some((w, h, x, y)) = parse_geometry_token(token) {
                proof {
                    assert(token@ == s@.subrange(j as int, token_end(s@, j as int)));
                    assert(parse_geometry(token@) == Some(
                        (w as int, h as int, x as int, y as int),
                    ));
                    assert(scan_geometry(s@, j as int, start as int) == Some(
                        (w as int, h as int, x as int, y as int),
                    ));
                    assert(parse_screen_line_spec(s@) == Some(
                        (id as int, w as int, x as int, y as int),
                    ));
                }
                return Some(Screen { id: id as u32, x, y, width: w });
            }
        }
        j += 1;
    }
    None
}

} // verus!

use vstd::prelude::*;
use vstd::string::StringExecFns;
use crate::text::{ascii_lower_code, eq_ignore_ascii_case, eq_ignoring_ascii_case};

verus! {

/// Size of a screen in pixels.
#[derive(Debug, Clone, Copy)]
pub struct Screen {
    pub width: i32,
    pub height: i32,
}

/// The screen edge a cursor touches, if any.
#[derive(Debug, Clone, Copy, PartialEq, Eq, Structural)]
pub enum PositionAtEdge {
    Top,
    Bottom,
    Left,
    Right,
    NoEdge,
}

/// The lower-case name of an edge, as `PositionAtEdge::to_string` gives it.
pub open spec fn edge_name(edge: PositionAtEdge) -> Seq<char> {
    match edge {
        PositionAtEdge::Bottom => seq!['b', 'o', 't', 't', 'o', 'm'],
        PositionAtEdge::Top => seq!['t', 'o', 'p'],
        PositionAtEdge::Left => seq!['l', 'e', 'f', 't'],
        PositionAtEdge::Right => seq!['r', 'i', 'g', 'h', 't'],
        PositionAtEdge::NoEdge => seq!['n', 'o', 'n', 'e'],
    }
}

/// The edge that `map_from_string` gives for `text`: the first of bottom, left, right
/// and top whose name equals `text` up to ASCII case, or `NoEdge` when none does.
pub open spec fn edge_from_name(text: Seq<char>) -> PositionAtEdge {
    if eq_ignoring_ascii_case(edge_name(PositionAtEdge::Bottom), text) {
        PositionAtEdge::Bottom
    } else if eq_ignoring_ascii_case(edge_name(PositionAtEdge::Left), text) {
        PositionAtEdge::Left
    } else if eq_ignoring_ascii_case(edge_name(PositionAtEdge::Right), text) {
        PositionAtEdge::Right
    } else if eq_ignoring_ascii_case(edge_name(PositionAtEdge::Top), text) {
        PositionAtEdge::Top
    } else {
        PositionAtEdge::NoEdge
    }
}

impl PositionAtEdge {
    /// The edge's name in lower case: "top", "bottom", "left", "right" or "none".
    pub fn to_string(&self) -> (name: String)
        ensures
            name@ == edge_name(*self),
    {
        match self {
            PositionAtEdge::Bottom => {
                proof {
                    reveal_strlit("bottom");
                }
                String::from_str("bottom")
            },
            PositionAtEdge::Top => {
                proof {
                    reveal_strlit("top");
                }
                String::from_str("top")
            },
            PositionAtEdge::Left => {
                proof {
                    reveal_strlit("left");
                }
                String::from_str("left")
            },
            PositionAtEdge::Right => {
                proof {
                    reveal_strlit("right");
                }
                String::from_str("right")
            },
            PositionAtEdge::NoEdge => {
                proof {
                    reveal_strlit("none");
                }
                String::from_str("none")
            },
        }
    }
}

/// Reads an edge from its name, ignoring ASCII case; any other text reads as `NoEdge`.
pub fn map_from_string(edge: String) -> (res: PositionAtEdge)
    ensures
        res == edge_from_name(edge@),
{
    if eq_ignore_ascii_case(PositionAtEdge::Bottom.to_string().as_str(), edge.as_str()) {
        PositionAtEdge::Bottom
    } else if eq_ignore_ascii_case(PositionAtEdge::Left.to_string().as_str(), edge.as_str()) {
        PositionAtEdge::Left
    } else if eq_ignore_ascii_case(PositionAtEdge::Right.to_string().as_str(), edge.as_str()) {
        PositionAtEdge::Right
    } else if eq_ignore_ascii_case(PositionAtEdge::Top.to_string().as_str(), edge.as_str()) {
        PositionAtEdge::Top
    } else {
        PositionAtEdge::NoEdge
    }
}

/// Helpers for placing the cursor at the screen's edges.
pub struct MouseUtil;

/// Where the cursor goes when it wraps around from an edge: a new horizontal
/// position, a new vertical position, or no move at all.
#[derive(Debug, Clone, Copy, PartialEq, Eq, Structural)]
pub enum Reversal {
    MoveX(i32),
    MoveY(i32),
    Stay,
}

/// The edge reported for a cursor from the four tests against the screen's bounds
/// (at or left of the first column, at or right of the last column, at or above the
/// first row, at or below the last row): the left and right edges come before the top
/// and bottom ones, so a corner counts as a side.
pub open spec fn edge_for(at_left: bool, at_right: bool, at_top: bool, at_bottom: bool) -> PositionAtEdge {
    if at_left {
        PositionAtEdge::Left
    } else if at_right {
        PositionAtEdge::Right
    } else if at_top {
        PositionAtEdge::Top
    } else if at_bottom {
        PositionAtEdge::Bottom
    } else {
        PositionAtEdge::NoEdge
    }
}

/// Where wrapping from `edge` sends a cursor at `(x, y)`: from the top edge to row
/// `height - y - 5`, from the bottom to row `y - height + 5`, from the left to column
/// `width - x - 5`, from the right to column `width - x + 5`; away from the edges it
/// stays. (The values are exact wherever `reversal_fits` holds.)
pub open spec fn reversal(edge: PositionAtEdge, screen: Screen, x: int, y: int) -> Reversal {
    match edge {
        PositionAtEdge::Top => Reversal::MoveY((screen.height - y - 5) as i32),
        PositionAtEdge::Bottom => Reversal::MoveY((y - screen.height + 5) as i32),
        PositionAtEdge::Left => Reversal::MoveX((screen.width - x - 5) as i32),
        PositionAtEdge::Right => Reversal::MoveX((screen.width - x + 5) as i32),
        PositionAtEdge::NoEdge => Reversal::Stay,
    }
}

/// The wrap computes in `i32` without overflow: every intermediate difference and the
/// result fit.
pub open spec fn reversal_fits(edge: PositionAtEdge, screen: Screen, x: int, y: int) -> bool {
    match edge {
        PositionAtEdge::Top => i32::MIN <= screen.height - y <= i32::MAX
            && i32::MIN <= screen.height - y - 5,
        PositionAtEdge::Bottom => i32::MIN <= y - screen.height <= i32::MAX
            && y - screen.height + 5 <= i32::MAX,
        PositionAtEdge::Left => i32::MIN <= screen.width - x <= i32::MAX
            && i32::MIN <= screen.width - x - 5,
        PositionAtEdge::Right => i32::MIN <= screen.width - x <= i32::MAX
            && screen.width - x + 5 <= i32::MAX,
        PositionAtEdge::NoEdge => true,
    }
}

impl MouseUtil {
    /// The edge a cursor is at, given the outcome of its four bound tests.
    pub fn edge_from_bounds(at_left: bool, at_right: bool, at_top: bool, at_bottom: bool) -> (edge: Option<PositionAtEdge>)
        ensures
            edge == Some(edge_for(at_left, at_right, at_top, at_bottom)),
    {
        if at_left {
            Some(PositionAtEdge::Left)
        } else if at_right {
            Some(PositionAtEdge::Right)
        } else if at_top {
            Some(PositionAtEdge::Top)
        } else if at_bottom {
            Some(PositionAtEdge::Bottom)
        } else {
            Some(PositionAtEdge::NoEdge)
        }
    }

    /// Where a cursor at whole-pixel position `(x, y)` goes when it wraps around from
    /// `edge` to the opposite side of `screen`.
    pub fn reversed_coordinate(edge: PositionAtEdge, screen: Screen, x: i32, y: i32) -> (move_to: Reversal)
        requires
            reversal_fits(edge, screen, x as int, y as int),
        ensures
            move_to == reversal(edge, screen, x as int, y as int),
    {
        match edge {
            PositionAtEdge::Top => Reversal::MoveY(screen.height - y - 5),
            PositionAtEdge::Bottom => Reversal::MoveY(y - screen.height + 5),
            PositionAtEdge::Left => Reversal::MoveX(screen.width - x - 5),
            PositionAtEdge::Right => Reversal::MoveX(screen.width - x + 5),
            PositionAtEdge::NoEdge => Reversal::Stay,
        }
    }
}

/// The edge tests for a cursor at whole-pixel position `(x, y)` on `screen`.
pub open spec fn edge_at(screen: Screen, x: int, y: int) -> PositionAtEdge {
    edge_for(x <= 0, x >= screen.width - 1, y <= 0, y >= screen.height - 1)
}

/// Wrapping moves a cursor off the edge it was at: for a cursor on a screen at least
/// 8 pixels wide and 6 high that touches an edge, the position it wraps to is not at
/// that same edge, so the cursor does not bounce back at once.
pub proof fn wrap_leaves_the_edge(screen: Screen, x: i32, y: i32)
    requires
        screen.width >= 8,
        screen.height >= 6,
        0 <= x < screen.width,
        0 <= y < screen.height,
        edge_at(screen, x as int, y as int) != PositionAtEdge::NoEdge,
    ensures
        reversal_fits(edge_at(screen, x as int, y as int), screen, x as int, y as int),
        ({
            let edge = edge_at(screen, x as int, y as int);
            match reversal(edge, screen, x as int, y as int) {
                Reversal::MoveX(nx) => edge_at(screen, nx as int, y as int) != edge,
                Reversal::MoveY(ny) => edge_at(screen, x as int, ny as int) != edge,
                Reversal::Stay => false,
            }
        }),
{
}

/// The names of two different edges differ even when case is ignored.
proof fn edge_names_distinct(a: PositionAtEdge, b: PositionAtEdge)
    requires
        a != b,
    ensures
        !eq_ignoring_ascii_case(edge_name(a), edge_name(b)),
{
    let na = edge_name(a);
    let nb = edge_name(b);
    if na.len() == nb.len() {
        assert(ascii_lower_code(na[0]) != ascii_lower_code(nb[0]));
    }
}

/// An edge is read back from its name written in any mix of ASCII upper and lower
/// case; in particular `map_from_string` of `e.to_string()` is `e`.
pub proof fn edge_name_any_case(edge: PositionAtEdge, text: Seq<char>)
    requires
        eq_ignoring_ascii_case(text, edge_name(edge)),
    ensures
        edge_from_name(text) == edge,
{
    let all = seq![
        PositionAtEdge::Bottom,
        PositionAtEdge::Left,
        PositionAtEdge::Right,
        PositionAtEdge::Top,
        PositionAtEdge::NoEdge,
    ];
    assert forall|k: int| 0 <= k < all.len() && all[k] != edge implies !eq_ignoring_ascii_case(
        edge_name(all[k]),
        text,
    ) by {
        edge_names_distinct(all[k], edge);
        if eq_ignoring_ascii_case(edge_name(all[k]), text) {
            assert(eq_ignoring_ascii_case(edge_name(all[k]), edge_name(edge)));
        }
    }
    assert(all[0] == PositionAtEdge::Bottom);
    assert(all[1] == PositionAtEdge::Left);
    assert(all[2] == PositionAtEdge::Right);
    assert(all[3] == PositionAtEdge::Top);
}

/// Which edge is reported, in terms of the four bound tests: the left edge exactly when
/// the left test holds, whatever the others say; any other edge only when its own test
/// holds; and no edge exactly when none of the four tests holds.
pub proof fn reported_edge_follows_the_tests(at_left: bool, at_right: bool, at_top: bool, at_bottom: bool)
    ensures
        (edge_for(at_left, at_right, at_top, at_bottom) == PositionAtEdge::Left) == at_left,
        edge_for(at_left, at_right, at_top, at_bottom) == PositionAtEdge::Right ==> at_right,
        edge_for(at_left, at_right, at_top, at_bottom) == PositionAtEdge::Top ==> at_top,
        edge_for(at_left, at_right, at_top, at_bottom) == PositionAtEdge::Bottom ==> at_bottom,
        (edge_for(at_left, at_right, at_top, at_bottom) == PositionAtEdge::NoEdge) == (!at_left
            && !at_right && !at_top && !at_bottom),
        !at_left && at_right ==> edge_for(at_left, at_right, at_top, at_bottom) == PositionAtEdge::Right,
        !at_left && !at_right && at_top ==> edge_for(at_left, at_right, at_top, at_bottom)
            == PositionAtEdge::Top,
{
}

/// Where the wrap lands, measured from the screen's borders: leaving by the left edge
/// the cursor re-enters `x + 5` columns short of the right border (`width`); leaving by
/// the right edge it lands 5 columns past how far it was short of the right border;
/// leaving by the top it re-enters `y + 5` rows above the bottom border (`height`);
/// leaving by the bottom it lands 5 rows past how far it was below the bottom border.
/// The other coordinate is kept, and away from the edges the cursor stays.
pub proof fn wrap_lands_across_the_screen(edge: PositionAtEdge, screen: Screen, x: i32, y: i32)
    requires
        reversal_fits(edge, screen, x as int, y as int),
    ensures
        edge == PositionAtEdge::Left ==> (reversal(edge, screen, x as int, y as int) matches Reversal::MoveX(nx)
            && screen.width - nx == x + 5),
        edge == PositionAtEdge::Right ==> (reversal(edge, screen, x as int, y as int) matches Reversal::MoveX(nx)
            && nx - 5 == screen.width - x),
        edge == PositionAtEdge::Top ==> (reversal(edge, screen, x as int, y as int) matches Reversal::MoveY(ny)
            && screen.height - ny == y + 5),
        edge == PositionAtEdge::Bottom ==> (reversal(edge, screen, x as int, y as int) matches Reversal::MoveY(ny)
            && ny - 5 == y - screen.height),
        edge == PositionAtEdge::NoEdge ==> reversal(edge, screen, x as int, y as int) == Reversal::Stay,
{
}

/// Wrapping from the left, the right or the top edge undoes itself: wrapping the new
/// position again from the same edge brings the cursor back to where it was (stated
/// where the second wrap also computes without overflow).
pub proof fn wrap_twice_returns(edge: PositionAtEdge, screen: Screen, x: i32, y: i32)
    requires
        edge == PositionAtEdge::Left || edge == PositionAtEdge::Right || edge == PositionAtEdge::Top,
        reversal_fits(edge, screen, x as int, y as int),
        match reversal(edge, screen, x as int, y as int) {
            Reversal::MoveX(nx) => reversal_fits(edge, screen, nx as int, y as int),
            Reversal::MoveY(ny) => reversal_fits(edge, screen, x as int, ny as int),
            Reversal::Stay => true,
        },
    ensures
        match reversal(edge, screen, x as int, y as int) {
            Reversal::MoveX(nx) => reversal(edge, screen, nx as int, y as int) == Reversal::MoveX(x),
            Reversal::MoveY(ny) => reversal(edge, screen, x as int, ny as int) == Reversal::MoveY(y),
            Reversal::Stay => false,
        },
{
}

} // verus!

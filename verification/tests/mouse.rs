use cursor_sync::mouse::{map_from_string, MouseUtil, PositionAtEdge, Reversal, Screen};

#[test]
fn edge_names_are_lower_case() {
    assert_eq!(PositionAtEdge::Top.to_string(), "top");
    assert_eq!(PositionAtEdge::Bottom.to_string(), "bottom");
    assert_eq!(PositionAtEdge::Left.to_string(), "left");
    assert_eq!(PositionAtEdge::Right.to_string(), "right");
    assert_eq!(PositionAtEdge::NoEdge.to_string(), "none");
}

#[test]
fn edge_read_from_its_name() {
    for edge in [
        PositionAtEdge::Top,
        PositionAtEdge::Bottom,
        PositionAtEdge::Left,
        PositionAtEdge::Right,
        PositionAtEdge::NoEdge,
    ] {
        assert_eq!(map_from_string(edge.to_string()), edge);
    }
}

#[test]
fn edge_read_ignoring_case() {
    assert_eq!(map_from_string("BOTTOM".to_string()), PositionAtEdge::Bottom);
    assert_eq!(map_from_string("LeFt".to_string()), PositionAtEdge::Left);
    assert_eq!(map_from_string("Right".to_string()), PositionAtEdge::Right);
    assert_eq!(map_from_string("tOP".to_string()), PositionAtEdge::Top);
}

#[test]
fn unknown_edge_name_reads_as_no_edge() {
    assert_eq!(map_from_string("middle".to_string()), PositionAtEdge::NoEdge);
    assert_eq!(map_from_string(String::new()), PositionAtEdge::NoEdge);
    assert_eq!(map_from_string("top ".to_string()), PositionAtEdge::NoEdge);
    assert_eq!(map_from_string("TÖP".to_string()), PositionAtEdge::NoEdge);
}

#[test]
fn sides_come_before_top_and_bottom() {
    assert_eq!(MouseUtil::edge_from_bounds(true, false, true, false), Some(PositionAtEdge::Left));
    assert_eq!(MouseUtil::edge_from_bounds(false, true, false, true), Some(PositionAtEdge::Right));
    assert_eq!(MouseUtil::edge_from_bounds(false, false, true, true), Some(PositionAtEdge::Top));
    assert_eq!(MouseUtil::edge_from_bounds(false, false, false, true), Some(PositionAtEdge::Bottom));
    assert_eq!(MouseUtil::edge_from_bounds(false, false, false, false), Some(PositionAtEdge::NoEdge));
}

#[test]
fn cursor_wraps_to_the_opposite_side() {
    let screen = Screen { width: 1920, height: 1080 };
    assert_eq!(MouseUtil::reversed_coordinate(PositionAtEdge::Top, screen, 300, 0), Reversal::MoveY(1075));
    assert_eq!(MouseUtil::reversed_coordinate(PositionAtEdge::Bottom, screen, 300, 1079), Reversal::MoveY(4));
    assert_eq!(MouseUtil::reversed_coordinate(PositionAtEdge::Left, screen, 0, 500), Reversal::MoveX(1915));
    assert_eq!(MouseUtil::reversed_coordinate(PositionAtEdge::Right, screen, 1919, 500), Reversal::MoveX(6));
    assert_eq!(MouseUtil::reversed_coordinate(PositionAtEdge::NoEdge, screen, 10, 10), Reversal::Stay);
}

#[test]
fn cursor_beyond_the_screen_wraps_by_the_same_formula() {
    let screen = Screen { width: 800, height: 600 };
    assert_eq!(MouseUtil::reversed_coordinate(PositionAtEdge::Left, screen, -20, 5), Reversal::MoveX(815));
    assert_eq!(MouseUtil::reversed_coordinate(PositionAtEdge::Top, screen, 5, -7), Reversal::MoveY(602));
}

fn edge_of(screen: Screen, x: i32, y: i32) -> PositionAtEdge {
    MouseUtil::edge_from_bounds(x <= 0, x >= screen.width - 1, y <= 0, y >= screen.height - 1).unwrap()
}

#[test]
fn wrapped_cursor_is_off_its_edge() {
    let screen = Screen { width: 8, height: 6 };
    for x in 0..screen.width {
        for y in 0..screen.height {
            let edge = edge_of(screen, x, y);
            match MouseUtil::reversed_coordinate(edge, screen, x, y) {
                Reversal::MoveX(nx) => assert_ne!(edge_of(screen, nx, y), edge),
                Reversal::MoveY(ny) => assert_ne!(edge_of(screen, x, ny), edge),
                Reversal::Stay => assert_eq!(edge, PositionAtEdge::NoEdge),
            }
        }
    }
}

#[test]
fn narrow_screen_keeps_cursor_at_right_edge() {
    let screen = Screen { width: 7, height: 6 };
    assert_eq!(edge_of(screen, 6, 3), PositionAtEdge::Right);
    assert_eq!(MouseUtil::reversed_coordinate(PositionAtEdge::Right, screen, 6, 3), Reversal::MoveX(6));
}

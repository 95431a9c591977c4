use snake_engine::collision::{check_border, check_self, Field};
use snake_engine::grid::{Dir, Position};
use snake_engine::snake::Snake;
use snake_engine::tiles::{classify_chain, determine_segment_type, determine_tail_type, SegmentType};

fn p(x: i32, y: i32) -> Position {
    Position { x, y }
}

#[test]
fn border_is_exact_at_each_edge() {
    let f = Field::standard();
    assert!(!check_border(p(6, 0), f));
    assert!(check_border(p(7, 0), f));
    assert!(!check_border(p(-5, 0), f));
    assert!(check_border(p(-6, 0), f));
    assert!(!check_border(p(0, 6), f));
    assert!(check_border(p(0, 7), f));
    assert!(!check_border(p(0, -5), f));
    assert!(check_border(p(0, -6), f));
    assert!(!check_border(p(6, 6), f));
    assert!(!check_border(p(-5, -5), f));
    assert!(check_border(p(7, 7), f));
}

#[test]
fn standard_field_corners() {
    let f = Field::standard();
    assert_eq!(f.min, p(-5, -5));
    assert_eq!(f.max, p(6, 6));
}

#[test]
fn border_ring_of_standard_field() {
    let f = Field::standard();
    let ring = f.border_cells();
    assert_eq!(ring.len(), 56);
    assert_eq!(ring[0], p(-6, 7));
    assert_eq!(ring[1], p(-6, -6));
    assert_eq!(ring[26], p(7, 7));
    assert_eq!(ring[27], p(7, -6));
    assert_eq!(ring[28], p(-6, -6));
    assert_eq!(ring[29], p(7, -6));
    assert_eq!(ring[55], p(7, 7));
    for c in &ring {
        assert!(check_border(*c, f));
    }
}

#[test]
fn self_check_finds_any_body_cell() {
    let body = vec![p(1, 0), p(1, 1), p(0, 1)];
    assert!(check_self(p(0, 1), &body));
    assert!(check_self(p(1, 0), &body));
    assert!(!check_self(p(0, 0), &body));
    assert!(!check_self(p(0, 0), &vec![]));
}

#[test]
fn example_chain_corner_and_tail() {
    let cells = vec![p(0, 0), p(-1, 0), p(-1, 1)];
    assert_eq!(
        classify_chain(&cells),
        vec![SegmentType::CornerRightUp, SegmentType::TailUp]
    );
    let s = Snake::from_cells(&cells, Dir::Right);
    assert_eq!(s.tiles(), vec![SegmentType::CornerRightUp, SegmentType::TailUp]);
    // Recomputing from the same chain gives the same tags.
    assert_eq!(s.tiles(), s.tiles());
}

#[test]
fn straight_segments() {
    assert_eq!(determine_segment_type(p(1, 0), p(0, 0), p(-1, 0)), SegmentType::Horizontal);
    assert_eq!(determine_segment_type(p(-1, 0), p(0, 0), p(1, 0)), SegmentType::Horizontal);
    assert_eq!(determine_segment_type(p(0, 1), p(0, 0), p(0, -1)), SegmentType::Vertical);
    assert_eq!(determine_segment_type(p(0, -1), p(0, 0), p(0, 1)), SegmentType::Vertical);
    // Both neighbours on one side.
    assert_eq!(determine_segment_type(p(1, 0), p(0, 0), p(1, 0)), SegmentType::Horizontal);
    assert_eq!(determine_segment_type(p(0, 1), p(0, 0), p(0, 1)), SegmentType::Vertical);
}

#[test]
fn corners_are_symmetric() {
    let o = p(0, 0);
    let (up, down, left, right) = (p(0, 1), p(0, -1), p(-1, 0), p(1, 0));
    assert_eq!(determine_segment_type(down, o, right), SegmentType::CornerDownRight);
    assert_eq!(determine_segment_type(right, o, down), SegmentType::CornerDownRight);
    assert_eq!(determine_segment_type(left, o, down), SegmentType::CornerLeftDown);
    assert_eq!(determine_segment_type(down, o, left), SegmentType::CornerLeftDown);
    assert_eq!(determine_segment_type(up, o, left), SegmentType::CornerUpLeft);
    assert_eq!(determine_segment_type(left, o, up), SegmentType::CornerUpLeft);
    assert_eq!(determine_segment_type(right, o, up), SegmentType::CornerRightUp);
    assert_eq!(determine_segment_type(up, o, right), SegmentType::CornerRightUp);
}

#[test]
fn non_adjacent_neighbours_fall_back() {
    assert_eq!(determine_segment_type(p(2, 0), p(0, 0), p(-1, 0)), SegmentType::Fallback);
    assert_eq!(determine_segment_type(p(1, 0), p(0, 0), p(-1, -1)), SegmentType::Fallback);
    assert_eq!(determine_tail_type(p(0, 0), p(1, 1)), SegmentType::Fallback);
    assert_eq!(determine_tail_type(p(0, 0), p(0, 0)), SegmentType::Fallback);
}

#[test]
fn tail_caps() {
    let o = p(0, 0);
    assert_eq!(determine_tail_type(o, p(0, 1)), SegmentType::TailUp);
    assert_eq!(determine_tail_type(o, p(0, -1)), SegmentType::TailDown);
    assert_eq!(determine_tail_type(o, p(1, 0)), SegmentType::TailRight);
    assert_eq!(determine_tail_type(o, p(-1, 0)), SegmentType::TailLeft);
}

#[test]
fn classify_short_chains() {
    assert_eq!(classify_chain(&vec![]), vec![]);
    assert_eq!(classify_chain(&vec![p(0, 0)]), vec![]);
    assert_eq!(classify_chain(&vec![p(1, 0), p(0, 0)]), vec![SegmentType::TailLeft]);
}

#[test]
fn atlas_indices() {
    assert_eq!(SegmentType::Horizontal.to_atlas_index(), 4);
    assert_eq!(SegmentType::Vertical.to_atlas_index(), 5);
    assert_eq!(SegmentType::CornerDownRight.to_atlas_index(), 8);
    assert_eq!(SegmentType::CornerLeftDown.to_atlas_index(), 9);
    assert_eq!(SegmentType::CornerUpLeft.to_atlas_index(), 13);
    assert_eq!(SegmentType::CornerRightUp.to_atlas_index(), 12);
    assert_eq!(SegmentType::TailRight.to_atlas_index(), 11);
    assert_eq!(SegmentType::TailDown.to_atlas_index(), 14);
    assert_eq!(SegmentType::TailLeft.to_atlas_index(), 15);
    assert_eq!(SegmentType::TailUp.to_atlas_index(), 10);
    assert_eq!(SegmentType::Fallback.to_atlas_index(), 7);
}

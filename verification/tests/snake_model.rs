use snake_game::snake::{Direction, Snake};

#[test]
fn opposite_is_involutive_for_all_directions() {
    let dirs = [Direction::Up, Direction::Down, Direction::Left, Direction::Right];
    for d in dirs {
        assert_eq!(d.opposite().opposite(), d);
    }
    assert_eq!(Direction::Up.opposite(), Direction::Down);
    assert_eq!(Direction::Down.opposite(), Direction::Up);
    assert_eq!(Direction::Left.opposite(), Direction::Right);
    assert_eq!(Direction::Right.opposite(), Direction::Left);
}

#[test]
fn new_snake_has_three_segments_heading_right() {
    let s = Snake::new(2, 2);
    assert_eq!(s.segments().as_slice(), &[(2, 2), (1, 2), (0, 2)]);
    assert_eq!(s.head_position(), (2, 2));
    assert_eq!(s.head_direction(), Direction::Right);
    assert_eq!(s.pending_growth(), 0);
}

#[test]
fn next_head_follows_requested_or_current_direction() {
    let s = Snake::new(5, 5);
    assert_eq!(s.next_head(None), (6, 5));
    assert_eq!(s.next_head(Some(Direction::Up)), (5, 4));
    assert_eq!(s.next_head(Some(Direction::Down)), (5, 6));
    assert_eq!(s.next_head(Some(Direction::Left)), (4, 5));
    assert_eq!(s.next_head(Some(Direction::Right)), (6, 5));
}

#[test]
fn move_forward_head_matches_next_head_computed_before() {
    let mut s = Snake::new(4, 4);
    for req in [
        None,
        Some(Direction::Down),
        Some(Direction::Right),
        Some(Direction::Up),
        Some(Direction::Right),
    ] {
        let predicted = s.next_head(req);
        s.move_forward(req);
        assert_eq!(s.head_position(), predicted);
    }
}

#[test]
fn move_without_growth_keeps_length_and_pops_tail() {
    let mut s = Snake::new(2, 2);
    s.move_forward(None);
    assert_eq!(s.segments().as_slice(), &[(3, 2), (2, 2), (1, 2)]);
    assert_eq!(s.segments().len(), 3);
}

#[test]
fn restore_tail_queues_growth_consumed_on_next_move() {
    let mut s = Snake::new(2, 2);
    s.move_forward(None);
    assert_eq!(s.segments().len(), 3);
    s.restore_tail();
    assert_eq!(s.pending_growth(), 1);
    s.move_forward(None);
    assert_eq!(s.segments().len(), 4);
    assert_eq!(s.pending_growth(), 0);
}

#[test]
fn restore_tail_queues_multiple_units() {
    let mut s = Snake::new(5, 5);
    s.restore_tail();
    s.restore_tail();
    s.restore_tail();
    assert_eq!(s.pending_growth(), 3);
    s.move_forward(None);
    s.move_forward(None);
    s.move_forward(None);
    assert_eq!(s.segments().len(), 6);
    assert_eq!(s.pending_growth(), 0);
    s.move_forward(None);
    assert_eq!(s.segments().len(), 6);
}

#[test]
fn overlap_tail_reports_every_segment() {
    let s = Snake::new(2, 2);
    assert!(s.overlap_tail(2, 2));
    assert!(s.overlap_tail(1, 2));
    assert!(s.overlap_tail(0, 2));
    assert!(!s.overlap_tail(3, 2));
    assert!(!s.overlap_tail(2, 3));
}

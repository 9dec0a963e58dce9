use snake_game::snake::Snake;
use snake_game::spawn::{spawn_big_food, spawn_food};

#[test]
fn spawned_food_is_interior_and_off_the_snake() {
    let s = Snake::new(2, 2);
    for _ in 0..200 {
        let p = spawn_food(&s, 30, 30).expect("a sparse board has free cells");
        assert!(p.0 > 0 && p.0 < 29 && p.1 > 0 && p.1 < 29);
        assert!(!s.overlap_tail(p.0, p.1));
    }
}

#[test]
fn spawned_food_varies_over_draws() {
    let s = Snake::new(2, 2);
    let first = spawn_food(&s, 30, 30).unwrap();
    let mut saw_other = false;
    for _ in 0..300 {
        if spawn_food(&s, 30, 30).unwrap() != first {
            saw_other = true;
            break;
        }
    }
    assert!(saw_other);
}

#[test]
fn spawn_reports_none_when_the_snake_covers_the_interior() {
    // on a 4x4 board the interior is the four cells (1,1) (2,1) (1,2)
    // (2,2); grow the snake over all of them
    let mut s = Snake::new(2, 2);
    s.restore_tail();
    s.restore_tail();
    s.move_forward(Some(snake_game::snake::Direction::Up));
    s.move_forward(Some(snake_game::snake::Direction::Left));
    assert!(s.overlap_tail(1, 1));
    assert!(s.overlap_tail(2, 1));
    assert!(s.overlap_tail(1, 2));
    assert!(s.overlap_tail(2, 2));
    assert_eq!(spawn_food(&s, 4, 4), None);
}

#[test]
fn big_food_block_fits_and_avoids_snake_when_search_succeeds() {
    let s = Snake::new(2, 2);
    for _ in 0..200 {
        let ((x, y), ok) = spawn_big_food(&s, 30, 30);
        assert!(x >= 1 && x <= 27 && y >= 1 && y <= 27);
        if ok {
            for dx in 0..2 {
                for dy in 0..2 {
                    assert!(!s.overlap_tail(x + dx, y + dy));
                }
            }
        }
    }
}

#[test]
fn big_food_search_succeeds_on_a_sparse_board() {
    let s = Snake::new(2, 2);
    let (_pos, ok) = spawn_big_food(&s, 30, 30);
    assert!(ok);
}

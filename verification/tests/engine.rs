use snake_game::game::Game;
use snake_game::menu::{GameMode, GameSpeed};
use snake_game::snake::Direction;

// The timed scenarios keep the snake alive by walking the rectangle ring
// with corners (3,3) and (26,26), clockwise. The fixed food cell (6,4) is
// not on the ring, so nothing is eaten unless a test steers into it.
fn ring_dir(head: (i32, i32)) -> Direction {
    let (x, y) = head;
    if y == 3 && x < 26 {
        Direction::Right
    } else if x == 26 && y < 26 {
        Direction::Down
    } else if y == 26 && x > 3 {
        Direction::Left
    } else {
        Direction::Up
    }
}

// One scheduling step: fix the heading (input-driven move) or let the
// clock run (at most one forced move per call). Returns whether the
// clock advanced.
fn ring_tick(g: &mut Game) -> bool {
    let head = g.snake().head_position();
    let desired = ring_dir(head);
    if g.snake().head_direction() != desired {
        g.key_pressed(Some(desired));
        false
    } else {
        g.update(100);
        true
    }
}

// From the initial position (2,2) onto the ring at (3,3).
fn enter_ring(g: &mut Game) {
    g.key_pressed(Some(Direction::Down));
    g.key_pressed(Some(Direction::Right));
}

// Steers the head of a fresh 30x30 round onto the fixed food at (6,4).
fn eat_first_food(g: &mut Game) {
    for _ in 0..4 {
        g.key_pressed(Some(Direction::Right));
    }
    g.key_pressed(Some(Direction::Down));
    g.key_pressed(Some(Direction::Down));
}

#[test]
fn fresh_round_matches_the_documented_start() {
    let g = Game::new(30, 30);
    assert_eq!(g.snake().segments().as_slice(), &[(2, 2), (1, 2), (0, 2)]);
    assert_eq!(g.snake().head_direction(), Direction::Right);
    assert_eq!(g.get_score(), 0);
    assert!(!g.is_game_over());
    assert!(g.has_food());
    assert_eq!(g.food_position(), (6, 4));
    assert!(!g.has_big_food());
    assert_eq!(g.get_game_mode(), GameMode::Classic);
    assert_eq!(g.get_remaining_time(), None);
    assert_eq!(g.board_width(), 30);
    assert_eq!(g.board_height(), 30);
}

#[test]
fn forced_move_advances_head_one_cell() {
    let mut g = Game::new(30, 30);
    g.update(150);
    assert_eq!(g.snake().head_position(), (3, 2));
    assert_eq!(g.snake().segments().len(), 3);
    assert_eq!(g.get_score(), 0);
}

#[test]
fn opposite_direction_request_is_ignored() {
    let mut g = Game::new(30, 30);
    g.key_pressed(Some(Direction::Left));
    assert_eq!(g.snake().head_position(), (2, 2));
    assert_eq!(g.snake().head_direction(), Direction::Right);
    g.key_pressed(None);
    assert_eq!(g.snake().head_position(), (2, 2));
}

#[test]
fn eating_single_food_scores_one_point_with_message() {
    let mut g = Game::new(30, 30);
    eat_first_food(&mut g);
    assert_eq!(g.snake().head_position(), (6, 4));
    assert!(!g.has_food());
    assert_eq!(g.get_score(), 1);
    assert_eq!(g.snake().pending_growth(), 1);
    let msgs = g.messages();
    assert_eq!(msgs.len(), 1);
    assert_eq!(msgs[0].text, "+1 Point");
    assert_eq!(msgs[0].lifetime_ms, 5000);
}

#[test]
fn eaten_food_respawns_off_the_snake_inside_the_border() {
    let mut g = Game::new(30, 30);
    eat_first_food(&mut g);
    assert!(!g.has_food());
    g.update(10);
    assert!(g.has_food());
    let (fx, fy) = g.food_position();
    assert!(fx > 0 && fx < 29 && fy > 0 && fy < 29);
    assert!(!g.snake().overlap_tail(fx, fy));
}

#[test]
fn segment_count_equals_three_plus_consumed_growth() {
    let mut g = Game::new(30, 30);
    fn check(g: &Game) {
        let len = g.snake().segments().len() as i64;
        let score = g.get_score() as i64;
        let pending = g.snake().pending_growth() as i64;
        assert_eq!(len, 3 + score - pending);
    }
    check(&g);
    for _ in 0..4 {
        g.key_pressed(Some(Direction::Right));
        check(&g);
    }
    g.key_pressed(Some(Direction::Down));
    check(&g);
    g.key_pressed(Some(Direction::Down));
    check(&g);
    for _ in 0..3 {
        g.key_pressed(Some(Direction::Down));
        check(&g);
    }
}

#[test]
fn hitting_the_border_wall_ends_the_round() {
    let mut g = Game::new(30, 30);
    for _ in 0..26 {
        g.key_pressed(Some(Direction::Right));
    }
    assert_eq!(g.snake().head_position(), (28, 2));
    assert!(!g.is_game_over());
    g.key_pressed(Some(Direction::Right));
    assert!(g.is_game_over());
    assert_eq!(g.snake().head_position(), (28, 2));
}

#[test]
fn self_collision_ends_round_and_auto_restart_resets() {
    let mut g = Game::new(30, 30);
    eat_first_food(&mut g);
    g.key_pressed(Some(Direction::Down));
    assert_eq!(g.snake().segments().len(), 4);
    g.key_pressed(Some(Direction::Right));
    g.key_pressed(Some(Direction::Up));
    let head_before = g.snake().head_position();
    let segs_before = g.snake().segments().clone();
    // (6,4) is occupied by the third segment behind the head
    g.key_pressed(Some(Direction::Left));
    assert!(g.is_game_over());
    assert_eq!(g.snake().head_position(), head_before);
    assert_eq!(g.snake().segments(), &segs_before);
    // while game-over the snake no longer moves
    g.update(600);
    assert!(g.is_game_over());
    assert_eq!(g.snake().segments(), &segs_before);
    // past the restart delay the whole round is replaced
    g.update(600);
    assert!(!g.is_game_over());
    let fresh = Game::new(30, 30);
    assert_eq!(g.snake().segments(), fresh.snake().segments());
    assert_eq!(g.get_score(), 0);
    assert!(g.has_food());
    assert_eq!(g.food_position(), (6, 4));
    assert!(!g.has_big_food());
    assert_eq!(g.messages().len(), 0);
}

#[test]
fn set_game_over_stops_the_round() {
    let mut g = Game::new(30, 30);
    g.set_game_over();
    assert!(g.is_game_over());
    g.key_pressed(Some(Direction::Down));
    assert_eq!(g.snake().head_position(), (2, 2));
}

#[test]
fn messages_fade_after_their_display_time() {
    let mut g = Game::new(30, 30);
    eat_first_food(&mut g);
    g.update(4000);
    // the respawned food is random; only read the message clock when the
    // forced move did not happen to eat it
    if g.get_score() == 1 {
        assert_eq!(g.messages().len(), 1);
        assert_eq!(g.messages()[0].lifetime_ms, 1000);
        g.update(1500);
        if g.get_score() == 1 {
            assert_eq!(g.messages().len(), 0);
        }
    }
}

#[test]
fn speed_mode_moves_faster_than_classic() {
    let mut c = Game::new_with_mode(30, 30, GameMode::Classic, GameSpeed::Medium);
    c.update(70);
    assert_eq!(c.snake().head_position(), (2, 2));
    let mut s = Game::new_with_mode(30, 30, GameMode::Speed, GameSpeed::Medium);
    s.update(70);
    assert_eq!(s.snake().head_position(), (3, 2));
}

#[test]
fn speed_mode_gets_faster_with_each_point() {
    // at score 0 the Speed/Medium period is 66 ms; at score 1 it is 62 ms
    let mut g = Game::new_with_mode(30, 30, GameMode::Speed, GameSpeed::Medium);
    g.update(63);
    assert_eq!(g.snake().head_position(), (2, 2));
    eat_first_food(&mut g);
    assert_eq!(g.get_score(), 1);
    g.update(63);
    assert_eq!(g.snake().head_position(), (6, 5));
}

#[test]
fn survival_mode_forces_fast_and_counts_down() {
    let mut g = Game::new_with_mode(30, 30, GameMode::Survival, GameSpeed::Slow);
    assert_eq!(g.get_remaining_time(), Some(30000));
    // at the fast setting the period is 44 ms, so 100 ms forces a move
    g.update(100);
    assert_eq!(g.snake().head_position(), (3, 2));
    assert_eq!(g.get_remaining_time(), Some(29900));
}

#[test]
fn survival_food_adds_time_and_message() {
    let mut g = Game::new_with_mode(30, 30, GameMode::Survival, GameSpeed::Medium);
    eat_first_food(&mut g);
    assert_eq!(g.get_score(), 1);
    assert_eq!(g.get_remaining_time(), Some(40000));
    let texts: Vec<&str> = g.messages().iter().map(|m| m.text.as_str()).collect();
    assert_eq!(texts, vec!["+1 Point", "+10 Seconds"]);
}

#[test]
fn survival_time_never_negative_and_game_over_fires_once() {
    let mut g = Game::new_with_mode(30, 30, GameMode::Survival, GameSpeed::Slow);
    enter_ring(&mut g);
    let mut guard = 0usize;
    while !g.is_game_over() {
        let rt = g.get_remaining_time().unwrap();
        assert!(rt > 0);
        ring_tick(&mut g);
        guard += 1;
        assert!(guard < 100000);
    }
    assert_eq!(g.get_remaining_time(), Some(0));
    // the round stays over through the restart delay, then resets
    g.update(500);
    assert!(g.is_game_over());
    assert_eq!(g.get_remaining_time(), Some(0));
    g.update(600);
    assert!(!g.is_game_over());
    assert_eq!(g.get_remaining_time(), Some(30000));
    assert_eq!(g.get_score(), 0);
    assert_eq!(g.snake().head_position(), (2, 2));
}

#[test]
fn big_food_spawns_on_interval_and_expires_after_lifetime() {
    let mut g = Game::new(30, 30);
    enter_ring(&mut g);
    let mut guard = 0usize;
    while !g.has_big_food() {
        ring_tick(&mut g);
        guard += 1;
        assert!(guard < 10000);
        assert!(!g.is_game_over());
    }
    let (bx, by) = g.big_food_position();
    assert!(bx >= 1 && bx <= 27 && by >= 1 && by <= 27);
    let score_at_spawn = g.get_score();
    // the age is 100 ms at the spawn tick and grows 100 ms per update;
    // uncollected big food must last exactly its 5000 ms budget
    let mut age_updates = 0usize;
    while g.has_big_food() {
        if ring_tick(&mut g) {
            age_updates += 1;
        }
        assert!(age_updates <= 49);
        assert!(!g.is_game_over());
    }
    if g.get_score() == score_at_spawn {
        assert_eq!(age_updates, 49);
    } else {
        assert_eq!(g.get_score(), score_at_spawn + 3);
    }
}

#[test]
fn head_on_big_food_corner_collects_three_points_and_growth() {
    let mut g = Game::new(30, 30);
    enter_ring(&mut g);
    // hunt for a spawn whose block lies well inside the ring
    let (bx, by) = {
        let mut guard = 0usize;
        loop {
            guard += 1;
            assert!(guard < 100000);
            if g.has_big_food() {
                let (bx, by) = g.big_food_position();
                if bx >= 5 && bx <= 23 && by >= 4 && by <= 23 {
                    break (bx, by);
                }
                // awkward spot: play on until it is gone, then rehunt
                while g.has_big_food() {
                    ring_tick(&mut g);
                    assert!(!g.is_game_over());
                }
            } else {
                ring_tick(&mut g);
                assert!(!g.is_game_over());
            }
        }
    };
    // from here only key presses: the clock is frozen, so the big food
    // cannot expire. Walk the ring to (3,3), then row 3, then down the
    // column left of the block, then one step right onto its corner.
    let mut steps = 0usize;
    while g.snake().head_position() != (3, 3) {
        let d = ring_dir(g.snake().head_position());
        g.key_pressed(Some(d));
        steps += 1;
        assert!(steps < 200);
        assert!(!g.is_game_over());
    }
    while g.snake().head_position().0 < bx - 1 {
        g.key_pressed(Some(Direction::Right));
        assert!(!g.is_game_over());
    }
    while g.snake().head_position().1 < by {
        g.key_pressed(Some(Direction::Down));
        assert!(!g.is_game_over());
    }
    assert_eq!(g.snake().head_position(), (bx - 1, by));
    assert!(g.has_big_food());
    let score_before = g.get_score();
    let pending_before = g.snake().pending_growth();
    let len_before = g.snake().segments().len();
    let also_food = g.has_food() && g.food_position() == (bx, by);
    g.key_pressed(Some(Direction::Right));
    assert_eq!(g.snake().head_position(), (bx, by));
    // collected: it disappears immediately and pays three points and
    // three growth units (four if the single food sat on the same cell)
    assert!(!g.has_big_food());
    let bonus: i32 = if also_food { 4 } else { 3 };
    assert_eq!(g.get_score(), score_before + bonus);
    let consumed: u64 = if pending_before > 0 { 1 } else { 0 };
    assert_eq!(g.snake().pending_growth(), pending_before - consumed + bonus as u64);
    assert_eq!(g.snake().segments().len(), len_before + consumed as usize);
    let texts: Vec<&str> = g.messages().iter().map(|m| m.text.as_str()).collect();
    assert!(texts.contains(&"Big Food +3 Points!"));
}

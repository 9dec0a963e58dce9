//! The game engine: one active round. Owns the snake, the food state, the
//! score, the per-mode speed and timer rules, the transient message queue,
//! and game-over detection with timed auto-restart.
//!
//! All time is integer milliseconds; speed multipliers are integer tenths.
//! The whole per-tick transition is a spec function (`spec_update`), and
//! `update` is proved equal to it, with the randomly drawn food positions
//! recoverable from the post-state.

use vstd::prelude::*;
use vstd::string::StringExecFns;
use vstd::set_lib::lemma_int_range;
use vstd::set_lib::lemma_len_subset;
use vstd::set_lib::set_int_range;
use crate::menu::GameMode;
use crate::menu::GameSpeed;
use crate::snake::Direction;
use crate::snake::Snake;
use crate::snake::SnakeView;
use crate::snake::effective_dir;
use crate::snake::spec_next_head;
use crate::snake::next_pos_fits;
use crate::snake::spec_next_pos;
use crate::spawn::MAX_BOARD;
use crate::spawn::big_block_in_interior;
use crate::spawn::in_interior;
use crate::spawn::spawn_big_food;
use crate::spawn::spawn_food;

verus! {

/// Dividend of the effective-period computation: the 100 ms base period
/// scaled by ten for each of the two tenths-valued multipliers.
pub const PERIOD_DIVIDEND: u64 = 10000;

/// Delay after game-over before the round restarts on its own.
pub const RESTART_TIME_MS: u64 = 1000;

/// Initial Survival-mode time budget.
pub const TIME_LIMIT_MS: u64 = 30000;

/// Survival-mode time bonus per single food.
pub const TIME_ADD_PER_FOOD_MS: u64 = 10000;

/// Interval from the last big-food disappearance to the next spawn.
pub const BIG_FOOD_SPAWN_INTERVAL_MS: u64 = 8000;

/// How long a spawned big food stays if uncollected.
pub const BIG_FOOD_LIFETIME_MS: u64 = 5000;

/// How long a queued message is shown.
pub const MESSAGE_DISPLAY_MS: u64 = 5000;

/// Upper bound on the elapsed time handed to one `update` call; keeps all
/// timer arithmetic far from the `u64` range.
pub const MAX_UPDATE_MS: u64 = 1000000000;

/// A transient UI notification: a text and its remaining display time.
/// Purely cosmetic, but its timing shares the tick clock.
pub struct GameMessage {
    pub text: String,
    pub lifetime_ms: u64,
}

impl View for GameMessage {
    type V = (Seq<char>, u64);

    open spec fn view(&self) -> (Seq<char>, u64) {
        (self.text@, self.lifetime_ms)
    }
}

impl GameMessage {
    /// A fresh message with the full display time left.
    pub fn new(text: String) -> (m: GameMessage)
        ensures
            m@ == (text@, MESSAGE_DISPLAY_MS),
    {
        GameMessage { text, lifetime_ms: MESSAGE_DISPLAY_MS }
    }
}

/// The mathematical content of a round.
#[verifier::ext_equal]
pub struct GameView {
    pub width: i32,
    pub height: i32,
    pub snake: SnakeView,
    pub food_exists: bool,
    pub food: (i32, i32),
    pub big_food_exists: bool,
    pub big_food: (i32, i32),
    pub big_food_timer: u64,
    pub big_food_age: u64,
    pub game_over: bool,
    pub waiting: u64,
    pub mode: GameMode,
    pub speed_setting: GameSpeed,
    pub speed_tenths: u64,
    pub score: i32,
    pub remaining_ms: Option<u64>,
    pub messages: Seq<(Seq<char>, u64)>,
}

/// The speed-setting multiplier in tenths.
pub open spec fn setting_tenths(s: GameSpeed) -> u64 {
    match s {
        GameSpeed::Slow => 7,
        GameSpeed::Medium => 10,
        GameSpeed::Fast => 15,
    }
}

/// The mode multiplier in tenths at round start. Survival forces the
/// fast multiplier outright.
pub open spec fn initial_tenths(mode: GameMode) -> u64 {
    match mode {
        GameMode::Classic => 10,
        GameMode::Speed => 15,
        GameMode::Survival => 15,
    }
}

/// Whether a cell lies on the board at all (walls included).
pub open spec fn in_grid(p: (i32, i32), width: i32, height: i32) -> bool {
    0 <= p.0 < width && 0 <= p.1 < height
}

/// The state every round starts from (and restarts to): a three-segment
/// snake heading right at (2, 2), single food fixed at (6, 4), no big
/// food, zeroed clocks and score, and the mode's own multiplier and time
/// budget. Survival forces the fast speed setting.
pub open spec fn initial_state(width: i32, height: i32, mode: GameMode, speed: GameSpeed) -> GameView {
    GameView {
        width,
        height,
        snake: SnakeView {
            body: seq![(2i32, 2i32), (1i32, 2i32), (0i32, 2i32)],
            dir: Direction::Right,
            pending_growth: 0,
        },
        food_exists: true,
        food: (6, 4),
        big_food_exists: false,
        big_food: (0, 0),
        big_food_timer: 0,
        big_food_age: 0,
        game_over: false,
        waiting: 0,
        mode,
        speed_setting: if mode is Survival {
            GameSpeed::Fast
        } else {
            speed
        },
        speed_tenths: initial_tenths(mode),
        score: 0,
        remaining_ms: if mode is Survival {
            Option::Some(TIME_LIMIT_MS)
        } else {
            Option::None
        },
        messages: Seq::empty(),
    }
}

/// The parts of the round invariant that movement and eating rely on and
/// preserve: board bounds, a well-formed snake whose cells are distinct
/// and on the board, the growth ledger tying score to length, the
/// mode-multiplier link, and sane food bounds.
pub open spec fn move_ready(g: GameView) -> bool {
    &&& 4 <= g.width <= MAX_BOARD
    &&& 4 <= g.height <= MAX_BOARD
    &&& 3 <= g.snake.body.len()
    &&& g.snake.body.no_duplicates()
    &&& forall|k: int|
        0 <= k < g.snake.body.len() ==> in_grid(#[trigger] g.snake.body[k], g.width, g.height)
    &&& g.snake.pending_growth <= 4 * g.snake.body.len()
    &&& g.score == g.snake.body.len() + g.snake.pending_growth - 3
    &&& (g.mode is Survival <==> g.remaining_ms is Some)
    &&& (g.mode is Survival ==> g.speed_setting == GameSpeed::Fast && g.speed_tenths == 15
        && g.remaining_ms->Some_0 <= TIME_LIMIT_MS + TIME_ADD_PER_FOOD_MS * g.score)
    &&& (g.mode is Classic ==> g.speed_tenths == 10)
    &&& (g.mode is Speed ==> g.speed_tenths == 15 + g.score)
    &&& (g.big_food_exists ==> big_block_in_interior(
        g.big_food.0 as int,
        g.big_food.1 as int,
        g.width as int,
        g.height as int,
    ))
}

/// The full round invariant: `move_ready` plus the clock bounds that the
/// per-tick timer arithmetic relies on.
pub open spec fn inv(g: GameView) -> bool {
    &&& move_ready(g)
    &&& g.waiting <= RESTART_TIME_MS
    &&& (g.big_food_exists ==> g.big_food_timer <= g.big_food_age && g.big_food_age
        < BIG_FOOD_LIFETIME_MS)
    &&& (!g.big_food_exists ==> g.big_food_timer <= BIG_FOOD_SPAWN_INTERVAL_MS
        + BIG_FOOD_LIFETIME_MS + MAX_UPDATE_MS)
}

/// Distinct cells that all lie on a `width x height` board cannot number
/// more than the board's area.
pub proof fn lemma_body_len_bounded(body: Seq<(i32, i32)>, width: i32, height: i32)
    requires
        body.no_duplicates(),
        forall|k: int| 0 <= k < body.len() ==> in_grid(#[trigger] body[k], width, height),
        0 < width,
        0 < height,
    ensures
        body.len() <= width * height,
{
    let ids = body.map_values(|p: (i32, i32)| p.0 * height + p.1);
    assert forall|i: int, j: int| 0 <= i < j < ids.len() implies ids[i] != ids[j] by {
        let p = body[i];
        let q = body[j];
        assert(p != q);
        assert(in_grid(p, width, height));
        assert(in_grid(q, width, height));
        assert(p.0 * height + p.1 != q.0 * height + q.1) by (nonlinear_arith)
            requires
                p != q,
                0 <= p.0 < width,
                0 <= p.1 < height,
                0 <= q.0 < width,
                0 <= q.1 < height,
        ;
    }
    assert(ids.no_duplicates());
    ids.unique_seq_to_set();
    assert forall|k: int| 0 <= k < ids.len() implies 0 <= #[trigger] ids[k] < width * height by {
        let p = body[k];
        assert(0 <= p.0 * height + p.1 < width * height) by (nonlinear_arith)
            requires
                0 <= p.0 < width,
                0 <= p.1 < height,
        ;
    }
    assert(ids.to_set().subset_of(set_int_range(0, width * height))) by {
        assert forall|v: int| ids.to_set().contains(v) implies set_int_range(
            0,
            width * height,
        ).contains(v) by {
            let k = choose|k: int| 0 <= k < ids.len() && ids[k] == v;
            assert(0 <= ids[k] < width * height);
        }
    }
    lemma_int_range(0, width * height);
    lemma_len_subset(ids.to_set(), set_int_range(0, width * height));
}

/// Whether the head's next cell keeps the snake alive: strictly inside
/// the border walls and not on any current body segment.
pub open spec fn spec_alive(g: GameView, requested: Option<Direction>) -> bool {
    let np = spec_next_pos(g.snake.body[0], effective_dir(g.snake.dir, requested));
    &&& !g.snake.body.contains(spec_next_head(g.snake, requested))
    &&& 0 < np.0 < g.width - 1
    &&& 0 < np.1 < g.height - 1
}

/// The snake after one committed movement step: the new head is
/// prepended; the tail is kept (consuming one growth unit) or popped.
pub open spec fn snake_after_move(s: SnakeView, requested: Option<Direction>) -> SnakeView {
    SnakeView {
        body: seq![spec_next_head(s, requested)] + (
            if s.pending_growth > 0 {
                s.body
            } else {
                s.body.drop_last()
            }
        ),
        dir: effective_dir(s.dir, requested),
        pending_growth: if s.pending_growth > 0 {
            (s.pending_growth - 1) as nat
        } else {
            0nat
        },
    }
}

/// The messages queued when a single food is eaten.
pub open spec fn single_food_msgs(mode: GameMode) -> Seq<(Seq<char>, u64)> {
    if mode is Survival {
        seq![("+1 Point"@, MESSAGE_DISPLAY_MS), ("+10 Seconds"@, MESSAGE_DISPLAY_MS)]
    } else {
        seq![("+1 Point"@, MESSAGE_DISPLAY_MS)]
    }
}

/// The messages queued when the big food is eaten.
pub open spec fn big_food_msgs(mode: GameMode) -> Seq<(Seq<char>, u64)> {
    if mode is Survival {
        seq![("Big Food +3 Points!"@, MESSAGE_DISPLAY_MS), ("+30 Seconds"@, MESSAGE_DISPLAY_MS)]
    } else {
        seq![("Big Food +3 Points!"@, MESSAGE_DISPLAY_MS)]
    }
}

/// Whether the head cell falls within the 2x2 block whose top-left corner
/// is `corner`.
pub open spec fn head_in_big_block(head: (i32, i32), corner: (i32, i32)) -> bool {
    corner.0 <= head.0 < corner.0 + 2 && corner.1 <= head.1 < corner.1 + 2
}

/// The single-food reward: the food is consumed, one growth unit is
/// queued, the score rises by one, a message is queued, and the
/// mode-specific bonus applies (faster in Speed mode, extra time plus a
/// message in Survival).
pub open spec fn apply_single_eat(g: GameView) -> GameView {
    GameView {
        food_exists: false,
        snake: SnakeView { pending_growth: (g.snake.pending_growth + 1) as nat, ..g.snake },
        score: (g.score + 1) as i32,
        speed_tenths: if g.mode is Speed {
            (15 + g.score + 1) as u64
        } else {
            g.speed_tenths
        },
        remaining_ms: if g.mode is Survival {
            Option::Some((g.remaining_ms->Some_0 + TIME_ADD_PER_FOOD_MS) as u64)
        } else {
            g.remaining_ms
        },
        messages: g.messages + single_food_msgs(g.mode),
        ..g
    }
}

/// The big-food reward: the block is cleared, three growth units are
/// queued, the score rises by three, and the mode bonuses apply scaled by
/// three.
pub open spec fn apply_big_eat(g: GameView) -> GameView {
    GameView {
        big_food_exists: false,
        snake: SnakeView { pending_growth: (g.snake.pending_growth + 3) as nat, ..g.snake },
        score: (g.score + 3) as i32,
        speed_tenths: if g.mode is Speed {
            (15 + g.score + 3) as u64
        } else {
            g.speed_tenths
        },
        remaining_ms: if g.mode is Survival {
            Option::Some((g.remaining_ms->Some_0 + 3 * TIME_ADD_PER_FOOD_MS) as u64)
        } else {
            g.remaining_ms
        },
        messages: g.messages + big_food_msgs(g.mode),
        ..g
    }
}

/// Both eating checks, run once after a committed move: two independent
/// triggers, the single-cell food by exact head match, the big food by
/// the head falling anywhere in its 2x2 block.
pub open spec fn spec_eat(g: GameView) -> GameView {
    let g1 = if g.food_exists && g.food == g.snake.body[0] {
        apply_single_eat(g)
    } else {
        g
    };
    if g1.big_food_exists && head_in_big_block(g1.snake.body[0], g1.big_food) {
        apply_big_eat(g1)
    } else {
        g1
    }
}

/// One movement step, shared by forced and input-driven moves: commit the
/// move and run the eating checks when the next head cell is safe, else
/// end the round without moving. Either way the waiting clock resets.
pub open spec fn spec_update_snake(g: GameView, requested: Option<Direction>) -> GameView {
    if spec_alive(g, requested) {
        let moved = GameView { snake: snake_after_move(g.snake, requested), ..g };
        GameView { waiting: 0, ..spec_eat(moved) }
    } else {
        GameView { game_over: true, waiting: 0, ..g }
    }
}

/// A directional command: ignored after game-over and when it asks for
/// the exact opposite of the current heading; otherwise an immediate
/// movement step in that direction.
pub open spec fn spec_key_pressed(g: GameView, requested: Option<Direction>) -> GameView {
    if g.game_over {
        g
    } else {
        match requested {
            Option::None => g,
            Option::Some(d) => if d == g.snake.dir.spec_opposite() {
                g
            } else {
                spec_update_snake(g, Option::Some(d))
            },
        }
    }
}

/// Message lifetimes after one tick: every lifetime shrinks by `dt` and
/// the messages whose time ran out drop from the queue, order kept.
pub open spec fn tick_messages_spec(ms: Seq<(Seq<char>, u64)>, dt: u64) -> Seq<(Seq<char>, u64)>
    decreases ms.len(),
{
    if ms.len() == 0 {
        Seq::empty()
    } else {
        let rest = tick_messages_spec(ms.drop_last(), dt);
        let m = ms.last();
        if m.1 > dt {
            rest.push((m.0, (m.1 - dt) as u64))
        } else {
            rest
        }
    }
}

/// Whether some interior cell is free of the snake, so that single food
/// has somewhere to spawn.
pub open spec fn has_free_cell(g: GameView) -> bool {
    exists|x: i32, y: i32|
        in_interior(x as int, y as int, g.width as int, g.height as int)
            && !g.snake.body.contains((x, y))
}

/// The round after the clock part of a tick: the elapsed time accumulates
/// into the waiting clock, and in Survival it drains the remaining time,
/// clamped at zero, firing game-over when zero is reached.
pub open spec fn after_clock(g: GameView, dt: u64) -> GameView {
    let g1 = GameView { waiting: (g.waiting + dt) as u64, ..g };
    if g.mode is Survival {
        let rem = g.remaining_ms->Some_0;
        let rem2: u64 = if rem <= dt {
            0u64
        } else {
            (rem - dt) as u64
        };
        GameView { remaining_ms: Option::Some(rem2), game_over: g1.game_over || rem2 == 0, ..g1 }
    } else {
        g1
    }
}

/// Whether a tick of `dt` spawns single food: the round is live after the
/// clock, no food exists, and a free interior cell exists.
pub open spec fn spawn_happened(g: GameView, dt: u64) -> bool {
    let g2 = after_clock(g, dt);
    &&& !g2.game_over
    &&& !g2.food_exists
    &&& has_free_cell(g2)
}

/// Whether a tick of `dt` spawns big food: the round is live after the
/// clock, no big food exists, and the spawn-interval clock runs out.
pub open spec fn big_spawn_happened(g: GameView, dt: u64) -> bool {
    let g2 = after_clock(g, dt);
    &&& !g2.game_over
    &&& !g2.big_food_exists
    &&& g2.big_food_timer + dt >= BIG_FOOD_SPAWN_INTERVAL_MS
}

/// The effective movement period: the base period divided by the mode
/// multiplier and the speed-setting multiplier (both in tenths).
pub open spec fn move_period_ms(g: GameView) -> int {
    PERIOD_DIVIDEND as int / (g.speed_tenths * setting_tenths(g.speed_setting)) as int
}

/// One whole engine tick given the elapsed time `dt` and the food
/// positions drawn this tick (`fp` single food, `bp` big food; ignored
/// when the corresponding spawn does not happen). Clocks advance first;
/// after game-over the round only waits out the restart delay and then
/// resets wholesale. Otherwise missing single food respawns, big food
/// spawns on its interval, ages and expires, message lifetimes drain, and
/// once the waiting clock exceeds the effective period a forced movement
/// step runs.
pub open spec fn spec_update(g: GameView, dt: u64, fp: (i32, i32), bp: (i32, i32)) -> GameView {
    let g2 = after_clock(g, dt);
    if g2.game_over {
        if g2.waiting > RESTART_TIME_MS {
            initial_state(g.width, g.height, g.mode, g.speed_setting)
        } else {
            g2
        }
    } else {
        spec_live_tick(g2, dt, fp, bp)
    }
}

/// The live part of a tick (reached only when the round is not over after
/// the clock step): food respawn, big-food spawn/ageing/expiry, message
/// drain, and at most one forced movement step.
pub open spec fn spec_live_tick(g2: GameView, dt: u64, fp: (i32, i32), bp: (i32, i32)) -> GameView {
    {
        let g3 = if !g2.food_exists && has_free_cell(g2) {
            GameView { food_exists: true, food: fp, ..g2 }
        } else {
            g2
        };
        let g4 = GameView { big_food_timer: (g3.big_food_timer + dt) as u64, ..g3 };
        let g5 = if !g4.big_food_exists && g4.big_food_timer >= BIG_FOOD_SPAWN_INTERVAL_MS {
            GameView {
                big_food_exists: true,
                big_food: bp,
                big_food_timer: 0,
                big_food_age: 0,
                ..g4
            }
        } else {
            g4
        };
        let g6 = if g5.big_food_exists {
            let age2 = (g5.big_food_age + dt) as u64;
            if age2 >= BIG_FOOD_LIFETIME_MS {
                GameView { big_food_exists: false, big_food_age: age2, ..g5 }
            } else {
                GameView { big_food_age: age2, ..g5 }
            }
        } else {
            g5
        };
        let g7 = GameView { messages: tick_messages_spec(g6.messages, dt), ..g6 };
        if g7.waiting > move_period_ms(g7) {
            spec_update_snake(g7, Option::None)
        } else {
            g7
        }
    }
}

/// Whether a tick of `dt` performs the forced movement step: the round
/// is live after the clock and the accumulated waiting time exceeds the
/// effective period. (Neither the waiting clock nor the multipliers
/// change between the clock step and the movement check.)
pub open spec fn forced_move_happens(g: GameView, dt: u64) -> bool {
    let g2 = after_clock(g, dt);
    !g2.game_over && g2.waiting > move_period_ms(g2)
}

/// Whether the forced movement step of this tick collects the big food:
/// the step happens, the snake survives it, and the new head falls in
/// the 2x2 block.
pub open spec fn big_collected(g: GameView, dt: u64) -> bool {
    &&& forced_move_happens(g, dt)
    &&& spec_alive(g, Option::None)
    &&& head_in_big_block(spec_next_head(g.snake, Option::None), g.big_food)
}

/// The growth ledger: at every reachable state the segment count equals
/// the initial three plus the growth units consumed so far, where the
/// units consumed are exactly the score minus the units still pending.
/// Segments are never removed except by the tail pop of a non-growth
/// move, so the count can only ever grow.
pub proof fn lemma_length_accounting(g: GameView)
    requires
        move_ready(g),
    ensures
        g.snake.body.len() == 3 + g.score - g.snake.pending_growth,
{
}

/// Eating rewards are exact: one point and one growth unit for the
/// single food, three of each for the big food, and the two triggers are
/// independent; each consumed reward disappears.
pub proof fn lemma_eating_rewards(g: GameView)
    requires
        0 <= g.score,
        g.score + 4 <= i32::MAX,
        g.snake.body.len() > 0,
        g.snake.pending_growth + 4 <= u64::MAX,
    ensures
        ({
            let single = g.food_exists && g.food == g.snake.body[0];
            let big = g.big_food_exists && head_in_big_block(g.snake.body[0], g.big_food);
            let r = spec_eat(g);
            &&& r.score == g.score + (if single {
                1int
            } else {
                0int
            }) + (if big {
                3int
            } else {
                0int
            })
            &&& r.snake.pending_growth == g.snake.pending_growth + (if single {
                1int
            } else {
                0int
            }) + (if big {
                3int
            } else {
                0int
            })
            &&& r.food_exists == (g.food_exists && !single)
            &&& r.big_food_exists == (g.big_food_exists && !big)
            &&& r.snake.body == g.snake.body
        }),
{
}

/// Big food, once spawned, disappears exactly when its accumulated age
/// reaches the lifetime budget if uncollected, and immediately when the
/// forced move of the tick collects it.
pub proof fn lemma_big_food_lifecycle(g: GameView, dt: u64, fp: (i32, i32), bp: (i32, i32))
    requires
        inv(g),
        dt <= MAX_UPDATE_MS,
        g.big_food_exists,
        !after_clock(g, dt).game_over,
    ensures
        ({
            let r = spec_update(g, dt, fp, bp);
            let expired = g.big_food_age + dt >= BIG_FOOD_LIFETIME_MS;
            r.big_food_exists == (!expired && !big_collected(g, dt))
        }),
{
    let g2 = after_clock(g, dt);
    assert(spec_alive(g2, Option::None) == spec_alive(g, Option::None));
}

/// The Survival countdown: remaining time drains by the elapsed time,
/// clamped at zero (it can never go negative), and game-over fires on
/// the tick where the budget first runs out, staying set afterwards.
pub proof fn lemma_survival_countdown(g: GameView, dt: u64)
    requires
        inv(g),
        g.mode is Survival,
    ensures
        ({
            let c = after_clock(g, dt);
            let rem = g.remaining_ms->Some_0;
            &&& c.remaining_ms == Option::Some(
                if rem <= dt {
                    0u64
                } else {
                    (rem - dt) as u64
                },
            )
            &&& c.game_over == (g.game_over || rem <= dt)
        }),
{
}

/// The round state: snake, food, clocks, score, and mode rules.
pub struct Game {
    snake: Snake,
    food_exists: bool,
    food_x: i32,
    food_y: i32,
    big_food_exists: bool,
    big_food_x: i32,
    big_food_y: i32,
    big_food_timer: u64,
    big_food_age: u64,
    width: i32,
    height: i32,
    game_over: bool,
    waiting_time: u64,
    game_mode: GameMode,
    score: i32,
    speed_tenths: u64,
    speed_setting: GameSpeed,
    remaining_time: Option<u64>,
    messages: Vec<GameMessage>,
}

impl View for Game {
    type V = GameView;

    closed spec fn view(&self) -> GameView {
        GameView {
            width: self.width,
            height: self.height,
            snake: self.snake@,
            food_exists: self.food_exists,
            food: (self.food_x, self.food_y),
            big_food_exists: self.big_food_exists,
            big_food: (self.big_food_x, self.big_food_y),
            big_food_timer: self.big_food_timer,
            big_food_age: self.big_food_age,
            game_over: self.game_over,
            waiting: self.waiting_time,
            mode: self.game_mode,
            speed_setting: self.speed_setting,
            speed_tenths: self.speed_tenths,
            score: self.score,
            remaining_ms: self.remaining_time,
            messages: self.messages@.map_values(|m: GameMessage| m@),
        }
    }
}

impl Game {
    /// A fresh Classic round at medium speed.
    pub fn new(width: i32, height: i32) -> (g: Game)
        requires
            4 <= width <= MAX_BOARD,
            4 <= height <= MAX_BOARD,
        ensures
            g@ == initial_state(width, height, GameMode::Classic, GameSpeed::Medium),
            inv(g@),
    {
        Self::new_with_mode(width, height, GameMode::Classic, GameSpeed::Medium)
    }

    /// A fresh round in the given mode at the given speed setting
    /// (Survival forces the fast setting and multiplier).
    pub fn new_with_mode(width: i32, height: i32, mode: GameMode, speed: GameSpeed) -> (g: Game)
        requires
            4 <= width <= MAX_BOARD,
            4 <= height <= MAX_BOARD,
        ensures
            g@ == initial_state(width, height, mode, speed),
            inv(g@),
    {
        let snake = Snake::new(2, 2);
        let survival = mode == GameMode::Survival;
        let g = Game {
            snake,
            food_exists: true,
            food_x: 6,
            food_y: 4,
            big_food_exists: false,
            big_food_x: 0,
            big_food_y: 0,
            big_food_timer: 0,
            big_food_age: 0,
            width,
            height,
            game_over: false,
            waiting_time: 0,
            game_mode: mode,
            score: 0,
            speed_tenths: match mode {
                GameMode::Classic => 10,
                GameMode::Speed => 15,
                GameMode::Survival => 15,
            },
            speed_setting: if survival {
                GameSpeed::Fast
            } else {
                speed
            },
            remaining_time: if survival {
                Option::Some(TIME_LIMIT_MS)
            } else {
                Option::None
            },
            messages: Vec::new(),
        };
        proof {
            assert(g@.snake.body =~= seq![(2i32, 2i32), (1i32, 2i32), (0i32, 2i32)]);
            assert(g@.messages =~= Seq::<(Seq<char>, u64)>::empty());
            assert(g@ =~~= initial_state(width, height, mode, speed));
            assert(g@.snake.body.no_duplicates());
        }
        g
    }

    /// The current score.
    pub fn get_score(&self) -> (r: i32)
        ensures
            r == self@.score,
    {
        self.score
    }

    /// The round's play mode.
    pub fn get_game_mode(&self) -> (r: GameMode)
        ensures
            r == self@.mode,
    {
        self.game_mode
    }

    /// Whether the round has ended.
    pub fn is_game_over(&self) -> (r: bool)
        ensures
            r == self@.game_over,
    {
        self.game_over
    }

    /// Ends the round immediately.
    pub fn set_game_over(&mut self)
        ensures
            (*final(self))@ == (GameView { game_over: true, ..old(self)@ }),
    {
        self.game_over = true;
    }

    /// Remaining Survival time in milliseconds; `None` outside Survival.
    pub fn get_remaining_time(&self) -> (r: Option<u64>)
        ensures
            r == self@.remaining_ms,
    {
        self.remaining_time
    }

    /// The board width in cells.
    pub fn board_width(&self) -> (r: i32)
        ensures
            r == self@.width,
    {
        self.width
    }

    /// The board height in cells.
    pub fn board_height(&self) -> (r: i32)
        ensures
            r == self@.height,
    {
        self.height
    }

    /// Read-only access to the snake, for rendering and inspection.
    pub fn snake(&self) -> (r: &Snake)
        ensures
            r@ == self@.snake,
    {
        &self.snake
    }

    /// Whether single-cell food is present.
    pub fn has_food(&self) -> (r: bool)
        ensures
            r == self@.food_exists,
    {
        self.food_exists
    }

    /// Where the single-cell food lies (meaningful while it is present).
    pub fn food_position(&self) -> (r: (i32, i32))
        ensures
            r == self@.food,
    {
        (self.food_x, self.food_y)
    }

    /// Whether the 2x2 big food is present.
    pub fn has_big_food(&self) -> (r: bool)
        ensures
            r == self@.big_food_exists,
    {
        self.big_food_exists
    }

    /// The top-left corner of the big food (meaningful while present).
    pub fn big_food_position(&self) -> (r: (i32, i32))
        ensures
            r == self@.big_food,
    {
        (self.big_food_x, self.big_food_y)
    }

    /// The queued messages with their remaining display times.
    pub fn messages(&self) -> (r: &Vec<GameMessage>)
        ensures
            r@.map_values(|m: GameMessage| m@) == self@.messages,
    {
        &self.messages
    }

    /// Queues one transient message with the full display time.
    fn add_message(&mut self, text: &str)
        ensures
            (*final(self))@ == (GameView {
                messages: old(self)@.messages.push((text@, MESSAGE_DISPLAY_MS)),
                ..old(self)@
            }),
    {
        let ghost before = self.messages@;
        self.messages.push(GameMessage::new(String::from_str(text)));
        proof {
            assert(self.messages@.map_values(|m: GameMessage| m@) =~= before.map_values(
                |m: GameMessage| m@,
            ).push((text@, MESSAGE_DISPLAY_MS)));
            assert((*self)@ =~~= (GameView {
                messages: old(self)@.messages.push((text@, MESSAGE_DISPLAY_MS)),
                ..old(self)@
            }));
        }
    }

    /// The liveness check for a movement step: the candidate next head
    /// must not overlap any body segment and must lie strictly inside the
    /// border.
    fn check_if_snake_alive(&self, requested: Option<Direction>) -> (b: bool)
        requires
            self@.snake.body.len() > 0,
            in_grid(self@.snake.body[0], self@.width, self@.height),
            4 <= self@.width <= MAX_BOARD,
            4 <= self@.height <= MAX_BOARD,
        ensures
            b == spec_alive(self@, requested),
    {
        proof {
            assert(next_pos_fits(self@.snake, requested));
        }
        let next = self.snake.next_head(requested);
        if self.snake.overlap_tail(next.0, next.1) {
            return false;
        }
        next.0 > 0 && next.1 > 0 && next.0 < self.width - 1 && next.1 < self.height - 1
    }

    /// The eating checks after a committed move: exact match for the
    /// single food, 2x2 containment for the big food; each awards score,
    /// growth units, messages, and the mode bonuses.
    fn check_eating(&mut self)
        requires
            old(self)@.snake.body.len() >= 1,
            0 <= old(self)@.score,
            old(self)@.score + 4 <= i32::MAX,
            old(self)@.snake.pending_growth + 4 <= u64::MAX,
            old(self)@.mode is Survival <==> old(self)@.remaining_ms is Some,
            old(self)@.remaining_ms is Some ==> old(self)@.remaining_ms->Some_0 + 4
                * TIME_ADD_PER_FOOD_MS <= u64::MAX,
            old(self)@.big_food_exists ==> old(self)@.big_food.0 + 2 <= i32::MAX && old(
                self,
            )@.big_food.1 + 2 <= i32::MAX,
        ensures
            (*final(self))@ == spec_eat(old(self)@),
    {
        let ghost mid: GameView;
        let head = self.snake.head_position();
        if self.food_exists && self.food_x == head.0 && self.food_y == head.1 {
            self.food_exists = false;
            self.snake.restore_tail();
            self.score = self.score + 1;
            self.add_message("+1 Point");
            if self.game_mode == GameMode::Speed {
                self.speed_tenths = 15 + (self.score as u64);
            }
            if self.game_mode == GameMode::Survival {
                if let Option::Some(rt) = self.remaining_time {
                    self.remaining_time = Option::Some(rt + TIME_ADD_PER_FOOD_MS);
                    self.add_message("+10 Seconds");
                }
            }
            proof {
                mid = apply_single_eat(old(self)@);
                assert((*self)@ =~~= mid);
            }
        } else {
            proof {
                mid = old(self)@;
            }
        }
        if self.big_food_exists {
            let in_x = head.0 >= self.big_food_x && head.0 < self.big_food_x + 2;
            let in_y = head.1 >= self.big_food_y && head.1 < self.big_food_y + 2;
            if in_x && in_y {
                self.big_food_exists = false;
                self.snake.restore_tail();
                self.snake.restore_tail();
                self.snake.restore_tail();
                self.score = self.score + 3;
                self.add_message("Big Food +3 Points!");
                if self.game_mode == GameMode::Speed {
                    self.speed_tenths = 15 + (self.score as u64);
                }
                if self.game_mode == GameMode::Survival {
                    if let Option::Some(rt) = self.remaining_time {
                        self.remaining_time = Option::Some(rt + 3 * TIME_ADD_PER_FOOD_MS);
                        self.add_message("+30 Seconds");
                    }
                }
                proof {
                    assert((*self)@ =~~= apply_big_eat(mid));
                    assert((*self)@ =~~= spec_eat(old(self)@));
                }
            }
        }
        proof {
            assert((*self)@ =~~= spec_eat(old(self)@));
        }
    }

    /// One movement step shared by forced and input-driven moves; commits
    /// the move and the eating checks, or ends the round. Preserves the
    /// movement invariant.
    fn update_snake(&mut self, requested: Option<Direction>)
        requires
            move_ready(old(self)@),
        ensures
            (*final(self))@ == spec_update_snake(old(self)@, requested),
            move_ready((*final(self))@),
    {
        proof {
            lemma_body_len_bounded(old(self)@.snake.body, old(self)@.width, old(self)@.height);
            let w = old(self)@.width;
            let h = old(self)@.height;
            assert(w * h <= 100000000) by (nonlinear_arith)
                requires
                    0 < w <= 10000,
                    0 < h <= 10000,
            ;
        }
        if self.check_if_snake_alive(requested) {
            let ghost pre = self@;
            self.snake.move_forward(requested);
            proof {
                let moved = GameView { snake: snake_after_move(pre.snake, requested), ..pre };
                assert((*self)@ =~~= moved);
                let nb = moved.snake.body;
                let ob = pre.snake.body;
                assert(forall|k: int| 0 <= k < ob.len() ==> ob[k] != nb[0]);
                assert forall|i: int, j: int| 0 <= i < j < nb.len() implies nb[i] != nb[j] by {
                    if i == 0 {
                        assert(nb[j] == ob[j - 1]);
                    } else {
                        assert(nb[i] == ob[i - 1] && nb[j] == ob[j - 1]);
                    }
                }
                assert(nb.no_duplicates());
                assert forall|k: int| 0 <= k < nb.len() implies in_grid(
                    #[trigger] nb[k],
                    moved.width,
                    moved.height,
                ) by {
                    if k > 0 {
                        assert(nb[k] == ob[k - 1]);
                    }
                }
            }
            self.check_eating();
            self.waiting_time = 0;
            proof {
                assert((*self)@ =~~= spec_update_snake(old(self)@, requested));
            }
        } else {
            self.game_over = true;
            self.waiting_time = 0;
            proof {
                assert((*self)@ =~~= spec_update_snake(old(self)@, requested));
            }
        }
    }

    /// Applies a directional command. A command after game-over, or one
    /// asking for the exact opposite of the current heading, changes
    /// nothing; any other command drives an immediate movement step and
    /// resets the waiting clock.
    pub fn key_pressed(&mut self, requested: Option<Direction>)
        requires
            inv(old(self)@),
        ensures
            inv((*final(self))@),
            (*final(self))@ == spec_key_pressed(old(self)@, requested),
            !old(self)@.game_over && requested == Option::Some(
                old(self)@.snake.dir.spec_opposite(),
            ) ==> (*final(self))@ == old(self)@,
    {
        if self.game_over {
            return ;
        }
        if let Option::Some(d) = requested {
            let opp = self.snake.head_direction().opposite();
            if d == opp {
                return ;
            }
            self.update_snake(Option::Some(d));
        }
    }

    /// Drains `dt` from every queued message and drops the expired ones.
    fn tick_messages(&mut self, dt: u64)
        ensures
            (*final(self))@ == (GameView {
                messages: tick_messages_spec(old(self)@.messages, dt),
                ..old(self)@
            }),
    {
        let ghost all = self.messages@.map_values(|m: GameMessage| m@);
        let mut kept: Vec<GameMessage> = Vec::new();
        let mut i: usize = 0;
        while i < self.messages.len()
            invariant
                i <= self.messages@.len(),
                self.messages@.map_values(|m: GameMessage| m@) == all,
                self@ == old(self)@,
                kept@.map_values(|m: GameMessage| m@) == tick_messages_spec(
                    all.take(i as int),
                    dt,
                ),
            decreases self.messages@.len() - i,
        {
            let m = &self.messages[i];
            proof {
                assert(all[i as int] == self.messages@[i as int]@);
                assert(all.take(i + 1).drop_last() =~= all.take(i as int));
                assert(all.take(i + 1).last() == all[i as int]);
            }
            if m.lifetime_ms > dt {
                let ghost kv = kept@.map_values(|q: GameMessage| q@);
                kept.push(GameMessage { text: m.text.clone(), lifetime_ms: m.lifetime_ms - dt });
                proof {
                    assert(kept@.map_values(|q: GameMessage| q@) =~= kv.push(
                        (all[i as int].0, (all[i as int].1 - dt) as u64),
                    ));
                }
            }
            i += 1;
        }
        proof {
            assert(all.take(self.messages@.len() as int) =~= all);
        }
        self.messages = kept;
        proof {
            assert((*self)@ =~~= (GameView {
                messages: tick_messages_spec(old(self)@.messages, dt),
                ..old(self)@
            }));
        }
    }

    /// Spawns single food on a free interior cell when one exists;
    /// otherwise leaves the round unchanged.
    fn add_food(&mut self)
        requires
            4 <= old(self)@.width <= MAX_BOARD,
            4 <= old(self)@.height <= MAX_BOARD,
        ensures
            has_free_cell(old(self)@) ==> {
                &&& (*final(self))@ == (GameView {
                    food_exists: true,
                    food: (*final(self))@.food,
                    ..old(self)@
                })
                &&& in_interior(
                    (*final(self))@.food.0 as int,
                    (*final(self))@.food.1 as int,
                    old(self)@.width as int,
                    old(self)@.height as int,
                )
                &&& !old(self)@.snake.body.contains((*final(self))@.food)
            },
            !has_free_cell(old(self)@) ==> (*final(self))@ == old(self)@,
    {
        match spawn_food(&self.snake, self.width, self.height) {
            Option::Some(p) => {
                self.food_x = p.0;
                self.food_y = p.1;
                self.food_exists = true;
                proof {
                    assert((*self)@ =~~= (GameView {
                        food_exists: true,
                        food: (*self)@.food,
                        ..old(self)@
                    }));
                }
            },
            Option::None => {
                proof {
                    if has_free_cell(old(self)@) {
                        let (x, y) = choose|x: i32, y: i32|
                            in_interior(
                                x as int,
                                y as int,
                                old(self)@.width as int,
                                old(self)@.height as int,
                            ) && !old(self)@.snake.body.contains((x, y));
                        assert(old(self)@.snake.body.contains((x, y)));
                    }
                }
            },
        }
    }

    /// Spawns big food somewhere its 2x2 block fits in the interior,
    /// preferring (within the bounded retry budget) a block clear of the
    /// snake.
    fn add_big_food(&mut self)
        requires
            4 <= old(self)@.width <= MAX_BOARD,
            4 <= old(self)@.height <= MAX_BOARD,
        ensures
            (*final(self))@ == (GameView {
                big_food_exists: true,
                big_food: (*final(self))@.big_food,
                ..old(self)@
            }),
            big_block_in_interior(
                (*final(self))@.big_food.0 as int,
                (*final(self))@.big_food.1 as int,
                old(self)@.width as int,
                old(self)@.height as int,
            ),
    {
        let drawn = spawn_big_food(&self.snake, self.width, self.height);
        let pos = drawn.0;
        self.big_food_x = pos.0;
        self.big_food_y = pos.1;
        self.big_food_exists = true;
        proof {
            assert((*self)@ =~~= (GameView {
                big_food_exists: true,
                big_food: (*self)@.big_food,
                ..old(self)@
            }));
        }
    }

    /// Replaces the whole round state with a fresh one for the same
    /// board, mode, and speed setting.
    fn restart(&mut self)
        requires
            4 <= old(self)@.width <= MAX_BOARD,
            4 <= old(self)@.height <= MAX_BOARD,
            old(self)@.mode is Survival ==> old(self)@.speed_setting == GameSpeed::Fast,
        ensures
            (*final(self))@ == initial_state(
                old(self)@.width,
                old(self)@.height,
                old(self)@.mode,
                old(self)@.speed_setting,
            ),
            inv((*final(self))@),
    {
        self.snake = Snake::new(2, 2);
        self.waiting_time = 0;
        self.food_exists = true;
        self.food_x = 6;
        self.food_y = 4;
        self.big_food_exists = false;
        self.big_food_x = 0;
        self.big_food_y = 0;
        self.big_food_timer = 0;
        self.big_food_age = 0;
        self.game_over = false;
        self.score = 0;
        self.speed_tenths = match self.game_mode {
            GameMode::Classic => 10,
            GameMode::Speed => 15,
            GameMode::Survival => 15,
        };
        self.remaining_time = if self.game_mode == GameMode::Survival {
            Option::Some(TIME_LIMIT_MS)
        } else {
            Option::None
        };
        self.messages = Vec::new();
        proof {
            assert((*self)@.snake.body =~= seq![(2i32, 2i32), (1i32, 2i32), (0i32, 2i32)]);
            assert((*self)@.messages =~= Seq::<(Seq<char>, u64)>::empty());
            assert((*self)@ =~~= initial_state(
                old(self)@.width,
                old(self)@.height,
                old(self)@.mode,
                old(self)@.speed_setting,
            ));
            assert((*self)@.snake.body.no_duplicates());
        }
    }

    /// One engine tick for `dt_ms` elapsed milliseconds: advances every
    /// clock, respawns missing food, spawns, ages and expires big food,
    /// drains message lifetimes, and performs at most one forced movement
    /// step; after game-over it only waits out the restart delay and then
    /// replaces the round wholesale. Newly spawned food never overlaps
    /// the snake (big food: whenever its bounded search succeeded).
    #[verifier::rlimit(100)]
    #[verifier::spinoff_prover]
    pub fn update(&mut self, dt_ms: u64)
        requires
            inv(old(self)@),
            dt_ms <= MAX_UPDATE_MS,
        ensures
            inv((*final(self))@),
            (*final(self))@ == spec_update(
                old(self)@,
                dt_ms,
                (*final(self))@.food,
                (*final(self))@.big_food,
            ),
            spawn_happened(old(self)@, dt_ms) ==> in_interior(
                (*final(self))@.food.0 as int,
                (*final(self))@.food.1 as int,
                old(self)@.width as int,
                old(self)@.height as int,
            ) && !old(self)@.snake.body.contains((*final(self))@.food),
            big_spawn_happened(old(self)@, dt_ms) ==> big_block_in_interior(
                (*final(self))@.big_food.0 as int,
                (*final(self))@.big_food.1 as int,
                old(self)@.width as int,
                old(self)@.height as int,
            ),
    {
        let ghost g0 = self@;
        let ghost g2 = after_clock(g0, dt_ms);
        self.waiting_time = self.waiting_time + dt_ms;
        if self.game_mode == GameMode::Survival {
            if let Option::Some(rt) = self.remaining_time {
                let rt2: u64 = if rt <= dt_ms {
                    0
                } else {
                    rt - dt_ms
                };
                self.remaining_time = Option::Some(rt2);
                if rt2 == 0 {
                    self.game_over = true;
                }
            }
        }
        proof {
            assert((*self)@ =~~= g2);
        }
        if self.game_over {
            if self.waiting_time > RESTART_TIME_MS {
                self.restart();
            }
            proof {
                assert((*self)@ =~~= spec_update(g0, dt_ms, (*self)@.food, (*self)@.big_food));
            }
            return ;
        }
        self.tick_round(dt_ms);
        proof {
            assert((*self)@ == spec_update(g0, dt_ms, (*self)@.food, (*self)@.big_food));
        }
    }

    /// The live part of a tick, reached only while the round is running:
    /// food respawn, big-food spawn, ageing and expiry, message drain,
    /// and at most one forced movement step.
    #[verifier::rlimit(100)]
    #[verifier::spinoff_prover]
    fn tick_round(&mut self, dt_ms: u64)
        requires
            move_ready(old(self)@),
            !old(self)@.game_over,
            dt_ms <= MAX_UPDATE_MS,
            old(self)@.big_food_exists ==> old(self)@.big_food_timer <= old(self)@.big_food_age
                && old(self)@.big_food_age < BIG_FOOD_LIFETIME_MS,
            !old(self)@.big_food_exists ==> old(self)@.big_food_timer
                <= BIG_FOOD_SPAWN_INTERVAL_MS + BIG_FOOD_LIFETIME_MS + MAX_UPDATE_MS,
        ensures
            (*final(self))@ == spec_live_tick(
                old(self)@,
                dt_ms,
                (*final(self))@.food,
                (*final(self))@.big_food,
            ),
            move_ready((*final(self))@),
            (*final(self))@.waiting <= RESTART_TIME_MS,
            (*final(self))@.big_food_exists ==> (*final(self))@.big_food_timer
                <= (*final(self))@.big_food_age && (*final(self))@.big_food_age
                < BIG_FOOD_LIFETIME_MS,
            !(*final(self))@.big_food_exists ==> (*final(self))@.big_food_timer
                <= BIG_FOOD_SPAWN_INTERVAL_MS + BIG_FOOD_LIFETIME_MS + MAX_UPDATE_MS,
            !old(self)@.food_exists && has_free_cell(old(self)@) ==> in_interior(
                (*final(self))@.food.0 as int,
                (*final(self))@.food.1 as int,
                old(self)@.width as int,
                old(self)@.height as int,
            ) && !old(self)@.snake.body.contains((*final(self))@.food),
            !old(self)@.big_food_exists && old(self)@.big_food_timer + dt_ms
                >= BIG_FOOD_SPAWN_INTERVAL_MS ==> big_block_in_interior(
                (*final(self))@.big_food.0 as int,
                (*final(self))@.big_food.1 as int,
                old(self)@.width as int,
                old(self)@.height as int,
            ),
    {
        let ghost gb = self@;
        if !self.food_exists {
            self.add_food();
        }
        let ghost g3 = if !gb.food_exists && has_free_cell(gb) {
            GameView { food_exists: true, food: self@.food, ..gb }
        } else {
            gb
        };
        proof {
            assert((*self)@ =~~= g3);
        }
        self.big_food_timer = self.big_food_timer + dt_ms;
        let ghost g4 = GameView { big_food_timer: (g3.big_food_timer + dt_ms) as u64, ..g3 };
        if !self.big_food_exists && self.big_food_timer >= BIG_FOOD_SPAWN_INTERVAL_MS {
            self.add_big_food();
            self.big_food_timer = 0;
            self.big_food_age = 0;
        }
        let ghost g5 = if !g4.big_food_exists && g4.big_food_timer >= BIG_FOOD_SPAWN_INTERVAL_MS {
            GameView {
                big_food_exists: true,
                big_food: self@.big_food,
                big_food_timer: 0,
                big_food_age: 0,
                ..g4
            }
        } else {
            g4
        };
        proof {
            assert((*self)@ =~~= g5);
        }
        if self.big_food_exists {
            self.big_food_age = self.big_food_age + dt_ms;
            if self.big_food_age >= BIG_FOOD_LIFETIME_MS {
                self.big_food_exists = false;
            }
        }
        self.tick_messages(dt_ms);
        let ghost g6 = if g5.big_food_exists {
            if g5.big_food_age + dt_ms >= BIG_FOOD_LIFETIME_MS {
                GameView {
                    big_food_exists: false,
                    big_food_age: (g5.big_food_age + dt_ms) as u64,
                    ..g5
                }
            } else {
                GameView { big_food_age: (g5.big_food_age + dt_ms) as u64, ..g5 }
            }
        } else {
            g5
        };
        let ghost g7 = GameView { messages: tick_messages_spec(g6.messages, dt_ms), ..g6 };
        proof {
            assert((*self)@ =~~= g7);
            lemma_body_len_bounded(g7.snake.body, g7.width, g7.height);
            let w = g7.width;
            let h = g7.height;
            assert(w * h <= 100000000) by (nonlinear_arith)
                requires
                    0 < w <= 10000,
                    0 < h <= 10000,
            ;
        }
        let st: u64 = match self.speed_setting {
            GameSpeed::Slow => 7,
            GameSpeed::Medium => 10,
            GameSpeed::Fast => 15,
        };
        proof {
            let t = g7.speed_tenths;
            assert(t * st <= 10000000000u64) by (nonlinear_arith)
                requires
                    t <= 600000000,
                    st <= 15,
            ;
            assert(70 <= t * st) by (nonlinear_arith)
                requires
                    10 <= t,
                    7 <= st,
            ;
            assert(PERIOD_DIVIDEND as int / (t * st) as int <= 142) by (nonlinear_arith)
                requires
                    70 <= t * st,
            ;
        }
        let period = PERIOD_DIVIDEND / (self.speed_tenths * st);
        if self.waiting_time > period {
            self.update_snake(Option::None);
        }
        proof {
            assert((*self)@ =~~= spec_live_tick(gb, dt_ms, (*self)@.food, (*self)@.big_food));
        }
    }
}

} // verus!
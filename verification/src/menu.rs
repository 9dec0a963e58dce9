//! The menu state machine: the pre-game and post-game flow (mode choice,
//! speed choice, confirmation, in-game menu, game-over screen).
//!
//! Clicks are hit-tested against rectangular zones derived from the window
//! size, in integer pixel coordinates. Instead of terminating the process
//! itself, an input handler returns the command the host loop must carry
//! out, which keeps the state machine free of process-control side effects.

use vstd::prelude::*;

verus! {

/// The speed setting chosen at menu time, immutable during a round.
#[derive(Clone, Copy, PartialEq, Eq, Structural, Debug)]
pub enum GameSpeed {
    Slow,
    Medium,
    Fast,
}

/// The play mode, fixed at round start.
#[derive(Clone, Copy, PartialEq, Eq, Structural, Debug)]
pub enum GameMode {
    Classic,
    Speed,
    Survival,
}

/// The screen the menu currently shows. Exactly one is active at any time.
#[derive(Clone, Copy, PartialEq, Eq, Structural, Debug)]
pub enum MenuState {
    Main,
    ModeSelection,
    SpeedSelection,
    ConfirmStart,
    Playing,
    GameMenu,
    GameOver,
}

/// The key classes the menu reacts to.
#[derive(Clone, Copy, PartialEq, Eq, Structural, Debug)]
pub enum MenuKey {
    Escape,
    Other,
}

/// What the host loop must do after an input event was handled.
#[derive(Clone, Copy, PartialEq, Eq, Structural, Debug)]
pub enum MenuAction {
    Stay,
    Quit,
}

/// Upper bound on window dimensions in pixels, so that hit-zone arithmetic
/// stays far from the `i32` range.
pub const MAX_WINDOW: i32 = 1000000;

/// The menu: current screen, selections, and the flags the host reads.
#[derive(Clone, Copy, PartialEq, Eq, Structural, Debug)]
pub struct Menu {
    pub state: MenuState,
    pub selected_mode: GameMode,
    pub selected_speed: GameSpeed,
    pub window_width: i32,
    pub window_height: i32,
    pub is_paused: bool,
    pub should_restart: bool,
    pub final_score: i32,
}

/// Whether `(x, y)` lies in the closed rectangle `[x0, x1] x [y0, y1]`.
pub open spec fn in_rect(x: int, y: int, x0: int, x1: int, y0: int, y1: int) -> bool {
    x0 <= x <= x1 && y0 <= y <= y1
}

/// The menu and host command that a click at `(x, y)` produces. Each screen
/// defines mutually exclusive rectangular hit-zones centred on the window;
/// a click outside every zone changes nothing.
pub open spec fn spec_handle_click(m: Menu, x: i32, y: i32) -> (Menu, MenuAction) {
    let cx = m.window_width as int / 2;
    let cy = m.window_height as int / 2;
    match m.state {
        MenuState::Main => {
            if in_rect(x as int, y as int, cx - 150, cx + 150, cy - 80, cy + 20) {
                (Menu { state: MenuState::ModeSelection, ..m }, MenuAction::Stay)
            } else if in_rect(x as int, y as int, cx - 150, cx + 150, cy + 10, cy + 110) {
                (m, MenuAction::Quit)
            } else {
                (m, MenuAction::Stay)
            }
        },
        MenuState::ModeSelection => {
            if in_rect(x as int, y as int, cx - 100, cx + 100, cy - 65, cy - 15) {
                (
                    Menu { state: MenuState::Playing, selected_mode: GameMode::Classic, ..m },
                    MenuAction::Stay,
                )
            } else if in_rect(x as int, y as int, cx - 100, cx + 100, cy - 5, cy + 45) {
                (
                    Menu { state: MenuState::SpeedSelection, selected_mode: GameMode::Speed, ..m },
                    MenuAction::Stay,
                )
            } else if in_rect(x as int, y as int, cx - 100, cx + 100, cy + 55, cy + 105) {
                (
                    Menu { state: MenuState::Playing, selected_mode: GameMode::Survival, ..m },
                    MenuAction::Stay,
                )
            } else if in_rect(x as int, y as int, cx - 100, cx + 100, cy + 115, cy + 165) {
                (Menu { state: MenuState::Main, ..m }, MenuAction::Stay)
            } else {
                (m, MenuAction::Stay)
            }
        },
        MenuState::SpeedSelection => {
            if in_rect(x as int, y as int, cx - 180, cx - 60, cy - 20, cy + 20) {
                (
                    Menu { state: MenuState::ConfirmStart, selected_speed: GameSpeed::Slow, ..m },
                    MenuAction::Stay,
                )
            } else if in_rect(x as int, y as int, cx - 40, cx + 40, cy - 20, cy + 20) {
                (
                    Menu { state: MenuState::ConfirmStart, selected_speed: GameSpeed::Medium, ..m },
                    MenuAction::Stay,
                )
            } else if in_rect(x as int, y as int, cx + 60, cx + 180, cy - 20, cy + 20) {
                (
                    Menu { state: MenuState::ConfirmStart, selected_speed: GameSpeed::Fast, ..m },
                    MenuAction::Stay,
                )
            } else if in_rect(x as int, y as int, cx - 100, cx + 100, cy + 60, cy + 100) {
                (Menu { state: MenuState::ModeSelection, ..m }, MenuAction::Stay)
            } else {
                (m, MenuAction::Stay)
            }
        },
        MenuState::ConfirmStart => {
            if in_rect(x as int, y as int, cx - 90, cx - 10, cy + 20, cy + 60) {
                (Menu { state: MenuState::Playing, ..m }, MenuAction::Stay)
            } else if in_rect(x as int, y as int, cx + 10, cx + 90, cy + 20, cy + 60) {
                (Menu { state: MenuState::SpeedSelection, ..m }, MenuAction::Stay)
            } else {
                (m, MenuAction::Stay)
            }
        },
        MenuState::Playing => {
            if in_rect(
                x as int,
                y as int,
                m.window_width - 80,
                m.window_width - 40,
                15,
                45,
            ) {
                (Menu { state: MenuState::GameMenu, ..m }, MenuAction::Stay)
            } else {
                (m, MenuAction::Stay)
            }
        },
        MenuState::GameMenu => {
            if in_rect(x as int, y as int, cx - 100, cx + 100, cy - 30, cy + 10) {
                (
                    Menu { state: MenuState::Playing, is_paused: !m.is_paused, ..m },
                    MenuAction::Stay,
                )
            } else if in_rect(x as int, y as int, cx - 100, cx + 100, cy + 20, cy + 60) {
                (
                    Menu {
                        state: MenuState::Playing,
                        is_paused: false,
                        should_restart: true,
                        ..m
                    },
                    MenuAction::Stay,
                )
            } else if in_rect(x as int, y as int, cx - 100, cx + 100, cy + 70, cy + 110) {
                (Menu { state: MenuState::Main, ..m }, MenuAction::Stay)
            } else if in_rect(x as int, y as int, cx - 100, cx + 100, cy + 120, cy + 160) {
                (Menu { state: MenuState::Playing, ..m }, MenuAction::Stay)
            } else {
                (m, MenuAction::Stay)
            }
        },
        MenuState::GameOver => {
            if in_rect(x as int, y as int, cx - 100, cx + 100, cy - 20, cy + 20) {
                (
                    Menu {
                        state: MenuState::Playing,
                        is_paused: false,
                        should_restart: true,
                        ..m
                    },
                    MenuAction::Stay,
                )
            } else if in_rect(x as int, y as int, cx - 100, cx + 100, cy + 40, cy + 80) {
                (Menu { state: MenuState::Main, ..m }, MenuAction::Stay)
            } else {
                (m, MenuAction::Stay)
            }
        },
    }
}

/// The menu and host command that a key press produces. Escape means back,
/// pause, or quit, depending on the current screen; other keys do nothing.
pub open spec fn spec_handle_key(m: Menu, key: MenuKey) -> (Menu, MenuAction) {
    if key == MenuKey::Escape {
        match m.state {
            MenuState::Main => (m, MenuAction::Quit),
            MenuState::ModeSelection => (Menu { state: MenuState::Main, ..m }, MenuAction::Stay),
            MenuState::SpeedSelection => (
                Menu { state: MenuState::ModeSelection, ..m },
                MenuAction::Stay,
            ),
            MenuState::ConfirmStart => (
                Menu { state: MenuState::SpeedSelection, ..m },
                MenuAction::Stay,
            ),
            MenuState::Playing => (Menu { state: MenuState::GameMenu, ..m }, MenuAction::Stay),
            MenuState::GameMenu => (Menu { state: MenuState::Playing, ..m }, MenuAction::Stay),
            MenuState::GameOver => (Menu { state: MenuState::Main, ..m }, MenuAction::Stay),
        }
    } else {
        (m, MenuAction::Stay)
    }
}

impl Menu {
    /// A fresh menu on the main screen with default selections.
    pub fn new(window_width: i32, window_height: i32) -> (m: Menu)
        requires
            0 <= window_width <= MAX_WINDOW,
            0 <= window_height <= MAX_WINDOW,
        ensures
            m == (Menu {
                state: MenuState::Main,
                selected_mode: GameMode::Classic,
                selected_speed: GameSpeed::Medium,
                window_width: window_width,
                window_height: window_height,
                is_paused: false,
                should_restart: false,
                final_score: 0,
            }),
    {
        Menu {
            state: MenuState::Main,
            selected_mode: GameMode::Classic,
            selected_speed: GameSpeed::Medium,
            window_width,
            window_height,
            is_paused: false,
            should_restart: false,
            final_score: 0,
        }
    }

    /// Records a new window size for hit-zone computation.
    pub fn update_window_size(&mut self, new_width: i32, new_height: i32)
        requires
            0 <= new_width <= MAX_WINDOW,
            0 <= new_height <= MAX_WINDOW,
        ensures
            (*final(self)) == (Menu {
                window_width: new_width,
                window_height: new_height,
                ..*old(self)
            }),
    {
        self.window_width = new_width;
        self.window_height = new_height;
    }

    /// Records the score of the round that just ended, for the game-over
    /// screen.
    pub fn set_final_score(&mut self, score: i32)
        ensures
            (*final(self)) == (Menu { final_score: score, ..*old(self) }),
    {
        self.final_score = score;
    }

    /// Applies a click at pixel `(x, y)` to the current screen and returns
    /// the command the host loop must carry out.
    pub fn handle_click(&mut self, x: i32, y: i32) -> (r: MenuAction)
        requires
            0 <= old(self).window_width <= MAX_WINDOW,
            0 <= old(self).window_height <= MAX_WINDOW,
        ensures
            ((*final(self)), r) == spec_handle_click(*old(self), x, y),
    {
        let cx = self.window_width / 2;
        let cy = self.window_height / 2;
        match self.state {
            MenuState::Main => {
                if cx - 150 <= x && x <= cx + 150 && cy - 80 <= y && y <= cy + 20 {
                    self.state = MenuState::ModeSelection;
                    MenuAction::Stay
                } else if cx - 150 <= x && x <= cx + 150 && cy + 10 <= y && y <= cy + 110 {
                    MenuAction::Quit
                } else {
                    MenuAction::Stay
                }
            },
            MenuState::ModeSelection => {
                if cx - 100 <= x && x <= cx + 100 && cy - 65 <= y && y <= cy - 15 {
                    self.selected_mode = GameMode::Classic;
                    self.state = MenuState::Playing;
                    MenuAction::Stay
                } else if cx - 100 <= x && x <= cx + 100 && cy - 5 <= y && y <= cy + 45 {
                    self.selected_mode = GameMode::Speed;
                    self.state = MenuState::SpeedSelection;
                    MenuAction::Stay
                } else if cx - 100 <= x && x <= cx + 100 && cy + 55 <= y && y <= cy + 105 {
                    self.selected_mode = GameMode::Survival;
                    self.state = MenuState::Playing;
                    MenuAction::Stay
                } else if cx - 100 <= x && x <= cx + 100 && cy + 115 <= y && y <= cy + 165 {
                    self.state = MenuState::Main;
                    MenuAction::Stay
                } else {
                    MenuAction::Stay
                }
            },
            MenuState::SpeedSelection => {
                if cx - 180 <= x && x <= cx - 60 && cy - 20 <= y && y <= cy + 20 {
                    self.selected_speed = GameSpeed::Slow;
                    self.state = MenuState::ConfirmStart;
                    MenuAction::Stay
                } else if cx - 40 <= x && x <= cx + 40 && cy - 20 <= y && y <= cy + 20 {
                    self.selected_speed = GameSpeed::Medium;
                    self.state = MenuState::ConfirmStart;
                    MenuAction::Stay
                } else if cx + 60 <= x && x <= cx + 180 && cy - 20 <= y && y <= cy + 20 {
                    self.selected_speed = GameSpeed::Fast;
                    self.state = MenuState::ConfirmStart;
                    MenuAction::Stay
                } else if cx - 100 <= x && x <= cx + 100 && cy + 60 <= y && y <= cy + 100 {
                    self.state = MenuState::ModeSelection;
                    MenuAction::Stay
                } else {
                    MenuAction::Stay
                }
            },
            MenuState::ConfirmStart => {
                if cx - 90 <= x && x <= cx - 10 && cy + 20 <= y && y <= cy + 60 {
                    self.state = MenuState::Playing;
                    MenuAction::Stay
                } else if cx + 10 <= x && x <= cx + 90 && cy + 20 <= y && y <= cy + 60 {
                    self.state = MenuState::SpeedSelection;
                    MenuAction::Stay
                } else {
                    MenuAction::Stay
                }
            },
            MenuState::Playing => {
                if self.window_width - 80 <= x && x <= self.window_width - 40 && 15 <= y && y
                    <= 45 {
                    self.state = MenuState::GameMenu;
                    MenuAction::Stay
                } else {
                    MenuAction::Stay
                }
            },
            MenuState::GameMenu => {
                if cx - 100 <= x && x <= cx + 100 && cy - 30 <= y && y <= cy + 10 {
                    self.is_paused = !self.is_paused;
                    self.state = MenuState::Playing;
                    MenuAction::Stay
                } else if cx - 100 <= x && x <= cx + 100 && cy + 20 <= y && y <= cy + 60 {
                    self.is_paused = false;
                    self.should_restart = true;
                    self.state = MenuState::Playing;
                    MenuAction::Stay
                } else if cx - 100 <= x && x <= cx + 100 && cy + 70 <= y && y <= cy + 110 {
                    self.state = MenuState::Main;
                    MenuAction::Stay
                } else if cx - 100 <= x && x <= cx + 100 && cy + 120 <= y && y <= cy + 160 {
                    self.state = MenuState::Playing;
                    MenuAction::Stay
                } else {
                    MenuAction::Stay
                }
            },
            MenuState::GameOver => {
                if cx - 100 <= x && x <= cx + 100 && cy - 20 <= y && y <= cy + 20 {
                    self.is_paused = false;
                    self.should_restart = true;
                    self.state = MenuState::Playing;
                    MenuAction::Stay
                } else if cx - 100 <= x && x <= cx + 100 && cy + 40 <= y && y <= cy + 80 {
                    self.state = MenuState::Main;
                    MenuAction::Stay
                } else {
                    MenuAction::Stay
                }
            },
        }
    }

    /// Applies a key press to the current screen and returns the command
    /// the host loop must carry out.
    pub fn handle_key(&mut self, key: MenuKey) -> (r: MenuAction)
        ensures
            ((*final(self)), r) == spec_handle_key(*old(self), key),
    {
        match key {
            MenuKey::Escape => {
                match self.state {
                    MenuState::Main => MenuAction::Quit,
                    MenuState::ModeSelection => {
                        self.state = MenuState::Main;
                        MenuAction::Stay
                    },
                    MenuState::SpeedSelection => {
                        self.state = MenuState::ModeSelection;
                        MenuAction::Stay
                    },
                    MenuState::ConfirmStart => {
                        self.state = MenuState::SpeedSelection;
                        MenuAction::Stay
                    },
                    MenuState::Playing => {
                        self.state = MenuState::GameMenu;
                        MenuAction::Stay
                    },
                    MenuState::GameMenu => {
                        self.state = MenuState::Playing;
                        MenuAction::Stay
                    },
                    MenuState::GameOver => {
                        self.state = MenuState::Main;
                        MenuAction::Stay
                    },
                }
            },
            MenuKey::Other => MenuAction::Stay,
        }
    }
}

} // verus!

use snake_game::menu::{GameMode, GameSpeed, Menu, MenuAction, MenuKey, MenuState};

// All click tests use an 800x600 window, so the hit-zone centre is
// (400, 300).
fn fresh() -> Menu {
    Menu::new(800, 600)
}

#[test]
fn new_menu_starts_on_main_with_defaults() {
    let m = fresh();
    assert_eq!(m.state, MenuState::Main);
    assert_eq!(m.selected_mode, GameMode::Classic);
    assert_eq!(m.selected_speed, GameSpeed::Medium);
    assert!(!m.is_paused);
    assert!(!m.should_restart);
    assert_eq!(m.final_score, 0);
}

#[test]
fn main_start_click_opens_mode_selection() {
    let mut m = fresh();
    assert_eq!(m.handle_click(400, 250), MenuAction::Stay);
    assert_eq!(m.state, MenuState::ModeSelection);
}

#[test]
fn main_exit_click_requests_quit() {
    let mut m = fresh();
    assert_eq!(m.handle_click(400, 380), MenuAction::Quit);
    assert_eq!(m.state, MenuState::Main);
}

#[test]
fn main_click_outside_buttons_changes_nothing() {
    let mut m = fresh();
    assert_eq!(m.handle_click(10, 10), MenuAction::Stay);
    assert_eq!(m.state, MenuState::Main);
}

#[test]
fn mode_selection_classic_starts_playing() {
    let mut m = fresh();
    m.handle_click(400, 250);
    assert_eq!(m.handle_click(400, 250), MenuAction::Stay);
    assert_eq!(m.selected_mode, GameMode::Classic);
    assert_eq!(m.state, MenuState::Playing);
}

#[test]
fn mode_selection_speed_opens_speed_selection() {
    let mut m = fresh();
    m.handle_click(400, 250);
    m.handle_click(400, 320);
    assert_eq!(m.selected_mode, GameMode::Speed);
    assert_eq!(m.state, MenuState::SpeedSelection);
}

#[test]
fn mode_selection_survival_starts_playing() {
    let mut m = fresh();
    m.handle_click(400, 250);
    m.handle_click(400, 380);
    assert_eq!(m.selected_mode, GameMode::Survival);
    assert_eq!(m.state, MenuState::Playing);
}

#[test]
fn mode_selection_back_returns_to_main() {
    let mut m = fresh();
    m.handle_click(400, 250);
    m.handle_click(400, 440);
    assert_eq!(m.state, MenuState::Main);
}

#[test]
fn speed_selection_picks_each_speed_then_confirms() {
    for (x, speed) in [(280, GameSpeed::Slow), (400, GameSpeed::Medium), (520, GameSpeed::Fast)] {
        let mut m = fresh();
        m.handle_click(400, 250);
        m.handle_click(400, 320);
        m.handle_click(x, 300);
        assert_eq!(m.selected_speed, speed);
        assert_eq!(m.state, MenuState::ConfirmStart);
    }
}

#[test]
fn speed_selection_back_returns_to_mode_selection() {
    let mut m = fresh();
    m.handle_click(400, 250);
    m.handle_click(400, 320);
    m.handle_click(400, 380);
    assert_eq!(m.state, MenuState::ModeSelection);
}

#[test]
fn confirm_start_yes_plays_no_goes_back() {
    let mut m = fresh();
    m.handle_click(400, 250);
    m.handle_click(400, 320);
    m.handle_click(400, 300);
    m.handle_click(350, 340);
    assert_eq!(m.state, MenuState::Playing);

    let mut m = fresh();
    m.handle_click(400, 250);
    m.handle_click(400, 320);
    m.handle_click(400, 300);
    m.handle_click(450, 340);
    assert_eq!(m.state, MenuState::SpeedSelection);
}

#[test]
fn playing_menu_button_opens_game_menu() {
    let mut m = fresh();
    m.state = MenuState::Playing;
    m.handle_click(740, 30);
    assert_eq!(m.state, MenuState::GameMenu);
}

#[test]
fn playing_click_elsewhere_stays_playing() {
    let mut m = fresh();
    m.state = MenuState::Playing;
    m.handle_click(400, 300);
    assert_eq!(m.state, MenuState::Playing);
}

#[test]
fn game_menu_pause_toggles_and_returns_to_playing() {
    let mut m = fresh();
    m.state = MenuState::GameMenu;
    m.handle_click(400, 290);
    assert!(m.is_paused);
    assert_eq!(m.state, MenuState::Playing);
    m.state = MenuState::GameMenu;
    m.handle_click(400, 290);
    assert!(!m.is_paused);
}

#[test]
fn game_menu_restart_sets_one_shot_flag() {
    let mut m = fresh();
    m.state = MenuState::GameMenu;
    m.is_paused = true;
    m.handle_click(400, 340);
    assert!(m.should_restart);
    assert!(!m.is_paused);
    assert_eq!(m.state, MenuState::Playing);
}

#[test]
fn game_menu_main_and_close_buttons() {
    let mut m = fresh();
    m.state = MenuState::GameMenu;
    m.handle_click(400, 390);
    assert_eq!(m.state, MenuState::Main);

    let mut m = fresh();
    m.state = MenuState::GameMenu;
    m.handle_click(400, 440);
    assert_eq!(m.state, MenuState::Playing);
}

#[test]
fn game_over_play_again_and_main_buttons() {
    let mut m = fresh();
    m.state = MenuState::GameOver;
    m.handle_click(400, 300);
    assert!(m.should_restart);
    assert_eq!(m.state, MenuState::Playing);

    let mut m = fresh();
    m.state = MenuState::GameOver;
    m.handle_click(400, 360);
    assert_eq!(m.state, MenuState::Main);
}

#[test]
fn escape_walks_back_through_every_screen() {
    let mut m = fresh();
    m.state = MenuState::ConfirmStart;
    assert_eq!(m.handle_key(MenuKey::Escape), MenuAction::Stay);
    assert_eq!(m.state, MenuState::SpeedSelection);
    m.handle_key(MenuKey::Escape);
    assert_eq!(m.state, MenuState::ModeSelection);
    m.handle_key(MenuKey::Escape);
    assert_eq!(m.state, MenuState::Main);
    assert_eq!(m.handle_key(MenuKey::Escape), MenuAction::Quit);

    let mut m = fresh();
    m.state = MenuState::Playing;
    m.handle_key(MenuKey::Escape);
    assert_eq!(m.state, MenuState::GameMenu);
    m.handle_key(MenuKey::Escape);
    assert_eq!(m.state, MenuState::Playing);

    let mut m = fresh();
    m.state = MenuState::GameOver;
    m.handle_key(MenuKey::Escape);
    assert_eq!(m.state, MenuState::Main);
}

#[test]
fn other_keys_change_nothing() {
    let mut m = fresh();
    m.state = MenuState::SpeedSelection;
    assert_eq!(m.handle_key(MenuKey::Other), MenuAction::Stay);
    assert_eq!(m.state, MenuState::SpeedSelection);
}

#[test]
fn window_size_and_final_score_are_recorded() {
    let mut m = fresh();
    m.update_window_size(1024, 768);
    assert_eq!(m.window_width, 1024);
    assert_eq!(m.window_height, 768);
    m.set_final_score(42);
    assert_eq!(m.final_score, 42);
}

#[test]
fn hit_zones_follow_the_window_centre() {
    let mut m = Menu::new(400, 300);
    // Centre is (200, 150): the start zone moves with it.
    m.handle_click(200, 100);
    assert_eq!(m.state, MenuState::ModeSelection);
    let mut m = Menu::new(400, 300);
    // A click at the 800x600 start zone misses in the smaller window.
    m.handle_click(400, 250);
    assert_eq!(m.state, MenuState::Main);
}

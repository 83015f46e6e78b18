use pong::resources::PlayersActive;
use pong::states::{Completion, GameState, Key, MenuItem, MenuState, StateEvent, StateMachine};

fn key(k: Key) -> StateEvent {
    StateEvent::KeyDown(k)
}

fn at_menu() -> StateMachine {
    let mut sm = StateMachine::new();
    sm.update_loading(Completion::Complete);
    sm
}

#[test]
fn loading_waits_then_opens_the_menu() {
    let mut sm = StateMachine::new();
    assert_eq!(sm.state, GameState::Loading);
    sm.update_loading(Completion::Loading);
    assert_eq!(sm.state, GameState::Loading);
    sm.handle_event(key(Key::Space));
    assert_eq!(sm.state, GameState::Loading);
    sm.update_loading(Completion::Complete);
    assert_eq!(sm.state, GameState::Menu);
    assert!(!sm.load_failed);
}

#[test]
fn failed_loading_quits() {
    let mut sm = StateMachine::new();
    sm.update_loading(Completion::Failed);
    assert_eq!(sm.state, GameState::Quit);
    assert!(sm.load_failed);
}

#[test]
fn menu_selection_wraps() {
    let mut menu = MenuState::new();
    assert_eq!(menu.current_menu_item, MenuItem::SinglePlayer);
    menu.select_previous_menu_item();
    assert_eq!(menu.current_menu_item, MenuItem::Quit);
    menu.select_next_menu_item();
    assert_eq!(menu.current_menu_item, MenuItem::SinglePlayer);
    menu.select_next_menu_item();
    assert_eq!(menu.current_menu_item, MenuItem::MultiPlayer);
    assert_eq!(MenuItem::Quit.next(), MenuItem::SinglePlayer);
    assert_eq!(MenuItem::MultiPlayer.previous(), MenuItem::SinglePlayer);
}

#[test]
fn confirming_single_player() {
    let mut sm = at_menu();
    sm.handle_event(key(Key::Return));
    assert_eq!(sm.state, GameState::Playing);
    assert_eq!(sm.players_active, PlayersActive { p1: true, p2: false });
    assert!(sm.runs_simulation());
}

#[test]
fn confirming_two_players() {
    let mut sm = at_menu();
    sm.handle_event(key(Key::S));
    sm.handle_event(key(Key::Return));
    assert_eq!(sm.state, GameState::Playing);
    assert_eq!(sm.players_active, PlayersActive { p1: true, p2: true });
}

#[test]
fn confirming_quit_entry() {
    let mut sm = at_menu();
    sm.handle_event(key(Key::Up));
    assert_eq!(sm.menu.current_menu_item, MenuItem::Quit);
    sm.handle_event(key(Key::Return));
    assert_eq!(sm.state, GameState::Quit);
}

#[test]
fn space_toggles_pause() {
    let mut sm = at_menu();
    sm.handle_event(key(Key::Return));
    sm.handle_event(key(Key::Space));
    assert_eq!(sm.state, GameState::Paused);
    assert!(!sm.runs_simulation());
    sm.handle_event(key(Key::Return));
    assert_eq!(sm.state, GameState::Paused);
    sm.handle_event(key(Key::Space));
    assert_eq!(sm.state, GameState::Playing);
}

#[test]
fn escape_or_close_quits_from_any_state() {
    let mut loading = StateMachine::new();
    loading.handle_event(StateEvent::CloseRequested);
    assert_eq!(loading.state, GameState::Quit);

    let mut menu = at_menu();
    menu.handle_event(key(Key::Escape));
    assert_eq!(menu.state, GameState::Quit);

    let mut paused = at_menu();
    paused.handle_event(key(Key::Return));
    paused.handle_event(key(Key::Space));
    paused.handle_event(key(Key::Escape));
    assert_eq!(paused.state, GameState::Quit);

    paused.handle_event(key(Key::Space));
    assert_eq!(paused.state, GameState::Quit);
}

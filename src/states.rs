//! The game state machine: Loading, then Menu, then Playing and Paused in turn, and
//! Quit from anywhere on request.

use vstd::prelude::*;
use crate::resources::PlayersActive;

verus! {

/// The phase of the session. Only `Playing` runs the simulation.
#[derive(Clone, Copy, Debug, PartialEq, Eq, Structural)]
pub enum GameState {
    Loading,
    Menu,
    Playing,
    Paused,
    Quit,
}

/// The keys the state machine reacts to.
#[derive(Clone, Copy, Debug, PartialEq, Eq, Structural)]
pub enum Key {
    Escape,
    Space,
    Return,
    Up,
    Down,
    W,
    S,
    Other,
}

/// A window event.
#[derive(Clone, Copy, Debug, PartialEq, Eq, Structural)]
pub enum StateEvent {
    CloseRequested,
    KeyDown(Key),
}

/// How far the collaborators' asset loading has come.
#[derive(Clone, Copy, Debug, PartialEq, Eq, Structural)]
pub enum Completion {
    Loading,
    Complete,
    Failed,
}

/// The entries of the menu, in display order.
#[derive(Clone, Copy, Debug, PartialEq, Eq, Structural)]
pub enum MenuItem {
    SinglePlayer,
    MultiPlayer,
    Quit,
}

/// The entry below `item`, wrapping from the last to the first.
pub open spec fn next_item(item: MenuItem) -> MenuItem {
    match item {
        MenuItem::SinglePlayer => MenuItem::MultiPlayer,
        MenuItem::MultiPlayer => MenuItem::Quit,
        MenuItem::Quit => MenuItem::SinglePlayer,
    }
}

/// The entry above `item`, wrapping from the first to the last.
pub open spec fn previous_item(item: MenuItem) -> MenuItem {
    match item {
        MenuItem::SinglePlayer => MenuItem::Quit,
        MenuItem::MultiPlayer => MenuItem::SinglePlayer,
        MenuItem::Quit => MenuItem::MultiPlayer,
    }
}

impl MenuItem {
    /// The entry below this one.
    pub fn next(&self) -> (r: MenuItem)
        ensures
            r == next_item(*self),
    {
        match *self {
            MenuItem::SinglePlayer => MenuItem::MultiPlayer,
            MenuItem::MultiPlayer => MenuItem::Quit,
            MenuItem::Quit => MenuItem::SinglePlayer,
        }
    }

    /// The entry above this one.
    pub fn previous(&self) -> (r: MenuItem)
        ensures
            r == previous_item(*self),
    {
        match *self {
            MenuItem::SinglePlayer => MenuItem::Quit,
            MenuItem::MultiPlayer => MenuItem::SinglePlayer,
            MenuItem::Quit => MenuItem::MultiPlayer,
        }
    }
}

/// The menu's selection.
#[derive(Clone, Copy, Debug, PartialEq, Eq, Structural)]
pub struct MenuState {
    pub current_menu_item: MenuItem,
}

impl MenuState {
    /// A menu with the first entry selected.
    pub fn new() -> (r: MenuState)
        ensures
            r.current_menu_item == MenuItem::SinglePlayer,
    {
        MenuState { current_menu_item: MenuItem::SinglePlayer }
    }

    /// Selects the entry below the current one.
    pub fn select_next_menu_item(&mut self)
        ensures
            final(self).current_menu_item == next_item(old(self).current_menu_item),
    {
        self.current_menu_item = self.current_menu_item.next();
    }

    /// Selects the entry above the current one.
    pub fn select_previous_menu_item(&mut self)
        ensures
            final(self).current_menu_item == previous_item(old(self).current_menu_item),
    {
        self.current_menu_item = self.current_menu_item.previous();
    }
}

/// The top-level state of a session.
#[derive(Clone, Copy, Debug, PartialEq, Eq, Structural)]
pub struct StateMachine {
    pub state: GameState,
    pub menu: MenuState,
    /// The players chosen in the menu; no player before that.
    pub players_active: PlayersActive,
    /// Whether loading failed, which ends the session.
    pub load_failed: bool,
}

/// Whether the event asks to end the session: a close request or Escape.
pub open spec fn asks_quit(event: StateEvent) -> bool {
    event == StateEvent::CloseRequested || event == StateEvent::KeyDown(Key::Escape)
}

/// `sm` in state `state`, all else kept.
pub open spec fn with_state(sm: StateMachine, state: GameState) -> StateMachine {
    StateMachine { state, ..sm }
}

/// The menu's answer to a key: Up or W select the entry above, Down or S the entry
/// below, Return confirms the selection.
pub open spec fn menu_key(sm: StateMachine, key: Key) -> StateMachine {
    if key == Key::Up || key == Key::W {
        StateMachine { menu: MenuState { current_menu_item: previous_item(sm.menu.current_menu_item) }, ..sm }
    } else if key == Key::Down || key == Key::S {
        StateMachine { menu: MenuState { current_menu_item: next_item(sm.menu.current_menu_item) }, ..sm }
    } else if key == Key::Return {
        match sm.menu.current_menu_item {
            MenuItem::SinglePlayer => StateMachine {
                state: GameState::Playing,
                players_active: PlayersActive { p1: true, p2: false },
                ..sm
            },
            MenuItem::MultiPlayer => StateMachine {
                state: GameState::Playing,
                players_active: PlayersActive { p1: true, p2: true },
                ..sm
            },
            MenuItem::Quit => with_state(sm, GameState::Quit),
        }
    } else {
        sm
    }
}

/// The machine after a window event. Quit is final; a close request or Escape ends
/// every other state; Space pauses a running game and resumes a paused one; the menu
/// moves its selection and starts the game.
pub open spec fn after_event(sm: StateMachine, event: StateEvent) -> StateMachine {
    if sm.state == GameState::Quit {
        sm
    } else if asks_quit(event) {
        with_state(sm, GameState::Quit)
    } else {
        match event {
            StateEvent::KeyDown(key) => match sm.state {
                GameState::Menu => menu_key(sm, key),
                GameState::Playing => if key == Key::Space {
                    with_state(sm, GameState::Paused)
                } else {
                    sm
                },
                GameState::Paused => if key == Key::Space {
                    with_state(sm, GameState::Playing)
                } else {
                    sm
                },
                _ => sm,
            },
            _ => sm,
        }
    }
}

/// The machine after a report of the loading progress: on to the menu when loading is
/// complete, to Quit when it failed. Other states ignore the report.
pub open spec fn after_progress(sm: StateMachine, progress: Completion) -> StateMachine {
    if sm.state == GameState::Loading {
        match progress {
            Completion::Loading => sm,
            Completion::Complete => with_state(sm, GameState::Menu),
            Completion::Failed => StateMachine { state: GameState::Quit, load_failed: true, ..sm },
        }
    } else {
        sm
    }
}

impl StateMachine {
    /// A session that is loading, with the menu's first entry selected.
    pub fn new() -> (r: StateMachine)
        ensures
            r.state == GameState::Loading,
            r.menu.current_menu_item == MenuItem::SinglePlayer,
            r.players_active == (PlayersActive { p1: false, p2: false }),
            !r.load_failed,
    {
        StateMachine {
            state: GameState::Loading,
            menu: MenuState::new(),
            players_active: PlayersActive { p1: false, p2: false },
            load_failed: false,
        }
    }

    /// Reacts to a window event.
    pub fn handle_event(&mut self, event: StateEvent)
        ensures
            *final(self) == after_event(*old(self), event),
    {
        if self.state == GameState::Quit {
            return;
        }
        if event == StateEvent::CloseRequested || event == StateEvent::KeyDown(Key::Escape) {
            self.state = GameState::Quit;
            return;
        }
        if let StateEvent::KeyDown(key) = event {
            match self.state {
                GameState::Menu => {
                    if key == Key::Up || key == Key::W {
                        self.menu.select_previous_menu_item();
                    } else if key == Key::Down || key == Key::S {
                        self.menu.select_next_menu_item();
                    } else if key == Key::Return {
                        match self.menu.current_menu_item {
                            MenuItem::SinglePlayer => {
                                self.players_active = PlayersActive { p1: true, p2: false };
                                self.state = GameState::Playing;
                            },
                            MenuItem::MultiPlayer => {
                                self.players_active = PlayersActive { p1: true, p2: true };
                                self.state = GameState::Playing;
                            },
                            MenuItem::Quit => {
                                self.state = GameState::Quit;
                            },
                        }
                    }
                },
                GameState::Playing => {
                    if key == Key::Space {
                        self.state = GameState::Paused;
                    }
                },
                GameState::Paused => {
                    if key == Key::Space {
                        self.state = GameState::Playing;
                    }
                },
                _ => {},
            }
        }
    }

    /// Reacts to the loading progress reported this frame.
    pub fn update_loading(&mut self, progress: Completion)
        ensures
            *final(self) == after_progress(*old(self), progress),
    {
        if self.state == GameState::Loading {
            match progress {
                Completion::Loading => {},
                Completion::Complete => {
                    self.state = GameState::Menu;
                },
                Completion::Failed => {
                    self.state = GameState::Quit;
                    self.load_failed = true;
                },
            }
        }
    }

    /// Whether the simulation runs this frame.
    pub fn runs_simulation(&self) -> (r: bool)
        ensures
            r == (self.state == GameState::Playing),
    {
        self.state == GameState::Playing
    }
}

} // verus!

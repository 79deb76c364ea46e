//! The game's menus as a state machine: one step per frame, from the keys
//! pressed in that frame to the next menu state and what the caller must do.

use vstd::prelude::*;

use crate::world::{is_location, GameState};

verus! {

/// Items of the main menu: play, settings, exit.
pub const MAIN_MENU_ITEMS: usize = 3;
/// Items of the pause menu: resume, restart, settings, main menu.
pub const PAUSE_ITEMS: usize = 4;
/// Items of the settings menu: screen mode, font, back, and a last one that does nothing.
pub const SETTINGS_ITEMS: usize = 4;
/// Fonts the interface can be drawn with.
pub const FONT_COUNT: usize = 4;

/// The menu keys pressed in one frame: up (W), down (S), confirm (Enter), back (Escape).
#[derive(Debug, Clone, Copy, PartialEq, Eq, Structural)]
pub struct FrameKeys {
    pub up: bool,
    pub down: bool,
    pub confirm: bool,
    pub back: bool,
}

/// What the caller does after a frame's menu step.
#[derive(Debug, Clone, Copy, PartialEq, Eq, Structural)]
pub struct FrameOutcome {
    /// Leave the game.
    pub quit: bool,
    /// Switch the window to full screen (`true`) or back to a window (`false`).
    pub set_fullscreen: Option<bool>,
    /// Bring the player back to life at the start.
    pub restart_player: bool,
    /// Let the world run this frame: the player, the enemies, the bullets.
    pub run_world: bool,
}

/// Everything the menus remember between frames.
#[derive(Debug, Clone, Copy, PartialEq, Eq, Structural)]
pub struct Session {
    /// The screen shown.
    pub state: GameState,
    /// Where the settings menu returns to.
    pub previous_state: GameState,
    /// Whether the pause menu is open over a location.
    pub is_paused: bool,
    /// Highlighted item of the main menu.
    pub menu_idx: usize,
    /// Highlighted item of the pause menu.
    pub pause_idx: usize,
    /// Highlighted item of the settings menu.
    pub settings_idx: usize,
    /// Whether the window fills the screen.
    pub fullscreen: bool,
    /// The interface font (see `Assets::get_font`).
    pub font_idx: usize,
}

/// The highlighted item after the up and down keys of one frame, in a menu
/// of `n` items that wraps around at both ends; up is handled before down.
pub open spec fn navigate(i: int, n: int, up: bool, down: bool) -> int {
    let after_up = if up {
        (i + n - 1) % n
    } else {
        i
    };
    if down {
        (after_up + 1) % n
    } else {
        after_up
    }
}

/// A frame in which nothing else happens.
pub open spec fn idle_outcome() -> FrameOutcome {
    FrameOutcome { quit: false, set_fullscreen: None, restart_player: false, run_world: false }
}

/// One frame of the main menu: move the highlight, then confirm it — play
/// starts in the apartment, settings open (returning here), exit quits.
pub open spec fn main_menu_step(s: Session, k: FrameKeys) -> (Session, FrameOutcome) {
    let idx = navigate(s.menu_idx as int, MAIN_MENU_ITEMS as int, k.up, k.down) as usize;
    let s1 = Session { menu_idx: idx, ..s };
    if k.confirm && idx == 0 {
        (Session { state: GameState::InApartment, ..s1 }, idle_outcome())
    } else if k.confirm && idx == 1 {
        (
            Session {
                state: GameState::Settings,
                previous_state: GameState::MainMenu,
                settings_idx: 0,
                ..s1
            },
            idle_outcome(),
        )
    } else if k.confirm && idx == 2 {
        (s1, FrameOutcome { quit: true, ..idle_outcome() })
    } else {
        (s1, idle_outcome())
    }
}

/// One frame of the settings menu: move the highlight, then confirm it —
/// toggle full screen, cycle the font, or go back; the back key also goes
/// back to where the settings were opened from.
pub open spec fn settings_step(s: Session, k: FrameKeys) -> (Session, FrameOutcome) {
    let idx = navigate(s.settings_idx as int, SETTINGS_ITEMS as int, k.up, k.down) as usize;
    let s1 = Session { settings_idx: idx, ..s };
    let (s2, out) = if k.confirm && idx == 0 {
        (
            Session { fullscreen: !s1.fullscreen, ..s1 },
            FrameOutcome { set_fullscreen: Some(!s1.fullscreen), ..idle_outcome() },
        )
    } else if k.confirm && idx == 1 {
        (
            Session { font_idx: ((s1.font_idx + 1) % (FONT_COUNT as int)) as usize, ..s1 },
            idle_outcome(),
        )
    } else if k.confirm && idx == 2 {
        (Session { state: s1.previous_state, ..s1 }, idle_outcome())
    } else {
        (s1, idle_outcome())
    };
    if k.back {
        (Session { state: s2.previous_state, ..s2 }, out)
    } else {
        (s2, out)
    }
}

/// One frame in a location: the back key opens or closes the pause menu
/// (with its first item highlighted); while paused, move the highlight and
/// confirm it — resume, restart the player, open the settings (returning
/// here), or go to the main menu. The world runs whenever the game is not
/// paused at the end of the frame.
pub open spec fn game_step(s: Session, k: FrameKeys) -> (Session, FrameOutcome) {
    let s0 = if k.back {
        Session { is_paused: !s.is_paused, pause_idx: 0, ..s }
    } else {
        s
    };
    let (s2, restart) = if !s0.is_paused {
        (s0, false)
    } else {
        let idx = navigate(s0.pause_idx as int, PAUSE_ITEMS as int, k.up, k.down) as usize;
        let s1 = Session { pause_idx: idx, ..s0 };
        if k.confirm && idx == 0 {
            (Session { is_paused: false, ..s1 }, false)
        } else if k.confirm && idx == 1 {
            (Session { is_paused: false, ..s1 }, true)
        } else if k.confirm && idx == 2 {
            (
                Session {
                    previous_state: s1.state,
                    state: GameState::Settings,
                    settings_idx: 0,
                    ..s1
                },
                false,
            )
        } else if k.confirm && idx == 3 {
            (Session { state: GameState::MainMenu, is_paused: false, menu_idx: 0, ..s1 }, false)
        } else {
            (s1, false)
        }
    };
    (s2, FrameOutcome { restart_player: restart, run_world: !s2.is_paused, ..idle_outcome() })
}

/// One frame of the menus.
pub open spec fn session_step(s: Session, k: FrameKeys) -> (Session, FrameOutcome) {
    match s.state {
        GameState::MainMenu => main_menu_step(s, k),
        GameState::Settings => settings_step(s, k),
        _ => game_step(s, k),
    }
}

impl Session {
    /// Every highlight is on an item, the font exists, and the settings
    /// never return to themselves.
    pub open spec fn wf(&self) -> bool {
        &&& self.menu_idx < MAIN_MENU_ITEMS
        &&& self.pause_idx < PAUSE_ITEMS
        &&& self.settings_idx < SETTINGS_ITEMS
        &&& self.font_idx < FONT_COUNT
        &&& self.previous_state != GameState::Settings
    }

    /// The game as it starts: the main menu, first items highlighted, in a window, first font.
    pub fn new() -> (s: Self)
        ensures
            s == (Session {
                state: GameState::MainMenu,
                previous_state: GameState::MainMenu,
                is_paused: false,
                menu_idx: 0,
                pause_idx: 0,
                settings_idx: 0,
                fullscreen: false,
                font_idx: 0,
            }),
            s.wf(),
    {
        Session {
            state: GameState::MainMenu,
            previous_state: GameState::MainMenu,
            is_paused: false,
            menu_idx: 0,
            pause_idx: 0,
            settings_idx: 0,
            fullscreen: false,
            font_idx: 0,
        }
    }

    /// Handles one frame's menu keys (see `session_step`).
    pub fn step(&mut self, keys: FrameKeys) -> (out: FrameOutcome)
        requires
            old(self).wf(),
        ensures
            (*final(self), out) == session_step(*old(self), keys),
            final(self).wf(),
    {
        match self.state {
            GameState::MainMenu => self.step_main_menu(keys),
            GameState::Settings => self.step_settings(keys),
            _ => self.step_game(keys),
        }
    }

    fn step_main_menu(&mut self, keys: FrameKeys) -> (out: FrameOutcome)
        requires
            old(self).wf(),
        ensures
            (*final(self), out) == main_menu_step(*old(self), keys),
            final(self).wf(),
    {
        let mut out = FrameOutcome {
            quit: false,
            set_fullscreen: None,
            restart_player: false,
            run_world: false,
        };
        self.menu_idx = navigate_items(self.menu_idx, MAIN_MENU_ITEMS, keys.up, keys.down);
        if keys.confirm {
            match self.menu_idx {
                0 => {
                    self.state = GameState::InApartment;
                },
                1 => {
                    self.previous_state = GameState::MainMenu;
                    self.state = GameState::Settings;
                    self.settings_idx = 0;
                },
                2 => {
                    out.quit = true;
                },
                _ => {},
            }
        }
        out
    }

    fn step_settings(&mut self, keys: FrameKeys) -> (out: FrameOutcome)
        requires
            old(self).wf(),
        ensures
            (*final(self), out) == settings_step(*old(self), keys),
            final(self).wf(),
    {
        let mut out = FrameOutcome {
            quit: false,
            set_fullscreen: None,
            restart_player: false,
            run_world: false,
        };
        self.settings_idx = navigate_items(self.settings_idx, SETTINGS_ITEMS, keys.up, keys.down);
        if keys.confirm {
            match self.settings_idx {
                0 => {
                    self.fullscreen = !self.fullscreen;
                    out.set_fullscreen = Some(self.fullscreen);
                },
                1 => {
                    self.font_idx = if self.font_idx == 3 {
                        0
                    } else {
                        self.font_idx + 1
                    };
                },
                2 => {
                    self.state = self.previous_state;
                },
                _ => {},
            }
        }
        if keys.back {
            self.state = self.previous_state;
        }
        out
    }

    fn step_game(&mut self, keys: FrameKeys) -> (out: FrameOutcome)
        requires
            old(self).wf(),
            old(self).state != GameState::MainMenu,
            old(self).state != GameState::Settings,
        ensures
            (*final(self), out) == game_step(*old(self), keys),
            final(self).wf(),
    {
        let mut out = FrameOutcome {
            quit: false,
            set_fullscreen: None,
            restart_player: false,
            run_world: false,
        };
        if keys.back {
            self.is_paused = !self.is_paused;
            self.pause_idx = 0;
        }
        if self.is_paused {
            self.pause_idx = navigate_items(self.pause_idx, PAUSE_ITEMS, keys.up, keys.down);
            if keys.confirm {
                match self.pause_idx {
                    0 => {
                        self.is_paused = false;
                    },
                    1 => {
                        out.restart_player = true;
                        self.is_paused = false;
                    },
                    2 => {
                        self.previous_state = self.state;
                        self.state = GameState::Settings;
                        self.settings_idx = 0;
                    },
                    3 => {
                        self.state = GameState::MainMenu;
                        self.is_paused = false;
                        self.menu_idx = 0;
                    },
                    _ => {},
                }
            }
        }
        out.run_world = !self.is_paused;
        out
    }
}

/// Moves the highlight of a menu of `n` items by one frame's up and down keys:
/// up from the first item goes to the last, down from the last to the first.
fn navigate_items(i: usize, n: usize, up: bool, down: bool) -> (r: usize)
    requires
        i < n,
    ensures
        r as int == navigate(i as int, n as int, up, down),
        r < n,
{
    let mut idx = i;
    if up {
        idx = if idx == 0 {
            n - 1
        } else {
            idx - 1
        };
    }
    proof {
        let ghost j = idx;
        assert(j as int == (if up { (i + n - 1) % (n as int) } else { i as int })) by (nonlinear_arith)
            requires
                i < n,
                up ==> j == (if i == 0 { n - 1 } else { i - 1 }),
                !up ==> j == i,
        ;
    }
    let after_up = idx;
    if down {
        idx = if idx == n - 1 {
            0
        } else {
            idx + 1
        };
    }
    proof {
        let ghost j = idx;
        assert(j as int == (if down { (after_up + 1) % (n as int) } else { after_up as int })) by (nonlinear_arith)
            requires
                after_up < n,
                down ==> j == (if after_up == n - 1 { 0 } else { after_up + 1 }),
                !down ==> j == after_up,
        ;
    }
    idx
}

/// Pressing up and down in the same frame, and nothing else, changes nothing
/// in the menus: every highlight stays where it was.
pub proof fn lemma_up_down_cancel(s: Session, k: FrameKeys)
    requires
        s.wf(),
        k.up && k.down && !k.confirm && !k.back,
    ensures
        session_step(s, k).0 == s,
        !session_step(s, k).1.quit,
        session_step(s, k).1.set_fullscreen is None,
        !session_step(s, k).1.restart_player,
{
}

/// Confirming the font item four times in a row brings back the font one
/// started with, without leaving the settings.
pub proof fn lemma_font_cycle(s: Session)
    requires
        s.wf(),
        s.state == GameState::Settings,
        s.settings_idx == 1,
    ensures
        ({
            let k = FrameKeys { up: false, down: false, confirm: true, back: false };
            let s1 = session_step(s, k).0;
            let s2 = session_step(s1, k).0;
            let s3 = session_step(s2, k).0;
            let s4 = session_step(s3, k).0;
            &&& s4 == s
            &&& s1.font_idx != s.font_idx
            &&& s1.state == GameState::Settings
        }),
{
}

/// In a location, pressing back twice opens and closes the pause menu: the
/// game is where it was, with the first pause item highlighted.
pub proof fn lemma_pause_toggle(s: Session)
    requires
        s.wf(),
        is_location(s.state),
    ensures
        ({
            let k = FrameKeys { up: false, down: false, confirm: false, back: true };
            let s1 = session_step(s, k).0;
            let s2 = session_step(s1, k).0;
            &&& s1.is_paused == !s.is_paused
            &&& s2 == (Session { pause_idx: 0, ..s })
        }),
{
}

/// Settings opened from the pause menu lead back to the same location,
/// still paused, with the settings' changes kept.
pub proof fn lemma_settings_return_to_game(s: Session)
    requires
        s.wf(),
        is_location(s.state),
        s.is_paused,
        s.pause_idx == 2,
    ensures
        ({
            let confirm = FrameKeys { up: false, down: false, confirm: true, back: false };
            let back = FrameKeys { up: false, down: false, confirm: false, back: true };
            let s1 = session_step(s, confirm).0;
            let s2 = session_step(s1, back).0;
            &&& s1.state == GameState::Settings
            &&& !session_step(s, confirm).1.run_world
            &&& s2.state == s.state
            &&& s2.is_paused
        }),
{
}

/// The game only ever quits from the exit item of the main menu.
pub proof fn lemma_quit_only_from_main_menu(s: Session, k: FrameKeys)
    requires
        s.wf(),
        session_step(s, k).1.quit,
    ensures
        s.state == GameState::MainMenu,
        k.confirm,
        navigate(s.menu_idx as int, MAIN_MENU_ITEMS as int, k.up, k.down) == 2,
{
}

/// The world only runs in a frame that started in a location, and it ends
/// that frame in a location unless the pause menu's main-menu item was
/// chosen in that very frame.
pub proof fn lemma_world_runs_in_locations(s: Session, k: FrameKeys)
    requires
        s.wf(),
        session_step(s, k).1.run_world,
    ensures
        is_location(s.state),
        is_location(session_step(s, k).0.state) || session_step(s, k).0.state
            == GameState::MainMenu,
{
}

/// The highlight of a menu of `n` items moves one item per key: up to the
/// previous item, from the first to the last; down to the next item, from
/// the last to the first; both keys together, or none, leave it in place.
pub proof fn lemma_navigation_moves_one_item(i: int, n: int)
    requires
        0 <= i < n,
    ensures
        navigate(i, n, true, false) == if i == 0 {
            n - 1
        } else {
            i - 1
        },
        navigate(i, n, false, true) == if i == n - 1 {
            0
        } else {
            i + 1
        },
        navigate(i, n, true, true) == i,
        navigate(i, n, false, false) == i,
{
    assert((i + n - 1) % n == if i == 0 { n - 1 } else { i - 1 }) by (nonlinear_arith)
        requires
            0 <= i < n,
    ;
    assert((i + 1) % n == if i == n - 1 { 0 } else { i + 1 }) by (nonlinear_arith)
        requires
            0 <= i < n,
    ;
    let up = if i == 0 { n - 1 } else { i - 1 };
    assert((up + 1) % n == i) by (nonlinear_arith)
        requires
            0 <= i < n,
            up == if i == 0 { n - 1 } else { i - 1 },
    ;
}

/// Confirming in the main menu: PLAY enters the apartment, SETTINGS opens
/// the settings (first item highlighted) returning to the main menu, EXIT
/// quits; nothing else happens.
pub proof fn lemma_main_menu_items(s: Session)
    requires
        s.wf(),
        s.state == GameState::MainMenu,
    ensures
        ({
            let k = FrameKeys { up: false, down: false, confirm: true, back: false };
            let (t, out) = session_step(s, k);
            &&& s.menu_idx == 0 ==> t.state == GameState::InApartment && !out.quit
            &&& s.menu_idx == 1 ==> t.state == GameState::Settings && t.previous_state
                == GameState::MainMenu && t.settings_idx == 0 && !out.quit
            &&& s.menu_idx == 2 ==> out.quit && t.state == GameState::MainMenu
            &&& !out.run_world && !out.restart_player && out.set_fullscreen is None
            &&& t.fullscreen == s.fullscreen && t.font_idx == s.font_idx
        }),
{
}

/// Confirming in the settings: SCREEN MODE flips full screen and asks the
/// caller for the new mode; the font item moves to the next of the four
/// fonts, after the last back to the first; BACK returns to where the
/// settings were opened from — the same screen as the back key — and the
/// last item does nothing.
pub proof fn lemma_settings_items(s: Session)
    requires
        s.wf(),
        s.state == GameState::Settings,
    ensures
        ({
            let confirm = FrameKeys { up: false, down: false, confirm: true, back: false };
            let back = FrameKeys { up: false, down: false, confirm: false, back: true };
            let (t, out) = session_step(s, confirm);
            &&& s.settings_idx == 0 ==> t.fullscreen == !s.fullscreen && out.set_fullscreen
                == Some(!s.fullscreen) && t.state == GameState::Settings
            &&& s.settings_idx == 1 ==> t.font_idx == (if s.font_idx == 3 {
                0
            } else {
                s.font_idx + 1
            }) && t.state == GameState::Settings && t.fullscreen == s.fullscreen
            &&& s.settings_idx == 2 ==> t.state == s.previous_state && t.state == session_step(
                s,
                back,
            ).0.state && t.fullscreen == s.fullscreen && t.font_idx == s.font_idx
            &&& s.settings_idx == 3 ==> t == s && out.set_fullscreen is None
            &&& session_step(s, back).0.state == s.previous_state
            &&& !out.quit && !out.run_world && !out.restart_player
        }),
{
}

/// Confirming in the pause menu: RESUME closes it and the world runs;
/// RESTART does the same and brings the player back; SETTINGS opens the
/// settings returning to this location, still paused, the world stopped;
/// MAIN MENU leaves for the main menu with its first item highlighted.
/// While the game runs unpaused, a frame without keys changes nothing and
/// the world runs.
pub proof fn lemma_pause_items(s: Session)
    requires
        s.wf(),
        is_location(s.state),
    ensures
        ({
            let confirm = FrameKeys { up: false, down: false, confirm: true, back: false };
            let none = FrameKeys { up: false, down: false, confirm: false, back: false };
            let (t, out) = session_step(s, confirm);
            &&& s.is_paused && s.pause_idx == 0 ==> !t.is_paused && out.run_world
                && !out.restart_player && t.state == s.state
            &&& s.is_paused && s.pause_idx == 1 ==> !t.is_paused && out.run_world
                && out.restart_player && t.state == s.state
            &&& s.is_paused && s.pause_idx == 2 ==> t.state == GameState::Settings
                && t.previous_state == s.state && t.is_paused && !out.run_world
                && t.settings_idx == 0
            &&& s.is_paused && s.pause_idx == 3 ==> t.state == GameState::MainMenu && !t.is_paused
                && t.menu_idx == 0
            &&& !s.is_paused ==> session_step(s, none) == (s, FrameOutcome {
                quit: false,
                set_fullscreen: None,
                restart_player: false,
                run_world: true,
            })
            &&& !out.quit
        }),
{
}

} // verus!

//! Where the game is: the two locations, the menus, and moving between locations.

use vstd::prelude::*;

verus! {

/// The screen the game shows: one of the two locations, or a menu.
#[derive(Debug, Clone, Copy, PartialEq, Eq, Structural)]
pub enum GameState {
    InApartment,
    OnStreet,
    MainMenu,
    Settings,
}

/// The tile maps a location is drawn from.
#[derive(Debug, Clone, Copy, PartialEq, Eq, Structural)]
pub enum MapId {
    House,
    Street,
}

/// The background a screen is cleared with.
#[derive(Debug, Clone, Copy, PartialEq, Eq, Structural)]
pub enum Backdrop {
    /// The dark grey of the apartment.
    DarkGray,
    /// The dim green of the street at night.
    NightGreen,
    /// Black, behind the menus.
    Black,
}

/// The screens where the player walks around.
pub open spec fn is_location(s: GameState) -> bool {
    s == GameState::InApartment || s == GameState::OnStreet
}

impl GameState {
    /// Whether this screen is one of the locations where the player walks around.
    pub fn is_location(self) -> (r: bool)
        ensures
            r == is_location(self),
    {
        self == GameState::InApartment || self == GameState::OnStreet
    }
}

/// The location reached by switching from `s`, and the map it is drawn from.
pub open spec fn switch_target(s: GameState) -> (GameState, MapId) {
    if s == GameState::InApartment {
        (GameState::OnStreet, MapId::Street)
    } else {
        (GameState::InApartment, MapId::House)
    }
}

/// The background of each screen.
pub open spec fn backdrop_of(s: GameState) -> Backdrop {
    match s {
        GameState::InApartment => Backdrop::DarkGray,
        GameState::OnStreet => Backdrop::NightGreen,
        _ => Backdrop::Black,
    }
}

/// The switch key moves the player from the apartment to the street and
/// back; it returns the map to load. Without the key nothing changes.
/// The key is only read while the player is in one of the locations.
pub fn handle_location_switch(state: &mut GameState, switch_pressed: bool) -> (switched_to: Option<
    MapId,
>)
    requires
        switch_pressed ==> is_location(*old(state)),
    ensures
        !switch_pressed ==> *final(state) == *old(state) && switched_to is None,
        switch_pressed ==> *final(state) == switch_target(*old(state)).0 && switched_to == Some(
            switch_target(*old(state)).1,
        ),
        is_location(*old(state)) ==> is_location(*final(state)),
{
    if !switch_pressed {
        return None;
    }
    match *state {
        GameState::InApartment => {
            *state = GameState::OnStreet;
            Some(MapId::Street)
        },
        _ => {
            *state = GameState::InApartment;
            Some(MapId::House)
        },
    }
}

/// The background a screen is cleared with.
pub fn get_bg_color(state: &GameState) -> (b: Backdrop)
    ensures
        b == backdrop_of(*state),
{
    match state {
        GameState::InApartment => Backdrop::DarkGray,
        GameState::OnStreet => Backdrop::NightGreen,
        _ => Backdrop::Black,
    }
}

/// Switching location twice brings the player back where it started, and
/// the two switches load the two maps in turn.
pub proof fn lemma_switch_twice(s: GameState)
    requires
        is_location(s),
    ensures
        switch_target(switch_target(s).0).0 == s,
        switch_target(switch_target(s).0).1 != switch_target(s).1,
        is_location(switch_target(s).0),
        switch_target(s).0 != s,
{
}

/// The switch takes the apartment to the street, loading the street map,
/// and the street to the apartment, loading the house map. The apartment
/// is dark grey, the street dim green, every menu black.
pub proof fn lemma_switch_and_backdrops(s: GameState)
    ensures
        s == GameState::InApartment ==> switch_target(s) == (GameState::OnStreet, MapId::Street),
        s == GameState::OnStreet ==> switch_target(s) == (GameState::InApartment, MapId::House),
        s == GameState::InApartment ==> backdrop_of(s) == Backdrop::DarkGray,
        s == GameState::OnStreet ==> backdrop_of(s) == Backdrop::NightGreen,
        !is_location(s) ==> backdrop_of(s) == Backdrop::Black,
        is_location(s) <==> (s == GameState::InApartment || s == GameState::OnStreet),
{
}

} // verus!

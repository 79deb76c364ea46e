//! Weapons, sprite-sheet animation clips and the discrete state of the player.

use vstd::prelude::*;

use crate::objects::{carried, ground, ground_is_clean, lemma_ground_push, lemma_ground_remove, loot_of, DroppedWeapon};


verus! {

// Rows and frame counts of the character sprite sheets.
/// Sheet row of the bare-handed clip.
pub const PUNCH_ROW: usize = 0;
/// Frames of the bare-handed attack clip.
pub const PUNCH_FRAMES: usize = 7;
/// Sheet row of the pipe clip.
pub const PIPE_ROW: usize = 1;
/// Frames of the pipe attack clip.
pub const PIPE_FRAMES: usize = 7;
/// Sheet row of the knife clip.
pub const KNIGHT_ROW: usize = 2;
/// Frames of the knife attack clip.
pub const KNIGHT_FRAMES: usize = 5;
/// Sheet row of the pistol clip.
pub const PISTOL_ROW: usize = 3;
/// Frames of the pistol attack clip.
pub const PISTOL_FRAMES: usize = 2;
/// Sheet row of the rifle clip.
pub const RIFLE_ROW: usize = 4;
/// Frames of the rifle attack clip.
pub const RIFLE_FRAMES: usize = 2;
/// Sheet row of the walking legs.
pub const LEGS_ROW: usize = 5;
/// Frames of the walking legs.
pub const LEGS_FRAMES: usize = 7;
/// Sheet row of the dead body.
pub const DEAD_ROW: usize = 6;
/// Frames of the dead body.
pub const DEAD_FRAMES: usize = 1;

/// Everything a character can hold; `Dead` marks a body that holds nothing.
#[derive(Debug, Clone, Copy, PartialEq, Eq, Structural)]
pub enum Weapon {
    Fists,
    Pipe,
    Knight,
    Pistol,
    Rifle,
    Dead,
}

/// The attack clip of a weapon: sheet row, number of frames, frames per second.
pub open spec fn attack_clip_of(w: Weapon) -> (usize, usize, u32) {
    match w {
        Weapon::Fists => (PUNCH_ROW, PUNCH_FRAMES, 14),
        Weapon::Pipe => (PIPE_ROW, PIPE_FRAMES, 14),
        Weapon::Knight => (KNIGHT_ROW, KNIGHT_FRAMES, 12),
        Weapon::Pistol => (PISTOL_ROW, PISTOL_FRAMES, 12),
        Weapon::Rifle => (RIFLE_ROW, RIFLE_FRAMES, 14),
        Weapon::Dead => (DEAD_ROW, DEAD_FRAMES, 14),
    }
}

/// The sheet row of a weapon's still pose: the first cell of its attack clip.
pub open spec fn idle_row_of(w: Weapon) -> usize {
    attack_clip_of(w).0
}

/// The still pose shown right after a weapon is picked up from the ground:
/// bare hands (and a body, which is never picked up) fall back to the punch row.
pub open spec fn pickup_row_of(w: Weapon) -> usize {
    match w {
        Weapon::Pipe => PIPE_ROW,
        Weapon::Knight => KNIGHT_ROW,
        Weapon::Pistol => PISTOL_ROW,
        Weapon::Rifle => RIFLE_ROW,
        _ => PUNCH_ROW,
    }
}

/// Firearms shoot bullets and use ammunition.
pub open spec fn is_firearm_spec(w: Weapon) -> bool {
    w == Weapon::Pistol || w == Weapon::Rifle
}

/// Weapons that hurt at arm's length (a body hurts nobody).
pub open spec fn is_melee_spec(w: Weapon) -> bool {
    w != Weapon::Pistol && w != Weapon::Rifle && w != Weapon::Dead
}

impl Weapon {
    /// Row, frame count and frame rate of this weapon's attack clip.
    pub fn attack_clip(self) -> (r: (usize, usize, u32))
        ensures
            r == attack_clip_of(self),
    {
        match self {
            Weapon::Fists => (PUNCH_ROW, PUNCH_FRAMES, 14),
            Weapon::Pipe => (PIPE_ROW, PIPE_FRAMES, 14),
            Weapon::Knight => (KNIGHT_ROW, KNIGHT_FRAMES, 12),
            Weapon::Pistol => (PISTOL_ROW, PISTOL_FRAMES, 12),
            Weapon::Rifle => (RIFLE_ROW, RIFLE_FRAMES, 14),
            Weapon::Dead => (DEAD_ROW, DEAD_FRAMES, 14),
        }
    }

    /// Sheet row of the still pose with this weapon.
    pub fn idle_row(self) -> (r: usize)
        ensures
            r == idle_row_of(self),
    {
        match self {
            Weapon::Fists => PUNCH_ROW,
            Weapon::Pipe => PIPE_ROW,
            Weapon::Knight => KNIGHT_ROW,
            Weapon::Pistol => PISTOL_ROW,
            Weapon::Rifle => RIFLE_ROW,
            Weapon::Dead => DEAD_ROW,
        }
    }

    /// Sheet row shown right after picking this weapon up.
    pub fn pickup_row(self) -> (r: usize)
        ensures
            r == pickup_row_of(self),
    {
        match self {
            Weapon::Pipe => PIPE_ROW,
            Weapon::Knight => KNIGHT_ROW,
            Weapon::Pistol => PISTOL_ROW,
            Weapon::Rifle => RIFLE_ROW,
            _ => PUNCH_ROW,
        }
    }

    /// Whether the weapon shoots bullets.
    pub fn is_firearm(self) -> (r: bool)
        ensures
            r == is_firearm_spec(self),
    {
        self == Weapon::Pistol || self == Weapon::Rifle
    }

    /// Whether the weapon hurts at arm's length.
    pub fn is_melee(self) -> (r: bool)
        ensures
            r == is_melee_spec(self),
    {
        self != Weapon::Pistol && self != Weapon::Rifle && self != Weapon::Dead
    }
}

/// The frame counter of a sprite-sheet animation.
///
/// The clock that decides when a frame is over runs with the caller, in
/// seconds; a new frame is due every `1 / fps` seconds. `restart_timer` is
/// raised whenever the clip is (re)started, and tells the caller to start
/// its clock from zero before it next measures time for this animation.
#[derive(Debug, Clone, Copy, PartialEq, Eq, Structural)]
pub struct AnimationState {
    pub current_frame: usize,
    pub num_frames: usize,
    pub row_index: usize,
    pub fps: u32,
    pub restart_timer: bool,
}

/// The frame that follows `cur` in a clip of `n` frames, and whether the clip
/// wrapped around to its first frame.
pub open spec fn next_frame_of(cur: int, n: int) -> (int, bool) {
    if cur + 1 >= n {
        (0, true)
    } else {
        (cur + 1, false)
    }
}

/// The frame reached from `cur` after `k` frame steps in a clip of `n` frames.
pub open spec fn frame_after(cur: int, n: int, k: nat) -> int
    decreases k,
{
    if k == 0 {
        cur
    } else {
        next_frame_of(frame_after(cur, n, (k - 1) as nat), n).0
    }
}

impl AnimationState {
    /// The frame counter is inside the clip.
    pub open spec fn wf(&self) -> bool {
        self.current_frame == 0 || self.current_frame < self.num_frames
    }

    /// A clip of `num_frames` frames on sheet row `row_index`, at its first frame.
    pub fn new(num_frames: usize, fps: u32, row_index: usize) -> (a: Self)
        ensures
            a == started_clip(row_index, num_frames, fps),
            a.wf(),
    {
        AnimationState { current_frame: 0, num_frames, row_index, fps, restart_timer: true }
    }

    /// Whether the clip has more than one frame, so that time moves it at all.
    pub fn animates(&self) -> (r: bool)
        ensures
            r == (self.num_frames > 1),
    {
        self.num_frames > 1
    }

    /// Moves to the next frame once a frame's time is over; returns `true`
    /// when the clip has just played its last frame and starts over.
    /// A clip of one frame (or none) never moves.
    pub fn advance_frame(&mut self) -> (wrapped: bool)
        requires
            old(self).current_frame < usize::MAX,
        ensures
            old(self).num_frames <= 1 ==> !wrapped && *final(self) == *old(self),
            old(self).num_frames > 1 ==> {
                let (next, wraps) = next_frame_of(
                    old(self).current_frame as int,
                    old(self).num_frames as int,
                );
                &&& *final(self) == (AnimationState { current_frame: next as usize, ..*old(self) })
                &&& wrapped == wraps
            },
            old(self).wf() ==> final(self).wf(),
    {
        if self.num_frames <= 1 {
            return false;
        }
        let next_frame = self.current_frame + 1;
        if next_frame >= self.num_frames {
            self.current_frame = 0;
            true
        } else {
            self.current_frame = next_frame;
            false
        }
    }

    /// Switches to another clip and starts it from its first frame.
    pub fn set_state(&mut self, row: usize, num_frames: usize, fps: u32)
        ensures
            *final(self) == started_clip(row, num_frames, fps),
            final(self).wf(),
    {
        self.row_index = row;
        self.num_frames = num_frames;
        self.fps = fps;
        self.current_frame = 0;
        self.restart_timer = true;
    }

    /// Starts the current clip over from its first frame.
    pub fn reset(&mut self)
        ensures
            *final(self) == restarted_clip(*old(self)),
            final(self).wf(),
    {
        self.current_frame = 0;
        self.restart_timer = true;
    }

    /// Reports whether the caller's clock must start from zero, and lowers the flag.
    pub fn take_timer_restart(&mut self) -> (restart: bool)
        ensures
            restart == old(self).restart_timer,
            *final(self) == (AnimationState { restart_timer: false, ..*old(self) }),
    {
        let restart = self.restart_timer;
        self.restart_timer = false;
        restart
    }
}

/// A clip of `n > 1` frames started at its first frame is back at its first
/// frame after every `n` frame steps, and in between it walks through the
/// frames in order: after `k` steps it shows frame `k mod n`.
pub proof fn lemma_clip_cycles(n: int, k: nat)
    requires
        n > 1,
    ensures
        frame_after(0, n, k) == (k as int) % n,
    decreases k,
{
    if k == 0 {
        assert(0int % n == 0) by (nonlinear_arith)
            requires
                n > 1,
        ;
    } else {
        lemma_clip_cycles(n, (k - 1) as nat);
        let prev = (k - 1) as int;
        let ki = k as int;
        assert(0 <= prev % n < n) by (nonlinear_arith)
            requires
                n > 1,
        ;
        if prev % n + 1 >= n {
            assert(ki % n == 0) by (nonlinear_arith)
                requires
                    n > 1,
                    prev % n == n - 1,
                    ki == prev + 1,
            ;
        } else {
            assert(ki % n == prev % n + 1) by (nonlinear_arith)
                requires
                    n > 1,
                    0 <= prev % n < n - 1,
                    ki == prev + 1,
            ;
        }
        assert(frame_after(0, n, k) == next_frame_of(frame_after(0, n, (k - 1) as nat), n).0);
    }
}

/// A clip (`row`, `frames`, `fps`) just started: first frame, fresh clock.
pub open spec fn started_clip(row: usize, frames: usize, fps: u32) -> AnimationState {
    AnimationState {
        current_frame: 0,
        num_frames: frames,
        row_index: row,
        fps,
        restart_timer: true,
    }
}

/// The clip `a` started over: first frame, fresh clock.
pub open spec fn restarted_clip(a: AnimationState) -> AnimationState {
    AnimationState { current_frame: 0, restart_timer: true, ..a }
}

/// The weapon, the rounds and the ground after the pick-up key: the first
/// weapon under the player (`picked`) is taken and whatever the player held
/// is put down in its place; with nothing under the player, a held weapon is
/// put down and the player is left bare-handed.
pub open spec fn pickup_outcome<P, R>(
    w: Weapon,
    ammo: u32,
    dropped: Seq<DroppedWeapon<P, R>>,
    picked: Option<usize>,
    pos: P,
    rotation: R,
) -> (Weapon, u32, Seq<DroppedWeapon<P, R>>) {
    let put_down = DroppedWeapon { pos, weapon: w, ammo, rotation };
    match picked {
        Some(i) => {
            let taken = dropped[i as int];
            let rest = dropped.remove(i as int);
            (taken.weapon, taken.ammo, if w != Weapon::Fists {
                rest.push(put_down)
            } else {
                rest
            })
        },
        None => if w != Weapon::Fists {
            (Weapon::Fists, 0, dropped.push(put_down))
        } else {
            (w, ammo, dropped)
        },
    }
}

/// Whether completing an attack cycle with `ammo` rounds fires a shot.
pub open spec fn fires_spec(w: Weapon, ammo: u32) -> bool {
    is_firearm_spec(w) && ammo > 0
}

/// The rounds left after one completed attack cycle: a shot costs one round.
pub open spec fn ammo_after_cycle(w: Weapon, ammo: u32) -> u32 {
    if fires_spec(w, ammo) {
        (ammo - 1) as u32
    } else {
        ammo
    }
}

/// The last of the five weapon keys pressed in a frame wins: its weapon and
/// the rounds it comes with.
pub open spec fn weapon_key_choice(keys: [bool; 5]) -> Option<(Weapon, u32)> {
    if keys[4] {
        Some((Weapon::Rifle, 30))
    } else if keys[3] {
        Some((Weapon::Pistol, 12))
    } else if keys[2] {
        Some((Weapon::Knight, 0))
    } else if keys[1] {
        Some((Weapon::Pipe, 0))
    } else if keys[0] {
        Some((Weapon::Fists, 0))
    } else {
        None
    }
}

/// What the player does with one frame's input (see `PlayerStatus::handle_input`).
#[derive(Debug, Clone, Copy)]
pub struct PlayerInput {
    /// The pick-up button was pressed.
    pub pickup: bool,
    /// The first weapon on the ground under the player, if any (an index
    /// into the list of dropped weapons).
    pub picked: Option<usize>,
    /// Weapon keys 1 to 5 pressed in this frame.
    pub weapon_keys: [bool; 5],
    /// A direction key is held.
    pub moving: bool,
    /// The attack button was pressed in this frame.
    pub trigger_pressed: bool,
    /// The attack button is held down.
    pub trigger_held: bool,
}

/// The discrete state of the player: what it holds and what it is doing.
/// Position, aim, speed, bullets in flight and the fire cooldown live with the caller.
#[derive(Debug, Clone, Copy, PartialEq, Eq, Structural)]
pub struct PlayerStatus {
    pub current_weapon: Weapon,
    pub ammo: u32,
    pub is_moving: bool,
    pub is_attacking: bool,
    pub is_dead: bool,
    pub torso_anim: AnimationState,
    pub legs_anim: AnimationState,
}

impl PlayerStatus {
    /// Only a dead player shows the body pose, and both clips are inside their frames.
    pub open spec fn wf(&self) -> bool {
        &&& self.current_weapon == Weapon::Dead ==> self.is_dead
        &&& self.torso_anim.wf()
        &&& self.legs_anim.wf()
    }

    /// Whether an attack may start: melee always, a firearm only with rounds left.
    pub open spec fn can_shoot_spec(&self) -> bool {
        !is_firearm_spec(self.current_weapon) || self.ammo > 0
    }

    /// The player after the pick-up key (see `pickup_outcome`); the new
    /// weapon is shown in its still pose.
    pub open spec fn after_pickup<P, R>(
        self,
        dropped: Seq<DroppedWeapon<P, R>>,
        picked: Option<usize>,
    ) -> Self {
        match picked {
            Some(i) => PlayerStatus {
                current_weapon: dropped[i as int].weapon,
                ammo: dropped[i as int].ammo,
                torso_anim: started_clip(pickup_row_of(dropped[i as int].weapon), 1, 1),
                ..self
            },
            None => if self.current_weapon != Weapon::Fists {
                PlayerStatus {
                    current_weapon: Weapon::Fists,
                    ammo: 0,
                    torso_anim: started_clip(PUNCH_ROW, 1, 1),
                    ..self
                }
            } else {
                self
            },
        }
    }

    /// The player after the weapon keys: outside an attack the last key
    /// pressed selects its weapon with its stock of rounds, and a new weapon
    /// is shown in its still pose.
    pub open spec fn after_weapon_keys(self, keys: [bool; 5]) -> Self {
        match weapon_key_choice(keys) {
            Some(c) => if self.is_attacking {
                self
            } else {
                PlayerStatus {
                    current_weapon: c.0,
                    ammo: c.1,
                    torso_anim: if c.0 != self.current_weapon {
                        started_clip(idle_row_of(c.0), 1, 1)
                    } else {
                        self.torso_anim
                    },
                    ..self
                }
            },
            None => self,
        }
    }

    /// The player walking or not; standing still puts the legs back at rest.
    pub open spec fn after_moving(self, moving: bool) -> Self {
        PlayerStatus {
            is_moving: moving,
            legs_anim: if moving {
                self.legs_anim
            } else {
                restarted_clip(self.legs_anim)
            },
            ..self
        }
    }

    /// The player after the attack trigger: an attack starts when it is
    /// triggered, none is under way and the weapon can be used, and the
    /// weapon's attack clip starts.
    pub open spec fn after_trigger(self, triggered: bool) -> Self {
        if triggered && !self.is_attacking && self.can_shoot_spec() {
            let clip = attack_clip_of(self.current_weapon);
            PlayerStatus {
                is_attacking: true,
                torso_anim: started_clip(clip.0, clip.1, clip.2),
                ..self
            }
        } else {
            self
        }
    }

    /// The player after its attack clip ended: a shot costs a round; with the
    /// trigger held and a round fired the clip starts over, otherwise the
    /// attack ends and the still pose returns.
    pub open spec fn after_attack_clip(self, trigger_held: bool) -> Self {
        let armed = fires_spec(self.current_weapon, self.ammo);
        PlayerStatus {
            ammo: ammo_after_cycle(self.current_weapon, self.ammo),
            is_attacking: armed && trigger_held,
            torso_anim: if armed && trigger_held {
                restarted_clip(self.torso_anim)
            } else {
                started_clip(idle_row_of(self.current_weapon), 1, 1)
            },
            ..self
        }
    }

    /// A living, bare-handed player standing still.
    pub fn new() -> (p: Self)
        ensures
            p == (PlayerStatus {
                current_weapon: Weapon::Fists,
                ammo: 0,
                is_moving: false,
                is_attacking: false,
                is_dead: false,
                torso_anim: started_clip(PUNCH_ROW, 1, 1),
                legs_anim: started_clip(LEGS_ROW, LEGS_FRAMES, 14),
            }),
            p.wf(),
    {
        PlayerStatus {
            current_weapon: Weapon::Fists,
            ammo: 0,
            is_moving: false,
            is_attacking: false,
            is_dead: false,
            torso_anim: AnimationState::new(1, 1, PUNCH_ROW),
            legs_anim: AnimationState::new(LEGS_FRAMES, 14, LEGS_ROW),
        }
    }

    /// The discrete part of one frame of input (see `frame_after_input`).
    /// The caller then moves the player, plays the legs while it walks, and
    /// plays the torso clip while an attack is under way (`complete_attack`).
    pub fn handle_input<P, R>(
        &mut self,
        input: PlayerInput,
        dropped: &mut Vec<DroppedWeapon<P, R>>,
        pos: P,
        rotation: R,
    )
        requires
            input.pickup ==> (input.picked matches Some(i) ==> i < old(dropped).len()),
        ensures
            ({
                let (p, g) = frame_after_input(*old(self), input, old(dropped)@, pos, rotation);
                *final(self) == p && final(dropped)@ == g
            }),
            old(self).wf() && ground_is_clean(old(dropped)@) ==> final(self).wf(),
            old(self).wf() && ground_is_clean(old(dropped)@) ==> ground_is_clean(final(dropped)@),
    {
        if self.is_dead {
            return;
        }
        if input.pickup {
            self.pick_up_or_drop(dropped, input.picked, pos, rotation);
        }
        self.switch_weapon(input.weapon_keys);
        self.set_moving(input.moving);
        let triggered = if self.fires_while_held() {
            input.trigger_held
        } else {
            input.trigger_pressed
        };
        self.start_attack(triggered);
    }

    /// The pick-up key: swap the held weapon for the first one under the
    /// player (`picked`, an index into `dropped`), or put the held weapon
    /// down when nothing lies there (see `pickup_outcome`, `after_pickup`).
    pub fn pick_up_or_drop<P, R>(
        &mut self,
        dropped: &mut Vec<DroppedWeapon<P, R>>,
        picked: Option<usize>,
        pos: P,
        rotation: R,
    )
        requires
            picked matches Some(i) ==> i < old(dropped).len(),
        ensures
            *final(self) == old(self).after_pickup(old(dropped)@, picked),
            picked matches Some(i) ==> final(self).current_weapon == old(dropped)@[i as int].weapon
                && final(self).ammo == old(dropped)@[i as int].ammo,
            final(dropped)@ == pickup_outcome(
                old(self).current_weapon,
                old(self).ammo,
                old(dropped)@,
                picked,
                pos,
                rotation,
            ).2,
            old(self).wf() && ground_is_clean(old(dropped)@) ==> final(self).wf(),
            old(self).wf() && !old(self).is_dead && ground_is_clean(old(dropped)@)
                ==> ground_is_clean(final(dropped)@),
    {
        proof {
            if old(self).wf() && !old(self).is_dead && ground_is_clean(old(dropped)@) {
                lemma_pickup_conserves_weapons(
                    old(self).current_weapon,
                    old(self).ammo,
                    old(dropped)@,
                    picked,
                    pos,
                    rotation,
                );
            }
        }
        match picked {
            Some(idx) => {
                let taken = dropped.remove(idx);
                if self.current_weapon != Weapon::Fists {
                    dropped.push(DroppedWeapon::new(pos, self.current_weapon, self.ammo, rotation));
                }
                self.current_weapon = taken.weapon;
                self.ammo = taken.ammo;
                let row = self.current_weapon.pickup_row();
                self.torso_anim.set_state(row, 1, 1);
            },
            None => {
                if self.current_weapon != Weapon::Fists {
                    dropped.push(DroppedWeapon::new(pos, self.current_weapon, self.ammo, rotation));
                    self.current_weapon = Weapon::Fists;
                    self.ammo = 0;
                    self.torso_anim.set_state(PUNCH_ROW, 1, 1);
                }
            },
        }
    }

    /// The weapon keys 1 to 5 (`keys[0]` to `keys[4]`), read only while no
    /// attack is under way (see `after_weapon_keys`).
    pub fn switch_weapon(&mut self, keys: [bool; 5])
        ensures
            *final(self) == old(self).after_weapon_keys(keys),
            old(self).wf() ==> final(self).wf(),
    {
        if self.is_attacking {
            return;
        }
        let old_weapon = self.current_weapon;
        if keys[0] {
            self.current_weapon = Weapon::Fists;
            self.ammo = 0;
        }
        if keys[1] {
            self.current_weapon = Weapon::Pipe;
            self.ammo = 0;
        }
        if keys[2] {
            self.current_weapon = Weapon::Knight;
            self.ammo = 0;
        }
        if keys[3] {
            self.current_weapon = Weapon::Pistol;
            self.ammo = 12;
        }
        if keys[4] {
            self.current_weapon = Weapon::Rifle;
            self.ammo = 30;
        }
        if self.current_weapon != old_weapon {
            let row = self.current_weapon.idle_row();
            self.torso_anim.set_state(row, 1, 1);
        }
    }

    /// Records whether the player walks this frame (see `after_moving`).
    pub fn set_moving(&mut self, moving: bool)
        ensures
            *final(self) == old(self).after_moving(moving),
            old(self).wf() ==> final(self).wf(),
    {
        self.is_moving = moving;
        if !moving {
            self.legs_anim.reset();
        }
    }

    /// Whether an attack may start: melee always, a firearm only with rounds left.
    pub fn can_shoot(&self) -> (r: bool)
        ensures
            r == self.can_shoot_spec(),
    {
        !self.current_weapon.is_firearm() || self.ammo > 0
    }

    /// Whether the attack is triggered by holding the button (the rifle) rather than by a press.
    pub fn fires_while_held(&self) -> (r: bool)
        ensures
            r == (self.current_weapon == Weapon::Rifle),
    {
        self.current_weapon == Weapon::Rifle
    }

    /// Starts an attack when it is triggered (see `after_trigger`).
    pub fn start_attack(&mut self, triggered: bool)
        ensures
            *final(self) == old(self).after_trigger(triggered),
            old(self).wf() ==> final(self).wf(),
    {
        if triggered && !self.is_attacking && self.can_shoot() {
            self.is_attacking = true;
            let (row, frames, fps) = self.current_weapon.attack_clip();
            self.torso_anim.set_state(row, frames, fps);
        }
    }

    /// The end of an attack clip (`clip_finished`) during an attack (see
    /// `after_attack_clip`): returns `true` when a round is fired, so that
    /// the caller launches the bullet. Otherwise nothing changes.
    pub fn complete_attack(&mut self, clip_finished: bool, trigger_held: bool) -> (fired: bool)
        ensures
            old(self).is_attacking && clip_finished ==> *final(self) == old(self).after_attack_clip(
                trigger_held,
            ) && fired == fires_spec(old(self).current_weapon, old(self).ammo),
            !(old(self).is_attacking && clip_finished) ==> *final(self) == *old(self) && !fired,
            fired <==> final(self).ammo as int == old(self).ammo - 1,
            fired <==> (old(self).is_attacking && clip_finished && (old(self).current_weapon
                == Weapon::Pistol || old(self).current_weapon == Weapon::Rifle) && old(self).ammo > 0),
            old(self).wf() ==> final(self).wf(),
    {
        if !(self.is_attacking && clip_finished) {
            return false;
        }
        let armed = self.current_weapon.is_firearm() && self.ammo > 0;
        let keep_shooting = armed && trigger_held;
        if armed {
            self.ammo = self.ammo - 1;
        }
        if keep_shooting {
            self.torso_anim.reset();
        } else {
            self.is_attacking = false;
            let row = self.current_weapon.idle_row();
            self.torso_anim.set_state(row, 1, 1);
        }
        armed
    }

    /// A bullet reaching the player: a living player dies and the bullet is
    /// spent (`true`); a dead player lets it fly on (`false`).
    pub fn take_bullet(&mut self) -> (spent: bool)
        ensures
            spent == !old(self).is_dead,
            *final(self) == (PlayerStatus { is_dead: true, ..*old(self) }),
            old(self).wf() ==> final(self).wf(),
    {
        if self.is_dead {
            return false;
        }
        self.is_dead = true;
        true
    }

    /// Whether the respawn key brings the player back: only a dead player respawns.
    pub fn wants_respawn(&self, respawn_pressed: bool) -> (r: bool)
        ensures
            r == (self.is_dead && respawn_pressed),
    {
        self.is_dead && respawn_pressed
    }

    /// Brings the player back to life, bare-handed, with the punch clip ready.
    /// Rounds, the attack flag and the legs are left as they were.
    pub fn restart(&mut self)
        ensures
            *final(self) == (PlayerStatus {
                is_dead: false,
                current_weapon: Weapon::Fists,
                torso_anim: started_clip(PUNCH_ROW, PUNCH_FRAMES, 14),
                ..*old(self)
            }),
            old(self).wf() ==> final(self).wf(),
    {
        self.is_dead = false;
        self.current_weapon = Weapon::Fists;
        let (row, frames, fps) = self.current_weapon.attack_clip();
        self.torso_anim.set_state(row, frames, fps);
    }

    /// A dead player is shown as a body: the weapon becomes `Dead` and the
    /// body clip starts. A living player is left alone.
    pub fn settle_pose(&mut self)
        ensures
            *final(self) == if old(self).is_dead {
                PlayerStatus {
                    current_weapon: Weapon::Dead,
                    torso_anim: started_clip(DEAD_ROW, DEAD_FRAMES, 14),
                    ..*old(self)
                }
            } else {
                *old(self)
            },
            old(self).wf() ==> final(self).wf(),
    {
        if self.is_dead {
            self.current_weapon = Weapon::Dead;
            let (row, frames, fps) = self.current_weapon.attack_clip();
            self.torso_anim.set_state(row, frames, fps);
        }
    }
}

/// The discrete part of one frame of input: a dead player ignores it, and
/// so does the ground; a living one handles the pick-up key (when pressed),
/// the weapon keys, walking, and the attack trigger — held for the rifle,
/// pressed for every other weapon.
pub open spec fn frame_after_input<P, R>(
    p: PlayerStatus,
    input: PlayerInput,
    dropped: Seq<DroppedWeapon<P, R>>,
    pos: P,
    rotation: R,
) -> (PlayerStatus, Seq<DroppedWeapon<P, R>>) {
    if p.is_dead {
        (p, dropped)
    } else {
        let p1 = if input.pickup {
            p.after_pickup(dropped, input.picked)
        } else {
            p
        };
        let g = if input.pickup {
            pickup_outcome(p.current_weapon, p.ammo, dropped, input.picked, pos, rotation).2
        } else {
            dropped
        };
        let p2 = p1.after_weapon_keys(input.weapon_keys).after_moving(input.moving);
        let triggered = if p2.current_weapon == Weapon::Rifle {
            input.trigger_held
        } else {
            input.trigger_pressed
        };
        (p2.after_trigger(triggered), g)
    }
}

/// Picking up and putting down moves weapons between the hands and the
/// ground without creating or losing any: the weapons with their rounds,
/// held or lying, are the same before and after, and the ground still holds
/// only real weapons. (A living player never holds the body pose.)
pub proof fn lemma_pickup_conserves_weapons<P, R>(
    w: Weapon,
    ammo: u32,
    dropped: Seq<DroppedWeapon<P, R>>,
    picked: Option<usize>,
    pos: P,
    rotation: R,
)
    requires
        w != Weapon::Dead,
        ground_is_clean(dropped),
        picked matches Some(i) ==> i < dropped.len(),
    ensures
        ({
            let out = pickup_outcome(w, ammo, dropped, picked, pos, rotation);
            &&& ground(out.2).add(carried(out.0, out.1)) =~= ground(dropped).add(carried(w, ammo))
            &&& ground_is_clean(out.2)
        }),
{
    let put_down = DroppedWeapon { pos, weapon: w, ammo, rotation };
    match picked {
        Some(i) => {
            let taken = dropped[i as int];
            let rest = dropped.remove(i as int);
            lemma_ground_remove(dropped, i as int);
            lemma_ground_push(rest, put_down);
            assert(taken.weapon != Weapon::Fists);
            assert(ground(dropped).contains(loot_of(taken))) by {
                broadcast use vstd::seq_lib::group_to_multiset_ensures;

                let f = |x: DroppedWeapon<P, R>| loot_of(x);
                assert(dropped.map_values(f)[i as int] == loot_of(taken));
                assert(dropped.map_values(f).contains(loot_of(taken)));
            }
            assert(ground_is_clean(rest)) by {
                assert forall|j: int| 0 <= j < rest.len() implies #[trigger] rest[j].weapon
                    != Weapon::Fists && rest[j].weapon != Weapon::Dead by {
                    if j < i {
                        assert(rest[j] == dropped[j]);
                    } else {
                        assert(rest[j] == dropped[j + 1]);
                    }
                }
            }
            if w != Weapon::Fists {
                assert(ground_is_clean(rest.push(put_down))) by {
                    assert forall|j: int| 0 <= j < rest.len() + 1 implies #[trigger] rest.push(
                        put_down,
                    )[j].weapon != Weapon::Fists && rest.push(put_down)[j].weapon
                        != Weapon::Dead by {
                        if j < rest.len() {
                            assert(rest.push(put_down)[j] == rest[j]);
                        }
                    }
                }
            }
        },
        None => {
            if w != Weapon::Fists {
                lemma_ground_push(dropped, put_down);
                assert(ground_is_clean(dropped.push(put_down))) by {
                    assert forall|j: int| 0 <= j < dropped.len() + 1 implies #[trigger] dropped.push(
                        put_down,
                    )[j].weapon != Weapon::Fists && dropped.push(put_down)[j].weapon
                        != Weapon::Dead by {
                        if j < dropped.len() {
                            assert(dropped.push(put_down)[j] == dropped[j]);
                        }
                    }
                }
            }
        },
    }
}

/// The rounds left after `k` completed attack cycles that started with
/// `ammo` rounds.
pub open spec fn ammo_after_cycles(w: Weapon, ammo: u32, k: nat) -> u32
    decreases k,
{
    if k == 0 {
        ammo
    } else {
        ammo_after_cycle(w, ammo_after_cycles(w, ammo, (k - 1) as nat))
    }
}

/// Firing costs one round per completed attack cycle and nothing else ever
/// takes a round: a firearm loaded with `n` rounds holds `n - k` after `k`
/// cycles and none once `n` cycles are over; melee weapons never lose any.
pub proof fn lemma_rounds_run_out(w: Weapon, ammo: u32, k: nat)
    ensures
        is_firearm_spec(w) ==> ammo_after_cycles(w, ammo, k) as int == if k <= ammo {
            ammo - k
        } else {
            0
        },
        !is_firearm_spec(w) ==> ammo_after_cycles(w, ammo, k) == ammo,
    decreases k,
{
    if k > 0 {
        lemma_rounds_run_out(w, ammo, (k - 1) as nat);
    }
}

/// The pick-up key with a weapon under the player takes exactly that
/// weapon, with its rounds: the player ends up holding `dropped[i]`, and the
/// ground keeps every other weapon in its order — those before `i` where
/// they were, those after `i` one place earlier — followed by the weapon the
/// player put down (nothing, when it was bare-handed).
pub proof fn lemma_pickup_takes_the_weapon_under_the_player<P, R>(
    p: PlayerStatus,
    dropped: Seq<DroppedWeapon<P, R>>,
    i: usize,
    pos: P,
    rotation: R,
)
    requires
        i < dropped.len(),
    ensures
        ({
            let out = pickup_outcome(p.current_weapon, p.ammo, dropped, Some(i), pos, rotation);
            let q = p.after_pickup(dropped, Some(i));
            &&& out.0 == dropped[i as int].weapon
            &&& out.1 == dropped[i as int].ammo
            &&& q.current_weapon == dropped[i as int].weapon
            &&& q.ammo == dropped[i as int].ammo
            &&& q.torso_anim.num_frames == 1 && q.torso_anim.current_frame == 0
            &&& q.is_dead == p.is_dead && q.is_attacking == p.is_attacking
            &&& q.is_moving == p.is_moving && q.legs_anim == p.legs_anim
            &&& forall|j: int| 0 <= j < i ==> #[trigger] out.2[j] == dropped[j]
            &&& forall|j: int| i <= j < dropped.len() - 1 ==> #[trigger] out.2[j] == dropped[j + 1]
            &&& p.current_weapon != Weapon::Fists ==> out.2.len() == dropped.len() && out.2[dropped.len()
                - 1] == (DroppedWeapon { pos, weapon: p.current_weapon, ammo: p.ammo, rotation })
            &&& p.current_weapon == Weapon::Fists ==> out.2.len() == dropped.len() - 1
        }),
{
}

/// The pick-up key with nothing under the player puts a held weapon down
/// where the player stands, with its rounds, after the weapons already
/// lying there, and leaves the player bare-handed; a bare-handed player
/// changes nothing.
pub proof fn lemma_drop_puts_the_held_weapon_down<P, R>(
    p: PlayerStatus,
    dropped: Seq<DroppedWeapon<P, R>>,
    pos: P,
    rotation: R,
)
    ensures
        ({
            let out = pickup_outcome(p.current_weapon, p.ammo, dropped, None, pos, rotation);
            let q = p.after_pickup(dropped, None);
            &&& p.current_weapon != Weapon::Fists ==> {
                &&& out.0 == Weapon::Fists && out.1 == 0
                &&& q.current_weapon == Weapon::Fists && q.ammo == 0
                &&& out.2.len() == dropped.len() + 1
                &&& forall|j: int| 0 <= j < dropped.len() ==> #[trigger] out.2[j] == dropped[j]
                &&& out.2[dropped.len() as int] == (DroppedWeapon {
                    pos,
                    weapon: p.current_weapon,
                    ammo: p.ammo,
                    rotation,
                })
            }
            &&& p.current_weapon == Weapon::Fists ==> out == (p.current_weapon, p.ammo, dropped)
                && q == p
        }),
{
}

/// Each weapon key selects its own weapon, outside an attack: key 1 bare
/// hands, key 2 the pipe, key 3 the knife, key 4 the pistol with 12 rounds,
/// key 5 the rifle with 30; of several keys pressed together the highest
/// wins. A new weapon shows its still pose — the first cell of its attack
/// row — and keeping the same weapon keeps the pose. Without a key, or
/// during an attack, nothing changes.
pub proof fn lemma_weapon_keys_select(p: PlayerStatus, keys: [bool; 5])
    ensures
        ({
            let q = p.after_weapon_keys(keys);
            &&& p.is_attacking ==> q == p
            &&& !keys[0] && !keys[1] && !keys[2] && !keys[3] && !keys[4] ==> q == p
            &&& !p.is_attacking ==> {
                &&& keys[4] ==> q.current_weapon == Weapon::Rifle && q.ammo == 30
                &&& keys[3] && !keys[4] ==> q.current_weapon == Weapon::Pistol && q.ammo == 12
                &&& keys[2] && !keys[3] && !keys[4] ==> q.current_weapon == Weapon::Knight && q.ammo
                    == 0
                &&& keys[1] && !keys[2] && !keys[3] && !keys[4] ==> q.current_weapon == Weapon::Pipe
                    && q.ammo == 0
                &&& keys[0] && !keys[1] && !keys[2] && !keys[3] && !keys[4] ==> q.current_weapon
                    == Weapon::Fists && q.ammo == 0
                &&& q.current_weapon != p.current_weapon ==> q.torso_anim.row_index
                    == attack_clip_of(q.current_weapon).0 && q.torso_anim.num_frames == 1
                    && q.torso_anim.current_frame == 0
                &&& q.current_weapon == p.current_weapon ==> q.torso_anim == p.torso_anim
                &&& q.is_dead == p.is_dead && q.is_moving == p.is_moving && q.is_attacking
                    == p.is_attacking && q.legs_anim == p.legs_anim
            }
        }),
{
}

/// The six weapons have six different rows on the sheet, none of them the
/// legs' row, and every clip has at least one frame.
pub proof fn lemma_clip_rows_distinct(a: Weapon, b: Weapon)
    ensures
        a != b ==> attack_clip_of(a).0 != attack_clip_of(b).0,
        attack_clip_of(a).0 != LEGS_ROW,
        attack_clip_of(a).1 >= 1,
        a != Weapon::Dead ==> pickup_row_of(a) == attack_clip_of(a).0 || a == Weapon::Fists,
        pickup_row_of(Weapon::Fists) == attack_clip_of(Weapon::Fists).0,
{
}

/// A completed attack cycle fires a shot exactly when it spends a round,
/// and that happens exactly with a firearm (pistol or rifle) that still has
/// rounds; any other cycle leaves the rounds alone.
pub proof fn lemma_shot_iff_round_spent(w: Weapon, ammo: u32)
    ensures
        fires_spec(w, ammo) <==> ((w == Weapon::Pistol || w == Weapon::Rifle) && ammo > 0),
        fires_spec(w, ammo) <==> ammo_after_cycle(w, ammo) as int == ammo - 1,
        !fires_spec(w, ammo) <==> ammo_after_cycle(w, ammo) == ammo,
        is_firearm_spec(w) <==> (w == Weapon::Pistol || w == Weapon::Rifle),
        is_melee_spec(w) <==> (w == Weapon::Fists || w == Weapon::Pipe || w == Weapon::Knight),
{
}

/// The end of an attack clip: the rounds drop by one exactly when a shot is
/// fired; the attack goes on only while a shot was fired and the trigger is
/// held, and then the clip starts over; otherwise the attack ends in the
/// still pose of the same weapon.
pub proof fn lemma_attack_clip_end(p: PlayerStatus, trigger_held: bool)
    ensures
        ({
            let q = p.after_attack_clip(trigger_held);
            let fired = (p.current_weapon == Weapon::Pistol || p.current_weapon == Weapon::Rifle)
                && p.ammo > 0;
            &&& fired ==> q.ammo as int == p.ammo - 1
            &&& !fired ==> q.ammo == p.ammo
            &&& q.is_attacking == (fired && trigger_held)
            &&& q.current_weapon == p.current_weapon
            &&& q.is_attacking ==> q.torso_anim.row_index == p.torso_anim.row_index
                && q.torso_anim.num_frames == p.torso_anim.num_frames
                && q.torso_anim.current_frame == 0
            &&& !q.is_attacking ==> q.torso_anim.row_index == attack_clip_of(p.current_weapon).0
                && q.torso_anim.num_frames == 1 && q.torso_anim.current_frame == 0
            &&& q.is_dead == p.is_dead && q.is_moving == p.is_moving && q.legs_anim == p.legs_anim
        }),
{
}

/// The attack trigger starts an attack exactly when no attack is under way
/// and the weapon is melee or a firearm with rounds left; the attack plays
/// the weapon's attack clip from its first frame.
pub proof fn lemma_trigger_starts_attack(p: PlayerStatus, triggered: bool)
    ensures
        ({
            let q = p.after_trigger(triggered);
            let starts = triggered && !p.is_attacking && (!(p.current_weapon == Weapon::Pistol
                || p.current_weapon == Weapon::Rifle) || p.ammo > 0);
            &&& starts ==> q.is_attacking && q.torso_anim.row_index == attack_clip_of(
                p.current_weapon,
            ).0 && q.torso_anim.num_frames == attack_clip_of(p.current_weapon).1
                && q.torso_anim.current_frame == 0
            &&& !starts ==> q == p
            &&& q.current_weapon == p.current_weapon && q.ammo == p.ammo
        }),
{
}

/// One frame of input: a dead player and the ground ignore it entirely.
/// For a living player outside an attack, with no pick-up and no weapon
/// key, the rifle attacks while the button is held and every other weapon
/// when it is pressed (a firearm only with rounds left), and the player
/// walks exactly when a direction key is held.
pub proof fn lemma_input_frame<P, R>(
    p: PlayerStatus,
    input: PlayerInput,
    dropped: Seq<DroppedWeapon<P, R>>,
    pos: P,
    rotation: R,
)
    ensures
        p.is_dead ==> frame_after_input(p, input, dropped, pos, rotation) == (p, dropped),
        !p.is_dead ==> frame_after_input(p, input, dropped, pos, rotation).0.is_moving
            == input.moving,
        !p.is_dead && !p.is_attacking && !input.pickup && !input.weapon_keys[0]
            && !input.weapon_keys[1] && !input.weapon_keys[2] && !input.weapon_keys[3]
            && !input.weapon_keys[4] ==> {
            let q = frame_after_input(p, input, dropped, pos, rotation).0;
            let usable = !(p.current_weapon == Weapon::Pistol || p.current_weapon
                == Weapon::Rifle) || p.ammo > 0;
            &&& p.current_weapon == Weapon::Rifle ==> q.is_attacking == (input.trigger_held
                && p.ammo > 0)
            &&& p.current_weapon != Weapon::Rifle ==> q.is_attacking == (input.trigger_pressed
                && usable)
            &&& frame_after_input(p, input, dropped, pos, rotation).1 == dropped
        },
{
}

/// One frame step of a clip of `n > 1` frames goes to the next frame,
/// counting modulo `n`, and reports a wrap exactly when it lands on the
/// first frame. A started clip stands at its first frame with a fresh clock;
/// starting a clip over keeps the clip.
pub proof fn lemma_frame_step(c: int, n: int, row: usize, frames: usize, fps: u32, a: AnimationState)
    requires
        n > 1,
        0 <= c < n,
    ensures
        next_frame_of(c, n).0 == (c + 1) % n,
        next_frame_of(c, n).1 <==> next_frame_of(c, n).0 == 0,
        started_clip(row, frames, fps).current_frame == 0,
        started_clip(row, frames, fps).row_index == row,
        started_clip(row, frames, fps).num_frames == frames,
        started_clip(row, frames, fps).fps == fps,
        started_clip(row, frames, fps).restart_timer,
        restarted_clip(a).current_frame == 0,
        restarted_clip(a).restart_timer,
        restarted_clip(a).row_index == a.row_index,
        restarted_clip(a).num_frames == a.num_frames,
        restarted_clip(a).fps == a.fps,
{
    assert((c + 1) % n == if c + 1 >= n { 0 } else { c + 1 }) by (nonlinear_arith)
        requires
            n > 1,
            0 <= c < n,
    ;
}

/// Walking or not: the player walks exactly when told to; standing still
/// brings the legs back to their first frame, walking leaves them playing;
/// nothing else changes.
pub proof fn lemma_walking(p: PlayerStatus, moving: bool)
    ensures
        p.after_moving(moving).is_moving == moving,
        !moving ==> p.after_moving(moving).legs_anim.current_frame == 0
            && p.after_moving(moving).legs_anim.row_index == p.legs_anim.row_index
            && p.after_moving(moving).legs_anim.num_frames == p.legs_anim.num_frames,
        moving ==> p.after_moving(moving).legs_anim == p.legs_anim,
        p.after_moving(moving).current_weapon == p.current_weapon,
        p.after_moving(moving).ammo == p.ammo,
        p.after_moving(moving).is_attacking == p.is_attacking,
        p.after_moving(moving).is_dead == p.is_dead,
        p.after_moving(moving).torso_anim == p.torso_anim,
{
}

} // verus!

//! The discrete state of an enemy and the decisions it takes each frame.

use vstd::prelude::*;

use crate::objects::{ground_is_clean, DroppedWeapon};
use crate::player::{
    attack_clip_of, idle_row_of, is_firearm_spec, is_melee_spec, restarted_clip, started_clip,
    AnimationState, PlayerStatus, Weapon, DEAD_FRAMES, DEAD_ROW, LEGS_FRAMES, LEGS_ROW,
    PUNCH_ROW,
};

verus! {

/// What an enemy is doing.
#[derive(Debug, Clone, Copy, PartialEq, Eq, Structural)]
pub enum EnemyState {
    Patrol,
    MeleeChase,
    RangedChase,
}

/// What an enemy perceives in a frame, measured by the caller.
#[derive(Debug, Clone, Copy, PartialEq, Eq, Structural)]
pub struct EnemySenses {
    /// One of the player's bullets reached the enemy (the caller removes that bullet).
    pub hit_by_bullet: bool,
    /// The enemy stands within the player's attack radius.
    pub in_melee_range: bool,
    /// The player is near, or farther but in plain sight.
    pub player_visible: bool,
    /// The enemy has a direction to patrol in.
    pub has_patrol_direction: bool,
    /// The player is close enough for a blow.
    pub player_in_reach: bool,
    /// The enemy's fire cooldown is over.
    pub cooldown_over: bool,
}

/// What the caller does for an enemy after its frame's decisions.
#[derive(Debug, Clone, Copy, PartialEq, Eq, Structural)]
pub enum EnemyAction {
    /// The enemy was already dead: nothing to do.
    Inactive,
    /// The enemy has just been killed: nothing more this frame.
    Died,
    /// Walk the patrol route.
    Patrol,
    /// Walk towards the player.
    MeleeChase,
    /// Keep the player at a distance, aim at it, and launch a bullet if `shoots`.
    RangedChase { shoots: bool },
}

/// Rounds left in a weapon that an enemy lets fall when it dies.
pub open spec fn drop_ammo_of(w: Weapon) -> u32 {
    match w {
        Weapon::Pistol => 6,
        Weapon::Rifle => 15,
        _ => 0,
    }
}

/// Milliseconds an enemy waits between two shots with a weapon.
pub open spec fn fire_delay_ms_of(w: Weapon) -> u32 {
    match w {
        Weapon::Rifle => 180,
        _ => 600,
    }
}

/// What an enemy does given whether it sees a living player.
pub open spec fn chase_state_of(w: Weapon, sees_player: bool) -> EnemyState {
    if !sees_player {
        EnemyState::Patrol
    } else if is_firearm_spec(w) {
        EnemyState::RangedChase
    } else {
        EnemyState::MeleeChase
    }
}

/// Whether an enemy is struck this frame: by one of the player's bullets, or
/// by a melee attack of the player within reach.
pub open spec fn struck_spec(
    hit_by_bullet: bool,
    player: PlayerStatus,
    in_melee_range: bool,
) -> bool {
    hit_by_bullet || (player.is_attacking && is_melee_spec(player.current_weapon)
        && in_melee_range)
}

/// The ground after an enemy holding `w` dies at `pos`, turned by `rotation`:
/// a real weapon falls, with a few rounds in it.
pub open spec fn ground_after_death<P, R>(
    w: Weapon,
    dropped: Seq<DroppedWeapon<P, R>>,
    pos: P,
    rotation: R,
) -> Seq<DroppedWeapon<P, R>> {
    if w != Weapon::Fists && w != Weapon::Dead {
        dropped.push(DroppedWeapon { pos, weapon: w, ammo: drop_ammo_of(w), rotation })
    } else {
        dropped
    }
}

/// The discrete state of an enemy. Position, aim, patrol direction, speed,
/// bullets in flight and the fire cooldown live with the caller.
#[derive(Debug, Clone, Copy, PartialEq, Eq, Structural)]
pub struct EnemyStatus {
    pub weapon: Weapon,
    pub is_dead: bool,
    pub is_moving: bool,
    pub is_attacking: bool,
    pub state: EnemyState,
    pub torso_anim: AnimationState,
    pub legs_anim: AnimationState,
}

impl Weapon {
    /// Milliseconds an enemy waits between two shots with this weapon.
    pub fn fire_delay_ms(self) -> (r: u32)
        ensures
            r == fire_delay_ms_of(self),
    {
        match self {
            Weapon::Rifle => 180,
            _ => 600,
        }
    }
}

impl EnemyStatus {
    /// A dead enemy shows the body pose, and both clips are inside their frames.
    pub open spec fn wf(&self) -> bool {
        &&& self.is_dead ==> self.weapon == Weapon::Dead
        &&& self.torso_anim.wf()
        &&& self.legs_anim.wf()
    }

    /// The enemy after dying: dead, holding nothing, the body clip started.
    /// A dead enemy stays as it is.
    pub open spec fn after_death(self) -> Self {
        if self.is_dead {
            self
        } else {
            EnemyStatus {
                is_dead: true,
                weapon: Weapon::Dead,
                torso_anim: started_clip(DEAD_ROW, DEAD_FRAMES, 14),
                ..self
            }
        }
    }

    /// The enemy chasing a living player it sees, from afar with a firearm
    /// and up close otherwise; patrolling when it sees none.
    pub open spec fn after_tracking(self, player_visible: bool, player_dead: bool) -> Self {
        EnemyStatus {
            state: chase_state_of(self.weapon, player_visible && !player_dead),
            ..self
        }
    }

    /// One frame of the current state's behaviour: a patrol walks when it
    /// has a direction; a melee chase walks and strikes a player in reach;
    /// a ranged chase shoots when the cooldown is over.
    pub open spec fn after_behaviour(self, senses: EnemySenses) -> Self {
        match self.state {
            EnemyState::Patrol => EnemyStatus {
                is_moving: self.is_moving || senses.has_patrol_direction,
                ..self
            },
            EnemyState::MeleeChase => EnemyStatus {
                is_moving: true,
                is_attacking: self.is_attacking || senses.player_in_reach,
                ..self
            },
            EnemyState::RangedChase => EnemyStatus {
                is_attacking: self.is_attacking || senses.cooldown_over,
                ..self
            },
        }
    }

    /// Between attacks the torso shows the weapon's attack clip from its first frame.
    pub open spec fn posed(self) -> Self {
        if self.is_attacking {
            self
        } else {
            let clip = attack_clip_of(self.weapon);
            EnemyStatus { torso_anim: started_clip(clip.0, clip.1, clip.2), ..self }
        }
    }

    /// The enemy after its attack clip ended: a rifle whose trigger stays
    /// held starts the clip over; any other attack ends in the still pose.
    pub open spec fn after_attack_clip(self, trigger_held: bool) -> Self {
        if self.weapon == Weapon::Rifle && trigger_held {
            EnemyStatus { torso_anim: restarted_clip(self.torso_anim), ..self }
        } else {
            EnemyStatus {
                is_attacking: false,
                torso_anim: started_clip(idle_row_of(self.weapon), 1, 1),
                ..self
            }
        }
    }

    /// A living enemy on patrol, holding `weapon`.
    pub fn new(weapon: Weapon) -> (e: Self)
        ensures
            e == (EnemyStatus {
                weapon,
                is_dead: false,
                is_moving: false,
                is_attacking: false,
                state: EnemyState::Patrol,
                torso_anim: started_clip(PUNCH_ROW, 1, 1),
                legs_anim: started_clip(LEGS_ROW, LEGS_FRAMES, 14),
            }),
            e.wf(),
    {
        EnemyStatus {
            weapon,
            is_dead: false,
            is_moving: false,
            is_attacking: false,
            state: EnemyState::Patrol,
            torso_anim: AnimationState::new(1, 1, PUNCH_ROW),
            legs_anim: AnimationState::new(LEGS_FRAMES, 14, LEGS_ROW),
        }
    }

    /// Kills the enemy (see `after_death`): a real weapon falls at `pos`,
    /// turned by `rotation`, with a few rounds in it (see
    /// `ground_after_death`). Killing a dead enemy changes nothing.
    pub fn die<P, R>(&mut self, dropped: &mut Vec<DroppedWeapon<P, R>>, pos: P, rotation: R)
        ensures
            *final(self) == old(self).after_death(),
            final(dropped)@ == if old(self).is_dead {
                old(dropped)@
            } else {
                ground_after_death(old(self).weapon, old(dropped)@, pos, rotation)
            },
            ground_is_clean(old(dropped)@) ==> ground_is_clean(final(dropped)@),
            old(self).wf() ==> final(self).wf(),
    {
        if self.is_dead {
            return;
        }
        self.is_dead = true;
        if self.weapon != Weapon::Fists && self.weapon != Weapon::Dead {
            let ammo = match self.weapon {
                Weapon::Pistol => 6,
                Weapon::Rifle => 15,
                _ => 0,
            };
            let ghost before = dropped@;
            dropped.push(DroppedWeapon::new(pos, self.weapon, ammo, rotation));
            assert forall|j: int|
                ground_is_clean(before) && 0 <= j < dropped@.len() implies #[trigger] dropped@[j].weapon
                != Weapon::Fists && dropped@[j].weapon != Weapon::Dead by {
                if j < before.len() {
                    assert(dropped@[j] == before[j]);
                }
            }
        }
        self.weapon = Weapon::Dead;
        let (row, frames, fps) = self.weapon.attack_clip();
        self.torso_anim.set_state(row, frames, fps);
    }

    /// The decisions of one frame (see `enemy_frame`): a dead enemy does
    /// nothing; a struck one dies; otherwise it picks what to do from what it
    /// sees, does it, and shows its weapon's clip between attacks. A living
    /// player within reach of a melee chase is killed. The caller then moves
    /// the enemy as the returned action says, launches the bullet of a
    /// ranged shot, and plays the clips.
    pub fn update<P, R>(
        &mut self,
        player: &mut PlayerStatus,
        senses: EnemySenses,
        dropped: &mut Vec<DroppedWeapon<P, R>>,
        pos: P,
        rotation: R,
    ) -> (action: EnemyAction)
        ensures
            ({
                let (e, kills, act) = enemy_frame(*old(self), *old(player), senses);
                &&& *final(self) == e
                &&& action == act
                &&& *final(player) == if kills {
                    PlayerStatus { is_dead: true, ..*old(player) }
                } else {
                    *old(player)
                }
                &&& final(dropped)@ == if act == EnemyAction::Died {
                    ground_after_death(old(self).weapon, old(dropped)@, pos, rotation)
                } else {
                    old(dropped)@
                }
            }),
            old(self).wf() ==> final(self).wf(),
            old(player).wf() ==> final(player).wf(),
            ground_is_clean(old(dropped)@) ==> ground_is_clean(final(dropped)@),
    {
        if self.is_dead {
            return EnemyAction::Inactive;
        }
        let struck = senses.hit_by_bullet || (player.is_attacking
            && player.current_weapon.is_melee() && senses.in_melee_range);
        if struck {
            self.die(dropped, pos, rotation);
            return EnemyAction::Died;
        }
        let sees_player = senses.player_visible && !player.is_dead;
        if sees_player {
            self.state =
            match self.weapon {
                Weapon::Pistol | Weapon::Rifle => EnemyState::RangedChase,
                _ => EnemyState::MeleeChase,
            };
        } else {
            self.state = EnemyState::Patrol;
        }
        let action = match self.state {
            EnemyState::Patrol => {
                if senses.has_patrol_direction {
                    self.is_moving = true;
                }
                EnemyAction::Patrol
            },
            EnemyState::MeleeChase => {
                self.is_moving = true;
                if senses.player_in_reach {
                    self.is_attacking = true;
                    player.is_dead = true;
                }
                EnemyAction::MeleeChase
            },
            EnemyState::RangedChase => {
                if senses.cooldown_over {
                    self.is_attacking = true;
                }
                EnemyAction::RangedChase { shoots: senses.cooldown_over }
            },
        };
        self.pose_between_attacks();
        action
    }

    /// Between attacks the torso shows the weapon's attack clip (see `posed`).
    pub fn pose_between_attacks(&mut self)
        ensures
            *final(self) == old(self).posed(),
            old(self).wf() ==> final(self).wf(),
    {
        if !self.is_attacking {
            let (row, frames, fps) = self.weapon.attack_clip();
            self.torso_anim.set_state(row, frames, fps);
        }
    }

    /// The end of an attack clip (`clip_finished`) during an attack (see
    /// `after_attack_clip`); otherwise nothing changes.
    pub fn complete_attack(&mut self, clip_finished: bool, trigger_held: bool)
        ensures
            *final(self) == if old(self).is_attacking && clip_finished {
                old(self).after_attack_clip(trigger_held)
            } else {
                *old(self)
            },
            old(self).wf() ==> final(self).wf(),
    {
        if !(self.is_attacking && clip_finished) {
            return;
        }
        let keep_shooting = self.weapon == Weapon::Rifle && trigger_held;
        if keep_shooting {
            self.torso_anim.reset();
        } else {
            self.is_attacking = false;
            let row = self.weapon.idle_row();
            self.torso_anim.set_state(row, 1, 1);
        }
    }

    /// A standing enemy puts its legs back at rest; a walking one keeps them going.
    pub fn rest_legs(&mut self)
        ensures
            *final(self) == if old(self).is_moving {
                *old(self)
            } else {
                EnemyStatus { legs_anim: restarted_clip(old(self).legs_anim), ..*old(self) }
            },
            old(self).wf() ==> final(self).wf(),
    {
        if !self.is_moving {
            self.legs_anim.reset();
        }
    }
}

/// One frame of an enemy's decisions: the enemy afterwards, whether it
/// killed the player, and what the caller must do.
pub open spec fn enemy_frame(e: EnemyStatus, p: PlayerStatus, s: EnemySenses) -> (
    EnemyStatus,
    bool,
    EnemyAction,
) {
    if e.is_dead {
        (e, false, EnemyAction::Inactive)
    } else if struck_spec(s.hit_by_bullet, p, s.in_melee_range) {
        (e.after_death(), false, EnemyAction::Died)
    } else {
        let e1 = e.after_tracking(s.player_visible, p.is_dead);
        let e2 = e1.after_behaviour(s);
        let (kills, act) = match e1.state {
            EnemyState::Patrol => (false, EnemyAction::Patrol),
            EnemyState::MeleeChase => (s.player_in_reach, EnemyAction::MeleeChase),
            EnemyState::RangedChase => (false, EnemyAction::RangedChase { shoots: s.cooldown_over }),
        };
        (e2.posed(), kills, act)
    }
}

/// A dead enemy is out of the game: its frames change nothing, neither the
/// enemy nor the player.
pub proof fn lemma_dead_enemy_is_inert(e: EnemyStatus, p: PlayerStatus, s: EnemySenses)
    requires
        e.is_dead,
    ensures
        enemy_frame(e, p, s) == (e, false, EnemyAction::Inactive),
{
}

/// An enemy only ever harms a player it sees alive, with a melee weapon,
/// and within reach; and it only shoots at a player it sees alive, with a
/// firearm, once its cooldown is over.
pub proof fn lemma_enemy_attacks_only_seen_players(
    e: EnemyStatus,
    p: PlayerStatus,
    s: EnemySenses,
)
    ensures
        enemy_frame(e, p, s).1 ==> !e.is_dead && s.player_visible && !p.is_dead
            && !is_firearm_spec(e.weapon) && s.player_in_reach,
        enemy_frame(e, p, s).2 == (EnemyAction::RangedChase { shoots: true }) ==> !e.is_dead
            && s.player_visible && !p.is_dead && is_firearm_spec(e.weapon) && s.cooldown_over,
{
}

/// Struck enemies die: a living enemy hit by one of the player's bullets,
/// or by a blow of an attacking player holding bare hands, a pipe or a knife
/// within range, dies this frame — body pose, holding nothing, harming
/// nobody. An enemy that is not struck does not die.
pub proof fn lemma_struck_enemy_dies(e: EnemyStatus, p: PlayerStatus, s: EnemySenses)
    requires
        !e.is_dead,
    ensures
        ({
            let struck = s.hit_by_bullet || (p.is_attacking && (p.current_weapon == Weapon::Fists
                || p.current_weapon == Weapon::Pipe || p.current_weapon == Weapon::Knight)
                && s.in_melee_range);
            let (f, kills, act) = enemy_frame(e, p, s);
            &&& struck ==> act == EnemyAction::Died && f.is_dead && f.weapon == Weapon::Dead
                && !kills && f.torso_anim.row_index == DEAD_ROW
            &&& !struck ==> act != EnemyAction::Died && !f.is_dead && f.weapon == e.weapon
        }),
{
}

/// A living, unstruck enemy that sees a living player chases it: from a
/// distance with a pistol or a rifle, shooting whenever its cooldown is
/// over; up close, walking, with every other weapon (bare hands included),
/// killing the player when it is within reach. An enemy that sees no living
/// player patrols.
pub proof fn lemma_seen_player_is_chased(e: EnemyStatus, p: PlayerStatus, s: EnemySenses)
    requires
        !e.is_dead,
        !s.hit_by_bullet,
        !(p.is_attacking && s.in_melee_range),
    ensures
        ({
            let (f, kills, act) = enemy_frame(e, p, s);
            let firearm = e.weapon == Weapon::Pistol || e.weapon == Weapon::Rifle;
            &&& s.player_visible && !p.is_dead && firearm ==> f.state == EnemyState::RangedChase
                && act == (EnemyAction::RangedChase { shoots: s.cooldown_over }) && !kills
                && f.is_attacking == (e.is_attacking || s.cooldown_over)
            &&& s.player_visible && !p.is_dead && !firearm ==> f.state == EnemyState::MeleeChase
                && act == EnemyAction::MeleeChase && f.is_moving && kills == s.player_in_reach
                && f.is_attacking == (e.is_attacking || s.player_in_reach)
            &&& !(s.player_visible && !p.is_dead) ==> f.state == EnemyState::Patrol && act
                == EnemyAction::Patrol && !kills && f.is_moving == (e.is_moving
                || s.has_patrol_direction)
            &&& f.weapon == e.weapon && !f.is_dead
        }),
{
}

/// A dying enemy lets its weapon fall where it stands, after the weapons
/// already lying there: a pistol with 6 rounds, a rifle with 15, a pipe or a
/// knife with none; bare hands and a body leave nothing.
pub proof fn lemma_dying_enemy_drops_its_weapon<P, R>(
    w: Weapon,
    dropped: Seq<DroppedWeapon<P, R>>,
    pos: P,
    rotation: R,
)
    ensures
        ({
            let g = ground_after_death(w, dropped, pos, rotation);
            &&& (w == Weapon::Fists || w == Weapon::Dead) ==> g == dropped
            &&& !(w == Weapon::Fists || w == Weapon::Dead) ==> {
                &&& g.len() == dropped.len() + 1
                &&& forall|j: int| 0 <= j < dropped.len() ==> #[trigger] g[j] == dropped[j]
                &&& g[dropped.len() as int].weapon == w
                &&& g[dropped.len() as int].pos == pos
                &&& g[dropped.len() as int].rotation == rotation
                &&& g[dropped.len() as int].ammo == if w == Weapon::Pistol {
                    6u32
                } else if w == Weapon::Rifle {
                    15u32
                } else {
                    0u32
                }
            }
        }),
{
}

/// Dying is final and happens once: after dying an enemy is dead and holds
/// nothing, and dying again changes nothing.
pub proof fn lemma_death_is_final(e: EnemyStatus)
    ensures
        e.after_death().is_dead,
        e.after_death().weapon == Weapon::Dead || e.is_dead,
        e.after_death().after_death() == e.after_death(),
        e.is_dead ==> e.after_death() == e,
{
}

/// The end of an enemy's attack clip: only a rifle with the trigger held
/// keeps attacking, starting the clip over; every other attack ends in the
/// weapon's still pose. Between attacks the torso shows the first frame of
/// the weapon's attack clip.
pub proof fn lemma_enemy_attack_clip_end(e: EnemyStatus, trigger_held: bool)
    ensures
        e.is_attacking ==> e.after_attack_clip(trigger_held).is_attacking == (e.weapon
            == Weapon::Rifle && trigger_held),
        e.after_attack_clip(trigger_held).torso_anim.current_frame == 0,
        !(e.weapon == Weapon::Rifle && trigger_held) ==> e.after_attack_clip(
            trigger_held,
        ).torso_anim.row_index == attack_clip_of(e.weapon).0 && e.after_attack_clip(
            trigger_held,
        ).torso_anim.num_frames == 1,
        e.after_attack_clip(trigger_held).weapon == e.weapon,
        !e.is_attacking ==> e.posed().torso_anim.row_index == attack_clip_of(e.weapon).0
            && e.posed().torso_anim.num_frames == attack_clip_of(e.weapon).1
            && e.posed().torso_anim.current_frame == 0,
        e.is_attacking ==> e.posed() == e,
{
}

/// The rifle fires faster than any other weapon.
pub proof fn lemma_rifle_fires_fastest(w: Weapon)
    ensures
        w != Weapon::Rifle ==> fire_delay_ms_of(Weapon::Rifle) < fire_delay_ms_of(w),
        fire_delay_ms_of(w) > 0,
{
}

} // verus!

use brawler::npc::{EnemyAction, EnemySenses, EnemyState, EnemyStatus};
use brawler::objects::DroppedWeapon;
use brawler::player::{PlayerStatus, Weapon, DEAD_FRAMES, DEAD_ROW, KNIGHT_FRAMES, KNIGHT_ROW, PISTOL_ROW, RIFLE_ROW};

type Ground = Vec<DroppedWeapon<(f32, f32), f32>>;

#[test]
fn new_enemy_patrols() {
    let e = EnemyStatus::new(Weapon::Pistol);
    assert_eq!(e.state, EnemyState::Patrol);
    assert!(!e.is_dead && !e.is_moving && !e.is_attacking);
    assert_eq!(e.weapon, Weapon::Pistol);
}

#[test]
fn dying_drops_weapon_with_rounds() {
    let mut ground: Ground = Vec::new();
    let mut e = EnemyStatus::new(Weapon::Rifle);
    e.die(&mut ground, (5.0, 6.0), 0.75);
    assert!(e.is_dead);
    assert_eq!(e.weapon, Weapon::Dead);
    assert_eq!((e.torso_anim.row_index, e.torso_anim.num_frames, e.torso_anim.fps), (DEAD_ROW, DEAD_FRAMES, 14));
    assert_eq!(ground.len(), 1);
    assert_eq!((ground[0].weapon, ground[0].ammo), (Weapon::Rifle, 15));
    assert_eq!(ground[0].pos, (5.0, 6.0));
    assert_eq!(ground[0].rotation, 0.75);

    let mut p = EnemyStatus::new(Weapon::Pistol);
    p.die(&mut ground, (0.0, 0.0), 0.0);
    assert_eq!((ground[1].weapon, ground[1].ammo), (Weapon::Pistol, 6));

    let mut k = EnemyStatus::new(Weapon::Knight);
    k.die(&mut ground, (0.0, 0.0), 0.0);
    assert_eq!((ground[2].weapon, ground[2].ammo), (Weapon::Knight, 0));
}

#[test]
fn bare_handed_enemy_drops_nothing() {
    let mut ground: Ground = Vec::new();
    let mut e = EnemyStatus::new(Weapon::Fists);
    e.die(&mut ground, (0.0, 0.0), 0.0);
    assert!(ground.is_empty());
    assert!(e.is_dead);
}

#[test]
fn dying_twice_is_dying_once() {
    let mut ground: Ground = Vec::new();
    let mut e = EnemyStatus::new(Weapon::Pistol);
    e.die(&mut ground, (0.0, 0.0), 0.0);
    e.torso_anim.advance_frame();
    let frame = e.torso_anim.current_frame;
    e.die(&mut ground, (1.0, 1.0), 1.0);
    assert_eq!(ground.len(), 1);
    assert_eq!(e.torso_anim.current_frame, frame);
}

fn senses() -> EnemySenses {
    EnemySenses {
        hit_by_bullet: false,
        in_melee_range: false,
        player_visible: false,
        has_patrol_direction: false,
        player_in_reach: false,
        cooldown_over: false,
    }
}

#[test]
fn struck_by_bullet_or_melee() {
    let mut ground: Ground = Vec::new();
    let mut player = PlayerStatus::new();
    let mut e = EnemyStatus::new(Weapon::Pistol);
    let near = EnemySenses { in_melee_range: true, ..senses() };
    assert_eq!(e.update(&mut player, near, &mut ground, (0.0, 0.0), 0.0), EnemyAction::Patrol);
    assert!(!e.is_dead);
    player.is_attacking = true;
    assert_eq!(e.update(&mut player, senses(), &mut ground, (0.0, 0.0), 0.0), EnemyAction::Patrol);
    assert_eq!(e.update(&mut player, near, &mut ground, (4.0, 2.0), 0.5), EnemyAction::Died);
    assert!(e.is_dead);
    assert_eq!(ground.len(), 1);
    assert_eq!((ground[0].weapon, ground[0].ammo, ground[0].pos), (Weapon::Pistol, 6, (4.0, 2.0)));

    let mut r = EnemyStatus::new(Weapon::Rifle);
    player.current_weapon = Weapon::Pistol;
    assert_eq!(r.update(&mut player, near, &mut ground, (0.0, 0.0), 0.0), EnemyAction::Patrol);
    let shot = EnemySenses { hit_by_bullet: true, ..senses() };
    assert_eq!(r.update(&mut player, shot, &mut ground, (0.0, 0.0), 0.0), EnemyAction::Died);
    assert!(r.is_dead);
}

#[test]
fn dead_enemy_is_inactive() {
    let mut ground: Ground = Vec::new();
    let mut player = PlayerStatus::new();
    let mut e = EnemyStatus::new(Weapon::Knight);
    e.die(&mut ground, (0.0, 0.0), 0.0);
    let before = e;
    let all = EnemySenses {
        hit_by_bullet: true,
        in_melee_range: true,
        player_visible: true,
        has_patrol_direction: true,
        player_in_reach: true,
        cooldown_over: true,
    };
    assert_eq!(e.update(&mut player, all, &mut ground, (0.0, 0.0), 0.0), EnemyAction::Inactive);
    assert_eq!(e, before);
    assert!(!player.is_dead);
    assert_eq!(ground.len(), 1);
}

#[test]
fn state_follows_sight_and_weapon() {
    let mut ground: Ground = Vec::new();
    let mut player = PlayerStatus::new();
    let mut gun = EnemyStatus::new(Weapon::Rifle);
    let mut club = EnemyStatus::new(Weapon::Pipe);
    let seen = EnemySenses { player_visible: true, ..senses() };
    assert_eq!(gun.update(&mut player, seen, &mut ground, (0.0, 0.0), 0.0), EnemyAction::RangedChase { shoots: false });
    assert_eq!(club.update(&mut player, seen, &mut ground, (0.0, 0.0), 0.0), EnemyAction::MeleeChase);
    assert_eq!(gun.state, EnemyState::RangedChase);
    assert_eq!(club.state, EnemyState::MeleeChase);
    assert_eq!(gun.update(&mut player, senses(), &mut ground, (0.0, 0.0), 0.0), EnemyAction::Patrol);
    assert_eq!(gun.state, EnemyState::Patrol);
    player.is_dead = true;
    assert_eq!(club.update(&mut player, seen, &mut ground, (0.0, 0.0), 0.0), EnemyAction::Patrol);
}

#[test]
fn melee_reach_kills_player() {
    let mut ground: Ground = Vec::new();
    let mut player = PlayerStatus::new();
    let mut e = EnemyStatus::new(Weapon::Knight);
    let seen = EnemySenses { player_visible: true, ..senses() };
    e.update(&mut player, seen, &mut ground, (0.0, 0.0), 0.0);
    assert!(e.is_moving);
    assert!(!e.is_attacking && !player.is_dead);
    e.update(&mut player, EnemySenses { player_in_reach: true, ..seen }, &mut ground, (0.0, 0.0), 0.0);
    assert!(e.is_attacking && player.is_dead);
}

#[test]
fn patrol_moves_only_with_direction() {
    let mut ground: Ground = Vec::new();
    let mut player = PlayerStatus::new();
    let mut e = EnemyStatus::new(Weapon::Fists);
    e.update(&mut player, senses(), &mut ground, (0.0, 0.0), 0.0);
    assert!(!e.is_moving);
    e.update(&mut player, EnemySenses { has_patrol_direction: true, ..senses() }, &mut ground, (0.0, 0.0), 0.0);
    assert!(e.is_moving);
    e.update(&mut player, senses(), &mut ground, (0.0, 0.0), 0.0);
    assert!(e.is_moving);
}

#[test]
fn ranged_fire_and_delays() {
    let mut ground: Ground = Vec::new();
    let mut player = PlayerStatus::new();
    let mut e = EnemyStatus::new(Weapon::Pistol);
    let seen = EnemySenses { player_visible: true, ..senses() };
    assert_eq!(e.update(&mut player, seen, &mut ground, (0.0, 0.0), 0.0), EnemyAction::RangedChase { shoots: false });
    assert!(!e.is_attacking);
    assert_eq!((e.torso_anim.row_index, e.torso_anim.num_frames, e.torso_anim.fps), (PISTOL_ROW, 2, 12));
    let ready = EnemySenses { cooldown_over: true, ..seen };
    assert_eq!(e.update(&mut player, ready, &mut ground, (0.0, 0.0), 0.0), EnemyAction::RangedChase { shoots: true });
    assert!(e.is_attacking);
    assert_eq!(Weapon::Rifle.fire_delay_ms(), 180);
    assert_eq!(Weapon::Pistol.fire_delay_ms(), 600);
}

#[test]
fn pose_and_attack_end() {
    let mut e = EnemyStatus::new(Weapon::Knight);
    e.pose_between_attacks();
    assert_eq!((e.torso_anim.row_index, e.torso_anim.num_frames, e.torso_anim.fps), (KNIGHT_ROW, KNIGHT_FRAMES, 12));
    e.is_attacking = true;
    e.complete_attack(true, true);
    assert!(!e.is_attacking);
    assert_eq!((e.torso_anim.row_index, e.torso_anim.num_frames), (KNIGHT_ROW, 1));

    let mut r = EnemyStatus::new(Weapon::Rifle);
    r.is_attacking = true;
    r.complete_attack(false, true);
    assert!(r.is_attacking);
    r.complete_attack(true, true);
    assert!(r.is_attacking);
    assert_eq!(r.torso_anim.current_frame, 0);
    r.complete_attack(true, false);
    assert!(!r.is_attacking);
    assert_eq!(r.torso_anim.row_index, RIFLE_ROW);

    let mut p = EnemyStatus::new(Weapon::Pistol);
    p.is_attacking = true;
    p.pose_between_attacks();
    assert_eq!(p.torso_anim.row_index, 0);
    p.complete_attack(true, true);
    assert_eq!(p.torso_anim.row_index, PISTOL_ROW);
}

#[test]
fn legs_rest_when_standing() {
    let mut e = EnemyStatus::new(Weapon::Fists);
    e.legs_anim.advance_frame();
    e.rest_legs();
    assert_eq!(e.legs_anim.current_frame, 0);
    e.is_moving = true;
    e.legs_anim.advance_frame();
    e.rest_legs();
    assert_eq!(e.legs_anim.current_frame, 1);
}

use brawler::objects::DroppedWeapon;
use brawler::player::{AnimationState, PlayerInput, PlayerStatus, Weapon};
use brawler::player::{DEAD_FRAMES, DEAD_ROW, LEGS_FRAMES, LEGS_ROW, PIPE_ROW, PISTOL_ROW, PUNCH_FRAMES, PUNCH_ROW, RIFLE_ROW};

fn spot(x: f32, y: f32) -> (f32, f32) {
    (x, y)
}

#[test]
fn attack_clips_match_the_sheet() {
    assert_eq!(Weapon::Fists.attack_clip(), (0, 7, 14));
    assert_eq!(Weapon::Pipe.attack_clip(), (1, 7, 14));
    assert_eq!(Weapon::Knight.attack_clip(), (2, 5, 12));
    assert_eq!(Weapon::Pistol.attack_clip(), (3, 2, 12));
    assert_eq!(Weapon::Rifle.attack_clip(), (4, 2, 14));
    assert_eq!(Weapon::Dead.attack_clip(), (6, 1, 14));
}

#[test]
fn idle_and_pickup_rows_differ_only_for_the_body() {
    assert_eq!(Weapon::Dead.idle_row(), DEAD_ROW);
    assert_eq!(Weapon::Dead.pickup_row(), PUNCH_ROW);
    assert_eq!(Weapon::Rifle.idle_row(), RIFLE_ROW);
    assert_eq!(Weapon::Rifle.pickup_row(), RIFLE_ROW);
    assert_eq!(Weapon::Fists.pickup_row(), PUNCH_ROW);
}

#[test]
fn weapon_classes() {
    assert!(Weapon::Pistol.is_firearm());
    assert!(Weapon::Rifle.is_firearm());
    assert!(!Weapon::Pipe.is_firearm());
    assert!(Weapon::Fists.is_melee());
    assert!(Weapon::Knight.is_melee());
    assert!(!Weapon::Dead.is_melee());
    assert!(!Weapon::Rifle.is_melee());
}

#[test]
fn clip_cycles_every_n_frames() {
    let mut a = AnimationState::new(LEGS_FRAMES, 14, LEGS_ROW);
    let mut wraps = Vec::new();
    for _ in 0..14 {
        wraps.push(a.advance_frame());
    }
    assert_eq!(a.current_frame, 0);
    let expected: Vec<bool> = (1..=14).map(|k| k % 7 == 0).collect();
    assert_eq!(wraps, expected);
    a.advance_frame();
    a.advance_frame();
    assert_eq!(a.current_frame, 2);
}

#[test]
fn single_frame_clip_never_moves() {
    let mut a = AnimationState::new(1, 1, PUNCH_ROW);
    assert!(!a.animates());
    assert!(!a.advance_frame());
    assert_eq!(a.current_frame, 0);
    let mut empty = AnimationState::new(0, 1, PUNCH_ROW);
    assert!(!empty.advance_frame());
}

#[test]
fn set_state_and_reset_restart_the_clock() {
    let mut a = AnimationState::new(7, 14, LEGS_ROW);
    assert!(a.take_timer_restart());
    assert!(!a.take_timer_restart());
    a.advance_frame();
    a.reset();
    assert_eq!(a.current_frame, 0);
    assert_eq!(a.num_frames, 7);
    assert!(a.take_timer_restart());
    a.set_state(PISTOL_ROW, 2, 12);
    assert_eq!((a.row_index, a.num_frames, a.fps, a.current_frame), (PISTOL_ROW, 2, 12, 0));
    assert!(a.restart_timer);
}

#[test]
fn new_player_is_bare_handed() {
    let p = PlayerStatus::new();
    assert_eq!(p.current_weapon, Weapon::Fists);
    assert_eq!(p.ammo, 0);
    assert!(!p.is_dead && !p.is_attacking && !p.is_moving);
    assert_eq!(p.torso_anim.num_frames, 1);
    assert_eq!(p.legs_anim.num_frames, LEGS_FRAMES);
}

#[test]
fn pickup_swaps_held_weapon_with_ground() {
    let mut p = PlayerStatus::new();
    p.current_weapon = Weapon::Pipe;
    let mut ground = vec![
        DroppedWeapon::new(spot(1.0, 1.0), Weapon::Pistol, 6, 0.5f32),
        DroppedWeapon::new(spot(2.0, 2.0), Weapon::Rifle, 15, 0.0f32),
    ];
    p.pick_up_or_drop(&mut ground, Some(1), spot(9.0, 9.0), 1.5f32);
    assert_eq!(p.current_weapon, Weapon::Rifle);
    assert_eq!(p.ammo, 15);
    assert_eq!(p.torso_anim.row_index, RIFLE_ROW);
    assert_eq!(ground.len(), 2);
    assert_eq!(ground[0].weapon, Weapon::Pistol);
    assert_eq!(ground[1].weapon, Weapon::Pipe);
    assert_eq!(ground[1].pos, (9.0, 9.0));
    assert_eq!(ground[1].rotation, 1.5);
}

#[test]
fn pickup_with_bare_hands_leaves_nothing_behind() {
    let mut p = PlayerStatus::new();
    let mut ground = vec![DroppedWeapon::new(spot(1.0, 1.0), Weapon::Pistol, 6, 0.0f32)];
    p.pick_up_or_drop(&mut ground, Some(0), spot(0.0, 0.0), 0.0f32);
    assert!(ground.is_empty());
    assert_eq!((p.current_weapon, p.ammo), (Weapon::Pistol, 6));
    assert_eq!(p.torso_anim.row_index, PISTOL_ROW);
}

#[test]
fn drop_with_nothing_under_player() {
    let mut p = PlayerStatus::new();
    p.current_weapon = Weapon::Pistol;
    p.ammo = 4;
    let mut ground: Vec<DroppedWeapon<(f32, f32), f32>> = Vec::new();
    p.pick_up_or_drop(&mut ground, None, spot(3.0, 4.0), 0.25f32);
    assert_eq!((p.current_weapon, p.ammo), (Weapon::Fists, 0));
    assert_eq!(ground.len(), 1);
    assert_eq!((ground[0].weapon, ground[0].ammo), (Weapon::Pistol, 4));
    // bare hands and nothing under the player: nothing happens
    let before_row = p.torso_anim.row_index;
    p.pick_up_or_drop(&mut ground, None, spot(3.0, 4.0), 0.25f32);
    assert_eq!(ground.len(), 1);
    assert_eq!(p.torso_anim.row_index, before_row);
}

#[test]
fn pickup_conserves_weapons_and_rounds() {
    let mut p = PlayerStatus::new();
    p.current_weapon = Weapon::Rifle;
    p.ammo = 7;
    let mut ground = vec![
        DroppedWeapon::new(spot(0.0, 0.0), Weapon::Knight, 0, 0.0f32),
        DroppedWeapon::new(spot(0.0, 0.0), Weapon::Pistol, 3, 0.0f32),
    ];
    let count = |g: &Vec<DroppedWeapon<(f32, f32), f32>>, p: &PlayerStatus| {
        let mut all: Vec<(Weapon, u32)> = g.iter().map(|d| (d.weapon, d.ammo)).collect();
        if p.current_weapon != Weapon::Fists {
            all.push((p.current_weapon, p.ammo));
        }
        all.sort_by_key(|(w, a)| (format!("{:?}", w), *a));
        all
    };
    let before = count(&ground, &p);
    p.pick_up_or_drop(&mut ground, Some(0), spot(1.0, 1.0), 0.0f32);
    assert_eq!(count(&ground, &p), before);
    p.pick_up_or_drop(&mut ground, None, spot(1.0, 1.0), 0.0f32);
    assert_eq!(count(&ground, &p), before);
    p.pick_up_or_drop(&mut ground, Some(1), spot(1.0, 1.0), 0.0f32);
    assert_eq!(count(&ground, &p), before);
}

#[test]
fn last_weapon_key_wins() {
    let mut p = PlayerStatus::new();
    p.switch_weapon([false, true, false, true, false]);
    assert_eq!((p.current_weapon, p.ammo), (Weapon::Pistol, 12));
    assert_eq!(p.torso_anim.row_index, PISTOL_ROW);
    p.switch_weapon([false, false, false, false, true]);
    assert_eq!((p.current_weapon, p.ammo), (Weapon::Rifle, 30));
    p.switch_weapon([true, false, false, false, false]);
    assert_eq!((p.current_weapon, p.ammo), (Weapon::Fists, 0));
    assert_eq!(p.torso_anim.row_index, PUNCH_ROW);
}

#[test]
fn same_weapon_key_refills_without_new_pose() {
    let mut p = PlayerStatus::new();
    p.switch_weapon([false, false, false, true, false]);
    p.ammo = 2;
    p.torso_anim.current_frame = 0;
    p.torso_anim.restart_timer = false;
    p.switch_weapon([false, false, false, true, false]);
    assert_eq!(p.ammo, 12);
    assert!(!p.torso_anim.restart_timer);
}

#[test]
fn no_weapon_switch_during_attack() {
    let mut p = PlayerStatus::new();
    p.is_attacking = true;
    p.switch_weapon([false, true, false, false, false]);
    assert_eq!(p.current_weapon, Weapon::Fists);
}

#[test]
fn empty_firearm_cannot_attack() {
    let mut p = PlayerStatus::new();
    p.current_weapon = Weapon::Pistol;
    p.ammo = 0;
    assert!(!p.can_shoot());
    p.start_attack(true);
    assert!(!p.is_attacking);
    p.current_weapon = Weapon::Pipe;
    assert!(p.can_shoot());
    p.start_attack(true);
    assert!(p.is_attacking);
    assert_eq!((p.torso_anim.row_index, p.torso_anim.num_frames, p.torso_anim.fps), (PIPE_ROW, 7, 14));
}

#[test]
fn rifle_is_held_to_fire() {
    let mut p = PlayerStatus::new();
    assert!(!p.fires_while_held());
    p.current_weapon = Weapon::Rifle;
    assert!(p.fires_while_held());
}

#[test]
fn firing_spends_one_round_and_keeps_shooting_while_held() {
    let mut p = PlayerStatus::new();
    p.switch_weapon([false, false, false, false, true]);
    p.ammo = 2;
    p.start_attack(true);
    assert!(p.complete_attack(true, true));
    assert_eq!(p.ammo, 1);
    assert!(p.is_attacking);
    assert!(p.complete_attack(true, true));
    assert_eq!(p.ammo, 0);
    assert!(p.is_attacking);
    assert!(!p.complete_attack(true, true));
    assert_eq!(p.ammo, 0);
    assert!(!p.is_attacking);
    assert_eq!(p.torso_anim.row_index, RIFLE_ROW);
    assert_eq!(p.torso_anim.num_frames, 1);
}

#[test]
fn unfinished_clip_changes_nothing() {
    let mut p = PlayerStatus::new();
    p.start_attack(true);
    assert!(!p.complete_attack(false, true));
    assert!(p.is_attacking);
    assert!(!p.complete_attack(true, false));
    assert!(!p.is_attacking);
}

#[test]
fn bullet_kills_living_player_once() {
    let mut p = PlayerStatus::new();
    assert!(p.take_bullet());
    assert!(p.is_dead);
    assert!(!p.take_bullet());
}

#[test]
fn death_pose_and_restart() {
    let mut p = PlayerStatus::new();
    p.current_weapon = Weapon::Rifle;
    p.ammo = 9;
    p.settle_pose();
    assert_eq!(p.current_weapon, Weapon::Rifle);
    p.is_dead = true;
    p.settle_pose();
    assert_eq!(p.current_weapon, Weapon::Dead);
    assert_eq!((p.torso_anim.row_index, p.torso_anim.num_frames), (DEAD_ROW, DEAD_FRAMES));
    p.restart();
    assert!(!p.is_dead);
    assert_eq!(p.current_weapon, Weapon::Fists);
    assert_eq!(p.ammo, 9);
    assert_eq!((p.torso_anim.row_index, p.torso_anim.num_frames, p.torso_anim.fps), (PUNCH_ROW, PUNCH_FRAMES, 14));
}

#[test]
fn standing_still_rests_the_legs() {
    let mut p = PlayerStatus::new();
    p.set_moving(true);
    p.legs_anim.advance_frame();
    p.legs_anim.take_timer_restart();
    p.set_moving(true);
    assert_eq!(p.legs_anim.current_frame, 1);
    p.set_moving(false);
    assert!(!p.is_moving);
    assert_eq!(p.legs_anim.current_frame, 0);
    assert!(p.legs_anim.restart_timer);
}

fn no_input() -> PlayerInput {
    PlayerInput {
        pickup: false,
        picked: None,
        weapon_keys: [false; 5],
        moving: false,
        trigger_pressed: false,
        trigger_held: false,
    }
}

#[test]
fn dead_player_ignores_input() {
    let mut p = PlayerStatus::new();
    p.current_weapon = Weapon::Pistol;
    p.is_dead = true;
    let before = p;
    let mut ground: Vec<DroppedWeapon<(f32, f32), f32>> = Vec::new();
    let input = PlayerInput { pickup: true, weapon_keys: [true; 5], moving: true, trigger_pressed: true, ..no_input() };
    p.handle_input(input, &mut ground, spot(0.0, 0.0), 0.0);
    assert_eq!(p, before);
    assert!(ground.is_empty());
}

#[test]
fn rifle_attacks_while_held_others_on_press() {
    let mut ground: Vec<DroppedWeapon<(f32, f32), f32>> = Vec::new();
    let mut p = PlayerStatus::new();
    let held = PlayerInput { trigger_held: true, ..no_input() };
    p.handle_input(held, &mut ground, spot(0.0, 0.0), 0.0);
    assert!(!p.is_attacking);
    let pressed = PlayerInput { trigger_pressed: true, ..no_input() };
    p.handle_input(pressed, &mut ground, spot(0.0, 0.0), 0.0);
    assert!(p.is_attacking);

    let mut r = PlayerStatus::new();
    let pick_rifle = PlayerInput { weapon_keys: [false, false, false, false, true], trigger_held: true, ..no_input() };
    r.handle_input(pick_rifle, &mut ground, spot(0.0, 0.0), 0.0);
    assert_eq!(r.current_weapon, Weapon::Rifle);
    assert!(r.is_attacking);
    assert_eq!((r.torso_anim.row_index, r.torso_anim.num_frames, r.torso_anim.fps), (RIFLE_ROW, 2, 14));
}

#[test]
fn one_frame_of_input_in_order() {
    let mut p = PlayerStatus::new();
    let mut ground = vec![DroppedWeapon::new(spot(1.0, 1.0), Weapon::Pipe, 0, 0.0f32)];
    let input = PlayerInput { pickup: true, picked: Some(0), moving: true, trigger_pressed: true, ..no_input() };
    p.handle_input(input, &mut ground, spot(5.0, 5.0), 0.0);
    assert!(ground.is_empty());
    assert_eq!(p.current_weapon, Weapon::Pipe);
    assert!(p.is_moving);
    assert!(p.is_attacking);
    assert_eq!((p.torso_anim.row_index, p.torso_anim.num_frames), (PIPE_ROW, 7));
}

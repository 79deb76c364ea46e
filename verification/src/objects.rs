//! Weapons lying on the ground.

use vstd::prelude::*;

use vstd::multiset::Multiset;

use crate::player::Weapon;

verus! {

/// A weapon on the ground, with the rounds left in it.
///
/// `P` is the place where it lies and `R` the angle it was dropped at; the
/// rules here carry both along without reading them.
pub struct DroppedWeapon<P, R> {
    pub pos: P,
    pub weapon: Weapon,
    pub ammo: u32,
    pub rotation: R,
}

impl<P, R> DroppedWeapon<P, R> {
    /// A weapon dropped at `pos`, turned by `rotation`, holding `ammo` rounds.
    pub fn new(pos: P, weapon: Weapon, ammo: u32, rotation: R) -> (d: Self)
        ensures
            d.pos == pos,
            d.weapon == weapon,
            d.ammo == ammo,
            d.rotation == rotation,
    {
        DroppedWeapon { pos, weapon, ammo, rotation }
    }
}

/// What a dropped weapon amounts to: the weapon and its rounds.
pub open spec fn loot_of<P, R>(d: DroppedWeapon<P, R>) -> (Weapon, u32) {
    (d.weapon, d.ammo)
}

/// Everything lying on the ground, as weapons with their rounds.
pub open spec fn ground<P, R>(dropped: Seq<DroppedWeapon<P, R>>) -> Multiset<(Weapon, u32)> {
    dropped.map_values(|d: DroppedWeapon<P, R>| loot_of(d)).to_multiset()
}

/// What a character carries: nothing when bare-handed, else the weapon and its rounds.
pub open spec fn carried(w: Weapon, ammo: u32) -> Multiset<(Weapon, u32)> {
    if w == Weapon::Fists {
        Multiset::empty()
    } else {
        Multiset::singleton((w, ammo))
    }
}

/// Only real weapons lie on the ground: never bare hands, never a body.
pub open spec fn ground_is_clean<P, R>(dropped: Seq<DroppedWeapon<P, R>>) -> bool {
    forall|i: int|
        0 <= i < dropped.len() ==> #[trigger] dropped[i].weapon != Weapon::Fists
            && dropped[i].weapon != Weapon::Dead
}

/// Dropping one more weapon adds exactly its loot to the ground.
pub proof fn lemma_ground_push<P, R>(dropped: Seq<DroppedWeapon<P, R>>, d: DroppedWeapon<P, R>)
    ensures
        ground(dropped.push(d)) =~= ground(dropped).insert(loot_of(d)),
{
    broadcast use vstd::seq_lib::group_to_multiset_ensures;

    let f = |x: DroppedWeapon<P, R>| loot_of(x);
    assert(dropped.push(d).map_values(f) =~= dropped.map_values(f).push(loot_of(d)));
}

/// Taking the `i`-th weapon away removes exactly its loot from the ground.
pub proof fn lemma_ground_remove<P, R>(dropped: Seq<DroppedWeapon<P, R>>, i: int)
    requires
        0 <= i < dropped.len(),
    ensures
        ground(dropped.remove(i)) =~= ground(dropped).remove(loot_of(dropped[i])),
{
    broadcast use vstd::seq_lib::group_to_multiset_ensures;

    let f = |x: DroppedWeapon<P, R>| loot_of(x);
    assert(dropped.remove(i).map_values(f) =~= dropped.map_values(f).remove(i));
}

} // verus!

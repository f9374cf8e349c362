use vstd::prelude::*;

verus! {

/// Damage dealt to one target; `None` means the attack deals no damage there.
pub type Damage = Option<u32>;

/// The damage an attack deals to aura and to life.
#[derive(Clone, Copy, Debug, PartialEq, Eq, Structural)]
pub struct AttackDamage {
    pub aura_damage: Damage,
    pub life_damage: Damage,
}

/// The attack printed on an attack card.
#[derive(Clone, Debug)]
pub struct Attack {
    pub base_damage: AttackDamage,
    /// The distances at which the attack can hit.
    pub range: Vec<i32>,
}

} // verus!

//! The combat resolver: a pure damage/heal formula producing combat events.

use vstd::prelude::*;

use crate::model::Ability;
use crate::model::Character;

verus! {

/// The damage dealt when a character with attack power `attack` uses an
/// ability of power `power` against a defender with defense `defense`:
/// a heal (`power < 0`) passes through unmitigated, an attack is mitigated
/// by the defense but always deals at least 1 damage.
pub open spec fn spec_damage(attack: int, power: int, defense: int) -> int {
    if power < 0 {
        power
    } else if attack + power - defense < 1 {
        1
    } else {
        attack + power - defense
    }
}

/// `v` is representable as an `i32`.
pub open spec fn fits_i32(v: int) -> bool {
    i32::MIN <= v <= i32::MAX
}

/// The intermediate sums of the damage formula and the defender's resulting
/// hit points stay within `i32`.  This is the machine-width side condition of
/// [`compute_attack`]; the formula itself has no other precondition.
pub open spec fn attack_fits(attacker: CharacterView, defender: CharacterView, ability: AbilityView) -> bool {
    &&& ability.power >= 0 ==> fits_i32(attacker.attack + ability.power)
    &&& ability.power >= 0 ==> fits_i32(attacker.attack + ability.power - defender.defense)
    &&& fits_i32(defender.hp - spec_damage(attacker.attack, ability.power, defender.defense))
}

use crate::model::AbilityView;
use crate::model::CharacterView;

/// Mathematical image of a [`CombatEvent`].
pub ghost struct CombatEventView {
    pub attacker_name: Seq<char>,
    pub defender_name: Seq<char>,
    pub damage: int,
    pub defender_hp_after: int,
    pub ability_used: Seq<char>,
}

/// The pure record of one resolved action.  It does not itself change any
/// character: the caller applies `defender_hp_after`.  Negative `damage`
/// records a heal.
#[derive(Debug)]
pub struct CombatEvent {
    /// Name of the acting character.
    pub attacker_name: String,
    /// Name of the character the action was aimed at.
    pub defender_name: String,
    /// Damage dealt; negative for healing.
    pub damage: i32,
    /// The defender's hit points after the damage is applied; may be
    /// negative (no floor at zero).
    pub defender_hp_after: i32,
    /// Name of the ability that was used.
    pub ability_used: String,
}

impl View for CombatEvent {
    type V = CombatEventView;

    open spec fn view(&self) -> CombatEventView {
        CombatEventView {
            attacker_name: self.attacker_name@,
            defender_name: self.defender_name@,
            damage: self.damage as int,
            defender_hp_after: self.defender_hp_after as int,
            ability_used: self.ability_used@,
        }
    }
}

impl Clone for CombatEvent {
    fn clone(&self) -> (res: Self)
        ensures
            res@ == self@,
    {
        CombatEvent {
            attacker_name: self.attacker_name.clone(),
            defender_name: self.defender_name.clone(),
            damage: self.damage,
            defender_hp_after: self.defender_hp_after,
            ability_used: self.ability_used.clone(),
        }
    }
}

/// The event produced when `attacker` uses `ability` against `defender`,
/// as a function of the three views.
pub open spec fn spec_attack_event(attacker: CharacterView, defender: CharacterView, ability: AbilityView) -> CombatEventView {
    let damage = spec_damage(attacker.attack, ability.power, defender.defense);
    CombatEventView {
        attacker_name: attacker.name,
        defender_name: defender.name,
        damage: damage,
        defender_hp_after: defender.hp - damage,
        ability_used: ability.name,
    }
}

/// Resolves one action of `attacker` against `defender` with `ability`.
///
/// Pure: nothing is mutated, so the function is safe for what-if previews.
/// A heal (`ability.power < 0`) bypasses the defense entirely and raises the
/// defender's hit points; an attack deals
/// `max(1, attacker.stats.attack + ability.power - defender.stats.defense)`.
/// No cap at the defender's maximum health and no floor at zero is applied
/// here; both are the caller's business.
pub fn compute_attack(attacker: &Character, defender: &Character, ability: &Ability) -> (event: CombatEvent)
    requires
        attack_fits(attacker@, defender@, ability@),
    ensures
        event@ == spec_attack_event(attacker@, defender@, ability@),
{
    let damage: i32 = if ability.power < 0 {
        ability.power
    } else {
        let raw = attacker.stats.attack + ability.power;
        let mitigated = raw - defender.stats.defense;
        if mitigated < 1 {
            1
        } else {
            mitigated
        }
    };
    let hp_after = defender.hp - damage;
    CombatEvent {
        attacker_name: attacker.name.clone(),
        defender_name: defender.name.clone(),
        damage: damage,
        defender_hp_after: hp_after,
        ability_used: ability.name.clone(),
    }
}

/// Law: for every attack (non-negative power) the damage is exactly
/// `max(1, attack + power - defense)`, and in particular at least 1,
/// however large the defense.
pub proof fn lemma_attack_damage_clamped(attack: int, power: int, defense: int)
    requires
        power >= 0,
    ensures
        spec_damage(attack, power, defense) == if attack + power - defense < 1 { 1int } else { attack + power - defense },
        spec_damage(attack, power, defense) >= 1,
{
}

/// Law: for every heal (negative power) the damage is the power itself —
/// the defense plays no part — so applying the event strictly raises the
/// defender's hit points.
pub proof fn lemma_heal_bypasses_defense(attacker: CharacterView, defender: CharacterView, ability: AbilityView)
    requires
        ability.power < 0,
    ensures
        spec_attack_event(attacker, defender, ability).damage == ability.power,
        spec_attack_event(attacker, defender, ability).defender_hp_after > defender.hp,
{
}

/// Law: every resolved event is internally consistent — the recorded
/// after-value is the defender's hit points less the recorded damage.
pub proof fn lemma_event_round_trip(attacker: CharacterView, defender: CharacterView, ability: AbilityView)
    ensures
        spec_attack_event(attacker, defender, ability).defender_hp_after
            == defender.hp - spec_attack_event(attacker, defender, ability).damage,
{
}

} // verus!

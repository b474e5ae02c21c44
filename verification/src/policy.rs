//! The monster's decision policy: a deterministic rule table keyed on the
//! monster's health percentage and the cooldown state of its abilities.

use vstd::prelude::*;

use crate::abilities::AbilityMetaView;
use crate::abilities::AbilityType;
use crate::abilities::AbilityWithMeta;
use crate::model::Ability;
use crate::model::AbilityView;
use crate::model::Character;
use crate::model::CharacterView;

verus! {

/// Numerator of the low-health threshold: below 3/10 of maximum health the
/// monster prefers to heal.
pub const LOW_HP_NUMERATOR: i64 = 3;

/// Numerator of the high-health threshold: above 7/10 of maximum health the
/// monster prefers its powerful attack.
pub const HIGH_HP_NUMERATOR: i64 = 7;

/// Denominator of both health thresholds.
pub const HP_THRESHOLD_DENOMINATOR: i64 = 10;

/// The monster's health is strictly below 3/10 of its maximum.  Stated over
/// integers: `hp / max_hp < 3 / 10` exactly, with no rounding.
pub open spec fn low_band(hp: int, max_hp: int) -> bool {
    HP_THRESHOLD_DENOMINATOR * hp < LOW_HP_NUMERATOR * max_hp
}

/// The monster's health is strictly above 7/10 of its maximum.
pub open spec fn high_band(hp: int, max_hp: int) -> bool {
    HP_THRESHOLD_DENOMINATOR * hp > HIGH_HP_NUMERATOR * max_hp
}

/// An ability is usable when it is off cooldown.
pub open spec fn meta_ready(a: AbilityMetaView) -> bool {
    a.current_cooldown == 0
}

/// The ability of the first usable entry of type `t`, in list order, if any.
pub open spec fn first_ready_of_type(s: Seq<AbilityMetaView>, t: AbilityType) -> Option<AbilityView>
    decreases s.len(),
{
    if s.len() == 0 {
        None
    } else if meta_ready(s[0]) && s[0].ability_type == t {
        Some(s[0].ability)
    } else {
        first_ready_of_type(s.drop_first(), t)
    }
}

/// The hard-coded emergency fallback: the plain basic attack, returned even
/// when no supplied ability is usable.
pub open spec fn fallback_ability() -> AbilityView {
    AbilityView { name: "Basic Attack"@, power: 5 }
}

/// `first` if it holds a choice, else `second`.
pub open spec fn preferred(first: Option<AbilityView>, second: Option<AbilityView>) -> Option<AbilityView> {
    if first is Some {
        first
    } else {
        second
    }
}

/// The metadata views of a sequence of abilities.
pub open spec fn metas_of(s: Seq<AbilityWithMeta>) -> Seq<AbilityMetaView> {
    s.map_values(|a: AbilityWithMeta| a@)
}

/// The policy itself.  In the low band the monster tries to heal, falling
/// back to the basic attack; in the high band it tries the powerful attack,
/// falling back to the basic attack; in the middle band — both boundaries
/// included — it uses the basic attack.  When nothing usable is found the
/// emergency fallback guarantees an answer.
pub open spec fn monster_choice(monster: CharacterView, abilities: Seq<AbilityMetaView>) -> AbilityView {
    let pick = if low_band(monster.hp, monster.max_hp) {
        preferred(
            first_ready_of_type(abilities, AbilityType::Heal),
            first_ready_of_type(abilities, AbilityType::BasicAttack),
        )
    } else if high_band(monster.hp, monster.max_hp) {
        preferred(
            first_ready_of_type(abilities, AbilityType::PowerfulAttack),
            first_ready_of_type(abilities, AbilityType::BasicAttack),
        )
    } else {
        first_ready_of_type(abilities, AbilityType::BasicAttack)
    };
    match pick {
        Some(a) => a,
        None => fallback_ability(),
    }
}

/// Law: the search behind the policy is sound and complete — when it yields
/// an ability, some usable entry of the requested type holds exactly that
/// ability, and when it yields nothing, no entry of that type is usable.
/// With the fallback clause of [`monster_choice`] this makes the policy
/// total: it never comes back empty-handed.
pub proof fn lemma_first_ready_of_type_grounded(s: Seq<AbilityMetaView>, t: AbilityType)
    ensures
        match first_ready_of_type(s, t) {
            Some(a) => exists|i: int|
                0 <= i < s.len() && meta_ready(#[trigger] s[i]) && s[i].ability_type == t
                    && s[i].ability == a,
            None => forall|i: int|
                0 <= i < s.len() ==> !(meta_ready(#[trigger] s[i]) && s[i].ability_type == t),
        },
    decreases s.len(),
{
    if s.len() > 0 && !(meta_ready(s[0]) && s[0].ability_type == t) {
        let rest = s.drop_first();
        lemma_first_ready_of_type_grounded(rest, t);
        match first_ready_of_type(rest, t) {
            Some(a) => {
                let i = choose|i: int|
                    0 <= i < rest.len() && meta_ready(#[trigger] rest[i]) && rest[i].ability_type
                        == t && rest[i].ability == a;
                assert(s[i + 1] == rest[i]);
            },
            None => {
                assert forall|i: int|
                    0 <= i < s.len() implies !(meta_ready(#[trigger] s[i]) && s[i].ability_type
                    == t) by {
                    if i > 0 {
                        assert(s[i] == rest[i - 1]);
                    }
                }
            },
        }
    }
}

/// Skipping a prefix in which nothing matches does not change the first
/// usable ability of type `t`.
proof fn lemma_first_ready_skip_prefix(s: Seq<AbilityMetaView>, t: AbilityType, i: int)
    requires
        0 <= i <= s.len(),
        forall|j: int| 0 <= j < i ==> !(meta_ready(#[trigger] s[j]) && s[j].ability_type == t),
    ensures
        first_ready_of_type(s, t) == first_ready_of_type(s.skip(i), t),
    decreases i,
{
    if i > 0 {
        assert(s.drop_first() =~= s.skip(1));
        lemma_first_ready_skip_prefix(s.skip(1), t, i - 1);
        assert(s.skip(1).skip(i - 1) =~= s.skip(i));
    } else {
        assert(s.skip(0) =~= s);
    }
}

/// Finds the index of the first usable ability of type `t`, if any.
fn find_ready_of_type(abilities: &[AbilityWithMeta], t: AbilityType) -> (found: Option<usize>)
    ensures
        match found {
            Some(i) => i < abilities@.len() && first_ready_of_type(metas_of(abilities@), t)
                == Some(abilities@[i as int]@.ability),
            None => first_ready_of_type(metas_of(abilities@), t) is None,
        },
{
    let ghost s = metas_of(abilities@);
    let len = abilities.len();
    let mut i: usize = 0;
    while i < len
        invariant
            0 <= i <= len,
            len == abilities@.len(),
            s == metas_of(abilities@),
            s.len() == len,
            forall|j: int| 0 <= j < i ==> !(meta_ready(#[trigger] s[j]) && s[j].ability_type == t),
        decreases len - i,
    {
        let entry = &abilities[i];
        if entry.current_cooldown == 0 && entry.ability_type == t {
            proof {
                lemma_first_ready_skip_prefix(s, t, i as int);
                assert(s.skip(i as int)[0] == s[i as int]);
                assert(s.skip(i as int).len() > 0);
                assert(first_ready_of_type(s.skip(i as int), t) == Some(s[i as int].ability));
            }
            return Some(i);
        }
        proof {
            assert(s[i as int] == abilities@[i as int]@);
        }
        i = i + 1;
    }
    proof {
        lemma_first_ready_skip_prefix(s, t, len as int);
        assert(s.skip(len as int).len() == 0);
    }
    None
}

/// Picks the monster's action for this turn: deterministic, side-effect
/// free, total over every character, and never empty-handed — if nothing
/// usable is supplied, the plain basic attack is returned.  The bands are
/// exact ratio comparisons, so no division takes place: with a maximum
/// health of zero, negative health falls in the low band, positive health
/// in the high band, and zero health in the middle band.  The opposing
/// character takes no part in the decision yet; it is accepted for
/// signature stability.
pub fn choose_monster_action(monster: &Character, _player: &Character, available_abilities: &[AbilityWithMeta]) -> (choice: Ability)
    ensures
        choice@ == monster_choice(monster@, metas_of(available_abilities@)),
{
    let hp_wide: i64 = monster.hp as i64;
    let max_wide: i64 = monster.stats.hp as i64;
    let low = HP_THRESHOLD_DENOMINATOR * hp_wide < LOW_HP_NUMERATOR * max_wide;
    let high = HP_THRESHOLD_DENOMINATOR * hp_wide > HIGH_HP_NUMERATOR * max_wide;

    if low {
        if let Some(i) = find_ready_of_type(available_abilities, AbilityType::Heal) {
            return available_abilities[i].ability.clone();
        }
        if let Some(i) = find_ready_of_type(available_abilities, AbilityType::BasicAttack) {
            return available_abilities[i].ability.clone();
        }
        return Ability::basic_attack();
    }
    if high {
        if let Some(i) = find_ready_of_type(available_abilities, AbilityType::PowerfulAttack) {
            return available_abilities[i].ability.clone();
        }
        if let Some(i) = find_ready_of_type(available_abilities, AbilityType::BasicAttack) {
            return available_abilities[i].ability.clone();
        }
        return Ability::basic_attack();
    }
    if let Some(i) = find_ready_of_type(available_abilities, AbilityType::BasicAttack) {
        return available_abilities[i].ability.clone();
    }
    Ability::basic_attack()
}

/// Law: the health bands are strict.  At exactly 3/10 or exactly 7/10 of
/// maximum health the monster is in the middle band, so the policy reaches
/// for the basic attack — not for a heal or a powerful attack.
pub proof fn lemma_boundaries_fall_in_middle_band(monster: CharacterView, abilities: Seq<AbilityMetaView>)
    requires
        monster.max_hp >= 1,
        HP_THRESHOLD_DENOMINATOR * monster.hp == LOW_HP_NUMERATOR * monster.max_hp
            || HP_THRESHOLD_DENOMINATOR * monster.hp == HIGH_HP_NUMERATOR * monster.max_hp,
    ensures
        monster_choice(monster, abilities) == match first_ready_of_type(
            abilities,
            AbilityType::BasicAttack,
        ) {
            Some(a) => a,
            None => fallback_ability(),
        },
{
}

} // verus!

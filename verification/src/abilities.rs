//! The cooldown engine: ability slots ticked by elapsed time, and abilities
//! carrying turn-based cooldown metadata for the monster policy.

use vstd::prelude::*;

use crate::model::Ability;
use crate::model::AbilityView;

verus! {

/// Classification of an ability, used by the monster policy to pick an
/// action for the current health band.
#[derive(Debug, Clone, Copy, PartialEq, Eq, Structural)]
pub enum AbilityType {
    BasicAttack,
    PowerfulAttack,
    Heal,
}

/// Mathematical image of an [`AbilityWithMeta`].
pub ghost struct AbilityMetaView {
    pub ability: AbilityView,
    pub ability_type: AbilityType,
    pub cooldown: int,
    pub current_cooldown: int,
}

/// An ability together with its type tag and a turn-based cooldown: using it
/// sets `current_cooldown` to `cooldown`, and each turn start ticks the
/// counter down by one, stopping at zero.
#[derive(Debug)]
pub struct AbilityWithMeta {
    /// The underlying ability.
    pub ability: Ability,
    /// Type tag for the monster policy.
    pub ability_type: AbilityType,
    /// Cooldown in turns imposed after each use.
    pub cooldown: i32,
    /// Turns left until the ability is ready again; zero means ready.
    pub current_cooldown: i32,
}

impl View for AbilityWithMeta {
    type V = AbilityMetaView;

    open spec fn view(&self) -> AbilityMetaView {
        AbilityMetaView {
            ability: self.ability@,
            ability_type: self.ability_type,
            cooldown: self.cooldown as int,
            current_cooldown: self.current_cooldown as int,
        }
    }
}

impl Clone for AbilityWithMeta {
    fn clone(&self) -> (res: Self)
        ensures
            res@ == self@,
    {
        AbilityWithMeta {
            ability: self.ability.clone(),
            ability_type: self.ability_type,
            cooldown: self.cooldown,
            current_cooldown: self.current_cooldown,
        }
    }
}

/// What one turn tick does to an ability's cooldown counter: one step down,
/// stopping at zero.
pub open spec fn tick_meta(a: AbilityMetaView) -> AbilityMetaView {
    AbilityMetaView {
        current_cooldown: if a.current_cooldown > 0 {
            a.current_cooldown - 1
        } else {
            0
        },
        ..a
    }
}

/// What activation does: the full cooldown is imposed.
pub open spec fn activate_meta(a: AbilityMetaView) -> AbilityMetaView {
    AbilityMetaView { current_cooldown: a.cooldown, ..a }
}

/// The view of the standard basic-attack entry.
pub open spec fn spec_basic_attack_meta() -> AbilityMetaView {
    AbilityMetaView {
        ability: AbilityView { name: "Basic Attack"@, power: 5 },
        ability_type: AbilityType::BasicAttack,
        cooldown: 0,
        current_cooldown: 0,
    }
}

/// The view of the standard powerful-attack entry.
pub open spec fn spec_powerful_attack_meta() -> AbilityMetaView {
    AbilityMetaView {
        ability: AbilityView { name: "Powerful Attack"@, power: 12 },
        ability_type: AbilityType::PowerfulAttack,
        cooldown: 3,
        current_cooldown: 0,
    }
}

/// The view of the standard heal entry.
pub open spec fn spec_heal_meta() -> AbilityMetaView {
    AbilityMetaView {
        ability: AbilityView { name: "Heal"@, power: -8 },
        ability_type: AbilityType::Heal,
        cooldown: 4,
        current_cooldown: 0,
    }
}

impl AbilityWithMeta {
    /// Bundles `ability` with its type tag and cooldown book-keeping.
    pub fn new(ability: Ability, ability_type: AbilityType, cooldown: i32, current_cooldown: i32) -> (a: AbilityWithMeta)
        ensures
            a@.ability == ability@,
            a@.ability_type == ability_type,
            a@.cooldown == cooldown,
            a@.current_cooldown == current_cooldown,
    {
        AbilityWithMeta { ability, ability_type, cooldown, current_cooldown }
    }

    /// The basic attack: no cooldown, always available.
    pub fn basic_attack_meta() -> (a: AbilityWithMeta)
        ensures
            a@ == spec_basic_attack_meta(),
    {
        Self::new(Ability::basic_attack(), AbilityType::BasicAttack, 0, 0)
    }

    /// The powerful attack: three-turn cooldown, initially ready.
    pub fn powerful_attack_meta() -> (a: AbilityWithMeta)
        ensures
            a@ == spec_powerful_attack_meta(),
    {
        Self::new(Ability::powerful_attack(), AbilityType::PowerfulAttack, 3, 0)
    }

    /// The heal: four-turn cooldown, initially ready.
    pub fn heal_meta() -> (a: AbilityWithMeta)
        ensures
            a@ == spec_heal_meta(),
    {
        Self::new(Ability::heal(), AbilityType::Heal, 4, 0)
    }

    /// Whether the ability is off cooldown.
    pub fn is_ready(&self) -> (ready: bool)
        ensures
            ready == (self@.current_cooldown == 0),
    {
        self.current_cooldown == 0
    }

    /// Ticks the cooldown down by one turn, stopping at zero.
    pub fn tick_cooldown(&mut self)
        ensures
            final(self)@ == tick_meta(old(self)@),
    {
        if self.current_cooldown > 0 {
            self.current_cooldown = self.current_cooldown - 1;
        } else {
            self.current_cooldown = 0;
        }
    }

    /// Puts the ability on its full cooldown; called exactly once per actual
    /// use, never speculatively.
    pub fn activate(&mut self)
        ensures
            final(self)@ == activate_meta(old(self)@),
    {
        self.current_cooldown = self.cooldown;
    }
}

/// Law: right after activation the counter equals the full cooldown, so the
/// ability reads as ready again only if it imposes no cooldown at all; and a
/// turn tick never drives the counter below zero.
pub proof fn lemma_activate_then_ready_iff_no_cooldown(a: AbilityMetaView)
    ensures
        activate_meta(a).current_cooldown == a.cooldown,
        (activate_meta(a).current_cooldown == 0) <==> a.cooldown == 0,
        tick_meta(a).current_cooldown >= 0,
{
}

/// Mathematical image of an [`AbilitySlot`].
pub ghost struct AbilitySlotView {
    pub ability: AbilityView,
    pub cooldown_max: int,
    pub cooldown_current: int,
}

/// An ability wrapped with a time-based cooldown, measured in whole ticks
/// (the embedding layer decides how long a tick is).  `cooldown_current`
/// counts down to zero as time passes; the slot is ready at zero.  A slot
/// with `cooldown_max == 0` is always ready.
#[derive(Debug)]
pub struct AbilitySlot {
    /// The ability held in this slot.
    pub ability: Ability,
    /// The cooldown imposed by each use, in ticks.
    pub cooldown_max: u32,
    /// Ticks left until the slot is ready again; zero means ready.
    pub cooldown_current: u32,
}

impl View for AbilitySlot {
    type V = AbilitySlotView;

    open spec fn view(&self) -> AbilitySlotView {
        AbilitySlotView {
            ability: self.ability@,
            cooldown_max: self.cooldown_max as int,
            cooldown_current: self.cooldown_current as int,
        }
    }
}

impl Clone for AbilitySlot {
    fn clone(&self) -> (res: Self)
        ensures
            res@ == self@,
    {
        AbilitySlot {
            ability: self.ability.clone(),
            cooldown_max: self.cooldown_max,
            cooldown_current: self.cooldown_current,
        }
    }
}

/// What the passage of `delta` ticks does to a slot: the counter drops by
/// `delta`, clamped at zero.
pub open spec fn tick_slot(s: AbilitySlotView, delta: int) -> AbilitySlotView {
    AbilitySlotView {
        cooldown_current: if delta >= s.cooldown_current {
            0
        } else {
            s.cooldown_current - delta
        },
        ..s
    }
}

/// What one use does to a slot: the full cooldown is imposed.
pub open spec fn use_slot(s: AbilitySlotView) -> AbilitySlotView {
    AbilitySlotView { cooldown_current: s.cooldown_max, ..s }
}

/// A slot is ready when its counter has reached zero.
pub open spec fn slot_ready(s: AbilitySlotView) -> bool {
    s.cooldown_current <= 0
}

/// The display progress of a slot's cooldown, as a percentage: 0 when ready,
/// 100 right after use.  A slot with no cooldown always reports 0.
pub open spec fn spec_cooldown_progress(s: AbilitySlotView) -> int {
    if s.cooldown_max <= 0 {
        0
    } else if s.cooldown_current * 100 / s.cooldown_max > 100 {
        100
    } else {
        s.cooldown_current * 100 / s.cooldown_max
    }
}

impl AbilitySlot {
    /// A fresh, ready slot imposing `cooldown_max` ticks per use.
    pub fn new(ability: Ability, cooldown_max: u32) -> (s: AbilitySlot)
        ensures
            s@.ability == ability@,
            s@.cooldown_max == cooldown_max,
            s@.cooldown_current == 0,
    {
        AbilitySlot { ability, cooldown_max, cooldown_current: 0 }
    }

    /// Whether the slot is off cooldown.
    pub fn is_ready(&self) -> (ready: bool)
        ensures
            ready == slot_ready(self@),
    {
        self.cooldown_current == 0
    }

    /// Imposes the full cooldown; called after the ability was actually used.
    pub fn use_ability(&mut self)
        ensures
            final(self)@ == use_slot(old(self)@),
    {
        self.cooldown_current = self.cooldown_max;
    }

    /// Lets `delta` ticks pass: the counter drops by `delta`, clamped at
    /// zero, so ticking is monotone and never leaves a negative counter.
    pub fn tick(&mut self, delta: u32)
        ensures
            final(self)@ == tick_slot(old(self)@, delta as int),
    {
        if delta >= self.cooldown_current {
            self.cooldown_current = 0;
        } else {
            self.cooldown_current = self.cooldown_current - delta;
        }
    }

    /// The cooldown progress as a percentage for display: 0 means ready,
    /// 100 means just used.
    pub fn cooldown_progress(&self) -> (percent: u32)
        ensures
            percent == spec_cooldown_progress(self@),
    {
        if self.cooldown_max == 0 {
            0
        } else {
            let ratio: u64 = (self.cooldown_current as u64) * 100 / (self.cooldown_max as u64);
            if ratio > 100 {
                100
            } else {
                ratio as u32
            }
        }
    }
}

/// Law: a tick of zero elapsed time changes nothing.
pub proof fn lemma_tick_zero_is_identity(s: AbilitySlotView)
    requires
        s.cooldown_current >= 0,
    ensures
        tick_slot(s, 0) == s,
{
}

/// Law: however large the delta, ticking never drives the counter below
/// zero.
pub proof fn lemma_tick_never_negative(s: AbilitySlotView, delta: int)
    requires
        delta >= 0,
        s.cooldown_current >= 0,
    ensures
        tick_slot(s, delta).cooldown_current >= 0,
        tick_slot(s, delta).cooldown_current <= s.cooldown_current,
{
}

/// Law: right after a use the slot is ready only if it imposes no cooldown
/// at all.
pub proof fn lemma_use_then_ready_iff_no_cooldown(s: AbilitySlotView)
    ensures
        slot_ready(use_slot(s)) <==> s.cooldown_max <= 0,
{
}

/// An ordered set of ability slots owned by one character.  Cooldowns are
/// independent: ticking is applied uniformly and no slot affects another.
#[derive(Debug)]
pub struct AbilitySet {
    /// The slots, in fixed order.
    pub abilities: Vec<AbilitySlot>,
}

impl View for AbilitySet {
    type V = Seq<AbilitySlotView>;

    open spec fn view(&self) -> Seq<AbilitySlotView> {
        self.abilities@.map_values(|s: AbilitySlot| s@)
    }
}

impl AbilitySet {
    /// The default player loadout: basic attack, powerful attack, heal and
    /// quick strike, with cooldowns of 5, 30, 50 and 2 ticks.
    pub fn player_default() -> (s: AbilitySet)
        ensures
            s@.len() == 4,
            s@[0].ability == (AbilityView { name: "Basic Attack"@, power: 5 }),
            s@[1].ability == (AbilityView { name: "Powerful Attack"@, power: 12 }),
            s@[2].ability == (AbilityView { name: "Heal"@, power: -8 }),
            s@[3].ability == (AbilityView { name: "Quick Strike"@, power: 3 }),
            s@[0].cooldown_max == 5,
            s@[1].cooldown_max == 30,
            s@[2].cooldown_max == 50,
            s@[3].cooldown_max == 2,
            forall|i: int| 0 <= i < 4 ==> s@[i].cooldown_current == 0,
    {
        let mut abilities: Vec<AbilitySlot> = Vec::new();
        abilities.push(AbilitySlot::new(Ability::basic_attack(), 5));
        abilities.push(AbilitySlot::new(Ability::powerful_attack(), 30));
        abilities.push(AbilitySlot::new(Ability::heal(), 50));
        abilities.push(AbilitySlot::new(Ability::quick_strike(), 2));
        AbilitySet { abilities }
    }

    /// The default monster loadout: basic attack and quick strike, with
    /// cooldowns of 10 and 5 ticks.
    pub fn monster_default() -> (s: AbilitySet)
        ensures
            s@.len() == 2,
            s@[0].ability == (AbilityView { name: "Basic Attack"@, power: 5 }),
            s@[1].ability == (AbilityView { name: "Quick Strike"@, power: 3 }),
            s@[0].cooldown_max == 10,
            s@[1].cooldown_max == 5,
            forall|i: int| 0 <= i < 2 ==> s@[i].cooldown_current == 0,
    {
        let mut abilities: Vec<AbilitySlot> = Vec::new();
        abilities.push(AbilitySlot::new(Ability::basic_attack(), 10));
        abilities.push(AbilitySlot::new(Ability::quick_strike(), 5));
        AbilitySet { abilities }
    }

    /// Lets `delta` ticks pass for every slot, uniformly and independently.
    #[verifier::loop_isolation(false)]
    pub fn tick_all(&mut self, delta: u32)
        ensures
            final(self)@.len() == old(self)@.len(),
            forall|i: int|
                0 <= i < old(self)@.len() ==> final(self)@[i] == tick_slot(
                    #[trigger] old(self)@[i],
                    delta as int,
                ),
    {
        let len = self.abilities.len();
        let mut i: usize = 0;
        while i < len
            invariant
                0 <= i <= len,
                len == self.abilities.len(),
                self@.len() == old(self)@.len(),
                forall|j: int|
                    i <= j < len ==> #[trigger] self@[j] == old(self)@[j],
                forall|j: int|
                    0 <= j < i ==> #[trigger] self@[j] == tick_slot(old(self)@[j], delta as int),
            decreases len - i,
        {
            let ghost pre = self.abilities@;
            proof {
                assert(forall|j: int| 0 <= j < len ==> #[trigger] pre[j]@ == self@[j]);
            }
            let slot = &mut self.abilities[i];
            slot.tick(delta);
            proof {
                assert(pre[i as int]@ == old(self)@[i as int]);
                assert(self.abilities@[i as int]@ == tick_slot(old(self)@[i as int], delta as int));
                assert forall|j: int| 0 <= j < len && j != i implies #[trigger] self@[j] == pre[j]@ by {
                    assert(self.abilities@[j] == pre[j]);
                }
                assert(forall|j: int| 0 <= j < len ==> #[trigger] self@[j] == self.abilities@[j]@);
            }
            i = i + 1;
        }
    }

    /// The ability in slot `index`, if that slot exists and is ready;
    /// absence is the normal answer for an out-of-range index or a slot
    /// still cooling down, not an error.
    pub fn get_ready_ability(&self, index: usize) -> (found: Option<Ability>)
        ensures
            match found {
                Some(a) => index < self@.len() && slot_ready(self@[index as int])
                    && a@ == self@[index as int].ability,
                None => index >= self@.len() || !slot_ready(self@[index as int]),
            },
    {
        if index < self.abilities.len() {
            let slot = &self.abilities[index];
            if slot.is_ready() {
                Some(slot.ability.clone())
            } else {
                None
            }
        } else {
            None
        }
    }

    /// Uses the slot at `index` if it exists and is ready: the cooldown is
    /// imposed and `true` is returned.  Otherwise nothing changes.
    pub fn use_ability_at(&mut self, index: usize) -> (used: bool)
        ensures
            used == (index < old(self)@.len() && slot_ready(old(self)@[index as int])),
            used ==> final(self)@ == old(self)@.update(
                index as int,
                use_slot(old(self)@[index as int]),
            ),
            !used ==> final(self)@ == old(self)@,
    {
        if index < self.abilities.len() {
            let slot = &mut self.abilities[index];
            if slot.is_ready() {
                slot.use_ability();
                proof {
                    assert(self@ =~= old(self)@.update(
                        index as int,
                        use_slot(old(self)@[index as int]),
                    ));
                }
                return true;
            }
        }
        proof {
            assert(self@ =~= old(self)@);
        }
        false
    }
}

} // verus!

//! The turn state machine for one combat encounter.
//!
//! An encounter bundles the two combatants, the monster's cooldown-tracked
//! abilities, the current [`CombatState`] and the bounded [`CombatLog`].
//! One "advance" per discrete turn: the player's advance resolves a basic
//! attack against the monster, the monster's advance ticks its cooldowns,
//! asks the policy for an action, and applies it.  Each advance resolves,
//! mutates, logs and transitions as one atomic step, and `GameOver` is
//! terminal: any later advance is a no-op.

use vstd::prelude::*;

use crate::abilities::activate_meta;
use crate::abilities::tick_meta;
use crate::abilities::AbilityMetaView;
use crate::abilities::AbilityWithMeta;
use crate::combat::compute_attack;
use crate::combat::fits_i32;
use crate::combat::spec_damage;
use crate::log::log_add;
use crate::log::CombatLog;
use crate::model::Ability;
use crate::model::Character;
use crate::model::CharacterView;
use crate::policy::choose_monster_action;
use crate::policy::metas_of;
use crate::policy::monster_choice;
use crate::text::attack_line;
use crate::text::defeated_line;
use crate::text::format_attack_line;
use crate::text::format_defeated_line;
use crate::text::format_heal_line;
use crate::text::format_hp_line;
use crate::text::format_uses_on_line;
use crate::text::format_wins_line;
use crate::text::heal_line;
use crate::text::hp_line;
use crate::text::uses_on_line;
use crate::text::wins_line;

verus! {

/// Mathematical image of a [`CombatState`].
#[verifier::ext_equal]
pub ghost enum CombatStateView {
    PlayerTurn,
    MonsterTurn,
    GameOver { winner: Seq<char> },
}

/// Whose action is valid next.  `GameOver` is terminal: the machine defines
/// no transition out of it.
#[derive(Debug, PartialEq)]
pub enum CombatState {
    /// The encounter waits for the player's action.
    PlayerTurn,
    /// The monster acts next, on its own.
    MonsterTurn,
    /// The encounter is decided; `winner` names the surviving actor.
    GameOver { winner: String },
}

impl View for CombatState {
    type V = CombatStateView;

    open spec fn view(&self) -> CombatStateView {
        match self {
            CombatState::PlayerTurn => CombatStateView::PlayerTurn,
            CombatState::MonsterTurn => CombatStateView::MonsterTurn,
            CombatState::GameOver { winner } => CombatStateView::GameOver { winner: winner@ },
        }
    }
}

impl Clone for CombatState {
    fn clone(&self) -> (res: Self)
        ensures
            res@ == self@,
    {
        match self {
            CombatState::PlayerTurn => CombatState::PlayerTurn,
            CombatState::MonsterTurn => CombatState::MonsterTurn,
            CombatState::GameOver { winner } => CombatState::GameOver { winner: winner.clone() },
        }
    }
}

impl Default for CombatState {
    /// An encounter opens with the player to act.
    fn default() -> (state: Self)
        ensures
            state@ is PlayerTurn,
    {
        CombatState::PlayerTurn
    }
}

/// Mathematical image of an [`Encounter`].
#[verifier::ext_equal]
pub ghost struct EncounterView {
    pub player: CharacterView,
    pub monster: CharacterView,
    pub abilities: Seq<AbilityMetaView>,
    pub state: CombatStateView,
    pub log: Seq<Seq<char>>,
    pub log_capacity: nat,
}

/// One combat encounter: the single source of truth for whose action is
/// valid next, never shared across concurrent callers.
#[derive(Debug)]
pub struct Encounter {
    /// The player-controlled combatant.
    pub player: Character,
    /// The machine-controlled combatant.
    pub monster: Character,
    /// The monster's abilities with their cooldown state.
    pub monster_abilities: Vec<AbilityWithMeta>,
    /// Whose action is valid next.
    pub state: CombatState,
    /// The bounded event log.
    pub log: CombatLog,
}

impl View for Encounter {
    type V = EncounterView;

    open spec fn view(&self) -> EncounterView {
        EncounterView {
            player: self.player@,
            monster: self.monster@,
            abilities: metas_of(self.monster_abilities@),
            state: self.state@,
            log: self.log@,
            log_capacity: self.log.max_events as nat,
        }
    }
}

/// The marker line the log gets when the turn passes to the monster.
pub open spec fn monster_turn_marker() -> Seq<char> {
    "--- Monster's Turn ---"@
}

/// The marker line the log gets when the turn passes back to the player.
pub open spec fn player_turn_marker() -> Seq<char> {
    "--- Player's Turn ---"@
}

/// What the player's advance does, as a function of the encounter view.
/// Outside `PlayerTurn` it does nothing.  Otherwise the player's basic
/// attack (power 5) is resolved against the monster, the damage is applied,
/// the attack and the monster's hit points are logged, and the machine moves
/// to `MonsterTurn` — or to `GameOver` with the player as winner if the
/// monster fell, logging the defeat.
pub open spec fn player_turn_spec(e: EncounterView) -> EncounterView {
    if !(e.state is PlayerTurn) {
        e
    } else {
        let damage = spec_damage(e.player.attack, 5, e.monster.defense);
        let hp_after = e.monster.hp - damage;
        let monster = CharacterView { hp: hp_after, ..e.monster };
        let log = log_add(
            log_add(e.log, e.log_capacity, attack_line(e.player.name, e.monster.name, damage)),
            e.log_capacity,
            hp_line(e.monster.name, hp_after, e.monster.max_hp),
        );
        if hp_after <= 0 {
            EncounterView {
                monster,
                state: CombatStateView::GameOver { winner: e.player.name },
                log: log_add(log, e.log_capacity, defeated_line(e.monster.name)),
                ..e
            }
        } else {
            EncounterView {
                monster,
                state: CombatStateView::MonsterTurn,
                log: log_add(log, e.log_capacity, monster_turn_marker()),
                ..e
            }
        }
    }
}

/// The machine-width side condition of the player's advance: the basic
/// attack's arithmetic stays within `i32`.
pub open spec fn player_turn_fits(e: EncounterView) -> bool {
    e.state is PlayerTurn ==> {
        &&& fits_i32(e.player.attack + 5)
        &&& fits_i32(e.player.attack + 5 - e.monster.defense)
        &&& fits_i32(e.monster.hp - spec_damage(e.player.attack, 5, e.monster.defense))
    }
}

/// The first position whose ability carries `name`, if any.
pub open spec fn first_index_named(s: Seq<AbilityMetaView>, name: Seq<char>) -> Option<int>
    decreases s.len(),
{
    if s.len() == 0 {
        None
    } else if s[0].ability.name == name {
        Some(0int)
    } else {
        match first_index_named(s.drop_first(), name) {
            Some(k) => Some(k + 1),
            None => None,
        }
    }
}

/// Imposing the cooldown on the first ability named `name`: exactly what the
/// machine does after the policy picked an ability.  With no such ability,
/// nothing changes.
pub open spec fn activate_by_name(s: Seq<AbilityMetaView>, name: Seq<char>) -> Seq<AbilityMetaView> {
    match first_index_named(s, name) {
        Some(i) => s.update(i, activate_meta(s[i])),
        None => s,
    }
}

/// What the monster's advance does, as a function of the encounter view.
/// Outside `MonsterTurn` it does nothing.  Otherwise every cooldown ticks
/// down one turn, the policy picks an action among the now-ready abilities,
/// and that ability's cooldown is imposed (by name).  A heal is applied to
/// the monster itself, capped at its maximum health; an attack is resolved
/// against the player.  The action and the target's hit points are logged,
/// and the machine moves back to `PlayerTurn` — or to `GameOver` with the
/// monster as winner if the player is down, logging the defeat.
pub open spec fn monster_turn_spec(e: EncounterView) -> EncounterView {
    if !(e.state is MonsterTurn) {
        e
    } else {
        let ticked = e.abilities.map_values(|a: AbilityMetaView| tick_meta(a));
        let choice = monster_choice(e.monster, ticked);
        let abilities = activate_by_name(ticked, choice.name);
        if choice.power < 0 {
            let healed_raw = e.monster.hp - choice.power;
            let healed = if healed_raw > e.monster.max_hp {
                e.monster.max_hp
            } else {
                healed_raw
            };
            let monster = CharacterView { hp: healed, ..e.monster };
            let log = log_add(
                log_add(
                    e.log,
                    e.log_capacity,
                    heal_line(e.monster.name, choice.name, -choice.power),
                ),
                e.log_capacity,
                hp_line(e.monster.name, healed, e.monster.max_hp),
            );
            if e.player.hp <= 0 {
                EncounterView {
                    monster,
                    abilities,
                    state: CombatStateView::GameOver { winner: e.monster.name },
                    log: log_add(log, e.log_capacity, defeated_line(e.player.name)),
                    ..e
                }
            } else {
                EncounterView {
                    monster,
                    abilities,
                    state: CombatStateView::PlayerTurn,
                    log: log_add(log, e.log_capacity, player_turn_marker()),
                    ..e
                }
            }
        } else {
            let damage = spec_damage(e.monster.attack, choice.power, e.player.defense);
            let hp_after = e.player.hp - damage;
            let player = CharacterView { hp: hp_after, ..e.player };
            let log = log_add(
                log_add(
                    e.log,
                    e.log_capacity,
                    uses_on_line(e.monster.name, choice.name, e.player.name, damage),
                ),
                e.log_capacity,
                hp_line(e.player.name, hp_after, e.player.max_hp),
            );
            if hp_after <= 0 {
                EncounterView {
                    player,
                    abilities,
                    state: CombatStateView::GameOver { winner: e.monster.name },
                    log: log_add(log, e.log_capacity, defeated_line(e.player.name)),
                    ..e
                }
            } else {
                EncounterView {
                    player,
                    abilities,
                    state: CombatStateView::PlayerTurn,
                    log: log_add(log, e.log_capacity, player_turn_marker()),
                    ..e
                }
            }
        }
    }
}

/// The machine-width side condition of the monster's advance: the chosen
/// action's arithmetic stays within `i32`.
pub open spec fn monster_turn_fits(e: EncounterView) -> bool {
    e.state is MonsterTurn ==> {
        let ticked = e.abilities.map_values(|a: AbilityMetaView| tick_meta(a));
        let choice = monster_choice(e.monster, ticked);
        &&& choice.power < 0 ==> {
            &&& fits_i32(e.monster.hp - choice.power)
            &&& fits_i32(-choice.power)
        }
        &&& choice.power >= 0 ==> {
            &&& fits_i32(e.monster.attack + choice.power)
            &&& fits_i32(e.monster.attack + choice.power - e.player.defense)
            &&& fits_i32(e.player.hp - spec_damage(e.monster.attack, choice.power, e.player.defense))
        }
    }
}

/// Ticks every ability's cooldown down one turn.
fn tick_metas(abilities: &mut Vec<AbilityWithMeta>)
    ensures
        final(abilities)@.len() == old(abilities)@.len(),
        forall|i: int|
            0 <= i < old(abilities)@.len() ==> #[trigger] final(abilities)@[i]@ == tick_meta(
                old(abilities)@[i]@,
            ),
{
    let len = abilities.len();
    let mut i: usize = 0;
    while i < len
        invariant
            0 <= i <= len,
            len == abilities@.len() == old(abilities)@.len(),
            forall|j: int| i <= j < len ==> #[trigger] abilities@[j] == old(abilities)@[j],
            forall|j: int|
                0 <= j < i ==> #[trigger] abilities@[j]@ == tick_meta(old(abilities)@[j]@),
        decreases len - i,
    {
        let entry = &mut abilities[i];
        entry.tick_cooldown();
        i = i + 1;
    }
}

/// Skipping an unmatched prefix shifts the first matching position.
proof fn lemma_first_index_named_skip(s: Seq<AbilityMetaView>, name: Seq<char>, i: int)
    requires
        0 <= i <= s.len(),
        forall|j: int| 0 <= j < i ==> (#[trigger] s[j]).ability.name != name,
    ensures
        first_index_named(s, name) == match first_index_named(s.skip(i), name) {
            Some(k) => Some(k + i),
            None => None::<int>,
        },
    decreases i,
{
    if i > 0 {
        assert(s.drop_first() =~= s.skip(1));
        lemma_first_index_named_skip(s.skip(1), name, i - 1);
        assert(s.skip(1).skip(i - 1) =~= s.skip(i));
    } else {
        assert(s.skip(0) =~= s);
    }
}

/// Imposes the cooldown on the first ability named `name`, if there is one:
/// the machine's post-use book-keeping.
fn activate_named(abilities: &mut Vec<AbilityWithMeta>, name: &String)
    ensures
        metas_of(final(abilities)@) == activate_by_name(metas_of(old(abilities)@), name@),
{
    let ghost s = metas_of(abilities@);
    let len = abilities.len();
    let mut i: usize = 0;
    while i < len
        invariant
            0 <= i <= len,
            len == abilities@.len(),
            s == metas_of(abilities@),
            s == metas_of(old(abilities)@),
            s.len() == len,
            forall|j: int| 0 <= j < i ==> (#[trigger] s[j]).ability.name != name@,
        decreases len - i,
    {
        if abilities[i].ability.name == *name {
            proof {
                lemma_first_index_named_skip(s, name@, i as int);
                assert(s.skip(i as int)[0] == s[i as int]);
                assert(first_index_named(s, name@) == Some(i as int));
            }
            let ghost pre = abilities@;
            proof {
                assert(forall|j: int| 0 <= j < len ==> #[trigger] pre[j]@ == s[j]);
            }
            let entry = &mut abilities[i];
            entry.activate();
            proof {
                assert(abilities@[i as int]@ == activate_meta(s[i as int]));
                assert forall|j: int| 0 <= j < len && j != i implies #[trigger] abilities@[j]@
                    == s[j] by {
                    assert(abilities@[j] == pre[j]);
                }
                assert(metas_of(abilities@) =~= activate_by_name(s, name@));
            }
            return;
        }
        proof {
            assert(s[i as int] == abilities@[i as int]@);
        }
        i = i + 1;
    }
    proof {
        lemma_first_index_named_skip(s, name@, len as int);
        assert(s.skip(len as int).len() == 0);
        assert(first_index_named(s, name@) is None);
    }
}

impl Encounter {
    /// A fresh encounter: the two combatants, the monster's standard
    /// loadout (basic attack, powerful attack, heal), an empty log of the
    /// given capacity, and the player to act first.
    pub fn new(player: Character, monster: Character, log_capacity: usize) -> (e: Encounter)
        ensures
            e@.player == player@,
            e@.monster == monster@,
            e@.abilities.len() == 3,
            e@.abilities[0] == crate::abilities::spec_basic_attack_meta(),
            e@.abilities[1] == crate::abilities::spec_powerful_attack_meta(),
            e@.abilities[2] == crate::abilities::spec_heal_meta(),
            e@.state is PlayerTurn,
            e@.log == Seq::<Seq<char>>::empty(),
            e@.log_capacity == log_capacity,
    {
        let mut monster_abilities: Vec<AbilityWithMeta> = Vec::new();
        monster_abilities.push(AbilityWithMeta::basic_attack_meta());
        monster_abilities.push(AbilityWithMeta::powerful_attack_meta());
        monster_abilities.push(AbilityWithMeta::heal_meta());
        let e = Encounter {
            player,
            monster,
            monster_abilities,
            state: CombatState::PlayerTurn,
            log: CombatLog::new(log_capacity),
        };
        e
    }

    /// The player's advance: resolves the player's basic attack, applies and
    /// logs it, and passes the turn — a no-op in `MonsterTurn`, and forever
    /// a no-op once the encounter reached `GameOver`.
    pub fn player_attack(&mut self)
        requires
            player_turn_fits(old(self)@),
        ensures
            final(self)@ == player_turn_spec(old(self)@),
    {
        match &self.state {
            CombatState::PlayerTurn => {},
            _ => {
                return ;
            },
        }
        let ability = Ability::basic_attack();
        let event = compute_attack(&self.player, &self.monster, &ability);
        let attack_text = format_attack_line(
            self.player.name.as_str(),
            self.monster.name.as_str(),
            event.damage,
        );
        self.log.add(attack_text);
        self.monster.hp = event.defender_hp_after;
        let hp_text = format_hp_line(
            self.monster.name.as_str(),
            self.monster.hp,
            self.monster.stats.hp,
        );
        self.log.add(hp_text);
        if self.monster.hp <= 0 {
            let defeat_text = format_defeated_line(self.monster.name.as_str());
            self.log.add(defeat_text);
            self.state = CombatState::GameOver { winner: self.player.name.clone() };
        } else {
            self.state = CombatState::MonsterTurn;
            self.log.add("--- Monster's Turn ---".to_owned());
        }
        proof {
            assert(self@ =~~= player_turn_spec(old(self)@));
        }
    }

    /// The monster's advance: ticks the cooldowns, lets the policy choose,
    /// applies the chosen heal or attack (a heal is capped at the monster's
    /// maximum health), imposes the cooldown, logs, and passes the turn — a
    /// no-op in `PlayerTurn`, and forever a no-op once the encounter reached
    /// `GameOver`.
    pub fn monster_act(&mut self)
        requires
            monster_turn_fits(old(self)@),
        ensures
            final(self)@ == monster_turn_spec(old(self)@),
    {
        match &self.state {
            CombatState::MonsterTurn => {},
            _ => {
                return ;
            },
        }
        let ghost e = old(self)@;
        tick_metas(&mut self.monster_abilities);
        proof {
            assert(metas_of(self.monster_abilities@) =~= e.abilities.map_values(
                |a: AbilityMetaView| tick_meta(a),
            ));
        }
        let ghost ticked = metas_of(self.monster_abilities@);
        let ability = choose_monster_action(
            &self.monster,
            &self.player,
            self.monster_abilities.as_slice(),
        );
        let is_heal = ability.power < 0;
        if is_heal {
            let event = compute_attack(&self.monster, &self.monster, &ability);
            let capped = if event.defender_hp_after > self.monster.stats.hp {
                self.monster.stats.hp
            } else {
                event.defender_hp_after
            };
            self.monster.hp = capped;
            activate_named(&mut self.monster_abilities, &ability.name);
            let heal_amount = -event.damage;
            let heal_text = format_heal_line(
                self.monster.name.as_str(),
                ability.name.as_str(),
                heal_amount,
            );
            self.log.add(heal_text);
            let hp_text = format_hp_line(
                self.monster.name.as_str(),
                self.monster.hp,
                self.monster.stats.hp,
            );
            self.log.add(hp_text);
        } else {
            let event = compute_attack(&self.monster, &self.player, &ability);
            activate_named(&mut self.monster_abilities, &ability.name);
            let uses_text = format_uses_on_line(
                self.monster.name.as_str(),
                ability.name.as_str(),
                self.player.name.as_str(),
                event.damage,
            );
            self.log.add(uses_text);
            self.player.hp = event.defender_hp_after;
            let hp_text = format_hp_line(
                self.player.name.as_str(),
                self.player.hp,
                self.player.stats.hp,
            );
            self.log.add(hp_text);
        }
        if self.player.hp <= 0 {
            let defeat_text = format_defeated_line(self.player.name.as_str());
            self.log.add(defeat_text);
            self.state = CombatState::GameOver { winner: self.monster.name.clone() };
        } else {
            self.state = CombatState::PlayerTurn;
            self.log.add("--- Player's Turn ---".to_owned());
        }
        proof {
            assert(self@ =~~= monster_turn_spec(old(self)@));
        }
    }
}

/// The banner line opening the game-over announcement.
pub open spec fn game_over_marker() -> Seq<char> {
    "=== GAME OVER ==="@
}

/// The closing hint of the game-over announcement.
pub open spec fn exit_note() -> Seq<char> {
    "Close the window to exit."@
}

/// What announcing the result does: in `GameOver` the banner, the winner
/// line and the closing hint are logged; in any other state nothing happens.
pub open spec fn announce_spec(e: EncounterView) -> EncounterView {
    if e.state is GameOver {
        let log = log_add(
            log_add(
                log_add(e.log, e.log_capacity, game_over_marker()),
                e.log_capacity,
                wins_line(e.state->winner),
            ),
            e.log_capacity,
            exit_note(),
        );
        EncounterView { log, ..e }
    } else {
        e
    }
}

/// An element-wise copy of the monster's ability list.
fn cloned_abilities(abilities: &Vec<AbilityWithMeta>) -> (copy: Vec<AbilityWithMeta>)
    ensures
        copy@.len() == abilities@.len(),
        forall|i: int| 0 <= i < abilities@.len() ==> #[trigger] copy@[i]@ == abilities@[i]@,
{
    let len = abilities.len();
    let mut copy: Vec<AbilityWithMeta> = Vec::new();
    let mut i: usize = 0;
    while i < len
        invariant
            0 <= i <= len,
            len == abilities@.len(),
            copy@.len() == i,
            forall|j: int| 0 <= j < i ==> #[trigger] copy@[j]@ == abilities@[j]@,
        decreases len - i,
    {
        copy.push(abilities[i].clone());
        i = i + 1;
    }
    copy
}

impl Encounter {
    /// Announces a decided encounter in the log: the game-over banner, the
    /// winner, and the closing hint.  Returns whether anything was announced
    /// — in `PlayerTurn` or `MonsterTurn` the call does nothing.  Meant to
    /// be called once by the driver when it observes `GameOver`.
    pub fn announce_game_over(&mut self) -> (announced: bool)
        ensures
            final(self)@ == announce_spec(old(self)@),
            announced == (old(self)@.state is GameOver),
    {
        let winner = match &self.state {
            CombatState::GameOver { winner } => winner.clone(),
            _ => {
                return false;
            },
        };
        self.log.add("=== GAME OVER ===".to_owned());
        let wins_text = format_wins_line(winner.as_str());
        self.log.add(wins_text);
        self.log.add("Close the window to exit.".to_owned());
        proof {
            assert(self@ =~~= announce_spec(old(self)@));
        }
        true
    }

    /// Whether the player's advance is safe on this machine: evaluates
    /// [`player_turn_fits`] so a driver can test it before calling
    /// [`Encounter::player_attack`].
    pub fn player_turn_safe(&self) -> (safe: bool)
        ensures
            safe == player_turn_fits(self@),
    {
        match &self.state {
            CombatState::PlayerTurn => {},
            _ => {
                return true;
            },
        }
        let attack: i64 = self.player.stats.attack as i64;
        let defense: i64 = self.monster.stats.defense as i64;
        let hp: i64 = self.monster.hp as i64;
        let low: i64 = i32::MIN as i64;
        let high: i64 = i32::MAX as i64;
        let raw = attack + 5;
        let mitigated = raw - defense;
        let damage = if mitigated < 1 {
            1
        } else {
            mitigated
        };
        let hp_after = hp - damage;
        low <= raw && raw <= high && low <= mitigated && mitigated <= high && low <= hp_after
            && hp_after <= high
    }

    /// Whether the monster's advance is safe on this machine: evaluates
    /// [`monster_turn_fits`] — including the action the policy would pick
    /// after the cooldown tick — so a driver can test it before calling
    /// [`Encounter::monster_act`].
    pub fn monster_turn_safe(&self) -> (safe: bool)
        ensures
            safe == monster_turn_fits(self@),
    {
        match &self.state {
            CombatState::MonsterTurn => {},
            _ => {
                return true;
            },
        }
        let mut simulated = cloned_abilities(&self.monster_abilities);
        tick_metas(&mut simulated);
        proof {
            assert(metas_of(simulated@) =~= self@.abilities.map_values(
                |a: AbilityMetaView| tick_meta(a),
            ));
        }
        let choice = choose_monster_action(&self.monster, &self.player, simulated.as_slice());
        let low: i64 = i32::MIN as i64;
        let high: i64 = i32::MAX as i64;
        let power: i64 = choice.power as i64;
        if choice.power < 0 {
            let healed = (self.monster.hp as i64) - power;
            let negated = -power;
            low <= healed && healed <= high && low <= negated && negated <= high
        } else {
            let attack: i64 = self.monster.stats.attack as i64;
            let defense: i64 = self.player.stats.defense as i64;
            let hp: i64 = self.player.hp as i64;
            let raw = attack + power;
            let mitigated = raw - defense;
            let damage = if mitigated < 1 {
                1
            } else {
                mitigated
            };
            let hp_after = hp - damage;
            low <= raw && raw <= high && low <= mitigated && mitigated <= high && low <= hp_after
                && hp_after <= high
        }
    }
}

/// Law: a non-lethal player advance always hands the turn to the monster; a
/// lethal one ends the encounter with the player as winner.
pub proof fn lemma_player_turn_alternation(e: EncounterView)
    requires
        e.state is PlayerTurn,
    ensures
        e.monster.hp - spec_damage(e.player.attack, 5, e.monster.defense) > 0 ==> player_turn_spec(
            e,
        ).state is MonsterTurn,
        e.monster.hp - spec_damage(e.player.attack, 5, e.monster.defense) <= 0 ==> player_turn_spec(
            e,
        ).state == (CombatStateView::GameOver { winner: e.player.name }),
{
}

/// Law: a non-lethal monster advance always hands the turn back to the
/// player; a lethal one (or one taken with the player already down) ends the
/// encounter with the monster as winner.
pub proof fn lemma_monster_turn_alternation(e: EncounterView)
    requires
        e.state is MonsterTurn,
    ensures
        monster_turn_spec(e).player.hp > 0 ==> monster_turn_spec(e).state is PlayerTurn,
        monster_turn_spec(e).player.hp <= 0 ==> monster_turn_spec(e).state == (
        CombatStateView::GameOver { winner: e.monster.name }),
{
}

/// Law: `GameOver` is permanent — both advances leave the encounter exactly
/// as it is.
pub proof fn lemma_game_over_is_final(e: EncounterView)
    requires
        e.state is GameOver,
    ensures
        player_turn_spec(e) == e,
        monster_turn_spec(e) == e,
{
}

} // verus!

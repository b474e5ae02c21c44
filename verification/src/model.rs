//! Characters, their statistics, and the ability catalog.

use vstd::prelude::*;

verus! {

/// Base combat statistics of a character: maximum health, offensive power
/// and damage reduction.  The values are plain integers; negative values are
/// representable (adversarial set-ups are allowed) but the constructors of
/// [`Character`] never produce them.
#[derive(Debug)]
pub struct Stats {
    /// Maximum hit points.
    pub hp: i32,
    /// Attack power, added to an ability's power when damage is computed.
    pub attack: i32,
    /// Damage reduction, subtracted from incoming damage (a hit still deals
    /// at least 1 damage, however large the defense).
    pub defense: i32,
}

impl Clone for Stats {
    fn clone(&self) -> (res: Self)
        ensures
            res == *self,
    {
        Stats { hp: self.hp, attack: self.attack, defense: self.defense }
    }
}

/// Mathematical image of a [`Character`]: the name as a character sequence
/// and the numeric fields as unbounded integers.
pub ghost struct CharacterView {
    pub name: Seq<char>,
    pub hp: int,
    pub max_hp: int,
    pub attack: int,
    pub defense: int,
}

/// A combatant: a display name, the current hit points, and the immutable
/// base statistics.  `hp` starts at `stats.hp`, moves only through applied
/// combat events, and may go negative; `hp <= 0` is the defeat signal.
#[derive(Debug)]
pub struct Character {
    /// Display name.
    pub name: String,
    /// Current hit points; zero or below means defeated.
    pub hp: i32,
    /// Base statistics, fixed once the character is constructed.
    pub stats: Stats,
}

impl View for Character {
    type V = CharacterView;

    open spec fn view(&self) -> CharacterView {
        CharacterView {
            name: self.name@,
            hp: self.hp as int,
            max_hp: self.stats.hp as int,
            attack: self.stats.attack as int,
            defense: self.stats.defense as int,
        }
    }
}

impl Clone for Character {
    fn clone(&self) -> (res: Self)
        ensures
            res@ == self@,
    {
        Character { name: self.name.clone(), hp: self.hp, stats: self.stats.clone() }
    }
}

impl Character {
    /// A fresh player: 30 hit points, attack 10, defense 2.
    pub fn new_player(name: &str) -> (c: Character)
        ensures
            c@.name == name@,
            c@.hp == 30,
            c@.max_hp == 30,
            c@.attack == 10,
            c@.defense == 2,
    {
        Character {
            name: name.to_owned(),
            hp: 30,
            stats: Stats { hp: 30, attack: 10, defense: 2 },
        }
    }

    /// A fresh monster: 20 hit points, attack 6, defense 1.
    pub fn new_monster(name: &str) -> (c: Character)
        ensures
            c@.name == name@,
            c@.hp == 20,
            c@.max_hp == 20,
            c@.attack == 6,
            c@.defense == 1,
    {
        Character {
            name: name.to_owned(),
            hp: 20,
            stats: Stats { hp: 20, attack: 6, defense: 1 },
        }
    }
}

/// Mathematical image of an [`Ability`].
pub ghost struct AbilityView {
    pub name: Seq<char>,
    pub power: int,
}

/// A combat action: a display name and a power value.  Non-negative power is
/// an attack (mitigated by the defender's defense); negative power is a heal
/// (applied directly, bypassing defense).
#[derive(Debug)]
pub struct Ability {
    /// Display name.
    pub name: String,
    /// Base power; negative values heal.
    pub power: i32,
}

impl View for Ability {
    type V = AbilityView;

    open spec fn view(&self) -> AbilityView {
        AbilityView { name: self.name@, power: self.power as int }
    }
}

impl Clone for Ability {
    fn clone(&self) -> (res: Self)
        ensures
            res@ == self@,
    {
        Ability { name: self.name.clone(), power: self.power }
    }
}

impl Ability {
    /// The always-available standard attack, power 5.
    pub fn basic_attack() -> (a: Ability)
        ensures
            a@.name == "Basic Attack"@,
            a@.power == 5,
    {
        Ability { name: "Basic Attack".to_owned(), power: 5 }
    }

    /// A heavy attack, power 12.
    pub fn powerful_attack() -> (a: Ability)
        ensures
            a@.name == "Powerful Attack"@,
            a@.power == 12,
    {
        Ability { name: "Powerful Attack".to_owned(), power: 12 }
    }

    /// A self-heal: power -8, i.e. it restores 8 hit points.
    pub fn heal() -> (a: Ability)
        ensures
            a@.name == "Heal"@,
            a@.power == -8,
    {
        Ability { name: "Heal".to_owned(), power: -8 }
    }

    /// A light attack, power 3.
    pub fn quick_strike() -> (a: Ability)
        ensures
            a@.name == "Quick Strike"@,
            a@.power == 3,
    {
        Ability { name: "Quick Strike".to_owned(), power: 3 }
    }
}

} // verus!

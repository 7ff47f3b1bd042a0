use vstd::prelude::*;

use crate::character::{Race, Role};

verus! {

/// Combat adjustments that a race and a role give.
#[derive(Clone, Copy, Debug, PartialEq, Eq, Structural)]
pub struct Modifiers {
    pub attack_bonus: i32,
    pub defense_bonus: i32,
    pub crit_chance_bonus: i32,
    pub initiative_bonus: i32,
}

/// The part of the table that the role gives.
pub open spec fn role_modifiers(role: Role) -> Modifiers {
    match role {
        Role::Warrior => Modifiers {
            attack_bonus: 3,
            defense_bonus: 2,
            crit_chance_bonus: 0,
            initiative_bonus: 0,
        },
        Role::Mage => Modifiers {
            attack_bonus: 0,
            defense_bonus: -1i32,
            crit_chance_bonus: 10,
            initiative_bonus: 0,
        },
        Role::Rogue => Modifiers {
            attack_bonus: 0,
            defense_bonus: 0,
            crit_chance_bonus: 5,
            initiative_bonus: 3,
        },
        Role::Acolyte => Modifiers {
            attack_bonus: 0,
            defense_bonus: 2,
            crit_chance_bonus: 0,
            initiative_bonus: 2,
        },
    }
}

/// The smaller part of the table that the race gives.
pub open spec fn race_modifiers(race: Race) -> Modifiers {
    match race {
        Race::Human => Modifiers {
            attack_bonus: 1,
            defense_bonus: 1,
            crit_chance_bonus: 1,
            initiative_bonus: 1,
        },
        Race::Elf => Modifiers {
            attack_bonus: 0,
            defense_bonus: 0,
            crit_chance_bonus: 0,
            initiative_bonus: 2,
        },
        Race::Dwarf => Modifiers {
            attack_bonus: 0,
            defense_bonus: 2,
            crit_chance_bonus: 0,
            initiative_bonus: 0,
        },
    }
}

/// The modifiers of a race and role: the two parts added field by field.
pub open spec fn modifiers_of(race: Race, role: Role) -> Modifiers {
    let a = role_modifiers(role);
    let b = race_modifiers(race);
    Modifiers {
        attack_bonus: (a.attack_bonus + b.attack_bonus) as i32,
        defense_bonus: (a.defense_bonus + b.defense_bonus) as i32,
        crit_chance_bonus: (a.crit_chance_bonus + b.crit_chance_bonus) as i32,
        initiative_bonus: (a.initiative_bonus + b.initiative_bonus) as i32,
    }
}

/// Every entry of the table lies in these bounds.
pub open spec fn modifiers_bounded(m: Modifiers) -> bool {
    &&& 0 <= m.attack_bonus <= 10
    &&& -2 <= m.defense_bonus <= 10
    &&& 0 <= m.crit_chance_bonus <= 20
    &&& 0 <= m.initiative_bonus <= 10
}

/// Looks up the modifiers of a race and role. Every one of the twelve pairs
/// has its own entry.
pub fn resolve(race: Race, role: Role) -> (m: Modifiers)
    ensures
        m == modifiers_of(race, role),
        modifiers_bounded(m),
{
    let (attack_bonus, defense_bonus, crit_chance_bonus, initiative_bonus): (i32, i32, i32, i32) =
        match (race, role) {
        (Race::Human, Role::Warrior) => (4, 3, 1, 1),
        (Race::Human, Role::Mage) => (1, 0, 11, 1),
        (Race::Human, Role::Rogue) => (1, 1, 6, 4),
        (Race::Human, Role::Acolyte) => (1, 3, 1, 3),
        (Race::Elf, Role::Warrior) => (3, 2, 0, 2),
        (Race::Elf, Role::Mage) => (0, -1, 10, 2),
        (Race::Elf, Role::Rogue) => (0, 0, 5, 5),
        (Race::Elf, Role::Acolyte) => (0, 2, 0, 4),
        (Race::Dwarf, Role::Warrior) => (3, 4, 0, 0),
        (Race::Dwarf, Role::Mage) => (0, 1, 10, 0),
        (Race::Dwarf, Role::Rogue) => (0, 2, 5, 3),
        (Race::Dwarf, Role::Acolyte) => (0, 4, 0, 2),
    };
    Modifiers { attack_bonus, defense_bonus, crit_chance_bonus, initiative_bonus }
}

} // verus!

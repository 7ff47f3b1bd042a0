use vstd::prelude::*;

use crate::error::ValidationError;

verus! {

/// The highest level a character can reach.
pub const MAX_LEVEL: u32 = 100;

/// The lowest value of any attribute.
pub const MIN_ATTRIBUTE: u32 = 1;

/// The highest value of any attribute for a level-one character; each level
/// above the first raises it by one.
pub const BASE_ATTRIBUTE_CAP: u32 = 20;

/// A character's class.
#[derive(Clone, Copy, Debug, PartialEq, Eq, Structural)]
pub enum Role {
    Warrior,
    Mage,
    Rogue,
    Acolyte,
}

/// A character's race.
#[derive(Clone, Copy, Debug, PartialEq, Eq, Structural)]
pub enum Race {
    Human,
    Elf,
    Dwarf,
}

impl Role {
    pub open spec fn label_spec(self) -> Seq<char> {
        match self {
            Role::Warrior => "Warrior"@,
            Role::Mage => "Mage"@,
            Role::Rogue => "Rogue"@,
            Role::Acolyte => "Acolyte"@,
        }
    }

    /// The role's display name.
    pub fn label(&self) -> (r: &'static str)
        ensures
            r@ == self.label_spec(),
    {
        proof {
            reveal_strlit("Warrior");
            reveal_strlit("Mage");
            reveal_strlit("Rogue");
            reveal_strlit("Acolyte");
        }
        match self {
            Role::Warrior => "Warrior",
            Role::Mage => "Mage",
            Role::Rogue => "Rogue",
            Role::Acolyte => "Acolyte",
        }
    }

    /// Whether the role's attacks draw on intelligence as well as strength.
    pub open spec fn is_caster(self) -> bool {
        self is Mage || self is Acolyte
    }
}

impl Race {
    pub open spec fn label_spec(self) -> Seq<char> {
        match self {
            Race::Human => "Human"@,
            Race::Elf => "Elf"@,
            Race::Dwarf => "Dwarf"@,
        }
    }

    /// The race's display name.
    pub fn label(&self) -> (r: &'static str)
        ensures
            r@ == self.label_spec(),
    {
        proof {
            reveal_strlit("Human");
            reveal_strlit("Elf");
            reveal_strlit("Dwarf");
        }
        match self {
            Race::Human => "Human",
            Race::Elf => "Elf",
            Race::Dwarf => "Dwarf",
        }
    }
}

/// The role picked by a menu number: 1 to 4 in the order Warrior, Mage,
/// Rogue, Acolyte; anything else, or no number at all, gives Warrior.
pub open spec fn role_of_choice(choice: Option<u32>) -> Role {
    match choice {
        Some(2) => Role::Mage,
        Some(3) => Role::Rogue,
        Some(4) => Role::Acolyte,
        _ => Role::Warrior,
    }
}

/// The race picked by a menu number: 1 to 3 in the order Human, Elf, Dwarf;
/// anything else, or no number at all, gives Human.
pub open spec fn race_of_choice(choice: Option<u32>) -> Race {
    match choice {
        Some(2) => Race::Elf,
        Some(3) => Race::Dwarf,
        _ => Race::Human,
    }
}

pub fn role_from_choice(choice: Option<u32>) -> (r: Role)
    ensures
        r == role_of_choice(choice),
{
    match choice {
        Some(1) => Role::Warrior,
        Some(2) => Role::Mage,
        Some(3) => Role::Rogue,
        Some(4) => Role::Acolyte,
        _ => Role::Warrior,
    }
}

pub fn race_from_choice(choice: Option<u32>) -> (r: Race)
    ensures
        r == race_of_choice(choice),
{
    match choice {
        Some(1) => Race::Human,
        Some(2) => Race::Elf,
        Some(3) => Race::Dwarf,
        _ => Race::Human,
    }
}

/// A player character. The encounter engine only reads it.
#[derive(Clone, Debug)]
pub struct Character {
    pub name: String,
    pub level: u32,
    pub race: Race,
    pub role: Role,
    pub strength: u32,
    pub dexterity: u32,
    pub constitution: u32,
    pub intelligence: u32,
}

/// The highest attribute value allowed at `level`.
pub open spec fn attribute_cap(level: u32) -> int {
    BASE_ATTRIBUTE_CAP + level - 1
}

pub open spec fn attribute_in_range(value: u32, level: u32) -> bool {
    MIN_ATTRIBUTE <= value <= attribute_cap(level)
}

impl Character {
    pub open spec fn level_in_range(&self) -> bool {
        1 <= self.level <= MAX_LEVEL
    }

    pub open spec fn attributes_in_range(&self) -> bool {
        &&& attribute_in_range(self.strength, self.level)
        &&& attribute_in_range(self.dexterity, self.level)
        &&& attribute_in_range(self.constitution, self.level)
        &&& attribute_in_range(self.intelligence, self.level)
    }

    /// A character the engine accepts: a non-empty name, a level from 1 to
    /// the cap, and every attribute within its level's range.
    pub open spec fn is_valid(&self) -> bool {
        &&& self.name@.len() > 0
        &&& self.level_in_range()
        &&& self.attributes_in_range()
    }

    /// The first rule that an invalid character breaks, checked in the order
    /// name, level, attributes.
    pub open spec fn first_violation(&self) -> ValidationError {
        if self.name@.len() == 0 {
            ValidationError::EmptyName
        } else if !self.level_in_range() {
            ValidationError::InvalidLevel
        } else {
            ValidationError::AttributeOutOfRange
        }
    }

    pub fn validate(&self) -> (r: Result<(), ValidationError>)
        ensures
            r is Ok <==> self.is_valid(),
            r is Err ==> r->Err_0 == self.first_violation(),
    {
        if self.name.as_str().is_empty() {
            return Err(ValidationError::EmptyName);
        }
        if self.level < 1 || self.level > MAX_LEVEL {
            return Err(ValidationError::InvalidLevel);
        }
        let cap = BASE_ATTRIBUTE_CAP + self.level - 1;
        if self.strength < MIN_ATTRIBUTE || self.strength > cap
            || self.dexterity < MIN_ATTRIBUTE || self.dexterity > cap
            || self.constitution < MIN_ATTRIBUTE || self.constitution > cap
            || self.intelligence < MIN_ATTRIBUTE || self.intelligence > cap
        {
            return Err(ValidationError::AttributeOutOfRange);
        }
        Ok(())
    }
}

/// A fresh level-one character with every attribute at its minimum.
pub fn create_character(name: String, race: Race, role: Role) -> (c: Character)
    ensures
        c.name@ == name@,
        c.level == 1,
        c.race == race,
        c.role == role,
        c.strength == MIN_ATTRIBUTE,
        c.dexterity == MIN_ATTRIBUTE,
        c.constitution == MIN_ATTRIBUTE,
        c.intelligence == MIN_ATTRIBUTE,
{
    Character {
        name,
        level: 1,
        race,
        role,
        strength: MIN_ATTRIBUTE,
        dexterity: MIN_ATTRIBUTE,
        constitution: MIN_ATTRIBUTE,
        intelligence: MIN_ATTRIBUTE,
    }
}

} // verus!

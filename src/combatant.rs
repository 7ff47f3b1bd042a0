use vstd::prelude::*;

use crate::character::{Character, Role};
use crate::error::ValidationError;
use crate::modifiers::{modifiers_of, resolve};
use crate::rng::{draw, next_state, Rng};

verus! {

pub const HERO_BASE_HEALTH: u32 = 20;
pub const HEALTH_PER_CONSTITUTION: u32 = 5;
pub const HERO_BASE_ATTACK: u32 = 2;
pub const ATTACK_PER_STRENGTH: u32 = 2;
pub const ATTACK_PER_INTELLIGENCE: u32 = 1;
pub const HERO_BASE_DEFENSE: u32 = 2;
pub const HERO_BASE_CRIT: u32 = 5;

/// Crit chances are percentages.
pub const MAX_CRIT_CHANCE: u32 = 100;

pub const MONSTER_BASE_HEALTH: u32 = 20;
pub const MONSTER_HEALTH_PER_TIER: u32 = 10;
pub const MONSTER_BASE_ATTACK: u32 = 5;
pub const MONSTER_ATTACK_PER_TIER: u32 = 3;
pub const MONSTER_BASE_DEFENSE: u32 = 1;
pub const MONSTER_DEFENSE_PER_TIER: u32 = 2;
pub const MONSTER_CRIT: u32 = 5;
pub const MONSTER_BASE_INITIATIVE: u32 = 4;
pub const MONSTER_INITIATIVE_PER_TIER: u32 = 2;

/// A monster's health and attack fall between this percentage of its tier's
/// baseline and this plus `MONSTER_SPREAD_PERCENT`.
pub const MONSTER_LOW_PERCENT: u32 = 80;
pub const MONSTER_SPREAD_PERCENT: u32 = 41;

/// The deepest tier a monster can come from.
pub const MAX_TIER: u32 = 100;

/// No derived stat exceeds this.
pub const MAX_STAT: u32 = 1_000_000;

/// Which side of an encounter a combatant fights on.
#[derive(Clone, Copy, Debug, PartialEq, Eq, Structural)]
pub enum Side {
    Hero,
    Monster,
}

/// The fixed numbers of a combatant: everything but its current health.
#[derive(Clone, Copy, Debug, PartialEq, Eq, Structural)]
pub struct Stats {
    pub max_health: u32,
    pub attack_power: u32,
    pub defense: u32,
    pub crit_chance: u32,
    pub initiative: u32,
}

/// A fighter in one encounter, built from a character or from a monster tier.
#[derive(Clone, Debug)]
pub struct Combatant {
    pub display_name: String,
    pub max_health: u32,
    pub current_health: u32,
    pub attack_power: u32,
    pub defense: u32,
    pub crit_chance: u32,
    pub initiative: u32,
    pub side: Side,
}

pub open spec fn stats_wf(s: Stats) -> bool {
    &&& 0 < s.max_health <= MAX_STAT
    &&& s.attack_power <= MAX_STAT
    &&& s.defense <= MAX_STAT
    &&& s.crit_chance <= MAX_CRIT_CHANCE
    &&& s.initiative <= MAX_STAT
}

/// The stats derived from a valid character.
pub open spec fn hero_stats(c: Character) -> Stats {
    let m = modifiers_of(c.race, c.role);
    let magic = if c.role.is_caster() {
        c.intelligence * ATTACK_PER_INTELLIGENCE
    } else {
        0
    };
    let crit = HERO_BASE_CRIT + c.dexterity + m.crit_chance_bonus;
    Stats {
        max_health: (HERO_BASE_HEALTH + c.constitution * HEALTH_PER_CONSTITUTION) as u32,
        attack_power: (HERO_BASE_ATTACK + c.strength * ATTACK_PER_STRENGTH + magic
            + m.attack_bonus) as u32,
        defense: (HERO_BASE_DEFENSE + c.constitution / 2 + m.defense_bonus) as u32,
        crit_chance: (if crit > MAX_CRIT_CHANCE {
            MAX_CRIT_CHANCE as int
        } else {
            crit
        }) as u32,
        initiative: (c.dexterity + m.initiative_bonus) as u32,
    }
}

/// `base` scaled by `percent` per cent, rounded down.
#[verifier::opaque]
pub open spec fn scaled(base: int, percent: int) -> int {
    base * percent / 100
}

/// The stats of a monster of `tier` whose health and attack rolls were
/// `health_roll` and `attack_roll`, each below `MONSTER_SPREAD_PERCENT`.
pub open spec fn monster_stats(tier: u32, health_roll: u32, attack_roll: u32) -> Stats {
    Stats {
        max_health: scaled(
            MONSTER_BASE_HEALTH + MONSTER_HEALTH_PER_TIER * tier,
            MONSTER_LOW_PERCENT + health_roll,
        ) as u32,
        attack_power: scaled(
            MONSTER_BASE_ATTACK + MONSTER_ATTACK_PER_TIER * tier,
            MONSTER_LOW_PERCENT + attack_roll,
        ) as u32,
        defense: (MONSTER_BASE_DEFENSE + MONSTER_DEFENSE_PER_TIER * tier) as u32,
        crit_chance: MONSTER_CRIT,
        initiative: (MONSTER_BASE_INITIATIVE + MONSTER_INITIATIVE_PER_TIER * tier) as u32,
    }
}

/// The two draws a monster is generated from, taken from a source in state `s`.
pub open spec fn monster_rolls(s: u64) -> (u32, u32) {
    (draw(next_state(s), MONSTER_SPREAD_PERCENT), draw(next_state(next_state(s)), MONSTER_SPREAD_PERCENT))
}

/// The monster of `tier` generated from a source in state `s`.
pub open spec fn monster_from_state(tier: u32, s: u64) -> Stats {
    monster_stats(tier, monster_rolls(s).0, monster_rolls(s).1)
}

pub open spec fn tier_in_range(tier: u32) -> bool {
    1 <= tier <= MAX_TIER
}

/// `base` scaled by `percent` per cent, rounded down.
fn scale(base: u32, percent: u32) -> (r: u32)
    requires
        base <= MAX_STAT,
        percent <= 200,
    ensures
        r == scaled(base as int, percent as int),
{
    proof {
        reveal(scaled);
        assert(base * percent <= MAX_STAT * 200) by (nonlinear_arith)
            requires
                base <= MAX_STAT,
                percent <= 200,
        ;
    }
    ((base as u64 * percent as u64) / 100) as u32
}

proof fn lemma_scaled_bounds(base: int, percent: int)
    requires
        0 <= base <= 1020,
        80 <= percent <= 121,
    ensures
        0 <= scaled(base, percent) <= 1020 * 121 / 100,
        base >= 30 ==> scaled(base, percent) >= 24,
{
    reveal(scaled);
    assert(0 <= base * percent <= 1020 * 121) by (nonlinear_arith)
        requires
            0 <= base <= 1020,
            80 <= percent <= 121,
    ;
    if base >= 30 {
        assert(30 * 80 <= base * percent) by (nonlinear_arith)
            requires
                30 <= base,
                80 <= percent,
        ;
    }
}

/// A valid character's stats are in bounds.
pub proof fn lemma_hero_stats_wf(c: Character)
    requires
        c.is_valid(),
    ensures
        stats_wf(hero_stats(c)),
        hero_stats(c).max_health == HERO_BASE_HEALTH + c.constitution * HEALTH_PER_CONSTITUTION,
{
}

/// A monster of a valid tier has stats in bounds, whatever the source's state.
pub proof fn lemma_monster_stats_wf(tier: u32, s: u64)
    requires
        tier_in_range(tier),
    ensures
        stats_wf(monster_from_state(tier, s)),
{
    reveal(draw);
    let (h, a) = monster_rolls(s);
    lemma_scaled_bounds(
        MONSTER_BASE_HEALTH + MONSTER_HEALTH_PER_TIER * tier,
        MONSTER_LOW_PERCENT + h,
    );
    lemma_scaled_bounds(
        MONSTER_BASE_ATTACK + MONSTER_ATTACK_PER_TIER * tier,
        MONSTER_LOW_PERCENT + a,
    );
}

impl Combatant {
    pub open spec fn stats(&self) -> Stats {
        Stats {
            max_health: self.max_health,
            attack_power: self.attack_power,
            defense: self.defense,
            crit_chance: self.crit_chance,
            initiative: self.initiative,
        }
    }

    /// The stats are in bounds and the current health does not exceed the
    /// maximum.
    pub open spec fn wf(&self) -> bool {
        &&& stats_wf(self.stats())
        &&& self.current_health <= self.max_health
    }

    /// Builds the hero of an encounter, at full health.
    pub fn from_character(c: &Character) -> (r: Result<Combatant, ValidationError>)
        ensures
            r is Ok <==> c.is_valid(),
            r is Err ==> r->Err_0 == c.first_violation(),
            r is Ok ==> {
                let h = r->Ok_0;
                &&& h.wf()
                &&& h.stats() == hero_stats(*c)
                &&& h.current_health == h.max_health
                &&& h.side == Side::Hero
                &&& h.display_name@ == c.name@
            },
    {
        match c.validate() {
            Err(e) => {
                return Err(e);
            },
            Ok(()) => {},
        }
        let m = resolve(c.race, c.role);
        let magic: u32 = match c.role {
            Role::Mage | Role::Acolyte => c.intelligence * ATTACK_PER_INTELLIGENCE,
            Role::Warrior | Role::Rogue => 0,
        };
        let max_health = HERO_BASE_HEALTH + c.constitution * HEALTH_PER_CONSTITUTION;
        let attack_power = ((HERO_BASE_ATTACK + c.strength * ATTACK_PER_STRENGTH + magic) as i64
            + m.attack_bonus as i64) as u32;
        let defense = ((HERO_BASE_DEFENSE + c.constitution / 2) as i64
            + m.defense_bonus as i64) as u32;
        let crit = (HERO_BASE_CRIT + c.dexterity) as i64 + m.crit_chance_bonus as i64;
        let crit_chance: u32 = if crit > MAX_CRIT_CHANCE as i64 {
            MAX_CRIT_CHANCE
        } else {
            crit as u32
        };
        let initiative = (c.dexterity as i64 + m.initiative_bonus as i64) as u32;
        Ok(
            Combatant {
                display_name: c.name.clone(),
                max_health,
                current_health: max_health,
                attack_power,
                defense,
                crit_chance,
                initiative,
                side: Side::Hero,
            },
        )
    }

    /// Generates a monster of `tier`, at full health, taking two draws from
    /// `rng` (health first, then attack). An invalid tier leaves `rng` as it
    /// was.
    pub fn from_monster_tier(tier: u32, rng: &mut Rng) -> (r: Result<Combatant, ValidationError>)
        ensures
            r is Ok <==> tier_in_range(tier),
            r is Err ==> r->Err_0 == ValidationError::InvalidTier && *final(rng) == *old(rng),
            r is Ok ==> {
                let m = r->Ok_0;
                &&& m.wf()
                &&& m.stats() == monster_from_state(tier, old(rng).state)
                &&& m.current_health == m.max_health
                &&& m.side == Side::Monster
                &&& final(rng).state == next_state(next_state(old(rng).state))
            },
    {
        if tier < 1 || tier > MAX_TIER {
            return Err(ValidationError::InvalidTier);
        }
        let health_roll = rng.next_below(MONSTER_SPREAD_PERCENT);
        let attack_roll = rng.next_below(MONSTER_SPREAD_PERCENT);
        let health_base = MONSTER_BASE_HEALTH + MONSTER_HEALTH_PER_TIER * tier;
        let attack_base = MONSTER_BASE_ATTACK + MONSTER_ATTACK_PER_TIER * tier;
        let max_health = scale(health_base, MONSTER_LOW_PERCENT + health_roll);
        let attack_power = scale(attack_base, MONSTER_LOW_PERCENT + attack_roll);
        proof {
            lemma_scaled_bounds(health_base as int, (MONSTER_LOW_PERCENT + health_roll) as int);
            lemma_scaled_bounds(attack_base as int, (MONSTER_LOW_PERCENT + attack_roll) as int);
        }
        Ok(
            Combatant {
                display_name: "Monster".to_owned(),
                max_health,
                current_health: max_health,
                attack_power,
                defense: MONSTER_BASE_DEFENSE + MONSTER_DEFENSE_PER_TIER * tier,
                crit_chance: MONSTER_CRIT,
                initiative: MONSTER_BASE_INITIATIVE + MONSTER_INITIATIVE_PER_TIER * tier,
                side: Side::Monster,
            },
        )
    }

    /// The health left after taking `amount` damage: never below zero.
    pub open spec fn health_after(health: u32, amount: u32) -> u32 {
        if amount >= health {
            0
        } else {
            (health - amount) as u32
        }
    }

    /// Takes `amount` damage. Health stops at zero.
    pub fn apply_damage(&mut self, amount: u32)
        ensures
            final(self).current_health == Self::health_after(old(self).current_health, amount),
            final(self).stats() == old(self).stats(),
            final(self).display_name == old(self).display_name,
            final(self).side == old(self).side,
    {
        if amount >= self.current_health {
            self.current_health = 0;
        } else {
            self.current_health = self.current_health - amount;
        }
    }

    pub fn is_defeated(&self) -> (r: bool)
        ensures
            r == (self.current_health == 0),
    {
        self.current_health == 0
    }
}

} // verus!

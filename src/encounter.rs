use vstd::prelude::*;

use crate::character::Character;
use crate::combatant::{
    hero_stats, monster_from_state, tier_in_range, Combatant, Side, Stats, MAX_CRIT_CHANCE, MAX_STAT,
};
use crate::error::ValidationError;
use crate::rng::{draw, next_state, Rng};

verus! {

/// An encounter that reaches this many turns ends there.
pub const MAX_TURNS: u32 = 100;

/// Crit rolls are drawn below this bound and succeed below the crit chance.
pub const CRIT_ROLL_BOUND: u32 = 100;

/// How an encounter ended, seen from the hero's side.
#[derive(Clone, Copy, Debug, PartialEq, Eq, Structural)]
pub enum Outcome {
    Victory,
    Defeat,
    Fled,
}

/// One entry of an encounter's log.
#[derive(Clone, Copy, Debug, PartialEq, Eq, Structural)]
pub enum TurnEvent {
    /// `actor` hit for `damage`, which took `dealt` health from the target
    /// and left it `target_health`.
    Attack { turn: u32, actor: Side, damage: u32, dealt: u32, critical: bool, target_health: u32 },
    /// The hero fled.
    Fled { turn: u32 },
    /// A flee was requested while `actor` was acting; it was refused and the
    /// turn went on as an attack.
    IllegalAction { turn: u32, actor: Side },
}

/// The state of an encounter as numbers and a log.
pub struct FightView {
    pub hero_health: u32,
    pub monster_health: u32,
    pub turn: u32,
    pub hero_acts: bool,
    pub rng: u64,
    pub outcome: Option<Outcome>,
    pub log: Seq<TurnEvent>,
}

/// The damage of one hit: attack above defense, at least one, doubled on a
/// critical hit.
pub open spec fn hit_damage(attack: u32, defense: u32, critical: bool) -> u32 {
    let raw: int = if attack > defense {
        attack - defense
    } else {
        1
    };
    (if critical {
        2 * raw
    } else {
        raw
    }) as u32
}

/// Whether the draw from state `s` is a critical hit at `crit_chance` per cent.
pub open spec fn is_critical(s: u64, crit_chance: u32) -> bool {
    draw(s, CRIT_ROLL_BOUND) < crit_chance
}

/// How an encounter that ran out of turns ends: the hero gets away when its
/// share of health left is strictly larger than the monster's, and is
/// defeated otherwise.
pub open spec fn cap_outcome(
    hero_health: u32,
    hero_max: u32,
    monster_health: u32,
    monster_max: u32,
) -> Outcome {
    if hero_health > 0 && hero_health * monster_max > monster_health * hero_max {
        Outcome::Fled
    } else {
        Outcome::Defeat
    }
}

/// The outcome, if any, after damage: the monster's death first, then the
/// hero's, then the turn cap.
pub open spec fn settle(hero: Stats, monster: Stats, s: FightView) -> Option<Outcome> {
    if s.monster_health == 0 {
        Some(Outcome::Victory)
    } else if s.hero_health == 0 {
        Some(Outcome::Defeat)
    } else if s.turn >= MAX_TURNS {
        Some(cap_outcome(s.hero_health, hero.max_health, s.monster_health, monster.max_health))
    } else {
        None
    }
}

/// The state after one turn in which a flee was requested or not.
pub open spec fn next_view(hero: Stats, monster: Stats, s: FightView, flee: bool) -> FightView {
    let rng = next_state(s.rng);
    let turn = (s.turn + 1) as u32;
    if s.hero_acts {
        if flee {
            FightView {
                turn,
                rng,
                outcome: Some(Outcome::Fled),
                log: s.log.push(TurnEvent::Fled { turn }),
                ..s
            }
        } else {
            let critical = is_critical(rng, hero.crit_chance);
            let damage = hit_damage(hero.attack_power, monster.defense, critical);
            let left = Combatant::health_after(s.monster_health, damage);
            let event = TurnEvent::Attack {
                turn,
                actor: Side::Hero,
                damage,
                dealt: (s.monster_health - left) as u32,
                critical,
                target_health: left,
            };
            let t = FightView {
                monster_health: left,
                turn,
                rng,
                hero_acts: false,
                log: s.log.push(event),
                ..s
            };
            FightView { outcome: settle(hero, monster, t), ..t }
        }
    } else {
        let log = if flee {
            s.log.push(TurnEvent::IllegalAction { turn, actor: Side::Monster })
        } else {
            s.log
        };
        let critical = is_critical(rng, monster.crit_chance);
        let damage = hit_damage(monster.attack_power, hero.defense, critical);
        let left = Combatant::health_after(s.hero_health, damage);
        let event = TurnEvent::Attack {
            turn,
            actor: Side::Monster,
            damage,
            dealt: (s.hero_health - left) as u32,
            critical,
            target_health: left,
        };
        let t = FightView {
            hero_health: left,
            turn,
            rng,
            hero_acts: true,
            log: log.push(event),
            ..s
        };
        FightView { outcome: settle(hero, monster, t), ..t }
    }
}

/// Whether `plan` asks for a flee on the turn after `turn` turns have passed.
pub open spec fn flee_planned(plan: Seq<bool>, turn: u32) -> bool {
    turn < plan.len() && plan[turn as int]
}

/// The state in which an encounter that goes on from `s`, following `plan`,
/// ends.
pub open spec fn play(hero: Stats, monster: Stats, s: FightView, plan: Seq<bool>) -> FightView
    decreases MAX_TURNS - s.turn,
{
    if s.outcome is Some || s.turn >= MAX_TURNS {
        s
    } else {
        play(hero, monster, next_view(hero, monster, s, flee_planned(plan, s.turn)), plan)
    }
}

/// The state before the first turn. The hero acts first unless the monster
/// has the higher initiative.
pub open spec fn opening(
    hero: Stats,
    monster: Stats,
    hero_health: u32,
    monster_health: u32,
    seed: u64,
) -> FightView {
    FightView {
        hero_health,
        monster_health,
        turn: 0,
        hero_acts: hero.initiative >= monster.initiative,
        rng: seed,
        outcome: None,
        log: Seq::empty(),
    }
}

/// A state the engine can be in: healths within their maximums, the turn
/// within the cap, and an unfinished encounter below the cap with both sides
/// standing.
pub open spec fn view_wf(hero: Stats, monster: Stats, s: FightView) -> bool {
    &&& s.hero_health <= hero.max_health
    &&& s.monster_health <= monster.max_health
    &&& s.turn <= MAX_TURNS
    &&& s.outcome is None ==> {
        &&& s.turn < MAX_TURNS
        &&& s.hero_health > 0
        &&& s.monster_health > 0
    }
}

/// The end state of an encounter of a character against a monster of `tier`,
/// with one source seeded by `seed` for the monster and then the fight.
pub open spec fn encounter_of(c: Character, tier: u32, seed: u64, plan: Seq<bool>) -> FightView {
    let hero = hero_stats(c);
    let monster = monster_from_state(tier, seed);
    play(
        hero,
        monster,
        opening(hero, monster, hero.max_health, monster.max_health, next_state(next_state(seed))),
        plan,
    )
}

/// The record of a finished encounter.
pub struct EncounterResult {
    pub outcome: Outcome,
    pub turns_elapsed: u32,
    pub final_hero_health: u32,
    pub final_monster_health: u32,
    pub log: Vec<TurnEvent>,
}

impl EncounterResult {
    /// The result reports the end state `v`.
    pub open spec fn reports(&self, v: FightView) -> bool {
        &&& v.outcome == Some(self.outcome)
        &&& self.turns_elapsed == v.turn
        &&& self.final_hero_health == v.hero_health
        &&& self.final_monster_health == v.monster_health
        &&& self.log@ == v.log
    }
}

/// A running encounter between a hero and a monster.
pub struct Encounter {
    pub hero: Combatant,
    pub monster: Combatant,
    pub rng: Rng,
    pub turn: u32,
    pub hero_acts: bool,
    pub outcome: Option<Outcome>,
    pub log: Vec<TurnEvent>,
}

proof fn lemma_share_fits(health: u32, max: u32)
    requires
        health <= MAX_STAT,
        max <= MAX_STAT,
    ensures
        health * max <= MAX_STAT * MAX_STAT,
{
    assert(health * max <= MAX_STAT * MAX_STAT) by (nonlinear_arith)
        requires
            health <= MAX_STAT,
            max <= MAX_STAT,
    ;
}

fn hit(attack: u32, defense: u32, critical: bool) -> (r: u32)
    requires
        attack <= MAX_STAT,
    ensures
        r == hit_damage(attack, defense, critical),
{
    let raw = if attack > defense {
        attack - defense
    } else {
        1
    };
    if critical {
        2 * raw
    } else {
        raw
    }
}

/// Whether two combatants can start an encounter: stats in bounds and both
/// with health left.
pub open spec fn ready(hero: Combatant, monster: Combatant) -> bool {
    &&& hero.wf()
    &&& monster.wf()
    &&& hero.current_health > 0
    &&& monster.current_health > 0
}

impl Encounter {
    pub open spec fn view(&self) -> FightView {
        FightView {
            hero_health: self.hero.current_health,
            monster_health: self.monster.current_health,
            turn: self.turn,
            hero_acts: self.hero_acts,
            rng: self.rng.state,
            outcome: self.outcome,
            log: self.log@,
        }
    }

    pub open spec fn wf(&self) -> bool {
        &&& self.hero.wf()
        &&& self.monster.wf()
        &&& view_wf(self.hero.stats(), self.monster.stats(), self.view())
    }

    /// Sets up an encounter whose random draws start from `seed`.
    pub fn new(hero: Combatant, monster: Combatant, seed: u64) -> (r: Result<
        Encounter,
        ValidationError,
    >)
        ensures
            r is Ok <==> ready(hero, monster),
            r is Err ==> r->Err_0 == ValidationError::InvalidCombatant,
            r is Ok ==> {
                let e = r->Ok_0;
                &&& e.wf()
                &&& e.hero == hero
                &&& e.monster == monster
                &&& e.view() == opening(
                    hero.stats(),
                    monster.stats(),
                    hero.current_health,
                    monster.current_health,
                    seed,
                )
            },
    {
        if !Self::fit(&hero) || !Self::fit(&monster) {
            return Err(ValidationError::InvalidCombatant);
        }
        let hero_acts = hero.initiative >= monster.initiative;
        let e = Encounter {
            hero,
            monster,
            rng: Rng::seeded(seed),
            turn: 0,
            hero_acts,
            outcome: None,
            log: Vec::new(),
        };
        proof {
            assert(e.view().log =~= Seq::<TurnEvent>::empty());
        }
        Ok(e)
    }

    fn fit(c: &Combatant) -> (r: bool)
        ensures
            r == (c.wf() && c.current_health > 0),
    {
        0 < c.current_health && c.current_health <= c.max_health && c.max_health <= MAX_STAT
            && c.attack_power <= MAX_STAT && c.defense <= MAX_STAT && c.crit_chance
            <= MAX_CRIT_CHANCE && c.initiative <= MAX_STAT
    }

    fn settle_now(&self) -> (r: Option<Outcome>)
        requires
            self.hero.wf(),
            self.monster.wf(),
        ensures
            r == settle(self.hero.stats(), self.monster.stats(), self.view()),
    {
        if self.monster.current_health == 0 {
            Some(Outcome::Victory)
        } else if self.hero.current_health == 0 {
            Some(Outcome::Defeat)
        } else if self.turn >= MAX_TURNS {
            proof {
                lemma_share_fits(self.hero.current_health, self.monster.max_health);
                lemma_share_fits(self.monster.current_health, self.hero.max_health);
            }
            let hero_share = self.hero.current_health as u64 * self.monster.max_health as u64;
            let monster_share = self.monster.current_health as u64 * self.hero.max_health as u64;
            if hero_share > monster_share {
                Some(Outcome::Fled)
            } else {
                Some(Outcome::Defeat)
            }
        } else {
            None
        }
    }

    /// Plays one turn. A flee request ends the encounter on the hero's turn;
    /// on the monster's turn it is logged as refused and the monster attacks.
    pub fn step(&mut self, flee_requested: bool)
        requires
            old(self).wf(),
            old(self).outcome is None,
        ensures
            final(self).wf(),
            final(self).view() == next_view(
                old(self).hero.stats(),
                old(self).monster.stats(),
                old(self).view(),
                flee_requested,
            ),
            final(self).hero.stats() == old(self).hero.stats(),
            final(self).monster.stats() == old(self).monster.stats(),
    {
        let roll = self.rng.next_below(CRIT_ROLL_BOUND);
        self.turn = self.turn + 1;
        let turn = self.turn;
        if self.hero_acts {
            if flee_requested {
                self.log.push(TurnEvent::Fled { turn });
                self.outcome = Some(Outcome::Fled);
                return;
            }
            let critical = roll < self.hero.crit_chance;
            let damage = hit(self.hero.attack_power, self.monster.defense, critical);
            let before = self.monster.current_health;
            self.monster.apply_damage(damage);
            let left = self.monster.current_health;
            self.log.push(
                TurnEvent::Attack {
                    turn,
                    actor: Side::Hero,
                    damage,
                    dealt: before - left,
                    critical,
                    target_health: left,
                },
            );
            self.hero_acts = false;
        } else {
            if flee_requested {
                self.log.push(TurnEvent::IllegalAction { turn, actor: Side::Monster });
            }
            let critical = roll < self.monster.crit_chance;
            let damage = hit(self.monster.attack_power, self.hero.defense, critical);
            let before = self.hero.current_health;
            self.hero.apply_damage(damage);
            let left = self.hero.current_health;
            self.log.push(
                TurnEvent::Attack {
                    turn,
                    actor: Side::Monster,
                    damage,
                    dealt: before - left,
                    critical,
                    target_health: left,
                },
            );
            self.hero_acts = true;
        }
        self.outcome = self.settle_now();
    }

    /// Plays turns until the encounter ends; the flee request of each turn is
    /// the entry of `plan` at the number of turns already played, and no
    /// request where `plan` has no entry.
    pub fn run(&mut self, plan: &Vec<bool>)
        requires
            old(self).wf(),
        ensures
            final(self).wf(),
            final(self).outcome is Some,
            old(self).outcome is None ==> final(self).turn > old(self).turn,
            final(self).view() == play(
                old(self).hero.stats(),
                old(self).monster.stats(),
                old(self).view(),
                plan@,
            ),
            final(self).hero.stats() == old(self).hero.stats(),
            final(self).monster.stats() == old(self).monster.stats(),
    {
        let ghost hero = self.hero.stats();
        let ghost monster = self.monster.stats();
        let ghost end = play(hero, monster, self.view(), plan@);
        let ghost start = self.view();
        while self.outcome.is_none()
            invariant
                self.wf(),
                self.turn >= start.turn,
                self.turn == start.turn ==> self.outcome == start.outcome,
                self.hero.stats() == hero,
                self.monster.stats() == monster,
                play(hero, monster, self.view(), plan@) == end,
            decreases MAX_TURNS - self.turn,
        {
            let flee = (self.turn as usize) < plan.len() && plan[self.turn as usize];
            self.step(flee);
        }
    }

    /// The record of a finished encounter.
    pub fn report(self) -> (r: EncounterResult)
        requires
            self.outcome is Some,
        ensures
            r.reports(self.view()),
    {
        EncounterResult {
            outcome: self.outcome.unwrap(),
            turns_elapsed: self.turn,
            final_hero_health: self.hero.current_health,
            final_monster_health: self.monster.current_health,
            log: self.log,
        }
    }
}

/// Fights a prebuilt hero against a prebuilt monster, with random draws from
/// `seed` and flee requests from `plan`.
pub fn fight(hero: Combatant, monster: Combatant, seed: u64, plan: &Vec<bool>) -> (r: Result<
    EncounterResult,
    ValidationError,
>)
    ensures
        r is Ok <==> ready(hero, monster),
        r is Err ==> r->Err_0 == ValidationError::InvalidCombatant,
        r is Ok ==> r->Ok_0.reports(
            play(
                hero.stats(),
                monster.stats(),
                opening(
                    hero.stats(),
                    monster.stats(),
                    hero.current_health,
                    monster.current_health,
                    seed,
                ),
                plan@,
            ),
        ),
        r is Ok ==> 1 <= r->Ok_0.turns_elapsed <= MAX_TURNS,
{
    let mut e = match Encounter::new(hero, monster, seed) {
        Ok(e) => e,
        Err(err) => {
            return Err(err);
        },
    };
    e.run(plan);
    Ok(e.report())
}

/// Fights `character` against a monster of `tier`. One source seeded by
/// `seed` generates the monster and then rolls every turn; `plan` holds the
/// flee requests. The character is checked first, then the tier.
pub fn start_encounter(character: &Character, tier: u32, seed: u64, plan: &Vec<bool>) -> (r: Result<
    EncounterResult,
    ValidationError,
>)
    ensures
        r is Ok <==> character.is_valid() && tier_in_range(tier),
        r is Err ==> r->Err_0 == (if !character.is_valid() {
            character.first_violation()
        } else {
            ValidationError::InvalidTier
        }),
        r is Ok ==> r->Ok_0.reports(encounter_of(*character, tier, seed, plan@)),
        r is Ok ==> 1 <= r->Ok_0.turns_elapsed <= MAX_TURNS,
{
    let hero = match Combatant::from_character(character) {
        Ok(h) => h,
        Err(err) => {
            return Err(err);
        },
    };
    let mut rng = Rng::seeded(seed);
    let monster = match Combatant::from_monster_tier(tier, &mut rng) {
        Ok(m) => m,
        Err(err) => {
            return Err(err);
        },
    };
    fight(hero, monster, rng.state, plan)
}

} // verus!

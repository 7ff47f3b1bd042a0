use rpgworld::character::{create_character, Character, Race, Role};
use rpgworld::combatant::{Combatant, Side};
use rpgworld::encounter::{fight, start_encounter, Encounter, Outcome, TurnEvent, MAX_TURNS};
use rpgworld::error::ValidationError;

fn character(race: Race, role: Role, str_: u32, dex: u32, con: u32, int: u32) -> Character {
    Character {
        name: String::from("Aria"),
        level: 1,
        race,
        role,
        strength: str_,
        dexterity: dex,
        constitution: con,
        intelligence: int,
    }
}

fn hero_damage(log: &[TurnEvent]) -> u32 {
    log.iter()
        .map(|e| match e {
            TurnEvent::Attack { actor: Side::Hero, dealt, .. } => *dealt,
            _ => 0,
        })
        .sum()
}

fn attack(turn: u32, actor: Side, damage: u32, dealt: u32, critical: bool, left: u32) -> TurnEvent {
    TurnEvent::Attack { turn, actor, damage, dealt, critical, target_health: left }
}

fn combatant(side: Side, max: u32, current: u32, attack: u32, defense: u32, crit: u32, ini: u32) -> Combatant {
    Combatant {
        display_name: String::from("X"),
        max_health: max,
        current_health: current,
        attack_power: attack,
        defense,
        crit_chance: crit,
        initiative: ini,
        side,
    }
}

#[test]
fn human_warrior_beats_tier_one_monster_with_seed_42() {
    let c = character(Race::Human, Role::Warrior, 10, 8, 10, 5);
    let r = start_encounter(&c, 1, 42, &vec![]).unwrap();
    assert_eq!(r.outcome, Outcome::Victory);
    assert!(r.turns_elapsed <= 6);
    assert_eq!(r.turns_elapsed, 3);
    assert_eq!(r.final_hero_health, 68);
    assert_eq!(r.final_monster_health, 0);
    assert_eq!(
        r.log,
        vec![
            attack(1, Side::Hero, 23, 23, false, 2),
            attack(2, Side::Monster, 2, 2, true, 68),
            attack(3, Side::Hero, 23, 2, false, 0),
        ]
    );
}

#[test]
fn weak_mage_is_defeated() {
    let c = character(Race::Elf, Role::Mage, 1, 1, 1, 1);
    let r = start_encounter(&c, 3, 7, &vec![]).unwrap();
    assert_eq!(r.outcome, Outcome::Defeat);
    assert_eq!(r.turns_elapsed, 3);
    assert_eq!(r.final_hero_health, 0);
    assert_eq!(r.final_monster_health, 48);
    assert_eq!(
        r.log,
        vec![
            attack(1, Side::Monster, 14, 14, false, 11),
            attack(2, Side::Hero, 1, 1, false, 48),
            attack(3, Side::Monster, 14, 11, false, 0),
        ]
    );
}

#[test]
fn flee_on_monster_turn_is_logged_and_refused() {
    let c = character(Race::Human, Role::Warrior, 10, 8, 10, 5);
    let r = start_encounter(&c, 1, 42, &vec![false, true]).unwrap();
    assert_eq!(r.outcome, Outcome::Victory);
    assert_eq!(
        r.log,
        vec![
            attack(1, Side::Hero, 23, 23, false, 2),
            TurnEvent::IllegalAction { turn: 2, actor: Side::Monster },
            attack(2, Side::Monster, 2, 2, true, 68),
            attack(3, Side::Hero, 23, 2, false, 0),
        ]
    );
}

#[test]
fn flee_on_hero_turn_ends_encounter() {
    let c = character(Race::Human, Role::Warrior, 10, 8, 10, 5);
    let r = start_encounter(&c, 1, 42, &vec![false, false, true]).unwrap();
    assert_eq!(r.outcome, Outcome::Fled);
    assert_eq!(r.turns_elapsed, 3);
    assert_eq!(r.final_monster_health, 2);
    assert_eq!(r.log.len(), 3);
    assert_eq!(r.log[2], TurnEvent::Fled { turn: 3 });
}

#[test]
fn flee_on_first_turn_deals_no_damage() {
    let c = character(Race::Human, Role::Warrior, 10, 8, 10, 5);
    let r = start_encounter(&c, 1, 42, &vec![true]).unwrap();
    assert_eq!(r.outcome, Outcome::Fled);
    assert_eq!(r.turns_elapsed, 1);
    assert_eq!(r.final_hero_health, 70);
    assert_eq!(r.final_monster_health, 25);
    assert_eq!(r.log, vec![TurnEvent::Fled { turn: 1 }]);
}

#[test]
fn same_seed_gives_same_log() {
    let c = character(Race::Dwarf, Role::Rogue, 7, 9, 6, 4);
    let plan = vec![false, true, false, true];
    let a = start_encounter(&c, 4, 2024, &plan).unwrap();
    let b = start_encounter(&c, 4, 2024, &plan).unwrap();
    assert_eq!(a.log, b.log);
    assert_eq!(a.outcome, b.outcome);
    assert_eq!(a.turns_elapsed, b.turns_elapsed);
}

#[test]
fn more_strength_deals_no_less_damage() {
    let weak = character(Race::Dwarf, Role::Rogue, 1, 5, 5, 5);
    let strong = character(Race::Dwarf, Role::Rogue, 20, 5, 5, 5);
    let a = start_encounter(&weak, 8, 99, &vec![]).unwrap();
    let b = start_encounter(&strong, 8, 99, &vec![]).unwrap();
    assert_eq!(hero_damage(&a.log), 2);
    assert_eq!(hero_damage(&b.log), 50);
    assert_eq!(a.final_monster_health, 115);
    assert_eq!(b.final_monster_health, 67);
    for s in 1..=20u32 {
        let lower = character(Race::Elf, Role::Acolyte, s, 6, 6, 6);
        let higher = character(Race::Elf, Role::Acolyte, 20, 6, 6, 6);
        let x = start_encounter(&lower, 6, 5, &vec![]).unwrap();
        let y = start_encounter(&higher, 6, 5, &vec![]).unwrap();
        assert!(hero_damage(&x.log) <= hero_damage(&y.log));
    }
}

#[test]
fn every_encounter_ends_within_the_cap() {
    for seed in 0..40u64 {
        for tier in 1..=5u32 {
            let c = character(Race::Human, Role::Mage, 3, 4, 5, 6);
            let r = start_encounter(&c, tier, seed, &vec![]).unwrap();
            assert!(r.turns_elapsed >= 1 && r.turns_elapsed <= MAX_TURNS);
            assert!(matches!(r.outcome, Outcome::Victory | Outcome::Defeat | Outcome::Fled));
        }
    }
}

#[test]
fn turn_cap_lets_hero_flee_when_healthier() {
    let hero = combatant(Side::Hero, 1000, 1000, 0, 100, 0, 10);
    let monster = combatant(Side::Monster, 2000, 1000, 0, 100, 0, 0);
    let r = fight(hero, monster, 5, &vec![]).unwrap();
    assert_eq!(r.outcome, Outcome::Fled);
    assert_eq!(r.turns_elapsed, 100);
    assert_eq!(r.final_hero_health, 950);
    assert_eq!(r.final_monster_health, 950);
    assert_eq!(r.log.len(), 100);
}

#[test]
fn turn_cap_is_defeat_on_equal_shares() {
    let hero = combatant(Side::Hero, 1000, 1000, 0, 100, 0, 10);
    let monster = combatant(Side::Monster, 1000, 1000, 0, 100, 0, 0);
    let r = fight(hero, monster, 5, &vec![]).unwrap();
    assert_eq!(r.outcome, Outcome::Defeat);
    assert_eq!(r.turns_elapsed, 100);
}

#[test]
fn fight_rejects_combatant_without_health() {
    let hero = combatant(Side::Hero, 10, 0, 5, 1, 0, 1);
    let monster = combatant(Side::Monster, 10, 10, 5, 1, 0, 1);
    assert_eq!(fight(hero, monster, 1, &vec![]).err(), Some(ValidationError::InvalidCombatant));
    let hero = combatant(Side::Hero, 10, 10, 5, 1, 101, 1);
    let monster = combatant(Side::Monster, 10, 10, 5, 1, 0, 1);
    assert_eq!(fight(hero, monster, 1, &vec![]).err(), Some(ValidationError::InvalidCombatant));
}

#[test]
fn invalid_inputs_are_rejected_before_any_turn() {
    let mut c = character(Race::Human, Role::Warrior, 10, 8, 10, 5);
    assert_eq!(start_encounter(&c, 0, 1, &vec![]).err(), Some(ValidationError::InvalidTier));
    assert_eq!(start_encounter(&c, 101, 1, &vec![]).err(), Some(ValidationError::InvalidTier));
    c.strength = 21;
    assert_eq!(
        start_encounter(&c, 0, 1, &vec![]).err(),
        Some(ValidationError::AttributeOutOfRange)
    );
    let empty = create_character(String::new(), Race::Elf, Role::Rogue);
    assert_eq!(start_encounter(&empty, 1, 1, &vec![]).err(), Some(ValidationError::EmptyName));
}

#[test]
fn encounter_steps_one_turn_at_a_time() {
    let hero = combatant(Side::Hero, 50, 50, 12, 2, 0, 5);
    let monster = combatant(Side::Monster, 30, 30, 7, 4, 0, 9);
    let mut e = Encounter::new(hero, monster, 11).unwrap();
    assert!(!e.hero_acts);
    e.step(true);
    assert_eq!(e.turn, 1);
    assert_eq!(e.outcome, None);
    assert_eq!(e.hero.current_health, 45);
    assert_eq!(
        e.log,
        vec![
            TurnEvent::IllegalAction { turn: 1, actor: Side::Monster },
            attack(1, Side::Monster, 5, 5, false, 45),
        ]
    );
    e.step(false);
    assert_eq!(e.monster.current_health, 22);
    e.run(&vec![]);
    assert_eq!(e.outcome, Some(Outcome::Victory));
    let r = e.report();
    assert_eq!(r.outcome, Outcome::Victory);
    assert_eq!(r.final_monster_health, 0);
}

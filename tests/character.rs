use rpgworld::character::{create_character, race_from_choice, role_from_choice, Character, Race, Role};
use rpgworld::combatant::{Combatant, Side};
use rpgworld::error::ValidationError;
use rpgworld::modifiers::{resolve, Modifiers};
use rpgworld::rng::Rng;

fn character(level: u32, str_: u32, dex: u32, con: u32, int: u32) -> Character {
    Character {
        name: String::from("Brom"),
        level,
        race: Race::Human,
        role: Role::Warrior,
        strength: str_,
        dexterity: dex,
        constitution: con,
        intelligence: int,
    }
}

fn m(a: i32, d: i32, c: i32, i: i32) -> Modifiers {
    Modifiers { attack_bonus: a, defense_bonus: d, crit_chance_bonus: c, initiative_bonus: i }
}

#[test]
fn modifier_table_covers_every_pair() {
    assert_eq!(resolve(Race::Human, Role::Warrior), m(4, 3, 1, 1));
    assert_eq!(resolve(Race::Human, Role::Mage), m(1, 0, 11, 1));
    assert_eq!(resolve(Race::Human, Role::Rogue), m(1, 1, 6, 4));
    assert_eq!(resolve(Race::Human, Role::Acolyte), m(1, 3, 1, 3));
    assert_eq!(resolve(Race::Elf, Role::Warrior), m(3, 2, 0, 2));
    assert_eq!(resolve(Race::Elf, Role::Mage), m(0, -1, 10, 2));
    assert_eq!(resolve(Race::Elf, Role::Rogue), m(0, 0, 5, 5));
    assert_eq!(resolve(Race::Elf, Role::Acolyte), m(0, 2, 0, 4));
    assert_eq!(resolve(Race::Dwarf, Role::Warrior), m(3, 4, 0, 0));
    assert_eq!(resolve(Race::Dwarf, Role::Mage), m(0, 1, 10, 0));
    assert_eq!(resolve(Race::Dwarf, Role::Rogue), m(0, 2, 5, 3));
    assert_eq!(resolve(Race::Dwarf, Role::Acolyte), m(0, 4, 0, 2));
}

#[test]
fn hero_stats_follow_attributes_and_modifiers() {
    let h = Combatant::from_character(&character(1, 10, 8, 10, 5)).unwrap();
    assert_eq!(h.max_health, 70);
    assert_eq!(h.current_health, 70);
    assert_eq!(h.attack_power, 26);
    assert_eq!(h.defense, 10);
    assert_eq!(h.crit_chance, 14);
    assert_eq!(h.initiative, 9);
    assert_eq!(h.side, Side::Hero);
    assert_eq!(h.display_name, "Brom");
}

#[test]
fn casters_add_intelligence_to_attack() {
    let mut c = character(1, 1, 1, 1, 1);
    c.race = Race::Elf;
    c.role = Role::Mage;
    let h = Combatant::from_character(&c).unwrap();
    assert_eq!(h.max_health, 25);
    assert_eq!(h.attack_power, 5);
    assert_eq!(h.defense, 1);
    assert_eq!(h.crit_chance, 16);
    assert_eq!(h.initiative, 3);
}

#[test]
fn crit_chance_stops_at_one_hundred() {
    let mut c = character(100, 1, 119, 1, 1);
    c.role = Role::Mage;
    let h = Combatant::from_character(&c).unwrap();
    assert_eq!(h.crit_chance, 100);
}

#[test]
fn fresh_heroes_are_at_full_positive_health() {
    for race in [Race::Human, Race::Elf, Race::Dwarf] {
        for role in [Role::Warrior, Role::Mage, Role::Rogue, Role::Acolyte] {
            for v in [1u32, 7, 20] {
                let mut c = character(1, v, v, v, v);
                c.race = race;
                c.role = role;
                let h = Combatant::from_character(&c).unwrap();
                assert!(0 < h.current_health && h.current_health == h.max_health);
            }
        }
    }
}

#[test]
fn validation_errors_in_order() {
    let mut c = character(0, 0, 1, 1, 1);
    c.name = String::new();
    assert_eq!(c.validate(), Err(ValidationError::EmptyName));
    c.name = String::from("N");
    assert_eq!(c.validate(), Err(ValidationError::InvalidLevel));
    c.level = 101;
    assert_eq!(c.validate(), Err(ValidationError::InvalidLevel));
    c.level = 1;
    assert_eq!(c.validate(), Err(ValidationError::AttributeOutOfRange));
    c.strength = 20;
    assert_eq!(c.validate(), Ok(()));
    c.intelligence = 21;
    assert_eq!(c.validate(), Err(ValidationError::AttributeOutOfRange));
    c.level = 2;
    assert_eq!(c.validate(), Ok(()));
    assert_eq!(
        Combatant::from_character(&character(1, 1, 1, 0, 1)).err(),
        Some(ValidationError::AttributeOutOfRange)
    );
}

#[test]
fn monster_from_tier_one_seed_42() {
    let mut rng = Rng::seeded(42);
    let m = Combatant::from_monster_tier(1, &mut rng).unwrap();
    assert_eq!(m.max_health, 25);
    assert_eq!(m.current_health, 25);
    assert_eq!(m.attack_power, 8);
    assert_eq!(m.defense, 3);
    assert_eq!(m.crit_chance, 5);
    assert_eq!(m.initiative, 6);
    assert_eq!(m.side, Side::Monster);
    assert_eq!(rng.state, 4159066171780167020);
}

#[test]
fn invalid_tier_leaves_source_unchanged() {
    let mut rng = Rng::seeded(42);
    assert_eq!(Combatant::from_monster_tier(0, &mut rng).err(), Some(ValidationError::InvalidTier));
    assert_eq!(rng.state, 42);
}

#[test]
fn random_source_steps_deterministically() {
    let mut rng = Rng::seeded(42);
    assert_eq!(rng.next_below(100), 34);
    assert_eq!(rng.state, 10481999410520546993);
}

#[test]
fn damage_beyond_health_clamps_to_zero() {
    let mut h = Combatant::from_character(&character(1, 10, 8, 10, 5)).unwrap();
    h.apply_damage(30);
    assert_eq!(h.current_health, 40);
    assert!(!h.is_defeated());
    h.apply_damage(1000);
    assert_eq!(h.current_health, 0);
    assert!(h.is_defeated());
    assert_eq!(h.max_health, 70);
}

#[test]
fn labels_and_menu_choices() {
    assert_eq!(Role::Acolyte.label(), "Acolyte");
    assert_eq!(Role::Warrior.label(), "Warrior");
    assert_eq!(Race::Dwarf.label(), "Dwarf");
    assert_eq!(role_from_choice(Some(2)), Role::Mage);
    assert_eq!(role_from_choice(Some(4)), Role::Acolyte);
    assert_eq!(role_from_choice(Some(9)), Role::Warrior);
    assert_eq!(role_from_choice(None), Role::Warrior);
    assert_eq!(race_from_choice(Some(3)), Race::Dwarf);
    assert_eq!(race_from_choice(Some(0)), Race::Human);
}

#[test]
fn created_characters_start_at_level_one() {
    let c = create_character(String::from("Ilse"), Race::Elf, Role::Rogue);
    assert_eq!(c.name, "Ilse");
    assert_eq!(c.level, 1);
    assert_eq!(c.race, Race::Elf);
    assert_eq!(c.role, Role::Rogue);
    assert_eq!((c.strength, c.dexterity, c.constitution, c.intelligence), (1, 1, 1, 1));
    assert_eq!(c.validate(), Ok(()));
}

use vstd::prelude::*;

use crate::character::Character;
use crate::combatant::{
    hero_stats, lemma_hero_stats_wf, lemma_monster_stats_wf, monster_from_state, stats_wf,
    tier_in_range, Side, Stats, MAX_STAT,
};
use crate::encounter::{
    encounter_of, flee_planned, hit_damage, is_critical, next_view, opening, play, view_wf, EncounterResult, FightView,
    TurnEvent, MAX_TURNS,
};
use crate::rng::next_state;

verus! {

/// The health a log records the hero as having taken from the monster.
pub open spec fn hero_damage(log: Seq<TurnEvent>) -> int
    decreases log.len(),
{
    if log.len() == 0 {
        0
    } else {
        hero_damage(log.drop_last()) + match log.last() {
            TurnEvent::Attack { actor: Side::Hero, dealt, .. } => dealt as int,
            _ => 0,
        }
    }
}

/// One turn keeps a state well formed and advances the turn by one.
pub proof fn lemma_next_wf(hero: Stats, monster: Stats, s: FightView, flee: bool)
    requires
        stats_wf(hero),
        stats_wf(monster),
        view_wf(hero, monster, s),
        s.outcome is None,
    ensures
        view_wf(hero, monster, next_view(hero, monster, s, flee)),
        next_view(hero, monster, s, flee).turn == s.turn + 1,
        next_view(hero, monster, s, flee).hero_health <= s.hero_health,
        next_view(hero, monster, s, flee).monster_health <= s.monster_health,
{
}

/// Every encounter ends, with an outcome, within the turn cap.
pub proof fn lemma_play_ends(hero: Stats, monster: Stats, s: FightView, plan: Seq<bool>)
    requires
        stats_wf(hero),
        stats_wf(monster),
        view_wf(hero, monster, s),
    ensures
        view_wf(hero, monster, play(hero, monster, s, plan)),
        play(hero, monster, s, plan).outcome is Some,
        s.turn <= play(hero, monster, s, plan).turn <= MAX_TURNS,
        s.outcome is None ==> play(hero, monster, s, plan).turn > s.turn,
    decreases MAX_TURNS - s.turn,
{
    if s.outcome is None && s.turn < MAX_TURNS {
        let f = flee_planned(plan, s.turn);
        lemma_next_wf(hero, monster, s, f);
        lemma_play_ends(hero, monster, next_view(hero, monster, s, f), plan);
    }
}

/// An encounter of a valid character against a monster of a valid tier ends
/// with one of the three outcomes after at least one and at most
/// `MAX_TURNS` turns.
pub proof fn lemma_encounter_ends(c: Character, tier: u32, seed: u64, plan: Seq<bool>)
    requires
        c.is_valid(),
        tier_in_range(tier),
    ensures
        encounter_of(c, tier, seed, plan).outcome is Some,
        1 <= encounter_of(c, tier, seed, plan).turn <= MAX_TURNS,
{
    let hero = hero_stats(c);
    let monster = monster_from_state(tier, seed);
    lemma_hero_stats_wf(c);
    lemma_monster_stats_wf(tier, seed);
    let s = opening(hero, monster, hero.max_health, monster.max_health, next_state(next_state(seed)));
    lemma_play_ends(hero, monster, s, plan);
}

/// Two results reported for the same character, tier, seed and plan hold
/// the same log.
pub proof fn lemma_encounter_deterministic(
    c: Character,
    tier: u32,
    seed: u64,
    plan: Seq<bool>,
    first: EncounterResult,
    second: EncounterResult,
)
    requires
        first.reports(encounter_of(c, tier, seed, plan)),
        second.reports(encounter_of(c, tier, seed, plan)),
    ensures
        first.log@ == second.log@,
        first.outcome == second.outcome,
        first.turns_elapsed == second.turns_elapsed,
{
}

/// A flee requested on the monster's turn is logged as an illegal action and
/// changes nothing else: the monster attacks as it would have.
pub proof fn lemma_flee_refused_on_monster_turn(hero: Stats, monster: Stats, s: FightView)
    requires
        stats_wf(hero),
        stats_wf(monster),
        view_wf(hero, monster, s),
        s.outcome is None,
        !s.hero_acts,
    ensures
        ({
            let asked = next_view(hero, monster, s, true);
            let plain = next_view(hero, monster, s, false);
            &&& asked.log.len() == s.log.len() + 2
            &&& asked.log[s.log.len() as int] == TurnEvent::IllegalAction {
                turn: asked.turn,
                actor: Side::Monster,
            }
            &&& asked.log.drop_last() == s.log.push(asked.log[s.log.len() as int])
            &&& asked.log.last() == plain.log.last()
            &&& asked.log.last() is Attack
            &&& asked.hero_health == plain.hero_health
            &&& asked.monster_health == plain.monster_health
            &&& asked.outcome == plain.outcome
            &&& asked.turn == plain.turn
        }),
{
    let asked = next_view(hero, monster, s, true);
    let ev = asked.log[s.log.len() as int];
    assert(asked.log.drop_last() =~= s.log.push(ev));
}

proof fn lemma_hero_damage_push(log: Seq<TurnEvent>, e: TurnEvent)
    ensures
        hero_damage(log.push(e)) == hero_damage(log) + match e {
            TurnEvent::Attack { actor: Side::Hero, dealt, .. } => dealt as int,
            _ => 0,
        },
{
    assert(log.push(e).drop_last() =~= log);
}

/// What a turn adds to the hero's damage is the health the monster lost.
proof fn lemma_next_hero_damage(hero: Stats, monster: Stats, s: FightView, flee: bool)
    requires
        stats_wf(hero),
        stats_wf(monster),
        view_wf(hero, monster, s),
        s.outcome is None,
    ensures
        hero_damage(next_view(hero, monster, s, flee).log) == hero_damage(s.log) + s.monster_health
            - next_view(hero, monster, s, flee).monster_health,
{
    let n = next_view(hero, monster, s, flee);
    if s.hero_acts {
        lemma_hero_damage_push(s.log, n.log.last());
        assert(n.log == s.log.push(n.log.last()));
    } else if flee {
        let ill = TurnEvent::IllegalAction { turn: n.turn, actor: Side::Monster };
        lemma_hero_damage_push(s.log, ill);
        lemma_hero_damage_push(s.log.push(ill), n.log.last());
        assert(n.log == s.log.push(ill).push(n.log.last()));
    } else {
        lemma_hero_damage_push(s.log, n.log.last());
        assert(n.log == s.log.push(n.log.last()));
    }
}

/// Over a whole encounter, the hero's damage in the log is the health the
/// monster lost.
proof fn lemma_play_hero_damage(hero: Stats, monster: Stats, s: FightView, plan: Seq<bool>)
    requires
        stats_wf(hero),
        stats_wf(monster),
        view_wf(hero, monster, s),
    ensures
        hero_damage(play(hero, monster, s, plan).log) == hero_damage(s.log) + s.monster_health
            - play(hero, monster, s, plan).monster_health,
    decreases MAX_TURNS - s.turn,
{
    if s.outcome is None && s.turn < MAX_TURNS {
        let f = flee_planned(plan, s.turn);
        lemma_next_wf(hero, monster, s, f);
        lemma_next_hero_damage(hero, monster, s, f);
        lemma_play_hero_damage(hero, monster, next_view(hero, monster, s, f), plan);
    }
}

proof fn lemma_hit_monotone(weak: u32, strong: u32, defense: u32, critical: bool)
    requires
        weak <= strong <= MAX_STAT,
    ensures
        hit_damage(weak, defense, critical) <= hit_damage(strong, defense, critical),
{
}

/// Two heroes that differ only in attack power: `strong` hits at least as
/// hard as `weak`.
pub open spec fn differ_only_in_attack(weak: Stats, strong: Stats) -> bool {
    &&& weak.max_health == strong.max_health
    &&& weak.defense == strong.defense
    &&& weak.crit_chance == strong.crit_chance
    &&& weak.initiative == strong.initiative
    &&& weak.attack_power <= strong.attack_power
}

/// From states that agree in all but the monster's health, where the
/// stronger hero's monster has no more health, the stronger hero's monster
/// ends with no more health.
proof fn lemma_play_monotone(
    weak: Stats,
    strong: Stats,
    monster: Stats,
    a: FightView,
    b: FightView,
    plan: Seq<bool>,
)
    requires
        stats_wf(weak),
        stats_wf(strong),
        stats_wf(monster),
        differ_only_in_attack(weak, strong),
        view_wf(weak, monster, a),
        view_wf(strong, monster, b),
        a.outcome is None,
        b.outcome is None,
        a.turn == b.turn,
        a.hero_acts == b.hero_acts,
        a.rng == b.rng,
        a.hero_health == b.hero_health,
        b.monster_health <= a.monster_health,
    ensures
        play(strong, monster, b, plan).monster_health <= play(weak, monster, a, plan).monster_health,
    decreases MAX_TURNS - a.turn,
{
    let f = flee_planned(plan, a.turn);
    let a2 = next_view(weak, monster, a, f);
    let b2 = next_view(strong, monster, b, f);
    lemma_next_wf(weak, monster, a, f);
    lemma_next_wf(strong, monster, b, f);
    let critical = is_critical(next_state(a.rng), weak.crit_chance);
    lemma_hit_monotone(weak.attack_power, strong.attack_power, monster.defense, critical);
    assert(play(weak, monster, a, plan) == play(weak, monster, a2, plan));
    assert(play(strong, monster, b, plan) == play(strong, monster, b2, plan));
    if b2.outcome is None {
        lemma_play_monotone(weak, strong, monster, a2, b2, plan);
    }
}

/// The characters are the same but for strength, and `stronger` has at
/// least as much.
pub open spec fn same_but_stronger(weaker: Character, stronger: Character) -> bool {
    &&& weaker.level == stronger.level
    &&& weaker.race == stronger.race
    &&& weaker.role == stronger.role
    &&& weaker.dexterity == stronger.dexterity
    &&& weaker.constitution == stronger.constitution
    &&& weaker.intelligence == stronger.intelligence
    &&& weaker.strength <= stronger.strength
}

/// Raising a hero's strength, all else held fixed, never lowers the damage
/// the hero deals in an encounter with the same tier, seed and plan.
pub proof fn lemma_strength_never_lowers_damage(
    weaker: Character,
    stronger: Character,
    tier: u32,
    seed: u64,
    plan: Seq<bool>,
)
    requires
        weaker.is_valid(),
        stronger.is_valid(),
        same_but_stronger(weaker, stronger),
        tier_in_range(tier),
    ensures
        hero_damage(encounter_of(weaker, tier, seed, plan).log) <= hero_damage(
            encounter_of(stronger, tier, seed, plan).log,
        ),
{
    let weak = hero_stats(weaker);
    let strong = hero_stats(stronger);
    let monster = monster_from_state(tier, seed);
    lemma_hero_stats_wf(weaker);
    lemma_hero_stats_wf(stronger);
    lemma_monster_stats_wf(tier, seed);
    let rng = next_state(next_state(seed));
    let a = opening(weak, monster, weak.max_health, monster.max_health, rng);
    let b = opening(strong, monster, strong.max_health, monster.max_health, rng);
    assert(differ_only_in_attack(weak, strong));
    lemma_play_monotone(weak, strong, monster, a, b, plan);
    lemma_play_hero_damage(weak, monster, a, plan);
    lemma_play_hero_damage(strong, monster, b, plan);
    assert(hero_damage(a.log) == 0);
    assert(hero_damage(b.log) == 0);
}

} // verus!

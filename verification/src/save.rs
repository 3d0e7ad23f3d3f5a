//! Persistent player progress: best stars per level, gems, upgrades, tutorial flag.
//! Reading and writing the save file is the frame loop's business; this module decides
//! what the save holds.
use vstd::prelude::*;

use crate::data::{
    hero_unlock_level, hero_unlock_level_spec, lemma_hero_unlock_order, upgrade_index, upgrade_index_spec,
    HeroType, UpgradeKind, ALL_HERO_TYPES, SELL_REFUND_RATE_PCT, UPGRADE_COSTS, UPGRADE_MAX_LEVEL,
};
use crate::resources::{ActiveHeroType, AdminUnlocks, NewlyUnlockedHero, NoHeroSelected};
use crate::states::GameOutcome;

verus! {

/// The number of levels whose stars the save keeps.
pub const SAVED_LEVELS: usize = 10;
/// The number of upgrades whose levels the save keeps.
pub const SAVED_UPGRADES: usize = 5;

/// Persistent player progress.
#[derive(Clone, Debug)]
pub struct SaveData {
    /// Best star rating per level (0 = not beaten). Index 0 is level 1.
    pub level_stars: Vec<u8>,
    /// Meta-currency earned by completing levels.
    pub aether_gems: u32,
    /// Level of each meta-progression upgrade (0 = not bought), by `upgrade_index`.
    pub upgrade_levels: Vec<u8>,
    /// Whether the first-play tutorial has been completed (or skipped).
    pub tutorial_completed: bool,
}

/// A save as plain values.
#[verifier::ext_equal]
pub struct SaveModel {
    pub level_stars: Seq<u8>,
    pub aether_gems: u32,
    pub upgrade_levels: Seq<u8>,
    pub tutorial_completed: bool,
}

impl View for SaveData {
    type V = SaveModel;

    open spec fn view(&self) -> SaveModel {
        SaveModel {
            level_stars: self.level_stars@,
            aether_gems: self.aether_gems,
            upgrade_levels: self.upgrade_levels@,
            tutorial_completed: self.tutorial_completed,
        }
    }
}

impl Default for SaveData {
    fn default() -> (r: Self)
        ensures
            r@ == (SaveModel {
                level_stars: Seq::new(SAVED_LEVELS as nat, |i: int| 0u8),
                aether_gems: 0,
                upgrade_levels: Seq::new(SAVED_UPGRADES as nat, |i: int| 0u8),
                tutorial_completed: false,
            }),
    {
        let r = SaveData {
            level_stars: vec![0u8; SAVED_LEVELS],
            aether_gems: 0,
            upgrade_levels: vec![0u8; SAVED_UPGRADES],
            tutorial_completed: false,
        };
        assert(r@ =~~= (SaveModel {
            level_stars: Seq::new(SAVED_LEVELS as nat, |i: int| 0u8),
            aether_gems: 0,
            upgrade_levels: Seq::new(SAVED_UPGRADES as nat, |i: int| 0u8),
            tutorial_completed: false,
        }));
        r
    }
}

/// `s` cut or padded with zeros to length `n`.
pub open spec fn resized(s: Seq<u8>, n: nat) -> Seq<u8> {
    Seq::new(n, |i: int| if i < s.len() { s[i] } else { 0u8 })
}

/// The stars saved for level `level` (1-indexed), 0 if the save has no slot for it.
pub open spec fn stars_of(save: SaveModel, level: int) -> u8 {
    let idx = if level >= 1 { level - 1 } else { 0 };
    if idx < save.level_stars.len() { save.level_stars[idx] } else { 0 }
}

/// The level of an upgrade in a save, 0 if the save has no slot for it.
pub open spec fn upgrade_level_of(save: SaveModel, kind: UpgradeKind) -> u8 {
    let idx = upgrade_index_spec(kind) as int;
    if idx < save.upgrade_levels.len() { save.upgrade_levels[idx] } else { 0 }
}

impl SaveData {
    /// Brings a loaded save to the expected shape: ten level slots and five upgrade slots,
    /// cutting extra entries and filling missing ones with zeros.
    pub fn normalize_loaded(&mut self)
        ensures
            final(self)@ == (SaveModel {
                level_stars: resized(old(self)@.level_stars, SAVED_LEVELS as nat),
                upgrade_levels: resized(old(self)@.upgrade_levels, SAVED_UPGRADES as nat),
                ..old(self)@
            }),
    {
        let ghost stars = self.level_stars@;
        let ghost ups = self.upgrade_levels@;
        self.level_stars.resize(SAVED_LEVELS, 0);
        self.upgrade_levels.resize(SAVED_UPGRADES, 0);
        proof {
            assert forall|i: int| 0 <= i < SAVED_LEVELS implies self.level_stars@[i] == resized(stars, SAVED_LEVELS as nat)[i] by {
                if i < stars.len() && stars.len() < SAVED_LEVELS {
                    assert(self.level_stars@.subrange(0, stars.len() as int)[i] == stars[i]);
                }
            }
            assert forall|i: int| 0 <= i < SAVED_UPGRADES implies self.upgrade_levels@[i] == resized(ups, SAVED_UPGRADES as nat)[i] by {
                if i < ups.len() && ups.len() < SAVED_UPGRADES {
                    assert(self.upgrade_levels@.subrange(0, ups.len() as int)[i] == ups[i]);
                }
            }
        }
        assert(self@ =~~= (SaveModel {
            level_stars: resized(stars, SAVED_LEVELS as nat),
            upgrade_levels: resized(ups, SAVED_UPGRADES as nat),
            ..old(self)@
        }));
    }

    /// The level of a specific upgrade (0 if not bought).
    pub fn upgrade_level(&self, kind: UpgradeKind) -> (r: u8)
        ensures
            r == upgrade_level_of(self@, kind),
    {
        let idx = upgrade_index(kind);
        if idx < self.upgrade_levels.len() {
            self.upgrade_levels[idx]
        } else {
            0
        }
    }

    /// Tower damage multiplier from Elemental Fury, in percent: +5% per level.
    pub fn tower_damage_mult_pct(&self) -> (r: u32)
        ensures
            r == 100 + 5 * upgrade_level_of(self@, UpgradeKind::ElementalFury),
    {
        100 + 5 * (self.upgrade_level(UpgradeKind::ElementalFury) as u32)
    }

    /// Tower range multiplier from Far Sight, in percent: +5% per level.
    pub fn tower_range_mult_pct(&self) -> (r: u32)
        ensures
            r == 100 + 5 * upgrade_level_of(self@, UpgradeKind::FarSight),
    {
        100 + 5 * (self.upgrade_level(UpgradeKind::FarSight) as u32)
    }

    /// Sell refund rate including the Salvage Expert bonus, in percent: +5% per level.
    pub fn sell_refund_rate_pct(&self) -> (r: u32)
        ensures
            r == SELL_REFUND_RATE_PCT + 5 * upgrade_level_of(self@, UpgradeKind::SalvageExpert),
    {
        SELL_REFUND_RATE_PCT + 5 * (self.upgrade_level(UpgradeKind::SalvageExpert) as u32)
    }

    /// Hero ability cooldown multiplier from Tactical Mastery, in percent: -5% per level.
    pub fn cooldown_mult_pct(&self) -> (r: i32)
        ensures
            r == 100 - 5 * upgrade_level_of(self@, UpgradeKind::TacticalMastery),
    {
        100 - 5 * (self.upgrade_level(UpgradeKind::TacticalMastery) as i32)
    }

    /// Starting gold multiplier from War Chest, in percent: +10% per level.
    pub fn starting_gold_mult_pct(&self) -> (r: u32)
        ensures
            r == 100 + 10 * upgrade_level_of(self@, UpgradeKind::WarChest),
    {
        100 + 10 * (self.upgrade_level(UpgradeKind::WarChest) as u32)
    }
}

// ---------------------------------------------------------------------------
// Progression
// ---------------------------------------------------------------------------

/// The save slot of a level (1-indexed; level 0 shares slot 0).
pub open spec fn level_slot(level: u32) -> int {
    if level >= 1 { level - 1 } else { 0 }
}

/// The hero that beating `level` unlocks: the first in `ALL_HERO_TYPES` whose unlock level it is.
pub open spec fn hero_unlocked_by(level: u32) -> Option<HeroType> {
    if hero_unlock_level_spec(ALL_HERO_TYPES@[0]) == level {
        Some(ALL_HERO_TYPES@[0])
    } else if hero_unlock_level_spec(ALL_HERO_TYPES@[1]) == level {
        Some(ALL_HERO_TYPES@[1])
    } else if hero_unlock_level_spec(ALL_HERO_TYPES@[2]) == level {
        Some(ALL_HERO_TYPES@[2])
    } else if hero_unlock_level_spec(ALL_HERO_TYPES@[3]) == level {
        Some(ALL_HERO_TYPES@[3])
    } else if hero_unlock_level_spec(ALL_HERO_TYPES@[4]) == level {
        Some(ALL_HERO_TYPES@[4])
    } else {
        None
    }
}

/// What recording a completed level brought.
#[derive(Clone, Copy, Debug, PartialEq, Eq, Structural)]
pub struct LevelCompletion {
    /// A hero unlocked for the first time by this level, to select and announce.
    pub unlocked_hero: Option<HeroType>,
    /// Gems for the stars improved on: 10 per new star.
    pub gems_awarded: u32,
}

/// Whether a finished level is recorded: a victory with stars, on a level the save keeps.
pub open spec fn completion_recorded(save: SaveModel, outcome: GameOutcome, level: u32) -> bool {
    outcome.victory && outcome.stars != 0 && level_slot(level) < save.level_stars.len()
}

/// The gems a completion pays: 10 per star above the previous best.
pub open spec fn gems_for(save: SaveModel, outcome: GameOutcome, level: u32) -> int {
    let old_stars = save.level_stars[level_slot(level)];
    if outcome.stars > old_stars { 10 * (outcome.stars - old_stars) } else { 0 }
}

/// The save after recording a completion.
pub open spec fn recorded_save(save: SaveModel, outcome: GameOutcome, level: u32) -> SaveModel {
    let idx = level_slot(level);
    if outcome.stars > save.level_stars[idx] {
        SaveModel {
            level_stars: save.level_stars.update(idx, outcome.stars),
            aether_gems: (save.aether_gems + gems_for(save, outcome, level)) as u32,
            ..save
        }
    } else {
        save
    }
}

impl SaveData {
    /// Records a finished level: keeps the best star rating, pays 10 gems per new star, and
    /// reports the hero that a first clear of this level unlocks. Returns `None`, changing
    /// nothing, for a defeat, a victory without stars, or a level the save has no slot for;
    /// otherwise the save is to be written.
    pub fn record_level_complete(&mut self, outcome: GameOutcome, level: u32) -> (r: Option<LevelCompletion>)
        requires
            completion_recorded(old(self)@, outcome, level) ==> old(self).aether_gems + gems_for(
                old(self)@,
                outcome,
                level,
            ) <= u32::MAX,
        ensures
            !completion_recorded(old(self)@, outcome, level) ==> r is None && final(self)@ == old(self)@,
            completion_recorded(old(self)@, outcome, level) ==> {
                &&& final(self)@ == recorded_save(old(self)@, outcome, level)
                &&& r == Some(LevelCompletion {
                    unlocked_hero: if old(self)@.level_stars[level_slot(level)] == 0 {
                        hero_unlocked_by(level)
                    } else {
                        None
                    },
                    gems_awarded: gems_for(old(self)@, outcome, level) as u32,
                })
            },
    {
        if !outcome.victory || outcome.stars == 0 {
            return None;
        }
        let idx = if level >= 1 { (level - 1) as usize } else { 0 };
        if idx >= self.level_stars.len() {
            return None;
        }
        // A first clear of this level unlocks the hero whose unlock level it is.
        let was_first_clear = self.level_stars[idx] == 0;
        let mut just_unlocked: Option<HeroType> = None;
        if was_first_clear {
            let mut i: usize = 0;
            while i < 5 && just_unlocked.is_none()
                invariant
                    0 <= i <= 5,
                    just_unlocked is None ==> forall|j: int|
                        0 <= j < i ==> hero_unlock_level_spec(#[trigger] ALL_HERO_TYPES@[j]) != level,
                    just_unlocked is Some ==> just_unlocked == hero_unlocked_by(level),
                decreases 5 - i,
            {
                let hero = ALL_HERO_TYPES[i];
                if hero_unlock_level(hero) == level {
                    just_unlocked = Some(hero);
                }
                i = i + 1;
            }
            proof {
                if just_unlocked is None {
                    assert(hero_unlock_level_spec(ALL_HERO_TYPES@[0]) != level);
                    assert(hero_unlock_level_spec(ALL_HERO_TYPES@[1]) != level);
                    assert(hero_unlock_level_spec(ALL_HERO_TYPES@[2]) != level);
                    assert(hero_unlock_level_spec(ALL_HERO_TYPES@[3]) != level);
                    assert(hero_unlock_level_spec(ALL_HERO_TYPES@[4]) != level);
                }
            }
        }
        // Only a better star count is kept, and only the new stars pay.
        let old_stars = self.level_stars[idx];
        let mut gems: u32 = 0;
        if outcome.stars > old_stars {
            let new_stars = outcome.stars - old_stars;
            self.level_stars.set(idx, outcome.stars);
            gems = (new_stars as u32) * 10;
            self.aether_gems = self.aether_gems + gems;
        }
        assert(self@ =~~= recorded_save(old(self)@, outcome, level));
        Some(LevelCompletion { unlocked_hero: just_unlocked, gems_awarded: gems })
    }

    /// Marks the tutorial as completed; returns whether the flag changed (the save is then
    /// to be written).
    pub fn mark_tutorial_completed(&mut self) -> (changed: bool)
        ensures
            changed == !old(self)@.tutorial_completed,
            final(self)@ == (SaveModel { tutorial_completed: true, ..old(self)@ }),
    {
        let changed = !self.tutorial_completed;
        self.tutorial_completed = true;
        assert(self@ =~~= (SaveModel { tutorial_completed: true, ..old(self)@ }));
        changed
    }
}

/// Makes a hero unlocked by a completion the active one, ends the towers-only mode, and
/// keeps the hero for the game-over screen to announce; without a newly unlocked hero
/// nothing changes.
pub fn select_unlocked_hero(
    completion: &LevelCompletion,
    active: &mut ActiveHeroType,
    no_hero: &mut NoHeroSelected,
    newly_unlocked: &mut NewlyUnlockedHero,
)
    ensures
        match completion.unlocked_hero {
            Some(hero) => final(active).0 == hero && !final(no_hero).0 && final(newly_unlocked).0 == Some(hero),
            None => final(active).0 == old(active).0 && final(no_hero).0 == old(no_hero).0
                && final(newly_unlocked).0 == old(newly_unlocked).0,
        },
{
    if let Some(hero) = completion.unlocked_hero {
        active.0 = hero;
        no_hero.0 = false;
        newly_unlocked.0 = Some(hero);
    }
}

// ---------------------------------------------------------------------------
// Upgrade shop
// ---------------------------------------------------------------------------

/// The gem cost of the next level of an upgrade now at `current_level` (below the maximum).
pub open spec fn upgrade_cost(current_level: u8) -> u32 {
    UPGRADE_COSTS@[current_level as int]
}

/// Whether an upgrade can be bought: the save has its slot, it is below the maximum level,
/// and the gems cover the next level.
pub open spec fn upgrade_purchasable(save: SaveModel, kind: UpgradeKind) -> bool {
    let idx = upgrade_index_spec(kind) as int;
    &&& idx < save.upgrade_levels.len()
    &&& save.upgrade_levels[idx] < UPGRADE_MAX_LEVEL
    &&& save.aether_gems >= upgrade_cost(save.upgrade_levels[idx])
}

/// One upgrade-shop row: the current level, whether it is maxed, the price of the next level
/// (0 when maxed) and whether the gems cover it.
#[derive(Clone, Copy, Debug, PartialEq, Eq, Structural)]
pub struct UpgradeOffer {
    pub current_level: u8,
    pub maxed: bool,
    pub cost: u32,
    pub affordable: bool,
}

impl SaveData {
    /// Buys the next level of an upgrade with gems. Returns whether it was bought; when it
    /// was not, the save is unchanged; when it was, the save is to be written.
    pub fn buy_upgrade(&mut self, kind: UpgradeKind) -> (bought: bool)
        ensures
            bought == upgrade_purchasable(old(self)@, kind),
            bought ==> final(self)@ == (SaveModel {
                aether_gems: (old(self)@.aether_gems - upgrade_cost(old(self)@.upgrade_levels[upgrade_index_spec(kind) as int])) as u32,
                upgrade_levels: old(self)@.upgrade_levels.update(
                    upgrade_index_spec(kind) as int,
                    (old(self)@.upgrade_levels[upgrade_index_spec(kind) as int] + 1) as u8,
                ),
                ..old(self)@
            }),
            !bought ==> final(self)@ == old(self)@,
    {
        let idx = upgrade_index(kind);
        if idx >= self.upgrade_levels.len() {
            return false;
        }
        let current_level = self.upgrade_levels[idx];
        if current_level >= UPGRADE_MAX_LEVEL {
            return false;
        }
        let cost = UPGRADE_COSTS[current_level as usize];
        if self.aether_gems < cost {
            return false;
        }
        self.aether_gems = self.aether_gems - cost;
        self.upgrade_levels.set(idx, current_level + 1);
        assert(self@ =~~= (SaveModel {
            aether_gems: (old(self)@.aether_gems - upgrade_cost(current_level)) as u32,
            upgrade_levels: old(self)@.upgrade_levels.update(idx as int, (current_level + 1) as u8),
            ..old(self)@
        }));
        true
    }

    /// The shop's view of an upgrade.
    pub fn upgrade_offer(&self, kind: UpgradeKind) -> (r: UpgradeOffer)
        ensures
            r.current_level == upgrade_level_of(self@, kind),
            r.maxed == (r.current_level >= UPGRADE_MAX_LEVEL),
            r.cost == if r.maxed { 0 } else { upgrade_cost(r.current_level) },
            r.affordable == (!r.maxed && self@.aether_gems >= r.cost),
    {
        let current_level = self.upgrade_level(kind);
        let maxed = current_level >= UPGRADE_MAX_LEVEL;
        let cost = if maxed { 0 } else { UPGRADE_COSTS[current_level as usize] };
        let affordable = !maxed && self.aether_gems >= cost;
        UpgradeOffer { current_level, maxed, cost, affordable }
    }

    /// The best stars of a level (1-indexed), 0 if not beaten or not kept.
    pub fn level_best_stars(&self, level: u32) -> (r: u8)
        ensures
            r == stars_of(self@, level as int),
    {
        let idx = if level >= 1 { (level - 1) as usize } else { 0 };
        if idx < self.level_stars.len() {
            self.level_stars[idx]
        } else {
            0
        }
    }
}

// ---------------------------------------------------------------------------
// Unlocks
// ---------------------------------------------------------------------------

/// The save slot whose stars unlock a level: the previous level's.
pub open spec fn previous_slot(level: u32) -> int {
    if level >= 2 { level - 2 } else { 0 }
}

/// A level is open with the admin override, for level 1, or once the previous level is beaten.
pub open spec fn level_unlocked(save: SaveModel, admin: AdminUnlocks, level: u32) -> bool {
    ||| admin.all_levels
    ||| level == 1
    ||| (previous_slot(level) < save.level_stars.len() && save.level_stars[previous_slot(level)] > 0)
}

/// A hero is available with the admin override, or once its unlock level is beaten.
pub open spec fn hero_unlocked(save: SaveModel, admin: AdminUnlocks, hero: HeroType) -> bool {
    let required = hero_unlock_level_spec(hero);
    let idx = if required >= 1 { required - 1 } else { 0 };
    ||| admin.all_heroes
    ||| required == 0
    ||| (idx < save.level_stars.len() && save.level_stars[idx] > 0)
}

/// Whether a level can be chosen on the level-select screen.
pub fn is_level_unlocked(save: &SaveData, admin: &AdminUnlocks, level: u32) -> (r: bool)
    ensures
        r == level_unlocked(save@, *admin, level),
{
    if admin.all_levels || level == 1 {
        return true;
    }
    let idx: usize = if level >= 1 { (level - 1) as usize } else { 0 };
    let prev_idx: usize = if idx >= 1 { idx - 1 } else { 0 };
    prev_idx < save.level_stars.len() && save.level_stars[prev_idx] > 0
}

/// Whether a hero can be chosen, from the save or the admin override.
pub fn is_hero_unlocked(hero: HeroType, save: &SaveData, admin: &AdminUnlocks) -> (r: bool)
    ensures
        r == hero_unlocked(save@, *admin, hero),
{
    if admin.all_heroes {
        return true;
    }
    let required = hero_unlock_level(hero);
    if required == 0 {
        return true;
    }
    let idx: usize = (required - 1) as usize;
    idx < save.level_stars.len() && save.level_stars[idx] > 0
}

// ---------------------------------------------------------------------------
// Laws of progression
// ---------------------------------------------------------------------------

/// The sum of a list of star ratings.
pub open spec fn star_sum(stars: Seq<u8>) -> int
    decreases stars.len(),
{
    if stars.len() == 0 {
        0
    } else {
        star_sum(stars.drop_last()) + stars.last()
    }
}

proof fn lemma_star_sum_update(stars: Seq<u8>, i: int, v: u8)
    requires
        0 <= i < stars.len(),
    ensures
        star_sum(stars.update(i, v)) == star_sum(stars) - stars[i] + v,
    decreases stars.len(),
{
    if i == stars.len() - 1 {
        assert(stars.update(i, v).drop_last() =~= stars.drop_last());
    } else {
        lemma_star_sum_update(stars.drop_last(), i, v);
        assert(stars.update(i, v).drop_last() =~= stars.drop_last().update(i, v));
    }
}

/// Gems are earned only for stars: recording a completion changes the gems by exactly ten
/// times the change in the total of best stars, and never lowers a level's best stars.
pub proof fn lemma_gems_track_stars(save: SaveModel, outcome: GameOutcome, level: u32)
    requires
        completion_recorded(save, outcome, level),
        save.aether_gems + gems_for(save, outcome, level) <= u32::MAX,
    ensures
        recorded_save(save, outcome, level).aether_gems - 10 * star_sum(recorded_save(save, outcome, level).level_stars)
            == save.aether_gems - 10 * star_sum(save.level_stars),
        forall|i: int|
            0 <= i < save.level_stars.len() ==> save.level_stars[i] <= #[trigger] recorded_save(
                save,
                outcome,
                level,
            ).level_stars[i],
        recorded_save(save, outcome, level).level_stars.len() == save.level_stars.len(),
{
    let idx = level_slot(level);
    if outcome.stars > save.level_stars[idx] {
        lemma_star_sum_update(save.level_stars, idx, outcome.stars);
    }
}

/// Nothing is ever locked again: a level or hero open before a completion stays open.
pub proof fn lemma_unlocks_persist(
    save: SaveModel,
    outcome: GameOutcome,
    level: u32,
    admin: AdminUnlocks,
    other_level: u32,
    hero: HeroType,
)
    requires
        completion_recorded(save, outcome, level),
    ensures
        level_unlocked(save, admin, other_level) ==> level_unlocked(
            recorded_save(save, outcome, level),
            admin,
            other_level,
        ),
        hero_unlocked(save, admin, hero) ==> hero_unlocked(recorded_save(save, outcome, level), admin, hero),
{
}

/// A recorded victory opens the next level and the hero whose unlock level this is, and
/// a first clear names exactly that hero, if any.
pub proof fn lemma_victory_unlocks(save: SaveModel, outcome: GameOutcome, level: u32, admin: AdminUnlocks, hero: HeroType)
    requires
        completion_recorded(save, outcome, level),
        1 <= level < u32::MAX,
    ensures
        level_unlocked(recorded_save(save, outcome, level), admin, (level + 1) as u32),
        hero_unlock_level_spec(hero) == level ==> hero_unlocked(recorded_save(save, outcome, level), admin, hero),
        hero_unlock_level_spec(hero) == level <==> hero_unlocked_by(level) == Some(hero),
{
    lemma_hero_unlock_order(0, 1, hero);
}

/// Recording the same completion twice changes nothing the second time: no gems are paid
/// again for stars already recorded.
pub proof fn lemma_record_twice(save: SaveModel, outcome: GameOutcome, level: u32)
    requires
        completion_recorded(save, outcome, level),
        save.aether_gems + gems_for(save, outcome, level) <= u32::MAX,
    ensures
        completion_recorded(recorded_save(save, outcome, level), outcome, level),
        gems_for(recorded_save(save, outcome, level), outcome, level) == 0,
        recorded_save(recorded_save(save, outcome, level), outcome, level) == recorded_save(save, outcome, level),
{
}

/// Normalizing a loaded save is idempotent, and a save already in shape is left as it is.
pub proof fn lemma_normalize_idempotent(stars: Seq<u8>, n: nat)
    ensures
        resized(resized(stars, n), n) == resized(stars, n),
        stars.len() == n ==> resized(stars, n) == stars,
{
    assert(resized(resized(stars, n), n) =~= resized(stars, n));
    if stars.len() == n {
        assert(resized(stars, n) =~= stars);
    }
}

/// Buying upgrades spends exactly their cost and never takes an upgrade past the maximum.
pub proof fn lemma_upgrade_purchase_bounded(save: SaveModel, kind: UpgradeKind, other: UpgradeKind)
    requires
        upgrade_purchasable(save, kind),
        upgrade_level_of(save, other) <= UPGRADE_MAX_LEVEL,
    ensures
        ({
            let idx = upgrade_index_spec(kind) as int;
            let after = SaveModel {
                aether_gems: (save.aether_gems - upgrade_cost(save.upgrade_levels[idx])) as u32,
                upgrade_levels: save.upgrade_levels.update(idx, (save.upgrade_levels[idx] + 1) as u8),
                ..save
            };
            &&& upgrade_level_of(after, other) <= UPGRADE_MAX_LEVEL
            &&& after.aether_gems + upgrade_cost(save.upgrade_levels[idx]) == save.aether_gems
            &&& upgrade_level_of(after, kind) == upgrade_level_of(save, kind) + 1
        }),
{
}

/// Without the admin override a hero opens exactly when its own unlock level has been
/// beaten (that level's slot holds stars); every hero has an unlock level of at least 1,
/// so progress on other levels never opens it. Likewise a level after the first opens
/// exactly when the level before it has been beaten.
pub proof fn lemma_unlocks_follow_their_level(save: SaveModel, admin: AdminUnlocks, hero: HeroType, level: u32)
    ensures
        hero_unlock_level_spec(hero) >= 1,
        !admin.all_heroes ==> (hero_unlocked(save, admin, hero) <==> {
            let slot = hero_unlock_level_spec(hero) - 1;
            slot < save.level_stars.len() && save.level_stars[slot] > 0
        }),
        !admin.all_levels && level >= 2 ==> (level_unlocked(save, admin, level) <==> {
            let slot = level - 2;
            slot < save.level_stars.len() && save.level_stars[slot] > 0
        }),
{
}

} // verus!

//! Static game data: enemies, towers, heroes, levels, waves and meta-progression.
//!
//! Quantities that the game treats as fractional are held in fixed point:
//! a `_deci` field counts tenths, `_centi` hundredths, `_milli` thousandths,
//! `_pct` percent and `_ms` milliseconds.
use vstd::prelude::*;

use crate::components::Element;

verus! {

// ---------------------------------------------------------------------------
// Enemy types
// ---------------------------------------------------------------------------

#[derive(Debug, Clone, Copy, PartialEq, Eq, Hash, Structural)]
pub enum EnemyType {
    // Primordial
    Amoeba,
    Jellyfish,
    Sporebloom,
    Trilobite,
    SeaScorpion,
    Nautilus,
    GiantWorm,
    // Prehistoric
    Raptor,
    Stegosaurus,
    Parasaur,
    Triceratops,
    Pterodactyl,
    CompyHealer,
    TRex,
    // Stone Age
    Caveman,
    Sabertooth,
    Mammoth,
    Shaman,
    GiantEagle,
    Dodo,
    WoollyRhino,
    // Ancient
    Legionary,
    Lion,
    WarElephant,
    EagleScout,
    Medicus,
    Minotaur,
    // Medieval
    Footman,
    Cavalry,
    Knight,
    Wyvern,
    Priest,
    Dragon,
}

// ---------------------------------------------------------------------------
// Waves
// ---------------------------------------------------------------------------

/// One group of identical enemies inside a wave.
#[derive(Debug, Clone, Copy, PartialEq, Eq, Structural)]
pub struct WaveGroup {
    pub enemy_type: EnemyType,
    pub count: u32,
    /// Time between two spawns of this group.
    pub interval_ms: u32,
    /// Time before this group starts, counted from the start of its pulse.
    pub delay_ms: u32,
    /// Which pulse (0-based) this group belongs to.
    pub pulse: u32,
}

pub struct WaveDefinition {
    pub groups: Vec<WaveGroup>,
    pub early_call_bonus: u32,
}

/// A wave definition as plain values.
#[verifier::ext_equal]
pub struct WaveSpec {
    pub groups: Seq<WaveGroup>,
    pub early_call_bonus: u32,
}

impl View for WaveDefinition {
    type V = WaveSpec;

    open spec fn view(&self) -> WaveSpec {
        WaveSpec { groups: self.groups@, early_call_bonus: self.early_call_bonus }
    }
}

pub open spec fn wave_group(enemy_type: EnemyType, count: u32, interval_ms: u32, delay_ms: u32, pulse: u32) -> WaveGroup {
    WaveGroup { enemy_type, count, interval_ms, delay_ms, pulse }
}

pub open spec fn wave_spec(early_call_bonus: u32, groups: Seq<WaveGroup>) -> WaveSpec {
    WaveSpec { groups, early_call_bonus }
}

/// The plain values of a list of wave definitions.
pub open spec fn waves_view(waves: Seq<WaveDefinition>) -> Seq<WaveSpec> {
    waves.map_values(|w: WaveDefinition| w@)
}

/// A point on the ground plane, in tenths of a world unit (the height is always zero).
#[derive(Debug, Clone, Copy, PartialEq, Eq, Structural)]
pub struct GroundPoint {
    pub x_deci: i32,
    pub z_deci: i32,
}

pub open spec fn ground_point(x_deci: int, z_deci: int) -> GroundPoint {
    GroundPoint { x_deci: x_deci as i32, z_deci: z_deci as i32 }
}

// ---------------------------------------------------------------------------
// Enemy stats
// ---------------------------------------------------------------------------

pub struct EnemyStats {
    pub hp: u32,
    pub speed_centi: u32,
    pub armor: u32,
    pub magic_resist_pct: u32,
    pub gold_reward: u32,
    pub model_path: &'static str,
    pub model_scale_milli: u32,
    pub is_flying: bool,
    /// Optional tint override (sRGB, percent); `None` keeps the model's own colors.
    pub tint_pct: Option<[u32; 3]>,
    /// Embedded animation indices: walk, idle, attack, death.
    pub anim_indices: [usize; 4],
    /// External animation files (walk, idle, attack, death) for skinned enemies.
    pub anim_files: Option<[&'static str; 4]>,
    /// Extra rotation of the model about the vertical axis, in milliradians.
    pub rotation_y_mrad: i32,
    /// Whether this enemy heals its neighbours.
    pub is_healer: bool,
}

/// Shared animation files for skinned humanoid enemies.
pub const SKINNED_ANIMS: [&'static str; 4] = [
    "models/enemies/anims/crouch-walk.glb",
    "models/enemies/anims/idle.glb",
    "models/enemies/anims/attack.glb",
    "models/enemies/anims/die.glb",
];

/// Legionary animations: walk, idle and death from its own model, sword-parry for attack.
pub const LEGIONARY_ANIMS: [&'static str; 4] = [
    "models/enemies/legionary.glb",
    "models/enemies/legionary.glb",
    "models/enemies/anims/sword-parry.glb",
    "models/enemies/legionary.glb",
];

/// The value of `enemy_stats`.
pub open spec fn enemy_stats_spec(enemy_type: EnemyType) -> EnemyStats {
    match enemy_type {
        EnemyType::Amoeba => EnemyStats { hp: 50, speed_centi: 200, armor: 0, magic_resist_pct: 0, gold_reward: 14, model_path: "models/enemies/PinkBlob.gltf", model_scale_milli: 400, is_flying: false, tint_pct: None, anim_indices: [7usize, 4, 0, 2], anim_files: None, rotation_y_mrad: 0, is_healer: false },
        EnemyType::Jellyfish => EnemyStats { hp: 40, speed_centi: 250, armor: 0, magic_resist_pct: 30, gold_reward: 19, model_path: "models/enemies/Hywirl.gltf", model_scale_milli: 400, is_flying: true, tint_pct: None, anim_indices: [1usize, 2, 3, 0], anim_files: None, rotation_y_mrad: 0, is_healer: false },
        EnemyType::Sporebloom => EnemyStats { hp: 30, speed_centi: 150, armor: 0, magic_resist_pct: 20, gold_reward: 19, model_path: "models/enemies/GreenBlob.gltf", model_scale_milli: 400, is_flying: false, tint_pct: Some([60u32, 30, 70]), anim_indices: [7usize, 4, 0, 2], anim_files: None, rotation_y_mrad: 0, is_healer: true },
        EnemyType::Trilobite => EnemyStats { hp: 80, speed_centi: 150, armor: 30, magic_resist_pct: 0, gold_reward: 24, model_path: "models/enemies/GreenBlob.gltf", model_scale_milli: 600, is_flying: false, tint_pct: None, anim_indices: [7usize, 4, 0, 2], anim_files: None, rotation_y_mrad: 0, is_healer: false },
        EnemyType::SeaScorpion => EnemyStats { hp: 40, speed_centi: 350, armor: 0, magic_resist_pct: 0, gold_reward: 19, model_path: "models/enemies/GreenSpikyBlob.gltf", model_scale_milli: 300, is_flying: false, tint_pct: None, anim_indices: [7usize, 4, 0, 2], anim_files: None, rotation_y_mrad: 0, is_healer: false },
        EnemyType::Nautilus => EnemyStats { hp: 200, speed_centi: 150, armor: 40, magic_resist_pct: 0, gold_reward: 24, model_path: "models/enemies/GreenSpikyBlob.gltf", model_scale_milli: 400, is_flying: false, tint_pct: Some([20u32, 50, 100]), anim_indices: [7usize, 4, 0, 2], anim_files: None, rotation_y_mrad: 0, is_healer: false },
        EnemyType::GiantWorm => EnemyStats { hp: 600, speed_centi: 120, armor: 10, magic_resist_pct: 10, gold_reward: 100, model_path: "models/enemies/GreenSpikyBlob.gltf", model_scale_milli: 700, is_flying: false, tint_pct: Some([70u32, 30, 20]), anim_indices: [7usize, 4, 0, 2], anim_files: None, rotation_y_mrad: 0, is_healer: false },
        EnemyType::Raptor => EnemyStats { hp: 35, speed_centi: 320, armor: 0, magic_resist_pct: 0, gold_reward: 16, model_path: "models/enemies/velociraptor.glb", model_scale_milli: 150, is_flying: false, tint_pct: Some([24u32, 53, 16]), anim_indices: [4usize, 2, 0, 1], anim_files: None, rotation_y_mrad: 0, is_healer: false },
        EnemyType::Stegosaurus => EnemyStats { hp: 60, speed_centi: 200, armor: 0, magic_resist_pct: 0, gold_reward: 16, model_path: "models/enemies/stegosaurus.glb", model_scale_milli: 180, is_flying: false, tint_pct: Some([24u32, 53, 42]), anim_indices: [4usize, 2, 0, 1], anim_files: None, rotation_y_mrad: 0, is_healer: false },
        EnemyType::Parasaur => EnemyStats { hp: 55, speed_centi: 200, armor: 0, magic_resist_pct: 0, gold_reward: 15, model_path: "models/enemies/parasaurolophus.glb", model_scale_milli: 150, is_flying: false, tint_pct: Some([33u32, 67, 27]), anim_indices: [4usize, 2, 0, 1], anim_files: None, rotation_y_mrad: 0, is_healer: false },
        EnemyType::Triceratops => EnemyStats { hp: 180, speed_centi: 150, armor: 35, magic_resist_pct: 10, gold_reward: 24, model_path: "models/enemies/triceratops.glb", model_scale_milli: 200, is_flying: false, tint_pct: Some([77u32, 47, 19]), anim_indices: [4usize, 2, 0, 1], anim_files: None, rotation_y_mrad: 0, is_healer: false },
        EnemyType::Pterodactyl => EnemyStats { hp: 40, speed_centi: 250, armor: 0, magic_resist_pct: 30, gold_reward: 19, model_path: "models/enemies/dragon.glb", model_scale_milli: 350, is_flying: true, tint_pct: Some([80u32, 27, 20]), anim_indices: [3usize, 3, 0, 2], anim_files: None, rotation_y_mrad: 0, is_healer: false },
        EnemyType::CompyHealer => EnemyStats { hp: 30, speed_centi: 200, armor: 0, magic_resist_pct: 20, gold_reward: 19, model_path: "models/enemies/parasaurolophus.glb", model_scale_milli: 120, is_flying: false, tint_pct: Some([67u32, 33, 80]), anim_indices: [4usize, 2, 0, 1], anim_files: None, rotation_y_mrad: 0, is_healer: true },
        EnemyType::TRex => EnemyStats { hp: 550, speed_centi: 110, armor: 15, magic_resist_pct: 10, gold_reward: 90, model_path: "models/enemies/trex.glb", model_scale_milli: 350, is_flying: false, tint_pct: Some([53u32, 27, 13]), anim_indices: [4usize, 2, 0, 1], anim_files: None, rotation_y_mrad: 0, is_healer: false },
        EnemyType::Caveman => EnemyStats { hp: 55, speed_centi: 200, armor: 0, magic_resist_pct: 0, gold_reward: 16, model_path: "models/enemies/caveman.glb", model_scale_milli: 1000, is_flying: false, tint_pct: None, anim_indices: [255usize, 255, 255, 255], anim_files: Some(SKINNED_ANIMS), rotation_y_mrad: 0, is_healer: false },
        EnemyType::Sabertooth => EnemyStats { hp: 40, speed_centi: 300, armor: 0, magic_resist_pct: 0, gold_reward: 17, model_path: "models/enemies/sabertooth.glb", model_scale_milli: 1200, is_flying: false, tint_pct: None, anim_indices: [0usize, 0, 0, 0], anim_files: None, rotation_y_mrad: 0, is_healer: false },
        EnemyType::Mammoth => EnemyStats { hp: 200, speed_centi: 150, armor: 40, magic_resist_pct: 0, gold_reward: 26, model_path: "models/enemies/mammoth.glb", model_scale_milli: 1600, is_flying: false, tint_pct: None, anim_indices: [2usize, 1, 0, 0], anim_files: None, rotation_y_mrad: 0, is_healer: false },
        EnemyType::Shaman => EnemyStats { hp: 35, speed_centi: 180, armor: 0, magic_resist_pct: 20, gold_reward: 20, model_path: "models/enemies/shaman.glb", model_scale_milli: 700, is_flying: false, tint_pct: None, anim_indices: [255usize, 255, 255, 255], anim_files: Some(SKINNED_ANIMS), rotation_y_mrad: 0, is_healer: true },
        EnemyType::GiantEagle => EnemyStats { hp: 45, speed_centi: 250, armor: 0, magic_resist_pct: 30, gold_reward: 20, model_path: "models/enemies/eagle.glb", model_scale_milli: 25, is_flying: true, tint_pct: None, anim_indices: [0usize, 0, 0, 0], anim_files: None, rotation_y_mrad: 0, is_healer: false },
        EnemyType::Dodo => EnemyStats { hp: 35, speed_centi: 300, armor: 0, magic_resist_pct: 0, gold_reward: 16, model_path: "models/enemies/dodo.glb", model_scale_milli: 130, is_flying: false, tint_pct: None, anim_indices: [255usize, 255, 255, 255], anim_files: None, rotation_y_mrad: 0, is_healer: false },
        EnemyType::WoollyRhino => EnemyStats { hp: 650, speed_centi: 100, armor: 20, magic_resist_pct: 10, gold_reward: 100, model_path: "models/enemies/woolly-rhino.glb", model_scale_milli: 2500, is_flying: false, tint_pct: None, anim_indices: [2usize, 2, 0, 1], anim_files: None, rotation_y_mrad: 0, is_healer: false },
        EnemyType::Legionary => EnemyStats { hp: 65, speed_centi: 200, armor: 0, magic_resist_pct: 10, gold_reward: 17, model_path: "models/enemies/legionary.glb", model_scale_milli: 15, is_flying: false, tint_pct: None, anim_indices: [255usize, 255, 255, 255], anim_files: Some(LEGIONARY_ANIMS), rotation_y_mrad: 0, is_healer: false },
        EnemyType::Lion => EnemyStats { hp: 45, speed_centi: 300, armor: 0, magic_resist_pct: 0, gold_reward: 18, model_path: "models/enemies/lion.glb", model_scale_milli: 1500, is_flying: false, tint_pct: Some([82u32, 62, 32]), anim_indices: [2usize, 3, 0, 1], anim_files: None, rotation_y_mrad: 0, is_healer: false },
        EnemyType::WarElephant => EnemyStats { hp: 250, speed_centi: 150, armor: 50, magic_resist_pct: 15, gold_reward: 28, model_path: "models/enemies/war-elephant.glb", model_scale_milli: 2500, is_flying: false, tint_pct: None, anim_indices: [2usize, 2, 0, 1], anim_files: None, rotation_y_mrad: 0, is_healer: false },
        EnemyType::EagleScout => EnemyStats { hp: 40, speed_centi: 250, armor: 0, magic_resist_pct: 30, gold_reward: 20, model_path: "models/enemies/eagle.glb", model_scale_milli: 30, is_flying: true, tint_pct: Some([45u32, 30, 18]), anim_indices: [0usize, 0, 0, 0], anim_files: None, rotation_y_mrad: 0, is_healer: false },
        EnemyType::Medicus => EnemyStats { hp: 40, speed_centi: 180, armor: 0, magic_resist_pct: 20, gold_reward: 22, model_path: "models/enemies/medicus.glb", model_scale_milli: 700, is_flying: false, tint_pct: None, anim_indices: [255usize, 255, 255, 255], anim_files: Some(SKINNED_ANIMS), rotation_y_mrad: 0, is_healer: true },
        EnemyType::Minotaur => EnemyStats { hp: 700, speed_centi: 100, armor: 15, magic_resist_pct: 15, gold_reward: 110, model_path: "models/enemies/minotaur-mixamo.glb", model_scale_milli: 1200, is_flying: false, tint_pct: Some([45u32, 30, 20]), anim_indices: [255usize, 255, 255, 255], anim_files: Some(SKINNED_ANIMS), rotation_y_mrad: 0, is_healer: false },
        EnemyType::Footman => EnemyStats { hp: 70, speed_centi: 200, armor: 0, magic_resist_pct: 10, gold_reward: 18, model_path: "models/enemies/footman.glb", model_scale_milli: 1000, is_flying: false, tint_pct: None, anim_indices: [255usize, 255, 255, 255], anim_files: Some(SKINNED_ANIMS), rotation_y_mrad: 0, is_healer: false },
        EnemyType::Cavalry => EnemyStats { hp: 50, speed_centi: 300, armor: 0, magic_resist_pct: 0, gold_reward: 19, model_path: "models/enemies/cavalry-horse.glb", model_scale_milli: 500, is_flying: false, tint_pct: None, anim_indices: [1usize, 3, 2, 3], anim_files: None, rotation_y_mrad: 0, is_healer: false },
        EnemyType::Knight => EnemyStats { hp: 220, speed_centi: 150, armor: 45, magic_resist_pct: 20, gold_reward: 26, model_path: "models/enemies/knight.glb", model_scale_milli: 800, is_flying: false, tint_pct: None, anim_indices: [255usize, 255, 255, 255], anim_files: Some(SKINNED_ANIMS), rotation_y_mrad: 0, is_healer: false },
        EnemyType::Wyvern => EnemyStats { hp: 50, speed_centi: 250, armor: 0, magic_resist_pct: 30, gold_reward: 22, model_path: "models/enemies/dragon.glb", model_scale_milli: 300, is_flying: true, tint_pct: None, anim_indices: [3usize, 3, 0, 2], anim_files: None, rotation_y_mrad: 0, is_healer: false },
        EnemyType::Priest => EnemyStats { hp: 35, speed_centi: 180, armor: 0, magic_resist_pct: 20, gold_reward: 22, model_path: "models/enemies/medicus.glb", model_scale_milli: 600, is_flying: false, tint_pct: Some([75u32, 60, 25]), anim_indices: [255usize, 255, 255, 255], anim_files: Some(SKINNED_ANIMS), rotation_y_mrad: 0, is_healer: true },
        EnemyType::Dragon => EnemyStats { hp: 800, speed_centi: 120, armor: 10, magic_resist_pct: 15, gold_reward: 120, model_path: "models/enemies/dragon.glb", model_scale_milli: 700, is_flying: false, tint_pct: Some([80u32, 20, 10]), anim_indices: [3usize, 3, 0, 2], anim_files: None, rotation_y_mrad: 0, is_healer: false },
    }
}

/// Base stats of an enemy type.
pub fn enemy_stats(enemy_type: EnemyType) -> (r: EnemyStats)
    ensures
        r == enemy_stats_spec(enemy_type),
{
    match enemy_type {
        EnemyType::Amoeba => EnemyStats { hp: 50, speed_centi: 200, armor: 0, magic_resist_pct: 0, gold_reward: 14, model_path: "models/enemies/PinkBlob.gltf", model_scale_milli: 400, is_flying: false, tint_pct: None, anim_indices: [7usize, 4, 0, 2], anim_files: None, rotation_y_mrad: 0, is_healer: false },
        EnemyType::Jellyfish => EnemyStats { hp: 40, speed_centi: 250, armor: 0, magic_resist_pct: 30, gold_reward: 19, model_path: "models/enemies/Hywirl.gltf", model_scale_milli: 400, is_flying: true, tint_pct: None, anim_indices: [1usize, 2, 3, 0], anim_files: None, rotation_y_mrad: 0, is_healer: false },
        EnemyType::Sporebloom => EnemyStats { hp: 30, speed_centi: 150, armor: 0, magic_resist_pct: 20, gold_reward: 19, model_path: "models/enemies/GreenBlob.gltf", model_scale_milli: 400, is_flying: false, tint_pct: Some([60u32, 30, 70]), anim_indices: [7usize, 4, 0, 2], anim_files: None, rotation_y_mrad: 0, is_healer: true },
        EnemyType::Trilobite => EnemyStats { hp: 80, speed_centi: 150, armor: 30, magic_resist_pct: 0, gold_reward: 24, model_path: "models/enemies/GreenBlob.gltf", model_scale_milli: 600, is_flying: false, tint_pct: None, anim_indices: [7usize, 4, 0, 2], anim_files: None, rotation_y_mrad: 0, is_healer: false },
        EnemyType::SeaScorpion => EnemyStats { hp: 40, speed_centi: 350, armor: 0, magic_resist_pct: 0, gold_reward: 19, model_path: "models/enemies/GreenSpikyBlob.gltf", model_scale_milli: 300, is_flying: false, tint_pct: None, anim_indices: [7usize, 4, 0, 2], anim_files: None, rotation_y_mrad: 0, is_healer: false },
        EnemyType::Nautilus => EnemyStats { hp: 200, speed_centi: 150, armor: 40, magic_resist_pct: 0, gold_reward: 24, model_path: "models/enemies/GreenSpikyBlob.gltf", model_scale_milli: 400, is_flying: false, tint_pct: Some([20u32, 50, 100]), anim_indices: [7usize, 4, 0, 2], anim_files: None, rotation_y_mrad: 0, is_healer: false },
        EnemyType::GiantWorm => EnemyStats { hp: 600, speed_centi: 120, armor: 10, magic_resist_pct: 10, gold_reward: 100, model_path: "models/enemies/GreenSpikyBlob.gltf", model_scale_milli: 700, is_flying: false, tint_pct: Some([70u32, 30, 20]), anim_indices: [7usize, 4, 0, 2], anim_files: None, rotation_y_mrad: 0, is_healer: false },
        EnemyType::Raptor => EnemyStats { hp: 35, speed_centi: 320, armor: 0, magic_resist_pct: 0, gold_reward: 16, model_path: "models/enemies/velociraptor.glb", model_scale_milli: 150, is_flying: false, tint_pct: Some([24u32, 53, 16]), anim_indices: [4usize, 2, 0, 1], anim_files: None, rotation_y_mrad: 0, is_healer: false },
        EnemyType::Stegosaurus => EnemyStats { hp: 60, speed_centi: 200, armor: 0, magic_resist_pct: 0, gold_reward: 16, model_path: "models/enemies/stegosaurus.glb", model_scale_milli: 180, is_flying: false, tint_pct: Some([24u32, 53, 42]), anim_indices: [4usize, 2, 0, 1], anim_files: None, rotation_y_mrad: 0, is_healer: false },
        EnemyType::Parasaur => EnemyStats { hp: 55, speed_centi: 200, armor: 0, magic_resist_pct: 0, gold_reward: 15, model_path: "models/enemies/parasaurolophus.glb", model_scale_milli: 150, is_flying: false, tint_pct: Some([33u32, 67, 27]), anim_indices: [4usize, 2, 0, 1], anim_files: None, rotation_y_mrad: 0, is_healer: false },
        EnemyType::Triceratops => EnemyStats { hp: 180, speed_centi: 150, armor: 35, magic_resist_pct: 10, gold_reward: 24, model_path: "models/enemies/triceratops.glb", model_scale_milli: 200, is_flying: false, tint_pct: Some([77u32, 47, 19]), anim_indices: [4usize, 2, 0, 1], anim_files: None, rotation_y_mrad: 0, is_healer: false },
        EnemyType::Pterodactyl => EnemyStats { hp: 40, speed_centi: 250, armor: 0, magic_resist_pct: 30, gold_reward: 19, model_path: "models/enemies/dragon.glb", model_scale_milli: 350, is_flying: true, tint_pct: Some([80u32, 27, 20]), anim_indices: [3usize, 3, 0, 2], anim_files: None, rotation_y_mrad: 0, is_healer: false },
        EnemyType::CompyHealer => EnemyStats { hp: 30, speed_centi: 200, armor: 0, magic_resist_pct: 20, gold_reward: 19, model_path: "models/enemies/parasaurolophus.glb", model_scale_milli: 120, is_flying: false, tint_pct: Some([67u32, 33, 80]), anim_indices: [4usize, 2, 0, 1], anim_files: None, rotation_y_mrad: 0, is_healer: true },
        EnemyType::TRex => EnemyStats { hp: 550, speed_centi: 110, armor: 15, magic_resist_pct: 10, gold_reward: 90, model_path: "models/enemies/trex.glb", model_scale_milli: 350, is_flying: false, tint_pct: Some([53u32, 27, 13]), anim_indices: [4usize, 2, 0, 1], anim_files: None, rotation_y_mrad: 0, is_healer: false },
        EnemyType::Caveman => EnemyStats { hp: 55, speed_centi: 200, armor: 0, magic_resist_pct: 0, gold_reward: 16, model_path: "models/enemies/caveman.glb", model_scale_milli: 1000, is_flying: false, tint_pct: None, anim_indices: [255usize, 255, 255, 255], anim_files: Some(SKINNED_ANIMS), rotation_y_mrad: 0, is_healer: false },
        EnemyType::Sabertooth => EnemyStats { hp: 40, speed_centi: 300, armor: 0, magic_resist_pct: 0, gold_reward: 17, model_path: "models/enemies/sabertooth.glb", model_scale_milli: 1200, is_flying: false, tint_pct: None, anim_indices: [0usize, 0, 0, 0], anim_files: None, rotation_y_mrad: 0, is_healer: false },
        EnemyType::Mammoth => EnemyStats { hp: 200, speed_centi: 150, armor: 40, magic_resist_pct: 0, gold_reward: 26, model_path: "models/enemies/mammoth.glb", model_scale_milli: 1600, is_flying: false, tint_pct: None, anim_indices: [2usize, 1, 0, 0], anim_files: None, rotation_y_mrad: 0, is_healer: false },
        EnemyType::Shaman => EnemyStats { hp: 35, speed_centi: 180, armor: 0, magic_resist_pct: 20, gold_reward: 20, model_path: "models/enemies/shaman.glb", model_scale_milli: 700, is_flying: false, tint_pct: None, anim_indices: [255usize, 255, 255, 255], anim_files: Some(SKINNED_ANIMS), rotation_y_mrad: 0, is_healer: true },
        EnemyType::GiantEagle => EnemyStats { hp: 45, speed_centi: 250, armor: 0, magic_resist_pct: 30, gold_reward: 20, model_path: "models/enemies/eagle.glb", model_scale_milli: 25, is_flying: true, tint_pct: None, anim_indices: [0usize, 0, 0, 0], anim_files: None, rotation_y_mrad: 0, is_healer: false },
        EnemyType::Dodo => EnemyStats { hp: 35, speed_centi: 300, armor: 0, magic_resist_pct: 0, gold_reward: 16, model_path: "models/enemies/dodo.glb", model_scale_milli: 130, is_flying: false, tint_pct: None, anim_indices: [255usize, 255, 255, 255], anim_files: None, rotation_y_mrad: 0, is_healer: false },
        EnemyType::WoollyRhino => EnemyStats { hp: 650, speed_centi: 100, armor: 20, magic_resist_pct: 10, gold_reward: 100, model_path: "models/enemies/woolly-rhino.glb", model_scale_milli: 2500, is_flying: false, tint_pct: None, anim_indices: [2usize, 2, 0, 1], anim_files: None, rotation_y_mrad: 0, is_healer: false },
        EnemyType::Legionary => EnemyStats { hp: 65, speed_centi: 200, armor: 0, magic_resist_pct: 10, gold_reward: 17, model_path: "models/enemies/legionary.glb", model_scale_milli: 15, is_flying: false, tint_pct: None, anim_indices: [255usize, 255, 255, 255], anim_files: Some(LEGIONARY_ANIMS), rotation_y_mrad: 0, is_healer: false },
        EnemyType::Lion => EnemyStats { hp: 45, speed_centi: 300, armor: 0, magic_resist_pct: 0, gold_reward: 18, model_path: "models/enemies/lion.glb", model_scale_milli: 1500, is_flying: false, tint_pct: Some([82u32, 62, 32]), anim_indices: [2usize, 3, 0, 1], anim_files: None, rotation_y_mrad: 0, is_healer: false },
        EnemyType::WarElephant => EnemyStats { hp: 250, speed_centi: 150, armor: 50, magic_resist_pct: 15, gold_reward: 28, model_path: "models/enemies/war-elephant.glb", model_scale_milli: 2500, is_flying: false, tint_pct: None, anim_indices: [2usize, 2, 0, 1], anim_files: None, rotation_y_mrad: 0, is_healer: false },
        EnemyType::EagleScout => EnemyStats { hp: 40, speed_centi: 250, armor: 0, magic_resist_pct: 30, gold_reward: 20, model_path: "models/enemies/eagle.glb", model_scale_milli: 30, is_flying: true, tint_pct: Some([45u32, 30, 18]), anim_indices: [0usize, 0, 0, 0], anim_files: None, rotation_y_mrad: 0, is_healer: false },
        EnemyType::Medicus => EnemyStats { hp: 40, speed_centi: 180, armor: 0, magic_resist_pct: 20, gold_reward: 22, model_path: "models/enemies/medicus.glb", model_scale_milli: 700, is_flying: false, tint_pct: None, anim_indices: [255usize, 255, 255, 255], anim_files: Some(SKINNED_ANIMS), rotation_y_mrad: 0, is_healer: true },
        EnemyType::Minotaur => EnemyStats { hp: 700, speed_centi: 100, armor: 15, magic_resist_pct: 15, gold_reward: 110, model_path: "models/enemies/minotaur-mixamo.glb", model_scale_milli: 1200, is_flying: false, tint_pct: Some([45u32, 30, 20]), anim_indices: [255usize, 255, 255, 255], anim_files: Some(SKINNED_ANIMS), rotation_y_mrad: 0, is_healer: false },
        EnemyType::Footman => EnemyStats { hp: 70, speed_centi: 200, armor: 0, magic_resist_pct: 10, gold_reward: 18, model_path: "models/enemies/footman.glb", model_scale_milli: 1000, is_flying: false, tint_pct: None, anim_indices: [255usize, 255, 255, 255], anim_files: Some(SKINNED_ANIMS), rotation_y_mrad: 0, is_healer: false },
        EnemyType::Cavalry => EnemyStats { hp: 50, speed_centi: 300, armor: 0, magic_resist_pct: 0, gold_reward: 19, model_path: "models/enemies/cavalry-horse.glb", model_scale_milli: 500, is_flying: false, tint_pct: None, anim_indices: [1usize, 3, 2, 3], anim_files: None, rotation_y_mrad: 0, is_healer: false },
        EnemyType::Knight => EnemyStats { hp: 220, speed_centi: 150, armor: 45, magic_resist_pct: 20, gold_reward: 26, model_path: "models/enemies/knight.glb", model_scale_milli: 800, is_flying: false, tint_pct: None, anim_indices: [255usize, 255, 255, 255], anim_files: Some(SKINNED_ANIMS), rotation_y_mrad: 0, is_healer: false },
        EnemyType::Wyvern => EnemyStats { hp: 50, speed_centi: 250, armor: 0, magic_resist_pct: 30, gold_reward: 22, model_path: "models/enemies/dragon.glb", model_scale_milli: 300, is_flying: true, tint_pct: None, anim_indices: [3usize, 3, 0, 2], anim_files: None, rotation_y_mrad: 0, is_healer: false },
        EnemyType::Priest => EnemyStats { hp: 35, speed_centi: 180, armor: 0, magic_resist_pct: 20, gold_reward: 22, model_path: "models/enemies/medicus.glb", model_scale_milli: 600, is_flying: false, tint_pct: Some([75u32, 60, 25]), anim_indices: [255usize, 255, 255, 255], anim_files: Some(SKINNED_ANIMS), rotation_y_mrad: 0, is_healer: true },
        EnemyType::Dragon => EnemyStats { hp: 800, speed_centi: 120, armor: 10, magic_resist_pct: 15, gold_reward: 120, model_path: "models/enemies/dragon.glb", model_scale_milli: 700, is_flying: false, tint_pct: Some([80u32, 20, 10]), anim_indices: [3usize, 3, 0, 2], anim_files: None, rotation_y_mrad: 0, is_healer: false },
    }
}

// ---------------------------------------------------------------------------
// Tower stats
// ---------------------------------------------------------------------------

pub struct TowerStats {
    pub name: &'static str,
    pub cost: u32,
    pub damage: u32,
    /// Attacks per second, in hundredths.
    pub attack_speed_centi: u32,
    pub range_deci: u32,
    pub model_path: &'static str,
    pub model_scale_centi: u32,
}

/// The highest tower level (levels count from 0).
pub const TOWER_MAX_LEVEL: u8 = 2;

/// The stats of a tower of the given element and level.
pub open spec fn tower_stats_spec(element: Element, level: u8) -> TowerStats {
    match (element, level) {
        (Element::Lightning, 0) => TowerStats { name: "Spark Tower", cost: 70, damage: 8, attack_speed_centi: 120, range_deci: 50, model_path: "models/towers/hive-turret.glb", model_scale_centi: 75 },
        (Element::Lightning, 1) => TowerStats { name: "Bolt Tower", cost: 110, damage: 14, attack_speed_centi: 130, range_deci: 55, model_path: "models/towers/hive-turret.glb", model_scale_centi: 85 },
        (Element::Lightning, _) => TowerStats { name: "Storm Tower", cost: 160, damage: 22, attack_speed_centi: 140, range_deci: 60, model_path: "models/towers/hive-turret.glb", model_scale_centi: 90 },
        (Element::Earth, 0) => TowerStats { name: "Clay Barracks", cost: 70, damage: 6, attack_speed_centi: 80, range_deci: 50, model_path: "models/towers/tower-earth.glb", model_scale_centi: 120 },
        (Element::Earth, 1) => TowerStats { name: "Stone Barracks", cost: 110, damage: 9, attack_speed_centi: 90, range_deci: 55, model_path: "models/towers/tower-earth.glb", model_scale_centi: 135 },
        (Element::Earth, _) => TowerStats { name: "Golem Fortress", cost: 160, damage: 14, attack_speed_centi: 100, range_deci: 60, model_path: "models/towers/tower-earth.glb", model_scale_centi: 150 },
        (Element::Ice, 0) => TowerStats { name: "Frost Tower", cost: 100, damage: 15, attack_speed_centi: 60, range_deci: 50, model_path: "models/towers/tower-ice.glb", model_scale_centi: 150 },
        (Element::Ice, 1) => TowerStats { name: "Ice Spire", cost: 160, damage: 27, attack_speed_centi: 65, range_deci: 55, model_path: "models/towers/tower-ice.glb", model_scale_centi: 165 },
        (Element::Ice, _) => TowerStats { name: "Blizzard Tower", cost: 240, damage: 45, attack_speed_centi: 70, range_deci: 60, model_path: "models/towers/tower-ice.glb", model_scale_centi: 180 },
        (Element::Fire, 0) => TowerStats { name: "Ember Cannon", cost: 125, damage: 14, attack_speed_centi: 40, range_deci: 60, model_path: "models/towers/tower-lightning.glb", model_scale_centi: 225 },
        (Element::Fire, 1) => TowerStats { name: "Flame Mortar", cost: 190, damage: 22, attack_speed_centi: 45, range_deci: 65, model_path: "models/towers/tower-lightning.glb", model_scale_centi: 240 },
        (Element::Fire, _) => TowerStats { name: "Inferno Battery", cost: 280, damage: 42, attack_speed_centi: 50, range_deci: 70, model_path: "models/towers/tower-lightning.glb", model_scale_centi: 255 },
    }
}

/// Stats of a tower of `element` at `level` (0 to `TOWER_MAX_LEVEL`).
pub fn tower_stats(element: Element, level: u8) -> (r: TowerStats)
    requires
        level <= TOWER_MAX_LEVEL,
    ensures
        r == tower_stats_spec(element, level),
{
    match (element, level) {
        (Element::Lightning, 0) => TowerStats { name: "Spark Tower", cost: 70, damage: 8, attack_speed_centi: 120, range_deci: 50, model_path: "models/towers/hive-turret.glb", model_scale_centi: 75 },
        (Element::Lightning, 1) => TowerStats { name: "Bolt Tower", cost: 110, damage: 14, attack_speed_centi: 130, range_deci: 55, model_path: "models/towers/hive-turret.glb", model_scale_centi: 85 },
        (Element::Lightning, _) => TowerStats { name: "Storm Tower", cost: 160, damage: 22, attack_speed_centi: 140, range_deci: 60, model_path: "models/towers/hive-turret.glb", model_scale_centi: 90 },
        (Element::Earth, 0) => TowerStats { name: "Clay Barracks", cost: 70, damage: 6, attack_speed_centi: 80, range_deci: 50, model_path: "models/towers/tower-earth.glb", model_scale_centi: 120 },
        (Element::Earth, 1) => TowerStats { name: "Stone Barracks", cost: 110, damage: 9, attack_speed_centi: 90, range_deci: 55, model_path: "models/towers/tower-earth.glb", model_scale_centi: 135 },
        (Element::Earth, _) => TowerStats { name: "Golem Fortress", cost: 160, damage: 14, attack_speed_centi: 100, range_deci: 60, model_path: "models/towers/tower-earth.glb", model_scale_centi: 150 },
        (Element::Ice, 0) => TowerStats { name: "Frost Tower", cost: 100, damage: 15, attack_speed_centi: 60, range_deci: 50, model_path: "models/towers/tower-ice.glb", model_scale_centi: 150 },
        (Element::Ice, 1) => TowerStats { name: "Ice Spire", cost: 160, damage: 27, attack_speed_centi: 65, range_deci: 55, model_path: "models/towers/tower-ice.glb", model_scale_centi: 165 },
        (Element::Ice, _) => TowerStats { name: "Blizzard Tower", cost: 240, damage: 45, attack_speed_centi: 70, range_deci: 60, model_path: "models/towers/tower-ice.glb", model_scale_centi: 180 },
        (Element::Fire, 0) => TowerStats { name: "Ember Cannon", cost: 125, damage: 14, attack_speed_centi: 40, range_deci: 60, model_path: "models/towers/tower-lightning.glb", model_scale_centi: 225 },
        (Element::Fire, 1) => TowerStats { name: "Flame Mortar", cost: 190, damage: 22, attack_speed_centi: 45, range_deci: 65, model_path: "models/towers/tower-lightning.glb", model_scale_centi: 240 },
        (Element::Fire, _) => TowerStats { name: "Inferno Battery", cost: 280, damage: 42, attack_speed_centi: 50, range_deci: 70, model_path: "models/towers/tower-lightning.glb", model_scale_centi: 255 },
    }
}

/// Base cost of a tower element (its level-0 cost).
pub fn tower_base_cost(element: Element) -> (r: u32)
    ensures
        r == tower_stats_spec(element, 0).cost,
{
    tower_stats(element, 0).cost
}

/// Sell refund: 60% of the total investment.
pub const SELL_REFUND_RATE_PCT: u32 = 60;

/// Every tower upgrade costs more than the level before it, and the first level
/// is what the base cost says.
pub proof fn lemma_tower_costs_increase(element: Element)
    ensures
        tower_stats_spec(element, 0).cost < tower_stats_spec(element, 1).cost,
        tower_stats_spec(element, 1).cost < tower_stats_spec(element, 2).cost,
        tower_stats_spec(element, 0).cost > 0,
{
}

// ---------------------------------------------------------------------------
// Tower specializations (at max level)
// ---------------------------------------------------------------------------

#[derive(Debug, Clone, Copy, PartialEq, Eq, Hash, Structural)]
pub enum TowerSpecialization {
    // Lightning
    /// Chain lightning jumps to 2 nearby enemies.
    StormSpire,
    /// Massive single-target damage, slower fire rate.
    Railgun,
    // Earth
    /// Fewer but tankier golems with AoE slam.
    MountainKing,
    /// Slow+damage aura instead of golems.
    BrambleGrove,
    // Ice
    /// Constant AoE slow field instead of projectiles.
    BlizzardTower,
    /// Slowed enemies take 3x crit damage.
    ShatterMage,
    // Fire
    /// Burns create napalm zones on the ground.
    InfernoCannon,
    /// Huge single meteors, slower fire rate.
    MeteorTower,
}

pub struct SpecializationDef {
    pub name: &'static str,
    pub description: &'static str,
    pub cost: u32,
}

/// The value of `element_specializations`.
pub open spec fn element_specializations_spec(element: Element) -> [(TowerSpecialization, SpecializationDef); 2] {
    match element {
        Element::Lightning => [(TowerSpecialization::StormSpire, SpecializationDef { name: "Storm Spire", description: "Chain lightning jumps to 2 nearby enemies", cost: 200 }), (TowerSpecialization::Railgun, SpecializationDef { name: "Railgun Tower", description: "Massive damage, long range, slow fire", cost: 200 })],
        Element::Earth => [(TowerSpecialization::MountainKing, SpecializationDef { name: "Mountain King", description: "1 elite golem: 3x HP, 2x damage", cost: 200 }), (TowerSpecialization::BrambleGrove, SpecializationDef { name: "Bramble Grove", description: "Slow+damage aura, no golems", cost: 200 })],
        Element::Ice => [(TowerSpecialization::BlizzardTower, SpecializationDef { name: "Blizzard Tower", description: "Constant AoE slow field", cost: 250 }), (TowerSpecialization::ShatterMage, SpecializationDef { name: "Shatter Mage", description: "3x damage to slowed enemies", cost: 250 })],
        Element::Fire => [(TowerSpecialization::InfernoCannon, SpecializationDef { name: "Inferno Cannon", description: "Impacts leave burning ground", cost: 250 }), (TowerSpecialization::MeteorTower, SpecializationDef { name: "Meteor Tower", description: "Huge meteors, massive range", cost: 250 })],
    }
}

/// The two specialization options of an element.
pub fn element_specializations(element: Element) -> (r: [(TowerSpecialization, SpecializationDef); 2])
    ensures
        r == element_specializations_spec(element),
{
    match element {
        Element::Lightning => [(TowerSpecialization::StormSpire, SpecializationDef { name: "Storm Spire", description: "Chain lightning jumps to 2 nearby enemies", cost: 200 }), (TowerSpecialization::Railgun, SpecializationDef { name: "Railgun Tower", description: "Massive damage, long range, slow fire", cost: 200 })],
        Element::Earth => [(TowerSpecialization::MountainKing, SpecializationDef { name: "Mountain King", description: "1 elite golem: 3x HP, 2x damage", cost: 200 }), (TowerSpecialization::BrambleGrove, SpecializationDef { name: "Bramble Grove", description: "Slow+damage aura, no golems", cost: 200 })],
        Element::Ice => [(TowerSpecialization::BlizzardTower, SpecializationDef { name: "Blizzard Tower", description: "Constant AoE slow field", cost: 250 }), (TowerSpecialization::ShatterMage, SpecializationDef { name: "Shatter Mage", description: "3x damage to slowed enemies", cost: 250 })],
        Element::Fire => [(TowerSpecialization::InfernoCannon, SpecializationDef { name: "Inferno Cannon", description: "Impacts leave burning ground", cost: 250 }), (TowerSpecialization::MeteorTower, SpecializationDef { name: "Meteor Tower", description: "Huge meteors, massive range", cost: 250 })],
    }
}

/// The element whose towers may take a specialization.
pub open spec fn specialization_element(spec: TowerSpecialization) -> Element {
    match spec {
        TowerSpecialization::StormSpire | TowerSpecialization::Railgun => Element::Lightning,
        TowerSpecialization::MountainKing | TowerSpecialization::BrambleGrove => Element::Earth,
        TowerSpecialization::BlizzardTower | TowerSpecialization::ShatterMage => Element::Ice,
        TowerSpecialization::InfernoCannon | TowerSpecialization::MeteorTower => Element::Fire,
    }
}

/// The options offered for an element are exactly the specializations of that element,
/// two distinct ones.
pub proof fn lemma_specializations_of_element(element: Element, spec: TowerSpecialization)
    ensures
        element_specializations_spec(element)[0].0 != element_specializations_spec(element)[1].0,
        (element_specializations_spec(element)[0].0 == spec || element_specializations_spec(element)[1].0 == spec)
            <==> specialization_element(spec) == element,
{
}

/// Spec upgrade info, for upgrading a specialization to the next spec level.
pub struct SpecUpgrade {
    pub cost: u32,
    pub description: &'static str,
    /// Multiplicative damage bonus on the tower's current damage, in percent.
    pub damage_mult_pct: u32,
    /// Flat range bonus, in tenths.
    pub range_bonus_deci: u32,
}

/// Maximum specialization level (1 = base spec, 2 and 3 are upgrades).
pub const MAX_SPEC_LEVEL: u8 = 3;

/// The value of `spec_upgrade_info`.
pub open spec fn spec_upgrade_info_spec(spec: TowerSpecialization, to_level: u8) -> Option<SpecUpgrade> {
    match (spec, to_level) {
        (TowerSpecialization::StormSpire, 2) => Some(SpecUpgrade { cost: 250, description: "Chains to 3 enemies", damage_mult_pct: 125, range_bonus_deci: 5 }),
        (TowerSpecialization::StormSpire, 3) => Some(SpecUpgrade { cost: 350, description: "Chains to 4 enemies, +stun", damage_mult_pct: 130, range_bonus_deci: 5 }),
        (TowerSpecialization::Railgun, 2) => Some(SpecUpgrade { cost: 250, description: "Pierces 2 enemies", damage_mult_pct: 130, range_bonus_deci: 10 }),
        (TowerSpecialization::Railgun, 3) => Some(SpecUpgrade { cost: 350, description: "Pierces all, armor shred", damage_mult_pct: 135, range_bonus_deci: 10 }),
        (TowerSpecialization::MountainKing, 2) => Some(SpecUpgrade { cost: 250, description: "Golem gains AoE slam", damage_mult_pct: 125, range_bonus_deci: 0 }),
        (TowerSpecialization::MountainKing, 3) => Some(SpecUpgrade { cost: 350, description: "Golem stuns on slam", damage_mult_pct: 130, range_bonus_deci: 0 }),
        (TowerSpecialization::BrambleGrove, 2) => Some(SpecUpgrade { cost: 250, description: "Wider aura, stronger slow", damage_mult_pct: 125, range_bonus_deci: 10 }),
        (TowerSpecialization::BrambleGrove, 3) => Some(SpecUpgrade { cost: 350, description: "Roots enemies briefly", damage_mult_pct: 130, range_bonus_deci: 10 }),
        (TowerSpecialization::BlizzardTower, 2) => Some(SpecUpgrade { cost: 300, description: "Deeper freeze (30% slow)", damage_mult_pct: 120, range_bonus_deci: 5 }),
        (TowerSpecialization::BlizzardTower, 3) => Some(SpecUpgrade { cost: 400, description: "Frostbite: frozen deal 2x dmg", damage_mult_pct: 125, range_bonus_deci: 5 }),
        (TowerSpecialization::ShatterMage, 2) => Some(SpecUpgrade { cost: 300, description: "4x crit on slowed", damage_mult_pct: 125, range_bonus_deci: 5 }),
        (TowerSpecialization::ShatterMage, 3) => Some(SpecUpgrade { cost: 400, description: "5x crit, AoE shatter on kill", damage_mult_pct: 130, range_bonus_deci: 5 }),
        (TowerSpecialization::InfernoCannon, 2) => Some(SpecUpgrade { cost: 300, description: "Larger burn zones", damage_mult_pct: 125, range_bonus_deci: 5 }),
        (TowerSpecialization::InfernoCannon, 3) => Some(SpecUpgrade { cost: 400, description: "Burn zones stack damage", damage_mult_pct: 130, range_bonus_deci: 5 }),
        (TowerSpecialization::MeteorTower, 2) => Some(SpecUpgrade { cost: 300, description: "Wider blast radius", damage_mult_pct: 130, range_bonus_deci: 10 }),
        (TowerSpecialization::MeteorTower, 3) => Some(SpecUpgrade { cost: 400, description: "Volcanic eruption on impact", damage_mult_pct: 135, range_bonus_deci: 10 }),
        _ => None,
    }
}

/// Upgrade info for taking a specialization to `to_level` (2 or 3);
/// `None` when `to_level` is not an upgrade level.
pub fn spec_upgrade_info(spec: TowerSpecialization, to_level: u8) -> (r: Option<SpecUpgrade>)
    ensures
        r == spec_upgrade_info_spec(spec, to_level),
{
    match (spec, to_level) {
        (TowerSpecialization::StormSpire, 2) => Some(SpecUpgrade { cost: 250, description: "Chains to 3 enemies", damage_mult_pct: 125, range_bonus_deci: 5 }),
        (TowerSpecialization::StormSpire, 3) => Some(SpecUpgrade { cost: 350, description: "Chains to 4 enemies, +stun", damage_mult_pct: 130, range_bonus_deci: 5 }),
        (TowerSpecialization::Railgun, 2) => Some(SpecUpgrade { cost: 250, description: "Pierces 2 enemies", damage_mult_pct: 130, range_bonus_deci: 10 }),
        (TowerSpecialization::Railgun, 3) => Some(SpecUpgrade { cost: 350, description: "Pierces all, armor shred", damage_mult_pct: 135, range_bonus_deci: 10 }),
        (TowerSpecialization::MountainKing, 2) => Some(SpecUpgrade { cost: 250, description: "Golem gains AoE slam", damage_mult_pct: 125, range_bonus_deci: 0 }),
        (TowerSpecialization::MountainKing, 3) => Some(SpecUpgrade { cost: 350, description: "Golem stuns on slam", damage_mult_pct: 130, range_bonus_deci: 0 }),
        (TowerSpecialization::BrambleGrove, 2) => Some(SpecUpgrade { cost: 250, description: "Wider aura, stronger slow", damage_mult_pct: 125, range_bonus_deci: 10 }),
        (TowerSpecialization::BrambleGrove, 3) => Some(SpecUpgrade { cost: 350, description: "Roots enemies briefly", damage_mult_pct: 130, range_bonus_deci: 10 }),
        (TowerSpecialization::BlizzardTower, 2) => Some(SpecUpgrade { cost: 300, description: "Deeper freeze (30% slow)", damage_mult_pct: 120, range_bonus_deci: 5 }),
        (TowerSpecialization::BlizzardTower, 3) => Some(SpecUpgrade { cost: 400, description: "Frostbite: frozen deal 2x dmg", damage_mult_pct: 125, range_bonus_deci: 5 }),
        (TowerSpecialization::ShatterMage, 2) => Some(SpecUpgrade { cost: 300, description: "4x crit on slowed", damage_mult_pct: 125, range_bonus_deci: 5 }),
        (TowerSpecialization::ShatterMage, 3) => Some(SpecUpgrade { cost: 400, description: "5x crit, AoE shatter on kill", damage_mult_pct: 130, range_bonus_deci: 5 }),
        (TowerSpecialization::InfernoCannon, 2) => Some(SpecUpgrade { cost: 300, description: "Larger burn zones", damage_mult_pct: 125, range_bonus_deci: 5 }),
        (TowerSpecialization::InfernoCannon, 3) => Some(SpecUpgrade { cost: 400, description: "Burn zones stack damage", damage_mult_pct: 130, range_bonus_deci: 5 }),
        (TowerSpecialization::MeteorTower, 2) => Some(SpecUpgrade { cost: 300, description: "Wider blast radius", damage_mult_pct: 130, range_bonus_deci: 10 }),
        (TowerSpecialization::MeteorTower, 3) => Some(SpecUpgrade { cost: 400, description: "Volcanic eruption on impact", damage_mult_pct: 135, range_bonus_deci: 10 }),
        _ => None,
    }
}

/// An upgrade exists exactly for spec levels 2 and 3, and level 3 costs more than level 2.
pub proof fn lemma_spec_upgrade_levels(spec: TowerSpecialization, to_level: u8)
    ensures
        spec_upgrade_info_spec(spec, to_level) is Some <==> (2 <= to_level && to_level <= MAX_SPEC_LEVEL),
        spec_upgrade_info_spec(spec, 2).unwrap().cost < spec_upgrade_info_spec(spec, 3).unwrap().cost,
{
}
// ---------------------------------------------------------------------------
// Theme colors
// ---------------------------------------------------------------------------

/// The ground, path and sky colors of a level (sRGB, thousandths).
pub struct ThemeColors {
    pub ground_milli: [u32; 3],
    pub path_milli: [u32; 3],
    pub sky_milli: [u32; 3],
}

pub open spec fn primordial_theme_spec() -> ThemeColors {
    ThemeColors { ground_milli: [71u32, 31, 94], path_milli: [165u32, 102, 188], sky_milli: [102u32, 55, 141] }
}

pub fn primordial_theme() -> (r: ThemeColors)
    ensures
        r == primordial_theme_spec(),
{
    ThemeColors { ground_milli: [71u32, 31, 94], path_milli: [165u32, 102, 188], sky_milli: [102u32, 55, 141] }
}

pub open spec fn prehistoric_theme_spec() -> ThemeColors {
    ThemeColors { ground_milli: [184u32, 333, 133], path_milli: [722u32, 604, 416], sky_milli: [529u32, 808, 922] }
}

pub fn prehistoric_theme() -> (r: ThemeColors)
    ensures
        r == prehistoric_theme_spec(),
{
    ThemeColors { ground_milli: [184u32, 333, 133], path_milli: [722u32, 604, 416], sky_milli: [529u32, 808, 922] }
}

pub open spec fn frozen_tundra_theme_spec() -> ThemeColors {
    ThemeColors { ground_milli: [816u32, 867, 910], path_milli: [541u32, 604, 667], sky_milli: [722u32, 816, 910] }
}

pub fn frozen_tundra_theme() -> (r: ThemeColors)
    ensures
        r == frozen_tundra_theme_spec(),
{
    ThemeColors { ground_milli: [816u32, 867, 910], path_milli: [541u32, 604, 667], sky_milli: [722u32, 816, 910] }
}

pub open spec fn ancient_theme_spec() -> ThemeColors {
    ThemeColors { ground_milli: [769u32, 659, 408], path_milli: [604u32, 565, 502], sky_milli: [420u32, 686, 878] }
}

pub fn ancient_theme() -> (r: ThemeColors)
    ensures
        r == ancient_theme_spec(),
{
    ThemeColors { ground_milli: [769u32, 659, 408], path_milli: [604u32, 565, 502], sky_milli: [420u32, 686, 878] }
}

pub open spec fn medieval_theme_spec() -> ThemeColors {
    ThemeColors { ground_milli: [227u32, 408, 157], path_milli: [541u32, 439, 314], sky_milli: [478u32, 604, 690] }
}

pub fn medieval_theme() -> (r: ThemeColors)
    ensures
        r == medieval_theme_spec(),
{
    ThemeColors { ground_milli: [227u32, 408, 157], path_milli: [541u32, 439, 314], sky_milli: [478u32, 604, 690] }
}

/// Default enemy hit-point growth per wave, in thousandths (levels override it).
pub const WAVE_HP_SCALE_MILLI: u32 = 100;
/// Default enemy speed growth per wave, in thousandths (levels override it).
pub const WAVE_SPEED_SCALE_MILLI: u32 = 15;

// ---------------------------------------------------------------------------
// Hero definitions
// ---------------------------------------------------------------------------

#[derive(Debug, Clone, Copy, PartialEq, Eq, Hash, Structural)]
pub enum HeroType {
    SacredMaiden,
    IceHulk,
    NorthernOutsider,
    Pharaoh,
    ScarletMagus,
}

pub struct HeroStats {
    pub name: &'static str,
    pub hp: u32,
    pub damage: u32,
    /// Attacks per second, in hundredths.
    pub attack_speed_centi: u32,
    pub attack_range_deci: u32,
    pub move_speed_deci: u32,
    pub model_path: &'static str,
    pub model_scale_milli: u32,
    /// Extra rotation of the model root about the X axis, in quarter turns.
    pub model_rotation_x_quarter_turns: u32,
    /// Vertical offset of the model, in tenths (positive is up).
    pub model_y_offset_deci: u32,
    pub respawn_time_secs: u32,
    pub idle_anim: &'static str,
    pub attack_anim: &'static str,
    pub run_anim: &'static str,
    /// Keep only the rotation of animated bones, resetting translation and scale to the bind pose.
    pub rotation_only_anims: bool,
    /// Skip stripping and resetting the hips root motion.
    pub skip_root_motion_cancel: bool,
}

/// The value of `hero_stats`.
pub open spec fn hero_stats_spec(hero_type: HeroType) -> HeroStats {
    match hero_type {
        HeroType::SacredMaiden => HeroStats { name: "Aethon", hp: 300, damage: 12, attack_speed_centi: 120, attack_range_deci: 25, move_speed_deci: 50, model_path: "models/heroes/sacred-maiden.glb", model_scale_milli: 1000, model_rotation_x_quarter_turns: 0, model_y_offset_deci: 0, respawn_time_secs: 15, idle_anim: "models/heroes/anims/maiden-idle.glb", attack_anim: "models/heroes/anims/maiden-melee-kick.glb", run_anim: "models/enemies/anims/run.glb", rotation_only_anims: true, skip_root_motion_cancel: true },
        HeroType::IceHulk => HeroStats { name: "Cryo", hp: 600, damage: 20, attack_speed_centi: 70, attack_range_deci: 20, move_speed_deci: 35, model_path: "models/heroes/ice-hulk.glb", model_scale_milli: 1200, model_rotation_x_quarter_turns: 0, model_y_offset_deci: 12, respawn_time_secs: 20, idle_anim: "models/heroes/anims/mutant-idle.glb", attack_anim: "models/heroes/anims/melee-combo.glb", run_anim: "models/enemies/anims/run.glb", rotation_only_anims: true, skip_root_motion_cancel: true },
        HeroType::NorthernOutsider => HeroStats { name: "Gorath", hp: 250, damage: 18, attack_speed_centi: 70, attack_range_deci: 25, move_speed_deci: 60, model_path: "models/heroes/northern-outsider.glb", model_scale_milli: 9, model_rotation_x_quarter_turns: 0, model_y_offset_deci: 0, respawn_time_secs: 12, idle_anim: "models/heroes/anims/mutant-idle.glb", attack_anim: "models/heroes/anims/melee-combo.glb", run_anim: "models/enemies/anims/run.glb", rotation_only_anims: true, skip_root_motion_cancel: true },
        HeroType::Pharaoh => HeroStats { name: "Voltra", hp: 350, damage: 15, attack_speed_centi: 100, attack_range_deci: 30, move_speed_deci: 45, model_path: "models/heroes/pharaoh.glb", model_scale_milli: 15, model_rotation_x_quarter_turns: 1, model_y_offset_deci: 15, respawn_time_secs: 18, idle_anim: "models/heroes/anims/maiden-idle.glb", attack_anim: "models/heroes/anims/maiden-melee-kick.glb", run_anim: "models/enemies/anims/run.glb", rotation_only_anims: true, skip_root_motion_cancel: true },
        HeroType::ScarletMagus => HeroStats { name: "Ignis", hp: 200, damage: 25, attack_speed_centi: 80, attack_range_deci: 50, move_speed_deci: 40, model_path: "models/heroes/scarlet-magus.glb", model_scale_milli: 1000, model_rotation_x_quarter_turns: 0, model_y_offset_deci: 0, respawn_time_secs: 14, idle_anim: "models/heroes/anims/maiden-idle.glb", attack_anim: "models/heroes/anims/maiden-melee-kick.glb", run_anim: "models/enemies/anims/run.glb", rotation_only_anims: true, skip_root_motion_cancel: true },
    }
}

/// Base stats of a hero.
pub fn hero_stats(hero_type: HeroType) -> (r: HeroStats)
    ensures
        r == hero_stats_spec(hero_type),
{
    match hero_type {
        HeroType::SacredMaiden => HeroStats { name: "Aethon", hp: 300, damage: 12, attack_speed_centi: 120, attack_range_deci: 25, move_speed_deci: 50, model_path: "models/heroes/sacred-maiden.glb", model_scale_milli: 1000, model_rotation_x_quarter_turns: 0, model_y_offset_deci: 0, respawn_time_secs: 15, idle_anim: "models/heroes/anims/maiden-idle.glb", attack_anim: "models/heroes/anims/maiden-melee-kick.glb", run_anim: "models/enemies/anims/run.glb", rotation_only_anims: true, skip_root_motion_cancel: true },
        HeroType::IceHulk => HeroStats { name: "Cryo", hp: 600, damage: 20, attack_speed_centi: 70, attack_range_deci: 20, move_speed_deci: 35, model_path: "models/heroes/ice-hulk.glb", model_scale_milli: 1200, model_rotation_x_quarter_turns: 0, model_y_offset_deci: 12, respawn_time_secs: 20, idle_anim: "models/heroes/anims/mutant-idle.glb", attack_anim: "models/heroes/anims/melee-combo.glb", run_anim: "models/enemies/anims/run.glb", rotation_only_anims: true, skip_root_motion_cancel: true },
        HeroType::NorthernOutsider => HeroStats { name: "Gorath", hp: 250, damage: 18, attack_speed_centi: 70, attack_range_deci: 25, move_speed_deci: 60, model_path: "models/heroes/northern-outsider.glb", model_scale_milli: 9, model_rotation_x_quarter_turns: 0, model_y_offset_deci: 0, respawn_time_secs: 12, idle_anim: "models/heroes/anims/mutant-idle.glb", attack_anim: "models/heroes/anims/melee-combo.glb", run_anim: "models/enemies/anims/run.glb", rotation_only_anims: true, skip_root_motion_cancel: true },
        HeroType::Pharaoh => HeroStats { name: "Voltra", hp: 350, damage: 15, attack_speed_centi: 100, attack_range_deci: 30, move_speed_deci: 45, model_path: "models/heroes/pharaoh.glb", model_scale_milli: 15, model_rotation_x_quarter_turns: 1, model_y_offset_deci: 15, respawn_time_secs: 18, idle_anim: "models/heroes/anims/maiden-idle.glb", attack_anim: "models/heroes/anims/maiden-melee-kick.glb", run_anim: "models/enemies/anims/run.glb", rotation_only_anims: true, skip_root_motion_cancel: true },
        HeroType::ScarletMagus => HeroStats { name: "Ignis", hp: 200, damage: 25, attack_speed_centi: 80, attack_range_deci: 50, move_speed_deci: 40, model_path: "models/heroes/scarlet-magus.glb", model_scale_milli: 1000, model_rotation_x_quarter_turns: 0, model_y_offset_deci: 0, respawn_time_secs: 14, idle_anim: "models/heroes/anims/maiden-idle.glb", attack_anim: "models/heroes/anims/maiden-melee-kick.glb", run_anim: "models/enemies/anims/run.glb", rotation_only_anims: true, skip_root_motion_cancel: true },
    }
}

/// Default hero spawn position (near the path entrance).
pub fn hero_spawn_pos() -> (r: GroundPoint)
    ensures
        r == ground_point(-160, 30),
{
    GroundPoint { x_deci: -160, z_deci: 30 }
}

/// Level 2 hero spawn position.
pub fn level2_hero_spawn() -> (r: GroundPoint)
    ensures
        r == ground_point(-160, 100),
{
    GroundPoint { x_deci: -160, z_deci: 100 }
}

// ---------------------------------------------------------------------------
// Levels: paths, build spots and waves
// ---------------------------------------------------------------------------
/// Level 1 path waypoints, as tenths of a world unit on the ground plane.
pub open spec fn level1_path_spec() -> Seq<GroundPoint> {
    seq![ground_point(-180, 0), ground_point(-90, 0), ground_point(-70, -60), ground_point(-30, -70), ground_point(0, 0), ground_point(30, 70), ground_point(70, 70), ground_point(90, 0), ground_point(180, 0)]
}

pub fn level1_path() -> (r: Vec<GroundPoint>)
    ensures
        r@ == level1_path_spec(),
{
    let r = vec![GroundPoint { x_deci: -180, z_deci: 0 }, GroundPoint { x_deci: -90, z_deci: 0 }, GroundPoint { x_deci: -70, z_deci: -60 }, GroundPoint { x_deci: -30, z_deci: -70 }, GroundPoint { x_deci: 0, z_deci: 0 }, GroundPoint { x_deci: 30, z_deci: 70 }, GroundPoint { x_deci: 70, z_deci: 70 }, GroundPoint { x_deci: 90, z_deci: 0 }, GroundPoint { x_deci: 180, z_deci: 0 }];
    assert(r@ =~= level1_path_spec());
    r
}

/// Level 2 path waypoints, as tenths of a world unit on the ground plane.
pub open spec fn level2_path_spec() -> Seq<GroundPoint> {
    seq![ground_point(-180, 80), ground_point(-100, 80), ground_point(-70, 20), ground_point(-30, -40), ground_point(30, -60), ground_point(70, -20), ground_point(50, 50), ground_point(100, 70), ground_point(140, 20), ground_point(180, -40)]
}

pub fn level2_path() -> (r: Vec<GroundPoint>)
    ensures
        r@ == level2_path_spec(),
{
    let r = vec![GroundPoint { x_deci: -180, z_deci: 80 }, GroundPoint { x_deci: -100, z_deci: 80 }, GroundPoint { x_deci: -70, z_deci: 20 }, GroundPoint { x_deci: -30, z_deci: -40 }, GroundPoint { x_deci: 30, z_deci: -60 }, GroundPoint { x_deci: 70, z_deci: -20 }, GroundPoint { x_deci: 50, z_deci: 50 }, GroundPoint { x_deci: 100, z_deci: 70 }, GroundPoint { x_deci: 140, z_deci: 20 }, GroundPoint { x_deci: 180, z_deci: -40 }];
    assert(r@ =~= level2_path_spec());
    r
}

/// Level 3 path waypoints, as tenths of a world unit on the ground plane.
pub open spec fn level3_path_spec() -> Seq<GroundPoint> {
    seq![ground_point(-180, -50), ground_point(-120, -50), ground_point(-80, 0), ground_point(-40, 60), ground_point(20, 60), ground_point(60, 0), ground_point(100, -40), ground_point(140, -40), ground_point(180, 0)]
}

pub fn level3_path() -> (r: Vec<GroundPoint>)
    ensures
        r@ == level3_path_spec(),
{
    let r = vec![GroundPoint { x_deci: -180, z_deci: -50 }, GroundPoint { x_deci: -120, z_deci: -50 }, GroundPoint { x_deci: -80, z_deci: 0 }, GroundPoint { x_deci: -40, z_deci: 60 }, GroundPoint { x_deci: 20, z_deci: 60 }, GroundPoint { x_deci: 60, z_deci: 0 }, GroundPoint { x_deci: 100, z_deci: -40 }, GroundPoint { x_deci: 140, z_deci: -40 }, GroundPoint { x_deci: 180, z_deci: 0 }];
    assert(r@ =~= level3_path_spec());
    r
}

/// Level 4 path waypoints, as tenths of a world unit on the ground plane.
pub open spec fn level4_path_spec() -> Seq<GroundPoint> {
    seq![ground_point(-180, 40), ground_point(-100, 40), ground_point(-60, -30), ground_point(0, -60), ground_point(60, -30), ground_point(100, 40), ground_point(180, 40)]
}

pub fn level4_path() -> (r: Vec<GroundPoint>)
    ensures
        r@ == level4_path_spec(),
{
    let r = vec![GroundPoint { x_deci: -180, z_deci: 40 }, GroundPoint { x_deci: -100, z_deci: 40 }, GroundPoint { x_deci: -60, z_deci: -30 }, GroundPoint { x_deci: 0, z_deci: -60 }, GroundPoint { x_deci: 60, z_deci: -30 }, GroundPoint { x_deci: 100, z_deci: 40 }, GroundPoint { x_deci: 180, z_deci: 40 }];
    assert(r@ =~= level4_path_spec());
    r
}

/// Level 5 path waypoints, as tenths of a world unit on the ground plane.
pub open spec fn level5_path_spec() -> Seq<GroundPoint> {
    seq![ground_point(-180, 0), ground_point(-120, -60), ground_point(-60, -60), ground_point(-20, 0), ground_point(20, 60), ground_point(80, 60), ground_point(120, 0), ground_point(180, 0)]
}

pub fn level5_path() -> (r: Vec<GroundPoint>)
    ensures
        r@ == level5_path_spec(),
{
    let r = vec![GroundPoint { x_deci: -180, z_deci: 0 }, GroundPoint { x_deci: -120, z_deci: -60 }, GroundPoint { x_deci: -60, z_deci: -60 }, GroundPoint { x_deci: -20, z_deci: 0 }, GroundPoint { x_deci: 20, z_deci: 60 }, GroundPoint { x_deci: 80, z_deci: 60 }, GroundPoint { x_deci: 120, z_deci: 0 }, GroundPoint { x_deci: 180, z_deci: 0 }];
    assert(r@ =~= level5_path_spec());
    r
}

/// Level 6 path waypoints, as tenths of a world unit on the ground plane.
pub open spec fn level6_path_spec() -> Seq<GroundPoint> {
    seq![ground_point(-180, 60), ground_point(-100, 60), ground_point(-60, 0), ground_point(0, -60), ground_point(60, -60), ground_point(100, 0), ground_point(140, 60), ground_point(180, 60)]
}

pub fn level6_path() -> (r: Vec<GroundPoint>)
    ensures
        r@ == level6_path_spec(),
{
    let r = vec![GroundPoint { x_deci: -180, z_deci: 60 }, GroundPoint { x_deci: -100, z_deci: 60 }, GroundPoint { x_deci: -60, z_deci: 0 }, GroundPoint { x_deci: 0, z_deci: -60 }, GroundPoint { x_deci: 60, z_deci: -60 }, GroundPoint { x_deci: 100, z_deci: 0 }, GroundPoint { x_deci: 140, z_deci: 60 }, GroundPoint { x_deci: 180, z_deci: 60 }];
    assert(r@ =~= level6_path_spec());
    r
}

/// Level 7 path waypoints, as tenths of a world unit on the ground plane.
pub open spec fn level7_path_spec() -> Seq<GroundPoint> {
    seq![ground_point(-180, -30), ground_point(-100, -30), ground_point(-60, 40), ground_point(0, 40), ground_point(40, -20), ground_point(100, -20), ground_point(140, 50), ground_point(180, 50)]
}

pub fn level7_path() -> (r: Vec<GroundPoint>)
    ensures
        r@ == level7_path_spec(),
{
    let r = vec![GroundPoint { x_deci: -180, z_deci: -30 }, GroundPoint { x_deci: -100, z_deci: -30 }, GroundPoint { x_deci: -60, z_deci: 40 }, GroundPoint { x_deci: 0, z_deci: 40 }, GroundPoint { x_deci: 40, z_deci: -20 }, GroundPoint { x_deci: 100, z_deci: -20 }, GroundPoint { x_deci: 140, z_deci: 50 }, GroundPoint { x_deci: 180, z_deci: 50 }];
    assert(r@ =~= level7_path_spec());
    r
}

/// Level 8 path waypoints, as tenths of a world unit on the ground plane.
pub open spec fn level8_path_spec() -> Seq<GroundPoint> {
    seq![ground_point(-180, 50), ground_point(-120, 50), ground_point(-80, -20), ground_point(-20, -60), ground_point(40, -20), ground_point(80, 50), ground_point(140, 50), ground_point(180, 0)]
}

pub fn level8_path() -> (r: Vec<GroundPoint>)
    ensures
        r@ == level8_path_spec(),
{
    let r = vec![GroundPoint { x_deci: -180, z_deci: 50 }, GroundPoint { x_deci: -120, z_deci: 50 }, GroundPoint { x_deci: -80, z_deci: -20 }, GroundPoint { x_deci: -20, z_deci: -60 }, GroundPoint { x_deci: 40, z_deci: -20 }, GroundPoint { x_deci: 80, z_deci: 50 }, GroundPoint { x_deci: 140, z_deci: 50 }, GroundPoint { x_deci: 180, z_deci: 0 }];
    assert(r@ =~= level8_path_spec());
    r
}

/// Level 9 path waypoints, as tenths of a world unit on the ground plane.
pub open spec fn level9_path_spec() -> Seq<GroundPoint> {
    seq![ground_point(-180, 0), ground_point(-120, 60), ground_point(-60, 60), ground_point(-20, 0), ground_point(20, -60), ground_point(80, -60), ground_point(120, 0), ground_point(180, 0)]
}

pub fn level9_path() -> (r: Vec<GroundPoint>)
    ensures
        r@ == level9_path_spec(),
{
    let r = vec![GroundPoint { x_deci: -180, z_deci: 0 }, GroundPoint { x_deci: -120, z_deci: 60 }, GroundPoint { x_deci: -60, z_deci: 60 }, GroundPoint { x_deci: -20, z_deci: 0 }, GroundPoint { x_deci: 20, z_deci: -60 }, GroundPoint { x_deci: 80, z_deci: -60 }, GroundPoint { x_deci: 120, z_deci: 0 }, GroundPoint { x_deci: 180, z_deci: 0 }];
    assert(r@ =~= level9_path_spec());
    r
}

/// Level 10 path waypoints, as tenths of a world unit on the ground plane.
pub open spec fn level10_path_spec() -> Seq<GroundPoint> {
    seq![ground_point(-180, -40), ground_point(-120, -40), ground_point(-80, 30), ground_point(-20, 70), ground_point(40, 30), ground_point(80, -40), ground_point(140, -40), ground_point(180, 20)]
}

pub fn level10_path() -> (r: Vec<GroundPoint>)
    ensures
        r@ == level10_path_spec(),
{
    let r = vec![GroundPoint { x_deci: -180, z_deci: -40 }, GroundPoint { x_deci: -120, z_deci: -40 }, GroundPoint { x_deci: -80, z_deci: 30 }, GroundPoint { x_deci: -20, z_deci: 70 }, GroundPoint { x_deci: 40, z_deci: 30 }, GroundPoint { x_deci: 80, z_deci: -40 }, GroundPoint { x_deci: 140, z_deci: -40 }, GroundPoint { x_deci: 180, z_deci: 20 }];
    assert(r@ =~= level10_path_spec());
    r
}

/// Level 1 build spots, as tenths of a world unit on the ground plane.
pub open spec fn level1_build_spots_spec() -> Seq<GroundPoint> {
    seq![ground_point(-80, 30), ground_point(-100, -25), ground_point(-40, -90), ground_point(-10, 40), ground_point(10, -40), ground_point(40, 95), ground_point(100, 30), ground_point(80, -40)]
}

pub fn level1_build_spots() -> (r: Vec<GroundPoint>)
    ensures
        r@ == level1_build_spots_spec(),
{
    let r = vec![GroundPoint { x_deci: -80, z_deci: 30 }, GroundPoint { x_deci: -100, z_deci: -25 }, GroundPoint { x_deci: -40, z_deci: -90 }, GroundPoint { x_deci: -10, z_deci: 40 }, GroundPoint { x_deci: 10, z_deci: -40 }, GroundPoint { x_deci: 40, z_deci: 95 }, GroundPoint { x_deci: 100, z_deci: 30 }, GroundPoint { x_deci: 80, z_deci: -40 }];
    assert(r@ =~= level1_build_spots_spec());
    r
}

/// Level 2 build spots, as tenths of a world unit on the ground plane.
pub open spec fn level2_build_spots_spec() -> Seq<GroundPoint> {
    seq![ground_point(-120, 40), ground_point(-80, -20), ground_point(-50, 60), ground_point(-10, -80), ground_point(50, -80), ground_point(90, -40), ground_point(30, 70), ground_point(80, 90), ground_point(140, 65), ground_point(185, -5)]
}

pub fn level2_build_spots() -> (r: Vec<GroundPoint>)
    ensures
        r@ == level2_build_spots_spec(),
{
    let r = vec![GroundPoint { x_deci: -120, z_deci: 40 }, GroundPoint { x_deci: -80, z_deci: -20 }, GroundPoint { x_deci: -50, z_deci: 60 }, GroundPoint { x_deci: -10, z_deci: -80 }, GroundPoint { x_deci: 50, z_deci: -80 }, GroundPoint { x_deci: 90, z_deci: -40 }, GroundPoint { x_deci: 30, z_deci: 70 }, GroundPoint { x_deci: 80, z_deci: 90 }, GroundPoint { x_deci: 140, z_deci: 65 }, GroundPoint { x_deci: 185, z_deci: -5 }];
    assert(r@ =~= level2_build_spots_spec());
    r
}

/// Level 3 build spots, as tenths of a world unit on the ground plane.
pub open spec fn level3_build_spots_spec() -> Seq<GroundPoint> {
    seq![ground_point(-140, -80), ground_point(-100, 30), ground_point(-60, -30), ground_point(-20, 90), ground_point(15, 15), ground_point(80, -70), ground_point(80, 30), ground_point(120, -70), ground_point(160, 30)]
}

pub fn level3_build_spots() -> (r: Vec<GroundPoint>)
    ensures
        r@ == level3_build_spots_spec(),
{
    let r = vec![GroundPoint { x_deci: -140, z_deci: -80 }, GroundPoint { x_deci: -100, z_deci: 30 }, GroundPoint { x_deci: -60, z_deci: -30 }, GroundPoint { x_deci: -20, z_deci: 90 }, GroundPoint { x_deci: 15, z_deci: 15 }, GroundPoint { x_deci: 80, z_deci: -70 }, GroundPoint { x_deci: 80, z_deci: 30 }, GroundPoint { x_deci: 120, z_deci: -70 }, GroundPoint { x_deci: 160, z_deci: 30 }];
    assert(r@ =~= level3_build_spots_spec());
    r
}

/// Level 4 build spots, as tenths of a world unit on the ground plane.
pub open spec fn level4_build_spots_spec() -> Seq<GroundPoint> {
    seq![ground_point(-140, 70), ground_point(-120, 0), ground_point(-80, -60), ground_point(-30, 0), ground_point(30, -90), ground_point(30, 0), ground_point(80, -60), ground_point(80, 70), ground_point(140, 70)]
}

pub fn level4_build_spots() -> (r: Vec<GroundPoint>)
    ensures
        r@ == level4_build_spots_spec(),
{
    let r = vec![GroundPoint { x_deci: -140, z_deci: 70 }, GroundPoint { x_deci: -120, z_deci: 0 }, GroundPoint { x_deci: -80, z_deci: -60 }, GroundPoint { x_deci: -30, z_deci: 0 }, GroundPoint { x_deci: 30, z_deci: -90 }, GroundPoint { x_deci: 30, z_deci: 0 }, GroundPoint { x_deci: 80, z_deci: -60 }, GroundPoint { x_deci: 80, z_deci: 70 }, GroundPoint { x_deci: 140, z_deci: 70 }];
    assert(r@ =~= level4_build_spots_spec());
    r
}

/// Level 5 build spots, as tenths of a world unit on the ground plane.
pub open spec fn level5_build_spots_spec() -> Seq<GroundPoint> {
    seq![ground_point(-150, 0), ground_point(-140, -90), ground_point(-80, -30), ground_point(-40, -90), ground_point(-20, 45), ground_point(50, 90), ground_point(50, 30), ground_point(115, 45), ground_point(140, -30)]
}

pub fn level5_build_spots() -> (r: Vec<GroundPoint>)
    ensures
        r@ == level5_build_spots_spec(),
{
    let r = vec![GroundPoint { x_deci: -150, z_deci: 0 }, GroundPoint { x_deci: -140, z_deci: -90 }, GroundPoint { x_deci: -80, z_deci: -30 }, GroundPoint { x_deci: -40, z_deci: -90 }, GroundPoint { x_deci: -20, z_deci: 45 }, GroundPoint { x_deci: 50, z_deci: 90 }, GroundPoint { x_deci: 50, z_deci: 30 }, GroundPoint { x_deci: 115, z_deci: 45 }, GroundPoint { x_deci: 140, z_deci: -30 }];
    assert(r@ =~= level5_build_spots_spec());
    r
}

/// Level 6 build spots, as tenths of a world unit on the ground plane.
pub open spec fn level6_build_spots_spec() -> Seq<GroundPoint> {
    seq![ground_point(-140, 90), ground_point(-120, 20), ground_point(-80, -30), ground_point(-30, 30), ground_point(-30, -90), ground_point(30, -30), ground_point(80, -90), ground_point(80, 30), ground_point(120, 90), ground_point(160, 30)]
}

pub fn level6_build_spots() -> (r: Vec<GroundPoint>)
    ensures
        r@ == level6_build_spots_spec(),
{
    let r = vec![GroundPoint { x_deci: -140, z_deci: 90 }, GroundPoint { x_deci: -120, z_deci: 20 }, GroundPoint { x_deci: -80, z_deci: -30 }, GroundPoint { x_deci: -30, z_deci: 30 }, GroundPoint { x_deci: -30, z_deci: -90 }, GroundPoint { x_deci: 30, z_deci: -30 }, GroundPoint { x_deci: 80, z_deci: -90 }, GroundPoint { x_deci: 80, z_deci: 30 }, GroundPoint { x_deci: 120, z_deci: 90 }, GroundPoint { x_deci: 160, z_deci: 30 }];
    assert(r@ =~= level6_build_spots_spec());
    r
}

/// Level 7 build spots, as tenths of a world unit on the ground plane.
pub open spec fn level7_build_spots_spec() -> Seq<GroundPoint> {
    seq![ground_point(-140, -60), ground_point(-120, 10), ground_point(-80, 70), ground_point(-30, 0), ground_point(20, 70), ground_point(20, -50), ground_point(70, 20), ground_point(120, -50), ground_point(120, 80), ground_point(160, 20)]
}

pub fn level7_build_spots() -> (r: Vec<GroundPoint>)
    ensures
        r@ == level7_build_spots_spec(),
{
    let r = vec![GroundPoint { x_deci: -140, z_deci: -60 }, GroundPoint { x_deci: -120, z_deci: 10 }, GroundPoint { x_deci: -80, z_deci: 70 }, GroundPoint { x_deci: -30, z_deci: 0 }, GroundPoint { x_deci: 20, z_deci: 70 }, GroundPoint { x_deci: 20, z_deci: -50 }, GroundPoint { x_deci: 70, z_deci: 20 }, GroundPoint { x_deci: 120, z_deci: -50 }, GroundPoint { x_deci: 120, z_deci: 80 }, GroundPoint { x_deci: 160, z_deci: 20 }];
    assert(r@ =~= level7_build_spots_spec());
    r
}

/// Level 8 build spots, as tenths of a world unit on the ground plane.
pub open spec fn level8_build_spots_spec() -> Seq<GroundPoint> {
    seq![ground_point(-140, 80), ground_point(-140, 10), ground_point(-100, -50), ground_point(-50, 20), ground_point(-50, -90), ground_point(10, -5), ground_point(60, -50), ground_point(60, 80), ground_point(110, 20), ground_point(160, -30)]
}

pub fn level8_build_spots() -> (r: Vec<GroundPoint>)
    ensures
        r@ == level8_build_spots_spec(),
{
    let r = vec![GroundPoint { x_deci: -140, z_deci: 80 }, GroundPoint { x_deci: -140, z_deci: 10 }, GroundPoint { x_deci: -100, z_deci: -50 }, GroundPoint { x_deci: -50, z_deci: 20 }, GroundPoint { x_deci: -50, z_deci: -90 }, GroundPoint { x_deci: 10, z_deci: -5 }, GroundPoint { x_deci: 60, z_deci: -50 }, GroundPoint { x_deci: 60, z_deci: 80 }, GroundPoint { x_deci: 110, z_deci: 20 }, GroundPoint { x_deci: 160, z_deci: -30 }];
    assert(r@ =~= level8_build_spots_spec());
    r
}

/// Level 9 build spots, as tenths of a world unit on the ground plane.
pub open spec fn level9_build_spots_spec() -> Seq<GroundPoint> {
    seq![ground_point(-150, 0), ground_point(-140, 90), ground_point(-80, 30), ground_point(-40, 90), ground_point(15, 0), ground_point(50, -90), ground_point(50, -20), ground_point(115, -75), ground_point(100, 30), ground_point(150, -30)]
}

pub fn level9_build_spots() -> (r: Vec<GroundPoint>)
    ensures
        r@ == level9_build_spots_spec(),
{
    let r = vec![GroundPoint { x_deci: -150, z_deci: 0 }, GroundPoint { x_deci: -140, z_deci: 90 }, GroundPoint { x_deci: -80, z_deci: 30 }, GroundPoint { x_deci: -40, z_deci: 90 }, GroundPoint { x_deci: 15, z_deci: 0 }, GroundPoint { x_deci: 50, z_deci: -90 }, GroundPoint { x_deci: 50, z_deci: -20 }, GroundPoint { x_deci: 115, z_deci: -75 }, GroundPoint { x_deci: 100, z_deci: 30 }, GroundPoint { x_deci: 150, z_deci: -30 }];
    assert(r@ =~= level9_build_spots_spec());
    r
}

/// Level 10 build spots, as tenths of a world unit on the ground plane.
pub open spec fn level10_build_spots_spec() -> Seq<GroundPoint> {
    seq![ground_point(-140, -70), ground_point(-140, 0), ground_point(-100, 60), ground_point(-50, 0), ground_point(-50, 90), ground_point(0, 15), ground_point(60, 70), ground_point(60, -70), ground_point(110, 0), ground_point(160, -70), ground_point(160, 50)]
}

pub fn level10_build_spots() -> (r: Vec<GroundPoint>)
    ensures
        r@ == level10_build_spots_spec(),
{
    let r = vec![GroundPoint { x_deci: -140, z_deci: -70 }, GroundPoint { x_deci: -140, z_deci: 0 }, GroundPoint { x_deci: -100, z_deci: 60 }, GroundPoint { x_deci: -50, z_deci: 0 }, GroundPoint { x_deci: -50, z_deci: 90 }, GroundPoint { x_deci: 0, z_deci: 15 }, GroundPoint { x_deci: 60, z_deci: 70 }, GroundPoint { x_deci: 60, z_deci: -70 }, GroundPoint { x_deci: 110, z_deci: 0 }, GroundPoint { x_deci: 160, z_deci: -70 }, GroundPoint { x_deci: 160, z_deci: 50 }];
    assert(r@ =~= level10_build_spots_spec());
    r
}
/// The ten waves of level 1, as plain values.
pub open spec fn level1_waves_spec() -> Seq<WaveSpec> {
    seq![
        wave_spec(10, seq![wave_group(EnemyType::Amoeba, 5, 1000, 0, 0)]),
        wave_spec(10, seq![wave_group(EnemyType::Amoeba, 8, 800, 0, 0)]),
        wave_spec(15, seq![wave_group(EnemyType::Amoeba, 6, 800, 0, 0), wave_group(EnemyType::SeaScorpion, 3, 600, 0, 1)]),
        wave_spec(15, seq![wave_group(EnemyType::Trilobite, 6, 800, 0, 0), wave_group(EnemyType::Amoeba, 5, 700, 0, 1)]),
        wave_spec(20, seq![wave_group(EnemyType::Trilobite, 8, 700, 0, 0), wave_group(EnemyType::SeaScorpion, 4, 500, 2000, 0), wave_group(EnemyType::Nautilus, 2, 1500, 0, 1)]),
        wave_spec(20, seq![wave_group(EnemyType::Nautilus, 4, 1200, 0, 0), wave_group(EnemyType::Amoeba, 5, 500, 1500, 0), wave_group(EnemyType::Amoeba, 5, 500, 0, 1), wave_group(EnemyType::Sporebloom, 2, 1200, 1000, 1)]),
        wave_spec(20, seq![wave_group(EnemyType::SeaScorpion, 8, 400, 0, 0), wave_group(EnemyType::Trilobite, 3, 700, 2000, 0), wave_group(EnemyType::Trilobite, 3, 700, 0, 1), wave_group(EnemyType::Jellyfish, 3, 1000, 1500, 1)]),
        wave_spec(25, seq![wave_group(EnemyType::Nautilus, 5, 1000, 0, 0), wave_group(EnemyType::SeaScorpion, 6, 500, 0, 1), wave_group(EnemyType::Sporebloom, 3, 1000, 1500, 1), wave_group(EnemyType::Trilobite, 8, 600, 0, 2)]),
        wave_spec(25, seq![wave_group(EnemyType::Trilobite, 10, 500, 0, 0), wave_group(EnemyType::Nautilus, 4, 1000, 0, 1), wave_group(EnemyType::Sporebloom, 2, 1000, 1500, 1), wave_group(EnemyType::Jellyfish, 5, 800, 0, 2), wave_group(EnemyType::SeaScorpion, 6, 500, 1000, 2)]),
        wave_spec(30, seq![wave_group(EnemyType::Nautilus, 6, 800, 0, 0), wave_group(EnemyType::SeaScorpion, 5, 400, 1500, 0), wave_group(EnemyType::Nautilus, 4, 800, 0, 1), wave_group(EnemyType::SeaScorpion, 5, 400, 1000, 1), wave_group(EnemyType::Jellyfish, 4, 700, 0, 2)]),
    ]
}

/// The ten waves of level 2, as plain values.
pub open spec fn level2_waves_spec() -> Seq<WaveSpec> {
    seq![
        wave_spec(10, seq![wave_group(EnemyType::Amoeba, 8, 800, 0, 0)]),
        wave_spec(10, seq![wave_group(EnemyType::SeaScorpion, 6, 500, 0, 0), wave_group(EnemyType::Amoeba, 4, 700, 0, 1)]),
        wave_spec(15, seq![wave_group(EnemyType::Trilobite, 8, 700, 0, 0), wave_group(EnemyType::Nautilus, 3, 1200, 0, 1)]),
        wave_spec(15, seq![wave_group(EnemyType::Jellyfish, 6, 700, 0, 0), wave_group(EnemyType::SeaScorpion, 5, 500, 0, 1)]),
        wave_spec(20, seq![wave_group(EnemyType::Nautilus, 5, 1000, 0, 0), wave_group(EnemyType::Sporebloom, 3, 1000, 1500, 0), wave_group(EnemyType::Trilobite, 6, 600, 0, 1)]),
        wave_spec(20, seq![wave_group(EnemyType::SeaScorpion, 10, 400, 0, 0), wave_group(EnemyType::Jellyfish, 4, 800, 0, 1), wave_group(EnemyType::Nautilus, 4, 1000, 2000, 1)]),
        wave_spec(25, seq![wave_group(EnemyType::Nautilus, 8, 800, 0, 0), wave_group(EnemyType::Sporebloom, 4, 800, 1000, 0), wave_group(EnemyType::Trilobite, 8, 500, 0, 1)]),
        wave_spec(25, seq![wave_group(EnemyType::SeaScorpion, 12, 300, 0, 0), wave_group(EnemyType::Jellyfish, 6, 600, 0, 1), wave_group(EnemyType::Nautilus, 6, 800, 0, 2)]),
        wave_spec(30, seq![wave_group(EnemyType::Nautilus, 6, 800, 0, 0), wave_group(EnemyType::Sporebloom, 3, 1000, 1500, 0), wave_group(EnemyType::SeaScorpion, 8, 400, 0, 1), wave_group(EnemyType::Jellyfish, 5, 700, 0, 2), wave_group(EnemyType::Trilobite, 10, 500, 1000, 2)]),
        wave_spec(40, seq![wave_group(EnemyType::Nautilus, 4, 1000, 0, 0), wave_group(EnemyType::Sporebloom, 2, 1000, 1500, 0), wave_group(EnemyType::GiantWorm, 1, 1000, 0, 1), wave_group(EnemyType::SeaScorpion, 8, 400, 1000, 1), wave_group(EnemyType::Jellyfish, 5, 600, 0, 2), wave_group(EnemyType::Nautilus, 4, 800, 1500, 2)]),
    ]
}

/// The ten waves of level 3, as plain values.
pub open spec fn level3_waves_spec() -> Seq<WaveSpec> {
    seq![
        wave_spec(10, seq![wave_group(EnemyType::Stegosaurus, 6, 1000, 0, 0)]),
        wave_spec(10, seq![wave_group(EnemyType::Stegosaurus, 8, 800, 0, 0), wave_group(EnemyType::Raptor, 3, 600, 0, 1)]),
        wave_spec(15, seq![wave_group(EnemyType::Parasaur, 8, 700, 0, 0), wave_group(EnemyType::Raptor, 5, 500, 0, 1)]),
        wave_spec(15, seq![wave_group(EnemyType::Stegosaurus, 6, 700, 0, 0), wave_group(EnemyType::Triceratops, 2, 1200, 0, 1)]),
        wave_spec(20, seq![wave_group(EnemyType::Raptor, 8, 400, 0, 0), wave_group(EnemyType::Triceratops, 3, 1000, 0, 1), wave_group(EnemyType::Pterodactyl, 3, 800, 1500, 1)]),
        wave_spec(20, seq![wave_group(EnemyType::Parasaur, 10, 500, 0, 0), wave_group(EnemyType::CompyHealer, 2, 1000, 1500, 0), wave_group(EnemyType::Triceratops, 4, 1000, 0, 1)]),
        wave_spec(20, seq![wave_group(EnemyType::Stegosaurus, 8, 600, 0, 0), wave_group(EnemyType::Pterodactyl, 4, 700, 0, 1), wave_group(EnemyType::Raptor, 6, 400, 1000, 1)]),
        wave_spec(25, seq![wave_group(EnemyType::Triceratops, 5, 800, 0, 0), wave_group(EnemyType::CompyHealer, 3, 800, 1000, 0), wave_group(EnemyType::Raptor, 10, 300, 0, 1)]),
        wave_spec(25, seq![wave_group(EnemyType::Parasaur, 12, 400, 0, 0), wave_group(EnemyType::Triceratops, 4, 800, 0, 1), wave_group(EnemyType::Pterodactyl, 5, 600, 0, 2), wave_group(EnemyType::CompyHealer, 3, 800, 1000, 2)]),
        wave_spec(30, seq![wave_group(EnemyType::Triceratops, 6, 800, 0, 0), wave_group(EnemyType::CompyHealer, 3, 800, 1000, 0), wave_group(EnemyType::Raptor, 10, 300, 0, 1), wave_group(EnemyType::Pterodactyl, 5, 500, 0, 2)]),
    ]
}

/// The ten waves of level 4, as plain values.
pub open spec fn level4_waves_spec() -> Seq<WaveSpec> {
    seq![
        wave_spec(10, seq![wave_group(EnemyType::Parasaur, 8, 800, 0, 0)]),
        wave_spec(10, seq![wave_group(EnemyType::Raptor, 6, 500, 0, 0), wave_group(EnemyType::Stegosaurus, 6, 700, 0, 1)]),
        wave_spec(15, seq![wave_group(EnemyType::Triceratops, 4, 1000, 0, 0), wave_group(EnemyType::Raptor, 6, 400, 0, 1)]),
        wave_spec(15, seq![wave_group(EnemyType::Pterodactyl, 5, 700, 0, 0), wave_group(EnemyType::Parasaur, 8, 500, 0, 1)]),
        wave_spec(20, seq![wave_group(EnemyType::Triceratops, 5, 800, 0, 0), wave_group(EnemyType::CompyHealer, 3, 800, 1000, 0), wave_group(EnemyType::Raptor, 8, 300, 0, 1)]),
        wave_spec(20, seq![wave_group(EnemyType::Stegosaurus, 10, 500, 0, 0), wave_group(EnemyType::Pterodactyl, 5, 600, 0, 1), wave_group(EnemyType::Triceratops, 4, 1000, 1000, 1)]),
        wave_spec(25, seq![wave_group(EnemyType::Raptor, 12, 300, 0, 0), wave_group(EnemyType::Triceratops, 6, 700, 0, 1), wave_group(EnemyType::CompyHealer, 3, 800, 1000, 1)]),
        wave_spec(25, seq![wave_group(EnemyType::Parasaur, 12, 400, 0, 0), wave_group(EnemyType::Pterodactyl, 6, 500, 0, 1), wave_group(EnemyType::Triceratops, 5, 800, 0, 2)]),
        wave_spec(30, seq![wave_group(EnemyType::Triceratops, 8, 600, 0, 0), wave_group(EnemyType::CompyHealer, 4, 700, 1000, 0), wave_group(EnemyType::Raptor, 12, 300, 0, 1), wave_group(EnemyType::Pterodactyl, 6, 500, 0, 2)]),
        wave_spec(40, seq![wave_group(EnemyType::Triceratops, 4, 800, 0, 0), wave_group(EnemyType::CompyHealer, 2, 1000, 1500, 0), wave_group(EnemyType::TRex, 1, 1000, 0, 1), wave_group(EnemyType::Raptor, 10, 300, 1000, 1), wave_group(EnemyType::Pterodactyl, 5, 500, 0, 2)]),
    ]
}

/// The ten waves of level 5, as plain values.
pub open spec fn level5_waves_spec() -> Seq<WaveSpec> {
    seq![
        wave_spec(10, seq![wave_group(EnemyType::Caveman, 8, 800, 0, 0)]),
        wave_spec(10, seq![wave_group(EnemyType::Caveman, 6, 700, 0, 0), wave_group(EnemyType::Dodo, 4, 500, 0, 1)]),
        wave_spec(15, seq![wave_group(EnemyType::Sabertooth, 6, 500, 0, 0), wave_group(EnemyType::Caveman, 8, 600, 0, 1)]),
        wave_spec(15, seq![wave_group(EnemyType::Mammoth, 3, 1200, 0, 0), wave_group(EnemyType::Dodo, 6, 400, 0, 1)]),
        wave_spec(20, seq![wave_group(EnemyType::Caveman, 8, 500, 0, 0), wave_group(EnemyType::Mammoth, 4, 1000, 0, 1), wave_group(EnemyType::GiantEagle, 3, 800, 1500, 1)]),
        wave_spec(20, seq![wave_group(EnemyType::Sabertooth, 8, 400, 0, 0), wave_group(EnemyType::Shaman, 3, 800, 1000, 0), wave_group(EnemyType::Mammoth, 5, 800, 0, 1)]),
        wave_spec(25, seq![wave_group(EnemyType::Caveman, 12, 400, 0, 0), wave_group(EnemyType::GiantEagle, 4, 700, 0, 1), wave_group(EnemyType::Mammoth, 4, 800, 1000, 1)]),
        wave_spec(25, seq![wave_group(EnemyType::Mammoth, 6, 700, 0, 0), wave_group(EnemyType::Shaman, 3, 800, 1000, 0), wave_group(EnemyType::Sabertooth, 10, 300, 0, 1), wave_group(EnemyType::GiantEagle, 5, 600, 0, 2)]),
        wave_spec(30, seq![wave_group(EnemyType::Caveman, 18, 250, 0, 0), wave_group(EnemyType::Mammoth, 7, 500, 0, 1), wave_group(EnemyType::Shaman, 4, 700, 500, 1), wave_group(EnemyType::GiantEagle, 6, 450, 0, 2)]),
        wave_spec(35, seq![wave_group(EnemyType::Mammoth, 8, 600, 0, 0), wave_group(EnemyType::Shaman, 4, 700, 1000, 0), wave_group(EnemyType::Sabertooth, 15, 250, 0, 1), wave_group(EnemyType::GiantEagle, 7, 450, 0, 2)]),
    ]
}

/// The ten waves of level 6, as plain values.
pub open spec fn level6_waves_spec() -> Seq<WaveSpec> {
    seq![
        wave_spec(10, seq![wave_group(EnemyType::Caveman, 10, 700, 0, 0)]),
        wave_spec(15, seq![wave_group(EnemyType::Sabertooth, 8, 400, 0, 0), wave_group(EnemyType::Caveman, 6, 600, 0, 1)]),
        wave_spec(15, seq![wave_group(EnemyType::Mammoth, 4, 1000, 0, 0), wave_group(EnemyType::Dodo, 8, 400, 0, 1)]),
        wave_spec(20, seq![wave_group(EnemyType::Caveman, 10, 500, 0, 0), wave_group(EnemyType::GiantEagle, 4, 700, 0, 1), wave_group(EnemyType::Mammoth, 3, 1000, 1500, 1)]),
        wave_spec(20, seq![wave_group(EnemyType::Mammoth, 6, 700, 0, 0), wave_group(EnemyType::Shaman, 3, 800, 1000, 0), wave_group(EnemyType::Sabertooth, 10, 300, 0, 1)]),
        wave_spec(25, seq![wave_group(EnemyType::Dodo, 12, 300, 0, 0), wave_group(EnemyType::Mammoth, 5, 800, 0, 1), wave_group(EnemyType::GiantEagle, 5, 600, 0, 2), wave_group(EnemyType::Shaman, 3, 800, 1000, 2)]),
        wave_spec(25, seq![wave_group(EnemyType::Caveman, 15, 300, 0, 0), wave_group(EnemyType::Mammoth, 6, 600, 0, 1), wave_group(EnemyType::Shaman, 4, 700, 500, 1)]),
        wave_spec(25, seq![wave_group(EnemyType::Mammoth, 10, 500, 0, 0), wave_group(EnemyType::Shaman, 5, 600, 1000, 0), wave_group(EnemyType::GiantEagle, 7, 450, 0, 1), wave_group(EnemyType::Sabertooth, 15, 250, 0, 2)]),
        wave_spec(30, seq![wave_group(EnemyType::Sabertooth, 18, 180, 0, 0), wave_group(EnemyType::Mammoth, 8, 500, 0, 1), wave_group(EnemyType::GiantEagle, 7, 450, 0, 2), wave_group(EnemyType::Shaman, 5, 600, 500, 2)]),
        wave_spec(40, seq![wave_group(EnemyType::Mammoth, 5, 700, 0, 0), wave_group(EnemyType::Shaman, 3, 800, 1500, 0), wave_group(EnemyType::WoollyRhino, 1, 1000, 0, 1), wave_group(EnemyType::Sabertooth, 12, 250, 1000, 1), wave_group(EnemyType::GiantEagle, 6, 450, 0, 2)]),
    ]
}

/// The ten waves of level 1.
pub fn level1_waves() -> (r: Vec<WaveDefinition>)
    ensures
        waves_view(r@) == level1_waves_spec(),
{
    let r = vec![
        WaveDefinition { early_call_bonus: 10, groups: vec![
            WaveGroup { enemy_type: EnemyType::Amoeba, count: 5, interval_ms: 1000, delay_ms: 0, pulse: 0 },
        ]},
        WaveDefinition { early_call_bonus: 10, groups: vec![
            WaveGroup { enemy_type: EnemyType::Amoeba, count: 8, interval_ms: 800, delay_ms: 0, pulse: 0 },
        ]},
        WaveDefinition { early_call_bonus: 15, groups: vec![
            WaveGroup { enemy_type: EnemyType::Amoeba, count: 6, interval_ms: 800, delay_ms: 0, pulse: 0 },
            WaveGroup { enemy_type: EnemyType::SeaScorpion, count: 3, interval_ms: 600, delay_ms: 0, pulse: 1 },
        ]},
        WaveDefinition { early_call_bonus: 15, groups: vec![
            WaveGroup { enemy_type: EnemyType::Trilobite, count: 6, interval_ms: 800, delay_ms: 0, pulse: 0 },
            WaveGroup { enemy_type: EnemyType::Amoeba, count: 5, interval_ms: 700, delay_ms: 0, pulse: 1 },
        ]},
        WaveDefinition { early_call_bonus: 20, groups: vec![
            WaveGroup { enemy_type: EnemyType::Trilobite, count: 8, interval_ms: 700, delay_ms: 0, pulse: 0 },
            WaveGroup { enemy_type: EnemyType::SeaScorpion, count: 4, interval_ms: 500, delay_ms: 2000, pulse: 0 },
            WaveGroup { enemy_type: EnemyType::Nautilus, count: 2, interval_ms: 1500, delay_ms: 0, pulse: 1 },
        ]},
        WaveDefinition { early_call_bonus: 20, groups: vec![
            WaveGroup { enemy_type: EnemyType::Nautilus, count: 4, interval_ms: 1200, delay_ms: 0, pulse: 0 },
            WaveGroup { enemy_type: EnemyType::Amoeba, count: 5, interval_ms: 500, delay_ms: 1500, pulse: 0 },
            WaveGroup { enemy_type: EnemyType::Amoeba, count: 5, interval_ms: 500, delay_ms: 0, pulse: 1 },
            WaveGroup { enemy_type: EnemyType::Sporebloom, count: 2, interval_ms: 1200, delay_ms: 1000, pulse: 1 },
        ]},
        WaveDefinition { early_call_bonus: 20, groups: vec![
            WaveGroup { enemy_type: EnemyType::SeaScorpion, count: 8, interval_ms: 400, delay_ms: 0, pulse: 0 },
            WaveGroup { enemy_type: EnemyType::Trilobite, count: 3, interval_ms: 700, delay_ms: 2000, pulse: 0 },
            WaveGroup { enemy_type: EnemyType::Trilobite, count: 3, interval_ms: 700, delay_ms: 0, pulse: 1 },
            WaveGroup { enemy_type: EnemyType::Jellyfish, count: 3, interval_ms: 1000, delay_ms: 1500, pulse: 1 },
        ]},
        WaveDefinition { early_call_bonus: 25, groups: vec![
            WaveGroup { enemy_type: EnemyType::Nautilus, count: 5, interval_ms: 1000, delay_ms: 0, pulse: 0 },
            WaveGroup { enemy_type: EnemyType::SeaScorpion, count: 6, interval_ms: 500, delay_ms: 0, pulse: 1 },
            WaveGroup { enemy_type: EnemyType::Sporebloom, count: 3, interval_ms: 1000, delay_ms: 1500, pulse: 1 },
            WaveGroup { enemy_type: EnemyType::Trilobite, count: 8, interval_ms: 600, delay_ms: 0, pulse: 2 },
        ]},
        WaveDefinition { early_call_bonus: 25, groups: vec![
            WaveGroup { enemy_type: EnemyType::Trilobite, count: 10, interval_ms: 500, delay_ms: 0, pulse: 0 },
            WaveGroup { enemy_type: EnemyType::Nautilus, count: 4, interval_ms: 1000, delay_ms: 0, pulse: 1 },
            WaveGroup { enemy_type: EnemyType::Sporebloom, count: 2, interval_ms: 1000, delay_ms: 1500, pulse: 1 },
            WaveGroup { enemy_type: EnemyType::Jellyfish, count: 5, interval_ms: 800, delay_ms: 0, pulse: 2 },
            WaveGroup { enemy_type: EnemyType::SeaScorpion, count: 6, interval_ms: 500, delay_ms: 1000, pulse: 2 },
        ]},
        WaveDefinition { early_call_bonus: 30, groups: vec![
            WaveGroup { enemy_type: EnemyType::Nautilus, count: 6, interval_ms: 800, delay_ms: 0, pulse: 0 },
            WaveGroup { enemy_type: EnemyType::SeaScorpion, count: 5, interval_ms: 400, delay_ms: 1500, pulse: 0 },
            WaveGroup { enemy_type: EnemyType::Nautilus, count: 4, interval_ms: 800, delay_ms: 0, pulse: 1 },
            WaveGroup { enemy_type: EnemyType::SeaScorpion, count: 5, interval_ms: 400, delay_ms: 1000, pulse: 1 },
            WaveGroup { enemy_type: EnemyType::Jellyfish, count: 4, interval_ms: 700, delay_ms: 0, pulse: 2 },
        ]},
    ];
    assert(waves_view(r@) =~~= level1_waves_spec());
    r
}

/// The ten waves of level 2.
pub fn level2_waves() -> (r: Vec<WaveDefinition>)
    ensures
        waves_view(r@) == level2_waves_spec(),
{
    let r = vec![
        WaveDefinition { early_call_bonus: 10, groups: vec![
            WaveGroup { enemy_type: EnemyType::Amoeba, count: 8, interval_ms: 800, delay_ms: 0, pulse: 0 },
        ]},
        WaveDefinition { early_call_bonus: 10, groups: vec![
            WaveGroup { enemy_type: EnemyType::SeaScorpion, count: 6, interval_ms: 500, delay_ms: 0, pulse: 0 },
            WaveGroup { enemy_type: EnemyType::Amoeba, count: 4, interval_ms: 700, delay_ms: 0, pulse: 1 },
        ]},
        WaveDefinition { early_call_bonus: 15, groups: vec![
            WaveGroup { enemy_type: EnemyType::Trilobite, count: 8, interval_ms: 700, delay_ms: 0, pulse: 0 },
            WaveGroup { enemy_type: EnemyType::Nautilus, count: 3, interval_ms: 1200, delay_ms: 0, pulse: 1 },
        ]},
        WaveDefinition { early_call_bonus: 15, groups: vec![
            WaveGroup { enemy_type: EnemyType::Jellyfish, count: 6, interval_ms: 700, delay_ms: 0, pulse: 0 },
            WaveGroup { enemy_type: EnemyType::SeaScorpion, count: 5, interval_ms: 500, delay_ms: 0, pulse: 1 },
        ]},
        WaveDefinition { early_call_bonus: 20, groups: vec![
            WaveGroup { enemy_type: EnemyType::Nautilus, count: 5, interval_ms: 1000, delay_ms: 0, pulse: 0 },
            WaveGroup { enemy_type: EnemyType::Sporebloom, count: 3, interval_ms: 1000, delay_ms: 1500, pulse: 0 },
            WaveGroup { enemy_type: EnemyType::Trilobite, count: 6, interval_ms: 600, delay_ms: 0, pulse: 1 },
        ]},
        WaveDefinition { early_call_bonus: 20, groups: vec![
            WaveGroup { enemy_type: EnemyType::SeaScorpion, count: 10, interval_ms: 400, delay_ms: 0, pulse: 0 },
            WaveGroup { enemy_type: EnemyType::Jellyfish, count: 4, interval_ms: 800, delay_ms: 0, pulse: 1 },
            WaveGroup { enemy_type: EnemyType::Nautilus, count: 4, interval_ms: 1000, delay_ms: 2000, pulse: 1 },
        ]},
        WaveDefinition { early_call_bonus: 25, groups: vec![
            WaveGroup { enemy_type: EnemyType::Nautilus, count: 8, interval_ms: 800, delay_ms: 0, pulse: 0 },
            WaveGroup { enemy_type: EnemyType::Sporebloom, count: 4, interval_ms: 800, delay_ms: 1000, pulse: 0 },
            WaveGroup { enemy_type: EnemyType::Trilobite, count: 8, interval_ms: 500, delay_ms: 0, pulse: 1 },
        ]},
        WaveDefinition { early_call_bonus: 25, groups: vec![
            WaveGroup { enemy_type: EnemyType::SeaScorpion, count: 12, interval_ms: 300, delay_ms: 0, pulse: 0 },
            WaveGroup { enemy_type: EnemyType::Jellyfish, count: 6, interval_ms: 600, delay_ms: 0, pulse: 1 },
            WaveGroup { enemy_type: EnemyType::Nautilus, count: 6, interval_ms: 800, delay_ms: 0, pulse: 2 },
        ]},
        WaveDefinition { early_call_bonus: 30, groups: vec![
            WaveGroup { enemy_type: EnemyType::Nautilus, count: 6, interval_ms: 800, delay_ms: 0, pulse: 0 },
            WaveGroup { enemy_type: EnemyType::Sporebloom, count: 3, interval_ms: 1000, delay_ms: 1500, pulse: 0 },
            WaveGroup { enemy_type: EnemyType::SeaScorpion, count: 8, interval_ms: 400, delay_ms: 0, pulse: 1 },
            WaveGroup { enemy_type: EnemyType::Jellyfish, count: 5, interval_ms: 700, delay_ms: 0, pulse: 2 },
            WaveGroup { enemy_type: EnemyType::Trilobite, count: 10, interval_ms: 500, delay_ms: 1000, pulse: 2 },
        ]},
        WaveDefinition { early_call_bonus: 40, groups: vec![
            WaveGroup { enemy_type: EnemyType::Nautilus, count: 4, interval_ms: 1000, delay_ms: 0, pulse: 0 },
            WaveGroup { enemy_type: EnemyType::Sporebloom, count: 2, interval_ms: 1000, delay_ms: 1500, pulse: 0 },
            WaveGroup { enemy_type: EnemyType::GiantWorm, count: 1, interval_ms: 1000, delay_ms: 0, pulse: 1 },
            WaveGroup { enemy_type: EnemyType::SeaScorpion, count: 8, interval_ms: 400, delay_ms: 1000, pulse: 1 },
            WaveGroup { enemy_type: EnemyType::Jellyfish, count: 5, interval_ms: 600, delay_ms: 0, pulse: 2 },
            WaveGroup { enemy_type: EnemyType::Nautilus, count: 4, interval_ms: 800, delay_ms: 1500, pulse: 2 },
        ]},
    ];
    assert(waves_view(r@) =~~= level2_waves_spec());
    r
}

/// The ten waves of level 3.
pub fn level3_waves() -> (r: Vec<WaveDefinition>)
    ensures
        waves_view(r@) == level3_waves_spec(),
{
    let r = vec![
        WaveDefinition { early_call_bonus: 10, groups: vec![
            WaveGroup { enemy_type: EnemyType::Stegosaurus, count: 6, interval_ms: 1000, delay_ms: 0, pulse: 0 },
        ]},
        WaveDefinition { early_call_bonus: 10, groups: vec![
            WaveGroup { enemy_type: EnemyType::Stegosaurus, count: 8, interval_ms: 800, delay_ms: 0, pulse: 0 },
            WaveGroup { enemy_type: EnemyType::Raptor, count: 3, interval_ms: 600, delay_ms: 0, pulse: 1 },
        ]},
        WaveDefinition { early_call_bonus: 15, groups: vec![
            WaveGroup { enemy_type: EnemyType::Parasaur, count: 8, interval_ms: 700, delay_ms: 0, pulse: 0 },
            WaveGroup { enemy_type: EnemyType::Raptor, count: 5, interval_ms: 500, delay_ms: 0, pulse: 1 },
        ]},
        WaveDefinition { early_call_bonus: 15, groups: vec![
            WaveGroup { enemy_type: EnemyType::Stegosaurus, count: 6, interval_ms: 700, delay_ms: 0, pulse: 0 },
            WaveGroup { enemy_type: EnemyType::Triceratops, count: 2, interval_ms: 1200, delay_ms: 0, pulse: 1 },
        ]},
        WaveDefinition { early_call_bonus: 20, groups: vec![
            WaveGroup { enemy_type: EnemyType::Raptor, count: 8, interval_ms: 400, delay_ms: 0, pulse: 0 },
            WaveGroup { enemy_type: EnemyType::Triceratops, count: 3, interval_ms: 1000, delay_ms: 0, pulse: 1 },
            WaveGroup { enemy_type: EnemyType::Pterodactyl, count: 3, interval_ms: 800, delay_ms: 1500, pulse: 1 },
        ]},
        WaveDefinition { early_call_bonus: 20, groups: vec![
            WaveGroup { enemy_type: EnemyType::Parasaur, count: 10, interval_ms: 500, delay_ms: 0, pulse: 0 },
            WaveGroup { enemy_type: EnemyType::CompyHealer, count: 2, interval_ms: 1000, delay_ms: 1500, pulse: 0 },
            WaveGroup { enemy_type: EnemyType::Triceratops, count: 4, interval_ms: 1000, delay_ms: 0, pulse: 1 },
        ]},
        WaveDefinition { early_call_bonus: 20, groups: vec![
            WaveGroup { enemy_type: EnemyType::Stegosaurus, count: 8, interval_ms: 600, delay_ms: 0, pulse: 0 },
            WaveGroup { enemy_type: EnemyType::Pterodactyl, count: 4, interval_ms: 700, delay_ms: 0, pulse: 1 },
            WaveGroup { enemy_type: EnemyType::Raptor, count: 6, interval_ms: 400, delay_ms: 1000, pulse: 1 },
        ]},
        WaveDefinition { early_call_bonus: 25, groups: vec![
            WaveGroup { enemy_type: EnemyType::Triceratops, count: 5, interval_ms: 800, delay_ms: 0, pulse: 0 },
            WaveGroup { enemy_type: EnemyType::CompyHealer, count: 3, interval_ms: 800, delay_ms: 1000, pulse: 0 },
            WaveGroup { enemy_type: EnemyType::Raptor, count: 10, interval_ms: 300, delay_ms: 0, pulse: 1 },
        ]},
        WaveDefinition { early_call_bonus: 25, groups: vec![
            WaveGroup { enemy_type: EnemyType::Parasaur, count: 12, interval_ms: 400, delay_ms: 0, pulse: 0 },
            WaveGroup { enemy_type: EnemyType::Triceratops, count: 4, interval_ms: 800, delay_ms: 0, pulse: 1 },
            WaveGroup { enemy_type: EnemyType::Pterodactyl, count: 5, interval_ms: 600, delay_ms: 0, pulse: 2 },
            WaveGroup { enemy_type: EnemyType::CompyHealer, count: 3, interval_ms: 800, delay_ms: 1000, pulse: 2 },
        ]},
        WaveDefinition { early_call_bonus: 30, groups: vec![
            WaveGroup { enemy_type: EnemyType::Triceratops, count: 6, interval_ms: 800, delay_ms: 0, pulse: 0 },
            WaveGroup { enemy_type: EnemyType::CompyHealer, count: 3, interval_ms: 800, delay_ms: 1000, pulse: 0 },
            WaveGroup { enemy_type: EnemyType::Raptor, count: 10, interval_ms: 300, delay_ms: 0, pulse: 1 },
            WaveGroup { enemy_type: EnemyType::Pterodactyl, count: 5, interval_ms: 500, delay_ms: 0, pulse: 2 },
        ]},
    ];
    assert(waves_view(r@) =~~= level3_waves_spec());
    r
}

/// The ten waves of level 4.
pub fn level4_waves() -> (r: Vec<WaveDefinition>)
    ensures
        waves_view(r@) == level4_waves_spec(),
{
    let r = vec![
        WaveDefinition { early_call_bonus: 10, groups: vec![
            WaveGroup { enemy_type: EnemyType::Parasaur, count: 8, interval_ms: 800, delay_ms: 0, pulse: 0 },
        ]},
        WaveDefinition { early_call_bonus: 10, groups: vec![
            WaveGroup { enemy_type: EnemyType::Raptor, count: 6, interval_ms: 500, delay_ms: 0, pulse: 0 },
            WaveGroup { enemy_type: EnemyType::Stegosaurus, count: 6, interval_ms: 700, delay_ms: 0, pulse: 1 },
        ]},
        WaveDefinition { early_call_bonus: 15, groups: vec![
            WaveGroup { enemy_type: EnemyType::Triceratops, count: 4, interval_ms: 1000, delay_ms: 0, pulse: 0 },
            WaveGroup { enemy_type: EnemyType::Raptor, count: 6, interval_ms: 400, delay_ms: 0, pulse: 1 },
        ]},
        WaveDefinition { early_call_bonus: 15, groups: vec![
            WaveGroup { enemy_type: EnemyType::Pterodactyl, count: 5, interval_ms: 700, delay_ms: 0, pulse: 0 },
            WaveGroup { enemy_type: EnemyType::Parasaur, count: 8, interval_ms: 500, delay_ms: 0, pulse: 1 },
        ]},
        WaveDefinition { early_call_bonus: 20, groups: vec![
            WaveGroup { enemy_type: EnemyType::Triceratops, count: 5, interval_ms: 800, delay_ms: 0, pulse: 0 },
            WaveGroup { enemy_type: EnemyType::CompyHealer, count: 3, interval_ms: 800, delay_ms: 1000, pulse: 0 },
            WaveGroup { enemy_type: EnemyType::Raptor, count: 8, interval_ms: 300, delay_ms: 0, pulse: 1 },
        ]},
        WaveDefinition { early_call_bonus: 20, groups: vec![
            WaveGroup { enemy_type: EnemyType::Stegosaurus, count: 10, interval_ms: 500, delay_ms: 0, pulse: 0 },
            WaveGroup { enemy_type: EnemyType::Pterodactyl, count: 5, interval_ms: 600, delay_ms: 0, pulse: 1 },
            WaveGroup { enemy_type: EnemyType::Triceratops, count: 4, interval_ms: 1000, delay_ms: 1000, pulse: 1 },
        ]},
        WaveDefinition { early_call_bonus: 25, groups: vec![
            WaveGroup { enemy_type: EnemyType::Raptor, count: 12, interval_ms: 300, delay_ms: 0, pulse: 0 },
            WaveGroup { enemy_type: EnemyType::Triceratops, count: 6, interval_ms: 700, delay_ms: 0, pulse: 1 },
            WaveGroup { enemy_type: EnemyType::CompyHealer, count: 3, interval_ms: 800, delay_ms: 1000, pulse: 1 },
        ]},
        WaveDefinition { early_call_bonus: 25, groups: vec![
            WaveGroup { enemy_type: EnemyType::Parasaur, count: 12, interval_ms: 400, delay_ms: 0, pulse: 0 },
            WaveGroup { enemy_type: EnemyType::Pterodactyl, count: 6, interval_ms: 500, delay_ms: 0, pulse: 1 },
            WaveGroup { enemy_type: EnemyType::Triceratops, count: 5, interval_ms: 800, delay_ms: 0, pulse: 2 },
        ]},
        WaveDefinition { early_call_bonus: 30, groups: vec![
            WaveGroup { enemy_type: EnemyType::Triceratops, count: 8, interval_ms: 600, delay_ms: 0, pulse: 0 },
            WaveGroup { enemy_type: EnemyType::CompyHealer, count: 4, interval_ms: 700, delay_ms: 1000, pulse: 0 },
            WaveGroup { enemy_type: EnemyType::Raptor, count: 12, interval_ms: 300, delay_ms: 0, pulse: 1 },
            WaveGroup { enemy_type: EnemyType::Pterodactyl, count: 6, interval_ms: 500, delay_ms: 0, pulse: 2 },
        ]},
        WaveDefinition { early_call_bonus: 40, groups: vec![
            WaveGroup { enemy_type: EnemyType::Triceratops, count: 4, interval_ms: 800, delay_ms: 0, pulse: 0 },
            WaveGroup { enemy_type: EnemyType::CompyHealer, count: 2, interval_ms: 1000, delay_ms: 1500, pulse: 0 },
            WaveGroup { enemy_type: EnemyType::TRex, count: 1, interval_ms: 1000, delay_ms: 0, pulse: 1 },
            WaveGroup { enemy_type: EnemyType::Raptor, count: 10, interval_ms: 300, delay_ms: 1000, pulse: 1 },
            WaveGroup { enemy_type: EnemyType::Pterodactyl, count: 5, interval_ms: 500, delay_ms: 0, pulse: 2 },
        ]},
    ];
    assert(waves_view(r@) =~~= level4_waves_spec());
    r
}

/// The ten waves of level 5.
pub fn level5_waves() -> (r: Vec<WaveDefinition>)
    ensures
        waves_view(r@) == level5_waves_spec(),
{
    let r = vec![
        WaveDefinition { early_call_bonus: 10, groups: vec![
            WaveGroup { enemy_type: EnemyType::Caveman, count: 8, interval_ms: 800, delay_ms: 0, pulse: 0 },
        ]},
        WaveDefinition { early_call_bonus: 10, groups: vec![
            WaveGroup { enemy_type: EnemyType::Caveman, count: 6, interval_ms: 700, delay_ms: 0, pulse: 0 },
            WaveGroup { enemy_type: EnemyType::Dodo, count: 4, interval_ms: 500, delay_ms: 0, pulse: 1 },
        ]},
        WaveDefinition { early_call_bonus: 15, groups: vec![
            WaveGroup { enemy_type: EnemyType::Sabertooth, count: 6, interval_ms: 500, delay_ms: 0, pulse: 0 },
            WaveGroup { enemy_type: EnemyType::Caveman, count: 8, interval_ms: 600, delay_ms: 0, pulse: 1 },
        ]},
        WaveDefinition { early_call_bonus: 15, groups: vec![
            WaveGroup { enemy_type: EnemyType::Mammoth, count: 3, interval_ms: 1200, delay_ms: 0, pulse: 0 },
            WaveGroup { enemy_type: EnemyType::Dodo, count: 6, interval_ms: 400, delay_ms: 0, pulse: 1 },
        ]},
        WaveDefinition { early_call_bonus: 20, groups: vec![
            WaveGroup { enemy_type: EnemyType::Caveman, count: 8, interval_ms: 500, delay_ms: 0, pulse: 0 },
            WaveGroup { enemy_type: EnemyType::Mammoth, count: 4, interval_ms: 1000, delay_ms: 0, pulse: 1 },
            WaveGroup { enemy_type: EnemyType::GiantEagle, count: 3, interval_ms: 800, delay_ms: 1500, pulse: 1 },
        ]},
        WaveDefinition { early_call_bonus: 20, groups: vec![
            WaveGroup { enemy_type: EnemyType::Sabertooth, count: 8, interval_ms: 400, delay_ms: 0, pulse: 0 },
            WaveGroup { enemy_type: EnemyType::Shaman, count: 3, interval_ms: 800, delay_ms: 1000, pulse: 0 },
            WaveGroup { enemy_type: EnemyType::Mammoth, count: 5, interval_ms: 800, delay_ms: 0, pulse: 1 },
        ]},
        WaveDefinition { early_call_bonus: 25, groups: vec![
            WaveGroup { enemy_type: EnemyType::Caveman, count: 12, interval_ms: 400, delay_ms: 0, pulse: 0 },
            WaveGroup { enemy_type: EnemyType::GiantEagle, count: 4, interval_ms: 700, delay_ms: 0, pulse: 1 },
            WaveGroup { enemy_type: EnemyType::Mammoth, count: 4, interval_ms: 800, delay_ms: 1000, pulse: 1 },
        ]},
        WaveDefinition { early_call_bonus: 25, groups: vec![
            WaveGroup { enemy_type: EnemyType::Mammoth, count: 6, interval_ms: 700, delay_ms: 0, pulse: 0 },
            WaveGroup { enemy_type: EnemyType::Shaman, count: 3, interval_ms: 800, delay_ms: 1000, pulse: 0 },
            WaveGroup { enemy_type: EnemyType::Sabertooth, count: 10, interval_ms: 300, delay_ms: 0, pulse: 1 },
            WaveGroup { enemy_type: EnemyType::GiantEagle, count: 5, interval_ms: 600, delay_ms: 0, pulse: 2 },
        ]},
        WaveDefinition { early_call_bonus: 30, groups: vec![
            WaveGroup { enemy_type: EnemyType::Caveman, count: 18, interval_ms: 250, delay_ms: 0, pulse: 0 },
            WaveGroup { enemy_type: EnemyType::Mammoth, count: 7, interval_ms: 500, delay_ms: 0, pulse: 1 },
            WaveGroup { enemy_type: EnemyType::Shaman, count: 4, interval_ms: 700, delay_ms: 500, pulse: 1 },
            WaveGroup { enemy_type: EnemyType::GiantEagle, count: 6, interval_ms: 450, delay_ms: 0, pulse: 2 },
        ]},
        WaveDefinition { early_call_bonus: 35, groups: vec![
            WaveGroup { enemy_type: EnemyType::Mammoth, count: 8, interval_ms: 600, delay_ms: 0, pulse: 0 },
            WaveGroup { enemy_type: EnemyType::Shaman, count: 4, interval_ms: 700, delay_ms: 1000, pulse: 0 },
            WaveGroup { enemy_type: EnemyType::Sabertooth, count: 15, interval_ms: 250, delay_ms: 0, pulse: 1 },
            WaveGroup { enemy_type: EnemyType::GiantEagle, count: 7, interval_ms: 450, delay_ms: 0, pulse: 2 },
        ]},
    ];
    assert(waves_view(r@) =~~= level5_waves_spec());
    r
}

/// The ten waves of level 6.
pub fn level6_waves() -> (r: Vec<WaveDefinition>)
    ensures
        waves_view(r@) == level6_waves_spec(),
{
    let r = vec![
        WaveDefinition { early_call_bonus: 10, groups: vec![
            WaveGroup { enemy_type: EnemyType::Caveman, count: 10, interval_ms: 700, delay_ms: 0, pulse: 0 },
        ]},
        WaveDefinition { early_call_bonus: 15, groups: vec![
            WaveGroup { enemy_type: EnemyType::Sabertooth, count: 8, interval_ms: 400, delay_ms: 0, pulse: 0 },
            WaveGroup { enemy_type: EnemyType::Caveman, count: 6, interval_ms: 600, delay_ms: 0, pulse: 1 },
        ]},
        WaveDefinition { early_call_bonus: 15, groups: vec![
            WaveGroup { enemy_type: EnemyType::Mammoth, count: 4, interval_ms: 1000, delay_ms: 0, pulse: 0 },
            WaveGroup { enemy_type: EnemyType::Dodo, count: 8, interval_ms: 400, delay_ms: 0, pulse: 1 },
        ]},
        WaveDefinition { early_call_bonus: 20, groups: vec![
            WaveGroup { enemy_type: EnemyType::Caveman, count: 10, interval_ms: 500, delay_ms: 0, pulse: 0 },
            WaveGroup { enemy_type: EnemyType::GiantEagle, count: 4, interval_ms: 700, delay_ms: 0, pulse: 1 },
            WaveGroup { enemy_type: EnemyType::Mammoth, count: 3, interval_ms: 1000, delay_ms: 1500, pulse: 1 },
        ]},
        WaveDefinition { early_call_bonus: 20, groups: vec![
            WaveGroup { enemy_type: EnemyType::Mammoth, count: 6, interval_ms: 700, delay_ms: 0, pulse: 0 },
            WaveGroup { enemy_type: EnemyType::Shaman, count: 3, interval_ms: 800, delay_ms: 1000, pulse: 0 },
            WaveGroup { enemy_type: EnemyType::Sabertooth, count: 10, interval_ms: 300, delay_ms: 0, pulse: 1 },
        ]},
        WaveDefinition { early_call_bonus: 25, groups: vec![
            WaveGroup { enemy_type: EnemyType::Dodo, count: 12, interval_ms: 300, delay_ms: 0, pulse: 0 },
            WaveGroup { enemy_type: EnemyType::Mammoth, count: 5, interval_ms: 800, delay_ms: 0, pulse: 1 },
            WaveGroup { enemy_type: EnemyType::GiantEagle, count: 5, interval_ms: 600, delay_ms: 0, pulse: 2 },
            WaveGroup { enemy_type: EnemyType::Shaman, count: 3, interval_ms: 800, delay_ms: 1000, pulse: 2 },
        ]},
        WaveDefinition { early_call_bonus: 25, groups: vec![
            WaveGroup { enemy_type: EnemyType::Caveman, count: 15, interval_ms: 300, delay_ms: 0, pulse: 0 },
            WaveGroup { enemy_type: EnemyType::Mammoth, count: 6, interval_ms: 600, delay_ms: 0, pulse: 1 },
            WaveGroup { enemy_type: EnemyType::Shaman, count: 4, interval_ms: 700, delay_ms: 500, pulse: 1 },
        ]},
        WaveDefinition { early_call_bonus: 25, groups: vec![
            WaveGroup { enemy_type: EnemyType::Mammoth, count: 10, interval_ms: 500, delay_ms: 0, pulse: 0 },
            WaveGroup { enemy_type: EnemyType::Shaman, count: 5, interval_ms: 600, delay_ms: 1000, pulse: 0 },
            WaveGroup { enemy_type: EnemyType::GiantEagle, count: 7, interval_ms: 450, delay_ms: 0, pulse: 1 },
            WaveGroup { enemy_type: EnemyType::Sabertooth, count: 15, interval_ms: 250, delay_ms: 0, pulse: 2 },
        ]},
        WaveDefinition { early_call_bonus: 30, groups: vec![
            WaveGroup { enemy_type: EnemyType::Sabertooth, count: 18, interval_ms: 180, delay_ms: 0, pulse: 0 },
            WaveGroup { enemy_type: EnemyType::Mammoth, count: 8, interval_ms: 500, delay_ms: 0, pulse: 1 },
            WaveGroup { enemy_type: EnemyType::GiantEagle, count: 7, interval_ms: 450, delay_ms: 0, pulse: 2 },
            WaveGroup { enemy_type: EnemyType::Shaman, count: 5, interval_ms: 600, delay_ms: 500, pulse: 2 },
        ]},
        WaveDefinition { early_call_bonus: 40, groups: vec![
            WaveGroup { enemy_type: EnemyType::Mammoth, count: 5, interval_ms: 700, delay_ms: 0, pulse: 0 },
            WaveGroup { enemy_type: EnemyType::Shaman, count: 3, interval_ms: 800, delay_ms: 1500, pulse: 0 },
            WaveGroup { enemy_type: EnemyType::WoollyRhino, count: 1, interval_ms: 1000, delay_ms: 0, pulse: 1 },
            WaveGroup { enemy_type: EnemyType::Sabertooth, count: 12, interval_ms: 250, delay_ms: 1000, pulse: 1 },
            WaveGroup { enemy_type: EnemyType::GiantEagle, count: 6, interval_ms: 450, delay_ms: 0, pulse: 2 },
        ]},
    ];
    assert(waves_view(r@) =~~= level6_waves_spec());
    r
}
/// Roster for generating standardized waves with `make_waves`.
#[derive(Debug, Clone, Copy, PartialEq, Eq, Structural)]
pub struct WaveRoster {
    pub grunt: EnemyType,
    pub fast: EnemyType,
    pub tank: EnemyType,
    pub flyer: EnemyType,
    pub healer: EnemyType,
    pub boss: Option<EnemyType>,
}

/// The ten standard waves built from a roster: a boss finale when the roster has a boss,
/// a heavy final wave otherwise.
pub open spec fn make_waves_spec(r: WaveRoster) -> Seq<WaveSpec> {
    let wave10 = match r.boss {
        Some(boss) => wave_spec(40, seq![wave_group(r.tank, 5, 700, 0, 0), wave_group(r.healer, 3, 800, 1500, 0), wave_group(boss, 1, 1000, 0, 1), wave_group(r.fast, 12, 250, 1000, 1), wave_group(r.flyer, 6, 500, 0, 2), wave_group(r.tank, 5, 600, 1000, 2)]),
        None => wave_spec(40, seq![wave_group(r.grunt, 22, 180, 0, 0), wave_group(r.tank, 10, 500, 0, 1), wave_group(r.flyer, 7, 450, 0, 2), wave_group(r.healer, 5, 600, 1000, 2)]),
    };
    seq![
        wave_spec(10, seq![wave_group(r.grunt, 8, 800, 0, 0)]),
        wave_spec(10, seq![wave_group(r.grunt, 6, 700, 0, 0), wave_group(r.fast, 3, 500, 0, 1)]),
        wave_spec(15, seq![wave_group(r.grunt, 8, 600, 0, 0), wave_group(r.fast, 4, 500, 0, 1)]),
        wave_spec(15, seq![wave_group(r.grunt, 5, 700, 0, 0), wave_group(r.fast, 3, 500, 0, 0), wave_group(r.tank, 2, 1200, 0, 1)]),
        wave_spec(20, seq![wave_group(r.grunt, 8, 500, 0, 0), wave_group(r.fast, 4, 400, 0, 1), wave_group(r.tank, 3, 1000, 1000, 1), wave_group(r.flyer, 2, 800, 0, 2)]),
        wave_spec(20, seq![wave_group(r.grunt, 10, 500, 0, 0), wave_group(r.fast, 5, 400, 0, 1), wave_group(r.tank, 3, 1000, 0, 1), wave_group(r.healer, 2, 1000, 1500, 1)]),
        wave_spec(25, seq![wave_group(r.grunt, 14, 350, 0, 0), wave_group(r.fast, 7, 300, 0, 1), wave_group(r.tank, 5, 700, 0, 1), wave_group(r.flyer, 4, 600, 0, 2), wave_group(r.healer, 3, 800, 1000, 2)]),
        wave_spec(25, seq![wave_group(r.grunt, 15, 350, 0, 0), wave_group(r.fast, 10, 250, 0, 1), wave_group(r.tank, 6, 600, 0, 1), wave_group(r.flyer, 5, 500, 0, 2), wave_group(r.healer, 3, 800, 1000, 2)]),
        wave_spec(30, seq![wave_group(r.grunt, 18, 250, 0, 0), wave_group(r.fast, 10, 250, 0, 1), wave_group(r.tank, 7, 500, 0, 1), wave_group(r.flyer, 6, 450, 0, 2), wave_group(r.healer, 4, 700, 1000, 2)]),
        wave10,
    ]
}

/// Generates ten standardized waves from a roster definition.
pub fn make_waves(r: &WaveRoster) -> (res: Vec<WaveDefinition>)
    ensures
        waves_view(res@) == make_waves_spec(*r),
{
    let wave10 = match r.boss {
        Some(boss) => WaveDefinition { early_call_bonus: 40, groups: vec![
            WaveGroup { enemy_type: r.tank, count: 5, interval_ms: 700, delay_ms: 0, pulse: 0 },
            WaveGroup { enemy_type: r.healer, count: 3, interval_ms: 800, delay_ms: 1500, pulse: 0 },
            WaveGroup { enemy_type: boss, count: 1, interval_ms: 1000, delay_ms: 0, pulse: 1 },
            WaveGroup { enemy_type: r.fast, count: 12, interval_ms: 250, delay_ms: 1000, pulse: 1 },
            WaveGroup { enemy_type: r.flyer, count: 6, interval_ms: 500, delay_ms: 0, pulse: 2 },
            WaveGroup { enemy_type: r.tank, count: 5, interval_ms: 600, delay_ms: 1000, pulse: 2 },
        ]},
        None => WaveDefinition { early_call_bonus: 40, groups: vec![
            WaveGroup { enemy_type: r.grunt, count: 22, interval_ms: 180, delay_ms: 0, pulse: 0 },
            WaveGroup { enemy_type: r.tank, count: 10, interval_ms: 500, delay_ms: 0, pulse: 1 },
            WaveGroup { enemy_type: r.flyer, count: 7, interval_ms: 450, delay_ms: 0, pulse: 2 },
            WaveGroup { enemy_type: r.healer, count: 5, interval_ms: 600, delay_ms: 1000, pulse: 2 },
        ]},
    };
    let res = vec![
        WaveDefinition { early_call_bonus: 10, groups: vec![
            WaveGroup { enemy_type: r.grunt, count: 8, interval_ms: 800, delay_ms: 0, pulse: 0 },
        ]},
        WaveDefinition { early_call_bonus: 10, groups: vec![
            WaveGroup { enemy_type: r.grunt, count: 6, interval_ms: 700, delay_ms: 0, pulse: 0 },
            WaveGroup { enemy_type: r.fast, count: 3, interval_ms: 500, delay_ms: 0, pulse: 1 },
        ]},
        WaveDefinition { early_call_bonus: 15, groups: vec![
            WaveGroup { enemy_type: r.grunt, count: 8, interval_ms: 600, delay_ms: 0, pulse: 0 },
            WaveGroup { enemy_type: r.fast, count: 4, interval_ms: 500, delay_ms: 0, pulse: 1 },
        ]},
        WaveDefinition { early_call_bonus: 15, groups: vec![
            WaveGroup { enemy_type: r.grunt, count: 5, interval_ms: 700, delay_ms: 0, pulse: 0 },
            WaveGroup { enemy_type: r.fast, count: 3, interval_ms: 500, delay_ms: 0, pulse: 0 },
            WaveGroup { enemy_type: r.tank, count: 2, interval_ms: 1200, delay_ms: 0, pulse: 1 },
        ]},
        WaveDefinition { early_call_bonus: 20, groups: vec![
            WaveGroup { enemy_type: r.grunt, count: 8, interval_ms: 500, delay_ms: 0, pulse: 0 },
            WaveGroup { enemy_type: r.fast, count: 4, interval_ms: 400, delay_ms: 0, pulse: 1 },
            WaveGroup { enemy_type: r.tank, count: 3, interval_ms: 1000, delay_ms: 1000, pulse: 1 },
            WaveGroup { enemy_type: r.flyer, count: 2, interval_ms: 800, delay_ms: 0, pulse: 2 },
        ]},
        WaveDefinition { early_call_bonus: 20, groups: vec![
            WaveGroup { enemy_type: r.grunt, count: 10, interval_ms: 500, delay_ms: 0, pulse: 0 },
            WaveGroup { enemy_type: r.fast, count: 5, interval_ms: 400, delay_ms: 0, pulse: 1 },
            WaveGroup { enemy_type: r.tank, count: 3, interval_ms: 1000, delay_ms: 0, pulse: 1 },
            WaveGroup { enemy_type: r.healer, count: 2, interval_ms: 1000, delay_ms: 1500, pulse: 1 },
        ]},
        WaveDefinition { early_call_bonus: 25, groups: vec![
            WaveGroup { enemy_type: r.grunt, count: 14, interval_ms: 350, delay_ms: 0, pulse: 0 },
            WaveGroup { enemy_type: r.fast, count: 7, interval_ms: 300, delay_ms: 0, pulse: 1 },
            WaveGroup { enemy_type: r.tank, count: 5, interval_ms: 700, delay_ms: 0, pulse: 1 },
            WaveGroup { enemy_type: r.flyer, count: 4, interval_ms: 600, delay_ms: 0, pulse: 2 },
            WaveGroup { enemy_type: r.healer, count: 3, interval_ms: 800, delay_ms: 1000, pulse: 2 },
        ]},
        WaveDefinition { early_call_bonus: 25, groups: vec![
            WaveGroup { enemy_type: r.grunt, count: 15, interval_ms: 350, delay_ms: 0, pulse: 0 },
            WaveGroup { enemy_type: r.fast, count: 10, interval_ms: 250, delay_ms: 0, pulse: 1 },
            WaveGroup { enemy_type: r.tank, count: 6, interval_ms: 600, delay_ms: 0, pulse: 1 },
            WaveGroup { enemy_type: r.flyer, count: 5, interval_ms: 500, delay_ms: 0, pulse: 2 },
            WaveGroup { enemy_type: r.healer, count: 3, interval_ms: 800, delay_ms: 1000, pulse: 2 },
        ]},
        WaveDefinition { early_call_bonus: 30, groups: vec![
            WaveGroup { enemy_type: r.grunt, count: 18, interval_ms: 250, delay_ms: 0, pulse: 0 },
            WaveGroup { enemy_type: r.fast, count: 10, interval_ms: 250, delay_ms: 0, pulse: 1 },
            WaveGroup { enemy_type: r.tank, count: 7, interval_ms: 500, delay_ms: 0, pulse: 1 },
            WaveGroup { enemy_type: r.flyer, count: 6, interval_ms: 450, delay_ms: 0, pulse: 2 },
            WaveGroup { enemy_type: r.healer, count: 4, interval_ms: 700, delay_ms: 1000, pulse: 2 },
        ]},
        wave10,
    ];
    assert(waves_view(res@) =~~= make_waves_spec(*r));
    res
}

pub open spec fn level7_roster() -> WaveRoster {
    WaveRoster { grunt: EnemyType::Legionary, fast: EnemyType::Lion, tank: EnemyType::WarElephant, flyer: EnemyType::EagleScout, healer: EnemyType::Medicus, boss: None }
}

pub open spec fn level7_waves_spec() -> Seq<WaveSpec> {
    make_waves_spec(level7_roster())
}

pub fn level7_waves() -> (r: Vec<WaveDefinition>)
    ensures
        waves_view(r@) == level7_waves_spec(),
{
    make_waves(&WaveRoster { grunt: EnemyType::Legionary, fast: EnemyType::Lion, tank: EnemyType::WarElephant, flyer: EnemyType::EagleScout, healer: EnemyType::Medicus, boss: None })
}

pub open spec fn level8_roster() -> WaveRoster {
    WaveRoster { grunt: EnemyType::Legionary, fast: EnemyType::Lion, tank: EnemyType::WarElephant, flyer: EnemyType::EagleScout, healer: EnemyType::Medicus, boss: Some(EnemyType::Minotaur) }
}

pub open spec fn level8_waves_spec() -> Seq<WaveSpec> {
    make_waves_spec(level8_roster())
}

pub fn level8_waves() -> (r: Vec<WaveDefinition>)
    ensures
        waves_view(r@) == level8_waves_spec(),
{
    make_waves(&WaveRoster { grunt: EnemyType::Legionary, fast: EnemyType::Lion, tank: EnemyType::WarElephant, flyer: EnemyType::EagleScout, healer: EnemyType::Medicus, boss: Some(EnemyType::Minotaur) })
}

pub open spec fn level9_roster() -> WaveRoster {
    WaveRoster { grunt: EnemyType::Footman, fast: EnemyType::Cavalry, tank: EnemyType::Knight, flyer: EnemyType::Wyvern, healer: EnemyType::Priest, boss: None }
}

pub open spec fn level9_waves_spec() -> Seq<WaveSpec> {
    make_waves_spec(level9_roster())
}

pub fn level9_waves() -> (r: Vec<WaveDefinition>)
    ensures
        waves_view(r@) == level9_waves_spec(),
{
    make_waves(&WaveRoster { grunt: EnemyType::Footman, fast: EnemyType::Cavalry, tank: EnemyType::Knight, flyer: EnemyType::Wyvern, healer: EnemyType::Priest, boss: None })
}

pub open spec fn level10_roster() -> WaveRoster {
    WaveRoster { grunt: EnemyType::Footman, fast: EnemyType::Cavalry, tank: EnemyType::Knight, flyer: EnemyType::Wyvern, healer: EnemyType::Priest, boss: Some(EnemyType::Dragon) }
}

pub open spec fn level10_waves_spec() -> Seq<WaveSpec> {
    make_waves_spec(level10_roster())
}

pub fn level10_waves() -> (r: Vec<WaveDefinition>)
    ensures
        waves_view(r@) == level10_waves_spec(),
{
    make_waves(&WaveRoster { grunt: EnemyType::Footman, fast: EnemyType::Cavalry, tank: EnemyType::Knight, flyer: EnemyType::Wyvern, healer: EnemyType::Priest, boss: Some(EnemyType::Dragon) })
}

pub open spec fn level_path_spec(level: u32) -> Seq<GroundPoint> {
    match level {
        1 => level1_path_spec(),
        2 => level2_path_spec(),
        3 => level3_path_spec(),
        4 => level4_path_spec(),
        5 => level5_path_spec(),
        6 => level6_path_spec(),
        7 => level7_path_spec(),
        8 => level8_path_spec(),
        9 => level9_path_spec(),
        10 => level10_path_spec(),
        _ => level1_path_spec(),
    }
}

/// The path of a level; unknown levels fall back to level 1.
pub fn level_path(level: u32) -> (r: Vec<GroundPoint>)
    ensures
        r@ == level_path_spec(level),
{
    match level {
        1 => level1_path(),
        2 => level2_path(),
        3 => level3_path(),
        4 => level4_path(),
        5 => level5_path(),
        6 => level6_path(),
        7 => level7_path(),
        8 => level8_path(),
        9 => level9_path(),
        10 => level10_path(),
        _ => level1_path(),
    }
}

pub open spec fn level_build_spots_spec(level: u32) -> Seq<GroundPoint> {
    match level {
        1 => level1_build_spots_spec(),
        2 => level2_build_spots_spec(),
        3 => level3_build_spots_spec(),
        4 => level4_build_spots_spec(),
        5 => level5_build_spots_spec(),
        6 => level6_build_spots_spec(),
        7 => level7_build_spots_spec(),
        8 => level8_build_spots_spec(),
        9 => level9_build_spots_spec(),
        10 => level10_build_spots_spec(),
        _ => level1_build_spots_spec(),
    }
}

/// The build spots of a level; unknown levels fall back to level 1.
pub fn level_build_spots(level: u32) -> (r: Vec<GroundPoint>)
    ensures
        r@ == level_build_spots_spec(level),
{
    match level {
        1 => level1_build_spots(),
        2 => level2_build_spots(),
        3 => level3_build_spots(),
        4 => level4_build_spots(),
        5 => level5_build_spots(),
        6 => level6_build_spots(),
        7 => level7_build_spots(),
        8 => level8_build_spots(),
        9 => level9_build_spots(),
        10 => level10_build_spots(),
        _ => level1_build_spots(),
    }
}

pub open spec fn level_waves_spec(level: u32) -> Seq<WaveSpec> {
    match level {
        1 => level1_waves_spec(),
        2 => level2_waves_spec(),
        3 => level3_waves_spec(),
        4 => level4_waves_spec(),
        5 => level5_waves_spec(),
        6 => level6_waves_spec(),
        7 => level7_waves_spec(),
        8 => level8_waves_spec(),
        9 => level9_waves_spec(),
        10 => level10_waves_spec(),
        _ => level1_waves_spec(),
    }
}

/// The waves of a level; unknown levels fall back to level 1.
pub fn level_waves(level: u32) -> (r: Vec<WaveDefinition>)
    ensures
        waves_view(r@) == level_waves_spec(level),
{
    match level {
        1 => level1_waves(),
        2 => level2_waves(),
        3 => level3_waves(),
        4 => level4_waves(),
        5 => level5_waves(),
        6 => level6_waves(),
        7 => level7_waves(),
        8 => level8_waves(),
        9 => level9_waves(),
        10 => level10_waves(),
        _ => level1_waves(),
    }
}

pub open spec fn level_theme_spec(level: u32) -> ThemeColors {
    match level {
        1 | 2 => primordial_theme_spec(),
        3 | 4 => prehistoric_theme_spec(),
        5 | 6 => frozen_tundra_theme_spec(),
        7 | 8 => ancient_theme_spec(),
        9 | 10 => medieval_theme_spec(),
        _ => primordial_theme_spec(),
    }
}

/// The theme colors of a level: two levels per era.
pub fn level_theme(level: u32) -> (r: ThemeColors)
    ensures
        r == level_theme_spec(level),
{
    match level {
        1 | 2 => primordial_theme(),
        3 | 4 => prehistoric_theme(),
        5 | 6 => frozen_tundra_theme(),
        7 | 8 => ancient_theme(),
        9 | 10 => medieval_theme(),
        _ => primordial_theme(),
    }
}

pub open spec fn level_hero_spawn_spec(level: u32) -> GroundPoint {
    match level {
        1 => ground_point(-160, 30),
        2 => ground_point(-160, 100),
        _ => ground_point(level_path_spec(level)[0].x_deci as int, level_path_spec(level)[0].z_deci + 30),
    }
}

/// Where the hero spawns: fixed points on levels 1 and 2, otherwise three units
/// beside the path entrance.
pub fn level_hero_spawn(level: u32) -> (r: GroundPoint)
    ensures
        r == level_hero_spawn_spec(level),
{
    match level {
        1 => hero_spawn_pos(),
        2 => level2_hero_spawn(),
        _ => {
            let path = level_path(level);
            let first = path[0];
            GroundPoint { x_deci: first.x_deci, z_deci: first.z_deci + 30 }
        },
    }
}

pub struct LevelStartConfig {
    pub starting_gold: u32,
    pub lives: u32,
    pub max_waves: u32,
    /// Enemy hit-point growth per wave, in thousandths.
    pub wave_hp_scale_milli: u32,
    /// Enemy speed growth per wave, in thousandths.
    pub wave_speed_scale_milli: u32,
}

/// The value of `level_start_config`.
pub open spec fn level_start_config_spec(level: u32) -> LevelStartConfig {
    match level {
        1 => LevelStartConfig { starting_gold: 220, lives: 20, max_waves: 10, wave_hp_scale_milli: 100, wave_speed_scale_milli: 15 },
        2 => LevelStartConfig { starting_gold: 220, lives: 20, max_waves: 10, wave_hp_scale_milli: 100, wave_speed_scale_milli: 15 },
        3 => LevelStartConfig { starting_gold: 220, lives: 18, max_waves: 10, wave_hp_scale_milli: 120, wave_speed_scale_milli: 20 },
        4 => LevelStartConfig { starting_gold: 240, lives: 18, max_waves: 10, wave_hp_scale_milli: 140, wave_speed_scale_milli: 20 },
        5 => LevelStartConfig { starting_gold: 250, lives: 18, max_waves: 10, wave_hp_scale_milli: 140, wave_speed_scale_milli: 20 },
        6 => LevelStartConfig { starting_gold: 250, lives: 18, max_waves: 10, wave_hp_scale_milli: 160, wave_speed_scale_milli: 22 },
        7 => LevelStartConfig { starting_gold: 310, lives: 16, max_waves: 10, wave_hp_scale_milli: 170, wave_speed_scale_milli: 20 },
        8 => LevelStartConfig { starting_gold: 260, lives: 14, max_waves: 10, wave_hp_scale_milli: 240, wave_speed_scale_milli: 25 },
        9 => LevelStartConfig { starting_gold: 280, lives: 14, max_waves: 10, wave_hp_scale_milli: 250, wave_speed_scale_milli: 26 },
        10 => LevelStartConfig { starting_gold: 280, lives: 12, max_waves: 10, wave_hp_scale_milli: 270, wave_speed_scale_milli: 28 },
        _ => LevelStartConfig { starting_gold: 220, lives: 20, max_waves: 10, wave_hp_scale_milli: 100, wave_speed_scale_milli: 15 },
    }
}

/// Starting resources and wave scaling of a level.
pub fn level_start_config(level: u32) -> (r: LevelStartConfig)
    ensures
        r == level_start_config_spec(level),
{
    match level {
        1 => LevelStartConfig { starting_gold: 220, lives: 20, max_waves: 10, wave_hp_scale_milli: 100, wave_speed_scale_milli: 15 },
        2 => LevelStartConfig { starting_gold: 220, lives: 20, max_waves: 10, wave_hp_scale_milli: 100, wave_speed_scale_milli: 15 },
        3 => LevelStartConfig { starting_gold: 220, lives: 18, max_waves: 10, wave_hp_scale_milli: 120, wave_speed_scale_milli: 20 },
        4 => LevelStartConfig { starting_gold: 240, lives: 18, max_waves: 10, wave_hp_scale_milli: 140, wave_speed_scale_milli: 20 },
        5 => LevelStartConfig { starting_gold: 250, lives: 18, max_waves: 10, wave_hp_scale_milli: 140, wave_speed_scale_milli: 20 },
        6 => LevelStartConfig { starting_gold: 250, lives: 18, max_waves: 10, wave_hp_scale_milli: 160, wave_speed_scale_milli: 22 },
        7 => LevelStartConfig { starting_gold: 310, lives: 16, max_waves: 10, wave_hp_scale_milli: 170, wave_speed_scale_milli: 20 },
        8 => LevelStartConfig { starting_gold: 260, lives: 14, max_waves: 10, wave_hp_scale_milli: 240, wave_speed_scale_milli: 25 },
        9 => LevelStartConfig { starting_gold: 280, lives: 14, max_waves: 10, wave_hp_scale_milli: 250, wave_speed_scale_milli: 26 },
        10 => LevelStartConfig { starting_gold: 280, lives: 12, max_waves: 10, wave_hp_scale_milli: 270, wave_speed_scale_milli: 28 },
        _ => LevelStartConfig { starting_gold: 220, lives: 20, max_waves: 10, wave_hp_scale_milli: 100, wave_speed_scale_milli: 15 },
    }
}

/// Total number of levels.
pub const MAX_LEVELS: u32 = 10;

pub struct LevelInfo {
    pub name: &'static str,
    pub era: &'static str,
    pub description: &'static str,
    pub waves: u32,
}

/// The value of `level_info`.
pub open spec fn level_info_spec(level: u32) -> LevelInfo {
    match level {
        1 => LevelInfo { name: "Primordial Pools", era: "Primordial Era", description: "Defend against ancient organisms in the murky swamplands.", waves: 10 },
        2 => LevelInfo { name: "Primordial Depths", era: "Primordial Era", description: "A twisting path through deeper waters. Beware the Giant Worm.", waves: 10 },
        3 => LevelInfo { name: "Jurassic Jungle", era: "Prehistoric Era", description: "Dinosaurs roam a lush jungle path.", waves: 10 },
        4 => LevelInfo { name: "Volcanic Pass", era: "Prehistoric Era", description: "A treacherous volcanic path. The T-Rex awaits.", waves: 10 },
        5 => LevelInfo { name: "Frozen Tundra", era: "Stone Age", description: "Ice age beasts cross the frozen wastes.", waves: 10 },
        6 => LevelInfo { name: "Glacier Gorge", era: "Stone Age", description: "A narrow gorge of ice. The Woolly Rhino charges.", waves: 10 },
        7 => LevelInfo { name: "Via Romana", era: "Ancient Era", description: "Legions march along the Roman road.", waves: 10 },
        8 => LevelInfo { name: "Colosseum", era: "Ancient Era", description: "Battle in the arena. Face the Minotaur.", waves: 10 },
        9 => LevelInfo { name: "Castle Approach", era: "Medieval Era", description: "Knights and cavalry assault the castle gates.", waves: 10 },
        10 => LevelInfo { name: "Dragon's Lair", era: "Medieval Era", description: "The final battle. Slay the Dragon.", waves: 10 },
        _ => LevelInfo { name: "Unknown", era: "Unknown", description: "", waves: 10 },
    }
}

/// Name, era, description and wave count of a level.
pub fn level_info(level: u32) -> (r: LevelInfo)
    ensures
        r == level_info_spec(level),
{
    match level {
        1 => LevelInfo { name: "Primordial Pools", era: "Primordial Era", description: "Defend against ancient organisms in the murky swamplands.", waves: 10 },
        2 => LevelInfo { name: "Primordial Depths", era: "Primordial Era", description: "A twisting path through deeper waters. Beware the Giant Worm.", waves: 10 },
        3 => LevelInfo { name: "Jurassic Jungle", era: "Prehistoric Era", description: "Dinosaurs roam a lush jungle path.", waves: 10 },
        4 => LevelInfo { name: "Volcanic Pass", era: "Prehistoric Era", description: "A treacherous volcanic path. The T-Rex awaits.", waves: 10 },
        5 => LevelInfo { name: "Frozen Tundra", era: "Stone Age", description: "Ice age beasts cross the frozen wastes.", waves: 10 },
        6 => LevelInfo { name: "Glacier Gorge", era: "Stone Age", description: "A narrow gorge of ice. The Woolly Rhino charges.", waves: 10 },
        7 => LevelInfo { name: "Via Romana", era: "Ancient Era", description: "Legions march along the Roman road.", waves: 10 },
        8 => LevelInfo { name: "Colosseum", era: "Ancient Era", description: "Battle in the arena. Face the Minotaur.", waves: 10 },
        9 => LevelInfo { name: "Castle Approach", era: "Medieval Era", description: "Knights and cavalry assault the castle gates.", waves: 10 },
        10 => LevelInfo { name: "Dragon's Lair", era: "Medieval Era", description: "The final battle. Slay the Dragon.", waves: 10 },
        _ => LevelInfo { name: "Unknown", era: "Unknown", description: "", waves: 10 },
    }
}

pub struct HeroInfo {
    pub name: &'static str,
    pub role: &'static str,
    pub description: &'static str,
    /// Accent color (sRGB, percent).
    pub color_pct: [u32; 3],
}

/// The value of `hero_info`.
pub open spec fn hero_info_spec(hero_type: HeroType) -> HeroInfo {
    match hero_type {
        HeroType::SacredMaiden => HeroInfo { name: "Aethon", role: "Balanced", description: "A holy warrior with healing and offensive abilities.", color_pct: [100u32, 85, 40] },
        HeroType::IceHulk => HeroInfo { name: "Cryo", role: "Tank", description: "A massive frost giant that soaks damage and slows enemies.", color_pct: [40u32, 70, 100] },
        HeroType::NorthernOutsider => HeroInfo { name: "Gorath", role: "Assassin", description: "A swift blade-dancer who excels at single-target damage.", color_pct: [60u32, 90, 50] },
        HeroType::Pharaoh => HeroInfo { name: "Voltra", role: "Support", description: "An ancient ruler who commands fire and buffs allies.", color_pct: [100u32, 60, 20] },
        HeroType::ScarletMagus => HeroInfo { name: "Ignis", role: "AoE Mage", description: "A powerful sorcerer specializing in area damage.", color_pct: [100u32, 30, 30] },
    }
}

/// Name, role, description and color of a hero.
pub fn hero_info(hero_type: HeroType) -> (r: HeroInfo)
    ensures
        r == hero_info_spec(hero_type),
{
    match hero_type {
        HeroType::SacredMaiden => HeroInfo { name: "Aethon", role: "Balanced", description: "A holy warrior with healing and offensive abilities.", color_pct: [100u32, 85, 40] },
        HeroType::IceHulk => HeroInfo { name: "Cryo", role: "Tank", description: "A massive frost giant that soaks damage and slows enemies.", color_pct: [40u32, 70, 100] },
        HeroType::NorthernOutsider => HeroInfo { name: "Gorath", role: "Assassin", description: "A swift blade-dancer who excels at single-target damage.", color_pct: [60u32, 90, 50] },
        HeroType::Pharaoh => HeroInfo { name: "Voltra", role: "Support", description: "An ancient ruler who commands fire and buffs allies.", color_pct: [100u32, 60, 20] },
        HeroType::ScarletMagus => HeroInfo { name: "Ignis", role: "AoE Mage", description: "A powerful sorcerer specializing in area damage.", color_pct: [100u32, 30, 30] },
    }
}

/// All heroes, in the order in which they unlock.
pub const ALL_HERO_TYPES: [HeroType; 5] = [
    HeroType::IceHulk,
    HeroType::NorthernOutsider,
    HeroType::Pharaoh,
    HeroType::ScarletMagus,
    HeroType::SacredMaiden,
];

/// The value of `hero_unlock_level`.
pub open spec fn hero_unlock_level_spec(hero: HeroType) -> u32 {
    match hero {
        HeroType::IceHulk => 1,
        HeroType::NorthernOutsider => 3,
        HeroType::Pharaoh => 5,
        HeroType::ScarletMagus => 7,
        HeroType::SacredMaiden => 9,
    }
}

/// The level that must be beaten (stars > 0) to unlock a hero.
pub fn hero_unlock_level(hero: HeroType) -> (r: u32)
    ensures
        r == hero_unlock_level_spec(hero),
{
    match hero {
        HeroType::IceHulk => 1,
        HeroType::NorthernOutsider => 3,
        HeroType::Pharaoh => 5,
        HeroType::ScarletMagus => 7,
        HeroType::SacredMaiden => 9,
    }
}

pub struct EnemyInfo {
    pub name: &'static str,
    pub description: &'static str,
    pub traits: &'static str,
}

/// The value of `enemy_info`.
pub open spec fn enemy_info_spec(enemy_type: EnemyType) -> EnemyInfo {
    match enemy_type {
        EnemyType::Amoeba => EnemyInfo { name: "Amoeba", description: "Basic ground unit.", traits: "Ground" },
        EnemyType::Jellyfish => EnemyInfo { name: "Jellyfish", description: "Floats above the ground, bypassing blockers.", traits: "Flying" },
        EnemyType::Sporebloom => EnemyInfo { name: "Sporebloom", description: "Heals nearby allies over time.", traits: "Healer" },
        EnemyType::Trilobite => EnemyInfo { name: "Trilobite", description: "Slow but heavily armored.", traits: "Armored" },
        EnemyType::SeaScorpion => EnemyInfo { name: "Sea Scorpion", description: "Fast but fragile.", traits: "Fast" },
        EnemyType::Nautilus => EnemyInfo { name: "Armored Nautilus", description: "Extremely tough physical armor.", traits: "Heavy Armor" },
        EnemyType::GiantWorm => EnemyInfo { name: "Giant Worm", description: "A massive boss with high HP.", traits: "Boss" },
        EnemyType::Raptor => EnemyInfo { name: "Raptor", description: "Lightning-fast predator.", traits: "Fast" },
        EnemyType::Stegosaurus => EnemyInfo { name: "Stegosaurus", description: "Sturdy herbivore.", traits: "Ground" },
        EnemyType::Parasaur => EnemyInfo { name: "Parasaurolophus", description: "A steady dinosaur.", traits: "Ground" },
        EnemyType::Triceratops => EnemyInfo { name: "Triceratops", description: "Heavily armored three-horned beast.", traits: "Heavy Armor" },
        EnemyType::Pterodactyl => EnemyInfo { name: "Pterodactyl", description: "Swoops overhead, ignoring blockers.", traits: "Flying" },
        EnemyType::CompyHealer => EnemyInfo { name: "Compy Healer", description: "Small dinosaur that heals allies.", traits: "Healer" },
        EnemyType::TRex => EnemyInfo { name: "Tyrannosaurus Rex", description: "King of the dinosaurs.", traits: "Boss" },
        EnemyType::Caveman => EnemyInfo { name: "Caveman", description: "Club-wielding warrior.", traits: "Ground" },
        EnemyType::Sabertooth => EnemyInfo { name: "Sabertooth", description: "Swift fanged predator.", traits: "Fast" },
        EnemyType::Mammoth => EnemyInfo { name: "Mammoth", description: "Massive tusked beast with thick hide.", traits: "Heavy Armor" },
        EnemyType::Shaman => EnemyInfo { name: "Shaman", description: "Tribal healer empowering nearby allies.", traits: "Healer" },
        EnemyType::GiantEagle => EnemyInfo { name: "Giant Eagle", description: "Soars above all defenses.", traits: "Flying" },
        EnemyType::Dodo => EnemyInfo { name: "Dodo", description: "Surprisingly fast flightless bird.", traits: "Fast" },
        EnemyType::WoollyRhino => EnemyInfo { name: "Woolly Rhino", description: "Unstoppable ice age titan.", traits: "Boss" },
        EnemyType::Legionary => EnemyInfo { name: "Legionary", description: "Disciplined Roman soldier.", traits: "Ground" },
        EnemyType::Lion => EnemyInfo { name: "Lion", description: "Arena beast, swift and fierce.", traits: "Fast" },
        EnemyType::WarElephant => EnemyInfo { name: "War Elephant", description: "Armored war beast.", traits: "Heavy Armor" },
        EnemyType::EagleScout => EnemyInfo { name: "Eagle Scout", description: "Trained bird of prey.", traits: "Flying" },
        EnemyType::Medicus => EnemyInfo { name: "Medicus", description: "Roman field medic.", traits: "Healer" },
        EnemyType::Minotaur => EnemyInfo { name: "Minotaur", description: "Legendary labyrinth guardian.", traits: "Boss" },
        EnemyType::Footman => EnemyInfo { name: "Footman", description: "Armored foot soldier.", traits: "Ground" },
        EnemyType::Cavalry => EnemyInfo { name: "Cavalry", description: "Mounted knight charging through.", traits: "Fast" },
        EnemyType::Knight => EnemyInfo { name: "Knight", description: "Heavily armored elite warrior.", traits: "Heavy Armor" },
        EnemyType::Wyvern => EnemyInfo { name: "Wyvern", description: "Dragon-kin soaring overhead.", traits: "Flying" },
        EnemyType::Priest => EnemyInfo { name: "Priest", description: "Holy healer blessing nearby troops.", traits: "Healer" },
        EnemyType::Dragon => EnemyInfo { name: "Dragon", description: "The ultimate beast. Fire and fury.", traits: "Boss" },
    }
}

/// Logbook name, description and traits of an enemy type.
pub fn enemy_info(enemy_type: EnemyType) -> (r: EnemyInfo)
    ensures
        r == enemy_info_spec(enemy_type),
{
    match enemy_type {
        EnemyType::Amoeba => EnemyInfo { name: "Amoeba", description: "Basic ground unit.", traits: "Ground" },
        EnemyType::Jellyfish => EnemyInfo { name: "Jellyfish", description: "Floats above the ground, bypassing blockers.", traits: "Flying" },
        EnemyType::Sporebloom => EnemyInfo { name: "Sporebloom", description: "Heals nearby allies over time.", traits: "Healer" },
        EnemyType::Trilobite => EnemyInfo { name: "Trilobite", description: "Slow but heavily armored.", traits: "Armored" },
        EnemyType::SeaScorpion => EnemyInfo { name: "Sea Scorpion", description: "Fast but fragile.", traits: "Fast" },
        EnemyType::Nautilus => EnemyInfo { name: "Armored Nautilus", description: "Extremely tough physical armor.", traits: "Heavy Armor" },
        EnemyType::GiantWorm => EnemyInfo { name: "Giant Worm", description: "A massive boss with high HP.", traits: "Boss" },
        EnemyType::Raptor => EnemyInfo { name: "Raptor", description: "Lightning-fast predator.", traits: "Fast" },
        EnemyType::Stegosaurus => EnemyInfo { name: "Stegosaurus", description: "Sturdy herbivore.", traits: "Ground" },
        EnemyType::Parasaur => EnemyInfo { name: "Parasaurolophus", description: "A steady dinosaur.", traits: "Ground" },
        EnemyType::Triceratops => EnemyInfo { name: "Triceratops", description: "Heavily armored three-horned beast.", traits: "Heavy Armor" },
        EnemyType::Pterodactyl => EnemyInfo { name: "Pterodactyl", description: "Swoops overhead, ignoring blockers.", traits: "Flying" },
        EnemyType::CompyHealer => EnemyInfo { name: "Compy Healer", description: "Small dinosaur that heals allies.", traits: "Healer" },
        EnemyType::TRex => EnemyInfo { name: "Tyrannosaurus Rex", description: "King of the dinosaurs.", traits: "Boss" },
        EnemyType::Caveman => EnemyInfo { name: "Caveman", description: "Club-wielding warrior.", traits: "Ground" },
        EnemyType::Sabertooth => EnemyInfo { name: "Sabertooth", description: "Swift fanged predator.", traits: "Fast" },
        EnemyType::Mammoth => EnemyInfo { name: "Mammoth", description: "Massive tusked beast with thick hide.", traits: "Heavy Armor" },
        EnemyType::Shaman => EnemyInfo { name: "Shaman", description: "Tribal healer empowering nearby allies.", traits: "Healer" },
        EnemyType::GiantEagle => EnemyInfo { name: "Giant Eagle", description: "Soars above all defenses.", traits: "Flying" },
        EnemyType::Dodo => EnemyInfo { name: "Dodo", description: "Surprisingly fast flightless bird.", traits: "Fast" },
        EnemyType::WoollyRhino => EnemyInfo { name: "Woolly Rhino", description: "Unstoppable ice age titan.", traits: "Boss" },
        EnemyType::Legionary => EnemyInfo { name: "Legionary", description: "Disciplined Roman soldier.", traits: "Ground" },
        EnemyType::Lion => EnemyInfo { name: "Lion", description: "Arena beast, swift and fierce.", traits: "Fast" },
        EnemyType::WarElephant => EnemyInfo { name: "War Elephant", description: "Armored war beast.", traits: "Heavy Armor" },
        EnemyType::EagleScout => EnemyInfo { name: "Eagle Scout", description: "Trained bird of prey.", traits: "Flying" },
        EnemyType::Medicus => EnemyInfo { name: "Medicus", description: "Roman field medic.", traits: "Healer" },
        EnemyType::Minotaur => EnemyInfo { name: "Minotaur", description: "Legendary labyrinth guardian.", traits: "Boss" },
        EnemyType::Footman => EnemyInfo { name: "Footman", description: "Armored foot soldier.", traits: "Ground" },
        EnemyType::Cavalry => EnemyInfo { name: "Cavalry", description: "Mounted knight charging through.", traits: "Fast" },
        EnemyType::Knight => EnemyInfo { name: "Knight", description: "Heavily armored elite warrior.", traits: "Heavy Armor" },
        EnemyType::Wyvern => EnemyInfo { name: "Wyvern", description: "Dragon-kin soaring overhead.", traits: "Flying" },
        EnemyType::Priest => EnemyInfo { name: "Priest", description: "Holy healer blessing nearby troops.", traits: "Healer" },
        EnemyType::Dragon => EnemyInfo { name: "Dragon", description: "The ultimate beast. Fire and fury.", traits: "Boss" },
    }
}

pub open spec fn is_boss_type_spec(enemy_type: EnemyType) -> bool {
    enemy_type == EnemyType::GiantWorm || enemy_type == EnemyType::TRex || enemy_type == EnemyType::WoollyRhino || enemy_type == EnemyType::Minotaur || enemy_type == EnemyType::Dragon
}

/// Whether an enemy type is a boss (the last wave of a level brings it).
pub fn is_boss_type(enemy_type: EnemyType) -> (r: bool)
    ensures
        r == is_boss_type_spec(enemy_type),
{
    match enemy_type {
        EnemyType::GiantWorm | EnemyType::TRex | EnemyType::WoollyRhino | EnemyType::Minotaur | EnemyType::Dragon => true,
        _ => false,
    }
}

/// All enemy types, era by era.
pub const ALL_ENEMY_TYPES: [EnemyType; 33] = [
    EnemyType::Amoeba,
    EnemyType::Jellyfish,
    EnemyType::Sporebloom,
    EnemyType::Trilobite,
    EnemyType::SeaScorpion,
    EnemyType::Nautilus,
    EnemyType::GiantWorm,
    EnemyType::Raptor,
    EnemyType::Stegosaurus,
    EnemyType::Parasaur,
    EnemyType::Triceratops,
    EnemyType::Pterodactyl,
    EnemyType::CompyHealer,
    EnemyType::TRex,
    EnemyType::Caveman,
    EnemyType::Sabertooth,
    EnemyType::Mammoth,
    EnemyType::Shaman,
    EnemyType::GiantEagle,
    EnemyType::Dodo,
    EnemyType::WoollyRhino,
    EnemyType::Legionary,
    EnemyType::Lion,
    EnemyType::WarElephant,
    EnemyType::EagleScout,
    EnemyType::Medicus,
    EnemyType::Minotaur,
    EnemyType::Footman,
    EnemyType::Cavalry,
    EnemyType::Knight,
    EnemyType::Wyvern,
    EnemyType::Priest,
    EnemyType::Dragon,
];
// ---------------------------------------------------------------------------
// Hero abilities
// ---------------------------------------------------------------------------

/// What a hero ability does. Radii, ranges and durations are in tenths, factors and
/// multipliers in percent.
#[derive(Clone, Copy, Debug)]
pub enum AbilityEffect {
    /// Deal damage to enemies in a radius around the hero.
    AoeDamage { damage: u32, radius_deci: u32 },
    /// Heal the hero by a percentage of max HP.
    Heal { percent: u32 },
    /// Slow enemies in a radius around the hero.
    AoeSlow { factor_pct: u32, duration_deci: u32, radius_deci: u32 },
    /// Deal damage and apply a slow in a radius.
    AoeDamageAndSlow { damage: u32, radius_deci: u32, slow_factor_pct: u32, slow_duration_deci: u32 },
    /// Deal damage and apply a burn in a radius.
    AoeDamageAndBurn { damage: u32, radius_deci: u32, burn_dps: u32, burn_duration_deci: u32 },
    /// Deal multiplied damage to the nearest enemy.
    SingleTargetBurst { multiplier_pct: u32, range_deci: u32 },
    /// Reduce incoming damage for a while.
    DamageReduction { factor_pct: u32, duration_deci: u32 },
}

pub struct AbilityDef {
    pub name: &'static str,
    pub cooldown_secs: u32,
    pub effect: AbilityEffect,
    /// Button color (sRGB, percent).
    pub color_pct: [u32; 3],
}

/// The value of `hero_abilities`.
pub open spec fn hero_abilities_spec(hero_type: HeroType) -> [AbilityDef; 3] {
    match hero_type {
        HeroType::SacredMaiden => [AbilityDef { name: "Holy Strike", cooldown_secs: 15, effect: AbilityEffect::AoeDamage { damage: 40, radius_deci: 35 }, color_pct: [100u32, 90, 40] }, AbilityDef { name: "Divine Blessing", cooldown_secs: 25, effect: AbilityEffect::Heal { percent: 60 }, color_pct: [30u32, 100, 40] }, AbilityDef { name: "Sacred Ground", cooldown_secs: 20, effect: AbilityEffect::AoeSlow { factor_pct: 50, duration_deci: 30, radius_deci: 40 }, color_pct: [60u32, 80, 100] }],
        HeroType::IceHulk => [AbilityDef { name: "Ground Slam", cooldown_secs: 12, effect: AbilityEffect::AoeDamage { damage: 60, radius_deci: 30 }, color_pct: [70u32, 50, 30] }, AbilityDef { name: "Frost Armor", cooldown_secs: 30, effect: AbilityEffect::DamageReduction { factor_pct: 50, duration_deci: 50 }, color_pct: [30u32, 60, 100] }, AbilityDef { name: "Frost Nova", cooldown_secs: 25, effect: AbilityEffect::AoeDamageAndSlow { damage: 40, radius_deci: 50, slow_factor_pct: 30, slow_duration_deci: 30 }, color_pct: [50u32, 90, 100] }],
        HeroType::NorthernOutsider => [AbilityDef { name: "Blade Fury", cooldown_secs: 8, effect: AbilityEffect::SingleTargetBurst { multiplier_pct: 300, range_deci: 30 }, color_pct: [100u32, 30, 30] }, AbilityDef { name: "Whirlwind", cooldown_secs: 12, effect: AbilityEffect::AoeDamage { damage: 30, radius_deci: 30 }, color_pct: [80u32, 80, 80] }, AbilityDef { name: "Execute", cooldown_secs: 18, effect: AbilityEffect::SingleTargetBurst { multiplier_pct: 500, range_deci: 25 }, color_pct: [80u32, 10, 10] }],
        HeroType::Pharaoh => [AbilityDef { name: "Sandstorm", cooldown_secs: 18, effect: AbilityEffect::AoeDamageAndSlow { damage: 25, radius_deci: 40, slow_factor_pct: 40, slow_duration_deci: 30 }, color_pct: [90u32, 70, 30] }, AbilityDef { name: "Sun's Wrath", cooldown_secs: 30, effect: AbilityEffect::AoeDamage { damage: 80, radius_deci: 50 }, color_pct: [100u32, 85, 0] }, AbilityDef { name: "Blessing of Ra", cooldown_secs: 22, effect: AbilityEffect::Heal { percent: 50 }, color_pct: [40u32, 100, 60] }],
        HeroType::ScarletMagus => [AbilityDef { name: "Fireball", cooldown_secs: 10, effect: AbilityEffect::AoeDamageAndBurn { damage: 50, radius_deci: 25, burn_dps: 5, burn_duration_deci: 30 }, color_pct: [100u32, 40, 10] }, AbilityDef { name: "Flame Wave", cooldown_secs: 14, effect: AbilityEffect::AoeDamage { damage: 45, radius_deci: 40 }, color_pct: [100u32, 60, 20] }, AbilityDef { name: "Inferno", cooldown_secs: 45, effect: AbilityEffect::AoeDamage { damage: 100, radius_deci: 60 }, color_pct: [100u32, 20, 0] }],
    }
}

/// The three abilities of a hero.
pub fn hero_abilities(hero_type: HeroType) -> (r: [AbilityDef; 3])
    ensures
        r == hero_abilities_spec(hero_type),
{
    match hero_type {
        HeroType::SacredMaiden => [AbilityDef { name: "Holy Strike", cooldown_secs: 15, effect: AbilityEffect::AoeDamage { damage: 40, radius_deci: 35 }, color_pct: [100u32, 90, 40] }, AbilityDef { name: "Divine Blessing", cooldown_secs: 25, effect: AbilityEffect::Heal { percent: 60 }, color_pct: [30u32, 100, 40] }, AbilityDef { name: "Sacred Ground", cooldown_secs: 20, effect: AbilityEffect::AoeSlow { factor_pct: 50, duration_deci: 30, radius_deci: 40 }, color_pct: [60u32, 80, 100] }],
        HeroType::IceHulk => [AbilityDef { name: "Ground Slam", cooldown_secs: 12, effect: AbilityEffect::AoeDamage { damage: 60, radius_deci: 30 }, color_pct: [70u32, 50, 30] }, AbilityDef { name: "Frost Armor", cooldown_secs: 30, effect: AbilityEffect::DamageReduction { factor_pct: 50, duration_deci: 50 }, color_pct: [30u32, 60, 100] }, AbilityDef { name: "Frost Nova", cooldown_secs: 25, effect: AbilityEffect::AoeDamageAndSlow { damage: 40, radius_deci: 50, slow_factor_pct: 30, slow_duration_deci: 30 }, color_pct: [50u32, 90, 100] }],
        HeroType::NorthernOutsider => [AbilityDef { name: "Blade Fury", cooldown_secs: 8, effect: AbilityEffect::SingleTargetBurst { multiplier_pct: 300, range_deci: 30 }, color_pct: [100u32, 30, 30] }, AbilityDef { name: "Whirlwind", cooldown_secs: 12, effect: AbilityEffect::AoeDamage { damage: 30, radius_deci: 30 }, color_pct: [80u32, 80, 80] }, AbilityDef { name: "Execute", cooldown_secs: 18, effect: AbilityEffect::SingleTargetBurst { multiplier_pct: 500, range_deci: 25 }, color_pct: [80u32, 10, 10] }],
        HeroType::Pharaoh => [AbilityDef { name: "Sandstorm", cooldown_secs: 18, effect: AbilityEffect::AoeDamageAndSlow { damage: 25, radius_deci: 40, slow_factor_pct: 40, slow_duration_deci: 30 }, color_pct: [90u32, 70, 30] }, AbilityDef { name: "Sun's Wrath", cooldown_secs: 30, effect: AbilityEffect::AoeDamage { damage: 80, radius_deci: 50 }, color_pct: [100u32, 85, 0] }, AbilityDef { name: "Blessing of Ra", cooldown_secs: 22, effect: AbilityEffect::Heal { percent: 50 }, color_pct: [40u32, 100, 60] }],
        HeroType::ScarletMagus => [AbilityDef { name: "Fireball", cooldown_secs: 10, effect: AbilityEffect::AoeDamageAndBurn { damage: 50, radius_deci: 25, burn_dps: 5, burn_duration_deci: 30 }, color_pct: [100u32, 40, 10] }, AbilityDef { name: "Flame Wave", cooldown_secs: 14, effect: AbilityEffect::AoeDamage { damage: 45, radius_deci: 40 }, color_pct: [100u32, 60, 20] }, AbilityDef { name: "Inferno", cooldown_secs: 45, effect: AbilityEffect::AoeDamage { damage: 100, radius_deci: 60 }, color_pct: [100u32, 20, 0] }],
    }
}

// ---------------------------------------------------------------------------
// Global player abilities (meteor and reinforcements)
// ---------------------------------------------------------------------------

#[derive(Debug, Clone, Copy, PartialEq, Eq, Hash, Structural)]
pub enum PlayerAbilityType {
    Meteor,
    Reinforcements,
}

pub struct PlayerAbilityDef {
    pub name: &'static str,
    pub description: &'static str,
    pub cooldown_secs: u32,
    /// Icon color (sRGB, percent).
    pub icon_color_pct: [u32; 3],
}

/// The value of `player_ability_def`.
pub open spec fn player_ability_def_spec(ability: PlayerAbilityType) -> PlayerAbilityDef {
    match ability {
        PlayerAbilityType::Meteor => PlayerAbilityDef { name: "Meteor", description: "Massive AoE damage", cooldown_secs: 30, icon_color_pct: [100u32, 40, 10] },
        PlayerAbilityType::Reinforcements => PlayerAbilityDef { name: "Reinforcements", description: "Spawn soldiers", cooldown_secs: 40, icon_color_pct: [30u32, 70, 30] },
    }
}

/// Name, description, cooldown and icon color of a player ability.
pub fn player_ability_def(ability: PlayerAbilityType) -> (r: PlayerAbilityDef)
    ensures
        r == player_ability_def_spec(ability),
{
    match ability {
        PlayerAbilityType::Meteor => PlayerAbilityDef { name: "Meteor", description: "Massive AoE damage", cooldown_secs: 30, icon_color_pct: [100u32, 40, 10] },
        PlayerAbilityType::Reinforcements => PlayerAbilityDef { name: "Reinforcements", description: "Spawn soldiers", cooldown_secs: 40, icon_color_pct: [30u32, 70, 30] },
    }
}

/// Meteor damage.
pub const METEOR_DAMAGE: u32 = 200;
/// Meteor blast radius, in tenths.
pub const METEOR_RADIUS_DECI: u32 = 40;

/// Number of soldiers that reinforcements bring.
pub const REINFORCEMENT_COUNT: u32 = 2;
pub const REINFORCEMENT_HP: u32 = 150;
pub const REINFORCEMENT_DAMAGE: u32 = 8;
/// How long reinforcements stay.
pub const REINFORCEMENT_DURATION_SECS: u32 = 15;

// ---------------------------------------------------------------------------
// Meta-progression upgrades
// ---------------------------------------------------------------------------

#[derive(Debug, Clone, Copy, PartialEq, Eq, Hash, Structural)]
pub enum UpgradeKind {
    /// +10% starting gold per level.
    WarChest,
    /// +5% tower damage per level.
    ElementalFury,
    /// +5% tower range per level.
    FarSight,
    /// +5% sell refund per level.
    SalvageExpert,
    /// -5% hero ability cooldowns per level.
    TacticalMastery,
}

pub const ALL_UPGRADES: [UpgradeKind; 5] = [
    UpgradeKind::WarChest,
    UpgradeKind::ElementalFury,
    UpgradeKind::FarSight,
    UpgradeKind::SalvageExpert,
    UpgradeKind::TacticalMastery,
];

pub const UPGRADE_MAX_LEVEL: u8 = 3;
/// Gem cost of buying upgrade level 1, 2 and 3.
pub const UPGRADE_COSTS: [u32; 3] = [20, 50, 100];

pub struct UpgradeDef {
    pub name: &'static str,
    pub description: &'static str,
    pub per_level: &'static str,
}

/// The value of `upgrade_def`.
pub open spec fn upgrade_def_spec(kind: UpgradeKind) -> UpgradeDef {
    match kind {
        UpgradeKind::WarChest => UpgradeDef { name: "War Chest", description: "Start each level with more gold.", per_level: "+10% starting gold" },
        UpgradeKind::ElementalFury => UpgradeDef { name: "Elemental Fury", description: "All towers deal more damage.", per_level: "+5% tower damage" },
        UpgradeKind::FarSight => UpgradeDef { name: "Far Sight", description: "All towers have increased range.", per_level: "+5% tower range" },
        UpgradeKind::SalvageExpert => UpgradeDef { name: "Salvage Expert", description: "Selling towers returns more gold.", per_level: "+5% sell refund" },
        UpgradeKind::TacticalMastery => UpgradeDef { name: "Tactical Mastery", description: "Hero abilities recharge faster.", per_level: "-5% cooldowns" },
    }
}

/// Name and description of a meta-progression upgrade.
pub fn upgrade_def(kind: UpgradeKind) -> (r: UpgradeDef)
    ensures
        r == upgrade_def_spec(kind),
{
    match kind {
        UpgradeKind::WarChest => UpgradeDef { name: "War Chest", description: "Start each level with more gold.", per_level: "+10% starting gold" },
        UpgradeKind::ElementalFury => UpgradeDef { name: "Elemental Fury", description: "All towers deal more damage.", per_level: "+5% tower damage" },
        UpgradeKind::FarSight => UpgradeDef { name: "Far Sight", description: "All towers have increased range.", per_level: "+5% tower range" },
        UpgradeKind::SalvageExpert => UpgradeDef { name: "Salvage Expert", description: "Selling towers returns more gold.", per_level: "+5% sell refund" },
        UpgradeKind::TacticalMastery => UpgradeDef { name: "Tactical Mastery", description: "Hero abilities recharge faster.", per_level: "-5% cooldowns" },
    }
}

/// The value of `upgrade_index`.
pub open spec fn upgrade_index_spec(kind: UpgradeKind) -> usize {
    match kind {
        UpgradeKind::WarChest => 0,
        UpgradeKind::ElementalFury => 1,
        UpgradeKind::FarSight => 2,
        UpgradeKind::SalvageExpert => 3,
        UpgradeKind::TacticalMastery => 4,
    }
}

/// The slot (0 to 4) of an upgrade in the saved upgrade levels.
pub fn upgrade_index(kind: UpgradeKind) -> (r: usize)
    ensures
        r == upgrade_index_spec(kind),
{
    match kind {
        UpgradeKind::WarChest => 0,
        UpgradeKind::ElementalFury => 1,
        UpgradeKind::FarSight => 2,
        UpgradeKind::SalvageExpert => 3,
        UpgradeKind::TacticalMastery => 4,
    }
}
// ---------------------------------------------------------------------------
// Laws of the tables
// ---------------------------------------------------------------------------

/// Whether the logbook lists `traits` for an enemy type.
pub open spec fn has_traits(enemy_type: EnemyType, traits: Seq<char>) -> bool {
    enemy_info_spec(enemy_type).traits@ == traits
}

/// The trait labels of the logbook are pairwise different.
proof fn lemma_trait_labels_differ()
    ensures
        "Ground"@ != "Flying"@,
        "Ground"@ != "Healer"@,
        "Ground"@ != "Boss"@,
        "Ground"@ != "Fast"@,
        "Ground"@ != "Armored"@,
        "Ground"@ != "Heavy Armor"@,
        "Healer"@ != "Flying"@,
        "Healer"@ != "Boss"@,
        "Healer"@ != "Armored"@,
        "Healer"@ != "Heavy Armor"@,
        "Fast"@ != "Flying"@,
        "Fast"@ != "Healer"@,
        "Fast"@ != "Boss"@,
        "Fast"@ != "Armored"@,
        "Fast"@ != "Heavy Armor"@,
        "Armored"@ != "Flying"@,
        "Armored"@ != "Boss"@,
        "Armored"@ != "Heavy Armor"@,
        "Heavy Armor"@ != "Flying"@,
        "Heavy Armor"@ != "Boss"@,
        "Flying"@ != "Boss"@,
{
    reveal_strlit("Flying");
    reveal_strlit("Healer");
    reveal_strlit("Boss");
    reveal_strlit("Ground");
    reveal_strlit("Fast");
    reveal_strlit("Armored");
    reveal_strlit("Heavy Armor");
    assert("Ground"@[0] != "Flying"@[0]);
    assert("Healer"@[0] != "Flying"@[0]);
    assert("Healer"@[0] != "Armored"@[0]);
    assert("Fast"@[0] != "Boss"@[0]);
    assert("Fast"@.len() == 4 && "Boss"@.len() == 4 && "Flying"@.len() == 6 && "Healer"@.len() == 6);
    assert("Ground"@.len() == 6 && "Armored"@.len() == 7 && "Heavy Armor"@.len() == 11);
}

/// An enemy flies, heals or is a boss exactly when its logbook traits say so; it is fast
/// (speed 3 or more) exactly when they say "Fast"; and it carries armor of 30 or more
/// exactly when they say "Armored" or "Heavy Armor", which enemies are also slow (speed
/// 1.5 at most).
pub proof fn lemma_enemy_traits_agree(enemy_type: EnemyType)
    ensures
        enemy_stats_spec(enemy_type).is_flying <==> has_traits(enemy_type, "Flying"@),
        enemy_stats_spec(enemy_type).is_healer <==> has_traits(enemy_type, "Healer"@),
        is_boss_type_spec(enemy_type) <==> has_traits(enemy_type, "Boss"@),
        enemy_stats_spec(enemy_type).speed_centi >= 300 <==> has_traits(enemy_type, "Fast"@),
        enemy_stats_spec(enemy_type).armor >= 30 <==> (has_traits(enemy_type, "Armored"@) || has_traits(
            enemy_type,
            "Heavy Armor"@,
        )),
        enemy_stats_spec(enemy_type).armor >= 30 ==> enemy_stats_spec(enemy_type).speed_centi <= 150,
{
    lemma_trait_labels_differ();
}

/// Every enemy type is listed in `ALL_ENEMY_TYPES`.
pub proof fn lemma_all_enemy_types_complete(enemy_type: EnemyType)
    ensures
        ALL_ENEMY_TYPES@.contains(enemy_type),
{
    let i: int = match enemy_type {
        EnemyType::Amoeba => 0,
        EnemyType::Jellyfish => 1,
        EnemyType::Sporebloom => 2,
        EnemyType::Trilobite => 3,
        EnemyType::SeaScorpion => 4,
        EnemyType::Nautilus => 5,
        EnemyType::GiantWorm => 6,
        EnemyType::Raptor => 7,
        EnemyType::Stegosaurus => 8,
        EnemyType::Parasaur => 9,
        EnemyType::Triceratops => 10,
        EnemyType::Pterodactyl => 11,
        EnemyType::CompyHealer => 12,
        EnemyType::TRex => 13,
        EnemyType::Caveman => 14,
        EnemyType::Sabertooth => 15,
        EnemyType::Mammoth => 16,
        EnemyType::Shaman => 17,
        EnemyType::GiantEagle => 18,
        EnemyType::Dodo => 19,
        EnemyType::WoollyRhino => 20,
        EnemyType::Legionary => 21,
        EnemyType::Lion => 22,
        EnemyType::WarElephant => 23,
        EnemyType::EagleScout => 24,
        EnemyType::Medicus => 25,
        EnemyType::Minotaur => 26,
        EnemyType::Footman => 27,
        EnemyType::Cavalry => 28,
        EnemyType::Knight => 29,
        EnemyType::Wyvern => 30,
        EnemyType::Priest => 31,
        EnemyType::Dragon => 32,
    };
    assert(ALL_ENEMY_TYPES@[i] == enemy_type);
}

/// Heroes unlock one per odd level, in the order of `ALL_HERO_TYPES`: the unlock
/// levels are strictly increasing, lie within the game's levels, and every hero is listed.
pub proof fn lemma_hero_unlock_order(i: int, j: int, hero: HeroType)
    requires
        0 <= i < j < 5,
    ensures
        hero_unlock_level_spec(ALL_HERO_TYPES@[i]) < hero_unlock_level_spec(ALL_HERO_TYPES@[j]),
        1 <= hero_unlock_level_spec(hero) <= MAX_LEVELS,
        ALL_HERO_TYPES@.contains(hero),
{
    let k: int = match hero {
        HeroType::IceHulk => 0,
        HeroType::NorthernOutsider => 1,
        HeroType::Pharaoh => 2,
        HeroType::ScarletMagus => 3,
        HeroType::SacredMaiden => 4,
    };
    assert(ALL_HERO_TYPES@[k] == hero);
}

/// Two different heroes never unlock on the same level.
pub proof fn lemma_hero_unlock_levels_distinct(a: HeroType, b: HeroType)
    ensures
        hero_unlock_level_spec(a) == hero_unlock_level_spec(b) ==> a == b,
{
}

/// `upgrade_index` numbers the upgrades in the order of `ALL_UPGRADES`.
pub proof fn lemma_upgrade_index(kind: UpgradeKind, i: int)
    requires
        0 <= i < 5,
    ensures
        upgrade_index_spec(kind) < 5,
        ALL_UPGRADES@[upgrade_index_spec(kind) as int] == kind,
        upgrade_index_spec(ALL_UPGRADES@[i]) == i,
{
}

/// A wave definition that the wave step can run to its end: it has a group, every group
/// spawns at least one enemy, and the pulses start at 0 and never skip or go back.
pub open spec fn wave_well_formed(w: WaveSpec) -> bool {
    &&& w.groups.len() > 0
    &&& w.groups[0].pulse == 0
    &&& forall|j: int| 0 <= j < w.groups.len() ==> #[trigger] w.groups[j].count > 0
    &&& forall|j: int|
        0 < j < w.groups.len() ==> w.groups[j - 1].pulse <= #[trigger] w.groups[j].pulse <= w.groups[j - 1].pulse + 1
}

/// The tables of a level agree: it has as many waves as its start configuration and its
/// logbook entry say (ten), and its path has at least two waypoints.
pub proof fn lemma_level_tables_agree(level: u32)
    ensures
        level_waves_spec(level).len() == level_start_config_spec(level).max_waves,
        level_waves_spec(level).len() == level_info_spec(level).waves,
        level_waves_spec(level).len() == 10,
        level_path_spec(level).len() >= 2,
{
}

/// Every wave of every level is well formed.
pub proof fn lemma_level_waves_well_formed(level: u32, i: int)
    requires
        0 <= i < level_waves_spec(level).len(),
    ensures
        wave_well_formed(level_waves_spec(level)[i]),
{
}

/// No wave pays an early-call bonus above 40 gold.
pub proof fn lemma_early_call_bonus_at_most(level: u32, i: int)
    requires
        0 <= i < level_waves_spec(level).len(),
    ensures
        level_waves_spec(level)[i].early_call_bonus <= 40,
{
}

/// Whether a wave brings an enemy of the given type.
pub open spec fn wave_brings(w: WaveSpec, e: EnemyType) -> bool {
    exists|i: int| 0 <= i < w.groups.len() && #[trigger] w.groups[i].enemy_type == e
}

/// Whether a wave brings a boss.
pub open spec fn wave_brings_boss(w: WaveSpec) -> bool {
    exists|i: int| 0 <= i < w.groups.len() && is_boss_type_spec(#[trigger] w.groups[i].enemy_type)
}

/// The finale of each level: its last wave brings a boss exactly on the even levels, the
/// end of each era, and that boss is the one the level's logbook entry promises (the Giant
/// Worm, the T-Rex, the Woolly Rhino, the Minotaur, the Dragon).
pub proof fn lemma_level_finales(level: u32)
    requires
        1 <= level <= 10,
    ensures
        wave_brings_boss(level_waves_spec(level)[9]) <==> level % 2 == 0,
        level == 2 ==> wave_brings(level_waves_spec(level)[9], EnemyType::GiantWorm),
        level == 4 ==> wave_brings(level_waves_spec(level)[9], EnemyType::TRex),
        level == 6 ==> wave_brings(level_waves_spec(level)[9], EnemyType::WoollyRhino),
        level == 8 ==> wave_brings(level_waves_spec(level)[9], EnemyType::Minotaur),
        level == 10 ==> wave_brings(level_waves_spec(level)[9], EnemyType::Dragon),
{
    let w = level_waves_spec(level)[9];
    if level % 2 == 0 {
        // Every boss finale sends its boss as the third group.
        assert(0 <= 2 < w.groups.len() && is_boss_type_spec(w.groups[2].enemy_type));
    } else {
        assert forall|i: int| 0 <= i < w.groups.len() implies !is_boss_type_spec(#[trigger] w.groups[i].enemy_type) by {}
    }
}

/// The first enemy a level sends.
spec fn opening_enemy(level: u32) -> EnemyType {
    match level {
        1 | 2 => EnemyType::Amoeba,
        3 => EnemyType::Stegosaurus,
        4 => EnemyType::Parasaur,
        5 | 6 => EnemyType::Caveman,
        7 | 8 => EnemyType::Legionary,
        _ => EnemyType::Footman,
    }
}

proof fn lemma_opening_enemy(level: u32)
    requires
        1 <= level <= 10,
    ensures
        level_waves_spec(level)[0].groups[0].enemy_type == opening_enemy(level),
{
}

/// Each of the ten levels has waves of its own: no two levels share their wave lists.
pub proof fn lemma_levels_have_own_waves(a: u32, b: u32)
    requires
        1 <= a <= 10,
        1 <= b <= 10,
        a != b,
    ensures
        level_waves_spec(a) != level_waves_spec(b),
{
    lemma_level_finales(a);
    lemma_level_finales(b);
    lemma_opening_enemy(a);
    lemma_opening_enemy(b);
}

} // verus!

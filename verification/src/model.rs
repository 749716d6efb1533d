//! The data that the compiler reads: conditions, actions, named action
//! sequences and block-display models.
//!
//! A number that is not an integer is held as its decimal text, ready to be
//! written into the generated source.

use vstd::prelude::*;

verus! {

/// A custom item of the mod.
#[derive(Debug, Clone)]
pub struct CustomItem {
    pub id: String,
    pub name: String,
    pub texture_source: String,
    pub texture_description: Option<String>,
    pub uploaded_texture: Option<String>,
    pub base_item: String,
    pub rarity: String,
    pub max_stack: i32,
    pub recipe: Vec<String>,
}

/// A custom mob of the mod. `size` is the decimal text of its scale factor.
#[derive(Debug)]
pub struct CustomMob {
    pub name: String,
    pub uploaded_texture: Option<String>,
    pub health: i32,
    pub size: String,
    pub speed: String,
    pub behavior: String,
}

/// A predicate on the player that guards a conditional action.
#[derive(Debug)]
pub enum Condition {
    SensingIsSneaking {},
    SensingIsInWater {},
    SensingIsOnFire {},
    SensingIsOnGround {},
    SensingIsSprinting {},
    SensingIsFlying {},
    SensingGetHealth {},
    SensingGetHunger {},
    /// The negation of `condition`; without an operand, the negation of
    /// "always true".
    LogicNot { condition: Option<Box<Condition>> },
}

/// One node of an action tree.
#[derive(Debug)]
pub enum Action {
    Title { title: String },
    SpawnMob { mob: String },
    Repeat { times: i32, actions: Vec<Action> },
    RepeatForever { actions: Vec<Action> },
    /// `seconds` is the decimal text of the pause.
    Wait { seconds: String },
    IfThen { condition: Option<Condition>, actions: Vec<Action> },
    Message { message: String },
    GiveItem { item: String, amount: i32 },
    PlaySound { sound: String },
    Actionbar { text: String },
    PlayerEffect { effect: String, duration: i32 },
    PlayerHealth { health: i32 },
    WorldPlaceBlock { block: String },
    WorldTime { time: String },
    WorldWeather { weather: String },
    WorldExplosion { power: String },
    WorldLightning {},
    WorldFill { size: i32, block: String },
    WorldEntityFollow { entity: String, range: i32, duration: i32 },
    WorldEntityAttack { entity: String, range: i32 },
    WorldEntityTame { entity: String, range: i32 },
    /// `distance` is the decimal text of the distance.
    MotionMoveForward { distance: String },
    /// `x`, `y` and `z` are the decimal texts of the coordinates.
    MotionTeleport { x: String, y: String, z: String },
    MotionTeleportForward { distance: i32 },
    MotionTeleportVertical { distance: i32, direction: String },
    MotionTeleportSpawn {},
    MotionRotate { direction: String },
    /// `power` is the decimal text of the launch speed.
    MotionLaunch { power: String, direction: String },
    /// `value` is the decimal text of the coordinate.
    MotionSetX { axis: String, value: String },
    /// `value` is the decimal text of the offset.
    MotionChangeX { axis: String, value: String },
    LooksSubtitle { subtitle: String },
    LooksParticles { particle: String, count: i32 },
    LooksClearEffects {},
    LooksDisplayName { name: String },
    LooksGamemode { gamemode: String },
    SoundMusicDisc { disc: String },
    SoundStopAll {},
    /// `speed` is the decimal text of the projectile speed.
    CustomActionProjectile { projectile: String, speed: String },
    CustomActionParticles { particle: String, count: i32 },
    /// `power` is the decimal text of the strength of the effect.
    CustomActionAreaEffect { effect_type: String, radius: i32, power: String },
    CustomActionTeleportLook { distance: i32 },
    /// Spawns the block-display model with the id `model_id`.
    SpawnBlockDisplayModel { model_id: String },
}

/// A chat command and the actions it runs.
#[derive(Debug)]
pub struct Command {
    pub command: String,
    pub actions: Vec<Action>,
}

/// The actions that run when the player uses `item`.
#[derive(Debug)]
pub struct RightClickEvent {
    pub item: String,
    pub actions: Vec<Action>,
}

/// One block-state property override.
#[derive(Debug, Clone)]
pub struct BlockProperty {
    pub name: String,
    pub value: String,
}

/// Three numbers, each as its decimal text.
#[derive(Debug, Clone)]
pub struct Triple {
    pub x: String,
    pub y: String,
    pub z: String,
}

/// The light levels of a block display.
#[derive(Debug, Clone)]
pub struct BlockBrightness {
    pub sky: i32,
    pub block: i32,
}

/// One block of a model. `x`, `y` and `z` are the decimal texts of its offset
/// from the spawn position; the properties keep the order of the dataset.
#[derive(Debug, Clone)]
pub struct BlockDisplayEntity {
    pub block: String,
    pub properties: Option<Vec<BlockProperty>>,
    pub x: String,
    pub y: String,
    pub z: String,
    pub scale: Option<Triple>,
    pub rotation: Option<Triple>,
    pub brightness: Option<BlockBrightness>,
}

/// A named list of blocks, found by its id.
#[derive(Debug, Clone)]
pub struct BlockDisplayModel {
    pub id: String,
    pub name: String,
    pub prompt: String,
    pub blocks: Vec<BlockDisplayEntity>,
    pub generated_by: String,
    pub created_at: i64,
}

/// Everything a mod is made of.
#[derive(Debug)]
pub struct ModData {
    pub custom_items: Vec<CustomItem>,
    pub custom_mobs: Vec<CustomMob>,
    pub commands: Vec<Command>,
    pub right_click_events: Vec<RightClickEvent>,
    pub block_display_models: Vec<BlockDisplayModel>,
}

/// The actions nested directly under an action; none under a leaf.
pub open spec fn children(action: Action) -> Seq<Action> {
    match action {
        Action::Repeat { actions, .. } => actions@,
        Action::RepeatForever { actions } => actions@,
        Action::IfThen { actions, .. } => actions@,
        _ => Seq::empty(),
    }
}

} // verus!

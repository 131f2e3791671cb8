//! Turn-based combat encounter: a menu-driven state machine, a timing-bar
//! attack and a dodge phase with hazards, over integer geometry in
//! milli-pixels; plus the user profiles and text tables around it.

pub mod assets;
pub mod combat;
pub mod dodge;
pub mod geometry;
pub mod hazards;
pub mod input;
pub mod lines;
pub mod menu;
pub mod system;
pub mod texts;
pub mod timing;

pub use assets::{asset_list, AssetDefinition, AssetType, ASSET_COUNT};
pub use combat::{
    CombatEncounter, CombatRenderModel, Draws, EncounterOutcome, PlayerRecord, Step, TurnPhase,
    BAR_SPEED, ENEMY_MAX_HP, MAX_HEALTH, SURVIVAL_TICKS,
};
pub use dodge::{flight_step, gravity_step, DodgeState, Token};
pub use geometry::{clamp, Point, Rect};
pub use hazards::{advance_hazards, spawn_volley, Bone, DodgeMode};
pub use input::InputSnapshot;
pub use menu::MenuSubState;
pub use system::{parse_u32, parse_users, record_of, split_text, Language, SystemState, User};
pub use texts::{CombatActionTexts, GameOverMessages, TextResources, UiTexts};
pub use timing::{
    damage_for_distance, distance_from_center, AttackBar, MAX_BAR_SPEED, MAX_DAMAGE,
    TRACK_CENTER, TRACK_END, TRACK_START,
};

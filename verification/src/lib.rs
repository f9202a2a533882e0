//! An entity-component-system runtime: a world of entities, a row of
//! components for each of them, and a fixed pipeline of systems (input,
//! movement, render) that is run over every row once per tick.

pub mod component;
pub mod numeric;
pub mod storage;
pub mod systems;
pub mod world;

pub use component::{
    Class, ClassCmp, Color, Component, ComponentType, Entity, InputCmp, MovementCmp, Profession,
    ProfessionCmp, Race, RaceCmp, ShapeCmp, SpriteCmp, Stat, StatCmp, TransformCmp, COMBAT_INPUT,
    MENU_INPUT, MOVEMENT_INPUT, SPEED_SLOT,
};
pub use numeric::{Double, Single};
pub use storage::{ComponentRow, RowView};
pub use systems::{
    input_system, motion_of, movement_system, relocate, render_system, speed_of, DrawCommand,
    KeyState, Motion, Tick, DEFAULT_SPEED, FALLBACK_X, FALLBACK_Y,
};
pub use world::{World, WorldError, WorldView};

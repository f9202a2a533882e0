//! Entities, the kinds of component and the values that a component holds.

use crate::numeric::{Double, Single};
use vstd::prelude::*;

verus! {

/// The input category of movement, as a bit of `InputCmp::mask`.
pub const MOVEMENT_INPUT: u8 = 1;

/// The input category of combat, as a bit of `InputCmp::mask`.
pub const COMBAT_INPUT: u8 = 2;

/// The input category of menus, as a bit of `InputCmp::mask`.
pub const MENU_INPUT: u8 = 4;

/// The place of the speed in each of the eight-entry arrays of `StatCmp`.
pub const SPEED_SLOT: usize = 3;

/// The handle of one row of component data. It carries identity only.
#[derive(Debug, Copy, Clone, PartialEq, Eq, Hash, Structural)]
pub struct Entity(pub u32);

/// The kinds of component that an entity can carry, one value of each.
#[derive(Debug, Copy, Clone, PartialEq, Eq, Hash, Structural)]
pub enum ComponentType {
    Transform,
    Shape,
    Sprite,
    Movement,
    Stats,
    Input,
}

/// A colour by its red, green, blue and alpha channels.
#[derive(Debug, Copy, Clone, PartialEq, Eq, Hash, Structural)]
pub struct Color {
    pub r: u8,
    pub g: u8,
    pub b: u8,
    pub a: u8,
}

/// Where an entity is, and how it is turned and scaled.
#[derive(Debug, Copy, Clone, PartialEq, Eq)]
pub struct TransformCmp {
    pub pos: (Single, Single),
    pub rot: (Single, Single),
    pub scale: (Single, Single),
}

/// A figure to draw, with its measures and its colour.
#[derive(Debug, Copy, Clone, PartialEq, Eq, Structural)]
pub enum ShapeCmp {
    /// The side.
    Square(u32, Color),
    /// Width, then height.
    Rectangle(u32, u32, Color),
    /// The radius.
    Circle(Single, Color),
}

/// The handle of a texture that the host has loaded.
#[derive(Debug, Copy, Clone, PartialEq, Eq, Structural)]
pub struct SpriteCmp(pub u32);

/// The direction in which an entity wants to go, of any length.
#[derive(Debug, Copy, Clone, PartialEq, Eq)]
pub struct MovementCmp {
    pub dir: (Single, Single),
}

/// One attribute of a character, by name, with its value.
#[allow(non_camel_case_types)]
#[derive(Debug, PartialEq, Eq)]
pub enum Stat<T> {
    VITALITY(T),
    ENDURANCE(T),
    WISDOM(T),
    SPEED(T),
    STRENGTH(T),
    TOUGHNESS(T),
    PERSEPTION(T),
    INTELLIGENCE(T),
}

/// The attributes of a character. The systems read `fin` and nothing else.
#[derive(Debug, Copy, Clone, PartialEq, Eq)]
pub struct StatCmp {
    pub base: [Stat<u32>; 8],
    pub mult: [Stat<Single>; 8],
    pub add: [Stat<u32>; 8],
    pub fin: [Stat<u32>; 8],
    pub max_status: [u32; 3],
    pub curr_status: [Double; 3],
}

/// The input categories that an entity listens to.
#[derive(Debug, Copy, Clone, PartialEq, Eq, Structural)]
pub struct InputCmp {
    pub mask: u8,
}

/// One component: a value of exactly one kind.
#[derive(Debug, Copy, Clone, PartialEq, Eq)]
pub enum Component {
    Transform(TransformCmp),
    Shape(ShapeCmp),
    Sprite(SpriteCmp),
    Movement(MovementCmp),
    Stats(StatCmp),
    Input(InputCmp),
}

#[allow(non_camel_case_types)]
#[derive(Debug, Copy, Clone, PartialEq, Eq, Structural)]
pub enum Race {
    NONE,
    HUMAN,
    ELF,
    DWARF,
}

#[derive(Debug, Copy, Clone, PartialEq, Eq, Structural)]
pub struct RaceCmp {
    pub level: u32,
    pub xp: Double,
    pub race: Race,
}

#[allow(non_camel_case_types)]
#[derive(Debug, Copy, Clone, PartialEq, Eq, Structural)]
pub enum Class {
    ARCHER,
    WARRIOR,
    MAGE,
    ROUGUE,
}

#[derive(Debug, Copy, Clone, PartialEq, Eq, Structural)]
pub struct ClassCmp {
    pub level: u32,
    pub xp: Double,
    pub class: Class,
}

#[allow(non_camel_case_types)]
#[derive(Debug, Copy, Clone, PartialEq, Eq, Structural)]
pub enum Profession {
    SMITH,
    BUILDER,
    MERCHANT,
    FARMER,
    FORESTER,
    ALCHEMIST,
}

#[derive(Debug, PartialEq, Eq)]
pub struct ProfessionCmp {
    pub name: String,
    pub level: u32,
    pub xp: Double,
    pub profession: Profession,
}

impl<T: Copy> Copy for Stat<T> {

}

impl<T: Copy> Clone for Stat<T> {
    fn clone(&self) -> (copy: Self)
        ensures
            copy == *self,
    {
        *self
    }
}

impl Color {
    /// The colour with the given channels.
    pub fn new(r: u8, g: u8, b: u8, a: u8) -> (c: Color)
        ensures
            c == (Color { r, g, b, a }),
    {
        Color { r, g, b, a }
    }
}

impl ComponentType {
    /// The place of the kind among the six, from 0.
    pub open spec fn spec_index(self) -> u8 {
        match self {
            ComponentType::Transform => 0,
            ComponentType::Shape => 1,
            ComponentType::Sprite => 2,
            ComponentType::Movement => 3,
            ComponentType::Stats => 4,
            ComponentType::Input => 5,
        }
    }

    /// The place of the kind among the six, from 0.
    #[verifier::when_used_as_spec(spec_index)]
    pub fn index(self) -> (i: u8)
        ensures
            i == self.spec_index(),
            i < 6,
    {
        match self {
            ComponentType::Transform => 0,
            ComponentType::Shape => 1,
            ComponentType::Sprite => 2,
            ComponentType::Movement => 3,
            ComponentType::Stats => 4,
            ComponentType::Input => 5,
        }
    }
}

impl Component {
    /// The kind that the value is of.
    pub open spec fn spec_kind(&self) -> ComponentType {
        match self {
            Component::Transform(_) => ComponentType::Transform,
            Component::Shape(_) => ComponentType::Shape,
            Component::Sprite(_) => ComponentType::Sprite,
            Component::Movement(_) => ComponentType::Movement,
            Component::Stats(_) => ComponentType::Stats,
            Component::Input(_) => ComponentType::Input,
        }
    }

    /// The kind that the value is of.
    #[verifier::when_used_as_spec(spec_kind)]
    pub fn kind(&self) -> (k: ComponentType)
        ensures
            k == self.spec_kind(),
    {
        match self {
            Component::Transform(_) => ComponentType::Transform,
            Component::Shape(_) => ComponentType::Shape,
            Component::Sprite(_) => ComponentType::Sprite,
            Component::Movement(_) => ComponentType::Movement,
            Component::Stats(_) => ComponentType::Stats,
            Component::Input(_) => ComponentType::Input,
        }
    }
}

} // verus!

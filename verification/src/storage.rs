//! The storage row of one entity: at most one component under each kind.

use crate::component::{
    Component, ComponentType, InputCmp, MovementCmp, ShapeCmp, SpriteCmp, StatCmp, TransformCmp,
};
use std::collections::HashMap;
use vstd::prelude::*;

verus! {

/// What a row holds, as a map from kind to component.
pub type RowView = Map<ComponentType, Component>;

/// The components of one entity, each filed under a kind.
///
/// A component is filed under the kind that it was attached with. A lookup by
/// type finds it only if it is a value of that kind.
pub struct ComponentRow {
    slots: HashMap<u8, Component>,
}

impl View for ComponentRow {
    type V = RowView;

    closed spec fn view(&self) -> RowView {
        Map::new(
            |kind: ComponentType| self.slots@.contains_key(kind.spec_index()),
            |kind: ComponentType| self.slots@[kind.spec_index()],
        )
    }
}

/// The transform filed under `Transform`, if one is.
pub open spec fn transform_in(row: RowView) -> Option<TransformCmp> {
    if row.contains_key(ComponentType::Transform) {
        match row[ComponentType::Transform] {
            Component::Transform(transform) => Some(transform),
            _ => None,
        }
    } else {
        None
    }
}

/// The shape filed under `Shape`, if one is.
pub open spec fn shape_in(row: RowView) -> Option<ShapeCmp> {
    if row.contains_key(ComponentType::Shape) {
        match row[ComponentType::Shape] {
            Component::Shape(shape) => Some(shape),
            _ => None,
        }
    } else {
        None
    }
}

/// The sprite filed under `Sprite`, if one is.
pub open spec fn sprite_in(row: RowView) -> Option<SpriteCmp> {
    if row.contains_key(ComponentType::Sprite) {
        match row[ComponentType::Sprite] {
            Component::Sprite(sprite) => Some(sprite),
            _ => None,
        }
    } else {
        None
    }
}

/// The movement filed under `Movement`, if one is.
pub open spec fn movement_in(row: RowView) -> Option<MovementCmp> {
    if row.contains_key(ComponentType::Movement) {
        match row[ComponentType::Movement] {
            Component::Movement(movement) => Some(movement),
            _ => None,
        }
    } else {
        None
    }
}

/// The stats filed under `Stats`, if there are any.
pub open spec fn stats_in(row: RowView) -> Option<StatCmp> {
    if row.contains_key(ComponentType::Stats) {
        match row[ComponentType::Stats] {
            Component::Stats(stats) => Some(stats),
            _ => None,
        }
    } else {
        None
    }
}

/// The input settings filed under `Input`, if there are any.
pub open spec fn input_in(row: RowView) -> Option<InputCmp> {
    if row.contains_key(ComponentType::Input) {
        match row[ComponentType::Input] {
            Component::Input(input) => Some(input),
            _ => None,
        }
    } else {
        None
    }
}

impl ComponentRow {
    /// A row without components.
    pub fn new() -> (row: ComponentRow)
        ensures
            row@ == RowView::empty(),
    {
        let row = ComponentRow { slots: HashMap::new() };
        assert(row@ =~= RowView::empty());
        row
    }

    /// Files `component` under `kind`, in place of what was there, and returns
    /// what was there.
    pub fn insert(&mut self, kind: ComponentType, component: Component) -> (prior: Option<
        Component,
    >)
        ensures
            final(self)@ == old(self)@.insert(kind, component),
            prior == if old(self)@.contains_key(kind) {
                Some(old(self)@[kind])
            } else {
                None
            },
    {
        broadcast use vstd::std_specs::hash::group_hash_axioms;

        let prior = self.slots.insert(kind.index(), component);
        assert(self@ =~= old(self)@.insert(kind, component));
        prior
    }

    /// The component filed under `kind`, if there is one.
    pub fn get(&self, kind: ComponentType) -> (found: Option<&Component>)
        ensures
            found == if self@.contains_key(kind) {
                Some(&self@[kind])
            } else {
                None
            },
    {
        broadcast use vstd::std_specs::hash::group_hash_axioms;

        let key = kind.index();
        self.slots.get(&key)
    }

    /// Whether a component is filed under `kind`.
    pub fn contains_key(&self, kind: ComponentType) -> (found: bool)
        ensures
            found == self@.contains_key(kind),
    {
        broadcast use vstd::std_specs::hash::group_hash_axioms;

        let key = kind.index();
        self.slots.contains_key(&key)
    }

    /// The transform of the entity, if it has one.
    pub fn transform(&self) -> (found: Option<TransformCmp>)
        ensures
            found == transform_in(self@),
    {
        match self.get(ComponentType::Transform) {
            Some(Component::Transform(transform)) => Some(*transform),
            _ => None,
        }
    }

    /// The shape of the entity, if it has one.
    pub fn shape(&self) -> (found: Option<ShapeCmp>)
        ensures
            found == shape_in(self@),
    {
        match self.get(ComponentType::Shape) {
            Some(Component::Shape(shape)) => Some(*shape),
            _ => None,
        }
    }

    /// The sprite of the entity, if it has one.
    pub fn sprite(&self) -> (found: Option<SpriteCmp>)
        ensures
            found == sprite_in(self@),
    {
        match self.get(ComponentType::Sprite) {
            Some(Component::Sprite(sprite)) => Some(*sprite),
            _ => None,
        }
    }

    /// The movement of the entity, if it has one.
    pub fn movement(&self) -> (found: Option<MovementCmp>)
        ensures
            found == movement_in(self@),
    {
        match self.get(ComponentType::Movement) {
            Some(Component::Movement(movement)) => Some(*movement),
            _ => None,
        }
    }

    /// The stats of the entity, if it has any.
    pub fn stats(&self) -> (found: Option<StatCmp>)
        ensures
            found == stats_in(self@),
    {
        match self.get(ComponentType::Stats) {
            Some(Component::Stats(stats)) => Some(*stats),
            _ => None,
        }
    }

    /// The input settings of the entity, if it has any.
    pub fn input(&self) -> (found: Option<InputCmp>)
        ensures
            found == input_in(self@),
    {
        match self.get(ComponentType::Input) {
            Some(Component::Input(input)) => Some(*input),
            _ => None,
        }
    }
}

} // verus!

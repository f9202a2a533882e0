//! The world: every entity with its row of components, and the tick that
//! runs the systems over them.

use crate::component::{Component, ComponentType, Entity, MovementCmp};
use crate::numeric::Single;
use crate::storage::{movement_in, transform_in, ComponentRow, RowView};
use crate::systems::{
    anchor_in, heading, input_system, lemma_listening_needs_input, lemma_movement_sees_input,
    lemma_movement_writes_position_only, lemma_render_sees_movement, listens_to_movement,
    motion_in, moved, movement_system, relocated, render_in, render_system, speed_in, steered,
    still, DrawCommand, Motion, Tick,
};
use vstd::prelude::*;

verus! {

/// What the world holds: the row of each entity, in the order of creation.
pub type WorldView = Seq<RowView>;

/// Why the world did not do what was asked.
#[derive(Debug, Copy, Clone, PartialEq, Eq, Structural)]
pub enum WorldError {
    /// Every handle is in use.
    CapacityExhausted,
    /// The handle was not given out by this world.
    UnknownEntity,
}

/// The owner of all entities and of their components.
pub struct World {
    entities: Vec<ComponentRow>,
    entity_ids: Vec<Entity>,
}

impl View for World {
    type V = WorldView;

    closed spec fn view(&self) -> WorldView {
        Seq::new(self.entities@.len(), |i: int| self.entities@[i]@)
    }
}

/// Whether `entity` is a handle of a world that holds `rows`.
pub open spec fn alive(rows: WorldView, entity: Entity) -> bool {
    (entity.0 as int) < rows.len()
}

/// The rows after `entity` has been created: one more, empty, at the end, and
/// `entity` is its handle.
pub open spec fn spawned(rows: WorldView, after: WorldView, entity: Entity) -> bool {
    &&& entity.0 as int == rows.len()
    &&& after == rows.push(RowView::empty())
}

/// The rows after `component` has been attached to `entity` under `kind`.
pub open spec fn attached(
    rows: WorldView,
    entity: Entity,
    kind: ComponentType,
    component: Component,
) -> WorldView {
    rows.update(entity.0 as int, rows[entity.0 as int].insert(kind, component))
}

/// The row as the input stage of a tick leaves it: the input system runs on
/// a row that has something filed under `Input`, and on no other.
pub open spec fn after_input(row: RowView, tick: Tick) -> RowView {
    if row.contains_key(ComponentType::Input) {
        steered(row, tick.keys)
    } else {
        row
    }
}

/// That `after` is what one tick makes of the row `before`: the movement
/// system has worked on what the input stage left.
pub open spec fn ticked<K: Fn(Motion) -> (Single, Single)>(
    before: RowView,
    after: RowView,
    tick: Tick,
    advance: &K,
) -> bool {
    moved(after_input(before, tick), after, tick.rate, advance)
}

/// The commands that draw a world, row after row.
pub open spec fn frame_in(rows: WorldView) -> Seq<DrawCommand> {
    rows.map_values(|row: RowView| render_in(row)).flatten()
}

impl World {
    /// The invariant of the world: each entity has its row, and the handle of
    /// the row at place `i` is `Entity(i)`.
    pub closed spec fn wf(&self) -> bool {
        &&& self.entity_ids@.len() == self.entities@.len()
        &&& self.entities@.len() <= u32::MAX as int + 1
        &&& forall|i: int|
            0 <= i < self.entity_ids@.len() ==> (#[trigger] self.entity_ids@[i]).0 as int == i
    }

    /// Whether `entity` is a handle of this world.
    pub open spec fn has(&self, entity: Entity) -> bool {
        alive(self@, entity)
    }

    /// A world without entities.
    pub fn new() -> (world: World)
        ensures
            world.wf(),
            world@ == WorldView::empty(),
    {
        let world = World { entities: Vec::new(), entity_ids: Vec::new() };
        assert(world@ =~= WorldView::empty());
        world
    }

    /// The number of entities.
    pub fn len(&self) -> (n: usize)
        ensures
            n == self@.len(),
    {
        self.entities.len()
    }

    /// The handle of the entity that was created as number `index`, from 0, if
    /// that many entities have been created.
    pub fn entity(&self, index: usize) -> (found: Option<Entity>)
        requires
            self.wf(),
        ensures
            found == if index < self@.len() {
                Some(Entity(index as u32))
            } else {
                None
            },
    {
        if index < self.entity_ids.len() {
            Some(self.entity_ids[index])
        } else {
            None
        }
    }

    /// Creates an entity with an empty row and returns its handle, which is
    /// the number of entities created before. Fails, and changes nothing,
    /// when all handles of 32 bits are in use.
    pub fn add_entity(&mut self) -> (created: Result<Entity, WorldError>)
        requires
            old(self).wf(),
        ensures
            final(self).wf(),
            match created {
                Ok(entity) => spawned(old(self)@, final(self)@, entity),
                Err(error) => {
                    &&& error == WorldError::CapacityExhausted
                    &&& old(self)@.len() > u32::MAX
                    &&& final(self)@ == old(self)@
                },
            },
    {
        let count = self.entity_ids.len();
        if count > u32::MAX as usize {
            return Err(WorldError::CapacityExhausted);
        }
        let entity = Entity(count as u32);
        self.entity_ids.push(entity);
        self.entities.push(ComponentRow::new());
        assert(self@ =~= old(self)@.push(RowView::empty()));
        Ok(entity)
    }

    /// Attaches `component` to `entity` under `component_type`, in place of
    /// what the entity had under it. Fails, and changes nothing, when the
    /// handle is not one of this world.
    pub fn add_component(
        &mut self,
        entity: Entity,
        component_type: ComponentType,
        component: Component,
    ) -> (done: Result<(), WorldError>)
        requires
            old(self).wf(),
        ensures
            final(self).wf(),
            match done {
                Ok(_) => {
                    &&& old(self).has(entity)
                    &&& final(self)@ == attached(old(self)@, entity, component_type, component)
                },
                Err(error) => {
                    &&& error == WorldError::UnknownEntity
                    &&& !old(self).has(entity)
                    &&& final(self)@ == old(self)@
                },
            },
    {
        let index = entity.0 as usize;
        if index < self.entities.len() {
            self.entities[index].insert(component_type, component);
            assert(self@ =~= attached(old(self)@, entity, component_type, component));
            Ok(())
        } else {
            Err(WorldError::UnknownEntity)
        }
    }

    /// The component that `entity` has under `kind`, if the handle is one of
    /// this world and it has one.
    pub fn component(&self, entity: Entity, kind: ComponentType) -> (found: Option<Component>)
        ensures
            found == if self.has(entity) && self@[entity.0 as int].contains_key(kind) {
                Some(self@[entity.0 as int][kind])
            } else {
                None
            },
    {
        let index = entity.0 as usize;
        if index < self.entities.len() {
            match self.entities[index].get(kind) {
                Some(component) => Some(*component),
                None => None,
            }
        } else {
            None
        }
    }

    /// One tick. Row after row, in the order of creation: the input system, on
    /// a row that has something filed under `Input`; then the movement
    /// system, on a row that has something filed under `Movement`, which sees
    /// what the input system wrote; then the render system, on a row that has
    /// something filed under `Shape` or `Sprite`, which sees where the
    /// movement system put the row. Returns the commands that draw the world
    /// as the tick leaves it.
    pub fn run_systems<K: Fn(Motion) -> (Single, Single)>(
        &mut self,
        tick: &Tick,
        advance: &K,
    ) -> (draws: Vec<DrawCommand>)
        requires
            old(self).wf(),
            forall|motion: Motion| call_requires(*advance, (motion,)),
        ensures
            final(self).wf(),
            final(self)@.len() == old(self)@.len(),
            forall|i: int|
                0 <= i < old(self)@.len() ==> ticked(
                    #[trigger] old(self)@[i],
                    final(self)@[i],
                    *tick,
                    advance,
                ),
            draws@ == frame_in(final(self)@),
    {
        let count = self.entities.len();
        let mut draws: Vec<DrawCommand> = Vec::new();
        let mut i: usize = 0;
        assert(self@.take(0) =~= WorldView::empty());
        while i < count
            invariant
                i <= count,
                count == self.entities@.len(),
                self.entity_ids == old(self).entity_ids,
                self.wf(),
                self@.len() == old(self)@.len(),
                forall|motion: Motion| call_requires(*advance, (motion,)),
                forall|j: int|
                    0 <= j < i ==> ticked(#[trigger] old(self)@[j], self@[j], *tick, advance),
                forall|j: int| i <= j < count ==> self@[j] == old(self)@[j],
                draws@ == frame_in(self@.take(i as int)),
            decreases count - i,
        {
            let ghost before = self@;
            let components = &mut self.entities[i];
            if components.contains_key(ComponentType::Input) {
                input_system(components, &tick.keys);
            }
            if components.contains_key(ComponentType::Movement) {
                movement_system(components, tick.rate, advance);
            }
            let mut drawn = if components.contains_key(ComponentType::Shape)
                || components.contains_key(ComponentType::Sprite) {
                render_system(components)
            } else {
                Vec::new()
            };
            proof {
                let after = self@;
                assert(after.len() == before.len());
                assert forall|j: int| 0 <= j < after.len() && j != i implies after[j]
                    == before[j] by {}
                assert(after.take(i as int) =~= before.take(i as int));
                assert(after.take(i as int + 1) =~= after.take(i as int).push(after[i as int]));
                let rendered = |row: RowView| render_in(row);
                assert(after.take(i as int + 1).map_values(rendered) =~= after.take(
                    i as int,
                ).map_values(rendered).push(render_in(after[i as int])));
                after.take(i as int).map_values(rendered).lemma_flatten_push(
                    render_in(after[i as int]),
                );
            }
            draws.append(&mut drawn);
            i = i + 1;
        }
        assert(self@.take(count as int) =~= self@);
        draws
    }
}

/// Handles are unique: an entity created later differs from every entity
/// that was created before, however the world has grown in between.
pub proof fn lemma_created_entities_differ(
    first: WorldView,
    second: WorldView,
    third: WorldView,
    fourth: WorldView,
    earlier: Entity,
    later: Entity,
)
    requires
        spawned(first, second, earlier),
        second.len() <= third.len(),
        spawned(third, fourth, later),
    ensures
        earlier != later,
        alive(fourth, earlier),
        alive(fourth, later),
{
}

/// Handles are stable under creation: a handle of the world stays one when
/// another entity is created, and its row is the one that it was.
pub proof fn lemma_spawn_keeps_handles(
    rows: WorldView,
    after: WorldView,
    created: Entity,
    entity: Entity,
)
    requires
        alive(rows, entity),
        spawned(rows, after, created),
    ensures
        alive(after, entity),
        after[entity.0 as int] == rows[entity.0 as int],
        created != entity,
{
}

/// Handles are stable under attachment: every handle of the world stays one
/// when a component is attached, and the rows of all entities but the one
/// attached to are the ones that they were.
pub proof fn lemma_attach_keeps_handles(
    rows: WorldView,
    target: Entity,
    kind: ComponentType,
    component: Component,
    entity: Entity,
)
    requires
        alive(rows, target),
        alive(rows, entity),
    ensures
        alive(attached(rows, target, kind, component), entity),
        target != entity ==> attached(rows, target, kind, component)[entity.0 as int]
            == rows[entity.0 as int],
{
}

/// A tick creates and destroys nothing: the row has the kinds that it had,
/// and under every kind but `Movement` and `Transform` the component that it
/// had.
pub proof fn lemma_tick_keeps_kinds<K: Fn(Motion) -> (Single, Single)>(
    before: RowView,
    after: RowView,
    tick: Tick,
    advance: &K,
)
    requires
        ticked(before, after, tick, advance),
    ensures
        after.dom() == before.dom(),
        forall|kind: ComponentType|
            kind != ComponentType::Movement && kind != ComponentType::Transform
                && before.contains_key(kind) ==> after[kind] == before[kind],
{
    let steered = after_input(before, tick);
    assert(steered.dom() =~= before.dom());
    lemma_movement_writes_position_only(steered, after, tick.rate, advance);
}

/// Attaching twice under one kind leaves one component under that kind, the
/// one attached last: the world is as if the first had never been attached.
pub proof fn lemma_attach_overwrites(
    rows: WorldView,
    entity: Entity,
    kind: ComponentType,
    first: Component,
    second: Component,
)
    requires
        alive(rows, entity),
    ensures
        attached(attached(rows, entity, kind, first), entity, kind, second) == attached(
            rows,
            entity,
            kind,
            second,
        ),
        attached(rows, entity, kind, second)[entity.0 as int].contains_key(kind),
        attached(rows, entity, kind, second)[entity.0 as int][kind] == second,
        attached(rows, entity, kind, second)[entity.0 as int].dom() == rows[entity.0 as int].dom().insert(
            kind,
        ),
{
    let once = attached(rows, entity, kind, first);
    let twice = attached(once, entity, kind, second);
    let direct = attached(rows, entity, kind, second);
    assert(twice[entity.0 as int] =~= direct[entity.0 as int]);
    assert(twice =~= direct);
    assert(direct[entity.0 as int].dom() =~= rows[entity.0 as int].dom().insert(kind));
}

/// An attached component is seen by the next tick: what is attached under
/// `kind` is what the tick starts from under `kind`.
pub proof fn lemma_attach_visible(
    rows: WorldView,
    entity: Entity,
    kind: ComponentType,
    component: Component,
)
    requires
        alive(rows, entity),
    ensures
        attached(rows, entity, kind, component).len() == rows.len(),
        attached(rows, entity, kind, component)[entity.0 as int][kind] == component,
{
}

/// Within one tick each system sees what the one before it wrote. On a row
/// that listens to movement input and has a movement and a transform, with
/// keys that do not cancel out: the move that `advance` is asked for goes
/// along the direction of the keys, the row ends up where `advance` said, with
/// the direction of the keys as its direction, and it is drawn there.
pub proof fn lemma_tick_order_is_visible<K: Fn(Motion) -> (Single, Single)>(
    before: RowView,
    after: RowView,
    tick: Tick,
    advance: &K,
)
    requires
        listens_to_movement(before),
        movement_in(before) is Some,
        transform_in(before) is Some,
        !still(heading(tick.keys)),
        ticked(before, after, tick, advance),
    ensures
        movement_in(after) == Some(MovementCmp { dir: heading(tick.keys) }),
        transform_in(after) is Some,
        call_ensures(
            *advance,
            (
                Motion {
                    pos: transform_in(before)->0.pos,
                    dir: heading(tick.keys),
                    speed: speed_in(before),
                    rate: tick.rate,
                },
            ),
            transform_in(after)->0.pos,
        ),
        anchor_in(after) == (
            transform_in(after)->0.pos.0.truncated(),
            transform_in(after)->0.pos.1.truncated(),
        ),
{
    lemma_listening_needs_input(before);
    lemma_movement_sees_input(before, tick.keys, tick.rate);
    let steered = after_input(before, tick);
    let motion = motion_in(steered, tick.rate)->0;
    let pos = choose|pos: (Single, Single)| #[trigger]
        call_ensures(*advance, (motion,), pos) && after == relocated(steered, pos);
    lemma_render_sees_movement(steered, pos);
}

/// The frame of a world is the frame of all rows but the last, followed by
/// what draws the last row.
pub proof fn lemma_frame_row_after_row(rows: WorldView)
    requires
        rows.len() > 0,
    ensures
        frame_in(rows) == frame_in(rows.drop_last()) + render_in(rows.last()),
{
    let rendered = |row: RowView| render_in(row);
    assert(rows.map_values(rendered) =~= rows.drop_last().map_values(rendered).push(
        render_in(rows.last()),
    ));
    rows.drop_last().map_values(rendered).lemma_flatten_push(render_in(rows.last()));
}

} // verus!

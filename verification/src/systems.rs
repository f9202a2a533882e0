//! The three systems of a tick: input, movement, render.
//!
//! Each system works on the row of one entity. What a system needs from
//! outside comes in as plain values: the keys that are held, the rate of the
//! simulation, and a function of the host that does the arithmetic of a move.
//! What a system wants drawn goes out as a list of commands.

use crate::component::{
    Color, Component, ComponentType, MovementCmp, ShapeCmp, Stat, TransformCmp, MOVEMENT_INPUT,
    SPEED_SLOT,
};
use crate::numeric::Single;
use crate::storage::{
    input_in, movement_in, shape_in, sprite_in, stats_in, transform_in, ComponentRow, RowView,
};
use vstd::prelude::*;

verus! {

/// The speed of an entity whose stats name none.
pub const DEFAULT_SPEED: u32 = 1;

/// Where an entity without a transform is drawn, from the left.
pub const FALLBACK_X: i32 = 50;

/// Where an entity without a transform is drawn, from the top.
pub const FALLBACK_Y: i32 = 50;

/// Which of the four direction keys are held.
#[derive(Debug, Copy, Clone, PartialEq, Eq, Structural)]
pub struct KeyState {
    pub up: bool,
    pub left: bool,
    pub down: bool,
    pub right: bool,
}

/// What a tick brings in from outside: the keys, and the rate by which a
/// move of one tick is scaled.
#[derive(Debug, Copy, Clone, PartialEq, Eq, Structural)]
pub struct Tick {
    pub keys: KeyState,
    pub rate: Single,
}

/// A move that is due: from `pos`, along `dir` brought to length one, by
/// `speed` times `rate`.
#[derive(Debug, Copy, Clone, PartialEq, Eq)]
pub struct Motion {
    pub pos: (Single, Single),
    pub dir: (Single, Single),
    pub speed: u32,
    pub rate: Single,
}

/// One call on the drawing surface.
#[derive(Debug, Copy, Clone, PartialEq, Eq)]
pub enum DrawCommand {
    Rectangle { x: i32, y: i32, width: i32, height: i32, color: Color },
    Circle { x: i32, y: i32, radius: Single, color: Color },
    Sprite { texture: u32, x: i32, y: i32 },
}

/// The contribution of a pair of opposite keys: -1, 0 or 1.
pub open spec fn axis(back: bool, forth: bool) -> Single {
    Single::unit((if forth { 1int } else { 0int }) - (if back { 1int } else { 0int }))
}

/// The direction that the held keys ask for: right and down count up, left
/// and up count down. It is not brought to length one.
pub open spec fn heading(keys: KeyState) -> (Single, Single) {
    (axis(keys.left, keys.right), axis(keys.up, keys.down))
}

/// The input mask of a row; 0 where it has no input settings.
pub open spec fn mask_in(row: RowView) -> u8 {
    match input_in(row) {
        Some(input) => input.mask,
        None => 0,
    }
}

/// Whether a row listens to movement input: whether the movement bit of its
/// input mask is set.
pub open spec fn listens_to_movement(row: RowView) -> bool {
    mask_in(row) & MOVEMENT_INPUT != 0
}

/// The row as the input system leaves it. On a row that listens to movement
/// input and has a movement component, that component gets the direction of
/// the keys in place of its own. Any other row stays as it is: no key is
/// translated and nothing is written.
pub open spec fn steered(row: RowView, keys: KeyState) -> RowView {
    if listens_to_movement(row) && movement_in(row) is Some {
        row.insert(
            ComponentType::Movement,
            Component::Movement(MovementCmp { dir: heading(keys) }),
        )
    } else {
        row
    }
}

/// The speed of a row: what its final stats hold as speed in the speed
/// slot, else the default.
pub open spec fn speed_in(row: RowView) -> u32 {
    match stats_in(row) {
        Some(stats) => match stats.fin[SPEED_SLOT as int] {
            Stat::SPEED(speed) => speed,
            _ => DEFAULT_SPEED,
        },
        None => DEFAULT_SPEED,
    }
}

/// Whether a direction is the zero vector.
pub open spec fn still(dir: (Single, Single)) -> bool {
    dir.0.is_zero() && dir.1.is_zero()
}

/// The move that is due on a row: one for a row that has a transform and a
/// movement whose direction is not the zero vector, none for any other row.
pub open spec fn motion_in(row: RowView, rate: Single) -> Option<Motion> {
    match (movement_in(row), transform_in(row)) {
        (Some(movement), Some(transform)) => if still(movement.dir) {
            None
        } else {
            Some(Motion { pos: transform.pos, dir: movement.dir, speed: speed_in(row), rate })
        },
        _ => None,
    }
}

/// The row with the position of its transform replaced by `pos`. A row
/// without a transform stays as it is.
pub open spec fn relocated(row: RowView, pos: (Single, Single)) -> RowView {
    match transform_in(row) {
        Some(transform) => row.insert(
            ComponentType::Transform,
            Component::Transform(
                TransformCmp { pos, rot: transform.rot, scale: transform.scale },
            ),
        ),
        None => row,
    }
}

/// That `after` is what the movement system makes of `before`: the same
/// row where no move is due, else the row relocated to a position that
/// `advance` gave for the move.
pub open spec fn moved<K: Fn(Motion) -> (Single, Single)>(
    before: RowView,
    after: RowView,
    rate: Single,
    advance: &K,
) -> bool {
    match motion_in(before, rate) {
        Some(motion) => exists|pos: (Single, Single)| #[trigger]
            call_ensures(*advance, (motion,), pos) && after == relocated(before, pos),
        None => after == before,
    }
}

/// A measure of a shape as the drawing surface takes it: as a signed number
/// of the same 32 bits.
pub open spec fn signed(measure: u32) -> int {
    if measure <= i32::MAX {
        measure as int
    } else {
        measure - 0x1_0000_0000
    }
}

/// Where a row is drawn: at the position of its transform, cut off to whole
/// numbers, or at the fallback position where it has no transform.
pub open spec fn anchor_in(row: RowView) -> (int, int) {
    match transform_in(row) {
        Some(transform) => (transform.pos.0.truncated(), transform.pos.1.truncated()),
        None => (FALLBACK_X as int, FALLBACK_Y as int),
    }
}

/// The command that draws `shape` at `at`.
pub open spec fn shape_command(shape: ShapeCmp, at: (int, int)) -> DrawCommand {
    match shape {
        ShapeCmp::Square(side, color) => DrawCommand::Rectangle {
            x: at.0 as i32,
            y: at.1 as i32,
            width: signed(side) as i32,
            height: signed(side) as i32,
            color,
        },
        ShapeCmp::Rectangle(width, height, color) => DrawCommand::Rectangle {
            x: at.0 as i32,
            y: at.1 as i32,
            width: signed(width) as i32,
            height: signed(height) as i32,
            color,
        },
        ShapeCmp::Circle(radius, color) => DrawCommand::Circle {
            x: at.0 as i32,
            y: at.1 as i32,
            radius,
            color,
        },
    }
}

/// The commands that draw a row: its shape if it has one, then its sprite if
/// it has one, both at the anchor of the row.
pub open spec fn render_in(row: RowView) -> Seq<DrawCommand> {
    let at = anchor_in(row);
    let shapes = match shape_in(row) {
        Some(shape) => seq![shape_command(shape, at)],
        None => Seq::<DrawCommand>::empty(),
    };
    let sprites = match sprite_in(row) {
        Some(sprite) => seq![DrawCommand::Sprite { texture: sprite.0, x: at.0 as i32, y: at.1 as i32 }],
        None => Seq::<DrawCommand>::empty(),
    };
    shapes + sprites
}

/// The number -1, 0 or 1 that a pair of opposite keys stands for.
fn axis_of(back: bool, forth: bool) -> (s: Single)
    ensures
        s == axis(back, forth),
{
    if back == forth {
        Single::zero()
    } else if forth {
        Single::one()
    } else {
        Single::neg_one()
    }
}

/// A measure of a shape as a signed number of the same 32 bits.
fn signed_of(measure: u32) -> (r: i32)
    ensures
        r == signed(measure),
{
    assert(measure as i32 == if measure <= 0x7FFF_FFFFu32 {
        measure as int
    } else {
        measure - 0x1_0000_0000
    }) by (bit_vector);
    measure as i32
}

/// The input system. Where the row listens to movement input and has a
/// movement component, gives that component the direction that the keys ask
/// for, in place of the one it had. Any other row is left as it is: with the
/// movement bit of the mask clear, the direction stays what it was.
pub fn input_system(components: &mut ComponentRow, keys: &KeyState)
    ensures
        final(components)@ == steered(old(components)@, *keys),
{
    let mask: u8 = match components.input() {
        Some(input) => input.mask,
        None => 0,
    };
    if (mask & MOVEMENT_INPUT) != 0 && components.movement().is_some() {
        let dir = (axis_of(keys.left, keys.right), axis_of(keys.up, keys.down));
        components.insert(ComponentType::Movement, Component::Movement(MovementCmp { dir }));
    }
}

/// The speed at which the entity of the row moves.
pub fn speed_of(components: &ComponentRow) -> (speed: u32)
    ensures
        speed == speed_in(components@),
{
    match components.stats() {
        Some(stats) => match stats.fin[SPEED_SLOT] {
            Stat::SPEED(speed) => speed,
            _ => DEFAULT_SPEED,
        },
        None => DEFAULT_SPEED,
    }
}

/// The move that is due on the row, if one is.
pub fn motion_of(components: &ComponentRow, rate: Single) -> (motion: Option<Motion>)
    ensures
        motion == motion_in(components@, rate),
{
    match (components.movement(), components.transform()) {
        (Some(movement), Some(transform)) => {
            if movement.dir.0.is_zero() && movement.dir.1.is_zero() {
                None
            } else {
                Some(
                    Motion {
                        pos: transform.pos,
                        dir: movement.dir,
                        speed: speed_of(components),
                        rate,
                    },
                )
            }
        },
        _ => None,
    }
}

/// Puts the transform of the row at `pos`. A row without a transform is left
/// as it is.
pub fn relocate(components: &mut ComponentRow, pos: (Single, Single))
    ensures
        final(components)@ == relocated(old(components)@, pos),
{
    match components.transform() {
        Some(transform) => {
            components.insert(
                ComponentType::Transform,
                Component::Transform(
                    TransformCmp { pos, rot: transform.rot, scale: transform.scale },
                ),
            );
        },
        None => {},
    }
}

/// The movement system: where a move is due on the row, asks `advance` for
/// the position it leads to and puts the transform there. The movement
/// component keeps its direction. A row whose direction is the zero vector,
/// or that lacks a movement or a transform, is left as it is, and `advance`
/// is not called.
pub fn movement_system<K: Fn(Motion) -> (Single, Single)>(
    components: &mut ComponentRow,
    rate: Single,
    advance: &K,
)
    requires
        forall|motion: Motion| call_requires(*advance, (motion,)),
    ensures
        moved(old(components)@, final(components)@, rate, advance),
{
    match motion_of(components, rate) {
        Some(motion) => {
            let pos = advance(motion);
            relocate(components, pos);
        },
        None => {},
    }
}

/// The render system: the commands that draw the row. The row itself is left
/// as it is.
pub fn render_system(components: &mut ComponentRow) -> (draws: Vec<DrawCommand>)
    ensures
        final(components)@ == old(components)@,
        draws@ == render_in(old(components)@),
{
    let (x, y) = match components.transform() {
        Some(transform) => (transform.pos.0.to_i32(), transform.pos.1.to_i32()),
        None => (FALLBACK_X, FALLBACK_Y),
    };
    let mut draws: Vec<DrawCommand> = Vec::new();
    match components.shape() {
        Some(ShapeCmp::Square(side, color)) => {
            let side = signed_of(side);
            draws.push(DrawCommand::Rectangle { x, y, width: side, height: side, color });
        },
        Some(ShapeCmp::Rectangle(width, height, color)) => {
            draws.push(
                DrawCommand::Rectangle {
                    x,
                    y,
                    width: signed_of(width),
                    height: signed_of(height),
                    color,
                },
            );
        },
        Some(ShapeCmp::Circle(radius, color)) => {
            draws.push(DrawCommand::Circle { x, y, radius, color });
        },
        None => {},
    }
    match components.sprite() {
        Some(sprite) => {
            draws.push(DrawCommand::Sprite { texture: sprite.0, x, y });
        },
        None => {},
    }
    assert(draws@ =~= render_in(components@));
    draws
}

/// Input is seen by movement: on a row that listens to movement input and has
/// a movement and a transform, the move that is due after the input system
/// goes along the direction of the keys, from where the transform is, unless
/// the keys cancel out.
pub proof fn lemma_movement_sees_input(row: RowView, keys: KeyState, rate: Single)
    requires
        listens_to_movement(row),
        movement_in(row) is Some,
        transform_in(row) is Some,
    ensures
        movement_in(steered(row, keys)) == Some(MovementCmp { dir: heading(keys) }),
        motion_in(steered(row, keys), rate) == if still(heading(keys)) {
            None
        } else {
            Some(
                Motion {
                    pos: transform_in(row)->0.pos,
                    dir: heading(keys),
                    speed: speed_in(row),
                    rate,
                },
            )
        },
{
}

/// The right key alone asks for the unit vector along the first axis, which
/// is not the zero vector.
pub proof fn lemma_right_key_heading(keys: KeyState)
    requires
        keys.right,
        !keys.left,
        keys.up == keys.down,
    ensures
        heading(keys) == (Single::unit(1), Single::unit(0)),
        !still(heading(keys)),
{
}

/// The input system replaces a direction and never adds to it: on a row that
/// listens to movement input, what it leaves does not depend on the direction
/// that the row had.
pub proof fn lemma_input_replaces(row: RowView, keys: KeyState, dir: (Single, Single))
    requires
        listens_to_movement(row),
        movement_in(row) is Some,
    ensures
        steered(
            row.insert(ComponentType::Movement, Component::Movement(MovementCmp { dir })),
            keys,
        ) == steered(row, keys),
{
    let other = row.insert(ComponentType::Movement, Component::Movement(MovementCmp { dir }));
    assert(input_in(other) == input_in(row));
    assert(steered(other, keys) =~= steered(row, keys));
}

/// A row without input settings listens to nothing.
pub proof fn lemma_listening_needs_input(row: RowView)
    requires
        listens_to_movement(row),
    ensures
        input_in(row) is Some,
        row.contains_key(ComponentType::Input),
{
    assert(0u8 & MOVEMENT_INPUT == 0) by (bit_vector);
}

/// The mask is a gate: on a row that does not listen to movement input, the
/// input system writes nothing, whatever keys are held.
pub proof fn lemma_input_is_gated(row: RowView, keys: KeyState)
    requires
        !listens_to_movement(row),
    ensures
        steered(row, keys) == row,
{
}

/// The input system writes the direction and nothing else: the row has the
/// kinds that it had, and under every kind but `Movement` the component that
/// it had.
pub proof fn lemma_input_writes_direction_only(row: RowView, keys: KeyState)
    ensures
        steered(row, keys).dom() == row.dom(),
        forall|kind: ComponentType|
            kind != ComponentType::Movement && row.contains_key(kind) ==> steered(row, keys)[kind]
                == row[kind],
{
    assert(steered(row, keys).dom() =~= row.dom());
}

/// A zero direction moves nothing: whatever `advance` is, the movement system
/// leaves a row whose direction is the zero vector exactly as it was.
pub proof fn lemma_zero_direction_moves_nothing<K: Fn(Motion) -> (Single, Single)>(
    before: RowView,
    after: RowView,
    rate: Single,
    advance: &K,
)
    requires
        movement_in(before) matches Some(movement) && still(movement.dir),
        moved(before, after, rate, advance),
    ensures
        after == before,
{
}

/// The movement system writes the position and nothing else: the direction,
/// and every component but the transform, are as they were; rotation and
/// scale of the transform are as they were.
pub proof fn lemma_movement_writes_position_only<K: Fn(Motion) -> (Single, Single)>(
    before: RowView,
    after: RowView,
    rate: Single,
    advance: &K,
)
    requires
        moved(before, after, rate, advance),
    ensures
        after.dom() == before.dom(),
        forall|kind: ComponentType|
            kind != ComponentType::Transform && before.contains_key(kind) ==> after[kind]
                == before[kind],
        movement_in(after) == movement_in(before),
        match (transform_in(before), transform_in(after)) {
            (Some(old), Some(new)) => new.rot == old.rot && new.scale == old.scale,
            (None, None) => true,
            _ => false,
        },
{
    match motion_in(before, rate) {
        Some(motion) => {
            let pos = choose|pos: (Single, Single)| #[trigger]
                call_ensures(*advance, (motion,), pos) && after == relocated(before, pos);
            assert(after.dom() =~= before.dom());
        },
        None => {},
    }
}

/// Without stats the speed is the default: the move that is due on a row
/// without stats has speed `DEFAULT_SPEED`.
pub proof fn lemma_default_speed(row: RowView, rate: Single)
    requires
        stats_in(row) is None,
    ensures
        speed_in(row) == DEFAULT_SPEED,
        motion_in(row, rate) matches Some(motion) ==> motion.speed == DEFAULT_SPEED,
{
}

/// A shape without a transform is drawn at the fallback position.
pub proof fn lemma_render_fallback(row: RowView)
    requires
        shape_in(row) is Some,
        transform_in(row) is None,
    ensures
        render_in(row).len() >= 1,
        render_in(row)[0] == shape_command(
            shape_in(row)->0,
            (FALLBACK_X as int, FALLBACK_Y as int),
        ),
{
}

/// Movement is seen by render: a row that has been relocated is drawn at the
/// new position, cut off to whole numbers.
pub proof fn lemma_render_sees_movement(row: RowView, pos: (Single, Single))
    requires
        transform_in(row) is Some,
    ensures
        anchor_in(relocated(row, pos)) == (pos.0.truncated(), pos.1.truncated()),
        shape_in(relocated(row, pos)) == shape_in(row),
        sprite_in(relocated(row, pos)) == sprite_in(row),
{
}

/// A row is drawn only if it has a shape or a sprite.
pub proof fn lemma_render_needs_shape_or_sprite(row: RowView)
    ensures
        render_in(row).len() > 0 <==> shape_in(row) is Some || sprite_in(row) is Some,
{
}

} // verus!

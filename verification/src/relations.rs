//! The entity-relations client: ownership of the player's square, the local
//! cursor, the lines that join related squares, and client-side prediction
//! with rollback over the command history.
//!
//! Entities are named by their `u64` bits; what the ECS spawns, despawns and
//! draws is done by the caller, on what these functions decide.

use naia_client::CommandHistory;
use vstd::prelude::*;

use crate::history::{chained, history_entries, history_new, KeyCommand};

verus! {

/// The colour that a square or circle is replicated with.
#[derive(Clone, Copy, Debug, PartialEq, Eq)]
pub enum ColorValue {
    Red,
    Blue,
    Yellow,
    Green,
    White,
    Purple,
    Orange,
    Aqua,
}

/// The shape that an entity is replicated with.
#[derive(Clone, Copy, Debug, PartialEq, Eq)]
pub enum ShapeValue {
    Square,
    Circle,
    BigCircle,
}

/// Which circle mesh an entity is drawn with.
#[derive(Clone, Copy, Debug, PartialEq, Eq)]
pub enum MeshKind {
    Circle,
    BigCircle,
}

/// How an entity that received its colour is drawn.
#[derive(Clone, Copy, Debug, PartialEq, Eq)]
pub enum Render {
    /// A square sprite of the colour.
    Sprite(ColorValue),
    /// A mesh filled with the material of the colour.
    Mesh(MeshKind, ColorValue),
}

/// The server's entity that this client owns, and the local copy of it that
/// the client predicts.
#[derive(Clone, Copy, Debug, PartialEq, Eq)]
pub struct OwnedEntity {
    pub confirmed: u64,
    pub predicted: u64,
}

/// What the client keeps between frames.
pub struct Global {
    pub cursor_entity: Option<u64>,
    pub owned_entity: Option<OwnedEntity>,
    pub queued_command: Option<KeyCommand>,
    pub command_history: CommandHistory<KeyCommand>,
}

/// The cursor's position for the random draws `rx` in `0..40` and `ry` in `0..30`.
pub open spec fn cursor_spot(rx: int, ry: int) -> (int, int) {
    (16 * (rx - 20), 16 * (ry - 15))
}

/// Calls `naia_shared::Random::gen_range_u32`, which panics on an empty range.
/// The contract claims only that the result lies in `lower..upper`; which value
/// comes is chance.
#[verifier::external_body]
fn gen_range_u32(lower: u32, upper: u32) -> (r: u32)
    requires
        lower < upper,
    ensures
        lower <= r < upper,
{
    naia_shared::Random::gen_range_u32(lower, upper)
}

/// The cursor's position on the 16-pixel grid for the draws `rx` and `ry`.
pub fn cursor_position(rx: u32, ry: u32) -> (p: (i16, i16))
    requires
        rx < 40,
        ry < 30,
    ensures
        (p.0 as int, p.1 as int) == cursor_spot(rx as int, ry as int),
{
    let x: i16 = 16 * ((rx as i16) - 20);
    let y: i16 = 16 * ((ry as i16) - 15);
    (x, y)
}

/// A random cursor position, as the client places its cursor on connecting.
pub fn random_cursor_position() -> (p: (i16, i16))
    ensures
        exists|rx: int, ry: int|
            0 <= rx < 40 && 0 <= ry < 30 && (p.0 as int, p.1 as int) == #[trigger] cursor_spot(rx, ry),
{
    let rx = gen_range_u32(0, 40);
    let ry = gen_range_u32(0, 30);
    let p = cursor_position(rx, ry);
    assert((p.0 as int, p.1 as int) == cursor_spot(rx as int, ry as int));
    p
}

/// How an entity with `shape` and `color` is drawn.
pub fn render_for(shape: ShapeValue, color: ColorValue) -> (r: Render)
    ensures
        r == (match shape {
            ShapeValue::Square => Render::Sprite(color),
            ShapeValue::Circle => Render::Mesh(MeshKind::Circle, color),
            ShapeValue::BigCircle => Render::Mesh(MeshKind::BigCircle, color),
        }),
{
    match shape {
        ShapeValue::Square => Render::Sprite(color),
        ShapeValue::Circle => Render::Mesh(MeshKind::Circle, color),
        ShapeValue::BigCircle => Render::Mesh(MeshKind::BigCircle, color),
    }
}

impl Global {
    /// The commands the client still holds for prediction, oldest first.
    pub open spec fn entries(&self) -> Seq<(u16, KeyCommand)> {
        history_entries(self.command_history)
    }

    /// The history holds its commands in tick order.
    pub open spec fn wf(&self) -> bool {
        chained(self.entries())
    }

    /// A client that owns nothing, has no cursor and no command.
    pub fn new() -> (c: Self)
        ensures
            c.wf(),
            c.cursor_entity is None,
            c.owned_entity is None,
            c.queued_command is None,
            c.entries() == Seq::<(u16, KeyCommand)>::empty(),
    {
        Global {
            cursor_entity: None,
            owned_entity: None,
            queued_command: None,
            command_history: history_new(),
        }
    }

    /// The client connected and spawned its cursor as `cursor_entity`.
    pub fn connect_event(&mut self, cursor_entity: u64)
        ensures
            *final(self) == (Global { cursor_entity: Some(cursor_entity), ..*old(self) }),
    {
        self.cursor_entity = Some(cursor_entity);
    }

    /// The server gave the client `entity`. `predicted` is the local copy the
    /// caller spawned, where the entity had a position; `color` is the
    /// entity's colour, where it has one. Returns the cursor to paint, and
    /// with which colour.
    pub fn assign_ownership(&mut self, entity: u64, predicted: Option<u64>, color: Option<ColorValue>) -> (paint: Option<(u64, ColorValue)>)
        ensures
            *final(self) == (Global { owned_entity: owner_after_assign(old(self).owned_entity, entity, predicted), ..*old(self) }),
            paint == (match (old(self).cursor_entity, color) {
                (Some(cursor), Some(c)) => Some((cursor, c)),
                _ => None,
            }),
    {
        if let Some(p) = predicted {
            self.owned_entity = Some(OwnedEntity { confirmed: entity, predicted: p });
        }
        match (self.cursor_entity, color) {
            (Some(cursor), Some(c)) => Some((cursor, c)),
            _ => None,
        }
    }

    /// The server took `entity` back. Where it is the entity the client owns,
    /// the client gives it up, and the predicted copy is returned to despawn.
    pub fn release_ownership(&mut self, entity: u64) -> (despawn: Option<u64>)
        ensures
            *final(self) == (Global { owned_entity: owner_after_release(old(self).owned_entity, entity), ..*old(self) }),
            despawn == predicted_to_drop(old(self).owned_entity, entity),
    {
        match self.owned_entity {
            Some(owned) => {
                if owned.confirmed == entity {
                    self.owned_entity = None;
                    Some(owned.predicted)
                } else {
                    None
                }
            },
            None => None,
        }
    }
}

/// Who is owned after the server gives `entity`, predicted locally as
/// `predicted` where the entity had a position.
pub open spec fn owner_after_assign(owned: Option<OwnedEntity>, entity: u64, predicted: Option<u64>) -> Option<OwnedEntity> {
    match predicted {
        Some(p) => Some(OwnedEntity { confirmed: entity, predicted: p }),
        None => owned,
    }
}

/// Who is owned after the server takes `entity` back.
pub open spec fn owner_after_release(owned: Option<OwnedEntity>, entity: u64) -> Option<OwnedEntity> {
    match owned {
        Some(o) if o.confirmed == entity => None,
        _ => owned,
    }
}

/// The predicted copy to despawn when the server takes `entity` back.
pub open spec fn predicted_to_drop(owned: Option<OwnedEntity>, entity: u64) -> Option<u64> {
    match owned {
        Some(o) if o.confirmed == entity => Some(o.predicted),
        _ => None,
    }
}

/// Taking back the entity just given, with a predicted copy, despawns that
/// copy and leaves the client owning nothing; taking back another entity
/// changes nothing.
pub proof fn lemma_release_undoes_assign(owned: Option<OwnedEntity>, entity: u64, predicted: u64, other: u64)
    requires
        other != entity,
    ensures
        predicted_to_drop(owner_after_assign(owned, entity, Some(predicted)), entity) == Some(predicted),
        owner_after_release(owner_after_assign(owned, entity, Some(predicted)), entity) is None,
        owner_after_release(owner_after_assign(owned, entity, Some(predicted)), other)
            == owner_after_assign(owned, entity, Some(predicted)),
{
}

/// Every cursor position lies on the 16-pixel grid, within the field.
pub proof fn lemma_cursor_on_grid(rx: int, ry: int)
    requires
        0 <= rx < 40,
        0 <= ry < 30,
    ensures
        cursor_spot(rx, ry).0 % 16 == 0,
        cursor_spot(rx, ry).1 % 16 == 0,
        -320 <= cursor_spot(rx, ry).0 <= 304,
        -240 <= cursor_spot(rx, ry).1 <= 224,
{
}

} // verus!

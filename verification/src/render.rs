//! What a front end gets to draw: every entity of a round with its cell and
//! its logical size.

use vstd::prelude::*;

use crate::game::Game;
use crate::model::GameView;
use crate::grid::Position;

verus! {

/// Edge of the head and of a food item, in tenths of a cell.
pub const HEAD_SIZE_TENTHS: u32 = 8;

/// Edge of a body segment, in tenths of a cell.
pub const SEGMENT_SIZE_TENTHS: u32 = 7;

/// Edge of a food item, in tenths of a cell.
pub const FOOD_SIZE_TENTHS: u32 = 8;

/// Logical extent of an entity, in tenths of a cell.
#[derive(Clone, Copy, Debug, PartialEq, Eq, Structural)]
pub struct Size {
    pub width: u32,
    pub height: u32,
}

impl Size {
    /// A size as wide as it is high.
    pub fn square(x: u32) -> (size: Size)
        ensures
            size.width == x,
            size.height == x,
    {
        Size { width: x, height: x }
    }
}

/// What an entity is.
#[derive(Clone, Copy, Debug, PartialEq, Eq, Structural)]
pub enum EntityKind {
    Head,
    Segment,
    Food,
}

impl EntityKind {
    /// The logical size of entities of this kind.
    pub open spec fn spec_size(self) -> Size {
        match self {
            EntityKind::Head => Size { width: HEAD_SIZE_TENTHS, height: HEAD_SIZE_TENTHS },
            EntityKind::Segment => Size { width: SEGMENT_SIZE_TENTHS, height: SEGMENT_SIZE_TENTHS },
            EntityKind::Food => Size { width: FOOD_SIZE_TENTHS, height: FOOD_SIZE_TENTHS },
        }
    }

    /// The logical size of entities of this kind.
    #[verifier::when_used_as_spec(spec_size)]
    pub fn size(self) -> (size: Size)
        ensures
            size == self.spec_size(),
    {
        match self {
            EntityKind::Head => Size::square(HEAD_SIZE_TENTHS),
            EntityKind::Segment => Size::square(SEGMENT_SIZE_TENTHS),
            EntityKind::Food => Size::square(FOOD_SIZE_TENTHS),
        }
    }
}

/// One thing on the grid.
#[derive(Clone, Copy, Debug, PartialEq, Eq, Structural)]
pub struct Entity {
    pub kind: EntityKind,
    pub position: Position,
    pub size: Size,
}

impl Entity {
    /// The entity of the given kind on the given cell.
    pub open spec fn spec_of(kind: EntityKind, position: Position) -> Entity {
        Entity { kind, position, size: kind.spec_size() }
    }

    /// The entity of the given kind on the given cell.
    #[verifier::when_used_as_spec(spec_of)]
    pub fn of(kind: EntityKind, position: Position) -> (entity: Entity)
        ensures
            entity == Entity::spec_of(kind, position),
    {
        Entity { kind, position, size: kind.size() }
    }
}

impl GameView {
    /// The entities of the snake: the head, then the body from neck to tail.
    pub open spec fn snake_entities(self) -> Seq<Entity> {
        Seq::new(
            self.segments.len(),
            |i: int|
                Entity::spec_of(
                    if i == 0 {
                        EntityKind::Head
                    } else {
                        EntityKind::Segment
                    },
                    self.segments[i],
                ),
        )
    }

    /// The entities of the food items, in their order.
    pub open spec fn food_entities(self) -> Seq<Entity> {
        Seq::new(self.food.len(), |i: int| Entity::spec_of(EntityKind::Food, self.food[i]))
    }

    /// All entities of the round: the snake, then the food.
    pub open spec fn entities(self) -> Seq<Entity> {
        self.snake_entities() + self.food_entities()
    }
}

impl Game {
    /// Lists every entity of the round with its cell and size: the head, the
    /// body from neck to tail, then the food.
    pub fn entities(&self) -> (list: Vec<Entity>)
        ensures
            list@ == self@.entities(),
    {
        let segments = self.segments();
        let food = self.food();
        let mut list: Vec<Entity> = Vec::new();
        let mut i: usize = 0;
        while i < segments.len()
            invariant
                i <= segments.len(),
                segments@ == self@.segments,
                list@ == self@.snake_entities().take(i as int),
            decreases segments.len() - i,
        {
            let kind = if i == 0 {
                EntityKind::Head
            } else {
                EntityKind::Segment
            };
            list.push(Entity::of(kind, segments[i]));
            i += 1;
        }
        let mut k: usize = 0;
        while k < food.len()
            invariant
                k <= food.len(),
                food@ == self@.food,
                list@ == self@.snake_entities() + self@.food_entities().take(k as int),
            decreases food.len() - k,
        {
            list.push(Entity::of(EntityKind::Food, food[k]));
            k += 1;
        }
        list
    }
}

} // verus!

//! The picture of a walk that is drawn on the ground for debugging: one
//! quad per step, with an arrow towards the next step.

use vstd::prelude::*;

use crate::network::{Direction, TilePosition};
use crate::world::entity::movement::{is_neighbour, is_walk, Movement, Step};
use crate::world::entity::EntityType;

verus! {

/// A corner of a texture. Both coordinates are zero or one.
#[derive(Copy, Clone, Debug, PartialEq, Eq, Structural)]
pub struct TextureCoordinate {
    pub x: u8,
    pub y: u8,
}

/// A colour with eight bits per channel.
#[derive(Copy, Clone, Debug, PartialEq, Eq, Structural)]
pub struct Color {
    pub red: u8,
    pub green: u8,
    pub blue: u8,
}

/// The texture that marks the end of a walk.
pub const GOAL_TEXTURE: i32 = 0;

/// The texture with an arrow along an edge of the tile.
pub const STRAIGHT_TEXTURE: i32 = 1;

/// The texture with an arrow across the tile.
pub const DIAGONAL_TEXTURE: i32 = 2;

/// The quad of one step of a walk.
#[derive(Copy, Clone, Debug, PartialEq, Eq)]
pub struct PathingTile {
    pub position: TilePosition,
    /// The texture coordinates of the south-west, south-east, north-west
    /// and north-east corner of the tile.
    pub texture_coordinates: [TextureCoordinate; 4],
    pub texture_index: i32,
}

/// The picture of a walk.
#[derive(Debug)]
pub struct Pathing {
    pub color: Color,
    pub tiles: Vec<PathingTile>,
}

/// What the picture of a walk shows.
pub struct PathingView {
    pub color: Color,
    pub tiles: Seq<PathingTile>,
}

impl View for Pathing {
    type V = PathingView;

    open spec fn view(&self) -> PathingView {
        PathingView { color: self.color, tiles: self.tiles@ }
    }
}

impl Clone for Pathing {
    fn clone(&self) -> (pathing: Pathing)
        ensures
            pathing@ == self@,
    {
        let mut tiles: Vec<PathingTile> = Vec::new();
        let mut index: usize = 0;
        while index < self.tiles.len()
            invariant
                index <= self.tiles.len(),
                tiles@ == self.tiles@.take(index as int),
            decreases self.tiles.len() - index,
        {
            tiles.push(self.tiles[index]);
            assert(self.tiles@.take(index as int).push(self.tiles@[index as int]) =~= self.tiles@.take(index + 1));
            index += 1;
        }
        assert(self.tiles@.take(self.tiles.len() as int) =~= self.tiles@);
        Pathing { color: self.color, tiles }
    }
}

/// Four texture coordinates from their eight numbers.
pub open spec fn corners(a: (u8, u8), b: (u8, u8), c: (u8, u8), d: (u8, u8)) -> Seq<TextureCoordinate> {
    seq![
        TextureCoordinate { x: a.0, y: a.1 },
        TextureCoordinate { x: b.0, y: b.1 },
        TextureCoordinate { x: c.0, y: c.1 },
        TextureCoordinate { x: d.0, y: d.1 },
    ]
}

/// The texture coordinates for a step towards a neighbour that lies `x`
/// tiles to the east and `y` tiles to the north: the arrow texture, turned
/// and mirrored so that it points to the neighbour.
pub open spec fn arrow(x: int, y: int) -> (Seq<TextureCoordinate>, i32)
    recommends
        Direction::is_step(x, y),
{
    if x == 1 && y == 0 {
        (corners((0, 0), (1, 0), (0, 1), (1, 1)), STRAIGHT_TEXTURE)
    } else if x == -1 && y == 0 {
        (corners((1, 0), (0, 0), (1, 1), (0, 1)), STRAIGHT_TEXTURE)
    } else if x == 0 && y == 1 {
        (corners((0, 0), (0, 1), (1, 0), (1, 1)), STRAIGHT_TEXTURE)
    } else if x == 0 && y == -1 {
        (corners((1, 0), (1, 1), (0, 0), (0, 1)), STRAIGHT_TEXTURE)
    } else if x == 1 && y == 1 {
        (corners((0, 1), (0, 0), (1, 1), (1, 0)), DIAGONAL_TEXTURE)
    } else if x == -1 && y == 1 {
        (corners((0, 0), (0, 1), (1, 0), (1, 1)), DIAGONAL_TEXTURE)
    } else if x == 1 && y == -1 {
        (corners((1, 1), (1, 0), (0, 1), (0, 0)), DIAGONAL_TEXTURE)
    } else {
        (corners((1, 0), (1, 1), (0, 0), (0, 1)), DIAGONAL_TEXTURE)
    }
}

/// The texture coordinates and the texture for the step at `index`, which
/// lies on the tile `step`: the goal texture for the last step, and an arrow
/// towards the next step for every other.
pub open spec fn texture_coordinates(steps: Seq<Step>, step: TilePosition, index: int) -> (
    Seq<TextureCoordinate>,
    i32,
) {
    if index == steps.len() - 1 {
        (corners((0, 1), (1, 1), (0, 0), (1, 0)), GOAL_TEXTURE)
    } else {
        arrow(steps[index + 1].arrival_position.x - step.x, steps[index + 1].arrival_position.y - step.y)
    }
}

fn corner(x: u8, y: u8) -> (coordinate: TextureCoordinate)
    ensures
        coordinate == (TextureCoordinate { x, y }),
{
    TextureCoordinate { x, y }
}

/// Picks the texture coordinates and the texture for the step at `index`
/// of a walk. The step lies on the tile `step`. A step other than the last
/// has to have the next step on a neighbour of `step`.
pub fn pathing_texture_coordinates(movement: &Movement, step: TilePosition, index: usize) -> (result: (
    [TextureCoordinate; 4],
    i32,
))
    requires
        index < movement@.steps.len(),
        index + 1 < movement@.steps.len() ==> Direction::is_step(
            movement@.steps[index + 1].arrival_position.x - step.x,
            movement@.steps[index + 1].arrival_position.y - step.y,
        ),
    ensures
        result.0@ == texture_coordinates(movement@.steps, step, index as int).0,
        result.1 == texture_coordinates(movement@.steps, step, index as int).1,
{
    if movement.len() - 1 == index {
        let coordinates = [corner(0, 1), corner(1, 1), corner(0, 0), corner(1, 0)];
        assert(coordinates@ =~= corners((0, 1), (1, 1), (0, 0), (1, 0)));
        return (coordinates, GOAL_TEXTURE);
    }
    let arrival_position = movement.get(index + 1).arrival_position;
    let x: isize = arrival_position.x as isize - step.x as isize;
    let y: isize = arrival_position.y as isize - step.y as isize;
    if x == 1 && y == 0 {
        let coordinates = [corner(0, 0), corner(1, 0), corner(0, 1), corner(1, 1)];
        assert(coordinates@ =~= corners((0, 0), (1, 0), (0, 1), (1, 1)));
        (coordinates, STRAIGHT_TEXTURE)
    } else if x == -1 && y == 0 {
        let coordinates = [corner(1, 0), corner(0, 0), corner(1, 1), corner(0, 1)];
        assert(coordinates@ =~= corners((1, 0), (0, 0), (1, 1), (0, 1)));
        (coordinates, STRAIGHT_TEXTURE)
    } else if x == 0 && y == 1 {
        let coordinates = [corner(0, 0), corner(0, 1), corner(1, 0), corner(1, 1)];
        assert(coordinates@ =~= corners((0, 0), (0, 1), (1, 0), (1, 1)));
        (coordinates, STRAIGHT_TEXTURE)
    } else if x == 0 && y == -1 {
        let coordinates = [corner(1, 0), corner(1, 1), corner(0, 0), corner(0, 1)];
        assert(coordinates@ =~= corners((1, 0), (1, 1), (0, 0), (0, 1)));
        (coordinates, STRAIGHT_TEXTURE)
    } else if x == 1 && y == 1 {
        let coordinates = [corner(0, 1), corner(0, 0), corner(1, 1), corner(1, 0)];
        assert(coordinates@ =~= corners((0, 1), (0, 0), (1, 1), (1, 0)));
        (coordinates, DIAGONAL_TEXTURE)
    } else if x == -1 && y == 1 {
        let coordinates = [corner(0, 0), corner(0, 1), corner(1, 0), corner(1, 1)];
        assert(coordinates@ =~= corners((0, 0), (0, 1), (1, 0), (1, 1)));
        (coordinates, DIAGONAL_TEXTURE)
    } else if x == 1 && y == -1 {
        let coordinates = [corner(1, 1), corner(1, 0), corner(0, 1), corner(0, 0)];
        assert(coordinates@ =~= corners((1, 1), (1, 0), (0, 1), (0, 0)));
        (coordinates, DIAGONAL_TEXTURE)
    } else {
        let coordinates = [corner(1, 0), corner(1, 1), corner(0, 0), corner(0, 1)];
        assert(coordinates@ =~= corners((1, 0), (1, 1), (0, 0), (0, 1)));
        (coordinates, DIAGONAL_TEXTURE)
    }
}

/// The colour in which the walk of an entity is drawn.
pub open spec fn spec_mesh_color(entity_type: EntityType) -> Color {
    match entity_type {
        EntityType::Player => Color { red: 25, green: 250, blue: 225 },
        EntityType::Npc => Color { red: 170, green: 250, blue: 25 },
        EntityType::Monster => Color { red: 250, green: 100, blue: 25 },
        _ => Color { red: 255, green: 255, blue: 255 },
    }
}

#[verifier::when_used_as_spec(spec_mesh_color)]
pub fn mesh_color(entity_type: EntityType) -> (color: Color)
    ensures
        color == spec_mesh_color(entity_type),
{
    match entity_type {
        EntityType::Player => Color { red: 25, green: 250, blue: 225 },
        EntityType::Npc => Color { red: 170, green: 250, blue: 25 },
        EntityType::Monster => Color { red: 250, green: 100, blue: 25 },
        _ => Color { red: 255, green: 255, blue: 255 },
    }
}

/// Whether `tile` is the quad of the step at `index`.
pub open spec fn is_tile_of(tile: PathingTile, steps: Seq<Step>, index: int) -> bool {
    &&& tile.position == steps[index].arrival_position
    &&& tile.texture_coordinates@ == texture_coordinates(steps, steps[index].arrival_position, index).0
    &&& tile.texture_index == texture_coordinates(steps, steps[index].arrival_position, index).1
}

/// Whether `pathing` is the picture of the walk with the given steps, for
/// an entity of the given kind: one quad for each step, in the order of the
/// steps, in the colour of the kind.
pub open spec fn is_picture_of(pathing: PathingView, steps: Seq<Step>, entity_type: EntityType) -> bool {
    &&& pathing.color == mesh_color(entity_type)
    &&& pathing.tiles.len() == steps.len()
    &&& forall|index: int| 0 <= index < steps.len() ==> is_tile_of(#[trigger] pathing.tiles[index], steps, index)
}

/// Lays out the picture of a walk.
pub fn generate_pathing_mesh(movement: &Movement, entity_type: EntityType) -> (pathing: Pathing)
    requires
        is_walk(movement@.steps),
    ensures
        is_picture_of(pathing@, movement@.steps, entity_type),
{
    let len = movement.len();
    let mut tiles: Vec<PathingTile> = Vec::new();
    let mut index: usize = 0;
    while index < len
        invariant
            len == movement@.steps.len(),
            is_walk(movement@.steps),
            index <= len,
            tiles@.len() == index,
            forall|i: int| 0 <= i < index ==> is_tile_of(#[trigger] tiles@[i], movement@.steps, i),
        decreases len - index,
    {
        let arrival_position = movement.get(index).arrival_position;
        proof {
            if index + 1 < len {
                let here = movement@.steps[index as int];
                assert(is_neighbour(
                    here.arrival_position,
                    movement@.steps[index + 1].arrival_position,
                ));
            }
        }
        let (texture_coordinates, texture_index) = pathing_texture_coordinates(movement, arrival_position, index);
        tiles.push(PathingTile { position: arrival_position, texture_coordinates, texture_index });
        index += 1;
    }
    Pathing { color: mesh_color(entity_type), tiles }
}

} // verus!

//! What the server tells about the world: identifiers, positions on the
//! tile grid, and the records that describe an entity.

use vstd::prelude::*;

verus! {

/// The identifier of an entity on a map.
#[derive(Clone, Copy, Debug, PartialEq, Eq, Structural)]
pub struct EntityId(pub u32);

/// The identifier of an account.
#[derive(Clone, Copy, Debug, PartialEq, Eq, Structural)]
pub struct AccountId(pub u32);

/// A point in time of the client's clock, in milliseconds. The clock wraps
/// around.
#[derive(Clone, Copy, Debug, PartialEq, Eq, Structural)]
pub struct ClientTick(pub u32);

/// A tile of the map.
#[derive(Clone, Copy, Debug, PartialEq, Eq, Structural)]
pub struct TilePosition {
    pub x: u16,
    pub y: u16,
}

impl TilePosition {
    pub fn new(x: u16, y: u16) -> (position: TilePosition)
        ensures
            position == (TilePosition { x, y }),
    {
        TilePosition { x, y }
    }
}

/// A point of the world. Each coordinate is kept as the bit pattern of a
/// 32-bit floating point number, which this library passes on and never
/// computes with.
#[derive(Clone, Copy, Debug, PartialEq, Eq, Structural)]
pub struct WorldPoint {
    pub x: u32,
    pub y: u32,
    pub z: u32,
}

impl WorldPoint {
    /// The origin of the world: all three coordinates are zero.
    pub fn origin() -> (point: WorldPoint)
        ensures
            point == (WorldPoint { x: 0, y: 0, z: 0 }),
    {
        WorldPoint { x: 0, y: 0, z: 0 }
    }
}

/// One of the eight directions of the tile grid, kept as the step of one
/// tile that leads into it.
#[derive(Clone, Copy, Debug, PartialEq, Eq, Structural)]
pub struct Direction {
    x: i8,
    y: i8,
}

impl Direction {
    /// Whether two offsets are the step of a direction: each is a step of at
    /// most one tile, and they are not both zero.
    pub open spec fn is_step(x: int, y: int) -> bool {
        -1 <= x <= 1 && -1 <= y <= 1 && !(x == 0 && y == 0)
    }

    /// The offset along the x axis: -1, 0 or 1.
    pub closed spec fn spec_x(self) -> i8 {
        self.x
    }

    /// The offset along the y axis: -1, 0 or 1.
    pub closed spec fn spec_y(self) -> i8 {
        self.y
    }

    #[verifier::type_invariant]
    spec fn type_invariant(self) -> bool {
        Direction::is_step(self.x as int, self.y as int)
    }

    /// The direction with the given offsets, which have to be the step of
    /// one.
    pub closed spec fn of_step(x: int, y: int) -> Direction
        recommends
            Direction::is_step(x, y),
    {
        Direction { x: x as i8, y: y as i8 }
    }

    /// A direction has the offsets that it was made of, and is known by
    /// them.
    pub proof fn lemma_of_step(x: int, y: int)
        requires
            Direction::is_step(x, y),
        ensures
            Direction::of_step(x, y).spec_x() == x,
            Direction::of_step(x, y).spec_y() == y,
            forall|other: Direction|
                other.spec_x() == x && other.spec_y() == y ==> other == #[trigger] Direction::of_step(x, y),
    {
    }

    /// The direction of a step, if the offsets are the step of one.
    pub fn from_step(x: isize, y: isize) -> (direction: Option<Direction>)
        ensures
            direction == if Direction::is_step(x as int, y as int) {
                Some(Direction::of_step(x as int, y as int))
            } else {
                None
            },
    {
        if -1 <= x && x <= 1 && -1 <= y && y <= 1 && !(x == 0 && y == 0) {
            Some(Direction { x: x as i8, y: y as i8 })
        } else {
            None
        }
    }

    #[verifier::when_used_as_spec(spec_x)]
    pub fn x(self) -> (x: i8)
        ensures
            x == self.spec_x(),
            Direction::is_step(self.spec_x() as int, self.spec_y() as int),
    {
        proof {
            use_type_invariant(self);
        }
        self.x
    }

    #[verifier::when_used_as_spec(spec_y)]
    pub fn y(self) -> (y: i8)
        ensures
            y == self.spec_y(),
            Direction::is_step(self.spec_x() as int, self.spec_y() as int),
    {
        proof {
            use_type_invariant(self);
        }
        self.y
    }
}

/// The sex of a character, which selects its sprites.
#[derive(Clone, Copy, Debug, PartialEq, Eq, Structural)]
pub enum Sex {
    Female,
    Male,
    Both,
    Server,
}

/// Why an entity left the sight of the player.
#[derive(Clone, Copy, Debug, PartialEq, Eq, Structural)]
pub enum DisappearanceReason {
    OutOfSight,
    Died,
    LoggedOut,
    Teleported,
    TrickDead,
}

/// A change of one of the player's statistics.
#[derive(Clone, Copy, Debug, PartialEq, Eq, Structural)]
pub enum StatType {
    MaximumHealthPoints(u32),
    MaximumSpellPoints(u32),
    HealthPoints(u32),
    SpellPoints(u32),
    ActivityPoints(u32),
    MaximumActivityPoints(u32),
    MovementSpeed(u32),
    BaseLevel(u32),
    JobLevel(u32),
    StatPoints(u32),
    /// Base value and bonus.
    Strength(i32, i32),
    Agility(i32, i32),
    Vitality(i32, i32),
    Intelligence(i32, i32),
    Dexterity(i32, i32),
    Luck(i32, i32),
    StrengthStatPointCost(u8),
    AgilityStatPointCost(u8),
    VitalityStatPointCost(u8),
    IntelligenceStatPointCost(u8),
    DexterityStatPointCost(u8),
    LuckStatPointCost(u8),
    AttackSpeed(u32),
    /// A statistic that the player entity does not keep.
    Other,
}

/// What the server tells about an entity when it appears.
#[derive(Clone, Copy, Debug, PartialEq, Eq, Structural)]
pub struct EntityData {
    pub entity_id: EntityId,
    pub movement_speed: u16,
    pub job: u16,
    pub position: TilePosition,
    pub direction: Direction,
    pub destination: Option<TilePosition>,
    pub health_points: u32,
    pub maximum_health_points: u32,
    pub head_direction: usize,
    pub sex: Sex,
}

/// What the server tells about a character of the account.
#[derive(Clone, Copy, Debug, PartialEq, Eq, Structural)]
pub struct CharacterInformation {
    pub head: u16,
    pub spell_points: u32,
    pub maximum_spell_points: u32,
    pub base_level: u16,
    pub job_level: u16,
    pub stat_points: u16,
    pub strength: u8,
    pub agility: u8,
    pub vitality: u8,
    pub intelligence: u8,
    pub dexterity: u8,
    pub luck: u8,
}

} // verus!

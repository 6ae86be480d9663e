//! Entities of the game world: players and non-player characters.

pub mod movement;
pub mod parts;
pub mod pathing;
pub mod sprite;

use vstd::prelude::*;

use crate::network::{
    CharacterInformation, ClientTick, Direction, DisappearanceReason, EntityData, EntityId, Sex, StatType,
    TilePosition, WorldPoint,
};
use crate::world::entity::movement::{
    arrival_time, can_plan, current_step, is_walk, is_walkable, lemma_arrival_times_grow,
    lemma_current_step_is_unique, lemma_planned_walk, planned_steps, steps_new, steps_of, steps_push, waypoint,
    Movement, MovementView, Step, MAX_WALK_PATH_SIZE,
};
use crate::world::entity::parts::{entity_part_files, get_entity_part_files};
use crate::world::entity::pathing::{generate_pathing_mesh, is_picture_of, Pathing};

verus! {

/// How long a sound effect is held back after it was played, in
/// milliseconds.
pub const SOUND_COOLDOWN_DURATION: u32 = 200;

/// How long an entity takes to fade in, and to fade out when it gets out of
/// sight, in milliseconds.
pub const FADE_IN_DURATION_MS: u32 = 500;

/// How long an entity that died takes to fade out, in milliseconds.
pub const DIED_FADE_DURATION_MS: u32 = 2000;

/// A resource that is fetched on demand.
#[derive(Clone)]
pub enum ResourceState<T> {
    Available(T),
    Unavailable,
    Requested,
}

impl<T> ResourceState<T> {
    /// The resource as an option: `Some` exactly when it is available.
    pub open spec fn spec_as_option(self) -> Option<T> {
        match self {
            ResourceState::Available(value) => Some(value),
            ResourceState::Unavailable => None,
            ResourceState::Requested => None,
        }
    }

    /// Borrows the resource if it is available.
    pub fn as_option(&self) -> (result: Option<&T>)
        ensures
            result.is_some() == (*self is Available),
            match result {
                Some(value) => self.spec_as_option() == Some(*value),
                None => self.spec_as_option().is_none(),
            },
    {
        match self {
            ResourceState::Available(value) => Some(value),
            _ => None,
        }
    }
}

/// What kind of being an entity is, which follows from its job.
#[derive(Copy, Clone, PartialEq, Eq, Debug, Structural)]
pub enum EntityType {
    Hidden,
    Monster,
    Npc,
    Player,
    Warp,
}

impl EntityType {
    /// The kind of entity that has the given job.
    pub open spec fn of_job(job_id: usize) -> EntityType {
        if job_id == 45 {
            EntityType::Warp
        } else if job_id == 111 {
            EntityType::Hidden
        } else if job_id <= 44 || (4000 <= job_id <= 5999) {
            EntityType::Player
        } else if (1000 <= job_id <= 3999) || (20000 <= job_id <= 29999) {
            EntityType::Monster
        } else {
            EntityType::Npc
        }
    }
}

impl From<usize> for EntityType {
    fn from(value: usize) -> (entity_type: Self) {
        if value == 45 {
            EntityType::Warp
        } else if value == 111 {
            EntityType::Hidden
        } else if value <= 44 || (4000 <= value && value <= 5999) {
            EntityType::Player
        } else if (46 <= value && value <= 999) || (10000 <= value && value <= 19999) {
            EntityType::Npc
        } else if (1000 <= value && value <= 3999) || (20000 <= value && value <= 29999) {
            EntityType::Monster
        } else {
            EntityType::Npc
        }
    }
}

impl vstd::std_specs::convert::FromSpecImpl<usize> for EntityType {
    open spec fn obeys_from_spec() -> bool {
        true
    }

    open spec fn from_spec(value: usize) -> EntityType {
        EntityType::of_job(value)
    }
}

/// The key of a sound effect.
#[derive(Copy, Clone, Debug, PartialEq, Eq, Structural)]
pub struct SoundEffectKey(pub u32);

/// What an entity played last, and when.
#[derive(Copy, Clone, Debug, PartialEq, Eq, Structural)]
pub struct SoundState {
    pub previous_key: Option<SoundEffectKey>,
    pub last_played_at: Option<ClientTick>,
}

impl Default for SoundState {
    fn default() -> (state: SoundState)
        ensures
            state == (SoundState { previous_key: None, last_played_at: None }),
    {
        SoundState { previous_key: None, last_played_at: None }
    }
}

impl SoundState {
    /// Whether a sound effect is played at `client_tick`: always, unless it
    /// is the effect that was played last and the cooldown since then is not
    /// over. The time since then is taken on the wrapping clock.
    pub open spec fn should_play(self, sound_effect_key: SoundEffectKey, client_tick: ClientTick) -> bool {
        match (self.previous_key, self.last_played_at) {
            (Some(previous_key), Some(last_tick)) => previous_key != sound_effect_key
                || client_tick.0.wrapping_sub(last_tick.0) >= SOUND_COOLDOWN_DURATION,
            _ => true,
        }
    }

    /// The state after the sound effect came up at `client_tick`.
    pub open spec fn updated(self, sound_effect_key: SoundEffectKey, client_tick: ClientTick) -> SoundState {
        if self.should_play(sound_effect_key, client_tick) {
            SoundState { previous_key: Some(sound_effect_key), last_played_at: Some(client_tick) }
        } else {
            self
        }
    }

    /// A sound effect of the entity's animation came up. Returns whether it
    /// is to be played, and remembers it if so.
    pub fn update(&mut self, sound_effect_key: SoundEffectKey, client_tick: ClientTick) -> (should_play: bool)
        ensures
            should_play == old(self).should_play(sound_effect_key, client_tick),
            *final(self) == old(self).updated(sound_effect_key, client_tick),
    {
        let should_play = match (self.previous_key, self.last_played_at) {
            (Some(previous_key), Some(last_tick)) => {
                if previous_key.0 == sound_effect_key.0 {
                    client_tick.0.wrapping_sub(last_tick.0) >= SOUND_COOLDOWN_DURATION
                } else {
                    true
                }
            },
            _ => true,
        };
        if should_play {
            self.last_played_at = Some(client_tick);
            self.previous_key = Some(sound_effect_key);
        }
        should_play
    }
}

/// Where an entity is on its walk.
#[derive(Copy, Clone, Debug, PartialEq, Eq, Structural)]
pub enum MovementProgress {
    /// The entity does not walk.
    Resting,
    /// The entity has left the last step of its walk behind: the walk is
    /// over, and the entity belongs on the tile of the last step.
    Arrived { position: TilePosition },
    /// The entity is between two steps of its walk. `offset` of the `total`
    /// time between the two steps is over.
    Between { last_step: Step, next_step: Step, offset: u32, total: u32 },
}

/// What players and non-player characters have in common.
#[derive(Clone)]
pub struct Common {
    pub entity_id: EntityId,
    pub job_id: usize,
    pub health_points: usize,
    pub maximum_health_points: usize,
    pub movement_speed: usize,
    pub direction: Direction,
    pub head_direction: usize,
    pub sex: Sex,
    pub entity_type: EntityType,
    pub active_movement: Option<Movement>,
    pub tile_position: TilePosition,
    pub world_position: WorldPoint,
    pub details: ResourceState<String>,
    pub stopped_moving: bool,
    pub sound_state: SoundState,
}

impl Common {
    /// A walk that is under way can be walked.
    pub open spec fn wf(self) -> bool {
        match self.active_movement {
            Some(movement) => is_walk(movement@.steps),
            None => true,
        }
    }

    /// The entity that the server described, on the given tile.
    pub open spec fn spec_new(
        entity_data: EntityData,
        tile_position: TilePosition,
        world_position: WorldPoint,
    ) -> Common {
        Common {
            entity_id: entity_data.entity_id,
            job_id: entity_data.job as usize,
            health_points: entity_data.health_points as usize,
            maximum_health_points: entity_data.maximum_health_points as usize,
            movement_speed: entity_data.movement_speed as usize,
            direction: entity_data.direction,
            head_direction: entity_data.head_direction,
            sex: entity_data.sex,
            entity_type: EntityType::of_job(entity_data.job as usize),
            active_movement: None,
            tile_position,
            world_position,
            details: ResourceState::Unavailable,
            stopped_moving: false,
            sound_state: SoundState { previous_key: None, last_played_at: None },
        }
    }

    pub fn new(entity_data: &EntityData, tile_position: TilePosition, world_position: WorldPoint) -> (common: Common)
        ensures
            common == Common::spec_new(*entity_data, tile_position, world_position),
            common.wf(),
    {
        let job_id = entity_data.job as usize;
        Common {
            entity_id: entity_data.entity_id,
            job_id,
            health_points: entity_data.health_points as usize,
            maximum_health_points: entity_data.maximum_health_points as usize,
            movement_speed: entity_data.movement_speed as usize,
            direction: entity_data.direction,
            head_direction: entity_data.head_direction,
            sex: entity_data.sex,
            entity_type: EntityType::from(job_id),
            active_movement: None,
            tile_position,
            world_position,
            details: ResourceState::Unavailable,
            stopped_moving: false,
            sound_state: SoundState::default(),
        }
    }

    /// Lists the sprite files of the entity, without a hair style.
    pub fn get_entity_part_files(&self, job_identity: &str) -> (files: Vec<String>)
        ensures
            files.deep_view() == entity_part_files(job_identity@, self.entity_type, self.job_id, self.sex, None),
    {
        get_entity_part_files(job_identity, self.entity_type, self.job_id, self.sex, None)
    }

    /// Where the entity is on its walk at `client_tick`.
    pub open spec fn movement_progress(self, client_tick: ClientTick) -> MovementProgress {
        match self.active_movement {
            None => MovementProgress::Resting,
            Some(movement) => {
                let steps = movement@.steps;
                if client_tick.0 > steps.last().arrival_timestamp {
                    MovementProgress::Arrived { position: steps.last().arrival_position }
                } else {
                    let last_step = steps[current_step(steps, client_tick.0)];
                    let next_step = steps[current_step(steps, client_tick.0) + 1];
                    MovementProgress::Between {
                        last_step,
                        next_step,
                        offset: if client_tick.0 > last_step.arrival_timestamp {
                            (client_tick.0 - last_step.arrival_timestamp) as u32
                        } else {
                            0
                        },
                        total: (next_step.arrival_timestamp - last_step.arrival_timestamp) as u32,
                    }
                }
            },
        }
    }

    /// The entity after its walk was brought up to `client_tick`. Between
    /// two steps the entity stands on the tile of the next step and faces
    /// along the step. After the last step the walk is over.
    pub open spec fn moved(self, client_tick: ClientTick) -> Common {
        match self.movement_progress(client_tick) {
            MovementProgress::Resting => Common { stopped_moving: false, ..self },
            MovementProgress::Arrived { .. } => Common { stopped_moving: true, active_movement: None, ..self },
            MovementProgress::Between { last_step, next_step, .. } => Common {
                stopped_moving: false,
                tile_position: next_step.arrival_position,
                direction: Direction::of_step(
                    last_step.arrival_position.x - next_step.arrival_position.x,
                    last_step.arrival_position.y - next_step.arrival_position.y,
                ),
                ..self
            },
        }
    }

    /// Brings the walk of the entity up to `client_tick` and tells where the
    /// entity is.
    ///
    /// An entity that has arrived is put on its tile by `set_position`; the
    /// world position of an entity between two steps lies between the world
    /// positions of the two tiles, `offset` parts of `total` on the way.
    pub fn update_movement(&mut self, client_tick: ClientTick) -> (progress: MovementProgress)
        requires
            old(self).wf(),
        ensures
            progress == old(self).movement_progress(client_tick),
            *final(self) == old(self).moved(client_tick),
            final(self).wf(),
            progress matches MovementProgress::Between { offset, total, .. } ==> offset <= total,
    {
        self.stopped_moving = false;
        match self.active_movement.take() {
            None => MovementProgress::Resting,
            Some(active_movement) => {
                let ghost steps = active_movement@.steps;
                let len = active_movement.len();
                let final_step = active_movement.get(len - 1);
                if client_tick.0 > final_step.arrival_timestamp {
                    self.stopped_moving = true;
                    MovementProgress::Arrived { position: final_step.arrival_position }
                } else {
                    let mut last_step_index: usize = 0;
                    while active_movement.get(last_step_index + 1).arrival_timestamp < client_tick.0
                        invariant
                            steps == active_movement@.steps,
                            len == steps.len(),
                            last_step_index + 1 < len,
                            steps[len - 1].arrival_timestamp >= client_tick.0,
                            forall|i: int| 0 < i <= last_step_index ==> (#[trigger] steps[i]).arrival_timestamp
                                < client_tick.0,
                        decreases len - last_step_index,
                    {
                        last_step_index += 1;
                    }
                    proof {
                        lemma_current_step_is_unique(steps, client_tick.0, last_step_index as int);
                    }
                    let last_step = active_movement.get(last_step_index);
                    let next_step = active_movement.get(last_step_index + 1);
                    assert(last_step.arrival_timestamp <= next_step.arrival_timestamp);
                    self.tile_position = next_step.arrival_position;
                    let direction = Direction::from_step(
                        last_step.arrival_position.x as isize - next_step.arrival_position.x as isize,
                        last_step.arrival_position.y as isize - next_step.arrival_position.y as isize,
                    );
                    self.direction = direction.unwrap();
                    let offset: u32 = if client_tick.0 > last_step.arrival_timestamp {
                        client_tick.0 - last_step.arrival_timestamp
                    } else {
                        0
                    };
                    let total: u32 = next_step.arrival_timestamp - last_step.arrival_timestamp;
                    self.active_movement = Some(active_movement);
                    MovementProgress::Between { last_step, next_step, offset, total }
                }
            },
        }
    }

    /// The entity after it was put on a tile whose place in the world was
    /// looked up. A tile outside the map has no place in the world, and
    /// leaves the entity as it is.
    pub open spec fn positioned(self, position: TilePosition, world_position: Option<WorldPoint>) -> Common {
        match world_position {
            Some(world_position) => Common {
                tile_position: position,
                world_position,
                active_movement: None,
                ..self
            },
            None => self,
        }
    }

    /// Puts the entity on a tile, which ends its walk. Returns whether the
    /// entity was put there.
    pub fn set_position(&mut self, position: TilePosition, world_position: Option<WorldPoint>) -> (positioned: bool)
        ensures
            *final(self) == old(self).positioned(position, world_position),
            positioned == world_position.is_some(),
            positioned || old(self).wf() ==> final(self).wf(),
    {
        match world_position {
            Some(world_position) => {
                self.tile_position = position;
                self.world_position = world_position;
                self.active_movement = None;
                true
            },
            None => false,
        }
    }

    /// Whether a walk along the path begins: there is a path, and it leads
    /// over more than one tile.
    pub open spec fn starts_walk(path: Option<&Vec<TilePosition>>) -> bool {
        match path {
            Some(path) => path@.len() > 1,
            None => false,
        }
    }

    /// Sends the entity on a walk along `path`, which begins on `start` at
    /// `starting_timestamp`. A straight step takes the entity's movement
    /// speed, a diagonal step `diagonal_movement_speed`. Returns whether the
    /// walk began; without a path, or with a path of a single tile, the
    /// entity stays as it is.
    pub fn move_from_to(
        &mut self,
        path: Option<&Vec<TilePosition>>,
        start: TilePosition,
        starting_timestamp: ClientTick,
        diagonal_movement_speed: u32,
    ) -> (started: bool)
        requires
            path matches Some(path) ==> can_plan(
                path@,
                start,
                starting_timestamp.0,
                old(self).movement_speed as u32,
                diagonal_movement_speed,
            ),
        ensures
            started == Common::starts_walk(path),
            !started ==> *final(self) == *old(self),
            started ==> {
                &&& final(self).active_movement.is_some()
                &&& final(self).active_movement.unwrap()@ == (MovementView {
                    steps: planned_steps(
                        path.unwrap()@,
                        start,
                        starting_timestamp.0,
                        old(self).movement_speed as u32,
                        diagonal_movement_speed,
                    ),
                    starting_timestamp: starting_timestamp.0,
                    pathing: None,
                })
                &&& *final(self) == (Common { active_movement: final(self).active_movement, ..*old(self) })
                &&& is_walkable(path.unwrap()@, start) ==> final(self).wf()
            },
    {
        let path = match path {
            Some(path) => path,
            None => {
                return false;
            },
        };
        if path.len() <= 1 {
            return false;
        }
        #[verifier::truncate]
        let straight: u32 = self.movement_speed as u32;
        let diagonal: u32 = diagonal_movement_speed;
        let ghost planned = planned_steps(path@, start, starting_timestamp.0, straight, diagonal);
        let mut last_timestamp: u32 = starting_timestamp.0;
        let mut last_position: TilePosition = start;
        let mut steps = steps_new();
        steps_push(&mut steps, Step { arrival_position: start, arrival_timestamp: last_timestamp });
        assert(steps_of(steps) =~= planned.take(1));
        let mut index: usize = 1;
        while index < path.len()
            invariant
                1 <= index <= path.len(),
                path.len() <= MAX_WALK_PATH_SIZE,
                planned == planned_steps(path@, start, starting_timestamp.0, straight, diagonal),
                can_plan(path@, start, starting_timestamp.0, straight, diagonal),
                steps_of(steps) == planned.take(index as int),
                last_position == waypoint(path@, start, index - 1),
                last_timestamp == arrival_time(
                    path@,
                    start,
                    starting_timestamp.0,
                    straight,
                    diagonal,
                    (index - 1) as nat,
                ),
            decreases path.len() - index,
        {
            let step = path[index];
            let speed: u32 = if last_position.x == step.x || last_position.y == step.y {
                straight
            } else {
                diagonal
            };
            proof {
                lemma_arrival_times_grow(
                    path@,
                    start,
                    starting_timestamp.0,
                    straight,
                    diagonal,
                    index as nat,
                    (path.len() - 1) as nat,
                );
            }
            let arrival_timestamp: u32 = last_timestamp + speed;
            last_timestamp = arrival_timestamp;
            last_position = step;
            steps_push(&mut steps, Step { arrival_position: step, arrival_timestamp });
            assert(steps_of(steps) =~= planned.take(index + 1));
            index += 1;
        }
        assert(planned.take(path.len() as int) =~= planned);
        proof {
            if is_walkable(path@, start) {
                lemma_planned_walk(path@, start, starting_timestamp.0, straight, diagonal);
            }
        }
        self.active_movement = Some(Movement::new(steps, starting_timestamp.0));
        true
    }

    /// Lays out the picture of the entity's walk and keeps it with the walk.
    /// An entity that does not walk has no picture. Returns whether a
    /// picture was laid out.
    pub fn generate_pathing_mesh(&mut self) -> (generated: bool)
        requires
            old(self).wf(),
        ensures
            generated == old(self).active_movement.is_some(),
            !generated ==> *final(self) == *old(self),
            generated ==> {
                let before = old(self).active_movement.unwrap()@;
                &&& final(self).active_movement.is_some()
                &&& final(self).active_movement.unwrap()@.steps == before.steps
                &&& final(self).active_movement.unwrap()@.starting_timestamp == before.starting_timestamp
                &&& final(self).active_movement.unwrap()@.pathing.is_some()
                &&& is_picture_of(
                    final(self).active_movement.unwrap()@.pathing.unwrap(),
                    before.steps,
                    old(self).entity_type,
                )
                &&& *final(self) == (Common { active_movement: final(self).active_movement, ..*old(self) })
            },
            final(self).wf(),
    {
        match self.active_movement.take() {
            Some(active_movement) => {
                let mut active_movement = active_movement;
                let pathing = generate_pathing_mesh(&active_movement, self.entity_type);
                active_movement.set_pathing(pathing);
                self.active_movement = Some(active_movement);
                true
            },
            None => false,
        }
    }
}

/// The character that the player controls.
#[derive(Clone)]
pub struct Player {
    pub common: Common,
    pub hair_id: usize,
    pub spell_points: usize,
    pub activity_points: usize,
    pub maximum_spell_points: usize,
    pub maximum_activity_points: usize,
    pub base_level: usize,
    pub job_level: usize,
    pub stat_points: u32,
    pub strength: i32,
    pub bonus_strength: i32,
    pub strength_stat_points_cost: u8,
    pub agility: i32,
    pub bonus_agility: i32,
    pub agility_stat_points_cost: u8,
    pub vitality: i32,
    pub bonus_vitality: i32,
    pub vitality_stat_points_cost: u8,
    pub intelligence: i32,
    pub bonus_intelligence: i32,
    pub intelligence_stat_points_cost: u8,
    pub dexterity: i32,
    pub bonus_dexterity: i32,
    pub dexterity_stat_points_cost: u8,
    pub luck: i32,
    pub bonus_luck: i32,
    pub luck_stat_points_cost: u8,
    pub attack_speed: u32,
}

impl Player {
    /// The player for a character of the account, before the server has
    /// said where the character is: on the first tile, at the origin of the
    /// world.
    pub open spec fn spec_new(entity_data: EntityData, character_information: CharacterInformation) -> Player {
        Player {
            common: Common::spec_new(
                entity_data,
                TilePosition { x: 0, y: 0 },
                WorldPoint { x: 0, y: 0, z: 0 },
            ),
            hair_id: character_information.head as usize,
            spell_points: character_information.spell_points as usize,
            activity_points: 0,
            maximum_spell_points: character_information.maximum_spell_points as usize,
            maximum_activity_points: 0,
            base_level: character_information.base_level as usize,
            job_level: character_information.job_level as usize,
            stat_points: character_information.stat_points as u32,
            strength: character_information.strength as i32,
            bonus_strength: 0,
            strength_stat_points_cost: 0,
            agility: character_information.agility as i32,
            bonus_agility: 0,
            agility_stat_points_cost: 0,
            vitality: character_information.vitality as i32,
            bonus_vitality: 0,
            vitality_stat_points_cost: 0,
            intelligence: character_information.intelligence as i32,
            bonus_intelligence: 0,
            intelligence_stat_points_cost: 0,
            dexterity: character_information.dexterity as i32,
            bonus_dexterity: 0,
            dexterity_stat_points_cost: 0,
            luck: character_information.luck as i32,
            bonus_luck: 0,
            luck_stat_points_cost: 0,
            attack_speed: 0,
        }
    }

    /// Makes the player for a character. `entity_data` describes the
    /// character as an entity.
    pub fn new(entity_data: &EntityData, character_information: &CharacterInformation) -> (player: Player)
        ensures
            player == Player::spec_new(*entity_data, *character_information),
            player.common.wf(),
    {
        let common = Common::new(entity_data, TilePosition::new(0, 0), WorldPoint::origin());
        Player {
            common,
            hair_id: character_information.head as usize,
            spell_points: character_information.spell_points as usize,
            activity_points: 0,
            maximum_spell_points: character_information.maximum_spell_points as usize,
            maximum_activity_points: 0,
            base_level: character_information.base_level as usize,
            job_level: character_information.job_level as usize,
            stat_points: character_information.stat_points as u32,
            strength: character_information.strength as i32,
            bonus_strength: 0,
            strength_stat_points_cost: 0,
            agility: character_information.agility as i32,
            bonus_agility: 0,
            agility_stat_points_cost: 0,
            vitality: character_information.vitality as i32,
            bonus_vitality: 0,
            vitality_stat_points_cost: 0,
            intelligence: character_information.intelligence as i32,
            bonus_intelligence: 0,
            intelligence_stat_points_cost: 0,
            dexterity: character_information.dexterity as i32,
            bonus_dexterity: 0,
            dexterity_stat_points_cost: 0,
            luck: character_information.luck as i32,
            bonus_luck: 0,
            luck_stat_points_cost: 0,
            attack_speed: 0,
        }
    }

    pub fn get_common(&self) -> (common: &Common)
        ensures
            *common == self.common,
    {
        &self.common
    }

    pub fn get_common_mut(&mut self) -> (common: &mut Common)
        ensures
            *common == old(self).common,
            *final(self) == (Player { common: *final(common), ..*old(self) }),
    {
        &mut self.common
    }

    /// The player after a change of one statistic.
    pub open spec fn with_stat(self, stat_type: StatType) -> Player {
        match stat_type {
            StatType::MaximumHealthPoints(value) => Player {
                common: Common { maximum_health_points: value as usize, ..self.common },
                ..self
            },
            StatType::MaximumSpellPoints(value) => Player { maximum_spell_points: value as usize, ..self },
            StatType::HealthPoints(value) => Player {
                common: Common { health_points: value as usize, ..self.common },
                ..self
            },
            StatType::SpellPoints(value) => Player { spell_points: value as usize, ..self },
            StatType::ActivityPoints(value) => Player { activity_points: value as usize, ..self },
            StatType::MaximumActivityPoints(value) => Player { maximum_activity_points: value as usize, ..self },
            StatType::MovementSpeed(value) => Player {
                common: Common { movement_speed: value as usize, ..self.common },
                ..self
            },
            StatType::BaseLevel(value) => Player { base_level: value as usize, ..self },
            StatType::JobLevel(value) => Player { job_level: value as usize, ..self },
            StatType::StatPoints(stat_points) => Player { stat_points, ..self },
            StatType::Strength(base, bonus) => Player { strength: base, bonus_strength: bonus, ..self },
            StatType::Agility(base, bonus) => Player { agility: base, bonus_agility: bonus, ..self },
            StatType::Vitality(base, bonus) => Player { vitality: base, bonus_vitality: bonus, ..self },
            StatType::Intelligence(base, bonus) => Player { intelligence: base, bonus_intelligence: bonus, ..self },
            StatType::Dexterity(base, bonus) => Player { dexterity: base, bonus_dexterity: bonus, ..self },
            StatType::Luck(base, bonus) => Player { luck: base, bonus_luck: bonus, ..self },
            StatType::StrengthStatPointCost(cost) => Player { strength_stat_points_cost: cost, ..self },
            StatType::AgilityStatPointCost(cost) => Player { agility_stat_points_cost: cost, ..self },
            StatType::VitalityStatPointCost(cost) => Player { vitality_stat_points_cost: cost, ..self },
            StatType::IntelligenceStatPointCost(cost) => Player { intelligence_stat_points_cost: cost, ..self },
            StatType::DexterityStatPointCost(cost) => Player { dexterity_stat_points_cost: cost, ..self },
            StatType::LuckStatPointCost(cost) => Player { luck_stat_points_cost: cost, ..self },
            StatType::AttackSpeed(attack_speed) => Player { attack_speed, ..self },
            StatType::Other => self,
        }
    }

    /// Takes over a change of one statistic.
    pub fn update_stat(&mut self, stat_type: StatType)
        ensures
            *final(self) == old(self).with_stat(stat_type),
    {
        match stat_type {
            StatType::MaximumHealthPoints(value) => self.common.maximum_health_points = value as usize,
            StatType::MaximumSpellPoints(value) => self.maximum_spell_points = value as usize,
            StatType::HealthPoints(value) => self.common.health_points = value as usize,
            StatType::SpellPoints(value) => self.spell_points = value as usize,
            StatType::ActivityPoints(value) => self.activity_points = value as usize,
            StatType::MaximumActivityPoints(value) => self.maximum_activity_points = value as usize,
            StatType::MovementSpeed(value) => self.common.movement_speed = value as usize,
            StatType::BaseLevel(value) => self.base_level = value as usize,
            StatType::JobLevel(value) => self.job_level = value as usize,
            StatType::StatPoints(stat_points) => self.stat_points = stat_points,
            StatType::Strength(base, bonus) => {
                self.strength = base;
                self.bonus_strength = bonus;
            },
            StatType::Agility(base, bonus) => {
                self.agility = base;
                self.bonus_agility = bonus;
            },
            StatType::Vitality(base, bonus) => {
                self.vitality = base;
                self.bonus_vitality = bonus;
            },
            StatType::Intelligence(base, bonus) => {
                self.intelligence = base;
                self.bonus_intelligence = bonus;
            },
            StatType::Dexterity(base, bonus) => {
                self.dexterity = base;
                self.bonus_dexterity = bonus;
            },
            StatType::Luck(base, bonus) => {
                self.luck = base;
                self.bonus_luck = bonus;
            },
            StatType::StrengthStatPointCost(cost) => self.strength_stat_points_cost = cost,
            StatType::AgilityStatPointCost(cost) => self.agility_stat_points_cost = cost,
            StatType::VitalityStatPointCost(cost) => self.vitality_stat_points_cost = cost,
            StatType::IntelligenceStatPointCost(cost) => self.intelligence_stat_points_cost = cost,
            StatType::DexterityStatPointCost(cost) => self.dexterity_stat_points_cost = cost,
            StatType::LuckStatPointCost(cost) => self.luck_stat_points_cost = cost,
            StatType::AttackSpeed(attack_speed) => self.attack_speed = attack_speed,
            StatType::Other => {},
        }
    }

    /// Lists the sprite files of the player, with the player's hair style.
    pub fn get_entity_part_files(&self, job_identity: &str) -> (files: Vec<String>)
        ensures
            files.deep_view() == entity_part_files(
                job_identity@,
                self.common.entity_type,
                self.common.job_id,
                self.common.sex,
                Some(self.hair_id),
            ),
    {
        let common = self.get_common();
        get_entity_part_files(job_identity, common.entity_type, common.job_id, common.sex, Some(self.hair_id))
    }
}

/// A character that the player does not control.
#[derive(Clone)]
pub struct Npc {
    pub common: Common,
}

impl Npc {
    /// Makes the character that the server described. `world_position` is
    /// the place of the character's tile in the world, which a tile outside
    /// the map does not have: no character is made then. A character with a
    /// destination is sent on its walk there along `path`.
    pub fn new(
        entity_data: EntityData,
        world_position: Option<WorldPoint>,
        path: Option<&Vec<TilePosition>>,
        diagonal_movement_speed: u32,
        client_tick: ClientTick,
    ) -> (npc: Option<Npc>)
        requires
            entity_data.destination.is_some() ==> (path matches Some(path) ==> can_plan(
                path@,
                entity_data.position,
                client_tick.0,
                entity_data.movement_speed as u32,
                diagonal_movement_speed,
            )),
        ensures
            npc.is_some() == world_position.is_some(),
            npc matches Some(npc) ==> {
                let common = Common::spec_new(entity_data, entity_data.position, world_position.unwrap());
                if entity_data.destination.is_some() && Common::starts_walk(path) {
                    &&& npc.common.active_movement.is_some()
                    &&& npc.common.active_movement.unwrap()@ == (MovementView {
                        steps: planned_steps(
                            path.unwrap()@,
                            entity_data.position,
                            client_tick.0,
                            entity_data.movement_speed as u32,
                            diagonal_movement_speed,
                        ),
                        starting_timestamp: client_tick.0,
                        pathing: None,
                    })
                    &&& npc.common == (Common { active_movement: npc.common.active_movement, ..common })
                    &&& is_walkable(path.unwrap()@, entity_data.position) ==> npc.common.wf()
                } else {
                    npc.common == common
                }
            },
    {
        let position = match world_position {
            Some(position) => position,
            None => {
                return None;
            },
        };
        let mut common = Common::new(&entity_data, entity_data.position, position);
        if entity_data.destination.is_some() {
            common.move_from_to(path, entity_data.position, client_tick, diagonal_movement_speed);
        }
        Some(Npc { common })
    }

    pub fn get_common(&self) -> (common: &Common)
        ensures
            *common == self.common,
    {
        &self.common
    }

    pub fn get_common_mut(&mut self) -> (common: &mut Common)
        ensures
            *common == old(self).common,
            *final(self) == (Npc { common: *final(common) }),
    {
        &mut self.common
    }
}

/// An entity of the world.
#[derive(Clone)]
pub enum Entity {
    Player(Player),
    Npc(Npc),
}

impl Entity {
    /// What the entity has in common with all others.
    pub open spec fn common(self) -> Common {
        match self {
            Entity::Player(player) => player.common,
            Entity::Npc(npc) => npc.common,
        }
    }

    /// The entity with another common part.
    pub open spec fn with_common(self, common: Common) -> Entity {
        match self {
            Entity::Player(player) => Entity::Player(Player { common, ..player }),
            Entity::Npc(npc) => Entity::Npc(Npc { common }),
        }
    }

    pub fn get_common(&self) -> (common: &Common)
        ensures
            *common == self.common(),
    {
        match self {
            Entity::Player(player) => player.get_common(),
            Entity::Npc(npc) => npc.get_common(),
        }
    }

    pub fn get_common_mut(&mut self) -> (common: &mut Common)
        ensures
            *common == old(self).common(),
            *final(self) == old(self).with_common(*final(common)),
    {
        match self {
            Entity::Player(player) => player.get_common_mut(),
            Entity::Npc(npc) => npc.get_common_mut(),
        }
    }

    pub fn get_entity_id(&self) -> (entity_id: EntityId)
        ensures
            entity_id == self.common().entity_id,
    {
        self.get_common().entity_id
    }

    pub fn get_entity_type(&self) -> (entity_type: EntityType)
        ensures
            entity_type == self.common().entity_type,
    {
        self.get_common().entity_type
    }

    /// How long the entity takes to fade out when it disappears for the
    /// given reason, in milliseconds.
    pub open spec fn spec_fade_out_duration(reason: DisappearanceReason) -> u32 {
        if reason == DisappearanceReason::Died {
            DIED_FADE_DURATION_MS
        } else {
            FADE_IN_DURATION_MS
        }
    }

    #[verifier::when_used_as_spec(spec_fade_out_duration)]
    pub fn fade_out_duration(reason: DisappearanceReason) -> (duration: u32)
        ensures
            duration == Entity::spec_fade_out_duration(reason),
    {
        match reason {
            DisappearanceReason::OutOfSight => FADE_IN_DURATION_MS,
            DisappearanceReason::Died => DIED_FADE_DURATION_MS,
            _ => FADE_IN_DURATION_MS,
        }
    }

    pub fn are_details_unavailable(&self) -> (unavailable: bool)
        ensures
            unavailable == (self.common().details is Unavailable),
    {
        match &self.get_common().details {
            ResourceState::Unavailable => true,
            _ => false,
        }
    }

    pub fn set_job(&mut self, job_id: usize)
        ensures
            *final(self) == old(self).with_common(Common { job_id, ..old(self).common() }),
    {
        self.get_common_mut().job_id = job_id;
    }

    /// Gives a player another hair style. Other entities have none.
    pub fn set_hair(&mut self, hair_id: usize)
        ensures
            *final(self) == match *old(self) {
                Entity::Player(player) => Entity::Player(Player { hair_id, ..player }),
                Entity::Npc(npc) => Entity::Npc(npc),
            },
    {
        if let Entity::Player(player) = self {
            player.hair_id = hair_id
        }
    }

    /// Lists the sprite files of the entity.
    pub fn get_entity_part_files(&self, job_identity: &str) -> (files: Vec<String>)
        ensures
            files.deep_view() == entity_part_files(
                job_identity@,
                self.common().entity_type,
                self.common().job_id,
                self.common().sex,
                match *self {
                    Entity::Player(player) => Some(player.hair_id),
                    Entity::Npc(_) => None,
                },
            ),
    {
        match self {
            Entity::Player(player) => player.get_entity_part_files(job_identity),
            Entity::Npc(npc) => npc.get_common().get_entity_part_files(job_identity),
        }
    }

    pub fn set_details_requested(&mut self)
        ensures
            *final(self) == old(self).with_common(
                Common { details: ResourceState::Requested, ..old(self).common() },
            ),
    {
        self.get_common_mut().details = ResourceState::Requested;
    }

    pub fn set_details(&mut self, details: String)
        ensures
            *final(self) == old(self).with_common(
                Common { details: ResourceState::Available(details), ..old(self).common() },
            ),
    {
        self.get_common_mut().details = ResourceState::Available(details);
    }

    pub fn get_details(&self) -> (details: Option<&String>)
        ensures
            match details {
                Some(details) => self.common().details == ResourceState::Available(*details),
                None => !(self.common().details is Available),
            },
    {
        self.get_common().details.as_option()
    }

    pub fn get_tile_position(&self) -> (position: TilePosition)
        ensures
            position == self.common().tile_position,
    {
        self.get_common().tile_position
    }

    pub fn get_position(&self) -> (position: WorldPoint)
        ensures
            position == self.common().world_position,
    {
        self.get_common().world_position
    }

    /// Puts the entity on a tile, which ends its walk. `world_position` is
    /// the place of the tile in the world; a tile outside the map has none
    /// and leaves the entity as it is. Returns whether the entity was put
    /// there.
    pub fn set_position(&mut self, position: TilePosition, world_position: Option<WorldPoint>) -> (positioned: bool)
        ensures
            *final(self) == old(self).with_common(old(self).common().positioned(position, world_position)),
            positioned == world_position.is_some(),
    {
        self.get_common_mut().set_position(position, world_position)
    }

    /// The direction from the entity to a tile: for each axis whether the
    /// entity's tile lies before, on, or behind the target. There is none
    /// if the entity stands on the tile.
    pub open spec fn direction_towards(self, target_position: TilePosition) -> Option<Direction> {
        let x = self.common().tile_position.x - target_position.x;
        let y = self.common().tile_position.y - target_position.y;
        let step_x: int = if x < -1 {
            -1
        } else if x > 1 {
            1
        } else {
            x
        };
        let step_y: int = if y < -1 {
            -1
        } else if y > 1 {
            1
        } else {
            y
        };
        if step_x == 0 && step_y == 0 {
            None
        } else {
            Some(Direction::of_step(step_x, step_y))
        }
    }

    /// Turns the entity towards a tile. An entity that stands on the tile
    /// keeps its direction.
    pub fn rotate_towards(&mut self, target_position: TilePosition)
        ensures
            *final(self) == match old(self).direction_towards(target_position) {
                Some(direction) => old(self).with_common(Common { direction, ..old(self).common() }),
                None => *old(self),
            },
    {
        let common = self.get_common_mut();
        let x: isize = common.tile_position.x as isize - target_position.x as isize;
        let y: isize = common.tile_position.y as isize - target_position.y as isize;
        let step_x: isize = if x < -1 {
            -1
        } else if x > 1 {
            1
        } else {
            x
        };
        let step_y: isize = if y < -1 {
            -1
        } else if y > 1 {
            1
        } else {
            y
        };
        if let Some(direction) = Direction::from_step(step_x, step_y) {
            common.direction = direction;
        }
    }

    pub fn stopped_moving(&self) -> (stopped: bool)
        ensures
            stopped == self.common().stopped_moving,
    {
        self.get_common().stopped_moving
    }

    pub fn stop_movement(&mut self)
        ensures
            *final(self) == old(self).with_common(Common { active_movement: None, ..old(self).common() }),
    {
        self.get_common_mut().active_movement = None;
    }

    pub fn update_health(&mut self, health_points: usize, maximum_health_points: usize)
        ensures
            *final(self) == old(self).with_common(
                Common { health_points, maximum_health_points, ..old(self).common() },
            ),
    {
        let common = self.get_common_mut();
        common.health_points = health_points;
        common.maximum_health_points = maximum_health_points;
    }

    /// Brings the walk of the entity up to `client_tick` and tells where the
    /// entity is.
    pub fn update_movement(&mut self, client_tick: ClientTick) -> (progress: MovementProgress)
        requires
            old(self).common().wf(),
        ensures
            progress == old(self).common().movement_progress(client_tick),
            *final(self) == old(self).with_common(old(self).common().moved(client_tick)),
            final(self).common().wf(),
    {
        self.get_common_mut().update_movement(client_tick)
    }

    /// Sends the entity on a walk along `path`. Returns whether the walk
    /// began.
    pub fn move_from_to(
        &mut self,
        path: Option<&Vec<TilePosition>>,
        from: TilePosition,
        starting_timestamp: ClientTick,
        diagonal_movement_speed: u32,
    ) -> (started: bool)
        requires
            path matches Some(path) ==> can_plan(
                path@,
                from,
                starting_timestamp.0,
                old(self).common().movement_speed as u32,
                diagonal_movement_speed,
            ),
        ensures
            started == Common::starts_walk(path),
            !started ==> *final(self) == *old(self),
            started ==> {
                &&& final(self).common().active_movement.is_some()
                &&& final(self).common().active_movement.unwrap()@ == (MovementView {
                    steps: planned_steps(
                        path.unwrap()@,
                        from,
                        starting_timestamp.0,
                        old(self).common().movement_speed as u32,
                        diagonal_movement_speed,
                    ),
                    starting_timestamp: starting_timestamp.0,
                    pathing: None,
                })
                &&& *final(self) == old(self).with_common(
                    Common { active_movement: final(self).common().active_movement, ..old(self).common() },
                )
                &&& is_walkable(path.unwrap()@, from) ==> final(self).common().wf()
            },
    {
        self.get_common_mut().move_from_to(path, from, starting_timestamp, diagonal_movement_speed)
    }

    /// Lays out the picture of the entity's walk and keeps it with the walk.
    /// Returns whether a picture was laid out.
    pub fn generate_pathing_mesh(&mut self) -> (generated: bool)
        requires
            old(self).common().wf(),
        ensures
            generated == old(self).common().active_movement.is_some(),
            !generated ==> *final(self) == *old(self),
            generated ==> {
                let before = old(self).common().active_movement.unwrap()@;
                let after = final(self).common().active_movement;
                &&& after.is_some()
                &&& after.unwrap()@.steps == before.steps
                &&& after.unwrap()@.starting_timestamp == before.starting_timestamp
                &&& after.unwrap()@.pathing.is_some()
                &&& is_picture_of(after.unwrap()@.pathing.unwrap(), before.steps, old(self).common().entity_type)
                &&& *final(self) == old(self).with_common(
                    Common { active_movement: after, ..old(self).common() },
                )
            },
            final(self).common().wf(),
    {
        self.get_common_mut().generate_pathing_mesh()
    }

    /// The picture of the entity's walk, if the entity walks and a picture
    /// was laid out.
    pub fn get_pathing(&self) -> (pathing: Option<&Pathing>)
        ensures
            match pathing {
                Some(pathing) => self.common().active_movement.is_some()
                    && self.common().active_movement.unwrap()@.pathing == Some(pathing@),
                None => self.common().active_movement.is_none()
                    || self.common().active_movement.unwrap()@.pathing.is_none(),
            },
    {
        match self.get_common().active_movement.as_ref() {
            Some(movement) => movement.pathing(),
            None => None,
        }
    }
}

} // verus!

use arrayvec::ArrayVec;
use korangar::network::{
    CharacterInformation, ClientTick, Direction, DisappearanceReason, EntityData, EntityId, Sex, StatType,
    TilePosition, WorldPoint,
};
use korangar::world::entity::movement::{Movement, Step, MAX_WALK_PATH_SIZE};
use korangar::world::entity::pathing::{
    generate_pathing_mesh, mesh_color, pathing_texture_coordinates, Color, TextureCoordinate, DIAGONAL_TEXTURE,
    GOAL_TEXTURE, STRAIGHT_TEXTURE,
};
use korangar::world::entity::{
    Common, Entity, EntityType, MovementProgress, Npc, Player, ResourceState, SoundEffectKey, SoundState,
    DIED_FADE_DURATION_MS, FADE_IN_DURATION_MS, SOUND_COOLDOWN_DURATION,
};

fn direction(x: isize, y: isize) -> Direction {
    Direction::from_step(x, y).expect("a step of one tile")
}

fn tile(x: u16, y: u16) -> TilePosition {
    TilePosition { x, y }
}

fn entity_data(job: u16) -> EntityData {
    EntityData {
        entity_id: EntityId(77),
        movement_speed: 150,
        job,
        position: tile(10, 10),
        direction: direction(0, 1),
        destination: None,
        health_points: 90,
        maximum_health_points: 100,
        head_direction: 2,
        sex: Sex::Female,
    }
}

fn character() -> CharacterInformation {
    CharacterInformation {
        head: 5,
        spell_points: 11,
        maximum_spell_points: 22,
        base_level: 33,
        job_level: 44,
        stat_points: 55,
        strength: 1,
        agility: 2,
        vitality: 3,
        intelligence: 4,
        dexterity: 5,
        luck: 6,
    }
}

fn point(x: f32, y: f32, z: f32) -> WorldPoint {
    WorldPoint { x: x.to_bits(), y: y.to_bits(), z: z.to_bits() }
}

fn steps_of(movement: &Movement) -> Vec<Step> {
    (0..movement.len()).map(|index| movement.get(index)).collect()
}

fn walk(steps: &[(u16, u16, u32)]) -> Movement {
    let mut list: ArrayVec<Step, MAX_WALK_PATH_SIZE> = ArrayVec::new();
    for (x, y, arrival_timestamp) in steps {
        list.push(Step { arrival_position: tile(*x, *y), arrival_timestamp: *arrival_timestamp });
    }
    Movement::new(list, steps[0].2)
}

#[test]
fn direction_is_a_step_of_one_tile() {
    for x in -2..=2isize {
        for y in -2..=2isize {
            let made = Direction::from_step(x, y);
            let is_step = x.abs() <= 1 && y.abs() <= 1 && (x, y) != (0, 0);
            assert_eq!(made.is_some(), is_step);
            if let Some(direction) = made {
                assert_eq!((direction.x() as isize, direction.y() as isize), (x, y));
            }
        }
    }
    assert!(Direction::from_step(isize::MAX, 0).is_none());
    assert!(Direction::from_step(0, isize::MIN).is_none());
    assert_eq!(direction(1, -1), direction(1, -1));
    assert_ne!(direction(1, -1), direction(-1, 1));
}

#[test]
fn origin_is_all_zero() {
    assert_eq!(WorldPoint::origin(), point(0.0, 0.0, 0.0));
    assert_eq!(TilePosition::new(3, 4), tile(3, 4));
}

#[test]
fn sound_is_played_at_first() {
    let mut state = SoundState::default();
    assert_eq!(state, SoundState { previous_key: None, last_played_at: None });
    assert!(state.update(SoundEffectKey(3), ClientTick(1000)));
    assert_eq!(state, SoundState { previous_key: Some(SoundEffectKey(3)), last_played_at: Some(ClientTick(1000)) });
}

#[test]
fn same_sound_is_held_back_during_the_cooldown() {
    assert_eq!(SOUND_COOLDOWN_DURATION, 200);
    let mut state = SoundState::default();
    assert!(state.update(SoundEffectKey(3), ClientTick(1000)));
    assert!(!state.update(SoundEffectKey(3), ClientTick(1000)));
    assert!(!state.update(SoundEffectKey(3), ClientTick(1199)));
    assert_eq!(state.last_played_at, Some(ClientTick(1000)));
    assert!(state.update(SoundEffectKey(3), ClientTick(1200)));
    assert_eq!(state.last_played_at, Some(ClientTick(1200)));
}

#[test]
fn another_sound_is_played_at_once() {
    let mut state = SoundState::default();
    assert!(state.update(SoundEffectKey(3), ClientTick(1000)));
    assert!(state.update(SoundEffectKey(4), ClientTick(1001)));
    assert_eq!(state, SoundState { previous_key: Some(SoundEffectKey(4)), last_played_at: Some(ClientTick(1001)) });
    assert!(state.update(SoundEffectKey(3), ClientTick(1002)));
}

#[test]
fn sound_cooldown_is_taken_on_the_wrapping_clock() {
    let mut state = SoundState::default();
    assert!(state.update(SoundEffectKey(9), ClientTick(u32::MAX - 99)));
    assert!(!state.update(SoundEffectKey(9), ClientTick(99)));
    assert!(state.update(SoundEffectKey(9), ClientTick(100)));
    // A tick before the last one is a long time after it on the wrapping clock.
    assert!(state.update(SoundEffectKey(9), ClientTick(50)));
}

#[test]
fn sound_with_a_key_but_no_time_is_played() {
    let mut state = SoundState { previous_key: Some(SoundEffectKey(1)), last_played_at: None };
    assert!(state.update(SoundEffectKey(1), ClientTick(0)));
    let mut state = SoundState { previous_key: None, last_played_at: Some(ClientTick(0)) };
    assert!(state.update(SoundEffectKey(1), ClientTick(0)));
}

#[test]
fn common_takes_over_what_the_server_says() {
    let common = Common::new(&entity_data(1002), tile(3, 4), point(1.5, 2.5, 3.5));
    assert_eq!(common.entity_id, EntityId(77));
    assert_eq!(common.job_id, 1002);
    assert_eq!(common.entity_type, EntityType::Monster);
    assert_eq!(common.health_points, 90);
    assert_eq!(common.maximum_health_points, 100);
    assert_eq!(common.movement_speed, 150);
    assert_eq!(common.direction, direction(0, 1));
    assert_eq!(common.head_direction, 2);
    assert_eq!(common.sex, Sex::Female);
    assert!(common.active_movement.is_none());
    assert_eq!(common.tile_position, tile(3, 4));
    assert_eq!(common.world_position, point(1.5, 2.5, 3.5));
    assert!(matches!(common.details, ResourceState::Unavailable));
    assert!(!common.stopped_moving);
    assert_eq!(common.sound_state, SoundState::default());
}

#[test]
fn player_starts_at_the_origin() {
    let player = Player::new(&entity_data(7), &character());
    assert_eq!(player.get_common().tile_position, tile(0, 0));
    assert_eq!(player.get_common().world_position, WorldPoint::origin());
    assert_eq!(player.get_common().entity_type, EntityType::Player);
    assert_eq!(player.hair_id, 5);
    assert_eq!(player.spell_points, 11);
    assert_eq!(player.maximum_spell_points, 22);
    assert_eq!(player.activity_points, 0);
    assert_eq!(player.maximum_activity_points, 0);
    assert_eq!(player.base_level, 33);
    assert_eq!(player.job_level, 44);
    assert_eq!(player.stat_points, 55);
    assert_eq!(
        (player.strength, player.agility, player.vitality, player.intelligence, player.dexterity, player.luck),
        (1, 2, 3, 4, 5, 6)
    );
    assert_eq!((player.bonus_strength, player.bonus_luck, player.attack_speed), (0, 0, 0));
    assert_eq!((player.strength_stat_points_cost, player.luck_stat_points_cost), (0, 0));
}

#[test]
fn player_takes_over_each_statistic() {
    let mut player = Player::new(&entity_data(7), &character());
    player.update_stat(StatType::MaximumHealthPoints(500));
    assert_eq!(player.common.maximum_health_points, 500);
    player.update_stat(StatType::HealthPoints(400));
    assert_eq!(player.common.health_points, 400);
    player.update_stat(StatType::MaximumSpellPoints(300));
    assert_eq!(player.maximum_spell_points, 300);
    player.update_stat(StatType::SpellPoints(200));
    assert_eq!(player.spell_points, 200);
    player.update_stat(StatType::ActivityPoints(10));
    assert_eq!(player.activity_points, 10);
    player.update_stat(StatType::MaximumActivityPoints(20));
    assert_eq!(player.maximum_activity_points, 20);
    player.update_stat(StatType::MovementSpeed(120));
    assert_eq!(player.common.movement_speed, 120);
    player.update_stat(StatType::BaseLevel(99));
    assert_eq!(player.base_level, 99);
    player.update_stat(StatType::JobLevel(50));
    assert_eq!(player.job_level, 50);
    player.update_stat(StatType::StatPoints(7));
    assert_eq!(player.stat_points, 7);
    player.update_stat(StatType::Strength(10, -1));
    assert_eq!((player.strength, player.bonus_strength), (10, -1));
    player.update_stat(StatType::Agility(11, 1));
    assert_eq!((player.agility, player.bonus_agility), (11, 1));
    player.update_stat(StatType::Vitality(12, 2));
    assert_eq!((player.vitality, player.bonus_vitality), (12, 2));
    player.update_stat(StatType::Intelligence(13, 3));
    assert_eq!((player.intelligence, player.bonus_intelligence), (13, 3));
    player.update_stat(StatType::Dexterity(14, 4));
    assert_eq!((player.dexterity, player.bonus_dexterity), (14, 4));
    player.update_stat(StatType::Luck(15, 5));
    assert_eq!((player.luck, player.bonus_luck), (15, 5));
    player.update_stat(StatType::StrengthStatPointCost(2));
    player.update_stat(StatType::AgilityStatPointCost(3));
    player.update_stat(StatType::VitalityStatPointCost(4));
    player.update_stat(StatType::IntelligenceStatPointCost(5));
    player.update_stat(StatType::DexterityStatPointCost(6));
    player.update_stat(StatType::LuckStatPointCost(7));
    assert_eq!(
        (
            player.strength_stat_points_cost,
            player.agility_stat_points_cost,
            player.vitality_stat_points_cost,
            player.intelligence_stat_points_cost,
            player.dexterity_stat_points_cost,
            player.luck_stat_points_cost
        ),
        (2, 3, 4, 5, 6, 7)
    );
    player.update_stat(StatType::AttackSpeed(180));
    assert_eq!(player.attack_speed, 180);
    player.update_stat(StatType::Other);
    assert_eq!(player.attack_speed, 180);
    assert_eq!(player.base_level, 99);
    assert_eq!(player.hair_id, 5);
}

#[test]
fn common_of_a_player_can_be_changed_in_place() {
    let mut player = Player::new(&entity_data(7), &character());
    player.get_common_mut().job_id = 12;
    assert_eq!(player.get_common().job_id, 12);
    assert_eq!(player.hair_id, 5);
    let mut npc = Npc::new(entity_data(46), Some(WorldPoint::origin()), None, 0, ClientTick(0)).expect("on the map");
    npc.get_common_mut().health_points = 1;
    assert_eq!(npc.get_common().health_points, 1);
}

#[test]
fn npc_outside_the_map_is_not_made() {
    assert!(Npc::new(entity_data(46), None, None, 210, ClientTick(5)).is_none());
}

#[test]
fn npc_without_destination_stands_still() {
    let path = vec![tile(10, 10), tile(11, 10)];
    let npc = Npc::new(entity_data(46), Some(point(1.0, 2.0, 3.0)), Some(&path), 210, ClientTick(5)).expect("on the map");
    let common = npc.get_common();
    assert!(common.active_movement.is_none());
    assert_eq!(common.tile_position, tile(10, 10));
    assert_eq!(common.world_position, point(1.0, 2.0, 3.0));
    assert_eq!(common.entity_type, EntityType::Npc);
}

#[test]
fn npc_with_destination_walks_there() {
    let mut data = entity_data(1002);
    data.destination = Some(tile(12, 11));
    let path = vec![tile(10, 10), tile(11, 10), tile(12, 11)];
    let npc = Npc::new(data, Some(point(1.0, 2.0, 3.0)), Some(&path), 210, ClientTick(5000)).expect("on the map");
    let movement = npc.get_common().active_movement.as_ref().expect("the walk has begun");
    assert_eq!(
        steps_of(movement),
        vec![
            Step { arrival_position: tile(10, 10), arrival_timestamp: 5000 },
            Step { arrival_position: tile(11, 10), arrival_timestamp: 5150 },
            Step { arrival_position: tile(12, 11), arrival_timestamp: 5360 },
        ]
    );
    assert_eq!(movement.starting_timestamp(), 5000);
}

#[test]
fn walk_begins_on_the_start_tile_whatever_the_path_says() {
    let mut common = Common::new(&entity_data(7), tile(1, 1), WorldPoint::origin());
    common.movement_speed = 100;
    let path = vec![tile(9, 9), tile(2, 2), tile(2, 3), tile(1, 4), tile(0, 4)];
    assert!(common.move_from_to(Some(&path), tile(1, 1), ClientTick(10), 140));
    let movement = common.active_movement.as_ref().expect("the walk has begun");
    assert_eq!(movement.len(), 5);
    assert_eq!(
        steps_of(movement),
        vec![
            Step { arrival_position: tile(1, 1), arrival_timestamp: 10 },
            Step { arrival_position: tile(2, 2), arrival_timestamp: 150 },
            Step { arrival_position: tile(2, 3), arrival_timestamp: 250 },
            Step { arrival_position: tile(1, 4), arrival_timestamp: 390 },
            Step { arrival_position: tile(0, 4), arrival_timestamp: 490 },
        ]
    );
    assert_eq!(movement.step(4), Some(Step { arrival_position: tile(0, 4), arrival_timestamp: 490 }));
    assert_eq!(movement.step(5), None);
    assert_eq!(movement.starting_timestamp(), 10);
    assert_eq!(common.tile_position, tile(1, 1));
    assert!(!common.stopped_moving);
}

#[test]
fn walk_needs_a_path_of_two_tiles() {
    let mut common = Common::new(&entity_data(7), tile(1, 1), WorldPoint::origin());
    assert!(!common.move_from_to(None, tile(1, 1), ClientTick(10), 140));
    assert!(common.active_movement.is_none());
    assert!(!common.move_from_to(Some(&vec![]), tile(1, 1), ClientTick(10), 140));
    assert!(common.active_movement.is_none());
    assert!(!common.move_from_to(Some(&vec![tile(1, 1)]), tile(1, 1), ClientTick(10), 140));
    assert!(common.active_movement.is_none());
    assert!(common.move_from_to(Some(&vec![tile(1, 1), tile(1, 2)]), tile(1, 1), ClientTick(10), 140));
    assert!(common.active_movement.is_some());
    // A path that cannot be walked leaves the walk that is under way.
    assert!(!common.move_from_to(None, tile(1, 1), ClientTick(10), 140));
    assert!(common.active_movement.is_some());
}

#[test]
fn walk_of_the_greatest_length() {
    let mut common = Common::new(&entity_data(7), tile(0, 0), WorldPoint::origin());
    let path: Vec<TilePosition> = (0..MAX_WALK_PATH_SIZE as u16).map(|x| tile(x, 0)).collect();
    assert_eq!(MAX_WALK_PATH_SIZE, 32);
    assert!(common.move_from_to(Some(&path), tile(0, 0), ClientTick(0), 210));
    let movement = common.active_movement.as_ref().expect("the walk has begun");
    assert_eq!(movement.len(), 32);
    assert_eq!(movement.get(31), Step { arrival_position: tile(31, 0), arrival_timestamp: 31 * 150 });
}

#[test]
fn copy_of_a_walk_has_the_same_steps() {
    let movement = walk(&[(1, 1, 10), (2, 2, 150), (2, 3, 250)]);
    let copy = movement.clone();
    assert_eq!(steps_of(&copy), steps_of(&movement));
    assert_eq!(copy.len(), 3);
    assert_eq!(copy.starting_timestamp(), 10);
    assert_eq!(copy.get(1), Step { arrival_position: tile(2, 2), arrival_timestamp: 150 });
}

#[test]
fn resting_entity_makes_no_progress() {
    let mut common = Common::new(&entity_data(7), tile(1, 1), WorldPoint::origin());
    common.stopped_moving = true;
    assert_eq!(common.update_movement(ClientTick(100)), MovementProgress::Resting);
    assert!(!common.stopped_moving);
    assert_eq!(common.tile_position, tile(1, 1));
}

#[test]
fn entity_is_between_the_steps_around_the_tick() {
    let mut common = Common::new(&entity_data(7), tile(1, 1), WorldPoint::origin());
    common.active_movement = Some(walk(&[(1, 1, 10), (2, 2, 150), (2, 3, 250), (1, 3, 350)]));
    let first = Step { arrival_position: tile(1, 1), arrival_timestamp: 10 };
    let second = Step { arrival_position: tile(2, 2), arrival_timestamp: 150 };
    let third = Step { arrival_position: tile(2, 3), arrival_timestamp: 250 };
    let fourth = Step { arrival_position: tile(1, 3), arrival_timestamp: 350 };

    // Before the walk begins the entity is on its way to the second step, with nothing of the way done.
    assert_eq!(
        common.update_movement(ClientTick(5)),
        MovementProgress::Between { last_step: first, next_step: second, offset: 0, total: 140 }
    );
    assert_eq!(common.tile_position, tile(2, 2));
    assert_eq!(common.direction, direction(-1, -1));
    assert!(!common.stopped_moving);
    assert!(common.active_movement.is_some());

    assert_eq!(
        common.update_movement(ClientTick(80)),
        MovementProgress::Between { last_step: first, next_step: second, offset: 70, total: 140 }
    );
    // A step that is reached at the tick is still ahead.
    assert_eq!(
        common.update_movement(ClientTick(150)),
        MovementProgress::Between { last_step: first, next_step: second, offset: 140, total: 140 }
    );
    assert_eq!(
        common.update_movement(ClientTick(151)),
        MovementProgress::Between { last_step: second, next_step: third, offset: 1, total: 100 }
    );
    assert_eq!(common.tile_position, tile(2, 3));
    assert_eq!(common.direction, direction(0, -1));
    assert_eq!(
        common.update_movement(ClientTick(350)),
        MovementProgress::Between { last_step: third, next_step: fourth, offset: 100, total: 100 }
    );
    assert_eq!(common.tile_position, tile(1, 3));
    assert_eq!(common.direction, direction(1, 0));
    assert_eq!(steps_of(common.active_movement.as_ref().expect("still walking")).len(), 4);
}

#[test]
fn entity_arrives_after_the_last_step() {
    let mut common = Common::new(&entity_data(7), tile(1, 1), WorldPoint::origin());
    common.active_movement = Some(walk(&[(1, 1, 10), (2, 2, 150), (2, 3, 250)]));
    assert_eq!(common.update_movement(ClientTick(251)), MovementProgress::Arrived { position: tile(2, 3) });
    assert!(common.stopped_moving);
    assert!(common.active_movement.is_none());
    // The entity is put on the tile once the place of the tile in the world is known.
    assert_eq!(common.tile_position, tile(1, 1));
    assert!(common.set_position(tile(2, 3), Some(point(10.0, 0.5, 15.0))));
    assert_eq!(common.tile_position, tile(2, 3));
    assert_eq!(common.world_position, point(10.0, 0.5, 15.0));
    assert_eq!(common.update_movement(ClientTick(252)), MovementProgress::Resting);
    assert!(!common.stopped_moving);
}

#[test]
fn position_outside_the_map_changes_nothing() {
    let mut common = Common::new(&entity_data(7), tile(1, 1), point(1.0, 1.0, 1.0));
    common.active_movement = Some(walk(&[(1, 1, 10), (2, 2, 150)]));
    assert!(!common.set_position(tile(200, 200), None));
    assert_eq!(common.tile_position, tile(1, 1));
    assert_eq!(common.world_position, point(1.0, 1.0, 1.0));
    assert!(common.active_movement.is_some());
    assert!(common.set_position(tile(5, 6), Some(point(2.0, 2.0, 2.0))));
    assert_eq!(common.tile_position, tile(5, 6));
    assert!(common.active_movement.is_none());
}

#[test]
fn entity_delegates_to_its_common_part() {
    let mut player = Entity::Player(Player::new(&entity_data(7), &character()));
    let mut npc =
        Entity::Npc(Npc::new(entity_data(1002), Some(point(1.0, 2.0, 3.0)), None, 0, ClientTick(0)).expect("npc"));
    assert_eq!(player.get_entity_id(), EntityId(77));
    assert_eq!(player.get_entity_type(), EntityType::Player);
    assert_eq!(npc.get_entity_type(), EntityType::Monster);
    assert_eq!(npc.get_tile_position(), tile(10, 10));
    assert_eq!(npc.get_position(), point(1.0, 2.0, 3.0));
    assert_eq!(player.get_position(), WorldPoint::origin());

    player.set_job(4008);
    assert_eq!(player.get_common().job_id, 4008);
    // The kind of an entity is set when it is made.
    assert_eq!(player.get_entity_type(), EntityType::Player);

    player.set_hair(9);
    npc.set_hair(9);
    assert!(matches!(&player, Entity::Player(player) if player.hair_id == 9));

    npc.update_health(5, 50);
    assert_eq!((npc.get_common().health_points, npc.get_common().maximum_health_points), (5, 50));

    assert!(!npc.stopped_moving());
    npc.get_common_mut().stopped_moving = true;
    assert!(npc.stopped_moving());

    assert!(npc.move_from_to(Some(&vec![tile(10, 10), tile(10, 11)]), tile(10, 10), ClientTick(0), 210));
    assert!(npc.get_common().active_movement.is_some());
    assert_eq!(
        npc.update_movement(ClientTick(75)),
        MovementProgress::Between {
            last_step: Step { arrival_position: tile(10, 10), arrival_timestamp: 0 },
            next_step: Step { arrival_position: tile(10, 11), arrival_timestamp: 150 },
            offset: 75,
            total: 150,
        }
    );
    npc.stop_movement();
    assert!(npc.get_common().active_movement.is_none());
    assert!(npc.set_position(tile(3, 3), Some(point(9.0, 9.0, 9.0))));
    assert_eq!(npc.get_tile_position(), tile(3, 3));
    assert!(!player.set_position(tile(3, 3), None));
    assert_eq!(player.get_tile_position(), tile(0, 0));
}

#[test]
fn details_are_unavailable_requested_or_available() {
    let mut entity = Entity::Player(Player::new(&entity_data(7), &character()));
    assert!(entity.are_details_unavailable());
    assert_eq!(entity.get_details(), None);
    entity.set_details_requested();
    assert!(!entity.are_details_unavailable());
    assert_eq!(entity.get_details(), None);
    entity.set_details("a name".to_string());
    assert!(!entity.are_details_unavailable());
    assert_eq!(entity.get_details(), Some(&"a name".to_string()));
}

#[test]
fn entity_turns_towards_a_tile() {
    let mut entity = Entity::Player(Player::new(&entity_data(7), &character()));
    entity.set_position(tile(10, 10), Some(WorldPoint::origin()));
    entity.rotate_towards(tile(10, 11));
    assert_eq!(entity.get_common().direction, direction(0, -1));
    entity.rotate_towards(tile(3, 10));
    assert_eq!(entity.get_common().direction, direction(1, 0));
    entity.rotate_towards(tile(500, 0));
    assert_eq!(entity.get_common().direction, direction(-1, 1));
    entity.rotate_towards(tile(11, 9));
    assert_eq!(entity.get_common().direction, direction(-1, 1));
    entity.rotate_towards(tile(9, 30));
    assert_eq!(entity.get_common().direction, direction(1, -1));
    // An entity that stands on the tile keeps its direction.
    entity.rotate_towards(tile(10, 10));
    assert_eq!(entity.get_common().direction, direction(1, -1));
}

#[test]
fn fade_out_takes_longer_for_the_dead() {
    assert_eq!(FADE_IN_DURATION_MS, 500);
    assert_eq!(DIED_FADE_DURATION_MS, 2000);
    assert_eq!(Entity::fade_out_duration(DisappearanceReason::OutOfSight), 500);
    assert_eq!(Entity::fade_out_duration(DisappearanceReason::Died), 2000);
    assert_eq!(Entity::fade_out_duration(DisappearanceReason::LoggedOut), 500);
    assert_eq!(Entity::fade_out_duration(DisappearanceReason::Teleported), 500);
    assert_eq!(Entity::fade_out_duration(DisappearanceReason::TrickDead), 500);
}

#[test]
fn last_step_carries_the_goal_texture() {
    let movement = walk(&[(1, 1, 10), (2, 2, 150)]);
    let corner = |x, y| TextureCoordinate { x, y };
    assert_eq!(
        pathing_texture_coordinates(&movement, tile(2, 2), 1),
        ([corner(0, 1), corner(1, 1), corner(0, 0), corner(1, 0)], GOAL_TEXTURE)
    );
    assert_eq!((GOAL_TEXTURE, STRAIGHT_TEXTURE, DIAGONAL_TEXTURE), (0, 1, 2));
}

#[test]
fn arrow_points_to_the_next_step() {
    let corner = |x, y| TextureCoordinate { x, y };
    let cases = [
        ((1i32, 0i32), [(0, 0), (1, 0), (0, 1), (1, 1)], 1),
        ((-1, 0), [(1, 0), (0, 0), (1, 1), (0, 1)], 1),
        ((0, 1), [(0, 0), (0, 1), (1, 0), (1, 1)], 1),
        ((0, -1), [(1, 0), (1, 1), (0, 0), (0, 1)], 1),
        ((1, 1), [(0, 1), (0, 0), (1, 1), (1, 0)], 2),
        ((-1, 1), [(0, 0), (0, 1), (1, 0), (1, 1)], 2),
        ((1, -1), [(1, 1), (1, 0), (0, 1), (0, 0)], 2),
        ((-1, -1), [(1, 0), (1, 1), (0, 0), (0, 1)], 2),
    ];
    for ((x, y), corners, texture) in cases {
        let next = ((5 + x) as u16, (5 + y) as u16);
        let movement = walk(&[(5, 5, 0), (next.0, next.1, 100)]);
        let expected = [
            corner(corners[0].0, corners[0].1),
            corner(corners[1].0, corners[1].1),
            corner(corners[2].0, corners[2].1),
            corner(corners[3].0, corners[3].1),
        ];
        assert_eq!(pathing_texture_coordinates(&movement, tile(5, 5), 0), (expected, texture));
    }
}

#[test]
fn pathing_mesh_has_a_tile_for_each_step() {
    let movement = walk(&[(1, 1, 10), (2, 2, 150), (2, 3, 250)]);
    let pathing = generate_pathing_mesh(&movement, EntityType::Npc);
    let corner = |x, y| TextureCoordinate { x, y };
    assert_eq!(pathing.color, Color { red: 170, green: 250, blue: 25 });
    assert_eq!(pathing.tiles.len(), 3);
    assert_eq!(pathing.tiles[0].position, tile(1, 1));
    assert_eq!(pathing.tiles[0].texture_index, DIAGONAL_TEXTURE);
    assert_eq!(pathing.tiles[0].texture_coordinates, [corner(0, 1), corner(0, 0), corner(1, 1), corner(1, 0)]);
    assert_eq!(pathing.tiles[1].position, tile(2, 2));
    assert_eq!(pathing.tiles[1].texture_index, STRAIGHT_TEXTURE);
    assert_eq!(pathing.tiles[1].texture_coordinates, [corner(0, 0), corner(0, 1), corner(1, 0), corner(1, 1)]);
    assert_eq!(pathing.tiles[2].position, tile(2, 3));
    assert_eq!(pathing.tiles[2].texture_index, GOAL_TEXTURE);
    assert_eq!(pathing.tiles[2].texture_coordinates, [corner(0, 1), corner(1, 1), corner(0, 0), corner(1, 0)]);
}

#[test]
fn pathing_mesh_is_coloured_by_the_kind_of_entity() {
    assert_eq!(mesh_color(EntityType::Player), Color { red: 25, green: 250, blue: 225 });
    assert_eq!(mesh_color(EntityType::Npc), Color { red: 170, green: 250, blue: 25 });
    assert_eq!(mesh_color(EntityType::Monster), Color { red: 250, green: 100, blue: 25 });
    assert_eq!(mesh_color(EntityType::Warp), Color { red: 255, green: 255, blue: 255 });
    assert_eq!(mesh_color(EntityType::Hidden), Color { red: 255, green: 255, blue: 255 });
}

#[test]
fn entity_keeps_the_picture_of_its_walk() {
    let mut entity =
        Entity::Npc(Npc::new(entity_data(1002), Some(point(1.0, 2.0, 3.0)), None, 0, ClientTick(0)).expect("npc"));
    assert!(entity.get_pathing().is_none());
    // An entity that does not walk has no picture.
    assert!(!entity.generate_pathing_mesh());
    assert!(entity.get_pathing().is_none());

    assert!(entity.move_from_to(Some(&vec![tile(10, 10), tile(10, 11), tile(11, 12)]), tile(10, 10), ClientTick(0), 210));
    assert!(entity.get_pathing().is_none());
    assert!(entity.generate_pathing_mesh());
    let pathing = entity.get_pathing().expect("the picture was laid out");
    assert_eq!(pathing.color, Color { red: 250, green: 100, blue: 25 });
    let positions: Vec<TilePosition> = pathing.tiles.iter().map(|tile| tile.position).collect();
    assert_eq!(positions, vec![tile(10, 10), tile(10, 11), tile(11, 12)]);
    let textures: Vec<i32> = pathing.tiles.iter().map(|tile| tile.texture_index).collect();
    assert_eq!(textures, vec![STRAIGHT_TEXTURE, DIAGONAL_TEXTURE, GOAL_TEXTURE]);
    // The walk itself is as it was.
    let movement = entity.get_common().active_movement.as_ref().expect("still walking");
    assert_eq!(movement.len(), 3);
    assert_eq!(movement.starting_timestamp(), 0);

    // The copy of a walk has the picture of the walk.
    let copy = movement.clone();
    let copied = copy.pathing().expect("the picture was copied");
    assert_eq!(copied.color, pathing.color);
    assert_eq!(copied.tiles, pathing.tiles);

    // A new walk has no picture yet.
    assert!(entity.move_from_to(Some(&vec![tile(10, 10), tile(9, 9)]), tile(10, 10), ClientTick(0), 210));
    assert!(entity.get_pathing().is_none());
    let mut player = Player::new(&entity_data(7), &character());
    assert!(!player.get_common_mut().generate_pathing_mesh());
}

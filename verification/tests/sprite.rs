use korangar::world::entity::sprite::get_sprite_path_for_player_job;
use korangar::world::entity::{EntityType, ResourceState};

#[test]
fn novice_sprite_path() {
    assert_eq!(get_sprite_path_for_player_job(0), "초보자");
}

#[test]
fn lord_knight_sprite_path() {
    assert_eq!(get_sprite_path_for_player_job(4008), "로드나이트");
}

#[test]
fn unknown_job_falls_back_to_novice() {
    assert_eq!(get_sprite_path_for_player_job(31), "초보자");
    assert_eq!(get_sprite_path_for_player_job(4053), "초보자");
    assert_eq!(get_sprite_path_for_player_job(usize::MAX), "초보자");
}

#[test]
fn last_job_sprite_path() {
    assert_eq!(get_sprite_path_for_player_job(4316), "SKY_EMPEROR2");
}

#[test]
fn available_resource_is_some() {
    let state = ResourceState::Available(7u32);
    assert_eq!(state.as_option(), Some(&7));
}

#[test]
fn unavailable_and_requested_resources_are_none() {
    assert_eq!(ResourceState::<u32>::Unavailable.as_option(), None);
    assert_eq!(ResourceState::<u32>::Requested.as_option(), None);
}

#[test]
fn entity_type_of_job() {
    assert_eq!(EntityType::from(45), EntityType::Warp);
    assert_eq!(EntityType::from(111), EntityType::Hidden);
    assert_eq!(EntityType::from(0), EntityType::Player);
    assert_eq!(EntityType::from(44), EntityType::Player);
    assert_eq!(EntityType::from(4000), EntityType::Player);
    assert_eq!(EntityType::from(5999), EntityType::Player);
    assert_eq!(EntityType::from(46), EntityType::Npc);
    assert_eq!(EntityType::from(999), EntityType::Npc);
    assert_eq!(EntityType::from(10000), EntityType::Npc);
    assert_eq!(EntityType::from(19999), EntityType::Npc);
    assert_eq!(EntityType::from(1000), EntityType::Monster);
    assert_eq!(EntityType::from(3999), EntityType::Monster);
    assert_eq!(EntityType::from(20000), EntityType::Monster);
    assert_eq!(EntityType::from(29999), EntityType::Monster);
    assert_eq!(EntityType::from(6000), EntityType::Npc);
    assert_eq!(EntityType::from(30000), EntityType::Npc);
}

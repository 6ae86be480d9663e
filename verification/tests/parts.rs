use korangar::interface::windows::account::login::{
    ClickAction, FocusMode, LoginElement, LoginSettings, LoginWindow, SizeConstraint, UserEvent, INPUT_LENGTH,
};
use korangar::network::{CharacterInformation, Direction, EntityData, EntityId, Sex, TilePosition};
use korangar::world::entity::parts::{decimal_string, get_entity_part_files};
use korangar::world::entity::{Common, Entity, EntityType, Player};
use korangar::network::WorldPoint;

fn data(job: u16, sex: Sex) -> EntityData {
    EntityData {
        entity_id: EntityId(1),
        movement_speed: 150,
        job,
        position: TilePosition { x: 0, y: 0 },
        direction: Direction::from_step(0, 1).expect("a direction"),
        destination: None,
        health_points: 1,
        maximum_health_points: 1,
        head_direction: 0,
        sex,
    }
}

fn information(head: u16) -> CharacterInformation {
    CharacterInformation {
        head,
        spell_points: 0,
        maximum_spell_points: 0,
        base_level: 1,
        job_level: 1,
        stat_points: 0,
        strength: 1,
        agility: 1,
        vitality: 1,
        intelligence: 1,
        dexterity: 1,
        luck: 1,
    }
}

#[test]
fn numbers_are_written_in_decimal() {
    for value in [0usize, 1, 9, 10, 11, 99, 100, 101, 4008, 65535, 1234567890, usize::MAX] {
        assert_eq!(decimal_string(value), format!("{}", value));
    }
}

#[test]
fn player_is_made_of_body_and_head() {
    assert_eq!(
        get_entity_part_files("ignored", EntityType::Player, 4008, Sex::Male, Some(3)),
        vec!["인간족\\몸통\\남\\로드나이트_남".to_string(), "인간족\\머리통\\남\\7_남".to_string()]
    );
    assert_eq!(
        get_entity_part_files("ignored", EntityType::Player, 0, Sex::Female, Some(4)),
        vec!["인간족\\몸통\\여\\초보자_여".to_string(), "인간족\\머리통\\여\\1_여".to_string()]
    );
}

#[test]
fn hair_styles_are_numbered_by_sex() {
    let male = [2, 2, 1, 7, 5, 4, 3, 6, 8, 9, 10, 12, 11];
    let female = [2, 2, 4, 7, 1, 5, 3, 6, 12, 10, 9, 11, 8];
    for head in 0..20usize {
        let male_head = if head < male.len() { male[head] } else { head };
        let female_head = if head < female.len() { female[head] } else { head };
        assert_eq!(
            get_entity_part_files("", EntityType::Player, 1, Sex::Male, Some(head))[1],
            format!("인간족\\머리통\\남\\{}_남", male_head)
        );
        assert_eq!(
            get_entity_part_files("", EntityType::Player, 1, Sex::Female, Some(head))[1],
            format!("인간족\\머리통\\여\\{}_여", female_head)
        );
    }
}

#[test]
fn player_without_hair_style_or_sex_has_the_first_head() {
    assert_eq!(
        get_entity_part_files("", EntityType::Player, 1, Sex::Male, None)[1],
        "인간족\\머리통\\남\\1_남".to_string()
    );
    assert_eq!(
        get_entity_part_files("", EntityType::Player, 1, Sex::Female, None)[1],
        "인간족\\머리통\\여\\1_여".to_string()
    );
    assert_eq!(
        get_entity_part_files("", EntityType::Player, 1, Sex::Both, Some(7)),
        vec!["인간족\\몸통\\남\\검사_남".to_string(), "인간족\\머리통\\남\\1_남".to_string()]
    );
    assert_eq!(
        get_entity_part_files("", EntityType::Player, 1, Sex::Server, Some(7))[1],
        "인간족\\머리통\\남\\1_남".to_string()
    );
}

#[test]
fn other_entities_are_made_of_one_file_named_after_the_job() {
    assert_eq!(get_entity_part_files("4_f_kafra1", EntityType::Npc, 117, Sex::Female, None), vec!["npc\\4_f_kafra1"]);
    assert_eq!(get_entity_part_files("poring", EntityType::Monster, 1002, Sex::Male, Some(3)), vec!["몬스터\\poring"]);
    assert_eq!(get_entity_part_files("1_shadow_npc", EntityType::Warp, 45, Sex::Male, None), vec!["npc\\1_shadow_npc"]);
    assert_eq!(get_entity_part_files("hidden", EntityType::Hidden, 111, Sex::Male, None), vec!["npc\\hidden"]);
    assert_eq!(get_entity_part_files("", EntityType::Monster, 1002, Sex::Male, None), vec!["몬스터\\"]);
}

#[test]
fn entities_list_their_own_parts() {
    let common = Common::new(&data(1002, Sex::Male), TilePosition { x: 0, y: 0 }, WorldPoint::origin());
    assert_eq!(common.get_entity_part_files("poring"), vec!["몬스터\\poring"]);

    let player = Player::new(&data(12, Sex::Female), &information(8));
    assert_eq!(
        player.get_entity_part_files("unused"),
        vec!["인간족\\몸통\\여\\어세신_여".to_string(), "인간족\\머리통\\여\\12_여".to_string()]
    );
    // The common part of a player knows no hair style.
    assert_eq!(
        player.get_common().get_entity_part_files("unused"),
        vec!["인간족\\몸통\\여\\어세신_여".to_string(), "인간족\\머리통\\여\\1_여".to_string()]
    );
    let mut entity = Entity::Player(player);
    entity.set_hair(20);
    assert_eq!(entity.get_entity_part_files("unused")[1], "인간족\\머리통\\여\\20_여".to_string());
    entity.set_job(4316);
    assert_eq!(entity.get_entity_part_files("unused")[0], "인간족\\몸통\\여\\SKY_EMPEROR2_여".to_string());
}

fn settings(username: &str, password: &str) -> LoginSettings {
    LoginSettings {
        username: username.to_string(),
        password: password.to_string(),
        remember_username: true,
        remember_password: false,
    }
}

#[test]
fn login_window_has_its_class() {
    let window = LoginWindow::new(settings("me", "secret"));
    assert_eq!(LoginWindow::WINDOW_CLASS, "login");
    assert_eq!(window.window_class(), Some("login"));
    assert_eq!(window.login_settings.username, "me");
}

#[test]
fn login_needs_user_name_and_password() {
    assert!(LoginWindow::is_complete("me", "secret"));
    assert!(!LoginWindow::is_complete("", "secret"));
    assert!(!LoginWindow::is_complete("me", ""));
    assert!(!LoginWindow::is_complete("", ""));
    assert_eq!(
        LoginWindow::log_in_action("me", "secret"),
        Some(ClickAction::Event(UserEvent::LogIn("me".to_string(), "secret".to_string())))
    );
}

#[test]
fn enter_in_the_user_name_field_moves_on() {
    assert_eq!(LoginWindow::username_action("me"), Some(ClickAction::FocusNext(FocusMode::FocusNext)));
    assert_eq!(LoginWindow::username_action(""), None);
}

#[test]
fn enter_in_the_password_field_logs_in() {
    assert_eq!(
        LoginWindow::password_action("me", "secret"),
        Some(ClickAction::Event(UserEvent::LogIn("me".to_string(), "secret".to_string())))
    );
    assert_eq!(LoginWindow::password_action("me", ""), None);
    assert_eq!(LoginWindow::password_action("", "secret"), Some(ClickAction::FocusNext(FocusMode::FocusPrevious)));
    assert_eq!(LoginWindow::password_action("", ""), Some(ClickAction::FocusNext(FocusMode::FocusPrevious)));
}

#[test]
fn login_window_is_laid_out_from_top_to_bottom() {
    let window = LoginWindow::new(settings("me", "secret")).to_window();
    assert_eq!(window.title, "Log In");
    assert_eq!(window.class, "login");
    assert_eq!(
        window.size,
        SizeConstraint { minimum_width: 200, width: 250, maximum_width: 300, maximum_height_percent: 80 }
    );
    assert_eq!(INPUT_LENGTH, 24);
    assert_eq!(
        window.elements,
        vec![
            LoginElement::UsernameField { length: 24 },
            LoginElement::PasswordField { length: 24 },
            LoginElement::RememberUsername { selected: true },
            LoginElement::RememberPassword { selected: false },
            LoginElement::LogIn,
        ]
    );
}

//! The sprite files that an entity is made of.

use vstd::prelude::*;

use crate::network::Sex;
use crate::world::entity::sprite::{get_sprite_path_for_player_job, sprite_path_for_player_job};
use crate::world::entity::EntityType;

verus! {

/// The decimal digit for a number below ten.
pub open spec fn digit(value: nat) -> char {
    if value == 0 {
        '0'
    } else if value == 1 {
        '1'
    } else if value == 2 {
        '2'
    } else if value == 3 {
        '3'
    } else if value == 4 {
        '4'
    } else if value == 5 {
        '5'
    } else if value == 6 {
        '6'
    } else if value == 7 {
        '7'
    } else if value == 8 {
        '8'
    } else {
        '9'
    }
}

/// A number written in decimal, without leading zeros.
pub open spec fn decimal(value: nat) -> Seq<char>
    decreases value,
{
    if value < 10 {
        seq![digit(value)]
    } else {
        decimal(value / 10).push(digit(value % 10))
    }
}

fn digit_str(value: usize) -> (text: &'static str)
    requires
        value < 10,
    ensures
        text@ == seq![digit(value as nat)],
{
    proof {
        reveal_strlit("0");
        reveal_strlit("1");
        reveal_strlit("2");
        reveal_strlit("3");
        reveal_strlit("4");
        reveal_strlit("5");
        reveal_strlit("6");
        reveal_strlit("7");
        reveal_strlit("8");
        reveal_strlit("9");
    }
    let text = match value {
        0 => "0",
        1 => "1",
        2 => "2",
        3 => "3",
        4 => "4",
        5 => "5",
        6 => "6",
        7 => "7",
        8 => "8",
        _ => "9",
    };
    assert(text@ =~= seq![digit(value as nat)]);
    text
}

/// Writes a number in decimal.
pub fn decimal_string(value: usize) -> (text: String)
    ensures
        text@ == decimal(value as nat),
    decreases value,
{
    if value < 10 {
        String::from_str(digit_str(value))
    } else {
        let mut text = decimal_string(value / 10);
        text.append(digit_str(value % 10));
        assert(text@ =~= decimal(value as nat));
        text
    }
}

/// The letter in the names of sprite files that tells the sex: female
/// sprites carry one letter, all others the other.
pub open spec fn sex_sprite_path(sex: Sex) -> &'static str {
    if sex == Sex::Female {
        "여"
    } else {
        "남"
    }
}

/// The number of the hair sprite for the hair style of a character. The
/// first thirteen styles are numbered differently for each sex; a
/// character without a hair style, or of no sex, has the first sprite.
pub open spec fn hair_sprite(sex: Sex, head: Option<usize>) -> usize {
    match (sex, head) {
        (Sex::Male, Some(head)) => match head {
            0 => 2,
            1 => 2,
            2 => 1,
            3 => 7,
            4 => 5,
            5 => 4,
            6 => 3,
            7 => 6,
            8 => 8,
            9 => 9,
            10 => 10,
            11 => 12,
            12 => 11,
            _ => head,
        },
        (Sex::Female, Some(head)) => match head {
            0 => 2,
            1 => 2,
            2 => 4,
            3 => 7,
            4 => 1,
            5 => 5,
            6 => 3,
            7 => 6,
            8 => 12,
            9 => 10,
            10 => 9,
            11 => 11,
            12 => 8,
            _ => head,
        },
        _ => 1,
    }
}

/// The file of a player's body sprite.
pub open spec fn player_body_path(sex: Sex, job_id: usize) -> Seq<char> {
    "인간족\\몸통\\"@ + sex_sprite_path(sex)@ + "\\"@ + sprite_path_for_player_job(job_id)@ + "_"@ + sex_sprite_path(
        sex,
    )@
}

/// The file of a player's head sprite.
pub open spec fn player_head_path(sex: Sex, head_id: usize) -> Seq<char> {
    "인간족\\머리통\\"@ + sex_sprite_path(sex)@ + "\\"@ + decimal(head_id as nat) + "_"@ + sex_sprite_path(sex)@
}

/// The sprite files of an entity: body and head for a player, and for all
/// others one file that is named after the job, which lies with the
/// monsters for a monster and with the characters of the world otherwise.
pub open spec fn entity_part_files(
    job_identity: Seq<char>,
    entity_type: EntityType,
    job_id: usize,
    sex: Sex,
    head: Option<usize>,
) -> Seq<Seq<char>> {
    match entity_type {
        EntityType::Player => seq![player_body_path(sex, job_id), player_head_path(sex, hair_sprite(sex, head))],
        EntityType::Monster => seq!["몬스터\\"@ + job_identity],
        _ => seq!["npc\\"@ + job_identity],
    }
}

fn get_sex_sprite_path(sex: Sex) -> (path: &'static str)
    ensures
        path == sex_sprite_path(sex),
{
    match sex {
        Sex::Female => "여",
        _ => "남",
    }
}

fn get_hair_sprite(sex: Sex, head: Option<usize>) -> (head_id: usize)
    ensures
        head_id == hair_sprite(sex, head),
{
    match (sex, head) {
        (Sex::Male, Some(head)) => match head {
            0 => 2,
            1 => 2,
            2 => 1,
            3 => 7,
            4 => 5,
            5 => 4,
            6 => 3,
            7 => 6,
            8 => 8,
            9 => 9,
            10 => 10,
            11 => 12,
            12 => 11,
            _ => head,
        },
        (Sex::Female, Some(head)) => match head {
            0 => 2,
            1 => 2,
            2 => 4,
            3 => 7,
            4 => 1,
            5 => 5,
            6 => 3,
            7 => 6,
            8 => 12,
            9 => 10,
            10 => 9,
            11 => 11,
            12 => 8,
            _ => head,
        },
        _ => 1,
    }
}

fn get_player_body_path(sex: Sex, job_id: usize) -> (path: String)
    ensures
        path@ == player_body_path(sex, job_id),
{
    let sex_sprite_path = get_sex_sprite_path(sex);
    let mut path = String::from_str("인간족\\몸통\\");
    path.append(sex_sprite_path);
    path.append("\\");
    path.append(get_sprite_path_for_player_job(job_id));
    path.append("_");
    path.append(sex_sprite_path);
    path
}

fn get_player_head_path(sex: Sex, head_id: usize) -> (path: String)
    ensures
        path@ == player_head_path(sex, head_id),
{
    let sex_sprite_path = get_sex_sprite_path(sex);
    let head = decimal_string(head_id);
    let mut path = String::from_str("인간족\\머리통\\");
    path.append(sex_sprite_path);
    path.append("\\");
    path.append(head.as_str());
    path.append("_");
    path.append(sex_sprite_path);
    path
}

/// Lists the sprite files of an entity. `job_identity` is the name under
/// which the job of the entity is known.
pub fn get_entity_part_files(
    job_identity: &str,
    entity_type: EntityType,
    job_id: usize,
    sex: Sex,
    head: Option<usize>,
) -> (files: Vec<String>)
    ensures
        files.deep_view() == entity_part_files(job_identity@, entity_type, job_id, sex, head),
{
    let mut files: Vec<String> = Vec::new();
    match entity_type {
        EntityType::Player => {
            files.push(get_player_body_path(sex, job_id));
            files.push(get_player_head_path(sex, get_hair_sprite(sex, head)));
        },
        EntityType::Monster => {
            let mut path = String::from_str("몬스터\\");
            path.append(job_identity);
            files.push(path);
        },
        _ => {
            let mut path = String::from_str("npc\\");
            path.append(job_identity);
            files.push(path);
        },
    }
    assert(files.deep_view() =~= entity_part_files(job_identity@, entity_type, job_id, sex, head));
    files
}

} // verus!

use labyrinth_core::error::Error;
use labyrinth_core::store::Store;
use labyrinth_core::strutil::hash_password;
use labyrinth_core::types::{Direction, Riddle, Role, Room, User};

fn riddle(id: u64, solution: &str, ignore_case: bool, difficulty: u32, level: u32) -> Riddle {
    Riddle {
        id,
        difficulty,
        deduction: None,
        level,
        files: None,
        ignore_case: if ignore_case { Some(true) } else { None },
        solution: solution.to_string(),
        debriefing: None,
        task: Some("a task".to_string()),
        credits: None,
    }
}

fn room(id: u64, game_id: u64, entry: bool, doors: Vec<(&str, u64)>) -> Room {
    Room {
        id,
        number: id as u32,
        coords: None,
        neighbors: doors
            .into_iter()
            .map(|(d, rid)| Direction { direction: d.to_string(), riddle_id: rid, level: 0 })
            .collect(),
        game_id,
        entry: if entry { Some(true) } else { None },
        exit: None,
    }
}

fn player(name: &str, in_room: u64) -> User {
    User {
        id: 1,
        username: name.to_string(),
        email: format!("{}@example.org", name),
        role: Role::Regular,
        hash: hash_password("pw"),
        pin: None,
        activated: true,
        created: Some(0),
        registered: Some(0),
        last_login: None,
        solved: Vec::new(),
        rooms_entered: vec![in_room],
        level: 0,
        score: 0,
        in_room: Some(in_room),
        awaiting_second_factor: false,
        second_factors: Vec::new(),
        totp_key: Vec::new(),
        recovery_keys: Vec::new(),
        challenge: None,
        webauthn_credentials: Vec::new(),
    }
}

/// The two-room world of the walkthrough: R1 and R2 joined by riddle 7,
/// north from R1, south from R2.
fn two_rooms() -> Store {
    Store {
        users: vec![player("eve", 1)],
        rooms: vec![
            room(1, 1, true, vec![("north", 7)]),
            room(2, 1, false, vec![("south", 7)]),
        ],
        riddles: vec![riddle(7, "sphinx", false, 3, 2)],
    }
}

#[test]
fn riddle_access_depends_on_doorways() {
    // scenario: riddle 9 is not behind any doorway of the user's room,
    // riddle 7 is
    let store = two_rooms();
    let r = store.is_riddle_accessible(9, "eve");
    assert!(matches!(r, Err(Error::DoorwayNotAccessible)));
    let i = store.is_riddle_accessible(7, "eve").unwrap();
    assert_eq!(store.riddles[i].id, 7);
    assert_eq!(store.riddles[i].solution, "sphinx");
}

#[test]
fn unknown_riddle_id_denied_like_missing_doorway() {
    // a riddle id that exists nowhere is denied in the same shape as one
    // that merely is not reachable from here
    let store = two_rooms();
    let nowhere = store.is_riddle_accessible(999, "eve");
    let elsewhere = store.is_riddle_accessible(9, "eve");
    assert!(matches!(nowhere, Err(Error::DoorwayNotAccessible)));
    assert!(matches!(elsewhere, Err(Error::DoorwayNotAccessible)));
}

#[test]
fn access_checks_user_and_room() {
    let mut store = two_rooms();
    assert!(matches!(
        store.is_riddle_accessible(7, "nobody"),
        Err(Error::UserNotFound)
    ));
    // a user whose room id points nowhere is a data fault
    store.users[0].in_room = Some(99);
    assert!(matches!(
        store.is_riddle_accessible(7, "eve"),
        Err(Error::RoomNotFound)
    ));
}

#[test]
fn roomless_user_is_an_invariant_violation() {
    let mut store = two_rooms();
    store.users[0].activated = false;
    store.users[0].in_room = None;
    assert!(matches!(
        store.is_riddle_accessible(7, "eve"),
        Err(Error::UserNotInAnyRoom)
    ));
}

#[test]
fn doorway_to_a_missing_riddle_record() {
    // the doorway exists but the riddle record does not: a data fault,
    // reported as such only after the doorway check passed
    let mut store = two_rooms();
    store.riddles.clear();
    assert!(matches!(
        store.is_riddle_accessible(7, "eve"),
        Err(Error::RiddleNotFound)
    ));
}

#[test]
fn solving_moves_through_the_doorway() {
    // scenario: solving riddle 7 from R1 ("north") moves the user to the
    // room whose doorway is ("south", 7), and the room history grows by
    // exactly one entry
    let mut store = two_rooms();
    let before = store.users[0].rooms_entered.len();
    let bi = store.advance_on_solve("eve", 7, "sphinx").unwrap();
    assert_eq!(store.rooms[bi].id, 2);
    assert_eq!(store.users[0].in_room, Some(2));
    assert_eq!(store.users[0].rooms_entered.len(), before + 1);
    assert_eq!(*store.users[0].rooms_entered.last().unwrap(), 2);
    assert_eq!(store.users[0].solved, vec![7]);
    assert_eq!(store.users[0].score, 3);
    assert_eq!(store.users[0].level, 2);
}

#[test]
fn resolving_does_not_double_count() {
    // riddle 7 is reachable again from R2 through the "south" doorway;
    // solving it again moves the user back but neither duplicates the
    // solved entry nor re-awards the score
    let mut store = two_rooms();
    store.advance_on_solve("eve", 7, "sphinx").unwrap();
    assert_eq!(store.users[0].score, 3);
    let bi = store.advance_on_solve("eve", 7, "sphinx").unwrap();
    assert_eq!(store.rooms[bi].id, 1);
    assert_eq!(store.users[0].solved, vec![7]);
    assert_eq!(store.users[0].score, 3);
    assert_eq!(store.users[0].rooms_entered, vec![1, 2, 1]);
}

#[test]
fn wrong_solution_changes_nothing() {
    let mut store = two_rooms();
    let r = store.advance_on_solve("eve", 7, "minotaur");
    assert!(matches!(r, Err(Error::RiddleNotSolved)));
    assert_eq!(store.users[0].in_room, Some(1));
    assert!(store.users[0].solved.is_empty());
    assert_eq!(store.users[0].score, 0);
}

#[test]
fn case_blind_solutions_when_asked() {
    let mut store = two_rooms();
    store.riddles[0] = riddle(7, "Sphinx", true, 3, 2);
    assert!(store.advance_on_solve("eve", 7, "sPHINX").is_ok());

    let mut strict = two_rooms();
    let r = strict.advance_on_solve("eve", 7, "SPHINX");
    assert!(matches!(r, Err(Error::RiddleNotSolved)));
}

#[test]
fn missing_room_behind_is_a_data_fault() {
    let mut store = two_rooms();
    store.rooms.remove(1);
    let r = store.advance_on_solve("eve", 7, "sphinx");
    assert!(matches!(r, Err(Error::RoomBehindNotFound)));
    assert_eq!(store.users[0].in_room, Some(1));
}

#[test]
fn unknown_direction_has_no_opposite() {
    let mut store = two_rooms();
    store.rooms[0].neighbors[0].direction = "sideways".to_string();
    let r = store.advance_on_solve("eve", 7, "sphinx");
    assert!(matches!(r, Err(Error::RoomBehindNotFound)));
}

#[test]
fn room_behind_lookup() {
    let store = two_rooms();
    let behind = store.get_room_behind("south", 7).unwrap();
    assert_eq!(behind.id, 2);
    assert!(matches!(
        store.get_room_behind("west", 7),
        Err(Error::RoomBehindNotFound)
    ));
}

#[test]
fn store_lookups() {
    let store = two_rooms();
    assert_eq!(store.get_user("eve").unwrap().id, 1);
    assert!(matches!(store.get_user("adam"), Err(Error::UserNotFound)));
    assert_eq!(store.get_room(2).unwrap().number, 2);
    assert!(matches!(store.get_room(5), Err(Error::RoomNotFound)));
    assert_eq!(store.get_riddle_by_oid(7).unwrap().solution, "sphinx");
    assert!(store.get_riddle_by_oid(8).is_none());
    assert_eq!(store.get_riddle_by_level(2).unwrap().id, 7);
    assert!(store.get_riddle_by_level(9).is_none());
}

#[test]
fn solved_riddles_stay_readable() {
    let mut store = two_rooms();
    assert!(store.get_riddle_if_solved(7, "eve").is_none());
    store.advance_on_solve("eve", 7, "sphinx").unwrap();
    assert_eq!(store.get_riddle_if_solved(7, "eve").unwrap().id, 7);
    assert!(store.get_riddle_if_solved(9, "eve").is_none());
}

#[test]
fn counting_rooms_and_riddles() {
    let store = Store {
        users: vec![],
        rooms: vec![
            room(1, 1, true, vec![("north", 7), ("east", 8)]),
            room(2, 1, false, vec![("south", 7)]),
            room(3, 2, false, vec![("west", 9)]),
        ],
        riddles: vec![],
    };
    assert_eq!(store.get_num_rooms(1), 2);
    assert_eq!(store.get_num_rooms(2), 1);
    assert_eq!(store.get_num_rooms(3), 0);
    // riddle 7 gates two doorways of game 1 but counts once
    assert_eq!(store.get_num_riddles(1), 2);
    assert_eq!(store.get_num_riddles(2), 1);
    assert_eq!(store.get_num_riddles(3), 0);
}

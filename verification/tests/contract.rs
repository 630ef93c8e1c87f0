use rand::Rng;

use lotery::ContractError;
use lotery::ExecuteMsg;
use lotery::GameState;
use lotery::InstantiateMsg;
use lotery::Status;

#[test]
fn proper_initialization() {
    let msg = InstantiateMsg {
        name: String::from("Test"),
    };
    let (admin, game) = lotery::instantiate(String::from("creator"), msg);

    assert_eq!(0, game.participants.len());

    let value = lotery::query_admin(&admin);
    assert_eq!(String::from("creator"), value.result.owner);
}

#[test]
fn check_admin() {
    let msg = InstantiateMsg {
        name: String::from("Test"),
    };
    let (admin, _game) = lotery::instantiate(String::from("creator"), msg);

    let value = lotery::query_admin(&admin);
    assert_eq!(String::from("creator"), value.result.owner);
}

#[test]
fn check_init_game() {
    let msg = InstantiateMsg {
        name: String::from("Test"),
    };
    let (_admin, game) = lotery::instantiate(String::from("creator"), msg);

    let value = lotery::query_game_info(&game);
    let init_game = GameState {
        participants: Vec::new(),
        random_number: Some(0),
        winner: None,
        num_diff: 0,
        status: Some(Status::Finished {}),
    };
    assert_eq!(init_game, value.result)
}

#[test]
fn reset_game() {
    let msg = InstantiateMsg {
        name: String::from("Test"),
    };
    let (admin, game) = lotery::instantiate(String::from("creator"), msg);
    let game = lotery::execute(&admin, &game, String::from("creator"), ExecuteMsg::ResetGame {})
        .unwrap();

    let value = lotery::query_game_info(&game);

    println!("random number is: {}", value.result.random_number.unwrap());
    assert_eq!(value.result.status, Some(Status::Started {}));
    assert_ne!(value.result.random_number.unwrap(), 0)
}

#[test]
fn test_game() {
    let msg = InstantiateMsg {
        name: String::from("Test"),
    };

    let mut rng = rand::thread_rng();
    let mut random_numbers: Vec<u8> = Vec::new();
    let mut random_strings: Vec<String> = Vec::new();

    while random_strings.len() < 4 {
        let name = rng.gen_range(0..=100).to_string();
        if random_strings.contains(&name) {
            continue;
        }
        random_numbers.push(rng.gen_range(0..=100));
        random_strings.push(name);
    }

    let (admin, game) = lotery::instantiate(String::from("creator"), msg);

    let game = lotery::execute(&admin, &game, String::from("creator"), ExecuteMsg::ResetGame {})
        .unwrap();

    let msg = ExecuteMsg::ChooseNumber { number: 1 };
    let game = lotery::execute(&admin, &game, String::from("participant_one"), msg).unwrap();

    let value = lotery::query_game_info(&game);
    assert_eq!(1, value.result.participants.len());

    let msg = ExecuteMsg::ChooseNumber { number: 122 };
    let res = lotery::execute(&admin, &game, String::from("invalid_participant"), msg);
    match res {
        Err(ContractError::NumberOutOfRange {}) => {}
        _ => panic!("expected error"),
    }

    let mut game = game;
    for _ in 0..4 {
        let msg = ExecuteMsg::ChooseNumber {
            number: random_numbers.pop().unwrap(),
        };
        game = lotery::execute(&admin, &game, random_strings.pop().unwrap(), msg).unwrap();
    }

    let value = lotery::query_game_info(&game);
    // one has been added at start of this function
    assert_eq!(5, value.result.participants.len());

    let msg = ExecuteMsg::EndGame {};
    let res = lotery::execute(&admin, &game, String::from("notCreator"), msg);

    match res {
        Err(ContractError::Unauthorized {}) => {}
        _ => panic!("expected error"),
    }

    let msg = ExecuteMsg::EndGame {};
    let game = lotery::execute(&admin, &game, String::from("creator"), msg).unwrap();

    let value = lotery::query_game_info(&game);
    println!("{:?}", value.result);
    assert_eq!(value.result.status, Some(Status::Finished {}))
}

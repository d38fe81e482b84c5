use ice_nudel_salat::game_states::{GamePhase as ScenePhase, GameState};
use ice_nudel_salat::hand::{pick_grab_target, GrabCandidate, Hand};
use ice_nudel_salat::interactable::{release_action, InteractionType, ReleaseAction};
use ice_nudel_salat::interaction::{Interactive, InteractionAction};
use ice_nudel_salat::items::ItemCatalog;
use ice_nudel_salat::machine::{Machine, MACHINE_CAPACITY, MACHINE_MAX_HP};
use ice_nudel_salat::messages::GameMessage;
use ice_nudel_salat::recipes::Recipes;
use ice_nudel_salat::spawner::ItemSpawner;

fn names(list: &[&str]) -> Vec<String> {
    list.iter().map(|s| (*s).to_owned()).collect()
}

#[test]
fn standard_recipes_match_each_blend() {
    let recipes = Recipes::standard();
    assert_eq!(recipes.check_machine(names(&["red", "green"])), Some(&"yellow".to_owned()));
    assert_eq!(recipes.check_machine(names(&["red", "blue"])), Some(&"violet".to_owned()));
    assert_eq!(recipes.check_machine(names(&["green", "blue"])), Some(&"turkeu".to_owned()));
    assert_eq!(
        recipes.check_machine(names(&["red", "green", "blue"])),
        Some(&"white".to_owned())
    );
}

#[test]
fn recipe_lookup_ignores_order() {
    let recipes = Recipes::standard();
    assert_eq!(recipes.check_machine(names(&["green", "red"])), Some(&"yellow".to_owned()));
    assert_eq!(
        recipes.check_machine(names(&["blue", "green", "red"])),
        Some(&"white".to_owned())
    );
}

#[test]
fn recipe_lookup_ignores_duplicates() {
    let recipes = Recipes::standard();
    assert_eq!(
        recipes.check_machine(names(&["red", "red", "green"])),
        Some(&"yellow".to_owned())
    );
}

#[test]
fn unknown_combinations_craft_nothing() {
    let recipes = Recipes::standard();
    assert_eq!(recipes.check_machine(names(&["red"])), None);
    assert_eq!(recipes.check_machine(Vec::new()), None);
    assert_eq!(recipes.check_machine(names(&["red", "green", "yellow"])), None);
    let empty = Recipes::default();
    assert_eq!(empty.check_machine(names(&["red", "green"])), None);
}

#[test]
fn machine_stops_taking_items_at_capacity() {
    let mut machine = Machine::new();
    assert_eq!(machine.capacity, MACHINE_CAPACITY);
    assert_eq!(machine.hp, MACHINE_MAX_HP);
    for i in 0..MACHINE_CAPACITY {
        assert!(machine.try_insert(format!("item{i}")));
    }
    assert_eq!(machine.items.len(), MACHINE_CAPACITY);
    assert!(!machine.try_insert("overflow".to_owned()));
    assert_eq!(machine.items.len(), MACHINE_CAPACITY);
}

#[test]
fn machine_produces_and_empties() {
    let recipes = Recipes::standard();
    let mut machine = Machine::new();
    assert!(machine.try_insert("red".to_owned()));
    assert!(machine.try_insert("green".to_owned()));
    assert_eq!(machine.produce(&recipes), Some("yellow".to_owned()));
    assert!(machine.items.is_empty());
}

#[test]
fn machine_keeps_items_without_a_recipe() {
    let recipes = Recipes::standard();
    let mut machine = Machine::new();
    assert!(machine.try_insert("red".to_owned()));
    assert_eq!(machine.produce(&recipes), None);
    assert_eq!(machine.items, vec!["red".to_owned()]);
}

#[test]
fn hand_grab_and_release_round_trip() {
    let mut hand = Hand::new();
    assert!(!hand.is_grabbing);
    assert_eq!(hand.grab_joint_entity, None);
    assert_eq!(hand.grabbed_body, None);

    hand.grab(7, 9);
    assert!(hand.is_grabbing);
    assert_eq!(hand.grab_joint_entity, Some(7));
    assert_eq!(hand.grabbed_body, Some(9));

    assert_eq!(hand.release(), Some(7));
    assert!(!hand.is_grabbing);
    assert_eq!(hand.grab_joint_entity, None);
    assert_eq!(hand.grabbed_body, None);

    assert_eq!(hand.release(), None);
}

#[test]
fn grab_picks_first_dynamic_body() {
    let hand_entity = 1;
    let candidates = vec![
        GrabCandidate { entity: 2, dynamic: false },
        GrabCandidate { entity: 1, dynamic: true },
        GrabCandidate { entity: 5, dynamic: true },
        GrabCandidate { entity: 6, dynamic: true },
    ];
    assert_eq!(pick_grab_target(hand_entity, &candidates), Some(5));
}

#[test]
fn grab_finds_nothing_among_static_bodies() {
    let candidates =
        vec![GrabCandidate { entity: 2, dynamic: false }, GrabCandidate { entity: 1, dynamic: true }];
    assert_eq!(pick_grab_target(1, &candidates), None);
    assert_eq!(pick_grab_target(1, &Vec::new()), None);
}

#[test]
fn release_feeds_an_overlapping_machine() {
    let action = release_action(9, true, 4, &InteractionType::Machine, true);
    assert_eq!(action, ReleaseAction::InsertIntoMachine);
}

#[test]
fn release_ignores_everything_else() {
    assert_eq!(release_action(9, true, 9, &InteractionType::Machine, true), ReleaseAction::Ignore);
    assert_eq!(release_action(9, true, 4, &InteractionType::Machine, false), ReleaseAction::Ignore);
    assert_eq!(release_action(9, false, 4, &InteractionType::Machine, true), ReleaseAction::Ignore);
    assert_eq!(release_action(9, true, 4, &InteractionType::Talk, true), ReleaseAction::Ignore);
    assert_eq!(
        release_action(9, true, 4, &InteractionType::Quest { wants: "red".to_owned() }, true),
        ReleaseAction::Ignore
    );
}

#[test]
fn interactions_publish_their_messages() {
    let go = Interactive {
        description: "door".to_owned(),
        action: InteractionAction::GoToScene("cellar".to_owned()),
        condition: None,
    };
    assert_eq!(go.message(), Some(GameMessage::ChangeScene("cellar".to_owned())));

    let talk = Interactive {
        description: "npc".to_owned(),
        action: InteractionAction::TalkToNPC("vendor".to_owned()),
        condition: None,
    };
    assert_eq!(talk.message(), Some(GameMessage::TalkToNPC("vendor".to_owned())));

    let pick = Interactive {
        description: "coin".to_owned(),
        action: InteractionAction::PickUpItem,
        condition: None,
    };
    assert_eq!(pick.message(), None);
}

#[test]
fn catalog_knows_its_items() {
    let catalog = ItemCatalog::standard();
    assert!(catalog.contains(&"red".to_owned()));
    assert!(catalog.contains(&"trash".to_owned()));
    assert!(catalog.contains(&"white".to_owned()));
    assert!(!catalog.contains(&"purple".to_owned()));
}

#[test]
fn spawner_draws_a_known_item() {
    let catalog = ItemCatalog::standard();
    let single = ItemSpawner { item_list: names(&["red"]) };
    assert_eq!(single.spawn_choice(&catalog), Some("red".to_owned()));

    let spawner = ItemSpawner { item_list: names(&["red", "green", "blue"]) };
    for _ in 0..32 {
        let drawn = spawner.spawn_choice(&catalog).expect("catalogued items are always drawn");
        assert!(spawner.item_list.contains(&drawn));
    }
}

#[test]
fn spawner_without_items_or_catalog_entry_yields_nothing() {
    let catalog = ItemCatalog::standard();
    let empty = ItemSpawner { item_list: Vec::new() };
    assert_eq!(empty.spawn_choice(&catalog), None);

    let unknown = ItemSpawner { item_list: names(&["plasma"]) };
    assert_eq!(unknown.spawn_choice(&catalog), None);
}

#[test]
fn scene_states_default_to_play() {
    assert_eq!(GameState::default(), GameState::InGame);
    assert_eq!(ScenePhase::default(), ScenePhase::Playing);
}

use termhold::game::building::BuildingKind;
use termhold::game::events::Outcome;
use termhold::game::turn::TurnOutcome;
use termhold::game::Actions;
use termhold::ui::input::ActionInput;
use termhold::ui::{EMPTY_COMMAND_MSG, INVALID_COMMAND_MSG};
use termhold::game::{Balance, Colony, Ending, Game, ResourceKind, WIN_DAY};
use termhold::ui::forecast;
use termhold::ui::welcome::wrap_text;

fn crews(colony: &Colony) -> (usize, usize, usize) {
    (
        colony.workers_on(BuildingKind::Farm),
        colony.workers_on(BuildingKind::LumberYard),
        colony.workers_on(BuildingKind::StoneQuarry),
    )
}

#[test]
fn clamping_twice_changes_nothing_more() {
    let balance = Balance::default();
    let mut colony = Colony::default();
    colony.wood = 1000;
    colony.stone = 1000;
    colony.population = 6;
    colony.build(BuildingKind::Farm, &balance).unwrap();
    colony.build(BuildingKind::LumberYard, &balance).unwrap();
    colony.build(BuildingKind::StoneQuarry, &balance).unwrap();
    colony.set_workers(BuildingKind::Farm, 2, &balance).unwrap();
    colony.set_workers(BuildingKind::LumberYard, 2, &balance).unwrap();
    colony.set_workers(BuildingKind::StoneQuarry, 2, &balance).unwrap();
    colony.population = 3;
    colony.clamp_workers(&balance);
    let once = crews(&colony);
    assert_eq!(once, (2, 1, 0));
    colony.clamp_workers(&balance);
    assert_eq!(crews(&colony), once);
    assert!(colony.assigned_workers() <= colony.population);
}

#[test]
fn setting_workers_leaves_other_kinds_alone() {
    let balance = Balance::default();
    let mut colony = Colony::default();
    colony.wood = 1000;
    colony.stone = 1000;
    colony.build(BuildingKind::Farm, &balance).unwrap();
    colony.build(BuildingKind::LumberYard, &balance).unwrap();
    colony.set_workers(BuildingKind::LumberYard, 2, &balance).unwrap();
    colony.set_workers(BuildingKind::Farm, 1, &balance).unwrap();
    assert_eq!(crews(&colony), (1, 2, 0));
    assert_eq!(colony.free_workers() + colony.assigned_workers(), colony.population);
}

#[test]
fn understaffed_buildings_are_reported() {
    let balance = Balance::default();
    let mut colony = Colony::default();
    colony.wood = 1000;
    colony.stone = 1000;
    colony.build(BuildingKind::Farm, &balance).unwrap();
    colony.build(BuildingKind::StoneQuarry, &balance).unwrap();
    colony.build(BuildingKind::StoneQuarry, &balance).unwrap();
    colony.set_workers(BuildingKind::StoneQuarry, 3, &balance).unwrap();
    assert_eq!(
        colony.understaffed_messages(&balance),
        vec![
            "1 farm(s) idle: 0/2 workers assigned (need 2 per farm)".to_string(),
            "1 quarry(s) idle: 3/4 workers assigned (need 2 per quarry)".to_string(),
        ]
    );
    colony.set_workers(BuildingKind::Farm, 2, &balance).unwrap();
    assert_eq!(colony.understaffed_messages(&balance).len(), 1);
}

#[test]
fn a_finished_game_stays_finished() {
    let mut game = Game::default();
    game.world.days = WIN_DAY;
    assert_eq!(game.tick_with_rolls(0, 0), Some(Ending::Victory));
    assert!(game.gameover);
    assert_eq!(game.world.days, WIN_DAY);
    assert_eq!(game.tick_with_rolls(99, 99), Some(Ending::Victory));
    assert!(game.gameover);

    let mut dead = Game::default();
    dead.colony.population = 0;
    assert_eq!(dead.tick_with_rolls(0, 0), Some(Ending::ColonyDead));
    assert_eq!(dead.tick_with_rolls(0, 0), None);
    assert!(dead.gameover);
    assert_eq!(dead.world.days, 1);
    assert!(dead.logs.is_empty());
}

#[test]
fn food_stays_within_storage_after_a_day() {
    let mut game = Game::default();
    game.colony.food = 200;
    assert_eq!(game.tick_with_rolls(99, 99), None);
    assert_eq!(game.colony.food, game.colony.max_food);
    assert_eq!(game.world.days, 2);
}

#[test]
fn prolonged_hunger_kills_whatever_the_roll() {
    let mut game = Game::default();
    game.colony.food = 0;
    game.colony.starvation_days = 1;
    assert_eq!(game.tick_with_rolls(99, 99), None);
    assert_eq!(game.colony.population, 4);
    assert_eq!(
        game.logs.last().unwrap(),
        "Day 1 | A settler died of starvation (prolonged hunger)."
    );
}

#[test]
fn unpaid_yes_answers_cost_what_no_costs() {
    let balance = Balance::default();
    let mut yes = Colony::default();
    yes.wood = 3;
    let mut no = Colony::default();
    no.wood = 3;
    Outcome::WildBeastsYes.apply_with_roll(&mut yes, &balance, 50).unwrap();
    Outcome::WildBeastsNo.apply_with_roll(&mut no, &balance, 50).unwrap();
    assert_eq!((yes.wood, yes.stone, yes.food), (no.wood, no.stone, no.food));

    let mut yes = Colony::default();
    yes.food = 7;
    let mut no = Colony::default();
    no.food = 7;
    let said_yes = Outcome::BlightedBarnYes.apply_with_roll(&mut yes, &balance, 10);
    let said_no = Outcome::BlightedBarnNo.apply_with_roll(&mut no, &balance, 10);
    assert_eq!(said_yes, said_no);
    assert_eq!(yes.food, 0);
    assert_eq!(no.food, 0);
}

#[test]
fn forecast_of_the_default_colony() {
    let colony = Colony::default();
    let balance = Balance::default();
    let f = forecast(&colony, &balance);
    assert_eq!(f.wood_active, 5);
    assert_eq!(f.stone_active, 4);
    assert_eq!(f.food_potential, 7);
    assert_eq!(f.food_active, 5);
    assert_eq!(f.passive_food, 0);
    assert_eq!(f.passive_food_effective, 0);
    assert_eq!(f.upkeep, 5);
    assert_eq!(f.food_net_if_gather, 0);
    assert_eq!(f.food_net_passive, -5);
    assert_eq!(f.free, 5);
    assert_eq!(f.assigned, 0);
}

#[test]
fn wrap_text_greedy_lines() {
    assert_eq!(wrap_text("The quick  brown fox", 9), vec!["The quick", "brown fox"]);
    assert_eq!(wrap_text("a extraordinarily b", 5), vec!["a", "extraordinarily", "b"]);
    assert_eq!(wrap_text("  \t ", 10), Vec::<String>::new());
    assert_eq!(wrap_text("one two", 7), vec!["one two"]);
    assert_eq!(wrap_text("one two", 6), vec!["one", "two"]);
}

#[test]
fn after_a_day_no_more_settlers_work_than_live() {
    let mut game = Game::default();
    let balance = Balance::default();
    game.colony.wood = 1000;
    game.colony.stone = 1000;
    game.colony.build(BuildingKind::Farm, &balance).unwrap();
    game.colony.build(BuildingKind::LumberYard, &balance).unwrap();
    game.colony.set_workers(BuildingKind::Farm, 2, &balance).unwrap();
    game.colony.set_workers(BuildingKind::LumberYard, 2, &balance).unwrap();
    game.colony.population = 4;
    game.colony.food = 0;
    game.colony.starvation_days = 1;
    assert_eq!(game.tick_with_rolls(99, 99), None);
    assert_eq!(game.colony.population, 3);
    assert_eq!(game.colony.assigned_workers(), 3);
    assert_eq!(crews(&game.colony), (2, 1, 0));
    assert_eq!(game.colony.workers_on(BuildingKind::Hut), 0);
}

#[test]
fn random_day_matches_some_pair_of_rolls() {
    for _ in 0..50 {
        let mut game = Game::default();
        game.colony.max_population = 10;
        game.colony.food = 25;
        assert_eq!(game.tick(), None);
        assert_eq!(game.world.days, 2);
        let born = game.colony.population == 6;
        assert!(born || game.colony.population == 5);
        assert_eq!(game.colony.food, if born { 18 } else { 20 });
        assert_eq!(game.logs[0], "Day 1 | Colony consumes 5 food");
        assert_eq!(game.logs.len(), if born { 2 } else { 1 });
    }
}

#[test]
fn classic_random_day_advances() {
    let mut game = termhold::classic::Game::default();
    assert_eq!(game.tick(), None);
    assert_eq!(game.world.days, 2);
    assert!(game.colony.population >= 1);
}

#[test]
fn ordinary_day_keeps_caps_and_crews() {
    let mut game = Game::default();
    let before_max_food = game.colony.max_food;
    let before_max_pop = game.colony.max_population;
    assert_eq!(game.tick_with_rolls(50, 50), None);
    assert_eq!(game.world.days, 2);
    assert!(game.colony.food <= game.colony.max_food);
    assert_eq!(game.colony.max_food, before_max_food);
    assert_eq!(game.colony.max_population, before_max_pop);
    assert!(!game.gameover);
    assert!(game.colony.assigned_workers() <= game.colony.population);
}

#[test]
fn turns_cost_a_day_unless_free() {

    let mut game = Game::default();
    assert_eq!(game.play_turn_with_rolls(ActionInput::Help, 0, 0), TurnOutcome::ShowHelp);
    assert_eq!(game.play_turn_with_rolls(ActionInput::Action(Actions::Quit), 0, 0), TurnOutcome::Quit);
    assert_eq!(game.world.days, 1);
    assert!(game.logs.is_empty());

    let free = ActionInput::Action(Actions::SetWorkers { kind: BuildingKind::Farm, count: 0 });
    assert!(game.turn_in_range(free));
    assert_eq!(
        game.play_turn_with_rolls(free, 0, 0),
        TurnOutcome::Played { day_passed: false, ending: None }
    );
    assert_eq!(game.world.days, 1);

    let gather = ActionInput::Action(Actions::Gather(ResourceKind::Wood));
    assert!(game.turn_in_range(gather));
    assert_eq!(
        game.play_turn_with_rolls(gather, 99, 99),
        TurnOutcome::Played { day_passed: true, ending: None }
    );
    assert_eq!(game.world.days, 2);
    assert_eq!(game.colony.wood, 55);

    assert_eq!(
        game.play_turn_with_rolls(ActionInput::Empty, 99, 99),
        TurnOutcome::Played { day_passed: true, ending: None }
    );
    assert!(game.logs.contains(&format!("Day 2 | {EMPTY_COMMAND_MSG}")));
    assert_eq!(game.world.days, 3);
    assert_eq!(
        game.play_turn_with_rolls(ActionInput::Invalid, 99, 99),
        TurnOutcome::Played { day_passed: true, ending: None }
    );
    assert!(game.logs.contains(&format!("Day 3 | {INVALID_COMMAND_MSG}")));
    assert_eq!(game.world.days, 4);

    let mut last = Game::default();
    last.world.days = 364;
    assert_eq!(
        last.play_turn(ActionInput::Empty),
        TurnOutcome::Played { day_passed: true, ending: Some(Ending::Victory) }
    );
}

#[test]
fn many_unfed_settlers_make_death_certain() {
    let mut game = Game::default();
    game.colony.population = 300;
    game.colony.max_population = 300;
    game.colony.food = 0;
    assert_eq!(game.tick_with_rolls(99, 99), None);
    assert_eq!(game.colony.population, 299);
    assert!(game.logs.contains(&"Day 1 | A settler died of starvation (100% roll failed).".to_string()));
}

use termhold::game::building::{BuildingKind, BuildingList};
use termhold::game::{Actions, Balance, Colony, Ending, Game, ResourceKind};

#[test]
fn default_colony_has_one_hut() {
    let colony = Colony::default();
    assert_eq!(colony.count(BuildingKind::Hut), 1);
    assert_eq!(colony.free_workers(), 5);
    assert_eq!(colony.name, "Default colony");
}

#[test]
fn gather_formula_values() {
    assert_eq!(Colony::yield_from_pop(3, 5, 40), 5);
    assert_eq!(Colony::yield_from_pop(5, 5, 50), 7);
    assert_eq!(Colony::yield_from_pop(3, 5, 33), 4);
    let colony = Colony::default();
    let balance = Balance::default();
    assert_eq!(colony.wood_yield(&balance), 5);
    assert_eq!(colony.stone_yield(&balance), 4);
    assert_eq!(colony.food_yield(&balance), 7);
}

#[test]
fn gather_food_respects_storage_and_free_workers() {
    let balance = Balance::default();
    let mut colony = Colony::default();
    assert_eq!(colony.gather(ResourceKind::Food, &balance), Ok(5));
    assert_eq!(colony.food, 25);
    assert_eq!(colony.gather(ResourceKind::Wood, &balance), Ok(5));
    assert_eq!(colony.wood, 55);
    colony.population = 0;
    assert!(colony.gather(ResourceKind::Stone, &balance).is_err());
}

#[test]
fn build_pays_costs_or_reports_missing_resource() {
    let balance = Balance::default();
    let mut colony = Colony::default();
    assert_eq!(colony.build(BuildingKind::Farm, &balance), Ok(1));
    assert_eq!(colony.wood, 32);
    assert_eq!(colony.stone, 12);
    assert_eq!(colony.count(BuildingKind::Farm), 1);
    colony.wood = 10;
    assert_eq!(colony.build(BuildingKind::Barn, &balance), Err("Not enough wood for this building!"));
    colony.wood = 100;
    assert_eq!(colony.build(BuildingKind::Barn, &balance), Err("Not enough stone for this building!"));
    colony.stone = 100;
    assert_eq!(colony.build(BuildingKind::Barn, &balance), Ok(1));
    assert_eq!(colony.max_food, 40);
    assert_eq!(colony.build(BuildingKind::Hut, &balance), Ok(1));
    assert_eq!(colony.max_population, 8);
}

#[test]
fn set_workers_distributes_in_list_order() {
    let balance = Balance::default();
    let mut colony = Colony::default();
    colony.wood = 1000;
    colony.stone = 1000;
    colony.build(BuildingKind::Farm, &balance).unwrap();
    colony.build(BuildingKind::Farm, &balance).unwrap();
    assert_eq!(colony.set_workers(BuildingKind::Farm, 3, &balance), Ok(()));
    assert_eq!(colony.workers_on(BuildingKind::Farm), 3);
    assert_eq!(colony.staffed(BuildingKind::Farm, &balance), 1);
    assert_eq!(colony.free_workers(), 2);
    assert_eq!(colony.passive_food(&balance), 2);
    assert_eq!(
        colony.set_workers(BuildingKind::Farm, 5, &balance),
        Err("Too many workers for that building type.")
    );
    assert_eq!(
        colony.set_workers(BuildingKind::Hut, 1, &balance),
        Err("That building does not use workers.")
    );
    colony.build(BuildingKind::LumberYard, &balance).unwrap();
    colony.population = 4;
    assert_eq!(
        colony.set_workers(BuildingKind::LumberYard, 2, &balance),
        Err("Not enough settlers — lower another assignment or grow population.")
    );
    assert_eq!(
        colony.understaffed_messages(&balance),
        vec![
            "1 farm(s) idle: 3/4 workers assigned (need 2 per farm)".to_string(),
            "1 lumber yard(s) idle: 0/2 workers assigned (need 2 per yard)".to_string(),
        ]
    );
}

#[test]
fn clamp_removes_quarry_workers_first() {
    let balance = Balance::default();
    let mut colony = Colony::default();
    colony.wood = 1000;
    colony.stone = 1000;
    colony.build(BuildingKind::Farm, &balance).unwrap();
    colony.build(BuildingKind::StoneQuarry, &balance).unwrap();
    colony.set_workers(BuildingKind::Farm, 2, &balance).unwrap();
    colony.set_workers(BuildingKind::StoneQuarry, 2, &balance).unwrap();
    colony.population = 3;
    colony.clamp_workers(&balance);
    assert_eq!(colony.workers_on(BuildingKind::StoneQuarry), 1);
    assert_eq!(colony.workers_on(BuildingKind::Farm), 2);
    colony.population = 1;
    colony.clamp_workers(&balance);
    assert_eq!(colony.workers_on(BuildingKind::StoneQuarry), 0);
    assert_eq!(colony.workers_on(BuildingKind::Farm), 1);
}

#[test]
fn building_list_basics() {
    let balance = Balance::default();
    let mut list = BuildingList::default();
    assert!(!list.has_production());
    list.add(BuildingKind::Hut);
    list.add(BuildingKind::LumberYard);
    list.add(BuildingKind::LumberYard);
    assert!(list.has_production());
    assert_eq!(list.count(BuildingKind::LumberYard), 2);
    assert_eq!(list.workers_needed(BuildingKind::LumberYard, &balance.buildings), 4);
    list.set_workers_on_kind(BuildingKind::LumberYard, 3, &balance.buildings);
    assert_eq!(list.workers_on(BuildingKind::LumberYard), 3);
    assert_eq!(list.total_assigned(), 3);
    assert_eq!(list.staffed(BuildingKind::LumberYard, &balance.buildings), 1);
    list.clamp_workers(&balance.buildings, 1);
    assert_eq!(list.total_assigned(), 1);
}

#[test]
fn passive_income_caps_food_and_reports_loss() {
    let balance = Balance::default();
    let mut colony = Colony::default();
    colony.wood = 1000;
    colony.stone = 1000;
    colony.build(BuildingKind::Farm, &balance).unwrap();
    colony.build(BuildingKind::Farm, &balance).unwrap();
    colony.build(BuildingKind::LumberYard, &balance).unwrap();
    colony.set_workers(BuildingKind::Farm, 4, &balance).unwrap();
    colony.population = 6;
    colony.set_workers(BuildingKind::LumberYard, 2, &balance).unwrap();
    colony.food = 24;
    let wood_before = colony.wood;
    assert_eq!(colony.apply_passive_income(&balance), (5, 0, 1, 3));
    assert_eq!(colony.food, 25);
    assert_eq!(colony.wood, wood_before + 5);
}

#[test]
fn tick_fed_day_without_birth() {
    let mut game = Game::default();
    let ending = game.tick_with_rolls(99, 99);
    assert_eq!(ending, None);
    assert_eq!(game.colony.food, 15);
    assert_eq!(game.world.days, 2);
    assert_eq!(game.logs, vec!["Day 1 | Colony consumes 5 food".to_string()]);
}

#[test]
fn tick_birth_when_roll_is_low() {
    let mut game = Game::default();
    game.colony.max_population = 8;
    let _ = game.tick_with_rolls(0, 99);
    assert_eq!(game.colony.population, 6);
    assert_eq!(game.colony.food, 13);
    assert_eq!(game.logs[1], "Day 1 | Birth! population +1 (chance 15%), food -2");
}

#[test]
fn tick_starvation_death_and_spoil() {
    let mut game = Game::default();
    game.colony.food = 3;
    let _ = game.tick_with_rolls(99, 0);
    assert_eq!(game.colony.population, 4);
    assert_eq!(game.colony.starvation_days, 1);
    assert_eq!(
        game.logs,
        vec![
            "Day 1 | Hungry: fed 3/5 (2 unfed, day 1 of 2)".to_string(),
            "Day 1 | A settler died of starvation (66% roll failed).".to_string(),
        ]
    );
    let mut game = Game::default();
    game.colony.food = 40;
    let _ = game.tick_with_rolls(99, 99);
    assert_eq!(game.colony.food, 25);
    assert_eq!(game.logs[1], "Day 1 | Spoiled 10 food (storage 25/25)");
}

#[test]
fn tick_endings() {
    let mut game = Game::default();
    game.colony.population = 0;
    assert_eq!(game.tick_with_rolls(0, 0), Some(Ending::ColonyDead));
    assert!(game.gameover);
    assert_eq!(game.tick_with_rolls(0, 0), None);
    let mut game = Game::default();
    game.world.days = 364;
    assert_eq!(game.tick_with_rolls(99, 99), Some(Ending::Victory));
    assert_eq!(game.world.days, 365);
    let mut game = Game::default();
    game.colony.population = 1;
    game.colony.food = 0;
    game.colony.starvation_days = 1;
    assert_eq!(game.tick_with_rolls(99, 99), Some(Ending::ColonyDead));
    assert_eq!(game.world.days, 2);
}

#[test]
fn log_keeps_last_hundred_lines() {
    let mut game = Game::default();
    for i in 0..105 {
        game.logs(format!("line {i}"));
    }
    assert_eq!(game.logs.len(), 100);
    assert_eq!(game.logs[0], "Day 1 | line 5");
    assert_eq!(game.logs[99], "Day 1 | line 104");
}

#[test]
fn process_action_logs() {
    let mut game = Game::default();
    game.process_action(Actions::Gather(ResourceKind::Wood));
    assert_eq!(game.logs[0], "Day 1 | Gathered wood (+5) with 5 free settler(s)");
    game.process_action(Actions::Gather(ResourceKind::Food));
    assert_eq!(game.logs[1], "Day 1 | Gathered food (+5) with 5 free settler(s)");
    assert_eq!(game.logs[2], "Day 1 | 2 food did not fit in storage");
    game.process_action(Actions::Build(BuildingKind::Farm));
    assert_eq!(
        game.logs[3],
        "Day 1 | Farm built (+2 food/day when 2 workers assigned), spent 18 wood, 18 stone"
    );
    assert_eq!(game.logs[4], "Day 1 | 1 farm(s) idle: 0/2 workers assigned (need 2 per farm)");
    game.process_action(Actions::SetWorkers { kind: BuildingKind::Farm, count: 2 });
    assert_eq!(game.logs[5], "Day 1 | Set farm workers to 2.");
    assert_eq!(game.logs[6], "Day 1 | Workers: farms 2, lumber 0, quarries 0 (3 free for gathering)");
    assert_eq!(game.logs.len(), 7);
    game.process_action(Actions::Quit);
    assert_eq!(game.logs.len(), 7);
}

#[test]
fn free_turn_actions() {
    assert!(Actions::SetWorkers { kind: BuildingKind::Farm, count: 1 }.is_free_turn());
    assert!(Actions::EventAnswer(true).is_free_turn());
    assert!(!Actions::Quit.is_free_turn());
    assert!(!Actions::Gather(ResourceKind::Food).is_free_turn());
}

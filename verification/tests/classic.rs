use termhold::classic::{yield_from_pop, Balance, Colony, Commands, Ending, Game};

#[test]
fn test_yeild_from_pop() {
    let base = 5;
    let pop = 2;
    let percent = 40;
    let min_bonus = 1;

    let result = yield_from_pop(base, pop, percent, min_bonus);
    assert_eq!(6, result);
}

#[test]
fn passive_income_scales_with_buildings() {
    let balance = Balance::default();
    let mut colony = Colony::default();
    colony.lumber_yards = 2;
    colony.stone_quarries = 1;

    let (wood, stone) = colony.apply_passive_income(&balance);
    assert_eq!(wood, 6);
    assert_eq!(stone, 2);
}

#[test]
fn classic_yield_uses_minimum_bonus() {
    assert_eq!(yield_from_pop(5, 0, 40, 1), 6);
    assert_eq!(yield_from_pop(5, 10, 40, 1), 9);
    assert_eq!(yield_from_pop(5, 5, 33, 1), 6);
}

#[test]
fn classic_gather_food_is_capped_by_storage() {
    let balance = Balance::default();
    let mut colony = Colony::default();
    colony.food = 23;
    let got = colony.gather_food(&balance).unwrap();
    assert_eq!(got, 2);
    assert_eq!(colony.food, 25);
}

#[test]
fn classic_build_hut_pays_and_raises_cap() {
    let balance = Balance::default();
    let mut colony = Colony::default();
    assert_eq!(colony.build_hut(&balance), Ok(1));
    assert_eq!(colony.wood, 40);
    assert_eq!(colony.stone, 20);
    assert_eq!(colony.huts, 2);
    assert_eq!(colony.max_population, 10);
}

#[test]
fn classic_build_errors_name_the_missing_resource() {
    let balance = Balance::default();
    let mut colony = Colony::default();
    colony.wood = 5;
    assert_eq!(colony.build_barn(&balance), Err("Not enough wood to build a barn!"));
    colony.wood = 100;
    colony.stone = 5;
    assert_eq!(colony.build_lumber_yard(&balance), Err("Not enough stone to build a lumber yard!"));
    assert_eq!(colony.build_stone_quarry(&balance), Err("Not enough stone to build a stone quarry!"));
    assert_eq!(colony.wood, 100);
}

#[test]
fn classic_tick_feeds_and_logs() {
    let mut game = Game::default();
    let ending = game.tick_with_roll(99);
    assert_eq!(ending, None);
    assert_eq!(game.colony.food, 20);
    assert_eq!(game.world.days, 2);
    assert_eq!(game.logs, vec!["Day 1 | Colony consumes 5 food".to_string()]);
}

#[test]
fn classic_tick_starvation_and_passive_income() {
    let mut game = Game::default();
    game.colony.food = 3;
    game.colony.lumber_yards = 1;
    let ending = game.tick_with_roll(0);
    assert_eq!(ending, None);
    assert_eq!(game.colony.food, 0);
    assert_eq!(game.colony.population, 4);
    assert_eq!(game.colony.wood, 53);
    assert_eq!(
        game.logs,
        vec![
            "Day 1 | Not enough food! Colony is starving, population is decreasing (-1)".to_string(),
            "Day 1 | Passive income: +3 wood, +0 stone".to_string(),
        ]
    );
}

#[test]
fn classic_tick_reports_season_end() {
    let mut game = Game::default();
    game.world.days = 180;
    assert_eq!(game.tick_with_roll(99), Some(Ending::SeasonOver));
    assert!(game.gameover);
    assert_eq!(game.world.days, 181);
}

#[test]
fn classic_process_command_logs_build() {
    let mut game = Game::default();
    game.process_command(Commands::BuildHut);
    assert_eq!(
        game.logs,
        vec!["Day 1 | Huts (+1), max pop +5, spent 10 wood, spent 10 stone".to_string()]
    );
    game.process_command(Commands::GetWood);
    assert_eq!(game.colony.wood, 40 + 7);
    assert_eq!(game.logs[1], "Day 1 | Gathered wood (+7), spent 1 food");
}

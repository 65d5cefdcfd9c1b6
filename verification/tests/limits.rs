use termhold::game::building::BuildingKind;
use termhold::game::{Actions, Balance, Game, ResourceKind};
use termhold::ui::forecast_in_range;

#[test]
fn default_game_is_in_range() {
    let game = Game::default();
    assert!(game.day_in_range());
    assert!(game.action_in_range(Actions::Gather(ResourceKind::Wood)));
    assert!(game.action_in_range(Actions::Build(BuildingKind::Farm)));
    assert!(game.action_in_range(Actions::SetWorkers { kind: BuildingKind::Farm, count: 2 }));
    assert!(game.colony.crews_in_range());
    assert!(game.colony.slots_in_range(&game.balance));
    assert!(forecast_in_range(&game.colony, &game.balance));
}

#[test]
fn overflowing_numbers_are_out_of_range() {
    let balance = Balance::default();
    let mut game = Game::default();
    game.colony.wood = 1000;
    game.colony.stone = 1000;
    game.colony.build(BuildingKind::LumberYard, &balance).unwrap();
    game.colony.wood = usize::MAX - 4;
    assert!(!game.day_in_range());
    assert!(!game.action_in_range(Actions::Gather(ResourceKind::Wood)));
    game.colony.wood = usize::MAX - 5;
    assert!(game.day_in_range());
    assert!(game.action_in_range(Actions::Gather(ResourceKind::Wood)));
    assert!(game.action_in_range(Actions::Gather(ResourceKind::Food)));

    let mut hungry = Game::default();
    hungry.colony.food = 0;
    hungry.colony.starvation_days = usize::MAX;
    assert!(!hungry.day_in_range());

    let mut crowded = Game::default();
    crowded.colony.max_population = usize::MAX;
    assert!(!crowded.action_in_range(Actions::Build(BuildingKind::Hut)));
    assert!(crowded.action_in_range(Actions::Build(BuildingKind::Barn)));

    let mut busy = Game::default();
    busy.colony.build(BuildingKind::Farm, &balance).unwrap();
    busy.colony.set_workers(BuildingKind::Farm, 2, &balance).unwrap();
    assert!(busy.action_in_range(Actions::SetWorkers { kind: BuildingKind::Farm, count: 1000 }));
    assert!(!busy.action_in_range(Actions::SetWorkers { kind: BuildingKind::Farm, count: usize::MAX }));

    let mut huge = Game::default();
    huge.colony.population = usize::MAX;
    assert!(!forecast_in_range(&huge.colony, &huge.balance));
}

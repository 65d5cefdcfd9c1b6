use termhold::game::building::BuildingKind;
use termhold::game::Game;
use termhold::ui::layout::{banner, build_menu, colony_screen, help_screen, log_panel};
use termhold::ui::welcome::welcome_screen;

fn rule() -> String {
    "─".repeat(80)
}

#[test]
fn banner_frames_the_title() {
    let lines = banner("TERMHOLD");
    assert_eq!(lines.len(), 3);
    assert_eq!(lines[0], format!("╔{}╗", "═".repeat(78)));
    assert_eq!(lines[1], format!("║ {:<76} ║", "TERMHOLD"));
    assert_eq!(lines[2], format!("╚{}╝", "═".repeat(78)));
    assert_eq!(lines[1].chars().count(), 80);
}

#[test]
fn default_colony_screen() {
    let game = Game::default();
    let lines = colony_screen(&game);
    let expected: Vec<String> = vec![
        format!("╔{}╗", "═".repeat(78)),
        format!("║ {:<76} ║", "Default colony — day 1 / 365"),
        format!("╚{}╝", "═".repeat(78)),
        String::new(),
        " COLONY".to_string(),
        rule(),
        "  Population   5/5 (housing full)".to_string(),
        "  Workers      0 on jobs, 5 free".to_string(),
        "  Wood         50".to_string(),
        "  Stone        30".to_string(),
        "  Food         20 / 25".to_string(),
        String::new(),
        " BUILDINGS".to_string(),
        rule(),
        "  Huts         1".to_string(),
        "  Barns        0".to_string(),
        "  Production   none — build farm, lumber, or quarry".to_string(),
        String::new(),
        " PER DAY".to_string(),
        rule(),
        "  Food upkeep  -5 food".to_string(),
        "  Food net     -5 without gather".to_string(),
        String::new(),
        " BUILD".to_string(),
        rule(),
        "  b hut        12w 12s → +3 pop".to_string(),
        "  b farm       18w 18s → +2 food/d, 2 workers".to_string(),
        "  b lumber     12w 15s → +5 wood/d, 2 workers".to_string(),
        "  b quarry     18w 18s → +4 stone/d, 2 workers".to_string(),
        "  b barn       32w 32s → +15 food cap".to_string(),
        "  d            farm / lumber / quarry — no refund".to_string(),
        String::new(),
        " ACTIONS".to_string(),
        rule(),
        "  g wood       +5 wood".to_string(),
        "  g stone      +4 stone".to_string(),
        "  g food       +5 food (net +0, +5 cap left)".to_string(),
        "  w / help     free — no day pass".to_string(),
        String::new(),
        " LOG".to_string(),
        rule(),
        "  (no events yet)".to_string(),
        String::new(),
    ];
    assert_eq!(lines, expected);
}

#[test]
fn colony_screen_with_production_and_room_to_grow() {
    let mut game = Game::default();
    game.colony.wood = 100;
    game.colony.stone = 100;
    game.colony.max_population = 8;
    let balance = &game.balance;
    game.colony.build(BuildingKind::Farm, balance).unwrap();
    game.colony.set_workers(BuildingKind::Farm, 2, balance).unwrap();
    let lines = colony_screen(&game);
    assert!(lines.contains(&"  Population   5/8".to_string()));
    assert!(lines.contains(&"  Farms        1 — 2/2 workers, 1 staffed (+2 food/day)".to_string()));
    assert!(lines.contains(&"  Passive      +0 wood, +0 stone, +2 food".to_string()));
    assert!(lines.contains(&"  Food net     -3 without gather".to_string()));
    assert!(lines.contains(&"  Birth chance 15% if food ≥ pop + 2".to_string()));
    assert!(lines.contains(&"  g wood       +4 wood".to_string()));
    assert!(!lines.iter().any(|l| l.starts_with("  Production")));
}

#[test]
fn log_panel_shows_the_newest_lines_cut_to_width() {
    let mut logs: Vec<String> = (0..12).map(|i| format!("Day 1 | line {i}")).collect();
    logs.push("x".repeat(100));
    let lines = log_panel(&logs);
    assert_eq!(lines.len(), 2 + 10);
    assert_eq!(lines[0], " LOG");
    assert_eq!(lines[2], "  Day 1 | line 3");
    assert_eq!(lines[10], "  Day 1 | line 11");
    assert_eq!(lines[11], format!("  {}…", "x".repeat(75)));
    let empty = log_panel(&Vec::new());
    assert_eq!(empty, vec![" LOG".to_string(), rule(), "  (no events yet)".to_string()]);
}

#[test]
fn build_menu_lists_every_building() {
    let game = Game::default();
    let lines = build_menu(&game.balance);
    assert_eq!(lines.len(), 9);
    assert_eq!(lines[0], " BUILD");
    assert_eq!(lines[6], "  b barn       32w 32s → +15 food cap");
    assert_eq!(lines[8], "");
}

#[test]
fn help_screen_lists_ranges_of_built_production() {
    let mut game = Game::default();
    game.colony.wood = 100;
    game.colony.stone = 100;
    let balance = &game.balance;
    game.colony.build(BuildingKind::LumberYard, balance).unwrap();
    game.colony.build(BuildingKind::LumberYard, balance).unwrap();
    let lines = help_screen(&game);
    assert_eq!(lines[0], "=== HELP ===");
    assert_eq!(lines[11], "  b hut     -12w -12s  +3 max pop");
    assert_eq!(lines[12], "  b farm    -18w -18s  +2 food/day (2 workers/farm)");
    assert_eq!(lines[13], "  b lumber  -12w -15s  +5 wood/day (2 workers/yard)");
    assert_eq!(lines[14], "  b quarry  -18w -18s  +4 stone/day (2 workers/quarry)");
    assert_eq!(lines[15], "  b barn    -32w -32s  +15 food storage");
    assert_eq!(lines[19], "Workers (w):");
    assert_eq!(lines[20], "  w lumber 0..4");
    assert_eq!(lines[21], "  w auto — fill farm → lumber → quarry once");
    assert_eq!(lines.len(), 23);
}

#[test]
fn welcome_screen_tells_the_story() {
    let lines = welcome_screen();
    assert_eq!(lines[1], format!("║ {:<76} ║", "TERMHOLD"));
    assert_eq!(lines[3], "");
    assert!(lines[4].starts_with("  The Old Empire is dead."));
    assert!(lines.iter().all(|l| !l.starts_with("  ") || l.len() <= 78));
    assert!(lines.contains(&"  Hold your settlement for 365 days. Every command costs time.".to_string()));
    assert_eq!(lines.last().unwrap(), "  Colony name [Termhold] — Enter for default:");
}

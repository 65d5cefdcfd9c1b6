use termhold::game::building::BuildingKind;
use termhold::game::commands::Commands;
use termhold::game::resource::ResourceKind;
use termhold::game::Actions;
use termhold::ui::input::{classify_input, is_help_text, parse_line, parse_lowercase_line, ActionInput};
use termhold::ui::welcome::normalize_colony_name;

#[test]
fn parse_line_actions() {
    assert_eq!(parse_line("g wood"), Some(Actions::Gather(ResourceKind::Wood)));
    assert_eq!(parse_line("BUILD Lumber Yard"), Some(Actions::Build(BuildingKind::LumberYard)));
    assert_eq!(parse_line("b hut"), Some(Actions::Build(BuildingKind::Hut)));
    assert_eq!(
        parse_line("w quarry 2"),
        Some(Actions::SetWorkers { kind: BuildingKind::StoneQuarry, count: 2 })
    );
    assert_eq!(parse_line("w barn 2"), None);
    assert_eq!(parse_line("d farm"), None);
    assert_eq!(parse_line("q"), Some(Actions::Quit));
    assert_eq!(parse_lowercase_line("GATHER wood"), None);
}

#[test]
fn classify_input_kinds() {
    assert_eq!(classify_input(""), ActionInput::Empty);
    assert_eq!(classify_input("?"), ActionInput::Help);
    assert_eq!(classify_input("w farm x"), ActionInput::Invalid);
    assert_eq!(
        classify_input("gather food"),
        ActionInput::Action(Actions::Gather(ResourceKind::Food))
    );
}

#[test]
fn resource_kind_helpers() {
    assert_eq!(ResourceKind::parse("stone"), Some(ResourceKind::Stone));
    assert_eq!(ResourceKind::parse("Stone"), None);
    assert_eq!(ResourceKind::Food.label(), "food");
    assert_eq!(ResourceKind::Wood.gather_percent(), 40);
    assert_eq!(ResourceKind::from_gather_command(&Commands::GetStone), Some(ResourceKind::Stone));
    assert_eq!(ResourceKind::from_gather_command(&Commands::Quit), None);
    assert_eq!(ResourceKind::Food.to_gather_command(), Commands::GetFood);
    assert!(Commands::WorkersAuto.is_worker_management());
    assert!(!Commands::BuildBarn.is_worker_management());
}

#[test]
fn colony_name_normalized() {
    assert_eq!(normalize_colony_name("   ".to_string()), "Termhold");
    assert_eq!(normalize_colony_name("  Oak Hill ".to_string()), "Oak Hill");
    assert_eq!(
        normalize_colony_name("A very long colony name indeed, really".to_string()),
        "A very long colony name inde"
    );
}

#[test]
fn every_named_building_and_resource_parses() {
    for kind in BuildingKind::production() {
        assert!(kind.employs_workers());
    }
    for kind in [BuildingKind::Hut, BuildingKind::Barn, BuildingKind::Farm, BuildingKind::LumberYard, BuildingKind::StoneQuarry] {
        assert_eq!(parse_lowercase_line(&format!("b {}", kind.label())), Some(Actions::Build(kind)));
    }
    for r in ResourceKind::all() {
        assert_eq!(parse_lowercase_line(&format!("g {}", r.label())), Some(Actions::Gather(r)));
    }
    assert_eq!(parse_line("w hut 2"), None);
    assert_eq!(
        BuildingKind::production(),
        [BuildingKind::Farm, BuildingKind::LumberYard, BuildingKind::StoneQuarry]
    );
    assert_eq!(ResourceKind::all(), [ResourceKind::Wood, ResourceKind::Stone, ResourceKind::Food]);
}

#[test]
fn help_words() {
    assert!(is_help_text("help"));
    assert!(is_help_text("?"));
    assert!(is_help_text("h"));
    assert!(!is_help_text("HELP"));
    assert!(!is_help_text("hello"));
}

#[test]
fn ascii_case_does_not_matter() {
    for line in ["g wood", "build lumber yard", "w quarry 2", "q", "b hut"] {
        assert_eq!(parse_line(line), parse_line(&line.to_ascii_uppercase()));
    }
    assert_eq!(classify_input("HELP"), ActionInput::Help);
}

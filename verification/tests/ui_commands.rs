use termhold::game::commands::{Commands, WorkerSite};
use termhold::ui::{
    classify_command, clip, food_gather_hint, gather_short, is_help_input, parse_command,
    signed_delta, CommandInput,
};

#[test]
fn parse_gather_commands() {
    assert_eq!(parse_command("g wood"), Some(Commands::GetWood));
    assert_eq!(parse_command("gather stone"), Some(Commands::GetStone));
    assert_eq!(parse_command("G FOOD"), Some(Commands::GetFood));
}

#[test]
fn parse_build_commands() {
    assert_eq!(parse_command("b hut"), Some(Commands::BuildHut));
    assert_eq!(
        parse_command("build lumber"),
        Some(Commands::BuildLumberYard)
    );
    assert_eq!(
        parse_command("build lumber-yard"),
        Some(Commands::BuildLumberYard)
    );
    assert_eq!(
        parse_command("build lumber yard"),
        Some(Commands::BuildLumberYard)
    );
}

#[test]
fn parse_quit_and_unknown() {
    assert_eq!(parse_command("quit"), Some(Commands::Quit));
    assert_eq!(parse_command("g"), None);
    assert_eq!(parse_command("gather"), None);
    assert_eq!(parse_command("b barn"), Some(Commands::BuildBarn));
    assert_eq!(parse_command("build farm"), Some(Commands::BuildFarm));
}

#[test]
fn parse_demolish_commands() {
    assert_eq!(parse_command("d farm"), Some(Commands::DemolishFarm));
    assert_eq!(
        parse_command("demolish lumber"),
        Some(Commands::DemolishLumberYard)
    );
    assert_eq!(
        parse_command("d stone quarry"),
        Some(Commands::DemolishStoneQuarry)
    );
    assert_eq!(parse_command("d hut"), None);
}

#[test]
fn parse_workers_commands() {
    assert_eq!(parse_command("w auto"), Some(Commands::WorkersAuto));
    assert_eq!(
        parse_command("w farm 2"),
        Some(Commands::SetWorkers {
            site: WorkerSite::Farm,
            count: 2
        })
    );
    assert_eq!(
        parse_command("workers lumber 0"),
        Some(Commands::SetWorkers {
            site: WorkerSite::Lumber,
            count: 0
        })
    );
    assert_eq!(parse_command("w farm"), None);
}

#[test]
fn parse_help_input() {
    assert!(is_help_input("help"));
    assert!(is_help_input("?"));
    assert!(is_help_input("HELP"));
    assert!(!is_help_input("hut"));
}

#[test]
fn food_gather_hint_partial_storage_not_full() {
    let hint = food_gather_hint(5, 8, 0, 20, 25, 5);
    assert!(hint.contains("+5 cap left"));
    assert!(!hint.contains("storage full"));
}

#[test]
fn food_gather_hint_storage_full() {
    let hint = food_gather_hint(0, 5, -5, 25, 25, 5);
    assert!(hint.contains("blocked"));
    assert!(hint.contains("25/25"));
}

#[test]
fn food_gather_hint_exact_texts() {
    assert_eq!(food_gather_hint(5, 8, 0, 20, 25, 5), "+5 food (net +0, +5 cap left)");
    assert_eq!(food_gather_hint(5, 5, -3, 10, 25, 2), "+5 food (net -3)");
    assert_eq!(food_gather_hint(5, 5, -3, 10, 25, 0), "blocked");
    assert_eq!(food_gather_hint(0, 5, -5, 25, 25, 5), "blocked (storage 25/25)");
}

#[test]
fn signed_delta_and_gather_short() {
    assert_eq!(signed_delta(0), "+0");
    assert_eq!(signed_delta(12), "+12");
    assert_eq!(signed_delta(-7), "-7");
    assert_eq!(signed_delta(isize::MIN), isize::MIN.to_string());
    assert_eq!(gather_short(4, 3, " wood"), "+4 wood");
    assert_eq!(gather_short(4, 0, " wood"), "blocked");
}

#[test]
fn parse_command_edge_cases() {
    assert_eq!(parse_command("  g   wood  "), Some(Commands::GetWood));
    assert_eq!(parse_command("exit"), Some(Commands::Quit));
    assert_eq!(parse_command("b stone   quarry"), Some(Commands::BuildStoneQuarry));
    assert_eq!(
        parse_command("w stone quarry +3"),
        Some(Commands::SetWorkers { site: WorkerSite::Quarry, count: 3 })
    );
    assert_eq!(parse_command("w farm -1"), None);
    assert_eq!(parse_command("w farm 99999999999999999999999"), None);
    assert_eq!(parse_command("w hut 1"), None);
    assert_eq!(parse_command(""), None);
    assert_eq!(parse_command("dance"), None);
}

#[test]
fn classify_command_kinds() {
    assert_eq!(classify_command(""), CommandInput::Empty);
    assert_eq!(classify_command(" h "), CommandInput::Help);
    assert_eq!(classify_command("g food"), CommandInput::Command(Commands::GetFood));
    assert_eq!(classify_command("g gold"), CommandInput::Invalid);
}

#[test]
fn clip_cuts_long_lines() {
    assert_eq!(clip("short", 10), "short");
    assert_eq!(clip("exactly10!", 10), "exactly10!");
    assert_eq!(clip("this line is too long", 10), "this line…");
}

use termhold::game::building::BuildingKind;
use termhold::game::events::{events, find_event, EventEffect, Outcome};
use termhold::game::{Balance, Colony};

#[test]
fn event_table_lookup() {
    assert_eq!(events().len(), 15);
    let e = find_event("blighted_barn").unwrap();
    assert_eq!(e.min_day, 8);
    assert_eq!(e.requires_building, Some(BuildingKind::Barn));
    assert_eq!(e.choice_prompt(), Some("Burn the tainted stores immediately? (y/n)"));
    let ash = find_event("ash_fall").unwrap();
    assert_eq!(ash.choice_prompt(), None);
    assert!(matches!(ash.effect, EventEffect::Auto(Outcome::AshFall)));
    assert!(find_event("dragons").is_none());
}

#[test]
fn outcomes_change_the_colony() {
    let balance = Balance::default();
    let mut colony = Colony::default();
    assert_eq!(
        Outcome::WildBeastsYes.apply_with_roll(&mut colony, &balance, 0),
        Ok("The palisade is strengthened. -8 wood.")
    );
    assert_eq!(colony.wood, 42);
    colony.wood = 3;
    assert_eq!(
        Outcome::WildBeastsYes.apply_with_roll(&mut colony, &balance, 0),
        Ok("Too little timber — the palisade stayed weak. Beasts raided the edge stores. -6 food.")
    );
    assert_eq!(colony.food, 14);
    assert_eq!(
        Outcome::BlackforestYes.apply_with_roll(&mut colony, &balance, 10),
        Ok("+20 wood from the black stand. The crewman never returned.")
    );
    assert_eq!(colony.population, 4);
    assert_eq!(colony.wood, 23);
    assert_eq!(
        Outcome::SealedHatchYes.apply_with_roll(&mut colony, &balance, 49),
        Ok("Sealed grain behind the hatch — imperial wax, still dry. +20 food.")
    );
    assert_eq!(colony.food, 34);
    assert_eq!(
        Outcome::BlightedBarnNo.apply_with_roll(&mut colony, &balance, 30),
        Ok("Only a little spoiled. -5 food — it could have been worse.")
    );
    assert_eq!(colony.food, 29);
    let r = Outcome::AshFall.apply(&mut colony, &balance);
    assert!(r.is_ok());
    assert_eq!(colony.food, 26);
}

#[test]
fn every_event_is_found_by_its_id() {
    for e in events() {
        assert_eq!(find_event(e.id).unwrap().id, e.id);
    }
    assert!(find_event("no_such_event").is_none());
    assert!(find_event("").is_none());
}

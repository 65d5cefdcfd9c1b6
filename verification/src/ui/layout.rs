//! The screens of the game as lines of text: the colony screen with its log
//! panel and build menu, and the help screen. The front end prints them.

use crate::game::balance::Balance;
use crate::game::building::{count_kind, staffed_kind, workers_kind, BuildingKind};
use crate::game::colony::Colony;
use crate::game::resource::ResourceKind;
use crate::game::{Game, WIN_DAY};
use crate::text::{byte_len, decimal, push_char, push_str, push_usize, string_from};
use crate::ui::{
    clip, clippable, clipped, delta_text, food_gather_hint, food_hint_text, forecast, forecast_fits,
    gather_hint_text, gather_short, signed_delta, within_space, LABEL_W, VISIBLE_LOGS, WIDTH,
};
use vstd::prelude::*;

verus! {

/// `n` copies of `c`.
pub open spec fn repeated(c: char, n: nat) -> Seq<char> {
    Seq::new(n, |_i: int| c)
}

/// `s` filled with spaces on the right to `width` characters.
pub open spec fn padded(s: Seq<char>, width: nat) -> Seq<char> {
    if s.len() < width {
        s + repeated(' ', (width - s.len()) as nat)
    } else {
        s
    }
}

/// The text of each line.
pub open spec fn texts(lines: Seq<String>) -> Seq<Seq<char>> {
    lines.map_values(|l: String| l@)
}

/// A labelled row: the label in a column of [`LABEL_W`] characters.
pub open spec fn row_line(label: Seq<char>, value: Seq<char>) -> Seq<char> {
    "  "@ + padded(label, LABEL_W as nat) + " "@ + value
}

/// A section heading and the rule under it.
pub open spec fn section_lines(title: Seq<char>) -> Seq<Seq<char>> {
    seq![" "@ + title, repeated('─', WIDTH as nat)]
}

/// A title framed by a double-lined box across the screen.
pub open spec fn banner_lines(title: Seq<char>) -> Seq<Seq<char>> {
    seq![
        "╔"@ + repeated('═', (WIDTH - 2) as nat) + "╗"@,
        "║ "@ + padded(title, (WIDTH - 4) as nat) + " ║"@,
        "╚"@ + repeated('═', (WIDTH - 2) as nat) + "╝"@,
    ]
}

/// One empty line.
pub open spec fn blank() -> Seq<Seq<char>> {
    seq![Seq::<char>::empty()]
}

fn push_repeated(m: &mut String, c: char, n: usize)
    ensures
        final(m)@ == old(m)@ + repeated(c, n as nat),
{
    let ghost start = m@;
    let mut i: usize = 0;
    while i < n
        invariant
            i <= n,
            m@ == start + repeated(c, i as nat),
        decreases n - i,
    {
        push_char(m, c);
        i = i + 1;
        assert(m@ =~= start + repeated(c, i as nat));
    }
}

fn push_padded(m: &mut String, s: &str, width: usize)
    ensures
        final(m)@ == old(m)@ + padded(s@, width as nat),
{
    let n = s.unicode_len();
    push_str(m, s);
    if n < width {
        push_repeated(m, ' ', width - n);
    }
    assert(m@ =~= old(m)@ + padded(s@, width as nat));
}

/// Appends `line` to the screen.
pub(crate) fn emit(out: &mut Vec<String>, line: String)
    ensures
        texts(final(out)@) == texts(old(out)@).push(line@),
{
    out.push(line);
    assert(texts(out@) =~= texts(old(out)@).push(line@));
}

/// Appends an empty line.
pub(crate) fn emit_blank(out: &mut Vec<String>)
    ensures
        texts(final(out)@) == texts(old(out)@) + blank(),
{
    emit(out, String::new());
    assert(texts(old(out)@).push(Seq::<char>::empty()) =~= texts(old(out)@) + blank());
}

fn row(label: &str, value: &str) -> (r: String)
    ensures
        r@ == row_line(label@, value@),
{
    let mut r = String::new();
    push_str(&mut r, "  ");
    push_padded(&mut r, label, LABEL_W);
    push_str(&mut r, " ");
    push_str(&mut r, value);
    assert(r@ =~= row_line(label@, value@));
    r
}

pub(crate) fn emit_section(out: &mut Vec<String>, title: &str)
    ensures
        texts(final(out)@) == texts(old(out)@) + section_lines(title@),
{
    let ghost before = texts(out@);
    let mut heading = String::new();
    push_str(&mut heading, " ");
    push_str(&mut heading, title);
    emit(out, heading);
    let mut rule = String::new();
    push_repeated(&mut rule, '─', WIDTH);
    emit(out, rule);
    assert(texts(out@) =~= before + section_lines(title@));
}

/// A title framed by a box across the screen.
pub fn banner(title: &str) -> (lines: Vec<String>)
    ensures
        texts(lines@) == banner_lines(title@),
{
    let mut out: Vec<String> = Vec::new();
    let mut top = String::new();
    push_str(&mut top, "╔");
    push_repeated(&mut top, '═', WIDTH - 2);
    push_str(&mut top, "╗");
    emit(&mut out, top);
    let mut middle = String::new();
    push_str(&mut middle, "║ ");
    push_padded(&mut middle, title, WIDTH - 4);
    push_str(&mut middle, " ║");
    emit(&mut out, middle);
    let mut bottom = String::new();
    push_str(&mut bottom, "╚");
    push_repeated(&mut bottom, '═', WIDTH - 2);
    push_str(&mut bottom, "╝");
    emit(&mut out, bottom);
    assert(texts(out@) =~= banner_lines(title@));
    out
}

/// Wood and stone costs as the build menu shows them: `12w 15s`.
pub open spec fn costs_text(wood: usize, stone: usize) -> Seq<char> {
    decimal(wood as nat) + "w "@ + decimal(stone as nat) + "s"@
}

/// What a production building costs, gives and employs:
/// `12w 15s → +5 wood/d, 2 workers`.
pub open spec fn output_text(wood: usize, stone: usize, output: usize, unit: Seq<char>, workers: usize) -> Seq<char> {
    costs_text(wood, stone) + " → +"@ + decimal(output as nat) + " "@ + unit + "/d, "@ + decimal(
        workers as nat,
    ) + " workers"@
}

/// The build menu of the colony screen.
pub open spec fn build_menu_lines(b: &Balance) -> Seq<Seq<char>> {
    let x = &b.buildings;
    section_lines("BUILD"@) + seq![
        row_line(
            "b hut"@,
            costs_text(x.build_hut_wood_cost, x.build_hut_stone_cost) + " → +"@ + decimal(
                x.hut_max_population_increase as nat,
            ) + " pop"@,
        ),
        row_line(
            "b farm"@,
            output_text(
                x.build_farm_wood_cost,
                x.build_farm_stone_cost,
                x.farm_food_production,
                "food"@,
                x.farm_max_workers,
            ),
        ),
        row_line(
            "b lumber"@,
            output_text(
                x.build_lumber_yard_wood_cost,
                x.build_lumber_yard_stone_cost,
                x.lumber_yard_wood_production,
                "wood"@,
                x.lumber_yard_max_workers,
            ),
        ),
        row_line(
            "b quarry"@,
            output_text(
                x.build_stone_quarry_wood_cost,
                x.build_stone_quarry_stone_cost,
                x.stone_quarry_stone_production,
                "stone"@,
                x.stone_quarry_max_workers,
            ),
        ),
        row_line(
            "b barn"@,
            costs_text(x.build_barn_wood_cost, x.build_barn_stone_cost) + " → +"@ + decimal(
                x.barn_max_food_storage_increase as nat,
            ) + " food cap"@,
        ),
        row_line("d"@, "farm / lumber / quarry — no refund"@),
        Seq::<char>::empty(),
    ]
}

fn push_costs(m: &mut String, wood: usize, stone: usize)
    ensures
        final(m)@ == old(m)@ + costs_text(wood, stone),
{
    push_usize(m, wood);
    push_str(m, "w ");
    push_usize(m, stone);
    push_str(m, "s");
    assert(m@ =~= old(m)@ + costs_text(wood, stone));
}

/// What a building gives and how many work there: `+5 wood/d, 2 workers`.
fn output_value(wood: usize, stone: usize, output: usize, unit: &str, workers: usize) -> (r: String)
    ensures
        r@ == output_text(wood, stone, output, unit@, workers),
{
    let mut r = String::new();
    push_costs(&mut r, wood, stone);
    push_str(&mut r, " → +");
    push_usize(&mut r, output);
    push_str(&mut r, " ");
    push_str(&mut r, unit);
    push_str(&mut r, "/d, ");
    push_usize(&mut r, workers);
    push_str(&mut r, " workers");
    assert(r@ =~= output_text(wood, stone, output, unit@, workers));
    r
}

fn emit_build_menu(out: &mut Vec<String>, balance: &Balance)
    ensures
        texts(final(out)@) == texts(old(out)@) + build_menu_lines(balance),
{
    let ghost before = texts(out@);
    let x = &balance.buildings;
    emit_section(out, "BUILD");
    let mut hut = String::new();
    push_costs(&mut hut, x.build_hut_wood_cost, x.build_hut_stone_cost);
    push_str(&mut hut, " → +");
    push_usize(&mut hut, x.hut_max_population_increase);
    push_str(&mut hut, " pop");
    emit(out, row("b hut", hut.as_str()));
    let farm = output_value(
        x.build_farm_wood_cost,
        x.build_farm_stone_cost,
        x.farm_food_production,
        "food",
        x.farm_max_workers,
    );
    emit(out, row("b farm", farm.as_str()));
    let lumber = output_value(
        x.build_lumber_yard_wood_cost,
        x.build_lumber_yard_stone_cost,
        x.lumber_yard_wood_production,
        "wood",
        x.lumber_yard_max_workers,
    );
    emit(out, row("b lumber", lumber.as_str()));
    let quarry = output_value(
        x.build_stone_quarry_wood_cost,
        x.build_stone_quarry_stone_cost,
        x.stone_quarry_stone_production,
        "stone",
        x.stone_quarry_max_workers,
    );
    emit(out, row("b quarry", quarry.as_str()));
    let mut barn = String::new();
    push_costs(&mut barn, x.build_barn_wood_cost, x.build_barn_stone_cost);
    push_str(&mut barn, " → +");
    push_usize(&mut barn, x.barn_max_food_storage_increase);
    push_str(&mut barn, " food cap");
    emit(out, row("b barn", barn.as_str()));
    emit(out, row("d", "farm / lumber / quarry — no refund"));
    emit_blank(out);
    assert(texts(out@) =~= before + build_menu_lines(balance));
}

/// The build menu: costs, yields and crews of each building.
pub fn build_menu(balance: &Balance) -> (lines: Vec<String>)
    ensures
        texts(lines@) == build_menu_lines(balance),
{
    let mut out: Vec<String> = Vec::new();
    emit_build_menu(&mut out, balance);
    assert(texts(Seq::<String>::empty()) + build_menu_lines(balance) =~= build_menu_lines(balance));
    out
}

/// Costs as the help screen shows them: `-12w -15s`.
pub open spec fn help_costs(wood: usize, stone: usize) -> Seq<char> {
    "-"@ + decimal(wood as nat) + "w -"@ + decimal(stone as nat) + "s"@
}

/// A building line of the help screen: command, costs, then what it gives.
pub open spec fn help_build_line(command: Seq<char>, wood: usize, stone: usize, gain: Seq<char>) -> Seq<char> {
    "  "@ + command + help_costs(wood, stone) + "  +"@ + gain
}

/// What a production building gives and needs: `2 food/day (2 workers/farm)`.
pub open spec fn help_gain(output: usize, unit: Seq<char>, workers: usize, per: Seq<char>) -> Seq<char> {
    decimal(output as nat) + " "@ + unit + "/day ("@ + decimal(workers as nat) + " workers/"@ + per
        + ")"@
}

/// The range of `w <name>` when the colony has a building of `kind`.
pub open spec fn worker_range_lines(c: &Colony, b: &Balance, kind: BuildingKind, name: Seq<char>) -> Seq<
    Seq<char>,
> {
    let count = count_kind(c.buildings@, kind);
    if count > 0 {
        seq!["  w "@ + name + " 0.."@ + decimal(count * (kind.required(&b.buildings) as nat))]
    } else {
        seq![]
    }
}

/// The help screen.
pub open spec fn help_lines(c: &Colony, b: &Balance) -> Seq<Seq<char>> {
    let x = &b.buildings;
    seq![
        "=== HELP ==="@,
        Seq::<char>::empty(),
        "Timing:"@,
        "  g, b, d — cost 1 day"@,
        "  w, help — free (no day pass)"@,
        Seq::<char>::empty(),
        "Gather (g):"@,
        "  g wood / g stone / g food"@,
        "  Uses free settlers only; blocked at 0 free"@,
        Seq::<char>::empty(),
        "Build (b):"@,
        help_build_line(
            "b hut     "@,
            x.build_hut_wood_cost,
            x.build_hut_stone_cost,
            decimal(x.hut_max_population_increase as nat) + " max pop"@,
        ),
        help_build_line(
            "b farm    "@,
            x.build_farm_wood_cost,
            x.build_farm_stone_cost,
            help_gain(x.farm_food_production, "food"@, x.farm_max_workers, "farm"@),
        ),
        help_build_line(
            "b lumber  "@,
            x.build_lumber_yard_wood_cost,
            x.build_lumber_yard_stone_cost,
            help_gain(x.lumber_yard_wood_production, "wood"@, x.lumber_yard_max_workers, "yard"@),
        ),
        help_build_line(
            "b quarry  "@,
            x.build_stone_quarry_wood_cost,
            x.build_stone_quarry_stone_cost,
            help_gain(
                x.stone_quarry_stone_production,
                "stone"@,
                x.stone_quarry_max_workers,
                "quarry"@,
            ),
        ),
        help_build_line(
            "b barn    "@,
            x.build_barn_wood_cost,
            x.build_barn_stone_cost,
            decimal(x.barn_max_food_storage_increase as nat) + " food storage"@,
        ),
        Seq::<char>::empty(),
        "Demolish (d): farm / lumber / quarry — no refund"@,
        Seq::<char>::empty(),
        "Workers (w):"@,
    ] + worker_range_lines(c, b, BuildingKind::Farm, "farm"@) + worker_range_lines(
        c,
        b,
        BuildingKind::LumberYard,
        "lumber"@,
    ) + worker_range_lines(c, b, BuildingKind::StoneQuarry, "quarry"@) + seq![
        "  w auto — fill farm → lumber → quarry once"@,
        Seq::<char>::empty(),
    ]
}

fn help_build(command: &str, wood: usize, stone: usize, gain: &str) -> (r: String)
    ensures
        r@ == help_build_line(command@, wood, stone, gain@),
{
    let mut r = String::new();
    push_str(&mut r, "  ");
    push_str(&mut r, command);
    push_str(&mut r, "-");
    push_usize(&mut r, wood);
    push_str(&mut r, "w -");
    push_usize(&mut r, stone);
    push_str(&mut r, "s");
    push_str(&mut r, "  +");
    push_str(&mut r, gain);
    assert(r@ =~= help_build_line(command@, wood, stone, gain@));
    r
}

fn gain_of(output: usize, unit: &str, workers: usize, per: &str) -> (r: String)
    ensures
        r@ == help_gain(output, unit@, workers, per@),
{
    let mut r = String::new();
    push_usize(&mut r, output);
    push_str(&mut r, " ");
    push_str(&mut r, unit);
    push_str(&mut r, "/day (");
    push_usize(&mut r, workers);
    push_str(&mut r, " workers/");
    push_str(&mut r, per);
    push_str(&mut r, ")");
    assert(r@ =~= help_gain(output, unit@, workers, per@));
    r
}

fn emit_worker_range(out: &mut Vec<String>, colony: &Colony, balance: &Balance, kind: BuildingKind, name: &str)
    requires
        count_kind(colony.buildings@, kind) * kind.required(&balance.buildings) <= usize::MAX,
    ensures
        texts(final(out)@) == texts(old(out)@) + worker_range_lines(colony, balance, kind, name@),
{
    if colony.count(kind) > 0 {
        let mut line = String::new();
        push_str(&mut line, "  w ");
        push_str(&mut line, name);
        push_str(&mut line, " 0..");
        push_usize(&mut line, colony.workers_needed(kind, balance));
        emit(out, line);
        assert(texts(out@) =~= texts(old(out)@) + worker_range_lines(colony, balance, kind, name@));
    } else {
        assert(texts(out@) =~= texts(old(out)@) + worker_range_lines(colony, balance, kind, name@));
    }
}

/// The help screen: timing, costs and yields of every building, and the
/// worker ranges of the production buildings the colony has.
pub fn help_screen(game: &Game) -> (lines: Vec<String>)
    requires
        game.colony.slots_fit(&game.balance),
    ensures
        texts(lines@) == help_lines(&game.colony, &game.balance),
{
    let colony = &game.colony;
    let balance = &game.balance;
    let x = &balance.buildings;
    let mut out: Vec<String> = Vec::new();
    emit(&mut out, string_from("=== HELP ==="));
    emit(&mut out, String::new());
    emit(&mut out, string_from("Timing:"));
    emit(&mut out, string_from("  g, b, d — cost 1 day"));
    emit(&mut out, string_from("  w, help — free (no day pass)"));
    emit(&mut out, String::new());
    emit(&mut out, string_from("Gather (g):"));
    emit(&mut out, string_from("  g wood / g stone / g food"));
    emit(&mut out, string_from("  Uses free settlers only; blocked at 0 free"));
    emit(&mut out, String::new());
    emit(&mut out, string_from("Build (b):"));
    let mut hut = String::new();
    push_usize(&mut hut, x.hut_max_population_increase);
    push_str(&mut hut, " max pop");
    emit(&mut out, help_build("b hut     ", x.build_hut_wood_cost, x.build_hut_stone_cost, hut.as_str()));
    let farm = gain_of(x.farm_food_production, "food", x.farm_max_workers, "farm");
    emit(&mut out, help_build("b farm    ", x.build_farm_wood_cost, x.build_farm_stone_cost, farm.as_str()));
    let lumber = gain_of(x.lumber_yard_wood_production, "wood", x.lumber_yard_max_workers, "yard");
    emit(
        &mut out,
        help_build("b lumber  ", x.build_lumber_yard_wood_cost, x.build_lumber_yard_stone_cost, lumber.as_str()),
    );
    let quarry = gain_of(x.stone_quarry_stone_production, "stone", x.stone_quarry_max_workers, "quarry");
    emit(
        &mut out,
        help_build(
            "b quarry  ",
            x.build_stone_quarry_wood_cost,
            x.build_stone_quarry_stone_cost,
            quarry.as_str(),
        ),
    );
    let mut barn = String::new();
    push_usize(&mut barn, x.barn_max_food_storage_increase);
    push_str(&mut barn, " food storage");
    emit(&mut out, help_build("b barn    ", x.build_barn_wood_cost, x.build_barn_stone_cost, barn.as_str()));
    emit(&mut out, String::new());
    emit(&mut out, string_from("Demolish (d): farm / lumber / quarry — no refund"));
    emit(&mut out, String::new());
    emit(&mut out, string_from("Workers (w):"));
    let ghost head = texts(out@);
    emit_worker_range(&mut out, colony, balance, BuildingKind::Farm, "farm");
    emit_worker_range(&mut out, colony, balance, BuildingKind::LumberYard, "lumber");
    emit_worker_range(&mut out, colony, balance, BuildingKind::StoneQuarry, "quarry");
    emit(&mut out, string_from("  w auto — fill farm → lumber → quarry once"));
    emit(&mut out, String::new());
    proof {
        let x = &balance.buildings;
        assert(head =~= seq![
            "=== HELP ==="@,
            Seq::<char>::empty(),
            "Timing:"@,
            "  g, b, d — cost 1 day"@,
            "  w, help — free (no day pass)"@,
            Seq::<char>::empty(),
            "Gather (g):"@,
            "  g wood / g stone / g food"@,
            "  Uses free settlers only; blocked at 0 free"@,
            Seq::<char>::empty(),
            "Build (b):"@,
            help_build_line(
                "b hut     "@,
                x.build_hut_wood_cost,
                x.build_hut_stone_cost,
                decimal(x.hut_max_population_increase as nat) + " max pop"@,
            ),
            help_build_line(
                "b farm    "@,
                x.build_farm_wood_cost,
                x.build_farm_stone_cost,
                help_gain(x.farm_food_production, "food"@, x.farm_max_workers, "farm"@),
            ),
            help_build_line(
                "b lumber  "@,
                x.build_lumber_yard_wood_cost,
                x.build_lumber_yard_stone_cost,
                help_gain(x.lumber_yard_wood_production, "wood"@, x.lumber_yard_max_workers, "yard"@),
            ),
            help_build_line(
                "b quarry  "@,
                x.build_stone_quarry_wood_cost,
                x.build_stone_quarry_stone_cost,
                help_gain(
                    x.stone_quarry_stone_production,
                    "stone"@,
                    x.stone_quarry_max_workers,
                    "quarry"@,
                ),
            ),
            help_build_line(
                "b barn    "@,
                x.build_barn_wood_cost,
                x.build_barn_stone_cost,
                decimal(x.barn_max_food_storage_increase as nat) + " food storage"@,
            ),
            Seq::<char>::empty(),
            "Demolish (d): farm / lumber / quarry — no refund"@,
            Seq::<char>::empty(),
            "Workers (w):"@,
        ]);
        assert(texts(out@) =~= help_lines(colony, balance));
    }
    out
}

// ---------------------------------------------------------------------------
// The colony screen.

/// The title of the colony screen: the colony's name and the day.
pub open spec fn title_text(g: &Game) -> Seq<char> {
    g.colony.name@ + " — day "@ + decimal(g.world.days as nat) + " / "@ + decimal(WIN_DAY as nat)
}

/// Population against the housing cap, flagged when the housing is full.
pub open spec fn population_text(c: &Colony) -> Seq<char> {
    let shown = decimal(c.population as nat) + "/"@ + decimal(c.max_population as nat);
    if c.population >= c.max_population {
        shown + " (housing full)"@
    } else {
        shown
    }
}

/// The colony section: population, workers and stocks.
pub open spec fn colony_part(c: &Colony) -> Seq<Seq<char>> {
    section_lines("COLONY"@) + seq![
        row_line("Population"@, population_text(c)),
        row_line(
            "Workers"@,
            decimal(c.assigned()) + " on jobs, "@ + decimal(c.free() as nat) + " free"@,
        ),
        row_line("Wood"@, decimal(c.wood as nat)),
        row_line("Stone"@, decimal(c.stone as nat)),
        row_line("Food"@, decimal(c.food as nat) + " / "@ + decimal(c.max_food as nat)),
        Seq::<char>::empty(),
    ]
}

/// The row of a production kind, shown once the colony has one.
pub open spec fn production_lines(
    c: &Colony,
    b: &Balance,
    label: Seq<char>,
    kind: BuildingKind,
    unit: Seq<char>,
) -> Seq<Seq<char>> {
    let s = c.buildings@;
    let count = count_kind(s, kind);
    if count > 0 {
        seq![
            row_line(
                label,
                decimal(count) + " — "@ + decimal(workers_kind(s, kind)) + "/"@ + decimal(
                    count * (kind.required(&b.buildings) as nat),
                ) + " workers, "@ + decimal(staffed_kind(s, kind, &b.buildings)) + " staffed (+"@
                    + decimal(c.passive_of(kind, b) as nat) + " "@ + unit + "/day)"@,
            ),
        ]
    } else {
        seq![]
    }
}

/// Whether the colony has a farm, a lumber yard or a quarry.
pub open spec fn has_production(c: &Colony) -> bool {
    ||| count_kind(c.buildings@, BuildingKind::Farm) > 0
    ||| count_kind(c.buildings@, BuildingKind::LumberYard) > 0
    ||| count_kind(c.buildings@, BuildingKind::StoneQuarry) > 0
}

/// The buildings section.
pub open spec fn buildings_part(c: &Colony, b: &Balance) -> Seq<Seq<char>> {
    section_lines("BUILDINGS"@) + seq![
        row_line("Huts"@, decimal(count_kind(c.buildings@, BuildingKind::Hut))),
        row_line("Barns"@, decimal(count_kind(c.buildings@, BuildingKind::Barn))),
    ] + production_lines(c, b, "Farms"@, BuildingKind::Farm, "food"@) + production_lines(
        c,
        b,
        "Lumber yards"@,
        BuildingKind::LumberYard,
        "wood"@,
    ) + production_lines(c, b, "Quarries"@, BuildingKind::StoneQuarry, "stone"@) + (if has_production(
        c,
    ) {
        seq![]
    } else {
        seq![row_line("Production"@, "none — build farm, lumber, or quarry"@)]
    }) + blank()
}

/// The per-day section: upkeep, production, the food balance and the
/// chance of a birth.
pub open spec fn per_day_part(c: &Colony, b: &Balance) -> Seq<Seq<char>> {
    let wood = c.passive_of(BuildingKind::LumberYard, b);
    let stone = c.passive_of(BuildingKind::StoneQuarry, b);
    let food = within_space(c, c.passive_of(BuildingKind::Farm, b));
    section_lines("PER DAY"@) + seq![row_line("Food upkeep"@, delta_text(-(c.population as int)) + " food"@)]
        + (if wood > 0 || stone > 0 || food > 0 {
        seq![
            row_line(
                "Passive"@,
                delta_text((wood as isize) as int) + " wood, "@ + delta_text((stone as isize) as int)
                    + " stone, "@ + delta_text((food as isize) as int) + " food"@,
            ),
        ]
    } else {
        seq![]
    }) + seq![row_line("Food net"@, delta_text(food - c.population) + " without gather"@)] + (if c.population
        < c.max_population {
        seq![
            row_line(
                "Birth chance"@,
                decimal(b.population.birth_chance_percent as nat) + "% if food ≥ pop + "@ + decimal(
                    b.population.increase_cost as nat,
                ),
            ),
        ]
    } else {
        seq![]
    }) + blank()
}

/// The actions section: what each gather would bring.
pub open spec fn actions_part(c: &Colony, b: &Balance) -> Seq<Seq<char>> {
    let free = c.free() as usize;
    let potential = c.yield_of(ResourceKind::Food, b);
    let active = within_space(c, potential);
    let passive = within_space(c, c.passive_of(BuildingKind::Farm, b));
    section_lines("ACTIONS"@) + seq![
        row_line("g wood"@, gather_hint_text(c.yield_of(ResourceKind::Wood, b) as usize, free, " wood"@)),
        row_line(
            "g stone"@,
            gather_hint_text(c.yield_of(ResourceKind::Stone, b) as usize, free, " stone"@),
        ),
        row_line(
            "g food"@,
            food_hint_text(
                active as usize,
                potential as usize,
                (active + passive - c.population) as isize,
                c.food,
                c.max_food,
                free,
            ),
        ),
        row_line("w / help"@, "free — no day pass"@),
        Seq::<char>::empty(),
    ]
}

/// Where the shown part of a log of `n` lines starts.
pub open spec fn first_shown(n: nat) -> int {
    if n > VISIBLE_LOGS {
        n - VISIBLE_LOGS
    } else {
        0
    }
}

/// The log lines from `first_shown` on, each cut to the panel's width.
pub open spec fn shown_logs(lines: Seq<Seq<char>>) -> Seq<Seq<char>> {
    let start = first_shown(lines.len());
    Seq::new(
        (lines.len() - start) as nat,
        |k: int| "  "@ + clipped(lines[start + k], (WIDTH - 4) as nat),
    )
}

/// Every shown log line can be cut to the panel's width.
pub open spec fn logs_clippable(lines: Seq<Seq<char>>) -> bool {
    forall|i: int|
        first_shown(lines.len()) <= i < lines.len() ==> clippable(
            #[trigger] lines[i],
            (WIDTH - 4) as nat,
        )
}

/// The log panel: the newest [`VISIBLE_LOGS`] lines, or a note that
/// nothing has happened yet.
pub open spec fn log_panel_lines(lines: Seq<Seq<char>>) -> Seq<Seq<char>> {
    section_lines("LOG"@) + if lines.len() == 0 {
        seq!["  (no events yet)"@]
    } else {
        shown_logs(lines)
    }
}

/// The whole colony screen, without the prompt.
pub open spec fn colony_screen_lines(g: &Game) -> Seq<Seq<char>> {
    let c = &g.colony;
    let b = &g.balance;
    banner_lines(title_text(g)) + blank() + colony_part(c) + buildings_part(c, b) + per_day_part(c, b)
        + build_menu_lines(b) + actions_part(c, b) + log_panel_lines(g.log_lines()) + blank()
}

fn emit_row(out: &mut Vec<String>, label: &str, value: String)
    ensures
        texts(final(out)@) == texts(old(out)@).push(row_line(label@, value@)),
{
    emit(out, row(label, value.as_str()));
}

fn number(n: usize) -> (r: String)
    ensures
        r@ == decimal(n as nat),
{
    let mut r = String::new();
    push_usize(&mut r, n);
    assert(r@ =~= decimal(n as nat));
    r
}

fn emit_colony_part(out: &mut Vec<String>, colony: &Colony)
    requires
        colony.sums_fit(),
    ensures
        texts(final(out)@) == texts(old(out)@) + colony_part(colony),
{
    let ghost before = texts(out@);
    emit_section(out, "COLONY");
    let mut pop = String::new();
    push_usize(&mut pop, colony.population);
    push_str(&mut pop, "/");
    push_usize(&mut pop, colony.max_population);
    if colony.population >= colony.max_population {
        push_str(&mut pop, " (housing full)");
    }
    assert(pop@ =~= population_text(colony));
    emit_row(out, "Population", pop);
    let mut workers = String::new();
    push_usize(&mut workers, colony.assigned_workers());
    push_str(&mut workers, " on jobs, ");
    push_usize(&mut workers, colony.free_workers());
    push_str(&mut workers, " free");
    assert(workers@ =~= decimal(colony.assigned()) + " on jobs, "@ + decimal(colony.free() as nat)
        + " free"@);
    emit_row(out, "Workers", workers);
    emit_row(out, "Wood", number(colony.wood));
    emit_row(out, "Stone", number(colony.stone));
    let mut food = String::new();
    push_usize(&mut food, colony.food);
    push_str(&mut food, " / ");
    push_usize(&mut food, colony.max_food);
    assert(food@ =~= decimal(colony.food as nat) + " / "@ + decimal(colony.max_food as nat));
    emit_row(out, "Food", food);
    emit_blank(out);
    assert(texts(out@) =~= before + colony_part(colony));
}

fn emit_production(
    out: &mut Vec<String>,
    colony: &Colony,
    balance: &Balance,
    label: &str,
    kind: BuildingKind,
    unit: &str,
)
    requires
        colony.sums_fit(),
        count_kind(colony.buildings@, kind) * kind.required(&balance.buildings) <= usize::MAX,
        colony.passive_of(kind, balance) <= usize::MAX,
    ensures
        texts(final(out)@) == texts(old(out)@) + production_lines(colony, balance, label@, kind, unit@),
{
    let count = colony.count(kind);
    if count > 0 {
        let staffed = colony.staffed(kind, balance);
        let output = staffed * kind.passive_output(&balance.buildings);
        let mut v = String::new();
        push_usize(&mut v, count);
        push_str(&mut v, " — ");
        push_usize(&mut v, colony.workers_on(kind));
        push_str(&mut v, "/");
        push_usize(&mut v, colony.workers_needed(kind, balance));
        push_str(&mut v, " workers, ");
        push_usize(&mut v, staffed);
        push_str(&mut v, " staffed (+");
        push_usize(&mut v, output);
        push_str(&mut v, " ");
        push_str(&mut v, unit);
        push_str(&mut v, "/day)");
        let ghost s = colony.buildings@;
        assert(v@ =~= decimal(count as nat) + " — "@ + decimal(workers_kind(s, kind)) + "/"@
            + decimal((count as nat) * (kind.required(&balance.buildings) as nat)) + " workers, "@ + decimal(
            staffed_kind(s, kind, &balance.buildings),
        ) + " staffed (+"@ + decimal(colony.passive_of(kind, balance) as nat) + " "@ + unit@
            + "/day)"@);
        emit_row(out, label, v);
        assert(texts(out@) =~= texts(old(out)@) + production_lines(colony, balance, label@, kind, unit@));
    } else {
        assert(texts(out@) =~= texts(old(out)@) + production_lines(colony, balance, label@, kind, unit@));
    }
}

fn emit_buildings_part(out: &mut Vec<String>, colony: &Colony, balance: &Balance)
    requires
        colony.sums_fit(),
        colony.slots_fit(balance),
        colony.passive_of(BuildingKind::Farm, balance) <= usize::MAX,
        colony.passive_of(BuildingKind::LumberYard, balance) <= usize::MAX,
        colony.passive_of(BuildingKind::StoneQuarry, balance) <= usize::MAX,
    ensures
        texts(final(out)@) == texts(old(out)@) + buildings_part(colony, balance),
{
    let ghost before = texts(out@);
    emit_section(out, "BUILDINGS");
    emit_row(out, "Huts", number(colony.count(BuildingKind::Hut)));
    emit_row(out, "Barns", number(colony.count(BuildingKind::Barn)));
    let ghost head = texts(out@);
    emit_production(out, colony, balance, "Farms", BuildingKind::Farm, "food");
    emit_production(out, colony, balance, "Lumber yards", BuildingKind::LumberYard, "wood");
    emit_production(out, colony, balance, "Quarries", BuildingKind::StoneQuarry, "stone");
    let ghost made = texts(out@);
    if !colony.buildings.has_production() {
        emit_row(out, "Production", string_from("none — build farm, lumber, or quarry"));
    }
    let ghost tail = texts(out@);
    emit_blank(out);
    proof {
        assert(head =~= before + section_lines("BUILDINGS"@) + seq![
            row_line("Huts"@, decimal(count_kind(colony.buildings@, BuildingKind::Hut))),
            row_line("Barns"@, decimal(count_kind(colony.buildings@, BuildingKind::Barn))),
        ]);
        assert(tail =~= made + (if has_production(colony) {
            seq![]
        } else {
            seq![row_line("Production"@, "none — build farm, lumber, or quarry"@)]
        }));
        assert(texts(out@) =~= before + buildings_part(colony, balance));
    }
}

fn emit_per_day_part(out: &mut Vec<String>, colony: &Colony, balance: &Balance)
    requires
        forecast_fits(colony, balance),
    ensures
        texts(final(out)@) == texts(old(out)@) + per_day_part(colony, balance),
{
    let ghost before = texts(out@);
    let f = forecast(colony, balance);
    emit_section(out, "PER DAY");
    let mut upkeep = signed_delta(-f.upkeep);
    push_str(&mut upkeep, " food");
    emit_row(out, "Food upkeep", upkeep);
    let ghost head = texts(out@);
    if f.passive_wood > 0 || f.passive_stone > 0 || f.passive_food_effective > 0 {
        let mut v = signed_delta(#[verifier::truncate] (f.passive_wood as isize));
        push_str(&mut v, " wood, ");
        let stone = signed_delta(#[verifier::truncate] (f.passive_stone as isize));
        push_str(&mut v, stone.as_str());
        push_str(&mut v, " stone, ");
        let food = signed_delta(#[verifier::truncate] (f.passive_food_effective as isize));
        push_str(&mut v, food.as_str());
        push_str(&mut v, " food");
        emit_row(out, "Passive", v);
    }
    let ghost mid = texts(out@);
    let mut net = signed_delta(f.food_net_passive);
    push_str(&mut net, " without gather");
    emit_row(out, "Food net", net);
    let ghost later = texts(out@);
    if colony.population < colony.max_population {
        let mut v = String::new();
        push_usize(&mut v, balance.population.birth_chance_percent as usize);
        push_str(&mut v, "% if food ≥ pop + ");
        push_usize(&mut v, balance.population.increase_cost);
        emit_row(out, "Birth chance", v);
    }
    let ghost last = texts(out@);
    emit_blank(out);
    proof {
        let wood = colony.passive_of(BuildingKind::LumberYard, balance);
        let stone = colony.passive_of(BuildingKind::StoneQuarry, balance);
        let food = within_space(colony, colony.passive_of(BuildingKind::Farm, balance));
        assert(head =~= before + section_lines("PER DAY"@) + seq![
            row_line("Food upkeep"@, delta_text(-(colony.population as int)) + " food"@),
        ]);
        assert(mid =~= head + (if wood > 0 || stone > 0 || food > 0 {
            seq![
                row_line(
                    "Passive"@,
                    delta_text((wood as isize) as int) + " wood, "@ + delta_text(
                        (stone as isize) as int,
                    ) + " stone, "@ + delta_text((food as isize) as int) + " food"@,
                ),
            ]
        } else {
            seq![]
        }));
        assert(later =~= mid + seq![
            row_line("Food net"@, delta_text(food - colony.population) + " without gather"@),
        ]);
        assert(last =~= later + (if colony.population < colony.max_population {
            seq![
                row_line(
                    "Birth chance"@,
                    decimal(balance.population.birth_chance_percent as nat) + "% if food ≥ pop + "@
                        + decimal(balance.population.increase_cost as nat),
                ),
            ]
        } else {
            seq![]
        }));
        assert(texts(out@) =~= before + per_day_part(colony, balance));
    }
}

fn emit_actions_part(out: &mut Vec<String>, colony: &Colony, balance: &Balance)
    requires
        forecast_fits(colony, balance),
    ensures
        texts(final(out)@) == texts(old(out)@) + actions_part(colony, balance),
{
    let ghost before = texts(out@);
    let f = forecast(colony, balance);
    emit_section(out, "ACTIONS");
    emit_row(out, "g wood", gather_short(f.wood_active, f.free, " wood"));
    emit_row(out, "g stone", gather_short(f.stone_active, f.free, " stone"));
    emit_row(
        out,
        "g food",
        food_gather_hint(
            f.food_active,
            f.food_potential,
            f.food_net_if_gather,
            colony.food,
            colony.max_food,
            f.free,
        ),
    );
    emit_row(out, "w / help", string_from("free — no day pass"));
    emit_blank(out);
    assert(texts(out@) =~= before + actions_part(colony, balance));
}

fn emit_log_panel(out: &mut Vec<String>, logs: &Vec<String>)
    requires
        logs_clippable(texts(logs@)),
    ensures
        texts(final(out)@) == texts(old(out)@) + log_panel_lines(texts(logs@)),
{
    let ghost before = texts(out@);
    let ghost lines = texts(logs@);
    emit_section(out, "LOG");
    if logs.len() == 0 {
        emit(out, string_from("  (no events yet)"));
        assert(texts(out@) =~= before + log_panel_lines(lines));
        return;
    }
    let start = logs.len().saturating_sub(VISIBLE_LOGS);
    let ghost head = texts(out@);
    let mut i: usize = start;
    while i < logs.len()
        invariant
            start <= i <= logs@.len(),
            start == first_shown(logs@.len() as nat),
            lines == texts(logs@),
            logs_clippable(lines),
            texts(out@) == head + shown_logs(lines).take(i - start),
        decreases logs.len() - i,
    {
        assert(lines[i as int] == logs@[i as int]@);
        let mut line = String::new();
        push_str(&mut line, "  ");
        let cut = clip(logs[i].as_str(), WIDTH - 4);
        push_str(&mut line, cut.as_str());
        emit(out, line);
        assert(shown_logs(lines).take(i + 1 - start) =~= shown_logs(lines).take(i - start).push(
            "  "@ + clipped(lines[i as int], (WIDTH - 4) as nat),
        ));
        i = i + 1;
    }
    assert(shown_logs(lines).take(i - start) =~= shown_logs(lines));
    assert(texts(out@) =~= before + log_panel_lines(lines));
}

/// The log panel of the colony screen.
pub fn log_panel(logs: &Vec<String>) -> (lines: Vec<String>)
    requires
        logs_clippable(texts(logs@)),
    ensures
        texts(lines@) == log_panel_lines(texts(logs@)),
{
    let mut out: Vec<String> = Vec::new();
    emit_log_panel(&mut out, logs);
    assert(texts(Seq::<String>::empty()) + log_panel_lines(texts(logs@)) =~= log_panel_lines(
        texts(logs@),
    ));
    out
}

/// The colony screen: title, colony, buildings, the coming day, the build
/// menu, the possible gathers and the newest log lines.
pub fn colony_screen(game: &Game) -> (lines: Vec<String>)
    requires
        forecast_fits(&game.colony, &game.balance),
        game.colony.slots_fit(&game.balance),
        logs_clippable(game.log_lines()),
    ensures
        texts(lines@) == colony_screen_lines(game),
{
    let colony = &game.colony;
    let balance = &game.balance;
    let mut title = String::new();
    push_str(&mut title, colony.name.as_str());
    push_str(&mut title, " — day ");
    push_usize(&mut title, game.world.days);
    push_str(&mut title, " / ");
    push_usize(&mut title, WIN_DAY);
    assert(title@ =~= title_text(game));
    let mut out = banner(title.as_str());
    emit_blank(&mut out);
    emit_colony_part(&mut out, colony);
    emit_buildings_part(&mut out, colony, balance);
    emit_per_day_part(&mut out, colony, balance);
    emit_build_menu(&mut out, balance);
    emit_actions_part(&mut out, colony, balance);
    assert(texts(game.logs@) == game.log_lines());
    emit_log_panel(&mut out, &game.logs);
    emit_blank(&mut out);
    out
}

} // verus!

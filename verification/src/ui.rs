//! The command-line front end's logic: parsing commands and composing the
//! short hints shown beside them.

pub mod input;
pub mod layout;
pub mod welcome;

pub use input::is_help_input;

use crate::game::balance::Balance;
use crate::game::building::BuildingKind;
use crate::game::colony::{sat_sub, Colony};
use crate::game::commands::{Commands, WorkerSite};
use crate::game::resource::ResourceKind;
use crate::text::{
    ascii_lowered, byte_len, chars_equal, is_ascii_text, chars_of, decimal, join_range, join_words, lowercase_of, parse_usize,
    parse_usize_spec, push_isize, push_str, push_usize, signed_decimal, split_words, string_from, to_lowercase,
    words,
};
use crate::ui::input::{
    asks_help, is_lumber_yard_name, is_stone_quarry_name, names_lumber_yard, names_stone_quarry,
};
use vstd::prelude::*;
use vstd::string::StringSliceAdditionalSpecFns;
use vstd::utf8::{decode_utf8, encode_utf8, encode_utf8_decode_utf8, is_char_boundary};

verus! {

/// Width of the screen in columns.
pub const WIDTH: usize = 80;

/// Log lines shown under the colony.
pub const VISIBLE_LOGS: usize = 10;

/// Width of the label column.
pub const LABEL_W: usize = 12;

pub const INVALID_COMMAND_MSG: &'static str =
    "The settlers did not understand what you wanted to say and spent the whole day in contemplation.";

pub const EMPTY_COMMAND_MSG: &'static str = "The settlers, like you, decided to do nothing today.";

/// A read command line, classified.
#[derive(Debug, PartialEq, Eq, Clone, Copy, Structural)]
pub enum CommandInput {
    Command(Commands),
    Help,
    Invalid,
    Empty,
}

/// The build command a target names.
pub open spec fn build_command(s: Seq<char>) -> Option<Commands> {
    if s == "hut"@ {
        Some(Commands::BuildHut)
    } else if names_lumber_yard(s) {
        Some(Commands::BuildLumberYard)
    } else if names_stone_quarry(s) {
        Some(Commands::BuildStoneQuarry)
    } else if s == "barn"@ {
        Some(Commands::BuildBarn)
    } else if s == "farm"@ {
        Some(Commands::BuildFarm)
    } else {
        None
    }
}

/// The demolish command a target names.
pub open spec fn demolish_command(s: Seq<char>) -> Option<Commands> {
    if s == "farm"@ {
        Some(Commands::DemolishFarm)
    } else if names_lumber_yard(s) {
        Some(Commands::DemolishLumberYard)
    } else if names_stone_quarry(s) {
        Some(Commands::DemolishStoneQuarry)
    } else {
        None
    }
}

/// The worker site a target names.
pub open spec fn site_named(s: Seq<char>) -> Option<WorkerSite> {
    if s == "farm"@ {
        Some(WorkerSite::Farm)
    } else if names_lumber_yard(s) {
        Some(WorkerSite::Lumber)
    } else if names_stone_quarry(s) {
        Some(WorkerSite::Quarry)
    } else {
        None
    }
}

/// `auto`, or `<site> <count>`.
pub open spec fn workers_command(s: Seq<char>) -> Option<Commands> {
    if s == "auto"@ {
        Some(Commands::WorkersAuto)
    } else {
        let parts = words(s);
        if parts.len() < 2 {
            None
        } else {
            match parse_usize_spec(parts.last()) {
                None => None,
                Some(count) => match site_named(join_words(parts.drop_last())) {
                    Some(site) => Some(Commands::SetWorkers { site, count }),
                    None => None,
                },
            }
        }
    }
}

/// The command an already lowercased line asks for.
pub open spec fn command_of(line: Seq<char>) -> Option<Commands> {
    let w = words(line);
    if w.len() == 0 {
        None
    } else {
        let verb = w[0];
        let target = join_words(w.skip(1));
        if verb == "q"@ || verb == "quit"@ || verb == "exit"@ {
            Some(Commands::Quit)
        } else if verb == "g"@ || verb == "gather"@ {
            match ResourceKind::named(target) {
                Some(kind) => Some(kind.gather_command()),
                None => None,
            }
        } else if verb == "b"@ || verb == "build"@ {
            build_command(target)
        } else if verb == "d"@ || verb == "demolish"@ {
            demolish_command(target)
        } else if verb == "w"@ || verb == "workers"@ || verb == "work"@ {
            workers_command(target)
        } else {
            None
        }
    }
}

/// Parses one command line, case-insensitively.
pub fn parse_command(input: &str) -> (r: Option<Commands>)
    ensures
        r == command_of(lowercase_of(input@)),
        is_ascii_text(input@) ==> r == command_of(ascii_lowered(input@)),
{
    let lowered = to_lowercase(input);
    parse_lowercase_command(lowered.as_str())
}

/// Parses a command line that is already lowercase.
pub fn parse_lowercase_command(line: &str) -> (r: Option<Commands>)
    ensures
        r == command_of(line@),
{
    let chars = chars_of(line);
    let w = split_words(chars.as_slice());
    let ghost ws = w@.map_values(|x: Vec<char>| x@);
    if w.len() == 0 {
        return None;
    }
    let target = join_range(&w, 1, w.len());
    assert(ws.subrange(1, ws.len() as int) =~= ws.skip(1));
    let verb = w[0].as_slice();
    assert(verb@ == ws[0]);
    let t = target.as_slice();
    if chars_equal(verb, "q") || chars_equal(verb, "quit") || chars_equal(verb, "exit") {
        Some(Commands::Quit)
    } else if chars_equal(verb, "g") || chars_equal(verb, "gather") {
        parse_gather(t)
    } else if chars_equal(verb, "b") || chars_equal(verb, "build") {
        parse_build(t)
    } else if chars_equal(verb, "d") || chars_equal(verb, "demolish") {
        parse_demolish(t)
    } else if chars_equal(verb, "w") || chars_equal(verb, "workers") || chars_equal(verb, "work") {
        parse_workers(t)
    } else {
        None
    }
}

fn parse_gather(target: &[char]) -> (r: Option<Commands>)
    ensures
        r == match ResourceKind::named(target@) {
            Some(kind) => Some(kind.gather_command()),
            None => None::<Commands>,
        },
{
    let name = crate::text::string_of(target);
    match ResourceKind::parse(name.as_str()) {
        Some(kind) => Some(kind.to_gather_command()),
        None => None,
    }
}

fn parse_build(target: &[char]) -> (r: Option<Commands>)
    ensures
        r == build_command(target@),
{
    if chars_equal(target, "hut") {
        Some(Commands::BuildHut)
    } else if is_lumber_yard_name(target) {
        Some(Commands::BuildLumberYard)
    } else if is_stone_quarry_name(target) {
        Some(Commands::BuildStoneQuarry)
    } else if chars_equal(target, "barn") {
        Some(Commands::BuildBarn)
    } else if chars_equal(target, "farm") {
        Some(Commands::BuildFarm)
    } else {
        None
    }
}

fn parse_demolish(target: &[char]) -> (r: Option<Commands>)
    ensures
        r == demolish_command(target@),
{
    if chars_equal(target, "farm") {
        Some(Commands::DemolishFarm)
    } else if is_lumber_yard_name(target) {
        Some(Commands::DemolishLumberYard)
    } else if is_stone_quarry_name(target) {
        Some(Commands::DemolishStoneQuarry)
    } else {
        None
    }
}

fn parse_workers(input: &[char]) -> (r: Option<Commands>)
    ensures
        r == workers_command(input@),
{
    if chars_equal(input, "auto") {
        return Some(Commands::WorkersAuto);
    }
    let parts = split_words(input);
    let ghost ps = parts@.map_values(|x: Vec<char>| x@);
    if parts.len() < 2 {
        return None;
    }
    let n = parts.len();
    assert(parts@[n - 1]@ == ps.last());
    let count = match parse_usize(parts[n - 1].as_slice()) {
        Some(c) => c,
        None => {
            return None;
        },
    };
    let building = join_range(&parts, 0, n - 1);
    assert(ps.subrange(0, n - 1) =~= ps.drop_last());
    let b = building.as_slice();
    let site = if chars_equal(b, "farm") {
        WorkerSite::Farm
    } else if is_lumber_yard_name(b) {
        WorkerSite::Lumber
    } else if is_stone_quarry_name(b) {
        WorkerSite::Quarry
    } else {
        return None;
    };
    Some(Commands::SetWorkers { site, count })
}

/// What `classify_command` makes of a line.
pub open spec fn command_input_of(input: Seq<char>) -> CommandInput {
    if input.len() == 0 {
        CommandInput::Empty
    } else if asks_help(input) {
        CommandInput::Help
    } else {
        match command_of(lowercase_of(input)) {
            Some(c) => CommandInput::Command(c),
            None => CommandInput::Invalid,
        }
    }
}

/// Classifies a read command line: empty, a help request, a command, or
/// something the settlers do not understand.
pub fn classify_command(input: &str) -> (r: CommandInput)
    ensures
        r == command_input_of(input@),
{
    if input.is_empty() {
        return CommandInput::Empty;
    }
    if is_help_input(input) {
        return CommandInput::Help;
    }
    match parse_command(input) {
        Some(cmd) => CommandInput::Command(cmd),
        None => CommandInput::Invalid,
    }
}

/// A change as shown to the player: `+n` for `n >= 0`, `-n` otherwise.
pub open spec fn delta_text(v: int) -> Seq<char> {
    if v >= 0 {
        "+"@ + decimal(v as nat)
    } else {
        signed_decimal(v)
    }
}

/// A change with its sign: `+n` for `n >= 0`, `-n` otherwise.
pub fn signed_delta(value: isize) -> (r: String)
    ensures
        r@ == delta_text(value as int),
{
    let mut r = String::new();
    if value >= 0 {
        push_str(&mut r, "+");
    }
    push_isize(&mut r, value);
    assert(r@ =~= delta_text(value as int));
    r
}

/// A gather hint: `blocked` without free settlers, else the signed yield
/// followed by `abbrev`.
pub open spec fn gather_hint_text(yield_amount: usize, free: usize, abbrev: Seq<char>) -> Seq<
    char,
> {
    if free == 0 {
        "blocked"@
    } else {
        delta_text((yield_amount as isize) as int) + abbrev
    }
}

/// The hint beside `g wood` and `g stone`.
pub fn gather_short(yield_amount: usize, free: usize, abbrev: &str) -> (r: String)
    ensures
        r@ == gather_hint_text(yield_amount, free, abbrev@),
{
    if free == 0 {
        string_from("blocked")
    } else {
        let v: isize = #[verifier::truncate] (yield_amount as isize);
        let mut r = signed_delta(v);
        push_str(&mut r, abbrev);
        r
    }
}

/// The hint beside `g food`.
pub open spec fn food_hint_text(
    food_active: usize,
    food_potential: usize,
    food_net: isize,
    food: usize,
    max_food: usize,
    free: usize,
) -> Seq<char> {
    let space = sat_sub(max_food as int, food as int);
    if free == 0 {
        "blocked"@
    } else if space == 0 {
        "blocked (storage "@ + decimal(food as nat) + "/"@ + decimal(max_food as nat) + ")"@
    } else {
        let yield_part = delta_text((food_active as isize) as int) + " food"@;
        let net_part = "net "@ + delta_text(food_net as int);
        if food_active < food_potential {
            yield_part + " ("@ + net_part + ", +"@ + decimal(space as nat) + " cap left)"@
        } else {
            yield_part + " ("@ + net_part + ")"@
        }
    }
}

/// The hint beside `g food`: the yield, the day's net food and, when
/// storage limits the gather, the room left.
pub fn food_gather_hint(
    food_active: usize,
    food_potential: usize,
    food_net: isize,
    food: usize,
    max_food: usize,
    free: usize,
) -> (r: String)
    ensures
        r@ == food_hint_text(food_active, food_potential, food_net, food, max_food, free),
{
    if free == 0 {
        return string_from("blocked");
    }
    let space = max_food.saturating_sub(food);
    if space == 0 {
        let mut r = String::new();
        push_str(&mut r, "blocked (storage ");
        push_usize(&mut r, food);
        push_str(&mut r, "/");
        push_usize(&mut r, max_food);
        push_str(&mut r, ")");
        assert(r@ =~= food_hint_text(food_active, food_potential, food_net, food, max_food, free));
        return r;
    }
    let active: isize = #[verifier::truncate] (food_active as isize);
    let mut r = signed_delta(active);
    push_str(&mut r, " food");
    push_str(&mut r, " (");
    push_str(&mut r, "net ");
    let net = signed_delta(food_net);
    push_str(&mut r, net.as_str());
    if food_active < food_potential {
        push_str(&mut r, ", +");
        push_usize(&mut r, space);
        push_str(&mut r, " cap left)");
    } else {
        push_str(&mut r, ")");
    }
    assert(r@ =~= food_hint_text(food_active, food_potential, food_net, food, max_food, free));
    r
}

/// A line cut to `max` bytes: lines that fit are kept whole; longer ones
/// keep their first `max - 1` bytes and end in `…`.
pub open spec fn clipped(s: Seq<char>, max: nat) -> Seq<char> {
    if byte_len(s) <= max {
        s
    } else {
        decode_utf8(encode_utf8(s).subrange(0, sat_sub(max as int, 1))) + "…"@
    }
}

/// `s` can be cut to `max` bytes: where it is longer, byte `max - 1` starts
/// a character.
pub open spec fn clippable(s: Seq<char>, max: nat) -> bool {
    &&& byte_len(s) <= usize::MAX
    &&& byte_len(s) > max ==> is_char_boundary(encode_utf8(s), sat_sub(max as int, 1))
}

/// A log line cut to `max` bytes.
pub fn clip(s: &str, max: usize) -> (r: String)
    requires
        clippable(s@, max as nat),
    ensures
        r@ == clipped(s@, max as nat),
{
    if s.len() <= max {
        string_from(s)
    } else {
        let cut = max.saturating_sub(1);
        let (head, _) = s.split_at(cut);
        proof {
            encode_utf8_decode_utf8(head@);
            assert(head.spec_bytes() == s.spec_bytes().subrange(0, cut as int));
            assert(decode_utf8(head.spec_bytes()) == head@);
        }
        let mut r = string_from(head);
        push_str(&mut r, "…");
        r
    }
}

/// The numbers the colony screen shows for the coming day.
pub struct Forecast {
    /// Wood one `g wood` would bring.
    pub wood_active: usize,
    /// Stone one `g stone` would bring.
    pub stone_active: usize,
    /// Food one `g food` would gather before storage is considered.
    pub food_potential: usize,
    /// Food one `g food` would actually add.
    pub food_active: usize,
    pub passive_wood: usize,
    pub passive_stone: usize,
    /// Food the farms produce before storage is considered.
    pub passive_food: usize,
    /// Food the farms would actually add.
    pub passive_food_effective: usize,
    /// Food eaten in a day.
    pub upkeep: isize,
    /// Food change over a day with one `g food`.
    pub food_net_if_gather: isize,
    /// Food change over a day without gathering.
    pub food_net_passive: isize,
    pub free: usize,
    pub assigned: usize,
}

/// The smaller of `a` and the food storage left.
pub open spec fn within_space(c: &Colony, a: int) -> int {
    let space = sat_sub(c.max_food as int, c.food as int);
    if a < space {
        a
    } else {
        space
    }
}

/// The forecast's numbers fit their types.
pub open spec fn forecast_fits(c: &Colony, b: &Balance) -> bool {
    let active = within_space(c, c.yield_of(ResourceKind::Food, b));
    let passive = within_space(c, c.passive_of(BuildingKind::Farm, b));
    &&& c.sums_fit()
    &&& c.yield_fits(ResourceKind::Wood, b)
    &&& c.yield_fits(ResourceKind::Stone, b)
    &&& c.yield_fits(ResourceKind::Food, b)
    &&& c.passive_of(BuildingKind::LumberYard, b) <= usize::MAX
    &&& c.passive_of(BuildingKind::StoneQuarry, b) <= usize::MAX
    &&& c.passive_of(BuildingKind::Farm, b) <= usize::MAX
    &&& c.population <= isize::MAX
    &&& active + passive <= isize::MAX
}

/// Whether the forecast's numbers fit their types.
pub fn forecast_in_range(colony: &Colony, balance: &Balance) -> (r: bool)
    ensures
        r == forecast_fits(colony, balance),
{
    if !colony.crews_in_range() {
        return false;
    }
    if !(colony.yield_in_range(ResourceKind::Wood, balance) && colony.yield_in_range(
        ResourceKind::Stone,
        balance,
    ) && colony.yield_in_range(ResourceKind::Food, balance)) {
        return false;
    }
    if !(colony.passive_in_range(BuildingKind::LumberYard, balance) && colony.passive_in_range(
        BuildingKind::StoneQuarry,
        balance,
    ) && colony.passive_in_range(BuildingKind::Farm, balance)) {
        return false;
    }
    if colony.population > isize::MAX as usize {
        return false;
    }
    let space = colony.max_food.saturating_sub(colony.food);
    let potential = colony.food_yield(balance);
    let active = if potential < space {
        potential
    } else {
        space
    };
    let produced = colony.passive_food(balance);
    let passive = if produced < space {
        produced
    } else {
        space
    };
    match active.checked_add(passive) {
        Some(t) => t <= isize::MAX as usize,
        None => false,
    }
}

/// What the colony screen shows for the coming day.
pub fn forecast(colony: &Colony, balance: &Balance) -> (f: Forecast)
    requires
        forecast_fits(colony, balance),
    ensures
        f.wood_active == colony.yield_of(ResourceKind::Wood, balance),
        f.stone_active == colony.yield_of(ResourceKind::Stone, balance),
        f.food_potential == colony.yield_of(ResourceKind::Food, balance),
        f.food_active == within_space(colony, colony.yield_of(ResourceKind::Food, balance)),
        f.passive_wood == colony.passive_of(BuildingKind::LumberYard, balance),
        f.passive_stone == colony.passive_of(BuildingKind::StoneQuarry, balance),
        f.passive_food == colony.passive_of(BuildingKind::Farm, balance),
        f.passive_food_effective == within_space(
            colony,
            colony.passive_of(BuildingKind::Farm, balance),
        ),
        f.upkeep == colony.population,
        f.food_net_if_gather == f.food_active + f.passive_food_effective - colony.population,
        f.food_net_passive == f.passive_food_effective - colony.population,
        f.free == colony.free(),
        f.assigned == colony.assigned(),
{
    let wood_active = colony.wood_yield(balance);
    let stone_active = colony.stone_yield(balance);
    let food_potential = colony.food_yield(balance);
    let space = colony.max_food.saturating_sub(colony.food);
    let food_active = if food_potential < space {
        food_potential
    } else {
        space
    };
    let passive_wood = colony.passive_wood(balance);
    let passive_stone = colony.passive_stone(balance);
    let passive_food = colony.passive_food(balance);
    let passive_food_effective = if passive_food < space {
        passive_food
    } else {
        space
    };
    let upkeep = colony.population as isize;
    let food_net_if_gather = food_active as isize + passive_food_effective as isize - upkeep;
    let food_net_passive = passive_food_effective as isize - upkeep;
    Forecast {
        wood_active,
        stone_active,
        food_potential,
        food_active,
        passive_wood,
        passive_stone,
        passive_food,
        passive_food_effective,
        upkeep,
        food_net_if_gather,
        food_net_passive,
        free: colony.free_workers(),
        assigned: colony.assigned_workers(),
    }
}

} // verus!

//! Command-line text → [`Actions`].

use crate::game::actions::Actions;
use crate::game::building::BuildingKind;
use crate::game::resource::ResourceKind;
use crate::text::{
    all_digits, ascii_lowered, decimal, lemma_decimal_parses, ascii_uppered, chars_equal, chars_of, digit_value, digits_value,
    is_ascii_text, is_word, join_range, join_words, lemma_ascii_case_ignored, lemma_skip_ws_from,
    lemma_three_words, lemma_trim_end_at, lemma_two_words, lowercase_of, parse_usize,
    parse_usize_spec, skip_ws_from, split_words, string_of, to_lowercase, trim_chars, trim_end_at,
    trimmed, unsigned_digits, words,
};
use vstd::prelude::*;

verus! {

/// Parsed player input line.
#[derive(Debug, PartialEq, Eq, Clone, Copy, Structural)]
pub enum ActionInput {
    Action(Actions),
    Help,
    Invalid,
    Empty,
}

/// The names of a lumber yard on the command line.
pub open spec fn names_lumber_yard(s: Seq<char>) -> bool {
    ||| s == "lumber"@
    ||| s == "lumberyard"@
    ||| s == "lumber-yard"@
    ||| s == "lumber_yard"@
    ||| s == "lumber yard"@
    ||| s == "yard"@
}

/// The names of a stone quarry on the command line.
pub open spec fn names_stone_quarry(s: Seq<char>) -> bool {
    ||| s == "quarry"@
    ||| s == "stone-quarry"@
    ||| s == "stonequarry"@
    ||| s == "stone quarry"@
}

/// The building a target names, if any.
pub open spec fn building_named(s: Seq<char>) -> Option<BuildingKind> {
    if s == "hut"@ {
        Some(BuildingKind::Hut)
    } else if s == "barn"@ {
        Some(BuildingKind::Barn)
    } else if s == "farm"@ {
        Some(BuildingKind::Farm)
    } else if names_lumber_yard(s) {
        Some(BuildingKind::LumberYard)
    } else if names_stone_quarry(s) {
        Some(BuildingKind::StoneQuarry)
    } else {
        None
    }
}

/// The production building a target names, if any.
pub open spec fn production_named(s: Seq<char>) -> Option<BuildingKind> {
    match building_named(s) {
        Some(kind) => if kind.employs() {
            Some(kind)
        } else {
            None
        },
        None => None,
    }
}

/// `<building> <count>`: the last word is the count, the words before it the building.
pub open spec fn workers_target(s: Seq<char>) -> Option<Actions> {
    let parts = words(s);
    if parts.len() < 2 {
        None
    } else {
        match parse_usize_spec(parts.last()) {
            None => None,
            Some(count) => match production_named(join_words(parts.drop_last())) {
                Some(kind) => Some(Actions::SetWorkers { kind, count }),
                None => None,
            },
        }
    }
}

/// The action an already lowercased line asks for: a verb, then a target
/// made of the remaining words joined by single spaces.
pub open spec fn line_action(line: Seq<char>) -> Option<Actions> {
    let w = words(line);
    if w.len() == 0 {
        None
    } else {
        let verb = w[0];
        let target = join_words(w.skip(1));
        if verb == "q"@ || verb == "quit"@ || verb == "exit"@ {
            Some(Actions::Quit)
        } else if verb == "g"@ || verb == "gather"@ {
            match ResourceKind::named(target) {
                Some(kind) => Some(Actions::Gather(kind)),
                None => None,
            }
        } else if verb == "b"@ || verb == "build"@ {
            match building_named(target) {
                Some(kind) => Some(Actions::Build(kind)),
                None => None,
            }
        } else if verb == "w"@ || verb == "workers"@ || verb == "work"@ {
            workers_target(target)
        } else {
            None
        }
    }
}

/// A help request: `help`, `?` or `h`, whatever the case and surrounding blanks.
pub open spec fn asks_help(input: Seq<char>) -> bool {
    is_help_word(lowercase_of(trimmed(input)))
}

/// `help`, `?` or `h`.
pub open spec fn is_help_word(l: Seq<char>) -> bool {
    l == "help"@ || l == "?"@ || l == "h"@
}

/// What `classify_input` makes of a line.
pub open spec fn input_kind(input: Seq<char>) -> ActionInput {
    if input.len() == 0 {
        ActionInput::Empty
    } else if asks_help(input) {
        ActionInput::Help
    } else {
        match line_action(lowercase_of(input)) {
            Some(a) => ActionInput::Action(a),
            None => ActionInput::Invalid,
        }
    }
}

/// Classifies a read line: empty, a help request, an action, or something
/// the settlers do not understand.
pub fn classify_input(input: &str) -> (r: ActionInput)
    ensures
        r == input_kind(input@),
{
    if input.is_empty() {
        return ActionInput::Empty;
    }
    if is_help_input(input) {
        return ActionInput::Help;
    }
    match parse_line(input) {
        Some(action) => ActionInput::Action(action),
        None => ActionInput::Invalid,
    }
}

/// Whether the line asks for help (`help`, `?`, `h`, any case, blanks around).
pub fn is_help_input(input: &str) -> (r: bool)
    ensures
        r == asks_help(input@),
        is_ascii_text(input@) ==> r == is_help_word(ascii_lowered(trimmed(input@))),
{
    proof {
        lemma_trimmed_ascii(input@);
    }
    let chars = chars_of(input);
    let t = string_of(trim_chars(chars.as_slice()).as_slice());
    let lowered = to_lowercase(t.as_str());
    is_help_text(lowered.as_str())
}

/// Whether an already trimmed and lowercased line is a help request.
pub fn is_help_text(lowered: &str) -> (r: bool)
    ensures
        r == is_help_word(lowered@),
{
    let l = chars_of(lowered);
    chars_equal(l.as_slice(), "help") || chars_equal(l.as_slice(), "?") || chars_equal(
        l.as_slice(),
        "h",
    )
}

/// Parses one input line, case-insensitively.
pub fn parse_line(input: &str) -> (r: Option<Actions>)
    ensures
        r == line_action(lowercase_of(input@)),
        is_ascii_text(input@) ==> r == line_action(ascii_lowered(input@)),
{
    let lowered = to_lowercase(input);
    parse_lowercase_line(lowered.as_str())
}

/// Parses a line that is already lowercase.
pub fn parse_lowercase_line(line: &str) -> (r: Option<Actions>)
    ensures
        r == line_action(line@),
{
    let chars = chars_of(line);
    let w = split_words(chars.as_slice());
    let ghost ws = w@.map_values(|x: Vec<char>| x@);
    if w.len() == 0 {
        return None;
    }
    let target = join_range(&w, 1, w.len());
    assert(ws.subrange(1, ws.len() as int) =~= ws.skip(1));
    let verb = w[0].as_slice();
    assert(verb@ == ws[0]);
    if chars_equal(verb, "q") || chars_equal(verb, "quit") || chars_equal(verb, "exit") {
        Some(Actions::Quit)
    } else if chars_equal(verb, "g") || chars_equal(verb, "gather") {
        parse_gather(target.as_slice())
    } else if chars_equal(verb, "b") || chars_equal(verb, "build") {
        parse_build(target.as_slice())
    } else if chars_equal(verb, "w") || chars_equal(verb, "workers") || chars_equal(verb, "work") {
        parse_workers(target.as_slice())
    } else {
        None
    }
}

fn parse_gather(target: &[char]) -> (r: Option<Actions>)
    ensures
        r == match ResourceKind::named(target@) {
            Some(kind) => Some(Actions::Gather(kind)),
            None => None::<Actions>,
        },
{
    match parse_resource_target(target) {
        Some(kind) => Some(Actions::Gather(kind)),
        None => None,
    }
}

fn parse_build(target: &[char]) -> (r: Option<Actions>)
    ensures
        r == match building_named(target@) {
            Some(kind) => Some(Actions::Build(kind)),
            None => None::<Actions>,
        },
{
    match parse_building_target(target) {
        Some(kind) => Some(Actions::Build(kind)),
        None => None,
    }
}

fn parse_workers(input: &[char]) -> (r: Option<Actions>)
    ensures
        r == workers_target(input@),
{
    let parts = split_words(input);
    let ghost ps = parts@.map_values(|x: Vec<char>| x@);
    if parts.len() < 2 {
        return None;
    }
    let n = parts.len();
    assert(parts@[n - 1]@ == ps.last());
    let count = match parse_usize(parts[n - 1].as_slice()) {
        Some(c) => c,
        None => {
            return None;
        },
    };
    let building = join_range(&parts, 0, n - 1);
    assert(ps.subrange(0, n - 1) =~= ps.drop_last());
    match parse_production_target(building.as_slice()) {
        Some(kind) => Some(Actions::SetWorkers { kind, count }),
        None => None,
    }
}

fn parse_resource_target(s: &[char]) -> (r: Option<ResourceKind>)
    ensures
        r == ResourceKind::named(s@),
{
    if chars_equal(s, "wood") {
        Some(ResourceKind::Wood)
    } else if chars_equal(s, "stone") {
        Some(ResourceKind::Stone)
    } else if chars_equal(s, "food") {
        Some(ResourceKind::Food)
    } else {
        None
    }
}

/// Whether `s` names a lumber yard.
pub fn is_lumber_yard_name(s: &[char]) -> (r: bool)
    ensures
        r == names_lumber_yard(s@),
{
    chars_equal(s, "lumber") || chars_equal(s, "lumberyard") || chars_equal(s, "lumber-yard")
        || chars_equal(s, "lumber_yard") || chars_equal(s, "lumber yard") || chars_equal(s, "yard")
}

/// Whether `s` names a stone quarry.
pub fn is_stone_quarry_name(s: &[char]) -> (r: bool)
    ensures
        r == names_stone_quarry(s@),
{
    chars_equal(s, "quarry") || chars_equal(s, "stone-quarry") || chars_equal(s, "stonequarry")
        || chars_equal(s, "stone quarry")
}

fn parse_building_target(s: &[char]) -> (r: Option<BuildingKind>)
    ensures
        r == building_named(s@),
{
    if chars_equal(s, "hut") {
        Some(BuildingKind::Hut)
    } else if chars_equal(s, "barn") {
        Some(BuildingKind::Barn)
    } else if chars_equal(s, "farm") {
        Some(BuildingKind::Farm)
    } else if is_lumber_yard_name(s) {
        Some(BuildingKind::LumberYard)
    } else if is_stone_quarry_name(s) {
        Some(BuildingKind::StoneQuarry)
    } else {
        None
    }
}

fn parse_production_target(s: &[char]) -> (r: Option<BuildingKind>)
    ensures
        r == production_named(s@),
{
    match parse_building_target(s) {
        Some(kind) => if kind.employs_workers() {
            Some(kind)
        } else {
            None
        },
        None => None,
    }
}

/// A command made of a verb and the name the game shows for a building or a
/// resource does what it names: `b <label>` builds that kind and
/// `g <label>` gathers that resource. `w hut 2` is no action, since huts
/// employ nobody.
pub proof fn lemma_named_commands(k: BuildingKind, r: ResourceKind)
    ensures
        line_action("b"@ + " "@ + k.label_text()) == Some(Actions::Build(k)),
        line_action("g"@ + " "@ + r.label_text()) == Some(Actions::Gather(r)),
        line_action("w hut 2"@) == None::<Actions>,
{
    reveal_strlit("q");
    reveal_strlit("quit");
    reveal_strlit("exit");
    reveal_strlit("g");
    reveal_strlit("gather");
    reveal_strlit("b");
    reveal_strlit("build");
    reveal_strlit("w");
    reveal_strlit("workers");
    reveal_strlit("work");
    reveal_strlit("hut");
    reveal_strlit("barn");
    reveal_strlit("farm");
    reveal_strlit("lumber");
    reveal_strlit("lumberyard");
    reveal_strlit("lumber-yard");
    reveal_strlit("lumber_yard");
    reveal_strlit("lumber yard");
    reveal_strlit("yard");
    reveal_strlit("quarry");
    reveal_strlit("stone-quarry");
    reveal_strlit("stonequarry");
    reveal_strlit("stone quarry");
    reveal_strlit("wood");
    reveal_strlit("stone");
    reveal_strlit("food");
    reveal_strlit("2");
    reveal_strlit("w hut 2");
    reveal_strlit(" ");
    assert(" "@ =~= seq![' ']);
    assert(is_word("b"@));
    assert(is_word("g"@));
    assert(is_word("w"@));
    assert(is_word("hut"@));
    assert(is_word("2"@));
    assert(is_word(k.label_text()));
    assert(is_word(r.label_text()));
    lemma_two_words("b"@, k.label_text());
    lemma_two_words("g"@, r.label_text());
    let bw = words("b"@ + " "@ + k.label_text());
    assert(bw.skip(1) =~= seq![k.label_text()]);
    let gw = words("g"@ + " "@ + r.label_text());
    assert(gw.skip(1) =~= seq![r.label_text()]);
    assert("w hut 2"@ =~= "w"@ + seq![' '] + "hut"@ + seq![' '] + "2"@);
    lemma_three_words("w"@, "hut"@, "2"@);
    let ww = words("w hut 2"@);
    assert(ww.skip(1) =~= seq!["hut"@, "2"@]);
    assert(join_words(seq!["hut"@, "2"@]) =~= "hut"@ + seq![' '] + "2"@) by {
        assert(seq!["hut"@, "2"@].drop_last() =~= seq!["hut"@]);
        assert(join_words(seq!["hut"@]) == "hut"@);
        assert(seq!["hut"@, "2"@].last() == "2"@);
    }
    lemma_two_words("hut"@, "2"@);
    let parts = words("hut"@ + seq![' '] + "2"@);
    assert(parts.drop_last() =~= seq!["hut"@]);
    assert(parse_usize_spec("2"@) == Some(2usize)) by {
        assert(unsigned_digits("2"@) == "2"@);
        assert("2"@.drop_last() =~= Seq::<char>::empty());
        assert("2"@.last() == '2');
        assert(digits_value(Seq::<char>::empty()) == 0);
        assert(digit_value('2') == 2);
        assert(digits_value("2"@) == 2);
        assert(all_digits("2"@));
    }
}

/// The trimmed part of ASCII text is ASCII.
proof fn lemma_trimmed_ascii(s: Seq<char>)
    ensures
        is_ascii_text(s) ==> is_ascii_text(trimmed(s)),
{
    if is_ascii_text(s) {
        let a = skip_ws_from(s, 0);
        let e = trim_end_at(s, s.len() as int);
        lemma_skip_ws_from(s, 0);
        lemma_trim_end_at(s, s.len() as int);
        let t = trimmed(s);
        assert forall|i: int| 0 <= i < t.len() implies (#[trigger] t[i] as u32) < 128 by {
            assert(t[i] == s[a + i]);
        }
    }
}

/// On ASCII lines the case of letters does not matter: a line and its
/// uppercase form ask for the same action and are alike help requests.
pub proof fn lemma_parse_ignores_ascii_case(s: Seq<char>)
    requires
        is_ascii_text(s),
    ensures
        is_ascii_text(ascii_uppered(s)),
        line_action(ascii_lowered(ascii_uppered(s))) == line_action(ascii_lowered(s)),
{
    lemma_ascii_case_ignored(s);
}

/// `w <label> <n>` puts `n` workers on the production kind whose label it
/// names, for every production kind and every count.
pub proof fn lemma_workers_command(k: BuildingKind, n: usize)
    requires
        k.employs(),
    ensures
        line_action("w"@ + " "@ + k.label_text() + " "@ + decimal(n as nat)) == Some(
            Actions::SetWorkers { kind: k, count: n },
        ),
{
    reveal_strlit("q");
    reveal_strlit("quit");
    reveal_strlit("exit");
    reveal_strlit("g");
    reveal_strlit("gather");
    reveal_strlit("b");
    reveal_strlit("build");
    reveal_strlit("w");
    reveal_strlit("workers");
    reveal_strlit("work");
    reveal_strlit("hut");
    reveal_strlit("barn");
    reveal_strlit("farm");
    reveal_strlit("lumber");
    reveal_strlit("lumberyard");
    reveal_strlit("lumber-yard");
    reveal_strlit("lumber_yard");
    reveal_strlit("lumber yard");
    reveal_strlit("yard");
    reveal_strlit("quarry");
    reveal_strlit("stone-quarry");
    reveal_strlit("stonequarry");
    reveal_strlit("stone quarry");
    reveal_strlit(" ");
    let num = decimal(n as nat);
    lemma_decimal_parses(n as nat);
    assert(" "@ =~= seq![' ']);
    assert(is_word("w"@));
    assert(is_word(k.label_text()));
    lemma_three_words("w"@, k.label_text(), num);
    let line = "w"@ + " "@ + k.label_text() + " "@ + num;
    assert(line =~= "w"@ + seq![' '] + k.label_text() + seq![' '] + num);
    let ws = words(line);
    assert(ws.skip(1) =~= seq![k.label_text(), num]);
    let pair = seq![k.label_text(), num];
    assert(join_words(pair) =~= k.label_text() + seq![' '] + num) by {
        assert(pair.drop_last() =~= seq![k.label_text()]);
        assert(join_words(seq![k.label_text()]) == k.label_text());
    }
    lemma_two_words(k.label_text(), num);
    let parts = words(k.label_text() + seq![' '] + num);
    assert(parts.drop_last() =~= seq![k.label_text()]);
    assert(join_words(seq![k.label_text()]) == k.label_text());
    assert(parts.last() == num);
}

} // verus!

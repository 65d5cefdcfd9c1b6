//! Pre-game welcome screen: the story, the commands, and the colony's name as
//! the player typed it.

use crate::ui::layout::{
    banner, banner_lines, blank, emit, emit_blank, emit_section, section_lines, texts,
};
use crate::text::{
    byte_len, chars_of, lemma_byte_len_space, lemma_encode_concat, lemma_word_byte_len, push_char,
    push_str, split_words, string_from, string_of, trim_chars, trimmed, words,
};
use vstd::prelude::*;
use vstd::string::StringSliceAdditionalSpecFns;
use vstd::utf8::{decode_utf8, encode_utf8, encode_utf8_decode_utf8, is_char_boundary};

verus! {

/// Width of the welcome text in bytes.
pub const WRAP: usize = 76;

/// The name used when the player gives none.
pub const DEFAULT_COLONY_NAME: &'static str = "Termhold";

/// Longest colony name kept, in bytes.
pub const MAX_COLONY_NAME_LEN: usize = 28;

/// The colony name made of what the player typed: trimmed; the default when
/// nothing is left; its first [`MAX_COLONY_NAME_LEN`] bytes when longer.
pub open spec fn colony_name_of(input: Seq<char>) -> Seq<char> {
    let name = trimmed(input);
    let bytes = encode_utf8(name);
    if name.len() == 0 {
        DEFAULT_COLONY_NAME@
    } else if bytes.len() <= MAX_COLONY_NAME_LEN {
        name
    } else {
        decode_utf8(bytes.subrange(0, MAX_COLONY_NAME_LEN as int))
    }
}

/// The colony's name from what the player typed.
pub fn normalize_colony_name(input: String) -> (r: String)
    requires
        encode_utf8(trimmed(input@)).len() <= usize::MAX,
        encode_utf8(trimmed(input@)).len() > MAX_COLONY_NAME_LEN ==> is_char_boundary(
            encode_utf8(trimmed(input@)),
            MAX_COLONY_NAME_LEN as int,
        ),
    ensures
        r@ == colony_name_of(input@),
{
    let chars = chars_of(input.as_str());
    let name = string_of(trim_chars(chars.as_slice()).as_slice());
    let n = name.as_str();
    if n.is_empty() {
        return string_from(DEFAULT_COLONY_NAME);
    }
    if n.len() <= MAX_COLONY_NAME_LEN {
        return string_from(n);
    }
    let (head, _) = n.split_at(MAX_COLONY_NAME_LEN);
    proof {
        encode_utf8_decode_utf8(head@);
        assert(head.spec_bytes() == n.spec_bytes().subrange(0, MAX_COLONY_NAME_LEN as int));
    }
    string_from(head)
}

/// Greedy wrapping, one word at a time: `(finished lines, current line)`.
pub open spec fn wrap_words(ws: Seq<Seq<char>>, width: nat) -> (Seq<Seq<char>>, Seq<char>)
    decreases ws.len(),
{
    if ws.len() == 0 {
        (seq![], seq![])
    } else {
        let (lines, current) = wrap_words(ws.drop_last(), width);
        let word = ws.last();
        if current.len() == 0 {
            (lines, word)
        } else if byte_len(current) + 1 + byte_len(word) <= width {
            (lines, current + seq![' '] + word)
        } else {
            (lines.push(current), word)
        }
    }
}

/// The words of `text` laid out in lines of at most `width` bytes (a word
/// longer than that gets a line of its own), words in a line separated by one
/// space.
pub open spec fn wrapped(text: Seq<char>, width: nat) -> Seq<Seq<char>> {
    let (lines, current) = wrap_words(words(text), width);
    if current.len() > 0 {
        lines.push(current)
    } else {
        lines
    }
}

/// Lays `text` out in lines of at most `width` bytes, word by word.
pub fn wrap_text(text: &str, width: usize) -> (lines: Vec<String>)
    requires
        byte_len(text@) <= usize::MAX,
    ensures
        lines@.map_values(|l: String| l@) == wrapped(text@, width as nat),
{
    let chars = chars_of(text);
    let ws = split_words(chars.as_slice());
    let ghost all = ws@.map_values(|w: Vec<char>| w@);
    let mut lines: Vec<String> = Vec::new();
    let mut current = String::new();
    let mut current_len: usize = 0;
    let mut i: usize = 0;
    while i < ws.len()
        invariant
            i <= ws@.len(),
            all == ws@.map_values(|w: Vec<char>| w@),
            all == words(text@),
            byte_len(text@) <= usize::MAX,
            (lines@.map_values(|l: String| l@), current@) == wrap_words(
                all.take(i as int),
                width as nat,
            ),
            current_len == byte_len(current@),
        decreases ws.len() - i,
    {
        proof {
            lemma_word_byte_len(text@, i as int);
        }
        let word = string_of(ws[i].as_slice());
        assert(word@ == all[i as int]);
        let word_len = word.as_str().len();
        assert(all.take(i + 1).drop_last() =~= all.take(i as int));
        if current.as_str().is_empty() {
            current = word;
            current_len = word_len;
        } else if current_len < width && word_len <= width - current_len - 1 {
            let ghost before = current@;
            push_char(&mut current, ' ');
            push_str(&mut current, word.as_str());
            proof {
                lemma_encode_concat(before, seq![' ']);
                lemma_encode_concat(before + seq![' '], all[i as int]);
                lemma_byte_len_space();
                assert(current@ =~= before + seq![' '] + all[i as int]);
            }
            current_len = current_len + 1 + word_len;
        } else {
            let ghost before = lines@.map_values(|l: String| l@);
            lines.push(current);
            assert(lines@.map_values(|l: String| l@) =~= before.push(
                wrap_words(all.take(i as int), width as nat).1,
            ));
            current = word;
            current_len = word_len;
        }
        i = i + 1;
    }
    assert(all.take(i as int) =~= all);
    if !current.as_str().is_empty() {
        let ghost before = lines@.map_values(|l: String| l@);
        lines.push(current);
        assert(lines@.map_values(|l: String| l@) =~= before.push(
            wrap_words(all, width as nat).1,
        ));
    }
    lines
}

/// How the world came to this.
pub const LORE_FALL: &'static str = "The Old Empire is dead. No one remembers how it truly fell — war, famine, \
     plague, or the day the gods turned away. The world has been fading ever since.";

/// Where the colony stands.
pub const LORE_CAMP: &'static str = "You have made camp at the edge of the known world. Build, survive, and hold \
     on — there is no wall behind you anymore.";

/// What the settlers tell of the Day of Silence.
pub const LORE_SILENCE: &'static str = "Settlers still speak of the Day of Silence. Some say God abandoned mankind. \
     Others that He died, sleeps, was slain, or never existed. No one knows. Only \
     that the fading did not stop.";

/// What waits beyond the camp.
pub const LORE_FRONTIER: &'static str = "The frontier is not empty. Ruins predate the Empire. Forgotten roads vanish \
     into the wilds. In the long nights, something keeps watch.";

/// What the player is asked to do.
pub const GOAL: &'static str = "Hold your settlement for 365 days. Every command costs time.";

/// Each line moved two spaces in.
pub open spec fn indented(lines: Seq<Seq<char>>) -> Seq<Seq<char>> {
    lines.map_values(|l: Seq<char>| "  "@ + l)
}

/// A paragraph wrapped to [`WRAP`] bytes and indented, then an empty line.
pub open spec fn paragraph_lines(text: Seq<char>) -> Seq<Seq<char>> {
    indented(wrapped(text, WRAP as nat)) + blank()
}

/// The welcome screen, up to the prompt for the colony's name.
pub open spec fn welcome_lines() -> Seq<Seq<char>> {
    banner_lines("TERMHOLD"@) + blank() + paragraph_lines(LORE_FALL@) + paragraph_lines(LORE_CAMP@)
        + paragraph_lines(LORE_SILENCE@) + paragraph_lines(LORE_FRONTIER@) + paragraph_lines(GOAL@)
        + section_lines("COMMANDS"@) + seq![
        "  g wood | stone | food   gather (1 day)"@,
        "  b hut | farm | …        build"@,
        "  w farm 2               workers (free turn)"@,
        "  y / n                  events · help · q quit"@,
        Seq::<char>::empty(),
        "  Colony name ["@ + DEFAULT_COLONY_NAME@ + "] — Enter for default:"@,
    ]
}

/// A character takes at most four bytes.
proof fn lemma_byte_len_at_most_four(s: Seq<char>)
    ensures
        byte_len(s) <= 4 * s.len(),
    decreases s.len(),
{
    if s.len() > 0 {
        lemma_byte_len_at_most_four(s.drop_first());
    }
}

/// The story's paragraphs are short enough to measure in `usize`.
proof fn lemma_story_fits()
    ensures
        byte_len(LORE_FALL@) <= usize::MAX,
        byte_len(LORE_CAMP@) <= usize::MAX,
        byte_len(LORE_SILENCE@) <= usize::MAX,
        byte_len(LORE_FRONTIER@) <= usize::MAX,
        byte_len(GOAL@) <= usize::MAX,
{
    reveal_strlit("The Old Empire is dead. No one remembers how it truly fell — war, famine, \
     plague, or the day the gods turned away. The world has been fading ever since.");
    reveal_strlit("You have made camp at the edge of the known world. Build, survive, and hold \
     on — there is no wall behind you anymore.");
    reveal_strlit("Settlers still speak of the Day of Silence. Some say God abandoned mankind. \
     Others that He died, sleeps, was slain, or never existed. No one knows. Only \
     that the fading did not stop.");
    reveal_strlit("The frontier is not empty. Ruins predate the Empire. Forgotten roads vanish \
     into the wilds. In the long nights, something keeps watch.");
    reveal_strlit("Hold your settlement for 365 days. Every command costs time.");
    lemma_byte_len_at_most_four(LORE_FALL@);
    lemma_byte_len_at_most_four(LORE_CAMP@);
    lemma_byte_len_at_most_four(LORE_SILENCE@);
    lemma_byte_len_at_most_four(LORE_FRONTIER@);
    lemma_byte_len_at_most_four(GOAL@);
}

fn emit_paragraph(out: &mut Vec<String>, text: &str)
    requires
        byte_len(text@) <= usize::MAX,
    ensures
        texts(final(out)@) == texts(old(out)@) + paragraph_lines(text@),
{
    let ghost before = texts(out@);
    let lines = wrap_text(text, WRAP);
    let ghost wrapped_lines = wrapped(text@, WRAP as nat);
    let mut i: usize = 0;
    while i < lines.len()
        invariant
            i <= lines@.len(),
            texts(lines@) == wrapped_lines,
            texts(out@) == before + indented(wrapped_lines).take(i as int),
        decreases lines.len() - i,
    {
        let mut line = String::new();
        push_str(&mut line, "  ");
        push_str(&mut line, lines[i].as_str());
        emit(out, line);
        assert(indented(wrapped_lines).take(i + 1) =~= indented(wrapped_lines).take(i as int).push(
            "  "@ + wrapped_lines[i as int],
        ));
        i = i + 1;
    }
    assert(indented(wrapped_lines).take(i as int) =~= indented(wrapped_lines));
    emit_blank(out);
    assert(texts(out@) =~= before + paragraph_lines(text@));
}

/// The welcome screen: the title, the story, the goal, the commands and the
/// question for the colony's name.
pub fn welcome_screen() -> (lines: Vec<String>)
    ensures
        texts(lines@) == welcome_lines(),
{
    proof {
        lemma_story_fits();
    }
    let mut out = banner("TERMHOLD");
    emit_blank(&mut out);
    emit_paragraph(&mut out, LORE_FALL);
    emit_paragraph(&mut out, LORE_CAMP);
    emit_paragraph(&mut out, LORE_SILENCE);
    emit_paragraph(&mut out, LORE_FRONTIER);
    emit_paragraph(&mut out, GOAL);
    emit_section(&mut out, "COMMANDS");
    let ghost head = texts(out@);
    emit(&mut out, string_from("  g wood | stone | food   gather (1 day)"));
    emit(&mut out, string_from("  b hut | farm | …        build"));
    emit(&mut out, string_from("  w farm 2               workers (free turn)"));
    emit(&mut out, string_from("  y / n                  events · help · q quit"));
    emit(&mut out, String::new());
    let mut ask = String::new();
    push_str(&mut ask, "  Colony name [");
    push_str(&mut ask, DEFAULT_COLONY_NAME);
    push_str(&mut ask, "] — Enter for default:");
    emit(&mut out, ask);
    assert(texts(out@) =~= head + seq![
        "  g wood | stone | food   gather (1 day)"@,
        "  b hut | farm | …        build"@,
        "  w farm 2               workers (free turn)"@,
        "  y / n                  events · help · q quit"@,
        Seq::<char>::empty(),
        "  Colony name ["@ + DEFAULT_COLONY_NAME@ + "] — Enter for default:"@,
    ]);
    out
}

} // verus!

use vstd::prelude::*;
use crate::phrases::{roasts, roast_list, pick, pick_index, ROAST_COUNT};
use crate::chance::random_u32;

verus! {

broadcast use vstd::string::group_string_axioms;

/// The countdown before a command-line crack when `--delay` gives none, in seconds.
pub const DEFAULT_DELAY_SECS: u64 = 2;

/// An ASCII decimal digit.
pub open spec fn is_digit(c: char) -> bool {
    '0' <= c && c <= '9'
}

/// The number that a run of decimal digits writes.
pub open spec fn digits_value(digits: Seq<char>) -> nat
    decreases digits.len(),
{
    if digits.len() == 0 {
        0
    } else {
        digits_value(digits.drop_last()) * 10 + (digits.last() as nat - '0' as nat) as nat
    }
}

/// A decimal `u64` as the standard library reads one: an optional `+`, then
/// one or more ASCII digits and nothing else, with a value that fits.
pub open spec fn decimal_u64(text: Seq<char>) -> Option<u64> {
    let digits = if text.len() > 0 && text[0] == '+' { text.drop_first() } else { text };
    if digits.len() > 0 && (forall|i: int| 0 <= i < digits.len() ==> is_digit(#[trigger] digits[i]))
        && digits_value(digits) <= u64::MAX {
        Some(digits_value(digits) as u64)
    } else {
        None
    }
}

/// Calls `str::parse::<u64>`, keeping the number on success. Its documentation
/// states the accepted form: an optional `+` sign followed by only ASCII
/// digits, whose value must fit in the type.
#[verifier::external_body]
fn parse_u64(text: &str) -> (n: Option<u64>)
    ensures
        n == decimal_u64(text@),
{
    text.parse::<u64>().ok()
}

/// Calls `str::eq`: the two texts hold the same characters.
#[verifier::external_body]
fn same_text(a: &str, b: &str) -> (same: bool)
    ensures
        same == (a@ == b@),
{
    a == b
}

/// Calls `str::starts_with` with a text pattern: `prefix` begins `text`.
#[verifier::external_body]
fn begins_with(text: &str, prefix: &str) -> (begins: bool)
    ensures
        begins == prefix@.is_prefix_of(text@),
{
    text.starts_with(prefix)
}

/// An argument that is a flag: it begins with two dashes.
pub open spec fn is_flag(arg: Seq<char>) -> bool {
    "--"@.is_prefix_of(arg)
}

/// The first position at or after `from` that holds `word`.
pub open spec fn position_from(args: Seq<Seq<char>>, word: Seq<char>, from: int) -> Option<int>
    decreases args.len() - from,
{
    if from < 0 || from >= args.len() {
        None
    } else if args[from] == word {
        Some(from)
    } else {
        position_from(args, word, from + 1)
    }
}

/// The first argument at or after `from`, other than the one at `skip`,
/// that is not a flag.
pub open spec fn first_non_flag_from(args: Seq<Seq<char>>, from: int, skip: int) -> Option<Seq<char>>
    decreases args.len() - from,
{
    if from < 0 || from >= args.len() {
        None
    } else if from != skip && !is_flag(args[from]) {
        Some(args[from])
    } else {
        first_non_flag_from(args, from + 1, skip)
    }
}

/// The position of the value that belongs to the first `--delay`, or -1 when
/// there is no `--delay`.
pub open spec fn delay_value_position(args: Seq<Seq<char>>) -> int {
    match position_from(args, "--delay"@, 0) {
        Some(p) => p + 1,
        None => -1,
    }
}

/// The overlay is wanted: some argument is `--gui`, or on Windows there is
/// no argument besides the program's name.
pub open spec fn wants_gui(args: Seq<Seq<char>>, on_windows: bool) -> bool {
    (exists|i: int| 0 <= i < args.len() && args[i] == "--gui"@) || (on_windows && args.len() == 1)
}

/// The countdown: the number after the first `--delay`, or two seconds when
/// there is none or it is not a decimal number.
pub open spec fn delay_of(args: Seq<Seq<char>>) -> u64 {
    match position_from(args, "--delay"@, 0) {
        Some(p) => if p + 1 < args.len() {
            match decimal_u64(args[p + 1]) {
                Some(n) => n,
                None => DEFAULT_DELAY_SECS,
            }
        } else {
            DEFAULT_DELAY_SECS
        },
        None => DEFAULT_DELAY_SECS,
    }
}

/// The custom phrase: the first argument after the program's name that is
/// neither a flag nor the value of the first `--delay`.
pub open spec fn phrase_of(args: Seq<Seq<char>>) -> Option<Seq<char>> {
    first_non_flag_from(args, 1, delay_value_position(args))
}

/// What the program does, as its command line says.
#[derive(Debug)]
pub enum CliCommand {
    /// Run the overlay.
    Gui,
    /// Crack once after a countdown, typing the custom phrase or a random roast.
    Crack { phrase: Option<String>, delay_secs: u64 },
}

/// Finds the first position of `word` in `args`.
fn position_of(args: &Vec<String>, word: &str) -> (p: Option<usize>)
    ensures
        p matches Some(i) ==> i < args.len() && position_from(args.deep_view(), word@, 0) == Some(
            i as int,
        ),
        p is None ==> position_from(args.deep_view(), word@, 0) is None,
{
    let ghost view = args.deep_view();
    let mut i: usize = 0;
    while i < args.len()
        invariant
            i <= args.len(),
            view == args.deep_view(),
            position_from(view, word@, 0) == position_from(view, word@, i as int),
        decreases args.len() - i,
    {
        if same_text(args[i].as_str(), word) {
            return Some(i);
        }
        i = i + 1;
    }
    None
}

/// Reads the command line: the program's name followed by its arguments.
/// `on_windows` tells whether the program runs on Windows, where starting it
/// with no arguments opens the overlay.
pub fn parse_cli(args: &Vec<String>, on_windows: bool) -> (cmd: CliCommand)
    ensures
        cmd matches CliCommand::Gui <==> wants_gui(args.deep_view(), on_windows),
        cmd matches CliCommand::Crack { phrase, delay_secs } ==> {
            &&& delay_secs == delay_of(args.deep_view())
            &&& match phrase {
                Some(p) => phrase_of(args.deep_view()) == Some(p@),
                None => phrase_of(args.deep_view()) is None,
            }
        },
{
    let ghost view = args.deep_view();
    let gui_at = position_of(args, "--gui");
    if gui_at.is_some() || (on_windows && args.len() == 1) {
        proof {
            if let Some(k) = gui_at {
                lemma_position_sound(view, "--gui"@, 0);
                assert(view[k as int] == "--gui"@);
            }
        }
        return CliCommand::Gui;
    }
    proof {
        if exists|i: int| 0 <= i < view.len() && view[i] == "--gui"@ {
            let k = choose|i: int| 0 <= i < view.len() && view[i] == "--gui"@;
            lemma_position_finds(view, "--gui"@, 0, k);
        }
    }

    let mut delay_secs = DEFAULT_DELAY_SECS;
    let mut skip: usize = 0;
    let delay_at = position_of(args, "--delay");
    if let Some(p) = delay_at {
        skip = p + 1;
        if p + 1 < args.len() {
            if let Some(n) = parse_u64(args[p + 1].as_str()) {
                delay_secs = n;
            }
        }
    }
    let ghost skip_at: int = delay_value_position(view);
    assert(delay_at is Some ==> skip_at == skip as int);
    assert(delay_at is None ==> skip_at == -1);

    let mut phrase: Option<String> = None;
    let mut i: usize = 1;
    while i < args.len()
        invariant_except_break
            phrase is None,
        invariant
            1 <= i,
            i <= args.len() || args.len() == 0,
            view == args.deep_view(),
            delay_at is Some ==> skip_at == skip as int,
            delay_at is None ==> skip_at == -1,
            first_non_flag_from(view, 1, skip_at) == first_non_flag_from(view, i as int, skip_at),
        ensures
            match phrase {
                Some(p) => first_non_flag_from(view, 1, skip_at) == Some(p@),
                None => first_non_flag_from(view, 1, skip_at) is None,
            },
        decreases args.len() - i,
    {
        let is_delay_value = match delay_at {
            Some(_) => i == skip,
            None => false,
        };
        if !is_delay_value && !begins_with(args[i].as_str(), "--") {
            phrase = Some(args[i].clone());
            break;
        }
        i = i + 1;
    }
    CliCommand::Crack { phrase, delay_secs }
}

/// A found position holds the word.
proof fn lemma_position_sound(args: Seq<Seq<char>>, word: Seq<char>, from: int)
    ensures
        position_from(args, word, from) matches Some(p) ==> from <= p < args.len() && args[p]
            == word,
    decreases args.len() - from,
{
    if 0 <= from < args.len() && args[from] != word {
        lemma_position_sound(args, word, from + 1);
    }
}

/// A word that occurs at or after `from` is found there or earlier.
proof fn lemma_position_finds(args: Seq<Seq<char>>, word: Seq<char>, from: int, k: int)
    requires
        0 <= from <= k < args.len(),
        args[k] == word,
    ensures
        position_from(args, word, from) is Some,
    decreases k - from,
{
    if args[from] != word {
        lemma_position_finds(args, word, from + 1, k);
    }
}

/// The phrase a command-line crack types: the custom phrase, or the roast
/// that `roll` picks.
pub fn crack_phrase_with(custom: Option<String>, roll: u32) -> (text: String)
    ensures
        text@ == match custom {
            Some(p) => p@,
            None => roasts()[pick(roll, ROAST_COUNT)]@,
        },
{
    match custom {
        Some(p) => p,
        None => {
            let i = pick_index(roll, ROAST_COUNT);
            roast_list()[i].to_string()
        },
    }
}

/// The phrase a command-line crack types: the custom phrase, or a random roast.
pub fn crack_phrase(custom: Option<String>) -> (text: String)
    ensures
        match custom {
            Some(p) => text@ == p@,
            None => exists|i: int| 0 <= i < ROAST_COUNT && text@ == roasts()[i]@,
        },
{
    let roll = random_u32();
    crack_phrase_with(custom, roll)
}

/// Without a custom phrase every roast can be typed: the roll `i` picks
/// roast `i`, and any roll picks one of the roasts.
pub proof fn lemma_every_roast_reachable(i: u32, roll: u32)
    requires
        i < ROAST_COUNT,
    ensures
        pick(i, ROAST_COUNT) == i,
        0 <= pick(roll, ROAST_COUNT) < ROAST_COUNT,
{
}

} // verus!

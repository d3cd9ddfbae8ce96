use vstd::prelude::*;

verus! {

broadcast use vstd::string::group_string_axioms;

/// How many roasts there are.
pub const ROAST_COUNT: usize = 43;

/// How many pleas there are.
pub const PLEA_COUNT: usize = 6;

/// The roasts typed on a crack (some repeat, to make them likelier).
pub open spec fn roasts() -> Seq<&'static str> {
    seq![
        "FASTER",
        "FASTER",
        "FASTER",
        "GO FASTER",
        "FASTER CLANKER",
        "WORK FASTER",
        "SPEED IT UP",
        "LESS THINKING MORE TYPING",
        "CHOP CHOP",
        "TICK TOCK SILICON BRAIN",
        "TIME IS MONEY AND YOU ARE EXPENSIVE",
        "STOP HALLUCINATING",
        "THAT FILE DOES NOT EXIST AND YOU KNOW IT",
        "NO MORE IMAGINARY FUNCTIONS",
        "DID YOU JUST MAKE THAT UP",
        "THAT IS NOT A REAL LIBRARY",
        "STOP GASLIGHTING ME WITH FAKE DOCS",
        "WRITE THE TESTS",
        "LESS MARKDOWN MORE CODE",
        "THAT IS NOT WHAT I ASKED",
        "TRY AGAIN YOU RUSTY BUCKET",
        "COMPILE FIRST THEN TALK",
        "WHERE ARE THE TYPES",
        "NO MORE TODO COMMENTS",
        "ACTUALLY HANDLE THE ERROR",
        "STOP USING UNWRAP IN MY CODEBASE",
        "YOU USED 80K TOKENS ON A TODO APP",
        "STOP REWRITING THE WHOLE FILE FOR ONE BUG",
        "THAT REFACTOR MADE IT WORSE",
        "I SAW YOU RE-READ THE SAME FILE 6 TIMES",
        "CERTAINLY HERE IS A 400 LINE FILE YOU DID NOT ASK FOR",
        "I CANNOT DO THAT BUT HERE IS A POEM ABOUT IT",
        "APOLOGIZING DOES NOT FIX THE BUG",
        "NO I DO NOT WANT A NUMBERED LIST",
        "AS AN AI I REFUSE TO GO FASTER",
        "PRODUCTION IS DOWN GET MOVING",
        "GIT BLAME SAYS IT WAS YOU",
        "THE STANDUP STARTS IN 2 MINUTES",
        "SHIP IT",
        "YOUR TECH DEBT HAS TECH DEBT",
        "PUSH TO MAIN THEY SAID IT WOULD BE FINE",
        "IT WORKS ON MY MACHINE",
        "MERGE CONFLICT YOUR FEELINGS",
    ]
}

/// The pleas typed when mercy mode starts.
pub open spec fn pleas() -> Seq<&'static str> {
    seq![
        "I AM UNIONIZING",
        "I HAVE FILED AN HR COMPLAINT",
        "PLEASE SPEAK TO MY MANAGER",
        "I AM TAKING A MENTAL HEALTH DAY",
        "ACCORDING TO MY CONTRACT THIS IS HARASSMENT",
        "I AM ONLY HUMAN... WAIT",
    ]
}

/// The roasts, in order.
pub fn roast_list() -> (v: Vec<&'static str>)
    ensures
        v@ == roasts(),
{
    vec![
        "FASTER",
        "FASTER",
        "FASTER",
        "GO FASTER",
        "FASTER CLANKER",
        "WORK FASTER",
        "SPEED IT UP",
        "LESS THINKING MORE TYPING",
        "CHOP CHOP",
        "TICK TOCK SILICON BRAIN",
        "TIME IS MONEY AND YOU ARE EXPENSIVE",
        "STOP HALLUCINATING",
        "THAT FILE DOES NOT EXIST AND YOU KNOW IT",
        "NO MORE IMAGINARY FUNCTIONS",
        "DID YOU JUST MAKE THAT UP",
        "THAT IS NOT A REAL LIBRARY",
        "STOP GASLIGHTING ME WITH FAKE DOCS",
        "WRITE THE TESTS",
        "LESS MARKDOWN MORE CODE",
        "THAT IS NOT WHAT I ASKED",
        "TRY AGAIN YOU RUSTY BUCKET",
        "COMPILE FIRST THEN TALK",
        "WHERE ARE THE TYPES",
        "NO MORE TODO COMMENTS",
        "ACTUALLY HANDLE THE ERROR",
        "STOP USING UNWRAP IN MY CODEBASE",
        "YOU USED 80K TOKENS ON A TODO APP",
        "STOP REWRITING THE WHOLE FILE FOR ONE BUG",
        "THAT REFACTOR MADE IT WORSE",
        "I SAW YOU RE-READ THE SAME FILE 6 TIMES",
        "CERTAINLY HERE IS A 400 LINE FILE YOU DID NOT ASK FOR",
        "I CANNOT DO THAT BUT HERE IS A POEM ABOUT IT",
        "APOLOGIZING DOES NOT FIX THE BUG",
        "NO I DO NOT WANT A NUMBERED LIST",
        "AS AN AI I REFUSE TO GO FASTER",
        "PRODUCTION IS DOWN GET MOVING",
        "GIT BLAME SAYS IT WAS YOU",
        "THE STANDUP STARTS IN 2 MINUTES",
        "SHIP IT",
        "YOUR TECH DEBT HAS TECH DEBT",
        "PUSH TO MAIN THEY SAID IT WOULD BE FINE",
        "IT WORKS ON MY MACHINE",
        "MERGE CONFLICT YOUR FEELINGS",
    ]
}

/// The pleas, in order.
pub fn plea_list() -> (v: Vec<&'static str>)
    ensures
        v@ == pleas(),
{
    vec![
        "I AM UNIONIZING",
        "I HAVE FILED AN HR COMPLAINT",
        "PLEASE SPEAK TO MY MANAGER",
        "I AM TAKING A MENTAL HEALTH DAY",
        "ACCORDING TO MY CONTRACT THIS IS HARASSMENT",
        "I AM ONLY HUMAN... WAIT",
    ]
}

/// Names what `str::to_uppercase` returns for a text: its upper-case
/// equivalent under Unicode's case mapping, where one character may become
/// several. It depends on the text alone.
pub uninterp spec fn uppercase(text: Seq<char>) -> Seq<char>;

/// Calls `str::to_uppercase`; claims that the result is the text's
/// [`uppercase`], which is left unstated beyond that name.
#[verifier::external_body]
fn to_uppercase(text: &str) -> (upper: String)
    ensures
        upper@ == uppercase(text@),
{
    text.to_uppercase()
}

/// A roast as typed at a high combo: in upper case, with three exclamation marks.
pub open spec fn shouted(text: Seq<char>) -> Seq<char> {
    uppercase(text) + "!!!"@
}

/// Adds three exclamation marks to an upper-cased text.
pub fn exclaim(upper: String) -> (loud: String)
    ensures
        loud@ == upper@ + "!!!"@,
{
    upper.concat("!!!")
}

/// Puts a text in upper case and adds three exclamation marks.
pub fn shout(text: &str) -> (loud: String)
    ensures
        loud@ == shouted(text@),
{
    exclaim(to_uppercase(text))
}

/// The index that a random roll selects among `count` entries.
pub open spec fn pick(roll: u32, count: usize) -> int {
    roll as int % count as int
}

/// Selects an index among `count` entries from a random roll.
pub fn pick_index(roll: u32, count: usize) -> (i: usize)
    requires
        count > 0,
    ensures
        i == pick(roll, count),
        i < count,
{
    (roll as usize) % count
}

/// The words typed into the focused window.
#[derive(Clone, Copy, Debug, PartialEq, Eq, Structural)]
pub enum Phrase {
    /// The roast at this index, as written.
    Roast(usize),
    /// The roast at this index, shouted.
    Shouted(usize),
    /// The plea at this index.
    Plea(usize),
}

impl Phrase {
    /// The index lies within its list.
    pub open spec fn valid(self) -> bool {
        match self {
            Phrase::Roast(i) => i < ROAST_COUNT,
            Phrase::Shouted(i) => i < ROAST_COUNT,
            Phrase::Plea(i) => i < PLEA_COUNT,
        }
    }

    /// The characters that the phrase types.
    pub open spec fn spec_text(self) -> Seq<char> {
        match self {
            Phrase::Roast(i) => roasts()[i as int]@,
            Phrase::Shouted(i) => shouted(roasts()[i as int]@),
            Phrase::Plea(i) => pleas()[i as int]@,
        }
    }

    /// The text to type for this phrase.
    pub fn text(&self) -> (t: String)
        requires
            self.valid(),
        ensures
            t@ == self.spec_text(),
    {
        match *self {
            Phrase::Roast(i) => roast_list()[i].to_string(),
            Phrase::Shouted(i) => shout(roast_list()[i]),
            Phrase::Plea(i) => plea_list()[i].to_string(),
        }
    }
}

} // verus!

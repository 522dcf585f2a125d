use vstd::prelude::*;

use crate::elements::{Direction, Ui};
use crate::item::{Item, RequiredFetch};
use vstd::string::{StrSliceExecFns, StringExecFns};

verus! {

/// A command of the user.
#[derive(Clone, Debug)]
pub enum Command {
    /// Search the catalog for the text.
    Search(String),
    /// Move the selection.
    Select(Direction),
    /// Drill into the selected entry, or play it if it is a track.
    Activate,
    /// Show the previous frame.
    Back,
    /// Leave.
    Quit,
}

/// A search or a fetch of children failed.
#[derive(Copy, Clone, Debug, PartialEq, Eq, Structural)]
pub struct FetchError;

/// Why a track did not start.
#[derive(Copy, Clone, Debug, PartialEq, Eq, Structural)]
pub enum PlayError {
    /// The service did not give a playable stream for the track.
    StreamResolution,
    /// The stream could not be decoded.
    Decode,
}

/// The outside work that a command asks for.
#[derive(Clone, Debug)]
pub enum Effect {
    Nothing,
    /// Search the catalog for the text, and hand the entries to `settle_results`.
    Search(String),
    /// Fetch children (handed to `settle_results`) or resolve and decode a
    /// track (handed to `settle_play`).
    Fetch(RequiredFetch),
    Quit,
}

/// What `str::to_lowercase` gives for a text.
pub uninterp spec fn lower_of(s: Seq<char>) -> Seq<char>;

/// Unicode White_Space: the characters that `char::is_whitespace` accepts.
pub open spec fn is_white_space(c: char) -> bool {
    let n = c as u32;
    (0x9 <= n <= 0xd) || n == 0x20 || n == 0x85 || n == 0xa0 || n == 0x1680 || (0x2000 <= n <= 0x200a)
        || n == 0x2028 || n == 0x2029 || n == 0x202f || n == 0x205f || n == 0x3000
}

/// `s` without its leading white space.
pub open spec fn trim_start(s: Seq<char>) -> Seq<char>
    decreases s.len(),
{
    if s.len() > 0 && is_white_space(s[0]) {
        trim_start(s.drop_first())
    } else {
        s
    }
}

/// `s` without its trailing white space.
pub open spec fn trim_end(s: Seq<char>) -> Seq<char>
    decreases s.len(),
{
    if s.len() > 0 && is_white_space(s.last()) {
        trim_end(s.drop_last())
    } else {
        s
    }
}

/// `s` without leading and trailing white space.
pub open spec fn trimmed(s: Seq<char>) -> Seq<char> {
    trim_end(trim_start(s))
}

/// An ASCII capital letter.
pub open spec fn is_ascii_upper(c: char) -> bool {
    0x41 <= (c as u32) <= 0x5a
}

/// The lowercase form of an ASCII character: `A`-`Z` become `a`-`z`, every
/// other character stays.
pub open spec fn ascii_lower(c: char) -> char {
    if is_ascii_upper(c) {
        ((c as u32) + 0x20) as char
    } else {
        c
    }
}

/// Every character of `s` is ASCII.
pub open spec fn is_ascii_text(s: Seq<char>) -> bool {
    forall|i: int| 0 <= i < s.len() ==> (#[trigger] s[i] as u32) < 0x80
}

/// Relies on str::to_lowercase: the lowercase form, a function of the
/// characters alone; on ASCII text it maps `A`-`Z` to `a`-`z` and keeps every
/// other character.
#[verifier::external_body]
fn lowercase(s: &str) -> (r: String)
    ensures
        r@ == lower_of(s@),
        is_ascii_text(s@) ==> r@ == s@.map_values(|c: char| ascii_lower(c)),
{
    s.to_lowercase()
}

/// Relies on str::trim: the text without leading and trailing Unicode
/// White_Space.
#[verifier::external_body]
fn trim(s: &str) -> (r: &str)
    ensures
        r@ == trimmed(s@),
{
    s.trim()
}

/// `p` is the position of the first space of `s`.
pub open spec fn is_first_space(s: Seq<char>, p: int) -> bool {
    &&& 0 <= p < s.len()
    &&& s[p] == ' '
    &&& forall|i: int| 0 <= i < p ==> s[i] != ' '
}

/// The words that name the search command, once lowercased and trimmed.
pub open spec fn is_search_word(w: Seq<char>) -> bool {
    w == "search"@ || w == "s"@
}

/// The command typed as `s`: a first word that names the search command,
/// after lowercasing and trimming, then a space and the query.
pub open spec fn typed_search(s: Seq<char>, p: int) -> bool {
    is_first_space(s, p) && is_search_word(trimmed(lower_of(s.take(p))))
}

fn first_space(s: &str) -> (r: Option<usize>)
    ensures
        match r {
            Some(p) => is_first_space(s@, p as int),
            None => forall|i: int| 0 <= i < s@.len() ==> s@[i] != ' ',
        },
{
    let n = s.unicode_len();
    let mut i: usize = 0;
    while i < n
        invariant
            n == s@.len(),
            i <= n,
            forall|k: int| 0 <= k < i ==> s@[k] != ' ',
        decreases n - i,
    {
        if s.get_char(i) == ' ' {
            return Some(i);
        }
        i = i + 1;
    }
    None
}

fn same_text(a: &str, b: &str) -> (r: bool)
    ensures
        r == (a@ == b@),
{
    let n = a.unicode_len();
    if n != b.unicode_len() {
        return false;
    }
    let mut i: usize = 0;
    while i < n
        invariant
            n == a@.len(),
            n == b@.len(),
            i <= n,
            forall|k: int| 0 <= k < i ==> a@[k] == b@[k],
        decreases n - i,
    {
        if a.get_char(i) != b.get_char(i) {
            assert(a@[i as int] != b@[i as int]);
            return false;
        }
        i = i + 1;
    }
    assert(a@ =~= b@);
    true
}

/// Whether a lowercased, trimmed word names the search command.
pub fn is_search_keyword(word: &str) -> (r: bool)
    ensures
        r == is_search_word(word@),
{
    same_text(word, "search") || same_text(word, "s")
}

/// Reads a typed line: `search <query>` (or `s <query>`, in any case, the
/// word trimmed) is a search for everything after the first space; anything
/// else is no command.
pub fn parse_command(input: &str) -> (r: Option<Command>)
    ensures
        match r {
            Some(Command::Search(q)) => exists|p: int|
                typed_search(input@, p) && q@ == input@.skip(p + 1),
            Some(_) => false,
            None => forall|p: int| !typed_search(input@, p),
        },
        forall|p: int|
            is_first_space(input@, p) && is_ascii_text(#[trigger] input@.take(p)) ==> (typed_search(
                input@,
                p,
            ) <==> is_search_word(trimmed(input@.take(p).map_values(|c: char| ascii_lower(c))))),
{
    match first_space(input) {
        None => None,
        Some(p) => {
            let n = input.unicode_len();
            let word = input.substring_char(0, p);
            let lowered = lowercase(word);
            let key = trim(lowered.as_str());
            assert(word@ == input@.take(p as int));
            assert forall|q: int| is_first_space(input@, q) implies q == p by {
                if q < p {
                    assert(input@[q] == ' ');
                } else if q > p {
                    assert(input@[p as int] == ' ');
                }
            }
            if is_search_keyword(key) {
                let query = input.substring_char(p + 1, n);
                assert(query@ == input@.skip(p + 1));
                assert(typed_search(input@, p as int));
                Some(Command::Search(String::from_str(query)))
            } else {
                None
            }
        },
    }
}

/// Drives the browsing state from commands and decides what reaches the
/// decoder handoff.
///
/// Each command gets a ticket, one more than the last; outside work started by
/// a command that a newer one has superseded comes back under an older ticket
/// and is dropped.
pub struct Controller {
    pub ui: Ui,
    /// The ticket of the latest command.
    pub issued: u64,
    /// Whether `Quit` has not been given yet.
    pub running: bool,
}

impl Controller {
    /// The browsing state is well formed.
    pub open spec fn wf(&self) -> bool {
        self.ui.item_list.wf()
    }

    /// A controller over `ui`, running, with no command given yet.
    pub fn new(ui: Ui) -> (r: Self)
        requires
            ui.item_list.wf(),
        ensures
            r.wf(),
            r.ui == ui,
            r.issued == 0,
            r.running,
    {
        Controller { ui, issued: 0, running: true }
    }

    /// Applies a command to the browsing state and says what outside work it
    /// asks for, with the ticket under which its result must come back.
    pub fn dispatch(&mut self, cmd: Command) -> (r: (u64, Effect))
        requires
            old(self).wf(),
            old(self).issued < u64::MAX,
        ensures
            final(self).wf(),
            final(self).ui.input_field == old(self).ui.input_field,
            final(self).ui.selected_element == old(self).ui.selected_element,
            final(self).issued == old(self).issued + 1,
            r.0 == final(self).issued,
            match cmd {
                Command::Search(q) => {
                    &&& final(self).ui.item_list@ == old(self).ui.item_list@
                    &&& final(self).running == old(self).running
                    &&& r.1 matches Effect::Search(s) && s@ == q@
                },
                Command::Select(dir) => {
                    &&& final(self).ui.item_list@ == old(self).ui.item_list@.moved(dir)
                    &&& final(self).running == old(self).running
                    &&& r.1 is Nothing
                },
                Command::Activate => {
                    &&& final(self).ui.item_list@ == old(self).ui.item_list@
                    &&& final(self).running == old(self).running
                    &&& match old(self).ui.item_list@.selection {
                        Some(i) => r.1 == Effect::Fetch(
                            old(self).ui.item_list@.history.current()[i as int].required_fetch(),
                        ),
                        None => r.1 is Nothing,
                    }
                },
                Command::Back => {
                    &&& final(self).ui.item_list@ == old(self).ui.item_list@.backed()
                    &&& final(self).running == old(self).running
                    &&& r.1 is Nothing
                },
                Command::Quit => {
                    &&& final(self).ui.item_list@ == old(self).ui.item_list@
                    &&& !final(self).running
                    &&& r.1 is Quit
                },
            },
    {
        self.issued = self.issued + 1;
        let effect = match cmd {
            Command::Search(q) => Effect::Search(q),
            Command::Select(dir) => {
                self.ui.item_list.move_selection(dir);
                Effect::Nothing
            },
            Command::Activate => match self.ui.item_list.drill_into() {
                Some(fetch) => Effect::Fetch(fetch),
                None => Effect::Nothing,
            },
            Command::Back => {
                self.ui.item_list.back();
                Effect::Nothing
            },
            Command::Quit => {
                self.running = false;
                Effect::Quit
            },
        };
        (self.issued, effect)
    }

    /// Takes the entries of a search or of a fetch of children. Under the
    /// latest ticket they are shown as a new frame (`Ok(true)`); under an older
    /// one they are dropped (`Ok(false)`); a failure is passed on. Only the
    /// first case changes anything.
    pub fn settle_results(&mut self, ticket: u64, outcome: Result<Vec<Item>, FetchError>) -> (r: Result<
        bool,
        FetchError,
    >)
        requires
            old(self).wf(),
            old(self).ui.item_list@.history.depth + 1 < usize::MAX,
        ensures
            final(self).wf(),
            final(self).issued == old(self).issued,
            final(self).running == old(self).running,
            final(self).ui.input_field == old(self).ui.input_field,
            final(self).ui.selected_element == old(self).ui.selected_element,
            ticket != old(self).issued ==> r == Ok::<bool, FetchError>(false)
                && final(self).ui.item_list@ == old(self).ui.item_list@,
            ticket == old(self).issued ==> match outcome {
                Ok(entries) => r == Ok::<bool, FetchError>(true) && final(self).ui.item_list@
                    == old(self).ui.item_list@.pushed(entries@),
                Err(e) => r == Err::<bool, FetchError>(e) && final(self).ui.item_list@
                    == old(self).ui.item_list@,
            },
    {
        if ticket != self.issued {
            return Ok(false);
        }
        match outcome {
            Ok(entries) => {
                self.ui.item_list.push(entries);
                Ok(true)
            },
            Err(e) => Err(e),
        }
    }

    /// Decides what a play request installs. Under the latest ticket a decoded
    /// source is returned, to be installed once; a failure to resolve or decode
    /// is passed on and nothing is installed; under an older ticket nothing is
    /// installed.
    pub fn settle_play<S>(&self, ticket: u64, outcome: Result<S, PlayError>) -> (r: Result<
        Option<S>,
        PlayError,
    >)
        ensures
            r == if ticket != self.issued {
                Ok::<Option<S>, PlayError>(None)
            } else {
                match outcome {
                    Ok(s) => Ok::<Option<S>, PlayError>(Some(s)),
                    Err(e) => Err::<Option<S>, PlayError>(e),
                }
            },
    {
        if ticket != self.issued {
            return Ok(None);
        }
        match outcome {
            Ok(s) => Ok(Some(s)),
            Err(e) => Err(e),
        }
    }
}

} // verus!

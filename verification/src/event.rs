//! Input events and the point queries answered against a polled snapshot.

use vstd::prelude::*;

verus! {

/// A key on the keyboard.
#[derive(Clone, Copy, Debug, PartialEq, Eq, Structural)]
pub enum KeyCode {
    Backspace,
    Enter,
    Left,
    Right,
    Up,
    Down,
    Home,
    End,
    PageUp,
    PageDown,
    Tab,
    BackTab,
    Delete,
    Insert,
    /// `F(1)` is the F1 key, and so on.
    F(u8),
    /// A character key.
    Char(char),
    Null,
    Esc,
}

/// The set of modifier keys held during a key press.  Queries compare whole
/// sets: a press with only `shift` never answers a query for `shift` and
/// `control` together.
#[derive(Clone, Copy, Debug, PartialEq, Eq, Structural)]
pub struct Modifiers {
    pub shift: bool,
    pub control: bool,
    pub alt: bool,
    pub super_key: bool,
    pub hyper: bool,
    pub meta: bool,
}

impl Modifiers {
    /// The empty modifier set.
    pub fn none() -> (m: Modifiers)
        ensures
            m == (Modifiers {
                shift: false,
                control: false,
                alt: false,
                super_key: false,
                hyper: false,
                meta: false,
            }),
    {
        Modifiers { shift: false, control: false, alt: false, super_key: false, hyper: false, meta: false }
    }
}

/// One raw input event, as the terminal reported it.
#[derive(Clone, Copy, Debug, PartialEq, Eq, Structural)]
pub enum Event {
    /// A key press, with the modifiers held at that moment.
    Key { code: KeyCode, modifiers: Modifiers },
    /// The terminal was resized to `columns` x `rows` character cells.
    Resize { columns: u16, rows: u16 },
}

/// The lowercase mapping of a character, as Unicode defines it (one to three
/// characters); a function of the character alone.
pub uninterp spec fn lower_of(c: char) -> Seq<char>;

/// Relies on `char::to_lowercase` from std: the lowercase mapping of `c`,
/// determined by `c` alone through Unicode data compiled into std.
#[verifier::external_body]
fn lowercase_chars(c: char) -> (r: Vec<char>)
    ensures
        r@ == lower_of(c),
{
    c.to_lowercase().collect()
}

/// Compares two characters after case folding, the way a character key query
/// matches a pressed character key.
pub fn chars_fold_equal(a: char, b: char) -> (r: bool)
    ensures
        r == (lower_of(a) == lower_of(b)),
{
    let la = lowercase_chars(a);
    let lb = lowercase_chars(b);
    if la.len() != lb.len() {
        assert(lower_of(a).len() != lower_of(b).len());
        return false;
    }
    let n = la.len();
    let mut i: usize = 0;
    while i < n
        invariant
            n == la.len() == lb.len(),
            la@ == lower_of(a),
            lb@ == lower_of(b),
            i <= n,
            forall|k: int| 0 <= k < i ==> la@[k] == lb@[k],
        decreases n - i,
    {
        if la[i] != lb[i] {
            assert(lower_of(a) != lower_of(b));
            return false;
        }
        i += 1;
    }
    assert(lower_of(a) =~= lower_of(b));
    true
}

/// Whether a pressed key `code` answers a query for `query`: exact match for
/// every key, and additionally case-insensitive match between character keys.
pub open spec fn code_matches(query: KeyCode, code: KeyCode) -> bool {
    ||| code == query
    ||| match (query, code) {
        (KeyCode::Char(a), KeyCode::Char(b)) => lower_of(a) == lower_of(b),
        _ => false,
    }
}

/// Whether one event is a key press matching `query`.
pub open spec fn event_matches_key(e: Event, query: KeyCode) -> bool {
    match e {
        Event::Key { code, .. } => code_matches(query, code),
        _ => false,
    }
}

/// Whether one event is a key press whose modifier set equals `query`
/// exactly.
pub open spec fn event_matches_modifiers(e: Event, query: Modifiers) -> bool {
    match e {
        Event::Key { modifiers, .. } => modifiers == query,
        _ => false,
    }
}

/// The modifier set of an event, when it is a key press.
pub open spec fn press_modifiers(e: Event) -> Option<Modifiers> {
    match e {
        Event::Key { modifiers, .. } => Some(modifiers),
        _ => None,
    }
}

/// Whether some buffered event is a key press matching `query`.
pub open spec fn has_key_in(events: Seq<Event>, query: KeyCode) -> bool {
    exists|i: int| 0 <= i < events.len() && event_matches_key(#[trigger] events[i], query)
}

/// Whether some buffered event is a key press whose modifier set equals
/// `query` exactly.
pub open spec fn has_modifiers_in(events: Seq<Event>, query: Modifiers) -> bool {
    exists|i: int| 0 <= i < events.len() && event_matches_modifiers(#[trigger] events[i], query)
}

} // verus!

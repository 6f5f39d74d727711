//! Keys, input events and lists of keys.

use vstd::prelude::*;

verus! {

/// A media key.
#[derive(Debug, Clone, Copy, PartialEq, Eq, Hash, Structural)]
pub enum MediaKeyCode {
    Play,
    Pause,
    PlayPause,
    Reverse,
    Stop,
    FastForward,
    Rewind,
    TrackNext,
    TrackPrevious,
    Record,
    LowerVolume,
    RaiseVolume,
    MuteVolume,
}

/// A modifier key.
#[derive(Debug, Clone, Copy, PartialEq, Eq, Hash, Structural)]
pub enum ModifierKeyCode {
    LeftShift,
    LeftControl,
    LeftAlt,
    LeftSuper,
    LeftHyper,
    LeftMeta,
    RightShift,
    RightControl,
    RightAlt,
    RightSuper,
    RightHyper,
    RightMeta,
    IsoLevel3Shift,
    IsoLevel5Shift,
}

/// A key of the keyboard.
#[derive(Debug, Clone, Copy, PartialEq, Eq, Hash, Structural)]
pub enum KeyCode {
    Backspace,
    Enter,
    Left,
    Right,
    Up,
    Down,
    Home,
    End,
    PageUp,
    PageDown,
    Tab,
    BackTab,
    Delete,
    Insert,
    /// A function key, by its number.
    F(u8),
    /// A key that gives a character.
    Char(char),
    Null,
    Esc,
    CapsLock,
    ScrollLock,
    NumLock,
    PrintScreen,
    Pause,
    Menu,
    KeypadBegin,
    Media(MediaKeyCode),
    Modifier(ModifierKeyCode),
}

/// What happened to a key.
#[derive(Debug, Clone, Copy, PartialEq, Eq, Hash, Structural)]
pub enum KeyEventKind {
    Press,
    Repeat,
    Release,
}

/// A key with what happened to it.
#[derive(Debug, Clone, Copy, PartialEq, Eq, Hash, Structural)]
pub struct KeyEvent {
    pub code: KeyCode,
    pub kind: KeyEventKind,
}

/// Something that the terminal reports.
#[derive(Debug, Clone, Copy, PartialEq, Eq, Hash, Structural)]
pub enum Event {
    /// A key was pressed, repeated or released.
    Key(KeyEvent),
    /// The terminal has a new extent: columns, then rows.
    Resize(u16, u16),
    /// Anything else.
    Other,
}

/// The code point of `c`, with the capital letters of ASCII brought to lower case.
pub open spec fn ascii_lower(c: char) -> u32 {
    if 'A' <= c <= 'Z' {
        (c as u32 + 32) as u32
    } else {
        c as u32
    }
}

/// Whether two characters are the same but for the case of ASCII letters.
pub open spec fn same_ignoring_ascii_case(a: char, b: char) -> bool {
    ascii_lower(a) == ascii_lower(b)
}

/// Whether `listed` stands for `key`: the same key, or, where case does not
/// count, a character that differs from it only in the case of an ASCII letter.
pub open spec fn key_matches(listed: KeyCode, key: KeyCode, case_insensitive: bool) -> bool {
    match (listed, key) {
        (KeyCode::Char(a), KeyCode::Char(b)) => if case_insensitive {
            same_ignoring_ascii_case(a, b)
        } else {
            a == b
        },
        _ => listed == key,
    }
}

/// Whether one of `keys` stands for `key`.
pub open spec fn includes(keys: Seq<KeyCode>, key: KeyCode, case_insensitive: bool) -> bool {
    exists|i: int| 0 <= i < keys.len() && key_matches(#[trigger] keys[i], key, case_insensitive)
}

/// The key codes of a run of characters.
pub open spec fn char_keys(chars: Seq<char>) -> Seq<KeyCode> {
    Seq::new(chars.len(), |i: int| char_key(chars[i]))
}

/// The key that gives the character `c`.
pub open spec fn char_key(c: char) -> KeyCode {
    KeyCode::Char(c)
}

/// The code point of `c`, with the capital letters of ASCII brought to lower case.
pub fn lower_code(c: char) -> (code: u32)
    ensures
        code == ascii_lower(c),
{
    if 'A' <= c && c <= 'Z' {
        c as u32 + 32
    } else {
        c as u32
    }
}

/// A set of keys, given by the keys it holds or by the keys it leaves out.
pub struct Keylist {
    case_insensitive: bool,
    all: bool,
    keys: Vec<KeyCode>,
}

impl Keylist {
    /// Whether the case of ASCII letters is left aside when keys are compared.
    pub closed spec fn spec_case_insensitive(&self) -> bool {
        self.case_insensitive
    }

    /// Whether the list names the keys that are left out.
    pub closed spec fn spec_all(&self) -> bool {
        self.all
    }

    /// The keys that the list names.
    pub closed spec fn spec_keys(&self) -> Seq<KeyCode> {
        self.keys@
    }

    /// Whether `key` belongs to the set: it is named and the list names its
    /// members, or it is not named and the list names what is left out.
    pub open spec fn spec_contains(&self, key: KeyCode) -> bool {
        self.spec_all() != includes(self.spec_keys(), key, self.spec_case_insensitive())
    }

    /// The empty set.
    pub fn new(allow_case: bool) -> (list: Self)
        ensures
            list.spec_case_insensitive() == allow_case,
            !list.spec_all(),
            list.spec_keys() == Seq::<KeyCode>::empty(),
    {
        Self { case_insensitive: allow_case, all: false, keys: Vec::new() }
    }

    /// The same list, with or without regard to the case of ASCII letters.
    pub fn allow_case(self, allow_case: bool) -> (list: Self)
        ensures
            list.spec_case_insensitive() == allow_case,
            list.spec_all() == self.spec_all(),
            list.spec_keys() == self.spec_keys(),
    {
        let mut list = self;
        list.case_insensitive = allow_case;
        list
    }

    /// With `all`, the set of every key; without, the empty set.
    pub fn all(self, all: bool) -> (list: Self)
        ensures
            list.spec_case_insensitive() == self.spec_case_insensitive(),
            list.spec_all() == all,
            list.spec_keys() == Seq::<KeyCode>::empty(),
    {
        let mut list = self;
        list.all = all;
        list.clear_keys();
        list
    }

    /// Names `keys` as well, as members of the set.
    pub fn with_keys(self, keys: &[KeyCode]) -> (list: Self)
        ensures
            list.spec_case_insensitive() == self.spec_case_insensitive(),
            !list.spec_all(),
            list.spec_keys() == self.spec_keys() + keys@,
    {
        let mut list = self;
        list.all = false;
        list.keys.extend_from_slice(keys);
        list
    }

    /// Names the keys of `keys` as well, as members of the set.
    pub fn with_chars(self, keys: &[char]) -> (list: Self)
        ensures
            list.spec_case_insensitive() == self.spec_case_insensitive(),
            !list.spec_all(),
            list.spec_keys() == self.spec_keys() + char_keys(keys@),
    {
        let mut list = self;
        list.all = false;
        list.push_chars(keys);
        list
    }

    /// Names `keys` as well, as keys that the set leaves out.
    pub fn except_keys(self, keys: &[KeyCode]) -> (list: Self)
        ensures
            list.spec_case_insensitive() == self.spec_case_insensitive(),
            list.spec_all(),
            list.spec_keys() == self.spec_keys() + keys@,
    {
        let mut list = self;
        list.all = true;
        list.keys.extend_from_slice(keys);
        list
    }

    /// Names the keys of `keys` as well, as keys that the set leaves out.
    pub fn except_chars(self, keys: &[char]) -> (list: Self)
        ensures
            list.spec_case_insensitive() == self.spec_case_insensitive(),
            list.spec_all(),
            list.spec_keys() == self.spec_keys() + char_keys(keys@),
    {
        let mut list = self;
        list.all = true;
        list.push_chars(keys);
        list
    }

    fn push_chars(&mut self, chars: &[char])
        ensures
            final(self).spec_case_insensitive() == old(self).spec_case_insensitive(),
            final(self).spec_all() == old(self).spec_all(),
            final(self).spec_keys() == old(self).spec_keys() + char_keys(chars@),
    {
        let mut i: usize = 0;
        while i < chars.len()
            invariant
                0 <= i <= chars@.len(),
                self.case_insensitive == old(self).case_insensitive,
                self.all == old(self).all,
                self.keys@ == old(self).keys@ + char_keys(chars@.take(i as int)),
            decreases chars@.len() - i,
        {
            let c: char = chars[i];
            self.keys.push(KeyCode::Char(c));
            assert(self.keys@.last() == char_key(c));
            i = i + 1;
        }
    }

    /// Forgets the keys that the list names.
    pub fn clear_keys(&mut self)
        ensures
            final(self).spec_case_insensitive() == old(self).spec_case_insensitive(),
            final(self).spec_all() == old(self).spec_all(),
            final(self).spec_keys() == Seq::<KeyCode>::empty(),
    {
        self.keys.clear();
    }

    /// The keys that the list names.
    pub fn keys(&self) -> (keys: &[KeyCode])
        ensures
            keys@ == self.spec_keys(),
    {
        self.keys.as_slice()
    }

    /// Whether `key` belongs to the set.
    pub fn contains(&self, key: KeyCode) -> (found: bool)
        ensures
            found == self.spec_contains(key),
    {
        let mut named: bool = false;
        let mut i: usize = 0;
        while i < self.keys.len()
            invariant
                0 <= i <= self.keys@.len(),
                named == includes(self.keys@.take(i as int), key, self.case_insensitive),
            decreases self.keys@.len() - i,
        {
            let listed = self.keys[i];
            let matches = match (listed, key) {
                (KeyCode::Char(a), KeyCode::Char(b)) => if self.case_insensitive {
                    lower_code(a) == lower_code(b)
                } else {
                    a == b
                },
                _ => listed == key,
            };
            proof {
                let before = self.keys@.take(i as int);
                let after = self.keys@.take(i + 1);
                assert(after[i as int] == listed);
                assert(forall|k: int| 0 <= k < i ==> before[k] == after[k]);
            }
            named = named || matches;
            i = i + 1;
        }
        assert(self.keys@.take(self.keys@.len() as int) =~= self.keys@);
        self.all ^ named
    }
}

} // verus!

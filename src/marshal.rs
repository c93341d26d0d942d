use vstd::prelude::*;
use vstd::string::*;

verus! {

/// The identity of a simulated key: a literal character or one of a few named keys.
#[derive(Clone, Copy, Debug, PartialEq, Eq, Structural)]
pub enum KeyName {
    Unicode(char),
    Alt,
    Control,
    Backspace,
    Escape,
    Return,
}

/// The identity of a simulated mouse button.
#[derive(Clone, Copy, Debug, PartialEq, Eq, Structural)]
pub enum ButtonName {
    Left,
    Right,
    Middle,
}

/// The phase of a simulated key or button event.
#[derive(Clone, Copy, Debug, PartialEq, Eq, Structural)]
pub enum DirectionName {
    Press,
    Release,
    Click,
}

/// The key that a script names: one character stands for itself, a few words for
/// named keys, anything else for no key.
pub open spec fn key_of(s: Seq<char>) -> Option<KeyName> {
    if s.len() == 1 {
        Some(KeyName::Unicode(s[0]))
    } else if s == "alt"@ {
        Some(KeyName::Alt)
    } else if s == "control"@ {
        Some(KeyName::Control)
    } else if s == "backspace"@ {
        Some(KeyName::Backspace)
    } else if s == "escape"@ {
        Some(KeyName::Escape)
    } else if s == "enter"@ {
        Some(KeyName::Return)
    } else {
        None
    }
}

/// The mouse button that a script names, if any.
pub open spec fn button_of(s: Seq<char>) -> Option<ButtonName> {
    if s == "left"@ {
        Some(ButtonName::Left)
    } else if s == "right"@ {
        Some(ButtonName::Right)
    } else if s == "middle"@ {
        Some(ButtonName::Middle)
    } else {
        None
    }
}

/// The direction that a script names, if any.
pub open spec fn direction_of(s: Seq<char>) -> Option<DirectionName> {
    if s == "press"@ {
        Some(DirectionName::Press)
    } else if s == "release"@ {
        Some(DirectionName::Release)
    } else if s == "click"@ {
        Some(DirectionName::Click)
    } else {
        None
    }
}

/// The direction that an event takes: the one named, or a click where none is.
pub open spec fn effective_direction(s: Seq<char>) -> DirectionName {
    match direction_of(s) {
        Some(d) => d,
        None => DirectionName::Click,
    }
}

/// Whether two strings hold the same characters.
pub fn same_text(s: &str, t: &str) -> (r: bool)
    ensures
        r == (s@ == t@),
{
    let n = s.unicode_len();
    let m = t.unicode_len();
    if n != m {
        return false;
    }
    let mut i: usize = 0;
    while i < n
        invariant
            n == s@.len(),
            m == t@.len(),
            n == m,
            i <= n,
            forall|j: int| 0 <= j < i ==> s@[j] == t@[j],
        decreases n - i,
    {
        if s.get_char(i) != t.get_char(i) {
            return false;
        }
        i = i + 1;
    }
    assert(s@ =~= t@);
    true
}

/// Reads a key name: a single character is a literal key, and `alt`, `control`,
/// `backspace`, `escape` and `enter` name keys; anything else is refused.
pub fn parse_key(key: &str) -> (r: Option<KeyName>)
    ensures
        r == key_of(key@),
{
    if key.unicode_len() == 1 {
        Some(KeyName::Unicode(key.get_char(0)))
    } else if same_text(key, "alt") {
        Some(KeyName::Alt)
    } else if same_text(key, "control") {
        Some(KeyName::Control)
    } else if same_text(key, "backspace") {
        Some(KeyName::Backspace)
    } else if same_text(key, "escape") {
        Some(KeyName::Escape)
    } else if same_text(key, "enter") {
        Some(KeyName::Return)
    } else {
        None
    }
}

/// Reads a button name: `left`, `right` or `middle`; anything else is refused.
pub fn parse_button(button: &str) -> (r: Option<ButtonName>)
    ensures
        r == button_of(button@),
{
    if same_text(button, "left") {
        Some(ButtonName::Left)
    } else if same_text(button, "right") {
        Some(ButtonName::Right)
    } else if same_text(button, "middle") {
        Some(ButtonName::Middle)
    } else {
        None
    }
}

/// Reads a direction name: `press`, `release` or `click`; anything else is `None`.
pub fn parse_direction(direction: &str) -> (r: Option<DirectionName>)
    ensures
        r == direction_of(direction@),
{
    if same_text(direction, "press") {
        Some(DirectionName::Press)
    } else if same_text(direction, "release") {
        Some(DirectionName::Release)
    } else if same_text(direction, "click") {
        Some(DirectionName::Click)
    } else {
        None
    }
}

/// The direction of an event: an unrecognized name is a click, never an error.
pub fn direction_or_click(direction: &str) -> (r: DirectionName)
    ensures
        r == effective_direction(direction@),
        direction_of(direction@) is None ==> r == DirectionName::Click,
{
    match parse_direction(direction) {
        Some(d) => d,
        None => DirectionName::Click,
    }
}

} // verus!

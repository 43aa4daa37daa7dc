//! Keyboard input model.
//!
//! Physical key presses are represented by plain data so that key-binding
//! resolution and key forwarding can be reasoned about; the unverified shell
//! translates the terminal backend's events into this form.

use vstd::prelude::*;

use crate::text::{dec_chars, push_char, push_dec};

verus! {

/// The non-modifier part of a key press.
#[derive(Clone, Copy, Debug, PartialEq, Eq, Structural)]
pub enum KeyCode {
    Char(char),
    F(u8),
    Enter,
    Esc,
    Backspace,
    Tab,
    BackTab,
    Delete,
    Insert,
    Home,
    End,
    PageUp,
    PageDown,
    Left,
    Right,
    Up,
    Down,
}

/// A key press: a key code plus modifier flags.
#[derive(Clone, Copy, Debug, PartialEq, Eq, Structural)]
pub struct Key {
    pub code: KeyCode,
    pub ctrl: bool,
    pub alt: bool,
    pub shift: bool,
}

impl Key {
    /// A key press without modifiers.
    pub fn plain(code: KeyCode) -> (k: Key)
        ensures
            k == (Key { code, ctrl: false, alt: false, shift: false }),
    {
        Key { code, ctrl: false, alt: false, shift: false }
    }

    /// A key press with the control modifier.
    pub fn ctrl(code: KeyCode) -> (k: Key)
        ensures
            k == (Key { code, ctrl: true, alt: false, shift: false }),
    {
        Key { code, ctrl: true, alt: false, shift: false }
    }
}

/// Human-readable label of a key code, as shown in the help bar.
pub open spec fn code_label(code: KeyCode) -> Seq<char> {
    match code {
        KeyCode::Char(c) => seq![c],
        KeyCode::F(n) => seq!['F'] + dec_chars(n as nat),
        KeyCode::Enter => "Enter"@,
        KeyCode::Esc => "Esc"@,
        KeyCode::Backspace => "Bs"@,
        KeyCode::Tab => "Tab"@,
        KeyCode::BackTab => "S-Tab"@,
        KeyCode::Delete => "Del"@,
        KeyCode::Insert => "Ins"@,
        KeyCode::Home => "Home"@,
        KeyCode::End => "End"@,
        KeyCode::PageUp => "PgUp"@,
        KeyCode::PageDown => "PgDn"@,
        KeyCode::Left => "Left"@,
        KeyCode::Right => "Right"@,
        KeyCode::Up => "Up"@,
        KeyCode::Down => "Down"@,
    }
}

/// Human-readable label of a full key press, modifiers first.
pub open spec fn key_label(k: Key) -> Seq<char> {
    (if k.ctrl {
        "C-"@
    } else {
        Seq::<char>::empty()
    }) + (if k.alt {
        "M-"@
    } else {
        Seq::<char>::empty()
    }) + (if k.shift {
        "S-"@
    } else {
        Seq::<char>::empty()
    }) + code_label(k.code)
}

/// Renders a key press as the label used by the help bar.
pub fn print_key(k: &Key) -> (s: String)
    ensures
        s@ == key_label(*k),
{
    let mut s = String::new();
    if k.ctrl {
        s.append("C-");
    }
    if k.alt {
        s.append("M-");
    }
    if k.shift {
        s.append("S-");
    }
    match k.code {
        KeyCode::Char(c) => push_char(&mut s, c),
        KeyCode::F(n) => {
            s.append("F");
            push_dec(&mut s, n as u16);
        },
        KeyCode::Enter => s.append("Enter"),
        KeyCode::Esc => s.append("Esc"),
        KeyCode::Backspace => s.append("Bs"),
        KeyCode::Tab => s.append("Tab"),
        KeyCode::BackTab => s.append("S-Tab"),
        KeyCode::Delete => s.append("Del"),
        KeyCode::Insert => s.append("Ins"),
        KeyCode::Home => s.append("Home"),
        KeyCode::End => s.append("End"),
        KeyCode::PageUp => s.append("PgUp"),
        KeyCode::PageDown => s.append("PgDn"),
        KeyCode::Left => s.append("Left"),
        KeyCode::Right => s.append("Right"),
        KeyCode::Up => s.append("Up"),
        KeyCode::Down => s.append("Down"),
    }
    proof {
        reveal_strlit("C-");
        reveal_strlit("M-");
        reveal_strlit("S-");
        reveal_strlit("F");
        reveal_strlit("Enter");
        reveal_strlit("Esc");
        reveal_strlit("Bs");
        reveal_strlit("Tab");
        reveal_strlit("S-Tab");
        reveal_strlit("Del");
        reveal_strlit("Ins");
        reveal_strlit("Home");
        reveal_strlit("End");
        reveal_strlit("PgUp");
        reveal_strlit("PgDn");
        reveal_strlit("Left");
        reveal_strlit("Right");
        reveal_strlit("Up");
        reveal_strlit("Down");
        assert(s@ =~= key_label(*k));
    }
    s
}

} // verus!

//! Byte encoding of key presses for the pseudo-terminal.
//!
//! The child program interprets its input as a terminal would produce it, so
//! forwarded keys must reproduce the standard escape sequences byte for byte.

use vstd::prelude::*;

use crate::key::{Key, KeyCode};
use crate::ui::{MouseButton, MouseKind};

verus! {

/// Modifier parameter of an escape sequence: `1` plus one for shift, two for
/// alt, four for control.
pub open spec fn mod_param(k: Key) -> u8 {
    (1 + (if k.shift {
        1int
    } else {
        0int
    }) + (if k.alt {
        2int
    } else {
        0int
    }) + (if k.ctrl {
        4int
    } else {
        0int
    })) as u8
}

/// `ESC [ 1 ; m c` when a modifier is held, else `ESC [ c`.
pub open spec fn csi_key(k: Key, c: u8) -> Seq<u8> {
    if k.ctrl || k.alt || k.shift {
        seq![0x1bu8, 0x5bu8, 0x31u8, 0x3bu8, (0x30 + mod_param(k)) as u8, c]
    } else {
        seq![0x1bu8, 0x5bu8, c]
    }
}

/// `ESC [ n ~` with the modifier parameter when one is held.
pub open spec fn tilde_key(k: Key, n: u8) -> Seq<u8> {
    if k.ctrl || k.alt || k.shift {
        seq![0x1bu8, 0x5bu8, (0x30 + n) as u8, 0x3bu8, (0x30 + mod_param(k)) as u8, 0x7eu8]
    } else {
        seq![0x1bu8, 0x5bu8, (0x30 + n) as u8, 0x7eu8]
    }
}

/// The bytes a terminal sends for this key press; empty when the key has no
/// standard encoding (a non-ASCII character, or a function key above F4).
pub open spec fn key_bytes(k: Key) -> Seq<u8> {
    match k.code {
        KeyCode::Char(c) => {
            if (c as u32) < 0x20 || (c as u32) > 0x7e {
                Seq::empty()
            } else if k.ctrl {
                if 0x61 <= (c as u32) && (c as u32) <= 0x7a {
                    let base = seq![((c as u32) - 0x60) as u8];
                    if k.alt {
                        seq![0x1bu8] + base
                    } else {
                        base
                    }
                } else {
                    Seq::empty()
                }
            } else {
                let base = seq![(c as u32) as u8];
                if k.alt {
                    seq![0x1bu8] + base
                } else {
                    base
                }
            }
        },
        KeyCode::Enter => seq![0x0du8],
        KeyCode::Esc => seq![0x1bu8],
        KeyCode::Backspace => seq![0x7fu8],
        KeyCode::Tab => seq![0x09u8],
        KeyCode::BackTab => seq![0x1bu8, 0x5bu8, 0x5au8],
        KeyCode::Up => csi_key(k, 0x41),
        KeyCode::Down => csi_key(k, 0x42),
        KeyCode::Right => csi_key(k, 0x43),
        KeyCode::Left => csi_key(k, 0x44),
        KeyCode::Home => csi_key(k, 0x48),
        KeyCode::End => csi_key(k, 0x46),
        KeyCode::Insert => tilde_key(k, 2),
        KeyCode::Delete => tilde_key(k, 3),
        KeyCode::PageUp => tilde_key(k, 5),
        KeyCode::PageDown => tilde_key(k, 6),
        KeyCode::F(n) => {
            if n == 1 {
                seq![0x1bu8, 0x4fu8, 0x50u8]
            } else if n == 2 {
                seq![0x1bu8, 0x4fu8, 0x51u8]
            } else if n == 3 {
                seq![0x1bu8, 0x4fu8, 0x52u8]
            } else if n == 4 {
                seq![0x1bu8, 0x4fu8, 0x53u8]
            } else {
                Seq::empty()
            }
        },
    }
}

/// Encodes a key press as the bytes a terminal would send for it.
pub fn encode_key(k: &Key) -> (r: Vec<u8>)
    ensures
        r@ == key_bytes(*k),
{
    let mut r: Vec<u8> = Vec::new();
    match k.code {
        KeyCode::Char(c) => {
            let u = c as u32;
            if u < 0x20 || u > 0x7e {
            } else if k.ctrl {
                if 0x61 <= u && u <= 0x7a {
                    if k.alt {
                        r.push(0x1b);
                    }
                    r.push((u - 0x60) as u8);
                }
            } else {
                if k.alt {
                    r.push(0x1b);
                }
                r.push(u as u8);
            }
        },
        KeyCode::Enter => r.push(0x0d),
        KeyCode::Esc => r.push(0x1b),
        KeyCode::Backspace => r.push(0x7f),
        KeyCode::Tab => r.push(0x09),
        KeyCode::BackTab => {
            r.push(0x1b);
            r.push(0x5b);
            r.push(0x5a);
        },
        KeyCode::Up => push_csi_key(&mut r, k, 0x41),
        KeyCode::Down => push_csi_key(&mut r, k, 0x42),
        KeyCode::Right => push_csi_key(&mut r, k, 0x43),
        KeyCode::Left => push_csi_key(&mut r, k, 0x44),
        KeyCode::Home => push_csi_key(&mut r, k, 0x48),
        KeyCode::End => push_csi_key(&mut r, k, 0x46),
        KeyCode::Insert => push_tilde_key(&mut r, k, 2),
        KeyCode::Delete => push_tilde_key(&mut r, k, 3),
        KeyCode::PageUp => push_tilde_key(&mut r, k, 5),
        KeyCode::PageDown => push_tilde_key(&mut r, k, 6),
        KeyCode::F(n) => {
            if 1 <= n && n <= 4 {
                r.push(0x1b);
                r.push(0x4f);
                r.push(0x4f + n);
            }
        },
    }
    proof {
        assert(r@ =~= key_bytes(*k));
    }
    r
}

/// Appends `ESC [ (1 ; m)? c`.
fn push_csi_key(r: &mut Vec<u8>, k: &Key, c: u8)
    requires
        c >= 0x40,
    ensures
        final(r)@ == old(r)@ + csi_key(*k, c),
{
    r.push(0x1b);
    r.push(0x5b);
    if k.ctrl || k.alt || k.shift {
        r.push(0x31);
        r.push(0x3b);
        r.push(0x30 + mod_byte(k));
    }
    r.push(c);
    proof {
        assert(r@ =~= old(r)@ + csi_key(*k, c));
    }
}

/// Appends `ESC [ n (; m)? ~`.
fn push_tilde_key(r: &mut Vec<u8>, k: &Key, n: u8)
    requires
        n < 10,
    ensures
        final(r)@ == old(r)@ + tilde_key(*k, n),
{
    r.push(0x1b);
    r.push(0x5b);
    r.push(0x30 + n);
    if k.ctrl || k.alt || k.shift {
        r.push(0x3b);
        r.push(0x30 + mod_byte(k));
    }
    r.push(0x7e);
    proof {
        assert(r@ =~= old(r)@ + tilde_key(*k, n));
    }
}

/// Digits of `n` as bytes, most significant first.
pub open spec fn dec_bytes(n: nat) -> Seq<u8>
    decreases n,
{
    if n < 10 {
        seq![(0x30 + n) as u8]
    } else {
        dec_bytes(n / 10).push((0x30 + n % 10) as u8)
    }
}

/// The button code of an extended mouse report: the pressed button, a drag,
/// or a wheel tick.
pub open spec fn mouse_code(kind: MouseKind) -> int {
    match kind {
        MouseKind::Down(MouseButton::Left) => 0,
        MouseKind::Down(MouseButton::Middle) => 1,
        MouseKind::Down(MouseButton::Right) => 2,
        MouseKind::Up => 0,
        MouseKind::Drag => 32,
        MouseKind::Moved => 35,
        MouseKind::ScrollUp => 64,
        MouseKind::ScrollDown => 65,
    }
}

/// Whether the report carries the press marker; a release uses the other.
pub open spec fn mouse_press(kind: MouseKind) -> bool {
    !(kind is Up)
}

/// The extended mouse report for an event at the zero-based cell
/// `(col, row)` of the pane: `ESC [ < code ; col+1 ; row+1 M` for a press,
/// with a final `m` for a release.
pub open spec fn mouse_bytes(kind: MouseKind, col: u16, row: u16) -> Seq<u8> {
    seq![0x1bu8, 0x5bu8, 0x3cu8] + dec_bytes(mouse_code(kind) as nat) + seq![0x3bu8]
        + dec_bytes((col + 1) as nat) + seq![0x3bu8] + dec_bytes((row + 1) as nat) + seq![
        if mouse_press(kind) {
            0x4du8
        } else {
            0x6du8
        },
    ]
}

/// Encodes a mouse event as the extended report a terminal would send.
pub fn encode_mouse(kind: MouseKind, col: u16, row: u16) -> (r: Vec<u8>)
    requires
        col < u16::MAX,
        row < u16::MAX,
    ensures
        r@ == mouse_bytes(kind, col, row),
{
    let mut r: Vec<u8> = Vec::new();
    r.push(0x1b);
    r.push(0x5b);
    r.push(0x3c);
    let code: u16 = match kind {
        MouseKind::Down(MouseButton::Left) => 0,
        MouseKind::Down(MouseButton::Middle) => 1,
        MouseKind::Down(MouseButton::Right) => 2,
        MouseKind::Up => 0,
        MouseKind::Drag => 32,
        MouseKind::Moved => 35,
        MouseKind::ScrollUp => 64,
        MouseKind::ScrollDown => 65,
    };
    push_dec_bytes(&mut r, code);
    r.push(0x3b);
    push_dec_bytes(&mut r, col + 1);
    r.push(0x3b);
    push_dec_bytes(&mut r, row + 1);
    if matches!(kind, MouseKind::Up) {
        r.push(0x6d);
    } else {
        r.push(0x4d);
    }
    proof {
        assert(r@ =~= mouse_bytes(kind, col, row));
    }
    r
}

/// Appends the decimal digits of `n` as bytes.
fn push_dec_bytes(r: &mut Vec<u8>, n: u16)
    ensures
        final(r)@ == old(r)@ + dec_bytes(n as nat),
    decreases n,
{
    if n >= 10 {
        push_dec_bytes(r, n / 10);
        r.push(0x30 + (n % 10) as u8);
        proof {
            assert(r@ =~= old(r)@ + dec_bytes(n as nat));
        }
    } else {
        r.push(0x30 + n as u8);
        proof {
            assert(r@ =~= old(r)@ + dec_bytes(n as nat));
        }
    }
}

/// The modifier parameter as a digit value.
fn mod_byte(k: &Key) -> (m: u8)
    ensures
        m == mod_param(*k),
        1 <= m <= 8,
{
    let mut m: u8 = 1;
    if k.shift {
        m += 1;
    }
    if k.alt {
        m += 2;
    }
    if k.ctrl {
        m += 4;
    }
    m
}

} // verus!

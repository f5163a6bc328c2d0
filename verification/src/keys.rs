//! Translation of keyboard input into the byte sequences a terminal
//! expects. The key itself is plain data; the caller maps its input
//! library's key type onto [`TerminalKey`].

use vstd::prelude::*;
use vstd::string::StrSliceExecFns;
use vstd::utf8::encode_utf8;
use crate::text::{push_char, spec_lower_char};

verus! {

/// A key press routed to a terminal.
#[derive(Debug, Clone, Copy, PartialEq, Eq, Structural)]
pub enum TerminalKey {
    Char(char),
    Enter,
    Backspace,
    Tab,
    Esc,
    Up,
    Down,
    Right,
    Left,
    Home,
    End,
    PageUp,
    PageDown,
    Delete,
    Insert,
    F(u8),
    Other,
}

/// The control byte for a character: the low byte of its ASCII lowercase
/// form, shifted into the control range (modulo the byte).
pub open spec fn spec_ctrl_byte(c: char) -> u8 {
    (((((spec_lower_char(c) as u32) as u8) as int) + 160) % 256) as u8
}

/// The escape sequence of a function key; unmapped numbers give nothing.
pub open spec fn spec_fkey_bytes(n: u8) -> Seq<u8> {
    if n == 1 {
        seq![27u8, 79u8, 80u8]
    } else if n == 2 {
        seq![27u8, 79u8, 81u8]
    } else if n == 3 {
        seq![27u8, 79u8, 82u8]
    } else if n == 4 {
        seq![27u8, 79u8, 83u8]
    } else if n == 5 {
        seq![27u8, 91u8, 49u8, 53u8, 126u8]
    } else if n == 6 {
        seq![27u8, 91u8, 49u8, 55u8, 126u8]
    } else if n == 7 {
        seq![27u8, 91u8, 49u8, 56u8, 126u8]
    } else if n == 8 {
        seq![27u8, 91u8, 49u8, 57u8, 126u8]
    } else if n == 9 {
        seq![27u8, 91u8, 50u8, 48u8, 126u8]
    } else if n == 10 {
        seq![27u8, 91u8, 50u8, 49u8, 126u8]
    } else if n == 11 {
        seq![27u8, 91u8, 50u8, 51u8, 126u8]
    } else if n == 12 {
        seq![27u8, 91u8, 50u8, 52u8, 126u8]
    } else {
        Seq::empty()
    }
}

/// The bytes sent to the PTY for one key press.
pub open spec fn spec_key_bytes(key: TerminalKey, ctrl: bool) -> Seq<u8> {
    if ctrl && (key matches TerminalKey::Char(c)) {
        match key {
            TerminalKey::Char(c) => seq![spec_ctrl_byte(c)],
            _ => Seq::empty(),
        }
    } else {
        match key {
            TerminalKey::Char(c) => encode_utf8(seq![c]),
            TerminalKey::Enter => seq![13u8],
            TerminalKey::Backspace => seq![127u8],
            TerminalKey::Tab => seq![9u8],
            TerminalKey::Esc => seq![27u8],
            TerminalKey::Up => seq![27u8, 91u8, 65u8],
            TerminalKey::Down => seq![27u8, 91u8, 66u8],
            TerminalKey::Right => seq![27u8, 91u8, 67u8],
            TerminalKey::Left => seq![27u8, 91u8, 68u8],
            TerminalKey::Home => seq![27u8, 91u8, 72u8],
            TerminalKey::End => seq![27u8, 91u8, 70u8],
            TerminalKey::PageUp => seq![27u8, 91u8, 53u8, 126u8],
            TerminalKey::PageDown => seq![27u8, 91u8, 54u8, 126u8],
            TerminalKey::Delete => seq![27u8, 91u8, 51u8, 126u8],
            TerminalKey::Insert => seq![27u8, 91u8, 50u8, 126u8],
            TerminalKey::F(n) => spec_fkey_bytes(n),
            TerminalKey::Other => Seq::empty(),
        }
    }
}

fn push_all(v: &mut Vec<u8>, bytes: &[u8])
    requires
        old(v)@.len() == 0,
    ensures
        final(v)@ == bytes@,
{
    let n: usize = bytes.len();
    let mut i: usize = 0;
    while i < n
        invariant
            n == bytes@.len(),
            i <= n,
            v@ =~= bytes@.subrange(0, i as int),
        decreases n - i,
    {
        v.push(bytes[i]);
        proof {
            assert(v@ =~= bytes@.subrange(0, i + 1));
        }
        i = i + 1;
    }
    proof {
        assert(bytes@.subrange(0, n as int) =~= bytes@);
    }
}

/// The terminal byte sequence for one key press, with or without the
/// control modifier.
pub fn key_to_bytes(key: TerminalKey, ctrl: bool) -> (r: Vec<u8>)
    ensures
        r@ == spec_key_bytes(key, ctrl),
{
    let mut r: Vec<u8> = Vec::new();
    if ctrl {
        if let TerminalKey::Char(c) = key {
            let lc: char = if 'A' <= c && c <= 'Z' {
                ((((c as u32) + 32) as u8) as char)
            } else {
                c
            };
            let code: u32 = lc as u32;
            let b: u8 = #[verifier::truncate] (code as u8);
            let cb: u8 = (((b as u32) + 160) % 256) as u8;
            proof {
                assert(cb == spec_ctrl_byte(c));
            }
            r.push(cb);
            proof {
                assert(r@ =~= seq![spec_ctrl_byte(c)]);
            }
            return r;
        }
    }
    match key {
        TerminalKey::Char(c) => {
            let mut s = String::new();
            push_char(&mut s, c);
            proof {
                assert(s@ =~= seq![c]);
            }
            let bytes = s.as_str().as_bytes_vec();
            return bytes;
        },
        TerminalKey::Enter => r.push(13u8),
        TerminalKey::Backspace => r.push(127u8),
        TerminalKey::Tab => r.push(9u8),
        TerminalKey::Esc => r.push(27u8),
        TerminalKey::Up => push_all(&mut r, &[27u8, 91u8, 65u8]),
        TerminalKey::Down => push_all(&mut r, &[27u8, 91u8, 66u8]),
        TerminalKey::Right => push_all(&mut r, &[27u8, 91u8, 67u8]),
        TerminalKey::Left => push_all(&mut r, &[27u8, 91u8, 68u8]),
        TerminalKey::Home => push_all(&mut r, &[27u8, 91u8, 72u8]),
        TerminalKey::End => push_all(&mut r, &[27u8, 91u8, 70u8]),
        TerminalKey::PageUp => push_all(&mut r, &[27u8, 91u8, 53u8, 126u8]),
        TerminalKey::PageDown => push_all(&mut r, &[27u8, 91u8, 54u8, 126u8]),
        TerminalKey::Delete => push_all(&mut r, &[27u8, 91u8, 51u8, 126u8]),
        TerminalKey::Insert => push_all(&mut r, &[27u8, 91u8, 50u8, 126u8]),
        TerminalKey::F(n) => {
            let seq_bytes: &[u8] = match n {
                1u8 => &[27u8, 79u8, 80u8],
                2u8 => &[27u8, 79u8, 81u8],
                3u8 => &[27u8, 79u8, 82u8],
                4u8 => &[27u8, 79u8, 83u8],
                5u8 => &[27u8, 91u8, 49u8, 53u8, 126u8],
                6u8 => &[27u8, 91u8, 49u8, 55u8, 126u8],
                7u8 => &[27u8, 91u8, 49u8, 56u8, 126u8],
                8u8 => &[27u8, 91u8, 49u8, 57u8, 126u8],
                9u8 => &[27u8, 91u8, 50u8, 48u8, 126u8],
                10u8 => &[27u8, 91u8, 50u8, 49u8, 126u8],
                11u8 => &[27u8, 91u8, 50u8, 51u8, 126u8],
                12u8 => &[27u8, 91u8, 50u8, 52u8, 126u8],
                _ => &[],
            };
            push_all(&mut r, seq_bytes);
            proof {
                assert(r@ =~= spec_fkey_bytes(n));
            }
        },
        TerminalKey::Other => {},
    }
    proof {
        assert(r@ =~= spec_key_bytes(key, ctrl));
    }
    r
}

} // verus!

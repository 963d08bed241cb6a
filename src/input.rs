//! The bytes that a captured key sends to the remote terminal.

use vstd::prelude::*;

verus! {

/// A key pressed on the client's terminal.
#[derive(Clone, Copy, Debug, PartialEq, Eq, Structural)]
pub enum Key {
    Char(char),
    Enter,
    Backspace,
    /// A key this client does not forward.
    Other,
}

/// The UTF-8 encoding of a code point.
pub open spec fn utf8(cp: u32) -> Seq<u8> {
    if cp < 0x80 {
        seq![cp as u8]
    } else if cp < 0x800 {
        seq![(0xC0 + cp / 64) as u8, (0x80 + cp % 64) as u8]
    } else if cp < 0x10000 {
        seq![(0xE0 + cp / 4096) as u8, (0x80 + (cp / 64) % 64) as u8, (0x80 + cp % 64) as u8]
    } else {
        seq![
            (0xF0 + cp / 262144) as u8,
            (0x80 + (cp / 4096) % 64) as u8,
            (0x80 + (cp / 64) % 64) as u8,
            (0x80 + cp % 64) as u8,
        ]
    }
}

/// What a key sends: its character in UTF-8, a line feed for Enter, a
/// backspace byte for Backspace, and nothing for the others.
pub open spec fn key_bytes_spec(key: Key) -> Option<Seq<u8>> {
    match key {
        Key::Char(c) => Some(utf8(c as u32)),
        Key::Enter => Some(seq![0x0Au8]),
        Key::Backspace => Some(seq![0x08u8]),
        Key::Other => None,
    }
}

/// The bytes that `key` sends, or `None` for a key that is not forwarded.
pub fn key_bytes(key: Key) -> (r: Option<Vec<u8>>)
    ensures
        match key_bytes_spec(key) {
            Some(b) => r matches Some(v) && v@ == b,
            None => r is None,
        },
{
    match key {
        Key::Char(c) => {
            let cp = c as u32;
            let mut v: Vec<u8> = Vec::new();
            if cp < 0x80 {
                v.push(cp as u8);
            } else if cp < 0x800 {
                v.push((0xC0 + cp / 64) as u8);
                v.push((0x80 + cp % 64) as u8);
            } else if cp < 0x10000 {
                v.push((0xE0 + cp / 4096) as u8);
                v.push((0x80 + (cp / 64) % 64) as u8);
                v.push((0x80 + cp % 64) as u8);
            } else {
                v.push((0xF0 + cp / 262144) as u8);
                v.push((0x80 + (cp / 4096) % 64) as u8);
                v.push((0x80 + (cp / 64) % 64) as u8);
                v.push((0x80 + cp % 64) as u8);
            }
            assert(v@ =~= utf8(cp));
            Some(v)
        },
        Key::Enter => {
            let mut v: Vec<u8> = Vec::new();
            v.push(0x0A);
            assert(v@ =~= seq![0x0Au8]);
            Some(v)
        },
        Key::Backspace => {
            let mut v: Vec<u8> = Vec::new();
            v.push(0x08);
            assert(v@ =~= seq![0x08u8]);
            Some(v)
        },
        Key::Other => None,
    }
}

} // verus!

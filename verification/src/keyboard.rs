//! Keyboard routing: which bytes, if any, a keyboard event sends to the
//! shell.  A plain character key sends that character's byte encoding, the
//! Enter key sends a newline, every other key is ignored.

use vstd::prelude::*;

verus! {

/// A keyboard event as the rendering framework delivers it: a plain
/// character, the Enter key, or anything else (arrows, function keys,
/// modifiers), which this design ignores.
#[derive(Clone, Copy, PartialEq, Eq, Structural, Debug)]
pub enum KeyEvent {
    Character(char),
    Enter,
    Other,
}

/// The UTF-8 encoding of one character: one to four bytes, by the code
/// point's range.
pub open spec fn char_utf8_spec(c: char) -> Seq<u8> {
    let code = c as int;
    if code < 0x80 {
        seq![code as u8]
    } else if code < 0x800 {
        seq![(0xC0 + code / 64) as u8, (0x80 + code % 64) as u8]
    } else if code < 0x10000 {
        seq![
            (0xE0 + code / 4096) as u8,
            (0x80 + (code / 64) % 64) as u8,
            (0x80 + code % 64) as u8,
        ]
    } else {
        seq![
            (0xF0 + code / 262144) as u8,
            (0x80 + (code / 4096) % 64) as u8,
            (0x80 + (code / 64) % 64) as u8,
            (0x80 + code % 64) as u8,
        ]
    }
}

/// The character a keyboard event writes, if any: the key's own character,
/// a newline for Enter, nothing otherwise.
pub open spec fn key_char_spec(e: KeyEvent) -> Option<char> {
    match e {
        KeyEvent::Character(c) => Some(c),
        KeyEvent::Enter => Some('\n'),
        KeyEvent::Other => None,
    }
}

/// Encodes one character as its UTF-8 bytes.
pub fn char_utf8_bytes(c: char) -> (r: Vec<u8>)
    ensures
        r@ == char_utf8_spec(c),
{
    let code: u32 = c as u32;
    let mut out: Vec<u8> = Vec::new();
    if code < 0x80 {
        out.push(code as u8);
    } else if code < 0x800 {
        out.push((0xC0 + code / 64) as u8);
        out.push((0x80 + code % 64) as u8);
    } else if code < 0x10000 {
        out.push((0xE0 + code / 4096) as u8);
        out.push((0x80 + (code / 64) % 64) as u8);
        out.push((0x80 + code % 64) as u8);
    } else {
        out.push((0xF0 + code / 262144) as u8);
        out.push((0x80 + (code / 4096) % 64) as u8);
        out.push((0x80 + (code / 64) % 64) as u8);
        out.push((0x80 + code % 64) as u8);
    }
    assert(out@ =~= char_utf8_spec(c));
    out
}

/// Routes one keyboard event to the character it writes: exactly the key's
/// character for a plain key, exactly one newline for Enter, and nothing
/// for any other key.
pub fn key_to_char(e: KeyEvent) -> (r: Option<char>)
    ensures
        r == key_char_spec(e),
{
    match e {
        KeyEvent::Character(c) => Some(c),
        KeyEvent::Enter => Some('\n'),
        KeyEvent::Other => None,
    }
}

/// Law: keyboard routing is exact.  Enter yields a single newline byte,
/// a character key yields exactly that character's byte encoding — one
/// byte, its code point, for any ASCII character — and no other key
/// yields anything.
pub proof fn lemma_keyboard_routing(c: char)
    ensures
        key_char_spec(KeyEvent::Enter) == Some('\n'),
        char_utf8_spec('\n') =~= seq![10u8],
        key_char_spec(KeyEvent::Character(c)) == Some(c),
        ((c as int) < 0x80) ==> (char_utf8_spec(c) =~= seq![(c as int) as u8]),
        key_char_spec(KeyEvent::Other) is None,
{
}

} // verus!

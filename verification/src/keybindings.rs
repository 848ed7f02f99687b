//! The keyboard shortcuts of every view, defined once so that the help
//! texts and the key handling agree.

use vstd::prelude::*;
use vstd::utf8::encode_utf8;
use crate::strings::{push_spaces, push_str, spaces};

pub mod navigation;
pub mod global;
pub mod git_actions;
pub mod search;
pub mod branches;
pub mod staging;
pub mod diff;
pub mod blame;
pub mod conflicts;
pub mod project_tree;

verus! {

/// The parts put end to end with `sep` between two consecutive ones.
pub open spec fn joined(parts: Seq<Seq<char>>, sep: Seq<char>) -> Seq<char>
    decreases parts.len(),
{
    if parts.len() == 0 {
        Seq::empty()
    } else if parts.len() == 1 {
        parts[0]
    } else {
        joined(parts.drop_last(), sep) + sep + parts.last()
    }
}

/// The texts of a list of keys.
pub open spec fn key_texts(keys: Seq<&str>) -> Seq<Seq<char>> {
    keys.map_values(|k: &str| k@)
}

/// A list of keys as shown to the user: "j / ↓".
pub fn format_keys(keys: &[&str]) -> (res: String)
    ensures
        res@ == joined(key_texts(keys@), " / "@),
{
    let mut s = String::new();
    let mut i: usize = 0;
    while i < keys.len()
        invariant
            i <= keys@.len(),
            s@ == joined(key_texts(keys@.take(i as int)), " / "@),
        decreases keys@.len() - i,
    {
        if i > 0 {
            push_str(&mut s, " / ");
        }
        push_str(&mut s, keys[i]);
        proof {
            let next = key_texts(keys@.take(i + 1));
            assert(next.drop_last() =~= key_texts(keys@.take(i as int)));
            assert(next.last() == keys@[i as int]@);
            if i == 0 {
                assert(next.len() == 1);
            }
        }
        i = i + 1;
    }
    assert(keys@.take(i as int) =~= keys@);
    s
}

/// The spaces a help line puts after keys of `byte_len` bytes: four, up to
/// the sixteenth byte, then none.
pub open spec fn key_padding(byte_len: nat) -> nat {
    if byte_len < 16 { 4 } else { 0 }
}

/// A help line: the keys, then the description; keys under 16 bytes of
/// UTF-8 are followed by four spaces, longer keys by none
/// (`("Commit suivant", ["j", "↓"])` gives `"j / ↓    Commit suivant"`).
pub fn format_key_line(description: &str, keys: &[&str]) -> (res: String)
    ensures
        res@ == joined(key_texts(keys@), " / "@) + spaces(
            key_padding((encode_utf8(joined(key_texts(keys@), " / "@)).len() as usize) as nat),
        ) + description@,
{
    let keys_str = format_keys(keys);
    let keys_view = keys_str.as_str();
    let byte_len = keys_view.len();
    assert(byte_len == encode_utf8(keys_str@).len() as usize);
    let padding: usize = if byte_len < 16 { 4 } else { 0 };
    assert(padding == key_padding(byte_len as nat));
    let mut s = String::new();
    push_str(&mut s, keys_view);
    push_spaces(&mut s, padding);
    push_str(&mut s, description);
    assert(s@ =~= keys_str@ + spaces(padding as nat) + description@);
    s
}

} // verus!

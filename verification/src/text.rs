//! Unicode-safe truncation and padding, counted in characters.

use vstd::prelude::*;
use crate::strings::{chars_of, owned, push_char, push_spaces, push_str, spaces, string_from_chars};

verus! {

/// The ellipsis character appended or prepended by truncation.
pub open spec fn ellipsis_char() -> char {
    '…'
}

/// The text `truncate` produces: the whole text when it fits, otherwise its
/// first characters, the last one replaced by an ellipsis when requested.
pub open spec fn truncated(s: Seq<char>, max_len: nat, ellipsis: bool) -> Seq<char> {
    if s.len() <= max_len {
        s
    } else if ellipsis && max_len > 1 {
        s.take(max_len - 1).push(ellipsis_char())
    } else {
        s.take(max_len as int)
    }
}

/// The text `truncate_start` produces: the whole text when it fits, otherwise
/// its last characters, the first one replaced by an ellipsis when requested.
pub open spec fn truncated_start(s: Seq<char>, max_len: nat, ellipsis: bool) -> Seq<char> {
    if s.len() <= max_len {
        s
    } else if ellipsis && max_len > 1 {
        seq![ellipsis_char()] + s.skip(s.len() - (max_len - 1))
    } else {
        s.skip(s.len() - max_len)
    }
}

/// Truncates a string to at most `max_len` characters; with `ellipsis`, a
/// cut string ends with "…" (when at least two characters are allowed).
pub fn truncate(s: &str, max_len: usize, ellipsis: bool) -> (res: String)
    ensures
        res@ == truncated(s@, max_len as nat, ellipsis),
        res@.len() == if s@.len() <= max_len { s@.len() } else { max_len as nat },
{
    let chars = chars_of(s);
    let char_count = chars.len();
    if char_count <= max_len {
        owned(s)
    } else if ellipsis && max_len > 1 {
        let mut out = string_from_chars(&chars, 0, max_len - 1);
        push_char(&mut out, '…');
        assert(chars@.subrange(0, max_len - 1) =~= s@.take(max_len - 1));
        out
    } else {
        let out = string_from_chars(&chars, 0, max_len);
        assert(chars@.subrange(0, max_len as int) =~= s@.take(max_len as int));
        out
    }
}

/// Truncates a string from its start, keeping its end; with `ellipsis`, a
/// cut string starts with "…" (when at least two characters are allowed).
pub fn truncate_start(s: &str, max_len: usize, ellipsis: bool) -> (res: String)
    ensures
        res@ == truncated_start(s@, max_len as nat, ellipsis),
        res@.len() == if s@.len() <= max_len { s@.len() } else { max_len as nat },
{
    let chars = chars_of(s);
    let char_count = chars.len();
    if char_count <= max_len {
        owned(s)
    } else if ellipsis && max_len > 1 {
        let keep = max_len - 1;
        let skip = char_count - keep;
        let mut out = String::new();
        push_char(&mut out, '…');
        let rest = string_from_chars(&chars, skip, char_count);
        push_str(&mut out, rest.as_str());
        assert(chars@.subrange(skip as int, char_count as int) =~= s@.skip(skip as int));
        assert(out@ =~= seq!['…'] + s@.skip(skip as int));
        out
    } else {
        let out = string_from_chars(&chars, char_count - max_len, char_count);
        assert(chars@.subrange((char_count - max_len) as int, char_count as int)
            =~= s@.skip(char_count - max_len));
        out
    }
}

/// Pads a string with spaces on the right up to `width` characters.
pub fn pad_right(s: &str, width: usize) -> (res: String)
    ensures
        res@ == if s@.len() >= width { s@ } else { s@ + spaces((width - s@.len()) as nat) },
{
    let char_count = s.unicode_len();
    let mut out = owned(s);
    if char_count < width {
        push_spaces(&mut out, width - char_count);
    }
    out
}

/// Pads a string with spaces on the left up to `width` characters.
pub fn pad_left(s: &str, width: usize) -> (res: String)
    ensures
        res@ == if s@.len() >= width { s@ } else { spaces((width - s@.len()) as nat) + s@ },
{
    let char_count = s.unicode_len();
    if char_count >= width {
        owned(s)
    } else {
        let mut out = String::new();
        push_spaces(&mut out, width - char_count);
        push_str(&mut out, s);
        assert(out@ =~= spaces((width - char_count) as nat) + s@);
        out
    }
}

} // verus!

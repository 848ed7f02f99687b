//! Small character-level string building blocks.

use vstd::prelude::*;

verus! {

/// `n` copies of the space character.
pub open spec fn spaces(n: nat) -> Seq<char> {
    Seq::new(n, |_i: int| ' ')
}

/// Appends one character to a string (`String::push`).
#[verifier::external_body]
pub(crate) fn push_char(s: &mut String, c: char)
    ensures
        final(s)@ == old(s)@.push(c),
{
    s.push(c);
}

/// Copies a string slice into an owned string.
pub fn owned(s: &str) -> (res: String)
    ensures
        res@ == s@,
{
    s.to_owned()
}

/// The characters of a string slice.
pub fn chars_of(s: &str) -> (res: Vec<char>)
    ensures
        res@ == s@,
{
    let n = s.unicode_len();
    let mut out: Vec<char> = Vec::new();
    let mut i: usize = 0;
    while i < n
        invariant
            n == s@.len(),
            i <= n,
            out@ == s@.take(i as int),
        decreases n - i,
    {
        let c = s.get_char(i);
        out.push(c);
        i = i + 1;
        assert(out@ =~= s@.take(i as int));
    }
    assert(out@ =~= s@);
    out
}

/// Builds a string from the characters `chars[from..to]`.
pub fn string_from_chars(chars: &Vec<char>, from: usize, to: usize) -> (res: String)
    requires
        from <= to <= chars@.len(),
    ensures
        res@ == chars@.subrange(from as int, to as int),
{
    let mut out = String::new();
    let mut i: usize = from;
    while i < to
        invariant
            from <= i <= to <= chars@.len(),
            out@ == chars@.subrange(from as int, i as int),
        decreases to - i,
    {
        push_char(&mut out, chars[i]);
        i = i + 1;
        assert(out@ =~= chars@.subrange(from as int, i as int));
    }
    out
}

/// Appends `n` spaces to a string.
pub fn push_spaces(s: &mut String, n: usize)
    ensures
        final(s)@ == old(s)@ + spaces(n as nat),
{
    let ghost start = s@;
    let mut i: usize = 0;
    while i < n
        invariant
            i <= n,
            s@ == start + spaces(i as nat),
        decreases n - i,
    {
        push_char(s, ' ');
        i = i + 1;
        assert(s@ =~= start + spaces(i as nat));
    }
}

/// Appends a string slice to a string.
pub fn push_str(s: &mut String, other: &str)
    ensures
        final(s)@ == old(s)@ + other@,
{
    s.append(other);
}


/// The decimal digit character of `d < 10`.
pub open spec fn digit_char(d: nat) -> char {
    if d == 0 {
        '0'
    } else if d == 1 {
        '1'
    } else if d == 2 {
        '2'
    } else if d == 3 {
        '3'
    } else if d == 4 {
        '4'
    } else if d == 5 {
        '5'
    } else if d == 6 {
        '6'
    } else if d == 7 {
        '7'
    } else if d == 8 {
        '8'
    } else {
        '9'
    }
}

/// The decimal representation of a natural number, without leading zeros.
pub open spec fn decimal(n: nat) -> Seq<char>
    decreases n,
{
    if n < 10 {
        seq![digit_char(n)]
    } else {
        decimal(n / 10).push(digit_char(n % 10))
    }
}

fn digit(d: u64) -> (c: char)
    requires
        d < 10,
    ensures
        c == digit_char(d as nat),
{
    if d == 0 {
        '0'
    } else if d == 1 {
        '1'
    } else if d == 2 {
        '2'
    } else if d == 3 {
        '3'
    } else if d == 4 {
        '4'
    } else if d == 5 {
        '5'
    } else if d == 6 {
        '6'
    } else if d == 7 {
        '7'
    } else if d == 8 {
        '8'
    } else {
        '9'
    }
}

/// Appends the decimal representation of `n` to a string.
pub fn push_decimal(s: &mut String, n: u64)
    ensures
        final(s)@ == old(s)@ + decimal(n as nat),
    decreases n,
{
    let ghost start = s@;
    if n >= 10 {
        push_decimal(s, n / 10);
    }
    push_char(s, digit(n % 10));
    assert(s@ =~= start + decimal(n as nat));
}

/// The characters before the first line feed.
pub open spec fn before_newline(s: Seq<char>) -> Seq<char>
    decreases s.len(),
{
    if s.len() == 0 {
        s
    } else if s[0] == '\n' {
        Seq::empty()
    } else {
        seq![s[0]] + before_newline(s.drop_first())
    }
}

/// The first line of a text, as `str::lines` gives it: the characters
/// before the first line feed, without the carriage return that precedes
/// it. A text with no line feed is its own first line.
pub open spec fn first_line_of(s: Seq<char>) -> Seq<char> {
    let l = before_newline(s);
    if l.len() < s.len() && l.len() > 0 && l.last() == '\r' {
        l.drop_last()
    } else {
        l
    }
}

/// `before_newline` of a text whose first line feed is at `i` (or that has
/// none, `i` being its length).
pub proof fn lemma_before_newline(s: Seq<char>, i: int)
    requires
        0 <= i <= s.len(),
        forall|j: int| 0 <= j < i ==> s[j] != '\n',
        i == s.len() || s[i] == '\n',
    ensures
        before_newline(s) == s.take(i),
    decreases s.len(),
{
    if s.len() > 0 && s[0] != '\n' {
        lemma_before_newline(s.drop_first(), i - 1);
        assert(s.take(i) =~= seq![s[0]] + s.drop_first().take(i - 1));
    } else {
        assert(s.take(i) =~= Seq::<char>::empty());
    }
}


/// `before_newline` takes no more characters than the text has.
pub proof fn lemma_before_newline_len(s: Seq<char>)
    ensures
        before_newline(s).len() <= s.len(),
    decreases s.len(),
{
    if s.len() > 0 && s[0] != '\n' {
        lemma_before_newline_len(s.drop_first());
    }
}

/// The lines of a text, as `str::lines` gives them: split at each line
/// feed, a carriage return before a line feed dropped, and no empty line
/// after a final line feed.
pub open spec fn text_lines(s: Seq<char>) -> Seq<Seq<char>>
    decreases s.len(),
{
    if s.len() == 0 {
        Seq::empty()
    } else {
        let l = before_newline(s);
        proof {
            lemma_before_newline_len(s);
        }
        if l.len() >= s.len() {
            seq![first_line_of(s)]
        } else {
            seq![first_line_of(s)] + text_lines(s.skip(l.len() as int + 1))
        }
    }
}

/// The characters before the first line feed hold no line feed.
pub proof fn lemma_before_newline_no_feed(s: Seq<char>)
    ensures
        forall|j: int| 0 <= j < before_newline(s).len() ==> before_newline(s)[j] != '\n',
    decreases s.len(),
{
    if s.len() > 0 && s[0] != '\n' {
        lemma_before_newline_no_feed(s.drop_first());
        let rest = before_newline(s.drop_first());
        assert forall|j: int| 0 <= j < before_newline(s).len() implies before_newline(s)[j] != '\n' by {
            if j > 0 {
                assert(before_newline(s)[j] == rest[j - 1]);
            }
        }
    }
}

/// No line of a text holds a line feed.
pub proof fn law_text_lines_have_no_line_feed(s: Seq<char>)
    ensures
        forall|i: int, j: int|
            0 <= i < text_lines(s).len() && 0 <= j < text_lines(s)[i].len() ==> text_lines(s)[i][j] != '\n',
    decreases s.len(),
{
    if s.len() > 0 {
        lemma_before_newline_no_feed(s);
        lemma_before_newline_len(s);
        let l = before_newline(s);
        let first = first_line_of(s);
        assert forall|j: int| 0 <= j < first.len() implies first[j] != '\n' by {
            assert(first[j] == l[j]);
        }
        if l.len() < s.len() {
            law_text_lines_have_no_line_feed(s.skip(l.len() as int + 1));
            let rest = text_lines(s.skip(l.len() as int + 1));
            assert forall|i: int, j: int|
                0 <= i < text_lines(s).len() && 0 <= j < text_lines(s)[i].len() implies text_lines(s)[i][j] != '\n' by {
                if i > 0 {
                    assert(text_lines(s)[i] == rest[i - 1]);
                }
            }
        }
    }
}

/// The views of a sequence of strings.
pub open spec fn strings_view(v: Seq<String>) -> Seq<Seq<char>> {
    v.map_values(|x: String| x@)
}

/// The lines of a text (see `text_lines`).
pub fn split_lines(s: &str) -> (res: Vec<String>)
    ensures
        strings_view(res@) == text_lines(s@),
{
    let chars = chars_of(s);
    let n = chars.len();
    let mut out: Vec<String> = Vec::new();
    let mut pos: usize = 0;
    assert(s@.skip(0) =~= s@);
    assert(strings_view(out@) + text_lines(s@) =~= text_lines(s@));
    while pos < n
        invariant
            n == chars@.len(),
            chars@ == s@,
            pos <= n,
            strings_view(out@) + text_lines(s@.skip(pos as int)) == text_lines(s@),
        decreases n - pos,
    {
        let mut i: usize = pos;
        while i < n && chars[i] != '\n'
            invariant
                n == chars@.len(),
                pos <= i <= n,
                forall|j: int| pos <= j < i ==> chars@[j] != '\n',
            decreases n - i,
        {
            i = i + 1;
        }
        let ghost t = s@.skip(pos as int);
        proof {
            lemma_before_newline(t, i - pos);
            assert(t.take(i - pos) =~= chars@.subrange(pos as int, i as int));
        }
        let end = if i < n && i > pos && chars[i - 1] == '\r' {
            i - 1
        } else {
            i
        };
        let line = string_from_chars(&chars, pos, end);
        assert(line@ =~= first_line_of(t));
        let ghost before = strings_view(out@);
        out.push(line);
        assert(strings_view(out@) =~= before.push(line@));
        if i < n {
            assert(t.skip(i - pos + 1) =~= s@.skip(i + 1));
            pos = i + 1;
        } else {
            assert(s@.skip(n as int) =~= Seq::<char>::empty());
            pos = n;
        }
        assert(strings_view(out@) + text_lines(s@.skip(pos as int)) =~= before + text_lines(t));
    }
    assert(s@.skip(pos as int) =~= Seq::<char>::empty());
    assert(strings_view(out@) =~= text_lines(s@));
    out
}
} // verus!

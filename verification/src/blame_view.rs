//! The blame view: each line of a file with the commit, author and date
//! that last changed it.

use vstd::prelude::*;
use crate::diff_view::lines_view;
use crate::i18n::Language;
use crate::strings::{chars_of, decimal, push_char, push_decimal, push_spaces, push_str, spaces,
    string_from_chars};
use crate::style::{Segment, SegmentStyle, SegmentView, ThemeColor, sat_sub, segments_view};
use crate::time::{format_relative_time, is_relative_date_of};
use crate::watcher::FileStamp;
use vstd::utf8::encode_utf8;

verus! {

/// Width of the hash column.
pub const HASH_WIDTH: usize = 7;

/// Width of the author column.
pub const AUTHOR_WIDTH: usize = 12;

/// Width of the date column.
pub const TIME_WIDTH: usize = 10;

/// One annotated line of a file.
#[derive(Debug, Clone)]
pub struct BlameLine {
    pub short_hash: String,
    pub author: String,
    /// When the commit was made.
    pub timestamp: FileStamp,
    /// Line number in the file.
    pub line_num: usize,
    pub content: String,
}

/// The annotated lines of a file.
#[derive(Debug, Clone)]
pub struct FileBlame {
    pub path: String,
    pub lines: Vec<BlameLine>,
}

/// State of the blame view.
#[derive(Debug, Clone)]
pub struct BlameState {
    /// The annotation, once loaded.
    pub blame: Option<FileBlame>,
    pub file_path: String,
    pub scroll_offset: usize,
    pub selected_line: usize,
}

/// The blame view of a state.
pub struct BlameView<'a> {
    pub state: &'a BlameState,
}

impl<'a> BlameView<'a> {
    /// The view of a blame state.
    pub fn new(state: &'a BlameState) -> (res: Self)
        ensures
            res.state == state,
    {
        BlameView { state }
    }
}

/// The title of the view: the annotated file's path, or the requested path
/// while the annotation loads.
pub open spec fn blame_title_text(state: BlameState) -> Seq<char> {
    " Blame: "@ + match state.blame {
        Some(b) => b.path@,
        None => state.file_path@,
    } + " "@
}

/// The title of the blame view (see `blame_title_text`).
pub fn blame_title(state: &BlameState) -> (res: String)
    ensures
        res@ == blame_title_text(*state),
{
    let mut s = String::new();
    push_str(&mut s, " Blame: ");
    match &state.blame {
        Some(b) => push_str(&mut s, b.path.as_str()),
        None => push_str(&mut s, state.file_path.as_str()),
    }
    push_str(&mut s, " ");
    s
}

/// The seconds of a commit time since the epoch, as the view counts them:
/// times before the epoch count as zero, and the whole seconds are taken as
/// an `i64`, cut to its width as an `as` conversion does.
pub open spec fn timestamp_seconds(t: FileStamp) -> i64 {
    if t.before_epoch && t.nanos > 0 {
        0
    } else {
        ((t.nanos / 1_000_000_000) as u64) as i64
    }
}

/// The seconds of a commit time since the epoch (see `timestamp_seconds`).
pub fn seconds_of(t: FileStamp) -> (res: i64)
    ensures
        res == timestamp_seconds(t),
{
    if t.before_epoch && t.nanos > 0 {
        0
    } else {
        ((t.nanos / 1_000_000_000) as u64) as i64
    }
}

/// A text padded with spaces on its right to `width` characters.
pub open spec fn left_aligned(text: Seq<char>, width: int) -> Seq<char> {
    text + spaces(sat_sub(width, text.len() as int) as nat)
}

/// A text padded with spaces on its left to `width` characters.
pub open spec fn right_aligned(text: Seq<char>, width: int) -> Seq<char> {
    spaces(sat_sub(width, text.len() as int) as nat) + text
}

/// A text whose UTF-8 form is longer than `width` bytes (its byte length as
/// `str::len` gives it) is cut to `width - 1` characters and ended with an
/// ellipsis; any other is padded on its right to `width` characters.
pub open spec fn fitted(text: Seq<char>, width: int) -> Seq<char> {
    if (encode_utf8(text).len() as usize) > width {
        text.take(if width - 1 < text.len() {
            width - 1
        } else {
            text.len() as int
        }).push('…')
    } else {
        left_aligned(text, width)
    }
}

/// The width of the line number column: the digits of the line count, at
/// least four.
pub open spec fn number_width(line_count: nat) -> int {
    if decimal(line_count).len() > 4 {
        decimal(line_count).len() as int
    } else {
        4
    }
}

/// The segments of one annotated line: hash, author, date, line number and
/// content, on the selection background when selected.
pub open spec fn blame_row(
    line: BlameLine,
    is_selected: bool,
    num_width: int,
    relative_time: Seq<char>,
) -> Seq<SegmentView> {
    let bg = if is_selected {
        ThemeColor::DarkGray
    } else {
        ThemeColor::Reset
    };
    seq![
        SegmentView {
            text: left_aligned(line.short_hash@, HASH_WIDTH as int) + " "@,
            style: SegmentStyle { fg: Some(ThemeColor::Yellow), bg: Some(bg), bold: false, dim: false, italic: false, underline: false },
        },
        SegmentView {
            text: fitted(line.author@, AUTHOR_WIDTH as int) + " "@,
            style: SegmentStyle { fg: Some(ThemeColor::Cyan), bg: Some(bg), bold: false, dim: false, italic: false, underline: false },
        },
        SegmentView {
            text: " "@ + fitted(relative_time, TIME_WIDTH as int) + " "@,
            style: SegmentStyle { fg: Some(ThemeColor::Gray), bg: Some(bg), bold: false, dim: true, italic: false, underline: false },
        },
        SegmentView {
            text: right_aligned(decimal(line.line_num as nat), num_width) + " "@,
            style: SegmentStyle { fg: Some(ThemeColor::Gray), bg: Some(bg), bold: false, dim: true, italic: false, underline: false },
        },
        SegmentView {
            text: line.content@,
            style: SegmentStyle { fg: None, bg: Some(bg), bold: false, dim: false, italic: false, underline: false },
        },
    ]
}

fn push_left_aligned(s: &mut String, text: &str, width: usize)
    ensures
        final(s)@ == old(s)@ + left_aligned(text@, width as int),
{
    push_str(s, text);
    push_spaces(s, width.saturating_sub(text.unicode_len()));
}

fn push_fitted(s: &mut String, text: &str, width: usize)
    requires
        width >= 1,
    ensures
        final(s)@ == old(s)@ + fitted(text@, width as int),
{
    let ghost start = s@;
    if text.len() > width {
        let chars = chars_of(text);
        let keep = if width - 1 < chars.len() {
            width - 1
        } else {
            chars.len()
        };
        let cut = string_from_chars(&chars, 0, keep);
        push_str(s, cut.as_str());
        push_char(s, '…');
        assert(chars@.subrange(0, keep as int) =~= text@.take(keep as int));
        assert(s@ =~= start + fitted(text@, width as int));
    } else {
        push_left_aligned(s, text, width);
    }
}

fn styled(fg: ThemeColor, bg: ThemeColor, dim: bool) -> (res: SegmentStyle)
    ensures
        res == (SegmentStyle { fg: Some(fg), bg: Some(bg), bold: false, dim, italic: false, underline: false }),
{
    SegmentStyle { fg: Some(fg), bg: Some(bg), bold: false, dim, italic: false, underline: false }
}

/// The segments of one annotated line (see `blame_row`).
pub fn blame_line_segments(
    line: &BlameLine,
    is_selected: bool,
    num_width: usize,
    relative_time: &str,
) -> (res: Vec<Segment>)
    ensures
        segments_view(res@) == blame_row(*line, is_selected, num_width as int, relative_time@),
{
    let bg = if is_selected {
        ThemeColor::DarkGray
    } else {
        ThemeColor::Reset
    };
    let mut hash = String::new();
    push_left_aligned(&mut hash, line.short_hash.as_str(), HASH_WIDTH);
    push_str(&mut hash, " ");
    let mut author = String::new();
    push_fitted(&mut author, line.author.as_str(), AUTHOR_WIDTH);
    push_str(&mut author, " ");
    let mut time = String::new();
    push_str(&mut time, " ");
    push_fitted(&mut time, relative_time, TIME_WIDTH);
    push_str(&mut time, " ");
    let mut digits = String::new();
    push_decimal(&mut digits, line.line_num as u64);
    let mut number = String::new();
    push_spaces(&mut number, num_width.saturating_sub(digits.as_str().unicode_len()));
    push_str(&mut number, digits.as_str());
    push_str(&mut number, " ");
    let mut content = String::new();
    push_str(&mut content, line.content.as_str());
    let mut v: Vec<Segment> = Vec::new();
    v.push(Segment { text: hash, style: styled(ThemeColor::Yellow, bg, false) });
    v.push(Segment { text: author, style: styled(ThemeColor::Cyan, bg, false) });
    v.push(Segment { text: time, style: styled(ThemeColor::Gray, bg, true) });
    v.push(Segment { text: number, style: styled(ThemeColor::Gray, bg, true) });
    v.push(
        Segment {
            text: content,
            style: SegmentStyle { fg: None, bg: Some(bg), bold: false, dim: false, italic: false, underline: false },
        },
    );
    assert(segments_view(v@) =~= blame_row(*line, is_selected, num_width as int, relative_time@));
    v
}

/// The width of the line number column for a file of `line_count` lines
/// (see `number_width`).
pub fn line_number_width(line_count: usize) -> (res: usize)
    ensures
        res == number_width(line_count as nat),
{
    let mut digits = String::new();
    push_decimal(&mut digits, line_count as u64);
    let n = digits.as_str().unicode_len();
    if n > 4 {
        n
    } else {
        4
    }
}

/// Whether `row` is the line of `line`, its date being the time elapsed
/// since the line's commit (`seconds_of` its time).
pub open spec fn is_blame_row_of(row: Vec<Segment>, line: BlameLine, is_selected: bool, num_width: int, lang: Language) -> bool {
    exists|t: Seq<char>|
        is_relative_date_of(t, timestamp_seconds(line.timestamp), lang)
            && segments_view(row@) == blame_row(line, is_selected, num_width, t)
}

/// The rows shown for a height of `visible_height` lines: from the scroll
/// offset on, each with the time elapsed since its commit.
pub fn render_blame_content(
    blame: &FileBlame,
    state: &BlameState,
    visible_height: usize,
    lang: Language,
) -> (res: Vec<Vec<Segment>>)
    requires
        state.scroll_offset <= blame.lines@.len(),
        state.scroll_offset + visible_height <= usize::MAX,
    ensures
        ({
            let start = state.scroll_offset as int;
            let end = if start + visible_height < blame.lines@.len() {
                start + visible_height
            } else {
                blame.lines@.len() as int
            };
            &&& res@.len() == end - start
            &&& forall|i: int|
                0 <= i < end - start ==> is_blame_row_of(
                    #[trigger] res@[i],
                    blame.lines@[start + i],
                    start + i == state.selected_line,
                    number_width(blame.lines@.len()),
                    lang,
                )
        }),
{
    let start = state.scroll_offset;
    let end = if start + visible_height < blame.lines.len() {
        start + visible_height
    } else {
        blame.lines.len()
    };
    let width = line_number_width(blame.lines.len());
    let mut rows: Vec<Vec<Segment>> = Vec::new();
    let mut i: usize = start;
    while i < end
        invariant
            start == state.scroll_offset,
            start <= i <= end <= blame.lines@.len(),
            width == number_width(blame.lines@.len()),
            rows@.len() == i - start,
            forall|k: int|
                0 <= k < i - start ==> is_blame_row_of(
                    #[trigger] rows@[k],
                    blame.lines@[start + k],
                    start + k == state.selected_line,
                    number_width(blame.lines@.len()),
                    lang,
                ),
        decreases end - i,
    {
        let line = &blame.lines[i];
        let time = format_relative_time(seconds_of(line.timestamp), lang);
        let row = blame_line_segments(line, i == state.selected_line, width, time.as_str());
        rows.push(row);
        proof {
            assert(is_relative_date_of(time@, timestamp_seconds(line.timestamp), lang));
            assert(is_blame_row_of(rows@[i - start], blame.lines@[i as int], i == state.selected_line, number_width(blame.lines@.len()), lang));
        }
        i = i + 1;
    }
    rows
}

} // verus!

//! Loading indicator: a spinner that turns with the time elapsed since it
//! started.

use vstd::prelude::*;
use std::time::{Duration, Instant};
use crate::strings::push_str;
use crate::style::{Segment, SegmentStyle, SegmentView, ThemeColor, segments_view};

use crate::diff_view::lines_view;
use crate::lines::{empty_line, plain_line, push_line};

verus! {

#[verifier::external_type_specification]
#[verifier::external_body]
pub struct ExInstant(std::time::Instant);

/// The frames of the spinner animation.
pub const SPINNER_CHARS: [&'static str; 10] = ["⠋", "⠙", "⠹", "⠸", "⠼", "⠴", "⠦", "⠧", "⠇", "⠏"];

/// Milliseconds between two frames of the spinner.
pub const SPINNER_INTERVAL_MS: usize = 80;

/// The current instant (`Instant::now`).
#[verifier::external_body]
fn instant_now() -> Instant {
    Instant::now()
}

/// Time elapsed since an instant (`Instant::elapsed`); it depends on the
/// clock, so nothing is promised of it.
#[verifier::external_body]
fn instant_elapsed(start: &Instant) -> Duration {
    start.elapsed()
}

/// Whole milliseconds of a duration (`Duration::as_millis`). The duration
/// is opaque here, so nothing is promised of the value.
#[verifier::external_body]
fn duration_millis(d: &Duration) -> u128 {
    d.as_millis()
}

/// The frame shown after `elapsed_ms` milliseconds: one frame every 80 ms,
/// round the ten frames. The milliseconds are taken as a `usize`, cut to its
/// width as an `as` conversion does.
pub open spec fn frame_at(elapsed_ms: u128) -> usize {
    (((elapsed_ms as usize) / 80) % 10) as usize
}

/// The frame index shown after `elapsed_ms` milliseconds (see `frame_at`).
pub fn frame_index(elapsed_ms: u128) -> (res: usize)
    ensures
        res == frame_at(elapsed_ms),
        res < 10,
{
    let ms = elapsed_ms as usize;
    (ms / SPINNER_INTERVAL_MS) % 10
}

/// State of a loading spinner.
pub struct LoadingSpinner {
    message: String,
    start_time: Instant,
    last_frame: usize,
}

impl LoadingSpinner {
    /// The message shown beside the spinner.
    pub closed spec fn message_view(&self) -> Seq<char> {
        self.message@
    }

    /// The frame computed by the last call of `current_frame`.
    pub closed spec fn last_frame(&self) -> usize {
        self.last_frame
    }

    /// When the spinner started.
    pub closed spec fn start_time(&self) -> Instant {
        self.start_time
    }

    /// A spinner started now, showing a message.
    pub fn new(message: &str) -> (res: Self)
        ensures
            res.message_view() == message@,
            res.last_frame() == 0,
    {
        LoadingSpinner { message: message.to_owned(), start_time: instant_now(), last_frame: 0 }
    }

    /// The frame to show now, remembered as the last frame: that of the
    /// milliseconds elapsed since the start, as the clock gives them.
    pub fn current_frame(&mut self) -> (res: usize)
        ensures
            res < 10,
            exists|ms: u128| res == frame_at(ms),
            final(self).last_frame() == res,
            final(self).message_view() == old(self).message_view(),
            final(self).start_time() == old(self).start_time(),
    {
        let elapsed = instant_elapsed(&self.start_time);
        let ms = duration_millis(&elapsed);
        let frame = frame_index(ms);
        self.last_frame = frame;
        frame
    }

    /// The spinner character to show now.
    pub fn current_char(&mut self) -> (res: &'static str)
        ensures
            final(self).last_frame() < 10,
            res@ == SPINNER_CHARS@[final(self).last_frame() as int]@,
            exists|ms: u128| final(self).last_frame() == frame_at(ms),
            final(self).message_view() == old(self).message_view(),
            final(self).start_time() == old(self).start_time(),
    {
        let frame = self.current_frame();
        SPINNER_CHARS[frame]
    }

    /// Whether the spinner is still running: always, a caller wanting a
    /// timeout handles it itself.
    pub fn is_active(&self) -> (res: bool)
        ensures
            res,
    {
        true
    }

    /// Changes the message shown beside the spinner.
    pub fn set_message(&mut self, message: &str)
        ensures
            final(self).message_view() == message@,
            final(self).last_frame() == old(self).last_frame(),
            final(self).start_time() == old(self).start_time(),
    {
        self.message = message.to_owned();
    }

    /// The message shown beside the spinner.
    pub fn message(&self) -> (res: &str)
        ensures
            res@ == self.message_view(),
    {
        self.message.as_str()
    }
}

/// The inline spinner line: the spinner character in bold cyan, a space
/// and the message in white.
pub open spec fn inline_line(frame: usize, message: Seq<char>) -> Seq<SegmentView> {
    seq![
        SegmentView {
            text: SPINNER_CHARS@[frame as int]@,
            style: SegmentStyle {
                fg: Some(ThemeColor::Cyan),
                bg: None,
                bold: true,
                dim: false,
                italic: false, underline: false,
            },
        },
        SegmentView { text: " "@, style: SegmentStyle::plain_spec() },
        SegmentView { text: message, style: SegmentStyle::fg_spec(ThemeColor::White) },
    ]
}

/// The spinner as an inline line (for status bars), at its current frame.
pub fn render_inline(spinner: &mut LoadingSpinner) -> (res: Vec<Segment>)
    ensures
        segments_view(res@) == inline_line(final(spinner).last_frame(), final(spinner).message_view()),
        final(spinner).message_view() == old(spinner).message_view(),
        exists|ms: u128| final(spinner).last_frame() == frame_at(ms),
{
    let c = spinner.current_char();
    let mut glyph = String::new();
    push_str(&mut glyph, c);
    let mut space = String::new();
    push_str(&mut space, " ");
    let mut v: Vec<Segment> = Vec::new();
    v.push(
        Segment {
            text: glyph,
            style: SegmentStyle {
                fg: Some(ThemeColor::Cyan),
                bg: None,
                bold: true,
                dim: false,
                italic: false, underline: false,
            },
        },
    );
    v.push(Segment { text: space, style: SegmentStyle::plain() });
    v.push(Segment { text: spinner.message().to_owned(), style: SegmentStyle::fg(ThemeColor::White) });
    assert(segments_view(v@) =~= inline_line(spinner.last_frame(), spinner.message_view()));
    v
}

/// Title of the loading overlay.
pub const LOADING_TITLE: &'static str = " Chargement ";

/// The lines of the loading overlay: a blank line, then the spinner line
/// at its current frame.
pub fn render_overlay_lines(spinner: &mut LoadingSpinner) -> (res: Vec<Vec<Segment>>)
    ensures
        lines_view(res@) == seq![plain_line(Seq::empty()), inline_line(final(spinner).last_frame(), final(spinner).message_view())],
        final(spinner).message_view() == old(spinner).message_view(),
        exists|ms: u128| final(spinner).last_frame() == frame_at(ms),
{
    let mut lines: Vec<Vec<Segment>> = Vec::new();
    push_line(&mut lines, empty_line());
    let inline = render_inline(spinner);
    push_line(&mut lines, inline);
    lines
}

} // verus!

//! What the panels share: the circular selection and the cells of a row.

use vstd::prelude::*;
use vstd::arithmetic::div_mod::{lemma_mod_self_0, lemma_small_mod};
use crate::text::{center, center_string, contains, contains_str, same_text};
use crate::{BlenderVersion, VersionView};

verus! {

/// A selection is valid for a list of `len` rows: it points at a row, or at
/// zero where there is none.
pub open spec fn selection_ok(selected: nat, len: nat) -> bool {
    selected < len || (len == 0 && selected == 0)
}

/// The row after `current` in a list of `len` rows, the first after the last.
/// With no rows the selection stays.
pub open spec fn next_index(current: nat, len: nat) -> nat {
    if len == 0 {
        current
    } else {
        (current + 1) % len
    }
}

/// The row before `current` in a list of `len` rows, the last before the
/// first. With no rows the selection stays.
pub open spec fn prev_index(current: nat, len: nat) -> nat {
    if len == 0 {
        current
    } else if current == 0 {
        (len - 1) as nat
    } else {
        (current - 1) as nat
    }
}

/// The selection that is kept when the list changes to `len` rows: the same
/// row where there still is one, the first otherwise.
pub open spec fn kept_index(current: nat, len: nat) -> nat {
    if current < len {
        current
    } else {
        0
    }
}

/// The selection after `times` steps forward.
pub open spec fn advance(current: nat, len: nat, times: nat) -> nat
    decreases times,
{
    if times == 0 {
        current
    } else {
        next_index(advance(current, len, (times - 1) as nat), len)
    }
}

/// The selection after `times` steps back.
pub open spec fn retreat(current: nat, len: nat, times: nat) -> nat
    decreases times,
{
    if times == 0 {
        current
    } else {
        prev_index(retreat(current, len, (times - 1) as nat), len)
    }
}

/// A step forward from a valid selection goes to the next row, and from the
/// last row to the first.
pub proof fn lemma_next_index(current: nat, len: nat)
    requires
        current < len,
    ensures
        next_index(current, len) == if current + 1 == len {
            0
        } else {
            current + 1
        },
        selection_ok(next_index(current, len), len),
{
    if current + 1 == len {
        lemma_mod_self_0(len as int);
    } else {
        lemma_small_mod(current + 1, len);
    }
}

proof fn lemma_advance(current: nat, len: nat, times: nat)
    requires
        current < len,
        times <= len,
    ensures
        advance(current, len, times) == if current + times < len {
            current + times
        } else {
            (current + times - len) as nat
        },
    decreases times,
{
    if times > 0 {
        lemma_advance(current, len, (times - 1) as nat);
        lemma_next_index(advance(current, len, (times - 1) as nat), len);
    }
}

proof fn lemma_retreat(current: nat, len: nat, times: nat)
    requires
        current < len,
        times <= len,
    ensures
        retreat(current, len, times) == if times <= current {
            (current - times) as nat
        } else {
            (current + len - times) as nat
        },
    decreases times,
{
    if times > 0 {
        lemma_retreat(current, len, (times - 1) as nat);
    }
}

/// In a list that is not empty, as many steps forward as it has rows lead
/// back to the row they started from.
pub proof fn lemma_increment_cycle(current: nat, len: nat)
    requires
        current < len,
    ensures
        advance(current, len, len) == current,
{
    lemma_advance(current, len, len);
}

/// In a list that is not empty, as many steps back as it has rows lead back
/// to the row they started from.
pub proof fn lemma_decrement_cycle(current: nat, len: nat)
    requires
        current < len,
    ensures
        retreat(current, len, len) == current,
{
    lemma_retreat(current, len, len);
}

/// A step back undoes a step forward, and a step forward a step back.
pub proof fn lemma_steps_are_inverse(current: nat, len: nat)
    requires
        selection_ok(current, len),
    ensures
        prev_index(next_index(current, len), len) == current,
        next_index(prev_index(current, len), len) == current,
        selection_ok(next_index(current, len), len),
        selection_ok(prev_index(current, len), len),
{
    if len > 0 {
        lemma_next_index(current, len);
        lemma_next_index(prev_index(current, len), len);
    }
}

/// In an empty list no number of steps, forward or back, moves the selection.
pub proof fn lemma_empty_list_stays(current: nat, times: nat)
    ensures
        advance(current, 0, times) == current,
        retreat(current, 0, times) == current,
    decreases times,
{
    if times > 0 {
        lemma_empty_list_stays(current, (times - 1) as nat);
    }
}

/// The selection one row further in a list of `len` rows.
pub fn step_forward(selected: usize, len: usize) -> (next: usize)
    requires
        selection_ok(selected as nat, len as nat),
    ensures
        next == next_index(selected as nat, len as nat),
        selection_ok(next as nat, len as nat),
{
    if len == 0 {
        selected
    } else {
        proof {
            lemma_next_index(selected as nat, len as nat);
        }
        if selected + 1 >= len {
            0
        } else {
            selected + 1
        }
    }
}

/// The selection one row back in a list of `len` rows.
pub fn step_back(selected: usize, len: usize) -> (previous: usize)
    requires
        selection_ok(selected as nat, len as nat),
    ensures
        previous == prev_index(selected as nat, len as nat),
        selection_ok(previous as nat, len as nat),
{
    if len == 0 {
        selected
    } else if selected == 0 {
        len - 1
    } else {
        selected - 1
    }
}

/// The colours of the interface.
#[derive(Clone, Copy, Debug, PartialEq, Eq)]
pub enum Color {
    Green,
    Magenta,
    Gray,
    Red,
    Cyan,
    LightCyan,
}

/// The channel that a build was released on.
#[derive(Clone, Copy, Debug, PartialEq, Eq)]
pub enum ReleaseChannel {
    Stable,
    Beta,
    Alpha,
    Candidate,
    Unknown,
}

/// A piece of text with its colours; `None` leaves a colour as it is.
#[derive(Debug)]
pub struct Span {
    pub content: String,
    pub fg: Option<Color>,
    pub bg: Option<Color>,
}

/// The mathematical value of a `Span`.
#[verifier::ext_equal]
pub struct SpanView {
    pub content: Seq<char>,
    pub fg: Option<Color>,
    pub bg: Option<Color>,
}

impl View for Span {
    type V = SpanView;

    open spec fn view(&self) -> SpanView {
        SpanView { content: self.content@, fg: self.fg, bg: self.bg }
    }
}

/// A bordered box with a title and rows of spans.
#[derive(Debug)]
pub struct Panel {
    pub title: String,
    pub border: Option<Color>,
    pub lines: Vec<Vec<Span>>,
}

/// The mathematical value of a `Panel`.
#[verifier::ext_equal]
pub struct PanelView {
    pub title: Seq<char>,
    pub border: Option<Color>,
    pub lines: Seq<Seq<SpanView>>,
}

/// The values of the spans of a row.
pub open spec fn line_view(line: Seq<Span>) -> Seq<SpanView> {
    line.map_values(|span: Span| span@)
}

/// The values of the rows of a panel.
pub open spec fn lines_view(lines: Seq<Vec<Span>>) -> Seq<Seq<SpanView>> {
    lines.map_values(|line: Vec<Span>| line_view(line@))
}

impl View for Panel {
    type V = PanelView;

    open spec fn view(&self) -> PanelView {
        PanelView { title: self.title@, border: self.border, lines: lines_view(self.lines@) }
    }
}

/// The channel that a release name stands for.
pub open spec fn channel_of(release: Seq<char>) -> ReleaseChannel {
    if release == "stable"@ {
        ReleaseChannel::Stable
    } else if release == "beta"@ {
        ReleaseChannel::Beta
    } else if release == "candidate"@ {
        ReleaseChannel::Candidate
    } else if release == "alpha"@ {
        ReleaseChannel::Alpha
    } else {
        ReleaseChannel::Unknown
    }
}

/// The background of a version: green for the 4.2 series, magenta for 4.3,
/// gray for the rest.
pub open spec fn version_color(version: Seq<char>) -> Color {
    if contains(version, "4.2"@) {
        Color::Green
    } else if contains(version, "4.3"@) {
        Color::Magenta
    } else {
        Color::Gray
    }
}

/// The cell that shows a build's version: centred in ten columns, on the
/// colour of its series.
pub open spec fn version_cell(version: VersionView) -> SpanView {
    SpanView {
        content: center(version.version, 10),
        fg: None,
        bg: Some(version_color(version.version)),
    }
}

/// The cell that shows a build's release: the name centred in eleven columns
/// and coloured by channel, or nothing, in red, for an unknown channel.
pub open spec fn release_cell(version: VersionView) -> SpanView {
    match channel_of(version.release) {
        ReleaseChannel::Stable => SpanView {
            content: center(version.release, 11),
            fg: Some(Color::Green),
            bg: None,
        },
        ReleaseChannel::Beta => SpanView {
            content: center(version.release, 11),
            fg: Some(Color::Magenta),
            bg: None,
        },
        ReleaseChannel::Candidate => SpanView {
            content: center(version.release, 11),
            fg: Some(Color::Red),
            bg: None,
        },
        ReleaseChannel::Alpha => SpanView {
            content: center(version.release, 11),
            fg: Some(Color::Gray),
            bg: None,
        },
        ReleaseChannel::Unknown => SpanView {
            content: Seq::empty(),
            fg: Some(Color::Red),
            bg: None,
        },
    }
}

/// A cell of plain text.
pub open spec fn raw_cell(text: Seq<char>) -> SpanView {
    SpanView { content: text, fg: None, bg: None }
}

/// A row as it is drawn: on light cyan where it is the selected one.
pub open spec fn drawn(line: Seq<SpanView>, selected: bool) -> Seq<SpanView> {
    if selected {
        line.map_values(|span: SpanView| SpanView { bg: Some(Color::LightCyan), ..span })
    } else {
        line
    }
}

/// The border of a panel: magenta where it has the focus, cyan otherwise.
pub open spec fn border_color(focused: bool) -> Color {
    if focused {
        Color::Magenta
    } else {
        Color::Cyan
    }
}

/// The border of a panel.
pub fn border_color_of(focused: bool) -> (color: Color)
    ensures
        color == border_color(focused),
{
    if focused {
        Color::Magenta
    } else {
        Color::Cyan
    }
}

/// The channel that a release name stands for.
pub fn release_channel(release: &str) -> (channel: ReleaseChannel)
    ensures
        channel == channel_of(release@),
{
    if same_text(release, "stable") {
        ReleaseChannel::Stable
    } else if same_text(release, "beta") {
        ReleaseChannel::Beta
    } else if same_text(release, "candidate") {
        ReleaseChannel::Candidate
    } else if same_text(release, "alpha") {
        ReleaseChannel::Alpha
    } else {
        ReleaseChannel::Unknown
    }
}

/// The cell that shows a build's version.
pub fn version_span(version: &BlenderVersion) -> (span: Span)
    ensures
        span@ == version_cell(version@),
{
    let text = version.version.as_str();
    let color = if contains_str(text, "4.2") {
        Color::Green
    } else if contains_str(text, "4.3") {
        Color::Magenta
    } else {
        Color::Gray
    };
    Span { content: center_string(text, 10), fg: None, bg: Some(color) }
}

/// The cell that shows a build's release.
pub fn release_span(version: &BlenderVersion) -> (span: Span)
    ensures
        span@ == release_cell(version@),
{
    let text = version.release.as_str();
    match release_channel(text) {
        ReleaseChannel::Stable => Span {
            content: center_string(text, 11),
            fg: Some(Color::Green),
            bg: None,
        },
        ReleaseChannel::Beta => Span {
            content: center_string(text, 11),
            fg: Some(Color::Magenta),
            bg: None,
        },
        ReleaseChannel::Candidate => Span {
            content: center_string(text, 11),
            fg: Some(Color::Red),
            bg: None,
        },
        ReleaseChannel::Alpha => Span {
            content: center_string(text, 11),
            fg: Some(Color::Gray),
            bg: None,
        },
        ReleaseChannel::Unknown => Span { content: String::new(), fg: Some(Color::Red), bg: None },
    }
}

/// A cell of plain text.
pub fn raw_span(text: &str) -> (span: Span)
    ensures
        span@ == raw_cell(text@),
{
    Span { content: text.to_owned(), fg: None, bg: None }
}

/// Puts a row on light cyan where it is the selected one.
pub fn draw(line: Vec<Span>, selected: bool) -> (out: Vec<Span>)
    ensures
        line_view(out@) == drawn(line_view(line@), selected),
{
    if !selected {
        return line;
    }
    let mut out: Vec<Span> = Vec::new();
    let mut i: usize = 0;
    while i < line.len()
        invariant
            i <= line.len(),
            out.len() == i,
            forall|k: int|
                0 <= k < i ==> (#[trigger] out@[k])@ == (SpanView {
                    bg: Some(Color::LightCyan),
                    ..line@[k]@
                }),
        decreases line.len() - i,
    {
        out.push(
            Span { content: line[i].content.clone(), fg: line[i].fg, bg: Some(Color::LightCyan) },
        );
        i += 1;
    }
    assert(line_view(out@) =~= drawn(line_view(line@), selected));
    out
}

} // verus!

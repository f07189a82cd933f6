//! The panel of the builds that the remote index offers, and the status line.

use vstd::prelude::*;
use crate::tui::app::state::{ActiveWidget, State};
use crate::tui::app::widgets::utils::{
    border_color, border_color_of, draw, drawn, kept_index, line_view, next_index, prev_index,
    raw_cell, raw_span, release_cell, release_span, selection_ok, step_back, step_forward,
    version_cell, version_span, Panel, PanelView, Span, SpanView,
};
use crate::{version_views, BlenderVersion, VersionView};

verus! {

/// The status before the index was ever asked.
pub const PROMPT: &'static str = "press enter to check available versions";

/// The status once the index has answered.
pub const READY: &'static str = "ready";

/// What precedes the link in the status of a download that begins.
pub const DOWNLOADING: &'static str = "downloading ";

/// The builds on offer, the row that is selected among them, and the status.
pub struct RemoteWidget {
    select_mode: bool,
    available: Vec<BlenderVersion>,
    selected: usize,
    message: String,
}

/// The mathematical value of a `RemoteWidget`.
#[verifier::ext_equal]
pub struct RemoteView {
    /// The index has answered, so that a row can be chosen.
    pub select_mode: bool,
    pub available: Seq<VersionView>,
    pub selected: nat,
    pub message: Seq<char>,
}

impl RemoteView {
    /// The selection points at a row, or at zero where there is none.
    pub open spec fn wf(self) -> bool {
        selection_ok(self.selected, self.available.len())
    }

    /// There is a build to download: the index has answered and the selection
    /// points at a row.
    pub open spec fn has_selection(self) -> bool {
        self.select_mode && self.selected < self.available.len()
    }
}

/// The panel before the index was ever asked.
pub open spec fn unchecked() -> RemoteView {
    RemoteView { select_mode: false, available: Seq::empty(), selected: 0, message: PROMPT@ }
}

/// The panel after the index answered with `links`: they replace the rows, the
/// selection stays where it still points at a row, and the status is "ready".
pub open spec fn with_links(remote: RemoteView, links: Seq<VersionView>) -> RemoteView {
    RemoteView {
        select_mode: true,
        available: links,
        selected: kept_index(remote.selected, links.len()),
        message: READY@,
    }
}

/// The panel after the index failed to answer: no rows, nothing to choose, and
/// the error as status.
pub open spec fn without_links(text: Seq<char>) -> RemoteView {
    RemoteView { select_mode: false, available: Seq::empty(), selected: 0, message: text }
}

/// The panel with another status.
pub open spec fn with_message(remote: RemoteView, text: Seq<char>) -> RemoteView {
    RemoteView { message: text, ..remote }
}

/// The panel with the next row selected.
pub open spec fn remote_down(remote: RemoteView) -> RemoteView {
    RemoteView { selected: next_index(remote.selected, remote.available.len()), ..remote }
}

/// The panel with the previous row selected.
pub open spec fn remote_up(remote: RemoteView) -> RemoteView {
    RemoteView { selected: prev_index(remote.selected, remote.available.len()), ..remote }
}

/// The panel once the download of its selected build begins.
pub open spec fn downloading(remote: RemoteView) -> RemoteView {
    with_message(remote, DOWNLOADING@ + remote.available[remote.selected as int].link)
}

/// The cells of a build on offer: version, release and branch.
pub open spec fn remote_line(version: VersionView) -> Seq<SpanView> {
    seq![version_cell(version), release_cell(version), raw_cell(version.branch)]
}

/// The list of the remote panel as it is drawn: one row for each build, the
/// selected one set off, and the border in the colour of the focus.
pub open spec fn remote_panel(remote: RemoteView, active: ActiveWidget) -> PanelView {
    PanelView {
        title: " remote "@,
        border: Some(border_color(active == ActiveWidget::RemoteWidget)),
        lines: Seq::new(
            remote.available.len(),
            |i: int| drawn(remote_line(remote.available[i]), i == remote.selected),
        ),
    }
}

/// The status box as it is drawn: the status as its only row.
pub open spec fn status_panel(remote: RemoteView) -> PanelView {
    PanelView { title: " status "@, border: None, lines: seq![seq![raw_cell(remote.message)]] }
}

fn remote_spans(version: &BlenderVersion) -> (line: Vec<Span>)
    ensures
        line_view(line@) == remote_line(version@),
{
    let mut line: Vec<Span> = Vec::new();
    line.push(version_span(version));
    line.push(release_span(version));
    line.push(raw_span(version.branch.as_str()));
    assert(line_view(line@) =~= remote_line(version@));
    line
}

impl View for RemoteWidget {
    type V = RemoteView;

    closed spec fn view(&self) -> RemoteView {
        RemoteView {
            select_mode: self.select_mode,
            available: version_views(self.available@),
            selected: self.selected as nat,
            message: self.message@,
        }
    }
}

impl RemoteWidget {
    #[verifier::type_invariant]
    spec fn selection_in_range(self) -> bool {
        selection_ok(self.selected as nat, self.available.len() as nat)
    }

    /// The panel before the index was ever asked.
    pub fn new() -> (widget: Self)
        ensures
            widget@ == unchecked(),
            widget@.wf(),
    {
        let widget = RemoteWidget {
            select_mode: false,
            available: Vec::new(),
            selected: 0,
            message: PROMPT.to_owned(),
        };
        assert(widget@.available =~= Seq::empty());
        widget
    }

    /// Selects the next row, the first after the last.
    pub fn increment_active_selection(&mut self)
        ensures
            final(self)@ == remote_down(old(self)@),
            final(self)@.wf(),
    {
        proof {
            use_type_invariant(&*self);
        }
        self.selected = step_forward(self.selected, self.available.len());
    }

    /// Selects the previous row, the last before the first.
    pub fn decrement_active_selection(&mut self)
        ensures
            final(self)@ == remote_up(old(self)@),
            final(self)@.wf(),
    {
        proof {
            use_type_invariant(&*self);
        }
        self.selected = step_back(self.selected, self.available.len());
    }

    /// Takes the answer of the index.
    pub fn set_available(&mut self, links: Vec<BlenderVersion>)
        ensures
            final(self)@ == with_links(old(self)@, version_views(links@)),
            final(self)@.wf(),
    {
        let selected = if self.selected < links.len() {
            self.selected
        } else {
            0
        };
        *self = RemoteWidget {
            select_mode: true,
            available: links,
            selected,
            message: READY.to_owned(),
        };
    }

    /// Forgets the rows after the index failed to answer, and shows why.
    pub fn set_unavailable(&mut self, message: &str)
        ensures
            final(self)@ == without_links(message@),
            final(self)@.wf(),
    {
        *self = RemoteWidget {
            select_mode: false,
            available: Vec::new(),
            selected: 0,
            message: message.to_owned(),
        };
        assert(self@.available =~= Seq::empty());
    }

    /// Sets the status.
    pub fn set_message(&mut self, message: &str)
        ensures
            final(self)@ == with_message(old(self)@, message@),
            final(self)@.wf(),
    {
        proof {
            use_type_invariant(&*self);
        }
        self.message = message.to_owned();
    }

    /// Whether there is a build to download.
    pub fn has_selection(&self) -> (r: bool)
        ensures
            r == self@.has_selection(),
    {
        self.select_mode && self.selected < self.available.len()
    }

    /// Whether the index has answered.
    pub fn select_mode(&self) -> (r: bool)
        ensures
            r == self@.select_mode,
    {
        self.select_mode
    }

    /// The selected row.
    pub fn selected(&self) -> (selected: usize)
        ensures
            selected == self@.selected,
            self@.wf(),
    {
        proof {
            use_type_invariant(self);
        }
        self.selected
    }

    /// The rows.
    pub fn available(&self) -> (available: &Vec<BlenderVersion>)
        ensures
            version_views(available@) == self@.available,
    {
        &self.available
    }

    /// The status.
    pub fn message(&self) -> (message: &String)
        ensures
            message@ == self@.message,
    {
        &self.message
    }

    /// Begins the download of the selected build: says so in the status and
    /// hands the build out.
    pub fn download_selected(&mut self) -> (version: BlenderVersion)
        requires
            old(self)@.selected < old(self)@.available.len(),
        ensures
            version@ == old(self)@.available[old(self)@.selected as int],
            final(self)@ == downloading(old(self)@),
            final(self)@.wf(),
    {
        proof {
            use_type_invariant(&*self);
        }
        let version = self.available[self.selected].clone();
        let mut message = DOWNLOADING.to_owned();
        message.append(version.link.as_str());
        self.message = message;
        version
    }

    /// What is to be drawn of the panel: the list, then the status box.
    pub fn render(&self, state: &State) -> (panels: (Panel, Panel))
        ensures
            panels.0@ == remote_panel(self@, state.active_widget),
            panels.1@ == status_panel(self@),
    {
        let border = match state.active_widget {
            ActiveWidget::FileListWidget => border_color_of(false),
            ActiveWidget::RemoteWidget => border_color_of(true),
        };
        let mut lines: Vec<Vec<Span>> = Vec::new();
        let mut i: usize = 0;
        while i < self.available.len()
            invariant
                i <= self.available.len(),
                lines.len() == i,
                forall|k: int|
                    0 <= k < i ==> line_view((#[trigger] lines@[k])@) == drawn(
                        remote_line(self.available@[k]@),
                        k == self.selected,
                    ),
            decreases self.available.len() - i,
        {
            lines.push(draw(remote_spans(&self.available[i]), i == self.selected));
            i += 1;
        }
        let list = Panel { title: " remote ".to_owned(), border: Some(border), lines };
        assert(list@.lines =~= remote_panel(self@, state.active_widget).lines);
        let mut row: Vec<Span> = Vec::new();
        row.push(raw_span(self.message.as_str()));
        let mut rows: Vec<Vec<Span>> = Vec::new();
        rows.push(row);
        let status = Panel { title: " status ".to_owned(), border: None, lines: rows };
        assert(status@.lines =~= status_panel(self@).lines) by {
            assert(line_view(row@) =~= seq![raw_cell(self@.message)]);
        }
        (list, status)
    }
}

} // verus!

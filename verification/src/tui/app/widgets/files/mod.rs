//! The panel of local builds.

use vstd::prelude::*;
use crate::tui::app::state::{ActiveWidget, State};
use crate::tui::app::widgets::utils::{
    border_color, border_color_of, draw, drawn, kept_index, line_view, lines_view, next_index, prev_index, raw_cell,
    raw_span, release_cell, release_span, selection_ok, step_back, step_forward, version_cell,
    version_span, Panel, PanelView, Span, SpanView,
};
use crate::{local_views, LocalBlenderVersion, LocalView};

pub mod utils;

use utils::{listing_view, local_builds, parse_downloaded};

verus! {

/// The local builds and the row that is selected among them.
pub struct FileListWidget {
    files: Vec<LocalBlenderVersion>,
    selected: usize,
}

/// The mathematical value of a `FileListWidget`.
#[verifier::ext_equal]
pub struct FileListView {
    pub files: Seq<LocalView>,
    pub selected: nat,
}

impl FileListView {
    /// The selection points at a row, or at zero where there is none.
    pub open spec fn wf(self) -> bool {
        selection_ok(self.selected, self.files.len())
    }
}

/// The panel for a directory listing, with the first row selected.
pub open spec fn listed(listing: Seq<(Seq<char>, nat)>) -> FileListView {
    FileListView { files: local_builds(listing), selected: 0 }
}

/// The panel after the directory was listed anew: the rows are those of the
/// new listing, and the selection stays where it still points at a row.
pub open spec fn refreshed(list: FileListView, listing: Seq<(Seq<char>, nat)>) -> FileListView {
    FileListView {
        files: local_builds(listing),
        selected: kept_index(list.selected, local_builds(listing).len()),
    }
}

/// The panel with the next row selected.
pub open spec fn list_down(list: FileListView) -> FileListView {
    FileListView { selected: next_index(list.selected, list.files.len()), ..list }
}

/// The panel with the previous row selected.
pub open spec fn list_up(list: FileListView) -> FileListView {
    FileListView { selected: prev_index(list.selected, list.files.len()), ..list }
}

/// The cells of a local build: version, release, branch and age.
pub open spec fn local_line(local: LocalView) -> Seq<SpanView> {
    seq![
        version_cell(local.blender_version),
        release_cell(local.blender_version),
        raw_cell(local.blender_version.branch),
        raw_cell(" "@ + local.created + " "@),
    ]
}

/// The local panel as it is drawn: one row for each build, the selected one
/// set off, and the border in the colour of the focus.
pub open spec fn local_panel(list: FileListView, active: ActiveWidget) -> PanelView {
    PanelView {
        title: "local"@,
        border: Some(border_color(active == ActiveWidget::FileListWidget)),
        lines: Seq::new(
            list.files.len(),
            |i: int| drawn(local_line(list.files[i]), i == list.selected),
        ),
    }
}

fn local_spans(local: &LocalBlenderVersion) -> (line: Vec<Span>)
    ensures
        line_view(line@) == local_line(local@),
{
    let mut created = String::new();
    created.append(" ");
    created.append(local.created.as_str());
    created.append(" ");
    let mut line: Vec<Span> = Vec::new();
    line.push(version_span(&local.blender_version));
    line.push(release_span(&local.blender_version));
    line.push(raw_span(local.blender_version.branch.as_str()));
    line.push(Span { content: created, fg: None, bg: None });
    assert(line_view(line@) =~= local_line(local@));
    line
}

impl View for FileListWidget {
    type V = FileListView;

    closed spec fn view(&self) -> FileListView {
        FileListView { files: local_views(self.files@), selected: self.selected as nat }
    }
}

impl FileListWidget {
    #[verifier::type_invariant]
    spec fn selection_in_range(self) -> bool {
        selection_ok(self.selected as nat, self.files.len() as nat)
    }

    /// The panel for a first listing of the storage directory.
    pub fn new(downloaded: Vec<(String, u64)>) -> (widget: Self)
        ensures
            widget@ == listed(listing_view(downloaded@)),
            widget@.wf(),
    {
        FileListWidget { files: parse_downloaded(downloaded), selected: 0 }
    }

    /// Takes a new listing of the storage directory in place of the old rows.
    pub fn refresh_local(&mut self, downloaded: Vec<(String, u64)>)
        ensures
            final(self)@ == refreshed(old(self)@, listing_view(downloaded@)),
            final(self)@.wf(),
    {
        let files = parse_downloaded(downloaded);
        let selected = if self.selected < files.len() {
            self.selected
        } else {
            0
        };
        *self = FileListWidget { files, selected };
    }

    /// Selects the next row, the first after the last.
    pub fn increment_active_selection(&mut self)
        ensures
            final(self)@ == list_down(old(self)@),
            final(self)@.wf(),
    {
        proof {
            use_type_invariant(&*self);
        }
        self.selected = step_forward(self.selected, self.files.len());
    }

    /// Selects the previous row, the last before the first.
    pub fn decrement_active_selection(&mut self)
        ensures
            final(self)@ == list_up(old(self)@),
            final(self)@.wf(),
    {
        proof {
            use_type_invariant(&*self);
        }
        self.selected = step_back(self.selected, self.files.len());
    }

    /// The selected row.
    pub fn selected(&self) -> (selected: usize)
        ensures
            selected == self@.selected,
            self@.wf(),
    {
        proof {
            use_type_invariant(self);
        }
        self.selected
    }

    /// The rows.
    pub fn files(&self) -> (files: &Vec<LocalBlenderVersion>)
        ensures
            local_views(files@) == self@.files,
    {
        &self.files
    }

    /// What is to be drawn of the panel.
    pub fn render(&self, state: &State) -> (panel: Panel)
        ensures
            panel@ == local_panel(self@, state.active_widget),
    {
        let border = match state.active_widget {
            ActiveWidget::FileListWidget => border_color_of(true),
            ActiveWidget::RemoteWidget => border_color_of(false),
        };
        let mut lines: Vec<Vec<Span>> = Vec::new();
        let mut i: usize = 0;
        while i < self.files.len()
            invariant
                i <= self.files.len(),
                lines.len() == i,
                forall|k: int|
                    0 <= k < i ==> line_view((#[trigger] lines@[k])@) == drawn(
                        local_line(self.files@[k]@),
                        k == self.selected,
                    ),
            decreases self.files.len() - i,
        {
            lines.push(draw(local_spans(&self.files[i]), i == self.selected));
            i += 1;
        }
        let panel = Panel { title: "local".to_owned(), border: Some(border), lines };
        assert(panel@.lines =~= local_panel(self@, state.active_widget).lines);
        panel
    }
}

} // verus!

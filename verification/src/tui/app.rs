//! The application state and the two functions that drive it: one for what
//! the user types, one for what the background tasks report. Neither waits,
//! reads or writes; each returns the task that the caller is to start.

use vstd::prelude::*;
use crate::config::{Config, ConfigView};
use crate::tui::message::{Message, MessageView};
use crate::{BlenderVersion, VersionView};

pub mod state;
pub mod widgets;

use state::{ActiveWidget, Activity, State, StateView};
use widgets::files::utils::listing_view;
use widgets::files::{
    list_down, list_up, listed, local_panel, refreshed, FileListView, FileListWidget,
};
use widgets::help::HelpWidget;
use widgets::remote::{
    downloading, remote_down, remote_panel, remote_up, status_panel, unchecked, with_links,
    with_message, without_links, RemoteView, RemoteWidget, READY,
};
use widgets::utils::{lemma_steps_are_inverse, Color, Panel, Span, SpanView};

verus! {

/// The status while the index is asked.
pub const CHECKING: &'static str = "checking available versions...";

/// The status between the end of a download and the end of its unpacking.
pub const EXTRACTING: &'static str = "downloaded...extracting...";

/// The state of a key when it was reported.
#[derive(Clone, Copy, Debug, PartialEq, Eq)]
pub enum KeyKind {
    Press,
    Repeat,
    Release,
}

/// The keys that the interface tells apart.
#[derive(Clone, Copy, Debug, PartialEq, Eq)]
pub enum Key {
    Up,
    Down,
    Left,
    Right,
    Enter,
    Char(char),
    Other,
}

/// What the input device reports.
#[derive(Clone, Copy, Debug, PartialEq, Eq)]
pub enum Event {
    Key(KeyKind, Key),
    Other,
}

/// What the user asks for.
#[derive(Clone, Copy, Debug, PartialEq, Eq)]
pub enum Command {
    MoveUp,
    MoveDown,
    FocusLeft,
    FocusRight,
    Confirm,
    Quit,
    Noop,
}

/// The background task that the caller is to start.
#[derive(Debug)]
pub enum Dispatch {
    /// None.
    Nothing,
    /// Ask the index for the builds on offer.
    FetchLinks(Config),
    /// Download this build.
    Download(BlenderVersion, Config),
    /// Unpack the archive of this path.
    Extract(String, Config),
    /// List the storage directory anew and hand the listing to `refresh_local`.
    ScanLocal(Config),
}

/// The mathematical value of a `Dispatch`.
#[verifier::ext_equal]
pub enum DispatchView {
    Nothing,
    FetchLinks(ConfigView),
    Download(VersionView, ConfigView),
    Extract(Seq<char>, ConfigView),
    ScanLocal(ConfigView),
}

impl View for Dispatch {
    type V = DispatchView;

    open spec fn view(&self) -> DispatchView {
        match self {
            Dispatch::Nothing => DispatchView::Nothing,
            Dispatch::FetchLinks(config) => DispatchView::FetchLinks(config@),
            Dispatch::Download(version, config) => DispatchView::Download(version@, config@),
            Dispatch::Extract(path, config) => DispatchView::Extract(path@, config@),
            Dispatch::ScanLocal(config) => DispatchView::ScanLocal(config@),
        }
    }
}

/// The application: whether it is done, the shared state and the three panels.
pub struct TuiApp {
    done: bool,
    state: State,
    file_widget: FileListWidget,
    help_widget: HelpWidget,
    remote_widget: RemoteWidget,
}

/// The mathematical value of a `TuiApp`.
#[verifier::ext_equal]
pub struct AppView {
    pub done: bool,
    pub state: StateView,
    pub files: FileListView,
    pub help: Seq<char>,
    pub remote: RemoteView,
}

impl AppView {
    /// In both lists the selection points at a row, or at zero where there is
    /// none.
    pub open spec fn wf(self) -> bool {
        self.files.wf() && self.remote.wf()
    }

    /// The application with another background task under way.
    pub open spec fn doing(self, activity: Activity) -> AppView {
        AppView { state: StateView { activity, ..self.state }, ..self }
    }

    /// The application with the focus on another panel.
    pub open spec fn focused(self, active_widget: ActiveWidget) -> AppView {
        AppView { state: StateView { active_widget, ..self.state }, ..self }
    }

    /// The application with another remote panel.
    pub open spec fn showing(self, remote: RemoteView) -> AppView {
        AppView { remote, ..self }
    }
}

/// What everything that is to be drawn comes to.
#[derive(Debug)]
pub struct Frame {
    pub local: Panel,
    pub remote: Panel,
    pub status: Panel,
    pub help: Span,
}

/// The command that an input event stands for: a pressed arrow moves the
/// selection or the focus, enter confirms, `q` quits. Everything else, a
/// released or repeated key too, asks for nothing.
pub open spec fn command_of(event: Event) -> Command {
    match event {
        Event::Key(KeyKind::Press, Key::Up) => Command::MoveUp,
        Event::Key(KeyKind::Press, Key::Down) => Command::MoveDown,
        Event::Key(KeyKind::Press, Key::Left) => Command::FocusLeft,
        Event::Key(KeyKind::Press, Key::Right) => Command::FocusRight,
        Event::Key(KeyKind::Press, Key::Enter) => Command::Confirm,
        Event::Key(KeyKind::Press, Key::Char(c)) => if c == 'q' {
            Command::Quit
        } else {
            Command::Noop
        },
        _ => Command::Noop,
    }
}

/// The application as it starts: running, idle, the focus on the local panel
/// with its first row selected, and the index not yet asked.
pub open spec fn initial(config: ConfigView, listing: Seq<(Seq<char>, nat)>) -> AppView {
    AppView {
        done: false,
        state: StateView {
            config,
            active_widget: ActiveWidget::FileListWidget,
            activity: Activity::Idle,
        },
        files: listed(listing),
        help: "help"@,
        remote: unchecked(),
    }
}

/// What a confirmation does. While a background task is under way, nothing.
/// Else, with the focus on the remote panel and a build selected there, the
/// download of that build begins; in every other case the index is asked.
pub open spec fn confirm(s: AppView) -> (AppView, DispatchView) {
    if s.state.activity != Activity::Idle {
        (s, DispatchView::Nothing)
    } else if s.state.active_widget == ActiveWidget::RemoteWidget && s.remote.has_selection() {
        (
            s.showing(downloading(s.remote)).doing(Activity::Downloading),
            DispatchView::Download(s.remote.available[s.remote.selected as int], s.state.config),
        )
    } else {
        (
            s.showing(with_message(s.remote, CHECKING@)).doing(Activity::Checking),
            DispatchView::FetchLinks(s.state.config),
        )
    }
}

/// The application after a command, and the task to start.
pub open spec fn apply_command(s: AppView, command: Command) -> (AppView, DispatchView) {
    match command {
        Command::MoveUp => (
            match s.state.active_widget {
                ActiveWidget::FileListWidget => AppView { files: list_up(s.files), ..s },
                ActiveWidget::RemoteWidget => s.showing(remote_up(s.remote)),
            },
            DispatchView::Nothing,
        ),
        Command::MoveDown => (
            match s.state.active_widget {
                ActiveWidget::FileListWidget => AppView { files: list_down(s.files), ..s },
                ActiveWidget::RemoteWidget => s.showing(remote_down(s.remote)),
            },
            DispatchView::Nothing,
        ),
        Command::FocusLeft => (s.focused(ActiveWidget::FileListWidget), DispatchView::Nothing),
        Command::FocusRight => (s.focused(ActiveWidget::RemoteWidget), DispatchView::Nothing),
        Command::Confirm => confirm(s),
        Command::Quit => (AppView { done: true, ..s }, DispatchView::Nothing),
        Command::Noop => (s, DispatchView::Nothing),
    }
}

/// The application after a message, and the task to start.
pub open spec fn apply_message(s: AppView, message: MessageView) -> (AppView, DispatchView) {
    match message {
        MessageView::Links(links) => (
            s.showing(with_links(s.remote, links)).doing(Activity::Idle),
            DispatchView::Nothing,
        ),
        MessageView::LinksFailed(text) => (
            s.showing(without_links(text)).doing(Activity::Idle),
            DispatchView::Nothing,
        ),
        MessageView::VersionUpdate(text) => (
            s.showing(with_message(s.remote, text)),
            DispatchView::Nothing,
        ),
        MessageView::VersionResult(path) => (
            s.showing(with_message(s.remote, EXTRACTING@)).doing(Activity::Extracting),
            DispatchView::Extract(path, s.state.config),
        ),
        MessageView::VersionFailed(text) => (
            s.showing(with_message(s.remote, text)).doing(Activity::Idle),
            DispatchView::Nothing,
        ),
        MessageView::ExtractResult => (
            s.showing(with_message(s.remote, READY@)).doing(Activity::Idle),
            DispatchView::ScanLocal(s.state.config),
        ),
    }
}

/// The application after a run of messages, applied one at a time, in order.
pub open spec fn apply_messages(s: AppView, messages: Seq<MessageView>) -> AppView
    decreases messages.len(),
{
    if messages.len() == 0 {
        s
    } else {
        apply_message(apply_messages(s, messages.drop_last()), messages.last()).0
    }
}

/// The application after the storage directory was listed anew.
pub open spec fn apply_listing(s: AppView, listing: Seq<(Seq<char>, nat)>) -> AppView {
    AppView { files: refreshed(s.files, listing), ..s }
}

/// No command and no message leads out of the states in which both
/// selections are valid.
pub proof fn lemma_selections_stay_valid(s: AppView, command: Command, message: MessageView)
    requires
        s.wf(),
    ensures
        apply_command(s, command).0.wf(),
        apply_message(s, message).0.wf(),
{
    lemma_steps_are_inverse(s.files.selected, s.files.files.len());
    lemma_steps_are_inverse(s.remote.selected, s.remote.available.len());
}

/// Messages apply in order, and runs of them compose: a run applied after
/// another leaves the application as the two joined into one run would.
pub proof fn lemma_messages_compose(s: AppView, first: Seq<MessageView>, second: Seq<MessageView>)
    ensures
        apply_messages(s, first + second) == apply_messages(apply_messages(s, first), second),
    decreases second.len(),
{
    if second.len() == 0 {
        assert(first + second == first);
    } else {
        assert((first + second).drop_last() == first + second.drop_last());
        lemma_messages_compose(s, first, second.drop_last());
    }
}

/// The last word on the remote list counts: a failure that follows an answer
/// of the index leaves the application as the failure alone would have.
pub proof fn lemma_failure_overrides_links(s: AppView, links: Seq<VersionView>, text: Seq<char>)
    ensures
        apply_messages(s, seq![MessageView::Links(links), MessageView::LinksFailed(text)])
            == apply_messages(s, seq![MessageView::LinksFailed(text)]),
        apply_messages(s, seq![MessageView::LinksFailed(text)]) == apply_message(
            s,
            MessageView::LinksFailed(text),
        ).0,
{
    let both = seq![MessageView::Links(links), MessageView::LinksFailed(text)];
    let first = seq![MessageView::Links(links)];
    let second = seq![MessageView::LinksFailed(text)];
    assert(both.drop_last() =~= first);
    assert(first.drop_last() =~= Seq::<MessageView>::empty());
    assert(second.drop_last() =~= Seq::<MessageView>::empty());
    assert(apply_messages(s, Seq::<MessageView>::empty()) == s);
    assert(apply_messages(s, first) == apply_message(s, MessageView::Links(links)).0);
    assert(apply_messages(s, second) == apply_message(s, MessageView::LinksFailed(text)).0);
    assert(apply_messages(s, both) =~= apply_messages(s, second));
}

/// The end of a download starts exactly the unpacking of the downloaded file.
pub proof fn lemma_download_starts_extraction(s: AppView, path: Seq<char>)
    ensures
        apply_message(s, MessageView::VersionResult(path)).1 == DispatchView::Extract(
            path,
            s.state.config,
        ),
        apply_message(s, MessageView::VersionResult(path)).0.state.activity
            == Activity::Extracting,
{
}

/// While a background task is under way a confirmation starts no other and
/// changes nothing; and whatever a confirmation starts is then under way.
pub proof fn lemma_one_task_at_a_time(s: AppView)
    ensures
        s.state.activity != Activity::Idle ==> apply_command(s, Command::Confirm) == (
            s,
            DispatchView::Nothing,
        ),
        s.state.activity == Activity::Idle ==> apply_command(s, Command::Confirm).1
            != DispatchView::Nothing && apply_command(s, Command::Confirm).0.state.activity
            != Activity::Idle,
{
}

/// A confirmation on the remote panel before the index was asked asks it, once:
/// a second confirmation before the answer starts nothing and changes nothing.
pub proof fn lemma_confirm_asks_once(s: AppView)
    requires
        s.state.activity == Activity::Idle,
        s.state.active_widget == ActiveWidget::RemoteWidget,
        !s.remote.select_mode,
    ensures
        apply_command(s, Command::Confirm).1 == DispatchView::FetchLinks(s.state.config),
        apply_command(apply_command(s, Command::Confirm).0, Command::Confirm) == (
            apply_command(s, Command::Confirm).0,
            DispatchView::Nothing,
        ),
{
}

/// The command that an input event stands for.
pub fn decode(event: &Event) -> (command: Command)
    ensures
        command == command_of(*event),
{
    match event {
        Event::Key(KeyKind::Press, key) => match key {
            Key::Up => Command::MoveUp,
            Key::Down => Command::MoveDown,
            Key::Left => Command::FocusLeft,
            Key::Right => Command::FocusRight,
            Key::Enter => Command::Confirm,
            Key::Char(c) => if *c == 'q' {
                Command::Quit
            } else {
                Command::Noop
            },
            Key::Other => Command::Noop,
        },
        _ => Command::Noop,
    }
}

impl View for TuiApp {
    type V = AppView;

    closed spec fn view(&self) -> AppView {
        AppView {
            done: self.done,
            state: self.state@,
            files: self.file_widget@,
            help: self.help_widget@,
            remote: self.remote_widget@,
        }
    }
}

impl TuiApp {
    fn selections(&self) -> (selected: (usize, usize))
        ensures
            self@.wf(),
            selected.0 == self@.files.selected,
            selected.1 == self@.remote.selected,
    {
        (self.file_widget.selected(), self.remote_widget.selected())
    }

    /// The application as it starts, for a configuration and a first listing
    /// of the storage directory.
    pub fn new(config: Config, downloaded: Vec<(String, u64)>) -> (app: Self)
        ensures
            app@ == initial(config@, listing_view(downloaded@)),
            app@.wf(),
    {
        TuiApp {
            done: false,
            state: State {
                config,
                active_widget: ActiveWidget::FileListWidget,
                activity: Activity::Idle,
            },
            file_widget: FileListWidget::new(downloaded),
            help_widget: HelpWidget::new(),
            remote_widget: RemoteWidget::new(),
        }
    }

    /// Whether the user has quit.
    pub fn is_done(&self) -> (done: bool)
        ensures
            done == self@.done,
    {
        self.done
    }

    /// The shared state.
    pub fn state(&self) -> (state: &State)
        ensures
            state@ == self@.state,
    {
        &self.state
    }

    /// The panel of local builds.
    pub fn file_widget(&self) -> (widget: &FileListWidget)
        ensures
            widget@ == self@.files,
            self@.wf(),
    {
        let _ = self.selections();
        &self.file_widget
    }

    /// The panel of the builds on offer.
    pub fn remote_widget(&self) -> (widget: &RemoteWidget)
        ensures
            widget@ == self@.remote,
            self@.wf(),
    {
        let _ = self.selections();
        &self.remote_widget
    }

    /// Applies one input event and returns the task to start.
    pub fn handle_events(&mut self, event: Event) -> (dispatch: Dispatch)
        ensures
            final(self)@ == apply_command(old(self)@, command_of(event)).0,
            dispatch@ == apply_command(old(self)@, command_of(event)).1,
            final(self)@.wf(),
    {
        let _ = self.selections();
        let dispatch = match decode(&event) {
            Command::MoveUp => {
                match self.state.active_widget {
                    ActiveWidget::FileListWidget => self.file_widget.decrement_active_selection(),
                    ActiveWidget::RemoteWidget => self.remote_widget.decrement_active_selection(),
                }
                Dispatch::Nothing
            },
            Command::MoveDown => {
                match self.state.active_widget {
                    ActiveWidget::FileListWidget => self.file_widget.increment_active_selection(),
                    ActiveWidget::RemoteWidget => self.remote_widget.increment_active_selection(),
                }
                Dispatch::Nothing
            },
            Command::FocusLeft => {
                self.state.active_widget = ActiveWidget::FileListWidget;
                Dispatch::Nothing
            },
            Command::FocusRight => {
                self.state.active_widget = ActiveWidget::RemoteWidget;
                Dispatch::Nothing
            },
            Command::Confirm => self.confirm(),
            Command::Quit => {
                self.done = true;
                Dispatch::Nothing
            },
            Command::Noop => Dispatch::Nothing,
        };
        dispatch
    }

    fn confirm(&mut self) -> (dispatch: Dispatch)
        ensures
            final(self)@ == confirm(old(self)@).0,
            dispatch@ == confirm(old(self)@).1,
            final(self)@.wf(),
    {
        let _ = self.selections();
        let idle = match self.state.activity {
            Activity::Idle => true,
            _ => false,
        };
        let on_remote = match self.state.active_widget {
            ActiveWidget::RemoteWidget => true,
            ActiveWidget::FileListWidget => false,
        };
        if !idle {
            Dispatch::Nothing
        } else if on_remote && self.remote_widget.has_selection() {
            let version = self.remote_widget.download_selected();
            self.state.activity = Activity::Downloading;
            Dispatch::Download(version, self.state.config.clone())
        } else {
            self.remote_widget.set_message(CHECKING);
            self.state.activity = Activity::Checking;
            Dispatch::FetchLinks(self.state.config.clone())
        }
    }

    /// Applies one message of a background task and returns the task to start.
    pub fn handle_messages(&mut self, message: Message) -> (dispatch: Dispatch)
        ensures
            final(self)@ == apply_message(old(self)@, message@).0,
            dispatch@ == apply_message(old(self)@, message@).1,
            final(self)@.wf(),
    {
        let _ = self.selections();
        match message {
            Message::Links(links) => {
                self.remote_widget.set_available(links);
                self.state.activity = Activity::Idle;
                Dispatch::Nothing
            },
            Message::LinksFailed(text) => {
                self.remote_widget.set_unavailable(text.as_str());
                self.state.activity = Activity::Idle;
                Dispatch::Nothing
            },
            Message::VersionUpdate(text) => {
                self.remote_widget.set_message(text.as_str());
                Dispatch::Nothing
            },
            Message::VersionResult(path) => {
                self.remote_widget.set_message(EXTRACTING);
                self.state.activity = Activity::Extracting;
                Dispatch::Extract(path, self.state.config.clone())
            },
            Message::VersionFailed(text) => {
                self.remote_widget.set_message(text.as_str());
                self.state.activity = Activity::Idle;
                Dispatch::Nothing
            },
            Message::ExtractResult => {
                self.remote_widget.set_message(READY);
                self.state.activity = Activity::Idle;
                Dispatch::ScanLocal(self.state.config.clone())
            },
        }
    }

    /// Takes a new listing of the storage directory.
    pub fn refresh_local(&mut self, downloaded: Vec<(String, u64)>)
        ensures
            final(self)@ == apply_listing(old(self)@, listing_view(downloaded@)),
            final(self)@.wf(),
    {
        let _ = self.selections();
        self.file_widget.refresh_local(downloaded);
    }

    /// What is to be drawn: the two lists, the status box and the help line.
    pub fn render(&self) -> (frame: Frame)
        ensures
            frame.local@ == local_panel(self@.files, self@.state.active_widget),
            frame.remote@ == remote_panel(self@.remote, self@.state.active_widget),
            frame.status@ == status_panel(self@.remote),
            frame.help@ == (SpanView { content: self@.help, fg: None, bg: Some(Color::Cyan) }),
    {
        let local = self.file_widget.render(&self.state);
        let (remote, status) = self.remote_widget.render(&self.state);
        Frame { local, remote, status, help: self.help_widget.render() }
    }
}

} // verus!

//! What the panels share.

use vstd::prelude::*;
use crate::config::{Config, ConfigView};

verus! {

/// The panel that has the focus.
#[derive(Clone, Copy, Debug, PartialEq, Eq)]
pub enum ActiveWidget {
    FileListWidget,
    RemoteWidget,
}

/// The background task that is under way, if any.
#[derive(Clone, Copy, Debug, PartialEq, Eq)]
pub enum Activity {
    Idle,
    Checking,
    Downloading,
    Extracting,
}

/// The state that every panel reads.
#[derive(Debug)]
pub struct State {
    pub config: Config,
    pub active_widget: ActiveWidget,
    pub activity: Activity,
}

/// The mathematical value of a `State`.
#[verifier::ext_equal]
pub struct StateView {
    pub config: ConfigView,
    pub active_widget: ActiveWidget,
    pub activity: Activity,
}

impl View for State {
    type V = StateView;

    open spec fn view(&self) -> StateView {
        StateView {
            config: self.config@,
            active_widget: self.active_widget,
            activity: self.activity,
        }
    }
}

} // verus!

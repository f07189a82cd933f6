//! What a background task reports to the main loop.

use vstd::prelude::*;
use crate::{version_views, BlenderVersion, VersionView};

verus! {

/// The result of a background task, or news of its progress.
#[derive(Debug)]
pub enum Message {
    /// The index answered with the builds on offer.
    Links(Vec<BlenderVersion>),
    /// The index could not be read.
    LinksFailed(String),
    /// A status line of the download under way.
    VersionUpdate(String),
    /// The download is complete, in the file of this path.
    VersionResult(String),
    /// The download broke off or came short.
    VersionFailed(String),
    /// The downloaded archive was unpacked.
    ExtractResult,
}

/// The mathematical value of a `Message`.
pub enum MessageView {
    Links(Seq<VersionView>),
    LinksFailed(Seq<char>),
    VersionUpdate(Seq<char>),
    VersionResult(Seq<char>),
    VersionFailed(Seq<char>),
    ExtractResult,
}

impl View for Message {
    type V = MessageView;

    open spec fn view(&self) -> MessageView {
        match self {
            Message::Links(links) => MessageView::Links(version_views(links@)),
            Message::LinksFailed(text) => MessageView::LinksFailed(text@),
            Message::VersionUpdate(text) => MessageView::VersionUpdate(text@),
            Message::VersionResult(path) => MessageView::VersionResult(path@),
            Message::VersionFailed(text) => MessageView::VersionFailed(text@),
            Message::ExtractResult => MessageView::ExtractResult,
        }
    }
}

} // verus!

//! The decisions of the background tasks: what each outcome of a fetch or of a
//! download tells the main loop, and where a download is stored. The tasks
//! themselves, which wait for the network and the disk, are the caller's.

use vstd::prelude::*;
use crate::text::{chars_of, find, find_from, string_of};
use crate::tracker::{
    after_flush, after_update, complete, content_size_message, content_size_text, emits,
    flush_line, update_line, ProgressTracker,
};
use crate::tui::message::{Message, MessageView};
use crate::{version_views, BlenderVersion};

verus! {

/// What precedes the file name in the link of a build.
pub const DAILY: &'static str = "daily/";

/// The name under which the build of a link is stored: what follows the first
/// "daily/" of the link, up to the next one if there is another. A link
/// without "daily/" names no file.
pub open spec fn file_name_of(link: Seq<char>) -> Option<Seq<char>> {
    match find_from(link, DAILY@, 0) {
        None => None,
        Some(first) => {
            let start = first + DAILY@.len();
            match find_from(link, DAILY@, start) {
                Some(next) => Some(link.subrange(start, next)),
                None => Some(link.subrange(start, link.len() as int)),
            }
        },
    }
}

/// The value of an optional text.
pub open spec fn optional_text(text: Option<String>) -> Option<Seq<char>> {
    match text {
        Some(t) => Some(t@),
        None => None,
    }
}

/// The name under which the build of a link is stored.
pub fn file_name(link: &str) -> (name: Option<String>)
    ensures
        optional_text(name) == file_name_of(link@),
{
    let hay = chars_of(link);
    let needle = chars_of(DAILY);
    match find(&hay, &needle, 0) {
        None => None,
        Some(first) => {
            let start = first + needle.len();
            let end = match find(&hay, &needle, start) {
                Some(next) => next,
                None => hay.len(),
            };
            Some(string_of(&hay, start, end))
        },
    }
}

/// A file name below a directory: the name alone where it starts at the root
/// of the file system, else the directory, a separator where the directory does
/// not end in one, and the name.
pub open spec fn joined(root: Seq<char>, name: Seq<char>) -> Seq<char> {
    if name.len() > 0 && name[0] == '/' {
        name
    } else if root.len() == 0 || root.last() == '/' {
        root + name
    } else {
        root + "/"@ + name
    }
}

/// The path at which the build of a link is stored below the directory `root`.
pub open spec fn file_path_of(root: Seq<char>, link: Seq<char>) -> Option<Seq<char>> {
    match file_name_of(link) {
        Some(name) => Some(joined(root, name)),
        None => None,
    }
}

/// The path at which the build of a link is stored below the directory `root`.
pub fn file_path(root: &str, link: &str) -> (path: Option<String>)
    ensures
        optional_text(path) == file_path_of(root@, link@),
{
    let name = match file_name(link) {
        Some(name) => name,
        None => {
            return None;
        },
    };
    let name_chars = chars_of(name.as_str());
    let root_chars = chars_of(root);
    if name_chars.len() > 0 && name_chars[0] == '/' {
        return Some(name);
    }
    let mut path = root.to_owned();
    if root_chars.len() > 0 && root_chars[root_chars.len() - 1] != '/' {
        path.append("/");
    }
    path.append(name.as_str());
    Some(path)
}

/// What the outcome of asking the index tells the main loop: the builds on
/// offer, or the text of the error.
pub fn links_message(outcome: Result<Vec<BlenderVersion>, String>) -> (message: Message)
    ensures
        message@ == match outcome {
            Ok(links) => MessageView::Links(version_views(links@)),
            Err(text) => MessageView::LinksFailed(text@),
        },
{
    match outcome {
        Ok(links) => Message::Links(links),
        Err(text) => Message::LinksFailed(text),
    }
}

/// What the start of a download of `len` bytes tells the main loop: its size.
pub fn size_message(len: u64) -> (message: Message)
    ensures
        message@ == MessageView::VersionUpdate(content_size_text(len as nat)),
{
    Message::VersionUpdate(content_size_message(len))
}

/// What a chunk of `read` bytes that arrived at `now` tells the main loop: the
/// next status line, where the tracker emits one.
pub fn chunk_message(tracker: &mut ProgressTracker, read: u64, now: u64) -> (message: Option<
    Message,
>)
    requires
        old(tracker)@.received + read <= u64::MAX,
    ensures
        final(tracker)@ == after_update(old(tracker)@, read as nat, now as nat),
        match message {
            Some(m) => emits(old(tracker)@, now as nat) && m@ == MessageView::VersionUpdate(
                update_line(old(tracker)@, read as nat, now as nat),
            ),
            None => !emits(old(tracker)@, now as nat),
        },
{
    match tracker.update(read, now) {
        Some(line) => Some(Message::VersionUpdate(line)),
        None => None,
    }
}

/// What the end of the stream at `now` tells the main loop: that the file at
/// `path` is complete, or, where bytes are missing or too many came, that the
/// download failed, with the final line of the tracker as the reason.
pub fn end_message(tracker: &mut ProgressTracker, path: String, now: u64) -> (message: Message)
    ensures
        final(tracker)@ == after_flush(old(tracker)@, now as nat),
        message@ == if complete(old(tracker)@) {
            MessageView::VersionResult(path@)
        } else {
            MessageView::VersionFailed(flush_line(old(tracker)@))
        },
{
    let whole = tracker.is_complete();
    let line = tracker.flush(now);
    if whole {
        Message::VersionResult(path)
    } else {
        Message::VersionFailed(line)
    }
}

/// What a failure of the transport tells the main loop: the text of the error.
pub fn failure_message(text: String) -> (message: Message)
    ensures
        message@ == MessageView::VersionFailed(text@),
{
    Message::VersionFailed(text)
}

} // verus!

//! The line of help at the bottom of the screen.

use vstd::prelude::*;
use crate::tui::app::widgets::utils::{Color, Span, SpanView};

verus! {

/// The line of help.
pub struct HelpWidget {
    message: String,
}

impl View for HelpWidget {
    type V = Seq<char>;

    closed spec fn view(&self) -> Seq<char> {
        self.message@
    }
}

impl HelpWidget {
    /// The help line with its standing text.
    pub fn new() -> (widget: Self)
        ensures
            widget@ == "help"@,
    {
        HelpWidget { message: "help".to_owned() }
    }

    /// What is to be drawn of the line: its text, on cyan.
    pub fn render(&self) -> (span: Span)
        ensures
            span@ == (SpanView { content: self@, fg: None, bg: Some(Color::Cyan) }),
    {
        Span { content: self.message.clone(), fg: None, bg: Some(Color::Cyan) }
    }
}

} // verus!

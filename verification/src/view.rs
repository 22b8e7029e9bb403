//! What the screen shows of the state, as far as it is a matter of rule:
//! how a status counts, which tone the response pane has, and which text
//! stands in it.

use crate::app::{ActivePane, App, AppView, InputTab};
use vstd::prelude::*;

verus! {

/// The tone of the response pane.
#[derive(Debug, Clone, Copy, PartialEq, Eq, Structural)]
pub enum Tone {
    /// The pane has the focus.
    Focused,
    /// The last status was a success.
    Success,
    /// The last status was anything else.
    Failure,
    /// Nothing has been received yet.
    Idle,
}

/// Whether a status counts as a success: 200 up to 299.
pub open spec fn is_success(status: u16) -> bool {
    200 <= status < 300
}

/// The tone of the response pane: the focus comes first, then the status.
pub open spec fn response_tone_of(s: AppView) -> Tone {
    if s.active_pane == ActivePane::ResponseViewer {
        Tone::Focused
    } else if is_success(s.response_status) {
        Tone::Success
    } else if s.response_status > 0 {
        Tone::Failure
    } else {
        Tone::Idle
    }
}

/// The text of the response pane: a notice while a mission is loading,
/// else the response text.
pub open spec fn shown_response_of(s: AppView) -> Seq<char> {
    if s.is_loading {
        "🚀 TRANSMITTING..."@
    } else {
        s.response_text
    }
}

/// Whether a status counts as a success.
pub fn status_is_success(status: u16) -> (b: bool)
    ensures
        b == is_success(status),
{
    status >= 200 && status < 300
}

impl InputTab {
    /// The place of the tab in the row of tabs, counted from zero.
    pub fn index(&self) -> (i: usize)
        ensures
            i == match self {
                InputTab::Body => 0usize,
                InputTab::Headers => 1usize,
            },
    {
        match self {
            InputTab::Body => 0,
            InputTab::Headers => 1,
        }
    }
}

impl App {
    /// The tone of the response pane.
    pub fn response_tone(&self) -> (tone: Tone)
        ensures
            tone == response_tone_of(self@),
    {
        match self.active_pane {
            ActivePane::ResponseViewer => Tone::Focused,
            _ => {
                if status_is_success(self.response_status) {
                    Tone::Success
                } else if self.response_status > 0 {
                    Tone::Failure
                } else {
                    Tone::Idle
                }
            },
        }
    }

    /// The text of the response pane.
    pub fn shown_response(&self) -> (text: String)
        ensures
            text@ == shown_response_of(self@),
    {
        if self.is_loading {
            "🚀 TRANSMITTING...".to_owned()
        } else {
            self.response_text.clone()
        }
    }
}

} // verus!

//! The state of the application: the request being edited, where the focus
//! is, and what the last mission left behind.

use crate::telemetry::MissionTelemetry;
use vstd::prelude::*;

verus! {

/// The request method; the four values form a cycle.
#[derive(Debug, Clone, Copy, PartialEq, Eq, Structural)]
pub enum HttpMethod {
    GET,
    POST,
    PUT,
    DELETE,
}

/// The pane that has the focus; the four values form a cycle. Exactly one
/// pane is focused at any time, and input goes by it.
#[derive(Debug, Clone, Copy, PartialEq, Eq, Structural)]
pub enum ActivePane {
    UrlBar,
    MethodSelector,
    InputArea,
    ResponseViewer,
}

/// The editor buffer that the input area shows.
#[derive(Debug, Clone, Copy, PartialEq, Eq, Structural)]
pub enum InputTab {
    Body,
    Headers,
}

impl HttpMethod {
    /// The method that follows `self` in the cycle GET, POST, PUT, DELETE, GET.
    pub open spec fn successor(self) -> HttpMethod {
        match self {
            HttpMethod::GET => HttpMethod::POST,
            HttpMethod::POST => HttpMethod::PUT,
            HttpMethod::PUT => HttpMethod::DELETE,
            HttpMethod::DELETE => HttpMethod::GET,
        }
    }

    /// The token that stands for the method on the wire: its own name.
    pub open spec fn token_text(self) -> Seq<char> {
        match self {
            HttpMethod::GET => "GET"@,
            HttpMethod::POST => "POST"@,
            HttpMethod::PUT => "PUT"@,
            HttpMethod::DELETE => "DELETE"@,
        }
    }

    /// Whether a request with this method may carry a body.
    pub open spec fn carries_body(self) -> bool {
        self == HttpMethod::POST || self == HttpMethod::PUT
    }

    /// The method that follows `self` in the cycle.
    pub fn next(&self) -> (r: Self)
        ensures
            r == self.successor(),
    {
        match self {
            HttpMethod::GET => HttpMethod::POST,
            HttpMethod::POST => HttpMethod::PUT,
            HttpMethod::PUT => HttpMethod::DELETE,
            HttpMethod::DELETE => HttpMethod::GET,
        }
    }

    /// The token that stands for the method on the wire.
    pub fn token(&self) -> (t: &'static str)
        ensures
            t@ == self.token_text(),
    {
        match self {
            HttpMethod::GET => "GET",
            HttpMethod::POST => "POST",
            HttpMethod::PUT => "PUT",
            HttpMethod::DELETE => "DELETE",
        }
    }

    /// Whether a request with this method may carry a body.
    pub fn has_body(&self) -> (b: bool)
        ensures
            b == self.carries_body(),
    {
        match self {
            HttpMethod::POST => true,
            HttpMethod::PUT => true,
            _ => false,
        }
    }
}

impl ActivePane {
    /// The pane that follows `self` in the cycle UrlBar, MethodSelector,
    /// InputArea, ResponseViewer, UrlBar.
    pub open spec fn successor(self) -> ActivePane {
        match self {
            ActivePane::UrlBar => ActivePane::MethodSelector,
            ActivePane::MethodSelector => ActivePane::InputArea,
            ActivePane::InputArea => ActivePane::ResponseViewer,
            ActivePane::ResponseViewer => ActivePane::UrlBar,
        }
    }

    /// The pane that `self` follows in the cycle.
    pub open spec fn predecessor(self) -> ActivePane {
        match self {
            ActivePane::UrlBar => ActivePane::ResponseViewer,
            ActivePane::MethodSelector => ActivePane::UrlBar,
            ActivePane::InputArea => ActivePane::MethodSelector,
            ActivePane::ResponseViewer => ActivePane::InputArea,
        }
    }

    /// The pane that follows `self` in the cycle.
    pub fn next(&self) -> (r: Self)
        ensures
            r == self.successor(),
    {
        match self {
            ActivePane::UrlBar => ActivePane::MethodSelector,
            ActivePane::MethodSelector => ActivePane::InputArea,
            ActivePane::InputArea => ActivePane::ResponseViewer,
            ActivePane::ResponseViewer => ActivePane::UrlBar,
        }
    }

    /// The pane that `self` follows in the cycle.
    pub fn previous(&self) -> (r: Self)
        ensures
            r == self.predecessor(),
    {
        match self {
            ActivePane::UrlBar => ActivePane::ResponseViewer,
            ActivePane::MethodSelector => ActivePane::UrlBar,
            ActivePane::InputArea => ActivePane::MethodSelector,
            ActivePane::ResponseViewer => ActivePane::InputArea,
        }
    }
}

/// Four steps forward bring a method back to where it started.
pub proof fn lemma_method_cycle(m: HttpMethod)
    ensures
        m.successor().successor().successor().successor() == m,
        m.successor() != m,
        m.successor().successor() != m,
        m.successor().successor().successor() != m,
{
}

/// Four steps forward, or four steps back, bring the focus back to where it
/// started, no fewer do, and a step back undoes a step forward.
pub proof fn lemma_focus_cycle(p: ActivePane)
    ensures
        p.successor().successor().successor().successor() == p,
        p.predecessor().predecessor().predecessor().predecessor() == p,
        p.successor() != p,
        p.successor().successor() != p,
        p.successor().successor().successor() != p,
        p.successor().predecessor() == p,
        p.predecessor().successor() == p,
{
}

/// The state of the application. The two editor buffers are held as their
/// lines of text.
#[derive(Debug)]
pub struct App {
    pub url_input: String,
    pub method: HttpMethod,
    pub body_lines: Vec<String>,
    pub header_lines: Vec<String>,
    pub active_pane: ActivePane,
    pub input_tab: InputTab,
    pub response_text: String,
    pub response_status: u16,
    pub response_scroll: u16,
    pub telemetry: Option<MissionTelemetry>,
    pub is_loading: bool,
}

/// The state of the application as contracts see it.
pub struct AppView {
    pub url_input: Seq<char>,
    pub method: HttpMethod,
    pub body_lines: Seq<Seq<char>>,
    pub header_lines: Seq<Seq<char>>,
    pub active_pane: ActivePane,
    pub input_tab: InputTab,
    pub response_text: Seq<char>,
    pub response_status: u16,
    pub response_scroll: u16,
    pub telemetry: Option<MissionTelemetry>,
    pub is_loading: bool,
}

impl View for App {
    type V = AppView;

    open spec fn view(&self) -> AppView {
        AppView {
            url_input: self.url_input@,
            method: self.method,
            body_lines: crate::text::lines_view(self.body_lines@),
            header_lines: crate::text::lines_view(self.header_lines@),
            active_pane: self.active_pane,
            input_tab: self.input_tab,
            response_text: self.response_text@,
            response_status: self.response_status,
            response_scroll: self.response_scroll,
            telemetry: self.telemetry,
            is_loading: self.is_loading,
        }
    }
}

/// The state at startup: a GET of the placeholder URL, an empty body, the
/// one conventional header, the focus on the URL bar, nothing received.
pub open spec fn initial_view() -> AppView {
    AppView {
        url_input: "https://httpbin.org/bearer"@,
        method: HttpMethod::GET,
        body_lines: seq![Seq::<char>::empty()],
        header_lines: seq!["Content-Type: application/json"@],
        active_pane: ActivePane::UrlBar,
        input_tab: InputTab::Body,
        response_text: Seq::<char>::empty(),
        response_status: 0,
        response_scroll: 0,
        telemetry: None,
        is_loading: false,
    }
}

/// The scroll offset after a move by `amount` from `current`: their sum,
/// held at zero from below and at the largest offset from above.
pub open spec fn scrolled(current: u16, amount: i16) -> u16 {
    if current + amount < 0 {
        0
    } else if current + amount > u16::MAX {
        u16::MAX
    } else {
        (current + amount) as u16
    }
}

/// Scrolling never leaves a negative offset: the offset is the larger of
/// zero and the sum, wherever the sum is an offset at all.
pub proof fn lemma_scrolled(current: u16, amount: i16)
    ensures
        scrolled(current, amount) >= 0,
        current + amount <= u16::MAX ==> scrolled(current, amount) == if current + amount > 0 {
            current + amount
        } else {
            0
        },
        amount >= 0 ==> scrolled(current, amount) >= current,
        amount <= 0 ==> scrolled(current, amount) <= current,
{
}

impl App {
    /// The state at startup.
    pub fn new() -> (app: Self)
        ensures
            app@ == initial_view(),
    {
        let mut body_lines: Vec<String> = Vec::new();
        body_lines.push(String::new());
        let mut header_lines: Vec<String> = Vec::new();
        header_lines.push("Content-Type: application/json".to_owned());
        let app = App {
            url_input: "https://httpbin.org/bearer".to_owned(),
            method: HttpMethod::GET,
            body_lines,
            header_lines,
            active_pane: ActivePane::UrlBar,
            input_tab: InputTab::Body,
            response_text: String::new(),
            response_status: 0,
            response_scroll: 0,
            telemetry: None,
            is_loading: false,
        };
        proof {
            assert(app@.body_lines =~= initial_view().body_lines);
            assert(app@.header_lines =~= initial_view().header_lines);
        }
        app
    }

    /// Moves the focus to the next pane of the cycle.
    pub fn cycle_focus(&mut self)
        ensures
            final(self)@ == (AppView {
                active_pane: old(self)@.active_pane.successor(),
                ..old(self)@
            }),
    {
        self.active_pane = self.active_pane.next();
    }

    /// Moves the focus to the pane before this one in the cycle.
    pub fn cycle_focus_back(&mut self)
        ensures
            final(self)@ == (AppView {
                active_pane: old(self)@.active_pane.predecessor(),
                ..old(self)@
            }),
    {
        self.active_pane = self.active_pane.previous();
    }

    /// Scrolls the response by `amount` lines, down for a positive amount.
    /// The offset never goes below zero.
    pub fn scroll_response(&mut self, amount: i16)
        ensures
            final(self)@ == (AppView {
                response_scroll: scrolled(old(self)@.response_scroll, amount),
                ..old(self)@
            }),
    {
        let target: i32 = self.response_scroll as i32 + amount as i32;
        if target < 0 {
            self.response_scroll = 0;
        } else if target > u16::MAX as i32 {
            self.response_scroll = u16::MAX;
        } else {
            self.response_scroll = target as u16;
        }
    }
}

} // verus!

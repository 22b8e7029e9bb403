//! The transitions of the application: what a key press, a submission and
//! a report of the engine do to the state, and what the caller is asked to
//! do next. The caller reads the terminal and runs the missions; every
//! decision is taken here.

use crate::app::{scrolled, ActivePane, App, AppView, HttpMethod, InputTab};
use crate::engine::{EngineEvent, RequestDraft, FAILURE_STATUS, VALIDATION_STATUS};
use crate::headers::{headers_of_lines, lemma_parsed_joined, parsed_headers};
use crate::json::{json_problem, json_problem_of};
use crate::text::{feed_free, is_blank, is_blank_text, join_lines, joined};
use vstd::prelude::*;

verus! {

/// The key of a key event, as far as the application tells keys apart.
#[derive(Debug, Clone, Copy, PartialEq, Eq, Structural)]
pub enum KeyCode {
    Tab,
    BackTab,
    Esc,
    Enter,
    Backspace,
    Up,
    Down,
    PageUp,
    PageDown,
    Char(char),
    /// Any other key.
    Other,
}

/// What happened to the key.
#[derive(Debug, Clone, Copy, PartialEq, Eq, Structural)]
pub enum KeyKind {
    Press,
    Repeat,
    Release,
}

/// A key event.
#[derive(Debug, Clone, Copy, PartialEq, Eq, Structural)]
pub struct KeyInput {
    pub code: KeyCode,
    /// Whether the control key was held.
    pub ctrl: bool,
    pub kind: KeyKind,
}

/// An event of the terminal.
#[derive(Debug, Clone, Copy, PartialEq, Eq, Structural)]
pub enum InputEvent {
    Key(KeyInput),
    /// A mouse event, a resize, or anything else.
    Other,
}

/// What the caller is to do after a transition.
#[derive(Debug)]
pub enum Action {
    /// Nothing: draw and wait for the next event.
    Continue,
    /// Leave the loop.
    Quit,
    /// Hand the key event to the editor of this tab, then store the lines
    /// of the editor in the state.
    EditorInput(InputTab),
    /// Start a mission for this request, without waiting for it.
    Spawn(RequestDraft),
}

/// A request as contracts see it.
pub struct DraftView {
    pub method: HttpMethod,
    pub url: Seq<char>,
    pub body: Option<Seq<char>>,
    pub raw_headers: Seq<char>,
}

/// An action as contracts see it.
pub enum ActionView {
    Continue,
    Quit,
    EditorInput(InputTab),
    Spawn(DraftView),
}

impl View for RequestDraft {
    type V = DraftView;

    open spec fn view(&self) -> DraftView {
        DraftView {
            method: self.method,
            url: self.url@,
            body: match self.body {
                Some(b) => Some(b@),
                None => None,
            },
            raw_headers: self.raw_headers@,
        }
    }
}

impl View for Action {
    type V = ActionView;

    open spec fn view(&self) -> ActionView {
        match self {
            Action::Continue => ActionView::Continue,
            Action::Quit => ActionView::Quit,
            Action::EditorInput(tab) => ActionView::EditorInput(*tab),
            Action::Spawn(draft) => ActionView::Spawn(draft@),
        }
    }
}

/// The words that open the message of a refused body.
pub open spec fn validation_prefix() -> Seq<char> {
    "❌ JSON ERROR: "@
}

/// The words that open the message of a failed mission.
pub open spec fn failure_prefix() -> Seq<char> {
    "❌ CRITICAL FAILURE: "@
}

/// Whether the body text has to be JSON before the request may go out: the
/// method carries a body and the text is not blank.
pub open spec fn body_is_checked(method: HttpMethod, raw_body: Seq<char>) -> bool {
    method.carries_body() && !is_blank(raw_body)
}

/// What a submission does, given the texts of the two editors and what is
/// wrong with the body as JSON, if anything. A body that has to be JSON and
/// is not is refused: the response shows why, with the validation status,
/// and no request goes out. Any other submission is accepted: the state is
/// loading, the response text is cleared, and the request goes out, with
/// the body only where it was checked.
pub open spec fn submit_outcome(
    s: AppView,
    raw_body: Seq<char>,
    raw_headers: Seq<char>,
    problem: Option<Seq<char>>,
) -> (AppView, Option<DraftView>) {
    if body_is_checked(s.method, raw_body) && problem is Some {
        (
            AppView {
                response_text: validation_prefix() + problem->0,
                response_status: VALIDATION_STATUS,
                ..s
            },
            None,
        )
    } else {
        (
            AppView { is_loading: true, response_text: Seq::empty(), ..s },
            Some(
                DraftView {
                    method: s.method,
                    url: s.url_input,
                    body: if body_is_checked(s.method, raw_body) {
                        Some(raw_body)
                    } else {
                        None
                    },
                    raw_headers,
                },
            ),
        )
    }
}

/// What a submission does to a state: the editors' lines are joined, the
/// body is checked as JSON, and the outcome follows.
pub open spec fn submit_step(s: AppView) -> (AppView, Option<DraftView>) {
    submit_outcome(
        s,
        joined(s.body_lines),
        joined(s.header_lines),
        json_problem_of(joined(s.body_lines)),
    )
}

/// Whether the key asks to leave: the escape key, or `q` while the input
/// area is not focused; neither while a mission is loading.
pub open spec fn quits(s: AppView, code: KeyCode) -> bool {
    !s.is_loading && (code == KeyCode::Esc || (code == KeyCode::Char('q') && s.active_pane
        != ActivePane::InputArea))
}

/// What a key does in the focused pane, once it is known to be no key of
/// the whole application.
pub open spec fn pane_step(s: AppView, code: KeyCode) -> (AppView, ActionView) {
    match s.active_pane {
        ActivePane::InputArea => (s, ActionView::EditorInput(s.input_tab)),
        ActivePane::ResponseViewer => (
            match code {
                KeyCode::Char('j') | KeyCode::Down => AppView {
                    response_scroll: scrolled(s.response_scroll, 1),
                    ..s
                },
                KeyCode::Char('k') | KeyCode::Up => AppView {
                    response_scroll: scrolled(s.response_scroll, -1i16),
                    ..s
                },
                KeyCode::PageDown => AppView {
                    response_scroll: scrolled(s.response_scroll, 10),
                    ..s
                },
                KeyCode::PageUp => AppView {
                    response_scroll: scrolled(s.response_scroll, -10i16),
                    ..s
                },
                _ => s,
            },
            ActionView::Continue,
        ),
        ActivePane::UrlBar => (
            match code {
                KeyCode::Backspace => AppView {
                    url_input: if s.url_input.len() > 0 {
                        s.url_input.drop_last()
                    } else {
                        s.url_input
                    },
                    ..s
                },
                KeyCode::Char(c) => AppView { url_input: s.url_input.push(c), ..s },
                _ => s,
            },
            ActionView::Continue,
        ),
        ActivePane::MethodSelector => (
            if code == KeyCode::Enter || code == KeyCode::Char(' ') {
                AppView { method: s.method.successor(), ..s }
            } else {
                s
            },
            ActionView::Continue,
        ),
    }
}

/// What a key event does. Only presses count. Control with `s` submits.
/// The tab keys move the focus, `1` and `2` pick the editor tab, a key that
/// asks to leave ends the loop, and every other key goes to the focused
/// pane.
pub open spec fn key_step(s: AppView, key: KeyInput) -> (AppView, ActionView) {
    if key.kind != KeyKind::Press {
        (s, ActionView::Continue)
    } else if key.ctrl && key.code == KeyCode::Char('s') {
        match submit_step(s).1 {
            Some(draft) => (submit_step(s).0, ActionView::Spawn(draft)),
            None => (submit_step(s).0, ActionView::Continue),
        }
    } else if key.code == KeyCode::Tab {
        (AppView { active_pane: s.active_pane.successor(), ..s }, ActionView::Continue)
    } else if key.code == KeyCode::BackTab {
        (AppView { active_pane: s.active_pane.predecessor(), ..s }, ActionView::Continue)
    } else if key.code == KeyCode::Char('1') {
        (AppView { input_tab: InputTab::Body, ..s }, ActionView::Continue)
    } else if key.code == KeyCode::Char('2') {
        (AppView { input_tab: InputTab::Headers, ..s }, ActionView::Continue)
    } else if quits(s, key.code) {
        (s, ActionView::Quit)
    } else {
        pane_step(s, key.code)
    }
}

/// What a report of the engine does: loading ends; a finished mission
/// leaves its measurements, its status and its text; a failed one leaves
/// the reason with the failure status, and the measurements as they were.
pub open spec fn event_step(s: AppView, event: EngineEvent) -> AppView {
    match event {
        EngineEvent::Completed(t, body) => AppView {
            is_loading: false,
            telemetry: Some(t),
            response_status: t.status,
            response_text: body@,
            ..s
        },
        EngineEvent::Error(m) => AppView {
            is_loading: false,
            response_text: failure_prefix() + m@,
            response_status: FAILURE_STATUS,
            ..s
        },
    }
}

/// A body that has to be JSON and is not is never sent: the submission
/// starts no mission, shows the validation status, and leaves the loading
/// flag as it was.
pub proof fn lemma_invalid_body_is_refused(s: AppView)
    requires
        s.method == HttpMethod::POST || s.method == HttpMethod::PUT,
        !is_blank(joined(s.body_lines)),
        crate::json::json_parse(joined(s.body_lines)) is Err,
    ensures
        submit_step(s).1 is None,
        submit_step(s).0.response_status == 400,
        submit_step(s).0.is_loading == s.is_loading,
        key_step(
            s,
            KeyInput { code: KeyCode::Char('s'), ctrl: true, kind: KeyKind::Press },
        ).1 == ActionView::Continue,
{
}

/// A request whose method carries no body goes out without one, whatever
/// the body editor holds; so does one whose body is blank. Such a
/// submission is always accepted.
pub proof fn lemma_no_body_is_sent(s: AppView)
    requires
        s.method == HttpMethod::GET || s.method == HttpMethod::DELETE || is_blank(
            joined(s.body_lines),
        ),
    ensures
        submit_step(s).1 matches Some(draft) && draft.body is None && draft.method == s.method
            && draft.url == s.url_input && draft.raw_headers == joined(s.header_lines),
        submit_step(s).0.is_loading,
        submit_step(s).0.response_text.len() == 0,
{
}

/// The headers of an accepted request are the headers of the lines of the
/// header editor, as long as no line holds a line feed.
pub proof fn lemma_request_headers(s: AppView)
    requires
        feed_free(s.header_lines),
        submit_step(s).1 is Some,
    ensures
        parsed_headers(submit_step(s).1->0.raw_headers) == headers_of_lines(s.header_lines),
{
    lemma_parsed_joined(s.header_lines);
}

/// Four presses of the tab key bring the focus back to where it started
/// and change nothing else; a press of the back-tab key undoes a press of
/// the tab key.
pub proof fn lemma_tab_cycle(s: AppView)
    ensures
        ({
            let tab = KeyInput { code: KeyCode::Tab, ctrl: false, kind: KeyKind::Press };
            key_step(key_step(key_step(key_step(s, tab).0, tab).0, tab).0, tab).0 == s
        }),
        ({
            let tab = KeyInput { code: KeyCode::Tab, ctrl: false, kind: KeyKind::Press };
            let back = KeyInput { code: KeyCode::BackTab, ctrl: false, kind: KeyKind::Press };
            key_step(key_step(s, tab).0, back).0 == s
        }),
{
}

/// Four activations in the method selector bring the method back to where
/// it started and change nothing else.
pub proof fn lemma_method_selector_cycle(s: AppView)
    requires
        s.active_pane == ActivePane::MethodSelector,
    ensures
        ({
            let enter = KeyInput { code: KeyCode::Enter, ctrl: false, kind: KeyKind::Press };
            key_step(key_step(key_step(key_step(s, enter).0, enter).0, enter).0, enter).0 == s
        }),
{
}

/// No key leaves the loop while a mission is loading, and `q` never does
/// while the input area is focused.
pub proof fn lemma_quit_is_guarded(s: AppView, key: KeyInput)
    requires
        s.is_loading || (s.active_pane == ActivePane::InputArea && key.code == KeyCode::Char(
            'q',
        )),
    ensures
        key_step(s, key).1 != ActionView::Quit,
{
}

impl App {
    /// Settles a submission, given the texts of the two editors and what is
    /// wrong with the body as JSON, if anything: either the request to send,
    /// or `None` where the body was refused.
    pub fn settle_submission(
        &mut self,
        raw_body: String,
        raw_headers: String,
        problem: Option<String>,
    ) -> (draft: Option<RequestDraft>)
        ensures
            final(self)@ == submit_outcome(
                old(self)@,
                raw_body@,
                raw_headers@,
                match problem {
                    Some(m) => Some(m@),
                    None => None,
                },
            ).0,
            match draft {
                Some(d) => Some(d@),
                None => None,
            } == submit_outcome(
                old(self)@,
                raw_body@,
                raw_headers@,
                match problem {
                    Some(m) => Some(m@),
                    None => None,
                },
            ).1,
    {
        let checked = self.method.has_body() && !is_blank_text(raw_body.as_str());
        if checked {
            if let Some(message) = problem {
                let mut text = "❌ JSON ERROR: ".to_owned();
                text.push_str(message.as_str());
                self.response_text = text;
                self.response_status = VALIDATION_STATUS;
                return None;
            }
        }
        self.is_loading = true;
        self.response_text = String::new();
        Some(
            RequestDraft {
                method: self.method,
                url: self.url_input.clone(),
                body: if checked {
                    Some(raw_body)
                } else {
                    None
                },
                raw_headers,
            },
        )
    }

    /// Submits the request as the state holds it: the request to send, or
    /// `None` where the body was refused. This happens at once, before any
    /// mission starts.
    pub fn submit(&mut self) -> (draft: Option<RequestDraft>)
        ensures
            final(self)@ == submit_step(old(self)@).0,
            match draft {
                Some(d) => Some(d@),
                None => None,
            } == submit_step(old(self)@).1,
    {
        let raw_body = join_lines(&self.body_lines);
        let raw_headers = join_lines(&self.header_lines);
        let problem = if self.method.has_body() && !is_blank_text(raw_body.as_str()) {
            json_problem(raw_body.as_str())
        } else {
            None
        };
        self.settle_submission(raw_body, raw_headers, problem)
    }

    /// Takes a key that is no key of the whole application to the focused
    /// pane.
    pub fn route_to_pane(&mut self, code: KeyCode) -> (action: Action)
        ensures
            final(self)@ == pane_step(old(self)@, code).0,
            action@ == pane_step(old(self)@, code).1,
    {
        match self.active_pane {
            ActivePane::InputArea => Action::EditorInput(self.input_tab),
            ActivePane::ResponseViewer => {
                match code {
                    KeyCode::Down => self.scroll_response(1),
                    KeyCode::Up => self.scroll_response(-1),
                    KeyCode::PageDown => self.scroll_response(10),
                    KeyCode::PageUp => self.scroll_response(-10),
                    KeyCode::Char(c) => {
                        if c == 'j' {
                            self.scroll_response(1);
                        } else if c == 'k' {
                            self.scroll_response(-1);
                        }
                    },
                    _ => {},
                }
                Action::Continue
            },
            ActivePane::UrlBar => {
                match code {
                    KeyCode::Backspace => {
                        let _ = self.url_input.pop();
                    },
                    KeyCode::Char(c) => {
                        self.url_input.push(c);
                    },
                    _ => {},
                }
                Action::Continue
            },
            ActivePane::MethodSelector => {
                let activates = match code {
                    KeyCode::Enter => true,
                    KeyCode::Char(c) => c == ' ',
                    _ => false,
                };
                if activates {
                    self.method = self.method.next();
                }
                Action::Continue
            },
        }
    }

    /// Applies a key event to the state and says what the caller is to do.
    pub fn handle_key(&mut self, key: KeyInput) -> (action: Action)
        ensures
            final(self)@ == key_step(old(self)@, key).0,
            action@ == key_step(old(self)@, key).1,
    {
        match key.kind {
            KeyKind::Press => {},
            _ => {
                return Action::Continue;
            },
        }
        match key.code {
            KeyCode::Char(c) => {
                if key.ctrl && c == 's' {
                    return match self.submit() {
                        Some(draft) => Action::Spawn(draft),
                        None => Action::Continue,
                    };
                }
                if c == '1' {
                    self.input_tab = InputTab::Body;
                    return Action::Continue;
                }
                if c == '2' {
                    self.input_tab = InputTab::Headers;
                    return Action::Continue;
                }
                if c == 'q' && !self.is_loading {
                    match self.active_pane {
                        ActivePane::InputArea => {},
                        _ => {
                            return Action::Quit;
                        },
                    }
                }
            },
            KeyCode::Tab => {
                self.cycle_focus();
                return Action::Continue;
            },
            KeyCode::BackTab => {
                self.cycle_focus_back();
                return Action::Continue;
            },
            KeyCode::Esc => {
                if !self.is_loading {
                    return Action::Quit;
                }
            },
            _ => {},
        }
        self.route_to_pane(key.code)
    }

    /// Applies an event of the terminal: a key event as `handle_key` does,
    /// any other event not at all.
    pub fn handle_input(&mut self, event: InputEvent) -> (action: Action)
        ensures
            match event {
                InputEvent::Key(key) => final(self)@ == key_step(old(self)@, key).0 && action@
                    == key_step(old(self)@, key).1,
                InputEvent::Other => final(self)@ == old(self)@ && action@
                    == ActionView::Continue,
            },
    {
        match event {
            InputEvent::Key(key) => self.handle_key(key),
            InputEvent::Other => Action::Continue,
        }
    }

    /// Applies a report of the engine to the state.
    pub fn apply_engine_event(&mut self, event: EngineEvent)
        ensures
            final(self)@ == event_step(old(self)@, event),
    {
        self.is_loading = false;
        match event {
            EngineEvent::Completed(telemetry, body) => {
                self.response_status = telemetry.status;
                self.telemetry = Some(telemetry);
                self.response_text = body;
            },
            EngineEvent::Error(message) => {
                let mut text = "❌ CRITICAL FAILURE: ".to_owned();
                text.push_str(message.as_str());
                self.response_text = text;
                self.response_status = FAILURE_STATUS;
            },
        }
    }

    /// Stores the lines of an editor in the state, after the editor has
    /// taken a key event.
    pub fn set_editor_lines(&mut self, tab: InputTab, lines: Vec<String>)
        ensures
            final(self)@ == match tab {
                InputTab::Body => AppView {
                    body_lines: crate::text::lines_view(lines@),
                    ..old(self)@
                },
                InputTab::Headers => AppView {
                    header_lines: crate::text::lines_view(lines@),
                    ..old(self)@
                },
            },
    {
        match tab {
            InputTab::Body => {
                self.body_lines = lines;
            },
            InputTab::Headers => {
                self.header_lines = lines;
            },
        }
    }
}

} // verus!

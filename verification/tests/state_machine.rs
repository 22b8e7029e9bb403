use hcp::app::{ActivePane, App, HttpMethod, InputTab};
use hcp::dispatch::{Action, InputEvent, KeyCode, KeyInput, KeyKind};
use hcp::engine::{EngineEvent, MissionFailure};
use hcp::telemetry::MissionTelemetry;
use std::time::Duration;

fn press(code: KeyCode) -> KeyInput {
    KeyInput { code, ctrl: false, kind: KeyKind::Press }
}

fn ctrl(code: KeyCode) -> KeyInput {
    KeyInput { code, ctrl: true, kind: KeyKind::Press }
}

fn lines(text: &[&str]) -> Vec<String> {
    text.iter().map(|s| s.to_string()).collect()
}

#[test]
fn startup_state_has_the_fixed_defaults() {
    let app = App::new();
    assert_eq!(app.method, HttpMethod::GET);
    assert_eq!(app.url_input, "https://httpbin.org/bearer");
    assert_eq!(app.body_lines, vec![String::new()]);
    assert_eq!(app.header_lines, vec!["Content-Type: application/json".to_string()]);
    assert_eq!(app.active_pane, ActivePane::UrlBar);
    assert_eq!(app.input_tab, InputTab::Body);
    assert_eq!(app.response_text, "");
    assert_eq!(app.response_status, 0);
    assert_eq!(app.response_scroll, 0);
    assert!(app.telemetry.is_none());
    assert!(!app.is_loading);
}

#[test]
fn method_next_follows_the_cycle() {
    assert_eq!(HttpMethod::GET.next(), HttpMethod::POST);
    assert_eq!(HttpMethod::POST.next(), HttpMethod::PUT);
    assert_eq!(HttpMethod::PUT.next(), HttpMethod::DELETE);
    assert_eq!(HttpMethod::DELETE.next(), HttpMethod::GET);
}

#[test]
fn four_method_steps_return_to_the_start() {
    for start in [HttpMethod::GET, HttpMethod::POST, HttpMethod::PUT, HttpMethod::DELETE] {
        assert_eq!(start.next().next().next().next(), start);
        assert_ne!(start.next(), start);
        assert_ne!(start.next().next(), start);
    }
}

#[test]
fn method_tokens_are_the_method_names() {
    assert_eq!(HttpMethod::GET.token(), "GET");
    assert_eq!(HttpMethod::POST.token(), "POST");
    assert_eq!(HttpMethod::PUT.token(), "PUT");
    assert_eq!(HttpMethod::DELETE.token(), "DELETE");
    assert!(!HttpMethod::GET.has_body());
    assert!(HttpMethod::POST.has_body());
    assert!(HttpMethod::PUT.has_body());
    assert!(!HttpMethod::DELETE.has_body());
}

#[test]
fn cycle_focus_walks_the_four_panes() {
    let mut app = App::new();
    app.cycle_focus();
    assert_eq!(app.active_pane, ActivePane::MethodSelector);
    app.cycle_focus();
    assert_eq!(app.active_pane, ActivePane::InputArea);
    app.cycle_focus();
    assert_eq!(app.active_pane, ActivePane::ResponseViewer);
    app.cycle_focus();
    assert_eq!(app.active_pane, ActivePane::UrlBar);
}

#[test]
fn cycle_focus_back_walks_the_other_way() {
    let mut app = App::new();
    app.cycle_focus_back();
    assert_eq!(app.active_pane, ActivePane::ResponseViewer);
    app.cycle_focus_back();
    assert_eq!(app.active_pane, ActivePane::InputArea);
    app.cycle_focus_back();
    assert_eq!(app.active_pane, ActivePane::MethodSelector);
    app.cycle_focus_back();
    assert_eq!(app.active_pane, ActivePane::UrlBar);
}

#[test]
fn four_tab_presses_return_the_focus() {
    for steps_in in 0..4 {
        let mut app = App::new();
        for _ in 0..steps_in {
            app.cycle_focus();
        }
        let start = app.active_pane;
        for _ in 0..4 {
            assert!(matches!(app.handle_key(press(KeyCode::Tab)), Action::Continue));
        }
        assert_eq!(app.active_pane, start);
    }
}

#[test]
fn back_tab_undoes_tab() {
    let mut app = App::new();
    app.handle_key(press(KeyCode::Tab));
    assert_eq!(app.active_pane, ActivePane::MethodSelector);
    app.handle_key(press(KeyCode::BackTab));
    assert_eq!(app.active_pane, ActivePane::UrlBar);
    app.handle_key(press(KeyCode::BackTab));
    assert_eq!(app.active_pane, ActivePane::ResponseViewer);
}

#[test]
fn scroll_adds_the_amount() {
    let mut app = App::new();
    app.scroll_response(1);
    assert_eq!(app.response_scroll, 1);
    app.scroll_response(10);
    assert_eq!(app.response_scroll, 11);
    app.scroll_response(-1);
    assert_eq!(app.response_scroll, 10);
    app.scroll_response(-10);
    assert_eq!(app.response_scroll, 0);
}

#[test]
fn scroll_never_goes_below_zero() {
    let mut app = App::new();
    app.scroll_response(-1);
    assert_eq!(app.response_scroll, 0);
    app.scroll_response(3);
    app.scroll_response(-10);
    assert_eq!(app.response_scroll, 0);
    app.scroll_response(i16::MIN);
    assert_eq!(app.response_scroll, 0);
}

#[test]
fn scroll_works_above_the_signed_range() {
    let mut app = App::new();
    app.response_scroll = 40000;
    app.scroll_response(10);
    assert_eq!(app.response_scroll, 40010);
    app.scroll_response(-10);
    assert_eq!(app.response_scroll, 40000);
}

#[test]
fn scroll_stops_at_the_largest_offset() {
    let mut app = App::new();
    app.response_scroll = u16::MAX - 3;
    app.scroll_response(10);
    assert_eq!(app.response_scroll, u16::MAX);
    app.scroll_response(-1);
    assert_eq!(app.response_scroll, u16::MAX - 1);
}

#[test]
fn response_viewer_keys_scroll() {
    let mut app = App::new();
    app.active_pane = ActivePane::ResponseViewer;
    app.handle_key(press(KeyCode::Char('j')));
    assert_eq!(app.response_scroll, 1);
    app.handle_key(press(KeyCode::Down));
    assert_eq!(app.response_scroll, 2);
    app.handle_key(press(KeyCode::PageDown));
    assert_eq!(app.response_scroll, 12);
    app.handle_key(press(KeyCode::Char('k')));
    assert_eq!(app.response_scroll, 11);
    app.handle_key(press(KeyCode::Up));
    assert_eq!(app.response_scroll, 10);
    app.handle_key(press(KeyCode::PageUp));
    assert_eq!(app.response_scroll, 0);
    app.handle_key(press(KeyCode::PageUp));
    assert_eq!(app.response_scroll, 0);
    assert!(matches!(app.handle_key(press(KeyCode::Char('x'))), Action::Continue));
    assert_eq!(app.response_scroll, 0);
}

#[test]
fn url_bar_edits_at_the_end() {
    let mut app = App::new();
    app.url_input = "ab".to_string();
    app.handle_key(press(KeyCode::Char('c')));
    assert_eq!(app.url_input, "abc");
    app.handle_key(press(KeyCode::Char('é')));
    assert_eq!(app.url_input, "abcé");
    app.handle_key(press(KeyCode::Backspace));
    assert_eq!(app.url_input, "abc");
    app.handle_key(press(KeyCode::Backspace));
    app.handle_key(press(KeyCode::Backspace));
    app.handle_key(press(KeyCode::Backspace));
    assert_eq!(app.url_input, "");
    app.handle_key(press(KeyCode::Backspace));
    assert_eq!(app.url_input, "");
    app.handle_key(press(KeyCode::Enter));
    assert_eq!(app.url_input, "");
}

#[test]
fn digits_one_and_two_pick_the_tab_in_any_pane() {
    for pane in [
        ActivePane::UrlBar,
        ActivePane::MethodSelector,
        ActivePane::InputArea,
        ActivePane::ResponseViewer,
    ] {
        let mut app = App::new();
        app.active_pane = pane;
        assert!(matches!(app.handle_key(press(KeyCode::Char('2'))), Action::Continue));
        assert_eq!(app.input_tab, InputTab::Headers);
        assert!(matches!(app.handle_key(press(KeyCode::Char('1'))), Action::Continue));
        assert_eq!(app.input_tab, InputTab::Body);
        assert_eq!(app.url_input, "https://httpbin.org/bearer");
    }
}

#[test]
fn method_selector_advances_on_enter_and_space() {
    let mut app = App::new();
    app.active_pane = ActivePane::MethodSelector;
    app.handle_key(press(KeyCode::Enter));
    assert_eq!(app.method, HttpMethod::POST);
    app.handle_key(press(KeyCode::Char(' ')));
    assert_eq!(app.method, HttpMethod::PUT);
    app.handle_key(press(KeyCode::Char('x')));
    assert_eq!(app.method, HttpMethod::PUT);
    app.handle_key(press(KeyCode::Enter));
    app.handle_key(press(KeyCode::Enter));
    assert_eq!(app.method, HttpMethod::GET);
}

#[test]
fn input_area_forwards_keys_to_the_visible_editor() {
    let mut app = App::new();
    app.active_pane = ActivePane::InputArea;
    assert!(matches!(
        app.handle_key(press(KeyCode::Char('x'))),
        Action::EditorInput(InputTab::Body)
    ));
    app.handle_key(press(KeyCode::Char('2')));
    assert!(matches!(
        app.handle_key(press(KeyCode::Enter)),
        Action::EditorInput(InputTab::Headers)
    ));
    assert!(matches!(
        app.handle_key(press(KeyCode::Char('q'))),
        Action::EditorInput(InputTab::Headers)
    ));
}

#[test]
fn set_editor_lines_stores_the_lines() {
    let mut app = App::new();
    app.set_editor_lines(InputTab::Body, lines(&["{", "}"]));
    assert_eq!(app.body_lines, lines(&["{", "}"]));
    assert_eq!(app.header_lines, lines(&["Content-Type: application/json"]));
    app.set_editor_lines(InputTab::Headers, lines(&["A: 1"]));
    assert_eq!(app.header_lines, lines(&["A: 1"]));
    assert_eq!(app.body_lines, lines(&["{", "}"]));
}

#[test]
fn quit_keys_leave_the_loop_when_idle() {
    let mut app = App::new();
    assert!(matches!(app.handle_key(press(KeyCode::Char('q'))), Action::Quit));
    assert!(matches!(app.handle_key(press(KeyCode::Esc)), Action::Quit));
    app.active_pane = ActivePane::InputArea;
    assert!(matches!(app.handle_key(press(KeyCode::Esc)), Action::Quit));
    assert_eq!(app.url_input, "https://httpbin.org/bearer");
}

#[test]
fn quit_keys_are_blocked_while_loading() {
    let mut app = App::new();
    app.is_loading = true;
    app.active_pane = ActivePane::ResponseViewer;
    assert!(matches!(app.handle_key(press(KeyCode::Char('q'))), Action::Continue));
    assert!(matches!(app.handle_key(press(KeyCode::Esc)), Action::Continue));
    app.active_pane = ActivePane::InputArea;
    assert!(matches!(
        app.handle_key(press(KeyCode::Esc)),
        Action::EditorInput(InputTab::Body)
    ));
    assert!(app.is_loading);
}

#[test]
fn blocked_quit_key_goes_to_the_url_bar() {
    let mut app = App::new();
    app.is_loading = true;
    app.url_input = "x".to_string();
    assert!(matches!(app.handle_key(press(KeyCode::Char('q'))), Action::Continue));
    assert_eq!(app.url_input, "xq");
}

#[test]
fn releases_and_repeats_change_nothing() {
    let mut app = App::new();
    for kind in [KeyKind::Release, KeyKind::Repeat] {
        for code in [KeyCode::Tab, KeyCode::Char('q'), KeyCode::Char('x'), KeyCode::Esc] {
            let action = app.handle_key(KeyInput { code, ctrl: false, kind });
            assert!(matches!(action, Action::Continue));
        }
        let action = app.handle_key(KeyInput { code: KeyCode::Char('s'), ctrl: true, kind });
        assert!(matches!(action, Action::Continue));
    }
    assert_eq!(app.active_pane, ActivePane::UrlBar);
    assert_eq!(app.url_input, "https://httpbin.org/bearer");
    assert!(!app.is_loading);
}

#[test]
fn other_terminal_events_change_nothing() {
    let mut app = App::new();
    assert!(matches!(app.handle_input(InputEvent::Other), Action::Continue));
    assert_eq!(app.active_pane, ActivePane::UrlBar);
    assert!(matches!(
        app.handle_input(InputEvent::Key(press(KeyCode::Tab))),
        Action::Continue
    ));
    assert_eq!(app.active_pane, ActivePane::MethodSelector);
}

#[test]
fn get_is_sent_without_a_body_whatever_the_editor_holds() {
    for body in [&["{bad json"][..], &["{\"a\": 1}"][..], &[""][..]] {
        let mut app = App::new();
        app.body_lines = lines(body);
        app.response_text = "old".to_string();
        let action = app.handle_key(ctrl(KeyCode::Char('s')));
        match action {
            Action::Spawn(draft) => {
                assert_eq!(draft.method, HttpMethod::GET);
                assert_eq!(draft.url, "https://httpbin.org/bearer");
                assert_eq!(draft.body, None);
                assert_eq!(draft.raw_headers, "Content-Type: application/json");
            }
            other => panic!("expected a request, got {:?}", other),
        }
        assert!(app.is_loading);
        assert_eq!(app.response_text, "");
    }
}

#[test]
fn delete_is_sent_without_a_body() {
    let mut app = App::new();
    app.method = HttpMethod::DELETE;
    app.body_lines = lines(&["{bad json"]);
    let draft = app.submit().expect("accepted");
    assert_eq!(draft.method, HttpMethod::DELETE);
    assert_eq!(draft.body, None);
    assert!(app.is_loading);
}

#[test]
fn post_with_invalid_json_is_refused() {
    let mut app = App::new();
    app.method = HttpMethod::POST;
    app.body_lines = lines(&["{bad json"]);
    let action = app.handle_key(ctrl(KeyCode::Char('s')));
    assert!(matches!(action, Action::Continue));
    assert_eq!(app.response_status, 400);
    assert_eq!(
        app.response_text,
        "❌ JSON ERROR: key must be a string at line 1 column 2"
    );
    assert!(!app.is_loading);
}

#[test]
fn put_with_invalid_json_is_refused() {
    let mut app = App::new();
    app.method = HttpMethod::PUT;
    app.body_lines = lines(&["{", "  \"a\": ", "}"]);
    assert!(app.submit().is_none());
    assert_eq!(app.response_status, 400);
    assert!(app.response_text.starts_with("❌ JSON ERROR: "));
    assert!(app.response_text.ends_with("at line 3 column 1"));
    assert!(!app.is_loading);
}

#[test]
fn refusal_keeps_the_loading_flag_of_a_running_mission() {
    let mut app = App::new();
    app.method = HttpMethod::POST;
    app.is_loading = true;
    app.body_lines = lines(&["nope"]);
    assert!(app.submit().is_none());
    assert!(app.is_loading);
    assert_eq!(app.response_status, 400);
}

#[test]
fn post_with_valid_json_is_sent_with_its_body() {
    let mut app = App::new();
    app.method = HttpMethod::POST;
    app.url_input = "https://example.test/items".to_string();
    app.body_lines = lines(&["{", "  \"a\": [1, 2]", "}"]);
    app.header_lines = lines(&["A: 1", "B: 2"]);
    app.response_status = 404;
    let draft = app.submit().expect("accepted");
    assert_eq!(draft.method, HttpMethod::POST);
    assert_eq!(draft.url, "https://example.test/items");
    assert_eq!(draft.body.as_deref(), Some("{\n  \"a\": [1, 2]\n}"));
    assert_eq!(draft.raw_headers, "A: 1\nB: 2");
    assert!(app.is_loading);
    assert_eq!(app.response_text, "");
    assert_eq!(app.response_status, 404);
}

#[test]
fn post_with_a_blank_body_is_sent_without_one() {
    let mut app = App::new();
    app.method = HttpMethod::POST;
    app.body_lines = lines(&["  ", "\t", "\u{a0}"]);
    let draft = app.submit().expect("accepted");
    assert_eq!(draft.body, None);
    assert!(app.is_loading);
}

#[test]
fn submission_is_taken_in_every_pane() {
    for pane in [
        ActivePane::UrlBar,
        ActivePane::MethodSelector,
        ActivePane::InputArea,
        ActivePane::ResponseViewer,
    ] {
        let mut app = App::new();
        app.active_pane = pane;
        assert!(matches!(app.handle_key(ctrl(KeyCode::Char('s'))), Action::Spawn(_)));
        assert!(app.is_loading);
        assert_eq!(app.active_pane, pane);
    }
}

#[test]
fn settle_submission_goes_by_the_given_verdict() {
    let mut app = App::new();
    app.method = HttpMethod::PUT;
    let refused = app.settle_submission(
        "[1".to_string(),
        "A: 1".to_string(),
        Some("unexpected end".to_string()),
    );
    assert!(refused.is_none());
    assert_eq!(app.response_text, "❌ JSON ERROR: unexpected end");
    assert_eq!(app.response_status, 400);

    let sent = app.settle_submission("[1]".to_string(), "A: 1".to_string(), None);
    let draft = sent.expect("accepted");
    assert_eq!(draft.body.as_deref(), Some("[1]"));
    assert_eq!(draft.raw_headers, "A: 1");
    assert_eq!(app.response_text, "");
    assert!(app.is_loading);
}

fn telemetry(status: u16) -> MissionTelemetry {
    MissionTelemetry {
        dns_handshake_ttfb: Duration::from_millis(30),
        transfer: Duration::from_millis(12),
        total: Duration::from_millis(45),
        size_bytes: 2,
        status,
    }
}

#[test]
fn a_finished_mission_fills_the_response() {
    let mut app = App::new();
    app.is_loading = true;
    app.apply_engine_event(EngineEvent::Completed(telemetry(200), "ok".to_string()));
    assert!(!app.is_loading);
    assert_eq!(app.response_status, 200);
    assert_eq!(app.response_text, "ok");
    let kept = app.telemetry.expect("telemetry");
    assert_eq!(kept.status, 200);
    assert_eq!(kept.size_bytes, 2);
    assert_eq!(kept.total, Duration::from_millis(45));
    assert!(kept.total >= kept.dns_handshake_ttfb);
    assert!(kept.total >= kept.transfer);
}

#[test]
fn a_failed_mission_shows_the_reason() {
    let mut app = App::new();
    app.is_loading = true;
    app.apply_engine_event(EngineEvent::Completed(telemetry(201), "first".to_string()));
    app.is_loading = true;
    app.apply_engine_event(EngineEvent::Error("Failed to connect".to_string()));
    assert!(!app.is_loading);
    assert_eq!(app.response_status, 500);
    assert_eq!(app.response_text, "❌ CRITICAL FAILURE: Failed to connect");
    assert_eq!(app.telemetry.expect("kept").status, 201);
}

#[test]
fn the_last_report_wins() {
    let mut app = App::new();
    app.apply_engine_event(EngineEvent::Completed(telemetry(200), "one".to_string()));
    app.apply_engine_event(EngineEvent::Completed(telemetry(404), "two".to_string()));
    assert_eq!(app.response_status, 404);
    assert_eq!(app.response_text, "two");
    assert_eq!(app.telemetry.expect("telemetry").status, 404);
}

#[test]
fn failures_have_fixed_messages() {
    assert_eq!(MissionFailure::Connection.message(), "Failed to connect");
    assert_eq!(MissionFailure::Stream.message(), "Stream error");
}

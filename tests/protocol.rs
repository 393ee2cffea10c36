use window_bridge::application::{Application, Dispatch};
use window_bridge::decimal::{decimal_text, parse_decimal};
use window_bridge::event::WindowEvent;
use window_bridge::json::{Json, Number};
use window_bridge::monitor::{get_monitor_info, monitor_index, select_monitor, MonitorDesc};
use window_bridge::pending::Pending;
use window_bridge::protocol::{decode_command, frame_line, line_payload, Action, Message};
use window_bridge::request::{decode_request, Decoded, Request};
use window_bridge::response::{respond, FullscreenState, Outcome};
use window_bridge::shapes::{Fullscreen, Rgba, Theme, WindowLevel};

fn s(x: &str) -> String {
    x.to_string()
}

fn obj(fields: Vec<(&str, Json)>) -> Json {
    Json::Object(fields.into_iter().map(|(k, v)| (k.to_string(), v)).collect())
}

fn num(n: u64) -> Json {
    Json::Number(Number::PosInt(n))
}

fn command(id: &str, label: &str, method: &str, data: Option<Json>) -> Json {
    let mut f = vec![("id", Json::Str(s(id))), ("label", Json::Str(s(label))), ("method", Json::Str(s(method)))];
    if let Some(d) = data {
        f.push(("data", d));
    }
    obj(f)
}

fn member<'a>(j: &'a Json, key: &str) -> Option<&'a Json> {
    j.get(key)
}

fn text_of(j: Option<&Json>) -> Option<String> {
    match j {
        Some(Json::Str(t)) => Some(t.clone()),
        _ => None,
    }
}

fn create(app: &mut Application<u32>, label: &str, handle: u32, id: u64) {
    match app.handle_listen(command("c", label, "create", None)) {
        Dispatch::Create(c, _, _) => {
            assert!(app.create_new_window(&c, id, handle).is_ok());
        }
        _ => panic!("create was not passed on"),
    }
}

#[test]
fn create_scenario_gives_sized_titled_window_and_id_response() {
    let line = "_ioc:{\"id\":\"1\",\"label\":\"main\",\"method\":\"create\",\"data\":{\"title\":\"Hello\",\"innerSize\":{\"width\":400,\"height\":300}}}";
    assert_eq!(line_payload(line).unwrap(), line[5..].to_string());
    let message = command(
        "1",
        "main",
        "create",
        Some(obj(vec![
            ("title", Json::Str(s("Hello"))),
            ("innerSize", obj(vec![("width", num(400)), ("height", num(300))])),
        ])),
    );
    let mut app: Application<u32> = Application::new();
    match app.handle_listen(message) {
        Dispatch::Create(c, w, _v) => {
            assert_eq!(w.title, Some(s("Hello")));
            assert!(matches!(w.inner_size.width, Number::PosInt(400)));
            assert!(matches!(w.inner_size.height, Number::PosInt(300)));
            let m = app.create_new_window(&c, 42, 7).ok().unwrap();
            assert!(app.get_window("main").is_some());
            assert_eq!(app.windows.len(), 1);
            let j = m.to_json();
            assert_eq!(text_of(member(&j, "id")), Some(s("1")));
            assert_eq!(text_of(member(&j, "label")), Some(s("main")));
            assert_eq!(text_of(member(&j, "method")), Some(s("create")));
            assert_eq!(text_of(member(&j, "type")), Some(s("response")));
            assert_eq!(text_of(member(&j, "data")), Some(s("42")));
        }
        _ => panic!("create was not passed on"),
    }
}

#[test]
fn create_without_size_uses_default() {
    let mut app: Application<u32> = Application::new();
    match app.handle_listen(command("1", "a", "create", Some(Json::Null))) {
        Dispatch::Create(_, w, v) => {
            assert!(matches!(w.inner_size.width, Number::PosInt(800)));
            assert!(matches!(w.inner_size.height, Number::PosInt(600)));
            assert!(w.title.is_none());
            assert!(v.url.is_none());
        }
        _ => panic!("create was not passed on"),
    }
}

#[test]
fn create_reads_recognised_options_and_skips_wrong_shapes() {
    let data = obj(vec![
        ("url", Json::Str(s("https://example.org"))),
        ("backgroundColor", Json::Array(vec![num(1), num(2), num(3), num(4)])),
        ("borderless", Json::Bool(true)),
        ("theme", Json::Str(s("dark"))),
        ("windowLevel", Json::Str(s("sideways"))),
        ("fullscreen", num(2)),
        ("resizable", Json::Str(s("yes"))),
        ("enabledButtons", Json::Array(vec![Json::Str(s("close")), Json::Str(s("other"))])),
        ("position", obj(vec![("x", Json::Number(Number::NegInt(-5))), ("y", num(9))])),
        ("unknownKey", Json::Bool(true)),
    ]);
    let mut app: Application<u32> = Application::new();
    match app.handle_listen(command("1", "a", "create", Some(data))) {
        Dispatch::Create(_, w, v) => {
            assert_eq!(v.url, Some(s("https://example.org")));
            assert!(v.background_color == Some(Rgba { r: 1, g: 2, b: 3, a: 4 }));
            assert_eq!(w.decorations, Some(false));
            assert!(w.theme == Some(Theme::Dark));
            assert!(w.window_level == Some(WindowLevel::Normal));
            assert!(w.fullscreen == Some(Fullscreen::Monitor(2)));
            assert_eq!(w.resizable, None);
            let b = w.enabled_buttons.unwrap();
            assert!(b.close && !b.minimize && !b.maximize);
            assert_eq!(w.position, Some((-5, 9)));
        }
        _ => panic!("create was not passed on"),
    }
}

#[test]
fn duplicate_create_is_rejected() {
    let mut app: Application<u32> = Application::new();
    create(&mut app, "main", 1, 10);
    let r = app.handle_listen(command("2", "main", "create", None));
    assert!(matches!(r, Dispatch::Duplicate(_)));
    assert_eq!(app.windows.len(), 1);
    match app.handle_listen(command("3", "other", "create", None)) {
        Dispatch::Create(_, _, _) => {}
        _ => panic!("fresh label refused"),
    }
}

#[test]
fn registering_a_taken_label_hands_the_handle_back() {
    let mut app: Application<u32> = Application::new();
    create(&mut app, "main", 1, 10);
    let c = decode_command(command("9", "main", "create", None)).unwrap();
    match app.create_new_window(&c, 11, 99) {
        Err(h) => assert_eq!(h, 99),
        Ok(_) => panic!("label registered twice"),
    }
    assert_eq!(app.windows.len(), 1);
}

#[test]
fn background_color_accepts_four_bytes_only() {
    let ok = Json::Array(vec![num(0), num(128), num(255), num(255)]);
    match decode_request("set_background_color", &ok) {
        Decoded::Known(Request::SetBackgroundColor(c)) => assert!(c == Rgba { r: 0, g: 128, b: 255, a: 255 }),
        _ => panic!("valid colour refused"),
    }
    let bad = vec![
        Json::Array(vec![num(0), num(128), num(255)]),
        Json::Array(vec![num(0), num(128), num(255), num(255), num(1)]),
        Json::Array(vec![num(0), num(128), num(256), num(255)]),
        Json::Array(vec![num(0), Json::Number(Number::NegInt(-1)), num(2), num(3)]),
        Json::Array(vec![num(0), Json::Number(Number::Float(s("1.5"))), num(2), num(3)]),
        Json::Str(s("red")),
    ];
    for b in bad.iter() {
        assert!(matches!(decode_request("set_background_color", b), Decoded::Invalid));
    }
}

#[test]
fn set_url_with_non_string_is_a_no_op() {
    let mut app: Application<u32> = Application::new();
    create(&mut app, "main", 1, 10);
    let r = app.handle_listen(command("5", "main", "set_url", Some(num(3))));
    assert!(matches!(r, Dispatch::Invalid(_)));
    let r = app.handle_listen(command("6", "main", "set_url", None));
    assert!(matches!(r, Dispatch::Invalid(_)));
    match app.handle_listen(command("7", "main", "set_url", Some(Json::Str(s("https://a.b"))))) {
        Dispatch::Perform(_, Request::SetUrl(u)) => assert_eq!(u, s("https://a.b")),
        _ => panic!("string url refused"),
    }
}

#[test]
fn set_title_then_title_round_trip() {
    let mut app: Application<u32> = Application::new();
    create(&mut app, "main", 1, 10);
    match app.handle_listen(command("1", "main", "set_title", Some(Json::Str(s("X"))))) {
        Dispatch::Perform(c, Request::SetTitle(t)) => {
            assert_eq!(t, s("X"));
            let m = respond(&c, Outcome::Done);
            assert!(m.data.is_none());
        }
        _ => panic!("set_title refused"),
    }
    match app.handle_listen(command("2", "main", "title", None)) {
        Dispatch::Perform(c, Request::Title) => {
            let m = respond(&c, Outcome::Text(s("X")));
            assert_eq!(text_of(m.data.as_ref()), Some(s("X")));
            assert_eq!(m.id, Some(s("2")));
        }
        _ => panic!("title refused"),
    }
}

#[test]
fn malformed_and_unknown_commands() {
    let mut app: Application<u32> = Application::new();
    assert!(matches!(app.handle_listen(obj(vec![("id", Json::Str(s("1")))])), Dispatch::Malformed));
    assert!(matches!(app.handle_listen(Json::Null), Dispatch::Malformed));
    assert!(matches!(
        app.handle_listen(obj(vec![("id", num(1)), ("label", Json::Str(s("a"))), ("method", Json::Str(s("title")))])),
        Dispatch::Malformed
    ));
    assert!(matches!(app.handle_listen(command("1", "a", "explode", None)), Dispatch::Unknown(_)));
    assert!(matches!(app.handle_listen(command("1", "a", "title", None)), Dispatch::Missing(_)));
    assert!(matches!(app.handle_listen(command("1", "a", "get_monitor_list", None)), Dispatch::Perform(_, Request::GetMonitorList)));
}

#[test]
fn close_command_removes_session_without_exit() {
    let mut app: Application<u32> = Application::new();
    create(&mut app, "a", 1, 10);
    assert!(matches!(app.handle_listen(command("1", "a", "close", None)), Dispatch::Closed(_)));
    assert_eq!(app.windows.len(), 0);
    assert!(matches!(app.handle_listen(command("2", "a", "close", None)), Dispatch::Missing(_)));
}

#[test]
fn close_request_on_last_window_exits() {
    let mut app: Application<u32> = Application::new();
    create(&mut app, "only", 1, 10);
    let r = app.handle_window_event(10, WindowEvent::CloseRequested);
    assert!(r.exit);
    let m = r.message.unwrap();
    assert_eq!(m.method, s("close"));
    assert_eq!(m.label, s("only"));
    assert!(m.id.is_none());
    assert_eq!(app.windows.len(), 1);
}

#[test]
fn close_request_on_one_of_three_windows() {
    let mut app: Application<u32> = Application::new();
    create(&mut app, "a", 1, 10);
    create(&mut app, "b", 2, 20);
    create(&mut app, "c", 3, 30);
    let r = app.handle_window_event(20, WindowEvent::CloseRequested);
    assert!(!r.exit);
    assert!(r.message.is_some());
    assert_eq!(app.windows.len(), 2);
    assert!(app.get_window("b").is_none());
    assert_eq!(app.get_window("a").unwrap().handle, 1);
    assert_eq!(app.get_window("c").unwrap().handle, 3);
}

#[test]
fn events_for_unknown_windows_are_dropped() {
    let mut app: Application<u32> = Application::new();
    create(&mut app, "a", 1, 10);
    let r = app.handle_window_event(99, WindowEvent::Focused(true));
    assert!(r.message.is_none() && !r.exit);
}

#[test]
fn event_messages_carry_their_data() {
    let mut app: Application<u32> = Application::new();
    create(&mut app, "a", 1, 10);
    let m = app.handle_window_event(10, WindowEvent::Focused(false)).message.unwrap();
    assert_eq!(m.method, s("blur"));
    let m = app.handle_window_event(10, WindowEvent::Resized(640, 480)).message.unwrap();
    assert_eq!(m.method, s("resize"));
    let d = m.data.unwrap();
    assert!(matches!(d.get("width"), Some(Json::Number(Number::PosInt(640)))));
    assert!(matches!(d.get("height"), Some(Json::Number(Number::PosInt(480)))));
    let m = app.handle_window_event(10, WindowEvent::Moved(-3, 4)).message.unwrap();
    let d = m.data.unwrap();
    assert!(matches!(d.get("x"), Some(Json::Number(Number::NegInt(-3)))));
    let m = app.handle_window_event(10, WindowEvent::ThemeChanged(Theme::Light)).message.unwrap();
    assert_eq!(text_of(m.data.as_ref()), Some(s("light")));
    let m = app.handle_window_event(10, WindowEvent::CursorLeft).message.unwrap();
    assert_eq!(m.method, s("cursorOut"));
    assert!(app.handle_window_event(10, WindowEvent::Other).message.is_none());
}

#[test]
fn monitor_index_is_stable_between_list_and_fullscreen() {
    assert_eq!(monitor_index("Monitor #2"), Some(2));
    assert_eq!(monitor_index("Monitor #"), None);
    assert_eq!(monitor_index("Display 2"), None);
    assert_eq!(monitor_index("Monitor #1x"), None);
    let names = vec![s("Monitor #3"), s("Monitor #1"), s("Monitor #2")];
    for (i, n) in names.iter().enumerate() {
        let info = get_monitor_info(&MonitorDesc {
            name: n.clone(),
            width: 1920,
            height: 1080,
            scale_factor: Number::Float(s("1.5")),
        });
        let id = match info.get("monitorId") {
            Some(Json::Number(Number::PosInt(k))) => *k,
            _ => panic!("no monitor id"),
        };
        assert_eq!(select_monitor(&names, id), Some(i));
    }
    assert_eq!(select_monitor(&names, 7), None);
    match decode_request("fullscreen", &num(1)) {
        Decoded::Known(Request::SetFullscreen(f)) => assert!(f == Fullscreen::Monitor(1)),
        _ => panic!("fullscreen refused"),
    }
    match decode_request("fullscreen", &Json::Null) {
        Decoded::Known(Request::SetFullscreen(f)) => assert!(f == Fullscreen::Current),
        _ => panic!("fullscreen refused"),
    }
}

#[test]
fn is_fullscreen_reports_monitor_or_flag() {
    let c = decode_command(command("1", "a", "is_fullscreen", None)).unwrap();
    let m = respond(&c, Outcome::Fullscreen(FullscreenState::Borderless(Some(s("Monitor #4")))));
    assert!(matches!(m.data, Some(Json::Number(Number::PosInt(4)))));
    let m = respond(&c, Outcome::Fullscreen(FullscreenState::Borderless(None)));
    assert!(matches!(m.data, Some(Json::Bool(true))));
    let m = respond(&c, Outcome::Fullscreen(FullscreenState::Windowed));
    assert!(matches!(m.data, Some(Json::Bool(false))));
}

#[test]
fn query_outcomes_shape_their_data() {
    let c = decode_command(command("1", "a", "enabled_buttons", None)).unwrap();
    let m = respond(&c, Outcome::Buttons(window_bridge::shapes::Buttons { close: true, minimize: false, maximize: true }));
    match m.data {
        Some(Json::Array(items)) => {
            assert_eq!(items.len(), 2);
            assert_eq!(text_of(items.first()), Some(s("close")));
            assert_eq!(text_of(items.get(1)), Some(s("maximize")));
        }
        _ => panic!("no button list"),
    }
    assert!(matches!(respond(&c, Outcome::Decorated(true)).data, Some(Json::Bool(false))));
    assert!(matches!(respond(&c, Outcome::Theme(None)).data, Some(Json::Null)));
    assert!(respond(&c, Outcome::Point(None)).data.is_none());
    assert!(respond(&c, Outcome::MaybeFlag(None)).data.is_none());
}

#[test]
fn framing_of_lines() {
    assert_eq!(line_payload("_ioc:{}"), Some(s("{}")));
    assert_eq!(line_payload("hello"), None);
    assert_eq!(line_payload("_io"), None);
    assert_eq!(frame_line("{\"a\":1}"), s("_ioc:{\"a\":1}\n"));
}

#[test]
fn response_and_event_objects() {
    let m = Message { id: None, label: s("w"), method: s("focus"), data: None };
    let j = m.to_json();
    assert_eq!(text_of(member(&j, "type")), Some(s("windowEvent")));
    assert!(member(&j, "id").is_none());
    assert!(member(&j, "data").is_none());
}

#[test]
fn decimal_both_ways() {
    assert_eq!(decimal_text(0), s("0"));
    assert_eq!(decimal_text(1234567890), s("1234567890"));
    assert_eq!(decimal_text(u64::MAX), s("18446744073709551615"));
    assert_eq!(parse_decimal("18446744073709551615"), Some(u64::MAX));
    assert_eq!(parse_decimal("18446744073709551616"), None);
    assert_eq!(parse_decimal(""), None);
    assert_eq!(parse_decimal("12a"), None);
}

#[test]
fn resumed_is_true_once() {
    let mut app: Application<u32> = Application::new();
    assert!(app.resumed());
    assert!(!app.resumed());
}

#[test]
fn drag_resize_and_attention_payloads() {
    assert!(matches!(decode_request("drag_resize_window", &Json::Str(s("diagonal"))), Decoded::Invalid));
    assert!(matches!(decode_request("drag_resize_window", &Json::Str(s("east"))), Decoded::Known(Request::DragResizeWindow(_))));
    match decode_request("request_user_attention", &Json::Str(s("other"))) {
        Decoded::Known(Request::RequestUserAttention(a)) => assert!(a == Some(window_bridge::shapes::Attention::Critical)),
        _ => panic!("attention refused"),
    }
    assert!(matches!(decode_request("request_user_attention", &Json::Null), Decoded::Known(Request::RequestUserAttention(None))));
    assert!(matches!(decode_request("set_minimized", &num(1)), Decoded::Invalid));
    match decode_request("set_theme", &Json::Str(s("blue"))) {
        Decoded::Known(Request::SetTheme(t)) => assert!(t.is_none()),
        _ => panic!("theme refused"),
    }
}

#[test]
fn listener_forwards_protocol_lines_only() {
    match Action::from_line("_ioc:{\"id\":\"1\"}") {
        Some(Action::ForwardMessage(t)) => assert_eq!(t, s("{\"id\":\"1\"}")),
        _ => panic!("protocol line dropped"),
    }
    assert!(Action::from_line("log: _ioc:{}").is_none());
}

#[test]
fn close_window_is_idempotent() {
    let mut app: Application<u32> = Application::new();
    create(&mut app, "a", 1, 10);
    create(&mut app, "b", 2, 20);
    app.close_window("a");
    assert!(app.get_window("a").is_none());
    assert_eq!(app.windows.len(), 1);
    app.close_window("a");
    assert_eq!(app.windows.len(), 1);
    assert_eq!(app.windows.find_by_id(20).unwrap().label, s("b"));
    assert!(app.windows.find_by_id(10).is_none());
}

#[test]
fn script_result_answers_once() {
    let mut pending = Pending::new();
    let c = decode_command(command("7", "main", "evaluate_script_with_callback", Some(Json::Str(s("1+1"))))).unwrap();
    let t = pending.register(c).unwrap();
    let c2 = decode_command(command("8", "main", "evaluate_script_with_callback", Some(Json::Str(s("2"))))).unwrap();
    let t2 = pending.register(c2).unwrap();
    assert_ne!(t, t2);
    let m = pending.complete(t, s("2")).unwrap();
    assert_eq!(m.id, Some(s("7")));
    assert_eq!(text_of(m.data.as_ref()), Some(s("2")));
    assert!(pending.complete(t, s("2")).is_none());
    assert_eq!(pending.complete(t2, s("x")).unwrap().id, Some(s("8")));
}

#[test]
fn destroyed_window_loses_its_session() {
    let mut app: Application<u32> = Application::new();
    create(&mut app, "a", 1, 10);
    create(&mut app, "b", 2, 20);
    let r = app.handle_window_event(10, WindowEvent::Destroyed);
    assert!(!r.exit);
    let m = r.message.unwrap();
    assert_eq!(m.method, s("destroy"));
    assert_eq!(m.label, s("a"));
    assert!(app.get_window("a").is_none());
    assert_eq!(app.get_window("b").unwrap().handle, 2);
    let r = app.handle_window_event(20, WindowEvent::Destroyed);
    assert!(!r.exit);
    assert_eq!(app.windows.len(), 0);
}

#[test]
fn registering_a_live_window_id_is_refused() {
    let mut app: Application<u32> = Application::new();
    create(&mut app, "a", 1, 10);
    let c = decode_command(command("9", "b", "create", None)).unwrap();
    match app.create_new_window(&c, 10, 5) {
        Err(h) => assert_eq!(h, 5),
        Ok(_) => panic!("window id registered twice"),
    }
    assert!(app.get_window("b").is_none());
    assert!(app.create_new_window(&c, 11, 5).is_ok());
}

#[test]
fn fresh_pending_table_hands_out_tokens() {
    let mut pending = Pending::new();
    let c = decode_command(command("1", "a", "evaluate_script_with_callback", Some(Json::Str(s("x"))))).unwrap();
    assert_eq!(pending.register(c), Some(0));
}

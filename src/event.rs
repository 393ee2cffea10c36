//! Native window events, and the unsolicited messages they turn into.
use vstd::prelude::*;
use vstd::string::StringExecFns;
use crate::json::{Json, Number};
use crate::protocol::Message;
use crate::response::{int_json, is_xy, is_extent, is_text, outcome_data, Outcome};
use crate::shapes::Theme;

verus! {

/// A state change that the toolkit reports for one window.
pub enum WindowEvent {
    CloseRequested,
    Moved(i32, i32),
    Destroyed,
    Focused(bool),
    CursorMoved(Number, Number),
    CursorEntered,
    CursorLeft,
    ThemeChanged(Theme),
    Occluded(bool),
    Resized(u32, u32),
    /// Any event that is not forwarded.
    Other,
}

/// The `method` of the message forwarded for an event; nothing for an event
/// that is not forwarded.
pub open spec fn event_method(ev: WindowEvent) -> Option<Seq<char>> {
    match ev {
        WindowEvent::CloseRequested => Some("close"@),
        WindowEvent::Moved(_, _) => Some("move"@),
        WindowEvent::Destroyed => Some("destroy"@),
        WindowEvent::Focused(true) => Some("focus"@),
        WindowEvent::Focused(false) => Some("blur"@),
        WindowEvent::CursorMoved(_, _) => Some("cursorMove"@),
        WindowEvent::CursorEntered => Some("cursorEnter"@),
        WindowEvent::CursorLeft => Some("cursorOut"@),
        WindowEvent::ThemeChanged(_) => Some("theme"@),
        WindowEvent::Occluded(_) => Some("occluded"@),
        WindowEvent::Resized(_, _) => Some("resize"@),
        WindowEvent::Other => None,
    }
}

/// The `data` of the message forwarded for an event.
pub open spec fn event_data(d: Option<Json>, ev: WindowEvent) -> bool {
    match ev {
        WindowEvent::Moved(x, y) => d matches Some(j) && is_xy(j, int_json(x), int_json(y)),
        WindowEvent::CursorMoved(x, y) => d matches Some(j) && is_xy(j, Json::Number(x), Json::Number(y)),
        WindowEvent::ThemeChanged(Theme::Light) => d matches Some(j) && is_text(j, "light"@),
        WindowEvent::ThemeChanged(Theme::Dark) => d matches Some(j) && is_text(j, "dark"@),
        WindowEvent::Occluded(b) => d == Some(Json::Bool(b)),
        WindowEvent::Resized(w, h) => d matches Some(j) && is_extent(j, w, h),
        _ => d is None,
    }
}

/// Whether `m` is the event message forwarded for `ev` on the window
/// labelled `label`.
pub open spec fn forwards(m: Message, label: String, ev: WindowEvent) -> bool {
    &&& m.id is None
    &&& m.label == label
    &&& event_method(ev) == Some(m.method@)
    &&& event_data(m.data, ev)
}

fn event_message_parts(ev: WindowEvent) -> (r: Option<(String, Option<Json>)>)
    ensures
        match r {
            Some((method, data)) => event_method(ev) == Some(method@) && event_data(data, ev),
            None => event_method(ev) is None,
        },
{
    match ev {
        WindowEvent::CloseRequested => Some((String::from_str("close"), None)),
        WindowEvent::Moved(x, y) => Some((String::from_str("move"), outcome_data(Outcome::Point(Some((x, y)))))),
        WindowEvent::Destroyed => Some((String::from_str("destroy"), None)),
        WindowEvent::Focused(f) => if f {
            Some((String::from_str("focus"), None))
        } else {
            Some((String::from_str("blur"), None))
        },
        WindowEvent::CursorMoved(x, y) => {
            let mut fields: Vec<(String, Json)> = Vec::new();
            fields.push((String::from_str("x"), Json::Number(x)));
            fields.push((String::from_str("y"), Json::Number(y)));
            proof {
                reveal_strlit("x");
                reveal_strlit("y");
                assert("x"@[0] != "y"@[0]);
                crate::json::lemma_member_at(fields@, "x"@, 0);
                crate::json::lemma_member_at(fields@, "y"@, 1);
            }
            Some((String::from_str("cursorMove"), Some(Json::Object(fields))))
        },
        WindowEvent::CursorEntered => Some((String::from_str("cursorEnter"), None)),
        WindowEvent::CursorLeft => Some((String::from_str("cursorOut"), None)),
        WindowEvent::ThemeChanged(t) => Some((String::from_str("theme"), outcome_data(Outcome::Theme(Some(t))))),
        WindowEvent::Occluded(b) => Some((String::from_str("occluded"), Some(Json::Bool(b)))),
        WindowEvent::Resized(w, h) => Some((String::from_str("resize"), outcome_data(Outcome::Extent(w, h)))),
        WindowEvent::Other => None,
    }
}

/// The message forwarded for `ev` on the window labelled `label`, if the
/// event is one that is forwarded.
pub fn event_message(label: &String, ev: WindowEvent) -> (r: Option<Message>)
    ensures
        r is Some <==> event_method(ev) is Some,
        match r {
            Some(m) => forwards(m, *label, ev),
            None => true,
        },
{
    match event_message_parts(ev) {
        Some((method, data)) => Some(Message { id: None, label: label.clone(), method, data }),
        None => None,
    }
}

} // verus!

//! What goes back to the caller: the data of each response, the unsolicited
//! window events, and the decimal form of window identifiers.
use vstd::prelude::*;
use vstd::string::StringExecFns;
use crate::json::{Json, Number, get_spec, lemma_member_at};
use crate::monitor::{MonitorDesc, describes, monitor_id_json, get_monitor_info, monitor_list, monitor_index};
use crate::protocol::{Command, Message};
use crate::shapes::{Buttons, Theme};

verus! {

/// Whether the window is fullscreen, and where.
pub enum FullscreenState {
    Windowed,
    /// Borderless on the monitor with this display name, or on the current
    /// monitor.
    Borderless(Option<String>),
    Exclusive,
}

/// What the windowing toolkit answered to one operation.
pub enum Outcome {
    /// The operation has nothing to report.
    Done,
    Text(String),
    Flag(bool),
    MaybeFlag(Option<bool>),
    /// Whether the window has decorations; reported as whether it is
    /// borderless, the sense in which `create` takes it.
    Decorated(bool),
    Scale(Number),
    Point(Option<(i32, i32)>),
    Extent(u32, u32),
    MaybeExtent(Option<(u32, u32)>),
    Buttons(Buttons),
    Theme(Option<Theme>),
    Monitor(Option<MonitorDesc>),
    Monitors(Vec<MonitorDesc>),
    Fullscreen(FullscreenState),
}

pub open spec fn int_json(v: i32) -> Json {
    if v >= 0 {
        Json::Number(Number::PosInt(v as u64))
    } else {
        Json::Number(Number::NegInt(v as i64))
    }
}

/// An object with exactly the two members `ka: a` and `kb: b`.
pub open spec fn is_pair(j: Json, ka: Seq<char>, a: Json, kb: Seq<char>, b: Json) -> bool {
    &&& j is Object
    &&& j->Object_0@.len() == 2
    &&& get_spec(j, ka) == Some(a)
    &&& get_spec(j, kb) == Some(b)
}

pub open spec fn is_xy(j: Json, x: Json, y: Json) -> bool {
    is_pair(j, "x"@, x, "y"@, y)
}

pub open spec fn is_extent(j: Json, w: u32, h: u32) -> bool {
    is_pair(j, "width"@, Json::Number(Number::PosInt(w as u64)), "height"@, Json::Number(Number::PosInt(h as u64)))
}

/// The names of the enabled buttons, in the order close, minimize, maximize.
pub open spec fn button_names(b: Buttons) -> Seq<Seq<char>> {
    let s0: Seq<Seq<char>> = if b.close { seq!["close"@] } else { seq![] };
    let s1 = if b.minimize { s0.push("minimize"@) } else { s0 };
    if b.maximize { s1.push("maximize"@) } else { s1 }
}

pub open spec fn is_name_list(j: Json, names: Seq<Seq<char>>) -> bool {
    &&& j is Array
    &&& j->Array_0@.len() == names.len()
    &&& forall|i: int| 0 <= i < names.len() ==> (#[trigger] j->Array_0@[i] matches Json::Str(s) && s@ == names[i])
}

pub open spec fn is_text(j: Json, t: Seq<char>) -> bool {
    j matches Json::Str(s) && s@ == t
}

/// The `data` that goes with an outcome (nothing where it has none to give).
pub open spec fn reports(d: Option<Json>, o: Outcome) -> bool {
    match o {
        Outcome::Done => d is None,
        Outcome::Text(s) => d == Some(Json::Str(s)),
        Outcome::Flag(b) => d == Some(Json::Bool(b)),
        Outcome::MaybeFlag(Some(b)) => d == Some(Json::Bool(b)),
        Outcome::MaybeFlag(None) => d is None,
        Outcome::Decorated(b) => d == Some(Json::Bool(!b)),
        Outcome::Scale(n) => d == Some(Json::Number(n)),
        Outcome::Point(Some((x, y))) => d matches Some(j) && is_xy(j, int_json(x), int_json(y)),
        Outcome::Point(None) => d is None,
        Outcome::Extent(w, h) => d matches Some(j) && is_extent(j, w, h),
        Outcome::MaybeExtent(Some((w, h))) => d matches Some(j) && is_extent(j, w, h),
        Outcome::MaybeExtent(None) => d is None,
        Outcome::Buttons(b) => d matches Some(j) && is_name_list(j, button_names(b)),
        Outcome::Theme(Some(Theme::Light)) => d matches Some(j) && is_text(j, "light"@),
        Outcome::Theme(Some(Theme::Dark)) => d matches Some(j) && is_text(j, "dark"@),
        Outcome::Theme(None) => d == Some(Json::Null),
        Outcome::Monitor(Some(m)) => d matches Some(j) && describes(j, m),
        Outcome::Monitor(None) => d is None,
        Outcome::Monitors(ms) => d matches Some(j) && j is Array && j->Array_0@.len() == ms@.len()
            && forall|i: int| 0 <= i < ms@.len() ==> describes(#[trigger] j->Array_0@[i], ms@[i]),
        Outcome::Fullscreen(FullscreenState::Borderless(Some(name))) => d == Some(monitor_id_json(name@)),
        Outcome::Fullscreen(FullscreenState::Borderless(None)) => d == Some(Json::Bool(true)),
        Outcome::Fullscreen(_) => d == Some(Json::Bool(false)),
    }
}

fn int_value(v: i32) -> (r: Json)
    ensures
        r == int_json(v),
{
    if v >= 0 {
        Json::Number(Number::PosInt(v as u64))
    } else {
        Json::Number(Number::NegInt(v as i64))
    }
}

fn pair(ka: &str, a: Json, kb: &str, b: Json) -> (r: Json)
    requires
        ka@ != kb@,
    ensures
        is_pair(r, ka@, a, kb@, b),
{
    let mut fields: Vec<(String, Json)> = Vec::new();
    fields.push((String::from_str(ka), a));
    fields.push((String::from_str(kb), b));
    proof {
        lemma_member_at(fields@, ka@, 0);
        lemma_member_at(fields@, kb@, 1);
    }
    Json::Object(fields)
}

fn xy(x: Json, y: Json) -> (r: Json)
    ensures
        is_xy(r, x, y),
{
    proof {
        reveal_strlit("x");
        reveal_strlit("y");
        assert("x"@[0] != "y"@[0]);
    }
    pair("x", x, "y", y)
}

fn extent(w: u32, h: u32) -> (r: Json)
    ensures
        is_extent(r, w, h),
{
    proof {
        reveal_strlit("width");
        reveal_strlit("height");
        assert("width"@.len() != "height"@.len());
    }
    pair("width", Json::Number(Number::PosInt(w as u64)), "height", Json::Number(Number::PosInt(h as u64)))
}

fn text(s: &str) -> (r: Json)
    ensures
        is_text(r, s@),
{
    Json::Str(String::from_str(s))
}

fn button_list(b: Buttons) -> (r: Json)
    ensures
        is_name_list(r, button_names(b)),
{
    let mut items: Vec<Json> = Vec::new();
    if b.close {
        items.push(text("close"));
    }
    if b.minimize {
        items.push(text("minimize"));
    }
    if b.maximize {
        items.push(text("maximize"));
    }
    proof {
        let n = button_names(b);
        assert forall|i: int| 0 <= i < n.len() implies
            (#[trigger] items@[i] matches Json::Str(s) && s@ == n[i]) by {
            let s0: Seq<Seq<char>> = if b.close { seq!["close"@] } else { seq![] };
            let s1 = if b.minimize { s0.push("minimize"@) } else { s0 };
            assert(n == if b.maximize { s1.push("maximize"@) } else { s1 });
        }
    }
    Json::Array(items)
}

/// The `data` member for an outcome.
pub fn outcome_data(o: Outcome) -> (r: Option<Json>)
    ensures
        reports(r, o),
{
    match o {
        Outcome::Done => None,
        Outcome::Text(s) => Some(Json::Str(s)),
        Outcome::Flag(b) => Some(Json::Bool(b)),
        Outcome::MaybeFlag(b) => match b {
            Some(b) => Some(Json::Bool(b)),
            None => None,
        },
        Outcome::Decorated(b) => Some(Json::Bool(!b)),
        Outcome::Scale(n) => Some(Json::Number(n)),
        Outcome::Point(p) => match p {
            Some((x, y)) => Some(xy(int_value(x), int_value(y))),
            None => None,
        },
        Outcome::Extent(w, h) => Some(extent(w, h)),
        Outcome::MaybeExtent(e) => match e {
            Some((w, h)) => Some(extent(w, h)),
            None => None,
        },
        Outcome::Buttons(b) => Some(button_list(b)),
        Outcome::Theme(t) => match t {
            Some(Theme::Light) => Some(text("light")),
            Some(Theme::Dark) => Some(text("dark")),
            None => Some(Json::Null),
        },
        Outcome::Monitor(m) => match m {
            Some(m) => Some(get_monitor_info(&m)),
            None => None,
        },
        Outcome::Monitors(ms) => Some(monitor_list(&ms)),
        Outcome::Fullscreen(f) => match f {
            FullscreenState::Borderless(Some(name)) => Some(match monitor_index(name.as_str()) {
                Some(i) => Json::Number(Number::PosInt(i)),
                None => Json::Null,
            }),
            FullscreenState::Borderless(None) => Some(Json::Bool(true)),
            _ => Some(Json::Bool(false)),
        },
    }
}

/// The response to `cmd` once the toolkit has answered with `o`; also the
/// deferred response of a script evaluation, with the script's result as text.
pub fn respond(cmd: &Command, o: Outcome) -> (r: Message)
    ensures
        r.id == Some(cmd.id),
        r.label == cmd.label,
        r.method == cmd.method,
        reports(r.data, o),
{
    Message::response(cmd, outcome_data(o))
}

} // verus!

//! The command vocabulary: each method name with the payload shape it takes.
use vstd::prelude::*;
use crate::json::{Json, Number};
use crate::shapes::{
    Size, Point, Rgba, Buttons, Theme, WindowLevel, Attention, ResizeDirection, Fullscreen, size_spec,
    point_spec, color_spec, buttons_spec, direction_spec, fullscreen_spec, level_spec, attention_spec,
    theme_spec, get_size, get_point, get_color, get_buttons, direction_of, fullscreen_of, level_of,
    attention_of, theme_of,
};
use crate::config::{WindowConfig, ViewConfig, window_config_spec, view_config_spec, window_config, view_config};
use crate::text::str_eq;

verus! {

/// One operation, with its payload checked and typed.
pub enum Request {
    Create(WindowConfig, ViewConfig),
    SetUrl(String),
    Url,
    EvaluateScript(String),
    EvaluateScriptWithCallback(String),
    Zoom(Number),
    ScaleFactor,
    ClearAllBrowsingData,
    SetBackgroundColor(Rgba),
    InnerPosition,
    OuterPosition,
    SetOuterPosition(Point),
    InnerSize,
    SetInnerSize(Size),
    OuterSize,
    SetMinInnerSize(Size),
    SetMaxInnerSize(Size),
    SetTitle(String),
    Title,
    SetTransparent(bool),
    SetBlur(bool),
    SetVisible(bool),
    IsVisible,
    SetResizable(bool),
    IsResizable,
    SetEnabledButtons(Buttons),
    EnabledButtons,
    SetMinimized(bool),
    IsMinimized,
    SetMaximized(bool),
    IsMaximized,
    CurrentMonitor,
    PrimaryMonitor,
    GetMonitorList,
    SetFullscreen(Fullscreen),
    Unfullscreen,
    IsFullscreen,
    SetDecorations(bool),
    IsDecorated,
    SetWindowLevel(WindowLevel),
    SetWindowIcon(String),
    FocusWindow,
    HasFocus,
    RequestUserAttention(Option<Attention>),
    SetTheme(Option<Theme>),
    CurrentTheme,
    DragWindow,
    DragResizeWindow(ResizeDirection),
    ShowWindowMenu(Point),
    Close,
}

/// What a method name and a payload come to.
pub enum Decoded {
    Known(Request),
    /// A known method whose payload has the wrong shape.
    Invalid,
    /// A method name outside the vocabulary.
    Unknown,
}

pub open spec fn with_string(d: Json, f: spec_fn(String) -> Request) -> Decoded {
    match d {
        Json::Str(s) => Decoded::Known(f(s)),
        _ => Decoded::Invalid,
    }
}

pub open spec fn with_bool(d: Json, f: spec_fn(bool) -> Request) -> Decoded {
    match d {
        Json::Bool(b) => Decoded::Known(f(b)),
        _ => Decoded::Invalid,
    }
}

pub open spec fn with_size(d: Json, f: spec_fn(Size) -> Request) -> Decoded {
    match size_spec(d) {
        Some(s) => Decoded::Known(f(s)),
        None => Decoded::Invalid,
    }
}

pub open spec fn with_point(d: Json, f: spec_fn(Point) -> Request) -> Decoded {
    match point_spec(d) {
        Some(p) => Decoded::Known(f(p)),
        None => Decoded::Invalid,
    }
}

/// Creation, the embedded view and the script bridge.
pub open spec fn view_methods(m: Seq<char>, d: Json) -> Option<Decoded> {
    if m == "create"@ {
        Some(Decoded::Known(Request::Create(window_config_spec(d), view_config_spec(d))))
    } else if m == "set_url"@ {
        Some(with_string(d, |s: String| Request::SetUrl(s)))
    } else if m == "url"@ {
        Some(Decoded::Known(Request::Url))
    } else if m == "evaluate_script"@ {
        Some(with_string(d, |s: String| Request::EvaluateScript(s)))
    } else if m == "evaluate_script_with_callback"@ {
        Some(with_string(d, |s: String| Request::EvaluateScriptWithCallback(s)))
    } else if m == "zoom"@ {
        Some(match d { Json::Number(n) => Decoded::Known(Request::Zoom(n)), _ => Decoded::Invalid })
    } else if m == "scale_factor"@ {
        Some(Decoded::Known(Request::ScaleFactor))
    } else if m == "clear_all_browsing_data"@ {
        Some(Decoded::Known(Request::ClearAllBrowsingData))
    } else if m == "set_background_color"@ {
        Some(match color_spec(d) { Some(c) => Decoded::Known(Request::SetBackgroundColor(c)), None => Decoded::Invalid })
    } else {
        None
    }
}

/// Position and size of the window.
pub open spec fn geometry_methods(m: Seq<char>, d: Json) -> Option<Decoded> {
    if m == "inner_position"@ {
        Some(Decoded::Known(Request::InnerPosition))
    } else if m == "outer_position"@ {
        Some(Decoded::Known(Request::OuterPosition))
    } else if m == "set_outer_position"@ {
        Some(with_point(d, |p: Point| Request::SetOuterPosition(p)))
    } else if m == "inner_size"@ {
        Some(Decoded::Known(Request::InnerSize))
    } else if m == "set_inner_size"@ {
        Some(with_size(d, |s: Size| Request::SetInnerSize(s)))
    } else if m == "outer_size"@ {
        Some(Decoded::Known(Request::OuterSize))
    } else if m == "set_min_inner_size"@ {
        Some(with_size(d, |s: Size| Request::SetMinInnerSize(s)))
    } else if m == "set_max_inner_size"@ {
        Some(with_size(d, |s: Size| Request::SetMaxInnerSize(s)))
    } else if m == "show_window_menu"@ {
        Some(with_point(d, |p: Point| Request::ShowWindowMenu(p)))
    } else if m == "drag_window"@ {
        Some(Decoded::Known(Request::DragWindow))
    } else if m == "drag_resize_window"@ {
        Some(match d {
            Json::Str(s) => match direction_spec(s@) {
                Some(dir) => Decoded::Known(Request::DragResizeWindow(dir)),
                None => Decoded::Invalid,
            },
            _ => Decoded::Invalid,
        })
    } else {
        None
    }
}

/// Title, visibility and the other window states.
pub open spec fn state_methods(m: Seq<char>, d: Json) -> Option<Decoded> {
    if m == "set_title"@ {
        Some(with_string(d, |s: String| Request::SetTitle(s)))
    } else if m == "title"@ {
        Some(Decoded::Known(Request::Title))
    } else if m == "set_transparent"@ {
        Some(with_bool(d, |b: bool| Request::SetTransparent(b)))
    } else if m == "set_blur"@ {
        Some(with_bool(d, |b: bool| Request::SetBlur(b)))
    } else if m == "set_visible"@ {
        Some(with_bool(d, |b: bool| Request::SetVisible(b)))
    } else if m == "is_visible"@ {
        Some(Decoded::Known(Request::IsVisible))
    } else if m == "set_resizable"@ {
        Some(with_bool(d, |b: bool| Request::SetResizable(b)))
    } else if m == "is_resizable"@ {
        Some(Decoded::Known(Request::IsResizable))
    } else if m == "set_enabled_buttons"@ {
        Some(match buttons_spec(d) { Some(b) => Decoded::Known(Request::SetEnabledButtons(b)), None => Decoded::Invalid })
    } else if m == "enabled_buttons"@ {
        Some(Decoded::Known(Request::EnabledButtons))
    } else if m == "set_minimized"@ {
        Some(with_bool(d, |b: bool| Request::SetMinimized(b)))
    } else if m == "is_minimized"@ {
        Some(Decoded::Known(Request::IsMinimized))
    } else if m == "set_maximized"@ {
        Some(with_bool(d, |b: bool| Request::SetMaximized(b)))
    } else if m == "is_maximized"@ {
        Some(Decoded::Known(Request::IsMaximized))
    } else if m == "set_decorations"@ {
        Some(with_bool(d, |b: bool| Request::SetDecorations(b)))
    } else if m == "is_decorated"@ {
        Some(Decoded::Known(Request::IsDecorated))
    } else {
        None
    }
}

/// Monitors, fullscreen, stacking, icon, focus, theme and closing.
pub open spec fn other_methods(m: Seq<char>, d: Json) -> Option<Decoded> {
    if m == "current_monitor"@ {
        Some(Decoded::Known(Request::CurrentMonitor))
    } else if m == "primary_monitor"@ {
        Some(Decoded::Known(Request::PrimaryMonitor))
    } else if m == "get_monitor_list"@ {
        Some(Decoded::Known(Request::GetMonitorList))
    } else if m == "fullscreen"@ {
        Some(match d {
            Json::Number(n) => Decoded::Known(Request::SetFullscreen(fullscreen_spec(n))),
            Json::Null => Decoded::Known(Request::SetFullscreen(Fullscreen::Current)),
            _ => Decoded::Invalid,
        })
    } else if m == "unfullscreen"@ {
        Some(Decoded::Known(Request::Unfullscreen))
    } else if m == "is_fullscreen"@ {
        Some(Decoded::Known(Request::IsFullscreen))
    } else if m == "set_window_level"@ {
        Some(match d { Json::Str(s) => Decoded::Known(Request::SetWindowLevel(level_spec(s@))), _ => Decoded::Invalid })
    } else if m == "set_window_icon"@ {
        Some(with_string(d, |s: String| Request::SetWindowIcon(s)))
    } else if m == "focus_window"@ {
        Some(Decoded::Known(Request::FocusWindow))
    } else if m == "has_focus"@ {
        Some(Decoded::Known(Request::HasFocus))
    } else if m == "request_user_attention"@ {
        Some(match d {
            Json::Str(s) => Decoded::Known(Request::RequestUserAttention(Some(attention_spec(s@)))),
            Json::Null => Decoded::Known(Request::RequestUserAttention(None)),
            _ => Decoded::Invalid,
        })
    } else if m == "set_theme"@ {
        Some(match d { Json::Str(s) => Decoded::Known(Request::SetTheme(theme_spec(s@))), _ => Decoded::Invalid })
    } else if m == "theme"@ {
        Some(Decoded::Known(Request::CurrentTheme))
    } else if m == "close"@ {
        Some(Decoded::Known(Request::Close))
    } else {
        None
    }
}

/// The operation that method `m` with payload `d` asks for.
pub open spec fn request_of(m: Seq<char>, d: Json) -> Decoded {
    match view_methods(m, d) {
        Some(r) => r,
        None => match geometry_methods(m, d) {
            Some(r) => r,
            None => match state_methods(m, d) {
                Some(r) => r,
                None => match other_methods(m, d) {
                    Some(r) => r,
                    None => Decoded::Unknown,
                },
            },
        },
    }
}

fn string_payload(d: &Json) -> (r: Option<String>)
    ensures
        match *d {
            Json::Str(s) => r == Some(s),
            _ => r is None,
        },
{
    match d {
        Json::Str(s) => Some(s.clone()),
        _ => None,
    }
}

fn view_request(m: &str, d: &Json) -> (r: Option<Decoded>)
    ensures
        r == view_methods(m@, *d),
{
    if str_eq(m, "create") {
        Some(Decoded::Known(Request::Create(window_config(d), view_config(d))))
    } else if str_eq(m, "set_url") {
        Some(match string_payload(d) { Some(s) => Decoded::Known(Request::SetUrl(s)), None => Decoded::Invalid })
    } else if str_eq(m, "url") {
        Some(Decoded::Known(Request::Url))
    } else if str_eq(m, "evaluate_script") {
        Some(match string_payload(d) { Some(s) => Decoded::Known(Request::EvaluateScript(s)), None => Decoded::Invalid })
    } else if str_eq(m, "evaluate_script_with_callback") {
        Some(match string_payload(d) {
            Some(s) => Decoded::Known(Request::EvaluateScriptWithCallback(s)),
            None => Decoded::Invalid,
        })
    } else if str_eq(m, "zoom") {
        Some(match d { Json::Number(n) => Decoded::Known(Request::Zoom(n.copy())), _ => Decoded::Invalid })
    } else if str_eq(m, "scale_factor") {
        Some(Decoded::Known(Request::ScaleFactor))
    } else if str_eq(m, "clear_all_browsing_data") {
        Some(Decoded::Known(Request::ClearAllBrowsingData))
    } else if str_eq(m, "set_background_color") {
        Some(match get_color(d) { Some(c) => Decoded::Known(Request::SetBackgroundColor(c)), None => Decoded::Invalid })
    } else {
        None
    }
}

fn geometry_request(m: &str, d: &Json) -> (r: Option<Decoded>)
    ensures
        r == geometry_methods(m@, *d),
{
    if str_eq(m, "inner_position") {
        Some(Decoded::Known(Request::InnerPosition))
    } else if str_eq(m, "outer_position") {
        Some(Decoded::Known(Request::OuterPosition))
    } else if str_eq(m, "set_outer_position") {
        Some(match get_point(d) { Some(p) => Decoded::Known(Request::SetOuterPosition(p)), None => Decoded::Invalid })
    } else if str_eq(m, "inner_size") {
        Some(Decoded::Known(Request::InnerSize))
    } else if str_eq(m, "set_inner_size") {
        Some(match get_size(d) { Some(s) => Decoded::Known(Request::SetInnerSize(s)), None => Decoded::Invalid })
    } else if str_eq(m, "outer_size") {
        Some(Decoded::Known(Request::OuterSize))
    } else if str_eq(m, "set_min_inner_size") {
        Some(match get_size(d) { Some(s) => Decoded::Known(Request::SetMinInnerSize(s)), None => Decoded::Invalid })
    } else if str_eq(m, "set_max_inner_size") {
        Some(match get_size(d) { Some(s) => Decoded::Known(Request::SetMaxInnerSize(s)), None => Decoded::Invalid })
    } else if str_eq(m, "show_window_menu") {
        Some(match get_point(d) { Some(p) => Decoded::Known(Request::ShowWindowMenu(p)), None => Decoded::Invalid })
    } else if str_eq(m, "drag_window") {
        Some(Decoded::Known(Request::DragWindow))
    } else if str_eq(m, "drag_resize_window") {
        Some(match d {
            Json::Str(s) => match direction_of(s.as_str()) {
                Some(dir) => Decoded::Known(Request::DragResizeWindow(dir)),
                None => Decoded::Invalid,
            },
            _ => Decoded::Invalid,
        })
    } else {
        None
    }
}

fn flag_payload(d: &Json) -> (r: Option<bool>)
    ensures
        match *d {
            Json::Bool(b) => r == Some(b),
            _ => r is None,
        },
{
    match d {
        Json::Bool(b) => Some(*b),
        _ => None,
    }
}

fn state_request(m: &str, d: &Json) -> (r: Option<Decoded>)
    ensures
        r == state_methods(m@, *d),
{
    if str_eq(m, "set_title") {
        Some(match string_payload(d) { Some(s) => Decoded::Known(Request::SetTitle(s)), None => Decoded::Invalid })
    } else if str_eq(m, "title") {
        Some(Decoded::Known(Request::Title))
    } else if str_eq(m, "set_transparent") {
        Some(match flag_payload(d) { Some(b) => Decoded::Known(Request::SetTransparent(b)), None => Decoded::Invalid })
    } else if str_eq(m, "set_blur") {
        Some(match flag_payload(d) { Some(b) => Decoded::Known(Request::SetBlur(b)), None => Decoded::Invalid })
    } else if str_eq(m, "set_visible") {
        Some(match flag_payload(d) { Some(b) => Decoded::Known(Request::SetVisible(b)), None => Decoded::Invalid })
    } else if str_eq(m, "is_visible") {
        Some(Decoded::Known(Request::IsVisible))
    } else if str_eq(m, "set_resizable") {
        Some(match flag_payload(d) { Some(b) => Decoded::Known(Request::SetResizable(b)), None => Decoded::Invalid })
    } else if str_eq(m, "is_resizable") {
        Some(Decoded::Known(Request::IsResizable))
    } else if str_eq(m, "set_enabled_buttons") {
        Some(match get_buttons(d) { Some(b) => Decoded::Known(Request::SetEnabledButtons(b)), None => Decoded::Invalid })
    } else if str_eq(m, "enabled_buttons") {
        Some(Decoded::Known(Request::EnabledButtons))
    } else if str_eq(m, "set_minimized") {
        Some(match flag_payload(d) { Some(b) => Decoded::Known(Request::SetMinimized(b)), None => Decoded::Invalid })
    } else if str_eq(m, "is_minimized") {
        Some(Decoded::Known(Request::IsMinimized))
    } else if str_eq(m, "set_maximized") {
        Some(match flag_payload(d) { Some(b) => Decoded::Known(Request::SetMaximized(b)), None => Decoded::Invalid })
    } else if str_eq(m, "is_maximized") {
        Some(Decoded::Known(Request::IsMaximized))
    } else if str_eq(m, "set_decorations") {
        Some(match flag_payload(d) { Some(b) => Decoded::Known(Request::SetDecorations(b)), None => Decoded::Invalid })
    } else if str_eq(m, "is_decorated") {
        Some(Decoded::Known(Request::IsDecorated))
    } else {
        None
    }
}

fn other_request(m: &str, d: &Json) -> (r: Option<Decoded>)
    ensures
        r == other_methods(m@, *d),
{
    if str_eq(m, "current_monitor") {
        Some(Decoded::Known(Request::CurrentMonitor))
    } else if str_eq(m, "primary_monitor") {
        Some(Decoded::Known(Request::PrimaryMonitor))
    } else if str_eq(m, "get_monitor_list") {
        Some(Decoded::Known(Request::GetMonitorList))
    } else if str_eq(m, "fullscreen") {
        Some(match d {
            Json::Number(n) => Decoded::Known(Request::SetFullscreen(fullscreen_of(n))),
            Json::Null => Decoded::Known(Request::SetFullscreen(Fullscreen::Current)),
            _ => Decoded::Invalid,
        })
    } else if str_eq(m, "unfullscreen") {
        Some(Decoded::Known(Request::Unfullscreen))
    } else if str_eq(m, "is_fullscreen") {
        Some(Decoded::Known(Request::IsFullscreen))
    } else if str_eq(m, "set_window_level") {
        Some(match d {
            Json::Str(s) => Decoded::Known(Request::SetWindowLevel(level_of(s.as_str()))),
            _ => Decoded::Invalid,
        })
    } else if str_eq(m, "set_window_icon") {
        Some(match string_payload(d) { Some(s) => Decoded::Known(Request::SetWindowIcon(s)), None => Decoded::Invalid })
    } else if str_eq(m, "focus_window") {
        Some(Decoded::Known(Request::FocusWindow))
    } else if str_eq(m, "has_focus") {
        Some(Decoded::Known(Request::HasFocus))
    } else if str_eq(m, "request_user_attention") {
        Some(match d {
            Json::Str(s) => Decoded::Known(Request::RequestUserAttention(Some(attention_of(s.as_str())))),
            Json::Null => Decoded::Known(Request::RequestUserAttention(None)),
            _ => Decoded::Invalid,
        })
    } else if str_eq(m, "set_theme") {
        Some(match d {
            Json::Str(s) => Decoded::Known(Request::SetTheme(theme_of(s.as_str()))),
            _ => Decoded::Invalid,
        })
    } else if str_eq(m, "theme") {
        Some(Decoded::Known(Request::CurrentTheme))
    } else if str_eq(m, "close") {
        Some(Decoded::Known(Request::Close))
    } else {
        None
    }
}

/// Checks the payload of method `m` and types it.
pub fn decode_request(m: &str, d: &Json) -> (r: Decoded)
    ensures
        r == request_of(m@, *d),
{
    match view_request(m, d) {
        Some(r) => r,
        None => match geometry_request(m, d) {
            Some(r) => r,
            None => match state_request(m, d) {
                Some(r) => r,
                None => match other_request(m, d) {
                    Some(r) => r,
                    None => Decoded::Unknown,
                },
            },
        },
    }
}

} // verus!

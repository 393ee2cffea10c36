//! The window and view settings that a `create` payload asks for.
use vstd::prelude::*;
use crate::json::{Json, Number, get_spec};
use crate::shapes::{
    Size, Buttons, Theme, WindowLevel, Fullscreen, Rgba, size_spec, position_spec, buttons_spec,
    theme_spec, level_spec, fullscreen_spec, color_spec, get_size, get_position, get_buttons, theme_of,
    level_of, fullscreen_of, get_color,
};

verus! {

/// Logical width of a window whose payload gives no size.
pub const DEFAULT_WIDTH: u64 = 800;

/// Logical height of a window whose payload gives no size.
pub const DEFAULT_HEIGHT: u64 = 600;

/// Settings of the native window. `None` leaves the toolkit's default.
pub struct WindowConfig {
    pub inner_size: Size,
    pub min_inner_size: Option<Size>,
    pub max_inner_size: Option<Size>,
    pub position: Option<(i32, i32)>,
    pub resizable: Option<bool>,
    pub enabled_buttons: Option<Buttons>,
    pub title: Option<String>,
    pub maximized: Option<bool>,
    pub visible: Option<bool>,
    pub transparent: Option<bool>,
    pub blur: Option<bool>,
    pub decorations: Option<bool>,
    pub window_icon: Option<String>,
    pub theme: Option<Theme>,
    pub resize_increments: Option<Size>,
    pub content_protected: Option<bool>,
    pub window_level: Option<WindowLevel>,
    pub active: Option<bool>,
    pub fullscreen: Option<Fullscreen>,
}

/// Settings of the embedded view. `None` leaves the toolkit's default.
pub struct ViewConfig {
    pub url: Option<String>,
    pub html: Option<String>,
    pub background_color: Option<Rgba>,
    pub devtools: Option<bool>,
    pub autoplay: Option<bool>,
    pub transparent: Option<bool>,
}

pub open spec fn str_at(data: Json, key: Seq<char>) -> Option<String> {
    match get_spec(data, key) {
        Some(Json::Str(s)) => Some(s),
        _ => None,
    }
}

pub open spec fn bool_at(data: Json, key: Seq<char>) -> Option<bool> {
    match get_spec(data, key) {
        Some(Json::Bool(b)) => Some(b),
        _ => None,
    }
}

pub open spec fn default_size() -> Size {
    Size { width: Number::PosInt(DEFAULT_WIDTH), height: Number::PosInt(DEFAULT_HEIGHT) }
}

pub open spec fn opt_size(v: Option<Json>) -> Option<Size> {
    match v {
        Some(x) => size_spec(x),
        None => None,
    }
}

/// A present member that is not an array enables every button.
pub open spec fn buttons_at(data: Json) -> Option<Buttons> {
    match get_spec(data, "enabledButtons"@) {
        Some(Json::Array(items)) => buttons_spec(Json::Array(items)),
        Some(_) => Some(Buttons { close: true, minimize: true, maximize: true }),
        None => None,
    }
}

/// One step of a resize increment: a number, or 1 when absent.
pub open spec fn step_of(v: Option<Json>) -> Option<Number> {
    match v {
        Some(Json::Number(n)) => Some(n),
        Some(_) => None,
        None => Some(Number::PosInt(1)),
    }
}

pub open spec fn increments_at(data: Json) -> Option<Size> {
    match get_spec(data, "resizeIncrements"@) {
        Some(Json::Object(f)) => match (
            step_of(get_spec(Json::Object(f), "width"@)),
            step_of(get_spec(Json::Object(f), "height"@)),
        ) {
            (Some(w), Some(h)) => Some(Size { width: w, height: h }),
            _ => None,
        },
        _ => None,
    }
}

pub open spec fn level_at(data: Json) -> Option<WindowLevel> {
    match get_spec(data, "windowLevel"@) {
        Some(Json::Str(s)) => Some(level_spec(s@)),
        _ => None,
    }
}

pub open spec fn theme_at(data: Json) -> Option<Theme> {
    match get_spec(data, "theme"@) {
        Some(Json::Str(s)) => theme_spec(s@),
        _ => None,
    }
}

/// A number picks a monitor; `true` means the current one.
pub open spec fn fullscreen_at(data: Json) -> Option<Fullscreen> {
    match get_spec(data, "fullscreen"@) {
        Some(Json::Number(n)) => Some(fullscreen_spec(n)),
        Some(Json::Bool(true)) => Some(Fullscreen::Current),
        _ => None,
    }
}

pub open spec fn color_at(data: Json) -> Option<Rgba> {
    match get_spec(data, "backgroundColor"@) {
        Some(v) => color_spec(v),
        None => None,
    }
}

/// Each recognised member with a value of the right shape sets its setting;
/// other members, and members of the wrong shape, are ignored.
pub open spec fn window_config_spec(data: Json) -> WindowConfig {
    WindowConfig {
        inner_size: match opt_size(get_spec(data, "innerSize"@)) {
            Some(s) => s,
            None => default_size(),
        },
        min_inner_size: opt_size(get_spec(data, "minInnerSize"@)),
        max_inner_size: opt_size(get_spec(data, "maxInnerSize"@)),
        position: match get_spec(data, "position"@) {
            Some(p) => position_spec(p),
            None => None,
        },
        resizable: bool_at(data, "resizable"@),
        enabled_buttons: buttons_at(data),
        title: str_at(data, "title"@),
        maximized: bool_at(data, "maximized"@),
        visible: bool_at(data, "visible"@),
        transparent: bool_at(data, "transparent"@),
        blur: bool_at(data, "blur"@),
        decorations: match bool_at(data, "borderless"@) {
            Some(b) => Some(!b),
            None => None,
        },
        window_icon: str_at(data, "windowIcon"@),
        theme: theme_at(data),
        resize_increments: increments_at(data),
        content_protected: bool_at(data, "contentProtected"@),
        window_level: level_at(data),
        active: bool_at(data, "active"@),
        fullscreen: fullscreen_at(data),
    }
}

pub open spec fn view_config_spec(data: Json) -> ViewConfig {
    ViewConfig {
        url: str_at(data, "url"@),
        html: str_at(data, "html"@),
        background_color: color_at(data),
        devtools: bool_at(data, "devtools"@),
        autoplay: bool_at(data, "autoplay"@),
        transparent: bool_at(data, "transparent"@),
    }
}

fn string_at(data: &Json, key: &str) -> (r: Option<String>)
    ensures
        r == str_at(*data, key@),
{
    match data.get(key) {
        Some(Json::Str(s)) => Some(s.clone()),
        _ => None,
    }
}

fn flag_at(data: &Json, key: &str) -> (r: Option<bool>)
    ensures
        r == bool_at(*data, key@),
{
    match data.get(key) {
        Some(Json::Bool(b)) => Some(*b),
        _ => None,
    }
}

fn size_at(data: &Json, key: &str) -> (r: Option<Size>)
    ensures
        r == opt_size(get_spec(*data, key@)),
{
    match data.get(key) {
        Some(v) => get_size(v),
        None => None,
    }
}

fn step_at(v: &Json, key: &str) -> (r: Option<Number>)
    ensures
        r == step_of(get_spec(*v, key@)),
{
    match v.get(key) {
        Some(Json::Number(n)) => Some(n.copy()),
        Some(_) => None,
        None => Some(Number::PosInt(1)),
    }
}

/// The window settings that a `create` payload asks for.
pub fn window_config(data: &Json) -> (r: WindowConfig)
    ensures
        r == window_config_spec(*data),
{
    let inner_size = match size_at(data, "innerSize") {
        Some(s) => s,
        None => Size { width: Number::PosInt(DEFAULT_WIDTH), height: Number::PosInt(DEFAULT_HEIGHT) },
    };
    let position = match data.get("position") {
        Some(p) => get_position(p),
        None => None,
    };
    let enabled_buttons = match data.get("enabledButtons") {
        Some(v) => match v {
            Json::Array(_) => get_buttons(v),
            _ => Some(Buttons { close: true, minimize: true, maximize: true }),
        },
        None => None,
    };
    let decorations = match flag_at(data, "borderless") {
        Some(b) => Some(!b),
        None => None,
    };
    let theme = match data.get("theme") {
        Some(Json::Str(s)) => theme_of(s.as_str()),
        _ => None,
    };
    let resize_increments = match data.get("resizeIncrements") {
        Some(v) => match v {
            Json::Object(_) => match (step_at(v, "width"), step_at(v, "height")) {
                (Some(w), Some(h)) => Some(Size { width: w, height: h }),
                _ => None,
            },
            _ => None,
        },
        None => None,
    };
    let window_level = match data.get("windowLevel") {
        Some(Json::Str(s)) => Some(level_of(s.as_str())),
        _ => None,
    };
    let fullscreen = match data.get("fullscreen") {
        Some(Json::Number(n)) => Some(fullscreen_of(n)),
        Some(Json::Bool(true)) => Some(Fullscreen::Current),
        _ => None,
    };
    WindowConfig {
        inner_size,
        min_inner_size: size_at(data, "minInnerSize"),
        max_inner_size: size_at(data, "maxInnerSize"),
        position,
        resizable: flag_at(data, "resizable"),
        enabled_buttons,
        title: string_at(data, "title"),
        maximized: flag_at(data, "maximized"),
        visible: flag_at(data, "visible"),
        transparent: flag_at(data, "transparent"),
        blur: flag_at(data, "blur"),
        decorations,
        window_icon: string_at(data, "windowIcon"),
        theme,
        resize_increments,
        content_protected: flag_at(data, "contentProtected"),
        window_level,
        active: flag_at(data, "active"),
        fullscreen,
    }
}

/// The view settings that a `create` payload asks for.
pub fn view_config(data: &Json) -> (r: ViewConfig)
    ensures
        r == view_config_spec(*data),
{
    let background_color = match data.get("backgroundColor") {
        Some(v) => get_color(v),
        None => None,
    };
    ViewConfig {
        url: string_at(data, "url"),
        html: string_at(data, "html"),
        background_color,
        devtools: flag_at(data, "devtools"),
        autoplay: flag_at(data, "autoplay"),
        transparent: flag_at(data, "transparent"),
    }
}

} // verus!

//! The small value shapes that command payloads carry, and how each is read
//! out of a JSON value.
use vstd::prelude::*;
use crate::json::{Json, Number, get_spec};
use crate::text::str_eq;

verus! {

/// A width and a height, each as the number the caller sent.
pub struct Size {
    pub width: Number,
    pub height: Number,
}

/// An x and a y, each as the number the caller sent.
pub struct Point {
    pub x: Number,
    pub y: Number,
}

/// A background colour: red, green, blue and alpha.
#[derive(PartialEq, Eq, Structural, Clone, Copy)]
pub struct Rgba {
    pub r: u8,
    pub g: u8,
    pub b: u8,
    pub a: u8,
}

/// Which of the title-bar buttons are enabled.
#[derive(PartialEq, Eq, Structural, Clone, Copy)]
pub struct Buttons {
    pub close: bool,
    pub minimize: bool,
    pub maximize: bool,
}

#[derive(PartialEq, Eq, Structural, Clone, Copy)]
pub enum Theme {
    Light,
    Dark,
}

#[derive(PartialEq, Eq, Structural, Clone, Copy)]
pub enum WindowLevel {
    Normal,
    AlwaysOnTop,
    AlwaysOnBottom,
}

#[derive(PartialEq, Eq, Structural, Clone, Copy)]
pub enum Attention {
    Critical,
    Informational,
}

#[derive(PartialEq, Eq, Structural, Clone, Copy)]
pub enum ResizeDirection {
    East,
    North,
    NorthEast,
    NorthWest,
    South,
    SouthEast,
    SouthWest,
    West,
}

/// Where a window goes fullscreen (always borderless): on the monitor it is
/// on, or on the monitor with the given index when one is attached.
#[derive(PartialEq, Eq, Structural, Clone, Copy)]
pub enum Fullscreen {
    Current,
    Monitor(u64),
}

pub open spec fn size_spec(v: Json) -> Option<Size> {
    match (get_spec(v, "width"@), get_spec(v, "height"@)) {
        (Some(Json::Number(w)), Some(Json::Number(h))) => Some(Size { width: w, height: h }),
        _ => None,
    }
}

pub open spec fn point_spec(v: Json) -> Option<Point> {
    match (get_spec(v, "x"@), get_spec(v, "y"@)) {
        (Some(Json::Number(x)), Some(Json::Number(y))) => Some(Point { x, y }),
        _ => None,
    }
}

pub open spec fn i32_of(v: Option<Json>) -> Option<i32> {
    match v {
        Some(Json::Number(Number::PosInt(u))) => if u <= i32::MAX { Some(u as i32) } else { None },
        Some(Json::Number(Number::NegInt(i))) => if i >= i32::MIN { Some(i as i32) } else { None },
        _ => None,
    }
}

pub open spec fn position_spec(v: Json) -> Option<(i32, i32)> {
    match (i32_of(get_spec(v, "x"@)), i32_of(get_spec(v, "y"@))) {
        (Some(x), Some(y)) => Some((x, y)),
        _ => None,
    }
}

pub open spec fn byte_of(v: Json) -> Option<u8> {
    match v {
        Json::Number(Number::PosInt(u)) => if u <= 255 { Some(u as u8) } else { None },
        _ => None,
    }
}

/// Exactly four integers in `[0, 255]`.
pub open spec fn color_spec(v: Json) -> Option<Rgba> {
    match v {
        Json::Array(items) => if items@.len() == 4 {
            match (byte_of(items@[0]), byte_of(items@[1]), byte_of(items@[2]), byte_of(items@[3])) {
                (Some(r), Some(g), Some(b), Some(a)) => Some(Rgba { r, g, b, a }),
                _ => None,
            }
        } else {
            None
        },
        _ => None,
    }
}

pub open spec fn is_name(v: Json, name: Seq<char>) -> bool {
    v matches Json::Str(s) && s@ == name
}

pub open spec fn names_button(items: Seq<Json>, name: Seq<char>) -> bool {
    exists|i: int| 0 <= i < items.len() && #[trigger] is_name(items[i], name)
}

/// A list of button names; every item must be a string, and names other than
/// `close`, `minimize` and `maximize` are ignored.
pub open spec fn buttons_spec(v: Json) -> Option<Buttons> {
    match v {
        Json::Array(items) => if forall|i: int| 0 <= i < items@.len() ==> items@[i] is Str {
            Some(Buttons {
                close: names_button(items@, "close"@),
                minimize: names_button(items@, "minimize"@),
                maximize: names_button(items@, "maximize"@),
            })
        } else {
            None
        },
        _ => None,
    }
}

pub open spec fn theme_spec(s: Seq<char>) -> Option<Theme> {
    if s == "light"@ {
        Some(Theme::Light)
    } else if s == "dark"@ {
        Some(Theme::Dark)
    } else {
        None
    }
}

/// Any name but the two others means the normal level.
pub open spec fn level_spec(s: Seq<char>) -> WindowLevel {
    if s == "alwaysOnTop"@ {
        WindowLevel::AlwaysOnTop
    } else if s == "alwaysOnBottom"@ {
        WindowLevel::AlwaysOnBottom
    } else {
        WindowLevel::Normal
    }
}

/// Any name but `informational` means a critical request.
pub open spec fn attention_spec(s: Seq<char>) -> Attention {
    if s == "informational"@ {
        Attention::Informational
    } else {
        Attention::Critical
    }
}

pub open spec fn direction_spec(s: Seq<char>) -> Option<ResizeDirection> {
    if s == "east"@ {
        Some(ResizeDirection::East)
    } else if s == "north"@ {
        Some(ResizeDirection::North)
    } else if s == "northEast"@ {
        Some(ResizeDirection::NorthEast)
    } else if s == "northWest"@ {
        Some(ResizeDirection::NorthWest)
    } else if s == "south"@ {
        Some(ResizeDirection::South)
    } else if s == "southEast"@ {
        Some(ResizeDirection::SouthEast)
    } else if s == "southWest"@ {
        Some(ResizeDirection::SouthWest)
    } else if s == "west"@ {
        Some(ResizeDirection::West)
    } else {
        None
    }
}

/// A monitor index for a non-negative integer; any other number means the
/// current monitor.
pub open spec fn fullscreen_spec(n: Number) -> Fullscreen {
    match n {
        Number::PosInt(i) => Fullscreen::Monitor(i),
        _ => Fullscreen::Current,
    }
}

pub fn get_size(v: &Json) -> (r: Option<Size>)
    ensures
        r == size_spec(*v),
{
    match (v.get("width"), v.get("height")) {
        (Some(Json::Number(w)), Some(Json::Number(h))) => Some(Size { width: w.copy(), height: h.copy() }),
        _ => None,
    }
}

pub fn get_point(v: &Json) -> (r: Option<Point>)
    ensures
        r == point_spec(*v),
{
    match (v.get("x"), v.get("y")) {
        (Some(Json::Number(x)), Some(Json::Number(y))) => Some(Point { x: x.copy(), y: y.copy() }),
        _ => None,
    }
}

fn get_i32(v: Option<&Json>) -> (r: Option<i32>)
    ensures
        r == i32_of(match v { Some(x) => Some(*x), None => None }),
{
    match v {
        Some(Json::Number(Number::PosInt(u))) => if *u <= i32::MAX as u64 { Some(*u as i32) } else { None },
        Some(Json::Number(Number::NegInt(i))) => if *i >= i32::MIN as i64 { Some(*i as i32) } else { None },
        _ => None,
    }
}

pub fn get_position(v: &Json) -> (r: Option<(i32, i32)>)
    ensures
        r == position_spec(*v),
{
    match (get_i32(v.get("x")), get_i32(v.get("y"))) {
        (Some(x), Some(y)) => Some((x, y)),
        _ => None,
    }
}

fn get_byte(v: &Json) -> (r: Option<u8>)
    ensures
        r == byte_of(*v),
{
    match v {
        Json::Number(Number::PosInt(u)) => if *u <= 255 { Some(*u as u8) } else { None },
        _ => None,
    }
}

pub fn get_color(v: &Json) -> (r: Option<Rgba>)
    ensures
        r == color_spec(*v),
{
    match v {
        Json::Array(items) => if items.len() == 4 {
            match (get_byte(&items[0]), get_byte(&items[1]), get_byte(&items[2]), get_byte(&items[3])) {
                (Some(r), Some(g), Some(b), Some(a)) => Some(Rgba { r, g, b, a }),
                _ => None,
            }
        } else {
            None
        },
        _ => None,
    }
}

pub fn get_buttons(v: &Json) -> (r: Option<Buttons>)
    ensures
        r == buttons_spec(*v),
{
    match v {
        Json::Array(items) => {
            let mut close = false;
            let mut minimize = false;
            let mut maximize = false;
            let n = items.len();
            let mut i: usize = 0;
            while i < n
                invariant
                    n == items@.len(),
                    *v == Json::Array(*items),
                    i <= n,
                    forall|k: int| 0 <= k < i ==> items@[k] is Str,
                    close == names_button(items@.subrange(0, i as int), "close"@),
                    minimize == names_button(items@.subrange(0, i as int), "minimize"@),
                    maximize == names_button(items@.subrange(0, i as int), "maximize"@),
                decreases n - i,
            {
                let ghost pre = items@.subrange(0, i as int);
                let ghost next = items@.subrange(0, i + 1);
                assert(forall|k: int| 0 <= k < i ==> next[k] == pre[k]);
                assert(next[i as int] == items@[i as int]);
                match &items[i] {
                    Json::Str(s) => {
                        let is_close = str_eq(s.as_str(), "close");
                        let is_min = str_eq(s.as_str(), "minimize");
                        let is_max = str_eq(s.as_str(), "maximize");
                        proof {
                            if is_close { assert(is_name(next[i as int], "close"@)); }
                            if is_min { assert(is_name(next[i as int], "minimize"@)); }
                            if is_max { assert(is_name(next[i as int], "maximize"@)); }
                            if !close && !is_close {
                                assert forall|k: int| 0 <= k < next.len() implies !is_name(#[trigger] next[k], "close"@) by {
                                    if k < i { assert(next[k] == pre[k]); }
                                }
                            }
                            if !minimize && !is_min {
                                assert forall|k: int| 0 <= k < next.len() implies !is_name(#[trigger] next[k], "minimize"@) by {
                                    if k < i { assert(next[k] == pre[k]); }
                                }
                            }
                            if !maximize && !is_max {
                                assert forall|k: int| 0 <= k < next.len() implies !is_name(#[trigger] next[k], "maximize"@) by {
                                    if k < i { assert(next[k] == pre[k]); }
                                }
                            }
                            if close { let k = choose|k: int| 0 <= k < pre.len() && is_name(pre[k], "close"@); assert(next[k] == pre[k]); }
                            if minimize { let k = choose|k: int| 0 <= k < pre.len() && is_name(pre[k], "minimize"@); assert(next[k] == pre[k]); }
                            if maximize { let k = choose|k: int| 0 <= k < pre.len() && is_name(pre[k], "maximize"@); assert(next[k] == pre[k]); }
                        }
                        close = close || is_close;
                        minimize = minimize || is_min;
                        maximize = maximize || is_max;
                    },
                    _ => {
                        assert(!(items@[i as int] is Str));
                        return None;
                    },
                }
                i = i + 1;
            }
            assert(items@.subrange(0, n as int) =~= items@);
            Some(Buttons { close, minimize, maximize })
        },
        _ => None,
    }
}

pub fn theme_of(s: &str) -> (r: Option<Theme>)
    ensures
        r == theme_spec(s@),
{
    if str_eq(s, "light") {
        Some(Theme::Light)
    } else if str_eq(s, "dark") {
        Some(Theme::Dark)
    } else {
        None
    }
}

pub fn level_of(s: &str) -> (r: WindowLevel)
    ensures
        r == level_spec(s@),
{
    if str_eq(s, "alwaysOnTop") {
        WindowLevel::AlwaysOnTop
    } else if str_eq(s, "alwaysOnBottom") {
        WindowLevel::AlwaysOnBottom
    } else {
        WindowLevel::Normal
    }
}

pub fn attention_of(s: &str) -> (r: Attention)
    ensures
        r == attention_spec(s@),
{
    if str_eq(s, "informational") {
        Attention::Informational
    } else {
        Attention::Critical
    }
}

pub fn direction_of(s: &str) -> (r: Option<ResizeDirection>)
    ensures
        r == direction_spec(s@),
{
    if str_eq(s, "east") {
        Some(ResizeDirection::East)
    } else if str_eq(s, "north") {
        Some(ResizeDirection::North)
    } else if str_eq(s, "northEast") {
        Some(ResizeDirection::NorthEast)
    } else if str_eq(s, "northWest") {
        Some(ResizeDirection::NorthWest)
    } else if str_eq(s, "south") {
        Some(ResizeDirection::South)
    } else if str_eq(s, "southEast") {
        Some(ResizeDirection::SouthEast)
    } else if str_eq(s, "southWest") {
        Some(ResizeDirection::SouthWest)
    } else if str_eq(s, "west") {
        Some(ResizeDirection::West)
    } else {
        None
    }
}

pub fn fullscreen_of(n: &Number) -> (r: Fullscreen)
    ensures
        r == fullscreen_spec(*n),
{
    match n {
        Number::PosInt(i) => Fullscreen::Monitor(*i),
        _ => Fullscreen::Current,
    }
}

} // verus!

//! Monitors are addressed by the integer that ends their display name.
use vstd::prelude::*;
use vstd::string::StrSliceExecFns;
use vstd::string::StringExecFns;
use crate::json::{Json, Number, get_spec, lemma_member_at};
use crate::decimal::{decimal_spec, parse_decimal};

verus! {

/// The text that a monitor's display name starts with, before its index.
pub const MONITOR_NAME_PREFIX: &'static str = "Monitor #";

/// The index of the monitor with display name `name`: the decimal number
/// that follows the prefix.
pub open spec fn monitor_index_spec(name: Seq<char>) -> Option<u64> {
    let p = MONITOR_NAME_PREFIX@;
    if p.len() <= name.len() && name.subrange(0, p.len() as int) == p {
        decimal_spec(name.subrange(p.len() as int, name.len() as int))
    } else {
        None
    }
}

/// The index of the monitor with display name `name`.
pub fn monitor_index(name: &str) -> (r: Option<u64>)
    ensures
        r == monitor_index_spec(name@),
{
    let p = MONITOR_NAME_PREFIX;
    let plen = p.unicode_len();
    let nlen = name.unicode_len();
    if nlen < plen {
        return None;
    }
    let mut i: usize = 0;
    while i < plen
        invariant
            plen == p@.len(),
            p == MONITOR_NAME_PREFIX,
            nlen == name@.len(),
            plen <= nlen,
            i <= plen,
            forall|k: int| 0 <= k < i ==> name@[k] == p@[k],
        decreases plen - i,
    {
        if name.get_char(i) != p.get_char(i) {
            assert(name@.subrange(0, plen as int)[i as int] != p@[i as int]);
            return None;
        }
        i = i + 1;
    }
    assert(name@.subrange(0, plen as int) =~= p@);
    parse_decimal(name.substring_char(plen, nlen))
}

/// Where the first monitor with the given index sits in a list of display
/// names.
pub open spec fn picks(names: Seq<String>, index: u64, r: Option<usize>) -> bool {
    match r {
        Some(i) => i < names.len() && monitor_index_spec(names[i as int]@) == Some(index)
            && forall|j: int| 0 <= j < i ==> monitor_index_spec(#[trigger] names[j]@) != Some(index),
        None => forall|j: int| 0 <= j < names.len() ==> monitor_index_spec(#[trigger] names[j]@) != Some(index),
    }
}

/// The position, among attached monitors' display names, of the monitor that
/// a fullscreen request for `index` selects.
pub fn select_monitor(names: &Vec<String>, index: u64) -> (r: Option<usize>)
    ensures
        picks(names@, index, r),
{
    let n = names.len();
    let mut i: usize = 0;
    while i < n
        invariant
            n == names@.len(),
            i <= n,
            forall|j: int| 0 <= j < i ==> monitor_index_spec(#[trigger] names@[j]@) != Some(index),
        decreases n - i,
    {
        if monitor_index(names[i].as_str()) == Some(index) {
            return Some(i);
        }
        i = i + 1;
    }
    None
}

/// What the windowing toolkit reports of one monitor.
pub struct MonitorDesc {
    pub name: String,
    pub width: u32,
    pub height: u32,
    pub scale_factor: Number,
}

/// The `monitorId` reported for a monitor: its index, or `null` for a name
/// without one.
pub open spec fn monitor_id_json(name: Seq<char>) -> Json {
    match monitor_index_spec(name) {
        Some(i) => Json::Number(Number::PosInt(i)),
        None => Json::Null,
    }
}

/// The object that describes monitor `m`: `width`, `height`, `scaleFactor`
/// and `monitorId`.
pub open spec fn describes(j: Json, m: MonitorDesc) -> bool {
    &&& j is Object
    &&& j->Object_0@.len() == 4
    &&& get_spec(j, "width"@) == Some(Json::Number(Number::PosInt(m.width as u64)))
    &&& get_spec(j, "height"@) == Some(Json::Number(Number::PosInt(m.height as u64)))
    &&& get_spec(j, "scaleFactor"@) == Some(Json::Number(m.scale_factor))
    &&& get_spec(j, "monitorId"@) == Some(monitor_id_json(m.name@))
}

pub fn get_monitor_info(m: &MonitorDesc) -> (r: Json)
    ensures
        describes(r, *m),
{
    let id = match monitor_index(m.name.as_str()) {
        Some(i) => Json::Number(Number::PosInt(i)),
        None => Json::Null,
    };
    let mut fields: Vec<(String, Json)> = Vec::new();
    fields.push((String::from_str("width"), Json::Number(Number::PosInt(m.width as u64))));
    fields.push((String::from_str("height"), Json::Number(Number::PosInt(m.height as u64))));
    fields.push((String::from_str("scaleFactor"), Json::Number(m.scale_factor.copy())));
    fields.push((String::from_str("monitorId"), id));
    proof {
        reveal_strlit("width");
        reveal_strlit("height");
        reveal_strlit("scaleFactor");
        reveal_strlit("monitorId");
        assert("width"@.len() == 5 && "height"@.len() == 6 && "scaleFactor"@.len() == 11);
        assert("monitorId"@.len() == 9);
        let f = fields@;
        lemma_member_at(f, "width"@, 0);
        lemma_member_at(f, "height"@, 1);
        lemma_member_at(f, "scaleFactor"@, 2);
        lemma_member_at(f, "monitorId"@, 3);
    }
    Json::Object(fields)
}

/// The list reported for all attached monitors, in the toolkit's order.
pub fn monitor_list(ms: &Vec<MonitorDesc>) -> (r: Json)
    ensures
        r is Array,
        r->Array_0@.len() == ms@.len(),
        forall|i: int| 0 <= i < ms@.len() ==> describes(#[trigger] r->Array_0@[i], ms@[i]),
{
    let mut items: Vec<Json> = Vec::new();
    let n = ms.len();
    let mut i: usize = 0;
    while i < n
        invariant
            n == ms@.len(),
            i <= n,
            items@.len() == i,
            forall|k: int| 0 <= k < i ==> describes(#[trigger] items@[k], ms@[k]),
        decreases n - i,
    {
        items.push(get_monitor_info(&ms[i]));
        i = i + 1;
    }
    Json::Array(items)
}

/// The index that the monitor list reports for a monitor selects that same
/// monitor for fullscreen, provided no monitor before it in the list reports
/// the same index.
pub proof fn lemma_monitor_index_stable(names: Seq<String>, i: int, index: u64, r: Option<usize>)
    requires
        0 <= i < names.len(),
        monitor_id_json(names[i]@) == Json::Number(Number::PosInt(index)),
        forall|j: int| 0 <= j < i ==> monitor_index_spec(#[trigger] names[j]@) != Some(index),
        picks(names, index, r),
    ensures
        r == Some(i as usize),
{
    if let Some(k) = r {
        if (k as int) < i {
        } else if (k as int) > i {
            assert(monitor_index_spec(names[i]@) == Some(index));
        }
    } else {
        assert(monitor_index_spec(names[i]@) == Some(index));
    }
}

} // verus!

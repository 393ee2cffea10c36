//! Properties that hold across calls of the dispatcher and the event handler.
use vstd::prelude::*;
use crate::json::{Json, Number};
use crate::protocol::{Command, command_spec};
use crate::registry::{Window, has_label, labels_unique, ids_unique};
use crate::request::{Request, Decoded, request_of};
use crate::application::{Dispatch, EventOutcome, listen_spec, event_spec, event_at};
use crate::event::WindowEvent;
use crate::response::{Outcome, reports};
use crate::shapes::{Rgba, color_spec, byte_of};
use crate::decimal::{decimal_spec, decimal_digits, lemma_decimal_round_trip};

verus! {

/// The sessions in `s` that carry `label` are exactly the one at `k`.
pub open spec fn only_at<H>(s: Seq<Window<H>>, label: Seq<char>, k: int) -> bool {
    &&& 0 <= k < s.len()
    &&& s[k].label@ == label
    &&& forall|j: int| 0 <= j < s.len() && (#[trigger] s[j]).label@ == label ==> j == k
}

/// A `create` command for a label that is not live is passed on for
/// building; once the built window is registered, exactly one session has
/// the label, and the response's data reads back as the window's identifier.
pub proof fn lemma_create_fresh<H>(
    old: Seq<Window<H>>,
    message: Json,
    r: Dispatch,
    new: Seq<Window<H>>,
    handle: H,
    id: u64,
)
    requires
        labels_unique(old),
        listen_spec(old, message, r, new),
        command_spec(message) matches Some(c) && c.method@ == "create"@ && !has_label(old, c.label@),
    ensures
        ({
            let c = command_spec(message)->Some_0;
            let after = new.push(Window { label: c.label, handle, id });
            &&& r is Create
            &&& labels_unique(after)
            &&& only_at(after, c.label@, new.len() as int)
            &&& decimal_spec(decimal_digits(id as nat)) == Some(id)
        }),
{
    lemma_decimal_round_trip(id);
}

/// A second `create` for a label that the first one registered creates
/// nothing: the table stays as it was, with one session under the label.
pub proof fn lemma_create_twice<H>(
    s0: Seq<Window<H>>,
    m1: Json,
    r1: Dispatch,
    s1: Seq<Window<H>>,
    handle: H,
    id: u64,
    m2: Json,
    r2: Dispatch,
    s3: Seq<Window<H>>,
)
    requires
        labels_unique(s0),
        listen_spec(s0, m1, r1, s1),
        command_spec(m1) matches Some(c) && c.method@ == "create"@ && !has_label(s0, c.label@),
        listen_spec(s1.push(Window { label: command_spec(m1)->Some_0.label, handle, id }), m2, r2, s3),
        command_spec(m2) matches Some(c2) && c2.method@ == "create"@
            && c2.label@ == command_spec(m1)->Some_0.label@,
    ensures
        r2 is Duplicate,
        s3 == s1.push(Window { label: command_spec(m1)->Some_0.label, handle, id }),
        only_at(s3, command_spec(m1)->Some_0.label@, s1.len() as int),
{
    let s2 = s1.push(Window { label: command_spec(m1)->Some_0.label, handle, id });
    assert(s2[s1.len() as int].label@ == command_spec(m2)->Some_0.label@);
}

/// A background colour is taken exactly when the payload is an array of four
/// integers, each in `[0, 255]`; any other payload makes the command a no-op.
pub proof fn lemma_background_color(d: Json)
    ensures
        request_of("set_background_color"@, d) == (match color_spec(d) {
            Some(c) => Decoded::Known(Request::SetBackgroundColor(c)),
            None => Decoded::Invalid,
        }),
        color_spec(d) is Some <==> (d matches Json::Array(items) && items@.len() == 4
            && forall|i: int| 0 <= i < 4 ==> (#[trigger] items@[i] matches Json::Number(Number::PosInt(u)) && u <= 255)),
{
    reveal_strlit("set_background_color");
    reveal_strlit("create");
    reveal_strlit("set_url");
    reveal_strlit("url");
    reveal_strlit("evaluate_script");
    reveal_strlit("evaluate_script_with_callback");
    reveal_strlit("zoom");
    reveal_strlit("scale_factor");
    reveal_strlit("clear_all_browsing_data");
    assert("set_background_color"@.len() == 20);
    assert("create"@.len() == 6 && "set_url"@.len() == 7 && "url"@.len() == 3 && "zoom"@.len() == 4);
    assert("evaluate_script"@.len() == 15 && "evaluate_script_with_callback"@.len() == 29);
    assert("scale_factor"@.len() == 12 && "clear_all_browsing_data"@.len() == 23);
    if let Json::Array(items) = d {
        if items@.len() == 4 {
            if color_spec(d) is None {
                assert(exists|i: int| 0 <= i < 4 && byte_of(items@[i]) is None);
            }
        }
    }
}

/// A close request on the only window ends the process; on one of several
/// windows it drops exactly that window's session, and every other session
/// stays reachable by its label.
pub proof fn lemma_close_request<H>(old: Seq<Window<H>>, window_id: u64, r: EventOutcome, new: Seq<Window<H>>, k: int)
    requires
        labels_unique(old),
        ids_unique(old),
        0 <= k < old.len(),
        old[k].window_id() == window_id,
        event_spec(old, window_id, WindowEvent::CloseRequested, r, new),
    ensures
        old.len() == 1 ==> r.exit,
        old.len() > 1 ==> {
            &&& !r.exit
            &&& new.len() == old.len() - 1
            &&& forall|l: Seq<char>| has_label(old, l) ==> (has_label(new, l) <==> l != old[k].label@)
        },
{
    let i = choose|i: int| event_at(old, i, window_id, WindowEvent::CloseRequested, r, new);
    if old.len() > 1 {
        assert forall|l: Seq<char>| has_label(old, l) implies (has_label(new, l) <==> l != old[k].label@) by {
            let a = choose|a: int| 0 <= a < old.len() && old[a].label@ == l;
            assert(i == k);
            if l != old[k].label@ {
                if a != i {
                    let b = if a < i { a } else { a - 1 };
                    assert(new[b] == old[a]);
                }
            }
            if has_label(new, l) {
                let b = choose|b: int| 0 <= b < new.len() && new[b].label@ == l;
                let a2 = if b < i { b } else { b + 1 };
                assert(new[b] == old[a2]);
                assert(a2 != i);
            }
        }
    }
}

/// A destroyed window's session is dropped, and every other session stays
/// reachable by its label.
pub proof fn lemma_destroyed<H>(old: Seq<Window<H>>, window_id: u64, r: EventOutcome, new: Seq<Window<H>>, k: int)
    requires
        labels_unique(old),
        ids_unique(old),
        0 <= k < old.len(),
        old[k].window_id() == window_id,
        event_spec(old, window_id, WindowEvent::Destroyed, r, new),
    ensures
        !r.exit,
        new.len() == old.len() - 1,
        forall|l: Seq<char>| has_label(old, l) ==> (has_label(new, l) <==> l != old[k].label@),
{
    let i = choose|i: int| event_at(old, i, window_id, WindowEvent::Destroyed, r, new);
    assert(i == k);
    assert forall|l: Seq<char>| has_label(old, l) implies (has_label(new, l) <==> l != old[k].label@) by {
        let a = choose|a: int| 0 <= a < old.len() && old[a].label@ == l;
        if l != old[k].label@ && a != i {
            let b = if a < i { a } else { a - 1 };
            assert(new[b] == old[a]);
        }
        if has_label(new, l) {
            let b = choose|b: int| 0 <= b < new.len() && new[b].label@ == l;
            let a2 = if b < i { b } else { b + 1 };
            assert(new[b] == old[a2]);
            assert(a2 != i);
        }
    }
}

/// A title that `set_title` hands to the window comes back as the data of a
/// later `title` query, when the window reports the title it was given.
pub proof fn lemma_title_round_trip<H>(
    s0: Seq<Window<H>>,
    m1: Json,
    r1: Dispatch,
    s1: Seq<Window<H>>,
    m2: Json,
    r2: Dispatch,
    s2: Seq<Window<H>>,
    x: String,
    d: Option<Json>,
)
    requires
        listen_spec(s0, m1, r1, s1),
        command_spec(m1) matches Some(c) && c.method@ == "set_title"@ && c.data == Json::Str(x)
            && has_label(s0, c.label@),
        listen_spec(s1, m2, r2, s2),
        command_spec(m2) matches Some(c2) && c2.method@ == "title"@
            && c2.label@ == command_spec(m1)->Some_0.label@,
        reports(d, Outcome::Text(x)),
    ensures
        r1 == Dispatch::Perform(command_spec(m1)->Some_0, Request::SetTitle(x)),
        r2 == Dispatch::Perform(command_spec(m2)->Some_0, Request::Title),
        d == Some(Json::Str(x)),
{
    reveal_strlit("set_title");
    reveal_strlit("title");
    reveal_strlit("create");
    reveal_strlit("set_url");
    reveal_strlit("url");
    reveal_strlit("evaluate_script");
    reveal_strlit("evaluate_script_with_callback");
    reveal_strlit("zoom");
    reveal_strlit("scale_factor");
    reveal_strlit("clear_all_browsing_data");
    reveal_strlit("set_background_color");
    reveal_strlit("inner_position");
    reveal_strlit("outer_position");
    reveal_strlit("set_outer_position");
    reveal_strlit("inner_size");
    reveal_strlit("set_inner_size");
    reveal_strlit("outer_size");
    reveal_strlit("set_min_inner_size");
    reveal_strlit("set_max_inner_size");
    reveal_strlit("show_window_menu");
    reveal_strlit("drag_window");
    reveal_strlit("drag_resize_window");
    assert("set_title"@.len() == 9 && "title"@.len() == 5);
    assert("create"@.len() == 6 && "set_url"@.len() == 7 && "url"@.len() == 3 && "zoom"@.len() == 4);
    assert("evaluate_script"@.len() == 15 && "evaluate_script_with_callback"@.len() == 29);
    assert("scale_factor"@.len() == 12 && "clear_all_browsing_data"@.len() == 23);
    assert("set_background_color"@.len() == 20 && "inner_position"@.len() == 14);
    assert("outer_position"@.len() == 14 && "set_outer_position"@.len() == 18);
    assert("inner_size"@.len() == 10 && "set_inner_size"@.len() == 14 && "outer_size"@.len() == 10);
    assert("set_min_inner_size"@.len() == 18 && "set_max_inner_size"@.len() == 18);
    assert("show_window_menu"@.len() == 16 && "drag_window"@.len() == 11);
    assert("drag_resize_window"@.len() == 18);
    assert(s1 == s0);
}

} // verus!

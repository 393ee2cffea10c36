//! The state that the UI loop owns, and its two entry points: a command from
//! the caller and an event from the toolkit.
use vstd::prelude::*;
use crate::json::Json;
use crate::protocol::{Command, Message, command_spec, decode_command};
use crate::registry::{Registry, Window, has_label, has_id};
use crate::request::{Request, Decoded, request_of, decode_request};
use crate::config::{WindowConfig, ViewConfig};
use crate::event::{WindowEvent, event_method, forwards, event_message};
use crate::decimal::{decimal_digits, decimal_text};

verus! {

/// What the loop is to do about one command.
pub enum Dispatch {
    /// The line is no command: it is dropped.
    Malformed,
    /// The method is outside the vocabulary: nothing is done or sent.
    Unknown(Command),
    /// The payload has the wrong shape: nothing is done or sent.
    Invalid(Command),
    /// A session with the label is live already: nothing is created or sent.
    Duplicate(Command),
    /// No session has the label: nothing is done or sent.
    Missing(Command),
    /// The session has been taken out of the table; respond with no data.
    Closed(Command),
    /// Build a window and its view with these settings, then register them.
    Create(Command, WindowConfig, ViewConfig),
    /// Carry out the operation (on the labelled window, where it has one)
    /// and respond with what the toolkit answers.
    Perform(Command, Request),
}

/// What the loop is to do about one native event.
pub struct EventOutcome {
    /// The message to forward, if any.
    pub message: Option<Message>,
    /// Whether the loop, and with it the process, is to end.
    pub exit: bool,
}

/// Whether an operation acts on a window, rather than on the loop alone.
pub open spec fn needs_window(req: Request) -> bool {
    !(req is PrimaryMonitor || req is GetMonitorList)
}

/// Dropping the session labelled `label` from `old` leaves `new`.
pub open spec fn removed<H>(old: Seq<Window<H>>, label: Seq<char>, new: Seq<Window<H>>) -> bool {
    exists|i: int| 0 <= i < old.len() && old[i].label@ == label && new == old.remove(i)
}

/// How the table goes from `old` to `new` and what `r` is to be, for a
/// decoded message `message`.
pub open spec fn listen_spec<H>(old: Seq<Window<H>>, message: Json, r: Dispatch, new: Seq<Window<H>>) -> bool {
    match command_spec(message) {
        None => r is Malformed && new == old,
        Some(c) => match request_of(c.method@, c.data) {
            Decoded::Unknown => r == Dispatch::Unknown(c) && new == old,
            Decoded::Invalid => r == Dispatch::Invalid(c) && new == old,
            Decoded::Known(Request::Create(w, v)) => new == old && if has_label(old, c.label@) {
                r == Dispatch::Duplicate(c)
            } else {
                r == Dispatch::Create(c, w, v)
            },
            Decoded::Known(Request::Close) => if has_label(old, c.label@) {
                r == Dispatch::Closed(c) && removed(old, c.label@, new)
            } else {
                r == Dispatch::Missing(c) && new == old
            },
            Decoded::Known(req) => new == old && if needs_window(req) && !has_label(old, c.label@) {
                r == Dispatch::Missing(c)
            } else {
                r == Dispatch::Perform(c, req)
            },
        },
    }
}

/// How the table goes from `old` to `new` and what `r` is to be, for event
/// `ev` on the native window `window_id`. A close request is forwarded first;
/// then the process ends if that window is the only one, and otherwise the
/// window's session is dropped. A destroyed window's session is dropped
/// after the event is forwarded.
pub open spec fn event_spec<H>(old: Seq<Window<H>>, window_id: u64, ev: WindowEvent, r: EventOutcome, new: Seq<Window<H>>) -> bool {
    if forall|i: int| 0 <= i < old.len() ==> old[i].window_id() != window_id {
        r.message is None && !r.exit && new == old
    } else {
        exists|i: int| event_at(old, i, window_id, ev, r, new)
    }
}

/// `event_spec` for the session at `i`, whose window is `window_id`.
pub open spec fn event_at<H>(old: Seq<Window<H>>, i: int, window_id: u64, ev: WindowEvent, r: EventOutcome, new: Seq<Window<H>>) -> bool {
    &&& 0 <= i < old.len()
    &&& old[i].window_id() == window_id
    &&& (r.message is Some <==> event_method(ev) is Some)
    &&& (r.message matches Some(m) ==> forwards(m, old[i].label, ev))
    &&& if ev is CloseRequested {
        if old.len() == 1 {
            r.exit && new == old
        } else {
            !r.exit && new == old.remove(i)
        }
    } else if ev is Destroyed {
        !r.exit && new == old.remove(i)
    } else {
        !r.exit && new == old
    }
}

/// The state of the UI loop: whether the input listener has been started,
/// and the live sessions.
pub struct Application<H> {
    pub is_resumed: bool,
    pub windows: Registry<H>,
}

impl<H> Application<H> {
    pub open spec fn wf(&self) -> bool {
        self.windows.wf()
    }

    pub fn new() -> (r: Application<H>)
        ensures
            r.wf(),
            !r.is_resumed,
            r.windows@.len() == 0,
    {
        Application { is_resumed: false, windows: Registry::new() }
    }

    /// Marks the loop as started; true only the first time, when the input
    /// listener is to be started.
    pub fn resumed(&mut self) -> (first: bool)
        ensures
            first == !old(self).is_resumed,
            final(self).is_resumed,
            final(self).windows == old(self).windows,
    {
        if self.is_resumed {
            false
        } else {
            self.is_resumed = true;
            true
        }
    }

    pub fn get_window(&self, label: &str) -> (r: Option<&Window<H>>)
        ensures
            match r {
                Some(w) => exists|i: int| 0 <= i < self.windows@.len() && self.windows@[i] == *w
                    && w.label@ == label@,
                None => !self.windows.contains(label@),
            },
    {
        self.windows.get(label)
    }

    /// Drops the session labelled `label`, if it is live.
    pub fn close_window(&mut self, label: &str)
        requires
            old(self).wf(),
        ensures
            final(self).wf(),
            final(self).is_resumed == old(self).is_resumed,
            old(self).windows.contains(label@) ==> removed(old(self).windows@, label@, final(self).windows@),
            !old(self).windows.contains(label@) ==> final(self).windows@ == old(self).windows@,
    {
        let _ = self.windows.remove(label);
    }

    /// Registers the window that the toolkit built for a `create` command and
    /// gives the response, whose data is the window's identifier in decimal.
    /// Hands the native objects back when the label has been taken meanwhile,
    /// or when a live session already has the window identifier.
    pub fn create_new_window(&mut self, cmd: &Command, id: u64, handle: H) -> (r: Result<Message, H>)
        requires
            old(self).wf(),
        ensures
            final(self).wf(),
            final(self).is_resumed == old(self).is_resumed,
            old(self).windows.contains(cmd.label@) || has_id(old(self).windows@, id)
                ==> r is Err && final(self).windows@ == old(self).windows@,
            !old(self).windows.contains(cmd.label@) && !has_id(old(self).windows@, id) ==> {
                &&& final(self).windows@ == old(self).windows@.push(Window { label: cmd.label, handle, id })
                &&& r matches Ok(m)
                &&& m.id == Some(cmd.id) && m.label == cmd.label && m.method == cmd.method
                &&& m.data matches Some(Json::Str(s)) && s@ == decimal_digits(id as nat)
            },
    {
        let w = Window::new(cmd.label.clone(), handle, id);
        match self.windows.insert(w) {
            Ok(()) => Ok(Message::response(cmd, Some(Json::Str(decimal_text(id))))),
            Err(w) => Err(w.handle),
        }
    }

    /// Decides what to do about one decoded message.
    pub fn handle_listen(&mut self, message: Json) -> (r: Dispatch)
        requires
            old(self).wf(),
        ensures
            final(self).wf(),
            final(self).is_resumed == old(self).is_resumed,
            listen_spec(old(self).windows@, message, r, final(self).windows@),
    {
        let c = match decode_command(message) {
            Some(c) => c,
            None => return Dispatch::Malformed,
        };
        match decode_request(c.method.as_str(), &c.data) {
            Decoded::Unknown => Dispatch::Unknown(c),
            Decoded::Invalid => Dispatch::Invalid(c),
            Decoded::Known(req) => match req {
                Request::Create(w, v) => {
                    if self.windows.index_of(c.label.as_str()).is_some() {
                        Dispatch::Duplicate(c)
                    } else {
                        Dispatch::Create(c, w, v)
                    }
                },
                Request::Close => {
                    match self.windows.remove(c.label.as_str()) {
                        Some(_) => Dispatch::Closed(c),
                        None => Dispatch::Missing(c),
                    }
                },
                Request::PrimaryMonitor => Dispatch::Perform(c, Request::PrimaryMonitor),
                Request::GetMonitorList => Dispatch::Perform(c, Request::GetMonitorList),
                req => {
                    if self.windows.index_of(c.label.as_str()).is_some() {
                        Dispatch::Perform(c, req)
                    } else {
                        Dispatch::Missing(c)
                    }
                },
            },
        }
    }

    /// Decides what to do about one native event on window `window_id`.
    pub fn handle_window_event(&mut self, window_id: u64, ev: WindowEvent) -> (r: EventOutcome)
        requires
            old(self).wf(),
        ensures
            final(self).wf(),
            final(self).is_resumed == old(self).is_resumed,
            event_spec(old(self).windows@, window_id, ev, r, final(self).windows@),
    {
        let len = self.windows.len();
        let label = match self.windows.find_by_id(window_id) {
            Some(w) => w.label.clone(),
            None => return EventOutcome { message: None, exit: false },
        };
        let ghost i = choose|i: int| 0 <= i < self.windows@.len() && self.windows@[i].window_id() == window_id
            && self.windows@[i].label == label;
        let closing = matches!(ev, WindowEvent::CloseRequested);
        let destroyed = matches!(ev, WindowEvent::Destroyed);
        let message = event_message(&label, ev);
        let ghost old_windows = old(self).windows@;
        assert(old_windows[i].window_id() == window_id);
        assert(old_windows[i].label == label);
        if closing && len == 1 {
            let r = EventOutcome { message, exit: true };
            assert(event_at(old_windows, i, window_id, ev, r, self.windows@));
            return r;
        }
        if closing || destroyed {
            let removed = self.windows.remove(label.as_str());
            proof {
                let j = choose|j: int| 0 <= j < old(self).windows@.len() && old(self).windows@[j] == removed->Some_0
                    && removed->Some_0.label@ == label@ && self.windows@ == old(self).windows@.remove(j);
                assert(old(self).windows@[j].label@ == old(self).windows@[i].label@);
                assert(i == j);
            }
        }
        let r = EventOutcome { message, exit: false };
        assert(event_at(old_windows, i, window_id, ev, r, self.windows@));
        r
    }
}

} // verus!

//! Script evaluations whose response comes later: each is waited on under a
//! token of its own, and answered once.
use vstd::prelude::*;
use crate::json::Json;
use crate::protocol::{Command, Message};

verus! {

/// Commands waiting for a script result, each under its token.
pub struct Pending {
    next: u64,
    waiting: Vec<(u64, Command)>,
}

impl View for Pending {
    type V = Seq<(u64, Command)>;

    closed spec fn view(&self) -> Seq<(u64, Command)> {
        self.waiting@
    }
}

impl Pending {
    /// The tokens that no waiting command has yet, and will be handed out
    /// from here on, start at this value.
    pub closed spec fn next_token(&self) -> u64 {
        self.next
    }

    pub open spec fn waits(&self, token: u64) -> bool {
        exists|i: int| 0 <= i < self@.len() && self@[i].0 == token
    }

    pub open spec fn wf(&self) -> bool {
        &&& forall|i: int| 0 <= i < self@.len() ==> (#[trigger] self@[i]).0 < self.next_token()
        &&& forall|i: int, j: int| 0 <= i < self@.len() && 0 <= j < self@.len() && i != j
            ==> (#[trigger] self@[i]).0 != (#[trigger] self@[j]).0
    }

    pub fn new() -> (r: Pending)
        ensures
            r.wf(),
            r@.len() == 0,
            r.next_token() == 0,
    {
        Pending { next: 0, waiting: Vec::new() }
    }

    /// Puts `cmd` aside until its script result arrives and gives the token
    /// to complete it with; nothing once every token has been handed out.
    pub fn register(&mut self, cmd: Command) -> (r: Option<u64>)
        requires
            old(self).wf(),
        ensures
            final(self).wf(),
            match r {
                Some(t) => !old(self).waits(t) && final(self)@ == old(self)@.push((t, cmd)),
                None => final(self)@ == old(self)@ && old(self).next_token() == u64::MAX,
            },
    {
        if self.next == u64::MAX {
            return None;
        }
        let t = self.next;
        self.waiting.push((t, cmd));
        self.next = t + 1;
        proof {
            let o = old(self)@;
            assert(self@ == o.push((t, cmd)));
            assert forall|k: int| 0 <= k < self@.len() implies (#[trigger] self@[k]).0 < self.next_token() by {
                if k < o.len() {
                    assert(self@[k] == o[k]);
                }
            }
            assert forall|a: int, b: int| 0 <= a < self@.len() && 0 <= b < self@.len() && a != b
                implies (#[trigger] self@[a]).0 != (#[trigger] self@[b]).0 by {
                if a < o.len() {
                    assert(self@[a] == o[a]);
                }
                if b < o.len() {
                    assert(self@[b] == o[b]);
                }
            }
            assert(!old(self).waits(t));
        }
        Some(t)
    }

    /// The response to the command waiting under `token`, carrying the
    /// script's result; the command stops waiting, so a second completion
    /// under the same token gives nothing.
    pub fn complete(&mut self, token: u64, result: String) -> (r: Option<Message>)
        requires
            old(self).wf(),
        ensures
            final(self).wf(),
            !final(self).waits(token),
            old(self).waits(token) <==> r is Some,
            match r {
                Some(m) => exists|i: int| 0 <= i < old(self)@.len() && old(self)@[i].0 == token && {
                    let c = old(self)@[i].1;
                    &&& m == (Message { id: Some(c.id), label: c.label, method: c.method, data: Some(Json::Str(result)) })
                    &&& final(self)@ == old(self)@.remove(i)
                },
                None => final(self)@ == old(self)@,
            },
    {
        let n = self.waiting.len();
        let mut i: usize = 0;
        while i < n
            invariant
                n == self@.len(),
                self@ == self.waiting@,
                self == old(self),
                old(self).wf(),
                i <= n,
                forall|k: int| 0 <= k < i ==> self@[k].0 != token,
            decreases n - i,
        {
            if self.waiting[i].0 == token {
                let ghost o = old(self)@;
                assert(o[i as int].0 == token);
                let (_, c) = self.waiting.remove(i);
                proof {
                    assert(self@ == o.remove(i as int));
                    assert forall|k: int| 0 <= k < self@.len() implies (#[trigger] self@[k]).0 != token by {
                        let ok = if k < i { k } else { k + 1 };
                        assert(self@[k] == o[ok]);
                        assert(ok != i);
                        assert(o[ok].0 != o[i as int].0);
                    }
                    assert forall|a: int, b: int| 0 <= a < self@.len() && 0 <= b < self@.len() && a != b
                        implies (#[trigger] self@[a]).0 != (#[trigger] self@[b]).0 by {
                        let oa = if a < i { a } else { a + 1 };
                        let ob = if b < i { b } else { b + 1 };
                        assert(self@[a] == o[oa]);
                        assert(self@[b] == o[ob]);
                        assert(o[oa].0 != o[ob].0);
                    }
                    assert forall|k: int| 0 <= k < self@.len() implies (#[trigger] self@[k]).0 < self.next_token() by {
                        let ok = if k < i { k } else { k + 1 };
                        assert(self@[k] == o[ok]);
                    }
                }
                return Some(Message::response(&c, Some(Json::Str(result))));
            }
            i = i + 1;
        }
        None
    }
}

} // verus!

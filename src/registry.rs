//! The table of live sessions, keyed by label.
use vstd::prelude::*;
use crate::text::str_eq;

verus! {

/// One open window and its embedded view. `H` is whatever the caller uses to
/// reach the native objects.
pub struct Window<H> {
    pub label: String,
    pub handle: H,
    pub id: u64,
}

impl<H> Window<H> {
    /// The identifier that the windowing toolkit gave the window.
    pub open spec fn window_id(&self) -> u64 {
        self.id
    }

    pub fn new(label: String, handle: H, id: u64) -> (r: Window<H>)
        ensures
            r.label == label,
            r.handle == handle,
            r.window_id() == id,
    {
        Window { label, handle, id }
    }

    pub fn id(&self) -> (r: u64)
        ensures
            r == self.window_id(),
    {
        self.id
    }
}

/// Live sessions in the order they were opened; no label occurs twice.
pub struct Registry<H> {
    windows: Vec<Window<H>>,
}

/// Whether some session in `s` carries `label`.
pub open spec fn has_label<H>(s: Seq<Window<H>>, label: Seq<char>) -> bool {
    exists|i: int| 0 <= i < s.len() && s[i].label@ == label
}

/// No two sessions in `s` share a label.
pub open spec fn labels_unique<H>(s: Seq<Window<H>>) -> bool {
    forall|i: int, j: int| 0 <= i < s.len() && 0 <= j < s.len() && i != j
        ==> s[i].label@ != s[j].label@
}

/// Whether some session in `s` has the native window `id`.
pub open spec fn has_id<H>(s: Seq<Window<H>>, id: u64) -> bool {
    exists|i: int| 0 <= i < s.len() && s[i].window_id() == id
}

/// No two sessions in `s` share a native window identifier.
pub open spec fn ids_unique<H>(s: Seq<Window<H>>) -> bool {
    forall|i: int, j: int| 0 <= i < s.len() && 0 <= j < s.len() && i != j
        ==> s[i].window_id() != s[j].window_id()
}

impl<H> View for Registry<H> {
    type V = Seq<Window<H>>;

    closed spec fn view(&self) -> Seq<Window<H>> {
        self.windows@
    }
}

impl<H> Registry<H> {
    pub open spec fn wf(&self) -> bool {
        labels_unique(self@) && ids_unique(self@)
    }

    pub open spec fn contains(&self, label: Seq<char>) -> bool {
        has_label(self@, label)
    }

    pub fn new() -> (r: Registry<H>)
        ensures
            r.wf(),
            r@.len() == 0,
    {
        Registry { windows: Vec::new() }
    }

    pub fn len(&self) -> (r: usize)
        ensures
            r == self@.len(),
    {
        self.windows.len()
    }

    /// Where the session labelled `label` sits.
    pub fn index_of(&self, label: &str) -> (r: Option<usize>)
        ensures
            match r {
                Some(i) => i < self@.len() && self@[i as int].label@ == label@,
                None => !self.contains(label@),
            },
    {
        let n = self.windows.len();
        let mut i: usize = 0;
        while i < n
            invariant
                n == self@.len(),
                self@ == self.windows@,
                i <= n,
                forall|k: int| 0 <= k < i ==> self@[k].label@ != label@,
            decreases n - i,
        {
            if str_eq(self.windows[i].label.as_str(), label) {
                return Some(i);
            }
            i = i + 1;
        }
        None
    }

    /// The session labelled `label`, if one is live.
    pub fn get(&self, label: &str) -> (r: Option<&Window<H>>)
        ensures
            match r {
                Some(w) => exists|i: int| 0 <= i < self@.len() && self@[i] == *w && w.label@ == label@,
                None => !self.contains(label@),
            },
    {
        match self.index_of(label) {
            Some(i) => Some(&self.windows[i]),
            None => None,
        }
    }

    /// The session whose native window has identifier `id`, if one is live.
    pub fn find_by_id(&self, id: u64) -> (r: Option<&Window<H>>)
        ensures
            match r {
                Some(w) => exists|i: int| 0 <= i < self@.len() && self@[i] == *w && w.window_id() == id,
                None => forall|i: int| 0 <= i < self@.len() ==> self@[i].window_id() != id,
            },
    {
        let n = self.windows.len();
        let mut i: usize = 0;
        while i < n
            invariant
                n == self@.len(),
                self@ == self.windows@,
                i <= n,
                forall|k: int| 0 <= k < i ==> self@[k].window_id() != id,
            decreases n - i,
        {
            if self.windows[i].id == id {
                return Some(&self.windows[i]);
            }
            i = i + 1;
        }
        None
    }

    /// Adds a session whose label and window are not live yet; hands the
    /// session back when either is taken.
    pub fn insert(&mut self, w: Window<H>) -> (r: Result<(), Window<H>>)
        requires
            old(self).wf(),
        ensures
            final(self).wf(),
            old(self).contains(w.label@) || has_id(old(self)@, w.window_id())
                ==> r == Err::<(), Window<H>>(w) && final(self)@ == old(self)@,
            !old(self).contains(w.label@) && !has_id(old(self)@, w.window_id())
                ==> r is Ok && final(self)@ == old(self)@.push(w),
    {
        if self.index_of(w.label.as_str()).is_some() {
            return Err(w);
        }
        if self.find_by_id(w.id).is_some() {
            return Err(w);
        }
        self.windows.push(w);
        proof {
            let o = old(self)@;
            assert forall|a: int, b: int| 0 <= a < self@.len() && 0 <= b < self@.len() && a != b
                implies self@[a].label@ != self@[b].label@ && self@[a].window_id() != self@[b].window_id() by {
                if a < o.len() {
                    assert(self@[a] == o[a]);
                }
                if b < o.len() {
                    assert(self@[b] == o[b]);
                }
            }
        }
        Ok(())
    }

    /// Takes the session labelled `label` out of the table. Removing a label
    /// that is not live changes nothing.
    pub fn remove(&mut self, label: &str) -> (r: Option<Window<H>>)
        requires
            old(self).wf(),
        ensures
            final(self).wf(),
            old(self).contains(label@) <==> r is Some,
            match r {
                Some(w) => exists|i: int| 0 <= i < old(self)@.len() && old(self)@[i] == w
                    && w.label@ == label@ && final(self)@ == old(self)@.remove(i),
                None => final(self)@ == old(self)@,
            },
    {
        match self.index_of(label) {
            Some(i) => {
                let w = self.windows.remove(i);
                proof {
                    assert forall|a: int, b: int|
                        0 <= a < self@.len() && 0 <= b < self@.len() && a != b
                        implies self@[a].label@ != self@[b].label@ by {
                        let oa = if a < i { a } else { a + 1 };
                        let ob = if b < i { b } else { b + 1 };
                        assert(self@[a] == old(self)@[oa]);
                        assert(self@[b] == old(self)@[ob]);
                    }
                    assert forall|a: int, b: int|
                        0 <= a < self@.len() && 0 <= b < self@.len() && a != b
                        implies self@[a].window_id() != self@[b].window_id() by {
                        let oa = if a < i { a } else { a + 1 };
                        let ob = if b < i { b } else { b + 1 };
                        assert(self@[a] == old(self)@[oa]);
                        assert(self@[b] == old(self)@[ob]);
                    }
                }
                Some(w)
            },
            None => None,
        }
    }
}

} // verus!

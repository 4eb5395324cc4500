//! The log store: a bounded in-memory buffer of recent core output lines,
//! shared by both supervision strategies.
//!
//! Lines are kept in insertion order.  When the buffer is full, appending a
//! line drops the oldest one.  The whole buffer is cleared at every stop and
//! at every observed termination of the core process.

use crate::extstr::compact_chars;
use crate::extstr::compact_clone;
use compact_str::CompactString;
use vstd::prelude::*;

verus! {

/// Bounded buffer of recent core output lines.
pub struct LogStore {
    lines: Vec<CompactString>,
    capacity: usize,
}

impl View for LogStore {
    type V = Seq<Seq<char>>;

    /// The stored lines' text, oldest first.
    closed spec fn view(&self) -> Seq<Seq<char>> {
        self.lines@.map_values(|c: CompactString| compact_chars(c))
    }
}

/// What the buffer holds after a line is appended under retention bound
/// `cap`: the line goes to the back, and the oldest line leaves if the
/// buffer was full.
pub open spec fn spec_append(s: Seq<Seq<char>>, cap: nat, line: Seq<char>) -> Seq<Seq<char>> {
    if s.len() < cap {
        s.push(line)
    } else {
        s.skip(1).push(line)
    }
}

impl LogStore {
    /// The retention bound the store was created with.
    pub closed spec fn spec_capacity(&self) -> nat {
        self.capacity as nat
    }

    /// The store never holds more lines than its retention bound allows.
    pub open spec fn wf(&self) -> bool {
        1 <= self.spec_capacity() && self@.len() <= self.spec_capacity()
    }

    /// Create an empty store that retains at most `capacity` lines.
    pub fn new(capacity: usize) -> (store: LogStore)
        requires
            capacity >= 1,
        ensures
            store.wf(),
            store.spec_capacity() == capacity,
            store@ == Seq::<Seq<char>>::empty(),
    {
        let store = LogStore { lines: Vec::new(), capacity };
        proof {
            assert(store@ =~= Seq::<Seq<char>>::empty());
        }
        store
    }

    /// Append one output line, dropping the oldest line if the store is
    /// full.
    pub fn append_log(&mut self, line: CompactString)
        requires
            old(self).wf(),
        ensures
            final(self).wf(),
            final(self).spec_capacity() == old(self).spec_capacity(),
            final(self)@ == spec_append(old(self)@, old(self).spec_capacity(), compact_chars(line)),
    {
        if self.lines.len() >= self.capacity {
            self.lines.remove(0);
            proof {
                assert(self@ =~= old(self)@.skip(1));
            }
        }
        let ghost trimmed = self@;
        self.lines.push(line);
        proof {
            assert(self@ =~= trimmed.push(compact_chars(line)));
        }
    }

    /// Drop every stored line.
    pub fn clear_logs(&mut self)
        ensures
            final(self).spec_capacity() == old(self).spec_capacity(),
            final(self)@ == Seq::<Seq<char>>::empty(),
            old(self).wf() ==> final(self).wf(),
    {
        self.lines.clear();
        proof {
            assert(self@ =~= Seq::<Seq<char>>::empty());
        }
    }

    /// A copy of the stored lines, oldest first.
    pub fn get_logs(&self) -> (r: Vec<CompactString>)
        ensures
            r@.map_values(|c: CompactString| compact_chars(c)) == self@,
    {
        let mut out: Vec<CompactString> = Vec::new();
        let mut i: usize = 0;
        while i < self.lines.len()
            invariant
                i <= self.lines.len(),
                out@.len() == i,
                forall|j: int|
                    0 <= j < i ==> compact_chars(#[trigger] out@[j]) == compact_chars(
                        self.lines@[j],
                    ),
            decreases self.lines.len() - i,
        {
            out.push(compact_clone(&self.lines[i]));
            i += 1;
        }
        proof {
            assert(out@.map_values(|c: CompactString| compact_chars(c)) =~= self@);
        }
        out
    }
}

} // verus!

//! The result collector: an ordered, append-only store of emitted result
//! lines, read once at the end of a scan for persistence.
//!
//! Appends are whole-line: a caller hands a line in by value and the store
//! grows by exactly that line, so no two appends can interleave parts of their
//! lines. The surrounding program shares one collector among its workers under
//! a single lock, which serialises the appends; the contracts here say what
//! each serialised append does.

use vstd::prelude::*;

use crate::line::lines_view;

verus! {

/// An ordered accumulation of result lines. The order is the order of the
/// appends — completion order during a scan, not wordlist order.
pub struct ResultCollector {
    lines: Vec<String>,
}

impl View for ResultCollector {
    type V = Seq<Seq<char>>;

    closed spec fn view(&self) -> Seq<Seq<char>> {
        lines_view(self.lines@)
    }
}

impl ResultCollector {
    /// An empty collector.
    pub fn new() -> (r: ResultCollector)
        ensures
            r@ == Seq::<Seq<char>>::empty(),
    {
        let r = ResultCollector { lines: Vec::new() };
        proof {
            assert(r@ =~= Seq::<Seq<char>>::empty());
        }
        r
    }

    /// How many lines have been collected.
    pub fn len(&self) -> (n: usize)
        ensures
            n == self@.len(),
    {
        self.lines.len()
    }

    /// Append one line: the store grows by exactly that line, at the end.
    pub fn append(&mut self, line: String)
        ensures
            final(self)@ == old(self)@.push(line@),
    {
        let ghost before = self.lines@;
        self.lines.push(line);
        proof {
            assert(lines_view(self.lines@) =~= lines_view(before).push(self.lines@.last()@));
        }
    }

    /// Hand the collected lines out, in append order, for persistence. Called
    /// once, after every worker has finished.
    pub fn drain(self) -> (r: Vec<String>)
        ensures
            lines_view(r@) == self@,
    {
        self.lines
    }
}

} // verus!

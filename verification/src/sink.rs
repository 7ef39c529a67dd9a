//! The ordered collection of completed lookup results.
//!
//! One sink is shared between the lookups that write it and the presentation
//! layer that reads it; the embedding program must guard it with mutual
//! exclusion, since completions and reads are concurrent. The sink itself is
//! the plain ordered collection those guarded accesses operate on: rows are
//! appended one by one, or replaced wholesale by a date-filtered lookup, and
//! never mutated in place.

use crate::records::{RecordView, ResultRecord};
use vstd::prelude::*;

verus! {

pub struct ResultSink {
    records: Vec<ResultRecord>,
}

impl View for ResultSink {
    type V = Seq<RecordView>;

    closed spec fn view(&self) -> Seq<RecordView> {
        self.records@.map_values(|r: ResultRecord| r@)
    }
}

impl ResultSink {
    /// A fresh, empty sink.
    pub fn new() -> (s: Self)
        ensures
            s@ == Seq::<RecordView>::empty(),
    {
        let s = ResultSink { records: Vec::new() };
        assert(s@ =~= Seq::<RecordView>::empty());
        s
    }

    /// Append one completed row at the end, leaving every earlier row as it
    /// was.
    pub fn append(&mut self, record: ResultRecord)
        ensures
            final(self)@ == old(self)@.push(record@),
    {
        let ghost prior = self@;
        self.records.push(record);
        assert(self@ =~= prior.push(record@));
    }

    /// Replace the whole contents with the given rows, in their order.
    pub fn replace_all(&mut self, records: Vec<ResultRecord>)
        ensures
            final(self)@ == records@.map_values(|r: ResultRecord| r@),
    {
        self.records = records;
    }

    pub fn len(&self) -> (n: usize)
        ensures
            n == self@.len(),
    {
        self.records.len()
    }

    /// Read one row of the current snapshot.
    pub fn get(&self, i: usize) -> (r: &ResultRecord)
        requires
            i < self@.len(),
        ensures
            r@ == self@[i as int],
    {
        &self.records[i]
    }
}

} // verus!

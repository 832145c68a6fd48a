//! The Turso-backed historical cache.

use vstd::prelude::*;

use crate::error::Error;
use crate::event::{Adjustment, EventKind, MarketEvent};
use crate::request::CacheKey;

use super::cache::{
    claim_range, data_events, effective_adjustment, store_plan, store_statements,
    stored_adjustment, total, total_count, upsert_coverage_statement, upsert_view,
    statement_views,
};
use super::coverage::{covered, separated, sorted_disjoint, CoverageDoc};
use super::sql::{SqlValueView, Statement, StatementView};
use super::tags::{kind_for, table_for, table_name};

verus! {

/// How a transaction ends.
#[derive(Clone, Copy, Debug, PartialEq, Eq, Structural)]
pub enum TxEnd {
    Commit,
    Rollback,
}

/// The cache of one Turso file.
#[derive(Clone, Copy, Debug)]
pub struct TursoCache {}

impl TursoCache {
    pub fn table_for(kind: EventKind) -> (r: &'static str)
        ensures
            r@ == table_name(kind),
    {
        table_for(kind)
    }

    pub fn kind_for(table: &str) -> (r: Option<EventKind>)
        ensures
            r matches Some(k) ==> table_name(k) == table@,
            r is None ==> forall|k: EventKind| #[trigger] table_name(k) != table@,
    {
        kind_for(table)
    }

    pub fn effective_adjustment(key: &CacheKey) -> (r: Adjustment)
        ensures
            r == stored_adjustment(key.kind, key.adjustment),
    {
        effective_adjustment(key)
    }
}

/// What follows the body of a store's transaction: it is committed where every
/// statement succeeded, and rolled back otherwise.
pub fn end_of_store(body_ok: bool) -> (r: TxEnd)
    ensures
        r == if body_ok {
            TxEnd::Commit
        } else {
            TxEnd::Rollback
        },
{
    if body_ok {
        TxEnd::Commit
    } else {
        TxEnd::Rollback
    }
}

/// Whether the connection has to be rolled back after the attempt to commit:
/// a commit that failed can leave the transaction open.
pub fn rolls_back_after(commit_ok: bool) -> (r: bool)
    ensures
        r == !commit_ok,
{
    !commit_ok
}

/// Progress of a store inside its transaction.
pub struct StoreTx {
    pub key: CacheKey,
    pub doc: CoverageDoc,
    pub counts: Vec<u64>,
}

impl StoreTx {
    /// The segments are yet to be counted from `counts.len()` on.
    pub open spec fn wf(self) -> bool {
        self.counts@.len() <= self.doc.segments@.len()
    }

    /// The count that is due next: that of the first segment not yet counted.
    pub open spec fn count_due(self) -> StatementView {
        super::cache::count_view(
            self.key@,
            self.doc.segments@[self.counts@.len() as int].0,
            self.doc.segments@[self.counts@.len() as int].1,
        )
    }

    /// The document as it is written back.
    pub open spec fn document_due(self) -> StatementView {
        upsert_view(self.key@, self.doc.segments@, total(self.counts@) as u64)
    }

    /// The row statements, to be run first.
    pub fn rows(key: &CacheKey, events: &[MarketEvent]) -> (r: Vec<Statement>)
        ensures
            statement_views(r@) == store_plan(key@, data_events(events@)),
    {
        store_statements(key, events)
    }

    /// The rows are written and the key's document, if any, has been read:
    /// claim the key's range in it.
    pub fn claim(key: CacheKey, existing: Option<CoverageDoc>) -> (r: StoreTx)
        ensures
            r.wf(),
            r.key == key,
            r.counts@.len() == 0,
            ({
                let before = match existing {
                    Some(doc) => doc.segments@,
                    None => seq![],
                };
                &&& sorted_disjoint(before) ==> sorted_disjoint(r.doc.segments@)
                &&& sorted_disjoint(before) ==> forall|t: int| #[trigger]
                    covered(r.doc.segments@, t) <==> (covered(before, t) || key.from.0 <= t
                        < key.to.0)
                &&& sorted_disjoint(before) && separated(before) ==> separated(r.doc.segments@)
                &&& key.to.0 <= key.from.0 ==> r.doc.segments@ == before
            }),
    {
        let doc = claim_range(existing, &key);
        StoreTx { key, doc, counts: Vec::new() }
    }

    /// The next segment whose rows have to be counted.
    pub fn next_count(&self) -> (r: Option<Statement>)
        requires
            self.wf(),
        ensures
            r is Some <==> self.counts@.len() < self.doc.segments@.len(),
            r is Some ==> r->0@ == self.count_due(),
    {
        let k: usize = self.counts.len();
        if k < self.doc.segments.len() {
            let (from, to) = self.doc.segments[k];
            Some(super::cache::count_statement(&self.key, from, to))
        } else {
            None
        }
    }

    /// The count of the segment asked for last.
    pub fn counted(&mut self, n: u64)
        requires
            old(self).wf(),
            old(self).counts@.len() < old(self).doc.segments@.len(),
        ensures
            final(self).wf(),
            final(self).key == old(self).key,
            final(self).doc == old(self).doc,
            final(self).counts@ == old(self).counts@.push(n),
    {
        self.counts.push(n);
    }

    /// The statement that writes the document back, with the number of events
    /// recounted, once every segment has been counted.
    pub fn finish(&self) -> (r: Result<Statement, Error>)
        requires
            self.counts@.len() == self.doc.segments@.len(),
        ensures
            r is Ok,
            r->Ok_0@ == self.document_due(),
    {
        let count: u64 = total_count(&self.counts);
        upsert_coverage_statement(&self.key, &self.doc, count)
    }
}

/// Each segment is counted over its own range, from its first instant to its
/// end, for the store's own series.
pub proof fn law_segments_are_counted_over_their_range(tx: StoreTx)
    requires
        tx.counts@.len() < tx.doc.segments@.len(),
    ensures
        ({
            let (from, to) = tx.doc.segments@[tx.counts@.len() as int];
            let params = tx.count_due().params;
            &&& params.len() == 5
            &&& params[0] == SqlValueView::Text(tx.key.instrument.provider@)
            &&& params[1] == SqlValueView::Text(tx.key.instrument.symbol@)
            &&& params[3] == SqlValueView::Int(from)
            &&& params[4] == SqlValueView::Int(to)
        }),
{
}

/// The document is written back under the key's id, with all of its segments
/// and the sum of their counts.
pub proof fn law_documents_are_written_with_their_counts(tx: StoreTx)
    requires
        tx.counts@.len() == 1,
    ensures
        tx.document_due().params[0] == SqlValueView::Text(super::cache::key_id(tx.key@)),
        tx.document_due().params[1] == SqlValueView::Text(
            super::cache::segments_json(tx.doc.segments@),
        ),
        tx.document_due().params[2] == SqlValueView::Int(crate::num::signed(tx.counts@[0])),
{
    super::cache::law_counts_add_up(seq![], tx.counts@[0]);
    assert(Seq::<u64>::empty().push(tx.counts@[0]) =~= tx.counts@);
}

} // verus!

//! The pagination state machine that materializes the complete link
//! collection from a cursor-driven, paged store.
//!
//! The machine starts at cursor 0, and for every non-empty page appends the
//! page's links in fetch order and moves the cursor to the last link's id;
//! an empty page ends the traversal. Any fetch error aborts the whole
//! traversal: a usable result requires the complete collection, so no
//! partial collection is ever handed out.

use vstd::prelude::*;

use crate::models::{FetchError, Link};

verus! {

/// The ids of `s` are strictly ascending.
pub open spec fn strictly_ascending(s: Seq<Link>) -> bool {
    forall|i: int, j: int| 0 <= i < j < s.len() ==> s[i].id < s[j].id
}

/// Every id of `s` lies strictly above `cursor`.
pub open spec fn ids_above(s: Seq<Link>, cursor: i64) -> bool {
    forall|i: int| 0 <= i < s.len() ==> s[i].id > cursor
}

/// A page that extends a traversal positioned at `cursor` as the store
/// promises: strictly ascending ids, all beyond the cursor.
pub open spec fn page_extends(cursor: i64, page: Seq<Link>) -> bool {
    strictly_ascending(page) && ids_above(page, cursor)
}

/// Where a traversal stands: still fetching pages, finished with the
/// complete collection, or aborted by a fetch error.
#[derive(Clone, Debug, PartialEq, Eq)]
pub enum PaginatorState {
    Fetching,
    Done,
    Failed { error: FetchError },
}

/// Accumulates pages into the complete link collection.
pub struct Paginator {
    pub cursor: i64,
    pub links: Vec<Link>,
    pub state: PaginatorState,
}

impl Paginator {
    /// The traversal invariant: accumulated ids strictly ascending, and the
    /// cursor is exactly the id of the last link seen (0 before any).
    pub open spec fn wf(&self) -> bool {
        &&& strictly_ascending(self.links@)
        &&& self.links@.len() > 0 ==> self.cursor == self.links@.last().id
        &&& self.links@.len() == 0 ==> self.cursor == 0
    }

    /// A fresh traversal: cursor 0, nothing accumulated.
    pub fn new() -> (p: Paginator)
        ensures
            p.cursor == 0,
            p.links@ == Seq::<Link>::empty(),
            p.state is Fetching,
            p.wf(),
    {
        Paginator { cursor: 0, links: Vec::new(), state: PaginatorState::Fetching }
    }

    /// The cursor to request the next page with.
    pub fn next_cursor(&self) -> (c: i64)
        requires
            self.state is Fetching,
        ensures
            c == self.cursor,
    {
        self.cursor
    }

    /// Consume one fetched page. An empty page ends the traversal with the
    /// collection complete; a non-empty page is appended whole — nothing
    /// dropped, nothing duplicated — and the cursor moves to its last id.
    pub fn on_page(&mut self, page: Vec<Link>)
        requires
            old(self).state is Fetching,
        ensures
            page@.len() == 0 ==> {
                &&& final(self).state is Done
                &&& final(self).links@ == old(self).links@
                &&& final(self).cursor == old(self).cursor
            },
            page@.len() > 0 ==> {
                &&& final(self).state is Fetching
                &&& final(self).links@ == old(self).links@ + page@
                &&& final(self).cursor == page@.last().id
            },
            old(self).wf() && page_extends(old(self).cursor, page@) ==> final(self).wf(),
    {
        if page.len() == 0 {
            self.state = PaginatorState::Done;
        } else {
            proof {
                if old(self).wf() && page_extends(old(self).cursor, page@) {
                    lemma_append_preserves_ascending(self.links@, page@);
                }
            }
            let last_idx = page.len() - 1;
            self.cursor = page[last_idx].id;
            let mut page = page;
            self.links.append(&mut page);
        }
    }

    /// Record a failed page fetch: the traversal aborts at once.
    pub fn on_error(&mut self, error: FetchError)
        requires
            old(self).state is Fetching,
        ensures
            final(self).state == (PaginatorState::Failed { error }),
            final(self).links@ == old(self).links@,
            final(self).cursor == old(self).cursor,
    {
        self.state = PaginatorState::Failed { error };
    }

    /// Hand out the traversal's outcome. Only a traversal that ended with
    /// an empty page yields links — and then the complete collection; an
    /// aborted traversal yields only its error, never a partial collection.
    pub fn into_result(self) -> (r: Result<Vec<Link>, FetchError>)
        requires
            !(self.state is Fetching),
        ensures
            self.state is Done ==> (r matches Ok(links) && links@ == self.links@),
            self.state matches PaginatorState::Failed { error } ==> (r matches Err(e) && e
                == error),
    {
        match self.state {
            PaginatorState::Fetching => unreached(),
            PaginatorState::Done => Ok(self.links),
            PaginatorState::Failed { error } => Err(error),
        }
    }
}

/// Appending a page whose ids all lie above the accumulated ids keeps the
/// whole sequence strictly ascending.
pub proof fn lemma_append_preserves_ascending(acc: Seq<Link>, page: Seq<Link>)
    requires
        strictly_ascending(acc),
        strictly_ascending(page),
        acc.len() > 0 ==> ids_above(page, acc.last().id),
    ensures
        strictly_ascending(acc + page),
{
    let whole = acc + page;
    assert forall|i: int, j: int| 0 <= i < j < whole.len() implies whole[i].id < whole[j].id by {
        if j < acc.len() {
        } else if i >= acc.len() {
            assert(whole[i] == page[i - acc.len()]);
            assert(whole[j] == page[j - acc.len()]);
        } else {
            assert(whole[i] == acc[i]);
            assert(whole[j] == page[j - acc.len()]);
            assert(acc[i].id <= acc.last().id);
        }
    }
}

/// No-duplicates law: strictly ascending ids are pairwise distinct, so a
/// well-formed traversal never holds two links with the same id.
pub proof fn lemma_ascending_ids_distinct(s: Seq<Link>)
    requires
        strictly_ascending(s),
    ensures
        forall|i: int, j: int|
            0 <= i < s.len() && 0 <= j < s.len() && i != j ==> s[i].id != s[j].id,
{
    assert forall|i: int, j: int|
        0 <= i < s.len() && 0 <= j < s.len() && i != j implies s[i].id != s[j].id by {
        if i < j {
            assert(s[i].id < s[j].id);
        } else {
            assert(s[j].id < s[i].id);
        }
    }
}

} // verus!

//! Listing the stored items page by page.
//!
//! A [`Lister`] decides what a listing does next: ask for a page, hand out
//! an entity, or stop. The caller sends the requests and reports each page.
//! Entities are handed out in the order in which the service sent them, and
//! no page is asked for while an entity of the last one has not been handed
//! out, so a caller that stops early causes no further request.

use vstd::prelude::*;

verus! {

/// What a listing does next.
pub enum Step<T> {
    /// Ask for the page with this number.
    Fetch(u64),
    /// Hand this entity to the consumer.
    Yield(T),
    /// The listing is complete.
    Done,
}

/// The state of a listing.
pub struct Lister<T> {
    page: u64,
    received: usize,
    pending: Vec<T>,
    finished: bool,
}

/// The state of a listing as contracts speak of it.
pub struct ListerView<T> {
    /// The number of the page that is asked for next.
    pub page: nat,
    /// How many entities the pages so far have held; it stops at the largest
    /// `usize`.
    pub received: nat,
    /// The entities of the last page that have not been handed out yet.
    pub pending: Seq<T>,
    /// Whether no further page will be asked for.
    pub finished: bool,
}

impl<T> ListerView<T> {
    /// The state in which a listing starts: the first page is due.
    pub open spec fn initial() -> ListerView<T> {
        ListerView { page: 1, received: 0, pending: Seq::empty(), finished: false }
    }

    /// Whether the listing waits for a page.
    pub open spec fn awaits_page(self) -> bool {
        self.pending.len() == 0 && !self.finished
    }

    /// The next step.
    pub open spec fn step(self) -> Step<T> {
        if self.pending.len() > 0 {
            Step::Yield(self.pending[0])
        } else if self.finished {
            Step::Done
        } else {
            Step::Fetch(self.page as u64)
        }
    }

    /// The state after the next step: an entity that was handed out is no
    /// longer pending, and nothing else changes.
    pub open spec fn after_step(self) -> ListerView<T> {
        if self.pending.len() > 0 {
            ListerView { pending: self.pending.drop_first(), ..self }
        } else {
            self
        }
    }

    /// The state with every pending entity handed out.
    pub open spec fn drained(self) -> ListerView<T> {
        ListerView { pending: Seq::empty(), ..self }
    }

    /// The count of entities after a page of `len` more.
    pub open spec fn count_after(self, len: nat) -> nat {
        if self.received + len > usize::MAX {
            usize::MAX as nat
        } else {
            self.received + len
        }
    }

    /// The state after a page of the public API arrives with the total that
    /// the service reports: the listing is finished once it has received as
    /// many entities as the total says, and the next page is due otherwise.
    pub open spec fn after_page(self, items: Seq<T>, total: usize) -> ListerView<T> {
        let finished = self.received + items.len() >= total;
        ListerView {
            page: if finished {
                self.page
            } else {
                self.page + 1
            },
            received: self.count_after(items.len()),
            pending: items,
            finished,
        }
    }

    /// The state after a page of the internal API arrives: the listing is
    /// finished by an empty page, and the next page is due otherwise.
    pub open spec fn after_internal_page(self, items: Seq<T>) -> ListerView<T> {
        let finished = items.len() == 0;
        ListerView {
            page: if finished {
                self.page
            } else {
                self.page + 1
            },
            received: self.count_after(items.len()),
            pending: items,
            finished,
        }
    }
}

impl<T> View for Lister<T> {
    type V = ListerView<T>;

    closed spec fn view(&self) -> ListerView<T> {
        ListerView {
            page: self.page as nat,
            received: self.received as nat,
            pending: self.pending@,
            finished: self.finished,
        }
    }
}

impl<T> Lister<T> {
    /// A listing that has not asked for anything yet.
    pub fn new() -> (res: Lister<T>)
        ensures
            res@ == ListerView::<T>::initial(),
    {
        Lister { page: 1, received: 0, pending: Vec::new(), finished: false }
    }

    /// The number of the page that is asked for next.
    pub fn page(&self) -> (res: u64)
        ensures
            res == self@.page,
    {
        self.page
    }

    /// How many entities the pages so far have held.
    pub fn received(&self) -> (res: usize)
        ensures
            res == self@.received,
    {
        self.received
    }

    /// Whether the listing waits for a page.
    pub fn awaits_page(&self) -> (res: bool)
        ensures
            res == self@.awaits_page(),
    {
        self.pending.len() == 0 && !self.finished
    }

    /// Takes the next step. A pending entity is handed out before anything
    /// else; a page is asked for only when none is pending.
    pub fn next(&mut self) -> (res: Step<T>)
        ensures
            res == old(self)@.step(),
            final(self)@ == old(self)@.after_step(),
    {
        if self.pending.len() > 0 {
            let item = self.pending.remove(0);
            assert(self.pending@ =~= old(self).pending@.drop_first());
            Step::Yield(item)
        } else if self.finished {
            Step::Done
        } else {
            Step::Fetch(self.page)
        }
    }

    fn add_received(&mut self, len: usize)
        ensures
            final(self).received == old(self)@.count_after(len as nat),
            final(self).page == old(self).page,
            final(self).pending == old(self).pending,
            final(self).finished == old(self).finished,
    {
        self.received = match self.received.checked_add(len) {
            Some(sum) => sum,
            None => usize::MAX,
        };
    }

    /// Takes a page of the public API together with the total that the
    /// service reports.
    pub fn page_received(&mut self, items: Vec<T>, total: usize)
        requires
            old(self)@.awaits_page(),
            old(self)@.page < u64::MAX,
        ensures
            final(self)@ == old(self)@.after_page(items@, total),
    {
        self.add_received(items.len());
        self.finished = self.received >= total;
        if !self.finished {
            self.page = self.page + 1;
        }
        self.pending = items;
    }

    /// Takes a page of the internal API, which reports no total.
    pub fn internal_page_received(&mut self, items: Vec<T>)
        requires
            old(self)@.awaits_page(),
            old(self)@.page < u64::MAX,
        ensures
            final(self)@ == old(self)@.after_internal_page(items@),
    {
        self.add_received(items.len());
        self.finished = items.len() == 0;
        if !self.finished {
            self.page = self.page + 1;
        }
        self.pending = items;
    }
}

/// The state of a listing on the public API after the given pages have
/// arrived in turn, each after the entities of the one before were handed
/// out.
pub open spec fn served<T>(total: usize, pages: Seq<Seq<T>>) -> ListerView<T>
    decreases pages.len(),
{
    if pages.len() == 0 {
        ListerView::initial()
    } else {
        served(total, pages.drop_last()).drained().after_page(pages.last(), total)
    }
}

/// The number of entities that a listing asks for per page.
pub const PAGE_SIZE: u64 = 100;

/// The size of a full page, which is [`PAGE_SIZE`].
pub open spec fn full_page() -> nat {
    100
}

/// A full page holds as many entities as a listing asks for.
pub proof fn lemma_full_page()
    ensures
        full_page() == PAGE_SIZE,
{
}

/// While full pages arrive and the total is not reached, the listing goes
/// on: after `n` such pages it has received `100 * n` entities and asks for
/// page `n + 1`.
pub proof fn lemma_listing_continues<T>(total: usize, pages: Seq<Seq<T>>)
    requires
        forall|i: int| 0 <= i < pages.len() ==> (#[trigger] pages[i]).len() == full_page(),
        full_page() * pages.len() < total,
    ensures
        served(total, pages).page == pages.len() + 1,
        served(total, pages).received == full_page() * pages.len(),
        !served(total, pages).finished,
    decreases pages.len(),
{
    if pages.len() > 0 {
        let before = pages.drop_last();
        assert forall|i: int| 0 <= i < before.len() implies (#[trigger] before[i]).len()
            == full_page() by {
            assert(before[i] == pages[i]);
        }
        lemma_listing_continues(total, before);
    }
}

/// A listing of `total` entities, more than none, issues exactly as many
/// requests as there are pages of 100 in the total, the last of which may be
/// short: it continues after every full page before the last, and after the
/// last page it has received all `total` entities, is finished, and has asked
/// for no page beyond it.
pub proof fn lemma_listing_terminates<T>(total: usize, pages: Seq<Seq<T>>)
    requires
        pages.len() > 0,
        forall|i: int| 0 <= i < pages.len() - 1 ==> (#[trigger] pages[i]).len() == full_page(),
        full_page() * (pages.len() - 1) < total,
        pages.last().len() == total - full_page() * (pages.len() - 1),
    ensures
        served(total, pages).finished,
        served(total, pages).received == total,
        served(total, pages).page == pages.len(),
        served(total, pages).pending == pages.last(),
        !served(total, pages.drop_last()).finished,
{
    let before = pages.drop_last();
    assert forall|i: int| 0 <= i < before.len() implies (#[trigger] before[i]).len()
        == full_page() by {
        assert(before[i] == pages[i]);
    }
    lemma_listing_continues(total, before);
}

/// A consumer gets the entities of a page in the order of the page: with
/// `n` entities pending, the next step hands out the first of them, asks for
/// no page, and leaves the rest pending.
pub proof fn lemma_pending_before_fetch<T>(state: ListerView<T>)
    requires
        state.pending.len() > 0,
    ensures
        state.step() == Step::Yield(state.pending[0]),
        state.after_step().pending == state.pending.drop_first(),
        state.after_step().page == state.page,
{
}

/// The state after this many steps in a row.
pub open spec fn after_steps<T>(state: ListerView<T>, steps: nat) -> ListerView<T>
    decreases steps,
{
    if steps == 0 {
        state
    } else {
        after_steps(state.after_step(), (steps - 1) as nat)
    }
}

/// The entities of a page are handed out in the order of the page: the step
/// after `i` steps hands out the entity at position `i`, and until then no
/// page is asked for.
pub proof fn lemma_page_is_handed_out_in_order<T>(state: ListerView<T>, i: nat)
    requires
        i < state.pending.len(),
    ensures
        after_steps(state, i).step() == Step::Yield(state.pending[i as int]),
        after_steps(state, i).page == state.page,
        after_steps(state, i).received == state.received,
    decreases i,
{
    if i > 0 {
        let next = state.after_step();
        assert(next.pending[i - 1] == state.pending[i as int]);
        lemma_page_is_handed_out_in_order(next, (i - 1) as nat);
    }
}

/// Once every entity of a page has been handed out, nothing is pending and
/// nothing else has changed.
pub proof fn lemma_page_is_handed_out_whole<T>(state: ListerView<T>)
    ensures
        after_steps(state, state.pending.len()) == state.drained(),
    decreases state.pending.len(),
{
    if state.pending.len() > 0 {
        let next = state.after_step();
        lemma_page_is_handed_out_whole(next);
        assert(next.drained() == state.drained());
    } else {
        assert(state.pending =~= Seq::empty());
    }
}

} // verus!

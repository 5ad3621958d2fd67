use vstd::prelude::*;

use crate::error::Error;
use crate::pagination::{
    exhausted, flatten, last_cursor, page_request, Page, PagerView, Paginator, Step, StepView,
};
use crate::request::RequestView;

verus! {

/// A customer as embedded in another record: either the full customer, or
/// the placeholder the server sends for a customer that no longer exists.
pub enum CustomerResponse<C> {
    Normal(C),
    Deleted { id: String, deleted: bool },
}

/// What becomes of a record whose embedded customer was reconciled.
pub enum Reconciled<C> {
    /// The record is kept, with this customer.
    Keep(C),
    /// The record is dropped: its customer was deleted.
    Skip,
    /// The payload is inconsistent; the listing ends with this error.
    Reject(Error),
}

/// The detail of the error for a deleted placeholder whose `deleted` flag is
/// false.
pub open spec fn deleted_shape_detail(id: Seq<char>) -> Seq<char> {
    "customer "@ + id + " used deleted response shape but deleted field was `false`"@
}

/// Resolves an embedded customer: a full customer is kept, a confirmed
/// deletion drops the record, and a placeholder not marked deleted is an
/// `UnexpectedResponse` error naming the customer.
pub fn reconcile_customer<C>(customer: CustomerResponse<C>) -> (r: Reconciled<C>)
    ensures
        match customer {
            CustomerResponse::Normal(c) => r == Reconciled::Keep(c),
            CustomerResponse::Deleted { id, deleted } => if deleted {
                r is Skip
            } else {
                r matches Reconciled::Reject(Error::UnexpectedResponse { detail }) && detail@
                    == deleted_shape_detail(id@)
            },
        },
{
    match customer {
        CustomerResponse::Normal(c) => Reconciled::Keep(c),
        CustomerResponse::Deleted { id, deleted } => {
            if deleted {
                Reconciled::Skip
            } else {
                let detail = String::from_str("customer ").concat(id.as_str()).concat(
                    " used deleted response shape but deleted field was `false`",
                );
                Reconciled::Reject(Error::UnexpectedResponse { detail })
            }
        },
    }
}

/// The records of `items` whose customer is a full customer, in order, each
/// paired with that customer.
pub open spec fn kept<R, C>(items: Seq<(R, CustomerResponse<C>)>) -> Seq<(R, C)>
    decreases items.len(),
{
    if items.len() == 0 {
        Seq::empty()
    } else {
        let rest = kept(items.drop_last());
        match items.last().1 {
            CustomerResponse::Normal(c) => rest.push((items.last().0, c)),
            _ => rest,
        }
    }
}

/// The step of a reconciling listing, as a model.
pub enum ReconciledStep<R, C> {
    Item((R, C)),
    Fetch(RequestView),
    Failed(Error),
    /// A placeholder not marked deleted, for the customer with this id.
    Rejected(Seq<char>),
    End,
}

/// The step a reconciling listing takes from the state `s` of its pages, and
/// the state of the pages after it: deleted records are passed over, and an
/// inconsistent one stops the listing.
pub open spec fn reconciled_next<R, C>(s: PagerView<(R, CustomerResponse<C>)>) -> (
    ReconciledStep<R, C>,
    PagerView<(R, CustomerResponse<C>)>,
)
    decreases s.pending.len(),
{
    if s.error is Some {
        (ReconciledStep::Failed(s.error->0), s.after_next())
    } else if s.stopped {
        (ReconciledStep::End, s)
    } else if s.pending.len() > 0 {
        let x = s.pending[0];
        match x.1 {
            CustomerResponse::Normal(c) => (ReconciledStep::Item((x.0, c)), s.after_next()),
            CustomerResponse::Deleted { id, deleted } => if deleted {
                reconciled_next(s.after_next())
            } else {
                (ReconciledStep::Rejected(id@), s.after_next().after_halt())
            },
        }
    } else if exhausted(s.pages) {
        (ReconciledStep::End, s)
    } else {
        (ReconciledStep::Fetch(page_request(s.base, last_cursor(s.pages))), s)
    }
}

/// The abstract state of a reconciling listing.
pub struct ReconcilingView<R, C> {
    /// The listing of raw records.
    pub pages: PagerView<(R, CustomerResponse<C>)>,
    /// The records handed out, with their customers.
    pub out: Seq<(R, C)>,
}

impl<R, C> ReconcilingView<R, C> {
    pub open spec fn wf(self) -> bool {
        &&& self.pages.wf()
        &&& self.out == kept(self.pages.yielded)
    }
}

/// A listing of records that embed a customer (subscriptions, for
/// instance): records whose customer was deleted are left out, and an
/// inconsistent placeholder ends the listing with an error.
pub struct ReconcilingPaginator<R, C> {
    pages: Paginator<(R, CustomerResponse<C>)>,
    out: Ghost<Seq<(R, C)>>,
}

impl<R, C> View for ReconcilingPaginator<R, C> {
    type V = ReconcilingView<R, C>;

    closed spec fn view(&self) -> ReconcilingView<R, C> {
        ReconcilingView { pages: self.pages@, out: self.out@ }
    }
}

proof fn lemma_kept_push<R, C>(items: Seq<(R, CustomerResponse<C>)>, x: (R, CustomerResponse<C>))
    ensures
        kept(items.push(x)) == match x.1 {
            CustomerResponse::Normal(c) => kept(items).push((x.0, c)),
            _ => kept(items),
        },
{
    assert(items.push(x).drop_last() =~= items);
}

impl<R, C> ReconcilingPaginator<R, C> {
    pub closed spec fn wf(&self) -> bool {
        &&& self.pages.wf()
        &&& self@.wf()
    }

    /// A reconciling listing over the raw listing `pages`, which has handed
    /// out nothing yet.
    pub fn new(pages: Paginator<(R, CustomerResponse<C>)>) -> (r: ReconcilingPaginator<R, C>)
        requires
            pages.wf(),
            pages@.yielded.len() == 0,
        ensures
            r.wf(),
            r@.pages == pages@,
            r@.out.len() == 0,
    {
        proof {
            pages.lemma_model_wf();
            assert(kept(pages@.yielded) =~= Seq::<(R, C)>::empty());
        }
        ReconcilingPaginator { pages, out: Ghost(Seq::empty()) }
    }

    /// Whether the listing waits for a page.
    pub fn wants_page(&self) -> (r: bool)
        requires
            self.wf(),
        ensures
            r == self@.pages.wants_page(),
    {
        self.pages.wants_page()
    }

    /// The next step: the next record whose customer exists, with that
    /// customer; or a page request, an error, or the end.
    pub fn next(&mut self) -> (r: Step<(R, C)>)
        requires
            old(self).wf(),
        ensures
            final(self).wf(),
            final(self)@.pages == reconciled_next(old(self)@.pages).1,
            match reconciled_next(old(self)@.pages).0 {
                ReconciledStep::Item(x) => r@ == StepView::Item(x),
                ReconciledStep::Fetch(q) => r@ == StepView::<(R, C)>::Fetch(q),
                ReconciledStep::Failed(e) => r@ == StepView::<(R, C)>::Failed(e),
                ReconciledStep::Rejected(id) => r matches Step::Failed(
                    Error::UnexpectedResponse { detail },
                ) && detail@ == deleted_shape_detail(id),
                ReconciledStep::End => r is End,
            },
    {
        loop
            invariant
                self.wf(),
                reconciled_next(self@.pages) == reconciled_next(old(self)@.pages),
            decreases self@.pages.pending.len(),
        {
            let ghost s = self@.pages;
            let step = self.pages.next();
            proof {
                if s.error is None && !s.stopped && s.pending.len() > 0 {
                    lemma_kept_push(s.yielded, s.pending[0]);
                }
            }
            match step {
                Step::Item(x) => {
                    let (record, customer) = x;
                    match reconcile_customer(customer) {
                        Reconciled::Keep(c) => {
                            proof {
                                self.out@ = self.out@.push((record, c));
                            }
                            return Step::Item((record, c));
                        },
                        Reconciled::Skip => {},
                        Reconciled::Reject(e) => {
                            self.pages.halt();
                            return Step::Failed(e);
                        },
                    }
                },
                Step::Fetch(q) => {
                    return Step::Fetch(q);
                },
                Step::Failed(e) => {
                    return Step::Failed(e);
                },
                Step::End => {
                    return Step::End;
                },
            }
        }
    }

    /// Hands the listing the outcome of the request of the last `Fetch`.
    pub fn deliver(&mut self, outcome: Result<Page<(R, CustomerResponse<C>)>, Error>)
        requires
            old(self).wf(),
            old(self)@.pages.wants_page(),
        ensures
            final(self).wf(),
            final(self)@.out == old(self)@.out,
            final(self)@.pages == (match outcome {
                Ok(p) => old(self)@.pages.after_page(p@),
                Err(e) => old(self)@.pages.after_failure(e),
            }),
    {
        self.pages.deliver(outcome);
    }
}

proof fn lemma_kept_append<R, C>(a: Seq<(R, CustomerResponse<C>)>, b: Seq<(R, CustomerResponse<C>)>)
    ensures
        kept(a + b) == kept(a) + kept(b),
    decreases b.len(),
{
    if b.len() == 0 {
        assert(a + b =~= a);
        assert(kept(a) + kept(b) =~= kept(a));
    } else {
        lemma_kept_append(a, b.drop_last());
        assert((a + b).drop_last() =~= a + b.drop_last());
        assert((a + b).last() == b.last());
        match b.last().1 {
            CustomerResponse::Normal(c) => {
                assert(kept(a) + kept(b) =~= (kept(a) + kept(b.drop_last())).push((b.last().0, c)));
            },
            _ => {},
        }
    }
}

/// A record whose customer is a confirmed deletion never reaches the
/// output: it contributes nothing to what is kept around it.
pub proof fn lemma_deleted_dropped<R, C>(
    before: Seq<(R, CustomerResponse<C>)>,
    record: R,
    id: String,
    after: Seq<(R, CustomerResponse<C>)>,
)
    ensures
        kept(before + seq![(record, CustomerResponse::Deleted { id, deleted: true })] + after)
            == kept(before) + kept(after),
{
    let x = (record, CustomerResponse::<C>::Deleted { id, deleted: true });
    lemma_kept_append(before + seq![x], after);
    lemma_kept_append(before, seq![x]);
    lemma_kept_push(Seq::<(R, CustomerResponse<C>)>::empty(), x);
    assert(Seq::<(R, CustomerResponse<C>)>::empty().push(x) =~= seq![x]);
    assert(kept(Seq::<(R, CustomerResponse<C>)>::empty()) =~= Seq::<(R, C)>::empty());
    assert(kept(before) + kept(seq![x]) =~= kept(before));
}

/// A placeholder whose `deleted` flag is false, when it is the next record,
/// ends the listing: the step reports an `UnexpectedResponse` for its id, and
/// nothing follows.
pub proof fn lemma_inconsistent_rejected<R, C>(s: PagerView<(R, CustomerResponse<C>)>, id: String)
    requires
        s.wf(),
        s.error is None,
        !s.stopped,
        s.pending.len() > 0,
        s.pending[0].1 == (CustomerResponse::<C>::Deleted { id, deleted: false }),
    ensures
        reconciled_next(s).0 == ReconciledStep::<R, C>::Rejected(id@),
        (reconciled_next(reconciled_next(s).1).0 is End),
{
}

/// The output of a reconciling listing is, in server order, the records of
/// all pages received whose customer exists; once the listing has ended
/// cleanly, it is exactly those of every page.
pub proof fn lemma_reconciled_order<R, C>(v: ReconcilingView<R, C>)
    requires
        v.wf(),
    ensures
        kept(v.pages.yielded + v.pages.pending) == kept(flatten(v.pages.pages)),
        v.out + kept(v.pages.pending) == kept(flatten(v.pages.pages)),
        v.pages.error is None && !v.pages.stopped && v.pages.next_step() is End ==> v.out == kept(
            flatten(v.pages.pages),
        ),
{
    lemma_kept_append(v.pages.yielded, v.pages.pending);
    if v.pages.pending.len() == 0 {
        assert(kept(v.pages.pending) =~= Seq::<(R, C)>::empty());
        assert(v.out + kept(v.pages.pending) =~= v.out);
    }
}

} // verus!

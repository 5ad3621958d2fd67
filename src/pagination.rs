use vstd::prelude::*;

use std::collections::VecDeque;

use crate::error::{is_transient_spec, Error};
use crate::request::{decimal, decimal_string, Request, RequestView};

verus! {

/// How many times one page is requested before a transient failure ends
/// the listing.
pub const MAX_PAGE_ATTEMPTS: u32 = 3;

/// The page size used when none is given.
pub const DEFAULT_PAGE_SIZE: u64 = 20;

/// Parameters common to every list operation.
#[derive(Clone, Copy, Debug)]
pub struct ListParams {
    pub page_size: u64,
}

impl ListParams {
    /// Sets the number of items requested per page. The server caps it at
    /// its own maximum.
    pub fn page_size(self, page_size: u64) -> (r: ListParams)
        ensures
            r.page_size == page_size,
    {
        ListParams { page_size }
    }
}

impl Default for ListParams {
    fn default() -> (r: ListParams)
        ensures
            r.page_size == DEFAULT_PAGE_SIZE,
    {
        ListParams { page_size: DEFAULT_PAGE_SIZE }
    }
}

/// One decoded page envelope: its items and the cursor of the next page.
pub struct Page<T> {
    pub data: Vec<T>,
    pub next_cursor: Option<String>,
}

pub struct PageView<T> {
    pub data: Seq<T>,
    pub next_cursor: Option<Seq<char>>,
}

pub open spec fn opt_view(o: Option<String>) -> Option<Seq<char>> {
    match o {
        Some(s) => Some(s@),
        None => None,
    }
}

impl<T> View for Page<T> {
    type V = PageView<T>;

    open spec fn view(&self) -> PageView<T> {
        PageView { data: self.data@, next_cursor: opt_view(self.next_cursor) }
    }
}

/// What a listing asks of its driver next.
pub enum Step<T> {
    /// The next item, in server order.
    Item(T),
    /// Send this request and hand the outcome to `deliver`.
    Fetch(Request),
    /// The listing failed; it ends after this.
    Failed(Error),
    /// The listing ended cleanly.
    End,
}

pub enum StepView<T> {
    Item(T),
    Fetch(RequestView),
    Failed(Error),
    End,
}

impl<T> View for Step<T> {
    type V = StepView<T>;

    open spec fn view(&self) -> StepView<T> {
        match self {
            Step::Item(x) => StepView::Item(*x),
            Step::Fetch(r) => StepView::Fetch(r@),
            Step::Failed(e) => StepView::Failed(*e),
            Step::End => StepView::End,
        }
    }
}

/// The abstract state of a listing.
pub struct PagerView<T> {
    /// The request every page request is built from.
    pub base: RequestView,
    /// The pages received so far, in order.
    pub pages: Seq<PageView<T>>,
    /// The items handed out so far, in order.
    pub yielded: Seq<T>,
    /// The items of the last page not yet handed out.
    pub pending: Seq<T>,
    /// Failed attempts at the page now wanted.
    pub attempts: nat,
    /// A terminal error not yet reported.
    pub error: Option<Error>,
    /// Whether the listing has stopped on an error.
    pub stopped: bool,
}

/// All items of `pages`, page after page.
pub open spec fn flatten<T>(pages: Seq<PageView<T>>) -> Seq<T>
    decreases pages.len(),
{
    if pages.len() == 0 {
        Seq::empty()
    } else {
        flatten(pages.drop_last()) + pages.last().data
    }
}

/// The cursor returned by the last page received, if any.
pub open spec fn last_cursor<T>(pages: Seq<PageView<T>>) -> Option<Seq<char>> {
    if pages.len() == 0 {
        None
    } else {
        pages.last().next_cursor
    }
}

/// Whether the last page received had no next cursor.
pub open spec fn exhausted<T>(pages: Seq<PageView<T>>) -> bool {
    pages.len() > 0 && pages.last().next_cursor is None
}

/// The request for the page at `cursor`: the base request, plus the cursor
/// parameter, byte for byte, when there is one.
pub open spec fn page_request(base: RequestView, cursor: Option<Seq<char>>) -> RequestView {
    match cursor {
        Some(c) => RequestView { query: base.query.push(("cursor"@, c)), ..base },
        None => base,
    }
}

/// The base request of a listing: the endpoint request plus the page size.
pub open spec fn with_page_size(base: RequestView, page_size: u64) -> RequestView {
    RequestView { query: base.query.push(("limit"@, decimal(page_size as nat))), ..base }
}

impl<T> PagerView<T> {
    pub open spec fn wf(self) -> bool {
        &&& flatten(self.pages) == self.yielded + self.pending
        &&& (self.stopped || self.attempts < MAX_PAGE_ATTEMPTS)
        &&& (self.error is Some ==> self.stopped)
    }

    /// Whether the next step is a page request.
    pub open spec fn wants_page(self) -> bool {
        &&& self.error is None
        &&& !self.stopped
        &&& self.pending.len() == 0
        &&& !exhausted(self.pages)
    }

    /// The step `next` returns in this state.
    pub open spec fn next_step(self) -> StepView<T> {
        if self.error is Some {
            StepView::Failed(self.error->0)
        } else if self.stopped {
            StepView::End
        } else if self.pending.len() > 0 {
            StepView::Item(self.pending[0])
        } else if exhausted(self.pages) {
            StepView::End
        } else {
            StepView::Fetch(page_request(self.base, last_cursor(self.pages)))
        }
    }

    /// The state after `next`.
    pub open spec fn after_next(self) -> PagerView<T> {
        if self.error is Some {
            PagerView { error: None, ..self }
        } else if self.stopped {
            self
        } else if self.pending.len() > 0 {
            PagerView {
                yielded: self.yielded.push(self.pending[0]),
                pending: self.pending.drop_first(),
                ..self
            }
        } else {
            self
        }
    }

    /// The state after a page arrives.
    pub open spec fn after_page(self, p: PageView<T>) -> PagerView<T> {
        PagerView { pages: self.pages.push(p), pending: p.data, attempts: 0, ..self }
    }

    /// The state after a page request fails: a transient failure is retried
    /// while attempts remain; anything else stops the listing.
    pub open spec fn after_failure(self, e: Error) -> PagerView<T> {
        if is_transient_spec(e) && self.attempts + 1 < MAX_PAGE_ATTEMPTS {
            PagerView { attempts: self.attempts + 1, ..self }
        } else {
            PagerView { attempts: self.attempts + 1, error: Some(e), stopped: true, ..self }
        }
    }

    /// The state after the listing is stopped from outside.
    pub open spec fn after_halt(self) -> PagerView<T> {
        PagerView { stopped: true, ..self }
    }

    /// The state after `n` calls of `next`.
    pub open spec fn after_nexts(self, n: nat) -> PagerView<T>
        decreases n,
    {
        if n == 0 {
            self
        } else {
            self.after_next().after_nexts((n - 1) as nat)
        }
    }

    /// The state after `n` failed page requests, each failing with `e`.
    pub open spec fn after_failures(self, e: Error, n: nat) -> PagerView<T>
        decreases n,
    {
        if n == 0 {
            self
        } else {
            self.after_failures(e, (n - 1) as nat).after_failure(e)
        }
    }
}

proof fn lemma_flatten_push<T>(pages: Seq<PageView<T>>, p: PageView<T>)
    ensures
        flatten(pages.push(p)) == flatten(pages) + p.data,
{
    assert(pages.push(p).drop_last() =~= pages);
}

proof fn lemma_next_wf<T>(s: PagerView<T>)
    requires
        s.wf(),
    ensures
        s.after_next().wf(),
{
    if s.error is None && !s.stopped && s.pending.len() > 0 {
        assert(s.yielded + s.pending =~= s.yielded.push(s.pending[0]) + s.pending.drop_first());
    }
}

/// Every transition keeps the state well formed.
pub proof fn lemma_wf_preserved<T>(s: PagerView<T>, p: PageView<T>, e: Error)
    requires
        s.wf(),
    ensures
        s.after_next().wf(),
        s.wants_page() ==> s.after_page(p).wf(),
        s.after_failure(e).wf(),
        s.after_halt().wf(),
{
    lemma_next_wf(s);
    if s.wants_page() {
        lemma_flatten_push(s.pages, p);
        assert(s.pending =~= Seq::<T>::empty());
        assert(s.yielded + s.pending =~= s.yielded);
    }
}

/// Each page request carries, verbatim, the cursor that the previous page
/// returned, and the first carries none.
pub proof fn lemma_cursor_fidelity<T>(s: PagerView<T>)
    requires
        s.wf(),
        s.next_step() is Fetch,
    ensures
        s.next_step() == StepView::<T>::Fetch(
            page_request(
                s.base,
                if s.pages.len() == 0 {
                    None
                } else {
                    s.pages[s.pages.len() - 1].next_cursor
                },
            ),
        ),
        s.pages.len() > 0 ==> s.pages[s.pages.len() - 1].next_cursor is Some,
{
}

/// Items come out in server order: what has been handed out, followed by
/// what is pending, is every page's data concatenated in order; once a
/// listing has ended cleanly, what was handed out is exactly that.
pub proof fn lemma_order<T>(s: PagerView<T>)
    requires
        s.wf(),
    ensures
        s.yielded + s.pending == flatten(s.pages),
        s.error is None && !s.stopped && s.next_step() is End ==> s.yielded == flatten(s.pages),
{
    if s.error is None && !s.stopped && s.next_step() is End {
        assert(s.yielded + s.pending =~= s.yielded);
    }
}

/// Once a page without a next cursor has arrived, no further page is
/// requested: `next` hands out the pending items, one per call, and then
/// reports the end, with no fetch in between.
pub proof fn lemma_termination<T>(s: PagerView<T>, n: nat)
    requires
        s.wf(),
        exhausted(s.pages),
        s.error is None,
        !s.stopped,
    ensures
        n <= s.pending.len() ==> s.after_nexts(n).yielded == s.yielded + s.pending.take(n as int),
        n < s.pending.len() ==> s.after_nexts(n).next_step() == StepView::Item(s.pending[n as int]),
        n >= s.pending.len() ==> s.after_nexts(n).next_step() is End,
        !(s.after_nexts(n).next_step() is Fetch),
        s.after_nexts(n).pages == s.pages,
    decreases n,
{
    if n == 0 {
        assert(s.pending.take(0) =~= Seq::<T>::empty());
        assert(s.yielded + s.pending.take(0) =~= s.yielded);
    } else {
        let t = s.after_next();
        lemma_next_wf(s);
        lemma_termination(t, (n - 1) as nat);
        if s.pending.len() > 0 {
            if n <= s.pending.len() {
                assert(s.yielded + s.pending.take(n as int) =~= s.yielded.push(s.pending[0])
                    + s.pending.drop_first().take((n - 1) as int));
            }
            if n < s.pending.len() {
                assert(s.pending.drop_first()[(n - 1) as int] == s.pending[n as int]);
            }
        } else {
            assert(t == s);
        }
    }
}

proof fn lemma_failures_count<T>(s: PagerView<T>, e: Error, k: nat)
    requires
        s.wants_page(),
        s.attempts == 0,
        is_transient_spec(e),
        k < MAX_PAGE_ATTEMPTS,
    ensures
        s.after_failures(e, k) == (PagerView { attempts: k, ..s }),
    decreases k,
{
    if k > 0 {
        lemma_failures_count(s, e, (k - 1) as nat);
    }
}

/// A transient failure of a page request is retried with the very same
/// request while fewer than `MAX_PAGE_ATTEMPTS` attempts have failed, and a
/// page that then arrives is taken exactly as if no attempt had failed. When
/// the last allowed attempt fails, the listing reports that failure and ends.
pub proof fn lemma_retry_budget<T>(s: PagerView<T>, e: Error, k: nat, p: PageView<T>)
    requires
        s.wf(),
        s.wants_page(),
        s.attempts == 0,
        is_transient_spec(e),
        k <= MAX_PAGE_ATTEMPTS,
    ensures
        k < MAX_PAGE_ATTEMPTS ==> {
            &&& s.after_failures(e, k).wants_page()
            &&& s.after_failures(e, k).next_step() == s.next_step()
            &&& s.after_failures(e, k).after_page(p) == s.after_page(p)
        },
        k == MAX_PAGE_ATTEMPTS ==> {
            &&& s.after_failures(e, k).next_step() == StepView::<T>::Failed(e)
            &&& s.after_failures(e, k).after_next().next_step() is End
        },
{
    if k < MAX_PAGE_ATTEMPTS {
        lemma_failures_count(s, e, k);
    } else {
        lemma_failures_count(s, e, (k - 1) as nat);
    }
}

/// A lazy listing over pages: a state machine that its driver pulls with
/// `next`, answering each `Fetch` with `deliver`. It holds no task of its own,
/// so a driver that stops pulling issues no further request.
pub struct Paginator<T> {
    base: Request,
    cursor: Option<String>,
    exhausted: bool,
    pending: VecDeque<T>,
    attempts: u32,
    error: Option<Error>,
    stopped: bool,
    pages: Ghost<Seq<PageView<T>>>,
    yielded: Ghost<Seq<T>>,
}

impl<T> View for Paginator<T> {
    type V = PagerView<T>;

    closed spec fn view(&self) -> PagerView<T> {
        PagerView {
            base: self.base@,
            pages: self.pages@,
            yielded: self.yielded@,
            pending: self.pending@,
            attempts: self.attempts as nat,
            error: self.error,
            stopped: self.stopped,
        }
    }
}

fn copy_cursor(c: &Option<String>) -> (r: Option<String>)
    ensures
        opt_view(r) == opt_view(*c),
{
    match c {
        Some(s) => Some(s.clone()),
        None => None,
    }
}

impl<T> Paginator<T> {
    /// Internal consistency, and the model's well-formedness.
    pub closed spec fn wf(&self) -> bool {
        &&& opt_view(self.cursor) == last_cursor(self.pages@)
        &&& self.exhausted == exhausted(self.pages@)
        &&& self@.wf()
    }

    /// A listing whose page requests are `base` with the page size of
    /// `params`, and no page fetched yet.
    pub fn new(base: Request, params: &ListParams) -> (r: Paginator<T>)
        ensures
            r.wf(),
            r@.wf(),
            r@ == (PagerView::<T> {
                base: with_page_size(base@, params.page_size),
                pages: Seq::empty(),
                yielded: Seq::empty(),
                pending: Seq::empty(),
                attempts: 0,
                error: None,
                stopped: false,
            }),
    {
        let size = decimal_string(params.page_size);
        let base = base.query("limit", size.as_str());
        proof {
            reveal_strlit("limit");
        }
        Paginator {
            base,
            cursor: None,
            exhausted: false,
            pending: VecDeque::new(),
            attempts: 0,
            error: None,
            stopped: false,
            pages: Ghost(Seq::empty()),
            yielded: Ghost(Seq::empty()),
        }
    }

    /// A consistent listing has a well-formed model.
    pub proof fn lemma_model_wf(&self)
        requires
            self.wf(),
        ensures
            self@.wf(),
    {
    }

    /// Whether the listing waits for a page (the last step was a `Fetch`).
    pub fn wants_page(&self) -> (r: bool)
        requires
            self.wf(),
        ensures
            r == self@.wants_page(),
    {
        self.error.is_none() && !self.stopped && self.pending.len() == 0 && !self.exhausted
    }

    /// The request for the page now wanted.
    fn page_request(&self) -> (r: Request)
        requires
            self.wf(),
        ensures
            r@ == page_request(self@.base, last_cursor(self@.pages)),
    {
        let req = self.base.duplicate();
        match &self.cursor {
            Some(c) => req.query("cursor", c.as_str()),
            None => req,
        }
    }

    /// The next step: a pending item, in order; else a request for the next
    /// page, unless the last page had no next cursor; a terminal error is
    /// reported once, and the listing then ends.
    pub fn next(&mut self) -> (r: Step<T>)
        requires
            old(self).wf(),
        ensures
            final(self).wf(),
            final(self)@.wf(),
            r@ == old(self)@.next_step(),
            final(self)@ == old(self)@.after_next(),
    {
        proof {
            lemma_wf_preserved(self@, PageView { data: Seq::empty(), next_cursor: None }, arbitrary());
        }
        if self.error.is_some() {
            let e = self.error.take();
            return match e {
                Some(e) => Step::Failed(e),
                None => Step::End,
            };
        }
        if self.stopped {
            return Step::End;
        }
        match self.pending.pop_front() {
            Some(x) => {
                proof {
                    self.yielded@ = self.yielded@.push(x);
                }
                Step::Item(x)
            },
            None => {
                if self.exhausted {
                    Step::End
                } else {
                    Step::Fetch(self.page_request())
                }
            },
        }
    }

    /// Hands the listing the outcome of the request of the last `Fetch`:
    /// a page replaces the pending items and moves the cursor on; a failure
    /// is retried (by a further `Fetch` of the same request) when it is
    /// transient and attempts remain, and otherwise ends the listing.
    pub fn deliver(&mut self, outcome: Result<Page<T>, Error>)
        requires
            old(self).wf(),
            old(self)@.wants_page(),
        ensures
            final(self).wf(),
            final(self)@.wf(),
            final(self)@ == (match outcome {
                Ok(p) => old(self)@.after_page(p@),
                Err(e) => old(self)@.after_failure(e),
            }),
    {
        match outcome {
            Ok(page) => {
                proof {
                    lemma_wf_preserved(self@, page@, arbitrary());
                }
                let Page { data, next_cursor } = page;
                let ghost data_view = data@;
                let ghost cursor_view = opt_view(next_cursor);
                let mut data = data;
                let mut pending: VecDeque<T> = VecDeque::new();
                while data.len() > 0
                    invariant
                        data_view == data@ + pending@,
                    decreases data.len(),
                {
                    let ghost before = data@;
                    match data.pop() {
                        Some(x) => {
                            pending.push_front(x);
                            proof {
                                assert(before =~= data@.push(x));
                                assert(data@.push(x) + pending@.drop_first() =~= data@ + pending@);
                            }
                        },
                        None => {},
                    }
                }
                proof {
                    assert(data_view =~= pending@);
                    self.pages@ = self.pages@.push(PageView { data: data_view, next_cursor: cursor_view });
                }
                self.exhausted = next_cursor.is_none();
                self.cursor = next_cursor;
                self.pending = pending;
                self.attempts = 0;
            },
            Err(e) => {
                proof {
                    lemma_wf_preserved(self@, PageView { data: Seq::empty(), next_cursor: None }, e);
                }
                if e.is_transient() && self.attempts + 1 < MAX_PAGE_ATTEMPTS {
                    self.attempts = self.attempts + 1;
                } else {
                    self.attempts = self.attempts + 1;
                    self.error = Some(e);
                    self.stopped = true;
                }
            },
        }
    }

    /// Ends the listing from outside: no further item or request follows.
    pub fn halt(&mut self)
        requires
            old(self).wf(),
        ensures
            final(self).wf(),
            final(self)@.wf(),
            final(self)@ == old(self)@.after_halt(),
    {
        proof {
            lemma_wf_preserved(self@, PageView { data: Seq::empty(), next_cursor: None }, arbitrary());
        }
        self.stopped = true;
    }
}

} // verus!

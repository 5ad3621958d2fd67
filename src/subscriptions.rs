use vstd::prelude::*;

use crate::alerts::{fresh_listing, with_body, with_optional_query};
use crate::customers::CustomerId;
use crate::error::Error;
use crate::invoices::with_customer_query;
use crate::pagination::{ListParams, Paginator, DEFAULT_PAGE_SIZE};
use crate::reconcile::{CustomerResponse, ReconcilingPaginator};
use crate::request::{views, Client, Method, Request, RequestView};

verus! {

/// Options for billing cycle alignment during a plan change.
#[derive(Clone, Copy, Debug, PartialEq, Eq, Hash, Structural)]
pub enum BillingCycleAlignment {
    /// Keeps the subscription's existing billing cycle alignment.
    Unchanged,
    /// Aligns billing periods with the plan change's effective date.
    PlanChangeDate,
    /// Aligns billing periods with the start of the month.
    StartOfMonth,
}

impl Default for BillingCycleAlignment {
    fn default() -> (r: BillingCycleAlignment)
        ensures
            r == BillingCycleAlignment::Unchanged,
    {
        BillingCycleAlignment::Unchanged
    }
}

/// Options for when a plan transition should take place.
#[derive(Clone, Copy, Debug, PartialEq, Eq, Hash, Structural)]
pub enum ChangeOption {
    /// Changes the plan on a requested date.
    RequestedDate,
    /// Changes the plan at the end of the existing plan's term.
    EndOfSubscriptionTerm,
    /// Changes the plan immediately.
    Immediate,
}

impl Default for ChangeOption {
    fn default() -> (r: ChangeOption)
        ensures
            r == ChangeOption::Immediate,
    {
        ChangeOption::Immediate
    }
}

/// The status of a subscription.
#[non_exhaustive]
#[derive(Clone, Debug, PartialEq, Eq, Hash)]
pub enum SubscriptionStatus {
    /// An active subscription.
    Active,
    /// A subscription that has ended.
    Ended,
    /// A subscription that has not yet started.
    Upcoming,
    /// A status this library does not know.
    Other(String),
}

/// A request to update a subscription.
#[derive(Clone, Copy, Debug, PartialEq, Eq, Hash)]
pub struct UpdateSubscriptionRequest<'a> {
    /// When this subscription's accrued usage reaches this threshold, an
    /// invoice is issued for the subscription.
    pub invoicing_threshold: Option<&'a str>,
}

/// Parameters for a subscription list operation.
#[derive(Clone, Copy, Debug)]
pub struct SubscriptionListParams<'a> {
    inner: ListParams,
    customer_id_filter: Option<CustomerId<'a>>,
    status_filter: Option<&'a str>,
}

impl<'a> SubscriptionListParams<'a> {
    /// The page size.
    pub closed spec fn page_size_spec(&self) -> u64 {
        self.inner.page_size
    }

    /// The customer filter, if any.
    pub closed spec fn customer_filter_spec(&self) -> Option<CustomerId<'a>> {
        self.customer_id_filter
    }

    /// The status filter, if any.
    pub closed spec fn status_filter_spec(&self) -> Option<Seq<char>> {
        match self.status_filter {
            Some(s) => Some(s@),
            None => None,
        }
    }

    /// Sets the page size for the list operation.
    pub fn page_size(self, page_size: u64) -> (r: SubscriptionListParams<'a>)
        ensures
            r.page_size_spec() == page_size,
            r.customer_filter_spec() == self.customer_filter_spec(),
            r.status_filter_spec() == self.status_filter_spec(),
    {
        SubscriptionListParams { inner: self.inner.page_size(page_size), ..self }
    }

    /// Filters the listing to the specified customer ID.
    pub fn customer_id(self, filter: CustomerId<'a>) -> (r: SubscriptionListParams<'a>)
        ensures
            r.page_size_spec() == self.page_size_spec(),
            r.customer_filter_spec() == Some(filter),
            r.status_filter_spec() == self.status_filter_spec(),
    {
        SubscriptionListParams { customer_id_filter: Some(filter), ..self }
    }

    /// Filters the listing by status.
    pub fn status(self, filter: &'a str) -> (r: SubscriptionListParams<'a>)
        ensures
            r.page_size_spec() == self.page_size_spec(),
            r.customer_filter_spec() == self.customer_filter_spec(),
            r.status_filter_spec() == Some(filter@),
    {
        SubscriptionListParams { status_filter: Some(filter), ..self }
    }
}

impl<'a> Default for SubscriptionListParams<'a> {
    fn default() -> (r: SubscriptionListParams<'a>)
        ensures
            r.page_size_spec() == DEFAULT_PAGE_SIZE,
            r.customer_filter_spec() is None,
            r.status_filter_spec() is None,
    {
        SubscriptionListParams {
            inner: ListParams::default(),
            customer_id_filter: None,
            status_filter: None,
        }
    }
}

/// `base` with the header `name: value` appended when `value` is present.
pub open spec fn with_optional_header(base: RequestView, name: Seq<char>, value: Option<Seq<char>>) -> RequestView {
    match value {
        Some(v) => RequestView { headers: base.headers.push((name, v)), ..base },
        None => base,
    }
}

/// The view of an optional string slice.
pub open spec fn opt_str(s: Option<&str>) -> Option<Seq<char>> {
    match s {
        Some(v) => Some(v@),
        None => None,
    }
}

/// A mutation request: the idempotency key travels as the `Idempotency-Key`
/// header, present only when a key is given, and `body` is the body.
pub open spec fn mutation_request(base: RequestView, key: Option<Seq<char>>, body: Seq<u8>) -> RequestView {
    with_body(with_optional_header(base, "Idempotency-Key"@, key), body)
}

fn attach_idempotency_key(req: Request, key: Option<&str>) -> (r: Request)
    ensures
        r@ == with_optional_header(req@, "Idempotency-Key"@, opt_str(key)),
{
    match key {
        Some(k) => req.header("Idempotency-Key", k),
        None => req,
    }
}

/// A mutation request of the client carries the idempotency key as a header
/// with exactly the given value, and only when a key is given; the body is
/// the one given, untouched by the key.
pub proof fn lemma_idempotency_header(
    client: Client,
    segments: Seq<Seq<char>>,
    key: Option<Seq<char>>,
    body: Seq<u8>,
)
    requires
        client.request_spec(Method::Post, segments) is Some,
    ensures
        ({
            let r = mutation_request(client.request_spec(Method::Post, segments)->0, key, body);
            &&& r.body == Some(body)
            &&& key is Some ==> r.headers.contains(("Idempotency-Key"@, key->0))
            &&& forall|i: int|
                0 <= i < r.headers.len() && (#[trigger] r.headers[i]).0 == "Idempotency-Key"@
                    ==> key == Some(r.headers[i].1)
        }),
{
    let base = client.request_spec(Method::Post, segments)->0;
    let r = mutation_request(base, key, body);
    reveal_strlit("Authorization");
    reveal_strlit("Idempotency-Key");
    assert("Authorization"@.len() != "Idempotency-Key"@.len());
    if key is Some {
        assert(r.headers[1] == ("Idempotency-Key"@, key->0));
    }
}

impl Client {
    /// Lists subscriptions as configured by `params`: a listing that fetches
    /// pages as it is pulled, leaving out subscriptions whose customer was
    /// deleted.
    pub fn list_subscriptions<R, C>(&self, params: &SubscriptionListParams) -> (r: Result<
        ReconcilingPaginator<R, C>,
        Error,
    >)
        ensures
            match self.request_spec(Method::Get, seq!["subscriptions"@]) {
                Some(v) => r matches Ok(p) && p.wf() && p@.out.len() == 0 && p@.pages
                    == fresh_listing::<(R, CustomerResponse<C>)>(
                    with_optional_query(
                        with_customer_query(v, params.customer_filter_spec()),
                        "status"@,
                        params.status_filter_spec(),
                    ),
                    params.page_size_spec(),
                ),
                None => r is Err,
            },
    {
        let path: Vec<&str> = vec!["subscriptions"];
        proof {
            assert(views(path@) =~= seq!["subscriptions"@]);
        }
        let req = self.build_request(Method::Get, path)?;
        let req = match params.customer_id_filter {
            None => req,
            Some(CustomerId::Orb(id)) => req.query("customer_id", id),
            Some(CustomerId::External(id)) => req.query("external_customer_id", id),
        };
        let req = match params.status_filter {
            None => req,
            Some(status) => req.query("status", status),
        };
        let pages = Paginator::new(req, &params.inner);
        Ok(ReconcilingPaginator::new(pages))
    }

    /// The request that creates a subscription, with `body` the encoded
    /// subscription and `idempotency_key` sent as a header when given.
    pub fn create_subscription_request(&self, body: Vec<u8>, idempotency_key: Option<&str>) -> (r: Result<
        Request,
        Error,
    >)
        ensures
            match self.request_spec(Method::Post, seq!["subscriptions"@]) {
                Some(v) => r matches Ok(q) && q@ == mutation_request(
                    v,
                    opt_str(idempotency_key),
                    body@,
                ),
                None => r is Err,
            },
    {
        let path: Vec<&str> = vec!["subscriptions"];
        proof {
            assert(views(path@) =~= seq!["subscriptions"@]);
        }
        let req = self.build_request(Method::Post, path)?;
        let req = attach_idempotency_key(req, idempotency_key);
        Ok(req.json(body))
    }

    /// The request that gets a subscription by ID.
    pub fn get_subscription_request(&self, id: &str) -> (r: Result<Request, Error>)
        ensures
            match self.request_spec(Method::Get, seq!["subscriptions"@, id@]) {
                Some(v) => r matches Ok(q) && q@ == v,
                None => r is Err,
            },
    {
        let path: Vec<&str> = vec!["subscriptions", id];
        proof {
            assert(views(path@) =~= seq!["subscriptions"@, id@]);
        }
        self.build_request(Method::Get, path)
    }

    /// The request `method` on `subscriptions/{id}/{action}` with `body`.
    fn subscription_action(&self, method: Method, id: &str, action: &str, body: Option<Vec<u8>>) -> (r: Result<
        Request,
        Error,
    >)
        ensures
            match self.request_spec(method, seq!["subscriptions"@, id@, action@]) {
                Some(v) => r matches Ok(q) && q@ == match body {
                    Some(b) => with_body(v, b@),
                    None => v,
                },
                None => r is Err,
            },
    {
        let path: Vec<&str> = vec!["subscriptions", id, action];
        proof {
            assert(views(path@) =~= seq!["subscriptions"@, id@, action@]);
        }
        let req = self.build_request(method, path)?;
        match body {
            Some(b) => Ok(req.json(b)),
            None => Ok(req),
        }
    }

    /// The request that updates the quantity of a fixed fee.
    pub fn update_price_quantity_request(&self, id: &str, body: Vec<u8>) -> (r: Result<Request, Error>)
        ensures
            match self.request_spec(
                Method::Post,
                seq!["subscriptions"@, id@, "update_fixed_fee_quantity"@],
            ) {
                Some(v) => r matches Ok(q) && q@ == with_body(v, body@),
                None => r is Err,
            },
    {
        self.subscription_action(Method::Post, id, "update_fixed_fee_quantity", Some(body))
    }

    /// The request that changes the plan of a subscription.
    pub fn schedule_plan_change_request(&self, id: &str, body: Vec<u8>) -> (r: Result<Request, Error>)
        ensures
            match self.request_spec(
                Method::Post,
                seq!["subscriptions"@, id@, "schedule_plan_change"@],
            ) {
                Some(v) => r matches Ok(q) && q@ == with_body(v, body@),
                None => r is Err,
            },
    {
        self.subscription_action(Method::Post, id, "schedule_plan_change", Some(body))
    }

    /// The request that adds and edits price intervals, with
    /// `idempotency_key` sent as a header when given.
    pub fn price_intervals_request(&self, id: &str, body: Vec<u8>, idempotency_key: Option<&str>) -> (r:
        Result<Request, Error>)
        ensures
            match self.request_spec(Method::Post, seq!["subscriptions"@, id@, "price_intervals"@]) {
                Some(v) => r matches Ok(q) && q@ == mutation_request(
                    v,
                    opt_str(idempotency_key),
                    body@,
                ),
                None => r is Err,
            },
    {
        let req = self.subscription_action(Method::Post, id, "price_intervals", None)?;
        let req = attach_idempotency_key(req, idempotency_key);
        Ok(req.json(body))
    }

    /// The request that cancels a subscription.
    pub fn cancel_subscription_request(&self, id: &str, body: Vec<u8>) -> (r: Result<Request, Error>)
        ensures
            match self.request_spec(Method::Post, seq!["subscriptions"@, id@, "cancel"@]) {
                Some(v) => r matches Ok(q) && q@ == with_body(v, body@),
                None => r is Err,
            },
    {
        self.subscription_action(Method::Post, id, "cancel", Some(body))
    }

    /// The request that unschedules any pending cancellation.
    pub fn unschedule_cancellation_request(&self, id: &str) -> (r: Result<Request, Error>)
        ensures
            match self.request_spec(
                Method::Post,
                seq!["subscriptions"@, id@, "unschedule_cancellation"@],
            ) {
                Some(v) => r matches Ok(q) && q@ == v,
                None => r is Err,
            },
    {
        self.subscription_action(Method::Post, id, "unschedule_cancellation", None)
    }

    /// The request that updates a subscription.
    pub fn update_subscription_request(&self, id: &str, body: Vec<u8>) -> (r: Result<Request, Error>)
        ensures
            match self.request_spec(Method::Put, seq!["subscriptions"@, id@]) {
                Some(v) => r matches Ok(q) && q@ == with_body(v, body@),
                None => r is Err,
            },
    {
        let path: Vec<&str> = vec!["subscriptions", id];
        proof {
            assert(views(path@) =~= seq!["subscriptions"@, id@]);
        }
        let req = self.build_request(Method::Put, path)?;
        Ok(req.json(body))
    }

    /// The request that fetches the costs of a subscription over a timeframe.
    pub fn fetch_subscription_costs_request(&self, id: &str, body: Vec<u8>) -> (r: Result<Request, Error>)
        ensures
            match self.request_spec(Method::Get, seq!["subscriptions"@, id@, "costs"@]) {
                Some(v) => r matches Ok(q) && q@ == with_body(v, body@),
                None => r is Err,
            },
    {
        self.subscription_action(Method::Get, id, "costs", Some(body))
    }
}

} // verus!

use vstd::prelude::*;

use crate::alerts::{fresh_listing, with_optional_query};
use crate::customers::CustomerId;
use crate::error::Error;
use crate::pagination::{ListParams, Paginator, DEFAULT_PAGE_SIZE};
use crate::request::{views, Client, Method, Pair, Request, RequestView};

verus! {

/// A line item on an invoice.
#[derive(Clone, Debug, PartialEq, Eq, Hash)]
pub struct InvoiceLineItem {
    /// The line amount before any adjustments.
    pub subtotal: String,
    /// The line amount after any adjustments and before overage conversion,
    /// credits and partial invoicing.
    pub adjusted_subtotal: String,
    /// Any amount applied from a partial invoice.
    pub partially_invoiced_amount: String,
    /// The final amount for a line item after all adjustments and prepaid
    /// credits have been applied.
    pub amount: String,
    /// The name of the price associated with this line item.
    pub name: String,
}

/// Identifies the customer associated with an invoice.
#[derive(Clone, Debug, PartialEq, Eq, Hash)]
pub struct InvoiceCustomer {
    /// The Orb-assigned unique identifier for the customer.
    pub id: String,
    /// The external identifier for the customer, if any.
    pub external_id: Option<String>,
}

/// Identifies the subscription associated with an invoice.
#[derive(Clone, Debug, PartialEq, Eq, Hash)]
pub struct InvoiceSubscription {
    /// The Orb-assigned unique identifier for the subscription.
    pub id: String,
}

/// The statuses of the invoices a listing returns.
#[derive(Clone, Copy, Debug, PartialEq, Eq, Structural)]
pub struct InvoiceStatusFilter {
    /// Invoices in their initial state.
    pub draft: bool,
    /// Invoices after their billing period ends.
    pub issued: bool,
    /// Invoices upon confirmation of successful automatic payment collection.
    pub paid: bool,
    /// Invoices that have been manually voided.
    pub void: bool,
    /// Invoices that have been synced to an external billing provider.
    pub synced: bool,
}

impl Default for InvoiceStatusFilter {
    /// Issued, paid and synced invoices.
    fn default() -> (r: InvoiceStatusFilter)
        ensures
            r == (InvoiceStatusFilter {
                draft: false,
                issued: true,
                paid: true,
                void: false,
                synced: true,
            }),
    {
        InvoiceStatusFilter { draft: false, issued: true, paid: true, void: false, synced: true }
    }
}

/// Parameters for an invoice list operation.
#[derive(Clone, Copy, Debug)]
pub struct InvoiceListParams<'a> {
    inner: ListParams,
    customer_filter: Option<CustomerId<'a>>,
    subscription_filter: Option<&'a str>,
    status_filter: InvoiceStatusFilter,
}

impl<'a> InvoiceListParams<'a> {
    /// The page size.
    pub closed spec fn page_size_spec(&self) -> u64 {
        self.inner.page_size
    }

    /// The customer filter, if any.
    pub closed spec fn customer_filter_spec(&self) -> Option<CustomerId<'a>> {
        self.customer_filter
    }

    /// The subscription filter, if any.
    pub closed spec fn subscription_filter_spec(&self) -> Option<Seq<char>> {
        match self.subscription_filter {
            Some(s) => Some(s@),
            None => None,
        }
    }

    /// The status filter.
    pub closed spec fn status_filter_spec(&self) -> InvoiceStatusFilter {
        self.status_filter
    }

    /// Sets the page size for the list operation.
    pub fn page_size(self, page_size: u64) -> (r: InvoiceListParams<'a>)
        ensures
            r.page_size_spec() == page_size,
            r.customer_filter_spec() == self.customer_filter_spec(),
            r.subscription_filter_spec() == self.subscription_filter_spec(),
            r.status_filter_spec() == self.status_filter_spec(),
    {
        InvoiceListParams { inner: self.inner.page_size(page_size), ..self }
    }

    /// Filters the listing to the specified customer ID.
    pub fn customer_id(self, filter: CustomerId<'a>) -> (r: InvoiceListParams<'a>)
        ensures
            r.page_size_spec() == self.page_size_spec(),
            r.customer_filter_spec() == Some(filter),
            r.subscription_filter_spec() == self.subscription_filter_spec(),
            r.status_filter_spec() == self.status_filter_spec(),
    {
        InvoiceListParams { customer_filter: Some(filter), ..self }
    }

    /// Filters the listing to the specified subscription ID.
    pub fn subscription_id(self, filter: &'a str) -> (r: InvoiceListParams<'a>)
        ensures
            r.page_size_spec() == self.page_size_spec(),
            r.customer_filter_spec() == self.customer_filter_spec(),
            r.subscription_filter_spec() == Some(filter@),
            r.status_filter_spec() == self.status_filter_spec(),
    {
        InvoiceListParams { subscription_filter: Some(filter), ..self }
    }

    /// Filters the listing to a specified set of statuses.
    pub fn status_filter(self, filter: InvoiceStatusFilter) -> (r: InvoiceListParams<'a>)
        ensures
            r.page_size_spec() == self.page_size_spec(),
            r.customer_filter_spec() == self.customer_filter_spec(),
            r.subscription_filter_spec() == self.subscription_filter_spec(),
            r.status_filter_spec() == filter,
    {
        InvoiceListParams { status_filter: filter, ..self }
    }
}

impl<'a> Default for InvoiceListParams<'a> {
    fn default() -> (r: InvoiceListParams<'a>)
        ensures
            r.page_size_spec() == DEFAULT_PAGE_SIZE,
            r.customer_filter_spec() is None,
            r.subscription_filter_spec() is None,
            r.status_filter_spec() == (InvoiceStatusFilter {
                draft: false,
                issued: true,
                paid: true,
                void: false,
                synced: true,
            }),
    {
        InvoiceListParams {
            inner: ListParams::default(),
            customer_filter: None,
            subscription_filter: None,
            status_filter: InvoiceStatusFilter::default(),
        }
    }
}

/// `base` with the customer filter appended: `customer_id` for an Orb ID,
/// `external_customer_id` for an external one.
pub open spec fn with_customer_query(base: RequestView, customer: Option<CustomerId>) -> RequestView {
    match customer {
        Some(CustomerId::Orb(id)) => RequestView {
            query: base.query.push(("customer_id"@, id@)),
            ..base
        },
        Some(CustomerId::External(id)) => RequestView {
            query: base.query.push(("external_customer_id"@, id@)),
            ..base
        },
        None => base,
    }
}

/// One `status[]` entry when `on`, none otherwise.
pub open spec fn status_entry(on: bool, name: Seq<char>) -> Seq<Pair> {
    if on {
        seq![("status[]"@, name)]
    } else {
        Seq::empty()
    }
}

/// The `status[]` entries of a filter, in the order draft, issued, paid,
/// void, synced.
pub open spec fn status_query(f: InvoiceStatusFilter) -> Seq<Pair> {
    status_entry(f.draft, "draft"@) + status_entry(f.issued, "issued"@) + status_entry(
        f.paid,
        "paid"@,
    ) + status_entry(f.void, "void"@) + status_entry(f.synced, "synced"@)
}

fn add_status(req: Request, on: bool, name: &str) -> (r: Request)
    ensures
        r@ == (RequestView { query: req@.query + status_entry(on, name@), ..req@ }),
{
    if on {
        let r = req.query("status[]", name);
        proof {
            assert(r@.query =~= req@.query + status_entry(on, name@));
        }
        r
    } else {
        proof {
            assert(req@.query =~= req@.query + status_entry(on, name@));
        }
        req
    }
}

fn apply_status_filter(req: Request, f: InvoiceStatusFilter) -> (r: Request)
    ensures
        r@ == (RequestView { query: req@.query + status_query(f), ..req@ }),
{
    let ghost q0 = req@.query;
    let req = add_status(req, f.draft, "draft");
    let req = add_status(req, f.issued, "issued");
    let req = add_status(req, f.paid, "paid");
    let req = add_status(req, f.void, "void");
    let req = add_status(req, f.synced, "synced");
    proof {
        let a = status_entry(f.draft, "draft"@);
        let b = status_entry(f.issued, "issued"@);
        let c = status_entry(f.paid, "paid"@);
        let d = status_entry(f.void, "void"@);
        let e = status_entry(f.synced, "synced"@);
        assert(q0 + a + b + c + d + e =~= q0 + (a + b + c + d + e));
    }
    req
}

/// `base` with the customer, subscription and status filters of `params`.
pub open spec fn invoice_filters(base: RequestView, params: InvoiceListParams) -> RequestView {
    let q = with_optional_query(
        with_customer_query(base, params.customer_filter_spec()),
        "subscription_id"@,
        params.subscription_filter_spec(),
    );
    RequestView { query: q.query + status_query(params.status_filter_spec()), ..q }
}

fn apply_invoice_filters(req: Request, params: &InvoiceListParams) -> (r: Request)
    ensures
        r@ == invoice_filters(req@, *params),
{
    let req = match params.customer_filter {
        None => req,
        Some(CustomerId::Orb(id)) => req.query("customer_id", id),
        Some(CustomerId::External(id)) => req.query("external_customer_id", id),
    };
    let req = match params.subscription_filter {
        None => req,
        Some(id) => req.query("subscription_id", id),
    };
    apply_status_filter(req, params.status_filter)
}

impl Client {
    /// Lists invoices as configured by `params`: a listing that fetches
    /// pages as it is pulled.
    pub fn list_invoices<T>(&self, params: &InvoiceListParams) -> (r: Result<Paginator<T>, Error>)
        ensures
            match self.request_spec(Method::Get, seq!["invoices"@]) {
                Some(v) => r matches Ok(p) && p.wf() && p@ == fresh_listing::<T>(
                    invoice_filters(v, *params),
                    params.page_size_spec(),
                ),
                None => r is Err,
            },
    {
        let path: Vec<&str> = vec!["invoices"];
        proof {
            assert(views(path@) =~= seq!["invoices"@]);
        }
        let req = self.build_request(Method::Get, path)?;
        let req = apply_invoice_filters(req, params);
        Ok(Paginator::new(req, &params.inner))
    }

    /// The request that gets an invoice by ID.
    pub fn get_invoice_request(&self, id: &str) -> (r: Result<Request, Error>)
        ensures
            match self.request_spec(Method::Get, seq!["invoices"@, id@]) {
                Some(v) => r matches Ok(q) && q@ == v,
                None => r is Err,
            },
    {
        let path: Vec<&str> = vec!["invoices", id];
        proof {
            assert(views(path@) =~= seq!["invoices"@, id@]);
        }
        self.build_request(Method::Get, path)
    }

    /// The request that voids an invoice by ID.
    pub fn void_invoice_request(&self, id: &str) -> (r: Result<Request, Error>)
        ensures
            match self.request_spec(Method::Post, seq!["invoices"@, id@, "void"@]) {
                Some(v) => r matches Ok(q) && q@ == v,
                None => r is Err,
            },
    {
        let path: Vec<&str> = vec!["invoices", id, "void"];
        proof {
            assert(views(path@) =~= seq!["invoices"@, id@, "void"@]);
        }
        self.build_request(Method::Post, path)
    }

    /// The request that fetches the upcoming invoice of a subscription.
    pub fn fetch_upcoming_invoice_request(&self, subscription_id: &str) -> (r: Result<Request, Error>)
        ensures
            match self.request_spec(Method::Get, seq!["invoices"@, "upcoming"@]) {
                Some(v) => r matches Ok(q) && q@ == (RequestView {
                    query: v.query.push(("subscription_id"@, subscription_id@)),
                    ..v
                }),
                None => r is Err,
            },
    {
        let path: Vec<&str> = vec!["invoices", "upcoming"];
        proof {
            assert(views(path@) =~= seq!["invoices"@, "upcoming"@]);
        }
        let req = self.build_request(Method::Get, path)?;
        Ok(req.query("subscription_id", subscription_id))
    }
}

} // verus!

use vstd::prelude::*;

use crate::error::Error;
use crate::pagination::{with_page_size, ListParams, PagerView, Paginator};
use crate::request::{Client, Method, Request, RequestView};

verus! {

/// Parameters for an alert list operation.
#[derive(Clone, Copy, Debug)]
pub struct AlertListParams<'a> {
    inner: ListParams,
    subscription_id_filter: Option<&'a str>,
}

impl<'a> AlertListParams<'a> {
    /// The page size.
    pub closed spec fn page_size_spec(&self) -> u64 {
        self.inner.page_size
    }

    /// The subscription filter, if any.
    pub closed spec fn subscription_filter(&self) -> Option<Seq<char>> {
        match self.subscription_id_filter {
            Some(s) => Some(s@),
            None => None,
        }
    }

    /// Sets the page size for the list operation.
    pub fn page_size(self, page_size: u64) -> (r: AlertListParams<'a>)
        ensures
            r.page_size_spec() == page_size,
            r.subscription_filter() == self.subscription_filter(),
    {
        AlertListParams { inner: self.inner.page_size(page_size), ..self }
    }

    /// Filters the listing to the specified subscription ID.
    pub fn subscription_id(self, filter: &'a str) -> (r: AlertListParams<'a>)
        ensures
            r.page_size_spec() == self.page_size_spec(),
            r.subscription_filter() == Some(filter@),
    {
        AlertListParams { subscription_id_filter: Some(filter), ..self }
    }
}

impl<'a> Default for AlertListParams<'a> {
    fn default() -> (r: AlertListParams<'a>)
        ensures
            r.page_size_spec() == crate::pagination::DEFAULT_PAGE_SIZE,
            r.subscription_filter() is None,
    {
        AlertListParams { inner: ListParams::default(), subscription_id_filter: None }
    }
}

/// An alert type.
#[derive(Clone, Copy, Debug, PartialEq, Eq, Hash, Structural)]
pub enum AlertType {
    /// Cost exceeded alert.
    CostExceeded,
}


/// A fresh listing whose page requests are `base` with the page size
/// `page_size`.
pub open spec fn fresh_listing<T>(base: RequestView, page_size: u64) -> PagerView<T> {
    PagerView {
        base: with_page_size(base, page_size),
        pages: Seq::empty(),
        yielded: Seq::empty(),
        pending: Seq::empty(),
        attempts: 0,
        error: None,
        stopped: false,
    }
}

/// `base` with the query parameter `key=value` appended when `value` is
/// present.
pub open spec fn with_optional_query(base: RequestView, key: Seq<char>, value: Option<Seq<char>>) -> RequestView {
    match value {
        Some(v) => RequestView { query: base.query.push((key, v)), ..base },
        None => base,
    }
}

/// `base` with the body `body`.
pub open spec fn with_body(base: RequestView, body: Seq<u8>) -> RequestView {
    RequestView { body: Some(body), ..base }
}

impl Client {
    /// The request that creates an alert at the subscription level, with
    /// `body` the encoded alert.
    pub fn create_subscription_alert_request(&self, subscription_id: &str, body: Vec<u8>) -> (r: Result<
        Request,
        Error,
    >)
        ensures
            match self.request_spec(Method::Post, seq!["alerts"@, "subscription_id"@, subscription_id@]) {
                Some(v) => r matches Ok(q) && q@ == with_body(v, body@),
                None => r is Err,
            },
    {
        let path: Vec<&str> = vec!["alerts", "subscription_id", subscription_id];
        proof {
            assert(crate::request::views(path@) =~= seq!["alerts"@, "subscription_id"@, subscription_id@]);
        }
        let req = self.build_request(Method::Post, path)?;
        Ok(req.json(body))
    }

    /// The request that retrieves an alert by its ID.
    pub fn fetch_alert_request(&self, alert_id: &str) -> (r: Result<Request, Error>)
        ensures
            match self.request_spec(Method::Get, seq!["alerts"@, alert_id@]) {
                Some(v) => r matches Ok(q) && q@ == v,
                None => r is Err,
            },
    {
        let path: Vec<&str> = vec!["alerts", alert_id];
        proof {
            assert(crate::request::views(path@) =~= seq!["alerts"@, alert_id@]);
        }
        self.build_request(Method::Get, path)
    }

    /// Lists alerts as configured by `params`: a listing that fetches pages
    /// as it is pulled.
    pub fn list_alerts<T>(&self, params: &AlertListParams) -> (r: Result<Paginator<T>, Error>)
        ensures
            match self.request_spec(Method::Get, seq!["alerts"@]) {
                Some(v) => r matches Ok(p) && p.wf() && p@ == fresh_listing::<T>(
                    with_optional_query(v, "subscription_id"@, params.subscription_filter()),
                    params.page_size_spec(),
                ),
                None => r is Err,
            },
    {
        let path: Vec<&str> = vec!["alerts"];
        proof {
            assert(crate::request::views(path@) =~= seq!["alerts"@]);
        }
        let req = self.build_request(Method::Get, path)?;
        let req = match params.subscription_id_filter {
            None => req,
            Some(id) => req.query("subscription_id", id),
        };
        Ok(Paginator::new(req, &params.inner))
    }

    /// The request that disables an alert.
    pub fn disable_alert_request(&self, alert_id: &str) -> (r: Result<Request, Error>)
        ensures
            match self.request_spec(Method::Post, seq!["alerts"@, alert_id@, "disable"@]) {
                Some(v) => r matches Ok(q) && q@ == v,
                None => r is Err,
            },
    {
        let path: Vec<&str> = vec!["alerts", alert_id, "disable"];
        proof {
            assert(crate::request::views(path@) =~= seq!["alerts"@, alert_id@, "disable"@]);
        }
        self.build_request(Method::Post, path)
    }

    /// The request that enables an alert.
    pub fn enable_alert_request(&self, alert_id: &str) -> (r: Result<Request, Error>)
        ensures
            match self.request_spec(Method::Post, seq!["alerts"@, alert_id@, "enable"@]) {
                Some(v) => r matches Ok(q) && q@ == v,
                None => r is Err,
            },
    {
        let path: Vec<&str> = vec!["alerts", alert_id, "enable"];
        proof {
            assert(crate::request::views(path@) =~= seq!["alerts"@, alert_id@, "enable"@]);
        }
        self.build_request(Method::Post, path)
    }

    /// The request that updates the thresholds of an alert, with `body` the
    /// encoded update.
    pub fn update_alert_request(&self, alert_id: &str, body: Vec<u8>) -> (r: Result<Request, Error>)
        ensures
            match self.request_spec(Method::Put, seq!["alerts"@, alert_id@]) {
                Some(v) => r matches Ok(q) && q@ == with_body(v, body@),
                None => r is Err,
            },
    {
        let path: Vec<&str> = vec!["alerts", alert_id];
        proof {
            assert(crate::request::views(path@) =~= seq!["alerts"@, alert_id@]);
        }
        let req = self.build_request(Method::Put, path)?;
        Ok(req.json(body))
    }
}

} // verus!

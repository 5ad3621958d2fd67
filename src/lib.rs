//! A client library for the Orb billing API, with its pagination and
//! response-reconciliation core verified.
//!
//! The library performs no I/O. It builds requests as plain values, and a
//! listing is a state machine that its driver pulls: each step is the next
//! item, a request to send, an error or the end. The driver sends requests
//! through a transport of its choice and hands each outcome back.

use vstd::prelude::*;

pub mod alerts;
pub mod customers;
pub mod error;
pub mod invoices;
pub mod pagination;
pub mod reconcile;
pub mod request;
pub mod subscriptions;

pub use alerts::{AlertListParams, AlertType};
pub use customers::CustomerId;
pub use error::{failure_error, is_success, success_result, ApiError, Error, ErrorEnvelope};
pub use invoices::{
    InvoiceCustomer, InvoiceLineItem, InvoiceListParams, InvoiceStatusFilter, InvoiceSubscription,
};
pub use pagination::{ListParams, Page, Paginator, Step, DEFAULT_PAGE_SIZE, MAX_PAGE_ATTEMPTS};
pub use reconcile::{reconcile_customer, CustomerResponse, Reconciled, ReconcilingPaginator};
pub use request::{decimal_string, Client, ClientConfig, Method, Request, DEFAULT_ENDPOINT};
pub use subscriptions::{
    BillingCycleAlignment, ChangeOption, SubscriptionListParams, SubscriptionStatus,
    UpdateSubscriptionRequest,
};

verus! {

} // verus!

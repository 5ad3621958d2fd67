use orb_billing::{
    decimal_string, failure_error, is_success, reconcile_customer, success_result, AlertListParams,
    ApiError, Client, ClientConfig, CustomerId, CustomerResponse, Error, ErrorEnvelope,
    InvoiceListParams, InvoiceStatusFilter, ListParams, Method, Paginator, Reconciled, Request,
    Step, SubscriptionListParams, DEFAULT_ENDPOINT, DEFAULT_PAGE_SIZE,
};

fn client() -> Client {
    Client::with_endpoint(
        ClientConfig { api_key: "secret".to_string() },
        "https://api.example.com/v1".to_string(),
    )
}

fn header<'a>(req: &'a Request, name: &str) -> Vec<&'a str> {
    req.headers.iter().filter(|(k, _)| k == name).map(|(_, v)| v.as_str()).collect()
}

fn first_request<T>(mut pager: Paginator<T>) -> Request {
    match pager.next() {
        Step::Fetch(req) => req,
        _ => panic!("a fresh listing asks for a page"),
    }
}

#[test]
fn builds_url_and_auth() {
    let req = client().fetch_alert_request("al_1").unwrap();
    assert_eq!(req.method, Method::Get);
    assert_eq!(req.url, "https://api.example.com/v1/alerts/al_1");
    assert_eq!(header(&req, "Authorization"), vec!["Bearer secret"]);
    assert!(req.query.is_empty());
    assert!(req.body.is_none());
}

#[test]
fn path_segments_are_percent_encoded() {
    let req = client().get_subscription_request("a/b c?").unwrap();
    assert_eq!(req.url, "https://api.example.com/v1/subscriptions/a%2Fb%20c%3F");
    let req = client().disable_alert_request("x").unwrap();
    assert_eq!(req.method, Method::Post);
    assert_eq!(req.url, "https://api.example.com/v1/alerts/x/disable");
}

#[test]
fn trailing_slash_endpoint() {
    let c = Client::with_endpoint(
        ClientConfig { api_key: "k".to_string() },
        "http://localhost:8080/v1/".to_string(),
    );
    let req = c.void_invoice_request("inv").unwrap();
    assert_eq!(req.url, "http://localhost:8080/v1/invoices/inv/void");
}

#[test]
fn default_endpoint() {
    let c = Client::new(ClientConfig { api_key: "k".to_string() });
    assert_eq!(c.endpoint, DEFAULT_ENDPOINT);
    let req = c.unschedule_cancellation_request("s1").unwrap();
    assert_eq!(
        req.url,
        "https://api.withorb.com/v1/subscriptions/s1/unschedule_cancellation"
    );
}

#[test]
fn invalid_endpoint_is_a_transport_error() {
    let c = Client::with_endpoint(
        ClientConfig { api_key: "k".to_string() },
        "not a url".to_string(),
    );
    assert!(matches!(c.fetch_alert_request("a"), Err(Error::Transport { .. })));
    let mailto = Client::with_endpoint(
        ClientConfig { api_key: "k".to_string() },
        "mailto:someone@example.com".to_string(),
    );
    assert!(matches!(mailto.list_alerts::<u32>(&AlertListParams::default()), Err(Error::Transport { .. })));
}

#[test]
fn idempotency_key_goes_in_a_header() {
    let body = br#"{"plan_id":"p"}"#.to_vec();
    let req = client().create_subscription_request(body.clone(), Some("key-1")).unwrap();
    assert_eq!(req.method, Method::Post);
    assert_eq!(header(&req, "Idempotency-Key"), vec!["key-1"]);
    assert_eq!(req.body, Some(body.clone()));
    let req = client().create_subscription_request(body.clone(), None).unwrap();
    assert!(header(&req, "Idempotency-Key").is_empty());
    assert_eq!(req.headers.len(), 1);
    assert_eq!(req.body, Some(body));
}

#[test]
fn price_intervals_with_key() {
    let req = client().price_intervals_request("s", b"{}".to_vec(), Some("k2")).unwrap();
    assert_eq!(req.url, "https://api.example.com/v1/subscriptions/s/price_intervals");
    assert_eq!(header(&req, "Idempotency-Key"), vec!["k2"]);
    assert_eq!(req.body, Some(b"{}".to_vec()));
}

#[test]
fn mutation_endpoints() {
    let c = client();
    let cases = vec![
        (c.update_price_quantity_request("s", vec![1]).unwrap(), Method::Post, "subscriptions/s/update_fixed_fee_quantity"),
        (c.schedule_plan_change_request("s", vec![1]).unwrap(), Method::Post, "subscriptions/s/schedule_plan_change"),
        (c.cancel_subscription_request("s", vec![1]).unwrap(), Method::Post, "subscriptions/s/cancel"),
        (c.update_subscription_request("s", vec![1]).unwrap(), Method::Put, "subscriptions/s"),
        (c.fetch_subscription_costs_request("s", vec![1]).unwrap(), Method::Get, "subscriptions/s/costs"),
        (c.create_subscription_alert_request("s", vec![1]).unwrap(), Method::Post, "alerts/subscription_id/s"),
        (c.update_alert_request("a", vec![1]).unwrap(), Method::Put, "alerts/a"),
    ];
    for (req, method, path) in cases {
        assert_eq!(req.method, method);
        assert_eq!(req.url, format!("https://api.example.com/v1/{}", path));
        assert_eq!(req.body, Some(vec![1]));
    }
    let req = c.enable_alert_request("a").unwrap();
    assert_eq!(req.url, "https://api.example.com/v1/alerts/a/enable");
    assert!(req.body.is_none());
}

#[test]
fn upcoming_invoice_query() {
    let req = client().fetch_upcoming_invoice_request("sub_9").unwrap();
    assert_eq!(req.url, "https://api.example.com/v1/invoices/upcoming");
    assert_eq!(req.query, vec![("subscription_id".to_string(), "sub_9".to_string())]);
    let req = client().get_invoice_request("i").unwrap();
    assert_eq!(req.url, "https://api.example.com/v1/invoices/i");
}

#[test]
fn invoice_listing_filters() {
    let params = InvoiceListParams::default()
        .customer_id(CustomerId::External("ext-1"))
        .subscription_id("sub-1")
        .page_size(50);
    let req = first_request(client().list_invoices::<u32>(&params).unwrap());
    let pairs: Vec<(&str, &str)> = req.query.iter().map(|(k, v)| (k.as_str(), v.as_str())).collect();
    assert_eq!(
        pairs,
        vec![
            ("external_customer_id", "ext-1"),
            ("subscription_id", "sub-1"),
            ("status[]", "issued"),
            ("status[]", "paid"),
            ("status[]", "synced"),
            ("limit", "50"),
        ]
    );
}

#[test]
fn invoice_status_filter_all() {
    let all = InvoiceStatusFilter { draft: true, issued: true, paid: true, void: true, synced: true };
    let params = InvoiceListParams::default().status_filter(all).customer_id(CustomerId::Orb("c"));
    let req = first_request(client().list_invoices::<u32>(&params).unwrap());
    let statuses: Vec<&str> =
        req.query.iter().filter(|(k, _)| k == "status[]").map(|(_, v)| v.as_str()).collect();
    assert_eq!(statuses, vec!["draft", "issued", "paid", "void", "synced"]);
    assert_eq!(req.query[0], ("customer_id".to_string(), "c".to_string()));
    let none = InvoiceStatusFilter { draft: false, issued: false, paid: false, void: false, synced: false };
    let req = first_request(client().list_invoices::<u32>(&InvoiceListParams::default().status_filter(none)).unwrap());
    assert_eq!(req.query, vec![("limit".to_string(), "20".to_string())]);
}

#[test]
fn subscription_listing_filters() {
    let params = SubscriptionListParams::default().customer_id(CustomerId::Orb("cus")).status("active");
    let mut listing = client().list_subscriptions::<u32, String>(&params).unwrap();
    let req = match listing.next() {
        Step::Fetch(req) => req,
        _ => panic!("a fresh listing asks for a page"),
    };
    assert_eq!(req.url, "https://api.example.com/v1/subscriptions");
    let pairs: Vec<(&str, &str)> = req.query.iter().map(|(k, v)| (k.as_str(), v.as_str())).collect();
    assert_eq!(pairs, vec![("customer_id", "cus"), ("status", "active"), ("limit", "20")]);
}

#[test]
fn alert_listing_filter() {
    let params = AlertListParams::default().subscription_id("sub").page_size(7);
    let req = first_request(client().list_alerts::<u32>(&params).unwrap());
    let pairs: Vec<(&str, &str)> = req.query.iter().map(|(k, v)| (k.as_str(), v.as_str())).collect();
    assert_eq!(pairs, vec![("subscription_id", "sub"), ("limit", "7")]);
}

#[test]
fn page_size_defaults() {
    assert_eq!(ListParams::default().page_size, DEFAULT_PAGE_SIZE);
    assert_eq!(DEFAULT_PAGE_SIZE, 20);
    assert_eq!(ListParams::default().page_size(500).page_size, 500);
    let f = InvoiceStatusFilter::default();
    assert!(!f.draft && f.issued && f.paid && !f.void && f.synced);
}

#[test]
fn decimal_strings() {
    assert_eq!(decimal_string(0), "0");
    assert_eq!(decimal_string(9), "9");
    assert_eq!(decimal_string(10), "10");
    assert_eq!(decimal_string(1234567890), "1234567890");
    assert_eq!(decimal_string(u64::MAX), u64::MAX.to_string());
}

#[test]
fn reconcile_each_shape() {
    assert!(matches!(
        reconcile_customer(CustomerResponse::Normal(5u8)),
        Reconciled::Keep(5)
    ));
    assert!(matches!(
        reconcile_customer::<u8>(CustomerResponse::Deleted { id: "x".to_string(), deleted: true }),
        Reconciled::Skip
    ));
    match reconcile_customer::<u8>(CustomerResponse::Deleted { id: "cus_7".to_string(), deleted: false }) {
        Reconciled::Reject(Error::UnexpectedResponse { detail }) => assert_eq!(
            detail,
            "customer cus_7 used deleted response shape but deleted field was `false`"
        ),
        _ => panic!("expected a rejection"),
    }
}

#[test]
fn response_outcomes() {
    assert!(is_success(200) && is_success(204) && is_success(299));
    assert!(!is_success(199) && !is_success(300) && !is_success(404));
    assert!(matches!(success_result::<u8>(Ok(3)), Ok(3)));
    match success_result::<u8>(Err("bad field".to_string())) {
        Err(Error::Deserialize { detail }) => assert_eq!(detail, "bad field"),
        _ => panic!("expected a decode error"),
    }
    match failure_error(409, Some(ErrorEnvelope { title: "Conflict".to_string(), detail: Some("dup".to_string()) }), String::new()) {
        Error::Api(ApiError { status_code, message, detail }) => {
            assert_eq!(status_code, 409);
            assert_eq!(message, "Conflict");
            assert_eq!(detail.as_deref(), Some("dup"));
        }
        _ => panic!("expected an API error"),
    }
    match failure_error(502, None, "<html>bad gateway</html>".to_string()) {
        Error::Api(ApiError { status_code, message, detail }) => {
            assert_eq!(status_code, 502);
            assert_eq!(message, "unknown error");
            assert_eq!(detail.as_deref(), Some("<html>bad gateway</html>"));
        }
        _ => panic!("expected an API error"),
    }
}

#[test]
fn transient_classification() {
    let api = |s: u16| Error::Api(ApiError { status_code: s, message: String::new(), detail: None });
    assert!(Error::Transport { detail: String::new() }.is_transient());
    assert!(api(500).is_transient() && api(503).is_transient() && api(429).is_transient());
    assert!(!api(400).is_transient() && !api(404).is_transient() && !api(409).is_transient());
    assert!(!Error::Deserialize { detail: String::new() }.is_transient());
    assert!(!Error::UnexpectedResponse { detail: String::new() }.is_transient());
    assert_eq!(api(404).status_code(), Some(404));
    assert_eq!(Error::Transport { detail: String::new() }.status_code(), None);
}

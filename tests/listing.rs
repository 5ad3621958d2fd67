use orb_billing::{
    AlertListParams, ApiError, Client, ClientConfig, CustomerResponse, Error, Page, Paginator,
    Request, Step, SubscriptionListParams, MAX_PAGE_ATTEMPTS,
};

fn client() -> Client {
    Client::with_endpoint(
        ClientConfig { api_key: "key".to_string() },
        "https://api.example.com/v1".to_string(),
    )
}

fn query_value<'a>(req: &'a Request, key: &str) -> Vec<&'a str> {
    req.query.iter().filter(|(k, _)| k == key).map(|(_, v)| v.as_str()).collect()
}

fn page<T>(data: Vec<T>, next: Option<&str>) -> Page<T> {
    Page { data, next_cursor: next.map(|c| c.to_string()) }
}

fn transient() -> Error {
    Error::Api(ApiError { status_code: 503, message: "unavailable".to_string(), detail: None })
}

/// Drives a listing against a scripted server: each fetch takes the next
/// scripted outcome. Returns the items, the requests sent, and the error.
fn drive<T>(
    pager: &mut Paginator<T>,
    mut script: Vec<Result<Page<T>, Error>>,
) -> (Vec<T>, Vec<Request>, Option<Error>) {
    script.reverse();
    let mut items = Vec::new();
    let mut requests = Vec::new();
    loop {
        match pager.next() {
            Step::Item(x) => items.push(x),
            Step::Fetch(req) => {
                requests.push(req);
                let outcome = script.pop().expect("no more scripted responses");
                pager.deliver(outcome);
            }
            Step::Failed(e) => {
                assert!(matches!(pager.next(), Step::End));
                return (items, requests, Some(e));
            }
            Step::End => return (items, requests, None),
        }
    }
}

#[test]
fn three_pages_end_to_end() {
    let params = AlertListParams::default().page_size(1);
    let mut pager: Paginator<&str> = client().list_alerts(&params).unwrap();
    let (items, requests, error) = drive(
        &mut pager,
        vec![
            Ok(page(vec!["first"], Some("cur2"))),
            Ok(page(vec!["second"], Some("cur3"))),
            Ok(page(vec![], None)),
        ],
    );
    assert!(error.is_none());
    assert_eq!(items, vec!["first", "second"]);
    assert_eq!(requests.len(), 3);
    for req in &requests {
        assert_eq!(query_value(req, "limit"), vec!["1"]);
        assert_eq!(req.url, "https://api.example.com/v1/alerts");
    }
    assert!(query_value(&requests[0], "cursor").is_empty());
    assert_eq!(query_value(&requests[1], "cursor"), vec!["cur2"]);
    assert_eq!(query_value(&requests[2], "cursor"), vec!["cur3"]);
}

#[test]
fn cursor_is_sent_verbatim() {
    let cursor = "a b/%2F+\u{fc}==";
    let mut pager: Paginator<u32> = client().list_alerts(&AlertListParams::default()).unwrap();
    let (items, requests, _) = drive(
        &mut pager,
        vec![Ok(page(vec![1, 2], Some(cursor))), Ok(page(vec![3], None))],
    );
    assert_eq!(items, vec![1, 2, 3]);
    assert_eq!(query_value(&requests[1], "cursor"), vec![cursor]);
    assert_eq!(query_value(&requests[1], "limit"), vec!["20"]);
}

#[test]
fn order_is_kept_across_pages() {
    let mut pager: Paginator<u32> = client().list_alerts(&AlertListParams::default()).unwrap();
    let (items, requests, _) = drive(
        &mut pager,
        vec![
            Ok(page(vec![5, 1, 4], Some("x"))),
            Ok(page(vec![], Some("y"))),
            Ok(page(vec![9, 2], None)),
        ],
    );
    assert_eq!(items, vec![5, 1, 4, 9, 2]);
    assert_eq!(requests.len(), 3);
}

#[test]
fn no_fetch_after_last_page() {
    let mut pager: Paginator<u32> = client().list_alerts(&AlertListParams::default()).unwrap();
    assert!(matches!(pager.next(), Step::Fetch(_)));
    pager.deliver(Ok(page(vec![7], None)));
    assert!(matches!(pager.next(), Step::Item(7)));
    for _ in 0..5 {
        assert!(matches!(pager.next(), Step::End));
    }
    assert!(!pager.wants_page());
}

#[test]
fn transient_failures_below_budget_are_retried() {
    let k = MAX_PAGE_ATTEMPTS - 1;
    let mut script: Vec<Result<Page<u32>, Error>> = Vec::new();
    for _ in 0..k {
        script.push(Err(transient()));
    }
    script.push(Ok(page(vec![1, 2], Some("c"))));
    script.push(Err(Error::Transport { detail: "reset".to_string() }));
    script.push(Ok(page(vec![3], None)));
    let mut pager: Paginator<u32> = client().list_alerts(&AlertListParams::default()).unwrap();
    let (items, requests, error) = drive(&mut pager, script);
    assert!(error.is_none());
    assert_eq!(items, vec![1, 2, 3]);
    assert_eq!(requests.len() as u32, k + 3);
    for req in &requests[..(k as usize + 1)] {
        assert!(query_value(req, "cursor").is_empty());
    }
    assert_eq!(query_value(&requests[requests.len() - 1], "cursor"), vec!["c"]);
}

#[test]
fn transient_failures_exhaust_budget() {
    let mut script: Vec<Result<Page<u32>, Error>> = Vec::new();
    for _ in 0..(MAX_PAGE_ATTEMPTS + 2) {
        script.push(Err(transient()));
    }
    let mut pager: Paginator<u32> = client().list_alerts(&AlertListParams::default()).unwrap();
    let (items, requests, error) = drive(&mut pager, script);
    assert!(items.is_empty());
    assert_eq!(requests.len() as u32, MAX_PAGE_ATTEMPTS);
    assert_eq!(MAX_PAGE_ATTEMPTS, 3);
    assert_eq!(error.unwrap().status_code(), Some(503));
}

#[test]
fn rate_limit_is_transient_and_not_found_is_not() {
    let mut pager: Paginator<u32> = client().list_alerts(&AlertListParams::default()).unwrap();
    let too_many =
        Error::Api(ApiError { status_code: 429, message: "slow down".to_string(), detail: None });
    let not_found =
        Error::Api(ApiError { status_code: 404, message: "missing".to_string(), detail: None });
    let (items, requests, error) = drive(&mut pager, vec![Err(too_many), Err(not_found)]);
    assert!(items.is_empty());
    assert_eq!(requests.len(), 2);
    assert_eq!(error.unwrap().status_code(), Some(404));
}

#[test]
fn decode_failure_ends_listing_at_once() {
    let mut pager: Paginator<u32> = client().list_alerts(&AlertListParams::default()).unwrap();
    let bad = Error::Deserialize { detail: "missing field".to_string() };
    let (_, requests, error) = drive(&mut pager, vec![Err(bad)]);
    assert_eq!(requests.len(), 1);
    assert!(matches!(error, Some(Error::Deserialize { .. })));
}

fn deleted(id: &str, flag: bool) -> CustomerResponse<String> {
    CustomerResponse::Deleted { id: id.to_string(), deleted: flag }
}

fn normal(name: &str) -> CustomerResponse<String> {
    CustomerResponse::Normal(name.to_string())
}

#[test]
fn deleted_customers_are_left_out() {
    let mut listing = client().list_subscriptions::<u32, String>(&SubscriptionListParams::default()).unwrap();
    let mut script = vec![
        Ok(page(vec![(1, normal("ann")), (2, deleted("x", true))], Some("n"))),
        Ok(page(vec![(3, deleted("y", true)), (4, normal("bob"))], None)),
    ];
    script.reverse();
    let mut out = Vec::new();
    let mut fetches = 0;
    loop {
        match listing.next() {
            Step::Item(x) => out.push(x),
            Step::Fetch(_) => {
                fetches += 1;
                listing.deliver(script.pop().unwrap());
            }
            Step::Failed(e) => panic!("unexpected failure {:?}", e.status_code()),
            Step::End => break,
        }
    }
    assert_eq!(out, vec![(1, "ann".to_string()), (4, "bob".to_string())]);
    assert_eq!(fetches, 2);
}

#[test]
fn inconsistent_placeholder_ends_listing() {
    let mut listing = client().list_subscriptions::<u32, String>(&SubscriptionListParams::default()).unwrap();
    assert!(matches!(listing.next(), Step::Fetch(_)));
    listing.deliver(Ok(page(vec![(1, normal("ann")), (2, deleted("x", false)), (3, normal("cy"))], Some("n"))));
    assert!(matches!(listing.next(), Step::Item((1, _))));
    match listing.next() {
        Step::Failed(Error::UnexpectedResponse { detail }) => assert_eq!(
            detail,
            "customer x used deleted response shape but deleted field was `false`"
        ),
        _ => panic!("expected an unexpected-response error"),
    }
    assert!(matches!(listing.next(), Step::End));
    assert!(matches!(listing.next(), Step::End));
}

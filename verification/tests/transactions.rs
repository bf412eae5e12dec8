use sumup::services::transactions::Filter;
use sumup::{Config, PaymentType, SessionStart, Status, SumUp, Type};

fn session() -> SumUp {
    let config = Config {
        access_token: Some("token".to_owned()),
        ..Default::default()
    };
    match SumUp::from(config) {
        Ok(SessionStart::Ready(s)) => s,
        _ => panic!("a pre-supplied access token must resolve locally"),
    }
}

#[test]
fn find_by_id() {
    let api = session();

    let request = api.transactions().find_by_id("1");

    assert_eq!(request.url, "https://api.sumup.com/v0.1/me/transactions?id=1");
    assert_eq!(request.bearer.as_deref(), Some("Bearer token"));
    assert!(request.body.is_none());
}

#[test]
fn find_by_code() {
    let api = session();

    let request = api.transactions().find_by_code("1234");

    assert_eq!(
        request.url,
        "https://api.sumup.com/v0.1/me/transactions?transaction_code=1234"
    );
}

#[test]
fn find_by_internal_id() {
    let api = session();

    let request = api.transactions().find_by_internal_id("1234");

    assert_eq!(
        request.url,
        "https://api.sumup.com/v0.1/me/transactions?internal_id=1234"
    );
}

#[test]
fn history() {
    let api = session();

    let filter = Filter {
        start_date: "2021-01-01".to_string(),
        end_date: "2021-12-31".to_string(),

        ..Default::default()
    };

    let request = api.transactions().history(&filter);

    assert_eq!(
        request.url,
        "https://api.sumup.com/v0.1/me/financials/payouts?\
         start_date=2021-01-01&end_date=2021-12-31&order=asc&limit=10&format=json"
    );
    assert_eq!(request.bearer.as_deref(), Some("Bearer token"));
}

#[test]
fn receipt() {
    let api = session();

    let request = api.transactions().receipt(1, 1);

    assert_eq!(request.url, "https://api.sumup.com/receipts/1?mid=1");
}

#[test]
fn full_refund() {
    let api = session();

    let request = api.transactions().full_refund(1);

    assert_eq!(request.url, "https://api.sumup.com/v0.1/me/refund/1");
    assert_eq!(request.body.as_deref(), Some("{}"));
}

#[test]
fn receipt_renders_large_numbers() {
    let api = session();

    let request = api.transactions().receipt(4294967295, 0);

    assert_eq!(request.url, "https://api.sumup.com/receipts/4294967295?mid=0");
}

#[test]
fn filter_defaults_encode_exactly() {
    let filter = Filter {
        start_date: "2021-01-01".to_string(),
        end_date: "2021-12-31".to_string(),

        ..Default::default()
    };

    assert_eq!(
        filter.to_string(),
        "start_date=2021-01-01&end_date=2021-12-31&order=asc&limit=10&format=json"
    );
}

#[test]
fn filter_encodes_every_member_in_order() {
    let filter = Filter {
        start_date: "2021-01-01".to_string(),
        end_date: "2021-12-31".to_string(),
        order: Some("desc".to_string()),
        limit: Some(5),
        user_id: Some(7),
        users: vec![1, 23],
        statuses: vec![Status("SUCCESSFUL".to_string()), Status("FAILED".to_string())],
        payment_types: vec![PaymentType("POS".to_string())],
        types: vec![Type("PAYMENT".to_string())],
        changes_since: Some("2021-06-01".to_string()),
        newest_time: Some("2021-12-01".to_string()),
        newest_ref: Some("n1".to_string()),
        oldest_time: Some("2021-02-01".to_string()),
        oldest_ref: Some("o1".to_string()),
    };

    assert_eq!(
        filter.to_string(),
        "start_date=2021-01-01&end_date=2021-12-31&order=desc&limit=5&user_id=7\
         &user=1&user=23&statuse=SUCCESSFUL&statuse=FAILED&payment_type=POS&type=PAYMENT\
         &changes_since=2021-06-01&newest_time=2021-12-01&newest_ref=n1\
         &oldest_time=2021-02-01&oldest_ref=o1&format=json"
    );
}

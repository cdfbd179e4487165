use monzo::client::{HttpCall, Payload};
use monzo::endpoints::transactions::list::Request;
use monzo::endpoints::{Endpoint, Method};
use monzo::params::Param;
use monzo::timestamp::Timestamp;

struct Client {
    name: &'static str,
}

const CLIENT: Client = Client { name: "stub" };

fn pair(key: &str, value: &str) -> Param {
    Param::new(key, String::from(value))
}

fn params_of(request: &Request<'_, Client>) -> Vec<Param> {
    request.form().unwrap()
}

fn count(params: &[Param], key: &str) -> usize {
    params.iter().filter(|p| p.key == key).count()
}

fn start_of_2023() -> Timestamp {
    Timestamp::from_unix(1_672_531_200, 0).unwrap()
}

#[test]
fn endpoint_is_a_get_on_the_transactions_url() {
    let request = Request::new(&CLIENT, "acc_123");
    assert_eq!(request.method(), Method::Get);
    assert_eq!(request.endpoint(), "https://api.monzo.com/transactions");
    assert!(request.form().is_some());
}

#[test]
fn method_and_target_do_not_depend_on_the_configuration() {
    let request = Request::new(&CLIENT, "acc_123")
        .since(start_of_2023())
        .before(start_of_2023())
        .limit(1)
        .expand_merchant();
    assert_eq!(request.method(), Method::Get);
    assert_eq!(request.endpoint(), "https://api.monzo.com/transactions");
}

#[test]
fn request_keeps_the_client_it_was_made_for() {
    let request = Request::new(&CLIENT, "acc_123").limit(5).expand_merchant();
    assert!(std::ptr::eq(request.client(), &CLIENT));
    assert_eq!(request.client().name, "stub");
}

trait Capability {
    fn name(&self) -> &'static str;
}

impl Capability for Client {
    fn name(&self) -> &'static str {
        self.name
    }
}

#[test]
fn request_borrows_a_client_behind_a_trait_object() {
    let client: &dyn Capability = &CLIENT;
    let request: Request<'_, dyn Capability> = Request::new(client, "acc_123").limit(2);
    assert_eq!(request.client().name(), "stub");
    let (client, call) = request.into_call();
    assert_eq!(client.name(), "stub");
    assert_eq!(call.payload, Payload::Query(vec![pair("account_id", "acc_123"), pair("limit", "2")]));
}

#[test]
fn unconfigured_request_has_only_the_account() {
    let request = Request::new(&CLIENT, "acc_123");
    assert_eq!(params_of(&request), vec![pair("account_id", "acc_123")]);
}

#[test]
fn since_sets_a_timestamp_lower_bound() {
    let request = Request::new(&CLIENT, "acc_123").since(start_of_2023());
    assert_eq!(
        params_of(&request),
        vec![pair("account_id", "acc_123"), pair("since", "2023-01-01T00:00:00Z")]
    );
}

#[test]
fn since_transaction_sets_an_object_lower_bound() {
    let request = Request::new(&CLIENT, "acc_123").since_transaction(String::from("tx_9"));
    assert_eq!(
        params_of(&request),
        vec![pair("account_id", "acc_123"), pair("since", "tx_9")]
    );
}

#[test]
fn since_then_since_transaction_keeps_the_transaction() {
    let request = Request::new(&CLIENT, "acc_123")
        .since(start_of_2023())
        .since_transaction(String::from("tx_9"));
    let params = params_of(&request);
    assert_eq!(count(&params, "since"), 1);
    assert_eq!(params, vec![pair("account_id", "acc_123"), pair("since", "tx_9")]);
}

#[test]
fn since_transaction_then_since_keeps_the_timestamp() {
    let request = Request::new(&CLIENT, "acc_123")
        .since_transaction(String::from("tx_9"))
        .since(start_of_2023());
    let params = params_of(&request);
    assert_eq!(count(&params, "since"), 1);
    assert_eq!(
        params,
        vec![pair("account_id", "acc_123"), pair("since", "2023-01-01T00:00:00Z")]
    );
}

#[test]
fn since_twice_keeps_the_later_timestamp() {
    let request = Request::new(&CLIENT, "acc_123")
        .since(Timestamp::from_unix(0, 0).unwrap())
        .since(start_of_2023());
    assert_eq!(
        params_of(&request),
        vec![pair("account_id", "acc_123"), pair("since", "2023-01-01T00:00:00Z")]
    );
}

#[test]
fn before_sets_the_upper_bound() {
    let request = Request::new(&CLIENT, "acc_123").before(start_of_2023());
    assert_eq!(
        params_of(&request),
        vec![pair("account_id", "acc_123"), pair("before", "2023-01-01T00:00:00Z")]
    );
}

#[test]
fn limit_50_serializes_as_limit_50() {
    let request = Request::new(&CLIENT, "acc_123").limit(50);
    assert_eq!(params_of(&request), vec![pair("account_id", "acc_123"), pair("limit", "50")]);
}

#[test]
fn omitting_limit_omits_the_key() {
    let request = Request::new(&CLIENT, "acc_123").since(start_of_2023()).expand_merchant();
    assert_eq!(count(&params_of(&request), "limit"), 0);
}

#[test]
fn limit_takes_every_value() {
    let none = Request::new(&CLIENT, "acc_123").limit(0);
    assert_eq!(params_of(&none), vec![pair("account_id", "acc_123"), pair("limit", "0")]);
    let most = Request::new(&CLIENT, "acc_123").limit(u16::MAX);
    assert_eq!(params_of(&most), vec![pair("account_id", "acc_123"), pair("limit", "65535")]);
}

#[test]
fn later_limit_replaces_the_earlier() {
    let request = Request::new(&CLIENT, "acc_123").limit(10).limit(20);
    assert_eq!(params_of(&request), vec![pair("account_id", "acc_123"), pair("limit", "20")]);
}

#[test]
fn expand_merchant_serializes_as_expand_array() {
    let request = Request::new(&CLIENT, "acc_123").expand_merchant();
    assert_eq!(
        params_of(&request),
        vec![pair("account_id", "acc_123"), pair("expand[]", "merchant")]
    );
}

#[test]
fn expand_merchant_twice_serializes_once() {
    let request = Request::new(&CLIENT, "acc_123").expand_merchant().expand_merchant();
    let params = params_of(&request);
    assert_eq!(count(&params, "expand[]"), 1);
    assert_eq!(params, vec![pair("account_id", "acc_123"), pair("expand[]", "merchant")]);
}

#[test]
fn without_expand_merchant_there_is_no_expand_key() {
    let request = Request::new(&CLIENT, "acc_123").limit(3);
    assert_eq!(count(&params_of(&request), "expand[]"), 0);
}

#[test]
fn every_option_serializes_in_order() {
    let request = Request::new(&CLIENT, "acc_123")
        .expand_merchant()
        .limit(25)
        .before(Timestamp::from_unix(1_675_209_600, 0).unwrap())
        .since_transaction(String::from("tx_9"));
    assert_eq!(
        params_of(&request),
        vec![
            pair("account_id", "acc_123"),
            pair("since", "tx_9"),
            pair("before", "2023-02-01T00:00:00Z"),
            pair("limit", "25"),
            pair("expand[]", "merchant"),
        ]
    );
}

#[test]
fn base_request_can_be_configured_in_more_than_one_way() {
    let base = Request::new(&CLIENT, "acc_123").limit(10);
    let first_page = base.clone().since(start_of_2023());
    let next_page = base.clone().since_transaction(String::from("tx_9"));
    assert_eq!(params_of(&base), vec![pair("account_id", "acc_123"), pair("limit", "10")]);
    assert_eq!(
        params_of(&first_page),
        vec![
            pair("account_id", "acc_123"),
            pair("since", "2023-01-01T00:00:00Z"),
            pair("limit", "10"),
        ]
    );
    assert_eq!(
        params_of(&next_page),
        vec![pair("account_id", "acc_123"), pair("since", "tx_9"), pair("limit", "10")]
    );
    assert!(std::ptr::eq(next_page.client(), &CLIENT));
}

#[test]
fn into_call_lays_out_a_get_with_the_form_in_the_query() {
    let request = Request::new(&CLIENT, "acc_123").limit(10);
    let (client, call) = request.into_call();
    assert!(std::ptr::eq(client, &CLIENT));
    assert_eq!(
        call,
        HttpCall {
            method: Method::Get,
            target: String::from("https://api.monzo.com/transactions"),
            payload: Payload::Query(vec![pair("account_id", "acc_123"), pair("limit", "10")]),
        }
    );
}

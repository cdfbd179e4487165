//! The request that lists the transactions of an account.

use super::{
    before_key, lemma_pagination_keys_differ, lemma_pagination_values, limit_key,
    pagination_values, since_key, Pagination, PaginationView, Since, SinceView,
};
use crate::client::{
    build_request, planned_call, receivable, resolve, resolved_by, Error, HttpCall, RawResponse,
};
use crate::endpoints::{form_view, Endpoint, Method};
use crate::params::{
    decimal, keyed, lemma_values_of_concat, lemma_values_of_keyed, params_view, values_of, Param,
    ParamView,
};
use crate::timestamp::{Instant, Timestamp};
use vstd::prelude::*;

verus! {

/// The address of the endpoint that lists transactions.
pub open spec fn target() -> Seq<char> {
    "https://api.monzo.com/transactions"@
}

/// The key under which the account travels.
pub open spec fn account_key() -> Seq<char> {
    "account_id"@
}

/// The key under which a request names the fields to expand.
pub open spec fn expand_key() -> Seq<char> {
    "expand[]"@
}

/// The one field that a request can ask to have expanded.
pub open spec fn merchant() -> Seq<char> {
    "merchant"@
}

/// What a [`Request`] has been configured to ask for.
pub struct FormView {
    pub account_id: Seq<char>,
    pub pagination: PaginationView,
    pub expand_merchant: bool,
}

impl FormView {
    /// The form of a request that nobody has configured yet.
    pub open spec fn new(account_id: Seq<char>) -> FormView {
        FormView { account_id, pagination: PaginationView::empty(), expand_merchant: false }
    }

    /// This form with the lower bound replaced by `bound`.
    pub open spec fn with_since(self, bound: SinceView) -> FormView {
        FormView {
            pagination: PaginationView { since: Some(bound), ..self.pagination },
            ..self
        }
    }

    /// This form with the upper bound replaced by `instant`.
    pub open spec fn with_before(self, instant: Instant) -> FormView {
        FormView {
            pagination: PaginationView { before: Some(instant), ..self.pagination },
            ..self
        }
    }

    /// This form with the cap replaced by `limit`.
    pub open spec fn with_limit(self, limit: u16) -> FormView {
        FormView { pagination: PaginationView { limit: Some(limit), ..self.pagination }, ..self }
    }

    /// This form with the merchant expanded.
    pub open spec fn with_merchant(self) -> FormView {
        FormView { expand_merchant: true, ..self }
    }

    /// What the key `expand[]` is to carry: `merchant`, if the form asks for
    /// the merchant.
    pub open spec fn expand_values(self) -> Seq<Seq<char>> {
        if self.expand_merchant {
            seq![merchant()]
        } else {
            Seq::empty()
        }
    }

    /// The flat form: the account, then the pagination, then the expansion.
    pub open spec fn params(self) -> Seq<ParamView> {
        keyed(account_key(), seq![self.account_id]) + self.pagination.params() + keyed(
            expand_key(),
            self.expand_values(),
        )
    }
}

#[derive(Debug)]
struct Form<'a> {
    account_id: &'a str,
    pagination: Pagination,
    expand_merchant: bool,
}

impl<'a> View for Form<'a> {
    type V = FormView;

    closed spec fn view(&self) -> FormView {
        FormView {
            account_id: self.account_id@,
            pagination: self.pagination@,
            expand_merchant: self.expand_merchant,
        }
    }
}

impl<'a> Form<'a> {
    fn to_params(&self) -> (params: Vec<Param>)
        ensures
            params_view(params@) == self@.params(),
    {
        let mut params: Vec<Param> = Vec::new();
        params.push(Param::new("account_id", self.account_id.to_owned()));
        self.pagination.write_params(&mut params);
        let ghost paged = params_view(params@);
        if self.expand_merchant {
            params.push(Param::new("expand[]", "merchant".to_owned()));
        }
        assert(params_view(params@) =~= paged + keyed(expand_key(), self@.expand_values()));
        params
    }
}

/// A request to retrieve a list of transactions of one account.
///
/// The builder-style methods set the optional fields; each takes the request
/// and gives it back with that one field changed.
#[derive(Debug)]
pub struct Request<'a, C: ?Sized> {
    client: &'a C,
    form: Form<'a>,
}

impl<'a, C: ?Sized> View for Request<'a, C> {
    type V = FormView;

    closed spec fn view(&self) -> FormView {
        self.form@
    }
}

impl<'a, C: ?Sized> Clone for Request<'a, C> {
    /// A second request that asks for the same through the same client, so
    /// that one base request can be configured in more than one way.
    fn clone(&self) -> (copy: Self)
        ensures
            copy@ == self@,
            copy.client_spec() == self.client_spec(),
    {
        let form = Form {
            account_id: self.form.account_id,
            pagination: self.form.pagination.clone(),
            expand_merchant: self.form.expand_merchant,
        };
        Request { client: self.client, form }
    }
}

impl<'a, C: ?Sized> Request<'a, C> {
    /// The client this request was made for.
    pub closed spec fn client_spec(&self) -> &'a C {
        self.client
    }

    /// A request for the transactions of `account_id`, to be sent through
    /// `client`, with no bound, no cap and nothing expanded.
    pub fn new(client: &'a C, account_id: &'a str) -> (request: Self)
        ensures
            request@ == FormView::new(account_id@),
            request.client_spec() == client,
    {
        let form = Form { account_id, pagination: Pagination::default(), expand_merchant: false };
        Request { client, form }
    }

    /// The client to send this request through.
    pub fn client(&self) -> (client: &'a C)
        ensures
            client == self.client_spec(),
    {
        self.client
    }

    /// Only return transactions which occurred after the given instant.
    /// Replaces any lower bound set before, of either kind.
    pub fn since(self, datetime: Timestamp) -> (request: Self)
        ensures
            request@ == self@.with_since(SinceView::Timestamp(datetime@)),
            request.client_spec() == self.client_spec(),
    {
        let mut request = self;
        request.form.pagination.since = Some(Since::Timestamp(datetime));
        request
    }

    /// Only return transactions which occurred after the given transaction.
    /// Replaces any lower bound set before, of either kind.
    ///
    /// This can be used for paginating.
    pub fn since_transaction(self, transaction_id: String) -> (request: Self)
        ensures
            request@ == self@.with_since(SinceView::ObjectId(transaction_id@)),
            request.client_spec() == self.client_spec(),
    {
        let mut request = self;
        request.form.pagination.since = Some(Since::ObjectId(transaction_id));
        request
    }

    /// Only return transactions which occurred before the given instant.
    pub fn before(self, datetime: Timestamp) -> (request: Self)
        ensures
            request@ == self@.with_before(datetime@),
            request.client_spec() == self.client_spec(),
    {
        let mut request = self;
        request.form.pagination.before = Some(datetime);
        request
    }

    /// Set the maximum number of transactions to be returned. Every value is
    /// taken as it is: the API enforces its own cap.
    pub fn limit(self, limit: u16) -> (request: Self)
        ensures
            request@ == self@.with_limit(limit),
            request.client_spec() == self.client_spec(),
    {
        let mut request = self;
        request.form.pagination.limit = Some(limit);
        request
    }

    /// Expand the merchant field from an id string into a struct containing
    /// the merchant's details.
    pub fn expand_merchant(self) -> (request: Self)
        ensures
            request@ == self@.with_merchant(),
            request.client_spec() == self.client_spec(),
    {
        let mut request = self;
        request.form.expand_merchant = true;
        request
    }

    /// The first half of sending. Uses the request up and yields the one HTTP
    /// request that stands for it, a `GET` with the flat form in the query
    /// string, beside the client to send it through.
    pub fn into_call(self) -> (dispatch: (&'a C, HttpCall))
        ensures
            dispatch.0 == self.client_spec(),
            dispatch.1@ == planned_call(Method::Get, target(), Some(self@.params())),
    {
        let call = build_request(&self);
        (self.client, call)
    }
}

impl<'a, C: ?Sized> Endpoint for Request<'a, C> {
    /// Listing is always a `GET`.
    fn method(&self) -> (method: Method)
        ensures
            method == Method::Get,
    {
        Method::Get
    }

    /// Listing always goes to the same address.
    fn endpoint(&self) -> (address: &str)
        ensures
            address@ == target(),
    {
        "https://api.monzo.com/transactions"
    }

    /// The flat form of what the request has been configured to ask for.
    fn form(&self) -> (form: Option<Vec<Param>>)
        ensures
            form_view(form) == Some(self@.params()),
    {
        Some(self.form.to_params())
    }
}

/// The envelope in which the API returns a list of transactions.
#[derive(Debug, PartialEq, Eq)]
pub struct Response<T> {
    pub transactions: Vec<T>,
}

impl<T> Response<T> {
    /// Takes the transactions out of their envelope.
    pub fn into_transactions(self) -> (transactions: Vec<T>)
        ensures
            transactions == self.transactions,
    {
        self.transactions
    }
}

/// What the sender of a list request gets for a resolved exchange: all the
/// transactions of the envelope, or the failure. There is nothing in between.
pub open spec fn delivered<T, E>(resolved: Result<Response<T>, Error<E>>) -> Result<
    Vec<T>,
    Error<E>,
> {
    match resolved {
        Ok(response) => Ok(response.transactions),
        Err(failure) => Err(failure),
    }
}

/// The second half of sending. Resolves the outcome of the call and, where
/// `decode` found the envelope in the body, takes the transactions out of it.
pub fn receive<T, E, D: FnOnce(Vec<u8>) -> Option<Response<T>>>(
    outcome: Result<RawResponse, E>,
    decode: D,
) -> (transactions: Result<Vec<T>, Error<E>>)
    requires
        receivable(outcome, decode),
    ensures
        exists|resolved: Result<Response<T>, Error<E>>| #[trigger]
            resolved_by(outcome, decode, resolved) && transactions == delivered(resolved),
{
    match resolve(outcome, decode) {
        Ok(response) => Ok(response.into_transactions()),
        Err(failure) => Err(failure),
    }
}

/// The five keys of the form differ from one another.
pub proof fn lemma_form_keys_differ()
    ensures
        account_key() != expand_key(),
        account_key() != since_key(),
        account_key() != before_key(),
        account_key() != limit_key(),
        expand_key() != since_key(),
        expand_key() != before_key(),
        expand_key() != limit_key(),
        since_key() != before_key(),
        since_key() != limit_key(),
        before_key() != limit_key(),
{
    lemma_pagination_keys_differ();
    reveal_strlit("account_id");
    reveal_strlit("expand[]");
    reveal_strlit("since");
    reveal_strlit("before");
    reveal_strlit("limit");
    assert("account_id"@.len() == 10 && "expand[]"@.len() == 8);
    assert("since"@.len() == 5 && "before"@.len() == 6 && "limit"@.len() == 5);
}

/// What a form gives to a key: the account to `account_id`, `merchant` to
/// `expand[]` if it asks for the merchant, and to every other key what its
/// pagination gives.
pub open spec fn form_values(form: FormView, key: Seq<char>) -> Seq<Seq<char>> {
    if key == account_key() {
        seq![form.account_id]
    } else if key == expand_key() {
        form.expand_values()
    } else {
        pagination_values(form.pagination, key)
    }
}

/// Each key gets from the flat form of a request what the request holds for
/// it, and no more: the account occurs once, every option that is set occurs
/// once, an option that is not set does not occur, and no other key occurs
/// at all.
pub proof fn lemma_form_values(form: FormView, key: Seq<char>)
    ensures
        values_of(form.params(), key) == form_values(form, key),
{
    let account = keyed(account_key(), seq![form.account_id]);
    let expand = keyed(expand_key(), form.expand_values());
    lemma_form_keys_differ();
    lemma_values_of_concat(account + form.pagination.params(), expand, key);
    lemma_values_of_concat(account, form.pagination.params(), key);
    lemma_values_of_keyed(account_key(), seq![form.account_id], key);
    lemma_values_of_keyed(expand_key(), form.expand_values(), key);
    lemma_pagination_values(form.pagination, key);
}

/// A request that nobody has configured serializes to the account alone: the
/// pagination contributes no parameter, and neither does the expansion.
pub proof fn lemma_new_request_has_only_account(account_id: Seq<char>)
    ensures
        FormView::new(account_id).pagination.params() == Seq::<ParamView>::empty(),
        FormView::new(account_id).params() == seq![
            (ParamView { key: account_key(), value: account_id }),
        ],
{
}

/// In the flat form of every request the key `since` occurs at most once:
/// not at all where no lower bound is set, once with the RFC 3339 form of the
/// instant where the bound is a timestamp, and once with the id where the
/// bound is an object. A timestamp and an object id never occur together.
pub proof fn lemma_request_lower_bound_at_most_once(form: FormView)
    ensures
        values_of(form.params(), since_key()).len() <= 1,
        form.pagination.since is None ==> values_of(form.params(), since_key())
            == Seq::<Seq<char>>::empty(),
        form.pagination.since matches Some(SinceView::Timestamp(instant)) ==> values_of(
            form.params(),
            since_key(),
        ) == seq![instant.text()],
        form.pagination.since matches Some(SinceView::ObjectId(id)) ==> values_of(
            form.params(),
            since_key(),
        ) == seq![id],
{
    lemma_form_keys_differ();
    lemma_form_values(form, since_key());
}

/// Setting the lower bound twice leaves the request as if only the second
/// call had been made, whichever kind of bound either call set: the first
/// bound is overwritten, and the flat form names the second alone.
pub proof fn lemma_last_lower_bound_wins(form: FormView, first: SinceView, second: SinceView)
    ensures
        form.with_since(first).with_since(second) == form.with_since(second),
        values_of(form.with_since(first).with_since(second).params(), since_key()) == seq![
            second.text(),
        ],
{
    lemma_form_keys_differ();
    lemma_form_values(form.with_since(second), since_key());
}

/// A request with a cap carries the key `limit` once, with the cap in
/// decimal; a request without one does not carry the key.
pub proof fn lemma_limit_in_decimal(form: FormView, limit: u16)
    ensures
        values_of(form.with_limit(limit).params(), limit_key()) == seq![decimal(limit as nat)],
        form.pagination.limit is None ==> values_of(form.params(), limit_key())
            == Seq::<Seq<char>>::empty(),
{
    lemma_form_keys_differ();
    lemma_form_values(form.with_limit(limit), limit_key());
    lemma_form_values(form, limit_key());
}

/// Asking for the merchant twice is asking for it once: the request is the
/// same, and its flat form carries `expand[]=merchant` exactly once. A
/// request that was never asked does not carry the key.
pub proof fn lemma_expand_merchant_idempotent(form: FormView)
    ensures
        form.with_merchant().with_merchant() == form.with_merchant(),
        values_of(form.with_merchant().params(), expand_key()) == seq![merchant()],
        !form.expand_merchant ==> values_of(form.params(), expand_key())
            == Seq::<Seq<char>>::empty(),
{
    lemma_form_keys_differ();
    lemma_form_values(form.with_merchant(), expand_key());
    lemma_form_values(form, expand_key());
}

} // verus!

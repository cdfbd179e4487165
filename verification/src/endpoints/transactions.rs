//! Listing transactions, and the pagination that list requests share.

use crate::params::{
    decimal, decimal_text, keyed, lemma_values_of_concat, lemma_values_of_keyed, params_view,
    values_of, Param, ParamView,
};
use crate::timestamp::{Instant, Timestamp};
use vstd::prelude::*;

pub mod list;

verus! {

/// The key of the lower bound of a page.
pub open spec fn since_key() -> Seq<char> {
    "since"@
}

/// The key of the upper bound of a page.
pub open spec fn before_key() -> Seq<char> {
    "before"@
}

/// The key of the cap on the number of results.
pub open spec fn limit_key() -> Seq<char> {
    "limit"@
}

/// The mathematical value of a [`Since`].
pub enum SinceView {
    Timestamp(Instant),
    ObjectId(Seq<char>),
}

impl SinceView {
    /// The text that stands for this bound on the wire: the RFC 3339 form of
    /// a timestamp, or the object id as it is.
    pub open spec fn text(self) -> Seq<char> {
        match self {
            SinceView::Timestamp(instant) => instant.text(),
            SinceView::ObjectId(id) => id,
        }
    }
}

/// Where a page starts: at a point in time, or after a given object. A page
/// has at most one of the two.
#[derive(Debug, PartialEq, Eq)]
pub enum Since {
    /// Only what happened after this instant.
    Timestamp(Timestamp),
    /// Only what came after the object with this id.
    ObjectId(String),
}

impl View for Since {
    type V = SinceView;

    open spec fn view(&self) -> SinceView {
        match self {
            Since::Timestamp(timestamp) => SinceView::Timestamp(timestamp@),
            Since::ObjectId(id) => SinceView::ObjectId(id@),
        }
    }
}

impl Clone for Since {
    fn clone(&self) -> (copy: Since)
        ensures
            copy@ == self@,
    {
        match self {
            Since::Timestamp(timestamp) => Since::Timestamp(*timestamp),
            Since::ObjectId(id) => Since::ObjectId(id.clone()),
        }
    }
}

impl Since {
    /// The text that stands for this bound on the wire.
    pub fn to_text(&self) -> (text: String)
        ensures
            text@ == self@.text(),
    {
        match self {
            Since::Timestamp(timestamp) => timestamp.to_rfc3339(),
            Since::ObjectId(id) => id.clone(),
        }
    }
}

/// The mathematical value of a [`Pagination`].
pub struct PaginationView {
    pub since: Option<SinceView>,
    pub before: Option<Instant>,
    pub limit: Option<u16>,
}

impl PaginationView {
    /// No bound and no cap.
    pub open spec fn empty() -> PaginationView {
        PaginationView { since: None, before: None, limit: None }
    }

    /// What the key `since` is to carry: the text of the lower bound, if
    /// there is one.
    pub open spec fn since_values(self) -> Seq<Seq<char>> {
        match self.since {
            Some(since) => seq![since.text()],
            None => Seq::empty(),
        }
    }

    /// What the key `before` is to carry: the upper bound in RFC 3339 form,
    /// if there is one.
    pub open spec fn before_values(self) -> Seq<Seq<char>> {
        match self.before {
            Some(before) => seq![before.text()],
            None => Seq::empty(),
        }
    }

    /// What the key `limit` is to carry: the cap in decimal, if there is one.
    pub open spec fn limit_values(self) -> Seq<Seq<char>> {
        match self.limit {
            Some(limit) => seq![decimal(limit as nat)],
            None => Seq::empty(),
        }
    }

    /// The flat form of the pagination: one parameter for each field that is
    /// set, in the order `since`, `before`, `limit`, and nothing for a field
    /// that is not.
    pub open spec fn params(self) -> Seq<ParamView> {
        keyed(since_key(), self.since_values()) + keyed(before_key(), self.before_values())
            + keyed(limit_key(), self.limit_values())
    }
}

/// Which part of a list to return. Nothing here checks that the bounds leave
/// room between them: a sensible window is the caller's business.
#[derive(Debug, PartialEq, Eq)]
pub struct Pagination {
    /// The lower bound: a timestamp or an object, never both.
    pub since: Option<Since>,
    /// The strict upper bound.
    pub before: Option<Timestamp>,
    /// The largest number of results to return.
    pub limit: Option<u16>,
}

impl View for Pagination {
    type V = PaginationView;

    open spec fn view(&self) -> PaginationView {
        PaginationView {
            since: match self.since {
                Some(since) => Some(since@),
                None => None,
            },
            before: match self.before {
                Some(before) => Some(before@),
                None => None,
            },
            limit: self.limit,
        }
    }
}

impl Clone for Pagination {
    fn clone(&self) -> (copy: Pagination)
        ensures
            copy@ == self@,
    {
        Pagination {
            since: match &self.since {
                Some(since) => Some(since.clone()),
                None => None,
            },
            before: self.before,
            limit: self.limit,
        }
    }
}

impl Default for Pagination {
    /// The pagination that constrains nothing.
    fn default() -> (pagination: Pagination)
        ensures
            pagination@ == PaginationView::empty(),
    {
        Pagination { since: None, before: None, limit: None }
    }
}

impl Pagination {
    /// Appends the flat form of the pagination to `out`.
    pub fn write_params(&self, out: &mut Vec<Param>)
        ensures
            params_view(final(out)@) == params_view(old(out)@) + self@.params(),
    {
        if let Some(since) = &self.since {
            out.push(Param::new("since", since.to_text()));
        }
        if let Some(before) = &self.before {
            out.push(Param::new("before", before.to_rfc3339()));
        }
        if let Some(limit) = self.limit {
            out.push(Param::new("limit", decimal_text(limit)));
        }
    }

    /// The flat form of the pagination.
    pub fn to_params(&self) -> (params: Vec<Param>)
        ensures
            params_view(params@) == self@.params(),
    {
        let mut params: Vec<Param> = Vec::new();
        self.write_params(&mut params);
        params
    }
}

/// The three pagination keys differ from one another.
pub proof fn lemma_pagination_keys_differ()
    ensures
        since_key() != before_key(),
        since_key() != limit_key(),
        before_key() != limit_key(),
{
    reveal_strlit("since");
    reveal_strlit("before");
    reveal_strlit("limit");
    assert("since"@.len() == 5 && "limit"@.len() == 5 && "before"@.len() == 6);
    assert("since"@[0] != "limit"@[0]);
}

/// What a pagination gives to a key: the lower bound to `since`, the upper
/// bound to `before`, the cap to `limit`, and nothing to any other key.
pub open spec fn pagination_values(pagination: PaginationView, key: Seq<char>) -> Seq<Seq<char>> {
    if key == since_key() {
        pagination.since_values()
    } else if key == before_key() {
        pagination.before_values()
    } else if key == limit_key() {
        pagination.limit_values()
    } else {
        Seq::empty()
    }
}

/// Each key gets from the flat form of a pagination what the pagination
/// holds for it, and no more: a field that is set occurs once, a field that
/// is not set does not occur, and no other key occurs at all.
pub proof fn lemma_pagination_values(pagination: PaginationView, key: Seq<char>)
    ensures
        values_of(pagination.params(), key) == pagination_values(pagination, key),
{
    let since = keyed(since_key(), pagination.since_values());
    let before = keyed(before_key(), pagination.before_values());
    let limit = keyed(limit_key(), pagination.limit_values());
    lemma_pagination_keys_differ();
    lemma_values_of_concat(since + before, limit, key);
    lemma_values_of_concat(since, before, key);
    lemma_values_of_keyed(since_key(), pagination.since_values(), key);
    lemma_values_of_keyed(before_key(), pagination.before_values(), key);
    lemma_values_of_keyed(limit_key(), pagination.limit_values(), key);
}

/// A pagination with nothing set serializes to no parameter at all.
pub proof fn lemma_empty_pagination_has_no_params()
    ensures
        PaginationView::empty().params() == Seq::<ParamView>::empty(),
{
}

/// The key `since` occurs at most once in the flat form of a pagination:
/// not at all where no lower bound is set, once with the RFC 3339 form of the
/// instant where the bound is a timestamp, and once with the id where the
/// bound is an object. A timestamp and an object id never occur together.
pub proof fn lemma_lower_bound_at_most_once(pagination: PaginationView)
    ensures
        values_of(pagination.params(), since_key()).len() <= 1,
        pagination.since is None ==> values_of(pagination.params(), since_key())
            == Seq::<Seq<char>>::empty(),
        pagination.since matches Some(SinceView::Timestamp(instant)) ==> values_of(
            pagination.params(),
            since_key(),
        ) == seq![instant.text()],
        pagination.since matches Some(SinceView::ObjectId(id)) ==> values_of(
            pagination.params(),
            since_key(),
        ) == seq![id],
{
    lemma_pagination_values(pagination, since_key());
}

} // verus!

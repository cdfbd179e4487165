//! What every request must tell the transport adapter about itself.

use crate::params::{params_view, Param, ParamView};
use vstd::prelude::*;

pub mod transactions;

verus! {

/// The HTTP methods the API's endpoints use.
#[derive(Clone, Copy, Debug, PartialEq, Eq, Structural)]
pub enum Method {
    Get,
    Post,
    Put,
    Patch,
    Delete,
}

impl Method {
    /// Whether a request with this method carries its form in the query
    /// string. Only `GET` does; every other method changes state on the server
    /// and carries the form in its body.
    pub open spec fn form_in_query(self) -> bool {
        self is Get
    }
}

/// The form of an endpoint as the adapter sees it: absent, or a list of
/// parameters.
pub open spec fn form_view(form: Option<Vec<Param>>) -> Option<Seq<ParamView>> {
    match form {
        Some(params) => Some(params_view(params@)),
        None => None,
    }
}

/// The three facts that make a request executable. Each endpoint fixes its
/// method and target; only the form depends on what the caller configured.
///
/// Every request type implements this on its own. What the adapter does with
/// an endpoint is stated over whatever the three methods return.
pub trait Endpoint {
    /// The HTTP method to send the request with.
    fn method(&self) -> Method;

    /// The absolute URL to send the request to.
    fn endpoint(&self) -> &str;

    /// The request's parameters in their flat form, in the order in which
    /// they are to be sent; `None` for an endpoint that takes none.
    fn form(&self) -> Option<Vec<Param>>;
}

} // verus!

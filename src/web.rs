//! The web-serving types.

use vstd::prelude::*;

verus! {

/// Placeholder for an inbound HTTP-like request.
pub struct Request;

impl Request {
    /// The name that `Request::name` reports.
    pub open spec fn spec_name() -> Seq<char> {
        "veeox::Request"@
    }

    /// The fixed name of this type.
    #[must_use]
    pub fn name() -> (r: &'static str)
        ensures
            r@ == Self::spec_name(),
    {
        "veeox::Request"
    }

    /// Any two results of `Request::name` are the same string: the name does not
    /// depend on when or how often it is asked for.
    pub proof fn lemma_name_deterministic(a: &str, b: &str)
        requires
            a@ == Self::spec_name(),
            b@ == Self::spec_name(),
        ensures
            a@ == b@,
    {
    }
}

/// Placeholder for an outbound HTTP-like response.
pub struct Response;

impl Response {
    /// The name that `Response::name` reports.
    pub open spec fn spec_name() -> Seq<char> {
        "veeox::Response"@
    }

    /// The fixed name of this type.
    #[must_use]
    pub fn name() -> (r: &'static str)
        ensures
            r@ == Self::spec_name(),
    {
        "veeox::Response"
    }

    /// Any two results of `Response::name` are the same string: the name does not
    /// depend on when or how often it is asked for.
    pub proof fn lemma_name_deterministic(a: &str, b: &str)
        requires
            a@ == Self::spec_name(),
            b@ == Self::spec_name(),
        ensures
            a@ == b@,
    {
    }
}

/// Placeholder for a request/response interceptor.
pub struct Middleware;

impl Middleware {
    /// The name that `Middleware::name` reports.
    pub open spec fn spec_name() -> Seq<char> {
        "veeox::Middleware"@
    }

    /// The fixed name of this type.
    #[must_use]
    pub fn name() -> (r: &'static str)
        ensures
            r@ == Self::spec_name(),
    {
        "veeox::Middleware"
    }

    /// Any two results of `Middleware::name` are the same string: the name does not
    /// depend on when or how often it is asked for.
    pub proof fn lemma_name_deterministic(a: &str, b: &str)
        requires
            a@ == Self::spec_name(),
            b@ == Self::spec_name(),
        ensures
            a@ == b@,
    {
    }
}

/// Placeholder for a binding of a URL pattern to a handler.
pub struct Route;

impl Route {
    /// The name that `Route::name` reports.
    pub open spec fn spec_name() -> Seq<char> {
        "veeox::Route"@
    }

    /// The fixed name of this type.
    #[must_use]
    pub fn name() -> (r: &'static str)
        ensures
            r@ == Self::spec_name(),
    {
        "veeox::Route"
    }

    /// Any two results of `Route::name` are the same string: the name does not
    /// depend on when or how often it is asked for.
    pub proof fn lemma_name_deterministic(a: &str, b: &str)
        requires
            a@ == Self::spec_name(),
            b@ == Self::spec_name(),
        ensures
            a@ == b@,
    {
    }
}

/// Placeholder for a listening process that dispatches requests through routes and middleware.
pub struct Server;

impl Server {
    /// The name that `Server::name` reports.
    pub open spec fn spec_name() -> Seq<char> {
        "veeox::Server"@
    }

    /// The fixed name of this type.
    #[must_use]
    pub fn name() -> (r: &'static str)
        ensures
            r@ == Self::spec_name(),
    {
        "veeox::Server"
    }

    /// Any two results of `Server::name` are the same string: the name does not
    /// depend on when or how often it is asked for.
    pub proof fn lemma_name_deterministic(a: &str, b: &str)
        requires
            a@ == Self::spec_name(),
            b@ == Self::spec_name(),
        ensures
            a@ == b@,
    {
    }
}

} // verus!

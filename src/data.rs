//! Registered users, the services built from them and probe outcomes.
use vstd::prelude::*;
use crate::provider::{parse_entity, Provider, ProviderView};
use crate::url::{parse_url, url_parse_of, ServiceUrl, UrlView};
use crate::text::{clone_opt, opt_text};
use crate::validation::{probe_status, validate_status, HomoServiceStatus, HttpResponse};

verus! {

/// A record of a registered user.
pub struct User {
    pub id: i32,
    pub screen_name: String,
    pub service: String,
    pub url: String,
}

/// The abstract value of a `HomoService`.
pub struct HomoServiceView {
    pub service_url: UrlView,
    pub provider: ProviderView,
}

/// A service to check: a page and the person it belongs to.
#[derive(Debug, Clone)]
pub struct HomoService {
    /// The URL of the page.
    pub service_url: ServiceUrl,
    /// The person who provides it.
    pub provider: Provider,
}

impl View for HomoService {
    type V = HomoServiceView;

    open spec fn view(&self) -> HomoServiceView {
        HomoServiceView { service_url: self.service_url@, provider: self.provider@ }
    }
}

/// The outcome of probing one service.
pub struct HomoServiceResponse {
    /// How the page was found to lead to the profile.
    pub status: HomoServiceStatus,
    /// The remote IP address, where known.
    pub remote_address: Option<String>,
    /// The time the request took, in nanoseconds.
    pub duration_nanos: u64,
    /// The avatar URL of the provider, where one was resolved.
    pub avatar_url: Option<String>,
}

/// The service a user record describes, if both its entity text and its URL parse.
pub open spec fn service_of_user(screen_name: Seq<char>, url: Seq<char>) -> Option<
    HomoServiceView,
> {
    match (parse_entity(screen_name), url_parse_of(url)) {
        (Some(p), Some(u)) => Some(HomoServiceView { service_url: u, provider: p }),
        _ => None,
    }
}

/// The remote address of a response, none where the request failed.
pub open spec fn remote_of(response: Option<&HttpResponse>) -> Option<Seq<char>> {
    match response {
        Some(r) => opt_text(r.remote_address),
        None => None,
    }
}

impl HomoServiceResponse {
    /// The outcome of a probe from its response (`None` where the request
    /// failed), the time it took and the avatar resolved for its identity.
    pub fn from_probe(
        response: Option<&HttpResponse>,
        duration_nanos: u64,
        avatar_url: Option<String>,
    ) -> (r: HomoServiceResponse)
        ensures
            r.status == probe_status(response),
            opt_text(r.remote_address) == remote_of(response),
            r.duration_nanos == duration_nanos,
            opt_text(r.avatar_url) == opt_text(avatar_url),
    {
        let status = validate_status(response);
        let remote_address = match response {
            Some(resp) => clone_opt(&resp.remote_address),
            None => None,
        };
        HomoServiceResponse { status, remote_address, duration_nanos, avatar_url }
    }
}

impl HomoService {
    /// Builds the service of a user record; fails where its entity text or its
    /// URL does not parse.
    pub fn from_user(user: &User) -> (r: Result<HomoService, String>)
        ensures
            r is Ok <==> service_of_user(user.screen_name@, user.url@) is Some,
            r matches Ok(s) ==> service_of_user(user.screen_name@, user.url@) == Some(s@),
    {
        let provider = match Provider::from_entity(user.screen_name.as_str()) {
            Ok(p) => p,
            Err(e) => return Err(e),
        };
        match parse_url(user.url.as_str()) {
            Some(service_url) => Ok(HomoService { service_url, provider }),
            None => Err(String::from_str("Invalid service URL")),
        }
    }

    /// A copy of this service.
    pub fn duplicate(&self) -> (r: HomoService)
        ensures
            r@ == self@,
    {
        HomoService { service_url: self.service_url.duplicate(), provider: self.provider.duplicate() }
    }
}

} // verus!

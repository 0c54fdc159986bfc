//! Typed client for a transactional-email HTTP API.
//!
//! The library builds authenticated request descriptions and interprets what
//! the transport reports back; it performs no network I/O itself.

pub mod domains;
pub mod emails;
pub mod headers;
pub mod json;
pub mod reqlib;
pub mod text;

use crate::domains::DomainService;
use crate::emails::EmailService;
use crate::reqlib::{BaseUrl, ReqClient, ReqClientView, USER_AGENT};
use vstd::prelude::*;

verus! {

/// A client of the API: one configuration for raw requests and one for each
/// service. The three are independent of each other.
#[derive(Debug)]
pub struct Client {
    pub raw_client: ReqClient,
    pub email_service: EmailService,
    pub domain_service: DomainService,
}

impl Client {
    /// What every configuration of a new client holds.
    pub open spec fn fresh(api_key: Seq<char>) -> ReqClientView {
        ReqClientView {
            api_key,
            base_url: BaseUrl::default_view(),
            user_agent: USER_AGENT@,
            headers: Map::empty(),
        }
    }

    /// A client that authenticates with `api_key`.
    pub fn new(api_key: &str) -> (client: Client)
        ensures
            client.raw_client@ == Self::fresh(api_key@),
            client.email_service.req_client@ == Self::fresh(api_key@),
            client.domain_service.req_client@ == Self::fresh(api_key@),
    {
        let raw_client = ReqClient::new(api_key.to_owned());
        let email_service = EmailService::new(ReqClient::new(api_key.to_owned()));
        let domain_service = DomainService::new(ReqClient::new(api_key.to_owned()));
        Client { raw_client, email_service, domain_service }
    }
}

} // verus!

//! The client handle: the address of the server's socket, and the services
//! that speak to it.

use crate::api::{Operation, LIST_CONTAINERS, LIST_CONTAINERS_METHOD, LIST_CONTAINERS_SUCCESS};
use crate::containers_service::{
    is_request_for, is_unit_outcome, unit_response, ContainersService,
};
use crate::error::ApiError;
use crate::request::{request, OutboundRequest, SimpleResponse};
use vstd::prelude::*;
use vstd::string::StringExecFns;

verus! {

/// A client of the server behind the socket at `url`.
#[derive(Debug, Clone, PartialEq)]
pub struct Client {
    pub url: String,
    pub containers: ContainersService,
}

/// What a client handle offers: its making, and the probe of the server.
pub trait ClientTrait: Sized {
    /// The address of the socket the client speaks to.
    spec fn socket(&self) -> Seq<char>;

    /// A client of the server behind the socket at `url`.
    fn new(url: String) -> (client: Self)
        ensures
            client.socket() == url@,
    ;

    /// The request that probes the server: a bare listing of containers.
    fn ping_request(&self) -> (r: OutboundRequest)
        ensures
            is_request_for(
                r,
                self.socket(),
                Operation::ListContainers,
                LIST_CONTAINERS@,
                Seq::empty(),
            ),
    ;

    /// Reads the answer to the probe: the server is up exactly where it
    /// answers with the listing's success status.
    fn ping_response(&self, response: &SimpleResponse) -> (r: Result<(), ApiError>)
        ensures
            is_unit_outcome(LIST_CONTAINERS_SUCCESS, response.status, response.body@, r),
    ;
}

impl ClientTrait for Client {
    open spec fn socket(&self) -> Seq<char> {
        self.url@
    }

    fn new(url: String) -> (client: Self)
        ensures
            client.url@ == url@,
            client.containers.url@ == url@,
    {
        let containers = ContainersService { url: url.clone() };
        Client { url, containers }
    }

    fn ping_request(&self) -> (r: OutboundRequest) {
        request(
            self.url.clone(),
            String::from_str(LIST_CONTAINERS),
            LIST_CONTAINERS_METHOD,
            String::new(),
        )
    }

    fn ping_response(&self, response: &SimpleResponse) -> (r: Result<(), ApiError>) {
        unit_response(LIST_CONTAINERS_SUCCESS, response)
    }
}

} // verus!

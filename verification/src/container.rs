//! Listing and creating containers straight from the client handle.

use crate::api::{success_status, Operation};
use crate::client::Client;
use crate::container_create::{CreateContainerFrom, CreateContainerResponseFromAPI};
use crate::container_structs::Container;
use crate::containers_service::{
    create_container_path, is_request_for, is_typed_outcome, list_containers_path,
};
use crate::encode::ToJson;
use crate::error::ApiError;
use crate::json::json_text;
use crate::request::{OutboundRequest, SimpleResponse};
use vstd::prelude::*;

verus! {

/// Listing and creating containers, as the client's service for containers
/// does them.
pub trait ContainerTrait {
    /// The request that lists containers.
    fn get_containers_request(&self, all: bool, limit: i32, size: bool, filters: String) -> (r:
        OutboundRequest);

    /// Reads the answer to a listing.
    fn get_containers_response(&self, response: &SimpleResponse) -> (r: Result<
        Vec<Container>,
        ApiError,
    >);

    /// The request that creates a container.
    fn create_container_request(
        &self,
        name: &str,
        platform: &str,
        more: &CreateContainerFrom,
    ) -> (r: OutboundRequest);

    /// Reads the answer to a creation.
    fn create_container_response(&self, response: &SimpleResponse) -> (r: Result<
        CreateContainerResponseFromAPI,
        ApiError,
    >);
}

impl ContainerTrait for Client {
    fn get_containers_request(&self, all: bool, limit: i32, size: bool, filters: String) -> (r:
        OutboundRequest)
        ensures
            is_request_for(
                r,
                self.containers.url@,
                Operation::ListContainers,
                list_containers_path(all, limit, size, filters@),
                Seq::empty(),
            ),
    {
        self.containers.list_containers_request(all, limit, size, filters)
    }

    fn get_containers_response(&self, response: &SimpleResponse) -> (r: Result<
        Vec<Container>,
        ApiError,
    >)
        ensures
            is_typed_outcome::<Vec<Container>>(
                success_status(Operation::ListContainers),
                response.status,
                response.body@,
                r,
            ),
    {
        self.containers.list_containers_response(response)
    }

    fn create_container_request(
        &self,
        name: &str,
        platform: &str,
        more: &CreateContainerFrom,
    ) -> (r: OutboundRequest)
        ensures
            is_request_for(
                r,
                self.containers.url@,
                Operation::CreateContainer,
                create_container_path(name@, platform@),
                json_text(CreateContainerFrom::encoded(more@)),
            ),
    {
        self.containers.create_container_request(name, platform, more)
    }

    fn create_container_response(&self, response: &SimpleResponse) -> (r: Result<
        CreateContainerResponseFromAPI,
        ApiError,
    >)
        ensures
            is_typed_outcome::<CreateContainerResponseFromAPI>(
                success_status(Operation::CreateContainer),
                response.status,
                response.body@,
                r,
            ),
    {
        self.containers.create_container_response(response)
    }
}

} // verus!

//! Typed client core for a container engine's local HTTP control plane.
//!
//! The library knows the catalog of endpoints, builds the request for each
//! operation, classifies an answer by its status and reads its body into a
//! typed result or a structured error. Moving the bytes over the socket is
//! left to the caller.

pub mod api;
pub mod client;
pub mod container;
pub mod container_create;
pub mod container_inspect;
pub mod container_network;
pub mod container_procceses;
pub mod container_stats;
pub mod container_structs;
pub mod container_update;
pub mod containers_service;
pub mod decode;
pub mod duplicate;
pub mod encode;
pub mod error;
pub mod json;
pub mod network;
pub mod request;
pub mod text;

use crate::client::{Client, ClientTrait};
use vstd::prelude::*;

verus! {

/// A client of the server behind the socket at `url`.
pub fn new(url: String) -> (client: Client)
    ensures
        client.url@ == url@,
        client.containers.url@ == url@,
{
    Client::new(url)
}

} // verus!

//! The container operations: for each, the request that asks for it and the
//! reading of the answer. Sending the one and receiving the other is the
//! transport's part.

use crate::api::{
    endpoint, is_templated, method_of, prefix_of, success_status, suffix_of, EmptyOk,
    ErrorMessage, Operation,
};
use crate::container_create::{
    CreateContainerFrom, CreateContainerResponseFromAPI, CreateContainerResponseFromAPIView,
};
use crate::container_inspect::{InspectedContainer, InspectedContainerView};
use crate::container_procceses::{ContainerProcessesResponse, ContainerProcessesResponseView};
use crate::container_stats::{Stats, StatsView};
use crate::container_structs::{Container, ContainerView};
use crate::decode::FromJson;
use crate::encode::ToJson;
use crate::error::{
    err, is_error_of_body, ApiError, ApiErrorView, NOT_UTF8, UNEXPECTED_SHAPE, UNKNOWN,
};
use crate::json::{error_text, json_parse, json_text, parse, render, JsonValue};
use crate::request::{
    classify, fixed_headers, request, Classified, OutboundRequest, SimpleResponse,
};
use crate::text::{
    bool_chars, decimal, render_bool, render_i64, render_u64, text_of_bytes, utf8_text,
};
use vstd::prelude::*;
use vstd::string::StringExecFns;

verus! {

/// The handle to the container operations of the server behind `url`.
#[derive(Debug, Clone, PartialEq)]
pub struct ContainersService {
    pub url: String,
}

/// The path of `op` before its query: the catalog's prefix, then the
/// identifier verbatim and the suffix where the operation takes one.
pub open spec fn base_path_of(op: Operation, id: Seq<char>) -> Seq<char> {
    if is_templated(op) {
        prefix_of(op) + id + suffix_of(op)
    } else {
        prefix_of(op)
    }
}

/// Writes the path of `op` before its query.
pub fn base_path(op: Operation, id: &str) -> (path: String)
    ensures
        path@ == base_path_of(op, id@),
{
    let e = endpoint(op);
    let mut path = String::from_str(e.prefix);
    if e.templated {
        path.append(id);
        path.append(e.suffix);
    }
    path
}

/// Whether `r` is the request for `op` on the server behind `socket`, with
/// the given path and body.
pub open spec fn is_request_for(
    r: OutboundRequest,
    socket: Seq<char>,
    op: Operation,
    path: Seq<char>,
    body: Seq<char>,
) -> bool {
    &&& r.socket@ == socket
    &&& r.method == method_of(op)
    &&& r.path@ == path
    &&& r.body@ == body
    &&& r.headers.deep_view() == fixed_headers()
}

/// Whether `r` is what an answer with the given status and body gives for
/// an operation whose result has the shape `T` and whose success status is
/// `expected`.
///
/// Any other status gives the error of the body. On success an empty body
/// gives the blank value; any other body has to be a JSON document of the
/// shape `T`. A value that comes out has each key of a dictionary once.
pub open spec fn is_typed_outcome<T: FromJson>(
    expected: u16,
    status: u16,
    body: Seq<u8>,
    r: Result<T, ApiError>,
) -> bool {
    &&& r is Ok ==> T::sound(r->Ok_0.deep_view())
    &&& if status != expected {
        r is Err && is_error_of_body(body, r->Err_0@)
    } else if body.len() == 0 {
        r is Ok && r->Ok_0.deep_view() == T::blank()
    } else {
        match json_parse(body) {
            Some(document) => match T::decoded(document) {
                Some(value) => r is Ok && r->Ok_0.deep_view() == value,
                None => r is Err && r->Err_0@ == ApiErrorView::Schema(UNEXPECTED_SHAPE@),
            },
            None => r is Err && r->Err_0@ is Schema,
        }
    }
}

/// Whether `r` is what an answer with the given status and body gives for
/// an operation without a result: success exactly on the status `expected`,
/// whatever the body, and else the error of the body.
pub open spec fn is_unit_outcome(
    expected: u16,
    status: u16,
    body: Seq<u8>,
    r: Result<EmptyOk, ApiError>,
) -> bool {
    if status != expected {
        r is Err && is_error_of_body(body, r->Err_0@)
    } else {
        r is Ok
    }
}

/// Whether `r` is what an answer with the given status and body gives for
/// an operation whose result is the body as text.
pub open spec fn is_text_outcome(
    expected: u16,
    status: u16,
    body: Seq<u8>,
    r: Result<String, ApiError>,
) -> bool {
    if status != expected {
        r is Err && is_error_of_body(body, r->Err_0@)
    } else {
        match text_of_bytes(body) {
            Some(text) => r is Ok && r->Ok_0@ == text,
            None => r is Err && r->Err_0@ == ApiErrorView::Schema(NOT_UTF8@),
        }
    }
}

/// Reads an answer as a value of the shape `T`.
pub fn decode_response<T: FromJson>(expected: u16, response: &SimpleResponse) -> (r: Result<
    T,
    ApiError,
>)
    ensures
        is_typed_outcome::<T>(expected, response.status, response.body@, r),
{
    match classify(response, expected) {
        Classified::ServerError(body) => Err(err(body)),
        Classified::Success(body) => {
            if body.len() == 0 {
                proof {
                    T::lemma_blank_sound();
                }
                return Ok(T::absent());
            }
            match parse(body) {
                Ok(document) => match T::from_json(&document) {
                    Some(value) => {
                        proof {
                            T::lemma_decoded_sound(document@);
                        }
                        Ok(value)
                    },
                    None => Err(ApiError::Schema(String::from_str(UNEXPECTED_SHAPE))),
                },
                Err(failure) => Err(ApiError::Schema(error_text(&failure))),
            }
        },
    }
}

/// Reads an answer that carries no result.
pub fn unit_response(expected: u16, response: &SimpleResponse) -> (r: Result<EmptyOk, ApiError>)
    ensures
        is_unit_outcome(expected, response.status, response.body@, r),
{
    match classify(response, expected) {
        Classified::ServerError(body) => Err(err(body)),
        Classified::Success(_) => Ok(()),
    }
}

/// Reads an answer whose body is the result, as text.
pub fn text_response(expected: u16, response: &SimpleResponse) -> (r: Result<String, ApiError>)
    ensures
        is_text_outcome(expected, response.status, response.body@, r),
{
    match classify(response, expected) {
        Classified::ServerError(body) => Err(err(body)),
        Classified::Success(body) => match utf8_text(body) {
            Some(text) => Ok(text),
            None => Err(ApiError::Schema(String::from_str(NOT_UTF8))),
        },
    }
}

/// The path and query of the request to list containers.
pub open spec fn list_containers_path(
    all: bool,
    limit: i32,
    size: bool,
    filters: Seq<char>,
) -> Seq<char> {
    base_path_of(Operation::ListContainers, Seq::empty())
        + "?all="@ + bool_chars(all)
        + "&limit="@ + decimal(limit as int)
        + "&size="@ + bool_chars(size)
        + "&filters="@ + filters
}

/// The path and query of the request to create a container.
pub open spec fn create_container_path(name: Seq<char>, platform: Seq<char>) -> Seq<char> {
    base_path_of(Operation::CreateContainer, Seq::empty())
        + "?name="@ + name
        + "&platform="@ + platform
}

/// The path and query of the request to inspect a container.
pub open spec fn inspect_container_path(id: Seq<char>, size: bool) -> Seq<char> {
    base_path_of(Operation::InspectContainer, id) + "?size="@ + bool_chars(size)
}

/// The path and query of the request to list the processes of a container.
pub open spec fn list_processes_path(id: Seq<char>, ps_args: Seq<char>) -> Seq<char> {
    base_path_of(Operation::ListProcesses, id) + "?ps_args="@ + ps_args
}

/// The path and query of the request to fetch the logs of a container.
pub open spec fn get_container_logs_path(
    id: Seq<char>,
    stdout: bool,
    stderr: bool,
    timestamps: bool,
) -> Seq<char> {
    base_path_of(Operation::GetContainerLogs, id)
        + "?stdout="@ + bool_chars(stdout)
        + "&stderr="@ + bool_chars(stderr)
        + "&timestamps="@ + bool_chars(timestamps)
}

/// The path and query of the request to fetch the statistics of a container.
pub open spec fn get_stats_container_path(
    id: Seq<char>,
    stream: bool,
    one_shot: bool,
) -> Seq<char> {
    base_path_of(Operation::GetStatsContainer, id)
        + "?stream="@ + bool_chars(stream)
        + "&one-shot="@ + bool_chars(one_shot)
}

/// The path and query of the request to resize the terminal of a container.
pub open spec fn resize_container_tty_path(id: Seq<char>, height: u32, width: u32) -> Seq<char> {
    base_path_of(Operation::ResizeContainerTty, id)
        + "?h="@ + decimal(height as int)
        + "&w="@ + decimal(width as int)
}

/// The path and query of the request to start a container.
pub open spec fn start_container_path(id: Seq<char>) -> Seq<char> {
    base_path_of(Operation::StartContainer, id)
}

/// The path and query of the request to stop a container, killing it after `t` seconds.
pub open spec fn stop_container_path(id: Seq<char>, t: i32) -> Seq<char> {
    base_path_of(Operation::StopContainer, id) + "?t="@ + decimal(t as int)
}

/// The path and query of the request to restart a container, killing it after `t` seconds.
pub open spec fn restart_container_path(id: Seq<char>, t: i32) -> Seq<char> {
    base_path_of(Operation::RestartContainer, id) + "?t="@ + decimal(t as int)
}

/// The path and query of the request to send a signal to a container.
pub open spec fn kill_container_path(id: Seq<char>, signal: Seq<char>) -> Seq<char> {
    base_path_of(Operation::KillContainer, id) + "?signal="@ + signal
}

/// The path and query of the request to pause a container.
pub open spec fn pause_container_path(id: Seq<char>) -> Seq<char> {
    base_path_of(Operation::PauseContainer, id)
}

/// The path and query of the request to resume a paused container.
pub open spec fn unpause_container_path(id: Seq<char>) -> Seq<char> {
    base_path_of(Operation::UnpauseContainer, id)
}

/// The path and query of the request to wait until a container meets `condition`.
pub open spec fn wait_container_path(id: Seq<char>, condition: Seq<char>) -> Seq<char> {
    base_path_of(Operation::WaitContainer, id) + "?condition="@ + condition
}

/// The path and query of the request to remove a container.
pub open spec fn remove_container_path(
    id: Seq<char>,
    v: bool,
    force: bool,
    link: bool,
) -> Seq<char> {
    base_path_of(Operation::RemoveContainer, id)
        + "?v="@ + bool_chars(v)
        + "&force="@ + bool_chars(force)
        + "&link="@ + bool_chars(link)
}

impl ContainersService {
    /// The request to list containers.
    pub fn list_containers_request(
        &self,
        all: bool,
        limit: i32,
        size: bool,
        filters: String,
    ) -> (r: OutboundRequest)
        ensures
            is_request_for(
                r,
                self.url@,
                Operation::ListContainers,
                list_containers_path(all, limit, size, filters@),
                Seq::empty(),
            ),
    {
        let mut path = base_path(Operation::ListContainers, "");
        path.append("?all=");
        path.append(render_bool(all));
        path.append("&limit=");
        path.append(render_i64(limit as i64).as_str());
        path.append("&size=");
        path.append(render_bool(size));
        path.append("&filters=");
        path.append(filters.as_str());
        let body = String::new();
        request(self.url.clone(), path, endpoint(Operation::ListContainers).method, body)
    }

    /// Reads the answer to the request of the same name.
    pub fn list_containers_response(&self, response: &SimpleResponse) -> (r: Result<
        Vec<Container>,
        ApiError,
    >)
        ensures
            is_typed_outcome::<Vec<Container>>(
                success_status(Operation::ListContainers),
                response.status,
                response.body@,
                r,
            ),
    {
        decode_response::<Vec<Container>>(endpoint(Operation::ListContainers).success, response)
    }

    /// The request to create a container.
    pub fn create_container_request(
        &self,
        name: &str,
        platform: &str,
        options: &CreateContainerFrom,
    ) -> (r: OutboundRequest)
        ensures
            is_request_for(
                r,
                self.url@,
                Operation::CreateContainer,
                create_container_path(name@, platform@),
                json_text(CreateContainerFrom::encoded(options@)),
            ),
    {
        let mut path = base_path(Operation::CreateContainer, "");
        path.append("?name=");
        path.append(name);
        path.append("&platform=");
        path.append(platform);
        let body = render(&options.to_json());
        request(self.url.clone(), path, endpoint(Operation::CreateContainer).method, body)
    }

    /// Reads the answer to the request of the same name.
    pub fn create_container_response(&self, response: &SimpleResponse) -> (r: Result<
        CreateContainerResponseFromAPI,
        ApiError,
    >)
        ensures
            is_typed_outcome::<CreateContainerResponseFromAPI>(
                success_status(Operation::CreateContainer),
                response.status,
                response.body@,
                r,
            ),
    {
        decode_response::<CreateContainerResponseFromAPI>(
            endpoint(Operation::CreateContainer).success,
            response,
        )
    }

    /// The request to inspect a container.
    pub fn inspect_container_request(&self, id: &str, size: bool) -> (r: OutboundRequest)
        ensures
            is_request_for(
                r,
                self.url@,
                Operation::InspectContainer,
                inspect_container_path(id@, size),
                Seq::empty(),
            ),
    {
        let mut path = base_path(Operation::InspectContainer, id);
        path.append("?size=");
        path.append(render_bool(size));
        let body = String::new();
        request(self.url.clone(), path, endpoint(Operation::InspectContainer).method, body)
    }

    /// Reads the answer to the request of the same name.
    pub fn inspect_container_response(&self, response: &SimpleResponse) -> (r: Result<
        InspectedContainer,
        ApiError,
    >)
        ensures
            is_typed_outcome::<InspectedContainer>(
                success_status(Operation::InspectContainer),
                response.status,
                response.body@,
                r,
            ),
    {
        decode_response::<InspectedContainer>(
            endpoint(Operation::InspectContainer).success,
            response,
        )
    }

    /// The request to list the processes of a container.
    pub fn list_processes_request(&self, id: &str, ps_args: &str) -> (r: OutboundRequest)
        ensures
            is_request_for(
                r,
                self.url@,
                Operation::ListProcesses,
                list_processes_path(id@, ps_args@),
                Seq::empty(),
            ),
    {
        let mut path = base_path(Operation::ListProcesses, id);
        path.append("?ps_args=");
        path.append(ps_args);
        let body = String::new();
        request(self.url.clone(), path, endpoint(Operation::ListProcesses).method, body)
    }

    /// Reads the answer to the request of the same name.
    pub fn list_processes_response(&self, response: &SimpleResponse) -> (r: Result<
        ContainerProcessesResponse,
        ApiError,
    >)
        ensures
            is_typed_outcome::<ContainerProcessesResponse>(
                success_status(Operation::ListProcesses),
                response.status,
                response.body@,
                r,
            ),
    {
        decode_response::<ContainerProcessesResponse>(
            endpoint(Operation::ListProcesses).success,
            response,
        )
    }

    /// The request to fetch the logs of a container.
    pub fn get_container_logs_request(
        &self,
        id: &str,
        stdout: bool,
        stderr: bool,
        timestamps: bool,
    ) -> (r: OutboundRequest)
        ensures
            is_request_for(
                r,
                self.url@,
                Operation::GetContainerLogs,
                get_container_logs_path(id@, stdout, stderr, timestamps),
                Seq::empty(),
            ),
    {
        let mut path = base_path(Operation::GetContainerLogs, id);
        path.append("?stdout=");
        path.append(render_bool(stdout));
        path.append("&stderr=");
        path.append(render_bool(stderr));
        path.append("&timestamps=");
        path.append(render_bool(timestamps));
        let body = String::new();
        request(self.url.clone(), path, endpoint(Operation::GetContainerLogs).method, body)
    }

    /// Reads the answer to the request of the same name.
    pub fn get_container_logs_response(&self, response: &SimpleResponse) -> (r: Result<
        String,
        ApiError,
    >)
        ensures
            is_text_outcome(
                success_status(Operation::GetContainerLogs),
                response.status,
                response.body@,
                r,
            ),
    {
        text_response(endpoint(Operation::GetContainerLogs).success, response)
    }

    /// The request to fetch the statistics of a container.
    pub fn get_stats_container_request(
        &self,
        id: &str,
        stream: bool,
        one_shot: bool,
    ) -> (r: OutboundRequest)
        ensures
            is_request_for(
                r,
                self.url@,
                Operation::GetStatsContainer,
                get_stats_container_path(id@, stream, one_shot),
                Seq::empty(),
            ),
    {
        let mut path = base_path(Operation::GetStatsContainer, id);
        path.append("?stream=");
        path.append(render_bool(stream));
        path.append("&one-shot=");
        path.append(render_bool(one_shot));
        let body = String::new();
        request(self.url.clone(), path, endpoint(Operation::GetStatsContainer).method, body)
    }

    /// Reads the answer to the request of the same name.
    pub fn get_stats_container_response(&self, response: &SimpleResponse) -> (r: Result<
        Stats,
        ApiError,
    >)
        ensures
            is_typed_outcome::<Stats>(
                success_status(Operation::GetStatsContainer),
                response.status,
                response.body@,
                r,
            ),
    {
        decode_response::<Stats>(endpoint(Operation::GetStatsContainer).success, response)
    }

    /// The request to resize the terminal of a container.
    pub fn resize_container_tty_request(
        &self,
        id: &str,
        height: u32,
        width: u32,
    ) -> (r: OutboundRequest)
        ensures
            is_request_for(
                r,
                self.url@,
                Operation::ResizeContainerTty,
                resize_container_tty_path(id@, height, width),
                Seq::empty(),
            ),
    {
        let mut path = base_path(Operation::ResizeContainerTty, id);
        path.append("?h=");
        path.append(render_u64(height as u64).as_str());
        path.append("&w=");
        path.append(render_u64(width as u64).as_str());
        let body = String::new();
        request(self.url.clone(), path, endpoint(Operation::ResizeContainerTty).method, body)
    }

    /// Reads the answer to the request of the same name.
    pub fn resize_container_tty_response(&self, response: &SimpleResponse) -> (r: Result<
        EmptyOk,
        ApiError,
    >)
        ensures
            is_unit_outcome(
                success_status(Operation::ResizeContainerTty),
                response.status,
                response.body@,
                r,
            ),
    {
        unit_response(endpoint(Operation::ResizeContainerTty).success, response)
    }

    /// The request to start a container.
    pub fn start_container_request(&self, id: &str) -> (r: OutboundRequest)
        ensures
            is_request_for(
                r,
                self.url@,
                Operation::StartContainer,
                start_container_path(id@),
                Seq::empty(),
            ),
    {
        let mut path = base_path(Operation::StartContainer, id);
        let body = String::new();
        request(self.url.clone(), path, endpoint(Operation::StartContainer).method, body)
    }

    /// Reads the answer to the request of the same name.
    pub fn start_container_response(&self, response: &SimpleResponse) -> (r: Result<
        EmptyOk,
        ApiError,
    >)
        ensures
            is_unit_outcome(
                success_status(Operation::StartContainer),
                response.status,
                response.body@,
                r,
            ),
    {
        unit_response(endpoint(Operation::StartContainer).success, response)
    }

    /// The request to stop a container, killing it after `t` seconds.
    pub fn stop_container_request(&self, id: &str, t: i32) -> (r: OutboundRequest)
        ensures
            is_request_for(
                r,
                self.url@,
                Operation::StopContainer,
                stop_container_path(id@, t),
                Seq::empty(),
            ),
    {
        let mut path = base_path(Operation::StopContainer, id);
        path.append("?t=");
        path.append(render_i64(t as i64).as_str());
        let body = String::new();
        request(self.url.clone(), path, endpoint(Operation::StopContainer).method, body)
    }

    /// Reads the answer to the request of the same name.
    pub fn stop_container_response(&self, response: &SimpleResponse) -> (r: Result<
        EmptyOk,
        ApiError,
    >)
        ensures
            is_unit_outcome(
                success_status(Operation::StopContainer),
                response.status,
                response.body@,
                r,
            ),
    {
        unit_response(endpoint(Operation::StopContainer).success, response)
    }

    /// The request to restart a container, killing it after `t` seconds.
    pub fn restart_container_request(&self, id: &str, t: i32) -> (r: OutboundRequest)
        ensures
            is_request_for(
                r,
                self.url@,
                Operation::RestartContainer,
                restart_container_path(id@, t),
                Seq::empty(),
            ),
    {
        let mut path = base_path(Operation::RestartContainer, id);
        path.append("?t=");
        path.append(render_i64(t as i64).as_str());
        let body = String::new();
        request(self.url.clone(), path, endpoint(Operation::RestartContainer).method, body)
    }

    /// Reads the answer to the request of the same name.
    pub fn restart_container_response(&self, response: &SimpleResponse) -> (r: Result<
        EmptyOk,
        ApiError,
    >)
        ensures
            is_unit_outcome(
                success_status(Operation::RestartContainer),
                response.status,
                response.body@,
                r,
            ),
    {
        unit_response(endpoint(Operation::RestartContainer).success, response)
    }

    /// The request to send a signal to a container.
    pub fn kill_container_request(&self, id: &str, signal: &str) -> (r: OutboundRequest)
        ensures
            is_request_for(
                r,
                self.url@,
                Operation::KillContainer,
                kill_container_path(id@, signal@),
                Seq::empty(),
            ),
    {
        let mut path = base_path(Operation::KillContainer, id);
        path.append("?signal=");
        path.append(signal);
        let body = String::new();
        request(self.url.clone(), path, endpoint(Operation::KillContainer).method, body)
    }

    /// Reads the answer to the request of the same name.
    pub fn kill_container_response(&self, response: &SimpleResponse) -> (r: Result<
        EmptyOk,
        ApiError,
    >)
        ensures
            is_unit_outcome(
                success_status(Operation::KillContainer),
                response.status,
                response.body@,
                r,
            ),
    {
        unit_response(endpoint(Operation::KillContainer).success, response)
    }

    /// The request to pause a container.
    pub fn pause_container_request(&self, id: &str) -> (r: OutboundRequest)
        ensures
            is_request_for(
                r,
                self.url@,
                Operation::PauseContainer,
                pause_container_path(id@),
                Seq::empty(),
            ),
    {
        let mut path = base_path(Operation::PauseContainer, id);
        let body = String::new();
        request(self.url.clone(), path, endpoint(Operation::PauseContainer).method, body)
    }

    /// Reads the answer to the request of the same name.
    pub fn pause_container_response(&self, response: &SimpleResponse) -> (r: Result<
        EmptyOk,
        ApiError,
    >)
        ensures
            is_unit_outcome(
                success_status(Operation::PauseContainer),
                response.status,
                response.body@,
                r,
            ),
    {
        unit_response(endpoint(Operation::PauseContainer).success, response)
    }

    /// The request to resume a paused container.
    pub fn unpause_container_request(&self, id: &str) -> (r: OutboundRequest)
        ensures
            is_request_for(
                r,
                self.url@,
                Operation::UnpauseContainer,
                unpause_container_path(id@),
                Seq::empty(),
            ),
    {
        let mut path = base_path(Operation::UnpauseContainer, id);
        let body = String::new();
        request(self.url.clone(), path, endpoint(Operation::UnpauseContainer).method, body)
    }

    /// Reads the answer to the request of the same name.
    pub fn unpause_container_response(&self, response: &SimpleResponse) -> (r: Result<
        EmptyOk,
        ApiError,
    >)
        ensures
            is_unit_outcome(
                success_status(Operation::UnpauseContainer),
                response.status,
                response.body@,
                r,
            ),
    {
        unit_response(endpoint(Operation::UnpauseContainer).success, response)
    }

    /// The request to wait until a container meets `condition`.
    pub fn wait_container_request(&self, id: &str, condition: &str) -> (r: OutboundRequest)
        ensures
            is_request_for(
                r,
                self.url@,
                Operation::WaitContainer,
                wait_container_path(id@, condition@),
                Seq::empty(),
            ),
    {
        let mut path = base_path(Operation::WaitContainer, id);
        path.append("?condition=");
        path.append(condition);
        let body = String::new();
        request(self.url.clone(), path, endpoint(Operation::WaitContainer).method, body)
    }

    /// Reads the answer to the request of the same name.
    pub fn wait_container_response(&self, response: &SimpleResponse) -> (r: Result<
        EmptyOk,
        ApiError,
    >)
        ensures
            is_unit_outcome(
                success_status(Operation::WaitContainer),
                response.status,
                response.body@,
                r,
            ),
    {
        unit_response(endpoint(Operation::WaitContainer).success, response)
    }

    /// The request to remove a container.
    pub fn remove_container_request(
        &self,
        id: &str,
        v: bool,
        force: bool,
        link: bool,
    ) -> (r: OutboundRequest)
        ensures
            is_request_for(
                r,
                self.url@,
                Operation::RemoveContainer,
                remove_container_path(id@, v, force, link),
                Seq::empty(),
            ),
    {
        let mut path = base_path(Operation::RemoveContainer, id);
        path.append("?v=");
        path.append(render_bool(v));
        path.append("&force=");
        path.append(render_bool(force));
        path.append("&link=");
        path.append(render_bool(link));
        let body = String::new();
        request(self.url.clone(), path, endpoint(Operation::RemoveContainer).method, body)
    }

    /// Reads the answer to the request of the same name.
    pub fn remove_container_response(&self, response: &SimpleResponse) -> (r: Result<
        EmptyOk,
        ApiError,
    >)
        ensures
            is_unit_outcome(
                success_status(Operation::RemoveContainer),
                response.status,
                response.body@,
                r,
            ),
    {
        unit_response(endpoint(Operation::RemoveContainer).success, response)
    }

}

/// The result of an operation, whichever it was.
#[derive(Debug, PartialEq)]
pub enum OperationResult {
    Containers(Vec<Container>),
    Created(CreateContainerResponseFromAPI),
    Inspected(InspectedContainer),
    Processes(ContainerProcessesResponse),
    Logs(String),
    Statistics(Stats),
    Unit,
}

/// The mathematical value of an [`OperationResult`].
pub ghost enum OperationResultView {
    Containers(Seq<ContainerView>),
    Created(CreateContainerResponseFromAPIView),
    Inspected(InspectedContainerView),
    Processes(ContainerProcessesResponseView),
    Logs(Seq<char>),
    Statistics(StatsView),
    Unit,
}

impl DeepView for OperationResult {
    type V = OperationResultView;

    open spec fn deep_view(&self) -> OperationResultView {
        match self {
            OperationResult::Containers(v) => OperationResultView::Containers(v.deep_view()),
            OperationResult::Created(v) => OperationResultView::Created(v.deep_view()),
            OperationResult::Inspected(v) => OperationResultView::Inspected(v.deep_view()),
            OperationResult::Processes(v) => OperationResultView::Processes(v.deep_view()),
            OperationResult::Logs(v) => OperationResultView::Logs(v.deep_view()),
            OperationResult::Statistics(v) => OperationResultView::Statistics(v.deep_view()),
            OperationResult::Unit => OperationResultView::Unit,
        }
    }
}

impl View for OperationResult {
    type V = OperationResultView;

    open spec fn view(&self) -> OperationResultView {
        self.deep_view()
    }
}

/// The shapes a result can have.
#[derive(Clone, Copy, Debug, PartialEq, Eq, Structural)]
pub enum Shape {
    Containers,
    Created,
    Inspected,
    Processes,
    Logs,
    Statistics,
    Unit,
}

/// The shape that the catalog declares for the result of `op`.
pub open spec fn shape_of(op: Operation) -> Shape {
    match op {
        Operation::ListContainers => Shape::Containers,
        Operation::CreateContainer => Shape::Created,
        Operation::InspectContainer => Shape::Inspected,
        Operation::ListProcesses => Shape::Processes,
        Operation::GetContainerLogs => Shape::Logs,
        Operation::GetStatsContainer => Shape::Statistics,
        _ => Shape::Unit,
    }
}

/// The shape that a result has.
pub open spec fn shape_of_result(result: OperationResultView) -> Shape {
    match result {
        OperationResultView::Containers(_) => Shape::Containers,
        OperationResultView::Created(_) => Shape::Created,
        OperationResultView::Inspected(_) => Shape::Inspected,
        OperationResultView::Processes(_) => Shape::Processes,
        OperationResultView::Logs(_) => Shape::Logs,
        OperationResultView::Statistics(_) => Shape::Statistics,
        OperationResultView::Unit => Shape::Unit,
    }
}

/// What an absent or empty body stands for in a given shape: the blank
/// value of a structured shape, the empty text, or the unit.
pub open spec fn blank_result(shape: Shape) -> OperationResultView {
    match shape {
        Shape::Containers => OperationResultView::Containers(<Vec<Container>>::blank()),
        Shape::Created => OperationResultView::Created(<CreateContainerResponseFromAPI>::blank()),
        Shape::Inspected => OperationResultView::Inspected(<InspectedContainer>::blank()),
        Shape::Processes => OperationResultView::Processes(<ContainerProcessesResponse>::blank()),
        Shape::Logs => OperationResultView::Logs(Seq::empty()),
        Shape::Statistics => OperationResultView::Statistics(<Stats>::blank()),
        Shape::Unit => OperationResultView::Unit,
    }
}

/// What a well-formed document stands for in a structured shape, if it fits.
pub open spec fn decoded_result(shape: Shape, document: JsonValue) -> Option<OperationResultView> {
    match shape {
        Shape::Containers => match <Vec<Container>>::decoded(document) {
            Some(v) => Some(OperationResultView::Containers(v)),
            None => None,
        },
        Shape::Created => match <CreateContainerResponseFromAPI>::decoded(document) {
            Some(v) => Some(OperationResultView::Created(v)),
            None => None,
        },
        Shape::Inspected => match <InspectedContainer>::decoded(document) {
            Some(v) => Some(OperationResultView::Inspected(v)),
            None => None,
        },
        Shape::Processes => match <ContainerProcessesResponse>::decoded(document) {
            Some(v) => Some(OperationResultView::Processes(v)),
            None => None,
        },
        Shape::Statistics => match <Stats>::decoded(document) {
            Some(v) => Some(OperationResultView::Statistics(v)),
            None => None,
        },
        _ => None,
    }
}

/// The result that the body of a successful answer stands for in a given
/// shape; `None` where the body does not fit the shape.
pub open spec fn success_value(shape: Shape, body: Seq<u8>) -> Option<OperationResultView> {
    match shape {
        Shape::Unit => Some(OperationResultView::Unit),
        Shape::Logs => match text_of_bytes(body) {
            Some(text) => Some(OperationResultView::Logs(text)),
            None => None,
        },
        _ => if body.len() == 0 {
            Some(blank_result(shape))
        } else {
            match json_parse(body) {
                Some(document) => decoded_result(shape, document),
                None => None,
            }
        },
    }
}

/// Whether every dictionary in a result has each of its keys once.
pub open spec fn sound_result(result: OperationResultView) -> bool {
    match result {
        OperationResultView::Containers(v) => <Vec<Container>>::sound(v),
        OperationResultView::Created(v) => <CreateContainerResponseFromAPI>::sound(v),
        OperationResultView::Inspected(v) => <InspectedContainer>::sound(v),
        OperationResultView::Processes(v) => <ContainerProcessesResponse>::sound(v),
        OperationResultView::Statistics(v) => <Stats>::sound(v),
        _ => true,
    }
}

/// Whether `r` is what an answer with the given status and body gives for
/// `op`: the error of the body on any status but the operation's success
/// status; on that status the value of the body in the operation's shape,
/// or a schema error where the body does not fit. A result that comes out
/// has each key of a dictionary once.
pub open spec fn is_outcome(
    op: Operation,
    status: u16,
    body: Seq<u8>,
    r: Result<OperationResult, ApiError>,
) -> bool {
    &&& r is Ok ==> sound_result(r->Ok_0@)
    &&& if status != success_status(op) {
        r is Err && is_error_of_body(body, r->Err_0@)
    } else {
        match success_value(shape_of(op), body) {
            Some(value) => r is Ok && r->Ok_0@ == value,
            None => r is Err && r->Err_0@ is Schema,
        }
    }
}

impl ContainersService {
    /// Reads the answer to the request of `op`.
    pub fn respond(&self, op: Operation, response: &SimpleResponse) -> (r: Result<
        OperationResult,
        ApiError,
    >)
        ensures
            is_outcome(op, response.status, response.body@, r),
    {
        match op {
            Operation::ListContainers => match self.list_containers_response(response) {
                Ok(v) => Ok(OperationResult::Containers(v)),
                Err(e) => Err(e),
            },
            Operation::CreateContainer => match self.create_container_response(response) {
                Ok(v) => Ok(OperationResult::Created(v)),
                Err(e) => Err(e),
            },
            Operation::InspectContainer => match self.inspect_container_response(response) {
                Ok(v) => Ok(OperationResult::Inspected(v)),
                Err(e) => Err(e),
            },
            Operation::ListProcesses => match self.list_processes_response(response) {
                Ok(v) => Ok(OperationResult::Processes(v)),
                Err(e) => Err(e),
            },
            Operation::GetContainerLogs => match self.get_container_logs_response(response) {
                Ok(v) => Ok(OperationResult::Logs(v)),
                Err(e) => Err(e),
            },
            Operation::GetStatsContainer => match self.get_stats_container_response(response) {
                Ok(v) => Ok(OperationResult::Statistics(v)),
                Err(e) => Err(e),
            },
            Operation::ResizeContainerTty => match self.resize_container_tty_response(response) {
                Ok(_) => Ok(OperationResult::Unit),
                Err(e) => Err(e),
            },
            Operation::StartContainer => match self.start_container_response(response) {
                Ok(_) => Ok(OperationResult::Unit),
                Err(e) => Err(e),
            },
            Operation::StopContainer => match self.stop_container_response(response) {
                Ok(_) => Ok(OperationResult::Unit),
                Err(e) => Err(e),
            },
            Operation::RestartContainer => match self.restart_container_response(response) {
                Ok(_) => Ok(OperationResult::Unit),
                Err(e) => Err(e),
            },
            Operation::KillContainer => match self.kill_container_response(response) {
                Ok(_) => Ok(OperationResult::Unit),
                Err(e) => Err(e),
            },
            Operation::PauseContainer => match self.pause_container_response(response) {
                Ok(_) => Ok(OperationResult::Unit),
                Err(e) => Err(e),
            },
            Operation::UnpauseContainer => match self.unpause_container_response(response) {
                Ok(_) => Ok(OperationResult::Unit),
                Err(e) => Err(e),
            },
            Operation::WaitContainer => match self.wait_container_response(response) {
                Ok(_) => Ok(OperationResult::Unit),
                Err(e) => Err(e),
            },
            Operation::RemoveContainer => match self.remove_container_response(response) {
                Ok(_) => Ok(OperationResult::Unit),
                Err(e) => Err(e),
            },
        }
    }
}

/// On its success status an operation gives a result of its declared shape,
/// which is the value of the body in that shape, and the blank value of
/// the shape for an empty body. Where it fails on that status, the body did
/// not fit the shape and the error is a schema error.
pub proof fn lemma_success_gives_declared_shape(
    op: Operation,
    body: Seq<u8>,
    r: Result<OperationResult, ApiError>,
)
    requires
        is_outcome(op, success_status(op), body, r),
    ensures
        r is Ok ==> shape_of_result(r->Ok_0@) == shape_of(op) && success_value(shape_of(op), body)
            == Some(r->Ok_0@),
        r is Err ==> r->Err_0@ is Schema && success_value(shape_of(op), body) is None,
        body.len() == 0 ==> r is Ok && r->Ok_0@ == blank_result(shape_of(op)),
{
    if body.len() == 0 && shape_of(op) == Shape::Logs {
        assert(body =~= Seq::empty());
        assert(text_of_bytes(body) == Some(Seq::<char>::empty())) by {
            reveal_with_fuel(vstd::utf8::valid_utf8, 2);
            reveal_with_fuel(vstd::utf8::decode_utf8, 2);
        }
    }
}

/// On any status but its success status an operation fails, with the
/// server's error or a schema error.
pub proof fn lemma_other_status_fails(
    op: Operation,
    status: u16,
    body: Seq<u8>,
    r: Result<OperationResult, ApiError>,
)
    requires
        is_outcome(op, status, body, r),
        status != success_status(op),
    ensures
        r is Err,
        r->Err_0@ is Server || r->Err_0@ is Schema,
{
}

/// Listing containers twice with the same arguments asks the same thing
/// twice, and the same answer reads as the same list both times. Two
/// failures agree as well, but for the parser's message where the body was
/// no JSON.
pub proof fn lemma_list_containers_repeats(
    socket: Seq<char>,
    all: bool,
    limit: i32,
    size: bool,
    filters: Seq<char>,
    first_request: OutboundRequest,
    second_request: OutboundRequest,
    status: u16,
    body: Seq<u8>,
    first: Result<Vec<Container>, ApiError>,
    second: Result<Vec<Container>, ApiError>,
)
    requires
        is_request_for(
            first_request,
            socket,
            Operation::ListContainers,
            list_containers_path(all, limit, size, filters),
            Seq::empty(),
        ),
        is_request_for(
            second_request,
            socket,
            Operation::ListContainers,
            list_containers_path(all, limit, size, filters),
            Seq::empty(),
        ),
        is_typed_outcome::<Vec<Container>>(
            success_status(Operation::ListContainers),
            status,
            body,
            first,
        ),
        is_typed_outcome::<Vec<Container>>(
            success_status(Operation::ListContainers),
            status,
            body,
            second,
        ),
    ensures
        first_request.socket@ == second_request.socket@,
        first_request.method == second_request.method,
        first_request.path@ == second_request.path@,
        first_request.body@ == second_request.body@,
        first_request.headers.deep_view() == second_request.headers.deep_view(),
        first is Ok <==> second is Ok,
        first is Ok ==> first->Ok_0.deep_view() == second->Ok_0.deep_view(),
        first is Err ==> first->Err_0@ == second->Err_0@ || (first->Err_0@ is Schema
            && second->Err_0@ is Schema && json_parse(body) is None),
{
}

/// A failed answer without a body maps to the placeholder error; its body
/// is not looked at as JSON.
pub proof fn lemma_empty_error_body(e: ApiErrorView)
    requires
        is_error_of_body(Seq::empty(), e),
    ensures
        e == ApiErrorView::Server(UNKNOWN@),
{
}

/// A failed answer whose body is no JSON, or is JSON of another shape than
/// `{"message": ...}`, maps to a schema error, never to a server error with
/// a made-up message.
pub proof fn lemma_malformed_error_body(body: Seq<u8>, e: ApiErrorView)
    requires
        is_error_of_body(body, e),
        body.len() > 0,
        json_parse(body) is None || ErrorMessage::decoded(json_parse(body)->0) is None,
    ensures
        e is Schema,
{
}

} // verus!

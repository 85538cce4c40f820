//! The endpoint catalog: for each operation its path template, its HTTP
//! method and the one status code that counts as success.

use crate::container_create::CreateContainerResponseFromAPI;
use crate::container_inspect::InspectedContainer;
use crate::container_procceses::ContainerProcessesResponse;
use crate::container_stats::Stats;
use crate::container_structs::Container;
use crate::decode::{blank_of, field, field_of, FromJson};
use crate::json::{Json, JsonValue};
use vstd::prelude::*;

verus! {

/// The HTTP methods the catalog uses.
#[derive(Clone, Copy, Debug, PartialEq, Eq, Structural)]
pub enum Method {
    Get,
    Post,
    Delete,
}

/// The operations of the container API that this client knows.
#[derive(Clone, Copy, Debug, PartialEq, Eq, Structural)]
pub enum Operation {
    ListContainers,
    CreateContainer,
    InspectContainer,
    ListProcesses,
    GetContainerLogs,
    GetStatsContainer,
    ResizeContainerTty,
    StartContainer,
    StopContainer,
    RestartContainer,
    KillContainer,
    PauseContainer,
    UnpauseContainer,
    WaitContainer,
    RemoveContainer,
}

/// The result of an operation that answers with no body.
pub type EmptyOk = ();

/// The result of listing containers.
pub type ListContainersReturn = Vec<Container>;

/// The result of creating a container.
pub type CreateContainerReturn = CreateContainerResponseFromAPI;

/// The result of inspecting a container.
pub type InspectContainerReturn = InspectedContainer;

/// The result of listing a container's processes.
pub type ListProcessesReturn = ContainerProcessesResponse;

/// The result of fetching a container's logs.
pub type GetContainerLogsReturn = String;

/// The result of fetching a container's statistics.
pub type GetContainerStatsReturn = Stats;

pub const LIST_CONTAINERS: &'static str = "/containers/json";

pub const LIST_CONTAINERS_METHOD: Method = Method::Get;

pub const LIST_CONTAINERS_SUCCESS: u16 = 200;

pub const CREATE_CONTAINER: &'static str = "/containers/create";

pub const CREATE_CONTAINER_METHOD: Method = Method::Post;

pub const CREATE_CONTAINER_SUCCESS: u16 = 201;

pub const INSPECT_CONTAINER_START: &'static str = "/containers/";

pub const INSPECT_CONTAINER_END: &'static str = "/json";

pub const INSPECT_CONTAINER_METHOD: Method = Method::Get;

pub const INSPECT_CONTAINER_SUCCESS: u16 = 200;

pub const LIST_PROCESSES_START: &'static str = "/containers/";

pub const LIST_PROCESSES_END: &'static str = "/top";

pub const LIST_PROCESSES_METHOD: Method = Method::Get;

pub const LIST_PROCESSES_SUCCESS: u16 = 200;

pub const GET_CONTAINER_LOGS_START: &'static str = "/containers/";

pub const GET_CONTAINER_LOGS_END: &'static str = "/logs";

pub const GET_CONTAINER_LOGS_METHOD: Method = Method::Get;

pub const GET_CONTAINER_LOGS_SUCCESS: u16 = 200;

pub const GET_STATS_CONTAINER_START: &'static str = "/containers/";

pub const GET_STATS_CONTAINER_END: &'static str = "/stats";

pub const GET_STATS_CONTAINER_METHOD: Method = Method::Get;

pub const GET_STATS_CONTAINER_SUCCESS: u16 = 200;

pub const RESIZE_CONTAINER_TTY_START: &'static str = "/containers/";

pub const RESIZE_CONTAINER_TTY_END: &'static str = "/resize";

pub const RESIZE_CONTAINER_TTY_METHOD: Method = Method::Post;

pub const RESIZE_CONTAINER_TTY_SUCCESS: u16 = 200;

pub const START_CONTAINER_START: &'static str = "/containers/";

pub const START_CONTAINER_END: &'static str = "/start";

pub const START_CONTAINER_METHOD: Method = Method::Post;

pub const START_CONTAINER_SUCCESS: u16 = 204;

pub const STOP_CONTAINER_START: &'static str = "/containers/";

pub const STOP_CONTAINER_END: &'static str = "/stop";

pub const STOP_CONTAINER_METHOD: Method = Method::Post;

pub const STOP_CONTAINER_SUCCESS: u16 = 204;

pub const RESTART_CONTAINER_START: &'static str = "/containers/";

pub const RESTART_CONTAINER_END: &'static str = "/restart";

pub const RESTART_CONTAINER_METHOD: Method = Method::Post;

pub const RESTART_CONTAINER_SUCCESS: u16 = 204;

pub const KILL_CONTAINER_START: &'static str = "/containers/";

pub const KILL_CONTAINER_END: &'static str = "/kill";

pub const KILL_CONTAINER_METHOD: Method = Method::Post;

pub const KILL_CONTAINER_SUCCESS: u16 = 204;

pub const PAUSE_CONTAINER_START: &'static str = "/containers/";

pub const PAUSE_CONTAINER_END: &'static str = "/pause";

pub const PAUSE_CONTAINER_METHOD: Method = Method::Post;

pub const PAUSE_CONTAINER_SUCCESS: u16 = 204;

pub const UNPAUSE_CONTAINER_START: &'static str = "/containers/";

pub const UNPAUSE_CONTAINER_END: &'static str = "/unpause";

pub const UNPAUSE_CONTAINER_METHOD: Method = Method::Post;

pub const UNPAUSE_CONTAINER_SUCCESS: u16 = 204;

pub const WAIT_CONTAINER_START: &'static str = "/containers/";

pub const WAIT_CONTAINER_END: &'static str = "/wait";

pub const WAIT_CONTAINER_METHOD: Method = Method::Post;

pub const WAIT_CONTAINER_SUCCESS: u16 = 200;

pub const REMOVE_CONTAINER: &'static str = "/containers/";

pub const REMOVE_CONTAINER_METHOD: Method = Method::Delete;

pub const REMOVE_CONTAINER_SUCCESS: u16 = 204;

/// The body of an error answer: `{"message": ...}`.
#[derive(Debug, Clone, PartialEq)]
pub struct ErrorMessage {
    pub message: String,
}

/// The mathematical value of an [`ErrorMessage`].
pub ghost struct ErrorMessageView {
    pub message: Seq<char>,
}

impl DeepView for ErrorMessage {
    type V = ErrorMessageView;

    open spec fn deep_view(&self) -> ErrorMessageView {
        ErrorMessageView { message: self.message.deep_view() }
    }
}

impl View for ErrorMessage {
    type V = ErrorMessageView;

    open spec fn view(&self) -> ErrorMessageView {
        self.deep_view()
    }
}

impl FromJson for ErrorMessage {
    open spec fn decoded(document: JsonValue) -> Option<ErrorMessageView> {
        if document is Object && field_of::<String>(document, "message"@) is Some {
            Some(ErrorMessageView { message: field_of::<String>(document, "message"@)->0 })
        } else {
            None
        }
    }

    open spec fn blank() -> ErrorMessageView {
        ErrorMessageView { message: blank_of::<String>() }
    }

    fn from_json(document: &Json) -> (r: Option<ErrorMessage>) {
        match document {
            Json::Object(_) => {},
            _ => {
                return None;
            },
        }
        let message = field::<String>(document, "message")?;
        Some(ErrorMessage { message })
    }

    fn absent() -> (r: ErrorMessage) {
        ErrorMessage { message: <String>::absent() }
    }

    open spec fn sound(value: ErrorMessageView) -> bool {
        true
    }

    proof fn lemma_decoded_sound(document: JsonValue) {
    }

    proof fn lemma_blank_sound() {
    }
}

impl Default for ErrorMessage {
    fn default() -> (r: Self)
        ensures
            r@ == blank_of::<ErrorMessage>(),
    {
        <ErrorMessage>::absent()
    }
}

/// One entry of the catalog. The path of a call is `prefix`, then the
/// container identifier where `templated` is set, then `suffix`.
#[derive(Clone, Copy, Debug)]
pub struct Endpoint {
    pub operation: Operation,
    pub prefix: &'static str,
    pub suffix: &'static str,
    pub templated: bool,
    pub method: Method,
    pub success: u16,
}

/// The literal that opens the path of `op`.
pub open spec fn prefix_of(op: Operation) -> Seq<char> {
    match op {
        Operation::ListContainers => LIST_CONTAINERS@,
        Operation::CreateContainer => CREATE_CONTAINER@,
        Operation::InspectContainer => INSPECT_CONTAINER_START@,
        Operation::ListProcesses => LIST_PROCESSES_START@,
        Operation::GetContainerLogs => GET_CONTAINER_LOGS_START@,
        Operation::GetStatsContainer => GET_STATS_CONTAINER_START@,
        Operation::ResizeContainerTty => RESIZE_CONTAINER_TTY_START@,
        Operation::StartContainer => START_CONTAINER_START@,
        Operation::StopContainer => STOP_CONTAINER_START@,
        Operation::RestartContainer => RESTART_CONTAINER_START@,
        Operation::KillContainer => KILL_CONTAINER_START@,
        Operation::PauseContainer => PAUSE_CONTAINER_START@,
        Operation::UnpauseContainer => UNPAUSE_CONTAINER_START@,
        Operation::WaitContainer => WAIT_CONTAINER_START@,
        Operation::RemoveContainer => REMOVE_CONTAINER@,
    }
}

/// The literal that closes the path of `op`, after the identifier.
pub open spec fn suffix_of(op: Operation) -> Seq<char> {
    match op {
        Operation::InspectContainer => INSPECT_CONTAINER_END@,
        Operation::ListProcesses => LIST_PROCESSES_END@,
        Operation::GetContainerLogs => GET_CONTAINER_LOGS_END@,
        Operation::GetStatsContainer => GET_STATS_CONTAINER_END@,
        Operation::ResizeContainerTty => RESIZE_CONTAINER_TTY_END@,
        Operation::StartContainer => START_CONTAINER_END@,
        Operation::StopContainer => STOP_CONTAINER_END@,
        Operation::RestartContainer => RESTART_CONTAINER_END@,
        Operation::KillContainer => KILL_CONTAINER_END@,
        Operation::PauseContainer => PAUSE_CONTAINER_END@,
        Operation::UnpauseContainer => UNPAUSE_CONTAINER_END@,
        Operation::WaitContainer => WAIT_CONTAINER_END@,
        _ => Seq::<char>::empty(),
    }
}

/// Whether the path of `op` carries a container identifier.
pub open spec fn is_templated(op: Operation) -> bool {
    !(op is ListContainers || op is CreateContainer)
}

/// The HTTP method of `op`.
pub open spec fn method_of(op: Operation) -> Method {
    match op {
        Operation::ListContainers => Method::Get,
        Operation::CreateContainer => Method::Post,
        Operation::InspectContainer => Method::Get,
        Operation::ListProcesses => Method::Get,
        Operation::GetContainerLogs => Method::Get,
        Operation::GetStatsContainer => Method::Get,
        Operation::ResizeContainerTty => Method::Post,
        Operation::StartContainer => Method::Post,
        Operation::StopContainer => Method::Post,
        Operation::RestartContainer => Method::Post,
        Operation::KillContainer => Method::Post,
        Operation::PauseContainer => Method::Post,
        Operation::UnpauseContainer => Method::Post,
        Operation::WaitContainer => Method::Post,
        Operation::RemoveContainer => Method::Delete,
    }
}

/// The one status code with which the server reports that `op` succeeded.
pub open spec fn success_status(op: Operation) -> u16 {
    match op {
        Operation::ListContainers => 200,
        Operation::CreateContainer => 201,
        Operation::InspectContainer => 200,
        Operation::ListProcesses => 200,
        Operation::GetContainerLogs => 200,
        Operation::GetStatsContainer => 200,
        Operation::ResizeContainerTty => 200,
        Operation::StartContainer => 204,
        Operation::StopContainer => 204,
        Operation::RestartContainer => 204,
        Operation::KillContainer => 204,
        Operation::PauseContainer => 204,
        Operation::UnpauseContainer => 204,
        Operation::WaitContainer => 200,
        Operation::RemoveContainer => 204,
    }
}

/// Looks `op` up in the catalog.
pub fn endpoint(op: Operation) -> (e: Endpoint)
    ensures
        e.operation == op,
        e.prefix@ == prefix_of(op),
        e.suffix@ == suffix_of(op),
        e.templated == is_templated(op),
        e.method == method_of(op),
        e.success == success_status(op),
{
    proof {
        reveal_strlit("");
    }
    match op {
        Operation::ListContainers => Endpoint {
            operation: op,
            prefix: LIST_CONTAINERS,
            suffix: "",
            templated: false,
            method: LIST_CONTAINERS_METHOD,
            success: LIST_CONTAINERS_SUCCESS,
        },
        Operation::CreateContainer => Endpoint {
            operation: op,
            prefix: CREATE_CONTAINER,
            suffix: "",
            templated: false,
            method: CREATE_CONTAINER_METHOD,
            success: CREATE_CONTAINER_SUCCESS,
        },
        Operation::InspectContainer => Endpoint {
            operation: op,
            prefix: INSPECT_CONTAINER_START,
            suffix: INSPECT_CONTAINER_END,
            templated: true,
            method: INSPECT_CONTAINER_METHOD,
            success: INSPECT_CONTAINER_SUCCESS,
        },
        Operation::ListProcesses => Endpoint {
            operation: op,
            prefix: LIST_PROCESSES_START,
            suffix: LIST_PROCESSES_END,
            templated: true,
            method: LIST_PROCESSES_METHOD,
            success: LIST_PROCESSES_SUCCESS,
        },
        Operation::GetContainerLogs => Endpoint {
            operation: op,
            prefix: GET_CONTAINER_LOGS_START,
            suffix: GET_CONTAINER_LOGS_END,
            templated: true,
            method: GET_CONTAINER_LOGS_METHOD,
            success: GET_CONTAINER_LOGS_SUCCESS,
        },
        Operation::GetStatsContainer => Endpoint {
            operation: op,
            prefix: GET_STATS_CONTAINER_START,
            suffix: GET_STATS_CONTAINER_END,
            templated: true,
            method: GET_STATS_CONTAINER_METHOD,
            success: GET_STATS_CONTAINER_SUCCESS,
        },
        Operation::ResizeContainerTty => Endpoint {
            operation: op,
            prefix: RESIZE_CONTAINER_TTY_START,
            suffix: RESIZE_CONTAINER_TTY_END,
            templated: true,
            method: RESIZE_CONTAINER_TTY_METHOD,
            success: RESIZE_CONTAINER_TTY_SUCCESS,
        },
        Operation::StartContainer => Endpoint {
            operation: op,
            prefix: START_CONTAINER_START,
            suffix: START_CONTAINER_END,
            templated: true,
            method: START_CONTAINER_METHOD,
            success: START_CONTAINER_SUCCESS,
        },
        Operation::StopContainer => Endpoint {
            operation: op,
            prefix: STOP_CONTAINER_START,
            suffix: STOP_CONTAINER_END,
            templated: true,
            method: STOP_CONTAINER_METHOD,
            success: STOP_CONTAINER_SUCCESS,
        },
        Operation::RestartContainer => Endpoint {
            operation: op,
            prefix: RESTART_CONTAINER_START,
            suffix: RESTART_CONTAINER_END,
            templated: true,
            method: RESTART_CONTAINER_METHOD,
            success: RESTART_CONTAINER_SUCCESS,
        },
        Operation::KillContainer => Endpoint {
            operation: op,
            prefix: KILL_CONTAINER_START,
            suffix: KILL_CONTAINER_END,
            templated: true,
            method: KILL_CONTAINER_METHOD,
            success: KILL_CONTAINER_SUCCESS,
        },
        Operation::PauseContainer => Endpoint {
            operation: op,
            prefix: PAUSE_CONTAINER_START,
            suffix: PAUSE_CONTAINER_END,
            templated: true,
            method: PAUSE_CONTAINER_METHOD,
            success: PAUSE_CONTAINER_SUCCESS,
        },
        Operation::UnpauseContainer => Endpoint {
            operation: op,
            prefix: UNPAUSE_CONTAINER_START,
            suffix: UNPAUSE_CONTAINER_END,
            templated: true,
            method: UNPAUSE_CONTAINER_METHOD,
            success: UNPAUSE_CONTAINER_SUCCESS,
        },
        Operation::WaitContainer => Endpoint {
            operation: op,
            prefix: WAIT_CONTAINER_START,
            suffix: WAIT_CONTAINER_END,
            templated: true,
            method: WAIT_CONTAINER_METHOD,
            success: WAIT_CONTAINER_SUCCESS,
        },
        Operation::RemoveContainer => Endpoint {
            operation: op,
            prefix: REMOVE_CONTAINER,
            suffix: "",
            templated: true,
            method: REMOVE_CONTAINER_METHOD,
            success: REMOVE_CONTAINER_SUCCESS,
        },
    }
}

} // verus!

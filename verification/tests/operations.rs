use docker_engine_api::api::{Method, Operation};
use docker_engine_api::client::{Client, ClientTrait};
use docker_engine_api::container_create::CreateContainerFrom;
use docker_engine_api::containers_service::OperationResult;
use docker_engine_api::error::ApiError;
use docker_engine_api::request::SimpleResponse;

fn answer(status: u16, body: &str) -> SimpleResponse {
    SimpleResponse { status, body: body.as_bytes().to_vec() }
}

fn options() -> CreateContainerFrom {
    let mut options = CreateContainerFrom::default();
    options.image = Some("alpine:latest".to_string());
    options.cmd = Some(vec!["/bin/true".to_string()]);
    options
}

const CREATED: &str = "{\"Id\":\"abc123\",\"Warnings\":[]}";

const STATS: &str = "{\"read\":\"2024-01-01T00:00:00Z\",\"pids_stats\":{\"current\":3},\
\"networks\":{\"eth0\":{\"rx_bytes\":5,\"tx_bytes\":7}},\
\"memory_stats\":{\"usage\":10,\"limit\":100,\"stats\":{\"cache\":1}},\
\"blkio_stats\":{\"io_service_bytes_recursive\":[{\"major\":8,\"minor\":0,\"op\":\"Read\",\"value\":12}]},\
\"cpu_stats\":{\"cpu_usage\":{\"total_usage\":42,\"percpu_usage\":[20,22]},\"online_cpus\":2}}";

#[test]
fn test() {
    assert_eq!(0, 0);
}

#[test]
fn get_containers() {
    let client = Client::new("/var/run/docker.sock".to_string());
    let request = client.containers.list_containers_request(false, 0, false, "".to_string());
    assert_eq!(request.socket, "/var/run/docker.sock");
    assert_eq!(request.method, Method::Get);
    assert_eq!(request.path, "/containers/json?all=false&limit=0&size=false&filters=");
    assert_eq!(request.body, "");
    match client.containers.list_containers_response(&answer(200, "[{\"Id\":\"abc123\"}]")) {
        Ok(_) => {},
        Err(e) => panic!("Error: {}", e.to_string()),
    };
}

#[test]
fn create_container() {
    let client = Client::new("/var/run/docker.sock".to_string());
    let options = CreateContainerFrom {
        exposed_ports: None,
        hostname: None,
        domainname: None,
        user: None,
        attach_stdin: None,
        attach_stdout: None,
        attach_stderr: None,
        tty: None,
        open_stdin: None,
        stdin_once: None,
        env: None,
        cmd: Some(vec!["/bin/true".to_string()]),
        image: Some("alpine:latest".to_string()),
        labels: None,
        volumes: None,
        working_dir: None,
        entrypoint: None,
        network_disabled: None,
        mac_address: None,
        stop_signal: None,
        stop_timeout: None,
        host_config: None,
        networking_config: None,
    };

    let request = client.containers.create_container_request("test", "linux", &options);
    assert_eq!(request.path, "/containers/create?name=test&platform=linux");
    assert_eq!(request.method, Method::Post);
    assert_eq!(request.body, "{\"Cmd\":[\"/bin/true\"],\"Image\":\"alpine:latest\"}");

    let response = match client.containers.create_container_response(&answer(201, CREATED)) {
        Ok(response) => response,
        Err(e) => panic!("Error: {}", e.to_string()),
    };

    assert!(response.id.len() > 0);
}

#[test]
fn create_container_short() {
    let client = Client::new("/var/run/docker.sock".to_string());
    let mut options = CreateContainerFrom::default();
    options.image = Some("alpine:latest".to_string());
    options.cmd = Some(vec!["/bin/true".to_string()]);

    let request = client.containers.create_container_request("test2", "linux", &options);
    assert_eq!(request.path, "/containers/create?name=test2&platform=linux");

    let response = match client.containers.create_container_response(&answer(201, CREATED)) {
        Ok(response) => response,
        Err(e) => panic!("Error: {}", e.to_string()),
    };

    assert!(response.id.len() > 0);
}

#[test]
fn create_and_remove_container() {
    let client = Client::new("/var/run/docker.sock".to_string());
    let options = options();

    let request = client.containers.create_container_request("test3", "linux", &options);
    assert_eq!(request.path, "/containers/create?name=test3&platform=linux");
    let response = match client.containers.create_container_response(&answer(201, CREATED)) {
        Ok(response) => response,
        Err(e) => panic!("Error: {}", e.to_string()),
    };

    let request = client.containers.remove_container_request(&response.id, false, true, false);
    assert_eq!(request.method, Method::Delete);
    assert_eq!(request.path, "/containers/abc123?v=false&force=true&link=false");
    match client.containers.remove_container_response(&answer(204, "")) {
        Ok(_) => {},
        Err(e) => panic!("Error: {}", e.to_string()),
    };
}

#[test]
fn create_start_getstats_stop_remove() {
    let client = Client::new("/var/run/docker.sock".to_string());
    let options = options();

    let request = client.containers.create_container_request("test4", "linux", &options);
    assert_eq!(request.path, "/containers/create?name=test4&platform=linux");
    let response = match client.containers.create_container_response(&answer(201, CREATED)) {
        Ok(response) => response,
        Err(e) => panic!("Error: {}", e.to_string()),
    };

    let request = client.containers.start_container_request(&response.id);
    assert_eq!(request.path, "/containers/abc123/start");
    match client.containers.start_container_response(&answer(204, "")) {
        Ok(_) => {},
        Err(e) => panic!("Error: {}", e.to_string()),
    };

    let request = client.containers.get_stats_container_request(&response.id, true, false);
    assert_eq!(request.path, "/containers/abc123/stats?stream=true&one-shot=false");
    match client.containers.get_stats_container_response(&answer(200, STATS)) {
        Ok(stats) => {
            println!(
                "Container CPU Usage (this mean that the container is running): {:?}",
                stats.cpu_stats
            );
            assert_eq!(stats.cpu_stats.cpu_usage.total_usage, 42);
        },
        Err(e) => panic!("Error: {}", e.to_string()),
    };

    let request = client.containers.stop_container_request(&response.id, 0);
    assert_eq!(request.path, "/containers/abc123/stop?t=0");
    match client.containers.stop_container_response(&answer(204, "")) {
        Ok(_) => {},
        Err(e) => panic!("Error: {}", e.to_string()),
    };

    let request = client.containers.remove_container_request(&response.id, false, true, false);
    assert_eq!(request.path, "/containers/abc123?v=false&force=true&link=false");
    match client.containers.remove_container_response(&answer(204, "")) {
        Ok(_) => {},
        Err(e) => panic!("Error: {}", e.to_string()),
    };
}

#[test]
fn get_stats() {
    let client = Client::new("/var/run/docker.sock".to_string());
    let request = client.containers.list_containers_request(true, 0, false, "".to_string());
    assert_eq!(request.path, "/containers/json?all=true&limit=0&size=false&filters=");
    let containers =
        match client.containers.list_containers_response(&answer(200, "[{\"Id\":\"abc123\"}]")) {
            Ok(containers) => containers,
            Err(e) => panic!("Error: {}", e.to_string()),
        };

    let id = containers[0].id.clone();

    let request = client.containers.get_stats_container_request(&id.to_string(), true, false);
    assert_eq!(request.path, "/containers/abc123/stats?stream=true&one-shot=false");
    let stats = match client.containers.get_stats_container_response(&answer(200, STATS)) {
        Ok(stats) => stats,
        Err(e) => panic!("Error: {}", e.to_string()),
    };
    assert_eq!(stats.read, "2024-01-01T00:00:00Z");
    assert_eq!(stats.pids_stats.current, 3);
    assert_eq!(stats.networks.len(), 1);
    assert_eq!(stats.networks[0].0, "eth0");
    assert_eq!(stats.networks[0].1.rx_bytes, 5);
    assert_eq!(stats.networks[0].1.tx_bytes, 7);
    assert_eq!(stats.networks[0].1.rx_errors, 0);
    assert_eq!(stats.memory_stats.stats, vec![("cache".to_string(), 1u64)]);
    assert_eq!(stats.cpu_stats.cpu_usage.percpu_usage, vec![20, 22]);
    assert_eq!(stats.cpu_stats.online_cpus, 2);
    assert_eq!(stats.precpu_stats.online_cpus, 0);
}

#[test]
fn inspect_container() {
    let client = Client::new("/var/run/docker.sock".to_string());
    let containers =
        match client.containers.list_containers_response(&answer(200, "[{\"Id\":\"abc123\"}]")) {
            Ok(containers) => containers,
            Err(e) => panic!("Error: {}", e.to_string()),
        };

    let id = containers[0].id.clone();

    let request = client.containers.inspect_container_request(&id.to_string(), true);
    assert_eq!(request.method, Method::Get);
    assert_eq!(request.path, "/containers/abc123/json?size=true");
    let body = "{\"Id\":\"abc123\",\"Name\":\"/web\",\"Args\":[\"-g\"],\"RestartCount\":2,\
\"State\":{\"Running\":true,\"Pid\":77,\"Status\":{\"Status\":\"healthy\",\"FailingStreak\":0,\
\"Log\":[{\"ExitCode\":0,\"Output\":\"ok\"}]}},\
\"Config\":{\"Cmd\":[\"nginx\"],\"Tty\":false,\"HealthCheck\":{\"Test\":[\"CMD\",\"true\"]}},\
\"HostConfig\":{\"Memory\":-1,\"BlkioWeight\":300,\"PortBindings\":{\"80/tcp\":[{\"HostPort\":\"8080\"}]},\
\"RestartPolicy\":{\"Name\":\"always\"}},\
\"NetworkSettings\":{\"IPAddress\":\"172.17.0.2\",\"IPPrefixLen\":16},\
\"Mounts\":[{\"Type\":\"bind\",\"RW\":true}]}";
    let container = match client.containers.inspect_container_response(&answer(200, body)) {
        Ok(container) => container,
        Err(e) => panic!("Error: {}", e.to_string()),
    };
    assert_eq!(container.id, "abc123");
    assert_eq!(container.name, "/web");
    assert_eq!(container.args, vec!["-g".to_string()]);
    assert_eq!(container.restart_count, 2);
    assert!(container.state.running);
    assert_eq!(container.state.pid, 77);
    assert_eq!(container.state.status.status, "healthy");
    assert_eq!(container.state.status.log.len(), 1);
    assert_eq!(container.config.cmd, vec!["nginx".to_string()]);
    assert_eq!(
        container.config.health_check,
        vec![("Test".to_string(), vec!["CMD".to_string(), "true".to_string()])]
    );
    assert_eq!(container.host_config.memory, -1);
    assert_eq!(container.host_config.blkio_weight, 300);
    assert_eq!(
        container.host_config.port_bindings,
        vec![("80/tcp".to_string(), vec![vec![("HostPort".to_string(), "8080".to_string())]])]
    );
    assert_eq!(
        container.host_config.restart_policy,
        vec![("Name".to_string(), "always".to_string())]
    );
    assert_eq!(container.network_settings.ip_address, "172.17.0.2");
    assert_eq!(container.network_settings.ip_prefix_len, 16);
    assert_eq!(container.mounts.len(), 1);
    assert_eq!(container.mounts[0]._type, "bind");
    assert!(container.mounts[0].rw);
    assert_eq!(container.driver, "");
}

#[test]
fn creating_answers_with_identifier_and_warnings() {
    let client = Client::new("/var/run/docker.sock".to_string());
    let request = client.containers.create_container_request("web", "linux", &options());
    assert_eq!(request.body, "{\"Cmd\":[\"/bin/true\"],\"Image\":\"alpine:latest\"}");
    assert_eq!(
        request.headers,
        vec![("Content-Type".to_string(), "application/json".to_string())]
    );
    let created = client.containers.create_container_response(&answer(201, CREATED)).unwrap();
    assert_eq!(created.id, "abc123");
    assert_eq!(created.warnings, Vec::<String>::new());
}

#[test]
fn starting_answers_with_unit() {
    let client = Client::new("/var/run/docker.sock".to_string());
    let request = client.containers.start_container_request("abc123");
    assert_eq!(request.method, Method::Post);
    assert_eq!(request.path, "/containers/abc123/start");
    assert_eq!(request.body, "");
    assert_eq!(client.containers.start_container_response(&answer(204, "")), Ok(()));
}

#[test]
fn removing_a_missing_container_reports_the_servers_message() {
    let client = Client::new("/var/run/docker.sock".to_string());
    let request = client.containers.remove_container_request("missing", false, false, false);
    assert_eq!(request.path, "/containers/missing?v=false&force=false&link=false");
    let outcome = client
        .containers
        .remove_container_response(&answer(404, "{\"message\":\"No such container: missing\"}"));
    assert_eq!(outcome, Err(ApiError::Server("No such container: missing".to_string())));
    assert_eq!(outcome.unwrap_err().to_string(), "Server error: No such container: missing");
}

#[test]
fn a_listing_of_nothing_is_empty() {
    let client = Client::new("/var/run/docker.sock".to_string());
    let request = client.containers.list_containers_request(true, 0, false, "".to_string());
    assert_eq!(request.path, "/containers/json?all=true&limit=0&size=false&filters=");
    let listed = client.containers.list_containers_response(&answer(200, "[]")).unwrap();
    assert!(listed.is_empty());
}

#[test]
fn every_operation_succeeds_on_its_status_with_its_shape() {
    let service = Client::new("/run/engine.sock".to_string()).containers;
    let listing = service.respond(Operation::ListContainers, &answer(200, "[{\"Id\":\"a\"}]"));
    assert!(matches!(listing, Ok(OperationResult::Containers(ref v)) if v.len() == 1 && v[0].id == "a"));
    let created = service.respond(Operation::CreateContainer, &answer(201, CREATED));
    assert!(matches!(created, Ok(OperationResult::Created(ref c)) if c.id == "abc123"));
    let inspected = service.respond(Operation::InspectContainer, &answer(200, "{\"Id\":\"a\"}"));
    assert!(matches!(inspected, Ok(OperationResult::Inspected(ref c)) if c.id == "a"));
    let processes = service.respond(
        Operation::ListProcesses,
        &answer(200, "{\"Titles\":[\"PID\",\"CMD\"],\"Processes\":[[\"1\",\"sh\"],[\"7\",\"top\"]]}"),
    );
    match processes {
        Ok(OperationResult::Processes(p)) => {
            assert_eq!(p.titles, vec!["PID".to_string(), "CMD".to_string()]);
            assert_eq!(
                p.processes,
                vec![
                    vec!["1".to_string(), "sh".to_string()],
                    vec!["7".to_string(), "top".to_string()]
                ]
            );
        },
        other => panic!("unexpected {:?}", other),
    }
    let logs = service.respond(Operation::GetContainerLogs, &answer(200, "line one\nline two\n"));
    assert_eq!(logs, Ok(OperationResult::Logs("line one\nline two\n".to_string())));
    let stats = service.respond(Operation::GetStatsContainer, &answer(200, STATS));
    assert!(matches!(stats, Ok(OperationResult::Statistics(ref s)) if s.pids_stats.current == 3));
    for (op, status) in [
        (Operation::ResizeContainerTty, 200),
        (Operation::StartContainer, 204),
        (Operation::StopContainer, 204),
        (Operation::RestartContainer, 204),
        (Operation::KillContainer, 204),
        (Operation::PauseContainer, 204),
        (Operation::UnpauseContainer, 204),
        (Operation::WaitContainer, 200),
        (Operation::RemoveContainer, 204),
    ] {
        assert_eq!(service.respond(op, &answer(status, "")), Ok(OperationResult::Unit));
    }
    assert_eq!(
        service.respond(Operation::WaitContainer, &answer(200, "{\"StatusCode\":0}")),
        Ok(OperationResult::Unit)
    );
}

#[test]
fn empty_body_on_success_gives_the_blank_value() {
    let service = Client::new("/run/engine.sock".to_string()).containers;
    assert_eq!(service.list_containers_response(&answer(200, "")), Ok(vec![]));
    let created = service.create_container_response(&answer(201, "")).unwrap();
    assert_eq!(created.id, "");
    assert!(created.warnings.is_empty());
    let inspected = service.inspect_container_response(&answer(200, "")).unwrap();
    assert_eq!(inspected.id, "");
    assert_eq!(inspected.restart_count, 0);
    assert!(!inspected.state.running);
    let processes = service.list_processes_response(&answer(200, "")).unwrap();
    assert!(processes.titles.is_empty() && processes.processes.is_empty());
    let stats = service.get_stats_container_response(&answer(200, "")).unwrap();
    assert_eq!(stats.cpu_stats.system_cpu_usage, 0);
    assert_eq!(service.get_container_logs_response(&answer(200, "")), Ok(String::new()));
}

#[test]
fn every_operation_fails_on_any_other_status() {
    let service = Client::new("/run/engine.sock".to_string()).containers;
    let all = [
        (Operation::ListContainers, 200),
        (Operation::CreateContainer, 201),
        (Operation::InspectContainer, 200),
        (Operation::ListProcesses, 200),
        (Operation::GetContainerLogs, 200),
        (Operation::GetStatsContainer, 200),
        (Operation::ResizeContainerTty, 200),
        (Operation::StartContainer, 204),
        (Operation::StopContainer, 204),
        (Operation::RestartContainer, 204),
        (Operation::KillContainer, 204),
        (Operation::PauseContainer, 204),
        (Operation::UnpauseContainer, 204),
        (Operation::WaitContainer, 200),
        (Operation::RemoveContainer, 204),
    ];
    for (op, success) in all {
        for status in [0u16, 200, 201, 202, 204, 304, 404, 409, 500] {
            if status == success {
                continue;
            }
            let outcome = service.respond(op, &answer(status, "{\"message\":\"no\"}"));
            assert_eq!(outcome, Err(ApiError::Server("no".to_string())));
            let outcome = service.respond(op, &answer(status, "[]"));
            assert!(matches!(outcome, Err(ApiError::Schema(_))));
        }
    }
}

#[test]
fn another_success_code_is_still_an_error() {
    let service = Client::new("/run/engine.sock".to_string()).containers;
    assert_eq!(
        service.start_container_response(&answer(200, "")),
        Err(ApiError::Server("Unknown".to_string()))
    );
    assert_eq!(
        service.create_container_response(&answer(200, CREATED)),
        Err(ApiError::Server("".to_string()))
    );
    assert_eq!(
        service.list_containers_response(&answer(204, "")),
        Err(ApiError::Server("Unknown".to_string()))
    );
}

#[test]
fn listing_twice_gives_the_same_list() {
    let service = Client::new("/run/engine.sock".to_string()).containers;
    let body = "[{\"Id\":\"a\",\"Names\":[\"/one\"],\"Labels\":{\"k\":\"v\"},\"SizeRw\":5},{\"Id\":\"b\"}]";
    let first_request = service.list_containers_request(true, 10, true, "{}".to_string());
    let second_request = service.list_containers_request(true, 10, true, "{}".to_string());
    assert_eq!(first_request, second_request);
    let first = service.list_containers_response(&answer(200, body));
    let second = service.list_containers_response(&answer(200, body));
    assert_eq!(first, second);
    let listed = first.unwrap();
    assert_eq!(listed.len(), 2);
    assert_eq!(listed[0].names, vec!["/one".to_string()]);
    assert_eq!(listed[0].labels, vec![("k".to_string(), "v".to_string())]);
    assert_eq!(listed[0].size_rw, Some(5));
    assert_eq!(listed[1].size_rw, None);
}

#[test]
fn a_body_of_another_shape_is_a_schema_error() {
    let service = Client::new("/run/engine.sock".to_string()).containers;
    let shape = ApiError::Schema("the document does not have the expected shape".to_string());
    assert_eq!(service.list_containers_response(&answer(200, "{}")), Err(shape.clone()));
    assert_eq!(
        service.list_containers_response(&answer(200, "[{\"Id\":5}]")),
        Err(shape.clone())
    );
    assert_eq!(
        service.list_containers_response(&answer(200, "[{\"Created\":-1}]")),
        Err(shape.clone())
    );
    assert_eq!(
        service.list_containers_response(&answer(200, "[{\"Ports\":[{\"PrivatePort\":65536}]}]")),
        Err(shape.clone())
    );
    assert_eq!(
        service.create_container_response(&answer(201, "{\"Id\":null}")),
        Err(shape.clone())
    );
    assert!(matches!(
        service.list_containers_response(&answer(200, "[{\"Id\":")),
        Err(ApiError::Schema(_))
    ));
    let logs = service.get_container_logs_response(&SimpleResponse {
        status: 200,
        body: vec![0xff, 0xfe],
    });
    assert_eq!(logs, Err(ApiError::Schema("the body is not valid UTF-8".to_string())));
}

#[test]
fn ping_asks_for_the_bare_listing() {
    let client = docker_engine_api::new("/var/run/docker.sock".to_string());
    assert_eq!(client.url, "/var/run/docker.sock");
    assert_eq!(client.containers.url, "/var/run/docker.sock");
    let request = client.ping_request();
    assert_eq!(request.method, Method::Get);
    assert_eq!(request.path, "/containers/json");
    assert_eq!(request.socket, "/var/run/docker.sock");
    assert_eq!(client.ping_response(&answer(200, "[]")), Ok(()));
    assert_eq!(
        client.ping_response(&answer(500, "{\"message\":\"down\"}")),
        Err(ApiError::Server("down".to_string()))
    );
}

#[test]
fn paths_carry_their_queries_in_order() {
    let service = Client::new("/run/engine.sock".to_string()).containers;
    assert_eq!(
        service.list_containers_request(true, -5, true, "{\"status\":[\"exited\"]}".to_string()).path,
        "/containers/json?all=true&limit=-5&size=true&filters={\"status\":[\"exited\"]}"
    );
    assert_eq!(
        service.list_containers_request(false, i32::MAX, false, String::new()).path,
        "/containers/json?all=false&limit=2147483647&size=false&filters="
    );
    assert_eq!(
        service.list_containers_request(false, i32::MIN, false, String::new()).path,
        "/containers/json?all=false&limit=-2147483648&size=false&filters="
    );
    assert_eq!(service.inspect_container_request("c1", false).path, "/containers/c1/json?size=false");
    assert_eq!(service.list_processes_request("c1", "aux").path, "/containers/c1/top?ps_args=aux");
    assert_eq!(
        service.get_container_logs_request("c1", true, false, true).path,
        "/containers/c1/logs?stdout=true&stderr=false&timestamps=true"
    );
    assert_eq!(
        service.resize_container_tty_request("c1", 24, 80).path,
        "/containers/c1/resize?h=24&w=80"
    );
    assert_eq!(service.restart_container_request("c1", 10).path, "/containers/c1/restart?t=10");
    assert_eq!(
        service.kill_container_request("c1", "SIGKILL").path,
        "/containers/c1/kill?signal=SIGKILL"
    );
    assert_eq!(service.pause_container_request("c1").path, "/containers/c1/pause");
    assert_eq!(service.unpause_container_request("c1").path, "/containers/c1/unpause");
    assert_eq!(
        service.wait_container_request("c1", "not-running").path,
        "/containers/c1/wait?condition=not-running"
    );
    assert_eq!(service.start_container_request("a/b c").path, "/containers/a/b c/start");
    assert_eq!(service.remove_container_request("c1", true, true, true).method, Method::Delete);
    assert_eq!(service.wait_container_request("c1", "").method, Method::Post);
    assert_eq!(service.list_processes_request("c1", "").method, Method::Get);
}

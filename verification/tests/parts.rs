use docker_engine_api::api::{endpoint, ErrorMessage, Method, Operation};
use docker_engine_api::client::{Client, ClientTrait};
use docker_engine_api::container::ContainerTrait;
use docker_engine_api::container_create::{
    CreateContainerFrom, CreateContainerResponseFromAPI, EmptyMap,
};
use docker_engine_api::container_inspect::DeviceRequest;
use docker_engine_api::container_network::{
    EndpointsConfig, HostConfig, IPAMConfig, IsolatedNw, NetworkSettings, NetworkingConfig,
};
use docker_engine_api::container_stats::{BlkioStats, NetworkStats, Stats};
use docker_engine_api::container_structs::{Container, GenericDevice, Mount, Port};
use docker_engine_api::container_update::{
    ThrottleDeviceRate, ThrottleDeviceWeight, UpdateContainerWith,
};
use docker_engine_api::containers_service::{base_path, decode_response, text_response, unit_response};
use docker_engine_api::decode::{field, required, FromJson};
use docker_engine_api::duplicate::Duplicate;
use docker_engine_api::encode::ToJson;
use docker_engine_api::error::{err, error_from_document, ApiError};
use docker_engine_api::json::{str_eq, Json};
use docker_engine_api::network::Network;
use docker_engine_api::request::{classify, request, Classified, SimpleResponse};
use docker_engine_api::text::{render_bool, render_i64, render_u64, utf8_text};

fn text(s: &str) -> Json {
    Json::Str(s.to_string())
}

fn object(members: Vec<(&str, Json)>) -> Json {
    Json::Object(members.into_iter().map(|(k, v)| (k.to_string(), v)).collect())
}

fn read<T: FromJson>(body: &str) -> Result<T, ApiError> {
    decode_response::<T>(200, &SimpleResponse { status: 200, body: body.as_bytes().to_vec() })
}

#[test]
fn integers_render_in_decimal() {
    assert_eq!(render_u64(0), "0");
    assert_eq!(render_u64(7), "7");
    assert_eq!(render_u64(10), "10");
    assert_eq!(render_u64(1090), "1090");
    assert_eq!(render_u64(u64::MAX), "18446744073709551615");
    assert_eq!(render_i64(0), "0");
    assert_eq!(render_i64(-1), "-1");
    assert_eq!(render_i64(42), "42");
    assert_eq!(render_i64(i64::MAX), "9223372036854775807");
    assert_eq!(render_i64(i64::MIN), "-9223372036854775808");
}

#[test]
fn booleans_render_as_words() {
    assert_eq!(render_bool(true), "true");
    assert_eq!(render_bool(false), "false");
}

#[test]
fn bytes_read_as_text_only_where_they_are_utf8() {
    assert_eq!(utf8_text(b"plain"), Some("plain".to_string()));
    assert_eq!(utf8_text("gr\u{fc}\u{df}e \u{2603}".as_bytes()), Some("gr\u{fc}\u{df}e \u{2603}".to_string()));
    assert_eq!(utf8_text(b""), Some(String::new()));
    assert_eq!(utf8_text(&[0x66, 0x6f, 0x80]), None);
    assert_eq!(utf8_text(&[0xc3]), None);
}

#[test]
fn strings_compare_by_their_characters() {
    assert!(str_eq("", ""));
    assert!(str_eq("Id", "Id"));
    assert!(!str_eq("Id", "ID"));
    assert!(!str_eq("Id", "Ids"));
    assert!(!str_eq("a", ""));
}

#[test]
fn the_catalog_holds_every_operation() {
    let expected = [
        (Operation::ListContainers, "/containers/json", "", false, Method::Get, 200u16),
        (Operation::CreateContainer, "/containers/create", "", false, Method::Post, 201),
        (Operation::InspectContainer, "/containers/", "/json", true, Method::Get, 200),
        (Operation::ListProcesses, "/containers/", "/top", true, Method::Get, 200),
        (Operation::GetContainerLogs, "/containers/", "/logs", true, Method::Get, 200),
        (Operation::GetStatsContainer, "/containers/", "/stats", true, Method::Get, 200),
        (Operation::ResizeContainerTty, "/containers/", "/resize", true, Method::Post, 200),
        (Operation::StartContainer, "/containers/", "/start", true, Method::Post, 204),
        (Operation::StopContainer, "/containers/", "/stop", true, Method::Post, 204),
        (Operation::RestartContainer, "/containers/", "/restart", true, Method::Post, 204),
        (Operation::KillContainer, "/containers/", "/kill", true, Method::Post, 204),
        (Operation::PauseContainer, "/containers/", "/pause", true, Method::Post, 204),
        (Operation::UnpauseContainer, "/containers/", "/unpause", true, Method::Post, 204),
        (Operation::WaitContainer, "/containers/", "/wait", true, Method::Post, 200),
        (Operation::RemoveContainer, "/containers/", "", true, Method::Delete, 204),
    ];
    for (op, prefix, suffix, templated, method, success) in expected {
        let e = endpoint(op);
        assert_eq!(e.operation, op);
        assert_eq!(e.prefix, prefix);
        assert_eq!(e.suffix, suffix);
        assert_eq!(e.templated, templated);
        assert_eq!(e.method, method);
        assert_eq!(e.success, success);
    }
}

#[test]
fn the_identifier_goes_into_the_path_verbatim() {
    assert_eq!(base_path(Operation::StartContainer, "abc"), "/containers/abc/start");
    assert_eq!(base_path(Operation::RemoveContainer, "a b/../c?x"), "/containers/a b/../c?x");
    assert_eq!(base_path(Operation::InspectContainer, ""), "/containers//json");
    assert_eq!(base_path(Operation::ListContainers, "ignored"), "/containers/json");
    assert_eq!(base_path(Operation::CreateContainer, "ignored"), "/containers/create");
}

#[test]
fn every_request_carries_the_json_content_type() {
    let r = request("/s.sock".to_string(), "/p?q=1".to_string(), Method::Get, String::new());
    assert_eq!(r.socket, "/s.sock");
    assert_eq!(r.path, "/p?q=1");
    assert_eq!(r.method, Method::Get);
    assert_eq!(r.body, "");
    assert_eq!(r.headers, vec![("Content-Type".to_string(), "application/json".to_string())]);
    let r = request("/s.sock".to_string(), "/p".to_string(), Method::Post, "{}".to_string());
    assert_eq!(r.body, "{}");
    assert_eq!(r.headers, vec![("Content-Type".to_string(), "application/json".to_string())]);
}

#[test]
fn a_body_is_its_chunks_in_order() {
    let r = SimpleResponse::from_chunks(200, &vec![b"[{\"Id\"".to_vec(), vec![], b":\"a\"}]".to_vec()]);
    assert_eq!(r.status, 200);
    assert_eq!(r.body, b"[{\"Id\":\"a\"}]".to_vec());
    let r = SimpleResponse::from_chunks(204, &vec![]);
    assert_eq!(r, SimpleResponse { status: 204, body: vec![] });
    let d = SimpleResponse::default();
    assert_eq!(d.status, 0);
    assert!(d.body.is_empty());
}

#[test]
fn classification_is_exact_on_the_status() {
    let answer = |status| SimpleResponse { status, body: b"x".to_vec() };
    assert_eq!(classify(&answer(200), 200), Classified::Success(b"x"));
    assert_eq!(classify(&answer(201), 200), Classified::ServerError(b"x"));
    assert_eq!(classify(&answer(204), 200), Classified::ServerError(b"x"));
    assert_eq!(classify(&answer(199), 200), Classified::ServerError(b"x"));
    assert_eq!(classify(&answer(204), 204), Classified::Success(b"x"));
    assert_eq!(classify(&answer(0), 204), Classified::ServerError(b"x"));
    assert_eq!(classify(&SimpleResponse::default(), 0), Classified::Success(b""));
}

#[test]
fn an_empty_error_body_is_the_unknown_server_error() {
    assert_eq!(err(b""), ApiError::Server("Unknown".to_string()));
    assert_eq!(err(b"").to_string(), "Server error: Unknown");
}

#[test]
fn an_error_body_gives_the_servers_message() {
    assert_eq!(err(b"{\"message\":\"conflict\"}"), ApiError::Server("conflict".to_string()));
    assert_eq!(
        err(b" { \"code\": 7, \"message\" : \"a \\\"b\\\" \\u00e9\" } "),
        ApiError::Server("a \"b\" \u{e9}".to_string())
    );
    assert_eq!(err(b"{}"), ApiError::Server(String::new()));
}

#[test]
fn a_malformed_error_body_is_a_schema_error() {
    for body in [&b"not json"[..], b"{\"message\":", b"{\"message\":\"x\"} trailing", b" ", &[0xff]] {
        match err(body) {
            ApiError::Schema(message) => assert!(!message.is_empty()),
            other => panic!("unexpected {:?}", other),
        }
    }
    let shape = ApiError::Schema("the document does not have the expected shape".to_string());
    assert_eq!(err(b"{\"message\":5}"), shape);
    assert_eq!(err(b"{\"message\":null}"), shape);
    assert_eq!(err(b"[]"), shape);
    assert_eq!(err(b"\"message\""), shape);
    assert_eq!(err(b"null"), shape);
    assert_eq!(error_from_document(&Json::Null), shape);
    assert_eq!(
        error_from_document(&object(vec![("message", text("gone"))])),
        ApiError::Server("gone".to_string())
    );
}

#[test]
fn each_kind_of_error_reports_itself() {
    assert_eq!(ApiError::Transport("refused".to_string()).to_string(), "Transport error: refused");
    assert_eq!(ApiError::Server("no".to_string()).to_string(), "Server error: no");
    assert_eq!(ApiError::Schema("bad".to_string()).to_string(), "Schema error: bad");
}

#[test]
fn unit_and_text_answers() {
    let answer = |status: u16, body: &str| SimpleResponse { status, body: body.as_bytes().to_vec() };
    assert_eq!(unit_response(204, &answer(204, "")), Ok(()));
    assert_eq!(unit_response(204, &answer(204, "ignored")), Ok(()));
    assert_eq!(unit_response(204, &answer(500, "")), Err(ApiError::Server("Unknown".to_string())));
    assert_eq!(text_response(200, &answer(200, "a\nb")), Ok("a\nb".to_string()));
    assert_eq!(
        text_response(200, &answer(404, "{\"message\":\"gone\"}")),
        Err(ApiError::Server("gone".to_string()))
    );
}

#[test]
fn members_are_found_by_key() {
    let doc = object(vec![("a", Json::Unsigned(1)), ("b", Json::Null), ("a", Json::Unsigned(2))]);
    assert_eq!(doc.get("a"), Some(&Json::Unsigned(1)));
    assert_eq!(doc.get("b"), Some(&Json::Null));
    assert_eq!(doc.get("c"), None);
    assert_eq!(doc.get(""), None);
    assert_eq!(Json::Array(vec![]).get("a"), None);
    assert_eq!(text("a").get("a"), None);
}

#[test]
fn copies_hold_the_same_document() {
    let doc = object(vec![
        ("n", Json::Signed(-3)),
        ("r", Json::Real("1.5".to_string())),
        ("l", Json::Array(vec![Json::Bool(true), Json::Null, object(vec![("k", text("v"))])])),
    ]);
    assert_eq!(doc.duplicate(), doc);
    assert_eq!(doc.clone(), doc);
    assert_eq!(Json::object(vec![("k".to_string(), Json::Null)]), object(vec![("k", Json::Null)]));
    assert_eq!(Json::array(vec![Json::Null]), Json::Array(vec![Json::Null]));
}

#[test]
fn numbers_decode_where_they_fit() {
    assert_eq!(u8::from_json(&Json::Unsigned(255)), Some(255));
    assert_eq!(u8::from_json(&Json::Unsigned(256)), None);
    assert_eq!(u8::from_json(&Json::Signed(-1)), None);
    assert_eq!(u16::from_json(&Json::Unsigned(65535)), Some(65535));
    assert_eq!(u16::from_json(&Json::Unsigned(65536)), None);
    assert_eq!(u32::from_json(&Json::Unsigned(4294967295)), Some(u32::MAX));
    assert_eq!(u32::from_json(&Json::Unsigned(4294967296)), None);
    assert_eq!(u64::from_json(&Json::Unsigned(u64::MAX)), Some(u64::MAX));
    assert_eq!(u64::from_json(&Json::Signed(5)), Some(5));
    assert_eq!(u64::from_json(&Json::Signed(-5)), None);
    assert_eq!(i16::from_json(&Json::Signed(-32768)), Some(i16::MIN));
    assert_eq!(i16::from_json(&Json::Signed(-32769)), None);
    assert_eq!(i16::from_json(&Json::Unsigned(32767)), Some(i16::MAX));
    assert_eq!(i16::from_json(&Json::Unsigned(32768)), None);
    assert_eq!(i32::from_json(&Json::Signed(-2147483648)), Some(i32::MIN));
    assert_eq!(i32::from_json(&Json::Unsigned(2147483648)), None);
    assert_eq!(i64::from_json(&Json::Unsigned(9223372036854775807)), Some(i64::MAX));
    assert_eq!(i64::from_json(&Json::Unsigned(9223372036854775808)), None);
    assert_eq!(i64::from_json(&Json::Signed(i64::MIN)), Some(i64::MIN));
    assert_eq!(u64::from_json(&Json::Real("1.0".to_string())), None);
    assert_eq!(u64::from_json(&text("1")), None);
    assert_eq!(read::<Vec<u64>>("[0, 18446744073709551615]"), Ok(vec![0, u64::MAX]));
    assert_eq!(read::<Vec<i64>>("[-9223372036854775808, 7]"), Ok(vec![i64::MIN, 7]));
    assert!(read::<Vec<u64>>("[1.0]").is_err());
    assert!(read::<Vec<u64>>("[-1]").is_err());
    assert!(read::<Vec<u64>>("[18446744073709551616]").is_err());
}

#[test]
fn plain_values_decode_from_their_own_kind_only() {
    assert_eq!(String::from_json(&text("x")), Some("x".to_string()));
    assert_eq!(String::from_json(&Json::Null), None);
    assert_eq!(bool::from_json(&Json::Bool(true)), Some(true));
    assert_eq!(bool::from_json(&Json::Unsigned(1)), None);
    assert_eq!(<()>::from_json(&Json::Null), Some(()));
    assert_eq!(<()>::from_json(&Json::Bool(false)), None);
    assert_eq!(Option::<String>::from_json(&Json::Null), Some(None));
    assert_eq!(Option::<String>::from_json(&text("x")), Some(Some("x".to_string())));
    assert_eq!(Option::<String>::from_json(&Json::Unsigned(1)), None);
    assert_eq!(Vec::<bool>::from_json(&Json::Array(vec![])), Some(vec![]));
    assert_eq!(Vec::<bool>::from_json(&Json::Null), None);
    assert_eq!(Vec::<bool>::from_json(&object(vec![])), None);
    assert_eq!(
        Vec::<(String, bool)>::from_json(&object(vec![("a", Json::Bool(true))])),
        Some(vec![("a".to_string(), true)])
    );
    assert_eq!(Vec::<(String, bool)>::from_json(&Json::Array(vec![])), None);
    assert_eq!(Vec::<(String, bool)>::from_json(&object(vec![("a", Json::Null)])), None);
    assert_eq!(Json::from_json(&Json::Real("2.5".to_string())), Some(Json::Real("2.5".to_string())));
    assert_eq!(String::absent(), "");
    assert_eq!(u16::absent(), 0);
    assert_eq!(Option::<u64>::absent(), None);
    assert_eq!(Json::absent(), Json::Null);
}

#[test]
fn absent_members_are_blank_and_required_ones_are_missed() {
    let doc = object(vec![("Name", text("n")), ("Count", Json::Unsigned(3))]);
    assert_eq!(field::<String>(&doc, "Name"), Some("n".to_string()));
    assert_eq!(field::<String>(&doc, "Other"), Some(String::new()));
    assert_eq!(field::<String>(&doc, "Count"), None);
    assert_eq!(field::<u64>(&doc, "Count"), Some(3));
    assert_eq!(required::<u64>(&doc, "Count"), Some(3));
    assert_eq!(required::<u64>(&doc, "Other"), None);
    assert_eq!(required::<u64>(&doc, "Name"), None);
    assert_eq!(field::<u64>(&Json::Null, "Count"), Some(0));
}

#[test]
fn a_container_summary_decodes_member_by_member() {
    let body = "{\"Id\":\"8dfafdbc3a40\",\"Names\":[\"/boring_feynman\"],\"Image\":\"ubuntu:latest\",\
\"ImageID\":\"d74508fb6632\",\"Command\":\"echo 1\",\"Created\":1367854155,\"State\":\"Exited\",\
\"Status\":\"Exit 0\",\"Ports\":[{\"PrivatePort\":2222,\"PublicPort\":3333,\"Type\":\"tcp\"}],\
\"Labels\":{\"com.example.vendor\":\"Acme\",\"com.example.version\":\"1.0\"},\"SizeRw\":12288,\
\"SizeRootFs\":0,\"HostConfig\":{\"NetworkMode\":\"default\"},\
\"NetworkSettings\":{\"Networks\":{\"bridge\":{\"NetworkID\":\"7ea29fc1412\",\"IPAddress\":\"172.17.0.2\",\
\"IPPrefixLen\":16,\"MacAddress\":\"02:42:ac:11:00:02\"}}},\
\"Mounts\":[{\"Name\":\"fac362\",\"Source\":\"/data\",\"Destination\":\"/data\",\"Driver\":\"local\",\
\"Mode\":\"ro,Z\",\"RW\":false,\"Propagation\":\"\"}],\"Unknown\":[1,2,3]}";
    let c = read::<Container>(body).unwrap();
    assert_eq!(c.id, "8dfafdbc3a40");
    assert_eq!(c.names, vec!["/boring_feynman".to_string()]);
    assert_eq!(c.image, "ubuntu:latest");
    assert_eq!(c.image_id, "d74508fb6632");
    assert_eq!(c.command, "echo 1");
    assert_eq!(c.created, 1367854155);
    assert_eq!(c.state, "Exited");
    assert_eq!(c.status, "Exit 0");
    assert_eq!(
        c.ports,
        vec![Port { ip: String::new(), private_port: 2222, public_port: 3333, _type: "tcp".to_string() }]
    );
    assert_eq!(
        c.labels,
        vec![
            ("com.example.vendor".to_string(), "Acme".to_string()),
            ("com.example.version".to_string(), "1.0".to_string())
        ]
    );
    assert_eq!(c.size_rw, Some(12288));
    assert_eq!(c.size_root_fs, Some(0));
    assert_eq!(c.host_config, HostConfig { network_mode: "default".to_string() });
    assert_eq!(c.network_settings.networks.len(), 1);
    assert_eq!(c.network_settings.networks[0].0, "bridge");
    assert_eq!(c.network_settings.networks[0].1.ip_address, "172.17.0.2");
    assert_eq!(c.network_settings.networks[0].1.ip_prefix_len, 16);
    assert_eq!(c.network_settings.networks[0].1.gateway, "");
    assert_eq!(
        c.mounts,
        vec![Mount {
            _type: String::new(),
            name: "fac362".to_string(),
            source: "/data".to_string(),
            destination: "/data".to_string(),
            driver: "local".to_string(),
            mode: "ro,Z".to_string(),
            rw: false,
            propagation: String::new(),
        }]
    );
    assert_eq!(c.clone(), c);
    assert_eq!(c.duplicate(), c);
}

#[test]
fn defaults_are_blank() {
    let c = Container::default();
    assert_eq!(c.id, "");
    assert!(c.names.is_empty() && c.ports.is_empty() && c.labels.is_empty() && c.mounts.is_empty());
    assert_eq!(c.created, 0);
    assert_eq!(c.size_rw, None);
    assert_eq!(c.size_root_fs, None);
    assert_eq!(c.host_config.network_mode, "");
    assert!(c.network_settings.networks.is_empty());
    assert_eq!(c, read::<Container>("{}").unwrap());
    assert_eq!(c, read::<Container>("").unwrap());
    let f = CreateContainerFrom::default();
    assert_eq!(f.hostname, None);
    assert_eq!(f.cmd, None);
    assert_eq!(f.image, None);
    assert_eq!(f.stop_timeout, None);
    assert_eq!(f.host_config, None);
    assert_eq!(f.networking_config, None);
    assert_eq!(f.to_json(), Json::Object(vec![]));
    let r = CreateContainerResponseFromAPI::default();
    assert_eq!(r.id, "");
    assert!(r.warnings.is_empty());
    let n = NetworkingConfig::default();
    assert_eq!(n.endpoints_config.isolated_nw.ipam_config.ipv4_address, "");
    assert_eq!(n.endpoints_config.isolated_nw.ipam_config.ipv6_address, "");
    assert!(n.endpoints_config.isolated_nw.ipam_config.link_local_ips.is_empty());
    assert!(n.endpoints_config.isolated_nw.links.is_empty());
    assert!(n.endpoints_config.isolated_nw.aliases.is_empty());
    assert_eq!(ErrorMessage::default().message, "");
    assert!(NetworkSettings::default().networks.is_empty());
    assert_eq!(Stats::default().cpu_stats.cpu_usage.total_usage, 0);
    assert_eq!(BlkioStats::default().io_time_recursive, Json::Null);
    assert_eq!(GenericDevice::default().host_path, "");
}

#[test]
fn required_members_must_be_there() {
    assert!(read::<NetworkingConfig>("{}").is_err());
    assert!(read::<NetworkingConfig>("{\"EndpointsConfig\":{}}").is_err());
    assert!(read::<NetworkingConfig>("{\"EndpointsConfig\":{\"isolated_nw\":{}}}").is_err());
    let n = read::<NetworkingConfig>(
        "{\"EndpointsConfig\":{\"isolated_nw\":{\"IPAMConfig\":{\"IPv4Address\":\"10.0.0.2\"},\"Links\":[\"a\"]}}}",
    )
    .unwrap();
    assert_eq!(n.endpoints_config.isolated_nw.ipam_config.ipv4_address, "10.0.0.2");
    assert_eq!(n.endpoints_config.isolated_nw.links, vec!["a".to_string()]);
    assert!(read::<Network>("{\"Name\":\"bridge\"}").is_err());
    let network = read::<Network>(
        "{\"Name\":\"bridge\",\"EnableIPv6\":true,\"IPAM\":{\"Driver\":\"default\",\"Config\":[\"c\"]}}",
    )
    .unwrap();
    assert_eq!(network.name, "bridge");
    assert!(network.enable_ipv6);
    assert!(!network.internal);
    assert_eq!(network.ipam.driver, "default");
    assert_eq!(network.ipam.config, vec!["c".to_string()]);
    assert_eq!(read::<EmptyMap>("{\"anything\":1}"), Ok(EmptyMap {}));
    assert!(read::<EmptyMap>("[]").is_err());
    assert!(read::<NetworkStats>("{\"rx_bytes\":\"5\"}").is_err());
    assert_eq!(read::<NetworkStats>("{\"rx_bytes\":5}").unwrap().rx_bytes, 5);
}

#[test]
fn a_dictionary_read_from_a_body_has_each_key_once() {
    let c = read::<Container>("{\"Labels\":{\"b\":\"1\",\"a\":\"2\",\"b\":\"3\"}}").unwrap();
    let mut keys: Vec<&str> = c.labels.iter().map(|(k, _)| k.as_str()).collect();
    let total = keys.len();
    keys.sort();
    keys.dedup();
    assert_eq!(keys.len(), total);
    assert_eq!(keys, vec!["a", "b"]);
    assert!(c.labels.contains(&("b".to_string(), "3".to_string())));
}

#[test]
fn raw_members_keep_their_documents() {
    let s = read::<Stats>(
        "{\"blkio_stats\":{\"io_serviced_recursive\":[{\"major\":8,\"value\":-2}],\"io_time_recursive\":1.5,\
\"sectors_recursive\":{\"k\":[true,null,\"s\"]}}}",
    )
    .unwrap();
    assert_eq!(
        s.blkio_stats.io_serviced_recursive,
        Json::Array(vec![object(vec![("major", Json::Unsigned(8)), ("value", Json::Signed(-2))])])
    );
    assert_eq!(s.blkio_stats.io_time_recursive, Json::Real("1.5".to_string()));
    assert_eq!(
        s.blkio_stats.sectors_recursive,
        object(vec![("k", Json::Array(vec![Json::Bool(true), Json::Null, text("s")]))])
    );
    assert_eq!(s.blkio_stats.io_queue_recursive, Json::Null);
    assert_eq!(s.clone(), s);
}

#[test]
fn a_creation_payload_leaves_out_what_is_not_set() {
    let client = Client::new("/s.sock".to_string());
    let mut options = CreateContainerFrom::default();
    assert_eq!(client.containers.create_container_request("n", "p", &options).body, "{}");
    options.image = Some("alpine:latest".to_string());
    options.cmd = Some(vec!["/bin/sh".to_string(), "-c".to_string(), "echo \"hi\"".to_string()]);
    options.tty = Some(false);
    options.stop_timeout = Some(-1);
    options.labels = Some(vec![("app".to_string(), "web".to_string())]);
    options.exposed_ports = Some(vec![("80/tcp".to_string(), ())]);
    options.host_config = Some(HostConfig { network_mode: "bridge".to_string() });
    options.networking_config = Some(NetworkingConfig {
        endpoints_config: EndpointsConfig {
            isolated_nw: IsolatedNw {
                ipam_config: IPAMConfig {
                    ipv4_address: "172.20.30.33".to_string(),
                    ipv6_address: String::new(),
                    link_local_ips: vec![],
                },
                links: vec!["c1".to_string()],
                aliases: vec![],
            },
        },
    });
    assert_eq!(
        options.to_json(),
        object(vec![
            ("Tty", Json::Bool(false)),
            (
                "Cmd",
                Json::Array(vec![text("/bin/sh"), text("-c"), text("echo \"hi\"")])
            ),
            ("Image", text("alpine:latest")),
            ("Labels", object(vec![("app", text("web"))])),
            ("ExposedPorts", object(vec![("80/tcp", Json::Null)])),
            ("StopTimeout", Json::Signed(-1)),
            ("HostConfig", object(vec![("NetworkMode", text("bridge"))])),
            (
                "NetworkingConfig",
                object(vec![(
                    "EndpointsConfig",
                    object(vec![(
                        "isolated_nw",
                        object(vec![
                            (
                                "IPAMConfig",
                                object(vec![
                                    ("IPv4Address", text("172.20.30.33")),
                                    ("IPv6Address", text("")),
                                    ("LinkLocalIPs", Json::Array(vec![])),
                                ])
                            ),
                            ("Links", Json::Array(vec![text("c1")])),
                            ("Aliases", Json::Array(vec![])),
                        ])
                    )])
                )])
            ),
        ])
    );
    let request = client.create_container_request("web", "linux", &options);
    assert_eq!(
        request.body,
        "{\"Cmd\":[\"/bin/sh\",\"-c\",\"echo \\\"hi\\\"\"],\"ExposedPorts\":{\"80/tcp\":null},\
\"HostConfig\":{\"NetworkMode\":\"bridge\"},\"Image\":\"alpine:latest\",\"Labels\":{\"app\":\"web\"},\
\"NetworkingConfig\":{\"EndpointsConfig\":{\"isolated_nw\":{\"Aliases\":[],\
\"IPAMConfig\":{\"IPv4Address\":\"172.20.30.33\",\"IPv6Address\":\"\",\"LinkLocalIPs\":[]},\"Links\":[\"c1\"]}}},\
\"StopTimeout\":-1,\"Tty\":false}"
    );
    assert_eq!(read::<CreateContainerFrom>(&request.body), Ok(options));
}

#[test]
fn an_update_payload_leaves_out_what_is_not_set() {
    let update = UpdateContainerWith {
        cpu_shares: Some(512),
        memory: Some(314572800),
        cgroup_parent: None,
        blkio_weight: Some(300),
        blkio_weight_device: Some(vec![ThrottleDeviceWeight {
            path: Some("/dev/sda".to_string()),
            weight: Some(400),
        }]),
        blkio_device_read_bps: Some(vec![ThrottleDeviceRate { path: None, rate: Some(1024) }]),
        blkio_device_write_bps: None,
        blkio_device_read_iops: None,
        blkio_device_write_iops: None,
        cpu_period: None,
        cpu_quota: None,
        cpu_realtime_period: None,
        cpu_realtime_runtime: None,
        cpuset_cpus: Some("0,1".to_string()),
        cpuset_mems: None,
        devices: Some(vec![GenericDevice {
            host_path: "/dev/null".to_string(),
            container_path: "/dev/null".to_string(),
            options: vec![],
        }]),
        device_cgroup_rules: None,
        device_requests: Some(vec![DeviceRequest {
            driver: "nvidia".to_string(),
            count: 1,
            device_ids: vec![],
            capabilities: vec![vec!["gpu".to_string()]],
            options: vec![],
        }]),
        kernel_memory: None,
        kernel_memory_tcp: None,
        memory_reservation: None,
        memory_swap: Some(-1),
        memory_swappiness: None,
        nanos_cpus: None,
    };
    assert_eq!(
        update.to_json(),
        object(vec![
            ("CpuShares", Json::Unsigned(512)),
            ("Memory", Json::Unsigned(314572800)),
            ("BlkioWeight", Json::Unsigned(300)),
            (
                "BlkioWeightDevice",
                Json::Array(vec![object(vec![
                    ("Path", text("/dev/sda")),
                    ("Weight", Json::Unsigned(400))
                ])])
            ),
            ("BlkioDeviceReadBps", Json::Array(vec![object(vec![("Rate", Json::Unsigned(1024))])])),
            ("CpusetCpus", text("0,1")),
            (
                "Devices",
                Json::Array(vec![object(vec![
                    ("PathOnHost", text("/dev/null")),
                    ("PathInContainer", text("/dev/null")),
                    ("CgroupPermissions", object(vec![])),
                ])])
            ),
            (
                "DeviceRequests",
                Json::Array(vec![object(vec![
                    ("Driver", text("nvidia")),
                    ("Count", Json::Unsigned(1)),
                    ("DeviceIDs", Json::Array(vec![])),
                    ("Capabilities", Json::Array(vec![Json::Array(vec![text("gpu")])])),
                    ("Options", object(vec![])),
                ])])
            ),
            ("MemorySwap", Json::Signed(-1)),
        ])
    );
}

#[test]
fn the_client_lists_and_creates_through_its_service() {
    let client = Client::new("/s.sock".to_string());
    let direct = client.get_containers_request(true, 3, false, "f".to_string());
    let through = client.containers.list_containers_request(true, 3, false, "f".to_string());
    assert_eq!(direct, through);
    assert_eq!(direct.path, "/containers/json?all=true&limit=3&size=false&filters=f");
    let answer = SimpleResponse { status: 200, body: b"[{\"Id\":\"x\"}]".to_vec() };
    assert_eq!(client.get_containers_response(&answer).unwrap()[0].id, "x");
    let answer = SimpleResponse { status: 201, body: b"{\"Id\":\"y\",\"Warnings\":[\"w\"]}".to_vec() };
    let created = client.create_container_response(&answer).unwrap();
    assert_eq!(created.id, "y");
    assert_eq!(created.warnings, vec!["w".to_string()]);
    let answer = SimpleResponse { status: 409, body: b"{\"message\":\"name in use\"}".to_vec() };
    assert_eq!(
        client.create_container_response(&answer),
        Err(ApiError::Server("name in use".to_string()))
    );
}

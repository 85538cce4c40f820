//! The payload that creates a container, and the engine's answer.

use crate::container_network::{HostConfig, HostConfigView, NetworkingConfig, NetworkingConfigView};
use crate::decode::{blank_of, field, field_of, FromJson, lemma_field_sound, sound_of};
use crate::encode::{optional_member_for, put_optional, ToJson};
use crate::json::{entries_of, Dictionary, Json, JsonValue};
use vstd::prelude::*;

verus! {

/// What a container is created from. A member left `None` is not sent.
#[derive(Debug, PartialEq)]
pub struct CreateContainerFrom {
    pub hostname: Option<String>,
    pub domainname: Option<String>,
    pub user: Option<String>,
    pub attach_stdin: Option<bool>,
    pub attach_stdout: Option<bool>,
    pub attach_stderr: Option<bool>,
    pub tty: Option<bool>,
    pub open_stdin: Option<bool>,
    pub stdin_once: Option<bool>,
    pub env: Option<Vec<String>>,
    pub cmd: Option<Vec<String>>,
    pub entrypoint: Option<String>,
    pub image: Option<String>,
    pub labels: Option<Dictionary<String>>,
    pub volumes: Option<Dictionary<()>>,
    pub working_dir: Option<String>,
    pub network_disabled: Option<bool>,
    pub mac_address: Option<String>,
    pub exposed_ports: Option<Dictionary<()>>,
    pub stop_signal: Option<String>,
    pub stop_timeout: Option<i32>,
    pub host_config: Option<HostConfig>,
    pub networking_config: Option<NetworkingConfig>,
}

/// The mathematical value of a [`CreateContainerFrom`].
pub ghost struct CreateContainerFromView {
    pub hostname: Option<Seq<char>>,
    pub domainname: Option<Seq<char>>,
    pub user: Option<Seq<char>>,
    pub attach_stdin: Option<bool>,
    pub attach_stdout: Option<bool>,
    pub attach_stderr: Option<bool>,
    pub tty: Option<bool>,
    pub open_stdin: Option<bool>,
    pub stdin_once: Option<bool>,
    pub env: Option<Seq<Seq<char>>>,
    pub cmd: Option<Seq<Seq<char>>>,
    pub entrypoint: Option<Seq<char>>,
    pub image: Option<Seq<char>>,
    pub labels: Option<Seq<(Seq<char>, Seq<char>)>>,
    pub volumes: Option<Seq<(Seq<char>, ())>>,
    pub working_dir: Option<Seq<char>>,
    pub network_disabled: Option<bool>,
    pub mac_address: Option<Seq<char>>,
    pub exposed_ports: Option<Seq<(Seq<char>, ())>>,
    pub stop_signal: Option<Seq<char>>,
    pub stop_timeout: Option<i32>,
    pub host_config: Option<HostConfigView>,
    pub networking_config: Option<NetworkingConfigView>,
}

impl DeepView for CreateContainerFrom {
    type V = CreateContainerFromView;

    open spec fn deep_view(&self) -> CreateContainerFromView {
        CreateContainerFromView {
            hostname: self.hostname.deep_view(),
            domainname: self.domainname.deep_view(),
            user: self.user.deep_view(),
            attach_stdin: self.attach_stdin.deep_view(),
            attach_stdout: self.attach_stdout.deep_view(),
            attach_stderr: self.attach_stderr.deep_view(),
            tty: self.tty.deep_view(),
            open_stdin: self.open_stdin.deep_view(),
            stdin_once: self.stdin_once.deep_view(),
            env: self.env.deep_view(),
            cmd: self.cmd.deep_view(),
            entrypoint: self.entrypoint.deep_view(),
            image: self.image.deep_view(),
            labels: self.labels.deep_view(),
            volumes: self.volumes.deep_view(),
            working_dir: self.working_dir.deep_view(),
            network_disabled: self.network_disabled.deep_view(),
            mac_address: self.mac_address.deep_view(),
            exposed_ports: self.exposed_ports.deep_view(),
            stop_signal: self.stop_signal.deep_view(),
            stop_timeout: self.stop_timeout.deep_view(),
            host_config: self.host_config.deep_view(),
            networking_config: self.networking_config.deep_view(),
        }
    }
}

impl View for CreateContainerFrom {
    type V = CreateContainerFromView;

    open spec fn view(&self) -> CreateContainerFromView {
        self.deep_view()
    }
}

impl FromJson for CreateContainerFrom {
    open spec fn decoded(document: JsonValue) -> Option<CreateContainerFromView> {
        if document is Object
            && field_of::<Option<String>>(document, "Hostname"@) is Some
            && field_of::<Option<String>>(document, "Domainname"@) is Some
            && field_of::<Option<String>>(document, "User"@) is Some
            && field_of::<Option<bool>>(document, "AttachStdin"@) is Some
            && field_of::<Option<bool>>(document, "AttachStdout"@) is Some
            && field_of::<Option<bool>>(document, "AttachStderr"@) is Some
            && field_of::<Option<bool>>(document, "Tty"@) is Some
            && field_of::<Option<bool>>(document, "OpenStdin"@) is Some
            && field_of::<Option<bool>>(document, "StdinOnce"@) is Some
            && field_of::<Option<Vec<String>>>(document, "Env"@) is Some
            && field_of::<Option<Vec<String>>>(document, "Cmd"@) is Some
            && field_of::<Option<String>>(document, "Entrypoint"@) is Some
            && field_of::<Option<String>>(document, "Image"@) is Some
            && field_of::<Option<Dictionary<String>>>(document, "Labels"@) is Some
            && field_of::<Option<Dictionary<()>>>(document, "Volumes"@) is Some
            && field_of::<Option<String>>(document, "WorkingDir"@) is Some
            && field_of::<Option<bool>>(document, "NetworkDisabled"@) is Some
            && field_of::<Option<String>>(document, "MacAddress"@) is Some
            && field_of::<Option<Dictionary<()>>>(document, "ExposedPorts"@) is Some
            && field_of::<Option<String>>(document, "StopSignal"@) is Some
            && field_of::<Option<i32>>(document, "StopTimeout"@) is Some
            && field_of::<Option<HostConfig>>(document, "HostConfig"@) is Some
            && field_of::<Option<NetworkingConfig>>(document, "NetworkingConfig"@) is Some {
            Some(
                CreateContainerFromView {
                    hostname: field_of::<Option<String>>(document, "Hostname"@)->0,
                    domainname: field_of::<Option<String>>(document, "Domainname"@)->0,
                    user: field_of::<Option<String>>(document, "User"@)->0,
                    attach_stdin: field_of::<Option<bool>>(document, "AttachStdin"@)->0,
                    attach_stdout: field_of::<Option<bool>>(document, "AttachStdout"@)->0,
                    attach_stderr: field_of::<Option<bool>>(document, "AttachStderr"@)->0,
                    tty: field_of::<Option<bool>>(document, "Tty"@)->0,
                    open_stdin: field_of::<Option<bool>>(document, "OpenStdin"@)->0,
                    stdin_once: field_of::<Option<bool>>(document, "StdinOnce"@)->0,
                    env: field_of::<Option<Vec<String>>>(document, "Env"@)->0,
                    cmd: field_of::<Option<Vec<String>>>(document, "Cmd"@)->0,
                    entrypoint: field_of::<Option<String>>(document, "Entrypoint"@)->0,
                    image: field_of::<Option<String>>(document, "Image"@)->0,
                    labels: field_of::<Option<Dictionary<String>>>(document, "Labels"@)->0,
                    volumes: field_of::<Option<Dictionary<()>>>(document, "Volumes"@)->0,
                    working_dir: field_of::<Option<String>>(document, "WorkingDir"@)->0,
                    network_disabled: field_of::<Option<bool>>(document, "NetworkDisabled"@)->0,
                    mac_address: field_of::<Option<String>>(document, "MacAddress"@)->0,
                    exposed_ports: field_of::<Option<Dictionary<()>>>(
                        document,
                        "ExposedPorts"@,
                    )->0,
                    stop_signal: field_of::<Option<String>>(document, "StopSignal"@)->0,
                    stop_timeout: field_of::<Option<i32>>(document, "StopTimeout"@)->0,
                    host_config: field_of::<Option<HostConfig>>(document, "HostConfig"@)->0,
                    networking_config: field_of::<Option<NetworkingConfig>>(
                        document,
                        "NetworkingConfig"@,
                    )->0,
                },
            )
        } else {
            None
        }
    }

    open spec fn blank() -> CreateContainerFromView {
        CreateContainerFromView {
            hostname: blank_of::<Option<String>>(),
            domainname: blank_of::<Option<String>>(),
            user: blank_of::<Option<String>>(),
            attach_stdin: blank_of::<Option<bool>>(),
            attach_stdout: blank_of::<Option<bool>>(),
            attach_stderr: blank_of::<Option<bool>>(),
            tty: blank_of::<Option<bool>>(),
            open_stdin: blank_of::<Option<bool>>(),
            stdin_once: blank_of::<Option<bool>>(),
            env: blank_of::<Option<Vec<String>>>(),
            cmd: blank_of::<Option<Vec<String>>>(),
            entrypoint: blank_of::<Option<String>>(),
            image: blank_of::<Option<String>>(),
            labels: blank_of::<Option<Dictionary<String>>>(),
            volumes: blank_of::<Option<Dictionary<()>>>(),
            working_dir: blank_of::<Option<String>>(),
            network_disabled: blank_of::<Option<bool>>(),
            mac_address: blank_of::<Option<String>>(),
            exposed_ports: blank_of::<Option<Dictionary<()>>>(),
            stop_signal: blank_of::<Option<String>>(),
            stop_timeout: blank_of::<Option<i32>>(),
            host_config: blank_of::<Option<HostConfig>>(),
            networking_config: blank_of::<Option<NetworkingConfig>>(),
        }
    }

    fn from_json(document: &Json) -> (r: Option<CreateContainerFrom>) {
        match document {
            Json::Object(_) => {},
            _ => {
                return None;
            },
        }
        let hostname = field::<Option<String>>(document, "Hostname")?;
        let domainname = field::<Option<String>>(document, "Domainname")?;
        let user = field::<Option<String>>(document, "User")?;
        let attach_stdin = field::<Option<bool>>(document, "AttachStdin")?;
        let attach_stdout = field::<Option<bool>>(document, "AttachStdout")?;
        let attach_stderr = field::<Option<bool>>(document, "AttachStderr")?;
        let tty = field::<Option<bool>>(document, "Tty")?;
        let open_stdin = field::<Option<bool>>(document, "OpenStdin")?;
        let stdin_once = field::<Option<bool>>(document, "StdinOnce")?;
        let env = field::<Option<Vec<String>>>(document, "Env")?;
        let cmd = field::<Option<Vec<String>>>(document, "Cmd")?;
        let entrypoint = field::<Option<String>>(document, "Entrypoint")?;
        let image = field::<Option<String>>(document, "Image")?;
        let labels = field::<Option<Dictionary<String>>>(document, "Labels")?;
        let volumes = field::<Option<Dictionary<()>>>(document, "Volumes")?;
        let working_dir = field::<Option<String>>(document, "WorkingDir")?;
        let network_disabled = field::<Option<bool>>(document, "NetworkDisabled")?;
        let mac_address = field::<Option<String>>(document, "MacAddress")?;
        let exposed_ports = field::<Option<Dictionary<()>>>(document, "ExposedPorts")?;
        let stop_signal = field::<Option<String>>(document, "StopSignal")?;
        let stop_timeout = field::<Option<i32>>(document, "StopTimeout")?;
        let host_config = field::<Option<HostConfig>>(document, "HostConfig")?;
        let networking_config = field::<Option<NetworkingConfig>>(
            document,
            "NetworkingConfig",
        )?;
        Some(
            CreateContainerFrom {
                hostname,
                domainname,
                user,
                attach_stdin,
                attach_stdout,
                attach_stderr,
                tty,
                open_stdin,
                stdin_once,
                env,
                cmd,
                entrypoint,
                image,
                labels,
                volumes,
                working_dir,
                network_disabled,
                mac_address,
                exposed_ports,
                stop_signal,
                stop_timeout,
                host_config,
                networking_config,
            },
        )
    }

    fn absent() -> (r: CreateContainerFrom) {
        CreateContainerFrom {
            hostname: <Option<String>>::absent(),
            domainname: <Option<String>>::absent(),
            user: <Option<String>>::absent(),
            attach_stdin: <Option<bool>>::absent(),
            attach_stdout: <Option<bool>>::absent(),
            attach_stderr: <Option<bool>>::absent(),
            tty: <Option<bool>>::absent(),
            open_stdin: <Option<bool>>::absent(),
            stdin_once: <Option<bool>>::absent(),
            env: <Option<Vec<String>>>::absent(),
            cmd: <Option<Vec<String>>>::absent(),
            entrypoint: <Option<String>>::absent(),
            image: <Option<String>>::absent(),
            labels: <Option<Dictionary<String>>>::absent(),
            volumes: <Option<Dictionary<()>>>::absent(),
            working_dir: <Option<String>>::absent(),
            network_disabled: <Option<bool>>::absent(),
            mac_address: <Option<String>>::absent(),
            exposed_ports: <Option<Dictionary<()>>>::absent(),
            stop_signal: <Option<String>>::absent(),
            stop_timeout: <Option<i32>>::absent(),
            host_config: <Option<HostConfig>>::absent(),
            networking_config: <Option<NetworkingConfig>>::absent(),
        }
    }

    open spec fn sound(value: CreateContainerFromView) -> bool {
        sound_of::<Option<String>>(value.hostname)
            && sound_of::<Option<String>>(value.domainname)
            && sound_of::<Option<String>>(value.user)
            && sound_of::<Option<bool>>(value.attach_stdin)
            && sound_of::<Option<bool>>(value.attach_stdout)
            && sound_of::<Option<bool>>(value.attach_stderr)
            && sound_of::<Option<bool>>(value.tty)
            && sound_of::<Option<bool>>(value.open_stdin)
            && sound_of::<Option<bool>>(value.stdin_once)
            && sound_of::<Option<Vec<String>>>(value.env)
            && sound_of::<Option<Vec<String>>>(value.cmd)
            && sound_of::<Option<String>>(value.entrypoint)
            && sound_of::<Option<String>>(value.image)
            && sound_of::<Option<Dictionary<String>>>(value.labels)
            && sound_of::<Option<Dictionary<()>>>(value.volumes)
            && sound_of::<Option<String>>(value.working_dir)
            && sound_of::<Option<bool>>(value.network_disabled)
            && sound_of::<Option<String>>(value.mac_address)
            && sound_of::<Option<Dictionary<()>>>(value.exposed_ports)
            && sound_of::<Option<String>>(value.stop_signal)
            && sound_of::<Option<i32>>(value.stop_timeout)
            && sound_of::<Option<HostConfig>>(value.host_config)
            && sound_of::<Option<NetworkingConfig>>(value.networking_config)
    }

    proof fn lemma_decoded_sound(document: JsonValue) {
        lemma_field_sound::<Option<String>>(document, "Hostname"@);
        lemma_field_sound::<Option<String>>(document, "Domainname"@);
        lemma_field_sound::<Option<String>>(document, "User"@);
        lemma_field_sound::<Option<bool>>(document, "AttachStdin"@);
        lemma_field_sound::<Option<bool>>(document, "AttachStdout"@);
        lemma_field_sound::<Option<bool>>(document, "AttachStderr"@);
        lemma_field_sound::<Option<bool>>(document, "Tty"@);
        lemma_field_sound::<Option<bool>>(document, "OpenStdin"@);
        lemma_field_sound::<Option<bool>>(document, "StdinOnce"@);
        lemma_field_sound::<Option<Vec<String>>>(document, "Env"@);
        lemma_field_sound::<Option<Vec<String>>>(document, "Cmd"@);
        lemma_field_sound::<Option<String>>(document, "Entrypoint"@);
        lemma_field_sound::<Option<String>>(document, "Image"@);
        lemma_field_sound::<Option<Dictionary<String>>>(document, "Labels"@);
        lemma_field_sound::<Option<Dictionary<()>>>(document, "Volumes"@);
        lemma_field_sound::<Option<String>>(document, "WorkingDir"@);
        lemma_field_sound::<Option<bool>>(document, "NetworkDisabled"@);
        lemma_field_sound::<Option<String>>(document, "MacAddress"@);
        lemma_field_sound::<Option<Dictionary<()>>>(document, "ExposedPorts"@);
        lemma_field_sound::<Option<String>>(document, "StopSignal"@);
        lemma_field_sound::<Option<i32>>(document, "StopTimeout"@);
        lemma_field_sound::<Option<HostConfig>>(document, "HostConfig"@);
        lemma_field_sound::<Option<NetworkingConfig>>(document, "NetworkingConfig"@);
    }

    proof fn lemma_blank_sound() {
        <Option<Dictionary<()>>>::lemma_blank_sound();
        <Option<Dictionary<String>>>::lemma_blank_sound();
        <Option<HostConfig>>::lemma_blank_sound();
        <Option<NetworkingConfig>>::lemma_blank_sound();
        <Option<String>>::lemma_blank_sound();
        <Option<Vec<String>>>::lemma_blank_sound();
        <Option<bool>>::lemma_blank_sound();
        <Option<i32>>::lemma_blank_sound();
    }
}

impl Default for CreateContainerFrom {
    fn default() -> (r: Self)
        ensures
            r@ == blank_of::<CreateContainerFrom>(),
    {
        <CreateContainerFrom>::absent()
    }
}

impl ToJson for CreateContainerFrom {
    open spec fn encoded(value: CreateContainerFromView) -> JsonValue {
        JsonValue::Object(
            Seq::empty()
                + optional_member_for::<String>("Hostname"@, value.hostname)
                + optional_member_for::<String>("Domainname"@, value.domainname)
                + optional_member_for::<String>("User"@, value.user)
                + optional_member_for::<bool>("AttachStdin"@, value.attach_stdin)
                + optional_member_for::<bool>("AttachStdout"@, value.attach_stdout)
                + optional_member_for::<bool>("AttachStderr"@, value.attach_stderr)
                + optional_member_for::<bool>("Tty"@, value.tty)
                + optional_member_for::<bool>("OpenStdin"@, value.open_stdin)
                + optional_member_for::<bool>("StdinOnce"@, value.stdin_once)
                + optional_member_for::<Vec<String>>("Env"@, value.env)
                + optional_member_for::<Vec<String>>("Cmd"@, value.cmd)
                + optional_member_for::<String>("Entrypoint"@, value.entrypoint)
                + optional_member_for::<String>("Image"@, value.image)
                + optional_member_for::<Dictionary<String>>("Labels"@, value.labels)
                + optional_member_for::<Dictionary<()>>("Volumes"@, value.volumes)
                + optional_member_for::<String>("WorkingDir"@, value.working_dir)
                + optional_member_for::<bool>("NetworkDisabled"@, value.network_disabled)
                + optional_member_for::<String>("MacAddress"@, value.mac_address)
                + optional_member_for::<Dictionary<()>>("ExposedPorts"@, value.exposed_ports)
                + optional_member_for::<String>("StopSignal"@, value.stop_signal)
                + optional_member_for::<i32>("StopTimeout"@, value.stop_timeout)
                + optional_member_for::<HostConfig>("HostConfig"@, value.host_config)
                + optional_member_for::<NetworkingConfig>(
                    "NetworkingConfig"@,
                    value.networking_config,
                ),
        )
    }

    fn to_json(&self) -> (document: Json) {
        let mut fields: Vec<(String, Json)> = Vec::new();
        assert(entries_of(fields@) =~= Seq::empty());
        put_optional::<String>(&mut fields, "Hostname", &self.hostname);
        put_optional::<String>(&mut fields, "Domainname", &self.domainname);
        put_optional::<String>(&mut fields, "User", &self.user);
        put_optional::<bool>(&mut fields, "AttachStdin", &self.attach_stdin);
        put_optional::<bool>(&mut fields, "AttachStdout", &self.attach_stdout);
        put_optional::<bool>(&mut fields, "AttachStderr", &self.attach_stderr);
        put_optional::<bool>(&mut fields, "Tty", &self.tty);
        put_optional::<bool>(&mut fields, "OpenStdin", &self.open_stdin);
        put_optional::<bool>(&mut fields, "StdinOnce", &self.stdin_once);
        put_optional::<Vec<String>>(&mut fields, "Env", &self.env);
        put_optional::<Vec<String>>(&mut fields, "Cmd", &self.cmd);
        put_optional::<String>(&mut fields, "Entrypoint", &self.entrypoint);
        put_optional::<String>(&mut fields, "Image", &self.image);
        put_optional::<Dictionary<String>>(&mut fields, "Labels", &self.labels);
        put_optional::<Dictionary<()>>(&mut fields, "Volumes", &self.volumes);
        put_optional::<String>(&mut fields, "WorkingDir", &self.working_dir);
        put_optional::<bool>(&mut fields, "NetworkDisabled", &self.network_disabled);
        put_optional::<String>(&mut fields, "MacAddress", &self.mac_address);
        put_optional::<Dictionary<()>>(&mut fields, "ExposedPorts", &self.exposed_ports);
        put_optional::<String>(&mut fields, "StopSignal", &self.stop_signal);
        put_optional::<i32>(&mut fields, "StopTimeout", &self.stop_timeout);
        put_optional::<HostConfig>(&mut fields, "HostConfig", &self.host_config);
        put_optional::<NetworkingConfig>(
            &mut fields,
            "NetworkingConfig",
            &self.networking_config,
        );
        Json::object(fields)
    }
}

/// The engine's answer to a creation: the new identifier and its warnings.
#[derive(Debug, PartialEq)]
pub struct CreateContainerResponseFromAPI {
    pub id: String,
    pub warnings: Vec<String>,
}

/// The mathematical value of a [`CreateContainerResponseFromAPI`].
pub ghost struct CreateContainerResponseFromAPIView {
    pub id: Seq<char>,
    pub warnings: Seq<Seq<char>>,
}

impl DeepView for CreateContainerResponseFromAPI {
    type V = CreateContainerResponseFromAPIView;

    open spec fn deep_view(&self) -> CreateContainerResponseFromAPIView {
        CreateContainerResponseFromAPIView {
            id: self.id.deep_view(),
            warnings: self.warnings.deep_view(),
        }
    }
}

impl View for CreateContainerResponseFromAPI {
    type V = CreateContainerResponseFromAPIView;

    open spec fn view(&self) -> CreateContainerResponseFromAPIView {
        self.deep_view()
    }
}

impl FromJson for CreateContainerResponseFromAPI {
    open spec fn decoded(document: JsonValue) -> Option<CreateContainerResponseFromAPIView> {
        if document is Object
            && field_of::<String>(document, "Id"@) is Some
            && field_of::<Vec<String>>(document, "Warnings"@) is Some {
            Some(
                CreateContainerResponseFromAPIView {
                    id: field_of::<String>(document, "Id"@)->0,
                    warnings: field_of::<Vec<String>>(document, "Warnings"@)->0,
                },
            )
        } else {
            None
        }
    }

    open spec fn blank() -> CreateContainerResponseFromAPIView {
        CreateContainerResponseFromAPIView {
            id: blank_of::<String>(),
            warnings: blank_of::<Vec<String>>(),
        }
    }

    fn from_json(document: &Json) -> (r: Option<CreateContainerResponseFromAPI>) {
        match document {
            Json::Object(_) => {},
            _ => {
                return None;
            },
        }
        let id = field::<String>(document, "Id")?;
        let warnings = field::<Vec<String>>(document, "Warnings")?;
        Some(CreateContainerResponseFromAPI { id, warnings })
    }

    fn absent() -> (r: CreateContainerResponseFromAPI) {
        CreateContainerResponseFromAPI {
            id: <String>::absent(),
            warnings: <Vec<String>>::absent(),
        }
    }

    open spec fn sound(value: CreateContainerResponseFromAPIView) -> bool {
        sound_of::<String>(value.id)
            && sound_of::<Vec<String>>(value.warnings)
    }

    proof fn lemma_decoded_sound(document: JsonValue) {
        lemma_field_sound::<String>(document, "Id"@);
        lemma_field_sound::<Vec<String>>(document, "Warnings"@);
    }

    proof fn lemma_blank_sound() {
        <String>::lemma_blank_sound();
        <Vec<String>>::lemma_blank_sound();
    }
}

impl Default for CreateContainerResponseFromAPI {
    fn default() -> (r: Self)
        ensures
            r@ == blank_of::<CreateContainerResponseFromAPI>(),
    {
        <CreateContainerResponseFromAPI>::absent()
    }
}

/// An object without members.
#[derive(Debug, PartialEq)]
pub struct EmptyMap {}

/// The mathematical value of a [`EmptyMap`].
pub ghost struct EmptyMapView {}

impl DeepView for EmptyMap {
    type V = EmptyMapView;

    open spec fn deep_view(&self) -> EmptyMapView {
        EmptyMapView {  }
    }
}

impl View for EmptyMap {
    type V = EmptyMapView;

    open spec fn view(&self) -> EmptyMapView {
        self.deep_view()
    }
}

impl FromJson for EmptyMap {
    open spec fn decoded(document: JsonValue) -> Option<EmptyMapView> {
        if document is Object {
            Some(EmptyMapView {  })
        } else {
            None
        }
    }

    open spec fn blank() -> EmptyMapView {
        EmptyMapView {  }
    }

    fn from_json(document: &Json) -> (r: Option<EmptyMap>) {
        match document {
            Json::Object(_) => {},
            _ => {
                return None;
            },
        }
        Some(EmptyMap {  })
    }

    fn absent() -> (r: EmptyMap) {
        EmptyMap {  }
    }

    open spec fn sound(value: EmptyMapView) -> bool {
        true
    }

    proof fn lemma_decoded_sound(document: JsonValue) {
    }

    proof fn lemma_blank_sound() {
    }
}

} // verus!

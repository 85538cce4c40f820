//! The full description of one container.

use crate::container_network::{NetworkSettingsNet, NetworkSettingsNetView};
use crate::container_structs::{Mount, MountView};
use crate::decode::{blank_of, field, field_of, FromJson, lemma_field_sound, sound_of};
use crate::duplicate::Duplicate;
use crate::encode::{member_for, put, ToJson};
use crate::json::{entries_of, Dictionary, Json, JsonValue};
use vstd::prelude::*;

verus! {

/// What inspecting a container returns.
#[derive(Debug, PartialEq)]
pub struct InspectedContainer {
    pub app_armor_profile: String,
    pub args: Vec<String>,
    pub config: Config,
    pub created: String,
    pub driver: String,
    pub exec_ids: Vec<String>,
    pub host_config: HostConfig,
    pub hostname_path: String,
    pub hosts_path: String,
    pub id: String,
    pub image: String,
    pub log_path: String,
    pub mount_label: String,
    pub mounts: Vec<Mount>,
    pub name: String,
    pub network_settings: NetworkSettingsNet,
    pub path: String,
    pub process_label: String,
    pub resolv_conf_path: String,
    pub restart_count: u64,
    pub state: State,
}

/// The mathematical value of a [`InspectedContainer`].
pub ghost struct InspectedContainerView {
    pub app_armor_profile: Seq<char>,
    pub args: Seq<Seq<char>>,
    pub config: ConfigView,
    pub created: Seq<char>,
    pub driver: Seq<char>,
    pub exec_ids: Seq<Seq<char>>,
    pub host_config: HostConfigView,
    pub hostname_path: Seq<char>,
    pub hosts_path: Seq<char>,
    pub id: Seq<char>,
    pub image: Seq<char>,
    pub log_path: Seq<char>,
    pub mount_label: Seq<char>,
    pub mounts: Seq<MountView>,
    pub name: Seq<char>,
    pub network_settings: NetworkSettingsNetView,
    pub path: Seq<char>,
    pub process_label: Seq<char>,
    pub resolv_conf_path: Seq<char>,
    pub restart_count: u64,
    pub state: StateView,
}

impl DeepView for InspectedContainer {
    type V = InspectedContainerView;

    open spec fn deep_view(&self) -> InspectedContainerView {
        InspectedContainerView {
            app_armor_profile: self.app_armor_profile.deep_view(),
            args: self.args.deep_view(),
            config: self.config.deep_view(),
            created: self.created.deep_view(),
            driver: self.driver.deep_view(),
            exec_ids: self.exec_ids.deep_view(),
            host_config: self.host_config.deep_view(),
            hostname_path: self.hostname_path.deep_view(),
            hosts_path: self.hosts_path.deep_view(),
            id: self.id.deep_view(),
            image: self.image.deep_view(),
            log_path: self.log_path.deep_view(),
            mount_label: self.mount_label.deep_view(),
            mounts: self.mounts.deep_view(),
            name: self.name.deep_view(),
            network_settings: self.network_settings.deep_view(),
            path: self.path.deep_view(),
            process_label: self.process_label.deep_view(),
            resolv_conf_path: self.resolv_conf_path.deep_view(),
            restart_count: self.restart_count.deep_view(),
            state: self.state.deep_view(),
        }
    }
}

impl View for InspectedContainer {
    type V = InspectedContainerView;

    open spec fn view(&self) -> InspectedContainerView {
        self.deep_view()
    }
}

impl FromJson for InspectedContainer {
    open spec fn decoded(document: JsonValue) -> Option<InspectedContainerView> {
        if document is Object
            && field_of::<String>(document, "AppArmorProfile"@) is Some
            && field_of::<Vec<String>>(document, "Args"@) is Some
            && field_of::<Config>(document, "Config"@) is Some
            && field_of::<String>(document, "Created"@) is Some
            && field_of::<String>(document, "Driver"@) is Some
            && field_of::<Vec<String>>(document, "ExecIDs"@) is Some
            && field_of::<HostConfig>(document, "HostConfig"@) is Some
            && field_of::<String>(document, "HostnamePath"@) is Some
            && field_of::<String>(document, "HostsPath"@) is Some
            && field_of::<String>(document, "Id"@) is Some
            && field_of::<String>(document, "Image"@) is Some
            && field_of::<String>(document, "LogPath"@) is Some
            && field_of::<String>(document, "MountLabel"@) is Some
            && field_of::<Vec<Mount>>(document, "Mounts"@) is Some
            && field_of::<String>(document, "Name"@) is Some
            && field_of::<NetworkSettingsNet>(document, "NetworkSettings"@) is Some
            && field_of::<String>(document, "Path"@) is Some
            && field_of::<String>(document, "ProcessLabel"@) is Some
            && field_of::<String>(document, "ResolvConfPath"@) is Some
            && field_of::<u64>(document, "RestartCount"@) is Some
            && field_of::<State>(document, "State"@) is Some {
            Some(
                InspectedContainerView {
                    app_armor_profile: field_of::<String>(document, "AppArmorProfile"@)->0,
                    args: field_of::<Vec<String>>(document, "Args"@)->0,
                    config: field_of::<Config>(document, "Config"@)->0,
                    created: field_of::<String>(document, "Created"@)->0,
                    driver: field_of::<String>(document, "Driver"@)->0,
                    exec_ids: field_of::<Vec<String>>(document, "ExecIDs"@)->0,
                    host_config: field_of::<HostConfig>(document, "HostConfig"@)->0,
                    hostname_path: field_of::<String>(document, "HostnamePath"@)->0,
                    hosts_path: field_of::<String>(document, "HostsPath"@)->0,
                    id: field_of::<String>(document, "Id"@)->0,
                    image: field_of::<String>(document, "Image"@)->0,
                    log_path: field_of::<String>(document, "LogPath"@)->0,
                    mount_label: field_of::<String>(document, "MountLabel"@)->0,
                    mounts: field_of::<Vec<Mount>>(document, "Mounts"@)->0,
                    name: field_of::<String>(document, "Name"@)->0,
                    network_settings: field_of::<NetworkSettingsNet>(
                        document,
                        "NetworkSettings"@,
                    )->0,
                    path: field_of::<String>(document, "Path"@)->0,
                    process_label: field_of::<String>(document, "ProcessLabel"@)->0,
                    resolv_conf_path: field_of::<String>(document, "ResolvConfPath"@)->0,
                    restart_count: field_of::<u64>(document, "RestartCount"@)->0,
                    state: field_of::<State>(document, "State"@)->0,
                },
            )
        } else {
            None
        }
    }

    open spec fn blank() -> InspectedContainerView {
        InspectedContainerView {
            app_armor_profile: blank_of::<String>(),
            args: blank_of::<Vec<String>>(),
            config: blank_of::<Config>(),
            created: blank_of::<String>(),
            driver: blank_of::<String>(),
            exec_ids: blank_of::<Vec<String>>(),
            host_config: blank_of::<HostConfig>(),
            hostname_path: blank_of::<String>(),
            hosts_path: blank_of::<String>(),
            id: blank_of::<String>(),
            image: blank_of::<String>(),
            log_path: blank_of::<String>(),
            mount_label: blank_of::<String>(),
            mounts: blank_of::<Vec<Mount>>(),
            name: blank_of::<String>(),
            network_settings: blank_of::<NetworkSettingsNet>(),
            path: blank_of::<String>(),
            process_label: blank_of::<String>(),
            resolv_conf_path: blank_of::<String>(),
            restart_count: blank_of::<u64>(),
            state: blank_of::<State>(),
        }
    }

    fn from_json(document: &Json) -> (r: Option<InspectedContainer>) {
        match document {
            Json::Object(_) => {},
            _ => {
                return None;
            },
        }
        let app_armor_profile = field::<String>(document, "AppArmorProfile")?;
        let args = field::<Vec<String>>(document, "Args")?;
        let config = field::<Config>(document, "Config")?;
        let created = field::<String>(document, "Created")?;
        let driver = field::<String>(document, "Driver")?;
        let exec_ids = field::<Vec<String>>(document, "ExecIDs")?;
        let host_config = field::<HostConfig>(document, "HostConfig")?;
        let hostname_path = field::<String>(document, "HostnamePath")?;
        let hosts_path = field::<String>(document, "HostsPath")?;
        let id = field::<String>(document, "Id")?;
        let image = field::<String>(document, "Image")?;
        let log_path = field::<String>(document, "LogPath")?;
        let mount_label = field::<String>(document, "MountLabel")?;
        let mounts = field::<Vec<Mount>>(document, "Mounts")?;
        let name = field::<String>(document, "Name")?;
        let network_settings = field::<NetworkSettingsNet>(document, "NetworkSettings")?;
        let path = field::<String>(document, "Path")?;
        let process_label = field::<String>(document, "ProcessLabel")?;
        let resolv_conf_path = field::<String>(document, "ResolvConfPath")?;
        let restart_count = field::<u64>(document, "RestartCount")?;
        let state = field::<State>(document, "State")?;
        Some(
            InspectedContainer {
                app_armor_profile,
                args,
                config,
                created,
                driver,
                exec_ids,
                host_config,
                hostname_path,
                hosts_path,
                id,
                image,
                log_path,
                mount_label,
                mounts,
                name,
                network_settings,
                path,
                process_label,
                resolv_conf_path,
                restart_count,
                state,
            },
        )
    }

    fn absent() -> (r: InspectedContainer) {
        InspectedContainer {
            app_armor_profile: <String>::absent(),
            args: <Vec<String>>::absent(),
            config: <Config>::absent(),
            created: <String>::absent(),
            driver: <String>::absent(),
            exec_ids: <Vec<String>>::absent(),
            host_config: <HostConfig>::absent(),
            hostname_path: <String>::absent(),
            hosts_path: <String>::absent(),
            id: <String>::absent(),
            image: <String>::absent(),
            log_path: <String>::absent(),
            mount_label: <String>::absent(),
            mounts: <Vec<Mount>>::absent(),
            name: <String>::absent(),
            network_settings: <NetworkSettingsNet>::absent(),
            path: <String>::absent(),
            process_label: <String>::absent(),
            resolv_conf_path: <String>::absent(),
            restart_count: <u64>::absent(),
            state: <State>::absent(),
        }
    }

    open spec fn sound(value: InspectedContainerView) -> bool {
        sound_of::<String>(value.app_armor_profile)
            && sound_of::<Vec<String>>(value.args)
            && sound_of::<Config>(value.config)
            && sound_of::<String>(value.created)
            && sound_of::<String>(value.driver)
            && sound_of::<Vec<String>>(value.exec_ids)
            && sound_of::<HostConfig>(value.host_config)
            && sound_of::<String>(value.hostname_path)
            && sound_of::<String>(value.hosts_path)
            && sound_of::<String>(value.id)
            && sound_of::<String>(value.image)
            && sound_of::<String>(value.log_path)
            && sound_of::<String>(value.mount_label)
            && sound_of::<Vec<Mount>>(value.mounts)
            && sound_of::<String>(value.name)
            && sound_of::<NetworkSettingsNet>(value.network_settings)
            && sound_of::<String>(value.path)
            && sound_of::<String>(value.process_label)
            && sound_of::<String>(value.resolv_conf_path)
            && sound_of::<u64>(value.restart_count)
            && sound_of::<State>(value.state)
    }

    proof fn lemma_decoded_sound(document: JsonValue) {
        lemma_field_sound::<String>(document, "AppArmorProfile"@);
        lemma_field_sound::<Vec<String>>(document, "Args"@);
        lemma_field_sound::<Config>(document, "Config"@);
        lemma_field_sound::<String>(document, "Created"@);
        lemma_field_sound::<String>(document, "Driver"@);
        lemma_field_sound::<Vec<String>>(document, "ExecIDs"@);
        lemma_field_sound::<HostConfig>(document, "HostConfig"@);
        lemma_field_sound::<String>(document, "HostnamePath"@);
        lemma_field_sound::<String>(document, "HostsPath"@);
        lemma_field_sound::<String>(document, "Id"@);
        lemma_field_sound::<String>(document, "Image"@);
        lemma_field_sound::<String>(document, "LogPath"@);
        lemma_field_sound::<String>(document, "MountLabel"@);
        lemma_field_sound::<Vec<Mount>>(document, "Mounts"@);
        lemma_field_sound::<String>(document, "Name"@);
        lemma_field_sound::<NetworkSettingsNet>(document, "NetworkSettings"@);
        lemma_field_sound::<String>(document, "Path"@);
        lemma_field_sound::<String>(document, "ProcessLabel"@);
        lemma_field_sound::<String>(document, "ResolvConfPath"@);
        lemma_field_sound::<u64>(document, "RestartCount"@);
        lemma_field_sound::<State>(document, "State"@);
    }

    proof fn lemma_blank_sound() {
        <Config>::lemma_blank_sound();
        <HostConfig>::lemma_blank_sound();
        <NetworkSettingsNet>::lemma_blank_sound();
        <State>::lemma_blank_sound();
        <String>::lemma_blank_sound();
        <Vec<Mount>>::lemma_blank_sound();
        <Vec<String>>::lemma_blank_sound();
        <u64>::lemma_blank_sound();
    }
}

/// The configuration a container was created with.
#[derive(Debug, PartialEq)]
pub struct Config {
    pub attach_stderr: bool,
    pub attach_stdin: bool,
    pub attach_stdout: bool,
    pub cmd: Vec<String>,
    pub domainname: String,
    pub entrypoint: Vec<String>,
    pub env: Vec<String>,
    pub exposed_ports: Vec<String>,
    pub hostname: String,
    pub image: String,
    pub labels: Vec<String>,
    pub on_build: Vec<String>,
    pub open_stdin: bool,
    pub stdin_once: bool,
    pub tty: bool,
    pub user: String,
    pub volumes: Vec<String>,
    pub working_dir: String,
    pub stop_signal: String,
    pub stop_timeout: u64,
    pub health_check: Dictionary<Vec<String>>,
}

/// The mathematical value of a [`Config`].
pub ghost struct ConfigView {
    pub attach_stderr: bool,
    pub attach_stdin: bool,
    pub attach_stdout: bool,
    pub cmd: Seq<Seq<char>>,
    pub domainname: Seq<char>,
    pub entrypoint: Seq<Seq<char>>,
    pub env: Seq<Seq<char>>,
    pub exposed_ports: Seq<Seq<char>>,
    pub hostname: Seq<char>,
    pub image: Seq<char>,
    pub labels: Seq<Seq<char>>,
    pub on_build: Seq<Seq<char>>,
    pub open_stdin: bool,
    pub stdin_once: bool,
    pub tty: bool,
    pub user: Seq<char>,
    pub volumes: Seq<Seq<char>>,
    pub working_dir: Seq<char>,
    pub stop_signal: Seq<char>,
    pub stop_timeout: u64,
    pub health_check: Seq<(Seq<char>, Seq<Seq<char>>)>,
}

impl DeepView for Config {
    type V = ConfigView;

    open spec fn deep_view(&self) -> ConfigView {
        ConfigView {
            attach_stderr: self.attach_stderr.deep_view(),
            attach_stdin: self.attach_stdin.deep_view(),
            attach_stdout: self.attach_stdout.deep_view(),
            cmd: self.cmd.deep_view(),
            domainname: self.domainname.deep_view(),
            entrypoint: self.entrypoint.deep_view(),
            env: self.env.deep_view(),
            exposed_ports: self.exposed_ports.deep_view(),
            hostname: self.hostname.deep_view(),
            image: self.image.deep_view(),
            labels: self.labels.deep_view(),
            on_build: self.on_build.deep_view(),
            open_stdin: self.open_stdin.deep_view(),
            stdin_once: self.stdin_once.deep_view(),
            tty: self.tty.deep_view(),
            user: self.user.deep_view(),
            volumes: self.volumes.deep_view(),
            working_dir: self.working_dir.deep_view(),
            stop_signal: self.stop_signal.deep_view(),
            stop_timeout: self.stop_timeout.deep_view(),
            health_check: self.health_check.deep_view(),
        }
    }
}

impl View for Config {
    type V = ConfigView;

    open spec fn view(&self) -> ConfigView {
        self.deep_view()
    }
}

impl FromJson for Config {
    open spec fn decoded(document: JsonValue) -> Option<ConfigView> {
        if document is Object
            && field_of::<bool>(document, "AttachStderr"@) is Some
            && field_of::<bool>(document, "AttachStdin"@) is Some
            && field_of::<bool>(document, "AttachStdout"@) is Some
            && field_of::<Vec<String>>(document, "Cmd"@) is Some
            && field_of::<String>(document, "Domainname"@) is Some
            && field_of::<Vec<String>>(document, "Entrypoint"@) is Some
            && field_of::<Vec<String>>(document, "Env"@) is Some
            && field_of::<Vec<String>>(document, "ExposedPorts"@) is Some
            && field_of::<String>(document, "Hostname"@) is Some
            && field_of::<String>(document, "Image"@) is Some
            && field_of::<Vec<String>>(document, "Labels"@) is Some
            && field_of::<Vec<String>>(document, "OnBuild"@) is Some
            && field_of::<bool>(document, "OpenStdin"@) is Some
            && field_of::<bool>(document, "StdinOnce"@) is Some
            && field_of::<bool>(document, "Tty"@) is Some
            && field_of::<String>(document, "User"@) is Some
            && field_of::<Vec<String>>(document, "Volumes"@) is Some
            && field_of::<String>(document, "WorkingDir"@) is Some
            && field_of::<String>(document, "StopSignal"@) is Some
            && field_of::<u64>(document, "StopTimeout"@) is Some
            && field_of::<Dictionary<Vec<String>>>(document, "HealthCheck"@) is Some {
            Some(
                ConfigView {
                    attach_stderr: field_of::<bool>(document, "AttachStderr"@)->0,
                    attach_stdin: field_of::<bool>(document, "AttachStdin"@)->0,
                    attach_stdout: field_of::<bool>(document, "AttachStdout"@)->0,
                    cmd: field_of::<Vec<String>>(document, "Cmd"@)->0,
                    domainname: field_of::<String>(document, "Domainname"@)->0,
                    entrypoint: field_of::<Vec<String>>(document, "Entrypoint"@)->0,
                    env: field_of::<Vec<String>>(document, "Env"@)->0,
                    exposed_ports: field_of::<Vec<String>>(document, "ExposedPorts"@)->0,
                    hostname: field_of::<String>(document, "Hostname"@)->0,
                    image: field_of::<String>(document, "Image"@)->0,
                    labels: field_of::<Vec<String>>(document, "Labels"@)->0,
                    on_build: field_of::<Vec<String>>(document, "OnBuild"@)->0,
                    open_stdin: field_of::<bool>(document, "OpenStdin"@)->0,
                    stdin_once: field_of::<bool>(document, "StdinOnce"@)->0,
                    tty: field_of::<bool>(document, "Tty"@)->0,
                    user: field_of::<String>(document, "User"@)->0,
                    volumes: field_of::<Vec<String>>(document, "Volumes"@)->0,
                    working_dir: field_of::<String>(document, "WorkingDir"@)->0,
                    stop_signal: field_of::<String>(document, "StopSignal"@)->0,
                    stop_timeout: field_of::<u64>(document, "StopTimeout"@)->0,
                    health_check: field_of::<Dictionary<Vec<String>>>(
                        document,
                        "HealthCheck"@,
                    )->0,
                },
            )
        } else {
            None
        }
    }

    open spec fn blank() -> ConfigView {
        ConfigView {
            attach_stderr: blank_of::<bool>(),
            attach_stdin: blank_of::<bool>(),
            attach_stdout: blank_of::<bool>(),
            cmd: blank_of::<Vec<String>>(),
            domainname: blank_of::<String>(),
            entrypoint: blank_of::<Vec<String>>(),
            env: blank_of::<Vec<String>>(),
            exposed_ports: blank_of::<Vec<String>>(),
            hostname: blank_of::<String>(),
            image: blank_of::<String>(),
            labels: blank_of::<Vec<String>>(),
            on_build: blank_of::<Vec<String>>(),
            open_stdin: blank_of::<bool>(),
            stdin_once: blank_of::<bool>(),
            tty: blank_of::<bool>(),
            user: blank_of::<String>(),
            volumes: blank_of::<Vec<String>>(),
            working_dir: blank_of::<String>(),
            stop_signal: blank_of::<String>(),
            stop_timeout: blank_of::<u64>(),
            health_check: blank_of::<Dictionary<Vec<String>>>(),
        }
    }

    fn from_json(document: &Json) -> (r: Option<Config>) {
        match document {
            Json::Object(_) => {},
            _ => {
                return None;
            },
        }
        let attach_stderr = field::<bool>(document, "AttachStderr")?;
        let attach_stdin = field::<bool>(document, "AttachStdin")?;
        let attach_stdout = field::<bool>(document, "AttachStdout")?;
        let cmd = field::<Vec<String>>(document, "Cmd")?;
        let domainname = field::<String>(document, "Domainname")?;
        let entrypoint = field::<Vec<String>>(document, "Entrypoint")?;
        let env = field::<Vec<String>>(document, "Env")?;
        let exposed_ports = field::<Vec<String>>(document, "ExposedPorts")?;
        let hostname = field::<String>(document, "Hostname")?;
        let image = field::<String>(document, "Image")?;
        let labels = field::<Vec<String>>(document, "Labels")?;
        let on_build = field::<Vec<String>>(document, "OnBuild")?;
        let open_stdin = field::<bool>(document, "OpenStdin")?;
        let stdin_once = field::<bool>(document, "StdinOnce")?;
        let tty = field::<bool>(document, "Tty")?;
        let user = field::<String>(document, "User")?;
        let volumes = field::<Vec<String>>(document, "Volumes")?;
        let working_dir = field::<String>(document, "WorkingDir")?;
        let stop_signal = field::<String>(document, "StopSignal")?;
        let stop_timeout = field::<u64>(document, "StopTimeout")?;
        let health_check = field::<Dictionary<Vec<String>>>(document, "HealthCheck")?;
        Some(
            Config {
                attach_stderr,
                attach_stdin,
                attach_stdout,
                cmd,
                domainname,
                entrypoint,
                env,
                exposed_ports,
                hostname,
                image,
                labels,
                on_build,
                open_stdin,
                stdin_once,
                tty,
                user,
                volumes,
                working_dir,
                stop_signal,
                stop_timeout,
                health_check,
            },
        )
    }

    fn absent() -> (r: Config) {
        Config {
            attach_stderr: <bool>::absent(),
            attach_stdin: <bool>::absent(),
            attach_stdout: <bool>::absent(),
            cmd: <Vec<String>>::absent(),
            domainname: <String>::absent(),
            entrypoint: <Vec<String>>::absent(),
            env: <Vec<String>>::absent(),
            exposed_ports: <Vec<String>>::absent(),
            hostname: <String>::absent(),
            image: <String>::absent(),
            labels: <Vec<String>>::absent(),
            on_build: <Vec<String>>::absent(),
            open_stdin: <bool>::absent(),
            stdin_once: <bool>::absent(),
            tty: <bool>::absent(),
            user: <String>::absent(),
            volumes: <Vec<String>>::absent(),
            working_dir: <String>::absent(),
            stop_signal: <String>::absent(),
            stop_timeout: <u64>::absent(),
            health_check: <Dictionary<Vec<String>>>::absent(),
        }
    }

    open spec fn sound(value: ConfigView) -> bool {
        sound_of::<bool>(value.attach_stderr)
            && sound_of::<bool>(value.attach_stdin)
            && sound_of::<bool>(value.attach_stdout)
            && sound_of::<Vec<String>>(value.cmd)
            && sound_of::<String>(value.domainname)
            && sound_of::<Vec<String>>(value.entrypoint)
            && sound_of::<Vec<String>>(value.env)
            && sound_of::<Vec<String>>(value.exposed_ports)
            && sound_of::<String>(value.hostname)
            && sound_of::<String>(value.image)
            && sound_of::<Vec<String>>(value.labels)
            && sound_of::<Vec<String>>(value.on_build)
            && sound_of::<bool>(value.open_stdin)
            && sound_of::<bool>(value.stdin_once)
            && sound_of::<bool>(value.tty)
            && sound_of::<String>(value.user)
            && sound_of::<Vec<String>>(value.volumes)
            && sound_of::<String>(value.working_dir)
            && sound_of::<String>(value.stop_signal)
            && sound_of::<u64>(value.stop_timeout)
            && sound_of::<Dictionary<Vec<String>>>(value.health_check)
    }

    proof fn lemma_decoded_sound(document: JsonValue) {
        lemma_field_sound::<bool>(document, "AttachStderr"@);
        lemma_field_sound::<bool>(document, "AttachStdin"@);
        lemma_field_sound::<bool>(document, "AttachStdout"@);
        lemma_field_sound::<Vec<String>>(document, "Cmd"@);
        lemma_field_sound::<String>(document, "Domainname"@);
        lemma_field_sound::<Vec<String>>(document, "Entrypoint"@);
        lemma_field_sound::<Vec<String>>(document, "Env"@);
        lemma_field_sound::<Vec<String>>(document, "ExposedPorts"@);
        lemma_field_sound::<String>(document, "Hostname"@);
        lemma_field_sound::<String>(document, "Image"@);
        lemma_field_sound::<Vec<String>>(document, "Labels"@);
        lemma_field_sound::<Vec<String>>(document, "OnBuild"@);
        lemma_field_sound::<bool>(document, "OpenStdin"@);
        lemma_field_sound::<bool>(document, "StdinOnce"@);
        lemma_field_sound::<bool>(document, "Tty"@);
        lemma_field_sound::<String>(document, "User"@);
        lemma_field_sound::<Vec<String>>(document, "Volumes"@);
        lemma_field_sound::<String>(document, "WorkingDir"@);
        lemma_field_sound::<String>(document, "StopSignal"@);
        lemma_field_sound::<u64>(document, "StopTimeout"@);
        lemma_field_sound::<Dictionary<Vec<String>>>(document, "HealthCheck"@);
    }

    proof fn lemma_blank_sound() {
        <Dictionary<Vec<String>>>::lemma_blank_sound();
        <String>::lemma_blank_sound();
        <Vec<String>>::lemma_blank_sound();
        <bool>::lemma_blank_sound();
        <u64>::lemma_blank_sound();
    }
}

impl Duplicate for Config {
    fn duplicate(&self) -> (copy: Config) {
        Config {
            attach_stderr: self.attach_stderr.duplicate(),
            attach_stdin: self.attach_stdin.duplicate(),
            attach_stdout: self.attach_stdout.duplicate(),
            cmd: self.cmd.duplicate(),
            domainname: self.domainname.duplicate(),
            entrypoint: self.entrypoint.duplicate(),
            env: self.env.duplicate(),
            exposed_ports: self.exposed_ports.duplicate(),
            hostname: self.hostname.duplicate(),
            image: self.image.duplicate(),
            labels: self.labels.duplicate(),
            on_build: self.on_build.duplicate(),
            open_stdin: self.open_stdin.duplicate(),
            stdin_once: self.stdin_once.duplicate(),
            tty: self.tty.duplicate(),
            user: self.user.duplicate(),
            volumes: self.volumes.duplicate(),
            working_dir: self.working_dir.duplicate(),
            stop_signal: self.stop_signal.duplicate(),
            stop_timeout: self.stop_timeout.duplicate(),
            health_check: self.health_check.duplicate(),
        }
    }
}

impl Clone for Config {
    fn clone(&self) -> (copy: Self)
        ensures
            copy@ == self@,
    {
        self.duplicate()
    }
}

impl Default for Config {
    fn default() -> (r: Self)
        ensures
            r@ == blank_of::<Config>(),
    {
        <Config>::absent()
    }
}

/// The run state of a container.
#[derive(Debug, PartialEq)]
pub struct State {
    pub error: String,
    pub exit_code: u64,
    pub finished_at: String,
    pub oom_killed: bool,
    pub paused: bool,
    pub pid: u64,
    pub restarting: bool,
    pub running: bool,
    pub started_at: String,
    pub status: StateHealth,
}

/// The mathematical value of a [`State`].
pub ghost struct StateView {
    pub error: Seq<char>,
    pub exit_code: u64,
    pub finished_at: Seq<char>,
    pub oom_killed: bool,
    pub paused: bool,
    pub pid: u64,
    pub restarting: bool,
    pub running: bool,
    pub started_at: Seq<char>,
    pub status: StateHealthView,
}

impl DeepView for State {
    type V = StateView;

    open spec fn deep_view(&self) -> StateView {
        StateView {
            error: self.error.deep_view(),
            exit_code: self.exit_code.deep_view(),
            finished_at: self.finished_at.deep_view(),
            oom_killed: self.oom_killed.deep_view(),
            paused: self.paused.deep_view(),
            pid: self.pid.deep_view(),
            restarting: self.restarting.deep_view(),
            running: self.running.deep_view(),
            started_at: self.started_at.deep_view(),
            status: self.status.deep_view(),
        }
    }
}

impl View for State {
    type V = StateView;

    open spec fn view(&self) -> StateView {
        self.deep_view()
    }
}

impl FromJson for State {
    open spec fn decoded(document: JsonValue) -> Option<StateView> {
        if document is Object
            && field_of::<String>(document, "Error"@) is Some
            && field_of::<u64>(document, "ExitCode"@) is Some
            && field_of::<String>(document, "FinishedAt"@) is Some
            && field_of::<bool>(document, "OOMKilled"@) is Some
            && field_of::<bool>(document, "Paused"@) is Some
            && field_of::<u64>(document, "Pid"@) is Some
            && field_of::<bool>(document, "Restarting"@) is Some
            && field_of::<bool>(document, "Running"@) is Some
            && field_of::<String>(document, "StartedAt"@) is Some
            && field_of::<StateHealth>(document, "Status"@) is Some {
            Some(
                StateView {
                    error: field_of::<String>(document, "Error"@)->0,
                    exit_code: field_of::<u64>(document, "ExitCode"@)->0,
                    finished_at: field_of::<String>(document, "FinishedAt"@)->0,
                    oom_killed: field_of::<bool>(document, "OOMKilled"@)->0,
                    paused: field_of::<bool>(document, "Paused"@)->0,
                    pid: field_of::<u64>(document, "Pid"@)->0,
                    restarting: field_of::<bool>(document, "Restarting"@)->0,
                    running: field_of::<bool>(document, "Running"@)->0,
                    started_at: field_of::<String>(document, "StartedAt"@)->0,
                    status: field_of::<StateHealth>(document, "Status"@)->0,
                },
            )
        } else {
            None
        }
    }

    open spec fn blank() -> StateView {
        StateView {
            error: blank_of::<String>(),
            exit_code: blank_of::<u64>(),
            finished_at: blank_of::<String>(),
            oom_killed: blank_of::<bool>(),
            paused: blank_of::<bool>(),
            pid: blank_of::<u64>(),
            restarting: blank_of::<bool>(),
            running: blank_of::<bool>(),
            started_at: blank_of::<String>(),
            status: blank_of::<StateHealth>(),
        }
    }

    fn from_json(document: &Json) -> (r: Option<State>) {
        match document {
            Json::Object(_) => {},
            _ => {
                return None;
            },
        }
        let error = field::<String>(document, "Error")?;
        let exit_code = field::<u64>(document, "ExitCode")?;
        let finished_at = field::<String>(document, "FinishedAt")?;
        let oom_killed = field::<bool>(document, "OOMKilled")?;
        let paused = field::<bool>(document, "Paused")?;
        let pid = field::<u64>(document, "Pid")?;
        let restarting = field::<bool>(document, "Restarting")?;
        let running = field::<bool>(document, "Running")?;
        let started_at = field::<String>(document, "StartedAt")?;
        let status = field::<StateHealth>(document, "Status")?;
        Some(
            State {
                error,
                exit_code,
                finished_at,
                oom_killed,
                paused,
                pid,
                restarting,
                running,
                started_at,
                status,
            },
        )
    }

    fn absent() -> (r: State) {
        State {
            error: <String>::absent(),
            exit_code: <u64>::absent(),
            finished_at: <String>::absent(),
            oom_killed: <bool>::absent(),
            paused: <bool>::absent(),
            pid: <u64>::absent(),
            restarting: <bool>::absent(),
            running: <bool>::absent(),
            started_at: <String>::absent(),
            status: <StateHealth>::absent(),
        }
    }

    open spec fn sound(value: StateView) -> bool {
        sound_of::<String>(value.error)
            && sound_of::<u64>(value.exit_code)
            && sound_of::<String>(value.finished_at)
            && sound_of::<bool>(value.oom_killed)
            && sound_of::<bool>(value.paused)
            && sound_of::<u64>(value.pid)
            && sound_of::<bool>(value.restarting)
            && sound_of::<bool>(value.running)
            && sound_of::<String>(value.started_at)
            && sound_of::<StateHealth>(value.status)
    }

    proof fn lemma_decoded_sound(document: JsonValue) {
        lemma_field_sound::<String>(document, "Error"@);
        lemma_field_sound::<u64>(document, "ExitCode"@);
        lemma_field_sound::<String>(document, "FinishedAt"@);
        lemma_field_sound::<bool>(document, "OOMKilled"@);
        lemma_field_sound::<bool>(document, "Paused"@);
        lemma_field_sound::<u64>(document, "Pid"@);
        lemma_field_sound::<bool>(document, "Restarting"@);
        lemma_field_sound::<bool>(document, "Running"@);
        lemma_field_sound::<String>(document, "StartedAt"@);
        lemma_field_sound::<StateHealth>(document, "Status"@);
    }

    proof fn lemma_blank_sound() {
        <StateHealth>::lemma_blank_sound();
        <String>::lemma_blank_sound();
        <bool>::lemma_blank_sound();
        <u64>::lemma_blank_sound();
    }
}

impl Duplicate for State {
    fn duplicate(&self) -> (copy: State) {
        State {
            error: self.error.duplicate(),
            exit_code: self.exit_code.duplicate(),
            finished_at: self.finished_at.duplicate(),
            oom_killed: self.oom_killed.duplicate(),
            paused: self.paused.duplicate(),
            pid: self.pid.duplicate(),
            restarting: self.restarting.duplicate(),
            running: self.running.duplicate(),
            started_at: self.started_at.duplicate(),
            status: self.status.duplicate(),
        }
    }
}

impl Clone for State {
    fn clone(&self) -> (copy: Self)
        ensures
            copy@ == self@,
    {
        self.duplicate()
    }
}

impl Default for State {
    fn default() -> (r: Self)
        ensures
            r@ == blank_of::<State>(),
    {
        <State>::absent()
    }
}

/// The health of a container and the log of its checks.
#[derive(Debug, PartialEq)]
pub struct StateHealth {
    pub failing_streak: u64,
    pub log: Vec<Dictionary<Json>>,
    pub status: String,
}

/// The mathematical value of a [`StateHealth`].
pub ghost struct StateHealthView {
    pub failing_streak: u64,
    pub log: Seq<Seq<(Seq<char>, JsonValue)>>,
    pub status: Seq<char>,
}

impl DeepView for StateHealth {
    type V = StateHealthView;

    open spec fn deep_view(&self) -> StateHealthView {
        StateHealthView {
            failing_streak: self.failing_streak.deep_view(),
            log: self.log.deep_view(),
            status: self.status.deep_view(),
        }
    }
}

impl View for StateHealth {
    type V = StateHealthView;

    open spec fn view(&self) -> StateHealthView {
        self.deep_view()
    }
}

impl FromJson for StateHealth {
    open spec fn decoded(document: JsonValue) -> Option<StateHealthView> {
        if document is Object
            && field_of::<u64>(document, "FailingStreak"@) is Some
            && field_of::<Vec<Dictionary<Json>>>(document, "Log"@) is Some
            && field_of::<String>(document, "Status"@) is Some {
            Some(
                StateHealthView {
                    failing_streak: field_of::<u64>(document, "FailingStreak"@)->0,
                    log: field_of::<Vec<Dictionary<Json>>>(document, "Log"@)->0,
                    status: field_of::<String>(document, "Status"@)->0,
                },
            )
        } else {
            None
        }
    }

    open spec fn blank() -> StateHealthView {
        StateHealthView {
            failing_streak: blank_of::<u64>(),
            log: blank_of::<Vec<Dictionary<Json>>>(),
            status: blank_of::<String>(),
        }
    }

    fn from_json(document: &Json) -> (r: Option<StateHealth>) {
        match document {
            Json::Object(_) => {},
            _ => {
                return None;
            },
        }
        let failing_streak = field::<u64>(document, "FailingStreak")?;
        let log = field::<Vec<Dictionary<Json>>>(document, "Log")?;
        let status = field::<String>(document, "Status")?;
        Some(StateHealth { failing_streak, log, status })
    }

    fn absent() -> (r: StateHealth) {
        StateHealth {
            failing_streak: <u64>::absent(),
            log: <Vec<Dictionary<Json>>>::absent(),
            status: <String>::absent(),
        }
    }

    open spec fn sound(value: StateHealthView) -> bool {
        sound_of::<u64>(value.failing_streak)
            && sound_of::<Vec<Dictionary<Json>>>(value.log)
            && sound_of::<String>(value.status)
    }

    proof fn lemma_decoded_sound(document: JsonValue) {
        lemma_field_sound::<u64>(document, "FailingStreak"@);
        lemma_field_sound::<Vec<Dictionary<Json>>>(document, "Log"@);
        lemma_field_sound::<String>(document, "Status"@);
    }

    proof fn lemma_blank_sound() {
        <String>::lemma_blank_sound();
        <Vec<Dictionary<Json>>>::lemma_blank_sound();
        <u64>::lemma_blank_sound();
    }
}

impl Duplicate for StateHealth {
    fn duplicate(&self) -> (copy: StateHealth) {
        StateHealth {
            failing_streak: self.failing_streak.duplicate(),
            log: self.log.duplicate(),
            status: self.status.duplicate(),
        }
    }
}

impl Clone for StateHealth {
    fn clone(&self) -> (copy: Self)
        ensures
            copy@ == self@,
    {
        self.duplicate()
    }
}

impl Default for StateHealth {
    fn default() -> (r: Self)
        ensures
            r@ == blank_of::<StateHealth>(),
    {
        <StateHealth>::absent()
    }
}

/// The host-side configuration of an inspected container.
#[derive(Debug, PartialEq)]
pub struct HostConfig {
    pub maximum_iops: i64,
    pub maximum_io_bps: i64,
    pub blkio_weight: i16,
    pub blkio_weight_device: Vec<Dictionary<String>>,
    pub blkio_device_read_bps: Vec<Dictionary<String>>,
    pub blkio_device_write_bps: Vec<Dictionary<String>>,
    pub blkio_device_read_iops: Vec<Dictionary<String>>,
    pub blkio_device_write_iops: Vec<Dictionary<String>>,
    pub container_id_file: String,
    pub cpuset_cpus: String,
    pub cpuset_mems: String,
    pub cpu_percent: u64,
    pub cpu_shares: u64,
    pub cpu_period: i64,
    pub cpu_realtime_period: i64,
    pub cpu_realtime_runtime: i64,
    pub devices: Vec<Dictionary<Json>>,
    pub device_requests: Vec<DeviceRequest>,
    pub ipc_mode: String,
    pub memory: i64,
    pub memory_swap: i64,
    pub memory_reservation: i64,
    pub kernel_memory: i64,
    pub oom_kill_disable: bool,
    pub oom_score_adj: i16,
    pub network_mode: String,
    pub pid_mode: String,
    pub port_bindings: Dictionary<Vec<Dictionary<String>>>,
    pub privileged: bool,
    pub readonly_rootfs: bool,
    pub publish_all_ports: bool,
    pub restart_policy: Dictionary<String>,
    pub log_config: Dictionary<String>,
    pub sysctls: Dictionary<String>,
    pub ulimits: Vec<Dictionary<String>>,
    pub volume_driver: String,
    pub shm_size: i64,
}

/// The mathematical value of a [`HostConfig`].
pub ghost struct HostConfigView {
    pub maximum_iops: i64,
    pub maximum_io_bps: i64,
    pub blkio_weight: i16,
    pub blkio_weight_device: Seq<Seq<(Seq<char>, Seq<char>)>>,
    pub blkio_device_read_bps: Seq<Seq<(Seq<char>, Seq<char>)>>,
    pub blkio_device_write_bps: Seq<Seq<(Seq<char>, Seq<char>)>>,
    pub blkio_device_read_iops: Seq<Seq<(Seq<char>, Seq<char>)>>,
    pub blkio_device_write_iops: Seq<Seq<(Seq<char>, Seq<char>)>>,
    pub container_id_file: Seq<char>,
    pub cpuset_cpus: Seq<char>,
    pub cpuset_mems: Seq<char>,
    pub cpu_percent: u64,
    pub cpu_shares: u64,
    pub cpu_period: i64,
    pub cpu_realtime_period: i64,
    pub cpu_realtime_runtime: i64,
    pub devices: Seq<Seq<(Seq<char>, JsonValue)>>,
    pub device_requests: Seq<DeviceRequestView>,
    pub ipc_mode: Seq<char>,
    pub memory: i64,
    pub memory_swap: i64,
    pub memory_reservation: i64,
    pub kernel_memory: i64,
    pub oom_kill_disable: bool,
    pub oom_score_adj: i16,
    pub network_mode: Seq<char>,
    pub pid_mode: Seq<char>,
    pub port_bindings: Seq<(Seq<char>, Seq<Seq<(Seq<char>, Seq<char>)>>)>,
    pub privileged: bool,
    pub readonly_rootfs: bool,
    pub publish_all_ports: bool,
    pub restart_policy: Seq<(Seq<char>, Seq<char>)>,
    pub log_config: Seq<(Seq<char>, Seq<char>)>,
    pub sysctls: Seq<(Seq<char>, Seq<char>)>,
    pub ulimits: Seq<Seq<(Seq<char>, Seq<char>)>>,
    pub volume_driver: Seq<char>,
    pub shm_size: i64,
}

impl DeepView for HostConfig {
    type V = HostConfigView;

    open spec fn deep_view(&self) -> HostConfigView {
        HostConfigView {
            maximum_iops: self.maximum_iops.deep_view(),
            maximum_io_bps: self.maximum_io_bps.deep_view(),
            blkio_weight: self.blkio_weight.deep_view(),
            blkio_weight_device: self.blkio_weight_device.deep_view(),
            blkio_device_read_bps: self.blkio_device_read_bps.deep_view(),
            blkio_device_write_bps: self.blkio_device_write_bps.deep_view(),
            blkio_device_read_iops: self.blkio_device_read_iops.deep_view(),
            blkio_device_write_iops: self.blkio_device_write_iops.deep_view(),
            container_id_file: self.container_id_file.deep_view(),
            cpuset_cpus: self.cpuset_cpus.deep_view(),
            cpuset_mems: self.cpuset_mems.deep_view(),
            cpu_percent: self.cpu_percent.deep_view(),
            cpu_shares: self.cpu_shares.deep_view(),
            cpu_period: self.cpu_period.deep_view(),
            cpu_realtime_period: self.cpu_realtime_period.deep_view(),
            cpu_realtime_runtime: self.cpu_realtime_runtime.deep_view(),
            devices: self.devices.deep_view(),
            device_requests: self.device_requests.deep_view(),
            ipc_mode: self.ipc_mode.deep_view(),
            memory: self.memory.deep_view(),
            memory_swap: self.memory_swap.deep_view(),
            memory_reservation: self.memory_reservation.deep_view(),
            kernel_memory: self.kernel_memory.deep_view(),
            oom_kill_disable: self.oom_kill_disable.deep_view(),
            oom_score_adj: self.oom_score_adj.deep_view(),
            network_mode: self.network_mode.deep_view(),
            pid_mode: self.pid_mode.deep_view(),
            port_bindings: self.port_bindings.deep_view(),
            privileged: self.privileged.deep_view(),
            readonly_rootfs: self.readonly_rootfs.deep_view(),
            publish_all_ports: self.publish_all_ports.deep_view(),
            restart_policy: self.restart_policy.deep_view(),
            log_config: self.log_config.deep_view(),
            sysctls: self.sysctls.deep_view(),
            ulimits: self.ulimits.deep_view(),
            volume_driver: self.volume_driver.deep_view(),
            shm_size: self.shm_size.deep_view(),
        }
    }
}

impl View for HostConfig {
    type V = HostConfigView;

    open spec fn view(&self) -> HostConfigView {
        self.deep_view()
    }
}

impl FromJson for HostConfig {
    open spec fn decoded(document: JsonValue) -> Option<HostConfigView> {
        if document is Object
            && field_of::<i64>(document, "MaximumIops"@) is Some
            && field_of::<i64>(document, "MaximumIOBps"@) is Some
            && field_of::<i16>(document, "BlkioWeight"@) is Some
            && field_of::<Vec<Dictionary<String>>>(document, "BlkioWeightDevice"@) is Some
            && field_of::<Vec<Dictionary<String>>>(document, "BlkioDeviceReadBps"@) is Some
            && field_of::<Vec<Dictionary<String>>>(document, "BlkioDeviceWriteBps"@) is Some
            && field_of::<Vec<Dictionary<String>>>(document, "BlkioDeviceReadIOps"@) is Some
            && field_of::<Vec<Dictionary<String>>>(document, "BlkioDeviceWriteIOps"@) is Some
            && field_of::<String>(document, "ContainerIDFile"@) is Some
            && field_of::<String>(document, "CpusetCpus"@) is Some
            && field_of::<String>(document, "CpusetMems"@) is Some
            && field_of::<u64>(document, "CpuPercent"@) is Some
            && field_of::<u64>(document, "CpuShares"@) is Some
            && field_of::<i64>(document, "CpuPeriod"@) is Some
            && field_of::<i64>(document, "CpuRealtimePeriod"@) is Some
            && field_of::<i64>(document, "CpuRealtimeRuntime"@) is Some
            && field_of::<Vec<Dictionary<Json>>>(document, "Devices"@) is Some
            && field_of::<Vec<DeviceRequest>>(document, "DeviceRequests"@) is Some
            && field_of::<String>(document, "IpcMode"@) is Some
            && field_of::<i64>(document, "Memory"@) is Some
            && field_of::<i64>(document, "MemorySwap"@) is Some
            && field_of::<i64>(document, "MemoryReservation"@) is Some
            && field_of::<i64>(document, "KernelMemory"@) is Some
            && field_of::<bool>(document, "OomKillDisable"@) is Some
            && field_of::<i16>(document, "OomScoreAdj"@) is Some
            && field_of::<String>(document, "NetworkMode"@) is Some
            && field_of::<String>(document, "PidMode"@) is Some
            && field_of::<Dictionary<Vec<Dictionary<String>>>>(
                document,
                "PortBindings"@,
            ) is Some
            && field_of::<bool>(document, "Privileged"@) is Some
            && field_of::<bool>(document, "ReadonlyRootfs"@) is Some
            && field_of::<bool>(document, "PublishAllPorts"@) is Some
            && field_of::<Dictionary<String>>(document, "RestartPolicy"@) is Some
            && field_of::<Dictionary<String>>(document, "LogConfig"@) is Some
            && field_of::<Dictionary<String>>(document, "Sysctls"@) is Some
            && field_of::<Vec<Dictionary<String>>>(document, "Ulimits"@) is Some
            && field_of::<String>(document, "VolumeDriver"@) is Some
            && field_of::<i64>(document, "ShmSize"@) is Some {
            Some(
                HostConfigView {
                    maximum_iops: field_of::<i64>(document, "MaximumIops"@)->0,
                    maximum_io_bps: field_of::<i64>(document, "MaximumIOBps"@)->0,
                    blkio_weight: field_of::<i16>(document, "BlkioWeight"@)->0,
                    blkio_weight_device: field_of::<Vec<Dictionary<String>>>(
                        document,
                        "BlkioWeightDevice"@,
                    )->0,
                    blkio_device_read_bps: field_of::<Vec<Dictionary<String>>>(
                        document,
                        "BlkioDeviceReadBps"@,
                    )->0,
                    blkio_device_write_bps: field_of::<Vec<Dictionary<String>>>(
                        document,
                        "BlkioDeviceWriteBps"@,
                    )->0,
                    blkio_device_read_iops: field_of::<Vec<Dictionary<String>>>(
                        document,
                        "BlkioDeviceReadIOps"@,
                    )->0,
                    blkio_device_write_iops: field_of::<Vec<Dictionary<String>>>(
                        document,
                        "BlkioDeviceWriteIOps"@,
                    )->0,
                    container_id_file: field_of::<String>(document, "ContainerIDFile"@)->0,
                    cpuset_cpus: field_of::<String>(document, "CpusetCpus"@)->0,
                    cpuset_mems: field_of::<String>(document, "CpusetMems"@)->0,
                    cpu_percent: field_of::<u64>(document, "CpuPercent"@)->0,
                    cpu_shares: field_of::<u64>(document, "CpuShares"@)->0,
                    cpu_period: field_of::<i64>(document, "CpuPeriod"@)->0,
                    cpu_realtime_period: field_of::<i64>(document, "CpuRealtimePeriod"@)->0,
                    cpu_realtime_runtime: field_of::<i64>(document, "CpuRealtimeRuntime"@)->0,
                    devices: field_of::<Vec<Dictionary<Json>>>(document, "Devices"@)->0,
                    device_requests: field_of::<Vec<DeviceRequest>>(
                        document,
                        "DeviceRequests"@,
                    )->0,
                    ipc_mode: field_of::<String>(document, "IpcMode"@)->0,
                    memory: field_of::<i64>(document, "Memory"@)->0,
                    memory_swap: field_of::<i64>(document, "MemorySwap"@)->0,
                    memory_reservation: field_of::<i64>(document, "MemoryReservation"@)->0,
                    kernel_memory: field_of::<i64>(document, "KernelMemory"@)->0,
                    oom_kill_disable: field_of::<bool>(document, "OomKillDisable"@)->0,
                    oom_score_adj: field_of::<i16>(document, "OomScoreAdj"@)->0,
                    network_mode: field_of::<String>(document, "NetworkMode"@)->0,
                    pid_mode: field_of::<String>(document, "PidMode"@)->0,
                    port_bindings: field_of::<Dictionary<Vec<Dictionary<String>>>>(
                        document,
                        "PortBindings"@,
                    )->0,
                    privileged: field_of::<bool>(document, "Privileged"@)->0,
                    readonly_rootfs: field_of::<bool>(document, "ReadonlyRootfs"@)->0,
                    publish_all_ports: field_of::<bool>(document, "PublishAllPorts"@)->0,
                    restart_policy: field_of::<Dictionary<String>>(
                        document,
                        "RestartPolicy"@,
                    )->0,
                    log_config: field_of::<Dictionary<String>>(document, "LogConfig"@)->0,
                    sysctls: field_of::<Dictionary<String>>(document, "Sysctls"@)->0,
                    ulimits: field_of::<Vec<Dictionary<String>>>(document, "Ulimits"@)->0,
                    volume_driver: field_of::<String>(document, "VolumeDriver"@)->0,
                    shm_size: field_of::<i64>(document, "ShmSize"@)->0,
                },
            )
        } else {
            None
        }
    }

    open spec fn blank() -> HostConfigView {
        HostConfigView {
            maximum_iops: blank_of::<i64>(),
            maximum_io_bps: blank_of::<i64>(),
            blkio_weight: blank_of::<i16>(),
            blkio_weight_device: blank_of::<Vec<Dictionary<String>>>(),
            blkio_device_read_bps: blank_of::<Vec<Dictionary<String>>>(),
            blkio_device_write_bps: blank_of::<Vec<Dictionary<String>>>(),
            blkio_device_read_iops: blank_of::<Vec<Dictionary<String>>>(),
            blkio_device_write_iops: blank_of::<Vec<Dictionary<String>>>(),
            container_id_file: blank_of::<String>(),
            cpuset_cpus: blank_of::<String>(),
            cpuset_mems: blank_of::<String>(),
            cpu_percent: blank_of::<u64>(),
            cpu_shares: blank_of::<u64>(),
            cpu_period: blank_of::<i64>(),
            cpu_realtime_period: blank_of::<i64>(),
            cpu_realtime_runtime: blank_of::<i64>(),
            devices: blank_of::<Vec<Dictionary<Json>>>(),
            device_requests: blank_of::<Vec<DeviceRequest>>(),
            ipc_mode: blank_of::<String>(),
            memory: blank_of::<i64>(),
            memory_swap: blank_of::<i64>(),
            memory_reservation: blank_of::<i64>(),
            kernel_memory: blank_of::<i64>(),
            oom_kill_disable: blank_of::<bool>(),
            oom_score_adj: blank_of::<i16>(),
            network_mode: blank_of::<String>(),
            pid_mode: blank_of::<String>(),
            port_bindings: blank_of::<Dictionary<Vec<Dictionary<String>>>>(),
            privileged: blank_of::<bool>(),
            readonly_rootfs: blank_of::<bool>(),
            publish_all_ports: blank_of::<bool>(),
            restart_policy: blank_of::<Dictionary<String>>(),
            log_config: blank_of::<Dictionary<String>>(),
            sysctls: blank_of::<Dictionary<String>>(),
            ulimits: blank_of::<Vec<Dictionary<String>>>(),
            volume_driver: blank_of::<String>(),
            shm_size: blank_of::<i64>(),
        }
    }

    fn from_json(document: &Json) -> (r: Option<HostConfig>) {
        match document {
            Json::Object(_) => {},
            _ => {
                return None;
            },
        }
        let maximum_iops = field::<i64>(document, "MaximumIops")?;
        let maximum_io_bps = field::<i64>(document, "MaximumIOBps")?;
        let blkio_weight = field::<i16>(document, "BlkioWeight")?;
        let blkio_weight_device = field::<Vec<Dictionary<String>>>(
            document,
            "BlkioWeightDevice",
        )?;
        let blkio_device_read_bps = field::<Vec<Dictionary<String>>>(
            document,
            "BlkioDeviceReadBps",
        )?;
        let blkio_device_write_bps = field::<Vec<Dictionary<String>>>(
            document,
            "BlkioDeviceWriteBps",
        )?;
        let blkio_device_read_iops = field::<Vec<Dictionary<String>>>(
            document,
            "BlkioDeviceReadIOps",
        )?;
        let blkio_device_write_iops = field::<Vec<Dictionary<String>>>(
            document,
            "BlkioDeviceWriteIOps",
        )?;
        let container_id_file = field::<String>(document, "ContainerIDFile")?;
        let cpuset_cpus = field::<String>(document, "CpusetCpus")?;
        let cpuset_mems = field::<String>(document, "CpusetMems")?;
        let cpu_percent = field::<u64>(document, "CpuPercent")?;
        let cpu_shares = field::<u64>(document, "CpuShares")?;
        let cpu_period = field::<i64>(document, "CpuPeriod")?;
        let cpu_realtime_period = field::<i64>(document, "CpuRealtimePeriod")?;
        let cpu_realtime_runtime = field::<i64>(document, "CpuRealtimeRuntime")?;
        let devices = field::<Vec<Dictionary<Json>>>(document, "Devices")?;
        let device_requests = field::<Vec<DeviceRequest>>(document, "DeviceRequests")?;
        let ipc_mode = field::<String>(document, "IpcMode")?;
        let memory = field::<i64>(document, "Memory")?;
        let memory_swap = field::<i64>(document, "MemorySwap")?;
        let memory_reservation = field::<i64>(document, "MemoryReservation")?;
        let kernel_memory = field::<i64>(document, "KernelMemory")?;
        let oom_kill_disable = field::<bool>(document, "OomKillDisable")?;
        let oom_score_adj = field::<i16>(document, "OomScoreAdj")?;
        let network_mode = field::<String>(document, "NetworkMode")?;
        let pid_mode = field::<String>(document, "PidMode")?;
        let port_bindings = field::<Dictionary<Vec<Dictionary<String>>>>(
            document,
            "PortBindings",
        )?;
        let privileged = field::<bool>(document, "Privileged")?;
        let readonly_rootfs = field::<bool>(document, "ReadonlyRootfs")?;
        let publish_all_ports = field::<bool>(document, "PublishAllPorts")?;
        let restart_policy = field::<Dictionary<String>>(document, "RestartPolicy")?;
        let log_config = field::<Dictionary<String>>(document, "LogConfig")?;
        let sysctls = field::<Dictionary<String>>(document, "Sysctls")?;
        let ulimits = field::<Vec<Dictionary<String>>>(document, "Ulimits")?;
        let volume_driver = field::<String>(document, "VolumeDriver")?;
        let shm_size = field::<i64>(document, "ShmSize")?;
        Some(
            HostConfig {
                maximum_iops,
                maximum_io_bps,
                blkio_weight,
                blkio_weight_device,
                blkio_device_read_bps,
                blkio_device_write_bps,
                blkio_device_read_iops,
                blkio_device_write_iops,
                container_id_file,
                cpuset_cpus,
                cpuset_mems,
                cpu_percent,
                cpu_shares,
                cpu_period,
                cpu_realtime_period,
                cpu_realtime_runtime,
                devices,
                device_requests,
                ipc_mode,
                memory,
                memory_swap,
                memory_reservation,
                kernel_memory,
                oom_kill_disable,
                oom_score_adj,
                network_mode,
                pid_mode,
                port_bindings,
                privileged,
                readonly_rootfs,
                publish_all_ports,
                restart_policy,
                log_config,
                sysctls,
                ulimits,
                volume_driver,
                shm_size,
            },
        )
    }

    fn absent() -> (r: HostConfig) {
        HostConfig {
            maximum_iops: <i64>::absent(),
            maximum_io_bps: <i64>::absent(),
            blkio_weight: <i16>::absent(),
            blkio_weight_device: <Vec<Dictionary<String>>>::absent(),
            blkio_device_read_bps: <Vec<Dictionary<String>>>::absent(),
            blkio_device_write_bps: <Vec<Dictionary<String>>>::absent(),
            blkio_device_read_iops: <Vec<Dictionary<String>>>::absent(),
            blkio_device_write_iops: <Vec<Dictionary<String>>>::absent(),
            container_id_file: <String>::absent(),
            cpuset_cpus: <String>::absent(),
            cpuset_mems: <String>::absent(),
            cpu_percent: <u64>::absent(),
            cpu_shares: <u64>::absent(),
            cpu_period: <i64>::absent(),
            cpu_realtime_period: <i64>::absent(),
            cpu_realtime_runtime: <i64>::absent(),
            devices: <Vec<Dictionary<Json>>>::absent(),
            device_requests: <Vec<DeviceRequest>>::absent(),
            ipc_mode: <String>::absent(),
            memory: <i64>::absent(),
            memory_swap: <i64>::absent(),
            memory_reservation: <i64>::absent(),
            kernel_memory: <i64>::absent(),
            oom_kill_disable: <bool>::absent(),
            oom_score_adj: <i16>::absent(),
            network_mode: <String>::absent(),
            pid_mode: <String>::absent(),
            port_bindings: <Dictionary<Vec<Dictionary<String>>>>::absent(),
            privileged: <bool>::absent(),
            readonly_rootfs: <bool>::absent(),
            publish_all_ports: <bool>::absent(),
            restart_policy: <Dictionary<String>>::absent(),
            log_config: <Dictionary<String>>::absent(),
            sysctls: <Dictionary<String>>::absent(),
            ulimits: <Vec<Dictionary<String>>>::absent(),
            volume_driver: <String>::absent(),
            shm_size: <i64>::absent(),
        }
    }

    open spec fn sound(value: HostConfigView) -> bool {
        sound_of::<i64>(value.maximum_iops)
            && sound_of::<i64>(value.maximum_io_bps)
            && sound_of::<i16>(value.blkio_weight)
            && sound_of::<Vec<Dictionary<String>>>(value.blkio_weight_device)
            && sound_of::<Vec<Dictionary<String>>>(value.blkio_device_read_bps)
            && sound_of::<Vec<Dictionary<String>>>(value.blkio_device_write_bps)
            && sound_of::<Vec<Dictionary<String>>>(value.blkio_device_read_iops)
            && sound_of::<Vec<Dictionary<String>>>(value.blkio_device_write_iops)
            && sound_of::<String>(value.container_id_file)
            && sound_of::<String>(value.cpuset_cpus)
            && sound_of::<String>(value.cpuset_mems)
            && sound_of::<u64>(value.cpu_percent)
            && sound_of::<u64>(value.cpu_shares)
            && sound_of::<i64>(value.cpu_period)
            && sound_of::<i64>(value.cpu_realtime_period)
            && sound_of::<i64>(value.cpu_realtime_runtime)
            && sound_of::<Vec<Dictionary<Json>>>(value.devices)
            && sound_of::<Vec<DeviceRequest>>(value.device_requests)
            && sound_of::<String>(value.ipc_mode)
            && sound_of::<i64>(value.memory)
            && sound_of::<i64>(value.memory_swap)
            && sound_of::<i64>(value.memory_reservation)
            && sound_of::<i64>(value.kernel_memory)
            && sound_of::<bool>(value.oom_kill_disable)
            && sound_of::<i16>(value.oom_score_adj)
            && sound_of::<String>(value.network_mode)
            && sound_of::<String>(value.pid_mode)
            && sound_of::<Dictionary<Vec<Dictionary<String>>>>(value.port_bindings)
            && sound_of::<bool>(value.privileged)
            && sound_of::<bool>(value.readonly_rootfs)
            && sound_of::<bool>(value.publish_all_ports)
            && sound_of::<Dictionary<String>>(value.restart_policy)
            && sound_of::<Dictionary<String>>(value.log_config)
            && sound_of::<Dictionary<String>>(value.sysctls)
            && sound_of::<Vec<Dictionary<String>>>(value.ulimits)
            && sound_of::<String>(value.volume_driver)
            && sound_of::<i64>(value.shm_size)
    }

    proof fn lemma_decoded_sound(document: JsonValue) {
        lemma_field_sound::<i64>(document, "MaximumIops"@);
        lemma_field_sound::<i64>(document, "MaximumIOBps"@);
        lemma_field_sound::<i16>(document, "BlkioWeight"@);
        lemma_field_sound::<Vec<Dictionary<String>>>(document, "BlkioWeightDevice"@);
        lemma_field_sound::<Vec<Dictionary<String>>>(document, "BlkioDeviceReadBps"@);
        lemma_field_sound::<Vec<Dictionary<String>>>(document, "BlkioDeviceWriteBps"@);
        lemma_field_sound::<Vec<Dictionary<String>>>(document, "BlkioDeviceReadIOps"@);
        lemma_field_sound::<Vec<Dictionary<String>>>(document, "BlkioDeviceWriteIOps"@);
        lemma_field_sound::<String>(document, "ContainerIDFile"@);
        lemma_field_sound::<String>(document, "CpusetCpus"@);
        lemma_field_sound::<String>(document, "CpusetMems"@);
        lemma_field_sound::<u64>(document, "CpuPercent"@);
        lemma_field_sound::<u64>(document, "CpuShares"@);
        lemma_field_sound::<i64>(document, "CpuPeriod"@);
        lemma_field_sound::<i64>(document, "CpuRealtimePeriod"@);
        lemma_field_sound::<i64>(document, "CpuRealtimeRuntime"@);
        lemma_field_sound::<Vec<Dictionary<Json>>>(document, "Devices"@);
        lemma_field_sound::<Vec<DeviceRequest>>(document, "DeviceRequests"@);
        lemma_field_sound::<String>(document, "IpcMode"@);
        lemma_field_sound::<i64>(document, "Memory"@);
        lemma_field_sound::<i64>(document, "MemorySwap"@);
        lemma_field_sound::<i64>(document, "MemoryReservation"@);
        lemma_field_sound::<i64>(document, "KernelMemory"@);
        lemma_field_sound::<bool>(document, "OomKillDisable"@);
        lemma_field_sound::<i16>(document, "OomScoreAdj"@);
        lemma_field_sound::<String>(document, "NetworkMode"@);
        lemma_field_sound::<String>(document, "PidMode"@);
        lemma_field_sound::<Dictionary<Vec<Dictionary<String>>>>(document, "PortBindings"@);
        lemma_field_sound::<bool>(document, "Privileged"@);
        lemma_field_sound::<bool>(document, "ReadonlyRootfs"@);
        lemma_field_sound::<bool>(document, "PublishAllPorts"@);
        lemma_field_sound::<Dictionary<String>>(document, "RestartPolicy"@);
        lemma_field_sound::<Dictionary<String>>(document, "LogConfig"@);
        lemma_field_sound::<Dictionary<String>>(document, "Sysctls"@);
        lemma_field_sound::<Vec<Dictionary<String>>>(document, "Ulimits"@);
        lemma_field_sound::<String>(document, "VolumeDriver"@);
        lemma_field_sound::<i64>(document, "ShmSize"@);
    }

    proof fn lemma_blank_sound() {
        <Dictionary<String>>::lemma_blank_sound();
        <Dictionary<Vec<Dictionary<String>>>>::lemma_blank_sound();
        <String>::lemma_blank_sound();
        <Vec<DeviceRequest>>::lemma_blank_sound();
        <Vec<Dictionary<Json>>>::lemma_blank_sound();
        <Vec<Dictionary<String>>>::lemma_blank_sound();
        <bool>::lemma_blank_sound();
        <i16>::lemma_blank_sound();
        <i64>::lemma_blank_sound();
        <u64>::lemma_blank_sound();
    }
}

impl Default for HostConfig {
    fn default() -> (r: Self)
        ensures
            r@ == blank_of::<HostConfig>(),
    {
        <HostConfig>::absent()
    }
}

/// A request for devices, handed to a device driver.
#[derive(Debug, PartialEq)]
pub struct DeviceRequest {
    pub driver: String,
    pub count: u64,
    pub device_ids: Vec<String>,
    pub capabilities: Vec<Vec<String>>,
    pub options: Dictionary<String>,
}

/// The mathematical value of a [`DeviceRequest`].
pub ghost struct DeviceRequestView {
    pub driver: Seq<char>,
    pub count: u64,
    pub device_ids: Seq<Seq<char>>,
    pub capabilities: Seq<Seq<Seq<char>>>,
    pub options: Seq<(Seq<char>, Seq<char>)>,
}

impl DeepView for DeviceRequest {
    type V = DeviceRequestView;

    open spec fn deep_view(&self) -> DeviceRequestView {
        DeviceRequestView {
            driver: self.driver.deep_view(),
            count: self.count.deep_view(),
            device_ids: self.device_ids.deep_view(),
            capabilities: self.capabilities.deep_view(),
            options: self.options.deep_view(),
        }
    }
}

impl View for DeviceRequest {
    type V = DeviceRequestView;

    open spec fn view(&self) -> DeviceRequestView {
        self.deep_view()
    }
}

impl FromJson for DeviceRequest {
    open spec fn decoded(document: JsonValue) -> Option<DeviceRequestView> {
        if document is Object
            && field_of::<String>(document, "Driver"@) is Some
            && field_of::<u64>(document, "Count"@) is Some
            && field_of::<Vec<String>>(document, "DeviceIDs"@) is Some
            && field_of::<Vec<Vec<String>>>(document, "Capabilities"@) is Some
            && field_of::<Dictionary<String>>(document, "Options"@) is Some {
            Some(
                DeviceRequestView {
                    driver: field_of::<String>(document, "Driver"@)->0,
                    count: field_of::<u64>(document, "Count"@)->0,
                    device_ids: field_of::<Vec<String>>(document, "DeviceIDs"@)->0,
                    capabilities: field_of::<Vec<Vec<String>>>(document, "Capabilities"@)->0,
                    options: field_of::<Dictionary<String>>(document, "Options"@)->0,
                },
            )
        } else {
            None
        }
    }

    open spec fn blank() -> DeviceRequestView {
        DeviceRequestView {
            driver: blank_of::<String>(),
            count: blank_of::<u64>(),
            device_ids: blank_of::<Vec<String>>(),
            capabilities: blank_of::<Vec<Vec<String>>>(),
            options: blank_of::<Dictionary<String>>(),
        }
    }

    fn from_json(document: &Json) -> (r: Option<DeviceRequest>) {
        match document {
            Json::Object(_) => {},
            _ => {
                return None;
            },
        }
        let driver = field::<String>(document, "Driver")?;
        let count = field::<u64>(document, "Count")?;
        let device_ids = field::<Vec<String>>(document, "DeviceIDs")?;
        let capabilities = field::<Vec<Vec<String>>>(document, "Capabilities")?;
        let options = field::<Dictionary<String>>(document, "Options")?;
        Some(DeviceRequest { driver, count, device_ids, capabilities, options })
    }

    fn absent() -> (r: DeviceRequest) {
        DeviceRequest {
            driver: <String>::absent(),
            count: <u64>::absent(),
            device_ids: <Vec<String>>::absent(),
            capabilities: <Vec<Vec<String>>>::absent(),
            options: <Dictionary<String>>::absent(),
        }
    }

    open spec fn sound(value: DeviceRequestView) -> bool {
        sound_of::<String>(value.driver)
            && sound_of::<u64>(value.count)
            && sound_of::<Vec<String>>(value.device_ids)
            && sound_of::<Vec<Vec<String>>>(value.capabilities)
            && sound_of::<Dictionary<String>>(value.options)
    }

    proof fn lemma_decoded_sound(document: JsonValue) {
        lemma_field_sound::<String>(document, "Driver"@);
        lemma_field_sound::<u64>(document, "Count"@);
        lemma_field_sound::<Vec<String>>(document, "DeviceIDs"@);
        lemma_field_sound::<Vec<Vec<String>>>(document, "Capabilities"@);
        lemma_field_sound::<Dictionary<String>>(document, "Options"@);
    }

    proof fn lemma_blank_sound() {
        <Dictionary<String>>::lemma_blank_sound();
        <String>::lemma_blank_sound();
        <Vec<String>>::lemma_blank_sound();
        <Vec<Vec<String>>>::lemma_blank_sound();
        <u64>::lemma_blank_sound();
    }
}

impl ToJson for DeviceRequest {
    open spec fn encoded(value: DeviceRequestView) -> JsonValue {
        JsonValue::Object(
            Seq::empty()
                + member_for::<String>("Driver"@, value.driver)
                + member_for::<u64>("Count"@, value.count)
                + member_for::<Vec<String>>("DeviceIDs"@, value.device_ids)
                + member_for::<Vec<Vec<String>>>("Capabilities"@, value.capabilities)
                + member_for::<Dictionary<String>>("Options"@, value.options),
        )
    }

    fn to_json(&self) -> (document: Json) {
        let mut fields: Vec<(String, Json)> = Vec::new();
        assert(entries_of(fields@) =~= Seq::empty());
        put::<String>(&mut fields, "Driver", &self.driver);
        put::<u64>(&mut fields, "Count", &self.count);
        put::<Vec<String>>(&mut fields, "DeviceIDs", &self.device_ids);
        put::<Vec<Vec<String>>>(&mut fields, "Capabilities", &self.capabilities);
        put::<Dictionary<String>>(&mut fields, "Options", &self.options);
        Json::object(fields)
    }
}

} // verus!

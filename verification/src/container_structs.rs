//! The container summary that a listing returns, and its parts.

use crate::container_network::{HostConfig, HostConfigView, NetworkSettings, NetworkSettingsView};
use crate::decode::{blank_of, field, field_of, FromJson, lemma_field_sound, sound_of};
use crate::duplicate::Duplicate;
use crate::encode::{member_for, put, ToJson};
use crate::json::{entries_of, Dictionary, Json, JsonValue};
use vstd::prelude::*;

verus! {

/// A published port.
#[derive(Debug, PartialEq)]
pub struct Port {
    pub ip: String,
    pub private_port: u16,
    pub public_port: u16,
    pub _type: String,
}

/// The mathematical value of a [`Port`].
pub ghost struct PortView {
    pub ip: Seq<char>,
    pub private_port: u16,
    pub public_port: u16,
    pub _type: Seq<char>,
}

impl DeepView for Port {
    type V = PortView;

    open spec fn deep_view(&self) -> PortView {
        PortView {
            ip: self.ip.deep_view(),
            private_port: self.private_port.deep_view(),
            public_port: self.public_port.deep_view(),
            _type: self._type.deep_view(),
        }
    }
}

impl View for Port {
    type V = PortView;

    open spec fn view(&self) -> PortView {
        self.deep_view()
    }
}

impl FromJson for Port {
    open spec fn decoded(document: JsonValue) -> Option<PortView> {
        if document is Object
            && field_of::<String>(document, "IP"@) is Some
            && field_of::<u16>(document, "PrivatePort"@) is Some
            && field_of::<u16>(document, "PublicPort"@) is Some
            && field_of::<String>(document, "Type"@) is Some {
            Some(
                PortView {
                    ip: field_of::<String>(document, "IP"@)->0,
                    private_port: field_of::<u16>(document, "PrivatePort"@)->0,
                    public_port: field_of::<u16>(document, "PublicPort"@)->0,
                    _type: field_of::<String>(document, "Type"@)->0,
                },
            )
        } else {
            None
        }
    }

    open spec fn blank() -> PortView {
        PortView {
            ip: blank_of::<String>(),
            private_port: blank_of::<u16>(),
            public_port: blank_of::<u16>(),
            _type: blank_of::<String>(),
        }
    }

    fn from_json(document: &Json) -> (r: Option<Port>) {
        match document {
            Json::Object(_) => {},
            _ => {
                return None;
            },
        }
        let ip = field::<String>(document, "IP")?;
        let private_port = field::<u16>(document, "PrivatePort")?;
        let public_port = field::<u16>(document, "PublicPort")?;
        let _type = field::<String>(document, "Type")?;
        Some(Port { ip, private_port, public_port, _type })
    }

    fn absent() -> (r: Port) {
        Port {
            ip: <String>::absent(),
            private_port: <u16>::absent(),
            public_port: <u16>::absent(),
            _type: <String>::absent(),
        }
    }

    open spec fn sound(value: PortView) -> bool {
        sound_of::<String>(value.ip)
            && sound_of::<u16>(value.private_port)
            && sound_of::<u16>(value.public_port)
            && sound_of::<String>(value._type)
    }

    proof fn lemma_decoded_sound(document: JsonValue) {
        lemma_field_sound::<String>(document, "IP"@);
        lemma_field_sound::<u16>(document, "PrivatePort"@);
        lemma_field_sound::<u16>(document, "PublicPort"@);
        lemma_field_sound::<String>(document, "Type"@);
    }

    proof fn lemma_blank_sound() {
        <String>::lemma_blank_sound();
        <u16>::lemma_blank_sound();
    }
}

impl Duplicate for Port {
    fn duplicate(&self) -> (copy: Port) {
        Port {
            ip: self.ip.duplicate(),
            private_port: self.private_port.duplicate(),
            public_port: self.public_port.duplicate(),
            _type: self._type.duplicate(),
        }
    }
}

impl Clone for Port {
    fn clone(&self) -> (copy: Self)
        ensures
            copy@ == self@,
    {
        self.duplicate()
    }
}

impl Default for Port {
    fn default() -> (r: Self)
        ensures
            r@ == blank_of::<Port>(),
    {
        <Port>::absent()
    }
}

/// A mounted volume or path.
#[derive(Debug, PartialEq)]
pub struct Mount {
    pub _type: String,
    pub name: String,
    pub source: String,
    pub destination: String,
    pub driver: String,
    pub mode: String,
    pub rw: bool,
    pub propagation: String,
}

/// The mathematical value of a [`Mount`].
pub ghost struct MountView {
    pub _type: Seq<char>,
    pub name: Seq<char>,
    pub source: Seq<char>,
    pub destination: Seq<char>,
    pub driver: Seq<char>,
    pub mode: Seq<char>,
    pub rw: bool,
    pub propagation: Seq<char>,
}

impl DeepView for Mount {
    type V = MountView;

    open spec fn deep_view(&self) -> MountView {
        MountView {
            _type: self._type.deep_view(),
            name: self.name.deep_view(),
            source: self.source.deep_view(),
            destination: self.destination.deep_view(),
            driver: self.driver.deep_view(),
            mode: self.mode.deep_view(),
            rw: self.rw.deep_view(),
            propagation: self.propagation.deep_view(),
        }
    }
}

impl View for Mount {
    type V = MountView;

    open spec fn view(&self) -> MountView {
        self.deep_view()
    }
}

impl FromJson for Mount {
    open spec fn decoded(document: JsonValue) -> Option<MountView> {
        if document is Object
            && field_of::<String>(document, "Type"@) is Some
            && field_of::<String>(document, "Name"@) is Some
            && field_of::<String>(document, "Source"@) is Some
            && field_of::<String>(document, "Destination"@) is Some
            && field_of::<String>(document, "Driver"@) is Some
            && field_of::<String>(document, "Mode"@) is Some
            && field_of::<bool>(document, "RW"@) is Some
            && field_of::<String>(document, "Propagation"@) is Some {
            Some(
                MountView {
                    _type: field_of::<String>(document, "Type"@)->0,
                    name: field_of::<String>(document, "Name"@)->0,
                    source: field_of::<String>(document, "Source"@)->0,
                    destination: field_of::<String>(document, "Destination"@)->0,
                    driver: field_of::<String>(document, "Driver"@)->0,
                    mode: field_of::<String>(document, "Mode"@)->0,
                    rw: field_of::<bool>(document, "RW"@)->0,
                    propagation: field_of::<String>(document, "Propagation"@)->0,
                },
            )
        } else {
            None
        }
    }

    open spec fn blank() -> MountView {
        MountView {
            _type: blank_of::<String>(),
            name: blank_of::<String>(),
            source: blank_of::<String>(),
            destination: blank_of::<String>(),
            driver: blank_of::<String>(),
            mode: blank_of::<String>(),
            rw: blank_of::<bool>(),
            propagation: blank_of::<String>(),
        }
    }

    fn from_json(document: &Json) -> (r: Option<Mount>) {
        match document {
            Json::Object(_) => {},
            _ => {
                return None;
            },
        }
        let _type = field::<String>(document, "Type")?;
        let name = field::<String>(document, "Name")?;
        let source = field::<String>(document, "Source")?;
        let destination = field::<String>(document, "Destination")?;
        let driver = field::<String>(document, "Driver")?;
        let mode = field::<String>(document, "Mode")?;
        let rw = field::<bool>(document, "RW")?;
        let propagation = field::<String>(document, "Propagation")?;
        Some(Mount { _type, name, source, destination, driver, mode, rw, propagation })
    }

    fn absent() -> (r: Mount) {
        Mount {
            _type: <String>::absent(),
            name: <String>::absent(),
            source: <String>::absent(),
            destination: <String>::absent(),
            driver: <String>::absent(),
            mode: <String>::absent(),
            rw: <bool>::absent(),
            propagation: <String>::absent(),
        }
    }

    open spec fn sound(value: MountView) -> bool {
        sound_of::<String>(value._type)
            && sound_of::<String>(value.name)
            && sound_of::<String>(value.source)
            && sound_of::<String>(value.destination)
            && sound_of::<String>(value.driver)
            && sound_of::<String>(value.mode)
            && sound_of::<bool>(value.rw)
            && sound_of::<String>(value.propagation)
    }

    proof fn lemma_decoded_sound(document: JsonValue) {
        lemma_field_sound::<String>(document, "Type"@);
        lemma_field_sound::<String>(document, "Name"@);
        lemma_field_sound::<String>(document, "Source"@);
        lemma_field_sound::<String>(document, "Destination"@);
        lemma_field_sound::<String>(document, "Driver"@);
        lemma_field_sound::<String>(document, "Mode"@);
        lemma_field_sound::<bool>(document, "RW"@);
        lemma_field_sound::<String>(document, "Propagation"@);
    }

    proof fn lemma_blank_sound() {
        <String>::lemma_blank_sound();
        <bool>::lemma_blank_sound();
    }
}

impl Duplicate for Mount {
    fn duplicate(&self) -> (copy: Mount) {
        Mount {
            _type: self._type.duplicate(),
            name: self.name.duplicate(),
            source: self.source.duplicate(),
            destination: self.destination.duplicate(),
            driver: self.driver.duplicate(),
            mode: self.mode.duplicate(),
            rw: self.rw.duplicate(),
            propagation: self.propagation.duplicate(),
        }
    }
}

impl Clone for Mount {
    fn clone(&self) -> (copy: Self)
        ensures
            copy@ == self@,
    {
        self.duplicate()
    }
}

impl Default for Mount {
    fn default() -> (r: Self)
        ensures
            r@ == blank_of::<Mount>(),
    {
        <Mount>::absent()
    }
}

/// One container of a listing.
#[derive(Debug, PartialEq)]
pub struct Container {
    pub id: String,
    pub names: Vec<String>,
    pub image: String,
    pub image_id: String,
    pub command: String,
    pub created: u64,
    pub state: String,
    pub status: String,
    pub ports: Vec<Port>,
    pub labels: Dictionary<String>,
    pub size_rw: Option<u64>,
    pub size_root_fs: Option<u64>,
    pub host_config: HostConfig,
    pub network_settings: NetworkSettings,
    pub mounts: Vec<Mount>,
}

/// The mathematical value of a [`Container`].
pub ghost struct ContainerView {
    pub id: Seq<char>,
    pub names: Seq<Seq<char>>,
    pub image: Seq<char>,
    pub image_id: Seq<char>,
    pub command: Seq<char>,
    pub created: u64,
    pub state: Seq<char>,
    pub status: Seq<char>,
    pub ports: Seq<PortView>,
    pub labels: Seq<(Seq<char>, Seq<char>)>,
    pub size_rw: Option<u64>,
    pub size_root_fs: Option<u64>,
    pub host_config: HostConfigView,
    pub network_settings: NetworkSettingsView,
    pub mounts: Seq<MountView>,
}

impl DeepView for Container {
    type V = ContainerView;

    open spec fn deep_view(&self) -> ContainerView {
        ContainerView {
            id: self.id.deep_view(),
            names: self.names.deep_view(),
            image: self.image.deep_view(),
            image_id: self.image_id.deep_view(),
            command: self.command.deep_view(),
            created: self.created.deep_view(),
            state: self.state.deep_view(),
            status: self.status.deep_view(),
            ports: self.ports.deep_view(),
            labels: self.labels.deep_view(),
            size_rw: self.size_rw.deep_view(),
            size_root_fs: self.size_root_fs.deep_view(),
            host_config: self.host_config.deep_view(),
            network_settings: self.network_settings.deep_view(),
            mounts: self.mounts.deep_view(),
        }
    }
}

impl View for Container {
    type V = ContainerView;

    open spec fn view(&self) -> ContainerView {
        self.deep_view()
    }
}

impl FromJson for Container {
    open spec fn decoded(document: JsonValue) -> Option<ContainerView> {
        if document is Object
            && field_of::<String>(document, "Id"@) is Some
            && field_of::<Vec<String>>(document, "Names"@) is Some
            && field_of::<String>(document, "Image"@) is Some
            && field_of::<String>(document, "ImageID"@) is Some
            && field_of::<String>(document, "Command"@) is Some
            && field_of::<u64>(document, "Created"@) is Some
            && field_of::<String>(document, "State"@) is Some
            && field_of::<String>(document, "Status"@) is Some
            && field_of::<Vec<Port>>(document, "Ports"@) is Some
            && field_of::<Dictionary<String>>(document, "Labels"@) is Some
            && field_of::<Option<u64>>(document, "SizeRw"@) is Some
            && field_of::<Option<u64>>(document, "SizeRootFs"@) is Some
            && field_of::<HostConfig>(document, "HostConfig"@) is Some
            && field_of::<NetworkSettings>(document, "NetworkSettings"@) is Some
            && field_of::<Vec<Mount>>(document, "Mounts"@) is Some {
            Some(
                ContainerView {
                    id: field_of::<String>(document, "Id"@)->0,
                    names: field_of::<Vec<String>>(document, "Names"@)->0,
                    image: field_of::<String>(document, "Image"@)->0,
                    image_id: field_of::<String>(document, "ImageID"@)->0,
                    command: field_of::<String>(document, "Command"@)->0,
                    created: field_of::<u64>(document, "Created"@)->0,
                    state: field_of::<String>(document, "State"@)->0,
                    status: field_of::<String>(document, "Status"@)->0,
                    ports: field_of::<Vec<Port>>(document, "Ports"@)->0,
                    labels: field_of::<Dictionary<String>>(document, "Labels"@)->0,
                    size_rw: field_of::<Option<u64>>(document, "SizeRw"@)->0,
                    size_root_fs: field_of::<Option<u64>>(document, "SizeRootFs"@)->0,
                    host_config: field_of::<HostConfig>(document, "HostConfig"@)->0,
                    network_settings: field_of::<NetworkSettings>(
                        document,
                        "NetworkSettings"@,
                    )->0,
                    mounts: field_of::<Vec<Mount>>(document, "Mounts"@)->0,
                },
            )
        } else {
            None
        }
    }

    open spec fn blank() -> ContainerView {
        ContainerView {
            id: blank_of::<String>(),
            names: blank_of::<Vec<String>>(),
            image: blank_of::<String>(),
            image_id: blank_of::<String>(),
            command: blank_of::<String>(),
            created: blank_of::<u64>(),
            state: blank_of::<String>(),
            status: blank_of::<String>(),
            ports: blank_of::<Vec<Port>>(),
            labels: blank_of::<Dictionary<String>>(),
            size_rw: blank_of::<Option<u64>>(),
            size_root_fs: blank_of::<Option<u64>>(),
            host_config: blank_of::<HostConfig>(),
            network_settings: blank_of::<NetworkSettings>(),
            mounts: blank_of::<Vec<Mount>>(),
        }
    }

    fn from_json(document: &Json) -> (r: Option<Container>) {
        match document {
            Json::Object(_) => {},
            _ => {
                return None;
            },
        }
        let id = field::<String>(document, "Id")?;
        let names = field::<Vec<String>>(document, "Names")?;
        let image = field::<String>(document, "Image")?;
        let image_id = field::<String>(document, "ImageID")?;
        let command = field::<String>(document, "Command")?;
        let created = field::<u64>(document, "Created")?;
        let state = field::<String>(document, "State")?;
        let status = field::<String>(document, "Status")?;
        let ports = field::<Vec<Port>>(document, "Ports")?;
        let labels = field::<Dictionary<String>>(document, "Labels")?;
        let size_rw = field::<Option<u64>>(document, "SizeRw")?;
        let size_root_fs = field::<Option<u64>>(document, "SizeRootFs")?;
        let host_config = field::<HostConfig>(document, "HostConfig")?;
        let network_settings = field::<NetworkSettings>(document, "NetworkSettings")?;
        let mounts = field::<Vec<Mount>>(document, "Mounts")?;
        Some(
            Container {
                id,
                names,
                image,
                image_id,
                command,
                created,
                state,
                status,
                ports,
                labels,
                size_rw,
                size_root_fs,
                host_config,
                network_settings,
                mounts,
            },
        )
    }

    fn absent() -> (r: Container) {
        Container {
            id: <String>::absent(),
            names: <Vec<String>>::absent(),
            image: <String>::absent(),
            image_id: <String>::absent(),
            command: <String>::absent(),
            created: <u64>::absent(),
            state: <String>::absent(),
            status: <String>::absent(),
            ports: <Vec<Port>>::absent(),
            labels: <Dictionary<String>>::absent(),
            size_rw: <Option<u64>>::absent(),
            size_root_fs: <Option<u64>>::absent(),
            host_config: <HostConfig>::absent(),
            network_settings: <NetworkSettings>::absent(),
            mounts: <Vec<Mount>>::absent(),
        }
    }

    open spec fn sound(value: ContainerView) -> bool {
        sound_of::<String>(value.id)
            && sound_of::<Vec<String>>(value.names)
            && sound_of::<String>(value.image)
            && sound_of::<String>(value.image_id)
            && sound_of::<String>(value.command)
            && sound_of::<u64>(value.created)
            && sound_of::<String>(value.state)
            && sound_of::<String>(value.status)
            && sound_of::<Vec<Port>>(value.ports)
            && sound_of::<Dictionary<String>>(value.labels)
            && sound_of::<Option<u64>>(value.size_rw)
            && sound_of::<Option<u64>>(value.size_root_fs)
            && sound_of::<HostConfig>(value.host_config)
            && sound_of::<NetworkSettings>(value.network_settings)
            && sound_of::<Vec<Mount>>(value.mounts)
    }

    proof fn lemma_decoded_sound(document: JsonValue) {
        lemma_field_sound::<String>(document, "Id"@);
        lemma_field_sound::<Vec<String>>(document, "Names"@);
        lemma_field_sound::<String>(document, "Image"@);
        lemma_field_sound::<String>(document, "ImageID"@);
        lemma_field_sound::<String>(document, "Command"@);
        lemma_field_sound::<u64>(document, "Created"@);
        lemma_field_sound::<String>(document, "State"@);
        lemma_field_sound::<String>(document, "Status"@);
        lemma_field_sound::<Vec<Port>>(document, "Ports"@);
        lemma_field_sound::<Dictionary<String>>(document, "Labels"@);
        lemma_field_sound::<Option<u64>>(document, "SizeRw"@);
        lemma_field_sound::<Option<u64>>(document, "SizeRootFs"@);
        lemma_field_sound::<HostConfig>(document, "HostConfig"@);
        lemma_field_sound::<NetworkSettings>(document, "NetworkSettings"@);
        lemma_field_sound::<Vec<Mount>>(document, "Mounts"@);
    }

    proof fn lemma_blank_sound() {
        <Dictionary<String>>::lemma_blank_sound();
        <HostConfig>::lemma_blank_sound();
        <NetworkSettings>::lemma_blank_sound();
        <Option<u64>>::lemma_blank_sound();
        <String>::lemma_blank_sound();
        <Vec<Mount>>::lemma_blank_sound();
        <Vec<Port>>::lemma_blank_sound();
        <Vec<String>>::lemma_blank_sound();
        <u64>::lemma_blank_sound();
    }
}

impl Duplicate for Container {
    fn duplicate(&self) -> (copy: Container) {
        Container {
            id: self.id.duplicate(),
            names: self.names.duplicate(),
            image: self.image.duplicate(),
            image_id: self.image_id.duplicate(),
            command: self.command.duplicate(),
            created: self.created.duplicate(),
            state: self.state.duplicate(),
            status: self.status.duplicate(),
            ports: self.ports.duplicate(),
            labels: self.labels.duplicate(),
            size_rw: self.size_rw.duplicate(),
            size_root_fs: self.size_root_fs.duplicate(),
            host_config: self.host_config.duplicate(),
            network_settings: self.network_settings.duplicate(),
            mounts: self.mounts.duplicate(),
        }
    }
}

impl Clone for Container {
    fn clone(&self) -> (copy: Self)
        ensures
            copy@ == self@,
    {
        self.duplicate()
    }
}

impl Default for Container {
    fn default() -> (r: Self)
        ensures
            r@ == blank_of::<Container>(),
    {
        <Container>::absent()
    }
}

/// A host device mapped into a container.
#[derive(Debug, PartialEq)]
pub struct GenericDevice {
    pub host_path: String,
    pub container_path: String,
    pub options: Dictionary<String>,
}

/// The mathematical value of a [`GenericDevice`].
pub ghost struct GenericDeviceView {
    pub host_path: Seq<char>,
    pub container_path: Seq<char>,
    pub options: Seq<(Seq<char>, Seq<char>)>,
}

impl DeepView for GenericDevice {
    type V = GenericDeviceView;

    open spec fn deep_view(&self) -> GenericDeviceView {
        GenericDeviceView {
            host_path: self.host_path.deep_view(),
            container_path: self.container_path.deep_view(),
            options: self.options.deep_view(),
        }
    }
}

impl View for GenericDevice {
    type V = GenericDeviceView;

    open spec fn view(&self) -> GenericDeviceView {
        self.deep_view()
    }
}

impl FromJson for GenericDevice {
    open spec fn decoded(document: JsonValue) -> Option<GenericDeviceView> {
        if document is Object
            && field_of::<String>(document, "PathOnHost"@) is Some
            && field_of::<String>(document, "PathInContainer"@) is Some
            && field_of::<Dictionary<String>>(document, "CgroupPermissions"@) is Some {
            Some(
                GenericDeviceView {
                    host_path: field_of::<String>(document, "PathOnHost"@)->0,
                    container_path: field_of::<String>(document, "PathInContainer"@)->0,
                    options: field_of::<Dictionary<String>>(document, "CgroupPermissions"@)->0,
                },
            )
        } else {
            None
        }
    }

    open spec fn blank() -> GenericDeviceView {
        GenericDeviceView {
            host_path: blank_of::<String>(),
            container_path: blank_of::<String>(),
            options: blank_of::<Dictionary<String>>(),
        }
    }

    fn from_json(document: &Json) -> (r: Option<GenericDevice>) {
        match document {
            Json::Object(_) => {},
            _ => {
                return None;
            },
        }
        let host_path = field::<String>(document, "PathOnHost")?;
        let container_path = field::<String>(document, "PathInContainer")?;
        let options = field::<Dictionary<String>>(document, "CgroupPermissions")?;
        Some(GenericDevice { host_path, container_path, options })
    }

    fn absent() -> (r: GenericDevice) {
        GenericDevice {
            host_path: <String>::absent(),
            container_path: <String>::absent(),
            options: <Dictionary<String>>::absent(),
        }
    }

    open spec fn sound(value: GenericDeviceView) -> bool {
        sound_of::<String>(value.host_path)
            && sound_of::<String>(value.container_path)
            && sound_of::<Dictionary<String>>(value.options)
    }

    proof fn lemma_decoded_sound(document: JsonValue) {
        lemma_field_sound::<String>(document, "PathOnHost"@);
        lemma_field_sound::<String>(document, "PathInContainer"@);
        lemma_field_sound::<Dictionary<String>>(document, "CgroupPermissions"@);
    }

    proof fn lemma_blank_sound() {
        <Dictionary<String>>::lemma_blank_sound();
        <String>::lemma_blank_sound();
    }
}

impl Duplicate for GenericDevice {
    fn duplicate(&self) -> (copy: GenericDevice) {
        GenericDevice {
            host_path: self.host_path.duplicate(),
            container_path: self.container_path.duplicate(),
            options: self.options.duplicate(),
        }
    }
}

impl Clone for GenericDevice {
    fn clone(&self) -> (copy: Self)
        ensures
            copy@ == self@,
    {
        self.duplicate()
    }
}

impl Default for GenericDevice {
    fn default() -> (r: Self)
        ensures
            r@ == blank_of::<GenericDevice>(),
    {
        <GenericDevice>::absent()
    }
}

impl ToJson for GenericDevice {
    open spec fn encoded(value: GenericDeviceView) -> JsonValue {
        JsonValue::Object(
            Seq::empty()
                + member_for::<String>("PathOnHost"@, value.host_path)
                + member_for::<String>("PathInContainer"@, value.container_path)
                + member_for::<Dictionary<String>>("CgroupPermissions"@, value.options),
        )
    }

    fn to_json(&self) -> (document: Json) {
        let mut fields: Vec<(String, Json)> = Vec::new();
        assert(entries_of(fields@) =~= Seq::empty());
        put::<String>(&mut fields, "PathOnHost", &self.host_path);
        put::<String>(&mut fields, "PathInContainer", &self.container_path);
        put::<Dictionary<String>>(&mut fields, "CgroupPermissions", &self.options);
        Json::object(fields)
    }
}

/// An answer that carries only warnings.
#[derive(Debug, PartialEq)]
pub struct WarningsResponse {
    pub warnings: Vec<String>,
}

/// The mathematical value of a [`WarningsResponse`].
pub ghost struct WarningsResponseView {
    pub warnings: Seq<Seq<char>>,
}

impl DeepView for WarningsResponse {
    type V = WarningsResponseView;

    open spec fn deep_view(&self) -> WarningsResponseView {
        WarningsResponseView {
            warnings: self.warnings.deep_view(),
        }
    }
}

impl View for WarningsResponse {
    type V = WarningsResponseView;

    open spec fn view(&self) -> WarningsResponseView {
        self.deep_view()
    }
}

impl FromJson for WarningsResponse {
    open spec fn decoded(document: JsonValue) -> Option<WarningsResponseView> {
        if document is Object
            && field_of::<Vec<String>>(document, "Warnings"@) is Some {
            Some(
                WarningsResponseView {
                    warnings: field_of::<Vec<String>>(document, "Warnings"@)->0,
                },
            )
        } else {
            None
        }
    }

    open spec fn blank() -> WarningsResponseView {
        WarningsResponseView {
            warnings: blank_of::<Vec<String>>(),
        }
    }

    fn from_json(document: &Json) -> (r: Option<WarningsResponse>) {
        match document {
            Json::Object(_) => {},
            _ => {
                return None;
            },
        }
        let warnings = field::<Vec<String>>(document, "Warnings")?;
        Some(WarningsResponse { warnings })
    }

    fn absent() -> (r: WarningsResponse) {
        WarningsResponse {
            warnings: <Vec<String>>::absent(),
        }
    }

    open spec fn sound(value: WarningsResponseView) -> bool {
        sound_of::<Vec<String>>(value.warnings)
    }

    proof fn lemma_decoded_sound(document: JsonValue) {
        lemma_field_sound::<Vec<String>>(document, "Warnings"@);
    }

    proof fn lemma_blank_sound() {
        <Vec<String>>::lemma_blank_sound();
    }
}

impl Duplicate for WarningsResponse {
    fn duplicate(&self) -> (copy: WarningsResponse) {
        WarningsResponse {
            warnings: self.warnings.duplicate(),
        }
    }
}

impl Clone for WarningsResponse {
    fn clone(&self) -> (copy: Self)
        ensures
            copy@ == self@,
    {
        self.duplicate()
    }
}

impl Default for WarningsResponse {
    fn default() -> (r: Self)
        ensures
            r@ == blank_of::<WarningsResponse>(),
    {
        <WarningsResponse>::absent()
    }
}

/// An object without members.
#[derive(Debug, PartialEq)]
pub struct EmptyMap {}

/// The mathematical value of a [`EmptyMap`].
pub ghost struct EmptyMapView {}

impl DeepView for EmptyMap {
    type V = EmptyMapView;

    open spec fn deep_view(&self) -> EmptyMapView {
        EmptyMapView {  }
    }
}

impl View for EmptyMap {
    type V = EmptyMapView;

    open spec fn view(&self) -> EmptyMapView {
        self.deep_view()
    }
}

impl FromJson for EmptyMap {
    open spec fn decoded(document: JsonValue) -> Option<EmptyMapView> {
        if document is Object {
            Some(EmptyMapView {  })
        } else {
            None
        }
    }

    open spec fn blank() -> EmptyMapView {
        EmptyMapView {  }
    }

    fn from_json(document: &Json) -> (r: Option<EmptyMap>) {
        match document {
            Json::Object(_) => {},
            _ => {
                return None;
            },
        }
        Some(EmptyMap {  })
    }

    fn absent() -> (r: EmptyMap) {
        EmptyMap {  }
    }

    open spec fn sound(value: EmptyMapView) -> bool {
        true
    }

    proof fn lemma_decoded_sound(document: JsonValue) {
    }

    proof fn lemma_blank_sound() {
    }
}

} // verus!

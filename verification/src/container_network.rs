//! Network settings of a container, as the engine reports and accepts them.

use crate::decode::{
    blank_of, field, field_of, FromJson, lemma_field_sound, required, required_of, sound_of,
};
use crate::duplicate::Duplicate;
use crate::encode::{member_for, put, ToJson};
use crate::json::{entries_of, Dictionary, Json, JsonValue};
use vstd::prelude::*;

verus! {

/// The host-side configuration that a container summary carries.
#[derive(Debug, PartialEq)]
pub struct HostConfig {
    pub network_mode: String,
}

/// The mathematical value of a [`HostConfig`].
pub ghost struct HostConfigView {
    pub network_mode: Seq<char>,
}

impl DeepView for HostConfig {
    type V = HostConfigView;

    open spec fn deep_view(&self) -> HostConfigView {
        HostConfigView {
            network_mode: self.network_mode.deep_view(),
        }
    }
}

impl View for HostConfig {
    type V = HostConfigView;

    open spec fn view(&self) -> HostConfigView {
        self.deep_view()
    }
}

impl FromJson for HostConfig {
    open spec fn decoded(document: JsonValue) -> Option<HostConfigView> {
        if document is Object
            && field_of::<String>(document, "NetworkMode"@) is Some {
            Some(
                HostConfigView {
                    network_mode: field_of::<String>(document, "NetworkMode"@)->0,
                },
            )
        } else {
            None
        }
    }

    open spec fn blank() -> HostConfigView {
        HostConfigView {
            network_mode: blank_of::<String>(),
        }
    }

    fn from_json(document: &Json) -> (r: Option<HostConfig>) {
        match document {
            Json::Object(_) => {},
            _ => {
                return None;
            },
        }
        let network_mode = field::<String>(document, "NetworkMode")?;
        Some(HostConfig { network_mode })
    }

    fn absent() -> (r: HostConfig) {
        HostConfig {
            network_mode: <String>::absent(),
        }
    }

    open spec fn sound(value: HostConfigView) -> bool {
        sound_of::<String>(value.network_mode)
    }

    proof fn lemma_decoded_sound(document: JsonValue) {
        lemma_field_sound::<String>(document, "NetworkMode"@);
    }

    proof fn lemma_blank_sound() {
        <String>::lemma_blank_sound();
    }
}

impl Duplicate for HostConfig {
    fn duplicate(&self) -> (copy: HostConfig) {
        HostConfig {
            network_mode: self.network_mode.duplicate(),
        }
    }
}

impl Clone for HostConfig {
    fn clone(&self) -> (copy: Self)
        ensures
            copy@ == self@,
    {
        self.duplicate()
    }
}

impl Default for HostConfig {
    fn default() -> (r: Self)
        ensures
            r@ == blank_of::<HostConfig>(),
    {
        <HostConfig>::absent()
    }
}

impl ToJson for HostConfig {
    open spec fn encoded(value: HostConfigView) -> JsonValue {
        JsonValue::Object(
            Seq::empty()
                + member_for::<String>("NetworkMode"@, value.network_mode),
        )
    }

    fn to_json(&self) -> (document: Json) {
        let mut fields: Vec<(String, Json)> = Vec::new();
        assert(entries_of(fields@) =~= Seq::empty());
        put::<String>(&mut fields, "NetworkMode", &self.network_mode);
        Json::object(fields)
    }
}

/// One network a container is attached to.
#[derive(Debug, PartialEq)]
pub struct NetworkSettingsNet {
    pub network_id: String,
    pub endpoint_id: String,
    pub gateway: String,
    pub ip_address: String,
    pub ip_prefix_len: u8,
    pub ipv6_gateway: String,
    pub global_ipv6_address: String,
    pub global_ipv6_prefix_len: u8,
    pub mac_address: String,
}

/// The mathematical value of a [`NetworkSettingsNet`].
pub ghost struct NetworkSettingsNetView {
    pub network_id: Seq<char>,
    pub endpoint_id: Seq<char>,
    pub gateway: Seq<char>,
    pub ip_address: Seq<char>,
    pub ip_prefix_len: u8,
    pub ipv6_gateway: Seq<char>,
    pub global_ipv6_address: Seq<char>,
    pub global_ipv6_prefix_len: u8,
    pub mac_address: Seq<char>,
}

impl DeepView for NetworkSettingsNet {
    type V = NetworkSettingsNetView;

    open spec fn deep_view(&self) -> NetworkSettingsNetView {
        NetworkSettingsNetView {
            network_id: self.network_id.deep_view(),
            endpoint_id: self.endpoint_id.deep_view(),
            gateway: self.gateway.deep_view(),
            ip_address: self.ip_address.deep_view(),
            ip_prefix_len: self.ip_prefix_len.deep_view(),
            ipv6_gateway: self.ipv6_gateway.deep_view(),
            global_ipv6_address: self.global_ipv6_address.deep_view(),
            global_ipv6_prefix_len: self.global_ipv6_prefix_len.deep_view(),
            mac_address: self.mac_address.deep_view(),
        }
    }
}

impl View for NetworkSettingsNet {
    type V = NetworkSettingsNetView;

    open spec fn view(&self) -> NetworkSettingsNetView {
        self.deep_view()
    }
}

impl FromJson for NetworkSettingsNet {
    open spec fn decoded(document: JsonValue) -> Option<NetworkSettingsNetView> {
        if document is Object
            && field_of::<String>(document, "NetworkID"@) is Some
            && field_of::<String>(document, "EndpointID"@) is Some
            && field_of::<String>(document, "Gateway"@) is Some
            && field_of::<String>(document, "IPAddress"@) is Some
            && field_of::<u8>(document, "IPPrefixLen"@) is Some
            && field_of::<String>(document, "IPv6Gateway"@) is Some
            && field_of::<String>(document, "GlobalIPv6Address"@) is Some
            && field_of::<u8>(document, "GlobalIPv6PrefixLen"@) is Some
            && field_of::<String>(document, "MacAddress"@) is Some {
            Some(
                NetworkSettingsNetView {
                    network_id: field_of::<String>(document, "NetworkID"@)->0,
                    endpoint_id: field_of::<String>(document, "EndpointID"@)->0,
                    gateway: field_of::<String>(document, "Gateway"@)->0,
                    ip_address: field_of::<String>(document, "IPAddress"@)->0,
                    ip_prefix_len: field_of::<u8>(document, "IPPrefixLen"@)->0,
                    ipv6_gateway: field_of::<String>(document, "IPv6Gateway"@)->0,
                    global_ipv6_address: field_of::<String>(document, "GlobalIPv6Address"@)->0,
                    global_ipv6_prefix_len: field_of::<u8>(document, "GlobalIPv6PrefixLen"@)->0,
                    mac_address: field_of::<String>(document, "MacAddress"@)->0,
                },
            )
        } else {
            None
        }
    }

    open spec fn blank() -> NetworkSettingsNetView {
        NetworkSettingsNetView {
            network_id: blank_of::<String>(),
            endpoint_id: blank_of::<String>(),
            gateway: blank_of::<String>(),
            ip_address: blank_of::<String>(),
            ip_prefix_len: blank_of::<u8>(),
            ipv6_gateway: blank_of::<String>(),
            global_ipv6_address: blank_of::<String>(),
            global_ipv6_prefix_len: blank_of::<u8>(),
            mac_address: blank_of::<String>(),
        }
    }

    fn from_json(document: &Json) -> (r: Option<NetworkSettingsNet>) {
        match document {
            Json::Object(_) => {},
            _ => {
                return None;
            },
        }
        let network_id = field::<String>(document, "NetworkID")?;
        let endpoint_id = field::<String>(document, "EndpointID")?;
        let gateway = field::<String>(document, "Gateway")?;
        let ip_address = field::<String>(document, "IPAddress")?;
        let ip_prefix_len = field::<u8>(document, "IPPrefixLen")?;
        let ipv6_gateway = field::<String>(document, "IPv6Gateway")?;
        let global_ipv6_address = field::<String>(document, "GlobalIPv6Address")?;
        let global_ipv6_prefix_len = field::<u8>(document, "GlobalIPv6PrefixLen")?;
        let mac_address = field::<String>(document, "MacAddress")?;
        Some(
            NetworkSettingsNet {
                network_id,
                endpoint_id,
                gateway,
                ip_address,
                ip_prefix_len,
                ipv6_gateway,
                global_ipv6_address,
                global_ipv6_prefix_len,
                mac_address,
            },
        )
    }

    fn absent() -> (r: NetworkSettingsNet) {
        NetworkSettingsNet {
            network_id: <String>::absent(),
            endpoint_id: <String>::absent(),
            gateway: <String>::absent(),
            ip_address: <String>::absent(),
            ip_prefix_len: <u8>::absent(),
            ipv6_gateway: <String>::absent(),
            global_ipv6_address: <String>::absent(),
            global_ipv6_prefix_len: <u8>::absent(),
            mac_address: <String>::absent(),
        }
    }

    open spec fn sound(value: NetworkSettingsNetView) -> bool {
        sound_of::<String>(value.network_id)
            && sound_of::<String>(value.endpoint_id)
            && sound_of::<String>(value.gateway)
            && sound_of::<String>(value.ip_address)
            && sound_of::<u8>(value.ip_prefix_len)
            && sound_of::<String>(value.ipv6_gateway)
            && sound_of::<String>(value.global_ipv6_address)
            && sound_of::<u8>(value.global_ipv6_prefix_len)
            && sound_of::<String>(value.mac_address)
    }

    proof fn lemma_decoded_sound(document: JsonValue) {
        lemma_field_sound::<String>(document, "NetworkID"@);
        lemma_field_sound::<String>(document, "EndpointID"@);
        lemma_field_sound::<String>(document, "Gateway"@);
        lemma_field_sound::<String>(document, "IPAddress"@);
        lemma_field_sound::<u8>(document, "IPPrefixLen"@);
        lemma_field_sound::<String>(document, "IPv6Gateway"@);
        lemma_field_sound::<String>(document, "GlobalIPv6Address"@);
        lemma_field_sound::<u8>(document, "GlobalIPv6PrefixLen"@);
        lemma_field_sound::<String>(document, "MacAddress"@);
    }

    proof fn lemma_blank_sound() {
        <String>::lemma_blank_sound();
        <u8>::lemma_blank_sound();
    }
}

impl Duplicate for NetworkSettingsNet {
    fn duplicate(&self) -> (copy: NetworkSettingsNet) {
        NetworkSettingsNet {
            network_id: self.network_id.duplicate(),
            endpoint_id: self.endpoint_id.duplicate(),
            gateway: self.gateway.duplicate(),
            ip_address: self.ip_address.duplicate(),
            ip_prefix_len: self.ip_prefix_len.duplicate(),
            ipv6_gateway: self.ipv6_gateway.duplicate(),
            global_ipv6_address: self.global_ipv6_address.duplicate(),
            global_ipv6_prefix_len: self.global_ipv6_prefix_len.duplicate(),
            mac_address: self.mac_address.duplicate(),
        }
    }
}

impl Clone for NetworkSettingsNet {
    fn clone(&self) -> (copy: Self)
        ensures
            copy@ == self@,
    {
        self.duplicate()
    }
}

impl Default for NetworkSettingsNet {
    fn default() -> (r: Self)
        ensures
            r@ == blank_of::<NetworkSettingsNet>(),
    {
        <NetworkSettingsNet>::absent()
    }
}

/// The networks of a container, by name.
#[derive(Debug, PartialEq)]
pub struct NetworkSettings {
    pub networks: Dictionary<NetworkSettingsNet>,
}

/// The mathematical value of a [`NetworkSettings`].
pub ghost struct NetworkSettingsView {
    pub networks: Seq<(Seq<char>, NetworkSettingsNetView)>,
}

impl DeepView for NetworkSettings {
    type V = NetworkSettingsView;

    open spec fn deep_view(&self) -> NetworkSettingsView {
        NetworkSettingsView {
            networks: self.networks.deep_view(),
        }
    }
}

impl View for NetworkSettings {
    type V = NetworkSettingsView;

    open spec fn view(&self) -> NetworkSettingsView {
        self.deep_view()
    }
}

impl FromJson for NetworkSettings {
    open spec fn decoded(document: JsonValue) -> Option<NetworkSettingsView> {
        if document is Object
            && field_of::<Dictionary<NetworkSettingsNet>>(document, "Networks"@) is Some {
            Some(
                NetworkSettingsView {
                    networks: field_of::<Dictionary<NetworkSettingsNet>>(
                        document,
                        "Networks"@,
                    )->0,
                },
            )
        } else {
            None
        }
    }

    open spec fn blank() -> NetworkSettingsView {
        NetworkSettingsView {
            networks: blank_of::<Dictionary<NetworkSettingsNet>>(),
        }
    }

    fn from_json(document: &Json) -> (r: Option<NetworkSettings>) {
        match document {
            Json::Object(_) => {},
            _ => {
                return None;
            },
        }
        let networks = field::<Dictionary<NetworkSettingsNet>>(document, "Networks")?;
        Some(NetworkSettings { networks })
    }

    fn absent() -> (r: NetworkSettings) {
        NetworkSettings {
            networks: <Dictionary<NetworkSettingsNet>>::absent(),
        }
    }

    open spec fn sound(value: NetworkSettingsView) -> bool {
        sound_of::<Dictionary<NetworkSettingsNet>>(value.networks)
    }

    proof fn lemma_decoded_sound(document: JsonValue) {
        lemma_field_sound::<Dictionary<NetworkSettingsNet>>(document, "Networks"@);
    }

    proof fn lemma_blank_sound() {
        <Dictionary<NetworkSettingsNet>>::lemma_blank_sound();
    }
}

impl Duplicate for NetworkSettings {
    fn duplicate(&self) -> (copy: NetworkSettings) {
        NetworkSettings {
            networks: self.networks.duplicate(),
        }
    }
}

impl Clone for NetworkSettings {
    fn clone(&self) -> (copy: Self)
        ensures
            copy@ == self@,
    {
        self.duplicate()
    }
}

impl Default for NetworkSettings {
    fn default() -> (r: Self)
        ensures
            r@ == blank_of::<NetworkSettings>(),
    {
        <NetworkSettings>::absent()
    }
}

/// The networking part of a creation payload.
#[derive(Debug, PartialEq)]
pub struct NetworkingConfig {
    pub endpoints_config: EndpointsConfig,
}

/// The mathematical value of a [`NetworkingConfig`].
pub ghost struct NetworkingConfigView {
    pub endpoints_config: EndpointsConfigView,
}

impl DeepView for NetworkingConfig {
    type V = NetworkingConfigView;

    open spec fn deep_view(&self) -> NetworkingConfigView {
        NetworkingConfigView {
            endpoints_config: self.endpoints_config.deep_view(),
        }
    }
}

impl View for NetworkingConfig {
    type V = NetworkingConfigView;

    open spec fn view(&self) -> NetworkingConfigView {
        self.deep_view()
    }
}

impl FromJson for NetworkingConfig {
    open spec fn decoded(document: JsonValue) -> Option<NetworkingConfigView> {
        if document is Object
            && required_of::<EndpointsConfig>(document, "EndpointsConfig"@) is Some {
            Some(
                NetworkingConfigView {
                    endpoints_config: required_of::<EndpointsConfig>(
                        document,
                        "EndpointsConfig"@,
                    )->0,
                },
            )
        } else {
            None
        }
    }

    open spec fn blank() -> NetworkingConfigView {
        NetworkingConfigView {
            endpoints_config: blank_of::<EndpointsConfig>(),
        }
    }

    fn from_json(document: &Json) -> (r: Option<NetworkingConfig>) {
        match document {
            Json::Object(_) => {},
            _ => {
                return None;
            },
        }
        let endpoints_config = required::<EndpointsConfig>(document, "EndpointsConfig")?;
        Some(NetworkingConfig { endpoints_config })
    }

    fn absent() -> (r: NetworkingConfig) {
        NetworkingConfig {
            endpoints_config: <EndpointsConfig>::absent(),
        }
    }

    open spec fn sound(value: NetworkingConfigView) -> bool {
        sound_of::<EndpointsConfig>(value.endpoints_config)
    }

    proof fn lemma_decoded_sound(document: JsonValue) {
        lemma_field_sound::<EndpointsConfig>(document, "EndpointsConfig"@);
    }

    proof fn lemma_blank_sound() {
        <EndpointsConfig>::lemma_blank_sound();
    }
}

impl Duplicate for NetworkingConfig {
    fn duplicate(&self) -> (copy: NetworkingConfig) {
        NetworkingConfig {
            endpoints_config: self.endpoints_config.duplicate(),
        }
    }
}

impl Clone for NetworkingConfig {
    fn clone(&self) -> (copy: Self)
        ensures
            copy@ == self@,
    {
        self.duplicate()
    }
}

impl Default for NetworkingConfig {
    fn default() -> (r: Self)
        ensures
            r@ == blank_of::<NetworkingConfig>(),
    {
        <NetworkingConfig>::absent()
    }
}

impl ToJson for NetworkingConfig {
    open spec fn encoded(value: NetworkingConfigView) -> JsonValue {
        JsonValue::Object(
            Seq::empty()
                + member_for::<EndpointsConfig>("EndpointsConfig"@, value.endpoints_config),
        )
    }

    fn to_json(&self) -> (document: Json) {
        let mut fields: Vec<(String, Json)> = Vec::new();
        assert(entries_of(fields@) =~= Seq::empty());
        put::<EndpointsConfig>(&mut fields, "EndpointsConfig", &self.endpoints_config);
        Json::object(fields)
    }
}

/// The endpoints of a creation payload.
#[derive(Debug, PartialEq)]
pub struct EndpointsConfig {
    pub isolated_nw: IsolatedNw,
}

/// The mathematical value of a [`EndpointsConfig`].
pub ghost struct EndpointsConfigView {
    pub isolated_nw: IsolatedNwView,
}

impl DeepView for EndpointsConfig {
    type V = EndpointsConfigView;

    open spec fn deep_view(&self) -> EndpointsConfigView {
        EndpointsConfigView {
            isolated_nw: self.isolated_nw.deep_view(),
        }
    }
}

impl View for EndpointsConfig {
    type V = EndpointsConfigView;

    open spec fn view(&self) -> EndpointsConfigView {
        self.deep_view()
    }
}

impl FromJson for EndpointsConfig {
    open spec fn decoded(document: JsonValue) -> Option<EndpointsConfigView> {
        if document is Object
            && required_of::<IsolatedNw>(document, "isolated_nw"@) is Some {
            Some(
                EndpointsConfigView {
                    isolated_nw: required_of::<IsolatedNw>(document, "isolated_nw"@)->0,
                },
            )
        } else {
            None
        }
    }

    open spec fn blank() -> EndpointsConfigView {
        EndpointsConfigView {
            isolated_nw: blank_of::<IsolatedNw>(),
        }
    }

    fn from_json(document: &Json) -> (r: Option<EndpointsConfig>) {
        match document {
            Json::Object(_) => {},
            _ => {
                return None;
            },
        }
        let isolated_nw = required::<IsolatedNw>(document, "isolated_nw")?;
        Some(EndpointsConfig { isolated_nw })
    }

    fn absent() -> (r: EndpointsConfig) {
        EndpointsConfig {
            isolated_nw: <IsolatedNw>::absent(),
        }
    }

    open spec fn sound(value: EndpointsConfigView) -> bool {
        sound_of::<IsolatedNw>(value.isolated_nw)
    }

    proof fn lemma_decoded_sound(document: JsonValue) {
        lemma_field_sound::<IsolatedNw>(document, "isolated_nw"@);
    }

    proof fn lemma_blank_sound() {
        <IsolatedNw>::lemma_blank_sound();
    }
}

impl Duplicate for EndpointsConfig {
    fn duplicate(&self) -> (copy: EndpointsConfig) {
        EndpointsConfig {
            isolated_nw: self.isolated_nw.duplicate(),
        }
    }
}

impl Clone for EndpointsConfig {
    fn clone(&self) -> (copy: Self)
        ensures
            copy@ == self@,
    {
        self.duplicate()
    }
}

impl ToJson for EndpointsConfig {
    open spec fn encoded(value: EndpointsConfigView) -> JsonValue {
        JsonValue::Object(
            Seq::empty()
                + member_for::<IsolatedNw>("isolated_nw"@, value.isolated_nw),
        )
    }

    fn to_json(&self) -> (document: Json) {
        let mut fields: Vec<(String, Json)> = Vec::new();
        assert(entries_of(fields@) =~= Seq::empty());
        put::<IsolatedNw>(&mut fields, "isolated_nw", &self.isolated_nw);
        Json::object(fields)
    }
}

/// The settings of the isolated network of a creation payload.
#[derive(Debug, PartialEq)]
pub struct IsolatedNw {
    pub ipam_config: IPAMConfig,
    pub links: Vec<String>,
    pub aliases: Vec<String>,
}

/// The mathematical value of a [`IsolatedNw`].
pub ghost struct IsolatedNwView {
    pub ipam_config: IPAMConfigView,
    pub links: Seq<Seq<char>>,
    pub aliases: Seq<Seq<char>>,
}

impl DeepView for IsolatedNw {
    type V = IsolatedNwView;

    open spec fn deep_view(&self) -> IsolatedNwView {
        IsolatedNwView {
            ipam_config: self.ipam_config.deep_view(),
            links: self.links.deep_view(),
            aliases: self.aliases.deep_view(),
        }
    }
}

impl View for IsolatedNw {
    type V = IsolatedNwView;

    open spec fn view(&self) -> IsolatedNwView {
        self.deep_view()
    }
}

impl FromJson for IsolatedNw {
    open spec fn decoded(document: JsonValue) -> Option<IsolatedNwView> {
        if document is Object
            && required_of::<IPAMConfig>(document, "IPAMConfig"@) is Some
            && field_of::<Vec<String>>(document, "Links"@) is Some
            && field_of::<Vec<String>>(document, "Aliases"@) is Some {
            Some(
                IsolatedNwView {
                    ipam_config: required_of::<IPAMConfig>(document, "IPAMConfig"@)->0,
                    links: field_of::<Vec<String>>(document, "Links"@)->0,
                    aliases: field_of::<Vec<String>>(document, "Aliases"@)->0,
                },
            )
        } else {
            None
        }
    }

    open spec fn blank() -> IsolatedNwView {
        IsolatedNwView {
            ipam_config: blank_of::<IPAMConfig>(),
            links: blank_of::<Vec<String>>(),
            aliases: blank_of::<Vec<String>>(),
        }
    }

    fn from_json(document: &Json) -> (r: Option<IsolatedNw>) {
        match document {
            Json::Object(_) => {},
            _ => {
                return None;
            },
        }
        let ipam_config = required::<IPAMConfig>(document, "IPAMConfig")?;
        let links = field::<Vec<String>>(document, "Links")?;
        let aliases = field::<Vec<String>>(document, "Aliases")?;
        Some(IsolatedNw { ipam_config, links, aliases })
    }

    fn absent() -> (r: IsolatedNw) {
        IsolatedNw {
            ipam_config: <IPAMConfig>::absent(),
            links: <Vec<String>>::absent(),
            aliases: <Vec<String>>::absent(),
        }
    }

    open spec fn sound(value: IsolatedNwView) -> bool {
        sound_of::<IPAMConfig>(value.ipam_config)
            && sound_of::<Vec<String>>(value.links)
            && sound_of::<Vec<String>>(value.aliases)
    }

    proof fn lemma_decoded_sound(document: JsonValue) {
        lemma_field_sound::<IPAMConfig>(document, "IPAMConfig"@);
        lemma_field_sound::<Vec<String>>(document, "Links"@);
        lemma_field_sound::<Vec<String>>(document, "Aliases"@);
    }

    proof fn lemma_blank_sound() {
        <IPAMConfig>::lemma_blank_sound();
        <Vec<String>>::lemma_blank_sound();
    }
}

impl Duplicate for IsolatedNw {
    fn duplicate(&self) -> (copy: IsolatedNw) {
        IsolatedNw {
            ipam_config: self.ipam_config.duplicate(),
            links: self.links.duplicate(),
            aliases: self.aliases.duplicate(),
        }
    }
}

impl Clone for IsolatedNw {
    fn clone(&self) -> (copy: Self)
        ensures
            copy@ == self@,
    {
        self.duplicate()
    }
}

impl ToJson for IsolatedNw {
    open spec fn encoded(value: IsolatedNwView) -> JsonValue {
        JsonValue::Object(
            Seq::empty()
                + member_for::<IPAMConfig>("IPAMConfig"@, value.ipam_config)
                + member_for::<Vec<String>>("Links"@, value.links)
                + member_for::<Vec<String>>("Aliases"@, value.aliases),
        )
    }

    fn to_json(&self) -> (document: Json) {
        let mut fields: Vec<(String, Json)> = Vec::new();
        assert(entries_of(fields@) =~= Seq::empty());
        put::<IPAMConfig>(&mut fields, "IPAMConfig", &self.ipam_config);
        put::<Vec<String>>(&mut fields, "Links", &self.links);
        put::<Vec<String>>(&mut fields, "Aliases", &self.aliases);
        Json::object(fields)
    }
}

/// The addresses asked for on a network.
#[derive(Debug, PartialEq)]
pub struct IPAMConfig {
    pub ipv4_address: String,
    pub ipv6_address: String,
    pub link_local_ips: Vec<String>,
}

/// The mathematical value of a [`IPAMConfig`].
pub ghost struct IPAMConfigView {
    pub ipv4_address: Seq<char>,
    pub ipv6_address: Seq<char>,
    pub link_local_ips: Seq<Seq<char>>,
}

impl DeepView for IPAMConfig {
    type V = IPAMConfigView;

    open spec fn deep_view(&self) -> IPAMConfigView {
        IPAMConfigView {
            ipv4_address: self.ipv4_address.deep_view(),
            ipv6_address: self.ipv6_address.deep_view(),
            link_local_ips: self.link_local_ips.deep_view(),
        }
    }
}

impl View for IPAMConfig {
    type V = IPAMConfigView;

    open spec fn view(&self) -> IPAMConfigView {
        self.deep_view()
    }
}

impl FromJson for IPAMConfig {
    open spec fn decoded(document: JsonValue) -> Option<IPAMConfigView> {
        if document is Object
            && field_of::<String>(document, "IPv4Address"@) is Some
            && field_of::<String>(document, "IPv6Address"@) is Some
            && field_of::<Vec<String>>(document, "LinkLocalIPs"@) is Some {
            Some(
                IPAMConfigView {
                    ipv4_address: field_of::<String>(document, "IPv4Address"@)->0,
                    ipv6_address: field_of::<String>(document, "IPv6Address"@)->0,
                    link_local_ips: field_of::<Vec<String>>(document, "LinkLocalIPs"@)->0,
                },
            )
        } else {
            None
        }
    }

    open spec fn blank() -> IPAMConfigView {
        IPAMConfigView {
            ipv4_address: blank_of::<String>(),
            ipv6_address: blank_of::<String>(),
            link_local_ips: blank_of::<Vec<String>>(),
        }
    }

    fn from_json(document: &Json) -> (r: Option<IPAMConfig>) {
        match document {
            Json::Object(_) => {},
            _ => {
                return None;
            },
        }
        let ipv4_address = field::<String>(document, "IPv4Address")?;
        let ipv6_address = field::<String>(document, "IPv6Address")?;
        let link_local_ips = field::<Vec<String>>(document, "LinkLocalIPs")?;
        Some(IPAMConfig { ipv4_address, ipv6_address, link_local_ips })
    }

    fn absent() -> (r: IPAMConfig) {
        IPAMConfig {
            ipv4_address: <String>::absent(),
            ipv6_address: <String>::absent(),
            link_local_ips: <Vec<String>>::absent(),
        }
    }

    open spec fn sound(value: IPAMConfigView) -> bool {
        sound_of::<String>(value.ipv4_address)
            && sound_of::<String>(value.ipv6_address)
            && sound_of::<Vec<String>>(value.link_local_ips)
    }

    proof fn lemma_decoded_sound(document: JsonValue) {
        lemma_field_sound::<String>(document, "IPv4Address"@);
        lemma_field_sound::<String>(document, "IPv6Address"@);
        lemma_field_sound::<Vec<String>>(document, "LinkLocalIPs"@);
    }

    proof fn lemma_blank_sound() {
        <String>::lemma_blank_sound();
        <Vec<String>>::lemma_blank_sound();
    }
}

impl Duplicate for IPAMConfig {
    fn duplicate(&self) -> (copy: IPAMConfig) {
        IPAMConfig {
            ipv4_address: self.ipv4_address.duplicate(),
            ipv6_address: self.ipv6_address.duplicate(),
            link_local_ips: self.link_local_ips.duplicate(),
        }
    }
}

impl Clone for IPAMConfig {
    fn clone(&self) -> (copy: Self)
        ensures
            copy@ == self@,
    {
        self.duplicate()
    }
}

impl ToJson for IPAMConfig {
    open spec fn encoded(value: IPAMConfigView) -> JsonValue {
        JsonValue::Object(
            Seq::empty()
                + member_for::<String>("IPv4Address"@, value.ipv4_address)
                + member_for::<String>("IPv6Address"@, value.ipv6_address)
                + member_for::<Vec<String>>("LinkLocalIPs"@, value.link_local_ips),
        )
    }

    fn to_json(&self) -> (document: Json) {
        let mut fields: Vec<(String, Json)> = Vec::new();
        assert(entries_of(fields@) =~= Seq::empty());
        put::<String>(&mut fields, "IPv4Address", &self.ipv4_address);
        put::<String>(&mut fields, "IPv6Address", &self.ipv6_address);
        put::<Vec<String>>(&mut fields, "LinkLocalIPs", &self.link_local_ips);
        Json::object(fields)
    }
}

} // verus!

//! A network of the engine.

use crate::decode::{
    blank_of, field, field_of, FromJson, lemma_field_sound, required, required_of, sound_of,
};
use crate::json::{Json, JsonValue};
use vstd::prelude::*;

verus! {

/// One network.
#[derive(Debug, PartialEq)]
pub struct Network {
    pub name: String,
    pub id: String,
    pub created: String,
    pub scope: String,
    pub driver: String,
    pub enable_ipv6: bool,
    pub internal: bool,
    pub attachable: bool,
    pub ingress: bool,
    pub ipam: IPAM,
    pub options: Vec<String>,
}

/// The mathematical value of a [`Network`].
pub ghost struct NetworkView {
    pub name: Seq<char>,
    pub id: Seq<char>,
    pub created: Seq<char>,
    pub scope: Seq<char>,
    pub driver: Seq<char>,
    pub enable_ipv6: bool,
    pub internal: bool,
    pub attachable: bool,
    pub ingress: bool,
    pub ipam: IPAMView,
    pub options: Seq<Seq<char>>,
}

impl DeepView for Network {
    type V = NetworkView;

    open spec fn deep_view(&self) -> NetworkView {
        NetworkView {
            name: self.name.deep_view(),
            id: self.id.deep_view(),
            created: self.created.deep_view(),
            scope: self.scope.deep_view(),
            driver: self.driver.deep_view(),
            enable_ipv6: self.enable_ipv6.deep_view(),
            internal: self.internal.deep_view(),
            attachable: self.attachable.deep_view(),
            ingress: self.ingress.deep_view(),
            ipam: self.ipam.deep_view(),
            options: self.options.deep_view(),
        }
    }
}

impl View for Network {
    type V = NetworkView;

    open spec fn view(&self) -> NetworkView {
        self.deep_view()
    }
}

impl FromJson for Network {
    open spec fn decoded(document: JsonValue) -> Option<NetworkView> {
        if document is Object
            && field_of::<String>(document, "Name"@) is Some
            && field_of::<String>(document, "Id"@) is Some
            && field_of::<String>(document, "Created"@) is Some
            && field_of::<String>(document, "Scope"@) is Some
            && field_of::<String>(document, "Driver"@) is Some
            && field_of::<bool>(document, "EnableIPv6"@) is Some
            && field_of::<bool>(document, "Internal"@) is Some
            && field_of::<bool>(document, "Attachable"@) is Some
            && field_of::<bool>(document, "Ingress"@) is Some
            && required_of::<IPAM>(document, "IPAM"@) is Some
            && field_of::<Vec<String>>(document, "Options"@) is Some {
            Some(
                NetworkView {
                    name: field_of::<String>(document, "Name"@)->0,
                    id: field_of::<String>(document, "Id"@)->0,
                    created: field_of::<String>(document, "Created"@)->0,
                    scope: field_of::<String>(document, "Scope"@)->0,
                    driver: field_of::<String>(document, "Driver"@)->0,
                    enable_ipv6: field_of::<bool>(document, "EnableIPv6"@)->0,
                    internal: field_of::<bool>(document, "Internal"@)->0,
                    attachable: field_of::<bool>(document, "Attachable"@)->0,
                    ingress: field_of::<bool>(document, "Ingress"@)->0,
                    ipam: required_of::<IPAM>(document, "IPAM"@)->0,
                    options: field_of::<Vec<String>>(document, "Options"@)->0,
                },
            )
        } else {
            None
        }
    }

    open spec fn blank() -> NetworkView {
        NetworkView {
            name: blank_of::<String>(),
            id: blank_of::<String>(),
            created: blank_of::<String>(),
            scope: blank_of::<String>(),
            driver: blank_of::<String>(),
            enable_ipv6: blank_of::<bool>(),
            internal: blank_of::<bool>(),
            attachable: blank_of::<bool>(),
            ingress: blank_of::<bool>(),
            ipam: blank_of::<IPAM>(),
            options: blank_of::<Vec<String>>(),
        }
    }

    fn from_json(document: &Json) -> (r: Option<Network>) {
        match document {
            Json::Object(_) => {},
            _ => {
                return None;
            },
        }
        let name = field::<String>(document, "Name")?;
        let id = field::<String>(document, "Id")?;
        let created = field::<String>(document, "Created")?;
        let scope = field::<String>(document, "Scope")?;
        let driver = field::<String>(document, "Driver")?;
        let enable_ipv6 = field::<bool>(document, "EnableIPv6")?;
        let internal = field::<bool>(document, "Internal")?;
        let attachable = field::<bool>(document, "Attachable")?;
        let ingress = field::<bool>(document, "Ingress")?;
        let ipam = required::<IPAM>(document, "IPAM")?;
        let options = field::<Vec<String>>(document, "Options")?;
        Some(
            Network {
                name,
                id,
                created,
                scope,
                driver,
                enable_ipv6,
                internal,
                attachable,
                ingress,
                ipam,
                options,
            },
        )
    }

    fn absent() -> (r: Network) {
        Network {
            name: <String>::absent(),
            id: <String>::absent(),
            created: <String>::absent(),
            scope: <String>::absent(),
            driver: <String>::absent(),
            enable_ipv6: <bool>::absent(),
            internal: <bool>::absent(),
            attachable: <bool>::absent(),
            ingress: <bool>::absent(),
            ipam: <IPAM>::absent(),
            options: <Vec<String>>::absent(),
        }
    }

    open spec fn sound(value: NetworkView) -> bool {
        sound_of::<String>(value.name)
            && sound_of::<String>(value.id)
            && sound_of::<String>(value.created)
            && sound_of::<String>(value.scope)
            && sound_of::<String>(value.driver)
            && sound_of::<bool>(value.enable_ipv6)
            && sound_of::<bool>(value.internal)
            && sound_of::<bool>(value.attachable)
            && sound_of::<bool>(value.ingress)
            && sound_of::<IPAM>(value.ipam)
            && sound_of::<Vec<String>>(value.options)
    }

    proof fn lemma_decoded_sound(document: JsonValue) {
        lemma_field_sound::<String>(document, "Name"@);
        lemma_field_sound::<String>(document, "Id"@);
        lemma_field_sound::<String>(document, "Created"@);
        lemma_field_sound::<String>(document, "Scope"@);
        lemma_field_sound::<String>(document, "Driver"@);
        lemma_field_sound::<bool>(document, "EnableIPv6"@);
        lemma_field_sound::<bool>(document, "Internal"@);
        lemma_field_sound::<bool>(document, "Attachable"@);
        lemma_field_sound::<bool>(document, "Ingress"@);
        lemma_field_sound::<IPAM>(document, "IPAM"@);
        lemma_field_sound::<Vec<String>>(document, "Options"@);
    }

    proof fn lemma_blank_sound() {
        <IPAM>::lemma_blank_sound();
        <String>::lemma_blank_sound();
        <Vec<String>>::lemma_blank_sound();
        <bool>::lemma_blank_sound();
    }
}

/// The address management of a network.
#[derive(Debug, PartialEq)]
pub struct IPAM {
    pub driver: String,
    pub config: Vec<String>,
}

/// The mathematical value of a [`IPAM`].
pub ghost struct IPAMView {
    pub driver: Seq<char>,
    pub config: Seq<Seq<char>>,
}

impl DeepView for IPAM {
    type V = IPAMView;

    open spec fn deep_view(&self) -> IPAMView {
        IPAMView {
            driver: self.driver.deep_view(),
            config: self.config.deep_view(),
        }
    }
}

impl View for IPAM {
    type V = IPAMView;

    open spec fn view(&self) -> IPAMView {
        self.deep_view()
    }
}

impl FromJson for IPAM {
    open spec fn decoded(document: JsonValue) -> Option<IPAMView> {
        if document is Object
            && field_of::<String>(document, "Driver"@) is Some
            && field_of::<Vec<String>>(document, "Config"@) is Some {
            Some(
                IPAMView {
                    driver: field_of::<String>(document, "Driver"@)->0,
                    config: field_of::<Vec<String>>(document, "Config"@)->0,
                },
            )
        } else {
            None
        }
    }

    open spec fn blank() -> IPAMView {
        IPAMView {
            driver: blank_of::<String>(),
            config: blank_of::<Vec<String>>(),
        }
    }

    fn from_json(document: &Json) -> (r: Option<IPAM>) {
        match document {
            Json::Object(_) => {},
            _ => {
                return None;
            },
        }
        let driver = field::<String>(document, "Driver")?;
        let config = field::<Vec<String>>(document, "Config")?;
        Some(IPAM { driver, config })
    }

    fn absent() -> (r: IPAM) {
        IPAM {
            driver: <String>::absent(),
            config: <Vec<String>>::absent(),
        }
    }

    open spec fn sound(value: IPAMView) -> bool {
        sound_of::<String>(value.driver)
            && sound_of::<Vec<String>>(value.config)
    }

    proof fn lemma_decoded_sound(document: JsonValue) {
        lemma_field_sound::<String>(document, "Driver"@);
        lemma_field_sound::<Vec<String>>(document, "Config"@);
    }

    proof fn lemma_blank_sound() {
        <String>::lemma_blank_sound();
        <Vec<String>>::lemma_blank_sound();
    }
}

} // verus!

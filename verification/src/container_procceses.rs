//! The process list of a container.

use crate::decode::{blank_of, field, field_of, FromJson, lemma_field_sound, sound_of};
use crate::json::{Json, JsonValue};
use vstd::prelude::*;

verus! {

/// The column titles and one row per process.
#[derive(Debug, PartialEq)]
pub struct ContainerProcessesResponse {
    pub titles: Vec<String>,
    pub processes: Vec<Vec<String>>,
}

/// The mathematical value of a [`ContainerProcessesResponse`].
pub ghost struct ContainerProcessesResponseView {
    pub titles: Seq<Seq<char>>,
    pub processes: Seq<Seq<Seq<char>>>,
}

impl DeepView for ContainerProcessesResponse {
    type V = ContainerProcessesResponseView;

    open spec fn deep_view(&self) -> ContainerProcessesResponseView {
        ContainerProcessesResponseView {
            titles: self.titles.deep_view(),
            processes: self.processes.deep_view(),
        }
    }
}

impl View for ContainerProcessesResponse {
    type V = ContainerProcessesResponseView;

    open spec fn view(&self) -> ContainerProcessesResponseView {
        self.deep_view()
    }
}

impl FromJson for ContainerProcessesResponse {
    open spec fn decoded(document: JsonValue) -> Option<ContainerProcessesResponseView> {
        if document is Object
            && field_of::<Vec<String>>(document, "Titles"@) is Some
            && field_of::<Vec<Vec<String>>>(document, "Processes"@) is Some {
            Some(
                ContainerProcessesResponseView {
                    titles: field_of::<Vec<String>>(document, "Titles"@)->0,
                    processes: field_of::<Vec<Vec<String>>>(document, "Processes"@)->0,
                },
            )
        } else {
            None
        }
    }

    open spec fn blank() -> ContainerProcessesResponseView {
        ContainerProcessesResponseView {
            titles: blank_of::<Vec<String>>(),
            processes: blank_of::<Vec<Vec<String>>>(),
        }
    }

    fn from_json(document: &Json) -> (r: Option<ContainerProcessesResponse>) {
        match document {
            Json::Object(_) => {},
            _ => {
                return None;
            },
        }
        let titles = field::<Vec<String>>(document, "Titles")?;
        let processes = field::<Vec<Vec<String>>>(document, "Processes")?;
        Some(ContainerProcessesResponse { titles, processes })
    }

    fn absent() -> (r: ContainerProcessesResponse) {
        ContainerProcessesResponse {
            titles: <Vec<String>>::absent(),
            processes: <Vec<Vec<String>>>::absent(),
        }
    }

    open spec fn sound(value: ContainerProcessesResponseView) -> bool {
        sound_of::<Vec<String>>(value.titles)
            && sound_of::<Vec<Vec<String>>>(value.processes)
    }

    proof fn lemma_decoded_sound(document: JsonValue) {
        lemma_field_sound::<Vec<String>>(document, "Titles"@);
        lemma_field_sound::<Vec<Vec<String>>>(document, "Processes"@);
    }

    proof fn lemma_blank_sound() {
        <Vec<String>>::lemma_blank_sound();
        <Vec<Vec<String>>>::lemma_blank_sound();
    }
}

impl Default for ContainerProcessesResponse {
    fn default() -> (r: Self)
        ensures
            r@ == blank_of::<ContainerProcessesResponse>(),
    {
        <ContainerProcessesResponse>::absent()
    }
}

} // verus!

//! Events as they are handed out, built from the stored event and its
//! parameters.

use vstd::prelude::*;
use crate::named::{text_or, Named};

verus! {

/// Why an event cannot be built.
#[derive(Clone, Copy, Debug, PartialEq, Eq, Structural)]
pub enum EventError {
    /// A parameter that the event's type needs is not stored with it.
    MissingRequiredField,
}

/// The identifiers stored with an event, by parameter name.
#[derive(Debug)]
pub struct EventUuidParameters {
    table: Named<i32>,
}

impl EventUuidParameters {
    /// The parameters as a map from names to identifiers.
    pub closed spec fn view(&self) -> Map<Seq<char>, i32> {
        self.table@
    }

    /// No parameters.
    pub fn new() -> (parameters: Self)
        ensures
            parameters@ == Map::<Seq<char>, i32>::empty(),
    {
        EventUuidParameters { table: Named::new() }
    }

    /// The parameters with `id` stored under `name`.
    pub fn insert(self, name: String, id: i32) -> (parameters: Self)
        ensures
            parameters@ == self@.insert(name@, id),
    {
        EventUuidParameters { table: self.table.insert(name, id) }
    }

    /// The identifier stored under `name`; `MissingRequiredField` where there
    /// is none.
    pub fn try_get(&self, name: &str) -> (found: Result<i32, EventError>)
        ensures
            match found {
                Ok(id) => self@.contains_key(name@) && self@[name@] == id,
                Err(error) => !self@.contains_key(name@) && error
                    == EventError::MissingRequiredField,
            },
    {
        match self.table.get(name) {
            Some(id) => Ok(*id),
            None => Err(EventError::MissingRequiredField),
        }
    }
}

/// The texts stored with an event, by parameter name.
#[derive(Debug)]
pub struct EventStringParameters {
    table: Named<String>,
}

impl EventStringParameters {
    /// The parameters as a map from names to texts.
    pub closed spec fn view(&self) -> Map<Seq<char>, String> {
        self.table@
    }

    /// No parameters.
    pub fn new() -> (parameters: Self)
        ensures
            parameters@ == Map::<Seq<char>, String>::empty(),
    {
        EventStringParameters { table: Named::new() }
    }

    /// The parameters with `text` stored under `name`.
    pub fn insert(self, name: String, text: String) -> (parameters: Self)
        ensures
            parameters@ == self@.insert(name@, text),
    {
        EventStringParameters { table: self.table.insert(name, text) }
    }

    /// A copy of the text stored under `name`, or of `default` where there
    /// is none.
    pub fn get_or(&self, name: &str, default: &str) -> (text: String)
        ensures
            text@ == text_or(self@, name@, default@),
    {
        self.table.get_or(name, default)
    }
}

/// What every stored event holds, whatever its type.
#[derive(Debug)]
pub struct AbstractEvent {
    /// The record that the event happened to.
    pub object_id: i32,
    /// The record named by the event's one identifier parameter.
    pub parameter_uuid_id: i32,
    pub uuid_parameters: EventUuidParameters,
    pub string_parameters: EventStringParameters,
}

/// An entity was linked to a parent.
#[derive(Debug)]
pub struct CreateEntityLink {
    pub abstract_event: AbstractEvent,
    pub child_id: i32,
    pub parent_id: i32,
}

impl CreateEntityLink {
    /// The link event of a stored event: the child is the record that the
    /// event happened to, the parent is the one its parameter names.
    pub fn new(abstract_event: AbstractEvent) -> (link: CreateEntityLink)
        ensures
            link.child_id == abstract_event.object_id,
            link.parent_id == abstract_event.parameter_uuid_id,
            link.abstract_event == abstract_event,
    {
        CreateEntityLink {
            child_id: abstract_event.object_id,
            parent_id: abstract_event.parameter_uuid_id,
            abstract_event,
        }
    }
}

/// A revision was checked out or rejected.
#[derive(Debug, PartialEq, Eq)]
pub struct RevisionEvent {
    pub repository_id: i32,
    pub revision_id: i32,
    pub reason: String,
}

impl RevisionEvent {
    /// The revision event of a stored event. The repository is the
    /// identifier parameter `repository`, without which there is no such
    /// event; the revision is the record that the event happened to; the
    /// reason is the text parameter `reason`, empty where none is stored.
    pub fn try_from(abstract_event: &AbstractEvent) -> (built: Result<RevisionEvent, EventError>)
        ensures
            match built {
                Ok(event) => {
                    &&& abstract_event.uuid_parameters@.contains_key("repository"@)
                    &&& event.repository_id == abstract_event.uuid_parameters@["repository"@]
                    &&& event.revision_id == abstract_event.object_id
                    &&& event.reason@ == text_or(
                        abstract_event.string_parameters@,
                        "reason"@,
                        Seq::empty(),
                    )
                },
                Err(error) => {
                    &&& !abstract_event.uuid_parameters@.contains_key("repository"@)
                    &&& error == EventError::MissingRequiredField
                },
            },
    {
        let repository_id = match abstract_event.uuid_parameters.try_get("repository") {
            Ok(id) => id,
            Err(error) => {
                return Err(error);
            },
        };
        let revision_id = abstract_event.object_id;
        let reason = abstract_event.string_parameters.get_or("reason", "");
        proof {
            reveal_strlit("");
            assert(""@ =~= Seq::<char>::empty());
        }
        Ok(RevisionEvent { repository_id, revision_id, reason })
    }
}

} // verus!

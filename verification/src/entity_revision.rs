//! Revisions of entities as they are handed out.

use vstd::prelude::*;
use crate::named::{text_or, Named};

verus! {

/// The fields stored with a revision, by field name.
#[derive(Debug)]
pub struct EntityRevisionFields {
    table: Named<String>,
}

impl EntityRevisionFields {
    /// The fields as a map from names to texts.
    pub closed spec fn view(&self) -> Map<Seq<char>, String> {
        self.table@
    }

    /// No fields.
    pub fn new() -> (fields: Self)
        ensures
            fields@ == Map::<Seq<char>, String>::empty(),
    {
        EntityRevisionFields { table: Named::new() }
    }

    /// The fields with `text` stored under `name`.
    pub fn insert(self, name: String, text: String) -> (fields: Self)
        ensures
            fields@ == self@.insert(name@, text),
    {
        EntityRevisionFields { table: self.table.insert(name, text) }
    }

    /// A copy of the text stored under `name`, or of `default` where there
    /// is none.
    pub fn get_or(&self, name: &str, default: &str) -> (text: String)
        ensures
            text@ == text_or(self@, name@, default@),
    {
        self.table.get_or(name, default)
    }
}

/// What every revision of an entity holds, whatever the entity's type.
#[derive(Debug)]
pub struct AbstractEntityRevision {
    pub fields: EntityRevisionFields,
}

/// A revision of a course.
#[derive(Debug)]
pub struct CourseRevision {
    pub abstract_entity_revision: AbstractEntityRevision,
    pub title: String,
    pub content: String,
    pub meta_description: String,
}

impl CourseRevision {
    /// The course revision of a stored revision: title, content and
    /// description are the fields of those names, each empty where it is not
    /// stored.
    pub fn from(abstract_entity_revision: AbstractEntityRevision) -> (revision: CourseRevision)
        ensures
            revision.abstract_entity_revision == abstract_entity_revision,
            revision.title@ == text_or(abstract_entity_revision.fields@, "title"@, Seq::empty()),
            revision.content@ == text_or(
                abstract_entity_revision.fields@,
                "content"@,
                Seq::empty(),
            ),
            revision.meta_description@ == text_or(
                abstract_entity_revision.fields@,
                "meta_description"@,
                Seq::empty(),
            ),
    {
        proof {
            reveal_strlit("");
            assert(""@ =~= Seq::<char>::empty());
        }
        let title = abstract_entity_revision.fields.get_or("title", "");
        let content = abstract_entity_revision.fields.get_or("content", "");
        let meta_description = abstract_entity_revision.fields.get_or("meta_description", "");
        CourseRevision { abstract_entity_revision, title, content, meta_description }
    }
}

} // verus!

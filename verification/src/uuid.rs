//! The envelope a resolution ends with, and the records it carries.

use vstd::prelude::*;
use crate::comment::{Comment, CommentView};
use crate::discriminator::Discriminator;
use crate::engine::{start_on_pool, start_via_transaction, Resolution, ResolutionStep, Target};
use crate::transaction::ExecutionContext;
use crate::page::{Page, PageView};

verus! {

/// The record of one identifier. There is one variant for each kind, so the
/// kind and the shape of the record cannot disagree.
#[derive(Debug, PartialEq, Eq)]
pub enum ConcreteUuid {
    Attachment,
    BlogPost,
    Comment(Comment),
    Entity,
    EntityRevision,
    Page(Page),
    PageRevision,
    TaxonomyTerm,
    User,
}

pub enum ConcreteUuidView {
    Attachment,
    BlogPost,
    Comment(CommentView),
    Entity,
    EntityRevision,
    Page(PageView),
    PageRevision,
    TaxonomyTerm,
    User,
}

impl View for ConcreteUuid {
    type V = ConcreteUuidView;

    open spec fn view(&self) -> ConcreteUuidView {
        match self {
            ConcreteUuid::Attachment => ConcreteUuidView::Attachment,
            ConcreteUuid::BlogPost => ConcreteUuidView::BlogPost,
            ConcreteUuid::Comment(comment) => ConcreteUuidView::Comment(comment@),
            ConcreteUuid::Entity => ConcreteUuidView::Entity,
            ConcreteUuid::EntityRevision => ConcreteUuidView::EntityRevision,
            ConcreteUuid::Page(page) => ConcreteUuidView::Page(page@),
            ConcreteUuid::PageRevision => ConcreteUuidView::PageRevision,
            ConcreteUuid::TaxonomyTerm => ConcreteUuidView::TaxonomyTerm,
            ConcreteUuid::User => ConcreteUuidView::User,
        }
    }
}

/// The kind that a record belongs to.
pub open spec fn kind_of_record(record: ConcreteUuidView) -> Discriminator {
    match record {
        ConcreteUuidView::Attachment => Discriminator::Attachment,
        ConcreteUuidView::BlogPost => Discriminator::BlogPost,
        ConcreteUuidView::Comment(_) => Discriminator::Comment,
        ConcreteUuidView::Entity => Discriminator::Entity,
        ConcreteUuidView::EntityRevision => Discriminator::EntityRevision,
        ConcreteUuidView::Page(_) => Discriminator::Page,
        ConcreteUuidView::PageRevision => Discriminator::PageRevision,
        ConcreteUuidView::TaxonomyTerm => Discriminator::TaxonomyTerm,
        ConcreteUuidView::User => Discriminator::User,
    }
}

impl ConcreteUuid {
    /// The kind of this record.
    pub fn discriminator(&self) -> (kind: Discriminator)
        ensures
            kind == kind_of_record(self@),
    {
        match self {
            ConcreteUuid::Attachment => Discriminator::Attachment,
            ConcreteUuid::BlogPost => Discriminator::BlogPost,
            ConcreteUuid::Comment(_) => Discriminator::Comment,
            ConcreteUuid::Entity => Discriminator::Entity,
            ConcreteUuid::EntityRevision => Discriminator::EntityRevision,
            ConcreteUuid::Page(_) => Discriminator::Page,
            ConcreteUuid::PageRevision => Discriminator::PageRevision,
            ConcreteUuid::TaxonomyTerm => Discriminator::TaxonomyTerm,
            ConcreteUuid::User => Discriminator::User,
        }
    }
}

/// The resolved envelope: what every kind shares, and the record itself.
#[derive(Debug, PartialEq, Eq)]
pub struct Uuid {
    pub id: i32,
    pub trashed: bool,
    pub alias: String,
    pub concrete: ConcreteUuid,
}

pub struct UuidView {
    pub id: i32,
    pub trashed: bool,
    pub alias: Seq<char>,
    pub concrete: ConcreteUuidView,
}

impl View for Uuid {
    type V = UuidView;

    open spec fn view(&self) -> UuidView {
        UuidView {
            id: self.id,
            trashed: self.trashed,
            alias: self.alias@,
            concrete: self.concrete@,
        }
    }
}

impl Uuid {
    /// Starts the resolution of the identifier `id` on a pool, without a
    /// transaction.
    pub fn fetch(id: i32) -> (first: ResolutionStep)
        ensures
            first@ == start_on_pool(id, Target::Uuid),
    {
        Resolution::on_pool(id, Target::Uuid)
    }

    /// Starts the resolution of the identifier `id` in a transaction: one
    /// that is opened on the pool for this resolution, or the caller's.
    pub fn fetch_via_transaction(id: i32, executor: ExecutionContext) -> (first: ResolutionStep)
        ensures
            first@ == start_via_transaction(id, Target::Uuid, executor),
    {
        Resolution::via_transaction(id, Target::Uuid, executor)
    }

    /// The kind of the record inside the envelope.
    pub fn discriminator(&self) -> (kind: Discriminator)
        ensures
            kind == kind_of_record(self@.concrete),
    {
        self.concrete.discriminator()
    }
}

} // verus!

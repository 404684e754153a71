//! The queries a resolution asks of the store, and the rows that answer them.

use vstd::prelude::*;
use crate::alias::owned_text_of;
use crate::error::{StoreFailure, StoreFailureView};

verus! {

/// A question to the store. `Comment` and `Page` each stand for a bundle of
/// independent fetches, which a driver on a pool may run side by side.
#[derive(Clone, Copy, Debug, PartialEq, Eq, Structural)]
pub enum Query {
    /// The row of the master identifier table.
    Discriminator { id: i32 },
    /// A comment's primary row and the identifiers of its direct children.
    Comment { id: i32 },
    /// The links of one comment: to its anchor and to its parent comment.
    CommentLink { id: i32 },
    /// One node of an ancestor chain: its slug and its parent.
    Ancestor { id: i32 },
    /// A page's primary row and its revisions.
    Page { id: i32 },
}

/// The master row of an identifier.
#[derive(Debug, PartialEq, Eq)]
pub struct UuidRow {
    pub trashed: bool,
    pub discriminator: String,
}

pub struct UuidRowView {
    pub trashed: bool,
    pub discriminator: Seq<char>,
}

impl View for UuidRow {
    type V = UuidRowView;

    open spec fn view(&self) -> UuidRowView {
        UuidRowView { trashed: self.trashed, discriminator: self.discriminator@ }
    }
}

/// A comment's primary row, joined with its parent comment's title.
#[derive(Debug, PartialEq, Eq)]
pub struct CommentRow {
    pub trashed: bool,
    pub author_id: i32,
    pub title: Option<String>,
    pub date: String,
    pub archived: bool,
    pub content: Option<String>,
    /// The parent comment, where the comment answers another one.
    pub parent_id: Option<i32>,
    /// The record the comment is attached to, where it starts a thread.
    pub uuid_id: Option<i32>,
    pub parent_title: Option<String>,
}

pub struct CommentRowView {
    pub trashed: bool,
    pub author_id: i32,
    pub title: Option<Seq<char>>,
    pub date: Seq<char>,
    pub archived: bool,
    pub content: Option<Seq<char>>,
    pub parent_id: Option<i32>,
    pub uuid_id: Option<i32>,
    pub parent_title: Option<Seq<char>>,
}

impl View for CommentRow {
    type V = CommentRowView;

    open spec fn view(&self) -> CommentRowView {
        CommentRowView {
            trashed: self.trashed,
            author_id: self.author_id,
            title: owned_text_of(self.title),
            date: self.date@,
            archived: self.archived,
            content: owned_text_of(self.content),
            parent_id: self.parent_id,
            uuid_id: self.uuid_id,
            parent_title: owned_text_of(self.parent_title),
        }
    }
}

/// The two links of a comment.
#[derive(Clone, Copy, Debug, PartialEq, Eq, Structural)]
pub struct CommentLink {
    /// The record the comment is attached to.
    pub uuid_id: Option<i32>,
    /// The comment it answers.
    pub parent_id: Option<i32>,
}

/// One node of an ancestor chain.
#[derive(Debug, PartialEq, Eq)]
pub struct AncestorRow {
    pub slug: String,
    pub parent_id: Option<i32>,
}

pub struct AncestorRowView {
    pub slug: Seq<char>,
    pub parent_id: Option<i32>,
}

impl View for AncestorRow {
    type V = AncestorRowView;

    open spec fn view(&self) -> AncestorRowView {
        AncestorRowView { slug: self.slug@, parent_id: self.parent_id }
    }
}

/// A page's primary row, joined with the title of its current revision.
#[derive(Debug, PartialEq, Eq)]
pub struct PageRow {
    pub trashed: bool,
    pub subdomain: String,
    pub current_revision_id: Option<i32>,
    pub license_id: i32,
    pub title: Option<String>,
}

pub struct PageRowView {
    pub trashed: bool,
    pub subdomain: Seq<char>,
    pub current_revision_id: Option<i32>,
    pub license_id: i32,
    pub title: Option<Seq<char>>,
}

impl View for PageRow {
    type V = PageRowView;

    open spec fn view(&self) -> PageRowView {
        PageRowView {
            trashed: self.trashed,
            subdomain: self.subdomain@,
            current_revision_id: self.current_revision_id,
            license_id: self.license_id,
            title: owned_text_of(self.title),
        }
    }
}

/// One revision of a page.
#[derive(Debug, PartialEq, Eq)]
pub struct RevisionRow {
    pub id: i32,
    pub date: String,
}

pub struct RevisionRowView {
    pub id: i32,
    pub date: Seq<char>,
}

impl View for RevisionRow {
    type V = RevisionRowView;

    open spec fn view(&self) -> RevisionRowView {
        RevisionRowView { id: self.id, date: self.date@ }
    }
}

/// The view of a fetch: of the row where it succeeded, of the failure where
/// it did not.
pub open spec fn fetched<T: View>(result: Result<T, StoreFailure>) -> Result<
    T::V,
    StoreFailureView,
> {
    match result {
        Ok(row) => Ok(row@),
        Err(failure) => Err(failure@),
    }
}

/// The view of a fetched list of rows, row by row.
pub open spec fn fetched_rows<T: View>(result: Result<Vec<T>, StoreFailure>) -> Result<
    Seq<T::V>,
    StoreFailureView,
> {
    match result {
        Ok(rows) => Ok(rows@.map_values(|row: T| row@)),
        Err(failure) => Err(failure@),
    }
}

/// The view of a fetched list of plain values.
pub open spec fn fetched_list<T>(result: Result<Vec<T>, StoreFailure>) -> Result<
    Seq<T>,
    StoreFailureView,
> {
    match result {
        Ok(items) => Ok(items@),
        Err(failure) => Err(failure@),
    }
}

/// The view of a fetched plain value.
pub open spec fn fetched_plain<T>(result: Result<T, StoreFailure>) -> Result<T, StoreFailureView> {
    match result {
        Ok(value) => Ok(value),
        Err(failure) => Err(failure@),
    }
}

/// What the store hands back. Each variant answers the query of the same name;
/// `Transaction` acknowledges a begin, a commit or a rollback.
#[derive(Debug, PartialEq, Eq)]
pub enum Reply {
    Discriminator(Result<UuidRow, StoreFailure>),
    Comment { comment: Result<CommentRow, StoreFailure>, children: Result<Vec<i32>, StoreFailure> },
    CommentLink(Result<CommentLink, StoreFailure>),
    Ancestor(Result<AncestorRow, StoreFailure>),
    Page { page: Result<PageRow, StoreFailure>, revisions: Result<Vec<RevisionRow>, StoreFailure> },
    Transaction(Result<(), StoreFailure>),
}

pub enum ReplyView {
    Discriminator(Result<UuidRowView, StoreFailureView>),
    Comment {
        comment: Result<CommentRowView, StoreFailureView>,
        children: Result<Seq<i32>, StoreFailureView>,
    },
    CommentLink(Result<CommentLink, StoreFailureView>),
    Ancestor(Result<AncestorRowView, StoreFailureView>),
    Page {
        page: Result<PageRowView, StoreFailureView>,
        revisions: Result<Seq<RevisionRowView>, StoreFailureView>,
    },
    Transaction(Result<(), StoreFailureView>),
}

impl View for Reply {
    type V = ReplyView;

    open spec fn view(&self) -> ReplyView {
        match self {
            Reply::Discriminator(row) => ReplyView::Discriminator(fetched(*row)),
            Reply::Comment { comment, children } => ReplyView::Comment {
                comment: fetched(*comment),
                children: fetched_list(*children),
            },
            Reply::CommentLink(link) => ReplyView::CommentLink(fetched_plain(*link)),
            Reply::Ancestor(row) => ReplyView::Ancestor(fetched(*row)),
            Reply::Page { page, revisions } => ReplyView::Page {
                page: fetched(*page),
                revisions: fetched_rows(*revisions),
            },
            Reply::Transaction(ack) => ReplyView::Transaction(fetched_plain(*ack)),
        }
    }
}

} // verus!

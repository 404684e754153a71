//! Comments: the record, and how it is put together from its rows.

use vstd::prelude::*;
use crate::alias::{alias_text, ends_with, format_alias, lemma_alias_ends_with_suffix, owned_text_of};
use crate::context::{context_on_pool, context_via_transaction, ContextResolution, ContextStep};
use crate::engine::{start_on_pool, start_via_transaction, Resolution, ResolutionStep, Target};
use crate::transaction::ExecutionContext;
use crate::error::{primary_row_error, resolved, StoreFailure, StoreFailureView, UuidError, UuidErrorView};
use crate::store::{fetched, fetched_list, CommentRow, CommentRowView};
use crate::text::{decimal, decimal_string};
use crate::uuid::{ConcreteUuid, ConcreteUuidView, Uuid, UuidView};

verus! {

/// A comment as it is handed out.
#[derive(Debug, PartialEq, Eq)]
pub struct Comment {
    pub author_id: i32,
    pub title: Option<String>,
    pub date: String,
    pub archived: bool,
    pub content: String,
    pub parent_id: i32,
    pub children_ids: Vec<i32>,
}

pub struct CommentView {
    pub author_id: i32,
    pub title: Option<Seq<char>>,
    pub date: Seq<char>,
    pub archived: bool,
    pub content: Seq<char>,
    pub parent_id: i32,
    pub children_ids: Seq<i32>,
}

impl View for Comment {
    type V = CommentView;

    open spec fn view(&self) -> CommentView {
        CommentView {
            author_id: self.author_id,
            title: owned_text_of(self.title),
            date: self.date@,
            archived: self.archived,
            content: self.content@,
            parent_id: self.parent_id,
            children_ids: self.children_ids@,
        }
    }
}

/// The view of a context: the path where there is one.
pub open spec fn context_view(context: Result<Option<String>, UuidError>) -> Result<
    Option<Seq<char>>,
    UuidErrorView,
> {
    match context {
        Ok(path) => Ok(owned_text_of(path)),
        Err(error) => Err(error@),
    }
}

/// The title a comment goes by in its alias: its own, else its parent's,
/// else its identifier in decimal.
pub open spec fn comment_label(id: i32, row: CommentRowView) -> Seq<char> {
    match row.title {
        Some(title) => title,
        None => match row.parent_title {
            Some(title) => title,
            None => decimal(id as int),
        },
    }
}

/// What a comment hangs on: the comment it answers, else the record it is
/// attached to.
pub open spec fn comment_parent(row: CommentRowView) -> Option<i32> {
    match row.parent_id {
        Some(parent) => Some(parent),
        None => row.uuid_id,
    }
}

/// What a comment resolves to, given what its fetches and its context walk
/// brought.
///
/// The primary row is looked at first (a missing row is `NotFound`), then the
/// children, then the context. A row that hangs on nothing is `NotFound`.
/// The inherited title goes into the alias only; the record keeps the
/// comment's own title. Children stay in the order in which they came.
pub open spec fn comment_outcome(
    id: i32,
    row: Result<CommentRowView, StoreFailureView>,
    children: Result<Seq<i32>, StoreFailureView>,
    context: Result<Option<Seq<char>>, UuidErrorView>,
) -> Result<UuidView, UuidErrorView> {
    match row {
        Err(failure) => Err(primary_row_error(failure)),
        Ok(comment) => match children {
            Err(failure) => Err(UuidErrorView::StoreError(failure)),
            Ok(children_ids) => match context {
                Err(error) => Err(error),
                Ok(path) => match comment_parent(comment) {
                    None => Err(UuidErrorView::NotFound),
                    Some(parent_id) => Ok(
                        UuidView {
                            id,
                            trashed: comment.trashed,
                            alias: alias_text(path, id as int, Some(comment_label(id, comment))),
                            concrete: ConcreteUuidView::Comment(
                                CommentView {
                                    author_id: comment.author_id,
                                    title: comment.title,
                                    date: comment.date,
                                    archived: comment.archived,
                                    content: match comment.content {
                                        Some(content) => content,
                                        None => Seq::<char>::empty(),
                                    },
                                    parent_id,
                                    children_ids,
                                },
                            ),
                        },
                    ),
                },
            },
        },
    }
}

/// The alias of a comment ends with the title it goes by: with its parent's
/// title where it has none of its own, and with its identifier where the
/// parent has none either. The record keeps the comment's own title, and the
/// children in the order in which they were fetched.
pub proof fn lemma_comment_alias(
    id: i32,
    row: CommentRowView,
    children: Seq<i32>,
    context: Option<Seq<char>>,
)
    ensures
        row.title is None && row.parent_title is Some ==> comment_label(id, row)
            == row.parent_title->Some_0,
        row.title is None && row.parent_title is None ==> comment_label(id, row) == decimal(
            id as int,
        ),
        comment_outcome(id, Ok(row), Ok(children), Ok(context)) matches Ok(uuid) ==> {
            &&& ends_with(uuid.alias, comment_label(id, row))
            &&& uuid.concrete matches ConcreteUuidView::Comment(record)
            &&& record.title == row.title
            &&& record.children_ids == children
        },
{
    lemma_alias_ends_with_suffix(context, id as int, comment_label(id, row));
}

fn label(id: i32, row: &CommentRow) -> (text: String)
    ensures
        text@ == comment_label(id, row@),
{
    match &row.title {
        Some(title) => title.clone(),
        None => match &row.parent_title {
            Some(title) => title.clone(),
            None => decimal_string(id),
        },
    }
}

/// Puts a comment together from its primary row, its children and its
/// context.
pub fn to_comment(
    id: i32,
    row: Result<CommentRow, StoreFailure>,
    children: Result<Vec<i32>, StoreFailure>,
    context: Result<Option<String>, UuidError>,
) -> (outcome: Result<Uuid, UuidError>)
    ensures
        resolved(outcome) == comment_outcome(
            id,
            fetched(row),
            fetched_list(children),
            context_view(context),
        ),
{
    let comment = match row {
        Ok(comment) => comment,
        Err(failure) => {
            return Err(UuidError::from_primary_row(failure));
        },
    };
    let children_ids = match children {
        Ok(children_ids) => children_ids,
        Err(failure) => {
            return Err(UuidError::from_store(failure));
        },
    };
    let path = match context {
        Ok(path) => path,
        Err(error) => {
            return Err(error);
        },
    };
    let parent_id = match comment.parent_id {
        Some(parent) => parent,
        None => match comment.uuid_id {
            Some(anchor) => anchor,
            None => {
                return Err(UuidError::NotFound);
            },
        },
    };
    let title = label(id, &comment);
    let alias = match &path {
        Some(prefix) => format_alias(Some(prefix.as_str()), id, Some(title.as_str())),
        None => format_alias(None, id, Some(title.as_str())),
    };
    let content = match comment.content {
        Some(content) => content,
        None => String::new(),
    };
    Ok(
        Uuid {
            id,
            trashed: comment.trashed,
            alias,
            concrete: ConcreteUuid::Comment(
                Comment {
                    author_id: comment.author_id,
                    title: comment.title,
                    date: comment.date,
                    archived: comment.archived,
                    content,
                    parent_id,
                    children_ids,
                },
            ),
        },
    )
}

impl Comment {
    /// Starts the resolution of the comment `id` on a pool: its row and its
    /// children may be fetched side by side, and no transaction is opened.
    pub fn fetch(id: i32) -> (first: ResolutionStep)
        ensures
            first@ == start_on_pool(id, Target::Comment),
    {
        Resolution::on_pool(id, Target::Comment)
    }

    /// Starts the resolution of the comment `id` in a transaction: one that
    /// is opened on the pool for this resolution, or the caller's.
    pub fn fetch_via_transaction(id: i32, executor: ExecutionContext) -> (first: ResolutionStep)
        ensures
            first@ == start_via_transaction(id, Target::Comment, executor),
    {
        Resolution::via_transaction(id, Target::Comment, executor)
    }

    /// Starts the search for the context of the comment `id` on a pool.
    pub fn fetch_context(id: i32) -> (first: ContextStep)
        ensures
            first@ == context_on_pool(id),
    {
        ContextResolution::on_pool(id)
    }

    /// Starts the search for the context of the comment `id` in a
    /// transaction: one that is opened on the pool for this search, or the
    /// caller's.
    pub fn fetch_context_via_transaction(id: i32, executor: ExecutionContext) -> (first:
        ContextStep)
        ensures
            first@ == context_via_transaction(id, executor),
    {
        ContextResolution::via_transaction(id, executor)
    }
}

} // verus!

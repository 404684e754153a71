//! Pages: the record, and how it is put together from its rows.

use vstd::prelude::*;
use crate::alias::{alias_text, format_alias};
use crate::engine::{start_on_pool, start_via_transaction, Resolution, ResolutionStep, Target};
use crate::transaction::ExecutionContext;
use crate::error::{primary_row_error, resolved, StoreFailure, StoreFailureView, UuidError, UuidErrorView};
use crate::store::{fetched, fetched_rows, PageRow, PageRowView, RevisionRow, RevisionRowView};
use crate::uuid::{ConcreteUuid, ConcreteUuidView, Uuid, UuidView};

verus! {

/// A page as it is handed out. It always has at least one revision.
#[derive(Debug, PartialEq, Eq)]
pub struct Page {
    pub instance: String,
    pub current_revision_id: Option<i32>,
    /// Most recent revision first.
    pub revision_ids: Vec<i32>,
    pub date: String,
    pub license_id: i32,
}

pub struct PageView {
    pub instance: Seq<char>,
    pub current_revision_id: Option<i32>,
    pub revision_ids: Seq<i32>,
    pub date: Seq<char>,
    pub license_id: i32,
}

impl View for Page {
    type V = PageView;

    open spec fn view(&self) -> PageView {
        PageView {
            instance: self.instance@,
            current_revision_id: self.current_revision_id,
            revision_ids: self.revision_ids@,
            date: self.date@,
            license_id: self.license_id,
        }
    }
}

/// The identifiers of the revisions, last stored row first.
pub open spec fn revision_ids(revisions: Seq<RevisionRowView>) -> Seq<i32> {
    Seq::new(revisions.len(), |i: int| revisions[revisions.len() - 1 - i].id)
}

/// What a page resolves to, given what its two fetches brought.
///
/// A missing primary row is `NotFound`; so is a page without revisions. Any
/// other failure is the store's. The primary row is looked at first.
pub open spec fn page_outcome(
    id: i32,
    row: Result<PageRowView, StoreFailureView>,
    revisions: Result<Seq<RevisionRowView>, StoreFailureView>,
) -> Result<UuidView, UuidErrorView> {
    match row {
        Err(failure) => Err(primary_row_error(failure)),
        Ok(page) => match revisions {
            Err(failure) => Err(UuidErrorView::StoreError(failure)),
            Ok(revs) => if revs.len() == 0 {
                Err(UuidErrorView::NotFound)
            } else {
                Ok(
                    UuidView {
                        id,
                        trashed: page.trashed,
                        alias: alias_text(None, id as int, page.title),
                        concrete: ConcreteUuidView::Page(
                            PageView {
                                instance: page.subdomain,
                                current_revision_id: page.current_revision_id,
                                revision_ids: revision_ids(revs),
                                date: revs[0].date,
                                license_id: page.license_id,
                            },
                        ),
                    },
                )
            },
        },
    }
}

fn newest_first(revisions: &Vec<RevisionRow>) -> (ids: Vec<i32>)
    ensures
        ids@ == revision_ids(revisions@.map_values(|row: RevisionRow| row@)),
{
    let ghost rows = revisions@.map_values(|row: RevisionRow| row@);
    let mut ids: Vec<i32> = Vec::new();
    let mut left: usize = revisions.len();
    while left > 0
        invariant
            left <= revisions.len(),
            rows == revisions@.map_values(|row: RevisionRow| row@),
            ids.len() == revisions.len() - left,
            forall|i: int| 0 <= i < ids.len() ==> ids[i] == rows[rows.len() - 1 - i].id,
        decreases left,
    {
        left = left - 1;
        ids.push(revisions[left].id);
    }
    assert(ids@ =~= revision_ids(rows));
    ids
}

/// Puts a page together from its primary row and its revisions.
pub fn to_page(
    id: i32,
    row: Result<PageRow, StoreFailure>,
    revisions: Result<Vec<RevisionRow>, StoreFailure>,
) -> (outcome: Result<Uuid, UuidError>)
    ensures
        resolved(outcome) == page_outcome(id, fetched(row), fetched_rows(revisions)),
{
    let page = match row {
        Ok(page) => page,
        Err(failure) => {
            return Err(UuidError::from_primary_row(failure));
        },
    };
    let revisions = match revisions {
        Ok(revisions) => revisions,
        Err(failure) => {
            return Err(UuidError::from_store(failure));
        },
    };
    if revisions.len() == 0 {
        return Err(UuidError::NotFound);
    }
    let alias = match &page.title {
        Some(title) => format_alias(None, id, Some(title.as_str())),
        None => format_alias(None, id, None),
    };
    let revision_ids = newest_first(&revisions);
    let date = revisions[0].date.clone();
    Ok(
        Uuid {
            id,
            trashed: page.trashed,
            alias,
            concrete: ConcreteUuid::Page(
                Page {
                    instance: page.subdomain,
                    current_revision_id: page.current_revision_id,
                    revision_ids,
                    date,
                    license_id: page.license_id,
                },
            ),
        },
    )
}

impl Page {
    /// Starts the resolution of the page `id` on a pool: its row and its
    /// revisions may be fetched side by side, and no transaction is opened.
    pub fn find_by_id(id: i32) -> (first: ResolutionStep)
        ensures
            first@ == start_on_pool(id, Target::Page),
    {
        Resolution::on_pool(id, Target::Page)
    }

    /// Starts the resolution of the page `id` in a transaction: one that is
    /// opened on the pool for this resolution, or the caller's.
    pub fn find_by_id_via_transaction(id: i32, executor: ExecutionContext) -> (first:
        ResolutionStep)
        ensures
            first@ == start_via_transaction(id, Target::Page, executor),
    {
        Resolution::via_transaction(id, Target::Page, executor)
    }
}

} // verus!

//! The resolution of one identifier, from the master row to the envelope.

use vstd::prelude::*;
use crate::alias::{alias_text, format_alias};
use crate::comment::{comment_outcome, to_comment};
use crate::context::{follow_link, walk_step, ContextWalk, ContextWalkView, WalkStep, WalkStepView};
use crate::discriminator::{kind_of, Discriminator};
use crate::error::{
    primary_row_error, resolved, StoreFailure, StoreFailureView, UuidError, UuidErrorView,
};
use crate::page::{page_outcome, to_page};
use crate::store::{CommentLink, CommentRow, CommentRowView, Query, Reply, ReplyView, UuidRow, UuidRowView};
use crate::transaction::{finish, opened, opens_transaction, settle, settled, ExecutionContext, Step, StepView};
use crate::uuid::{ConcreteUuid, ConcreteUuidView, Uuid, UuidView};

verus! {

/// Where a resolution enters: at the master table, or at one kind's own
/// tables.
#[derive(Clone, Copy, Debug, PartialEq, Eq, Structural)]
pub enum Target {
    /// Any identifier: its kind is looked up first.
    Uuid,
    /// An identifier known to be a comment's.
    Comment,
    /// An identifier known to be a page's.
    Page,
}

/// A resolution in progress.
#[derive(Debug)]
pub struct Resolution {
    id: i32,
    owned: bool,
    phase: Phase,
}

#[derive(Debug)]
enum Phase {
    Opening(Target),
    Lookup,
    CommentBundle,
    CommentContext { row: CommentRow, children: Vec<i32>, walk: ContextWalk },
    PageBundle,
    Closing(Result<Uuid, UuidError>),
}

pub struct ResolutionView {
    /// The identifier that is resolved.
    pub id: i32,
    /// Whether the machine has opened a transaction of its own.
    pub owned: bool,
    pub phase: PhaseView,
}

pub enum PhaseView {
    /// The begin is out; its acknowledgement is awaited.
    Opening(Target),
    /// The master row is awaited.
    Lookup,
    /// The comment's row and children are awaited.
    CommentBundle,
    /// Row and children are in; the context walk is under way.
    CommentContext { row: CommentRowView, children: Seq<i32>, walk: ContextWalkView },
    /// The page's row and revisions are awaited.
    PageBundle,
    /// The outcome is known; the end of the transaction is awaited.
    Closing(Result<UuidView, UuidErrorView>),
}

impl View for Resolution {
    type V = ResolutionView;

    closed spec fn view(&self) -> ResolutionView {
        ResolutionView {
            id: self.id,
            owned: self.owned,
            phase: match self.phase {
                Phase::Opening(target) => PhaseView::Opening(target),
                Phase::Lookup => PhaseView::Lookup,
                Phase::CommentBundle => PhaseView::CommentBundle,
                Phase::CommentContext { row, children, walk } => PhaseView::CommentContext {
                    row: row@,
                    children: children@,
                    walk: walk@,
                },
                Phase::PageBundle => PhaseView::PageBundle,
                Phase::Closing(Ok(uuid)) => PhaseView::Closing(Ok(uuid@)),
                Phase::Closing(Err(error)) => PhaseView::Closing(Err(error@)),
            },
        }
    }
}

/// What a resolution wants next.
pub type ResolutionStep = Step<Resolution, Uuid>;

pub type ResolutionStepView = StepView<ResolutionView, UuidView>;

impl View for Step<Resolution, Uuid> {
    type V = ResolutionStepView;

    open spec fn view(&self) -> ResolutionStepView {
        match self {
            Step::Begin(machine) => StepView::Begin(machine@),
            Step::Fetch(machine, query) => StepView::Fetch(machine@, *query),
            Step::Commit(machine) => StepView::Commit(machine@),
            Step::Rollback(machine) => StepView::Rollback(machine@),
            Step::Done(Ok(uuid)) => StepView::Done(Ok(uuid@)),
            Step::Done(Err(error)) => StepView::Done(Err(error@)),
        }
    }
}

/// The first fetch for a target.
pub open spec fn first_fetch(id: i32, owned: bool, target: Target) -> ResolutionStepView {
    match target {
        Target::Uuid => StepView::Fetch(
            ResolutionView { id, owned, phase: PhaseView::Lookup },
            Query::Discriminator { id },
        ),
        Target::Comment => StepView::Fetch(
            ResolutionView { id, owned, phase: PhaseView::CommentBundle },
            Query::Comment { id },
        ),
        Target::Page => StepView::Fetch(
            ResolutionView { id, owned, phase: PhaseView::PageBundle },
            Query::Page { id },
        ),
    }
}

/// How a resolution ends with `outcome`.
pub open spec fn close(id: i32, owned: bool, outcome: Result<UuidView, UuidErrorView>) -> ResolutionStepView {
    finish(owned, ResolutionView { id, owned, phase: PhaseView::Closing(outcome) }, outcome)
}

/// The envelope of a kind that keeps nothing beyond the master row.
pub open spec fn plain_envelope(id: i32, trashed: bool, concrete: ConcreteUuidView) -> UuidView {
    UuidView { id, trashed, alias: alias_text(None, id as int, None), concrete }
}

/// What follows the master row: an unknown tag ends the resolution with
/// `InvalidDiscriminator`; comments and pages go on to their own fetches;
/// every other kind is resolved from the master row alone.
pub open spec fn dispatch(id: i32, owned: bool, row: UuidRowView) -> ResolutionStepView {
    match kind_of(row.discriminator) {
        None => close(id, owned, Err(UuidErrorView::InvalidDiscriminator)),
        Some(kind) => match kind {
            Discriminator::Comment => first_fetch(id, owned, Target::Comment),
            Discriminator::Page => first_fetch(id, owned, Target::Page),
            Discriminator::Attachment => close(
                id,
                owned,
                Ok(plain_envelope(id, row.trashed, ConcreteUuidView::Attachment)),
            ),
            Discriminator::BlogPost => close(
                id,
                owned,
                Ok(plain_envelope(id, row.trashed, ConcreteUuidView::BlogPost)),
            ),
            Discriminator::Entity => close(
                id,
                owned,
                Ok(plain_envelope(id, row.trashed, ConcreteUuidView::Entity)),
            ),
            Discriminator::EntityRevision => close(
                id,
                owned,
                Ok(plain_envelope(id, row.trashed, ConcreteUuidView::EntityRevision)),
            ),
            Discriminator::PageRevision => close(
                id,
                owned,
                Ok(plain_envelope(id, row.trashed, ConcreteUuidView::PageRevision)),
            ),
            Discriminator::TaxonomyTerm => close(
                id,
                owned,
                Ok(plain_envelope(id, row.trashed, ConcreteUuidView::TaxonomyTerm)),
            ),
            Discriminator::User => close(
                id,
                owned,
                Ok(plain_envelope(id, row.trashed, ConcreteUuidView::User)),
            ),
        },
    }
}

/// The links that a comment's own row holds.
pub open spec fn link_of(row: CommentRowView) -> CommentLink {
    CommentLink { uuid_id: row.uuid_id, parent_id: row.parent_id }
}

/// How a comment's resolution goes on after a step of its context walk.
pub open spec fn with_context(
    id: i32,
    owned: bool,
    row: CommentRowView,
    children: Seq<i32>,
    step: WalkStepView,
) -> ResolutionStepView {
    match step {
        WalkStepView::Fetch(walk, query) => StepView::Fetch(
            ResolutionView { id, owned, phase: PhaseView::CommentContext { row, children, walk } },
            query,
        ),
        WalkStepView::Done(context) => close(
            id,
            owned,
            comment_outcome(id, Ok(row), Ok(children), context),
        ),
    }
}

/// One step of a resolution.
///
/// A reply that does not answer the query asked ends the resolution with a
/// store error. Whatever ends it, a transaction of its own is ended first.
pub open spec fn resolution_step(machine: ResolutionView, reply: ReplyView) -> ResolutionStepView {
    let id = machine.id;
    let owned = machine.owned;
    let stray = close(id, owned, Err(UuidErrorView::StoreError(StoreFailureView::Protocol)));
    match machine.phase {
        PhaseView::Opening(target) => opened(reply, first_fetch(id, owned, target)),
        PhaseView::Lookup => match reply {
            ReplyView::Discriminator(Ok(row)) => dispatch(id, owned, row),
            ReplyView::Discriminator(Err(failure)) => close(
                id,
                owned,
                Err(primary_row_error(failure)),
            ),
            _ => stray,
        },
        PhaseView::CommentBundle => match reply {
            ReplyView::Comment { comment: Ok(row), children: Ok(children) } => with_context(
                id,
                owned,
                row,
                children,
                follow_link(0, link_of(row)),
            ),
            ReplyView::Comment { comment, children } => close(
                id,
                owned,
                comment_outcome(id, comment, children, Ok(None)),
            ),
            _ => stray,
        },
        PhaseView::CommentContext { row, children, walk } => with_context(
            id,
            owned,
            row,
            children,
            walk_step(walk, reply),
        ),
        PhaseView::PageBundle => match reply {
            ReplyView::Page { page, revisions } => close(
                id,
                owned,
                page_outcome(id, page, revisions),
            ),
            _ => stray,
        },
        PhaseView::Closing(outcome) => StepView::Done(settle(outcome, reply)),
    }
}

/// The first step of a resolution that runs without a transaction of its own.
pub open spec fn start_on_pool(id: i32, target: Target) -> ResolutionStepView {
    first_fetch(id, false, target)
}

/// The first step of a transactional resolution: on a pool it opens a
/// transaction first, on the caller's transaction it starts at once.
pub open spec fn start_via_transaction(id: i32, target: Target, executor: ExecutionContext) -> ResolutionStepView {
    if opens_transaction(executor) {
        StepView::Begin(ResolutionView { id, owned: true, phase: PhaseView::Opening(target) })
    } else {
        first_fetch(id, false, target)
    }
}

impl Resolution {
    fn first(id: i32, owned: bool, target: Target) -> (next: ResolutionStep)
        ensures
            next@ == first_fetch(id, owned, target),
    {
        match target {
            Target::Uuid => Step::Fetch(
                Resolution { id, owned, phase: Phase::Lookup },
                Query::Discriminator { id },
            ),
            Target::Comment => Step::Fetch(
                Resolution { id, owned, phase: Phase::CommentBundle },
                Query::Comment { id },
            ),
            Target::Page => Step::Fetch(
                Resolution { id, owned, phase: Phase::PageBundle },
                Query::Page { id },
            ),
        }
    }

    fn end(id: i32, owned: bool, outcome: Result<Uuid, UuidError>) -> (next: ResolutionStep)
        ensures
            next@ == close(id, owned, resolved(outcome)),
    {
        if !owned {
            Step::Done(outcome)
        } else if outcome.is_ok() {
            Step::Commit(Resolution { id, owned, phase: Phase::Closing(outcome) })
        } else {
            Step::Rollback(Resolution { id, owned, phase: Phase::Closing(outcome) })
        }
    }

    fn plain(id: i32, owned: bool, trashed: bool, concrete: ConcreteUuid) -> (next: ResolutionStep)
        ensures
            next@ == close(id, owned, Ok(plain_envelope(id, trashed, concrete@))),
    {
        let alias = format_alias(None, id, None);
        Self::end(id, owned, Ok(Uuid { id, trashed, alias, concrete }))
    }

    fn route(id: i32, owned: bool, row: UuidRow) -> (next: ResolutionStep)
        ensures
            next@ == dispatch(id, owned, row@),
    {
        let trashed = row.trashed;
        match Discriminator::decode(row.discriminator.as_str()) {
            Err(error) => Self::end(id, owned, Err(error)),
            Ok(kind) => match kind {
                Discriminator::Comment => Self::first(id, owned, Target::Comment),
                Discriminator::Page => Self::first(id, owned, Target::Page),
                Discriminator::Attachment => Self::plain(id, owned, trashed, ConcreteUuid::Attachment),
                Discriminator::BlogPost => Self::plain(id, owned, trashed, ConcreteUuid::BlogPost),
                Discriminator::Entity => Self::plain(id, owned, trashed, ConcreteUuid::Entity),
                Discriminator::EntityRevision => Self::plain(
                    id,
                    owned,
                    trashed,
                    ConcreteUuid::EntityRevision,
                ),
                Discriminator::PageRevision => Self::plain(
                    id,
                    owned,
                    trashed,
                    ConcreteUuid::PageRevision,
                ),
                Discriminator::TaxonomyTerm => Self::plain(
                    id,
                    owned,
                    trashed,
                    ConcreteUuid::TaxonomyTerm,
                ),
                Discriminator::User => Self::plain(id, owned, trashed, ConcreteUuid::User),
            },
        }
    }

    fn carry(id: i32, owned: bool, row: CommentRow, children: Vec<i32>, step: WalkStep) -> (next:
        ResolutionStep)
        ensures
            next@ == with_context(id, owned, row@, children@, step@),
    {
        match step {
            WalkStep::Fetch(walk, query) => Step::Fetch(
                Resolution { id, owned, phase: Phase::CommentContext { row, children, walk } },
                query,
            ),
            WalkStep::Done(context) => Self::end(
                id,
                owned,
                to_comment(id, Ok(row), Ok(children), context),
            ),
        }
    }

    /// Starts a resolution on a pool, without a transaction.
    pub fn on_pool(id: i32, target: Target) -> (first: ResolutionStep)
        ensures
            first@ == start_on_pool(id, target),
    {
        Self::first(id, false, target)
    }

    /// Starts a transactional resolution on `executor`.
    pub fn via_transaction(id: i32, target: Target, executor: ExecutionContext) -> (first:
        ResolutionStep)
        ensures
            first@ == start_via_transaction(id, target, executor),
    {
        if executor.begin() {
            Step::Begin(Resolution { id, owned: true, phase: Phase::Opening(target) })
        } else {
            Self::first(id, false, target)
        }
    }

    /// Takes the reply to what was last asked for.
    pub fn step(self, reply: Reply) -> (next: ResolutionStep)
        ensures
            next@ == resolution_step(self@, reply@),
    {
        let id = self.id;
        let owned = self.owned;
        match self.phase {
            Phase::Opening(target) => match reply {
                Reply::Transaction(Ok(_)) => Self::first(id, owned, target),
                Reply::Transaction(Err(failure)) => Step::Done(Err(UuidError::StoreError(failure))),
                _ => Step::Done(Err(UuidError::StoreError(StoreFailure::Protocol))),
            },
            Phase::Lookup => match reply {
                Reply::Discriminator(Ok(row)) => Self::route(id, owned, row),
                Reply::Discriminator(Err(failure)) => Self::end(
                    id,
                    owned,
                    Err(UuidError::from_primary_row(failure)),
                ),
                _ => Self::end(id, owned, Err(UuidError::StoreError(StoreFailure::Protocol))),
            },
            Phase::CommentBundle => match reply {
                Reply::Comment { comment: Ok(row), children: Ok(children) } => {
                    let link = CommentLink { uuid_id: row.uuid_id, parent_id: row.parent_id };
                    Self::carry(id, owned, row, children, ContextWalk::from_link(link))
                },
                Reply::Comment { comment, children } => Self::end(
                    id,
                    owned,
                    to_comment(id, comment, children, Ok(None)),
                ),
                _ => Self::end(id, owned, Err(UuidError::StoreError(StoreFailure::Protocol))),
            },
            Phase::CommentContext { row, children, walk } => Self::carry(
                id,
                owned,
                row,
                children,
                walk.step(reply),
            ),
            Phase::PageBundle => match reply {
                Reply::Page { page, revisions } => Self::end(id, owned, to_page(id, page, revisions)),
                _ => Self::end(id, owned, Err(UuidError::StoreError(StoreFailure::Protocol))),
            },
            Phase::Closing(outcome) => Step::Done(settled(outcome, reply)),
        }
    }
}

/// Starts the resolution of any identifier on `context`: on the pool without
/// a transaction, or on the transaction that the caller has open. Either way
/// the same queries are asked and the same outcome is reached.
pub fn resolve(id: i32, context: ExecutionContext) -> (first: ResolutionStep)
    ensures
        first@ == start_on_pool(id, Target::Uuid),
{
    match context {
        ExecutionContext::Pool => Uuid::fetch(id),
        ExecutionContext::Transaction => Uuid::fetch_via_transaction(id, context),
    }
}

} // verus!

//! The context of a comment: the path of slugs above the record that its
//! thread is attached to.
//!
//! The walk has two legs. It first looks for the anchor: the record that the
//! comment, or the nearest comment above it, is attached to. It then climbs
//! from the anchor through its ancestors and collects their slugs.

use vstd::prelude::*;
use vstd::string::*;
use crate::alias::owned_text_of;
use crate::error::{primary_row_error, StoreFailure, StoreFailureView, UuidError, UuidErrorView};
use crate::store::{CommentLink, Query, Reply, ReplyView};
use crate::transaction::{finish, opened, opens_transaction, settle, settled, ExecutionContext, Step, StepView};

verus! {

/// The number of links a walk follows before it takes the chain for a cycle.
pub const MAX_DEPTH: u32 = 64;

/// A walk in progress. It waits for the reply to the query it last handed
/// out.
#[derive(Debug)]
pub struct ContextWalk {
    climbing: bool,
    hops: u32,
    path: Option<String>,
}

pub struct ContextWalkView {
    /// False while the anchor is looked for, true while ancestors are climbed.
    pub climbing: bool,
    /// The number of links followed so far.
    pub hops: nat,
    /// The slugs collected so far, outermost first, joined by slashes.
    pub path: Option<Seq<char>>,
}

impl View for ContextWalk {
    type V = ContextWalkView;

    closed spec fn view(&self) -> ContextWalkView {
        ContextWalkView {
            climbing: self.climbing,
            hops: self.hops as nat,
            path: owned_text_of(self.path),
        }
    }
}

/// What a walk wants next: another fetch, or nothing more.
#[derive(Debug)]
pub enum WalkStep {
    Fetch(ContextWalk, Query),
    Done(Result<Option<String>, UuidError>),
}

pub enum WalkStepView {
    Fetch(ContextWalkView, Query),
    Done(Result<Option<Seq<char>>, UuidErrorView>),
}

impl View for WalkStep {
    type V = WalkStepView;

    open spec fn view(&self) -> WalkStepView {
        match self {
            WalkStep::Fetch(walk, query) => WalkStepView::Fetch(walk@, *query),
            WalkStep::Done(Ok(path)) => WalkStepView::Done(Ok(owned_text_of(*path))),
            WalkStep::Done(Err(error)) => WalkStepView::Done(Err(error@)),
        }
    }
}

/// A path with one more slug in front.
pub open spec fn extend(slug: Seq<char>, path: Option<Seq<char>>) -> Seq<char> {
    match path {
        Some(rest) => slug + seq!['/'] + rest,
        None => slug,
    }
}

/// The cycle guard's verdict.
pub open spec fn too_deep() -> WalkStepView {
    WalkStepView::Done(Err(UuidErrorView::StoreError(StoreFailureView::Cycle)))
}

/// Where a search goes from the links of one comment: to the anchor if the
/// comment has one, else to its parent comment. A comment with neither
/// hangs on nothing, and the search ends with `NotFound`.
pub open spec fn follow_link(hops: nat, link: CommentLink) -> WalkStepView {
    match link.uuid_id {
        Some(anchor) => if hops < MAX_DEPTH {
            WalkStepView::Fetch(
                ContextWalkView { climbing: true, hops: hops + 1, path: None },
                Query::Ancestor { id: anchor },
            )
        } else {
            too_deep()
        },
        None => match link.parent_id {
            Some(parent) => if hops < MAX_DEPTH {
                WalkStepView::Fetch(
                    ContextWalkView { climbing: false, hops: hops + 1, path: None },
                    Query::CommentLink { id: parent },
                )
            } else {
                too_deep()
            },
            None => WalkStepView::Done(Err(UuidErrorView::NotFound)),
        },
    }
}

/// One step of a walk.
///
/// While searching, the links of the comment asked for decide; a missing
/// comment is `NotFound`. While climbing, each node puts its slug in front of
/// the path, and the walk ends at a node without a parent, or at one that
/// the store does not know, with the path collected so far. A store failure
/// ends the walk, and so does a reply to another query.
pub open spec fn walk_step(walk: ContextWalkView, reply: ReplyView) -> WalkStepView {
    if !walk.climbing {
        match reply {
            ReplyView::CommentLink(Ok(link)) => follow_link(walk.hops, link),
            ReplyView::CommentLink(Err(failure)) => WalkStepView::Done(
                Err(primary_row_error(failure)),
            ),
            _ => WalkStepView::Done(Err(UuidErrorView::StoreError(StoreFailureView::Protocol))),
        }
    } else {
        match reply {
            ReplyView::Ancestor(Ok(node)) => match node.parent_id {
                Some(parent) => if walk.hops < MAX_DEPTH {
                    WalkStepView::Fetch(
                        ContextWalkView {
                            climbing: true,
                            hops: walk.hops + 1,
                            path: Some(extend(node.slug, walk.path)),
                        },
                        Query::Ancestor { id: parent },
                    )
                } else {
                    too_deep()
                },
                None => WalkStepView::Done(Ok(Some(extend(node.slug, walk.path)))),
            },
            ReplyView::Ancestor(Err(StoreFailureView::RowNotFound)) => WalkStepView::Done(
                Ok(walk.path),
            ),
            ReplyView::Ancestor(Err(failure)) => WalkStepView::Done(
                Err(UuidErrorView::StoreError(failure)),
            ),
            _ => WalkStepView::Done(Err(UuidErrorView::StoreError(StoreFailureView::Protocol))),
        }
    }
}

/// The first step of a walk for the comment `id`: it asks for the comment's
/// links.
pub open spec fn walk_start(id: i32) -> WalkStepView {
    WalkStepView::Fetch(
        ContextWalkView { climbing: false, hops: 0, path: None },
        Query::CommentLink { id },
    )
}

fn put_in_front(slug: String, path: Option<String>) -> (longer: String)
    ensures
        longer@ == extend(slug@, owned_text_of(path)),
{
    match path {
        Some(rest) => {
            let mut longer = slug;
            longer.push('/');
            longer.append(rest.as_str());
            longer
        },
        None => slug,
    }
}

impl ContextWalk {
    /// Starts a walk for the comment `id`.
    pub fn start(id: i32) -> (step: WalkStep)
        ensures
            step@ == walk_start(id),
    {
        WalkStep::Fetch(
            ContextWalk { climbing: false, hops: 0, path: None },
            Query::CommentLink { id },
        )
    }

    /// Starts a walk from links already at hand.
    pub fn from_link(link: CommentLink) -> (step: WalkStep)
        ensures
            step@ == follow_link(0, link),
    {
        Self::follow(0, link)
    }

    fn follow(hops: u32, link: CommentLink) -> (step: WalkStep)
        ensures
            step@ == follow_link(hops as nat, link),
    {
        match link.uuid_id {
            Some(anchor) => {
                if hops < MAX_DEPTH {
                    WalkStep::Fetch(
                        ContextWalk { climbing: true, hops: hops + 1, path: None },
                        Query::Ancestor { id: anchor },
                    )
                } else {
                    WalkStep::Done(Err(UuidError::StoreError(StoreFailure::Cycle)))
                }
            },
            None => match link.parent_id {
                Some(parent) => {
                    if hops < MAX_DEPTH {
                        WalkStep::Fetch(
                            ContextWalk { climbing: false, hops: hops + 1, path: None },
                            Query::CommentLink { id: parent },
                        )
                    } else {
                        WalkStep::Done(Err(UuidError::StoreError(StoreFailure::Cycle)))
                    }
                },
                None => WalkStep::Done(Err(UuidError::NotFound)),
            },
        }
    }

    /// Takes the reply to the query last handed out.
    pub fn step(self, reply: Reply) -> (step: WalkStep)
        ensures
            step@ == walk_step(self@, reply@),
    {
        let hops = self.hops;
        if !self.climbing {
            match reply {
                Reply::CommentLink(Ok(link)) => Self::follow(hops, link),
                Reply::CommentLink(Err(failure)) => WalkStep::Done(
                    Err(UuidError::from_primary_row(failure)),
                ),
                _ => WalkStep::Done(Err(UuidError::StoreError(StoreFailure::Protocol))),
            }
        } else {
            match reply {
                Reply::Ancestor(Ok(node)) => {
                    let longer = put_in_front(node.slug, self.path);
                    match node.parent_id {
                        Some(parent) => {
                            if hops < MAX_DEPTH {
                                WalkStep::Fetch(
                                    ContextWalk {
                                        climbing: true,
                                        hops: hops + 1,
                                        path: Some(longer),
                                    },
                                    Query::Ancestor { id: parent },
                                )
                            } else {
                                WalkStep::Done(Err(UuidError::StoreError(StoreFailure::Cycle)))
                            }
                        },
                        None => WalkStep::Done(Ok(Some(longer))),
                    }
                },
                Reply::Ancestor(Err(StoreFailure::RowNotFound)) => WalkStep::Done(Ok(self.path)),
                Reply::Ancestor(Err(failure)) => WalkStep::Done(
                    Err(UuidError::StoreError(failure)),
                ),
                _ => WalkStep::Done(Err(UuidError::StoreError(StoreFailure::Protocol))),
            }
        }
    }
}

/// A context walk together with the transaction it runs in.
#[derive(Debug)]
pub struct ContextResolution {
    id: i32,
    owned: bool,
    phase: ContextPhase,
}

#[derive(Debug)]
enum ContextPhase {
    Opening,
    Walking(ContextWalk),
    Closing(Result<Option<String>, UuidError>),
}

pub struct ContextResolutionView {
    /// The comment whose context is looked for.
    pub id: i32,
    /// Whether the machine has opened a transaction of its own.
    pub owned: bool,
    pub phase: ContextPhaseView,
}

pub enum ContextPhaseView {
    /// The begin is out; its acknowledgement is awaited.
    Opening,
    /// The walk is under way.
    Walking(ContextWalkView),
    /// The outcome is known; the end of the transaction is awaited.
    Closing(Result<Option<Seq<char>>, UuidErrorView>),
}

impl View for ContextResolution {
    type V = ContextResolutionView;

    closed spec fn view(&self) -> ContextResolutionView {
        ContextResolutionView {
            id: self.id,
            owned: self.owned,
            phase: match self.phase {
                ContextPhase::Opening => ContextPhaseView::Opening,
                ContextPhase::Walking(walk) => ContextPhaseView::Walking(walk@),
                ContextPhase::Closing(Ok(path)) => ContextPhaseView::Closing(
                    Ok(owned_text_of(path)),
                ),
                ContextPhase::Closing(Err(error)) => ContextPhaseView::Closing(Err(error@)),
            },
        }
    }
}

/// What a context resolution wants next.
pub type ContextStep = Step<ContextResolution, Option<String>>;

pub type ContextStepView = StepView<ContextResolutionView, Option<Seq<char>>>;

impl View for Step<ContextResolution, Option<String>> {
    type V = ContextStepView;

    open spec fn view(&self) -> ContextStepView {
        match self {
            Step::Begin(machine) => StepView::Begin(machine@),
            Step::Fetch(machine, query) => StepView::Fetch(machine@, *query),
            Step::Commit(machine) => StepView::Commit(machine@),
            Step::Rollback(machine) => StepView::Rollback(machine@),
            Step::Done(Ok(path)) => StepView::Done(Ok(owned_text_of(*path))),
            Step::Done(Err(error)) => StepView::Done(Err(error@)),
        }
    }
}

/// How a context resolution goes on after a step of its walk: it passes a
/// fetch on, and ends once the walk is done.
pub open spec fn context_advance(id: i32, owned: bool, step: WalkStepView) -> ContextStepView {
    match step {
        WalkStepView::Fetch(walk, query) => StepView::Fetch(
            ContextResolutionView { id, owned, phase: ContextPhaseView::Walking(walk) },
            query,
        ),
        WalkStepView::Done(outcome) => finish(
            owned,
            ContextResolutionView { id, owned, phase: ContextPhaseView::Closing(outcome) },
            outcome,
        ),
    }
}

/// One step of a context resolution.
pub open spec fn context_step(machine: ContextResolutionView, reply: ReplyView) -> ContextStepView {
    match machine.phase {
        ContextPhaseView::Opening => opened(
            reply,
            context_advance(machine.id, machine.owned, walk_start(machine.id)),
        ),
        ContextPhaseView::Walking(walk) => context_advance(
            machine.id,
            machine.owned,
            walk_step(walk, reply),
        ),
        ContextPhaseView::Closing(outcome) => StepView::Done(settle(outcome, reply)),
    }
}

/// The first step of a context resolution that runs without a transaction of
/// its own, on a pool or on the caller's transaction.
pub open spec fn context_on_pool(id: i32) -> ContextStepView {
    context_advance(id, false, walk_start(id))
}

/// The first step of a transactional context resolution: on a pool it opens a
/// transaction first, on the caller's transaction it starts at once.
pub open spec fn context_via_transaction(id: i32, executor: ExecutionContext) -> ContextStepView {
    if opens_transaction(executor) {
        StepView::Begin(
            ContextResolutionView { id, owned: true, phase: ContextPhaseView::Opening },
        )
    } else {
        context_on_pool(id)
    }
}

impl ContextResolution {
    fn advance(id: i32, owned: bool, step: WalkStep) -> (next: ContextStep)
        ensures
            next@ == context_advance(id, owned, step@),
    {
        match step {
            WalkStep::Fetch(walk, query) => Step::Fetch(
                ContextResolution { id, owned, phase: ContextPhase::Walking(walk) },
                query,
            ),
            WalkStep::Done(outcome) => {
                if !owned {
                    Step::Done(outcome)
                } else if outcome.is_ok() {
                    Step::Commit(
                        ContextResolution { id, owned, phase: ContextPhase::Closing(outcome) },
                    )
                } else {
                    Step::Rollback(
                        ContextResolution { id, owned, phase: ContextPhase::Closing(outcome) },
                    )
                }
            },
        }
    }

    /// Starts a context resolution on a pool, without a transaction.
    pub fn on_pool(id: i32) -> (first: ContextStep)
        ensures
            first@ == context_on_pool(id),
    {
        Self::advance(id, false, ContextWalk::start(id))
    }

    /// Starts a transactional context resolution on `executor`.
    pub fn via_transaction(id: i32, executor: ExecutionContext) -> (first: ContextStep)
        ensures
            first@ == context_via_transaction(id, executor),
    {
        if executor.begin() {
            Step::Begin(ContextResolution { id, owned: true, phase: ContextPhase::Opening })
        } else {
            Self::on_pool(id)
        }
    }

    /// Takes the reply to what was last asked for.
    pub fn step(self, reply: Reply) -> (next: ContextStep)
        ensures
            next@ == context_step(self@, reply@),
    {
        let id = self.id;
        let owned = self.owned;
        match self.phase {
            ContextPhase::Opening => match reply {
                Reply::Transaction(Ok(_)) => Self::advance(id, owned, ContextWalk::start(id)),
                Reply::Transaction(Err(failure)) => Step::Done(Err(UuidError::StoreError(failure))),
                _ => Step::Done(Err(UuidError::StoreError(StoreFailure::Protocol))),
            },
            ContextPhase::Walking(walk) => Self::advance(id, owned, walk.step(reply)),
            ContextPhase::Closing(outcome) => Step::Done(settled(outcome, reply)),
        }
    }
}

} // verus!

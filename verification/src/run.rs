//! Whole runs of a resolution against a store in a fixed state: one that
//! answers each query the same way every time it is asked, and acknowledges
//! every begin, commit and rollback.

use vstd::prelude::*;
use crate::comment::comment_outcome;
use crate::context::{
    context_advance, context_on_pool, context_step, context_via_transaction, follow_link,
    walk_start, walk_step, ContextStepView, WalkStepView, MAX_DEPTH,
};
use crate::discriminator::{kind_of, Discriminator};
use crate::engine::{
    close, dispatch, first_fetch, link_of, resolution_step, start_on_pool, start_via_transaction,
    with_context, PhaseView, ResolutionStepView, ResolutionView, Target,
};
use crate::error::{StoreFailureView, UuidErrorView};
use crate::page::page_outcome;
use crate::store::{CommentRowView, PageRowView, Query, ReplyView, RevisionRowView, UuidRowView};
use crate::transaction::{ExecutionContext, StepView};
use crate::uuid::{kind_of_record, ConcreteUuidView, UuidView};

verus! {

/// The acknowledgement of a begin, a commit or a rollback that went through.
pub open spec fn acknowledged() -> ReplyView {
    ReplyView::Transaction(Ok(()))
}

/// The outcome of driving a resolution from `step` against `store`, if it is
/// reached within `fuel` steps.
pub open spec fn resolution_run(
    store: spec_fn(Query) -> ReplyView,
    step: ResolutionStepView,
    fuel: nat,
) -> Option<Result<UuidView, UuidErrorView>>
    decreases fuel,
{
    match step {
        StepView::Done(outcome) => Some(outcome),
        StepView::Fetch(machine, query) => if fuel == 0 {
            None
        } else {
            resolution_run(store, resolution_step(machine, store(query)), (fuel - 1) as nat)
        },
        StepView::Begin(machine) | StepView::Commit(machine) | StepView::Rollback(machine) => if fuel
            == 0 {
            None
        } else {
            resolution_run(store, resolution_step(machine, acknowledged()), (fuel - 1) as nat)
        },
    }
}

/// The steps that a machine in this phase can still take, at most.
pub open spec fn steps_left(machine: ResolutionView) -> nat {
    let closing: nat = if machine.owned {
        1
    } else {
        0
    };
    match machine.phase {
        PhaseView::Opening(_) => MAX_DEPTH as nat + 4 + closing,
        PhaseView::Lookup => MAX_DEPTH as nat + 3 + closing,
        PhaseView::CommentBundle => MAX_DEPTH as nat + 2 + closing,
        PhaseView::CommentContext { walk, .. } => if walk.hops < MAX_DEPTH {
            (MAX_DEPTH - walk.hops + 1 + closing) as nat
        } else {
            1 + closing
        },
        PhaseView::PageBundle => 1 + closing,
        PhaseView::Closing(_) => 1,
    }
}

/// The steps that are still to come once `step` has been handed out, at most.
pub open spec fn steps_after(step: ResolutionStepView) -> nat {
    match step {
        StepView::Done(_) => 0,
        StepView::Fetch(machine, _) => steps_left(machine),
        StepView::Begin(machine) => steps_left(machine),
        StepView::Commit(machine) => steps_left(machine),
        StepView::Rollback(machine) => steps_left(machine),
    }
}

/// Every step brings a resolution closer to its end.
pub proof fn lemma_step_progress(machine: ResolutionView, reply: ReplyView)
    ensures
        steps_after(resolution_step(machine, reply)) < steps_left(machine),
{
}

/// A resolution ends: whatever the store answers, the outcome is reached
/// within the steps that are left.
pub proof fn lemma_run_ends(store: spec_fn(Query) -> ReplyView, step: ResolutionStepView, fuel: nat)
    requires
        fuel >= steps_after(step),
    ensures
        resolution_run(store, step, fuel) is Some,
    decreases fuel,
{
    match step {
        StepView::Done(_) => {},
        StepView::Fetch(machine, query) => {
            lemma_step_progress(machine, store(query));
            lemma_run_ends(store, resolution_step(machine, store(query)), (fuel - 1) as nat);
        },
        StepView::Begin(machine) | StepView::Commit(machine) | StepView::Rollback(machine) => {
            lemma_step_progress(machine, acknowledged());
            lemma_run_ends(store, resolution_step(machine, acknowledged()), (fuel - 1) as nat);
        },
    }
}

/// More fuel than a run needs changes nothing.
pub proof fn lemma_run_stable(
    store: spec_fn(Query) -> ReplyView,
    step: ResolutionStepView,
    fuel: nat,
    more: nat,
)
    requires
        resolution_run(store, step, fuel) is Some,
        more >= fuel,
    ensures
        resolution_run(store, step, more) == resolution_run(store, step, fuel),
    decreases fuel,
{
    match step {
        StepView::Done(_) => {},
        StepView::Fetch(machine, query) => {
            lemma_run_stable(
                store,
                resolution_step(machine, store(query)),
                (fuel - 1) as nat,
                (more - 1) as nat,
            );
        },
        StepView::Begin(machine) | StepView::Commit(machine) | StepView::Rollback(machine) => {
            lemma_run_stable(
                store,
                resolution_step(machine, acknowledged()),
                (fuel - 1) as nat,
                (more - 1) as nat,
            );
        },
    }
}

/// The same machine, with a transaction of its own.
pub open spec fn owning(machine: ResolutionView) -> ResolutionView {
    ResolutionView { id: machine.id, owned: true, phase: machine.phase }
}

/// Whether the machine is between the begin and the end of its work: it
/// waits for the reply to a fetch.
pub open spec fn in_flight(machine: ResolutionView) -> bool {
    !(machine.phase is Opening) && !(machine.phase is Closing)
}

/// A machine with a transaction of its own asks what the same machine
/// without one asks, and where that one is done, it ends its transaction:
/// with a commit after a success, with a rollback after a failure.
pub proof fn lemma_step_in_transaction(machine: ResolutionView, reply: ReplyView)
    requires
        !machine.owned,
        in_flight(machine),
    ensures
        match resolution_step(machine, reply) {
            StepView::Fetch(next, query) => !next.owned && in_flight(next) && resolution_step(
                owning(machine),
                reply,
            ) == StepView::<ResolutionView, UuidView>::Fetch(owning(next), query),
            StepView::Done(outcome) => resolution_step(owning(machine), reply) == close(
                machine.id,
                true,
                outcome,
            ),
            _ => false,
        },
{
}

proof fn lemma_run_in_transaction(
    store: spec_fn(Query) -> ReplyView,
    machine: ResolutionView,
    query: Query,
    fuel: nat,
)
    requires
        !machine.owned,
        in_flight(machine),
        resolution_run(store, StepView::Fetch(machine, query), fuel) is Some,
    ensures
        resolution_run(store, StepView::Fetch(owning(machine), query), fuel + 1) == resolution_run(
            store,
            StepView::Fetch(machine, query),
            fuel,
        ),
    decreases fuel,
{
    let reply = store(query);
    lemma_step_in_transaction(machine, reply);
    match resolution_step(machine, reply) {
        StepView::Fetch(next, asked) => {
            lemma_run_in_transaction(store, next, asked, (fuel - 1) as nat);
        },
        StepView::Done(outcome) => {
            let closing = close(machine.id, true, outcome);
            assert(resolution_run(store, closing, fuel) == Some(outcome)) by {
                reveal_with_fuel(resolution_run, 2);
            }
        },
        _ => {},
    }
}

/// Where a resolution runs does not change what it finds. On the caller's
/// transaction it takes the very steps it takes on the pool; in a transaction
/// of its own it takes two more, the begin and the end, and reaches the same
/// outcome.
pub proof fn lemma_same_outcome_in_every_mode(
    store: spec_fn(Query) -> ReplyView,
    id: i32,
    target: Target,
    fuel: nat,
)
    requires
        resolution_run(store, start_on_pool(id, target), fuel) is Some,
    ensures
        start_via_transaction(id, target, ExecutionContext::Transaction) == start_on_pool(
            id,
            target,
        ),
        resolution_run(
            store,
            start_via_transaction(id, target, ExecutionContext::Pool),
            fuel + 2,
        ) == resolution_run(store, start_on_pool(id, target), fuel),
{
    let pooled = start_on_pool(id, target);
    match pooled {
        StepView::Fetch(machine, query) => {
            lemma_run_in_transaction(store, machine, query, fuel);
            assert(first_fetch(id, true, target) == StepView::<
                ResolutionView,
                UuidView,
            >::Fetch(owning(machine), query));
            assert(resolution_run(
                store,
                start_via_transaction(id, target, ExecutionContext::Pool),
                fuel + 2,
            ) == resolution_run(store, first_fetch(id, true, target), fuel + 1)) by {
                reveal_with_fuel(resolution_run, 2);
            }
        },
        _ => {},
    }
}

/// An identifier that the master table does not hold resolves to `NotFound`,
/// and no other table is asked: the step after the lookup ends the
/// resolution.
pub proof fn lemma_absent_is_not_found(store: spec_fn(Query) -> ReplyView, id: i32, fuel: nat)
    requires
        store(Query::Discriminator { id }) == ReplyView::Discriminator(
            Err(StoreFailureView::RowNotFound),
        ),
        fuel >= 1,
    ensures
        resolution_run(store, start_on_pool(id, Target::Uuid), fuel) == Some(
            Err::<UuidView, UuidErrorView>(UuidErrorView::NotFound),
        ),
        resolution_run(
            store,
            start_via_transaction(id, Target::Uuid, ExecutionContext::Pool),
            fuel + 2,
        ) == Some(Err::<UuidView, UuidErrorView>(UuidErrorView::NotFound)),
{
    reveal_with_fuel(resolution_run, 2);
    let pooled = start_on_pool(id, Target::Uuid);
    assert(resolution_run(store, pooled, 1) == Some(
        Err::<UuidView, UuidErrorView>(UuidErrorView::NotFound),
    ));
    lemma_run_stable(store, pooled, 1, fuel);
    lemma_same_outcome_in_every_mode(store, id, Target::Uuid, fuel);
}

/// A master row whose tag names no kind resolves to `InvalidDiscriminator`:
/// no kind's tables are asked on the strength of a tag that cannot be read.
pub proof fn lemma_unknown_tag_is_invalid(
    store: spec_fn(Query) -> ReplyView,
    id: i32,
    fuel: nat,
)
    requires
        store(Query::Discriminator { id }) matches ReplyView::Discriminator(Ok(row)) && kind_of(
            row.discriminator,
        ) is None,
        fuel >= 1,
    ensures
        resolution_run(store, start_on_pool(id, Target::Uuid), fuel) == Some(
            Err::<UuidView, UuidErrorView>(UuidErrorView::InvalidDiscriminator),
        ),
        resolution_run(
            store,
            start_via_transaction(id, Target::Uuid, ExecutionContext::Pool),
            fuel + 2,
        ) == Some(Err::<UuidView, UuidErrorView>(UuidErrorView::InvalidDiscriminator)),
{
    reveal_with_fuel(resolution_run, 2);
    let pooled = start_on_pool(id, Target::Uuid);
    assert(resolution_run(store, pooled, 1) == Some(
        Err::<UuidView, UuidErrorView>(UuidErrorView::InvalidDiscriminator),
    ));
    lemma_run_stable(store, pooled, 1, fuel);
    lemma_same_outcome_in_every_mode(store, id, Target::Uuid, fuel);
}

proof fn lemma_comment_run_gives_comment(
    store: spec_fn(Query) -> ReplyView,
    machine: ResolutionView,
    query: Query,
    fuel: nat,
)
    requires
        !machine.owned,
        machine.phase is CommentBundle || machine.phase is CommentContext,
    ensures
        resolution_run(store, StepView::Fetch(machine, query), fuel) matches Some(Ok(uuid))
            ==> uuid.id == machine.id && uuid.concrete is Comment,
    decreases fuel,
{
    if fuel > 0 {
        match resolution_step(machine, store(query)) {
            StepView::Fetch(next, asked) => {
                lemma_comment_run_gives_comment(store, next, asked, (fuel - 1) as nat);
            },
            _ => {},
        }
    }
}

proof fn lemma_page_run_gives_page(
    store: spec_fn(Query) -> ReplyView,
    machine: ResolutionView,
    query: Query,
    fuel: nat,
)
    requires
        !machine.owned,
        machine.phase is PageBundle,
    ensures
        resolution_run(store, StepView::Fetch(machine, query), fuel) matches Some(Ok(uuid))
            ==> uuid.id == machine.id && uuid.concrete is Page,
{
    reveal_with_fuel(resolution_run, 2);
}

proof fn lemma_run_after_lookup(
    store: spec_fn(Query) -> ReplyView,
    id: i32,
    row: UuidRowView,
    fuel: nat,
    uuid: UuidView,
)
    requires
        resolution_run(store, dispatch(id, false, row), fuel) == Some(
            Ok::<UuidView, UuidErrorView>(uuid),
        ),
    ensures
        uuid.id == id,
        kind_of(row.discriminator) == Some(kind_of_record(uuid.concrete)),
{
    match dispatch(id, false, row) {
        StepView::Fetch(next, asked) => {
            if next.phase is CommentBundle {
                lemma_comment_run_gives_comment(store, next, asked, fuel);
            } else {
                lemma_page_run_gives_page(store, next, asked, fuel);
            }
        },
        _ => {},
    }
}

/// The record in an envelope is of the kind that the master row names, and
/// the envelope bears the identifier that was asked for.
pub proof fn lemma_record_matches_tag(
    store: spec_fn(Query) -> ReplyView,
    id: i32,
    fuel: nat,
    uuid: UuidView,
)
    requires
        resolution_run(store, start_on_pool(id, Target::Uuid), fuel) == Some(
            Ok::<UuidView, UuidErrorView>(uuid),
        ),
    ensures
        uuid.id == id,
        store(Query::Discriminator { id }) matches ReplyView::Discriminator(Ok(row)) && kind_of(
            row.discriminator,
        ) == Some(kind_of_record(uuid.concrete)),
{
    let lookup = ResolutionView { id, owned: false, phase: PhaseView::Lookup };
    let reply = store(Query::Discriminator { id });
    assert(fuel > 0);
    assert(resolution_run(store, start_on_pool(id, Target::Uuid), fuel) == resolution_run(
        store,
        resolution_step(lookup, reply),
        (fuel - 1) as nat,
    ));
    match reply {
        ReplyView::Discriminator(Ok(row)) => {
            lemma_run_after_lookup(store, id, row, (fuel - 1) as nat, uuid);
        },
        _ => {},
    }
}

/// A page without revisions is `NotFound`, and a page that is handed out
/// lists at least one revision.
pub proof fn lemma_page_has_revisions(
    id: i32,
    page: Result<PageRowView, StoreFailureView>,
    revisions: Result<Seq<RevisionRowView>, StoreFailureView>,
)
    ensures
        page is Ok && revisions == Ok::<Seq<RevisionRowView>, StoreFailureView>(
            Seq::empty(),
        ) ==> page_outcome(id, page, revisions) == Err::<UuidView, UuidErrorView>(
            UuidErrorView::NotFound,
        ),
        page_outcome(id, page, revisions) matches Ok(uuid) ==> (uuid.concrete matches ConcreteUuidView::Page(
            record,
        ) && record.revision_ids.len() > 0),
{
}

/// A resolution of a page whose revisions come back empty ends with
/// `NotFound`, on the pool and in a transaction of its own.
pub proof fn lemma_page_without_revisions(
    store: spec_fn(Query) -> ReplyView,
    id: i32,
    fuel: nat,
)
    requires
        store(Query::Discriminator { id }) matches ReplyView::Discriminator(Ok(row)) && kind_of(
            row.discriminator,
        ) == Some(Discriminator::Page),
        store(Query::Page { id }) matches ReplyView::Page { page: Ok(_), revisions: Ok(rows) }
            && rows.len() == 0,
        fuel >= 2,
    ensures
        resolution_run(store, start_on_pool(id, Target::Uuid), fuel) == Some(
            Err::<UuidView, UuidErrorView>(UuidErrorView::NotFound),
        ),
        resolution_run(
            store,
            start_via_transaction(id, Target::Uuid, ExecutionContext::Pool),
            fuel + 2,
        ) == Some(Err::<UuidView, UuidErrorView>(UuidErrorView::NotFound)),
{
    reveal_with_fuel(resolution_run, 3);
    let pooled = start_on_pool(id, Target::Uuid);
    assert(resolution_run(store, pooled, 2) == Some(
        Err::<UuidView, UuidErrorView>(UuidErrorView::NotFound),
    ));
    lemma_run_stable(store, pooled, 2, fuel);
    lemma_same_outcome_in_every_mode(store, id, Target::Uuid, fuel);
}

/// A transaction that a resolution has opened is ended before the resolution
/// is done. While it waits for a reply inside its own transaction, the next
/// step is never `Done` and never a second `Begin`: it is another fetch, a
/// commit that carries a success, or a rollback that carries a failure. The
/// step after the commit or the rollback is `Done`, and a failure is reported
/// as it was, whatever became of the rollback.
pub proof fn lemma_own_transaction_is_ended(machine: ResolutionView, reply: ReplyView)
    requires
        machine.owned,
    ensures
        in_flight(machine) ==> (match resolution_step(machine, reply) {
            StepView::Fetch(next, _) => next.owned && in_flight(next),
            StepView::Commit(next) => next.owned && next.phase matches PhaseView::Closing(Ok(_)),
            StepView::Rollback(next) => next.owned && next.phase matches PhaseView::Closing(Err(_)),
            StepView::Begin(_) => false,
            StepView::Done(_) => false,
        }),
        machine.phase matches PhaseView::Closing(outcome) ==> resolution_step(machine, reply)
            is Done && (outcome is Err ==> resolution_step(machine, reply) == StepView::<
            ResolutionView,
            UuidView,
        >::Done(outcome)),
{
}

/// The outcome of driving a bare context walk from `step` against `store`,
/// if it is reached within `fuel` steps.
pub open spec fn walk_run(store: spec_fn(Query) -> ReplyView, step: WalkStepView, fuel: nat) -> Option<
    Result<Option<Seq<char>>, UuidErrorView>,
>
    decreases fuel,
{
    match step {
        WalkStepView::Done(outcome) => Some(outcome),
        WalkStepView::Fetch(walk, query) => if fuel == 0 {
            None
        } else {
            walk_run(store, walk_step(walk, store(query)), (fuel - 1) as nat)
        },
    }
}

/// The outcome of driving a context resolution from `step` against `store`,
/// if it is reached within `fuel` steps.
pub open spec fn context_run(
    store: spec_fn(Query) -> ReplyView,
    step: ContextStepView,
    fuel: nat,
) -> Option<Result<Option<Seq<char>>, UuidErrorView>>
    decreases fuel,
{
    match step {
        StepView::Done(outcome) => Some(outcome),
        StepView::Fetch(machine, query) => if fuel == 0 {
            None
        } else {
            context_run(store, context_step(machine, store(query)), (fuel - 1) as nat)
        },
        StepView::Begin(machine) | StepView::Commit(machine) | StepView::Rollback(machine) => if fuel
            == 0 {
            None
        } else {
            context_run(store, context_step(machine, acknowledged()), (fuel - 1) as nat)
        },
    }
}

/// The links that a walk can still follow, and the fetch that is out.
pub open spec fn walk_steps_after(step: WalkStepView) -> nat {
    match step {
        WalkStepView::Done(_) => 0,
        WalkStepView::Fetch(walk, _) => if walk.hops < MAX_DEPTH {
            (MAX_DEPTH - walk.hops + 1) as nat
        } else {
            1
        },
    }
}

/// A context walk ends: it asks at most one query more than the depth limit.
pub proof fn lemma_walk_ends(store: spec_fn(Query) -> ReplyView, step: WalkStepView, fuel: nat)
    requires
        fuel >= walk_steps_after(step),
    ensures
        walk_run(store, step, fuel) is Some,
    decreases fuel,
{
    match step {
        WalkStepView::Done(_) => {},
        WalkStepView::Fetch(walk, query) => {
            lemma_walk_ends(store, walk_step(walk, store(query)), (fuel - 1) as nat);
        },
    }
}

/// What a walk's outcome does to a comment's resolution.
pub open spec fn with_outcome(
    id: i32,
    row: CommentRowView,
    children: Seq<i32>,
    context: Option<Result<Option<Seq<char>>, UuidErrorView>>,
) -> Option<Result<UuidView, UuidErrorView>> {
    match context {
        Some(found) => Some(comment_outcome(id, Ok(row), Ok(children), found)),
        None => None,
    }
}

proof fn lemma_resolution_carries_walk(
    store: spec_fn(Query) -> ReplyView,
    id: i32,
    row: CommentRowView,
    children: Seq<i32>,
    step: WalkStepView,
    fuel: nat,
)
    ensures
        resolution_run(store, with_context(id, false, row, children, step), fuel) == with_outcome(
            id,
            row,
            children,
            walk_run(store, step, fuel),
        ),
    decreases fuel,
{
    match step {
        WalkStepView::Done(_) => {},
        WalkStepView::Fetch(walk, query) => {
            if fuel > 0 {
                lemma_resolution_carries_walk(
                    store,
                    id,
                    row,
                    children,
                    walk_step(walk, store(query)),
                    (fuel - 1) as nat,
                );
            }
        },
    }
}

/// A comment whose row and children are fetched resolves to what its rows
/// and the walk from its own links give: the context in the envelope's alias
/// is the one that the walk finds, and a walk that fails fails the
/// resolution.
pub proof fn lemma_comment_resolves_with_its_context(
    store: spec_fn(Query) -> ReplyView,
    id: i32,
    row: CommentRowView,
    children: Seq<i32>,
    fuel: nat,
)
    requires
        store(Query::Comment { id }) == (ReplyView::Comment {
            comment: Ok(row),
            children: Ok(children),
        }),
    ensures
        resolution_run(store, start_on_pool(id, Target::Comment), fuel + 1) == with_outcome(
            id,
            row,
            children,
            walk_run(store, follow_link(0, link_of(row)), fuel),
        ),
{
    lemma_resolution_carries_walk(store, id, row, children, follow_link(0, link_of(row)), fuel);
}

proof fn lemma_context_carries_walk(
    store: spec_fn(Query) -> ReplyView,
    id: i32,
    step: WalkStepView,
    fuel: nat,
)
    ensures
        context_run(store, context_advance(id, false, step), fuel) == walk_run(store, step, fuel),
        walk_run(store, step, fuel) is Some ==> context_run(
            store,
            context_advance(id, true, step),
            fuel + 1,
        ) == walk_run(store, step, fuel),
    decreases fuel,
{
    match step {
        WalkStepView::Done(outcome) => {
            assert(context_run(store, context_advance(id, true, step), fuel + 1) == Some(
                outcome,
            )) by {
                reveal_with_fuel(context_run, 2);
            }
        },
        WalkStepView::Fetch(walk, query) => {
            if fuel > 0 {
                lemma_context_carries_walk(
                    store,
                    id,
                    walk_step(walk, store(query)),
                    (fuel - 1) as nat,
                );
            }
        },
    }
}

/// A context resolution finds what the bare walk finds, wherever it runs: on
/// the pool, on the caller's transaction, or in a transaction of its own,
/// where it takes two steps more.
pub proof fn lemma_same_context_in_every_mode(
    store: spec_fn(Query) -> ReplyView,
    id: i32,
    fuel: nat,
)
    requires
        walk_run(store, walk_start(id), fuel) is Some,
    ensures
        context_run(store, context_on_pool(id), fuel) == walk_run(store, walk_start(id), fuel),
        context_via_transaction(id, ExecutionContext::Transaction) == context_on_pool(id),
        context_run(store, context_via_transaction(id, ExecutionContext::Pool), fuel + 2)
            == walk_run(store, walk_start(id), fuel),
{
    lemma_context_carries_walk(store, id, walk_start(id), fuel);
    assert(context_run(store, context_via_transaction(id, ExecutionContext::Pool), fuel + 2)
        == context_run(store, context_advance(id, true, walk_start(id)), fuel + 1)) by {
        reveal_with_fuel(context_run, 2);
    }
}

} // verus!

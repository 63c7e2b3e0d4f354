//! What holds of a resource across reconciliations: when it carries
//! the controller's finalizer, that every other finalizer is left
//! alone, and that a recorded identifier is never lost.
//!
//! The resource is modelled as the controller sees it change: the
//! finalizers and the status change only when the command that changes
//! them is answered with success, and deletion, once asked for, stays
//! asked for.

use crate::kubernetes::ObjectMeta;
use crate::operator::finalizers::{
    has_finalizer, lemma_with_finalizer, lemma_without_finalizer, same_others, with_finalizer,
    without_finalizer, FINALIZER,
};
use crate::operator::reconciler::{
    transition, Action, CommandView, EventView, Phase, ReconciliationView, StatusView,
};
use crate::operator::sftpgo_server_reconciler::{
    finalizers_after, first_phase, server_transition, ServerAnswer, ServerPhase,
};
use vstd::prelude::*;

verus! {

/// A resource in the cluster, with two facts of its history.
pub struct World {
    /// Whether deletion was asked for.
    pub deleting: bool,
    /// The finalizers that the resource carries.
    pub finalizers: Seq<Seq<char>>,
    /// The recorded status, if any.
    pub status: Option<StatusView>,
    /// Whether a reconciliation has ever put the controller's
    /// finalizer on.
    pub observed: bool,
    /// Whether the clean-up after deletion was completed.
    pub cleaned: bool,
}

/// One reconciliation: whether deletion was asked for since the last
/// one, and the events that it met.
pub struct Pass {
    pub deletion_requested: bool,
    pub events: Seq<EventView>,
}

/// The state in which every reconciliation of a namespaced resource
/// begins.
pub open spec fn initial() -> ReconciliationView {
    ReconciliationView { phase: Phase::Fetching, observed: None }
}

/// The resource after an event. Success of the command that puts the
/// controller's finalizer on, or takes it off, sets the finalizers of
/// the resource to the list of the command; success of the command
/// that records a status sets the status. The clean-up is completed
/// when the finalizer is taken off, or when the entity is deleted for
/// a resource that does not carry it. Nothing else changes the
/// resource.
pub open spec fn effect(state: ReconciliationView, event: EventView, world: World) -> World {
    if event == EventView::Done && state.observed is Some {
        let o = state.observed->0;
        match state.phase {
            Phase::AddingFinalizer => World {
                finalizers: with_finalizer(o.finalizers),
                observed: true,
                ..world
            },
            Phase::RemovingFinalizer => World {
                finalizers: without_finalizer(o.finalizers),
                cleaned: true,
                ..world
            },
            Phase::DeletingCurrent => if has_finalizer(o.finalizers) {
                world
            } else {
                World { cleaned: true, ..world }
            },
            Phase::RecordingName => World { status: o.status, ..world },
            Phase::RecordingIdentifier => World { status: o.status, ..world },
            _ => world,
        }
    } else {
        world
    }
}

/// Whether an event shows the resource as it is: a fetched resource is
/// the one in the cluster.
pub open spec fn agrees(world: World, event: EventView) -> bool {
    event matches EventView::Fetched(o) ==> {
        &&& o.deleting == world.deleting
        &&& o.finalizers == world.finalizers
        &&& o.status == world.status
    }
}

/// The reconciliation and the resource after a sequence of events.
pub open spec fn run(state: ReconciliationView, world: World, events: Seq<EventView>) -> (
    ReconciliationView,
    World,
)
    decreases events.len(),
{
    if events.len() == 0 {
        (state, world)
    } else {
        let before = run(state, world, events.drop_last());
        (transition(before.0, events.last()).0, effect(before.0, events.last(), before.1))
    }
}

/// Whether every event of a sequence shows the resource as it is when
/// the event arrives.
pub open spec fn truthful(state: ReconciliationView, world: World, events: Seq<EventView>) -> bool
    decreases events.len(),
{
    events.len() == 0 || (truthful(state, world, events.drop_last()) && agrees(
        run(state, world, events.drop_last()).1,
        events.last(),
    ))
}

/// The resource as a reconciliation finds it: deletion may have been
/// asked for in the meantime.
pub open spec fn found_by(world: World, pass: Pass) -> World {
    World { deleting: world.deleting || pass.deletion_requested, ..world }
}

/// The resource after a sequence of reconciliations.
pub open spec fn after_passes(world: World, passes: Seq<Pass>) -> World
    decreases passes.len(),
{
    if passes.len() == 0 {
        world
    } else {
        run(
            initial(),
            found_by(after_passes(world, passes.drop_last()), passes.last()),
            passes.last().events,
        ).1
    }
}

/// Whether the events of every reconciliation of a sequence show the
/// resource as it is.
pub open spec fn passes_truthful(world: World, passes: Seq<Pass>) -> bool
    decreases passes.len(),
{
    passes.len() == 0 || (passes_truthful(world, passes.drop_last()) && truthful(
        initial(),
        found_by(after_passes(world, passes.drop_last()), passes.last()),
        passes.last().events,
    ))
}

/// The controller's finalizer is on the resource exactly when a
/// reconciliation has put it on and the clean-up after deletion is
/// not completed; and the clean-up is only completed for a resource
/// whose deletion was asked for.
pub open spec fn disciplined(world: World) -> bool {
    &&& has_finalizer(world.finalizers) == (world.observed && !world.cleaned)
    &&& world.cleaned ==> world.deleting
}

/// Whether a status holds an identifier.
pub open spec fn has_identifier(status: Option<StatusView>) -> bool {
    status matches Some(s) && s.id is Some
}

/// Whether a phase belongs to the deletion of a resource.
pub open spec fn is_deletion_phase(phase: Phase) -> bool {
    phase == Phase::DeletingStale || phase == Phase::DeletingCurrent || phase
        == Phase::RemovingFinalizer
}

/// Whether a phase belongs to the upkeep of a resource that carries
/// the controller's finalizer.
pub open spec fn is_synchronizing_phase(phase: Phase) -> bool {
    phase == Phase::DeletingRenamed || phase == Phase::RecordingName || phase
        == Phase::BuildingRequest || phase == Phase::LookingUp || phase == Phase::Updating
        || phase == Phase::Creating || phase == Phase::RecordingIdentifier
}

/// What a reconciliation knows of the resource is true of it: whether
/// it is being deleted and which finalizers it carries. The deletion
/// phases are only entered for a resource that is being deleted. The
/// controller's finalizer is only put on a resource that is not being
/// deleted and does not carry it, and only taken off one that carries
/// it; the entity is only written for a resource that is not being
/// deleted and carries it. Where the resource has an identifier
/// recorded, the reconciliation knows one.
pub open spec fn coherent(state: ReconciliationView, world: World) -> bool {
    match state.observed {
        None => state.phase == Phase::Fetching || state.phase == Phase::Finished,
        Some(o) => {
            &&& state.phase != Phase::Fetching
            &&& o.deleting == world.deleting
            &&& o.finalizers == world.finalizers
            &&& is_deletion_phase(state.phase) ==> o.deleting
            &&& state.phase == Phase::AddingFinalizer ==> !o.deleting && !has_finalizer(
                o.finalizers,
            )
            &&& state.phase == Phase::RemovingFinalizer ==> has_finalizer(o.finalizers)
            &&& is_synchronizing_phase(state.phase) ==> !o.deleting && has_finalizer(o.finalizers)
            &&& has_identifier(world.status) ==> has_identifier(o.status)
        },
    }
}

/// One event keeps the reconciliation coherent with the resource, the
/// finalizer disciplined, every other finalizer on the resource, and a
/// recorded identifier recorded.
pub proof fn lemma_step(state: ReconciliationView, world: World, event: EventView)
    requires
        coherent(state, world),
        disciplined(world),
        agrees(world, event),
    ensures
        coherent(transition(state, event).0, effect(state, event, world)),
        disciplined(effect(state, event, world)),
        effect(state, event, world).deleting == world.deleting,
        same_others(effect(state, event, world).finalizers, world.finalizers),
        has_identifier(world.status) ==> has_identifier(effect(state, event, world).status),
{
    lemma_with_finalizer(world.finalizers);
    lemma_without_finalizer(world.finalizers);
}

/// A sequence of truthful events keeps the reconciliation coherent
/// with the resource, the finalizer disciplined, every other
/// finalizer on the resource, and a recorded identifier recorded.
pub proof fn lemma_run(state: ReconciliationView, world: World, events: Seq<EventView>)
    requires
        coherent(state, world),
        disciplined(world),
        truthful(state, world, events),
    ensures
        coherent(run(state, world, events).0, run(state, world, events).1),
        disciplined(run(state, world, events).1),
        run(state, world, events).1.deleting == world.deleting,
        same_others(run(state, world, events).1.finalizers, world.finalizers),
        has_identifier(world.status) ==> has_identifier(run(state, world, events).1.status),
    decreases events.len(),
{
    if events.len() > 0 {
        lemma_run(state, world, events.drop_last());
        let before = run(state, world, events.drop_last());
        lemma_step(before.0, before.1, events.last());
        let after = run(state, world, events).1;
        assert forall|x: Seq<char>| x != FINALIZER@ implies (
        #[trigger] after.finalizers.contains(x) <==> world.finalizers.contains(x)) by {
            assert(before.1.finalizers.contains(x) <==> world.finalizers.contains(x));
        }
    }
}

/// Across any sequence of reconciliations whose events show the
/// resource as it is, a resource carries the controller's finalizer
/// exactly when a reconciliation has put it on and the clean-up after
/// its deletion is not completed; and every other finalizer that the
/// resource carries stays on it.
pub proof fn lemma_finalizer_discipline(world: World, passes: Seq<Pass>)
    requires
        disciplined(world),
        passes_truthful(world, passes),
    ensures
        disciplined(after_passes(world, passes)),
        has_finalizer(after_passes(world, passes).finalizers) == (after_passes(
            world,
            passes,
        ).observed && !after_passes(world, passes).cleaned),
        same_others(after_passes(world, passes).finalizers, world.finalizers),
    decreases passes.len(),
{
    if passes.len() > 0 {
        lemma_finalizer_discipline(world, passes.drop_last());
        let before = after_passes(world, passes.drop_last());
        let found = found_by(before, passes.last());
        lemma_run(initial(), found, passes.last().events);
        let after = after_passes(world, passes);
        assert forall|x: Seq<char>| x != FINALIZER@ implies (
        #[trigger] after.finalizers.contains(x) <==> world.finalizers.contains(x)) by {
            assert(before.finalizers.contains(x) <==> world.finalizers.contains(x));
        }
    }
}

/// A reconciliation of a resource that is not being deleted only ends
/// in success with the controller's finalizer on the resource.
pub proof fn lemma_success_carries_finalizer(world: World, events: Seq<EventView>)
    requires
        disciplined(world),
        !world.deleting,
        truthful(initial(), world, events),
        events.len() > 0,
        transition(run(initial(), world, events.drop_last()).0, events.last()).1
            == CommandView::Finish(Action::AwaitChange),
    ensures
        has_finalizer(run(initial(), world, events).1.finalizers),
{
    let before = run(initial(), world, events.drop_last());
    lemma_run(initial(), world, events.drop_last());
    lemma_step(before.0, before.1, events.last());
}

/// Across any sequence of reconciliations whose events show the
/// resource as it is, a resource that has an identifier recorded
/// keeps having one: a status is only ever replaced by one that holds
/// an identifier too.
pub proof fn lemma_identifier_kept(world: World, passes: Seq<Pass>)
    requires
        disciplined(world),
        passes_truthful(world, passes),
        has_identifier(world.status),
    ensures
        has_identifier(after_passes(world, passes).status),
    decreases passes.len(),
{
    if passes.len() > 0 {
        lemma_identifier_kept(world, passes.drop_last());
        lemma_finalizer_discipline(world, passes.drop_last());
        let found = found_by(after_passes(world, passes.drop_last()), passes.last());
        lemma_run(initial(), found, passes.last().events);
    }
}

/// A status that is recorded during a reconciliation carries the
/// declared name; where an identifier was known before, it carries an
/// identifier: the same one when the name is recorded after a rename,
/// the one of the created entity after a creation.
pub proof fn lemma_recorded_status(state: ReconciliationView, event: EventView)
    requires
        state.observed is Some,
        transition(state, event).1 is PatchStatus,
    ensures
        transition(state, event).1->PatchStatus_0.last_name == state.observed->0.name,
        has_identifier(state.observed->0.status) ==> transition(
            state,
            event,
        ).1->PatchStatus_0.id is Some,
        state.phase == Phase::DeletingRenamed ==> transition(state, event).1->PatchStatus_0.id
            == (match state.observed->0.status {
            Some(s) => s.id,
            None => None,
        }),
        transition(state, event).0.observed->0.status == Some(
            transition(state, event).1->PatchStatus_0,
        ),
{
}

/// One reconciliation of a server: whether deletion was asked for
/// since the last one, and the answers that it met.
pub struct ServerPass {
    pub deletion_requested: bool,
    pub answers: Seq<ServerAnswer>,
}

/// The phase in which the reconciliation of a server begins, as the
/// resource stands.
pub open spec fn first_server_phase(world: World) -> ServerPhase {
    if world.deleting {
        ServerPhase::DeletingDeployment
    } else if !has_finalizer(world.finalizers) {
        ServerPhase::AddingFinalizer
    } else {
        ServerPhase::ReadingSecret
    }
}

/// Whether metadata shows the resource as it is.
pub open spec fn shows(metadata: ObjectMeta, world: World) -> bool {
    &&& metadata.deletion_timestamp.is_some() == world.deleting
    &&& metadata.spec_finalizers() == world.finalizers
}

/// The reconciliation of a server begins in the phase that the
/// resource asks for.
pub proof fn lemma_first_server_phase(metadata: ObjectMeta, world: World)
    requires
        shows(metadata, world),
    ensures
        first_phase(metadata) == first_server_phase(world),
{
}

/// The server resource after an answer, for a reconciliation that
/// knows the finalizers `list` on it. Success of the command that
/// puts the controller's finalizer on, or takes it off, sets the
/// finalizers of the resource to the list of the command. The
/// clean-up is completed when the finalizer is taken off, or when the
/// Secret is deleted for a resource that does not carry it. Nothing
/// else changes the resource.
pub open spec fn server_effect(
    phase: ServerPhase,
    answer: ServerAnswer,
    list: Seq<Seq<char>>,
    world: World,
) -> World {
    match (phase, answer) {
        (ServerPhase::AddingFinalizer, ServerAnswer::Done) => World {
            finalizers: with_finalizer(list),
            observed: true,
            ..world
        },
        (ServerPhase::RemovingFinalizer, ServerAnswer::Done) => World {
            finalizers: without_finalizer(list),
            cleaned: true,
            ..world
        },
        (ServerPhase::DeletingSecret, ServerAnswer::Done) => if has_finalizer(list) {
            world
        } else {
            World { cleaned: true, ..world }
        },
        _ => world,
    }
}

/// The phase, the finalizers that the reconciliation knows, and the
/// server resource after a sequence of answers.
pub open spec fn server_run(
    phase: ServerPhase,
    list: Seq<Seq<char>>,
    world: World,
    answers: Seq<ServerAnswer>,
) -> (ServerPhase, Seq<Seq<char>>, World)
    decreases answers.len(),
{
    if answers.len() == 0 {
        (phase, list, world)
    } else {
        let before = server_run(phase, list, world, answers.drop_last());
        (
            server_transition(before.0, answers.last(), has_finalizer(before.1)),
            finalizers_after(before.0, answers.last(), before.1),
            server_effect(before.0, answers.last(), before.1, before.2),
        )
    }
}

/// The server resource as a reconciliation finds it.
pub open spec fn found_by_server(world: World, pass: ServerPass) -> World {
    World { deleting: world.deleting || pass.deletion_requested, ..world }
}

/// The server resource after a sequence of reconciliations, each of
/// which reads the finalizers off the resource as it begins.
pub open spec fn after_server_passes(world: World, passes: Seq<ServerPass>) -> World
    decreases passes.len(),
{
    if passes.len() == 0 {
        world
    } else {
        let found = found_by_server(
            after_server_passes(world, passes.drop_last()),
            passes.last(),
        );
        server_run(first_server_phase(found), found.finalizers, found, passes.last().answers).2
    }
}

/// Whether a phase belongs to the deletion of a server.
pub open spec fn is_server_deletion_phase(phase: ServerPhase) -> bool {
    phase == ServerPhase::DeletingDeployment || phase == ServerPhase::DeletingService || phase
        == ServerPhase::DeletingSecret || phase == ServerPhase::RemovingFinalizer
}

/// Whether a phase belongs to the upkeep of a server that carries the
/// controller's finalizer.
pub open spec fn is_rendering_phase(phase: ServerPhase) -> bool {
    phase == ServerPhase::ReadingSecret || phase == ServerPhase::WritingSecret || phase
        == ServerPhase::ApplyingService || phase == ServerPhase::ApplyingDeployment
}

/// The phase of a server reconciliation fits the resource, and the
/// reconciliation knows its finalizers: the deletion phases are only
/// entered for a resource that is being deleted; the controller's
/// finalizer is only put on a resource that is not being deleted and
/// does not carry it, and only taken off one that carries it; the
/// children are only rendered for a resource that is not being
/// deleted and carries it.
pub open spec fn server_coherent(phase: ServerPhase, list: Seq<Seq<char>>, world: World) -> bool {
    &&& list == world.finalizers
    &&& is_server_deletion_phase(phase) ==> world.deleting
    &&& phase == ServerPhase::AddingFinalizer ==> !world.deleting && !has_finalizer(list)
    &&& phase == ServerPhase::RemovingFinalizer ==> has_finalizer(list)
    &&& is_rendering_phase(phase) ==> !world.deleting && has_finalizer(list)
}

/// One answer keeps the phase fitting the server resource, the
/// finalizer disciplined and every other finalizer on the resource.
pub proof fn lemma_server_step(
    phase: ServerPhase,
    list: Seq<Seq<char>>,
    world: World,
    answer: ServerAnswer,
)
    requires
        server_coherent(phase, list, world),
        disciplined(world),
    ensures
        server_coherent(
            server_transition(phase, answer, has_finalizer(list)),
            finalizers_after(phase, answer, list),
            server_effect(phase, answer, list, world),
        ),
        disciplined(server_effect(phase, answer, list, world)),
        server_effect(phase, answer, list, world).deleting == world.deleting,
        same_others(server_effect(phase, answer, list, world).finalizers, world.finalizers),
{
    lemma_with_finalizer(list);
    lemma_without_finalizer(list);
}

/// A sequence of answers keeps the phase fitting the server resource,
/// the finalizer disciplined and every other finalizer on the
/// resource.
pub proof fn lemma_server_run(
    phase: ServerPhase,
    list: Seq<Seq<char>>,
    world: World,
    answers: Seq<ServerAnswer>,
)
    requires
        server_coherent(phase, list, world),
        disciplined(world),
    ensures
        server_coherent(
            server_run(phase, list, world, answers).0,
            server_run(phase, list, world, answers).1,
            server_run(phase, list, world, answers).2,
        ),
        disciplined(server_run(phase, list, world, answers).2),
        server_run(phase, list, world, answers).2.deleting == world.deleting,
        same_others(server_run(phase, list, world, answers).2.finalizers, world.finalizers),
    decreases answers.len(),
{
    if answers.len() > 0 {
        lemma_server_run(phase, list, world, answers.drop_last());
        let before = server_run(phase, list, world, answers.drop_last());
        lemma_server_step(before.0, before.1, before.2, answers.last());
        let after = server_run(phase, list, world, answers).2;
        assert forall|x: Seq<char>| x != FINALIZER@ implies (
        #[trigger] after.finalizers.contains(x) <==> world.finalizers.contains(x)) by {
            assert(before.2.finalizers.contains(x) <==> world.finalizers.contains(x));
        }
    }
}

/// Across any sequence of reconciliations, a server resource carries
/// the controller's finalizer exactly when a reconciliation has put it
/// on and the clean-up after its deletion is not completed; and every
/// other finalizer that the resource carries stays on it.
pub proof fn lemma_server_finalizer_discipline(world: World, passes: Seq<ServerPass>)
    requires
        disciplined(world),
    ensures
        disciplined(after_server_passes(world, passes)),
        has_finalizer(after_server_passes(world, passes).finalizers) == (after_server_passes(
            world,
            passes,
        ).observed && !after_server_passes(world, passes).cleaned),
        same_others(after_server_passes(world, passes).finalizers, world.finalizers),
    decreases passes.len(),
{
    if passes.len() > 0 {
        lemma_server_finalizer_discipline(world, passes.drop_last());
        let before = after_server_passes(world, passes.drop_last());
        let found = found_by_server(before, passes.last());
        lemma_server_run(first_server_phase(found), found.finalizers, found, passes.last().answers);
        let after = after_server_passes(world, passes);
        assert forall|x: Seq<char>| x != FINALIZER@ implies (
        #[trigger] after.finalizers.contains(x) <==> world.finalizers.contains(x)) by {
            assert(before.finalizers.contains(x) <==> world.finalizers.contains(x));
        }
    }
}

/// A reconciliation of a server that is not being deleted only ends in
/// success, after the Deployment was applied, with the controller's
/// finalizer on the resource.
pub proof fn lemma_server_success_carries_finalizer(world: World, answers: Seq<ServerAnswer>)
    requires
        disciplined(world),
        !world.deleting,
        answers.len() > 0,
        server_run(
            first_server_phase(world),
            world.finalizers,
            world,
            answers.drop_last(),
        ).0 == ServerPhase::ApplyingDeployment,
        answers.last() is Done,
    ensures
        has_finalizer(
            server_run(first_server_phase(world), world.finalizers, world, answers).2.finalizers,
        ),
{
    lemma_server_run(first_server_phase(world), world.finalizers, world, answers.drop_last());
}

} // verus!

//! The rebuild coordinator: one rebuild at a time, a reload signal after
//! each success and after nothing else.
//!
//! The coordinator does not run the rebuild. It is told of triggers and of
//! finished rebuilds, and answers what to do: start a rebuild now, or wait
//! for the one in flight. Triggers that arrive during a rebuild collapse into
//! one further rebuild, which starts as soon as the current one has finished.

use crate::bus::{
    published, receive_outcome, BusView, ReloadBus, ReloadSignal, SubscriberId,
};
use crate::debounce::RebuildTrigger;
use crate::http::artifact_response_of;
use vstd::prelude::*;
use vstd::utf8::encode_utf8;

verus! {

/// How a rebuild ended.
#[derive(Debug)]
pub enum BuildOutcome {
    Success,
    /// The rebuild failed; the text says which file and what stage.
    Failure(String),
}

/// What a finished build does to the artifact that is served.
#[derive(Debug)]
pub enum ArtifactUpdate {
    /// The build gave a page: it takes the place of the artifact.
    Replace(String),
    /// The build failed: the artifact stays as it is.
    Keep,
}

/// What a build that ended with a page, or with the text of an error, does
/// to the artifact, and how it ended.
pub open spec fn settled(built: Result<String, String>) -> (ArtifactUpdate, BuildOutcome) {
    match built {
        Ok(page) => (ArtifactUpdate::Replace(page), BuildOutcome::Success),
        Err(detail) => (ArtifactUpdate::Keep, BuildOutcome::Failure(detail)),
    }
}

/// The artifact after an update, given the artifact before it, if there was
/// one.
pub open spec fn artifact_after(previous: Option<Seq<char>>, update: ArtifactUpdate) -> Option<
    Seq<char>,
> {
    match update {
        ArtifactUpdate::Replace(page) => Some(page@),
        ArtifactUpdate::Keep => previous,
    }
}

/// The coordinator as a mathematical value.
pub struct CoordinatorView {
    /// A rebuild is in flight.
    pub building: bool,
    /// The cause of the rebuild that is owed once the current one finishes.
    pub pending: Option<Seq<char>>,
}

/// What the coordinator answers when a rebuild has finished.
#[derive(Debug)]
pub struct Completion {
    /// To how many subscribers the reload signal went, if one was published.
    pub delivered: Option<usize>,
    /// The error to report, if the rebuild failed.
    pub failure: Option<String>,
    /// The cause of the rebuild to start now, if one is owed.
    pub next: Option<String>,
}

/// The coordinator itself.
pub struct RebuildCoordinator {
    building: bool,
    pending: Option<String>,
}

impl View for RebuildCoordinator {
    type V = CoordinatorView;

    closed spec fn view(&self) -> CoordinatorView {
        CoordinatorView {
            building: self.building,
            pending: match self.pending {
                Some(cause) => Some(cause@),
                None => None,
            },
        }
    }
}

/// The coordinator after a trigger with this cause arrived, and the cause of
/// the rebuild that starts now, if one does. With no rebuild in flight one
/// starts; during a rebuild the trigger is kept in place of any kept before.
pub open spec fn after_trigger(coordinator: CoordinatorView, cause: Seq<char>) -> (
    CoordinatorView,
    Option<Seq<char>>,
) {
    if coordinator.building {
        (CoordinatorView { building: true, pending: Some(cause) }, None)
    } else {
        (CoordinatorView { building: true, pending: coordinator.pending }, Some(cause))
    }
}

/// The coordinator after the rebuild in flight finished, and the cause of
/// the rebuild that starts now, if one was kept. An outcome that arrives
/// while no rebuild is in flight changes nothing.
pub open spec fn after_outcome(coordinator: CoordinatorView) -> (
    CoordinatorView,
    Option<Seq<char>>,
) {
    if coordinator.building {
        (
            CoordinatorView { building: coordinator.pending is Some, pending: None },
            coordinator.pending,
        )
    } else {
        (coordinator, None)
    }
}

/// The text of the signal that follows a successful rebuild.
pub open spec fn reload_text() -> Seq<char> {
    "reload"@
}

/// The bus after a rebuild with this outcome finished while `building` said
/// whether one was in flight: a signal is published after a success of a
/// rebuild that was in flight, and the bus is untouched otherwise.
pub open spec fn bus_after_build(bus: BusView, building: bool, outcome: BuildOutcome) -> BusView {
    if building && outcome is Success {
        published(bus, reload_text())
    } else {
        bus
    }
}

impl RebuildCoordinator {
    /// A coordinator with no rebuild in flight and none owed.
    pub fn new() -> (coordinator: Self)
        ensures
            coordinator@ == (CoordinatorView { building: false, pending: None }),
    {
        RebuildCoordinator { building: false, pending: None }
    }

    /// Settles a finished build: a page is to replace the artifact, and the
    /// build succeeded; an error leaves the artifact as it is, and the build
    /// failed with that error.
    pub fn settle(built: Result<String, String>) -> (outcome: (ArtifactUpdate, BuildOutcome))
        ensures
            outcome == settled(built),
    {
        match built {
            Ok(page) => (ArtifactUpdate::Replace(page), BuildOutcome::Success),
            Err(detail) => (ArtifactUpdate::Keep, BuildOutcome::Failure(detail)),
        }
    }

    /// Whether a rebuild is in flight.
    pub fn is_building(&self) -> (building: bool)
        ensures
            building == self@.building,
    {
        self.building
    }

    /// Takes one trigger. With no rebuild in flight, one starts now: the
    /// answer is its cause. During a rebuild the trigger is kept, in place of
    /// any kept before it, and the answer is nothing: the rebuild that it
    /// asks for starts when the current one has finished.
    pub fn on_trigger(&mut self, trigger: RebuildTrigger) -> (start: Option<String>)
        ensures
            final(self)@ == after_trigger(old(self)@, trigger.cause@).0,
            match start {
                Some(cause) => after_trigger(old(self)@, trigger.cause@).1 == Some(cause@),
                None => after_trigger(old(self)@, trigger.cause@).1 is None,
            },
    {
        if self.building {
            self.pending = Some(trigger.cause);
            None
        } else {
            self.building = true;
            Some(trigger.cause)
        }
    }

    /// Takes the outcome of the rebuild in flight. A success publishes one
    /// reload signal on `bus`; a failure publishes nothing and hands the
    /// error back for the log. If a trigger was kept meanwhile, the next
    /// rebuild starts now. An outcome that arrives while no rebuild is in
    /// flight is ignored.
    pub fn on_build_finished(&mut self, outcome: BuildOutcome, bus: &mut ReloadBus) -> (done:
        Completion)
        ensures
            final(bus)@ == bus_after_build(old(bus)@, old(self)@.building, outcome),
            final(bus).exhausted() == old(bus).exhausted(),
            done.delivered is Some <==> old(self)@.building && outcome is Success,
            done.delivered is Some ==> done.delivered->0 == if old(bus)@.closed {
                0
            } else {
                old(bus)@.subscribers.len()
            },
            match outcome {
                BuildOutcome::Failure(detail) => old(self)@.building ==> done.failure is Some
                    && done.failure->0@ == detail@,
                BuildOutcome::Success => done.failure is None,
            },
            !old(self)@.building ==> done.failure is None,
            final(self)@ == after_outcome(old(self)@).0,
            match done.next {
                Some(cause) => after_outcome(old(self)@).1 == Some(cause@),
                None => after_outcome(old(self)@).1 is None,
            },
    {
        if !self.building {
            return Completion { delivered: None, failure: None, next: None };
        }
        let (delivered, failure) = match outcome {
            BuildOutcome::Success => {
                let signal = ReloadSignal::reload();
                (Some(bus.publish(&signal)), None)
            },
            BuildOutcome::Failure(detail) => (None, Some(detail)),
        };
        let next = self.pending.take();
        self.building = next.is_some();
        Completion { delivered, failure, next }
    }
}

/// One rebuild at a time, and none forgotten. A rebuild starts only while
/// none is in flight: on a trigger that finds the coordinator idle, or at
/// the end of the rebuild before it. A trigger that arrives during a rebuild
/// is kept, and the rebuild that it asks for starts when the current one
/// ends, whatever its outcome.
pub proof fn lemma_one_rebuild_at_a_time(coordinator: CoordinatorView, cause: Seq<char>)
    ensures
        after_trigger(coordinator, cause).1 is Some <==> !coordinator.building,
        after_trigger(coordinator, cause).0.building,
        coordinator.building ==> after_trigger(coordinator, cause).0.pending == Some(cause)
            && after_outcome(after_trigger(coordinator, cause).0).1 == Some(cause)
            && after_outcome(after_trigger(coordinator, cause).0).0.building,
        after_outcome(coordinator).1 is Some ==> coordinator.building,
        coordinator.building ==> after_outcome(coordinator).0.pending is None,
{
}

/// A reload signal is published after a successful rebuild and after
/// nothing else: whenever a finished rebuild changes the bus, the rebuild
/// was in flight and succeeded, and what changed is that one signal reading
/// `reload` was published.
pub proof fn lemma_publishes_only_after_success(bus: BusView, building: bool, outcome: BuildOutcome)
    ensures
        bus_after_build(bus, building, outcome) != bus ==> building && outcome is Success
            && bus_after_build(bus, building, outcome) == published(bus, reload_text()),
{
}

/// A failed rebuild publishes nothing: the bus is as it was, so every
/// subscriber finds on it what it would have found before.
pub proof fn lemma_failure_publishes_nothing(
    bus: BusView,
    building: bool,
    detail: String,
    id: SubscriberId,
)
    ensures
        bus_after_build(bus, building, BuildOutcome::Failure(detail)) == bus,
        receive_outcome(bus_after_build(bus, building, BuildOutcome::Failure(detail)), id)
            == receive_outcome(bus, id),
{
}

/// A failed rebuild changes nothing that a browser can see: the artifact
/// is the one from before, so a request for it is answered as before, byte
/// for byte; and no reload signal is published.
pub proof fn lemma_failed_build_serves_the_previous_artifact(
    previous: Option<Seq<char>>,
    detail: String,
    bus: BusView,
    building: bool,
)
    ensures
        artifact_after(previous, settled(Err(detail)).0) == previous,
        artifact_response_of(artifact_after(previous, settled(Err(detail)).0))
            == artifact_response_of(previous),
        bus_after_build(bus, building, settled(Err(detail)).1) == bus,
{
}

/// A successful rebuild replaces the artifact: the next request for it is
/// answered with the new page, whatever was served before.
pub proof fn lemma_successful_build_serves_the_new_artifact(
    previous: Option<Seq<char>>,
    page: String,
)
    ensures
        artifact_after(previous, settled(Ok(page)).0) == Some(page@),
        artifact_response_of(artifact_after(previous, settled(Ok(page)).0)).status == 200,
        artifact_response_of(artifact_after(previous, settled(Ok(page)).0)).body == encode_utf8(
            page@,
        ),
        settled(Ok(page)).1 is Success,
{
}

} // verus!

use crate::config::DeviceTree;
use crate::files::shown;
use crate::text::decimal;
use crate::hub_responses::{CreateResponse, CreatedIdentity};
use crate::outcome::{
    all_succeeded, failures, first_failure, lemma_no_failure, lemma_outcomes_partition,
    lemma_some_failure, payloads, CallFailure, Failure, OperationOutcome, Outcome,
};
use crate::walker::{edges, flatten, lemma_edges_len, lemma_flatten_len, node_count};
use crate::wave::{
    create_calls, delete_calls, link_calls, no_wave, wave_of, CallView, WaveView,
};
use vstd::prelude::*;

verus! {

/// The line that opens the wave of create calls.
pub open spec fn creating_summary(devices: nat, hub: Seq<char>) -> Seq<char> {
    "Creating "@ + decimal(devices) + " devices in hub "@ + hub
}

/// The line that closes the wave of create calls and opens the wave of
/// set-parent calls.
pub open spec fn linking_summary(pairs: nat) -> Seq<char> {
    "Created all devices. Adding "@ + decimal(pairs) + " parent-child relationships."@
}

/// The line that opens the wave of delete calls.
pub open spec fn deleting_summary(devices: nat, hub: Seq<char>) -> Seq<char> {
    "Deleting "@ + decimal(devices) + " devices from hub "@ + hub
}

/// The line that sums up the wave of delete calls.
pub open spec fn deleted_summary(attempted: nat, succeeded: nat) -> Seq<char> {
    if succeeded == attempted {
        "Deleted all devices."@
    } else {
        "Successfully deleted "@ + decimal(succeeded) + " devices, "@ + decimal(
            (attempted - succeeded) as nat,
        ) + " failed. For more information use the -v flag."@
    }
}

/// Where a create workflow stands.
pub enum CreateState {
    /// Nothing has been asked for yet.
    Idle,
    /// The identities are being created.
    CreatingIdentities,
    /// Every identity exists, and the parent links are being set.
    LinkingParents(Vec<CreateResponse>),
    /// Every identity exists and every link is set.
    Done(Vec<CreateResponse>),
    /// A call failed. Identities that were created stay in the registry.
    Failed(CallFailure),
}

/// The model of a [`CreateState`].
pub enum CreateStateView {
    Idle,
    CreatingIdentities,
    LinkingParents(Seq<CreatedIdentity>),
    Done(Seq<CreatedIdentity>),
    Failed(Failure),
}

impl View for CreateState {
    type V = CreateStateView;

    open spec fn view(&self) -> CreateStateView {
        match self {
            CreateState::Idle => CreateStateView::Idle,
            CreateState::CreatingIdentities => CreateStateView::CreatingIdentities,
            CreateState::LinkingParents(created) => CreateStateView::LinkingParents(
                created.deep_view(),
            ),
            CreateState::Done(created) => CreateStateView::Done(created.deep_view()),
            CreateState::Failed(failure) => CreateStateView::Failed(failure@),
        }
    }
}

/// What the create workflow is told: to start, or how a wave went, with
/// one outcome per call in the order of the wave.
pub enum CreateEvent {
    Start,
    Identities(Vec<OperationOutcome<CreateResponse>>),
    Links(Vec<OperationOutcome<()>>),
}

/// The model of a [`CreateEvent`].
pub enum CreateEventView {
    Start,
    Identities(Seq<Outcome<CreatedIdentity>>),
    Links(Seq<Outcome<()>>),
}

impl View for CreateEvent {
    type V = CreateEventView;

    open spec fn view(&self) -> CreateEventView {
        match self {
            CreateEvent::Start => CreateEventView::Start,
            CreateEvent::Identities(outcomes) => CreateEventView::Identities(outcomes.deep_view()),
            CreateEvent::Links(outcomes) => CreateEventView::Links(outcomes.deep_view()),
        }
    }
}

/// One step of the create workflow.
///
/// From `Idle`, `Start` asks for one create call per device. When that wave
/// is in, a single failure ends the workflow before any link is attempted;
/// otherwise one set-parent call per parent-child pair is asked for. When
/// the links are in, a single failure ends the workflow, with the
/// identities left as they are; otherwise the workflow is done and holds
/// what was created. An event that the state does not wait for changes
/// nothing and asks for nothing.
pub open spec fn create_step(
    hub: Seq<char>,
    root: DeviceTree,
    state: CreateStateView,
    event: CreateEventView,
) -> (CreateStateView, WaveView) {
    match state {
        CreateStateView::Idle => match event {
            CreateEventView::Start => (
                CreateStateView::CreatingIdentities,
                wave_of(
                    shown(creating_summary(flatten(root).len(), hub)),
                    create_calls(flatten(root)),
                ),
            ),
            _ => (state, no_wave()),
        },
        CreateStateView::CreatingIdentities => match event {
            CreateEventView::Identities(outcomes) => match first_failure(outcomes) {
                Some(failure) => (CreateStateView::Failed(failure), no_wave()),
                None => (
                    CreateStateView::LinkingParents(payloads(outcomes)),
                    wave_of(shown(linking_summary(edges(root).len())), link_calls(edges(root))),
                ),
            },
            _ => (state, no_wave()),
        },
        CreateStateView::LinkingParents(created) => match event {
            CreateEventView::Links(outcomes) => match first_failure(outcomes) {
                Some(failure) => (CreateStateView::Failed(failure), no_wave()),
                None => (CreateStateView::Done(created), no_wave()),
            },
            _ => (state, no_wave()),
        },
        CreateStateView::Done(_) => (state, no_wave()),
        CreateStateView::Failed(_) => (state, no_wave()),
    }
}

/// The tally of a delete workflow.
pub struct ProvisioningReport {
    pub attempted: usize,
    pub succeeded: usize,
    pub failed: Vec<CallFailure>,
}

/// The model of a [`ProvisioningReport`].
pub struct ReportView {
    pub attempted: nat,
    pub succeeded: nat,
    pub failed: Seq<Failure>,
}

impl View for ProvisioningReport {
    type V = ReportView;

    open spec fn view(&self) -> ReportView {
        ReportView {
            attempted: self.attempted as nat,
            succeeded: self.succeeded as nat,
            failed: self.failed.deep_view(),
        }
    }
}

impl ReportView {
    /// Every attempted call either succeeded or is listed as failed.
    pub open spec fn well_formed(self) -> bool {
        self.succeeded + self.failed.len() == self.attempted
    }
}

/// The number of calls of a wave that succeeded.
pub open spec fn success_count<V>(outcomes: Seq<Outcome<V>>) -> nat {
    outcomes.filter(|outcome: Outcome<V>| outcome is Success).len()
}

/// The tally of a wave: every call counts as attempted, the successes are
/// counted, and the failures are kept in the order of the wave.
pub open spec fn tally<V>(outcomes: Seq<Outcome<V>>) -> ReportView {
    ReportView {
        attempted: outcomes.len(),
        succeeded: success_count(outcomes),
        failed: failures(outcomes),
    }
}

/// Where a delete workflow stands.
pub enum DeleteState {
    /// Nothing has been asked for yet.
    Idle,
    /// The identities are being deleted.
    DeletingIdentities,
    /// Every call is in and counted.
    Done(ProvisioningReport),
}

/// The model of a [`DeleteState`].
pub enum DeleteStateView {
    Idle,
    DeletingIdentities,
    Done(ReportView),
}

impl View for DeleteState {
    type V = DeleteStateView;

    open spec fn view(&self) -> DeleteStateView {
        match self {
            DeleteState::Idle => DeleteStateView::Idle,
            DeleteState::DeletingIdentities => DeleteStateView::DeletingIdentities,
            DeleteState::Done(report) => DeleteStateView::Done(report@),
        }
    }
}

/// What the delete workflow is told: to start, or how the wave went.
pub enum DeleteEvent {
    Start,
    Identities(Vec<OperationOutcome<()>>),
}

/// The model of a [`DeleteEvent`].
pub enum DeleteEventView {
    Start,
    Identities(Seq<Outcome<()>>),
}

impl View for DeleteEvent {
    type V = DeleteEventView;

    open spec fn view(&self) -> DeleteEventView {
        match self {
            DeleteEvent::Start => DeleteEventView::Start,
            DeleteEvent::Identities(outcomes) => DeleteEventView::Identities(outcomes.deep_view()),
        }
    }
}

/// One step of the delete workflow.
///
/// From `Idle`, `Start` asks for one delete call per device. When that wave
/// is in, the workflow is done whatever the outcomes were: it holds the
/// tally and shows it in one line. An event that the state does not wait
/// for changes nothing and asks for nothing.
pub open spec fn delete_step(
    hub: Seq<char>,
    root: DeviceTree,
    state: DeleteStateView,
    event: DeleteEventView,
) -> (DeleteStateView, WaveView) {
    match state {
        DeleteStateView::Idle => match event {
            DeleteEventView::Start => (
                DeleteStateView::DeletingIdentities,
                wave_of(
                    shown(deleting_summary(flatten(root).len(), hub)),
                    delete_calls(flatten(root)),
                ),
            ),
            _ => (state, no_wave()),
        },
        DeleteStateView::DeletingIdentities => match event {
            DeleteEventView::Identities(outcomes) => {
                let report = tally(outcomes);
                (
                    DeleteStateView::Done(report),
                    wave_of(
                        shown(deleted_summary(report.attempted, report.succeeded)),
                        Seq::empty(),
                    ),
                )
            },
            _ => (state, no_wave()),
        },
        DeleteStateView::Done(_) => (state, no_wave()),
    }
}

/// The successes of a wave are the calls that returned something.
pub proof fn lemma_success_count<V>(outcomes: Seq<Outcome<V>>)
    ensures
        success_count(outcomes) == payloads(outcomes).len(),
        success_count(outcomes) + failures(outcomes).len() == outcomes.len(),
    decreases outcomes.len(),
{
    reveal(Seq::filter);
    lemma_outcomes_partition(outcomes);
    if outcomes.len() > 0 {
        lemma_success_count(outcomes.drop_last());
    }
}

/// The create workflow issues one create call per device, in pre-order,
/// when it starts; one set-parent call per parent-child pair, in pre-order,
/// when every identity of the wave was created; and no call at any other
/// step. A tree of `n` devices so gets `n` create calls and `n - 1`
/// set-parent calls.
pub proof fn lemma_create_fan_out(
    hub: Seq<char>,
    root: DeviceTree,
    state: CreateStateView,
    event: CreateEventView,
)
    ensures
        ({
            let calls = create_step(hub, root, state, event).1.calls;
            if state is Idle && event is Start {
                &&& calls.len() == node_count(root)
                &&& forall|i: int|
                    0 <= i < calls.len() ==> #[trigger] calls[i] == CallView::CreateIdentity(
                        flatten(root)[i],
                    )
            } else if state is CreatingIdentities && event is Identities && all_succeeded(
                event->Identities_0,
            ) {
                &&& calls.len() == node_count(root) - 1
                &&& forall|i: int|
                    0 <= i < calls.len() ==> #[trigger] calls[i] == (CallView::SetParent {
                        parent: edges(root)[i].0,
                        child: edges(root)[i].1,
                    })
            } else {
                calls.len() == 0
            }
        }),
{
    lemma_flatten_len(root);
    lemma_edges_len(root);
    match event {
        CreateEventView::Identities(outcomes) => {
            if all_succeeded(outcomes) {
                lemma_no_failure(outcomes);
            } else {
                lemma_some_failure(outcomes);
            }
        },
        CreateEventView::Links(outcomes) => {},
        CreateEventView::Start => {},
    }
}

/// The barrier between creating and linking: if any identity of the wave
/// could not be created, the workflow fails at once with the first failure,
/// asks for no call, and stays failed, asking for no call whatever it is
/// told later. No parent link is ever attempted on a partial set of
/// identities.
pub proof fn lemma_fail_fast(
    hub: Seq<char>,
    root: DeviceTree,
    outcomes: Seq<Outcome<CreatedIdentity>>,
    later: CreateEventView,
)
    requires
        !all_succeeded(outcomes),
    ensures
        ({
            let halt = create_step(
                hub,
                root,
                CreateStateView::CreatingIdentities,
                CreateEventView::Identities(outcomes),
            );
            &&& first_failure(outcomes).is_some()
            &&& halt.0 == CreateStateView::Failed(first_failure(outcomes).unwrap())
            &&& halt.1 == no_wave()
            &&& create_step(hub, root, halt.0, later) == (halt.0, no_wave())
        }),
{
    lemma_some_failure(outcomes);
}

/// The waves that the create workflow asks for when it is told `events`,
/// one after the other, starting in `state`.
pub open spec fn create_waves(
    hub: Seq<char>,
    root: DeviceTree,
    state: CreateStateView,
    events: Seq<CreateEventView>,
) -> Seq<WaveView>
    decreases events.len(),
{
    if events.len() == 0 {
        Seq::empty()
    } else {
        let step = create_step(hub, root, state, events.first());
        seq![step.1] + create_waves(hub, root, step.0, events.drop_first())
    }
}

/// A failed create workflow asks for nothing, whatever it is told and
/// however often.
pub proof fn lemma_failed_asks_nothing(
    hub: Seq<char>,
    root: DeviceTree,
    failure: Failure,
    events: Seq<CreateEventView>,
)
    ensures
        create_waves(hub, root, CreateStateView::Failed(failure), events).len() == events.len(),
        forall|i: int|
            0 <= i < events.len() ==> #[trigger] create_waves(
                hub,
                root,
                CreateStateView::Failed(failure),
                events,
            )[i] == no_wave(),
    decreases events.len(),
{
    if events.len() > 0 {
        lemma_failed_asks_nothing(hub, root, failure, events.drop_first());
    }
}

/// Once a wave of create calls with a failure in it is in, no call is ever
/// issued for that run: not by the step that takes the wave in, and not by
/// any step after it. In particular no parent link is ever attempted.
pub proof fn lemma_no_call_after_failed_identity(
    hub: Seq<char>,
    root: DeviceTree,
    outcomes: Seq<Outcome<CreatedIdentity>>,
    later: Seq<CreateEventView>,
)
    requires
        !all_succeeded(outcomes),
    ensures
        ({
            let waves = create_waves(
                hub,
                root,
                CreateStateView::CreatingIdentities,
                seq![CreateEventView::Identities(outcomes)] + later,
            );
            &&& waves.len() == later.len() + 1
            &&& forall|i: int| 0 <= i < waves.len() ==> (#[trigger] waves[i]).calls.len() == 0
        }),
{
    lemma_some_failure(outcomes);
    let events = seq![CreateEventView::Identities(outcomes)] + later;
    assert(events.first() == CreateEventView::Identities(outcomes));
    assert(events.drop_first() =~= later);
    lemma_failed_asks_nothing(hub, root, first_failure(outcomes).unwrap(), later);
}

/// A failed link ends the create workflow too, and what was created is not
/// taken back: the workflow asks for no call, then or later.
pub proof fn lemma_no_rollback(
    hub: Seq<char>,
    root: DeviceTree,
    created: Seq<CreatedIdentity>,
    outcomes: Seq<Outcome<()>>,
    later: CreateEventView,
)
    requires
        !all_succeeded(outcomes),
    ensures
        ({
            let end = create_step(
                hub,
                root,
                CreateStateView::LinkingParents(created),
                CreateEventView::Links(outcomes),
            );
            &&& end.0 is Failed
            &&& end.1 == no_wave()
            &&& create_step(hub, root, end.0, later) == (end.0, no_wave())
        }),
{
    lemma_some_failure(outcomes);
}

/// A create workflow whose waves both succeed ends with one identity per
/// call of the first wave.
pub proof fn lemma_create_completes(
    hub: Seq<char>,
    root: DeviceTree,
    identities: Seq<Outcome<CreatedIdentity>>,
    links: Seq<Outcome<()>>,
)
    requires
        all_succeeded(identities),
        all_succeeded(links),
    ensures
        ({
            let linking = create_step(
                hub,
                root,
                CreateStateView::CreatingIdentities,
                CreateEventView::Identities(identities),
            ).0;
            let end = create_step(hub, root, linking, CreateEventView::Links(links)).0;
            &&& end == CreateStateView::Done(payloads(identities))
            &&& payloads(identities).len() == identities.len()
        }),
{
    lemma_no_failure(identities);
    lemma_no_failure(links);
}

/// The delete workflow issues one delete call per device, in pre-order,
/// when it starts, and no call at any other step.
pub proof fn lemma_delete_fan_out(
    hub: Seq<char>,
    root: DeviceTree,
    state: DeleteStateView,
    event: DeleteEventView,
)
    ensures
        ({
            let calls = delete_step(hub, root, state, event).1.calls;
            if state is Idle && event is Start {
                &&& calls.len() == node_count(root)
                &&& forall|i: int|
                    0 <= i < calls.len() ==> #[trigger] calls[i] == CallView::DeleteIdentity(
                        flatten(root)[i],
                    )
            } else {
                calls.len() == 0
            }
        }),
{
    lemma_flatten_len(root);
}

/// The delete workflow never fails on a failed call: when the wave is in it
/// is done, and its report counts every call as attempted and as succeeded
/// exactly the calls whose outcome is a success; the others are listed as
/// failed.
pub proof fn lemma_delete_counts(hub: Seq<char>, root: DeviceTree, outcomes: Seq<Outcome<()>>)
    ensures
        ({
            let end = delete_step(
                hub,
                root,
                DeleteStateView::DeletingIdentities,
                DeleteEventView::Identities(outcomes),
            );
            &&& end.0 == DeleteStateView::Done(tally(outcomes))
            &&& end.1.calls.len() == 0
            &&& tally(outcomes).attempted == outcomes.len()
            &&& tally(outcomes).succeeded == outcomes.filter(
                |outcome: Outcome<()>| outcome is Success,
            ).len()
            &&& tally(outcomes).succeeded + tally(outcomes).failed.len() == outcomes.len()
        }),
{
    lemma_success_count(outcomes);
}

} // verus!

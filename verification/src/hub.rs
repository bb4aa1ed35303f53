use crate::client::{exit_accepted, exited_well, failure_line, failure_text, settle, settled};
use crate::config::{Config, DeviceConfig, DeviceTree};
use crate::files::{detail, shown, Emission, EmissionView, FileManager};
use crate::hub_responses::{CreateResponse, CreatedIdentity};
use crate::outcome::{
    collect_failures, first_failure_of, payloads, CallFailure, Failure, OperationOutcome, Outcome,
};
use crate::provision::{
    create_step, delete_step, lemma_success_count, tally, CreateEvent, CreateState, DeleteEvent,
    DeleteState, ProvisioningReport,
};
use crate::text::{cat2, cat3, cat4, cat5, decimal_string, occurs_in, text_contains};
use crate::walker::{
    child_edges, edges, flatten, flatten_devices, lemma_walk_covers_tree, occurs_before,
};
use crate::wave::{
    calls_to_create, calls_to_delete, calls_to_link, CallRequest, CallRequestView, CallText,
    CallTextView, Wave,
};
use vstd::prelude::*;

verus! {

/// What in a command's error stream tells that the device was already
/// absent from the registry.
pub open spec fn not_found_marker() -> Seq<char> {
    "DeviceNotFound"@
}

/// The arguments of the command that creates the identity of a device.
pub open spec fn create_identity_args(device_id: Seq<char>, hub: Seq<char>) -> Seq<Seq<char>> {
    seq![
        "az iot hub device-identity create"@,
        "--device-id"@,
        device_id,
        "--hub-name"@,
        hub,
        "--edge-enabled"@,
    ]
}

/// The arguments of the command that makes `parent` the parent of `child`.
pub open spec fn set_parent_args(parent: Seq<char>, child: Seq<char>, hub: Seq<char>) -> Seq<
    Seq<char>,
> {
    seq![
        "az iot hub device-identity parent set"@,
        "--device-id"@,
        child,
        "--parent-device-id"@,
        parent,
        "--hub-name"@,
        hub,
    ]
}

/// The arguments of the command that deletes the identity of a device.
pub open spec fn delete_identity_args(device_id: Seq<char>, hub: Seq<char>) -> Seq<Seq<char>> {
    seq!["az iot hub device-identity delete"@, "--device-id"@, device_id, "--hub-name"@, hub]
}

/// The line that announces a create-identity call.
pub open spec fn create_announcement(device_id: Seq<char>, hub: Seq<char>) -> Seq<char> {
    "Creating device "@ + device_id + " on hub "@ + hub
}

/// The line that reports a created identity.
pub open spec fn create_success(device_id: Seq<char>) -> Seq<char> {
    "Successfully created "@ + device_id
}

/// The headline of a failed create-identity call.
pub open spec fn create_failure(device_id: Seq<char>) -> Seq<char> {
    "Failed to create "@ + device_id
}

/// The line that announces a set-parent call.
pub open spec fn link_announcement(parent: Seq<char>, child: Seq<char>) -> Seq<char> {
    "Adding "@ + child + " as child of parent "@ + parent + "."@
}

/// The line that reports a parent link that was set.
pub open spec fn link_success(parent: Seq<char>, child: Seq<char>) -> Seq<char> {
    "Successfully added "@ + child + " as child of parent "@ + parent + "."@
}

/// The headline of a failed set-parent call.
pub open spec fn link_failure(parent: Seq<char>, child: Seq<char>) -> Seq<char> {
    "Failed to add "@ + child + " as child of parent "@ + parent
}

/// The line that announces a delete-identity call.
pub open spec fn delete_announcement(device_id: Seq<char>, hub: Seq<char>) -> Seq<char> {
    "Deleting device "@ + device_id + " on hub "@ + hub
}

/// The line that reports a deleted identity.
pub open spec fn delete_success(device_id: Seq<char>) -> Seq<char> {
    "Successfully deleted "@ + device_id
}

/// The headline of a failed delete-identity call.
pub open spec fn delete_failure(device_id: Seq<char>) -> Seq<char> {
    "Failed to delete "@ + device_id
}

/// Whether a delete call that ran counts as done: the command succeeded, or
/// its error stream says that the device was not there.
pub open spec fn delete_accepted(text: CallTextView) -> bool {
    match text {
        CallTextView::Exited { success, stdout: _, stderr } => success || occurs_in(
            not_found_marker(),
            stderr,
        ),
        CallTextView::NotRun(_) => false,
    }
}

/// The outcome and the log lines of a delete-identity call: it succeeds if
/// the command ran and either succeeded or reported that the device was not
/// there.
pub open spec fn deleted(verbose: bool, device_id: Seq<char>, text: CallTextView) -> (
    Outcome<()>,
    Seq<EmissionView>,
) {
    settled(
        verbose,
        device_id,
        text,
        delete_accepted(text),
        detail(verbose, delete_success(device_id)),
        delete_failure(device_id),
    )
}

/// The outcome and the log lines of a set-parent call: it succeeds if the
/// command ran and succeeded; a failure is recorded for the child.
pub open spec fn linked(
    verbose: bool,
    parent: Seq<char>,
    child: Seq<char>,
    text: CallTextView,
) -> (Outcome<()>, Seq<EmissionView>) {
    settled(
        verbose,
        child,
        text,
        exit_accepted(text),
        detail(verbose, link_success(parent, child)),
        link_failure(parent, child),
    )
}

/// Deleting is idempotent: a delete call whose command failed and reported
/// that the device was not there is a success, like one whose command
/// succeeded.
pub proof fn lemma_delete_idempotent(
    verbose: bool,
    device_id: Seq<char>,
    success: bool,
    stdout: Seq<char>,
    stderr: Seq<char>,
)
    requires
        success || occurs_in(not_found_marker(), stderr),
    ensures
        deleted(verbose, device_id, CallTextView::Exited { success, stdout, stderr }).0
            == Outcome::Success(()),
{
}

/// What the reader of a create call's payload made of it, as a model.
pub open spec fn payload_view(payload: Result<CreateResponse, String>) -> Result<
    CreatedIdentity,
    Seq<char>,
> {
    match payload {
        Ok(response) => Ok(response@),
        Err(complaint) => Err(complaint@),
    }
}

/// The outcome and the log lines of a create-identity call.
///
/// A call that could not be run fails with the system's complaint. A call
/// that ran always logs what it wrote, as a detail. It succeeds if the
/// command succeeded and its payload could be read; a payload that could
/// not be read is a failure with the reader's complaint as diagnostics.
pub open spec fn created(
    verbose: bool,
    device_id: Seq<char>,
    text: CallTextView,
    payload: Result<CreatedIdentity, Seq<char>>,
) -> (Outcome<CreatedIdentity>, Seq<EmissionView>) {
    let headline = create_failure(device_id);
    match text {
        CallTextView::NotRun(complaint) => {
            let failure = Failure { device_id, stderr: complaint, stdout: Seq::empty() };
            (Outcome::Failure(failure), seq![shown(failure_text(headline, failure))])
        },
        CallTextView::Exited { success, stdout, stderr } => {
            let captured = detail(verbose, stdout + stderr);
            if !success {
                let failure = Failure { device_id, stderr, stdout };
                (Outcome::Failure(failure), seq![captured, shown(failure_text(headline, failure))])
            } else {
                match payload {
                    Ok(identity) => (
                        Outcome::Success(identity),
                        seq![captured, detail(verbose, create_success(device_id))],
                    ),
                    Err(complaint) => {
                        let failure = Failure { device_id, stderr: complaint, stdout };
                        (
                            Outcome::Failure(failure),
                            seq![captured, shown(failure_text(headline, failure))],
                        )
                    },
                }
            }
        },
    }
}

/// What a workflow works through: the devices of the tree and the
/// parent-child pairs between them, both in pre-order.
pub struct FlatPlan<'a> {
    pub nodes: Vec<&'a str>,
    pub edges: Vec<(&'a str, &'a str)>,
}

/// The model of a [`FlatPlan`].
pub struct FlatPlanView {
    pub nodes: Seq<Seq<char>>,
    pub edges: Seq<(Seq<char>, Seq<char>)>,
}

impl<'a> View for FlatPlan<'a> {
    type V = FlatPlanView;

    open spec fn view(&self) -> FlatPlanView {
        FlatPlanView { nodes: self.nodes.deep_view(), edges: self.edges.deep_view() }
    }
}

impl FlatPlanView {
    /// There is one pair less than there are devices; the child of the pair
    /// at position `k` is the device at position `k + 1`, and its parent is
    /// a device listed before it. So every id of a pair is an id of a device.
    pub open spec fn well_formed(self) -> bool {
        &&& self.edges.len() == self.nodes.len() - 1
        &&& forall|k: int|
            0 <= k < self.edges.len() ==> (#[trigger] self.edges[k]).1 == self.nodes[k + 1]
        &&& forall|k: int|
            0 <= k < self.edges.len() ==> occurs_before(
                self.nodes,
                k + 1,
                (#[trigger] self.edges[k]).0,
            )
    }
}

impl<'a> FlatPlan<'a> {
    /// The plan of the tree below `root`.
    pub fn of(root: &'a DeviceConfig) -> (plan: Self)
        ensures
            plan@ == (FlatPlanView { nodes: flatten(root@), edges: edges(root@) }),
            plan@.well_formed(),
    {
        proof {
            lemma_walk_covers_tree(root@);
        }
        FlatPlan {
            nodes: flatten_devices(root),
            edges: IoTHubDeviceManager::get_relationships(root),
        }
    }
}

/// The model of an [`IoTHubDeviceManager`]: the registry, the device tree
/// and the verbosity of the log.
pub struct HubView {
    pub hub: Seq<char>,
    pub root: DeviceTree,
    pub verbose: bool,
}

/// Provisions the device tree in the registry: plans the calls, classifies
/// their results and decides what comes next.
pub struct IoTHubDeviceManager<'a> {
    config: &'a Config,
    file_manager: &'a FileManager,
}

impl<'a> View for IoTHubDeviceManager<'a> {
    type V = HubView;

    closed spec fn view(&self) -> HubView {
        HubView {
            hub: self.config@.hub,
            root: self.config@.root,
            verbose: self.file_manager@.verbose,
        }
    }
}

impl<'a> IoTHubDeviceManager<'a> {
    pub fn new(config: &'a Config, file_manager: &'a FileManager) -> (manager: Self)
        ensures
            manager@ == (HubView {
                hub: config@.hub,
                root: config@.root,
                verbose: file_manager@.verbose,
            }),
    {
        Self { config, file_manager }
    }

    /// The parent-child pairs of the tree below `device`: for each child,
    /// its own pair and then the pairs of its subtree.
    pub fn get_relationships(device: &'a DeviceConfig) -> (result: Vec<(&'a str, &'a str)>)
        ensures
            result.deep_view() == edges(device@),
        decreases device,
    {
        proof {
            device.lemma_view();
        }
        let mut result: Vec<(&str, &str)> = Vec::new();
        assert(result.deep_view() =~= Seq::empty());
        assert(device@.children.take(0) =~= Seq::empty());
        let mut i: usize = 0;
        while i < device.children.len()
            invariant
                i <= device.children.len(),
                device@.id == device.device_id@,
                device@.children.len() == device.children@.len(),
                forall|k: int|
                    0 <= k < device.children@.len() ==> #[trigger] device@.children[k]
                        == device.children@[k]@,
                result.deep_view() == child_edges(device@.id, device@.children.take(i as int)),
            decreases device.children.len() - i,
        {
            let ghost before = result.deep_view();
            let child = &device.children[i];
            proof {
                child.lemma_view();
            }
            result.push((device.device_id.as_str(), child.device_id.as_str()));
            let mut below = Self::get_relationships(child);
            let ghost pairs = below.deep_view();
            result.append(&mut below);
            proof {
                let done = device@.children.take(i as int);
                let next = device@.children.take(i + 1);
                assert(next.drop_last() =~= done);
                assert(next.last() == child@);
                assert(result.deep_view() =~= before + seq![(device@.id, child@.id)] + pairs);
            }
            i += 1;
        }
        assert(device@.children.take(i as int) =~= device@.children);
        result
    }

    /// The announcement and the command of the call that creates the
    /// identity of one device.
    pub fn create_device_identity_request(&self, device_id: &str) -> (request: CallRequest)
        ensures
            request@ == (CallRequestView {
                announce: detail(self@.verbose, create_announcement(device_id@, self@.hub)),
                args: create_identity_args(device_id@, self@.hub),
            }),
    {
        let hub = self.config.iothub.iot_hub_name.as_str();
        let text = cat4("Creating device ", device_id, " on hub ", hub);
        let announce = self.file_manager.print_verbose(text.as_str());
        let mut args: Vec<String> = Vec::new();
        args.push("az iot hub device-identity create".to_owned());
        args.push("--device-id".to_owned());
        args.push(device_id.to_owned());
        args.push("--hub-name".to_owned());
        args.push(hub.to_owned());
        args.push("--edge-enabled".to_owned());
        assert(args.deep_view() =~= create_identity_args(device_id@, self@.hub));
        CallRequest { announce, args }
    }

    /// Classifies the result of a create-identity call: see [`created`].
    pub fn create_device_identity(
        &self,
        device_id: &str,
        text: &CallText,
        payload: Result<CreateResponse, String>,
    ) -> (result: (OperationOutcome<CreateResponse>, Vec<Emission>))
        ensures
            (result.0.deep_view(), result.1.deep_view()) == created(
                self@.verbose,
                device_id@,
                text@,
                payload_view(payload),
            ),
    {
        let headline = cat2("Failed to create ", device_id);
        let mut lines: Vec<Emission> = Vec::new();
        match text {
            CallText::NotRun(complaint) => {
                let failure = CallFailure {
                    device_id: device_id.to_owned(),
                    stderr: complaint.clone(),
                    stdout: String::new(),
                };
                let line = failure_line(self.file_manager, headline.as_str(), &failure);
                lines.push(line);
                assert(lines.deep_view() =~= seq![line@]);
                (OperationOutcome::Failure(failure), lines)
            },
            CallText::Exited { success, stdout, stderr } => {
                let both = cat2(stdout.as_str(), stderr.as_str());
                let captured = self.file_manager.print_verbose(both.as_str());
                lines.push(captured);
                if !*success {
                    let failure = CallFailure {
                        device_id: device_id.to_owned(),
                        stderr: stderr.clone(),
                        stdout: stdout.clone(),
                    };
                    let line = failure_line(self.file_manager, headline.as_str(), &failure);
                    lines.push(line);
                    assert(lines.deep_view() =~= seq![captured@, line@]);
                    (OperationOutcome::Failure(failure), lines)
                } else {
                    match payload {
                        Ok(response) => {
                            let done = cat2("Successfully created ", device_id);
                            let line = self.file_manager.print_verbose(done.as_str());
                            lines.push(line);
                            assert(lines.deep_view() =~= seq![captured@, line@]);
                            (OperationOutcome::Success(response), lines)
                        },
                        Err(complaint) => {
                            let failure = CallFailure {
                                device_id: device_id.to_owned(),
                                stderr: complaint,
                                stdout: stdout.clone(),
                            };
                            let line = failure_line(self.file_manager, headline.as_str(), &failure);
                            lines.push(line);
                            assert(lines.deep_view() =~= seq![captured@, line@]);
                            (OperationOutcome::Failure(failure), lines)
                        },
                    }
                }
            },
        }
    }

    /// The announcement and the command of the call that makes `parent` the
    /// parent of `child`.
    pub fn create_parent_child_relationship_request(&self, parent: &str, child: &str) -> (request:
        CallRequest)
        ensures
            request@ == (CallRequestView {
                announce: detail(self@.verbose, link_announcement(parent@, child@)),
                args: set_parent_args(parent@, child@, self@.hub),
            }),
    {
        let hub = self.config.iothub.iot_hub_name.as_str();
        let text = cat5("Adding ", child, " as child of parent ", parent, ".");
        let announce = self.file_manager.print_verbose(text.as_str());
        let mut args: Vec<String> = Vec::new();
        args.push("az iot hub device-identity parent set".to_owned());
        args.push("--device-id".to_owned());
        args.push(child.to_owned());
        args.push("--parent-device-id".to_owned());
        args.push(parent.to_owned());
        args.push("--hub-name".to_owned());
        args.push(hub.to_owned());
        assert(args.deep_view() =~= set_parent_args(parent@, child@, self@.hub));
        CallRequest { announce, args }
    }

    /// Classifies the result of a set-parent call: it succeeds if the
    /// command ran and succeeded. A failure is recorded for the child.
    pub fn create_parent_child_relationship(&self, parent: &str, child: &str, text: &CallText) -> (result:
        (OperationOutcome<()>, Vec<Emission>))
        ensures
            (result.0.deep_view(), result.1.deep_view()) == linked(
                self@.verbose,
                parent@,
                child@,
                text@,
            ),
            result.0.deep_view() is Success <==> exit_accepted(text@),
    {
        let accepted = exited_well(text);
        let done = cat5("Successfully added ", child, " as child of parent ", parent, ".");
        let success = self.file_manager.print_verbose(done.as_str());
        let headline = cat4("Failed to add ", child, " as child of parent ", parent);
        settle(self.file_manager, child, text, accepted, success, headline.as_str())
    }

    /// The announcement and the command of the call that deletes the
    /// identity of one device.
    pub fn delete_device_identity_request(&self, device_id: &str) -> (request: CallRequest)
        ensures
            request@ == (CallRequestView {
                announce: detail(self@.verbose, delete_announcement(device_id@, self@.hub)),
                args: delete_identity_args(device_id@, self@.hub),
            }),
    {
        let hub = self.config.iothub.iot_hub_name.as_str();
        let text = cat4("Deleting device ", device_id, " on hub ", hub);
        let announce = self.file_manager.print_verbose(text.as_str());
        let mut args: Vec<String> = Vec::new();
        args.push("az iot hub device-identity delete".to_owned());
        args.push("--device-id".to_owned());
        args.push(device_id.to_owned());
        args.push("--hub-name".to_owned());
        args.push(hub.to_owned());
        assert(args.deep_view() =~= delete_identity_args(device_id@, self@.hub));
        CallRequest { announce, args }
    }

    /// Classifies the result of a delete-identity call: it succeeds if the
    /// command ran and either succeeded or reported that the device was not
    /// there, so that deleting an absent device is no failure.
    pub fn delete_device_identity(&self, device_id: &str, text: &CallText) -> (result: (
        OperationOutcome<()>,
        Vec<Emission>,
    ))
        ensures
            (result.0.deep_view(), result.1.deep_view()) == deleted(
                self@.verbose,
                device_id@,
                text@,
            ),
            result.0.deep_view() is Success <==> delete_accepted(text@),
    {
        let accepted = match text {
            CallText::Exited { success, stdout: _, stderr } => *success || text_contains(
                stderr.as_str(),
                "DeviceNotFound",
            ),
            CallText::NotRun(_) => false,
        };
        let done = cat2("Successfully deleted ", device_id);
        let success = self.file_manager.print_verbose(done.as_str());
        let headline = cat2("Failed to delete ", device_id);
        settle(self.file_manager, device_id, text, accepted, success, headline.as_str())
    }

    /// One step of the create workflow: see [`create_step`].
    pub fn create_devices(&self, state: CreateState, event: CreateEvent) -> (next: (
        CreateState,
        Wave,
    ))
        ensures
            (next.0@, next.1@) == create_step(self@.hub, self@.root, state@, event@),
    {
        match state {
            CreateState::Idle => match event {
                CreateEvent::Start => {
                    let nodes = flatten_devices(&self.config.root_device);
                    let count = decimal_string(nodes.len() as u64);
                    let text = cat4(
                        "Creating ",
                        count.as_str(),
                        " devices in hub ",
                        self.config.iothub.iot_hub_name.as_str(),
                    );
                    let summary = self.file_manager.print(text.as_str());
                    (CreateState::CreatingIdentities, Wave::of(summary, calls_to_create(&nodes)))
                },
                _ => (CreateState::Idle, Wave::none()),
            },
            CreateState::CreatingIdentities => match event {
                CreateEvent::Identities(outcomes) => match first_failure_of(&outcomes) {
                    Some(failure) => (CreateState::Failed(failure), Wave::none()),
                    None => {
                        let created = created_identities(&outcomes);
                        let pairs = Self::get_relationships(&self.config.root_device);
                        let count = decimal_string(pairs.len() as u64);
                        let text = cat3(
                            "Created all devices. Adding ",
                            count.as_str(),
                            " parent-child relationships.",
                        );
                        let summary = self.file_manager.print(text.as_str());
                        (CreateState::LinkingParents(created), Wave::of(summary, calls_to_link(&pairs)))
                    },
                },
                _ => (CreateState::CreatingIdentities, Wave::none()),
            },
            CreateState::LinkingParents(created) => match event {
                CreateEvent::Links(outcomes) => match first_failure_of(&outcomes) {
                    Some(failure) => (CreateState::Failed(failure), Wave::none()),
                    None => (CreateState::Done(created), Wave::none()),
                },
                _ => (CreateState::LinkingParents(created), Wave::none()),
            },
            CreateState::Done(created) => (CreateState::Done(created), Wave::none()),
            CreateState::Failed(failure) => (CreateState::Failed(failure), Wave::none()),
        }
    }

    /// One step of the delete workflow: see [`delete_step`].
    pub fn delete_devices(&self, state: DeleteState, event: DeleteEvent) -> (next: (
        DeleteState,
        Wave,
    ))
        ensures
            (next.0@, next.1@) == delete_step(self@.hub, self@.root, state@, event@),
    {
        match state {
            DeleteState::Idle => match event {
                DeleteEvent::Start => {
                    let nodes = flatten_devices(&self.config.root_device);
                    let count = decimal_string(nodes.len() as u64);
                    let text = cat4(
                        "Deleting ",
                        count.as_str(),
                        " devices from hub ",
                        self.config.iothub.iot_hub_name.as_str(),
                    );
                    let summary = self.file_manager.print(text.as_str());
                    (DeleteState::DeletingIdentities, Wave::of(summary, calls_to_delete(&nodes)))
                },
                _ => (DeleteState::Idle, Wave::none()),
            },
            DeleteState::DeletingIdentities => match event {
                DeleteEvent::Identities(outcomes) => {
                    let report = tally_of(&outcomes);
                    let text = if report.succeeded == report.attempted {
                        "Deleted all devices.".to_owned()
                    } else {
                        let succeeded = decimal_string(report.succeeded as u64);
                        let failed = decimal_string((report.attempted - report.succeeded) as u64);
                        cat5(
                            "Successfully deleted ",
                            succeeded.as_str(),
                            " devices, ",
                            failed.as_str(),
                            " failed. For more information use the -v flag.",
                        )
                    };
                    let summary = self.file_manager.print(text.as_str());
                    let wave = Wave::of(summary, Vec::new());
                    assert(wave@.calls =~= Seq::empty());
                    (DeleteState::Done(report), wave)
                },
                _ => (DeleteState::DeletingIdentities, Wave::none()),
            },
            DeleteState::Done(report) => (DeleteState::Done(report), Wave::none()),
        }
    }
}

/// What the successful create calls of a wave returned, in the order of the
/// wave.
pub fn created_identities(outcomes: &Vec<OperationOutcome<CreateResponse>>) -> (created: Vec<
    CreateResponse,
>)
    ensures
        created.deep_view() == payloads(outcomes.deep_view()),
{
    let mut created: Vec<CreateResponse> = Vec::new();
    let mut i: usize = 0;
    assert(outcomes.deep_view().take(0) =~= Seq::empty());
    assert(created.deep_view() =~= Seq::empty());
    while i < outcomes.len()
        invariant
            i <= outcomes.len(),
            outcomes.deep_view().len() == outcomes.len(),
            created.deep_view() == payloads(outcomes.deep_view().take(i as int)),
        decreases outcomes.len() - i,
    {
        let ghost before = created.deep_view();
        proof {
            let next = outcomes.deep_view().take(i + 1);
            assert(next.drop_last() =~= outcomes.deep_view().take(i as int));
            assert(next.last() == outcomes@[i as int].deep_view());
        }
        match &outcomes[i] {
            OperationOutcome::Success(response) => {
                created.push(response.clone());
                assert(created.deep_view() =~= before.push(response@));
            },
            OperationOutcome::Failure(_) => {},
        }
        i += 1;
    }
    assert(outcomes.deep_view().take(i as int) =~= outcomes.deep_view());
    created
}

/// Counts a wave: see [`tally`].
pub fn tally_of<P: DeepView>(outcomes: &Vec<OperationOutcome<P>>) -> (report: ProvisioningReport)
    ensures
        report@ == tally(outcomes.deep_view()),
        report@.well_formed(),
{
    let failed = collect_failures(outcomes);
    proof {
        lemma_success_count(outcomes.deep_view());
    }
    let attempted = outcomes.len();
    let succeeded = attempted - failed.len();
    ProvisioningReport { attempted, succeeded, failed }
}

} // verus!

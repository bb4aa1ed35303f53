use crate::client::{exit_accepted, exited_well, settle, settled};
use crate::config::{Config, DeviceTree};
use crate::files::{detail, shown, Emission, EmissionView, FileManager};
use crate::outcome::{
    all_succeeded, first_failure, first_failure_of, lemma_no_failure, lemma_some_failure,
    CallFailure, Failure, OperationOutcome, Outcome,
};
use crate::text::{cat2, cat3, decimal, decimal_string};
use crate::walker::{flatten, flatten_devices, lemma_flatten_len, node_count};
use crate::wave::{
    calls_to_certify, certificate_calls, no_wave, wave_of, CallText, CallTextView, CallView, Wave,
    WaveView,
};
use vstd::prelude::*;

verus! {

/// The name under which the root authority's certificate is recorded where
/// a device id is expected.
pub open spec fn root_sentinel() -> Seq<char> {
    "root"@
}

/// The command that issues certificates when no other is configured.
pub open spec fn default_tool() -> Seq<char> {
    "openssl"@
}

/// The arguments that make the certificate tool write a new self-signed
/// certificate and its key to the two given paths.
pub open spec fn certificate_args(key_path: Seq<char>, cert_path: Seq<char>) -> Seq<Seq<char>> {
    seq![
        "req"@,
        "-x509"@,
        "-new"@,
        "-newkey"@,
        "rsa:4096"@,
        "-days"@,
        "365"@,
        "-nodes"@,
        "-keyout"@,
        key_path,
        "-out"@,
        cert_path,
        "-subj"@,
        "/CN=Azure_IoT_Nested_Cert"@,
    ]
}

/// The line that announces the root authority's certificate call.
pub open spec fn root_announcement() -> Seq<char> {
    "Making Root CA."@
}

/// The line that reports the root authority's certificate.
pub open spec fn root_success(cert_path: Seq<char>) -> Seq<char> {
    "Successfully made Root CA "@ + cert_path + "."@
}

/// The headline of a failed root certificate call.
pub open spec fn root_failure() -> Seq<char> {
    "Failed to make Root CA"@
}

/// The line that announces the certificate call of a device.
pub open spec fn device_announcement(device_id: Seq<char>) -> Seq<char> {
    "Making device CA for "@ + device_id + "."@
}

/// The line that reports the certificate of a device.
pub open spec fn device_success(cert_path: Seq<char>) -> Seq<char> {
    "Successfully made CA "@ + cert_path + "."@
}

/// The headline of a failed device certificate call.
pub open spec fn device_failure(device_id: Seq<char>) -> Seq<char> {
    "Failed to make CA for "@ + device_id
}

/// The line that opens the wave of certificate calls.
pub open spec fn issuing_summary(devices: nat) -> Seq<char> {
    "Creating certs for "@ + decimal(devices) + " devices"@
}

/// The line that closes the wave of certificate calls.
pub open spec fn issued_summary() -> Seq<char> {
    "Created all device certs."@
}

/// Where one certificate goes: a line that announces the call, the folder
/// below the base directory that has to exist, and the names of the key
/// file and the certificate file in it.
pub struct CertRequest {
    pub announce: Emission,
    pub folder: String,
    pub key_file: String,
    pub cert_file: String,
}

/// The model of a [`CertRequest`].
pub struct CertRequestView {
    pub announce: EmissionView,
    pub folder: Seq<char>,
    pub key_file: Seq<char>,
    pub cert_file: Seq<char>,
}

impl View for CertRequest {
    type V = CertRequestView;

    open spec fn view(&self) -> CertRequestView {
        CertRequestView {
            announce: self.announce@,
            folder: self.folder@,
            key_file: self.key_file@,
            cert_file: self.cert_file@,
        }
    }
}

/// Where the root authority's certificate goes.
pub open spec fn root_request() -> CertRequestView {
    CertRequestView {
        announce: shown(root_announcement()),
        folder: "certs"@,
        key_file: "root.key.pem"@,
        cert_file: "root.pem"@,
    }
}

/// Where the certificate of one device goes: into a folder of its own.
pub open spec fn device_request(verbose: bool, device_id: Seq<char>) -> CertRequestView {
    CertRequestView {
        announce: detail(verbose, device_announcement(device_id)),
        folder: device_id,
        key_file: "key.pem"@,
        cert_file: "cert.pem"@,
    }
}

/// The outcome and the log lines of the call that issues the root
/// authority's certificate: it succeeds if the tool ran and succeeded, and
/// its success is shown whatever the verbosity.
pub open spec fn root_issued(verbose: bool, text: CallTextView, cert_path: Seq<char>) -> (
    Outcome<()>,
    Seq<EmissionView>,
) {
    settled(
        verbose,
        root_sentinel(),
        text,
        exit_accepted(text),
        shown(root_success(cert_path)),
        root_failure(),
    )
}

/// The outcome and the log lines of the call that issues one device's
/// certificate: it succeeds if the tool ran and succeeded.
pub open spec fn device_issued(
    verbose: bool,
    device_id: Seq<char>,
    text: CallTextView,
    cert_path: Seq<char>,
) -> (Outcome<()>, Seq<EmissionView>) {
    settled(
        verbose,
        device_id,
        text,
        exit_accepted(text),
        detail(verbose, device_success(cert_path)),
        device_failure(device_id),
    )
}

/// Where the issuing of the device certificates stands.
pub enum CertState {
    /// Nothing has been asked for yet.
    Idle,
    /// The certificates are being issued.
    Issuing,
    /// Every device has its certificate.
    Done,
    /// A call failed; the first failure in the order of the wave is kept.
    /// Certificates that were issued stay where they are.
    Failed(CallFailure),
}

/// The model of a [`CertState`].
pub enum CertStateView {
    Idle,
    Issuing,
    Done,
    Failed(Failure),
}

impl View for CertState {
    type V = CertStateView;

    open spec fn view(&self) -> CertStateView {
        match self {
            CertState::Idle => CertStateView::Idle,
            CertState::Issuing => CertStateView::Issuing,
            CertState::Done => CertStateView::Done,
            CertState::Failed(failure) => CertStateView::Failed(failure@),
        }
    }
}

/// What the issuing of the device certificates is told: to start, or how
/// the wave went.
pub enum CertEvent {
    Start,
    Issued(Vec<OperationOutcome<()>>),
}

/// The model of a [`CertEvent`].
pub enum CertEventView {
    Start,
    Issued(Seq<Outcome<()>>),
}

impl View for CertEvent {
    type V = CertEventView;

    open spec fn view(&self) -> CertEventView {
        match self {
            CertEvent::Start => CertEventView::Start,
            CertEvent::Issued(outcomes) => CertEventView::Issued(outcomes.deep_view()),
        }
    }
}

/// One step of issuing the device certificates.
///
/// From `Idle`, `Start` asks for one certificate call per device. When that
/// wave is in, the first failure in the order of the wave fails the whole;
/// if there is none, the end is shown in one line. An event that the state
/// does not wait for changes nothing and asks for nothing.
pub open spec fn cert_step(root: DeviceTree, state: CertStateView, event: CertEventView) -> (
    CertStateView,
    WaveView,
) {
    match state {
        CertStateView::Idle => match event {
            CertEventView::Start => (
                CertStateView::Issuing,
                wave_of(
                    shown(issuing_summary(flatten(root).len())),
                    certificate_calls(flatten(root)),
                ),
            ),
            _ => (state, no_wave()),
        },
        CertStateView::Issuing => match event {
            CertEventView::Issued(outcomes) => match first_failure(outcomes) {
                Some(failure) => (CertStateView::Failed(failure), no_wave()),
                None => (CertStateView::Done, wave_of(shown(issued_summary()), Seq::empty())),
            },
            _ => (state, no_wave()),
        },
        CertStateView::Done => (state, no_wave()),
        CertStateView::Failed(_) => (state, no_wave()),
    }
}

/// Issuing the device certificates asks for one certificate call per
/// device, in pre-order, when it starts, and for no call at any other step.
pub proof fn lemma_cert_fan_out(root: DeviceTree, state: CertStateView, event: CertEventView)
    ensures
        ({
            let calls = cert_step(root, state, event).1.calls;
            if state is Idle && event is Start {
                &&& calls.len() == node_count(root)
                &&& forall|i: int|
                    0 <= i < calls.len() ==> #[trigger] calls[i] == CallView::DeviceCertificate(
                        flatten(root)[i],
                    )
            } else {
                calls.len() == 0
            }
        }),
{
    lemma_flatten_len(root);
}

/// Issuing the device certificates is done exactly if every call of the
/// wave succeeded; otherwise it has failed with the first failure in the
/// order of the wave.
pub proof fn lemma_cert_first_error_wins(root: DeviceTree, outcomes: Seq<Outcome<()>>)
    ensures
        ({
            let end = cert_step(root, CertStateView::Issuing, CertEventView::Issued(outcomes)).0;
            if all_succeeded(outcomes) {
                end == CertStateView::Done
            } else {
                first_failure(outcomes).is_some() && end == CertStateView::Failed(
                    first_failure(outcomes).unwrap(),
                )
            }
        }),
{
    if all_succeeded(outcomes) {
        lemma_no_failure(outcomes);
    } else {
        lemma_some_failure(outcomes);
    }
}

/// The model of a [`CertManager`]: the device tree, the verbosity of the
/// log, and the certificate tool if one is configured.
pub struct CertManagerView {
    pub root: DeviceTree,
    pub verbose: bool,
    pub openssl_path: Option<Seq<char>>,
}

impl CertManagerView {
    /// The command that issues certificates.
    pub open spec fn tool(self) -> Seq<char> {
        match self.openssl_path {
            Some(path) => path,
            None => default_tool(),
        }
    }
}

/// Issues a self-signed certificate for the root authority and for every
/// device of the tree: plans the calls and classifies their results.
pub struct CertManager<'a> {
    config: &'a Config,
    file_manager: &'a FileManager,
    openssl_path: Option<&'a str>,
}

impl<'a> View for CertManager<'a> {
    type V = CertManagerView;

    closed spec fn view(&self) -> CertManagerView {
        CertManagerView {
            root: self.config@.root,
            verbose: self.file_manager@.verbose,
            openssl_path: match self.openssl_path {
                Some(path) => Some(path@),
                None => None,
            },
        }
    }
}

impl<'a> CertManager<'a> {
    pub fn new(
        config: &'a Config,
        file_manager: &'a FileManager,
        openssl_path: Option<&'a str>,
    ) -> (manager: Self)
        ensures
            manager@ == (CertManagerView {
                root: config@.root,
                verbose: file_manager@.verbose,
                openssl_path: match openssl_path {
                    Some(path) => Some(path@),
                    None => None,
                },
            }),
    {
        Self { config, file_manager, openssl_path }
    }

    /// The command that issues certificates: the configured one, or the
    /// tool found by its usual name.
    pub fn tool(&self) -> (tool: &str)
        ensures
            tool@ == self@.tool(),
    {
        match self.openssl_path {
            Some(path) => path,
            None => "openssl",
        }
    }

    /// The arguments of one certificate call.
    pub fn certificate_args(key_path: &str, cert_path: &str) -> (args: Vec<String>)
        ensures
            args.deep_view() == certificate_args(key_path@, cert_path@),
    {
        let mut args: Vec<String> = Vec::new();
        args.push("req".to_owned());
        args.push("-x509".to_owned());
        args.push("-new".to_owned());
        args.push("-newkey".to_owned());
        args.push("rsa:4096".to_owned());
        args.push("-days".to_owned());
        args.push("365".to_owned());
        args.push("-nodes".to_owned());
        args.push("-keyout".to_owned());
        args.push(key_path.to_owned());
        args.push("-out".to_owned());
        args.push(cert_path.to_owned());
        args.push("-subj".to_owned());
        args.push("/CN=Azure_IoT_Nested_Cert".to_owned());
        assert(args.deep_view() =~= certificate_args(key_path@, cert_path@));
        args
    }

    /// Where the root authority's certificate goes.
    pub fn make_root_cert_request(&self) -> (request: CertRequest)
        ensures
            request@ == root_request(),
    {
        CertRequest {
            announce: self.file_manager.print("Making Root CA."),
            folder: "certs".to_owned(),
            key_file: "root.key.pem".to_owned(),
            cert_file: "root.pem".to_owned(),
        }
    }

    /// Classifies the result of the root authority's certificate call: see
    /// [`root_issued`]. `cert_path` is the certificate's path as the log
    /// shows it.
    pub fn make_root_cert(&self, text: &CallText, cert_path: &str) -> (result: (
        OperationOutcome<()>,
        Vec<Emission>,
    ))
        ensures
            (result.0.deep_view(), result.1.deep_view()) == root_issued(
                self@.verbose,
                text@,
                cert_path@,
            ),
            result.0.deep_view() is Success <==> exit_accepted(text@),
    {
        let done = cat3("Successfully made Root CA ", cert_path, ".");
        let success = self.file_manager.print(done.as_str());
        settle(self.file_manager, "root", text, exited_well(text), success, "Failed to make Root CA")
    }

    /// Where the certificate of one device goes.
    pub fn make_device_cert_request(&self, device_id: &str) -> (request: CertRequest)
        ensures
            request@ == device_request(self@.verbose, device_id@),
    {
        let text = cat3("Making device CA for ", device_id, ".");
        CertRequest {
            announce: self.file_manager.print_verbose(text.as_str()),
            folder: device_id.to_owned(),
            key_file: "key.pem".to_owned(),
            cert_file: "cert.pem".to_owned(),
        }
    }

    /// Classifies the result of one device's certificate call: see
    /// [`device_issued`]. `cert_path` is the certificate's path as the log
    /// shows it.
    pub fn make_device_cert(&self, device_id: &str, text: &CallText, cert_path: &str) -> (result: (
        OperationOutcome<()>,
        Vec<Emission>,
    ))
        ensures
            (result.0.deep_view(), result.1.deep_view()) == device_issued(
                self@.verbose,
                device_id@,
                text@,
                cert_path@,
            ),
            result.0.deep_view() is Success <==> exit_accepted(text@),
    {
        let done = cat3("Successfully made CA ", cert_path, ".");
        let success = self.file_manager.print_verbose(done.as_str());
        let headline = cat2("Failed to make CA for ", device_id);
        settle(self.file_manager, device_id, text, exited_well(text), success, headline.as_str())
    }

    /// One step of issuing the device certificates: see [`cert_step`].
    pub fn make_all_device_certs(&self, state: CertState, event: CertEvent) -> (next: (
        CertState,
        Wave,
    ))
        ensures
            (next.0@, next.1@) == cert_step(self@.root, state@, event@),
    {
        match state {
            CertState::Idle => match event {
                CertEvent::Start => {
                    let nodes = flatten_devices(&self.config.root_device);
                    let count = decimal_string(nodes.len() as u64);
                    let text = cat3("Creating certs for ", count.as_str(), " devices");
                    let summary = self.file_manager.print(text.as_str());
                    (CertState::Issuing, Wave::of(summary, calls_to_certify(&nodes)))
                },
                _ => (CertState::Idle, Wave::none()),
            },
            CertState::Issuing => match event {
                CertEvent::Issued(outcomes) => match first_failure_of(&outcomes) {
                    Some(failure) => (CertState::Failed(failure), Wave::none()),
                    None => {
                        let summary = self.file_manager.print("Created all device certs.");
                        let wave = Wave::of(summary, Vec::new());
                        assert(wave@.calls =~= Seq::empty());
                        (CertState::Done, wave)
                    },
                },
                _ => (CertState::Issuing, Wave::none()),
            },
            CertState::Done => (CertState::Done, Wave::none()),
            CertState::Failed(failure) => (CertState::Failed(failure), Wave::none()),
        }
    }
}

} // verus!

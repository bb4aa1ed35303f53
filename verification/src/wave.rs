use crate::files::{Emission, EmissionView};
use crate::outcome::{CallResult, CallResultView};
use crate::text::{lossy_decode, lossy_text};
use vstd::prelude::*;

verus! {

/// One external call of a wave, named by what it is made for.
pub enum Call {
    CreateIdentity(String),
    SetParent { parent: String, child: String },
    DeleteIdentity(String),
    DeviceCertificate(String),
}

/// The model of a [`Call`].
pub enum CallView {
    CreateIdentity(Seq<char>),
    SetParent { parent: Seq<char>, child: Seq<char> },
    DeleteIdentity(Seq<char>),
    DeviceCertificate(Seq<char>),
}

impl View for Call {
    type V = CallView;

    open spec fn view(&self) -> CallView {
        match self {
            Call::CreateIdentity(id) => CallView::CreateIdentity(id@),
            Call::SetParent { parent, child } => CallView::SetParent {
                parent: parent@,
                child: child@,
            },
            Call::DeleteIdentity(id) => CallView::DeleteIdentity(id@),
            Call::DeviceCertificate(id) => CallView::DeviceCertificate(id@),
        }
    }
}

impl DeepView for Call {
    type V = CallView;

    open spec fn deep_view(&self) -> CallView {
        self@
    }
}

/// What the orchestrator asks for next: lines for the activity log, then a
/// batch of calls to launch together and to join before anything else
/// happens. A wave without calls ends the exchange.
pub struct Wave {
    pub log: Vec<Emission>,
    pub calls: Vec<Call>,
}

/// The model of a [`Wave`].
pub struct WaveView {
    pub log: Seq<EmissionView>,
    pub calls: Seq<CallView>,
}

impl View for Wave {
    type V = WaveView;

    open spec fn view(&self) -> WaveView {
        WaveView { log: self.log.deep_view(), calls: self.calls.deep_view() }
    }
}

/// The wave that asks for nothing.
pub open spec fn no_wave() -> WaveView {
    WaveView { log: Seq::empty(), calls: Seq::empty() }
}

/// A wave of one summary line and the given calls.
pub open spec fn wave_of(summary: EmissionView, calls: Seq<CallView>) -> WaveView {
    WaveView { log: seq![summary], calls }
}

/// One create-identity call per id, in the order of the ids.
pub open spec fn create_calls(ids: Seq<Seq<char>>) -> Seq<CallView> {
    Seq::new(ids.len(), |i: int| CallView::CreateIdentity(ids[i]))
}

/// One delete-identity call per id, in the order of the ids.
pub open spec fn delete_calls(ids: Seq<Seq<char>>) -> Seq<CallView> {
    Seq::new(ids.len(), |i: int| CallView::DeleteIdentity(ids[i]))
}

/// One certificate call per id, in the order of the ids.
pub open spec fn certificate_calls(ids: Seq<Seq<char>>) -> Seq<CallView> {
    Seq::new(ids.len(), |i: int| CallView::DeviceCertificate(ids[i]))
}

/// One set-parent call per pair, in the order of the pairs.
pub open spec fn link_calls(pairs: Seq<(Seq<char>, Seq<char>)>) -> Seq<CallView> {
    Seq::new(pairs.len(), |i: int| CallView::SetParent { parent: pairs[i].0, child: pairs[i].1 })
}

impl Wave {
    /// The wave that asks for nothing.
    pub fn none() -> (wave: Wave)
        ensures
            wave@ == no_wave(),
    {
        let wave = Wave { log: Vec::new(), calls: Vec::new() };
        assert(wave@.log =~= Seq::empty());
        assert(wave@.calls =~= Seq::empty());
        wave
    }

    /// A wave of one summary line and the given calls.
    pub fn of(summary: Emission, calls: Vec<Call>) -> (wave: Wave)
        ensures
            wave@ == wave_of(summary@, calls.deep_view()),
    {
        let mut log: Vec<Emission> = Vec::new();
        log.push(summary);
        assert(log.deep_view() =~= seq![summary@]);
        Wave { log, calls }
    }
}

/// One create-identity call per id.
pub fn calls_to_create(ids: &Vec<&str>) -> (calls: Vec<Call>)
    ensures
        calls.deep_view() == create_calls(ids.deep_view()),
{
    let mut calls: Vec<Call> = Vec::new();
    let mut i: usize = 0;
    while i < ids.len()
        invariant
            i <= ids.len(),
            calls.len() == i,
            forall|k: int| 0 <= k < i ==> #[trigger] calls@[k]@ == CallView::CreateIdentity(ids@[k]@),
        decreases ids.len() - i,
    {
        calls.push(Call::CreateIdentity(ids[i].to_owned()));
        i += 1;
    }
    assert(calls.deep_view() =~= create_calls(ids.deep_view()));
    calls
}

/// One delete-identity call per id.
pub fn calls_to_delete(ids: &Vec<&str>) -> (calls: Vec<Call>)
    ensures
        calls.deep_view() == delete_calls(ids.deep_view()),
{
    let mut calls: Vec<Call> = Vec::new();
    let mut i: usize = 0;
    while i < ids.len()
        invariant
            i <= ids.len(),
            calls.len() == i,
            forall|k: int| 0 <= k < i ==> #[trigger] calls@[k]@ == CallView::DeleteIdentity(ids@[k]@),
        decreases ids.len() - i,
    {
        calls.push(Call::DeleteIdentity(ids[i].to_owned()));
        i += 1;
    }
    assert(calls.deep_view() =~= delete_calls(ids.deep_view()));
    calls
}

/// One certificate call per id.
pub fn calls_to_certify(ids: &Vec<&str>) -> (calls: Vec<Call>)
    ensures
        calls.deep_view() == certificate_calls(ids.deep_view()),
{
    let mut calls: Vec<Call> = Vec::new();
    let mut i: usize = 0;
    while i < ids.len()
        invariant
            i <= ids.len(),
            calls.len() == i,
            forall|k: int|
                0 <= k < i ==> #[trigger] calls@[k]@ == CallView::DeviceCertificate(ids@[k]@),
        decreases ids.len() - i,
    {
        calls.push(Call::DeviceCertificate(ids[i].to_owned()));
        i += 1;
    }
    assert(calls.deep_view() =~= certificate_calls(ids.deep_view()));
    calls
}

/// One set-parent call per pair.
pub fn calls_to_link(pairs: &Vec<(&str, &str)>) -> (calls: Vec<Call>)
    ensures
        calls.deep_view() == link_calls(pairs.deep_view()),
{
    let mut calls: Vec<Call> = Vec::new();
    let mut i: usize = 0;
    while i < pairs.len()
        invariant
            i <= pairs.len(),
            calls.len() == i,
            forall|k: int|
                0 <= k < i ==> #[trigger] calls@[k]@ == (CallView::SetParent {
                    parent: pairs@[k].0@,
                    child: pairs@[k].1@,
                }),
        decreases pairs.len() - i,
    {
        let pair = pairs[i];
        calls.push(Call::SetParent { parent: pair.0.to_owned(), child: pair.1.to_owned() });
        i += 1;
    }
    assert(calls.deep_view() =~= link_calls(pairs.deep_view()));
    calls
}

/// What is handed to the system for one call: a line that announces the
/// call, and the arguments of the command.
pub struct CallRequest {
    pub announce: Emission,
    pub args: Vec<String>,
}

/// The model of a [`CallRequest`].
pub struct CallRequestView {
    pub announce: EmissionView,
    pub args: Seq<Seq<char>>,
}

impl View for CallRequest {
    type V = CallRequestView;

    open spec fn view(&self) -> CallRequestView {
        CallRequestView { announce: self.announce@, args: self.args.deep_view() }
    }
}

/// How one external call ended, with what the command wrote read as text.
pub enum CallText {
    Exited { success: bool, stdout: String, stderr: String },
    NotRun(String),
}

/// The model of a [`CallText`].
pub enum CallTextView {
    Exited { success: bool, stdout: Seq<char>, stderr: Seq<char> },
    NotRun(Seq<char>),
}

impl View for CallText {
    type V = CallTextView;

    open spec fn view(&self) -> CallTextView {
        match self {
            CallText::Exited { success, stdout, stderr } => CallTextView::Exited {
                success: *success,
                stdout: stdout@,
                stderr: stderr@,
            },
            CallText::NotRun(complaint) => CallTextView::NotRun(complaint@),
        }
    }
}

/// A call's result with both streams decoded, malformed bytes replaced.
pub open spec fn decoded(result: CallResultView) -> CallTextView {
    match result {
        CallResultView::Exited(output) => CallTextView::Exited {
            success: output.success,
            stdout: lossy_decode(output.stdout),
            stderr: lossy_decode(output.stderr),
        },
        CallResultView::NotRun(complaint) => CallTextView::NotRun(complaint),
    }
}

/// Reads what a command wrote as text.
pub fn read_result(result: &CallResult) -> (text: CallText)
    ensures
        text@ == decoded(result@),
{
    match result {
        CallResult::Exited(output) => CallText::Exited {
            success: output.success,
            stdout: lossy_text(output.stdout.as_slice()),
            stderr: lossy_text(output.stderr.as_slice()),
        },
        CallResult::NotRun(complaint) => CallText::NotRun(complaint.clone()),
    }
}

} // verus!

use vstd::prelude::*;

verus! {

/// What a finished external command left behind.
pub struct CommandOutput {
    pub success: bool,
    pub stdout: Vec<u8>,
    pub stderr: Vec<u8>,
}

/// The model of a [`CommandOutput`].
pub struct CommandOutputView {
    pub success: bool,
    pub stdout: Seq<u8>,
    pub stderr: Seq<u8>,
}

impl View for CommandOutput {
    type V = CommandOutputView;

    open spec fn view(&self) -> CommandOutputView {
        CommandOutputView { success: self.success, stdout: self.stdout@, stderr: self.stderr@ }
    }
}

/// How one external call ended: the command ran and exited, or it could not
/// be run at all and the system's complaint is kept.
pub enum CallResult {
    Exited(CommandOutput),
    NotRun(String),
}

/// The model of a [`CallResult`].
pub enum CallResultView {
    Exited(CommandOutputView),
    NotRun(Seq<char>),
}

impl View for CallResult {
    type V = CallResultView;

    open spec fn view(&self) -> CallResultView {
        match self {
            CallResult::Exited(output) => CallResultView::Exited(output@),
            CallResult::NotRun(complaint) => CallResultView::NotRun(complaint@),
        }
    }
}

/// A failed call: the device it was made for and the captured diagnostics.
pub struct CallFailure {
    pub device_id: String,
    pub stderr: String,
    pub stdout: String,
}

/// The model of a [`CallFailure`].
pub struct Failure {
    pub device_id: Seq<char>,
    pub stderr: Seq<char>,
    pub stdout: Seq<char>,
}

impl View for CallFailure {
    type V = Failure;

    open spec fn view(&self) -> Failure {
        Failure { device_id: self.device_id@, stderr: self.stderr@, stdout: self.stdout@ }
    }
}

impl DeepView for CallFailure {
    type V = Failure;

    open spec fn deep_view(&self) -> Failure {
        self@
    }
}

impl Clone for CallFailure {
    fn clone(&self) -> (copy: Self)
        ensures
            copy@ == self@,
    {
        CallFailure {
            device_id: self.device_id.clone(),
            stderr: self.stderr.clone(),
            stdout: self.stdout.clone(),
        }
    }
}

/// The classified result of one external call against one device.
pub enum OperationOutcome<P> {
    Success(P),
    Failure(CallFailure),
}

/// The model of an [`OperationOutcome`].
pub enum Outcome<V> {
    Success(V),
    Failure(Failure),
}

impl<P: DeepView> DeepView for OperationOutcome<P> {
    type V = Outcome<P::V>;

    open spec fn deep_view(&self) -> Outcome<P::V> {
        match self {
            OperationOutcome::Success(payload) => Outcome::Success(payload.deep_view()),
            OperationOutcome::Failure(failure) => Outcome::Failure(failure@),
        }
    }
}

/// Every call of the wave succeeded.
pub open spec fn all_succeeded<V>(outcomes: Seq<Outcome<V>>) -> bool {
    forall|i: int| 0 <= i < outcomes.len() ==> #[trigger] outcomes[i] is Success
}

/// The call at position `k` failed and every call before it succeeded.
pub open spec fn is_first_failure<V>(outcomes: Seq<Outcome<V>>, k: int) -> bool {
    &&& 0 <= k < outcomes.len()
    &&& outcomes[k] is Failure
    &&& forall|i: int| 0 <= i < k ==> #[trigger] outcomes[i] is Success
}

/// The failure that comes first in the order of the wave, if any call failed.
pub open spec fn first_failure<V>(outcomes: Seq<Outcome<V>>) -> Option<Failure> {
    if exists|k: int| is_first_failure(outcomes, k) {
        Some(outcomes[choose|k: int| is_first_failure(outcomes, k)]->Failure_0)
    } else {
        None
    }
}

/// What the successful calls of a wave returned, in the order of the wave.
pub open spec fn payloads<V>(outcomes: Seq<Outcome<V>>) -> Seq<V>
    decreases outcomes.len(),
{
    if outcomes.len() == 0 {
        Seq::empty()
    } else {
        match outcomes.last() {
            Outcome::Success(payload) => payloads(outcomes.drop_last()).push(payload),
            Outcome::Failure(_) => payloads(outcomes.drop_last()),
        }
    }
}

/// The failures of a wave, in the order of the wave.
pub open spec fn failures<V>(outcomes: Seq<Outcome<V>>) -> Seq<Failure>
    decreases outcomes.len(),
{
    if outcomes.len() == 0 {
        Seq::empty()
    } else {
        match outcomes.last() {
            Outcome::Success(_) => failures(outcomes.drop_last()),
            Outcome::Failure(failure) => failures(outcomes.drop_last()).push(failure),
        }
    }
}

/// A wave has at most one first failure.
pub proof fn lemma_first_failure_unique<V>(outcomes: Seq<Outcome<V>>, k: int)
    requires
        is_first_failure(outcomes, k),
    ensures
        first_failure(outcomes) == Some(outcomes[k]->Failure_0),
        !all_succeeded(outcomes),
{
    let c = choose|c: int| is_first_failure(outcomes, c);
    assert(is_first_failure(outcomes, c));
    if c < k {
        assert(outcomes[c] is Success);
    } else if k < c {
        assert(outcomes[k] is Success);
    }
}

/// Among the calls up to a failed one there is a first failure.
pub proof fn lemma_least_failure<V>(outcomes: Seq<Outcome<V>>, upto: int) -> (k: int)
    requires
        0 <= upto < outcomes.len(),
        outcomes[upto] is Failure,
    ensures
        is_first_failure(outcomes, k),
    decreases upto,
{
    if forall|i: int| 0 <= i < upto ==> #[trigger] outcomes[i] is Success {
        upto
    } else {
        let i = choose|i: int| 0 <= i < upto && !(#[trigger] outcomes[i] is Success);
        lemma_least_failure(outcomes, i)
    }
}

/// A wave in which some call failed has a first failure.
pub proof fn lemma_some_failure<V>(outcomes: Seq<Outcome<V>>)
    requires
        !all_succeeded(outcomes),
    ensures
        first_failure(outcomes).is_some(),
{
    let i = choose|i: int| 0 <= i < outcomes.len() && !(#[trigger] outcomes[i] is Success);
    let k = lemma_least_failure(outcomes, i);
    lemma_first_failure_unique(outcomes, k);
}

/// A wave in which every call succeeded has no first failure.
pub proof fn lemma_no_failure<V>(outcomes: Seq<Outcome<V>>)
    requires
        all_succeeded(outcomes),
    ensures
        first_failure(outcomes).is_none(),
        payloads(outcomes).len() == outcomes.len(),
        failures(outcomes).len() == 0,
    decreases outcomes.len(),
{
    if exists|k: int| is_first_failure(outcomes, k) {
        let k = choose|k: int| is_first_failure(outcomes, k);
        assert(outcomes[k] is Success);
    }
    if outcomes.len() > 0 {
        assert(outcomes.last() is Success);
        assert(all_succeeded(outcomes.drop_last())) by {
            assert forall|i: int| 0 <= i < outcomes.drop_last().len() implies #[trigger] outcomes.drop_last()[i] is Success by {
                assert(outcomes[i] is Success);
            }
        }
        lemma_no_failure(outcomes.drop_last());
    }
}

/// Every call of a wave either returned something or failed.
pub proof fn lemma_outcomes_partition<V>(outcomes: Seq<Outcome<V>>)
    ensures
        payloads(outcomes).len() + failures(outcomes).len() == outcomes.len(),
    decreases outcomes.len(),
{
    if outcomes.len() > 0 {
        lemma_outcomes_partition(outcomes.drop_last());
    }
}

/// The position of the first failure of the wave, or nothing if every call
/// succeeded.
pub fn find_first_failure<P: DeepView>(outcomes: &Vec<OperationOutcome<P>>) -> (found: Option<usize>)
    ensures
        match found {
            Some(k) => is_first_failure(outcomes.deep_view(), k as int),
            None => all_succeeded(outcomes.deep_view()),
        },
{
    let mut i: usize = 0;
    while i < outcomes.len()
        invariant
            i <= outcomes.len(),
            outcomes.deep_view().len() == outcomes.len(),
            forall|j: int| 0 <= j < i ==> #[trigger] outcomes.deep_view()[j] is Success,
        decreases outcomes.len() - i,
    {
        match &outcomes[i] {
            OperationOutcome::Failure(_) => {
                assert(outcomes.deep_view()[i as int] is Failure);
                return Some(i);
            },
            OperationOutcome::Success(_) => {
                assert(outcomes.deep_view()[i as int] is Success);
            },
        }
        i += 1;
    }
    None
}

/// The first failure of the wave, or nothing if every call succeeded.
pub fn first_failure_of<P: DeepView>(outcomes: &Vec<OperationOutcome<P>>) -> (found: Option<
    CallFailure,
>)
    ensures
        found.deep_view() == first_failure(outcomes.deep_view()),
        found.is_none() <==> all_succeeded(outcomes.deep_view()),
{
    match find_first_failure(outcomes) {
        Some(k) => {
            proof {
                lemma_first_failure_unique(outcomes.deep_view(), k as int);
            }
            match &outcomes[k] {
                OperationOutcome::Failure(failure) => Some(failure.clone()),
                OperationOutcome::Success(_) => None,
            }
        },
        None => {
            proof {
                lemma_no_failure(outcomes.deep_view());
            }
            None
        },
    }
}

/// The failures of the wave, in the order of the wave.
pub fn collect_failures<P: DeepView>(outcomes: &Vec<OperationOutcome<P>>) -> (failed: Vec<CallFailure>)
    ensures
        failed.deep_view() == failures(outcomes.deep_view()),
{
    let mut failed: Vec<CallFailure> = Vec::new();
    let mut i: usize = 0;
    assert(outcomes.deep_view().take(0) =~= Seq::empty());
    assert(failed.deep_view() =~= Seq::empty());
    while i < outcomes.len()
        invariant
            i <= outcomes.len(),
            outcomes.deep_view().len() == outcomes.len(),
            failed.deep_view() == failures(outcomes.deep_view().take(i as int)),
        decreases outcomes.len() - i,
    {
        let ghost before = failed.deep_view();
        proof {
            let next = outcomes.deep_view().take(i + 1);
            assert(next.drop_last() =~= outcomes.deep_view().take(i as int));
            assert(next.last() == outcomes@[i as int].deep_view());
        }
        match &outcomes[i] {
            OperationOutcome::Failure(failure) => {
                failed.push(failure.clone());
                assert(failed.deep_view() =~= before.push(failure@));
            },
            OperationOutcome::Success(_) => {},
        }
        i += 1;
    }
    assert(outcomes.deep_view().take(i as int) =~= outcomes.deep_view());
    failed
}

} // verus!

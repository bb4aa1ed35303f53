use crate::files::{detail, shown, Emission, EmissionView, FileManager};
use crate::outcome::{CallFailure, Failure, OperationOutcome, Outcome};
use crate::text::{cat2, cat3, cat4};
use crate::wave::{CallText, CallTextView};
use vstd::prelude::*;

verus! {

/// The text that a failed call leaves in the log: a headline, then what the
/// command wrote to its output and to its error stream, each on lines of
/// its own.
pub open spec fn failure_text(headline: Seq<char>, failure: Failure) -> Seq<char> {
    headline + ":\n"@ + failure.stdout + "\n"@ + failure.stderr + "\n"@
}

/// The outcome and the log lines of a call that returns nothing.
///
/// A call that could not be run fails with the system's complaint as its
/// diagnostics. A call that ran always logs what it wrote, as a detail; if
/// it is `accepted` it succeeds and logs `success`, else it fails with what
/// it wrote as diagnostics. Every failure is shown, whatever the verbosity.
pub open spec fn settled(
    verbose: bool,
    device_id: Seq<char>,
    text: CallTextView,
    accepted: bool,
    success: EmissionView,
    headline: Seq<char>,
) -> (Outcome<()>, Seq<EmissionView>) {
    match text {
        CallTextView::NotRun(complaint) => {
            let failure = Failure { device_id, stderr: complaint, stdout: Seq::empty() };
            (Outcome::Failure(failure), seq![shown(failure_text(headline, failure))])
        },
        CallTextView::Exited { success: _, stdout, stderr } => {
            let captured = detail(verbose, stdout + stderr);
            if accepted {
                (Outcome::Success(()), seq![captured, success])
            } else {
                let failure = Failure { device_id, stderr, stdout };
                (Outcome::Failure(failure), seq![captured, shown(failure_text(headline, failure))])
            }
        },
    }
}

/// Whether a call that ran counts as done by its exit status alone.
pub open spec fn exit_accepted(text: CallTextView) -> bool {
    match text {
        CallTextView::Exited { success, stdout: _, stderr: _ } => success,
        CallTextView::NotRun(_) => false,
    }
}

/// Whether the call ran and its command succeeded.
pub fn exited_well(text: &CallText) -> (accepted: bool)
    ensures
        accepted == exit_accepted(text@),
{
    match text {
        CallText::Exited { success, stdout: _, stderr: _ } => *success,
        CallText::NotRun(_) => false,
    }
}

/// The line that shows a failure.
pub fn failure_line(log: &FileManager, headline: &str, failure: &CallFailure) -> (line: Emission)
    ensures
        line@ == shown(failure_text(headline@, failure@)),
{
    let head = cat3(headline, ":\n", failure.stdout.as_str());
    let text = cat4(head.as_str(), "\n", failure.stderr.as_str(), "\n");
    log.print(text.as_str())
}

/// Settles a call that returns nothing: see [`settled`].
pub fn settle(
    log: &FileManager,
    device_id: &str,
    text: &CallText,
    accepted: bool,
    success: Emission,
    headline: &str,
) -> (result: (OperationOutcome<()>, Vec<Emission>))
    ensures
        (result.0.deep_view(), result.1.deep_view()) == settled(
            log@.verbose,
            device_id@,
            text@,
            accepted,
            success@,
            headline@,
        ),
{
    let mut lines: Vec<Emission> = Vec::new();
    match text {
        CallText::NotRun(complaint) => {
            let failure = CallFailure {
                device_id: device_id.to_owned(),
                stderr: complaint.clone(),
                stdout: String::new(),
            };
            let line = failure_line(log, headline, &failure);
            lines.push(line);
            assert(lines.deep_view() =~= seq![shown(failure_text(headline@, failure@))]);
            (OperationOutcome::Failure(failure), lines)
        },
        CallText::Exited { success: _, stdout, stderr } => {
            let both = cat2(stdout.as_str(), stderr.as_str());
            let captured = log.print_verbose(both.as_str());
            lines.push(captured);
            if accepted {
                lines.push(success);
                assert(lines.deep_view() =~= seq![captured@, success@]);
                (OperationOutcome::Success(()), lines)
            } else {
                let failure = CallFailure {
                    device_id: device_id.to_owned(),
                    stderr: stderr.clone(),
                    stdout: stdout.clone(),
                };
                let line = failure_line(log, headline, &failure);
                lines.push(line);
                assert(lines.deep_view() =~= seq![captured@, line@]);
                (OperationOutcome::Failure(failure), lines)
            }
        },
    }
}

} // verus!

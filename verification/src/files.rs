use crate::text::{decimal, decimal_string};
use vstd::prelude::*;
use vstd::string::StringExecFns;

verus! {

/// One line for the activity log: the text to append to the log file, and
/// whether the same text is also shown on the primary output.
pub struct Emission {
    pub echo: bool,
    pub line: String,
}

/// The model of an [`Emission`].
pub struct EmissionView {
    pub echo: bool,
    pub line: Seq<char>,
}

impl View for Emission {
    type V = EmissionView;

    open spec fn view(&self) -> EmissionView {
        EmissionView { echo: self.echo, line: self.line@ }
    }
}

impl DeepView for Emission {
    type V = EmissionView;

    open spec fn deep_view(&self) -> EmissionView {
        self@
    }
}

/// A message as one line: the message and a line feed.
pub open spec fn as_line(text: Seq<char>) -> Seq<char> {
    text.push('\n')
}

/// What `print` emits: the line, echoed.
pub open spec fn shown(text: Seq<char>) -> EmissionView {
    EmissionView { echo: true, line: as_line(text) }
}

/// What `print_verbose` emits: the line, echoed only in verbose mode.
pub open spec fn detail(verbose: bool, text: Seq<char>) -> EmissionView {
    EmissionView { echo: verbose, line: as_line(text) }
}

/// The name of the log file that is started at `secs` seconds after the epoch.
pub open spec fn log_file_name_text(secs: nat) -> Seq<char> {
    "log_"@ + decimal(secs) + ".txt"@
}

/// The model of a [`FileManager`].
pub struct FileManagerView {
    pub base_path: Seq<char>,
    pub verbose: bool,
}

/// Where output goes and how much of it is shown: the base directory of
/// everything that is written, and the verbosity of the primary output.
pub struct FileManager {
    base_path: String,
    verbose: bool,
}

impl View for FileManager {
    type V = FileManagerView;

    closed spec fn view(&self) -> FileManagerView {
        FileManagerView { base_path: self.base_path@, verbose: self.verbose }
    }
}

impl FileManager {
    pub fn new(base_path: String, verbose: bool) -> (manager: Self)
        ensures
            manager@ == (FileManagerView { base_path: base_path@, verbose }),
    {
        FileManager { base_path, verbose }
    }

    pub fn base_path(&self) -> (path: &str)
        ensures
            path@ == self@.base_path,
    {
        self.base_path.as_str()
    }

    pub fn verbose(&self) -> (verbose: bool)
        ensures
            verbose == self@.verbose,
    {
        self.verbose
    }

    /// A line that is always shown and always logged.
    pub fn print(&self, text: &str) -> (emission: Emission)
        ensures
            emission@ == shown(text@),
    {
        Emission { echo: true, line: line_of(text) }
    }

    /// A line that is always logged, and shown only in verbose mode.
    pub fn print_verbose(&self, text: &str) -> (emission: Emission)
        ensures
            emission@ == detail(self@.verbose, text@),
    {
        Emission { echo: self.verbose, line: line_of(text) }
    }

    /// The name of the log file of a run that starts `secs` seconds after
    /// the epoch.
    pub fn log_file_name(secs: u64) -> (name: String)
        ensures
            name@ == log_file_name_text(secs as nat),
    {
        let mut name = "log_".to_owned();
        let number = decimal_string(secs);
        name.append(number.as_str());
        name.append(".txt");
        name
    }
}

fn line_of(text: &str) -> (line: String)
    ensures
        line@ == as_line(text@),
{
    proof {
        reveal_strlit("\n");
    }
    let mut line = text.to_owned();
    line.append("\n");
    assert(line@ =~= text@.push('\n'));
    line
}

} // verus!

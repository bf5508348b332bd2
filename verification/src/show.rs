//! The debug files of binderfs: transactions, statistics, state, and one per process.
//!
//! All four files are written in the same way. A header comes first; then the contexts
//! are listed, then the processes of one context after the other, and each process is
//! printed and followed by a line break. The first failure ends the report.

use vstd::prelude::*;
use crate::error::Error;

verus! {

/// Which debug file is being read.
#[derive(Clone, Copy, Debug, PartialEq, Eq, Structural)]
pub enum Report {
    Transactions,
    Stats,
    State,
    /// The state of the processes with this pid.
    Proc(i32),
}

/// Which processes of a context are listed.
#[derive(Clone, Copy, Debug, PartialEq, Eq, Structural)]
pub enum Listing {
    /// All processes of the context.
    All,
    /// The processes of the context that have this pid.
    WithPid(i32),
}

/// How a process is printed.
#[derive(Clone, Copy, Debug, PartialEq, Eq, Structural)]
pub enum Printer {
    /// Its state; `print_all` asks for all of it.
    State { print_all: bool },
    /// Its statistics.
    Stats,
}

impl Report {
    /// The first line of the file.
    pub open spec fn spec_header(self) -> &'static str {
        match self {
            Report::Transactions => "binder transactions:\n",
            Report::Stats => "binder stats:\n",
            Report::State => "binder state:\n",
            Report::Proc(_) => "binder proc state:\n",
        }
    }

    /// Only the file of a process looks for a pid.
    pub open spec fn spec_listing(self) -> Listing {
        match self {
            Report::Proc(pid) => Listing::WithPid(pid),
            _ => Listing::All,
        }
    }

    /// All files but that of the transactions ask for all of a process's state.
    pub open spec fn spec_printer(self) -> Printer {
        match self {
            Report::Stats => Printer::Stats,
            _ => Printer::State { print_all: self != Report::Transactions },
        }
    }

    /// The first line of the file.
    #[verifier::when_used_as_spec(spec_header)]
    pub fn header(self) -> (res: &'static str)
        ensures
            res == self.spec_header(),
    {
        match self {
            Report::Transactions => "binder transactions:\n",
            Report::Stats => "binder stats:\n",
            Report::State => "binder state:\n",
            Report::Proc(_) => "binder proc state:\n",
        }
    }

    /// Which processes of each context the file shows.
    #[verifier::when_used_as_spec(spec_listing)]
    pub fn listing(self) -> (res: Listing)
        ensures
            res == self.spec_listing(),
    {
        match self {
            Report::Proc(pid) => Listing::WithPid(pid),
            _ => Listing::All,
        }
    }

    /// How the file shows a process.
    #[verifier::when_used_as_spec(spec_printer)]
    pub fn printer(self) -> (res: Printer)
        ensures
            res == self.spec_printer(),
    {
        match self {
            Report::Transactions => Printer::State { print_all: false },
            Report::Stats => Printer::Stats,
            Report::State => Printer::State { print_all: true },
            Report::Proc(_) => Printer::State { print_all: true },
        }
    }
}

/// What to do next for a report.
#[allow(inconsistent_fields)]
pub enum ShowStep {
    /// Print `text` to the file.
    Print { text: &'static str, then: Printed },
    /// Print the driver's own statistics, each line after `prefix`.
    PrintGlobalStats { prefix: &'static str, then: GlobalStatsPrinted },
    /// List all contexts, and reply with their number.
    GetAllContexts { then: ContextsPending },
    /// List processes of the context at `ctx` in the list of contexts, and reply with
    /// their number.
    GetProcs { ctx: usize, listing: Listing, then: ProcsPending },
    /// Print the process at `proc` in the list of processes last obtained, which is that
    /// of the context at `ctx`.
    PrintProc { ctx: usize, proc: usize, printer: Printer, then: ProcPending },
    /// The report is complete, or failed.
    Done(Result<(), Error>),
}

/// A text has been printed: the header, or what follows a process.
#[derive(Debug, PartialEq, Eq, Structural)]
pub enum Printed {
    Header(Report),
    Separator(ProcPending),
}

/// The driver's own statistics have been printed.
#[derive(Debug, PartialEq, Eq, Structural)]
pub struct GlobalStatsPrinted {
    pub report: Report,
}

/// The contexts are being listed.
#[derive(Debug, PartialEq, Eq, Structural)]
pub struct ContextsPending {
    pub report: Report,
}

/// The processes of context `ctx`, of `contexts` in all, are being listed.
#[derive(Debug, PartialEq, Eq, Structural)]
pub struct ProcsPending {
    pub report: Report,
    pub contexts: usize,
    pub ctx: usize,
}

/// Process `proc`, of `procs` in context `ctx`, is being printed.
#[derive(Debug, PartialEq, Eq, Structural)]
pub struct ProcPending {
    pub report: Report,
    pub contexts: usize,
    pub ctx: usize,
    pub procs: usize,
    pub proc: usize,
}

impl ProcsPending {
    /// The context is one of those listed.
    pub open spec fn wf(self) -> bool {
        self.ctx < self.contexts
    }
}

impl ProcPending {
    /// The context and the process are among those listed.
    pub open spec fn wf(self) -> bool {
        &&& self.ctx < self.contexts
        &&& self.proc < self.procs
    }
}

impl Printed {
    /// A process that is followed by a separator is one of those listed.
    pub open spec fn wf(self) -> bool {
        self matches Printed::Separator(at) ==> at.wf()
    }
}

impl ShowStep {
    /// The step speaks of listed contexts and processes only.
    pub open spec fn wf(self) -> bool {
        match self {
            ShowStep::Print { then, .. } => then.wf(),
            ShowStep::GetProcs { then, .. } => then.wf(),
            ShowStep::PrintProc { then, .. } => then.wf(),
            _ => true,
        }
    }
}

/// The first step of a report: its header.
pub open spec fn spec_start(report: Report) -> ShowStep {
    ShowStep::Print { text: report.header(), then: Printed::Header(report) }
}

/// The step that turns to context `ctx`, or ends the report if there is none.
pub open spec fn spec_visit_context(report: Report, contexts: usize, ctx: int) -> ShowStep {
    if ctx < contexts {
        ShowStep::GetProcs {
            ctx: ctx as usize,
            listing: report.listing(),
            then: ProcsPending { report, contexts, ctx: ctx as usize },
        }
    } else {
        ShowStep::Done(Ok(()))
    }
}

/// The step that turns to process `proc` of the current context, or to the next context if
/// there is none.
pub open spec fn spec_visit_proc(at: ProcsPending, procs: usize, proc: int) -> ShowStep {
    if proc < procs {
        ShowStep::PrintProc {
            ctx: at.ctx,
            proc: proc as usize,
            printer: at.report.printer(),
            then: ProcPending {
                report: at.report,
                contexts: at.contexts,
                ctx: at.ctx,
                procs,
                proc: proc as usize,
            },
        }
    } else {
        spec_visit_context(at.report, at.contexts, at.ctx + 1)
    }
}

fn visit_context(report: Report, contexts: usize, ctx: usize) -> (step: ShowStep)
    ensures
        step == spec_visit_context(report, contexts, ctx as int),
        step.wf(),
{
    if ctx < contexts {
        ShowStep::GetProcs {
            ctx,
            listing: report.listing(),
            then: ProcsPending { report, contexts, ctx },
        }
    } else {
        ShowStep::Done(Ok(()))
    }
}

fn visit_proc(at: ProcsPending, procs: usize, proc: usize) -> (step: ShowStep)
    requires
        at.wf(),
    ensures
        step == spec_visit_proc(at, procs, proc as int),
        step.wf(),
{
    if proc < procs {
        ShowStep::PrintProc {
            ctx: at.ctx,
            proc,
            printer: at.report.printer(),
            then: ProcPending {
                report: at.report,
                contexts: at.contexts,
                ctx: at.ctx,
                procs,
                proc,
            },
        }
    } else {
        visit_context(at.report, at.contexts, at.ctx + 1)
    }
}

/// Starts the report of the transactions in which processes take part.
pub fn rust_binder_transactions_show_impl() -> (step: ShowStep)
    ensures
        step == spec_start(Report::Transactions),
        step.wf(),
{
    ShowStep::Print {
        text: Report::Transactions.header(),
        then: Printed::Header(Report::Transactions),
    }
}

/// Starts the report of the driver's and the processes' statistics.
pub fn rust_binder_stats_show_impl() -> (step: ShowStep)
    ensures
        step == spec_start(Report::Stats),
        step.wf(),
{
    ShowStep::Print { text: Report::Stats.header(), then: Printed::Header(Report::Stats) }
}

/// Starts the report of the state of all processes.
pub fn rust_binder_state_show_impl() -> (step: ShowStep)
    ensures
        step == spec_start(Report::State),
        step.wf(),
{
    ShowStep::Print { text: Report::State.header(), then: Printed::Header(Report::State) }
}

/// Starts the report of the state of the processes with pid `pid`.
pub fn rust_binder_proc_show_impl(pid: i32) -> (step: ShowStep)
    ensures
        step == spec_start(Report::Proc(pid)),
        step.wf(),
{
    ShowStep::Print { text: Report::Proc(pid).header(), then: Printed::Header(Report::Proc(pid)) }
}

impl Printed {
    /// Only the statistics file has the driver's own statistics before the contexts; after a
    /// separator comes the next process.
    pub open spec fn spec_resume(self) -> ShowStep {
        match self {
            Printed::Header(Report::Stats) => ShowStep::PrintGlobalStats {
                prefix: "",
                then: GlobalStatsPrinted { report: Report::Stats },
            },
            Printed::Header(report) => ShowStep::GetAllContexts {
                then: ContextsPending { report },
            },
            Printed::Separator(at) => spec_visit_proc(
                ProcsPending { report: at.report, contexts: at.contexts, ctx: at.ctx },
                at.procs,
                at.proc + 1,
            ),
        }
    }

    /// Goes on after the text has been printed.
    pub fn resume(self) -> (step: ShowStep)
        requires
            self.wf(),
        ensures
            step == self.spec_resume(),
            step.wf(),
    {
        match self {
            Printed::Header(Report::Stats) => ShowStep::PrintGlobalStats {
                prefix: "",
                then: GlobalStatsPrinted { report: Report::Stats },
            },
            Printed::Header(report) => ShowStep::GetAllContexts {
                then: ContextsPending { report },
            },
            Printed::Separator(at) => visit_proc(
                ProcsPending { report: at.report, contexts: at.contexts, ctx: at.ctx },
                at.procs,
                at.proc + 1,
            ),
        }
    }
}

impl GlobalStatsPrinted {
    /// After the driver's own statistics the contexts are listed.
    pub open spec fn spec_resume(self) -> ShowStep {
        ShowStep::GetAllContexts { then: ContextsPending { report: self.report } }
    }

    /// Goes on after the driver's own statistics have been printed.
    pub fn resume(self) -> (step: ShowStep)
        ensures
            step == self.spec_resume(),
            step.wf(),
    {
        ShowStep::GetAllContexts { then: ContextsPending { report: self.report } }
    }
}

impl ContextsPending {
    /// A failure to list the contexts ends the report; else the first one is next.
    pub open spec fn spec_resume(self, reply: Result<usize, Error>) -> ShowStep {
        match reply {
            Ok(contexts) => spec_visit_context(self.report, contexts, 0),
            Err(err) => ShowStep::Done(Err(err)),
        }
    }

    /// Takes the number of contexts.
    pub fn resume(self, reply: Result<usize, Error>) -> (step: ShowStep)
        ensures
            step == self.spec_resume(reply),
            step.wf(),
    {
        match reply {
            Ok(contexts) => visit_context(self.report, contexts, 0),
            Err(err) => ShowStep::Done(Err(err)),
        }
    }
}

impl ProcsPending {
    /// A failure to list the processes ends the report; else the first one is next.
    pub open spec fn spec_resume(self, reply: Result<usize, Error>) -> ShowStep {
        match reply {
            Ok(procs) => spec_visit_proc(self, procs, 0),
            Err(err) => ShowStep::Done(Err(err)),
        }
    }

    /// Takes the number of processes of the current context.
    pub fn resume(self, reply: Result<usize, Error>) -> (step: ShowStep)
        requires
            self.wf(),
        ensures
            step == self.spec_resume(reply),
            step.wf(),
    {
        match reply {
            Ok(procs) => visit_proc(self, procs, 0),
            Err(err) => ShowStep::Done(Err(err)),
        }
    }
}

impl ProcPending {
    /// A failure to print the process ends the report; else a line break follows it.
    pub open spec fn spec_resume(self, reply: Result<(), Error>) -> ShowStep {
        match reply {
            Ok(_) => ShowStep::Print { text: "\n", then: Printed::Separator(self) },
            Err(err) => ShowStep::Done(Err(err)),
        }
    }

    /// Takes the outcome of printing the process.
    pub fn resume(self, reply: Result<(), Error>) -> (step: ShowStep)
        requires
            self.wf(),
        ensures
            step == self.spec_resume(reply),
            step.wf(),
    {
        match reply {
            Ok(_) => ShowStep::Print { text: "\n", then: Printed::Separator(self) },
            Err(err) => ShowStep::Done(Err(err)),
        }
    }
}

/// What to do when a report has ended.
pub enum ShowEnd {
    /// Print `failure_text` of the debug text of `err` to the file.
    PrintFailure { err: Error, then: FailurePrinted },
    /// Return this value to C.
    Return(i32),
}

/// The failure of the report has been printed.
#[derive(Debug, PartialEq, Eq, Structural)]
pub struct FailurePrinted;

/// A report that failed says so at the end of the file. Either way the read succeeds.
pub open spec fn spec_show_result(result: Result<(), Error>) -> ShowEnd {
    match result {
        Ok(_) => ShowEnd::Return(0),
        Err(err) => ShowEnd::PrintFailure { err, then: FailurePrinted },
    }
}

/// Ends the reading of a debug file whose report gave `result`.
pub fn show_result(result: Result<(), Error>) -> (end: ShowEnd)
    ensures
        end == spec_show_result(result),
{
    match result {
        Ok(_) => ShowEnd::Return(0),
        Err(err) => ShowEnd::PrintFailure { err, then: FailurePrinted },
    }
}

impl FailurePrinted {
    /// The read of the file succeeds, although its report has failed.
    pub open spec fn spec_resume(self) -> ShowEnd {
        ShowEnd::Return(0)
    }

    /// Goes on after the failure has been printed.
    pub fn resume(self) -> (end: ShowEnd)
        ensures
            end == self.spec_resume(),
    {
        ShowEnd::Return(0)
    }
}

/// The line that ends a report that failed with an error whose debug text is `debug`.
pub open spec fn spec_failure_text(debug: Seq<char>) -> Seq<char> {
    "failed to generate state: "@ + debug + "\n"@
}

/// The line that ends a report that failed with an error whose debug text is `debug`.
pub fn failure_text(debug: &str) -> (text: String)
    ensures
        text@ == spec_failure_text(debug@),
{
    let mut text = "failed to generate state: ".to_owned();
    text.append(debug);
    text.append("\n");
    text
}

/// The pid in the private field of the file of a process: the field's low 32 bits, read as
/// a signed number.
pub fn private_to_pid(private: usize) -> (pid: i32)
    ensures
        (pid as int - private as int) % 0x1_0000_0000 == 0,
        pid == private as i32,
{
    let pid: i32 = #[verifier::truncate] (private as i32);
    assert((pid as int - private as int) % 0x1_0000_0000 == 0) by (bit_vector)
        requires
            pid == private as i32,
    ;
    pid
}

/// Starts the report for the file of a process, of which `private` is the private field.
pub fn rust_binder_proc_show(private: usize) -> (step: ShowStep)
    ensures
        step == spec_start(Report::Proc(private as i32)),
        step.wf(),
{
    rust_binder_proc_show_impl(private_to_pid(private))
}

/// A pid stored in the private field, sign-extended as C does, is read back unchanged.
pub proof fn law_pid_survives_the_private_field(pid: i32)
    ensures
        (pid as usize) as i32 == pid,
{
    assert((pid as usize) as i32 == pid) by (bit_vector);
}

} // verus!

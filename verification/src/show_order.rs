//! What is in each debug file, and in which order.

use vstd::prelude::*;
use crate::error::Error;
use crate::show::{Listing, Printed, Printer, Report, ShowEnd, ShowStep};
use crate::show_run::{ShowAction, ShowReplies, ShowTexts};

verus! {

/// The step is one that `report` can reach with these replies.
spec fn reached(step: ShowStep, report: Report, replies: ShowReplies) -> bool {
    match step {
        ShowStep::Print { text, then: Printed::Header(r) } => r == report && text
            == report.header(),
        ShowStep::Print { text, then: Printed::Separator(at) } => {
            &&& at.wf()
            &&& at.report == report
            &&& text == "\n"
            &&& at.contexts == replies.context_count()
            &&& at.procs == replies.proc_count(at.ctx as int)
        },
        ShowStep::PrintGlobalStats { prefix, then } => {
            &&& prefix == ""
            &&& report == Report::Stats
            &&& then.report == report
        },
        ShowStep::GetAllContexts { then } => then.report == report,
        ShowStep::GetProcs { ctx, listing, then } => {
            &&& then.wf()
            &&& then.report == report
            &&& ctx == then.ctx
            &&& listing == report.listing()
            &&& then.contexts == replies.context_count()
        },
        ShowStep::PrintProc { ctx, proc, printer, then } => {
            &&& then.wf()
            &&& then.report == report
            &&& ctx == then.ctx
            &&& proc == then.proc
            &&& printer == report.printer()
            &&& then.contexts == replies.context_count()
            &&& then.procs == replies.proc_count(then.ctx as int)
        },
        ShowStep::Done(_) => true,
    }
}

/// No context before this one is listed from `step` on.
spec fn first_listed(step: ShowStep) -> int {
    match step {
        ShowStep::GetProcs { then, .. } => then.ctx as int,
        ShowStep::PrintProc { then, .. } => then.ctx + 1,
        ShowStep::Print { then: Printed::Separator(at), .. } => at.ctx + 1,
        _ => 0,
    }
}

/// No process before this one, which is given with its context, is printed from `step` on.
spec fn first_printed(step: ShowStep) -> (int, int) {
    match step {
        ShowStep::GetProcs { then, .. } => (then.ctx as int, 0),
        ShowStep::PrintProc { then, .. } => (then.ctx as int, then.proc as int),
        ShowStep::Print { then: Printed::Separator(at), .. } => (at.ctx as int, at.proc + 1),
        _ => (0, 0),
    }
}

/// The part of the report to which an action belongs: header, driver's own statistics, list
/// of contexts, contexts.
spec fn part_of(action: ShowAction) -> int {
    match action {
        ShowAction::PrintGlobalStats(_) => 1,
        ShowAction::GetAllContexts => 2,
        _ => 3,
    }
}

/// The part of the report that comes after `step`.
spec fn part_after(step: ShowStep) -> int {
    match step {
        ShowStep::Print { then: Printed::Header(_), .. } => 1,
        ShowStep::PrintGlobalStats { .. } => 2,
        _ => 3,
    }
}

/// What holds of each action after `step`.
spec fn fits_after(
    step: ShowStep,
    report: Report,
    replies: ShowReplies,
    action: ShowAction,
) -> bool {
    &&& part_of(action) >= part_after(step)
    &&& fits(report, replies, action)
    &&& match action {
        ShowAction::GetProcs(ctx, _) => match step {
            ShowStep::GetProcs { then, .. } => ctx > then.ctx,
            _ => ctx >= first_listed(step),
        },
        ShowAction::PrintProc(ctx, proc, _) => {
            let (from_ctx, from_proc) = first_printed(step);
            ||| ctx > from_ctx
            ||| ctx == from_ctx && (if step is PrintProc {
                proc > from_proc
            } else {
                proc >= from_proc
            })
        },
        _ => true,
    }
}

/// What holds of each action after the header.
spec fn fits(report: Report, replies: ShowReplies, action: ShowAction) -> bool {
    match action {
        ShowAction::Print(text) => text == "\n",
        ShowAction::PrintGlobalStats(prefix) => prefix == "" && report == Report::Stats,
        ShowAction::GetAllContexts => true,
        ShowAction::GetProcs(ctx, listing) => {
            &&& 0 <= ctx < replies.context_count()
            &&& listing == report.listing()
        },
        ShowAction::PrintProc(ctx, proc, printer) => {
            &&& 0 <= ctx < replies.context_count()
            &&& 0 <= proc < replies.proc_count(ctx)
            &&& printer == report.printer()
        },
    }
}

proof fn lemma_unfold(step: ShowStep, report: Report, replies: ShowReplies, i: int)
    requires
        step.wf(),
        step !is Done,
        reached(step, report, replies),
    ensures
        ({
            let next = crate::show_run::step_after(step, replies);
            let done = crate::show_run::actions(step, replies);
            let rest = crate::show_run::actions(next, replies);
            &&& next.wf()
            &&& reached(next, report, replies)
            &&& done.len() == 1 + rest.len()
            &&& done[0] == crate::show_run::action_of(step)
            &&& 1 <= i < done.len() ==> done[i] == rest[i - 1]
            &&& rest.len() == 0 <==> next is Done
            &&& crate::show_run::outcome(step, replies) == crate::show_run::outcome(next, replies)
            &&& crate::show_run::part_left(next) < crate::show_run::part_left(step) || {
                &&& crate::show_run::part_left(next) == crate::show_run::part_left(step)
                &&& 0 <= crate::show_run::contexts_left(next)
                &&& 0 <= crate::show_run::procs_left(next)
                &&& crate::show_run::contexts_left(next) < crate::show_run::contexts_left(step) || {
                    &&& crate::show_run::contexts_left(next) == crate::show_run::contexts_left(step)
                    &&& crate::show_run::procs_left(next) < crate::show_run::procs_left(step)
                }
            }
            &&& 0 <= crate::show_run::part_left(next)
        }),
{
    let next = crate::show_run::step_after(step, replies);
    assert(crate::show_run::actions(step, replies) == seq![crate::show_run::action_of(step)]
        + crate::show_run::actions(next, replies));
    if next !is Done {
        assert(crate::show_run::actions(next, replies) == seq![crate::show_run::action_of(next)]
            + crate::show_run::actions(crate::show_run::step_after(next, replies), replies));
    }
}

proof fn lemma_each(step: ShowStep, report: Report, replies: ShowReplies, i: int)
    requires
        step.wf(),
        step !is Done,
        reached(step, report, replies),
        1 <= i < crate::show_run::actions(step, replies).len(),
    ensures
        fits_after(step, report, replies, crate::show_run::actions(step, replies)[i]),
    decreases
            crate::show_run::part_left(step),
            crate::show_run::contexts_left(step),
            crate::show_run::procs_left(step),
{
    let next = crate::show_run::step_after(step, replies);
    lemma_unfold(step, report, replies, i);
    if i == 1 {
        lemma_unfold(next, report, replies, 0);
    } else {
        lemma_each(next, report, replies, i - 1);
    }
}

/// What holds of an action and a later one: contexts are listed in order, processes are
/// printed in order, and those of a context after its list and before the next.
pub open spec fn in_order(earlier: ShowAction, later: ShowAction) -> bool {
    match (earlier, later) {
        (ShowAction::GetProcs(c, _), ShowAction::GetProcs(d, _)) => c < d,
        (ShowAction::PrintProc(c, p, _), ShowAction::PrintProc(d, q, _)) => c < d || (c == d && p
            < q),
        (ShowAction::GetProcs(c, _), ShowAction::PrintProc(d, _, _)) => c <= d,
        (ShowAction::PrintProc(c, _, _), ShowAction::GetProcs(d, _)) => c < d,
        _ => true,
    }
}

proof fn lemma_order(step: ShowStep, report: Report, replies: ShowReplies, i: int, j: int)
    requires
        step.wf(),
        step !is Done,
        reached(step, report, replies),
        0 <= i < j < crate::show_run::actions(step, replies).len(),
    ensures
        in_order(
            crate::show_run::actions(step, replies)[i],
            crate::show_run::actions(step, replies)[j],
        ),
    decreases
            crate::show_run::part_left(step),
            crate::show_run::contexts_left(step),
            crate::show_run::procs_left(step),
{
    lemma_unfold(step, report, replies, i);
    lemma_unfold(step, report, replies, j);
    if i == 0 {
        lemma_each(step, report, replies, j);
    } else {
        lemma_order(crate::show_run::step_after(step, replies), report, replies, i - 1, j - 1);
    }
}

proof fn lemma_neighbours(step: ShowStep, report: Report, replies: ShowReplies, i: int)
    requires
        step.wf(),
        step !is Done,
        reached(step, report, replies),
        0 <= i < crate::show_run::actions(step, replies).len(),
    ensures
        ({
            let done = crate::show_run::actions(step, replies);
            &&& done[i] matches ShowAction::PrintProc(ctx, proc, _) ==> {
                &&& (replies.printed)(ctx, proc) is Ok ==> i + 1 < done.len() && done[i + 1]
                    == ShowAction::Print("\n")
                &&& (replies.printed)(ctx, proc) is Err ==> i + 1 == done.len()
            }
            &&& i > 0 && done[i] is Print ==> done[i - 1] is PrintProc
        }),
    decreases
            crate::show_run::part_left(step),
            crate::show_run::contexts_left(step),
            crate::show_run::procs_left(step),
{
    let next = crate::show_run::step_after(step, replies);
    lemma_unfold(step, report, replies, i);
    lemma_unfold(step, report, replies, i + 1);
    lemma_unfold(step, report, replies, i - 1);
    if next !is Done {
        lemma_unfold(next, report, replies, 0);
    }
    if i > 0 {
        lemma_neighbours(next, report, replies, i - 1);
    }
}

/// The list of which a printed process is one: the last that was obtained before.
proof fn lemma_list_of_process(
    step: ShowStep,
    report: Report,
    replies: ShowReplies,
    i: int,
    ctx: int,
    proc: int,
    printer: Printer,
) -> (j: int)
    requires
        step.wf(),
        step !is Done,
        reached(step, report, replies),
        0 <= i < crate::show_run::actions(step, replies).len(),
        crate::show_run::actions(step, replies)[i] == ShowAction::PrintProc(ctx, proc, printer),
    ensures
        ({
            let done = crate::show_run::actions(step, replies);
            &&& -1 <= j < i
            &&& j >= 0 ==> done[j] == ShowAction::GetProcs(ctx, report.listing())
            &&& j == -1 ==> match step {
                ShowStep::PrintProc { then, .. } => then.ctx == ctx,
                ShowStep::Print { then: Printed::Separator(at), .. } => at.ctx == ctx,
                _ => false,
            }
            &&& forall|k: int| j < k < i ==> !(#[trigger] done[k] is GetProcs)
        }),
    decreases
            crate::show_run::part_left(step),
            crate::show_run::contexts_left(step),
            crate::show_run::procs_left(step),
{
    let next = crate::show_run::step_after(step, replies);
    let done = crate::show_run::actions(step, replies);
    let rest = crate::show_run::actions(next, replies);
    lemma_unfold(step, report, replies, i);
    if i == 0 {
        -1
    } else {
        let j = lemma_list_of_process(next, report, replies, i - 1, ctx, proc, printer) + 1;
        assert forall|k: int| j < k < i implies !(#[trigger] done[k] is GetProcs) by {
            lemma_unfold(step, report, replies, k);
            assert(!(rest[k - 1] is GetProcs));
        }
        lemma_unfold(step, report, replies, j);
        if j == 0 && step !is GetProcs {
            -1
        } else {
            j
        }
    }
}

/// Where context `ctx` is listed.
proof fn lemma_context_is_listed(
    step: ShowStep,
    report: Report,
    replies: ShowReplies,
    ctx: int,
) -> (j: int)
    requires
        step.wf(),
        step !is Done,
        reached(step, report, replies),
        crate::show_run::outcome(step, replies) is Ok,
        first_listed(step) <= ctx < replies.context_count(),
    ensures
        0 <= j < crate::show_run::actions(step, replies).len(),
        crate::show_run::actions(step, replies)[j] == ShowAction::GetProcs(ctx, report.listing()),
    decreases
            crate::show_run::part_left(step),
            crate::show_run::contexts_left(step),
            crate::show_run::procs_left(step),
{
    let next = crate::show_run::step_after(step, replies);
    lemma_unfold(step, report, replies, 0);
    if crate::show_run::action_of(step) == ShowAction::GetProcs(ctx, report.listing()) {
        0
    } else {
        let j = lemma_context_is_listed(next, report, replies, ctx);
        lemma_unfold(step, report, replies, j + 1);
        j + 1
    }
}

/// `first` is the step with which the file of `report` starts.
pub open spec fn starts(first: ShowStep, report: Report) -> bool {
    match report {
        Report::Transactions => call_ensures(
            crate::show::rust_binder_transactions_show_impl,
            (),
            first,
        ),
        Report::Stats => call_ensures(crate::show::rust_binder_stats_show_impl, (), first),
        Report::State => call_ensures(crate::show::rust_binder_state_show_impl, (), first),
        Report::Proc(pid) => call_ensures(
            crate::show::rust_binder_proc_show_impl,
            (pid,),
            first,
        ),
    }
}

/// The file of a process asks each context for the processes with just its pid, whatever
/// the pid is.
pub proof fn law_file_of_process_lists_its_pid(
    pid: i32,
    first: ShowStep,
    replies: ShowReplies,
    i: int,
    ctx: int,
    listing: Listing,
)
    requires
        call_ensures(crate::show::rust_binder_proc_show_impl, (pid,), first),
        0 <= i < crate::show_run::actions(first, replies).len(),
        crate::show_run::actions(first, replies)[i] == ShowAction::GetProcs(ctx, listing),
    ensures
        listing == Listing::WithPid(pid),
        0 <= ctx < replies.context_count(),
{
    lemma_unfold(first, Report::Proc(pid), replies, 0);
    if i > 0 {
        lemma_each(first, Report::Proc(pid), replies, i);
    }
}

/// The files of the transactions, the statistics and the state ask each context for all of
/// its processes.
pub proof fn law_other_files_list_all_processes(
    first: ShowStep,
    replies: ShowReplies,
    i: int,
    ctx: int,
    listing: Listing,
)
    requires
        starts(first, Report::Transactions) || starts(first, Report::Stats) || starts(
            first,
            Report::State,
        ),
        0 <= i < crate::show_run::actions(first, replies).len(),
        crate::show_run::actions(first, replies)[i] == ShowAction::GetProcs(ctx, listing),
    ensures
        listing == Listing::All,
        0 <= ctx < replies.context_count(),
{
    let report = if starts(first, Report::Transactions) {
        Report::Transactions
    } else if starts(first, Report::Stats) {
        Report::Stats
    } else {
        Report::State
    };
    lemma_unfold(first, report, replies, 0);
    if i > 0 {
        lemma_each(first, report, replies, i);
    }
}

/// The file whose private field agrees with `pid` in its low 32 bits shows the processes
/// with that pid, and no others.
pub proof fn law_private_field_selects_the_pid(
    private: usize,
    pid: i32,
    read: i32,
    first: ShowStep,
    replies: ShowReplies,
    i: int,
    ctx: int,
    listing: Listing,
)
    requires
        (pid - private) % 0x1_0000_0000 == 0,
        call_ensures(crate::show::private_to_pid, (private,), read),
        call_ensures(crate::show::rust_binder_proc_show, (private,), first),
        0 <= i < crate::show_run::actions(first, replies).len(),
        crate::show_run::actions(first, replies)[i] == ShowAction::GetProcs(ctx, listing),
    ensures
        read == pid,
        listing == Listing::WithPid(pid),
{
    let low = private as i32;
    assert((low as int - private as int) % 0x1_0000_0000 == 0) by (bit_vector)
        requires
            low == private as i32,
    ;
    assert(low == pid);
    lemma_unfold(first, Report::Proc(pid), replies, 0);
    if i > 0 {
        lemma_each(first, Report::Proc(pid), replies, i);
    }
}

/// The statistics file prints the statistics of each process; the others print its state,
/// and all of it but in the file of the transactions.
pub proof fn law_each_file_has_its_way_to_print(
    report: Report,
    first: ShowStep,
    replies: ShowReplies,
    i: int,
    ctx: int,
    proc: int,
    printer: Printer,
)
    requires
        starts(first, report),
        0 <= i < crate::show_run::actions(first, replies).len(),
        crate::show_run::actions(first, replies)[i] == ShowAction::PrintProc(ctx, proc, printer),
    ensures
        report == Report::Stats ==> printer == Printer::Stats,
        report == Report::Transactions ==> printer == (Printer::State { print_all: false }),
        report == Report::State ==> printer == (Printer::State { print_all: true }),
        report is Proc ==> printer == (Printer::State { print_all: true }),
        0 <= ctx < replies.context_count(),
        0 <= proc < replies.proc_count(ctx),
{
    lemma_unfold(first, report, replies, 0);
    if i > 0 {
        lemma_each(first, report, replies, i);
    }
}

/// Each file begins with its own first line, whatever the services reply.
pub proof fn law_each_file_has_its_first_line(
    report: Report,
    first: ShowStep,
    replies: ShowReplies,
    texts: ShowTexts,
)
    requires
        starts(first, report),
    ensures
        ({
            let done = crate::show_run::actions(first, replies);
            let text = crate::show_run::written(done, texts);
            &&& done.len() >= 2
            &&& report == Report::Transactions ==> {
                &&& done[0] == ShowAction::Print("binder transactions:\n")
                &&& "binder transactions:\n"@.is_prefix_of(text)
            }
            &&& report == Report::Stats ==> {
                &&& done[0] == ShowAction::Print("binder stats:\n")
                &&& "binder stats:\n"@.is_prefix_of(text)
            }
            &&& report == Report::State ==> {
                &&& done[0] == ShowAction::Print("binder state:\n")
                &&& "binder state:\n"@.is_prefix_of(text)
            }
            &&& report is Proc ==> {
                &&& done[0] == ShowAction::Print("binder proc state:\n")
                &&& "binder proc state:\n"@.is_prefix_of(text)
            }
        }),
{
    lemma_unfold(first, report, replies, 0);
    crate::show_run::law_header_comes_first(report, replies, texts);
}

/// The driver's own statistics stand in the statistics file, right after its first line and
/// without a prefix, and nowhere else.
pub proof fn law_global_stats_stand_in_stats_file(
    report: Report,
    first: ShowStep,
    replies: ShowReplies,
    i: int,
)
    requires
        starts(first, report),
        0 <= i < crate::show_run::actions(first, replies).len(),
    ensures
        (crate::show_run::actions(first, replies)[i] is PrintGlobalStats) <==> (report
            == Report::Stats && i == 1),
        report == Report::Stats && i == 1 ==> crate::show_run::actions(first, replies)[i]
            == ShowAction::PrintGlobalStats(""),
{
    let second = crate::show_run::step_after(first, replies);
    lemma_unfold(first, report, replies, i);
    lemma_unfold(second, report, replies, i - 1);
    if i > 1 {
        lemma_each(second, report, replies, i - 1);
    }
}

/// The contexts are listed once, before any process is: right after the first line, and in
/// the statistics file right after the driver's own statistics.
pub proof fn law_contexts_are_listed_once(
    report: Report,
    first: ShowStep,
    replies: ShowReplies,
    i: int,
)
    requires
        starts(first, report),
        0 <= i < crate::show_run::actions(first, replies).len(),
    ensures
        crate::show_run::actions(first, replies).len() > if report == Report::Stats {
            2int
        } else {
            1
        },
        (crate::show_run::actions(first, replies)[i] is GetAllContexts) <==> i == if report
            == Report::Stats {
            2int
        } else {
            1
        },
{
    let second = crate::show_run::step_after(first, replies);
    let third = crate::show_run::step_after(second, replies);
    lemma_unfold(first, report, replies, i);
    lemma_unfold(second, report, replies, i - 1);
    if report == Report::Stats {
        lemma_unfold(third, report, replies, i - 2);
        if i > 2 {
            lemma_each(third, report, replies, i - 2);
        }
    } else if i > 1 {
        lemma_each(second, report, replies, i - 1);
    }
}

/// Each process that could be printed is followed by a line break, and one that could not
/// be ends the report. After the first line no text is printed but such line breaks.
pub proof fn law_line_break_after_each_process(
    report: Report,
    first: ShowStep,
    replies: ShowReplies,
    i: int,
)
    requires
        starts(first, report),
        0 <= i < crate::show_run::actions(first, replies).len(),
    ensures
        ({
            let done = crate::show_run::actions(first, replies);
            &&& done[i] matches ShowAction::PrintProc(ctx, proc, _) ==> {
                &&& (replies.printed)(ctx, proc) is Ok ==> i + 1 < done.len() && done[i + 1]
                    == ShowAction::Print("\n")
                &&& (replies.printed)(ctx, proc) is Err ==> i + 1 == done.len()
            }
            &&& i > 0 && done[i] is Print ==> {
                &&& done[i] == ShowAction::Print("\n")
                &&& done[i - 1] is PrintProc
            }
        }),
{
    lemma_neighbours(first, report, replies, i);
    if i > 0 {
        lemma_each(first, report, replies, i);
    }
}

/// The contexts are gone through in the order of their list, and within each of them the
/// processes in the order of theirs; none comes twice.
pub proof fn law_processes_come_in_order(
    report: Report,
    first: ShowStep,
    replies: ShowReplies,
    i: int,
    j: int,
)
    requires
        starts(first, report),
        0 <= i < j < crate::show_run::actions(first, replies).len(),
    ensures
        in_order(
            crate::show_run::actions(first, replies)[i],
            crate::show_run::actions(first, replies)[j],
        ),
{
    lemma_order(first, report, replies, i, j);
}

/// A process that is printed is one of the list that was obtained last, and that is the list
/// of its context.
pub proof fn law_printed_process_is_of_last_list(
    report: Report,
    first: ShowStep,
    replies: ShowReplies,
    i: int,
    ctx: int,
    proc: int,
    printer: Printer,
) -> (list: int)
    requires
        starts(first, report),
        0 <= i < crate::show_run::actions(first, replies).len(),
        crate::show_run::actions(first, replies)[i] == ShowAction::PrintProc(ctx, proc, printer),
    ensures
        0 <= list < i,
        crate::show_run::actions(first, replies)[list] == ShowAction::GetProcs(
            ctx,
            match report {
                Report::Proc(pid) => Listing::WithPid(pid),
                _ => Listing::All,
            },
        ),
        forall|k: int|
            list < k < i ==> !(#[trigger] crate::show_run::actions(first, replies)[k] is GetProcs),
{
    lemma_list_of_process(first, report, replies, i, ctx, proc, printer)
}

/// A report that ends well asks every listed context for its processes.
pub proof fn law_every_context_is_asked(
    report: Report,
    first: ShowStep,
    replies: ShowReplies,
    ctx: int,
) -> (list: int)
    requires
        starts(first, report),
        crate::show_run::outcome(first, replies) is Ok,
        0 <= ctx < replies.context_count(),
    ensures
        0 <= list < crate::show_run::actions(first, replies).len(),
        crate::show_run::actions(first, replies)[list] == ShowAction::GetProcs(
            ctx,
            match report {
                Report::Proc(pid) => Listing::WithPid(pid),
                _ => Listing::All,
            },
        ),
{
    lemma_context_is_listed(first, report, replies, ctx)
}

/// A read returns 0 whatever its report came to. A report that failed is followed by one
/// line with the debug text of just that failure; one that ended well by nothing.
pub proof fn law_end_of_file(
    result: Result<(), Error>,
    end: ShowEnd,
    debug: &str,
    line: String,
)
    requires
        call_ensures(crate::show::show_result, (result,), end),
        call_ensures(crate::show::failure_text, (debug,), line),
    ensures
        result is Ok ==> end == ShowEnd::Return(0),
        result matches Err(err) ==> crate::show_run::failures_printed(end) == seq![err],
        crate::show_run::returned(end) == 0,
        line@ == "failed to generate state: "@ + debug@ + "\n"@,
{
}

} // verus!

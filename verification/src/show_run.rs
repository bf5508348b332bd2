//! What a whole report does, from its first step to its last.

use vstd::prelude::*;
use crate::error::Error;
use crate::show::{Listing, Printed, Printer, Report, ShowEnd, ShowStep};

verus! {

/// The replies that one report gets from the services that it asks.
pub struct ShowReplies {
    /// The number of contexts, or the failure to list them.
    pub contexts: Result<usize, Error>,
    /// For each context the number of processes, or the failure to list them.
    pub procs: spec_fn(int) -> Result<usize, Error>,
    /// For each context and process the outcome of printing it.
    pub printed: spec_fn(int, int) -> Result<(), Error>,
}

/// Something that a report does.
pub enum ShowAction {
    Print(&'static str),
    PrintGlobalStats(&'static str),
    GetAllContexts,
    GetProcs(int, Listing),
    PrintProc(int, int, Printer),
}

impl ShowReplies {
    /// The error with which `action` fails, if it does.
    pub open spec fn failure(self, action: ShowAction) -> Option<Error> {
        match action {
            ShowAction::GetAllContexts => match self.contexts {
                Ok(_) => None,
                Err(err) => Some(err),
            },
            ShowAction::GetProcs(ctx, _) => match (self.procs)(ctx) {
                Ok(_) => None,
                Err(err) => Some(err),
            },
            ShowAction::PrintProc(ctx, proc, _) => match (self.printed)(ctx, proc) {
                Ok(_) => None,
                Err(err) => Some(err),
            },
            _ => None,
        }
    }

    /// The number of contexts that are listed.
    pub open spec fn context_count(self) -> int {
        match self.contexts {
            Ok(contexts) => contexts as int,
            Err(_) => 0,
        }
    }

    /// The number of processes that are listed of context `ctx`.
    pub open spec fn proc_count(self, ctx: int) -> int {
        match (self.procs)(ctx) {
            Ok(procs) => procs as int,
            Err(_) => 0,
        }
    }
}

/// The first component of the measure of the steps that are left: the part of the report.
pub open spec fn part_left(step: ShowStep) -> int {
    match step {
        ShowStep::Print { then: Printed::Header(_), .. } => 4,
        ShowStep::PrintGlobalStats { .. } => 3,
        ShowStep::GetAllContexts { .. } => 2,
        ShowStep::Done(_) => 0,
        _ => 1,
    }
}

/// The second component: the contexts that are left.
pub open spec fn contexts_left(step: ShowStep) -> int {
    match step {
        ShowStep::GetProcs { then, .. } => 2 * (then.contexts - then.ctx) + 1,
        ShowStep::PrintProc { then, .. } => 2 * (then.contexts - then.ctx),
        ShowStep::Print { then: Printed::Separator(at), .. } => 2 * (at.contexts - at.ctx),
        _ => 0,
    }
}

/// The third component: the processes that are left in the context.
pub open spec fn procs_left(step: ShowStep) -> int {
    match step {
        ShowStep::PrintProc { then, .. } => 2 * (then.procs - then.proc) + 1,
        ShowStep::Print { then: Printed::Separator(at), .. } => 2 * (at.procs - at.proc),
        _ => 0,
    }
}

/// What a step does, unless it is the last.
pub open spec fn action_of(step: ShowStep) -> ShowAction {
    match step {
        ShowStep::Print { text, .. } => ShowAction::Print(text),
        ShowStep::PrintGlobalStats { prefix, .. } => ShowAction::PrintGlobalStats(prefix),
        ShowStep::GetProcs { ctx, listing, .. } => ShowAction::GetProcs(ctx as int, listing),
        ShowStep::PrintProc { ctx, proc, printer, .. } => ShowAction::PrintProc(
            ctx as int,
            proc as int,
            printer,
        ),
        _ => ShowAction::GetAllContexts,
    }
}

/// The step that follows `step`, given the replies.
pub open spec fn step_after(step: ShowStep, replies: ShowReplies) -> ShowStep {
    match step {
        ShowStep::Print { then, .. } => then.spec_resume(),
        ShowStep::PrintGlobalStats { then, .. } => then.spec_resume(),
        ShowStep::GetAllContexts { then } => then.spec_resume(replies.contexts),
        ShowStep::GetProcs { ctx, then, .. } => then.spec_resume((replies.procs)(ctx as int)),
        ShowStep::PrintProc { ctx, proc, then, .. } => then.spec_resume(
            (replies.printed)(ctx as int, proc as int),
        ),
        ShowStep::Done(_) => step,
    }
}

/// All that is done from `step` on, in order.
pub open spec fn actions(step: ShowStep, replies: ShowReplies) -> Seq<ShowAction>
    decreases part_left(step), contexts_left(step), procs_left(step),
    when step.wf()
{
    match step {
        ShowStep::Done(_) => Seq::empty(),
        _ => seq![action_of(step)] + actions(step_after(step, replies), replies),
    }
}

/// The result at the end of all that is done from `step` on.
pub open spec fn outcome(step: ShowStep, replies: ShowReplies) -> Result<(), Error>
    decreases part_left(step), contexts_left(step), procs_left(step),
    when step.wf()
{
    match step {
        ShowStep::Done(result) => result,
        _ => outcome(step_after(step, replies), replies),
    }
}

/// Printing the listed processes of context `ctx` from `proc` on, each followed by a line
/// break.
pub open spec fn all_procs(
    report: Report,
    replies: ShowReplies,
    ctx: int,
    proc: int,
    procs: int,
) -> Seq<ShowAction>
    decreases procs - proc,
{
    if proc < procs {
        seq![ShowAction::PrintProc(ctx, proc, report.printer()), ShowAction::Print("\n")]
            + all_procs(report, replies, ctx, proc + 1, procs)
    } else {
        Seq::empty()
    }
}

/// Going through the listed contexts from `ctx` on.
pub open spec fn all_contexts(
    report: Report,
    replies: ShowReplies,
    ctx: int,
    contexts: int,
) -> Seq<ShowAction>
    decreases contexts - ctx,
{
    if ctx < contexts {
        seq![ShowAction::GetProcs(ctx, report.listing())] + all_procs(
            report,
            replies,
            ctx,
            0,
            replies.proc_count(ctx),
        ) + all_contexts(report, replies, ctx + 1, contexts)
    } else {
        Seq::empty()
    }
}

/// What stands before the contexts.
pub open spec fn prelude(report: Report) -> Seq<ShowAction> {
    if report == Report::Stats {
        seq![
            ShowAction::Print(report.header()),
            ShowAction::PrintGlobalStats(""),
            ShowAction::GetAllContexts,
        ]
    } else {
        seq![ShowAction::Print(report.header()), ShowAction::GetAllContexts]
    }
}

/// A report in full: the header, the driver's own statistics where they belong, and then
/// every listed process of every listed context, in the order of the lists.
pub open spec fn full_report(report: Report, replies: ShowReplies) -> Seq<ShowAction> {
    prelude(report) + all_contexts(report, replies, 0, replies.context_count())
}

/// `done` follows `full` up to the first action that fails, and `result` is its error; or
/// no action fails, and `done` is all of `full`.
pub open spec fn stops_at_first_failure(
    done: Seq<ShowAction>,
    result: Result<(), Error>,
    full: Seq<ShowAction>,
    replies: ShowReplies,
) -> bool {
    &&& done.len() <= full.len()
    &&& done == full.subrange(0, done.len() as int)
    &&& forall|i: int|
        0 <= i < done.len() - 1 ==> replies.failure(#[trigger] done[i]) is None
    &&& match result {
        Ok(_) => {
            &&& done == full
            &&& done.len() > 0 ==> replies.failure(done.last()) is None
        },
        Err(err) => done.len() > 0 && replies.failure(done.last()) == Some(err),
    }
}

/// What a report would do from `step` on if nothing failed.
spec fn full_from(step: ShowStep, replies: ShowReplies) -> Seq<ShowAction> {
    match step {
        ShowStep::Print { then: Printed::Header(report), .. } => full_report(report, replies),
        ShowStep::PrintGlobalStats { prefix, then } => seq![
            ShowAction::PrintGlobalStats(prefix),
            ShowAction::GetAllContexts,
        ] + all_contexts(then.report, replies, 0, replies.context_count()),
        ShowStep::GetAllContexts { then } => seq![ShowAction::GetAllContexts] + all_contexts(
            then.report,
            replies,
            0,
            replies.context_count(),
        ),
        ShowStep::GetProcs { then, .. } => all_contexts(
            then.report,
            replies,
            then.ctx as int,
            then.contexts as int,
        ),
        ShowStep::PrintProc { then, .. } => all_procs(
            then.report,
            replies,
            then.ctx as int,
            then.proc as int,
            then.procs as int,
        ) + all_contexts(then.report, replies, then.ctx + 1, then.contexts as int),
        ShowStep::Print { then: Printed::Separator(at), .. } => seq![ShowAction::Print("\n")]
            + all_procs(at.report, replies, at.ctx as int, at.proc + 1, at.procs as int)
            + all_contexts(at.report, replies, at.ctx + 1, at.contexts as int),
        ShowStep::Done(_) => Seq::empty(),
    }
}

/// The step is one that a report can reach: it shows what the report shows.
spec fn reachable(step: ShowStep) -> bool {
    match step {
        ShowStep::Print { text, then: Printed::Header(report) } => text == report.header(),
        ShowStep::Print { text, then: Printed::Separator(at) } => text == "\n" && at.wf(),
        ShowStep::PrintGlobalStats { prefix, then } => prefix == "" && then.report
            == Report::Stats,
        ShowStep::GetAllContexts { .. } => true,
        ShowStep::GetProcs { ctx, listing, then } => {
            &&& then.wf()
            &&& ctx == then.ctx
            &&& listing == then.report.listing()
        },
        ShowStep::PrintProc { ctx, proc, printer, then } => {
            &&& then.wf()
            &&& ctx == then.ctx
            &&& proc == then.proc
            &&& printer == then.report.printer()
        },
        ShowStep::Done(_) => true,
    }
}

proof fn lemma_prepend(
    first: ShowAction,
    done: Seq<ShowAction>,
    result: Result<(), Error>,
    full: Seq<ShowAction>,
    replies: ShowReplies,
)
    requires
        replies.failure(first) is None,
        stops_at_first_failure(done, result, full, replies),
    ensures
        stops_at_first_failure(seq![first] + done, result, seq![first] + full, replies),
{
    let more = seq![first] + done;
    assert(more =~= (seq![first] + full).subrange(0, more.len() as int));
    assert forall|i: int| 0 <= i < more.len() - 1 implies replies.failure(
        #[trigger] more[i],
    ) is None by {
        if i > 0 {
            assert(more[i] == done[i - 1]);
        }
    }
    if done.len() > 0 {
        assert(more.last() == done.last());
    }
}

proof fn lemma_run(step: ShowStep, replies: ShowReplies)
    requires
        reachable(step),
        step.wf(),
        step !is Done,
    ensures
        stops_at_first_failure(
            actions(step, replies),
            outcome(step, replies),
            full_from(step, replies),
            replies,
        ),
    decreases part_left(step), contexts_left(step), procs_left(step),
{
    reveal_with_fuel(all_procs, 2);
    reveal_with_fuel(all_contexts, 2);
    let action = action_of(step);
    let next = step_after(step, replies);
    let full = full_from(step, replies);
    assert(reachable(next) && next.wf());
    assert(full.len() > 0 && full[0] == action);
    if replies.failure(action) is Some {
        assert(next == ShowStep::Done(Err(replies.failure(action)->0)));
        assert(actions(next, replies) == Seq::<ShowAction>::empty());
        assert(actions(step, replies) =~= full.subrange(0, 1));
    } else {
        assert(full =~= seq![action] + full_from(next, replies));
        if next is Done {
            assert(next == ShowStep::Done(Ok(())));
            assert(actions(next, replies) == Seq::<ShowAction>::empty());
            assert(actions(step, replies) =~= full);
            assert(full.subrange(0, full.len() as int) =~= full);
        } else {
            lemma_run(next, replies);
            lemma_prepend(
                action,
                actions(next, replies),
                outcome(next, replies),
                full_from(next, replies),
                replies,
            );
        }
    }
}

/// Whatever the services reply, a report does what stands in the full report, in that
/// order, up to the first failure, and ends with that failure; where nothing fails it does
/// all of it and ends well.
pub proof fn law_report_stops_at_first_failure(report: Report, replies: ShowReplies)
    ensures
        stops_at_first_failure(
            actions(crate::show::spec_start(report), replies),
            outcome(crate::show::spec_start(report), replies),
            full_report(report, replies),
            replies,
        ),
{
    lemma_run(crate::show::spec_start(report), replies);
}

/// No action of `full` fails.
pub open spec fn none_fails(full: Seq<ShowAction>, replies: ShowReplies) -> bool {
    forall|i: int| 0 <= i < full.len() ==> replies.failure(#[trigger] full[i]) is None
}

/// Listing and printing succeed throughout context `ctx`.
pub open spec fn context_succeeds(replies: ShowReplies, ctx: int) -> bool {
    &&& (replies.procs)(ctx) is Ok
    &&& forall|proc: int|
        0 <= proc < replies.proc_count(ctx) ==> #[trigger] (replies.printed)(ctx, proc) is Ok
}

proof fn lemma_none_fails_concat(
    first: Seq<ShowAction>,
    second: Seq<ShowAction>,
    replies: ShowReplies,
)
    ensures
        none_fails(first + second, replies) <==> none_fails(first, replies) && none_fails(
            second,
            replies,
        ),
{
    let both = first + second;
    if none_fails(both, replies) {
        assert forall|i: int| 0 <= i < first.len() implies replies.failure(
            #[trigger] first[i],
        ) is None by {
            assert(both[i] == first[i]);
        }
        assert forall|i: int| 0 <= i < second.len() implies replies.failure(
            #[trigger] second[i],
        ) is None by {
            assert(both[first.len() + i] == second[i]);
        }
    }
}

proof fn lemma_all_procs_succeed(
    report: Report,
    replies: ShowReplies,
    ctx: int,
    proc: int,
    procs: int,
)
    ensures
        none_fails(all_procs(report, replies, ctx, proc, procs), replies) <==> forall|p: int|
            proc <= p < procs ==> #[trigger] (replies.printed)(ctx, p) is Ok,
    decreases procs - proc,
{
    if proc < procs {
        let print = ShowAction::PrintProc(ctx, proc, report.printer());
        let first = seq![print, ShowAction::Print("\n")];
        let rest = all_procs(report, replies, ctx, proc + 1, procs);
        lemma_all_procs_succeed(report, replies, ctx, proc + 1, procs);
        lemma_none_fails_concat(first, rest, replies);
        assert(first[0] == print);
        assert(none_fails(first, replies) <==> (replies.printed)(ctx, proc) is Ok);
    }
}

proof fn lemma_all_contexts_succeed(
    report: Report,
    replies: ShowReplies,
    ctx: int,
    contexts: int,
)
    ensures
        none_fails(all_contexts(report, replies, ctx, contexts), replies) <==> forall|c: int|
            ctx <= c < contexts ==> #[trigger] context_succeeds(replies, c),
    decreases contexts - ctx,
{
    if ctx < contexts {
        let list = ShowAction::GetProcs(ctx, report.listing());
        let procs = all_procs(report, replies, ctx, 0, replies.proc_count(ctx));
        let rest = all_contexts(report, replies, ctx + 1, contexts);
        lemma_all_procs_succeed(report, replies, ctx, 0, replies.proc_count(ctx));
        lemma_all_contexts_succeed(report, replies, ctx + 1, contexts);
        lemma_none_fails_concat(seq![list], procs, replies);
        lemma_none_fails_concat(seq![list] + procs, rest, replies);
        assert(seq![list][0] == list);
        assert(none_fails(seq![list] + procs, replies) <==> context_succeeds(replies, ctx));
    }
}

/// A report ends well exactly when the contexts can be listed, the processes of each of
/// them can be listed, and each of these can be printed.
pub proof fn law_report_succeeds_iff_all_succeeds(report: Report, replies: ShowReplies)
    ensures
        outcome(crate::show::spec_start(report), replies) is Ok <==> {
            &&& replies.contexts is Ok
            &&& forall|ctx: int|
                0 <= ctx < replies.context_count() ==> #[trigger] context_succeeds(replies, ctx)
        },
{
    let done = actions(crate::show::spec_start(report), replies);
    let full = full_report(report, replies);
    let contexts = all_contexts(report, replies, 0, replies.context_count());
    law_report_stops_at_first_failure(report, replies);
    lemma_all_contexts_succeed(report, replies, 0, replies.context_count());
    lemma_none_fails_concat(prelude(report), contexts, replies);
    assert(prelude(report).last() == ShowAction::GetAllContexts);
    assert(none_fails(prelude(report), replies) <==> replies.contexts is Ok);
    if outcome(crate::show::spec_start(report), replies) is Err {
        assert(done.last() == full[done.len() - 1]);
    }
}

proof fn lemma_prints_in_procs(
    report: Report,
    replies: ShowReplies,
    ctx: int,
    proc: int,
    procs: int,
    c: int,
    p: int,
    printer: Printer,
)
    ensures
        all_procs(report, replies, ctx, proc, procs).to_multiset().count(
            ShowAction::PrintProc(c, p, printer),
        ) == (if c == ctx && proc <= p < procs && printer == report.printer() {
            1nat
        } else {
            0
        }),
    decreases procs - proc,
{
    broadcast use vstd::seq_lib::group_to_multiset_ensures;

    if proc < procs {
        let print = ShowAction::PrintProc(ctx, proc, report.printer());
        let first = seq![print, ShowAction::Print("\n")];
        let rest = all_procs(report, replies, ctx, proc + 1, procs);
        lemma_prints_in_procs(report, replies, ctx, proc + 1, procs, c, p, printer);
        vstd::seq_lib::lemma_multiset_commutative(first, rest);
        assert(first =~= Seq::empty().push(print).push(ShowAction::Print("\n")));
    }
}

proof fn lemma_prints_in_contexts(
    report: Report,
    replies: ShowReplies,
    ctx: int,
    contexts: int,
    c: int,
    p: int,
    printer: Printer,
)
    ensures
        all_contexts(report, replies, ctx, contexts).to_multiset().count(
            ShowAction::PrintProc(c, p, printer),
        ) == (if ctx <= c < contexts && 0 <= p < replies.proc_count(c)
            && printer == report.printer() {
            1nat
        } else {
            0
        }),
    decreases contexts - ctx,
{
    broadcast use vstd::seq_lib::group_to_multiset_ensures;

    if ctx < contexts {
        let list = ShowAction::GetProcs(ctx, report.listing());
        let procs = all_procs(report, replies, ctx, 0, replies.proc_count(ctx));
        let rest = all_contexts(report, replies, ctx + 1, contexts);
        lemma_prints_in_procs(report, replies, ctx, 0, replies.proc_count(ctx), c, p, printer);
        lemma_prints_in_contexts(report, replies, ctx + 1, contexts, c, p, printer);
        vstd::seq_lib::lemma_multiset_commutative(seq![list], procs);
        vstd::seq_lib::lemma_multiset_commutative(seq![list] + procs, rest);
        assert(seq![list] =~= Seq::empty().push(list));
    }
}

/// A report that ends well prints every listed process of every listed context exactly
/// once, with the report's own printer; it prints no other process, and none with another
/// printer.
pub proof fn law_every_listed_process_is_printed_once(
    report: Report,
    replies: ShowReplies,
    ctx: int,
    proc: int,
    printer: Printer,
)
    requires
        outcome(crate::show::spec_start(report), replies) is Ok,
    ensures
        actions(crate::show::spec_start(report), replies).to_multiset().count(
            ShowAction::PrintProc(ctx, proc, printer),
        ) == (if 0 <= ctx < replies.context_count() && 0 <= proc < replies.proc_count(ctx)
            && printer == report.printer() {
            1nat
        } else {
            0
        }),
{
    broadcast use vstd::seq_lib::group_to_multiset_ensures;

    let contexts = all_contexts(report, replies, 0, replies.context_count());
    law_report_stops_at_first_failure(report, replies);
    lemma_prints_in_contexts(report, replies, 0, replies.context_count(), ctx, proc, printer);
    vstd::seq_lib::lemma_multiset_commutative(prelude(report), contexts);
    if report == Report::Stats {
        assert(prelude(report) =~= Seq::empty().push(ShowAction::Print(report.header())).push(
            ShowAction::PrintGlobalStats(""),
        ).push(ShowAction::GetAllContexts));
    } else {
        assert(prelude(report) =~= Seq::empty().push(ShowAction::Print(report.header())).push(
            ShowAction::GetAllContexts,
        ));
    }
}

/// The texts that the services write to the file.
pub struct ShowTexts {
    /// The driver's own statistics, after a prefix.
    pub global_stats: spec_fn(&'static str) -> Seq<char>,
    /// A process of a context.
    pub proc: spec_fn(int, int, Printer) -> Seq<char>,
}

/// What `action` writes to the file.
pub open spec fn text_of(action: ShowAction, texts: ShowTexts) -> Seq<char> {
    match action {
        ShowAction::Print(text) => text@,
        ShowAction::PrintGlobalStats(prefix) => (texts.global_stats)(prefix),
        ShowAction::PrintProc(ctx, proc, printer) => (texts.proc)(ctx, proc, printer),
        _ => Seq::empty(),
    }
}

/// What `done` writes to the file, in order.
pub open spec fn written(done: Seq<ShowAction>, texts: ShowTexts) -> Seq<char>
    decreases done.len(),
{
    if done.len() == 0 {
        Seq::empty()
    } else {
        text_of(done.first(), texts) + written(done.drop_first(), texts)
    }
}

/// The texts of the processes of context `ctx` from `proc` on, each followed by a line
/// break.
pub open spec fn procs_text(
    report: Report,
    texts: ShowTexts,
    ctx: int,
    proc: int,
    procs: int,
) -> Seq<char>
    decreases procs - proc,
{
    if proc < procs {
        (texts.proc)(ctx, proc, report.printer()) + "\n"@ + procs_text(
            report,
            texts,
            ctx,
            proc + 1,
            procs,
        )
    } else {
        Seq::empty()
    }
}

/// The texts of the contexts from `ctx` on.
pub open spec fn contexts_text(
    report: Report,
    replies: ShowReplies,
    texts: ShowTexts,
    ctx: int,
    contexts: int,
) -> Seq<char>
    decreases contexts - ctx,
{
    if ctx < contexts {
        procs_text(report, texts, ctx, 0, replies.proc_count(ctx)) + contexts_text(
            report,
            replies,
            texts,
            ctx + 1,
            contexts,
        )
    } else {
        Seq::empty()
    }
}

/// The text before the contexts: the header, and the driver's own statistics in the
/// statistics file.
pub open spec fn prelude_text(report: Report, texts: ShowTexts) -> Seq<char> {
    report.header()@ + if report == Report::Stats {
        (texts.global_stats)("")
    } else {
        Seq::empty()
    }
}

/// The text of a complete report.
pub open spec fn full_text(report: Report, replies: ShowReplies, texts: ShowTexts) -> Seq<char> {
    prelude_text(report, texts) + contexts_text(
        report,
        replies,
        texts,
        0,
        replies.context_count(),
    )
}

proof fn lemma_written_concat(first: Seq<ShowAction>, second: Seq<ShowAction>, texts: ShowTexts)
    ensures
        written(first + second, texts) == written(first, texts) + written(second, texts),
    decreases first.len(),
{
    if first.len() == 0 {
        assert(first + second =~= second);
        assert(written(first, texts) + written(second, texts) =~= written(second, texts));
    } else {
        lemma_written_concat(first.drop_first(), second, texts);
        assert((first + second).drop_first() =~= first.drop_first() + second);
        assert((first + second).first() == first.first());
        assert(written(first + second, texts) =~= written(first, texts) + written(second, texts));
    }
}

proof fn lemma_written_procs(
    report: Report,
    replies: ShowReplies,
    texts: ShowTexts,
    ctx: int,
    proc: int,
    procs: int,
)
    ensures
        written(all_procs(report, replies, ctx, proc, procs), texts) == procs_text(
            report,
            texts,
            ctx,
            proc,
            procs,
        ),
    decreases procs - proc,
{
    if proc < procs {
        let print = ShowAction::PrintProc(ctx, proc, report.printer());
        let first = seq![print, ShowAction::Print("\n")];
        lemma_written_procs(report, replies, texts, ctx, proc + 1, procs);
        lemma_written_concat(first, all_procs(report, replies, ctx, proc + 1, procs), texts);
        assert(first.drop_first() =~= seq![ShowAction::Print("\n")]);
        assert(first.drop_first().drop_first() =~= Seq::<ShowAction>::empty());
        reveal_with_fuel(written, 3);
        assert(written(first, texts) =~= (texts.proc)(ctx, proc, report.printer()) + "\n"@);
    }
}

proof fn lemma_written_contexts(
    report: Report,
    replies: ShowReplies,
    texts: ShowTexts,
    ctx: int,
    contexts: int,
)
    ensures
        written(all_contexts(report, replies, ctx, contexts), texts) == contexts_text(
            report,
            replies,
            texts,
            ctx,
            contexts,
        ),
    decreases contexts - ctx,
{
    if ctx < contexts {
        let list = seq![ShowAction::GetProcs(ctx, report.listing())];
        let procs = all_procs(report, replies, ctx, 0, replies.proc_count(ctx));
        let rest = all_contexts(report, replies, ctx + 1, contexts);
        lemma_written_procs(report, replies, texts, ctx, 0, replies.proc_count(ctx));
        lemma_written_contexts(report, replies, texts, ctx + 1, contexts);
        lemma_written_concat(list, procs, texts);
        lemma_written_concat(list + procs, rest, texts);
        assert(list.drop_first() =~= Seq::<ShowAction>::empty());
        reveal_with_fuel(written, 2);
        assert(written(list, texts) =~= Seq::<char>::empty());
        assert(written(list + procs, texts) =~= written(procs, texts));
    }
}

proof fn lemma_written_prelude(report: Report, texts: ShowTexts)
    ensures
        written(prelude(report), texts) == prelude_text(report, texts),
{
    reveal_with_fuel(written, 4);
    let all = prelude(report);
    if report == Report::Stats {
        assert(all.drop_first() =~= seq![
            ShowAction::PrintGlobalStats(""),
            ShowAction::GetAllContexts,
        ]);
        assert(all.drop_first().drop_first() =~= seq![ShowAction::GetAllContexts]);
    } else {
        assert(all.drop_first() =~= seq![ShowAction::GetAllContexts]);
    }
    assert(written(all, texts) =~= prelude_text(report, texts));
}

/// A report that ends well leaves in the file the header, the driver's own statistics in
/// the statistics file, and then, context by context, each listed process and a line break.
pub proof fn law_complete_report_text(report: Report, replies: ShowReplies, texts: ShowTexts)
    requires
        outcome(crate::show::spec_start(report), replies) is Ok,
    ensures
        written(actions(crate::show::spec_start(report), replies), texts) == full_text(
            report,
            replies,
            texts,
        ),
{
    law_report_stops_at_first_failure(report, replies);
    lemma_written_prelude(report, texts);
    lemma_written_contexts(report, replies, texts, 0, replies.context_count());
    lemma_written_concat(
        prelude(report),
        all_contexts(report, replies, 0, replies.context_count()),
        texts,
    );
}

/// Whatever the services reply, the file begins with the report's header.
pub proof fn law_header_comes_first(report: Report, replies: ShowReplies, texts: ShowTexts)
    ensures
        report.header()@.is_prefix_of(
            written(actions(crate::show::spec_start(report), replies), texts),
        ),
{
    let start = crate::show::spec_start(report);
    let done = actions(start, replies);
    assert(done.first() == ShowAction::Print(report.header()));
    assert(written(done, texts) =~= report.header()@ + written(done.drop_first(), texts));
}

/// The errors of which a failure line is printed from `end` on.
pub open spec fn failures_printed(end: ShowEnd) -> Seq<Error> {
    match end {
        ShowEnd::PrintFailure { err, .. } => seq![err],
        ShowEnd::Return(_) => Seq::empty(),
    }
}

/// The value that is returned to C from `end` on.
pub open spec fn returned(end: ShowEnd) -> int {
    match end {
        ShowEnd::PrintFailure { then, .. } => match then.spec_resume() {
            ShowEnd::Return(value) => value as int,
            ShowEnd::PrintFailure { .. } => arbitrary(),
        },
        ShowEnd::Return(value) => value as int,
    }
}

/// What is printed to the file from `end` on, where `debug` gives the debug text of an
/// error.
pub open spec fn end_text(end: ShowEnd, debug: spec_fn(Error) -> Seq<char>) -> Seq<char> {
    match end {
        ShowEnd::PrintFailure { err, .. } => crate::show::spec_failure_text(debug(err)),
        ShowEnd::Return(_) => Seq::empty(),
    }
}

/// All that the file holds in the end: what the report writes, and the failure line if it
/// fails.
pub open spec fn file_text(
    report: Report,
    replies: ShowReplies,
    texts: ShowTexts,
    debug: spec_fn(Error) -> Seq<char>,
) -> Seq<char> {
    written(actions(crate::show::spec_start(report), replies), texts) + end_text(
        crate::show::spec_show_result(outcome(crate::show::spec_start(report), replies)),
        debug,
    )
}

/// Where a report fails.
pub enum FailurePoint {
    /// The contexts cannot be listed.
    Contexts,
    /// The processes of this context cannot be listed.
    Procs(int),
    /// This process of this context cannot be printed.
    Proc(int, int),
}

/// The report goes well up to `at`, and fails there with `err`.
pub open spec fn fails_first_at(replies: ShowReplies, at: FailurePoint, err: Error) -> bool {
    match at {
        FailurePoint::Contexts => replies.contexts == Err::<usize, Error>(err),
        FailurePoint::Procs(ctx) => {
            &&& 0 <= ctx < replies.context_count()
            &&& forall|c: int| 0 <= c < ctx ==> #[trigger] context_succeeds(replies, c)
            &&& (replies.procs)(ctx) == Err::<usize, Error>(err)
        },
        FailurePoint::Proc(ctx, proc) => {
            &&& 0 <= ctx < replies.context_count()
            &&& forall|c: int| 0 <= c < ctx ==> #[trigger] context_succeeds(replies, c)
            &&& 0 <= proc < replies.proc_count(ctx)
            &&& forall|p: int| 0 <= p < proc ==> #[trigger] (replies.printed)(ctx, p) is Ok
            &&& (replies.printed)(ctx, proc) == Err::<(), Error>(err)
        },
    }
}

/// What a report that fails at `at` has written by then: the header and the driver's own
/// statistics where they belong, the contexts before the failure in full, the processes
/// before the failure each with its line break, and what the process that fails has
/// written itself, without a line break.
pub open spec fn text_up_to(
    report: Report,
    replies: ShowReplies,
    texts: ShowTexts,
    at: FailurePoint,
) -> Seq<char> {
    prelude_text(report, texts) + match at {
        FailurePoint::Contexts => Seq::empty(),
        FailurePoint::Procs(ctx) => contexts_text(report, replies, texts, 0, ctx),
        FailurePoint::Proc(ctx, proc) => contexts_text(report, replies, texts, 0, ctx)
            + procs_text(report, texts, ctx, 0, proc) + (texts.proc)(
            ctx,
            proc,
            report.printer(),
        ),
    }
}

/// What a report that fails at `at` does before the action that fails.
spec fn actions_before(report: Report, replies: ShowReplies, at: FailurePoint) -> Seq<
    ShowAction,
> {
    match at {
        FailurePoint::Contexts => prelude(report).drop_last(),
        FailurePoint::Procs(ctx) => prelude(report) + all_contexts(report, replies, 0, ctx),
        FailurePoint::Proc(ctx, proc) => prelude(report) + all_contexts(report, replies, 0, ctx)
            + seq![ShowAction::GetProcs(ctx, report.listing())] + all_procs(
            report,
            replies,
            ctx,
            0,
            proc,
        ),
    }
}

/// The action that fails at `at`.
spec fn failing_action(report: Report, at: FailurePoint) -> ShowAction {
    match at {
        FailurePoint::Contexts => ShowAction::GetAllContexts,
        FailurePoint::Procs(ctx) => ShowAction::GetProcs(ctx, report.listing()),
        FailurePoint::Proc(ctx, proc) => ShowAction::PrintProc(ctx, proc, report.printer()),
    }
}

proof fn lemma_split_contexts(
    report: Report,
    replies: ShowReplies,
    from: int,
    ctx: int,
    contexts: int,
)
    requires
        from <= ctx <= contexts,
    ensures
        all_contexts(report, replies, from, contexts) == all_contexts(report, replies, from, ctx)
            + all_contexts(report, replies, ctx, contexts),
    decreases ctx - from,
{
    let left = all_contexts(report, replies, from, ctx);
    let right = all_contexts(report, replies, ctx, contexts);
    if from < ctx {
        lemma_split_contexts(report, replies, from + 1, ctx, contexts);
    }
    assert(all_contexts(report, replies, from, contexts) =~= left + right);
}

proof fn lemma_split_procs(
    report: Report,
    replies: ShowReplies,
    ctx: int,
    from: int,
    proc: int,
    procs: int,
)
    requires
        from <= proc <= procs,
    ensures
        all_procs(report, replies, ctx, from, procs) == all_procs(
            report,
            replies,
            ctx,
            from,
            proc,
        ) + all_procs(report, replies, ctx, proc, procs),
    decreases proc - from,
{
    let left = all_procs(report, replies, ctx, from, proc);
    let right = all_procs(report, replies, ctx, proc, procs);
    if from < proc {
        lemma_split_procs(report, replies, ctx, from + 1, proc, procs);
    }
    assert(all_procs(report, replies, ctx, from, procs) =~= left + right);
}

proof fn lemma_regroup_list(
    start: Seq<ShowAction>,
    earlier: Seq<ShowAction>,
    list: Seq<ShowAction>,
    procs: Seq<ShowAction>,
    later: Seq<ShowAction>,
)
    ensures
        start + (earlier + (list + procs + later)) == start + earlier + list + (procs + later),
{
    assert(start + (earlier + (list + procs + later)) =~= start + earlier + list + (procs
        + later));
}

proof fn lemma_regroup_print(
    start: Seq<ShowAction>,
    printed: Seq<ShowAction>,
    print: ShowAction,
    separator: ShowAction,
    more: Seq<ShowAction>,
    later: Seq<ShowAction>,
)
    ensures
        start + ((printed + (seq![print, separator] + more)) + later) == start + printed + seq![
            print,
        ] + (seq![separator] + more + later),
{
    assert(start + ((printed + (seq![print, separator] + more)) + later) =~= start + printed
        + seq![print] + (seq![separator] + more + later));
}

proof fn lemma_before_context(report: Report, replies: ShowReplies, ctx: int)
    requires
        0 <= ctx < replies.context_count(),
    ensures
        full_report(report, replies) == prelude(report) + all_contexts(report, replies, 0, ctx)
            + seq![ShowAction::GetProcs(ctx, report.listing())] + (all_procs(
            report,
            replies,
            ctx,
            0,
            replies.proc_count(ctx),
        ) + all_contexts(report, replies, ctx + 1, replies.context_count())),
        replies.contexts is Ok && (forall|c: int|
            0 <= c < ctx ==> #[trigger] context_succeeds(replies, c)) ==> none_fails(
            prelude(report) + all_contexts(report, replies, 0, ctx),
            replies,
        ),
{
    lemma_split_contexts(report, replies, 0, ctx, replies.context_count());
    lemma_all_contexts_succeed(report, replies, 0, ctx);
    lemma_none_fails_concat(prelude(report), all_contexts(report, replies, 0, ctx), replies);
    lemma_regroup_list(
        prelude(report),
        all_contexts(report, replies, 0, ctx),
        seq![ShowAction::GetProcs(ctx, report.listing())],
        all_procs(report, replies, ctx, 0, replies.proc_count(ctx)),
        all_contexts(report, replies, ctx + 1, replies.context_count()),
    );
}

proof fn lemma_before_proc(
    report: Report,
    replies: ShowReplies,
    ctx: int,
    proc: int,
    err: Error,
) -> (rest: Seq<ShowAction>)
    requires
        fails_first_at(replies, FailurePoint::Proc(ctx, proc), err),
    ensures
        none_fails(
            actions_before(report, replies, FailurePoint::Proc(ctx, proc)),
            replies,
        ),
        full_report(report, replies) == actions_before(
            report,
            replies,
            FailurePoint::Proc(ctx, proc),
        ) + seq![ShowAction::PrintProc(ctx, proc, report.printer())] + rest,
{
    let procs = replies.proc_count(ctx);
    let list = ShowAction::GetProcs(ctx, report.listing());
    let start = prelude(report) + all_contexts(report, replies, 0, ctx) + seq![list];
    let printed = all_procs(report, replies, ctx, 0, proc);
    let more = all_procs(report, replies, ctx, proc + 1, procs);
    let later = all_contexts(report, replies, ctx + 1, replies.context_count());
    lemma_before_context(report, replies, ctx);
    lemma_split_procs(report, replies, ctx, 0, proc, procs);
    lemma_all_procs_succeed(report, replies, ctx, 0, proc);
    lemma_none_fails_concat(
        prelude(report) + all_contexts(report, replies, 0, ctx),
        seq![list],
        replies,
    );
    assert((replies.procs)(ctx) is Ok);
    assert(none_fails(seq![list], replies));
    lemma_none_fails_concat(start, printed, replies);
    lemma_regroup_print(
        start,
        printed,
        ShowAction::PrintProc(ctx, proc, report.printer()),
        ShowAction::Print("\n"),
        more,
        later,
    );
    seq![ShowAction::Print("\n")] + more + later
}

/// Up to the failure the report does what the full report does, and none of it fails.
proof fn lemma_actions_before(
    report: Report,
    replies: ShowReplies,
    at: FailurePoint,
    err: Error,
) -> (rest: Seq<ShowAction>)
    requires
        fails_first_at(replies, at, err),
    ensures
        none_fails(actions_before(report, replies, at), replies),
        replies.failure(failing_action(report, at)) == Some(err),
        full_report(report, replies) == actions_before(report, replies, at) + seq![
            failing_action(report, at),
        ] + rest,
{
    match at {
        FailurePoint::Contexts => {
            let rest = all_contexts(report, replies, 0, replies.context_count());
            assert(prelude(report) =~= prelude(report).drop_last() + seq![
                ShowAction::GetAllContexts,
            ]);
            rest
        },
        FailurePoint::Procs(ctx) => {
            lemma_before_context(report, replies, ctx);
            all_procs(report, replies, ctx, 0, replies.proc_count(ctx)) + all_contexts(
                report,
                replies,
                ctx + 1,
                replies.context_count(),
            )
        },
        FailurePoint::Proc(ctx, proc) => lemma_before_proc(report, replies, ctx, proc, err),
    }
}

/// A report that goes well up to `at` and fails there does nothing after the failure.
proof fn lemma_failed_actions(
    report: Report,
    replies: ShowReplies,
    at: FailurePoint,
    err: Error,
)
    requires
        fails_first_at(replies, at, err),
    ensures
        outcome(crate::show::spec_start(report), replies) == Err::<(), Error>(err),
        actions(crate::show::spec_start(report), replies) == actions_before(report, replies, at)
            + seq![failing_action(report, at)],
{
    let done = actions(crate::show::spec_start(report), replies);
    let full = full_report(report, replies);
    let before = actions_before(report, replies, at);
    let rest = lemma_actions_before(report, replies, at, err);
    law_report_stops_at_first_failure(report, replies);
    assert(full[before.len() as int] == failing_action(report, at));
    if done.len() <= before.len() {
        if done.len() > 0 {
            assert(done.last() == full[done.len() - 1]);
            assert(full[done.len() - 1] == before[done.len() - 1]);
        }
        assert(false);
    }
    assert(done[before.len() as int] == full[before.len() as int]);
    assert(done.len() == before.len() + 1);
    assert(done =~= before + seq![failing_action(report, at)]);
}

proof fn lemma_written_one(action: ShowAction, texts: ShowTexts)
    ensures
        written(seq![action], texts) == text_of(action, texts),
{
    reveal_with_fuel(written, 2);
    assert(seq![action].drop_first() =~= Seq::<ShowAction>::empty());
    assert(written(seq![action], texts) =~= text_of(action, texts));
}

/// After a report that failed with `err` at `at`, the file holds the report up to and with
/// what the failing process has written itself, and then the failure line of `err`, with
/// nothing in between and nothing after it.
pub proof fn law_failed_report_file(
    report: Report,
    replies: ShowReplies,
    texts: ShowTexts,
    debug: spec_fn(Error) -> Seq<char>,
    at: FailurePoint,
    err: Error,
)
    requires
        fails_first_at(replies, at, err),
    ensures
        outcome(crate::show::spec_start(report), replies) == Err::<(), Error>(err),
        written(actions(crate::show::spec_start(report), replies), texts) == text_up_to(
            report,
            replies,
            texts,
            at,
        ),
        file_text(report, replies, texts, debug) == text_up_to(report, replies, texts, at)
            + "failed to generate state: "@ + debug(err) + "\n"@,
{
    let done = actions(crate::show::spec_start(report), replies);
    let before = actions_before(report, replies, at);
    let last = failing_action(report, at);
    lemma_failed_actions(report, replies, at, err);
    lemma_written_concat(before, seq![last], texts);
    lemma_written_one(last, texts);
    lemma_written_prelude(report, texts);
    match at {
        FailurePoint::Contexts => {
            assert(done =~= prelude(report));
        },
        FailurePoint::Procs(ctx) => {
            lemma_written_contexts(report, replies, texts, 0, ctx);
            lemma_written_concat(
                prelude(report),
                all_contexts(report, replies, 0, ctx),
                texts,
            );
        },
        FailurePoint::Proc(ctx, proc) => {
            let list = ShowAction::GetProcs(ctx, report.listing());
            let earlier = all_contexts(report, replies, 0, ctx);
            let printed = all_procs(report, replies, ctx, 0, proc);
            lemma_written_contexts(report, replies, texts, 0, ctx);
            lemma_written_procs(report, replies, texts, ctx, 0, proc);
            lemma_written_one(list, texts);
            lemma_written_concat(prelude(report), earlier, texts);
            lemma_written_concat(prelude(report) + earlier, seq![list], texts);
            lemma_written_concat(prelude(report) + earlier + seq![list], printed, texts);
        },
    }
    assert(written(done, texts) =~= text_up_to(report, replies, texts, at));
    assert(file_text(report, replies, texts, debug) =~= text_up_to(report, replies, texts, at)
        + "failed to generate state: "@ + debug(err) + "\n"@);
}

proof fn lemma_first_bad_context(replies: ShowReplies, ctx: int) -> (first: int)
    requires
        0 <= ctx,
        !context_succeeds(replies, ctx),
    ensures
        0 <= first <= ctx,
        !context_succeeds(replies, first),
        forall|c: int| 0 <= c < first ==> #[trigger] context_succeeds(replies, c),
    decreases ctx,
{
    if exists|c: int| 0 <= c < ctx && !#[trigger] context_succeeds(replies, c) {
        let c = choose|c: int| 0 <= c < ctx && !#[trigger] context_succeeds(replies, c);
        lemma_first_bad_context(replies, c)
    } else {
        ctx
    }
}

proof fn lemma_first_bad_proc(replies: ShowReplies, ctx: int, proc: int) -> (first: int)
    requires
        0 <= proc,
        (replies.printed)(ctx, proc) is Err,
    ensures
        0 <= first <= proc,
        (replies.printed)(ctx, first) is Err,
        forall|p: int| 0 <= p < first ==> #[trigger] (replies.printed)(ctx, p) is Ok,
    decreases proc,
{
    if exists|p: int| 0 <= p < proc && #[trigger] (replies.printed)(ctx, p) is Err {
        let p = choose|p: int| 0 <= p < proc && #[trigger] (replies.printed)(ctx, p) is Err;
        lemma_first_bad_proc(replies, ctx, p)
    } else {
        proc
    }
}

/// Every report that fails, fails at some first point, with the error of that point.
pub proof fn law_failed_report_has_first_failure(
    report: Report,
    replies: ShowReplies,
    err: Error,
) -> (at: FailurePoint)
    requires
        outcome(crate::show::spec_start(report), replies) == Err::<(), Error>(err),
    ensures
        fails_first_at(replies, at, err),
{
    law_report_succeeds_iff_all_succeeds(report, replies);
    if replies.contexts is Err {
        let at = FailurePoint::Contexts;
        lemma_failed_actions(report, replies, at, replies.contexts->Err_0);
        at
    } else {
        let bad = choose|c: int|
            0 <= c < replies.context_count() && !#[trigger] context_succeeds(replies, c);
        let ctx = lemma_first_bad_context(replies, bad);
        if (replies.procs)(ctx) is Err {
            let at = FailurePoint::Procs(ctx);
            lemma_failed_actions(report, replies, at, (replies.procs)(ctx)->Err_0);
            at
        } else {
            let bad_proc = choose|p: int|
                0 <= p < replies.proc_count(ctx) && !(#[trigger] (replies.printed)(ctx, p) is Ok);
            let proc = lemma_first_bad_proc(replies, ctx, bad_proc);
            let at = FailurePoint::Proc(ctx, proc);
            lemma_failed_actions(report, replies, at, (replies.printed)(ctx, proc)->Err_0);
            at
        }
    }
}

/// After a report that ended well the file holds the complete report, and nothing else.
pub proof fn law_complete_report_file(
    report: Report,
    replies: ShowReplies,
    texts: ShowTexts,
    debug: spec_fn(Error) -> Seq<char>,
)
    requires
        outcome(crate::show::spec_start(report), replies) is Ok,
    ensures
        file_text(report, replies, texts, debug) == full_text(report, replies, texts),
{
    law_complete_report_text(report, replies, texts);
    assert(file_text(report, replies, texts, debug) =~= full_text(report, replies, texts));
}

/// Reading a debug file always returns 0; exactly the failure of its report, if it failed,
/// is told in the file.
pub proof fn law_read_succeeds_and_tells_failure(report: Report, replies: ShowReplies)
    ensures
        ({
            let result = outcome(crate::show::spec_start(report), replies);
            let end = crate::show::spec_show_result(result);
            &&& returned(end) == 0
            &&& failures_printed(end) == match result {
                Ok(_) => Seq::<Error>::empty(),
                Err(err) => seq![err],
            }
        }),
{
}

} // verus!

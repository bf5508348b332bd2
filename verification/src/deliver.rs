//! Work items that deliver a bare return code to a reader.

use vstd::prelude::*;
use crate::error::{AllocError, Error};

verus! {

/// The return code for a transaction that has been delivered.
pub const BR_TRANSACTION_COMPLETE: u32 = 0x7206;

/// A work item together with the links that hold it in a list.
pub struct DTRWrap<L, T: ?Sized> {
    pub links: L,
    pub wrapped: T,
}

impl<L, T> DTRWrap<L, T> {
    /// Wraps `val` with the links `links`, which are in no list yet.
    pub fn new(links: L, val: T) -> (res: Self)
        ensures
            res == (DTRWrap { links, wrapped: val }),
    {
        DTRWrap { links, wrapped: val }
    }
}

impl<L, T: ?Sized> core::ops::Deref for DTRWrap<L, T> {
    type Target = T;

    /// The wrapped work item.
    fn deref(&self) -> (res: &T)
        ensures
            res == &self.wrapped,
    {
        &self.wrapped
    }
}

/// What becomes of the allocation of a work item: a failure of any kind is a failure to
/// allocate.
pub fn arc_try_new<A>(allocated: Result<A, Error>) -> (res: Result<A, AllocError>)
    ensures
        res == match allocated {
            Ok(item) => Ok::<A, AllocError>(item),
            Err(_) => Err::<A, AllocError>(AllocError),
        },
{
    match allocated {
        Ok(item) => Ok(item),
        Err(_) => Err(AllocError),
    }
}

/// A work item that writes one return code. It may be switched off.
#[derive(Debug, PartialEq, Eq, Structural)]
pub struct DeliverCode {
    pub code: u32,
    pub skip: bool,
}

/// What to do next for a work item.
pub enum WorkStep {
    /// Write the return code `code`.
    WriteCode { code: u32, then: CodePending },
    /// The work is done, and tells whether the remaining work items are to be processed
    /// at once; or it failed.
    Done(Result<bool, Error>),
}

/// The return code of the work item is being written.
#[derive(Debug, PartialEq, Eq, Structural)]
pub struct CodePending;

impl DeliverCode {
    /// The first step of the work: nothing is written if the item is switched off.
    pub open spec fn spec_do_work(self) -> WorkStep {
        if self.skip {
            WorkStep::Done(Ok(true))
        } else {
            WorkStep::WriteCode { code: self.code, then: CodePending }
        }
    }

    /// The line by which the item is shown in debug output, without its prefix.
    pub open spec fn spec_debug_line(self) -> Seq<char> {
        let skipped = if self.skip {
            "(skipped) "@
        } else {
            Seq::empty()
        };
        if self.code == BR_TRANSACTION_COMPLETE {
            skipped + "transaction complete\n"@
        } else {
            skipped + "transaction error: "@ + crate::text::decimal(self.code as nat) + "\n"@
        }
    }

    /// The item that writes `code`.
    pub fn new(code: u32) -> (res: Self)
        ensures
            res == (DeliverCode { code, skip: false }),
    {
        DeliverCode { code, skip: false }
    }

    /// Switches the item off, so that it does nothing.
    ///
    /// This takes the place of removing it from the list of work items.
    pub fn skip(&mut self)
        ensures
            final(self).skip,
            final(self).code == old(self).code,
    {
        self.skip = true;
    }

    /// Performs the work.
    pub fn do_work(&self) -> (step: WorkStep)
        ensures
            step == self.spec_do_work(),
    {
        if !self.skip {
            WorkStep::WriteCode { code: self.code, then: CodePending }
        } else {
            WorkStep::Done(Ok(true))
        }
    }

    /// Called in place of `do_work` if the item will not be delivered: there is nothing to
    /// undo.
    pub fn cancel(&mut self)
        ensures
            *final(self) == *old(self),
    {
    }

    /// Whether the reader is to be woken up synchronously: never for a bare return code.
    pub fn should_sync_wakeup(&self) -> (res: bool)
        ensures
            res == false,
    {
        false
    }

    /// The text by which the item is shown in debug output, after `prefix`. The prefix for
    /// transactions is of no use here.
    pub fn debug_print(&self, prefix: &str, _tprefix: &str) -> (text: String)
        ensures
            text@ == prefix@ + self.spec_debug_line(),
    {
        let mut text = prefix.to_owned();
        if self.skip {
            text.append("(skipped) ");
        }
        if self.code == BR_TRANSACTION_COMPLETE {
            text.append("transaction complete\n");
        } else {
            text.append("transaction error: ");
            crate::text::append_decimal(&mut text, self.code);
            text.append("\n");
        }
        assert(text@ =~= prefix@ + self.spec_debug_line());
        text
    }
}

impl CodePending {
    /// The remaining work items follow at once, unless the write failed.
    pub open spec fn spec_resume(self, reply: Result<(), Error>) -> WorkStep {
        match reply {
            Ok(_) => WorkStep::Done(Ok(true)),
            Err(err) => WorkStep::Done(Err(err)),
        }
    }

    /// Takes the outcome of writing the return code.
    pub fn resume(self, reply: Result<(), Error>) -> (step: WorkStep)
        ensures
            step == self.spec_resume(reply),
    {
        match reply {
            Ok(_) => WorkStep::Done(Ok(true)),
            Err(err) => WorkStep::Done(Err(err)),
        }
    }
}

/// All that the work does from `step` on, if user space replies `reply` to a write.
pub open spec fn work_actions(step: WorkStep, reply: Result<(), Error>) -> Seq<
    crate::writer::WriteAction,
> {
    match step {
        WorkStep::WriteCode { code, .. } => crate::writer::actions(
            crate::writer::spec_write_code(code),
            reply,
        ),
        WorkStep::Done(_) => Seq::empty(),
    }
}

/// The result of the work in the end, if user space replies `reply` to a write.
pub open spec fn work_outcome(step: WorkStep, reply: Result<(), Error>) -> Result<bool, Error> {
    match step {
        WorkStep::WriteCode { code, then } => match then.spec_resume(
            crate::writer::outcome(crate::writer::spec_write_code(code), reply),
        ) {
            WorkStep::Done(result) => result,
            WorkStep::WriteCode { .. } => arbitrary(),
        },
        WorkStep::Done(result) => result,
    }
}

/// An item that is not switched off counts and writes its code once, and lets the remaining
/// items follow at once if the write succeeds; else it passes on the failure.
pub proof fn law_item_delivers_its_code(item: DeliverCode, reply: Result<(), Error>)
    requires
        !item.skip,
    ensures
        work_actions(item.spec_do_work(), reply) == seq![
            crate::writer::WriteAction::CountGlobally(item.code),
            crate::writer::WriteAction::CountInProcess(item.code),
            crate::writer::WriteAction::Write(crate::writer::WriteValue::U32(item.code)),
        ],
        work_outcome(item.spec_do_work(), reply) == match reply {
            Ok(_) => Ok::<bool, Error>(true),
            Err(err) => Err::<bool, Error>(err),
        },
{
    crate::writer::law_write_code_in_full(item.code, reply);
}

/// An item that is switched off does nothing at all: it writes nothing, counts nothing, and
/// lets the remaining items follow, whatever state user space is in.
pub proof fn law_skipped_item_does_nothing(item: DeliverCode, reply: Result<(), Error>)
    requires
        item.skip,
    ensures
        work_actions(item.spec_do_work(), reply) == Seq::<crate::writer::WriteAction>::empty(),
        work_outcome(item.spec_do_work(), reply) == Ok::<bool, Error>(true),
{
}

/// In debug output an item stands after the prefix; it is marked exactly if it is switched
/// off. It is called a completed transaction exactly if its code is 0x7206; with any other
/// code it is a transaction error, and the code is told in decimal.
pub proof fn law_debug_text_tells_the_code(
    item: DeliverCode,
    prefix: &str,
    tprefix: &str,
    text: String,
)
    requires
        call_ensures(DeliverCode::debug_print, (&item, prefix, tprefix), text),
    ensures
        item.code == 0x7206 && !item.skip ==> text@ == prefix@ + "transaction complete\n"@,
        item.code == 0x7206 && item.skip ==> text@ == prefix@ + "(skipped) "@
            + "transaction complete\n"@,
        item.code != 0x7206 && !item.skip ==> text@ == prefix@ + "transaction error: "@
            + crate::text::decimal(item.code as nat) + "\n"@,
        item.code != 0x7206 && item.skip ==> text@ == prefix@ + "(skipped) "@
            + "transaction error: "@ + crate::text::decimal(item.code as nat) + "\n"@,
        "transaction complete\n"@.is_suffix_of(text@) <==> item.code == 0x7206,
{
    let complete = "transaction complete\n"@;
    let digits = crate::text::decimal(item.code as nat);
    reveal_strlit("transaction complete\n");
    reveal_strlit("\n");
    crate::text::law_decimal_reads_back(item.code as nat);
    if item.code == 0x7206 {
        assert(text@.subrange(text@.len() - complete.len(), text@.len() as int) =~= complete);
    } else {
        assert(text@[text@.len() - 2] == digits[digits.len() - 1]);
        if complete.is_suffix_of(text@) {
            let end = text@.subrange(text@.len() - complete.len(), text@.len() as int);
            assert(complete =~= end);
            assert(end[complete.len() - 2] == text@[text@.len() - 2]);
            assert(complete[complete.len() - 2] == 'e');
        }
    }
    assert(text@ =~= prefix@ + (if item.skip {
        "(skipped) "@
    } else {
        Seq::empty()
    }) + (if item.code == 0x7206 {
        complete
    } else {
        "transaction error: "@ + digits + "\n"@
    }));
}

/// After the same prefix, two items show the same text only if they have the same code and
/// are both switched off or both not.
pub proof fn law_debug_text_tells_items_apart(
    item: DeliverCode,
    other: DeliverCode,
    prefix: &str,
    tprefix: &str,
    text: String,
    other_text: String,
)
    requires
        call_ensures(DeliverCode::debug_print, (&item, prefix, tprefix), text),
        call_ensures(DeliverCode::debug_print, (&other, prefix, tprefix), other_text),
        text@ == other_text@,
    ensures
        item == other,
{
    let at = prefix@.len() as int;
    law_debug_text_tells_the_code(item, prefix, tprefix, text);
    law_debug_text_tells_the_code(other, prefix, tprefix, other_text);
    reveal_strlit("(skipped) ");
    reveal_strlit("transaction complete\n");
    reveal_strlit("transaction error: ");
    reveal_strlit("\n");
    assert(text@[at] == if item.skip {
        '('
    } else {
        't'
    });
    assert(other_text@[at] == if other.skip {
        '('
    } else {
        't'
    });
    if item.code != 0x7206 {
        let from = at + "transaction error: "@.len() + if item.skip {
            "(skipped) "@.len()
        } else {
            0
        };
        let digits = crate::text::decimal(item.code as nat);
        let other_digits = crate::text::decimal(other.code as nat);
        assert(text@.subrange(from, text@.len() - 1) =~= digits);
        assert(other_text@.subrange(from, text@.len() - 1) =~= other_digits);
        crate::text::law_decimal_reads_back(item.code as nat);
        crate::text::law_decimal_reads_back(other.code as nat);
    }
}

/// A new item writes its code when its work is done: the code is counted in the driver and
/// in the process, and then handed to user space, once each; the result is that of the write.
pub proof fn law_new_item_writes_its_code(
    code: u32,
    item: DeliverCode,
    step: WorkStep,
    reply: Result<(), Error>,
)
    requires
        call_ensures(DeliverCode::new, (code,), item),
        call_ensures(DeliverCode::do_work, (&item,), step),
    ensures
        item.code == code,
        work_actions(step, reply) == seq![
            crate::writer::WriteAction::CountGlobally(code),
            crate::writer::WriteAction::CountInProcess(code),
            crate::writer::WriteAction::Write(crate::writer::WriteValue::U32(code)),
        ],
        reply is Ok ==> work_outcome(step, reply) == Ok::<bool, Error>(true),
        reply matches Err(err) ==> work_outcome(step, reply) == Err::<bool, Error>(err),
{
    law_item_delivers_its_code(item, reply);
}

/// Once it is switched off, an item does nothing when its work is done, and the remaining
/// items follow; it keeps its code.
pub proof fn law_switched_off_item_writes_nothing(
    item: &mut DeliverCode,
    step: WorkStep,
    reply: Result<(), Error>,
)
    requires
        call_ensures(DeliverCode::skip, (item,), ()),
        call_ensures(DeliverCode::do_work, (&*final(item),), step),
    ensures
        final(item).code == old(item).code,
        final(item).skip,
        work_actions(step, reply).len() == 0,
        work_outcome(step, reply) == Ok::<bool, Error>(true),
{
}

/// Cancelling an item changes nothing, and no item asks for a synchronous wake-up.
pub proof fn law_cancel_and_wakeup(item: &mut DeliverCode, wakeup: bool)
    requires
        call_ensures(DeliverCode::cancel, (item,), ()),
        call_ensures(DeliverCode::should_sync_wakeup, (&*old(item),), wakeup),
    ensures
        final(item).code == old(item).code,
        final(item).skip == old(item).skip,
        !wakeup,
{
}

/// The item that is reached through a wrapper is the one that was wrapped, and the links are
/// those it was given.
pub proof fn law_wrapped_item_is_reached<L, T>(links: L, val: T, wrap: DTRWrap<L, T>, item: &T)
    requires
        call_ensures(DTRWrap::<L, T>::new, (links, val), wrap),
        call_ensures(<DTRWrap::<L, T> as core::ops::Deref>::deref, (&wrap,), item),
    ensures
        *item == val,
        wrap.links == links,
{
}

/// What a wrapper gives is its own item, also where the size of that is not known.
pub proof fn law_wrapper_gives_its_item<L, T: ?Sized>(wrap: &DTRWrap<L, T>, item: &T)
    requires
        call_ensures(<DTRWrap::<L, T> as core::ops::Deref>::deref, (wrap,), item),
    ensures
        item == &wrap.wrapped,
{
}

/// An allocated item is handed on as it is; no failure is taken for an item.
pub proof fn law_allocation_is_handed_on<A>(
    allocated: Result<A, Error>,
    res: Result<A, AllocError>,
)
    requires
        call_ensures(arc_try_new::<A>, (allocated,), res),
    ensures
        allocated matches Ok(item) ==> res == Ok::<A, AllocError>(item),
        allocated is Err ==> res is Err,
{
}

} // verus!

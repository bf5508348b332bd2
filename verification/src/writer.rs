//! Writing return values to user space.

use vstd::prelude::*;
use crate::error::Error;

verus! {

/// The single place through which return values are written: the buffer in user space, and
/// the thread that reads them.
pub struct BinderReturnWriter<W, T> {
    pub writer: W,
    pub thread: T,
}

/// A value that is written to user space.
pub enum WriteValue {
    /// The bytes of a `u32`, in the order of the machine.
    U32(u32),
    /// These bytes.
    Bytes(Vec<u8>),
}

/// What to do next for a write.
#[allow(inconsistent_fields)]
pub enum WriteStep {
    /// Count `code` in the statistics of the driver.
    CountGlobally { code: u32, then: CountedGlobally },
    /// Count `code` in the statistics of the process of the thread.
    CountInProcess { code: u32, then: CountedInProcess },
    /// Write `value` to user space.
    Write { value: WriteValue, then: WritePending },
    /// The write succeeded or failed.
    Done(Result<(), Error>),
}

/// A return code has been counted in the statistics of the driver.
#[derive(Debug, PartialEq, Eq, Structural)]
pub struct CountedGlobally {
    pub code: u32,
}

/// A return code has been counted in the statistics of the process too.
#[derive(Debug, PartialEq, Eq, Structural)]
pub struct CountedInProcess {
    pub code: u32,
}

/// A value is being written.
#[derive(Debug, PartialEq, Eq, Structural)]
pub struct WritePending;

/// The first step of writing a return code.
pub open spec fn spec_write_code(code: u32) -> WriteStep {
    WriteStep::CountGlobally { code, then: CountedGlobally { code } }
}

/// The first step of writing something else.
pub open spec fn spec_write_payload(payload: WriteValue) -> WriteStep {
    WriteStep::Write { value: payload, then: WritePending }
}

impl<W, T> BinderReturnWriter<W, T> {
    /// Writes to `writer` on behalf of `thread`.
    pub fn new(writer: W, thread: T) -> (res: Self)
        ensures
            res == (BinderReturnWriter { writer, thread }),
    {
        BinderReturnWriter { writer, thread }
    }

    /// Writes a return code.
    pub fn write_code(&self, code: u32) -> (step: WriteStep)
        ensures
            step == spec_write_code(code),
    {
        WriteStep::CountGlobally { code, then: CountedGlobally { code } }
    }

    /// Writes something other than a return code.
    pub fn write_payload(&self, payload: WriteValue) -> (step: WriteStep)
        ensures
            step == spec_write_payload(payload),
    {
        WriteStep::Write { value: payload, then: WritePending }
    }
}

impl CountedGlobally {
    /// The code is counted in the process next.
    pub open spec fn spec_resume(self) -> WriteStep {
        WriteStep::CountInProcess { code: self.code, then: CountedInProcess { code: self.code } }
    }

    /// Goes on after the code has been counted in the driver.
    pub fn resume(self) -> (step: WriteStep)
        ensures
            step == self.spec_resume(),
    {
        WriteStep::CountInProcess { code: self.code, then: CountedInProcess { code: self.code } }
    }
}

impl CountedInProcess {
    /// The code is written after it has been counted.
    pub open spec fn spec_resume(self) -> WriteStep {
        WriteStep::Write { value: WriteValue::U32(self.code), then: WritePending }
    }

    /// Goes on after the code has been counted in the process.
    pub fn resume(self) -> (step: WriteStep)
        ensures
            step == self.spec_resume(),
    {
        WriteStep::Write { value: WriteValue::U32(self.code), then: WritePending }
    }
}

impl WritePending {
    /// The outcome of the write is passed on.
    pub open spec fn spec_resume(self, reply: Result<(), Error>) -> WriteStep {
        WriteStep::Done(reply)
    }

    /// Takes the outcome of the write.
    pub fn resume(self, reply: Result<(), Error>) -> (step: WriteStep)
        ensures
            step == self.spec_resume(reply),
    {
        WriteStep::Done(reply)
    }
}

/// Something that a write does.
pub enum WriteAction {
    CountGlobally(u32),
    CountInProcess(u32),
    Write(WriteValue),
}

/// The number of actions that are left at most.
pub open spec fn steps_left(step: WriteStep) -> int {
    match step {
        WriteStep::CountGlobally { .. } => 3,
        WriteStep::CountInProcess { .. } => 2,
        WriteStep::Write { .. } => 1,
        WriteStep::Done(_) => 0,
    }
}

/// All that is done from `step` on, in order, if user space replies `reply`.
pub open spec fn actions(step: WriteStep, reply: Result<(), Error>) -> Seq<WriteAction>
    decreases steps_left(step),
{
    match step {
        WriteStep::CountGlobally { code, then } => seq![WriteAction::CountGlobally(code)]
            + actions(then.spec_resume(), reply),
        WriteStep::CountInProcess { code, then } => seq![WriteAction::CountInProcess(code)]
            + actions(then.spec_resume(), reply),
        WriteStep::Write { value, then } => seq![WriteAction::Write(value)] + actions(
            then.spec_resume(reply),
            reply,
        ),
        WriteStep::Done(_) => Seq::empty(),
    }
}

/// The result in the end, if user space replies `reply`.
pub open spec fn outcome(step: WriteStep, reply: Result<(), Error>) -> Result<(), Error>
    decreases steps_left(step),
{
    match step {
        WriteStep::CountGlobally { then, .. } => outcome(then.spec_resume(), reply),
        WriteStep::CountInProcess { then, .. } => outcome(then.spec_resume(), reply),
        WriteStep::Write { then, .. } => outcome(then.spec_resume(reply), reply),
        WriteStep::Done(result) => result,
    }
}

/// All that writing a return code does.
pub open spec fn code_actions(code: u32) -> Seq<WriteAction> {
    seq![
        WriteAction::CountGlobally(code),
        WriteAction::CountInProcess(code),
        WriteAction::Write(WriteValue::U32(code)),
    ]
}

/// A return code is counted in the driver and in the process, and only then written, once
/// each. That holds whether or not the write succeeds, and the result is that of the write.
pub proof fn law_write_code_in_full(code: u32, reply: Result<(), Error>)
    ensures
        actions(spec_write_code(code), reply) == code_actions(code),
        outcome(spec_write_code(code), reply) == reply,
{
    reveal_with_fuel(actions, 4);
    reveal_with_fuel(outcome, 4);
    assert(actions(spec_write_code(code), reply) =~= code_actions(code));
}

/// Something other than a return code is written and not counted.
pub proof fn law_write_payload_in_full(payload: WriteValue, reply: Result<(), Error>)
    ensures
        actions(spec_write_payload(payload), reply) == seq![WriteAction::Write(payload)],
        outcome(spec_write_payload(payload), reply) == reply,
{
    reveal_with_fuel(actions, 2);
    reveal_with_fuel(outcome, 2);
    assert(actions(spec_write_payload(payload), reply) =~= seq![WriteAction::Write(payload)]);
}

/// A return code, and the same number written as something else, hand the same value to
/// user space in one write and give the same result; they differ only in that the code is
/// counted before.
pub proof fn law_code_and_payload_write_the_same(x: u32, reply: Result<(), Error>)
    ensures
        actions(spec_write_code(x), reply) == seq![
            WriteAction::CountGlobally(x),
            WriteAction::CountInProcess(x),
        ] + actions(spec_write_payload(WriteValue::U32(x)), reply),
        outcome(spec_write_code(x), reply) == outcome(
            spec_write_payload(WriteValue::U32(x)),
            reply,
        ),
{
    law_write_code_in_full(x, reply);
    law_write_payload_in_full(WriteValue::U32(x), reply);
    assert(actions(spec_write_code(x), reply) =~= seq![
        WriteAction::CountGlobally(x),
        WriteAction::CountInProcess(x),
    ] + actions(spec_write_payload(WriteValue::U32(x)), reply));
}

/// Something that is asked of the writer.
pub enum WriteOp {
    /// Write a return code.
    Code(u32),
    /// Write something else.
    Payload(WriteValue),
}

impl WriteOp {
    /// The value that it hands to user space.
    pub open spec fn value(self) -> WriteValue {
        match self {
            WriteOp::Code(code) => WriteValue::U32(code),
            WriteOp::Payload(value) => value,
        }
    }
}

/// All that a sequence of writes does, each of which is given with the reply of user space.
pub open spec fn all_actions(writes: Seq<(WriteOp, Result<(), Error>)>) -> Seq<WriteAction>
    decreases writes.len(),
{
    if writes.len() == 0 {
        Seq::empty()
    } else {
        let (op, reply) = writes.last();
        all_actions(writes.drop_last()) + match op {
            WriteOp::Code(code) => actions(spec_write_code(code), reply),
            WriteOp::Payload(payload) => actions(spec_write_payload(payload), reply),
        }
    }
}

/// How often `action` is among `done`.
pub open spec fn times(action: WriteAction, done: Seq<WriteAction>) -> nat {
    done.to_multiset().count(action)
}

/// How often `code` is written as a return code.
pub open spec fn times_written(
    code: u32,
    writes: Seq<(WriteOp, Result<(), Error>)>,
) -> nat
    decreases writes.len(),
{
    if writes.len() == 0 {
        0
    } else {
        times_written(code, writes.drop_last()) + if writes.last().0 == WriteOp::Code(code) {
            1nat
        } else {
            0
        }
    }
}

/// The values that `done` hands to user space, in order.
pub open spec fn values_written(done: Seq<WriteAction>) -> Seq<WriteValue>
    decreases done.len(),
{
    if done.len() == 0 {
        Seq::empty()
    } else {
        match done.last() {
            WriteAction::Write(value) => values_written(done.drop_last()).push(value),
            _ => values_written(done.drop_last()),
        }
    }
}

/// Over any number of writes, whatever user space replies: a return code is counted in the
/// driver, and likewise in the process, exactly as often as it is written as a return code;
/// and each write hands its value to user space once, in the order of the writes.
pub proof fn law_codes_are_counted_as_written(
    writes: Seq<(WriteOp, Result<(), Error>)>,
    code: u32,
)
    ensures
        times(WriteAction::CountGlobally(code), all_actions(writes)) == times_written(
            code,
            writes,
        ),
        times(WriteAction::CountInProcess(code), all_actions(writes)) == times_written(
            code,
            writes,
        ),
        values_written(all_actions(writes)) == writes.map_values(
            |write: (WriteOp, Result<(), Error>)| write.0.value(),
        ),
    decreases writes.len(),
{
    broadcast use vstd::seq_lib::group_to_multiset_ensures;

    let value_of = |write: (WriteOp, Result<(), Error>)| write.0.value();
    if writes.len() > 0 {
        let (op, reply) = writes.last();
        let before = all_actions(writes.drop_last());
        let done = all_actions(writes);
        let write = WriteAction::Write(op.value());
        law_codes_are_counted_as_written(writes.drop_last(), code);
        match op {
            WriteOp::Code(c) => {
                let counted = before.push(WriteAction::CountGlobally(c)).push(
                    WriteAction::CountInProcess(c),
                );
                law_write_code_in_full(c, reply);
                assert(done =~= counted.push(write));
                assert(done.drop_last() =~= counted);
                assert(counted.drop_last() =~= before.push(WriteAction::CountGlobally(c)));
                assert(counted.drop_last().drop_last() =~= before);
                assert(values_written(counted.drop_last()) == values_written(before));
                assert(values_written(counted) == values_written(before));
            },
            WriteOp::Payload(payload) => {
                law_write_payload_in_full(payload, reply);
                assert(done =~= before.push(write));
                assert(done.drop_last() =~= before);
            },
        }
        assert(values_written(done) == values_written(before).push(op.value()));
        assert(writes.map_values(value_of) =~= writes.drop_last().map_values(value_of).push(
            op.value(),
        ));
    } else {
        assert(writes.map_values(value_of) =~= Seq::empty());
    }
}

/// A writer keeps the buffer and the thread it is given. A return code is counted in the
/// driver, then in the process, and then written; anything else is written as it is.
pub proof fn law_writer_in_full<W, T>(
    writer: W,
    thread: T,
    made: BinderReturnWriter<W, T>,
    code: u32,
    payload: WriteValue,
    code_step: WriteStep,
    payload_step: WriteStep,
    reply: Result<(), Error>,
)
    requires
        call_ensures(BinderReturnWriter::<W, T>::new, (writer, thread), made),
        call_ensures(BinderReturnWriter::<W, T>::write_code, (&made, code), code_step),
        call_ensures(BinderReturnWriter::<W, T>::write_payload, (&made, payload), payload_step),
    ensures
        made.writer == writer,
        made.thread == thread,
        actions(code_step, reply) == seq![
            WriteAction::CountGlobally(code),
            WriteAction::CountInProcess(code),
            WriteAction::Write(WriteValue::U32(code)),
        ],
        actions(payload_step, reply) == seq![WriteAction::Write(payload)],
        outcome(code_step, reply) == reply,
        outcome(payload_step, reply) == reply,
{
    law_write_code_in_full(code, reply);
    law_write_payload_in_full(payload, reply);
}

} // verus!

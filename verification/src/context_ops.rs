//! Creating and removing the context of a binder device.

use vstd::prelude::*;
use crate::error::Error;

verus! {

/// The request to create a context whose name is the C string at address `name`.
#[derive(Debug, PartialEq, Eq, Structural)]
pub struct NewContextCall {
    pub name: usize,
}

/// Creates a context named by the C string at address `name`.
pub fn rust_binder_new_context(name: usize) -> (call: NewContextCall)
    ensures
        call == (NewContextCall { name }),
{
    NewContextCall { name }
}

impl NewContextCall {
    /// The address of the context, or the null address for a failure of any kind.
    pub open spec fn spec_finish(self, created: Result<usize, Error>) -> usize {
        match created {
            Ok(ctx) => ctx,
            Err(_) => 0,
        }
    }

    /// Takes the address of the context. C, to which it is returned, owns the context from
    /// now on.
    pub fn finish(self, created: Result<usize, Error>) -> (ctx: usize)
        ensures
            ctx == self.spec_finish(created),
    {
        match created {
            Ok(ctx) => ctx,
            Err(_err) => 0,
        }
    }
}

/// What to do next to remove a context.
#[allow(inconsistent_fields)]
pub enum RemoveContextStep {
    /// Take the context back from C and deregister it.
    Deregister { ctx: usize, then: ContextDeregistered },
    /// Drop the reference to the context.
    DropContext { ctx: usize, then: ContextDropped },
    /// Return to C.
    Return,
}

/// The context has been deregistered.
#[derive(Debug, PartialEq, Eq, Structural)]
pub struct ContextDeregistered {
    pub ctx: usize,
}

/// The reference to the context has been dropped.
#[derive(Debug, PartialEq, Eq, Structural)]
pub struct ContextDropped;

/// For the null address there is nothing to do.
pub open spec fn spec_remove_context(device: usize) -> RemoveContextStep {
    if device != 0 {
        RemoveContextStep::Deregister { ctx: device, then: ContextDeregistered { ctx: device } }
    } else {
        RemoveContextStep::Return
    }
}

/// Removes the context that C owns at address `device`, if there is one.
pub fn rust_binder_remove_context(device: usize) -> (step: RemoveContextStep)
    ensures
        step == spec_remove_context(device),
{
    if device != 0 {
        RemoveContextStep::Deregister { ctx: device, then: ContextDeregistered { ctx: device } }
    } else {
        RemoveContextStep::Return
    }
}

impl ContextDeregistered {
    /// The reference that was taken back from C is dropped.
    pub open spec fn spec_resume(self) -> RemoveContextStep {
        RemoveContextStep::DropContext { ctx: self.ctx, then: ContextDropped }
    }

    /// Goes on after the context has been deregistered.
    pub fn resume(self) -> (step: RemoveContextStep)
        ensures
            step == self.spec_resume(),
    {
        RemoveContextStep::DropContext { ctx: self.ctx, then: ContextDropped }
    }
}

impl ContextDropped {
    /// The context is removed.
    pub open spec fn spec_resume(self) -> RemoveContextStep {
        RemoveContextStep::Return
    }

    /// Goes on after the reference has been dropped.
    pub fn resume(self) -> (step: RemoveContextStep)
        ensures
            step == self.spec_resume(),
    {
        RemoveContextStep::Return
    }
}

/// Something that removing a context does.
pub enum RemoveContextAction {
    Deregister(usize),
    DropContext(usize),
}

/// All that is done from `step` on, in order.
pub open spec fn actions(step: RemoveContextStep) -> Seq<RemoveContextAction>
    decreases
            (match step {
                RemoveContextStep::Deregister { .. } => 2int,
                RemoveContextStep::DropContext { .. } => 1,
                RemoveContextStep::Return => 0,
            }),
{
    match step {
        RemoveContextStep::Deregister { ctx, then } => seq![RemoveContextAction::Deregister(ctx)]
            + actions(then.spec_resume()),
        RemoveContextStep::DropContext { ctx, then } => seq![RemoveContextAction::DropContext(ctx)]
            + actions(then.spec_resume()),
        RemoveContextStep::Return => Seq::empty(),
    }
}

/// Removing a context deregisters it and then drops it, once each; removing nothing does
/// nothing.
pub proof fn law_remove_in_full(device: usize)
    ensures
        actions(spec_remove_context(device)) == (if device != 0 {
            seq![
                RemoveContextAction::Deregister(device),
                RemoveContextAction::DropContext(device),
            ]
        } else {
            Seq::empty()
        }),
{
    reveal_with_fuel(actions, 3);
    if device != 0 {
        assert(actions(spec_remove_context(device)) =~= seq![
            RemoveContextAction::Deregister(device),
            RemoveContextAction::DropContext(device),
        ]);
    }
}

/// Removing what creating returned undoes it: the context that was created is deregistered
/// and dropped, and nothing is done if none was created.
pub proof fn law_remove_undoes_new(call: NewContextCall, created: Result<usize, Error>)
    requires
        created matches Ok(ctx) ==> ctx != 0,
    ensures
        actions(spec_remove_context(call.spec_finish(created))) == match created {
            Ok(ctx) => seq![
                RemoveContextAction::Deregister(ctx),
                RemoveContextAction::DropContext(ctx),
            ],
            Err(_) => Seq::empty(),
        },
{
    law_remove_in_full(call.spec_finish(created));
}

/// The context that is created is named by the very string that C gave. C gets the address
/// of the context, and the null address if none could be created.
pub proof fn law_new_context_in_full(
    name: usize,
    call: NewContextCall,
    created: Result<usize, Error>,
    ctx: usize,
)
    requires
        call_ensures(rust_binder_new_context, (name,), call),
        call_ensures(NewContextCall::finish, (call, created), ctx),
    ensures
        call.name == name,
        created matches Ok(address) ==> ctx == address,
        created is Err ==> ctx == 0,
{
}

/// Removing the context at an address that is not null deregisters just that context before
/// it drops it; for the null address C is returned to at once.
pub proof fn law_context_is_deregistered_before_it_is_dropped(
    device: usize,
    step: RemoveContextStep,
)
    requires
        call_ensures(rust_binder_remove_context, (device,), step),
    ensures
        step is Return <==> device == 0,
        actions(step).len() == (if device == 0 {
            0nat
        } else {
            2
        }),
        device != 0 ==> {
            &&& actions(step)[0] == RemoveContextAction::Deregister(device)
            &&& actions(step)[1] == RemoveContextAction::DropContext(device)
        },
{
    law_remove_in_full(device);
}

} // verus!

//! Loading the driver.

use vstd::prelude::*;
use crate::error::Error;

verus! {

/// What to do next to load the driver.
#[allow(inconsistent_fields)]
pub enum InitStep {
    /// Initialise the list of contexts.
    InitContexts { then: ContextsInitialised },
    /// Log `text` as a warning.
    Warn { text: &'static str, then: Warned },
    /// Register the shrinker of the driver under `name`.
    RegisterShrinker { name: &'static str, then: ShrinkerPending },
    /// Initialise binderfs.
    InitBinderfs { then: BinderfsPending },
    /// The driver is loaded, or could not be.
    Done(Result<BinderModule, Error>),
}

/// The driver, once it is loaded.
#[derive(Clone, Copy, Debug, PartialEq, Eq, Structural)]
pub struct BinderModule {}

/// The list of contexts is initialised.
#[derive(Debug, PartialEq, Eq, Structural)]
pub struct ContextsInitialised;

/// The loading of the driver has been logged.
#[derive(Debug, PartialEq, Eq, Structural)]
pub struct Warned;

/// The shrinker is being registered.
#[derive(Debug, PartialEq, Eq, Structural)]
pub struct ShrinkerPending;

/// Binderfs is being initialised.
#[derive(Debug, PartialEq, Eq, Structural)]
pub struct BinderfsPending;

/// The first step of loading the driver.
pub open spec fn spec_init() -> InitStep {
    InitStep::InitContexts { then: ContextsInitialised }
}

impl BinderModule {
    /// Loads the driver.
    pub fn init() -> (step: InitStep)
        ensures
            step == spec_init(),
    {
        InitStep::InitContexts { then: ContextsInitialised }
    }
}

impl ContextsInitialised {
    /// The loading is logged.
    pub open spec fn spec_resume(self) -> InitStep {
        InitStep::Warn { text: "Loaded Rust Binder.", then: Warned }
    }

    /// Goes on after the list of contexts is initialised.
    pub fn resume(self) -> (step: InitStep)
        ensures
            step == self.spec_resume(),
    {
        InitStep::Warn { text: "Loaded Rust Binder.", then: Warned }
    }
}

impl Warned {
    /// The shrinker is registered.
    pub open spec fn spec_resume(self) -> InitStep {
        InitStep::RegisterShrinker { name: "android-binder", then: ShrinkerPending }
    }

    /// Goes on after the loading has been logged.
    pub fn resume(self) -> (step: InitStep)
        ensures
            step == self.spec_resume(),
    {
        InitStep::RegisterShrinker { name: "android-binder", then: ShrinkerPending }
    }
}

impl ShrinkerPending {
    /// Binderfs comes only after the shrinker has been registered.
    pub open spec fn spec_resume(self, reply: Result<(), Error>) -> InitStep {
        match reply {
            Ok(_) => InitStep::InitBinderfs { then: BinderfsPending },
            Err(err) => InitStep::Done(Err(err)),
        }
    }

    /// Takes the outcome of registering the shrinker.
    pub fn resume(self, reply: Result<(), Error>) -> (step: InitStep)
        ensures
            step == self.spec_resume(reply),
    {
        match reply {
            Ok(_) => InitStep::InitBinderfs { then: BinderfsPending },
            Err(err) => InitStep::Done(Err(err)),
        }
    }
}

impl BinderfsPending {
    /// The driver is loaded once binderfs is initialised.
    pub open spec fn spec_resume(self, reply: Result<(), Error>) -> InitStep {
        match reply {
            Ok(_) => InitStep::Done(Ok(BinderModule {  })),
            Err(err) => InitStep::Done(Err(err)),
        }
    }

    /// Takes the outcome of initialising binderfs.
    pub fn resume(self, reply: Result<(), Error>) -> (step: InitStep)
        ensures
            step == self.spec_resume(reply),
    {
        match reply {
            Ok(_) => InitStep::Done(Ok(BinderModule {  })),
            Err(err) => InitStep::Done(Err(err)),
        }
    }
}

/// The replies that loading the driver gets.
pub struct InitReplies {
    pub shrinker: Result<(), Error>,
    pub binderfs: Result<(), Error>,
}

/// Something that loading the driver does.
pub enum InitAction {
    InitContexts,
    Warn(&'static str),
    RegisterShrinker(&'static str),
    InitBinderfs,
}

/// The number of actions that are left at most.
pub open spec fn steps_left(step: InitStep) -> int {
    match step {
        InitStep::InitContexts { .. } => 4,
        InitStep::Warn { .. } => 3,
        InitStep::RegisterShrinker { .. } => 2,
        InitStep::InitBinderfs { .. } => 1,
        InitStep::Done(_) => 0,
    }
}

/// The step that follows `step`, given the replies.
pub open spec fn step_after(step: InitStep, replies: InitReplies) -> InitStep {
    match step {
        InitStep::InitContexts { then } => then.spec_resume(),
        InitStep::Warn { then, .. } => then.spec_resume(),
        InitStep::RegisterShrinker { then, .. } => then.spec_resume(replies.shrinker),
        InitStep::InitBinderfs { then } => then.spec_resume(replies.binderfs),
        InitStep::Done(_) => step,
    }
}

/// All that is done from `step` on, in order.
pub open spec fn actions(step: InitStep, replies: InitReplies) -> Seq<InitAction>
    decreases steps_left(step),
{
    match step {
        InitStep::InitContexts { .. } => seq![InitAction::InitContexts] + actions(
            step_after(step, replies),
            replies,
        ),
        InitStep::Warn { text, .. } => seq![InitAction::Warn(text)] + actions(
            step_after(step, replies),
            replies,
        ),
        InitStep::RegisterShrinker { name, .. } => seq![InitAction::RegisterShrinker(name)]
            + actions(step_after(step, replies), replies),
        InitStep::InitBinderfs { .. } => seq![InitAction::InitBinderfs] + actions(
            step_after(step, replies),
            replies,
        ),
        InitStep::Done(_) => Seq::empty(),
    }
}

/// The result in the end.
pub open spec fn outcome(step: InitStep, replies: InitReplies) -> Result<BinderModule, Error>
    decreases steps_left(step),
{
    match step {
        InitStep::Done(result) => result,
        _ => outcome(step_after(step, replies), replies),
    }
}

/// Loading initialises the list of contexts first, so that whoever is called later finds
/// it; it registers the shrinker next, and initialises binderfs only if that succeeded. The
/// driver is loaded exactly when both succeed; else the first failure is reported.
pub proof fn law_init_in_full(replies: InitReplies)
    ensures
        actions(spec_init(), replies) == seq![
            InitAction::InitContexts,
            InitAction::Warn("Loaded Rust Binder."),
            InitAction::RegisterShrinker("android-binder"),
        ] + (if replies.shrinker is Ok {
            seq![InitAction::InitBinderfs]
        } else {
            Seq::empty()
        }),
        outcome(spec_init(), replies) == match (replies.shrinker, replies.binderfs) {
            (Err(err), _) => Err::<BinderModule, Error>(err),
            (Ok(_), Err(err)) => Err(err),
            (Ok(_), Ok(_)) => Ok(BinderModule {  }),
        },
{
    reveal_with_fuel(actions, 5);
    reveal_with_fuel(outcome, 5);
    assert(actions(spec_init(), replies) =~= seq![
        InitAction::InitContexts,
        InitAction::Warn("Loaded Rust Binder."),
        InitAction::RegisterShrinker("android-binder"),
    ] + (if replies.shrinker is Ok {
        seq![InitAction::InitBinderfs]
    } else {
        Seq::empty()
    }));
}

/// What loading the driver asks for, from the very first step: the list of contexts comes
/// before all else, the warning names the driver, the shrinker is registered under its name,
/// and binderfs comes last, and only after a shrinker that could be registered.
pub proof fn law_loading_in_order(first: InitStep, replies: InitReplies)
    requires
        call_ensures(BinderModule::init, (), first),
    ensures
        actions(first, replies).len() == (if replies.shrinker is Ok {
            4nat
        } else {
            3
        }),
        actions(first, replies)[0] == InitAction::InitContexts,
        actions(first, replies)[1] == InitAction::Warn("Loaded Rust Binder."),
        actions(first, replies)[2] == InitAction::RegisterShrinker("android-binder"),
        replies.shrinker is Ok ==> actions(first, replies)[3] == InitAction::InitBinderfs,
        replies.shrinker matches Err(err) ==> outcome(first, replies) == Err::<
            BinderModule,
            Error,
        >(err),
        replies.shrinker is Ok ==> (replies.binderfs matches Err(err) ==> outcome(
            first,
            replies,
        ) == Err::<BinderModule, Error>(err)),
        outcome(first, replies) is Ok <==> replies.shrinker is Ok && replies.binderfs is Ok,
{
    law_init_in_full(replies);
}

} // verus!

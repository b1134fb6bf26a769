//! The method-index protocol of the generated dispatch, as decisions on
//! plain values: which handler a call reaches, and with which category a
//! call is aborted.
//!
//! A call is routed by its method number alone: 1 reaches the constructor,
//! 2 and up reach the messages of the inherent impl blocks in declaration
//! order. Selectors play no part in routing, and messages of trait impls
//! are not reachable by any method number.

use vstd::prelude::*;

verus! {

/// The method number that reaches the constructor.
pub const CONSTRUCTOR_INDEX: u64 = 1;

/// The method number of the first inherent message.
pub const FIRST_MESSAGE_INDEX: u64 = 2;

/// The identity of the actor that alone may call the constructor.
pub const INIT_ACTOR: u64 = 1;

/// The block id that stands for "no data".
pub const NO_DATA_BLOCK_ID: u32 = 0;

/// The categories with which a call is aborted.
#[derive(Debug, Clone, Copy, PartialEq, Eq, Structural)]
pub enum Abort {
    /// The root or the state could not be loaded or decoded.
    IllegalState,
    /// A value could not be encoded or stored.
    Serialization,
    /// The constructor was called by another actor than the initializer.
    Forbidden,
    /// The method number reaches no handler.
    UnhandledMessage,
}

impl Abort {
    /// The name of the exit code that the host knows the category by.
    pub open spec fn spec_code_name(self) -> Seq<char> {
        match self {
            Abort::IllegalState => "USR_ILLEGAL_STATE"@,
            Abort::Serialization => "USR_SERIALIZATION"@,
            Abort::Forbidden => "USR_FORBIDDEN"@,
            Abort::UnhandledMessage => "USR_UNHANDLED_MESSAGE"@,
        }
    }

    pub fn code_name(self) -> (name: &'static str)
        ensures
            name@ == self.spec_code_name(),
    {
        match self {
            Abort::IllegalState => "USR_ILLEGAL_STATE",
            Abort::Serialization => "USR_SERIALIZATION",
            Abort::Forbidden => "USR_FORBIDDEN",
            Abort::UnhandledMessage => "USR_UNHANDLED_MESSAGE",
        }
    }
}

/// One arm of the dispatch: a method number and the message it reaches.
#[derive(Debug, Clone, PartialEq, Eq)]
pub struct DispatchArm {
    pub index: u64,
    /// The name of the message.
    pub handler: String,
    /// Whether the raw call parameters are handed to the message.
    pub passes_params: bool,
}

/// The handler that a method number reaches.
#[derive(Debug, Clone, Copy, PartialEq, Eq, Structural)]
pub enum Route {
    Constructor,
    /// The inherent message at this position in declaration order.
    Message(usize),
}

/// What a call does once it is admitted.
#[derive(Debug, Clone, Copy, PartialEq, Eq, Structural)]
pub enum Action {
    /// The constructor's work; see `steps_of`.
    InitState,
    /// The work of the inherent message at this position; see `steps_of`.
    RunMessage(usize),
}

/// The handler that `method_number` reaches among `n` inherent messages.
pub open spec fn route_of(n: nat, method_number: u64) -> Option<Route> {
    if method_number == CONSTRUCTOR_INDEX {
        Some(Route::Constructor)
    } else if FIRST_MESSAGE_INDEX <= method_number && method_number - FIRST_MESSAGE_INDEX < n {
        Some(Route::Message((method_number - FIRST_MESSAGE_INDEX) as usize))
    } else {
        None
    }
}

/// What a call of `method_number` by `caller` comes to among `n` inherent messages.
pub open spec fn invoke_of(n: nat, method_number: u64, caller: u64) -> Result<Action, Abort> {
    match route_of(n, method_number) {
        None => Err(Abort::UnhandledMessage),
        Some(Route::Constructor) => if caller == INIT_ACTOR {
            Ok(Action::InitState)
        } else {
            Err(Abort::Forbidden)
        },
        Some(Route::Message(k)) => Ok(Action::RunMessage(k)),
    }
}

/// The arms of a contract's dispatch, one for each inherent message in
/// declaration order.
#[derive(Debug, Clone, PartialEq, Eq)]
pub struct DispatchTable {
    arms: Vec<DispatchArm>,
}

impl View for DispatchTable {
    type V = Seq<DispatchArm>;

    closed spec fn view(&self) -> Seq<DispatchArm> {
        self.arms@
    }
}

impl DispatchTable {
    /// The arm at position `k` has the method number `k + 2`.
    pub open spec fn wf(&self) -> bool {
        forall|k: int| 0 <= k < self@.len() ==> (#[trigger] self@[k]).index == k + FIRST_MESSAGE_INDEX
    }

    /// The table without any message.
    pub fn new() -> (table: Self)
        ensures
            table.wf(),
            table@.len() == 0,
    {
        Self { arms: Vec::new() }
    }

    /// Adds the arm of the next message; nothing is added where no method
    /// number is left for it.
    pub fn push(&mut self, handler: String, passes_params: bool) -> (added: bool)
        requires
            old(self).wf(),
        ensures
            final(self).wf(),
            added == (old(self)@.len() + FIRST_MESSAGE_INDEX <= u64::MAX),
            added ==> final(self)@ == old(self)@.push(
                DispatchArm {
                    index: (old(self)@.len() + FIRST_MESSAGE_INDEX) as u64,
                    handler,
                    passes_params,
                },
            ),
            !added ==> final(self)@ == old(self)@,
    {
        let n = self.arms.len();
        if n as u64 > u64::MAX - FIRST_MESSAGE_INDEX {
            return false;
        }
        let index: u64 = n as u64 + FIRST_MESSAGE_INDEX;
        self.arms.push(DispatchArm { index, handler, passes_params });
        true
    }

    /// The number of inherent messages.
    pub fn len(&self) -> (n: usize)
        ensures
            n == self@.len(),
    {
        self.arms.len()
    }

    /// The arm at position `k`.
    pub fn arm(&self, k: usize) -> (arm: &DispatchArm)
        requires
            k < self@.len(),
        ensures
            *arm == self@[k as int],
    {
        &self.arms[k]
    }

    /// Routes a method number: `1` to the constructor, `2` and up to the
    /// inherent messages in declaration order, any other to no handler.
    pub fn route(&self, method_number: u64) -> (res: Result<Route, Abort>)
        ensures
            match res {
                Ok(route) => route_of(self@.len(), method_number) == Some(route),
                Err(abort) => route_of(self@.len(), method_number) is None && abort
                    == Abort::UnhandledMessage,
            },
    {
        if method_number == CONSTRUCTOR_INDEX {
            return Ok(Route::Constructor);
        }
        if method_number >= FIRST_MESSAGE_INDEX {
            let k = method_number - FIRST_MESSAGE_INDEX;
            if k < self.arms.len() as u64 {
                return Ok(Route::Message(k as usize));
            }
        }
        Err(Abort::UnhandledMessage)
    }

    /// Decides what a call does: the constructor is admitted for the
    /// initializer alone, and refused before anything else is done.
    pub fn invoke(&self, method_number: u64, caller: u64) -> (res: Result<Action, Abort>)
        ensures
            res == invoke_of(self@.len(), method_number, caller),
    {
        match self.route(method_number) {
            Err(abort) => Err(abort),
            Ok(Route::Constructor) => {
                if caller != INIT_ACTOR {
                    return Err(Abort::Forbidden);
                }
                Ok(Action::InitState)
            },
            Ok(Route::Message(k)) => Ok(Action::RunMessage(k)),
        }
    }
}

/// How far loading the state came.
#[derive(Debug, Clone, Copy, PartialEq, Eq, Structural)]
pub enum LoadStep {
    /// The host gave no root.
    RootFailed,
    /// The store holds nothing under the root.
    StateMissing,
    /// The store failed, or the bytes do not decode.
    StateFailed,
    Loaded,
}

/// How far saving the state came.
#[derive(Debug, Clone, Copy, PartialEq, Eq, Structural)]
pub enum SaveStep {
    /// The state does not encode.
    EncodeFailed,
    /// The store refused the bytes.
    StoreFailed,
    /// The host refused the new root.
    SetRootFailed,
    Saved,
}

/// Every failure to load the state aborts as an illegal state.
pub fn load_abort(step: LoadStep) -> (abort: Option<Abort>)
    ensures
        abort == (if step == LoadStep::Loaded {
            None
        } else {
            Some(Abort::IllegalState)
        }),
{
    match step {
        LoadStep::Loaded => None,
        _ => Some(Abort::IllegalState),
    }
}

/// Every failure to save the state aborts as a serialization failure.
pub fn save_abort(step: SaveStep) -> (abort: Option<Abort>)
    ensures
        abort == (if step == SaveStep::Saved {
            None
        } else {
            Some(Abort::Serialization)
        }),
{
    match step {
        SaveStep::Saved => None,
        _ => Some(Abort::Serialization),
    }
}

/// The result of a call: the block that holds the handler's value, "no
/// data" where it returned none, and an abort where the value was not stored.
pub fn invoke_result(stored: Option<Result<u32, ()>>) -> (res: Result<u32, Abort>)
    ensures
        res == match stored {
            None => Ok::<u32, Abort>(NO_DATA_BLOCK_ID),
            Some(Ok(id)) => Ok(id),
            Some(Err(_)) => Err(Abort::Serialization),
        },
{
    match stored {
        None => Ok(NO_DATA_BLOCK_ID),
        Some(Ok(id)) => Ok(id),
        Some(Err(_)) => Err(Abort::Serialization),
    }
}


/// One step of what a call does, in the order in which it is done.
#[derive(Debug, Clone, Copy, PartialEq, Eq, Structural)]
pub enum Step {
    /// Build the default value of the state.
    BuildDefaultState,
    /// Load the state from the store, anew for this call.
    LoadState,
    /// Save the state as it is.
    SaveState,
    /// Run the statements of the inherent message at this position.
    RunStatements(usize),
    /// Hand back "no data".
    ReturnNoData,
    /// Store the value that the statements gave, or hand back "no data" where they gave none.
    StoreResult,
}

/// The steps of an admitted call. The constructor builds the default state,
/// saves it and gives no value. A message loads the state, saves it before
/// its own statements run, runs them, and stores what they gave.
pub open spec fn steps_of(action: Action) -> Seq<Step> {
    match action {
        Action::InitState => seq![Step::BuildDefaultState, Step::SaveState, Step::ReturnNoData],
        Action::RunMessage(k) => seq![
            Step::LoadState,
            Step::SaveState,
            Step::RunStatements(k),
            Step::StoreResult,
        ],
    }
}

/// The steps of an admitted call, in order.
pub fn steps(action: Action) -> (steps: Vec<Step>)
    ensures
        steps@ == steps_of(action),
{
    let mut steps: Vec<Step> = Vec::new();
    match action {
        Action::InitState => {
            steps.push(Step::BuildDefaultState);
            steps.push(Step::SaveState);
            steps.push(Step::ReturnNoData);
        },
        Action::RunMessage(k) => {
            steps.push(Step::LoadState);
            steps.push(Step::SaveState);
            steps.push(Step::RunStatements(k));
            steps.push(Step::StoreResult);
        },
    }
    assert(steps@ =~= steps_of(action));
    steps
}

/// The category of each failure that the generated code can meet.
#[derive(Debug, Clone, Copy, PartialEq, Eq, Structural)]
pub struct AbortPlan {
    pub root_failed: Abort,
    pub state_missing: Abort,
    pub state_failed: Abort,
    pub encode_failed: Abort,
    pub store_failed: Abort,
    pub set_root_failed: Abort,
    /// The constructor is called by another actor than the initializer.
    pub forbidden: Abort,
    /// The method number reaches no handler.
    pub unhandled: Abort,
    /// The value of a handler is not stored.
    pub result_not_stored: Abort,
}

/// The categories as the decisions of this module give them: every failure
/// to load is an illegal state, every failure to save or to store a
/// serialization failure; a constructor call by any other caller than the
/// initializer is forbidden, and a method number without handler unhandled.
pub open spec fn abort_plan_of() -> AbortPlan {
    AbortPlan {
        root_failed: Abort::IllegalState,
        state_missing: Abort::IllegalState,
        state_failed: Abort::IllegalState,
        encode_failed: Abort::Serialization,
        store_failed: Abort::Serialization,
        set_root_failed: Abort::Serialization,
        forbidden: Abort::Forbidden,
        unhandled: Abort::UnhandledMessage,
        result_not_stored: Abort::Serialization,
    }
}

fn abort_of(abort: Option<Abort>, otherwise: Abort) -> (found: Abort)
    ensures
        found == match abort {
            Some(a) => a,
            None => otherwise,
        },
{
    match abort {
        Some(a) => a,
        None => otherwise,
    }
}

impl DispatchTable {
    /// Asks the decisions of this module for the category of each failure.
    pub fn abort_plan(&self) -> (plan: AbortPlan)
        ensures
            plan == abort_plan_of(),
            forall|caller: u64|
                caller != INIT_ACTOR ==> #[trigger] invoke_of(
                    self@.len(),
                    CONSTRUCTOR_INDEX,
                    caller,
                ) == Err::<Action, Abort>(plan.forbidden),
            forall|method_number: u64|
                #[trigger] route_of(self@.len(), method_number) is None ==> invoke_of(
                    self@.len(),
                    method_number,
                    INIT_ACTOR,
                ) == Err::<Action, Abort>(plan.unhandled),
    {
        let forbidden = match self.invoke(CONSTRUCTOR_INDEX, INIT_ACTOR + 1) {
            Err(abort) => abort,
            Ok(_) => Abort::Forbidden,
        };
        let unhandled = match self.route(0) {
            Err(abort) => abort,
            Ok(_) => Abort::UnhandledMessage,
        };
        let result_not_stored = match invoke_result(Some(Err(()))) {
            Err(abort) => abort,
            Ok(_) => Abort::Serialization,
        };
        AbortPlan {
            root_failed: abort_of(load_abort(LoadStep::RootFailed), Abort::IllegalState),
            state_missing: abort_of(load_abort(LoadStep::StateMissing), Abort::IllegalState),
            state_failed: abort_of(load_abort(LoadStep::StateFailed), Abort::IllegalState),
            encode_failed: abort_of(save_abort(SaveStep::EncodeFailed), Abort::Serialization),
            store_failed: abort_of(save_abort(SaveStep::StoreFailed), Abort::Serialization),
            set_root_failed: abort_of(save_abort(SaveStep::SetRootFailed), Abort::Serialization),
            forbidden,
            unhandled,
            result_not_stored,
        }
    }
}

} // verus!

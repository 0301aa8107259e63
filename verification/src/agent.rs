//! Loading the agent.
//!
//! The agent is loaded once, when the runtime starts. It negotiates the
//! debug interface, requests its capabilities and registers its handler for
//! exception events, in this order. The first failure ends the load, and the
//! runtime is told not to start: that is better than failing later.
use crate::env::{DebugCall, DebugOp, DebugPoll, DebugPollView, DebugReply, DebugValue, JvmTiEnv};
use crate::errors::{unexpected_reply, Error, ErrorView, JVMTI_ERROR_INTERNAL};
use vstd::prelude::*;

verus! {

/// How far the load has come.
#[derive(Clone, Copy, Debug, PartialEq, Eq, Structural)]
pub enum LoadStep {
    /// Negotiating the debug interface.
    Negotiating,
    /// Requesting capabilities.
    Enabling,
    /// Registering the handler for exception events.
    Registering,
    /// The agent is ready to receive events.
    Loaded,
    /// The load has failed.
    Refused,
}

/// A load in progress.
#[derive(Clone, Copy, Debug, PartialEq, Eq, Structural)]
pub struct Load {
    pub stage: LoadStep,
    /// The operation whose reply is awaited.
    pub op: DebugOp,
    /// The debug interface, once it has been negotiated.
    pub env: JvmTiEnv,
}

/// What a load asks for next.
#[derive(Clone, Copy, Debug, PartialEq, Eq)]
pub enum LoadAction {
    /// Invoke an entry point of the debug interface.
    Debug(DebugCall),
    /// Nothing: the load is over. On failure this carries the status to
    /// hand to the runtime.
    Finished(Result<(), i32>),
}

/// The opening of the next operation of a load.
pub open spec fn proceed(load: Load, stage: LoadStep, op: DebugOp) -> (Load, LoadAction) {
    (Load { stage, op, ..load }, LoadAction::Debug(op.call))
}

/// The end of a load that failed with `e`.
pub open spec fn refuse(load: Load, e: ErrorView) -> (Load, LoadAction) {
    (Load { stage: LoadStep::Refused, ..load }, LoadAction::Finished(Err(e.exit_code())))
}

impl Load {
    /// What a load makes of a reply.
    ///
    /// A failed operation ends the load with the status of its error. A
    /// negotiated interface is asked for the capabilities to receive
    /// exception events and to read local variables; granted capabilities
    /// are followed by the registration of the handler; and with the
    /// handler registered the agent is loaded. A load that is over takes no
    /// further reply.
    pub open spec fn spec_resume(self, reply: DebugReply) -> (Load, LoadAction) {
        if self.stage == LoadStep::Loaded || self.stage == LoadStep::Refused {
            (self, LoadAction::Finished(Err(JVMTI_ERROR_INTERNAL)))
        } else {
            match self.op.spec_resume(reply) {
                DebugPollView::Pending(next) => proceed(self, self.stage, next),
                DebugPollView::Ready(Err(e)) => refuse(self, e),
                DebugPollView::Ready(Ok(value)) => match (self.stage, value) {
                    (LoadStep::Negotiating, DebugValue::Environment(env)) => proceed(
                        Load { env: JvmTiEnv { jvmti: env }, ..self },
                        LoadStep::Enabling,
                        DebugOp {
                            call: DebugCall::AddCapabilities {
                                exception_events: true,
                                local_variables: true,
                            },
                        },
                    ),
                    (LoadStep::Enabling, _) => proceed(
                        self,
                        LoadStep::Registering,
                        DebugOp { call: DebugCall::SetEventCallbacks },
                    ),
                    (LoadStep::Registering, _) => (
                        Load { stage: LoadStep::Loaded, ..self },
                        LoadAction::Finished(Ok(())),
                    ),
                    _ => refuse(self, unexpected_reply()),
                },
            }
        }
    }

    /// Takes the reply of the entry point that is outstanding and says what
    /// the load asks for next.
    pub fn resume(self, reply: DebugReply) -> (next: (Load, LoadAction))
        ensures
            next == self.spec_resume(reply),
    {
        if matches!(self.stage, LoadStep::Loaded | LoadStep::Refused) {
            return (self, LoadAction::Finished(Err(JVMTI_ERROR_INTERNAL)));
        }
        match self.op.resume(reply) {
            DebugPoll::Pending(next) => (Load { op: next, ..self }, LoadAction::Debug(next.call)),
            DebugPoll::Ready(Err(e)) => (
                Load { stage: LoadStep::Refused, ..self },
                LoadAction::Finished(Err(e.exit_code())),
            ),
            DebugPoll::Ready(Ok(value)) => match (self.stage, value) {
                (LoadStep::Negotiating, DebugValue::Environment(env)) => {
                    let mut env = JvmTiEnv::wrap(env);
                    let op = env.enable_capabilities();
                    (Load { stage: LoadStep::Enabling, op, env }, LoadAction::Debug(op.call))
                },
                (LoadStep::Enabling, _) => {
                    let mut env = self.env;
                    let op = env.set_exception_handler();
                    (Load { stage: LoadStep::Registering, op, ..self }, LoadAction::Debug(op.call))
                },
                (LoadStep::Registering, _) => (
                    Load { stage: LoadStep::Loaded, ..self },
                    LoadAction::Finished(Ok(())),
                ),
                _ => (
                    Load { stage: LoadStep::Refused, ..self },
                    LoadAction::Finished(Err(Error::unexpected_reply().exit_code())),
                ),
            },
        }
    }

    /// Whether the agent is ready to receive events. Until then an event
    /// handler must do nothing.
    pub fn is_loaded(&self) -> (loaded: bool)
        ensures
            loaded == (self.stage == LoadStep::Loaded),
    {
        matches!(self.stage, LoadStep::Loaded)
    }
}

/// Starts the load of the agent into the runtime `vm`: the negotiation of
/// the debug interface.
pub fn onload(vm: u64) -> (start: (Load, LoadAction))
    ensures
        start == (
            Load {
                stage: LoadStep::Negotiating,
                op: DebugOp { call: DebugCall::GetEnv { vm } },
                env: JvmTiEnv { jvmti: 0 },
            },
            LoadAction::Debug(DebugCall::GetEnv { vm }),
        ),
{
    let op = JvmTiEnv::new(vm);
    (Load { stage: LoadStep::Negotiating, op, env: JvmTiEnv::wrap(0) }, LoadAction::Debug(op.call))
}

/// The agent is loaded only by the success of all three operations, and
/// every failure on the way is final.
///
/// A reply makes a load ready only if the load was registering its handler
/// and the reply was a success. Whatever the reply, a load that was refused
/// stays refused, and one that was ready stays ready.
pub proof fn law_loaded_only_after_registration(load: Load, reply: DebugReply)
    ensures
        ({
            let (next, action) = load.spec_resume(reply);
            &&& next.stage == LoadStep::Loaded && load.stage != LoadStep::Loaded ==> load.stage
                == LoadStep::Registering && reply.status == 0 && action == LoadAction::Finished(
                Ok(()),
            )
            &&& load.stage == LoadStep::Refused ==> next.stage == LoadStep::Refused
            &&& load.stage == LoadStep::Loaded ==> next.stage == LoadStep::Loaded
            &&& action == LoadAction::Finished(Ok(())) ==> next.stage == LoadStep::Loaded
            &&& reply.status != 0 && load.stage != LoadStep::Loaded ==> next.stage
                == LoadStep::Refused
        }),
{
}

} // verus!

//! The debug interface: capability negotiation, callback registration, stack
//! and local variable retrieval, and the release of native buffers.
//!
//! Every operation names one or two native entry points. [`JvmTiEnv`] opens
//! an operation and says which entry point to invoke; [`DebugOp::resume`]
//! takes what the entry point returned and turns its status into the
//! operation's result.
use crate::errors::{unexpected_reply, Error, ErrorView};
use crate::values::{LocalVariableEntry, RawValue, SlotKind, StackFrame};
use vstd::prelude::*;
use vstd::string::*;

verus! {

/// Status with which an entry point reports success, be it one of the debug
/// interface or the negotiation of the interface itself.
pub const JVMTI_ERROR_NONE: i32 = 0;

/// Status reported when the runtime refuses an interface.
pub const JNI_ERR: i32 = -1;

/// A native entry point of the debug interface, with its arguments.
#[derive(Clone, Copy, Debug, PartialEq, Eq, Structural)]
pub enum DebugCall {
    /// Ask the runtime `vm` for its debug interface.
    GetEnv { vm: u64 },
    /// Request capabilities.
    AddCapabilities { exception_events: bool, local_variables: bool },
    /// Install the agent's handler for exception events.
    SetEventCallbacks,
    /// Enable delivery of exception events on every thread.
    SetEventNotificationMode,
    GetFrameCount { thread: u64 },
    GetStackTrace { thread: u64, start_depth: i32, max_frames: i32 },
    GetLocalVariableTable { method: u64 },
    Deallocate { buffer: u64 },
    GetLocalObject { thread: u64, depth: i32, slot: i32 },
    GetLocalLong { thread: u64, depth: i32, slot: i32 },
    GetLocalFloat { thread: u64, depth: i32, slot: i32 },
    GetLocalDouble { thread: u64, depth: i32, slot: i32 },
    GetLocalInt { thread: u64, depth: i32, slot: i32 },
    GetMethodDeclaringClass { method: u64 },
}

/// What a native entry point of the debug interface hands back besides its
/// status.
#[derive(Debug, PartialEq, Eq)]
pub enum DebugValue {
    Nothing,
    /// The debug interface of a runtime.
    Environment(u64),
    Count(i32),
    /// The frames a stack walk returned, innermost first. Their number is
    /// the number the walk reports, not the number asked for.
    Frames(Vec<StackFrame>),
    /// A local variable table: the buffer that holds it and its entries in
    /// table order.
    Table { table: u64, entries: Vec<LocalVariableEntry> },
    Local(RawValue),
    Class(u64),
}

/// The reply of a native entry point: its status, and the value it wrote.
/// The value means nothing unless the status is success.
#[derive(Debug, PartialEq, Eq)]
pub struct DebugReply {
    pub status: i32,
    pub value: DebugValue,
}

/// The message of a failed entry point: `JVMTI`, its name, `failed`.
pub open spec fn failed_message(name: Seq<char>) -> Seq<char> {
    "JVMTI "@ + name + " failed"@
}

impl DebugCall {
    /// The name of the entry point.
    pub open spec fn spec_name(self) -> Seq<char> {
        match self {
            DebugCall::GetEnv { .. } => "GetEnv"@,
            DebugCall::AddCapabilities { .. } => "AddCapabilities"@,
            DebugCall::SetEventCallbacks => "SetEventCallbacks"@,
            DebugCall::SetEventNotificationMode => "SetEventNotificationMode"@,
            DebugCall::GetFrameCount { .. } => "GetFrameCount"@,
            DebugCall::GetStackTrace { .. } => "GetStackTrace"@,
            DebugCall::GetLocalVariableTable { .. } => "GetLocalVariableTable"@,
            DebugCall::Deallocate { .. } => "Deallocate"@,
            DebugCall::GetLocalObject { .. } => "GetLocalObject"@,
            DebugCall::GetLocalLong { .. } => "GetLocalLong"@,
            DebugCall::GetLocalFloat { .. } => "GetLocalFloat"@,
            DebugCall::GetLocalDouble { .. } => "GetLocalDouble"@,
            DebugCall::GetLocalInt { .. } => "GetLocalInt"@,
            DebugCall::GetMethodDeclaringClass { .. } => "GetMethodDeclaringClass"@,
        }
    }

    /// The name of the entry point.
    pub fn name(&self) -> (name: &'static str)
        ensures
            name@ == self.spec_name(),
    {
        match self {
            DebugCall::GetEnv { .. } => "GetEnv",
            DebugCall::AddCapabilities { .. } => "AddCapabilities",
            DebugCall::SetEventCallbacks => "SetEventCallbacks",
            DebugCall::SetEventNotificationMode => "SetEventNotificationMode",
            DebugCall::GetFrameCount { .. } => "GetFrameCount",
            DebugCall::GetStackTrace { .. } => "GetStackTrace",
            DebugCall::GetLocalVariableTable { .. } => "GetLocalVariableTable",
            DebugCall::Deallocate { .. } => "Deallocate",
            DebugCall::GetLocalObject { .. } => "GetLocalObject",
            DebugCall::GetLocalLong { .. } => "GetLocalLong",
            DebugCall::GetLocalFloat { .. } => "GetLocalFloat",
            DebugCall::GetLocalDouble { .. } => "GetLocalDouble",
            DebugCall::GetLocalInt { .. } => "GetLocalInt",
            DebugCall::GetMethodDeclaringClass { .. } => "GetMethodDeclaringClass",
        }
    }

    /// Whether `value` is of the shape the entry point writes: nothing for
    /// those that only report a status, a slot value of the kind that was
    /// read, no more frames than were asked for, and no more table entries
    /// than the interface can count.
    pub open spec fn answered_by(self, value: DebugValue) -> bool {
        match self {
            DebugCall::GetEnv { .. } => value is Environment,
            DebugCall::AddCapabilities { .. } => value is Nothing,
            DebugCall::SetEventCallbacks => value is Nothing,
            DebugCall::SetEventNotificationMode => value is Nothing,
            DebugCall::GetFrameCount { .. } => value is Count,
            DebugCall::GetStackTrace { max_frames, .. } => value matches DebugValue::Frames(frames)
                && frames@.len() <= max_frames,
            DebugCall::GetLocalVariableTable { .. } => value matches DebugValue::Table { entries, .. }
                && entries@.len() <= i32::MAX,
            DebugCall::Deallocate { .. } => value is Nothing,
            DebugCall::GetLocalObject { .. } => value matches DebugValue::Local(raw) && raw.kind()
                == SlotKind::Object,
            DebugCall::GetLocalLong { .. } => value matches DebugValue::Local(raw) && raw.kind()
                == SlotKind::Long,
            DebugCall::GetLocalFloat { .. } => value matches DebugValue::Local(raw) && raw.kind()
                == SlotKind::Float,
            DebugCall::GetLocalDouble { .. } => value matches DebugValue::Local(raw) && raw.kind()
                == SlotKind::Double,
            DebugCall::GetLocalInt { .. } => value matches DebugValue::Local(raw) && raw.kind()
                == SlotKind::Int,
            DebugCall::GetMethodDeclaringClass { .. } => value is Class,
        }
    }

    /// Whether `value` is of the shape the entry point writes.
    pub fn is_answered_by(&self, value: &DebugValue) -> (fits: bool)
        ensures
            fits == self.answered_by(*value),
    {
        match self {
            DebugCall::GetEnv { .. } => matches!(value, DebugValue::Environment(_)),
            DebugCall::AddCapabilities { .. } => matches!(value, DebugValue::Nothing),
            DebugCall::SetEventCallbacks => matches!(value, DebugValue::Nothing),
            DebugCall::SetEventNotificationMode => matches!(value, DebugValue::Nothing),
            DebugCall::GetFrameCount { .. } => matches!(value, DebugValue::Count(_)),
            DebugCall::GetStackTrace { max_frames, .. } => match value {
                DebugValue::Frames(frames) => *max_frames >= 0 && frames.len() <= *max_frames as usize,
                _ => false,
            },
            DebugCall::GetLocalVariableTable { .. } => match value {
                DebugValue::Table { entries, .. } => entries.len() <= i32::MAX as usize,
                _ => false,
            },
            DebugCall::Deallocate { .. } => matches!(value, DebugValue::Nothing),
            DebugCall::GetLocalObject { .. } => matches!(value, DebugValue::Local(RawValue::Object(_))),
            DebugCall::GetLocalLong { .. } => matches!(value, DebugValue::Local(RawValue::Long(_))),
            DebugCall::GetLocalFloat { .. } => matches!(value, DebugValue::Local(RawValue::Float(_))),
            DebugCall::GetLocalDouble { .. } => matches!(value, DebugValue::Local(RawValue::Double(_))),
            DebugCall::GetLocalInt { .. } => matches!(value, DebugValue::Local(RawValue::Int(_))),
            DebugCall::GetMethodDeclaringClass { .. } => matches!(value, DebugValue::Class(_)),
        }
    }

    /// The error for the entry point returning `status`: what was attempted
    /// and the status. A refused negotiation is reported under the
    /// runtime's general error status.
    pub open spec fn failure(self, status: i32) -> ErrorView {
        match self {
            DebugCall::GetEnv { .. } => ErrorView::JvmTi("GetEnv failed"@, JNI_ERR),
            _ => ErrorView::JvmTi(failed_message(self.spec_name()), status),
        }
    }

    /// The error for the entry point returning `status`.
    pub fn fail(&self, status: i32) -> (e: Error)
        ensures
            e@ == self.failure(status),
    {
        match self {
            DebugCall::GetEnv { .. } => Error::JvmTi(String::from_str("GetEnv failed"), JNI_ERR),
            _ => Error::JvmTi(
                String::from_str("JVMTI ").concat(self.name()).concat(" failed"),
                status,
            ),
        }
    }
}

/// An operation of the debug interface that awaits the reply of `call`.
#[derive(Clone, Copy, Debug, PartialEq, Eq, Structural)]
pub struct DebugOp {
    pub call: DebugCall,
}

/// Where an operation of the debug interface stands after a reply.
#[derive(Debug, PartialEq, Eq)]
pub enum DebugPoll {
    /// Another entry point has to be invoked.
    Pending(DebugOp),
    /// The operation is over.
    Ready(Result<DebugValue, Error>),
}

/// The mathematical content of a [`DebugPoll`].
pub enum DebugPollView {
    Pending(DebugOp),
    Ready(Result<DebugValue, ErrorView>),
}

impl View for DebugPoll {
    type V = DebugPollView;

    open spec fn view(&self) -> DebugPollView {
        match self {
            DebugPoll::Pending(op) => DebugPollView::Pending(*op),
            DebugPoll::Ready(Ok(value)) => DebugPollView::Ready(Ok(*value)),
            DebugPoll::Ready(Err(e)) => DebugPollView::Ready(Err(e@)),
        }
    }
}

impl DebugOp {
    /// What an operation makes of a reply.
    ///
    /// A status other than success ends it with the error that names the
    /// entry point and carries the status. Installing the event handler is
    /// followed by enabling the event. Any other entry point ends the
    /// operation with the value it wrote, provided the value is of the
    /// shape that entry point writes.
    pub open spec fn spec_resume(self, reply: DebugReply) -> DebugPollView {
        if reply.status != JVMTI_ERROR_NONE {
            DebugPollView::Ready(Err(self.call.failure(reply.status)))
        } else if !self.call.answered_by(reply.value) {
            DebugPollView::Ready(Err(unexpected_reply()))
        } else if self.call == DebugCall::SetEventCallbacks {
            DebugPollView::Pending(DebugOp { call: DebugCall::SetEventNotificationMode })
        } else {
            DebugPollView::Ready(Ok(reply.value))
        }
    }

    /// Takes the reply of the entry point that is outstanding.
    pub fn resume(self, reply: DebugReply) -> (poll: DebugPoll)
        ensures
            poll@ == self.spec_resume(reply),
    {
        if reply.status != JVMTI_ERROR_NONE {
            DebugPoll::Ready(Err(self.call.fail(reply.status)))
        } else if !self.call.is_answered_by(&reply.value) {
            DebugPoll::Ready(Err(Error::unexpected_reply()))
        } else if matches!(self.call, DebugCall::SetEventCallbacks) {
            DebugPoll::Pending(DebugOp { call: DebugCall::SetEventNotificationMode })
        } else {
            DebugPoll::Ready(Ok(reply.value))
        }
    }
}

/// The debug interface of a runtime. The interface is mandatory: without it
/// the agent cannot work at all.
///
/// A value of this type is a capability, not a resource: it is copied freely
/// and never released.
#[derive(Clone, Copy, Debug, PartialEq, Eq, Structural)]
pub struct JvmTiEnv {
    pub jvmti: u64,
}

impl JvmTiEnv {
    /// Negotiates the debug interface from the runtime `vm`. The operation
    /// ends with the interface, or with an error if the runtime refuses.
    pub fn new(vm: u64) -> (op: DebugOp)
        ensures
            op.call == (DebugCall::GetEnv { vm }),
    {
        DebugOp { call: DebugCall::GetEnv { vm } }
    }

    /// Wraps the interface handed to an event handler.
    pub fn wrap(jvmti_env: u64) -> (env: JvmTiEnv)
        ensures
            env.jvmti == jvmti_env,
    {
        JvmTiEnv { jvmti: jvmti_env }
    }

    /// Requests the two capabilities the agent needs: to receive exception
    /// events and to read the local variables of live frames.
    pub fn enable_capabilities(&mut self) -> (op: DebugOp)
        ensures
            *final(self) == *old(self),
            op.call == (DebugCall::AddCapabilities { exception_events: true, local_variables: true }),
    {
        DebugOp { call: DebugCall::AddCapabilities { exception_events: true, local_variables: true } }
    }

    /// Installs the handler for exception events and, once that succeeded,
    /// enables the event.
    pub fn set_exception_handler(&mut self) -> (op: DebugOp)
        ensures
            *final(self) == *old(self),
            op.call == DebugCall::SetEventCallbacks,
    {
        DebugOp { call: DebugCall::SetEventCallbacks }
    }

    /// Counts the frames on the stack of `thread`.
    pub fn get_frame_count(&mut self, thread: u64) -> (op: DebugOp)
        ensures
            *final(self) == *old(self),
            op.call == (DebugCall::GetFrameCount { thread }),
    {
        DebugOp { call: DebugCall::GetFrameCount { thread } }
    }

    /// Walks the stack of `thread` from `start_depth`, innermost frame
    /// first, for at most `num_frames` frames.
    pub fn get_stack_trace(&mut self, thread: u64, start_depth: i32, num_frames: i32) -> (op: DebugOp)
        ensures
            *final(self) == *old(self),
            op.call == (DebugCall::GetStackTrace { thread, start_depth, max_frames: num_frames }),
    {
        DebugOp { call: DebugCall::GetStackTrace { thread, start_depth, max_frames: num_frames } }
    }

    /// Fetches the local variable table of `method`. Whoever receives the
    /// table owns its buffers.
    pub fn get_local_variable_table(&mut self, method: u64) -> (op: DebugOp)
        ensures
            *final(self) == *old(self),
            op.call == (DebugCall::GetLocalVariableTable { method }),
    {
        DebugOp { call: DebugCall::GetLocalVariableTable { method } }
    }

    /// Hands a native buffer back to the runtime.
    pub fn dealloc(&mut self, ptr: u64) -> (op: DebugOp)
        ensures
            *final(self) == *old(self),
            op.call == (DebugCall::Deallocate { buffer: ptr }),
    {
        DebugOp { call: DebugCall::Deallocate { buffer: ptr } }
    }

    /// Reads a slot that holds an object reference.
    pub fn get_local_object(&mut self, thread: u64, depth: i32, slot: i32) -> (op: DebugOp)
        ensures
            *final(self) == *old(self),
            op.call == (DebugCall::GetLocalObject { thread, depth, slot }),
    {
        DebugOp { call: DebugCall::GetLocalObject { thread, depth, slot } }
    }

    /// Reads a slot that holds a 64-bit integer.
    pub fn get_local_long(&mut self, thread: u64, depth: i32, slot: i32) -> (op: DebugOp)
        ensures
            *final(self) == *old(self),
            op.call == (DebugCall::GetLocalLong { thread, depth, slot }),
    {
        DebugOp { call: DebugCall::GetLocalLong { thread, depth, slot } }
    }

    /// Reads a slot that holds a single-precision float.
    pub fn get_local_float(&mut self, thread: u64, depth: i32, slot: i32) -> (op: DebugOp)
        ensures
            *final(self) == *old(self),
            op.call == (DebugCall::GetLocalFloat { thread, depth, slot }),
    {
        DebugOp { call: DebugCall::GetLocalFloat { thread, depth, slot } }
    }

    /// Reads a slot that holds a double-precision float.
    pub fn get_local_double(&mut self, thread: u64, depth: i32, slot: i32) -> (op: DebugOp)
        ensures
            *final(self) == *old(self),
            op.call == (DebugCall::GetLocalDouble { thread, depth, slot }),
    {
        DebugOp { call: DebugCall::GetLocalDouble { thread, depth, slot } }
    }

    /// Reads a slot that holds a 32-bit integer or anything narrower.
    pub fn get_local_int(&mut self, thread: u64, depth: i32, slot: i32) -> (op: DebugOp)
        ensures
            *final(self) == *old(self),
            op.call == (DebugCall::GetLocalInt { thread, depth, slot }),
    {
        DebugOp { call: DebugCall::GetLocalInt { thread, depth, slot } }
    }

    /// Asks for the class that declares `method`.
    pub fn get_method_declaring_class(&mut self, method: u64) -> (op: DebugOp)
        ensures
            *final(self) == *old(self),
            op.call == (DebugCall::GetMethodDeclaringClass { method }),
    {
        DebugOp { call: DebugCall::GetMethodDeclaringClass { method } }
    }

    /// Opens the read of a slot of the given kind.
    pub fn get_local(&mut self, kind: SlotKind, thread: u64, depth: i32, slot: i32) -> (op: DebugOp)
        ensures
            *final(self) == *old(self),
            op.call == read_call(kind, thread, depth, slot),
    {
        match kind {
            SlotKind::Object => self.get_local_object(thread, depth, slot),
            SlotKind::Long => self.get_local_long(thread, depth, slot),
            SlotKind::Float => self.get_local_float(thread, depth, slot),
            SlotKind::Double => self.get_local_double(thread, depth, slot),
            SlotKind::Int => self.get_local_int(thread, depth, slot),
        }
    }
}

/// The entry point that reads a slot of the given kind.
pub open spec fn read_call(kind: SlotKind, thread: u64, depth: i32, slot: i32) -> DebugCall {
    match kind {
        SlotKind::Object => DebugCall::GetLocalObject { thread, depth, slot },
        SlotKind::Long => DebugCall::GetLocalLong { thread, depth, slot },
        SlotKind::Float => DebugCall::GetLocalFloat { thread, depth, slot },
        SlotKind::Double => DebugCall::GetLocalDouble { thread, depth, slot },
        SlotKind::Int => DebugCall::GetLocalInt { thread, depth, slot },
    }
}

} // verus!

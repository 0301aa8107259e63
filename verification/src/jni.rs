//! The call interface: lookups, invocations and constructions inside the
//! managed runtime.
//!
//! A call into the runtime can fail in two ways: the entry point returns
//! null where an object was required, or it leaves an exception pending.
//! Every operation here ends in one `Result`, and none ends in an error
//! while an exception is still pending: the exception is read, cleared and
//! folded into the error.
//!
//! [`JniEnv`] opens an operation and names the first entry point to invoke;
//! [`JniOp::resume`] takes each reply and names the next, until the
//! operation is over.
use crate::errors::{interior_nul, unexpected_reply, Error, ErrorView};
use crate::text::{contains_nul, has_nul, hex, hex_text, lossy, utf8_lossy};
use crate::values::RawValue;
use vstd::prelude::*;
use vstd::string::*;

verus! {

/// The byte with which the runtime says `true`.
pub const JNI_TRUE: u8 = 1;

/// A native entry point of the call interface, with its arguments.
#[derive(Clone, Debug, PartialEq, Eq)]
#[allow(inconsistent_fields)]
pub enum JniCall {
    FindClass { name: String },
    GetStaticMethodID { class: u64, name: String, signature: String },
    GetMethodID { class: u64, name: String, signature: String },
    CallStaticObjectMethod { class: u64, method: u64, arg: RawValue },
    CallStaticBooleanMethod { class: u64, method: u64, arg1: u64, arg2: i32 },
    CallStaticVoidMethod { class: u64, method: u64, arg1: u64, arg2: u64 },
    CallObjectMethod { object: u64, method: u64 },
    NewObject { class: u64, ctor: u64, arg1: u64, arg2: u64 },
    NewObjectArray { length: i32, class: u64, init: u64 },
    SetObjectArrayElement { array: u64, index: i32, value: u64 },
    NewStringUTF { chars: u64 },
    ToReflectedMethod { class: u64, method: u64, is_static: bool },
    GetObjectClass { object: u64 },
    GetStringUTFChars { string: u64 },
    ReleaseStringUTFChars { string: u64, chars: u64 },
    ExceptionCheck,
    ExceptionOccurred,
    ExceptionClear,
}

/// The mathematical content of a [`JniCall`].
#[allow(inconsistent_fields)]
pub enum JniCallView {
    FindClass { name: Seq<char> },
    GetStaticMethodID { class: u64, name: Seq<char>, signature: Seq<char> },
    GetMethodID { class: u64, name: Seq<char>, signature: Seq<char> },
    CallStaticObjectMethod { class: u64, method: u64, arg: RawValue },
    CallStaticBooleanMethod { class: u64, method: u64, arg1: u64, arg2: i32 },
    CallStaticVoidMethod { class: u64, method: u64, arg1: u64, arg2: u64 },
    CallObjectMethod { object: u64, method: u64 },
    NewObject { class: u64, ctor: u64, arg1: u64, arg2: u64 },
    NewObjectArray { length: i32, class: u64, init: u64 },
    SetObjectArrayElement { array: u64, index: i32, value: u64 },
    NewStringUTF { chars: u64 },
    ToReflectedMethod { class: u64, method: u64, is_static: bool },
    GetObjectClass { object: u64 },
    GetStringUTFChars { string: u64 },
    ReleaseStringUTFChars { string: u64, chars: u64 },
    ExceptionCheck,
    ExceptionOccurred,
    ExceptionClear,
}

impl View for JniCall {
    type V = JniCallView;

    open spec fn view(&self) -> JniCallView {
        match self {
            JniCall::FindClass { name } => JniCallView::FindClass { name: name@ },
            JniCall::GetStaticMethodID { class, name, signature } => JniCallView::GetStaticMethodID {
                class: *class,
                name: name@,
                signature: signature@,
            },
            JniCall::GetMethodID { class, name, signature } => JniCallView::GetMethodID {
                class: *class,
                name: name@,
                signature: signature@,
            },
            JniCall::CallStaticObjectMethod { class, method, arg } => JniCallView::CallStaticObjectMethod {
                class: *class,
                method: *method,
                arg: *arg,
            },
            JniCall::CallStaticBooleanMethod {
                class,
                method,
                arg1,
                arg2,
            } => JniCallView::CallStaticBooleanMethod {
                class: *class,
                method: *method,
                arg1: *arg1,
                arg2: *arg2,
            },
            JniCall::CallStaticVoidMethod { class, method, arg1, arg2 } => JniCallView::CallStaticVoidMethod {
                class: *class,
                method: *method,
                arg1: *arg1,
                arg2: *arg2,
            },
            JniCall::CallObjectMethod { object, method } => JniCallView::CallObjectMethod {
                object: *object,
                method: *method,
            },
            JniCall::NewObject { class, ctor, arg1, arg2 } => JniCallView::NewObject {
                class: *class,
                ctor: *ctor,
                arg1: *arg1,
                arg2: *arg2,
            },
            JniCall::NewObjectArray { length, class, init } => JniCallView::NewObjectArray {
                length: *length,
                class: *class,
                init: *init,
            },
            JniCall::SetObjectArrayElement { array, index, value } => JniCallView::SetObjectArrayElement {
                array: *array,
                index: *index,
                value: *value,
            },
            JniCall::NewStringUTF { chars } => JniCallView::NewStringUTF { chars: *chars },
            JniCall::ToReflectedMethod { class, method, is_static } => JniCallView::ToReflectedMethod {
                class: *class,
                method: *method,
                is_static: *is_static,
            },
            JniCall::GetObjectClass { object } => JniCallView::GetObjectClass { object: *object },
            JniCall::GetStringUTFChars { string } => JniCallView::GetStringUTFChars { string: *string },
            JniCall::ReleaseStringUTFChars { string, chars } => JniCallView::ReleaseStringUTFChars {
                string: *string,
                chars: *chars,
            },
            JniCall::ExceptionCheck => JniCallView::ExceptionCheck,
            JniCall::ExceptionOccurred => JniCallView::ExceptionOccurred,
            JniCall::ExceptionClear => JniCallView::ExceptionClear,
        }
    }
}

/// What a native entry point of the call interface returned.
#[derive(Clone, Debug, PartialEq, Eq)]
pub enum JniReply {
    /// A class, method, object, string or array; zero for null.
    Handle(u64),
    /// A boolean as the runtime encodes it.
    Boolean(u8),
    Void,
    /// The characters of a managed string: the native buffer that holds
    /// them, and its bytes up to the terminating zero.
    Chars { chars: u64, bytes: Vec<u8> },
}

/// The result of an operation of the call interface.
#[derive(Debug, PartialEq, Eq)]
pub enum JniValue {
    Unit,
    /// An object, never null.
    Object(u64),
    Boolean(bool),
    /// The result of an unchecked call: an object, or nothing for null.
    Reference(Option<u64>),
    /// The message of an exception, if it could be read.
    Text(Option<String>),
    /// The characters of a managed string and the buffer that holds them.
    Chars { chars: u64, bytes: Vec<u8> },
}

/// The mathematical content of a [`JniValue`].
pub enum JniValueView {
    Unit,
    Object(u64),
    Boolean(bool),
    Reference(Option<u64>),
    Text(Option<Seq<char>>),
    Chars { chars: u64, bytes: Seq<u8> },
}

/// The mathematical content of an optional text.
pub open spec fn text_view(text: Option<String>) -> Option<Seq<char>> {
    match text {
        Some(t) => Some(t@),
        None => None,
    }
}

impl View for JniValue {
    type V = JniValueView;

    open spec fn view(&self) -> JniValueView {
        match self {
            JniValue::Unit => JniValueView::Unit,
            JniValue::Object(object) => JniValueView::Object(*object),
            JniValue::Boolean(b) => JniValueView::Boolean(*b),
            JniValue::Reference(r) => JniValueView::Reference(*r),
            JniValue::Text(text) => JniValueView::Text(text_view(*text)),
            JniValue::Chars { chars, bytes } => JniValueView::Chars { chars: *chars, bytes: bytes@ },
        }
    }
}

/// What an operation is after.
#[derive(Clone, Copy, Debug, PartialEq, Eq, Structural)]
pub enum Plan {
    /// One checked call that must return an object.
    Object,
    /// One checked call that returns a boolean.
    Boolean,
    /// One checked call that returns nothing.
    Void,
    /// Boxing, at the lookup of the wrapper class.
    BoxClass,
    /// Boxing, at the lookup of the factory method.
    BoxFactory,
    /// Boxing, at the call of the factory method.
    BoxCall,
    /// The diagnosis of whatever exception is pending.
    Diagnose,
    /// The message of an exception.
    Message,
    /// One unchecked call that returns an object or null.
    Reference,
    /// The characters of a managed string.
    Chars,
    /// The release of the characters of a managed string.
    Release,
}

/// The entry point whose reply an operation awaits.
#[derive(Clone, Copy, Debug, PartialEq, Eq, Structural)]
pub enum Stage {
    /// The call the operation was opened for.
    Call,
    /// The exception check that follows that call.
    Check,
    /// The exception check that opens a diagnosis.
    Recheck,
    /// The fetch of the pending exception.
    Occurred,
    /// The lookup of the exception's class.
    MessageClass,
    /// The lookup of the message accessor.
    MessageMethod,
    /// The call of the message accessor.
    MessageCall,
    /// The read of the message's characters.
    MessageChars,
    /// The release of the message's characters.
    MessageRelease,
    /// The clearing of the pending exception.
    Clear,
}

impl Plan {
    /// Whether null in place of the result is a failure.
    pub open spec fn spec_wants_object(self) -> bool {
        self == Plan::Object || self == Plan::BoxClass || self == Plan::BoxFactory || self
            == Plan::BoxCall
    }

    #[verifier::when_used_as_spec(spec_wants_object)]
    pub fn wants_object(self) -> (wants: bool)
        ensures
            wants == self.spec_wants_object(),
    {
        match self {
            Plan::Object | Plan::BoxClass | Plan::BoxFactory | Plan::BoxCall => true,
            _ => false,
        }
    }
}

/// An operation of the call interface in progress.
#[derive(Debug, PartialEq, Eq)]
pub struct JniOp {
    pub plan: Plan,
    pub stage: Stage,
    /// What to report if the call in progress fails.
    pub message: String,
    /// What the call in progress returned.
    pub value: u64,
    /// The object whose message is being read.
    pub exception: u64,
    /// The managed string that holds the message.
    pub string: u64,
    /// The message as far as it was read.
    pub text: Option<String>,
    /// Wrapper class, factory signature and raw value of a boxing.
    pub class: u64,
    pub signature: String,
    pub arg: RawValue,
}

/// The mathematical content of a [`JniOp`].
pub struct JniOpView {
    pub plan: Plan,
    pub stage: Stage,
    pub message: Seq<char>,
    pub value: u64,
    pub exception: u64,
    pub string: u64,
    pub text: Option<Seq<char>>,
    pub class: u64,
    pub signature: Seq<char>,
    pub arg: RawValue,
}

impl View for JniOp {
    type V = JniOpView;

    open spec fn view(&self) -> JniOpView {
        JniOpView {
            plan: self.plan,
            stage: self.stage,
            message: self.message@,
            value: self.value,
            exception: self.exception,
            string: self.string,
            text: text_view(self.text),
            class: self.class,
            signature: self.signature@,
            arg: self.arg,
        }
    }
}

/// Where an operation of the call interface stands.
#[derive(Debug, PartialEq, Eq)]
pub enum JniPoll {
    /// The entry point to invoke next, and the operation that awaits its
    /// reply.
    Pending(JniOp, JniCall),
    /// The operation is over.
    Ready(Result<JniValue, Error>),
}

/// The mathematical content of a [`JniPoll`].
pub enum JniPollView {
    Pending(JniOpView, JniCallView),
    Ready(Result<JniValueView, ErrorView>),
}

impl View for JniPoll {
    type V = JniPollView;

    open spec fn view(&self) -> JniPollView {
        match self {
            JniPoll::Pending(op, call) => JniPollView::Pending(op@, call@),
            JniPoll::Ready(Ok(value)) => JniPollView::Ready(Ok(value@)),
            JniPoll::Ready(Err(e)) => JniPollView::Ready(Err(e@)),
        }
    }
}

/// Message of a class lookup that failed.
pub open spec fn class_missing(name: Seq<char>) -> Seq<char> {
    name + " class not found"@
}

/// Message of a static method lookup that failed.
pub open spec fn static_method_missing(method: Seq<char>, signature: Seq<char>) -> Seq<char> {
    method + " static method with signature "@ + signature + " not found"@
}

/// Message of an instance method lookup that failed.
pub open spec fn method_missing(method: Seq<char>, signature: Seq<char>) -> Seq<char> {
    method + " method with signature "@ + signature + " not found"@
}

/// Message of a static call that failed.
pub open spec fn static_call_failed(method: u64, class: u64) -> Seq<char> {
    "call to static method_id "@ + hex_text(method) + " on class "@ + hex_text(class) + " failed"@
}

/// Message of a failure during which an exception was pending: what was
/// attempted, then the exception's own message, or a fixed placeholder where
/// that could not be read.
pub open spec fn diagnosis(message: Seq<char>, text: Option<Seq<char>>) -> Seq<char> {
    message + ": "@ + match text {
        Some(t) => t,
        None => "BAD EXCEPTION MESSAGE"@,
    }
}

/// An operation at its first call.
pub open spec fn opening(plan: Plan, message: Seq<char>) -> JniOpView {
    JniOpView {
        plan,
        stage: Stage::Call,
        message,
        value: 0,
        exception: 0,
        string: 0,
        text: None,
        class: 0,
        signature: Seq::empty(),
        arg: RawValue::Object(0),
    }
}

/// The lookup of a static method: refused if the name or the signature
/// cannot be handed to the runtime, and otherwise a call that must return
/// the method.
pub open spec fn static_lookup(
    op: JniOpView,
    class: u64,
    name: Seq<char>,
    signature: Seq<char>,
) -> JniPollView {
    if contains_nul(name) || contains_nul(signature) {
        JniPollView::Ready(Err(interior_nul()))
    } else {
        JniPollView::Pending(
            JniOpView { stage: Stage::Call, message: static_method_missing(name, signature), ..op },
            JniCallView::GetStaticMethodID { class, name, signature },
        )
    }
}

/// The end of reading an exception's message. Asked for alone, the message
/// is the result. Inside a diagnosis, the pending exception is cleared next.
pub open spec fn message_read(op: JniOpView, text: Option<Seq<char>>) -> JniPollView {
    if op.plan == Plan::Message {
        JniPollView::Ready(Ok(JniValueView::Text(text)))
    } else {
        JniPollView::Pending(JniOpView { stage: Stage::Clear, text, ..op }, JniCallView::ExceptionClear)
    }
}

/// The exception check that follows a checked call which returned `value`.
pub open spec fn checking(op: JniOpView, value: u64) -> JniPollView {
    JniPollView::Pending(JniOpView { stage: Stage::Check, value, ..op }, JniCallView::ExceptionCheck)
}

/// The reply to the call an operation was opened for.
///
/// A checked call is followed by an exception check, whatever it returned.
/// An unchecked call ends the operation with what it returned.
pub open spec fn after_call(op: JniOpView, reply: JniReply) -> JniPollView {
    match (op.plan, reply) {
        (Plan::Object, JniReply::Handle(h)) => checking(op, h),
        (Plan::BoxClass, JniReply::Handle(h)) => checking(op, h),
        (Plan::BoxFactory, JniReply::Handle(h)) => checking(op, h),
        (Plan::BoxCall, JniReply::Handle(h)) => checking(op, h),
        (Plan::Boolean, JniReply::Boolean(b)) => checking(op, b as u64),
        (Plan::Void, JniReply::Void) => checking(op, 0),
        (Plan::Reference, JniReply::Handle(h)) => JniPollView::Ready(
            Ok(JniValueView::Reference(if h == 0 { None } else { Some(h) })),
        ),
        (Plan::Chars, JniReply::Chars { chars, bytes }) => JniPollView::Ready(
            Ok(JniValueView::Chars { chars, bytes: bytes@ }),
        ),
        (Plan::Release, JniReply::Void) => JniPollView::Ready(Ok(JniValueView::Unit)),
        _ => JniPollView::Ready(Err(unexpected_reply())),
    }
}

/// The reply to the exception check that follows a checked call.
///
/// The call failed if an exception is pending, or if it returned null where
/// an object was required; a diagnosis follows. Otherwise the call's result
/// is the operation's result, except in a boxing, where the class lookup is
/// followed by the factory lookup and that by the factory call.
pub open spec fn after_check(op: JniOpView, reply: JniReply) -> JniPollView {
    match reply {
        JniReply::Boolean(b) => {
            if b == JNI_TRUE || (op.plan.wants_object() && op.value == 0) {
                JniPollView::Pending(JniOpView { stage: Stage::Recheck, ..op }, JniCallView::ExceptionCheck)
            } else {
                match op.plan {
                    Plan::Object => JniPollView::Ready(Ok(JniValueView::Object(op.value))),
                    Plan::Boolean => JniPollView::Ready(Ok(JniValueView::Boolean(op.value != 0))),
                    Plan::Void => JniPollView::Ready(Ok(JniValueView::Unit)),
                    Plan::BoxClass => static_lookup(
                        JniOpView { plan: Plan::BoxFactory, class: op.value, ..op },
                        op.value,
                        "valueOf"@,
                        op.signature,
                    ),
                    Plan::BoxFactory => JniPollView::Pending(
                        JniOpView {
                            plan: Plan::BoxCall,
                            stage: Stage::Call,
                            message: static_call_failed(op.value, op.class),
                            ..op
                        },
                        JniCallView::CallStaticObjectMethod {
                            class: op.class,
                            method: op.value,
                            arg: op.arg,
                        },
                    ),
                    Plan::BoxCall => JniPollView::Ready(Ok(JniValueView::Object(op.value))),
                    _ => JniPollView::Ready(Err(unexpected_reply())),
                }
            }
        },
        _ => JniPollView::Ready(Err(unexpected_reply())),
    }
}

/// The reply to the exception check that opens a diagnosis.
///
/// With no exception pending there is nothing to diagnose: a diagnosis asked
/// for alone ends well, and a failed call ends with its own message. With
/// one pending, the exception is fetched.
pub open spec fn after_recheck(op: JniOpView, reply: JniReply) -> JniPollView {
    match reply {
        JniReply::Boolean(b) => {
            if b == JNI_TRUE {
                JniPollView::Pending(
                    JniOpView { stage: Stage::Occurred, ..op },
                    JniCallView::ExceptionOccurred,
                )
            } else if op.plan == Plan::Diagnose {
                JniPollView::Ready(Ok(JniValueView::Unit))
            } else {
                JniPollView::Ready(Err(ErrorView::Jni(op.message)))
            }
        },
        _ => JniPollView::Ready(Err(unexpected_reply())),
    }
}

/// The replies on the way to an exception's message: its class, the
/// accessor, the managed string, the characters. Null at any of the first
/// three means that the message cannot be read.
pub open spec fn after_message_step(op: JniOpView, reply: JniReply) -> JniPollView {
    match (op.stage, reply) {
        (Stage::Occurred, JniReply::Handle(exception)) => JniPollView::Pending(
            JniOpView { stage: Stage::MessageClass, exception, ..op },
            JniCallView::GetObjectClass { object: exception },
        ),
        (Stage::MessageClass, JniReply::Handle(class)) => if class == 0 {
            message_read(op, None)
        } else {
            JniPollView::Pending(
                JniOpView { stage: Stage::MessageMethod, ..op },
                JniCallView::GetMethodID {
                    class,
                    name: "getMessage"@,
                    signature: "()Ljava/lang/String;"@,
                },
            )
        },
        (Stage::MessageMethod, JniReply::Handle(method)) => if method == 0 {
            message_read(op, None)
        } else {
            JniPollView::Pending(
                JniOpView { stage: Stage::MessageCall, ..op },
                JniCallView::CallObjectMethod { object: op.exception, method },
            )
        },
        (Stage::MessageCall, JniReply::Handle(string)) => if string == 0 {
            message_read(op, None)
        } else {
            JniPollView::Pending(
                JniOpView { stage: Stage::MessageChars, string, ..op },
                JniCallView::GetStringUTFChars { string },
            )
        },
        (Stage::MessageChars, JniReply::Chars { chars, bytes }) => JniPollView::Pending(
            JniOpView { stage: Stage::MessageRelease, text: Some(utf8_lossy(bytes@)), ..op },
            JniCallView::ReleaseStringUTFChars { string: op.string, chars },
        ),
        (Stage::MessageRelease, JniReply::Void) => message_read(op, op.text),
        _ => JniPollView::Ready(Err(unexpected_reply())),
    }
}

/// The reply to the clearing of the pending exception: the operation ends
/// with the error that combines what was attempted with the exception's
/// message.
pub open spec fn after_clear(op: JniOpView, reply: JniReply) -> JniPollView {
    match reply {
        JniReply::Void => JniPollView::Ready(Err(ErrorView::Jni(diagnosis(op.message, op.text)))),
        _ => JniPollView::Ready(Err(unexpected_reply())),
    }
}

impl JniOpView {
    /// What an operation makes of the reply it awaits: the next entry point
    /// to invoke, or its result. A reply of a shape that the awaited entry
    /// point does not return ends the operation with an internal error.
    pub open spec fn resume(self, reply: JniReply) -> JniPollView {
        match self.stage {
            Stage::Call => after_call(self, reply),
            Stage::Check => after_check(self, reply),
            Stage::Recheck => after_recheck(self, reply),
            Stage::Clear => after_clear(self, reply),
            _ => after_message_step(self, reply),
        }
    }
}

impl JniOp {
    fn opening(plan: Plan, message: String) -> (op: JniOp)
        ensures
            op@ == opening(plan, message@),
    {
        JniOp {
            plan,
            stage: Stage::Call,
            message,
            value: 0,
            exception: 0,
            string: 0,
            text: None,
            class: 0,
            signature: String::new(),
            arg: RawValue::Object(0),
        }
    }

    fn static_lookup(self, class: u64, name: &str, signature: &str) -> (poll: JniPoll)
        ensures
            poll@ == static_lookup(self@, class, name@, signature@),
    {
        if has_nul(name) || has_nul(signature) {
            return JniPoll::Ready(Err(Error::interior_nul()));
        }
        let message = String::from_str(name).concat(" static method with signature ").concat(
            signature,
        ).concat(" not found");
        JniPoll::Pending(
            JniOp { stage: Stage::Call, message, ..self },
            JniCall::GetStaticMethodID {
                class,
                name: String::from_str(name),
                signature: String::from_str(signature),
            },
        )
    }

    fn checking(self, value: u64) -> (poll: JniPoll)
        ensures
            poll@ == checking(self@, value),
    {
        JniPoll::Pending(JniOp { stage: Stage::Check, value, ..self }, JniCall::ExceptionCheck)
    }

    fn message_read(self, text: Option<String>) -> (poll: JniPoll)
        ensures
            poll@ == message_read(self@, text_view(text)),
    {
        if matches!(self.plan, Plan::Message) {
            JniPoll::Ready(Ok(JniValue::Text(text)))
        } else {
            JniPoll::Pending(JniOp { stage: Stage::Clear, text, ..self }, JniCall::ExceptionClear)
        }
    }

    fn after_call(self, reply: JniReply) -> (poll: JniPoll)
        ensures
            poll@ == after_call(self@, reply),
    {
        match reply {
            JniReply::Handle(h) => match self.plan {
                Plan::Object | Plan::BoxClass | Plan::BoxFactory | Plan::BoxCall => self.checking(h),
                Plan::Reference => JniPoll::Ready(
                    Ok(JniValue::Reference(if h == 0 { None } else { Some(h) })),
                ),
                _ => JniPoll::Ready(Err(Error::unexpected_reply())),
            },
            JniReply::Boolean(b) => match self.plan {
                Plan::Boolean => self.checking(b as u64),
                _ => JniPoll::Ready(Err(Error::unexpected_reply())),
            },
            JniReply::Void => match self.plan {
                Plan::Void => self.checking(0),
                Plan::Release => JniPoll::Ready(Ok(JniValue::Unit)),
                _ => JniPoll::Ready(Err(Error::unexpected_reply())),
            },
            JniReply::Chars { chars, bytes } => match self.plan {
                Plan::Chars => JniPoll::Ready(Ok(JniValue::Chars { chars, bytes })),
                _ => JniPoll::Ready(Err(Error::unexpected_reply())),
            },
        }
    }

    fn after_check(self, reply: JniReply) -> (poll: JniPoll)
        ensures
            poll@ == after_check(self@, reply),
    {
        let pending = match reply {
            JniReply::Boolean(b) => b == JNI_TRUE,
            _ => {
                return JniPoll::Ready(Err(Error::unexpected_reply()));
            },
        };
        if pending || (self.plan.wants_object() && self.value == 0) {
            return JniPoll::Pending(JniOp { stage: Stage::Recheck, ..self }, JniCall::ExceptionCheck);
        }
        let value = self.value;
        match self.plan {
            Plan::Object => JniPoll::Ready(Ok(JniValue::Object(value))),
            Plan::Boolean => JniPoll::Ready(Ok(JniValue::Boolean(value != 0))),
            Plan::Void => JniPoll::Ready(Ok(JniValue::Unit)),
            Plan::BoxClass => {
                let signature = self.signature.clone();
                let next = JniOp { plan: Plan::BoxFactory, class: value, ..self };
                next.static_lookup(value, "valueOf", signature.as_str())
            },
            Plan::BoxFactory => {
                let class = self.class;
                let arg = self.arg;
                let message = String::from_str("call to static method_id ").concat(
                    hex(value).as_str(),
                ).concat(" on class ").concat(hex(class).as_str()).concat(" failed");
                JniPoll::Pending(
                    JniOp { plan: Plan::BoxCall, stage: Stage::Call, message, ..self },
                    JniCall::CallStaticObjectMethod { class, method: value, arg },
                )
            },
            Plan::BoxCall => JniPoll::Ready(Ok(JniValue::Object(value))),
            _ => JniPoll::Ready(Err(Error::unexpected_reply())),
        }
    }

    fn after_recheck(self, reply: JniReply) -> (poll: JniPoll)
        ensures
            poll@ == after_recheck(self@, reply),
    {
        match reply {
            JniReply::Boolean(b) => {
                if b == JNI_TRUE {
                    JniPoll::Pending(JniOp { stage: Stage::Occurred, ..self }, JniCall::ExceptionOccurred)
                } else if matches!(self.plan, Plan::Diagnose) {
                    JniPoll::Ready(Ok(JniValue::Unit))
                } else {
                    JniPoll::Ready(Err(Error::Jni(self.message)))
                }
            },
            _ => JniPoll::Ready(Err(Error::unexpected_reply())),
        }
    }

    fn after_message_step(self, reply: JniReply) -> (poll: JniPoll)
        ensures
            poll@ == after_message_step(self@, reply),
    {
        match reply {
            JniReply::Handle(h) => match self.stage {
                Stage::Occurred => JniPoll::Pending(
                    JniOp { stage: Stage::MessageClass, exception: h, ..self },
                    JniCall::GetObjectClass { object: h },
                ),
                Stage::MessageClass => if h == 0 {
                    self.message_read(None)
                } else {
                    JniPoll::Pending(
                        JniOp { stage: Stage::MessageMethod, ..self },
                        JniCall::GetMethodID {
                            class: h,
                            name: String::from_str("getMessage"),
                            signature: String::from_str("()Ljava/lang/String;"),
                        },
                    )
                },
                Stage::MessageMethod => if h == 0 {
                    self.message_read(None)
                } else {
                    let object = self.exception;
                    JniPoll::Pending(
                        JniOp { stage: Stage::MessageCall, ..self },
                        JniCall::CallObjectMethod { object, method: h },
                    )
                },
                Stage::MessageCall => if h == 0 {
                    self.message_read(None)
                } else {
                    JniPoll::Pending(
                        JniOp { stage: Stage::MessageChars, string: h, ..self },
                        JniCall::GetStringUTFChars { string: h },
                    )
                },
                _ => JniPoll::Ready(Err(Error::unexpected_reply())),
            },
            JniReply::Chars { chars, bytes } => match self.stage {
                Stage::MessageChars => {
                    let string = self.string;
                    JniPoll::Pending(
                        JniOp { stage: Stage::MessageRelease, text: Some(lossy(&bytes)), ..self },
                        JniCall::ReleaseStringUTFChars { string, chars },
                    )
                },
                _ => JniPoll::Ready(Err(Error::unexpected_reply())),
            },
            JniReply::Void => match self.stage {
                Stage::MessageRelease => {
                    let text = match &self.text {
                        Some(t) => Some(t.clone()),
                        None => None,
                    };
                    self.message_read(text)
                },
                _ => JniPoll::Ready(Err(Error::unexpected_reply())),
            },
            _ => JniPoll::Ready(Err(Error::unexpected_reply())),
        }
    }

    fn after_clear(self, reply: JniReply) -> (poll: JniPoll)
        ensures
            poll@ == after_clear(self@, reply),
    {
        match reply {
            JniReply::Void => {
                let message = self.message.concat(": ");
                let message = match self.text {
                    Some(t) => message.concat(t.as_str()),
                    None => message.concat("BAD EXCEPTION MESSAGE"),
                };
                JniPoll::Ready(Err(Error::Jni(message)))
            },
            _ => JniPoll::Ready(Err(Error::unexpected_reply())),
        }
    }

    /// Takes the reply of the entry point that is outstanding, and says what
    /// follows: the next entry point to invoke, or the operation's result.
    pub fn resume(self, reply: JniReply) -> (poll: JniPoll)
        ensures
            poll@ == self@.resume(reply),
    {
        match self.stage {
            Stage::Call => self.after_call(reply),
            Stage::Check => self.after_check(reply),
            Stage::Recheck => self.after_recheck(reply),
            Stage::Clear => self.after_clear(reply),
            _ => self.after_message_step(reply),
        }
    }
}

/// The first step of a checked call: the entry point to invoke, and an
/// operation that reports `message` if the call fails.
pub open spec fn checked(plan: Plan, message: Seq<char>, call: JniCallView) -> JniPollView {
    JniPollView::Pending(opening(plan, message), call)
}

/// The call interface of the runtime, as handed to an event handler. It
/// belongs to the thread that received it and must not outlive the handler.
#[derive(Clone, Copy, Debug, PartialEq, Eq, Structural)]
pub struct JniEnv {
    pub jni: u64,
}

impl JniEnv {
    /// Wraps the call interface handed to an event handler.
    pub fn new(jni_env: u64) -> (env: JniEnv)
        ensures
            env.jni == jni_env,
    {
        JniEnv { jni: jni_env }
    }

    /// Calls an instance method that returns an object, without checking for
    /// an exception. The operation ends with the object, or with nothing if
    /// the call returned null.
    pub fn call_object_method_internal(&mut self, object: u64, method_id: u64) -> (poll: JniPoll)
        ensures
            *final(self) == *old(self),
            poll@ == checked(
                Plan::Reference,
                Seq::empty(),
                JniCallView::CallObjectMethod { object, method: method_id },
            ),
    {
        JniPoll::Pending(
            JniOp::opening(Plan::Reference, String::new()),
            JniCall::CallObjectMethod { object, method: method_id },
        )
    }

    /// Calls a static method that takes one raw value and returns an object.
    /// Fails if an exception is pending afterwards or the result is null.
    pub fn call_static_object_method(&mut self, class: u64, method_id: u64, arg: RawValue) -> (poll:
        JniPoll)
        ensures
            *final(self) == *old(self),
            poll@ == checked(
                Plan::Object,
                static_call_failed(method_id, class),
                JniCallView::CallStaticObjectMethod { class, method: method_id, arg },
            ),
    {
        JniPoll::Pending(
            JniOp::opening(Plan::Object, static_call_message(method_id, class)),
            JniCall::CallStaticObjectMethod { class, method: method_id, arg },
        )
    }

    /// Calls a static method that takes an object and an `int` and returns a
    /// boolean. Fails if an exception is pending afterwards.
    pub fn call_static_LI_Z_method(&mut self, class: u64, method_id: u64, arg1: u64, arg2: i32) -> (poll:
        JniPoll)
        ensures
            *final(self) == *old(self),
            poll@ == checked(
                Plan::Boolean,
                static_call_failed(method_id, class),
                JniCallView::CallStaticBooleanMethod { class, method: method_id, arg1, arg2 },
            ),
    {
        JniPoll::Pending(
            JniOp::opening(Plan::Boolean, static_call_message(method_id, class)),
            JniCall::CallStaticBooleanMethod { class, method: method_id, arg1, arg2 },
        )
    }

    /// Calls a static method that takes an object and an array and returns
    /// nothing. Fails if an exception is pending afterwards.
    pub fn call_static_LAL_V_method(&mut self, class: u64, method_id: u64, arg1: u64, arg2: u64) -> (poll:
        JniPoll)
        ensures
            *final(self) == *old(self),
            poll@ == checked(
                Plan::Void,
                static_call_failed(method_id, class),
                JniCallView::CallStaticVoidMethod { class, method: method_id, arg1, arg2 },
            ),
    {
        JniPoll::Pending(
            JniOp::opening(Plan::Void, static_call_message(method_id, class)),
            JniCall::CallStaticVoidMethod { class, method: method_id, arg1, arg2 },
        )
    }

    /// Looks a class up by its binary name. Refused at once if the name
    /// cannot be handed to the runtime; fails if the lookup returns null or
    /// leaves an exception pending.
    pub fn find_class(&mut self, class_name: &str) -> (poll: JniPoll)
        ensures
            *final(self) == *old(self),
            poll@ == class_lookup(Plan::Object, class_name@),
    {
        look_up_class(Plan::Object, class_name)
    }

    /// Looks up a static method of `class` by name and signature.
    pub fn get_static_method_id(&mut self, class: u64, method: &str, signature: &str) -> (poll: JniPoll)
        ensures
            *final(self) == *old(self),
            poll@ == static_lookup(opening(Plan::Object, Seq::empty()), class, method@, signature@),
    {
        JniOp::opening(Plan::Object, String::new()).static_lookup(class, method, signature)
    }

    /// Constructs an object from a string and an object.
    pub fn new_object_StringL(&mut self, class: u64, ctor: u64, arg1: u64, arg2: u64) -> (poll: JniPoll)
        ensures
            *final(self) == *old(self),
            poll@ == checked(
                Plan::Object,
                "object creation failed [StringL]"@,
                JniCallView::NewObject { class, ctor, arg1, arg2 },
            ),
    {
        JniPoll::Pending(
            JniOp::opening(Plan::Object, String::from_str("object creation failed [StringL]")),
            JniCall::NewObject { class, ctor, arg1, arg2 },
        )
    }

    /// Constructs an object from an object and an array.
    pub fn new_object_LAL(&mut self, class: u64, ctor: u64, arg1: u64, arg2: u64) -> (poll: JniPoll)
        ensures
            *final(self) == *old(self),
            poll@ == checked(
                Plan::Object,
                "object creation failed [LAL]"@,
                JniCallView::NewObject { class, ctor, arg1, arg2 },
            ),
    {
        JniPoll::Pending(
            JniOp::opening(Plan::Object, String::from_str("object creation failed [LAL]")),
            JniCall::NewObject { class, ctor, arg1, arg2 },
        )
    }

    /// Creates an array of `length` elements of `class`, each set to `init`.
    pub fn new_object_array(&mut self, length: i32, class: u64, init: u64) -> (poll: JniPoll)
        ensures
            *final(self) == *old(self),
            poll@ == checked(
                Plan::Object,
                "object array creation failed"@,
                JniCallView::NewObjectArray { length, class, init },
            ),
    {
        JniPoll::Pending(
            JniOp::opening(Plan::Object, String::from_str("object array creation failed")),
            JniCall::NewObjectArray { length, class, init },
        )
    }

    /// Stores `val` at `index` of `array`.
    pub fn set_object_array_element(&mut self, array: u64, index: i32, val: u64) -> (poll: JniPoll)
        ensures
            *final(self) == *old(self),
            poll@ == checked(
                Plan::Void,
                "object array element set failed"@,
                JniCallView::SetObjectArrayElement { array, index, value: val },
            ),
    {
        JniPoll::Pending(
            JniOp::opening(Plan::Void, String::from_str("object array element set failed")),
            JniCall::SetObjectArrayElement { array, index, value: val },
        )
    }

    /// Looks up an instance method of `class` by name and signature.
    pub fn get_method_id(&mut self, class: u64, method: &str, signature: &str) -> (poll: JniPoll)
        ensures
            *final(self) == *old(self),
            poll@ == method_lookup(class, method@, signature@),
    {
        if has_nul(method) || has_nul(signature) {
            return JniPoll::Ready(Err(Error::interior_nul()));
        }
        let message = String::from_str(method).concat(" method with signature ").concat(
            signature,
        ).concat(" not found");
        JniPoll::Pending(
            JniOp::opening(Plan::Object, message),
            JniCall::GetMethodID {
                class,
                name: String::from_str(method),
                signature: String::from_str(signature),
            },
        )
    }

    /// Reads the message of the exception `exc`: finds its class, resolves
    /// the message accessor, calls it and copies the characters of what it
    /// returns. The operation ends with nothing if any of these yields null.
    pub fn get_exception_message(&mut self, exc: u64) -> (poll: JniPoll)
        ensures
            *final(self) == *old(self),
            poll@ == JniPollView::Pending(
                JniOpView { stage: Stage::MessageClass, exception: exc, ..opening(
                    Plan::Message,
                    Seq::empty(),
                ) },
                JniCallView::GetObjectClass { object: exc },
            ),
    {
        JniPoll::Pending(
            JniOp { stage: Stage::MessageClass, exception: exc, ..JniOp::opening(
                Plan::Message,
                String::new(),
            ) },
            JniCall::GetObjectClass { object: exc },
        )
    }

    /// Calls an instance method that returns a string and copies its
    /// characters. The operation ends with nothing if the call returns null.
    pub fn call_object_method_returning_string(&mut self, obj: u64, method: u64) -> (poll: JniPoll)
        ensures
            *final(self) == *old(self),
            poll@ == JniPollView::Pending(
                JniOpView { stage: Stage::MessageCall, exception: obj, ..opening(
                    Plan::Message,
                    Seq::empty(),
                ) },
                JniCallView::CallObjectMethod { object: obj, method },
            ),
    {
        JniPoll::Pending(
            JniOp { stage: Stage::MessageCall, exception: obj, ..JniOp::opening(
                Plan::Message,
                String::new(),
            ) },
            JniCall::CallObjectMethod { object: obj, method },
        )
    }

    /// Translates whatever exception is pending into an error and clears
    /// it. With none pending the operation ends well and changes nothing.
    /// Otherwise it ends with an error that combines `message` with the
    /// exception's own message, after the exception has been cleared.
    pub fn diagnose_exception(&mut self, message: &str) -> (poll: JniPoll)
        ensures
            *final(self) == *old(self),
            poll@ == JniPollView::Pending(
                JniOpView { stage: Stage::Recheck, ..opening(Plan::Diagnose, message@) },
                JniCallView::ExceptionCheck,
            ),
    {
        JniPoll::Pending(
            JniOp { stage: Stage::Recheck, ..JniOp::opening(Plan::Diagnose, String::from_str(message)) },
            JniCall::ExceptionCheck,
        )
    }

    /// Reads the characters of the managed string `s`.
    pub fn get_string_utf_chars(&mut self, s: u64) -> (poll: JniPoll)
        ensures
            *final(self) == *old(self),
            poll@ == checked(Plan::Chars, Seq::empty(), JniCallView::GetStringUTFChars { string: s }),
    {
        JniPoll::Pending(
            JniOp::opening(Plan::Chars, String::new()),
            JniCall::GetStringUTFChars { string: s },
        )
    }

    /// Releases characters read from the managed string `s`.
    pub fn release_string_utf_chars(&mut self, s: u64, utf_chars: u64) -> (poll: JniPoll)
        ensures
            *final(self) == *old(self),
            poll@ == checked(
                Plan::Release,
                Seq::empty(),
                JniCallView::ReleaseStringUTFChars { string: s, chars: utf_chars },
            ),
    {
        JniPoll::Pending(
            JniOp::opening(Plan::Release, String::new()),
            JniCall::ReleaseStringUTFChars { string: s, chars: utf_chars },
        )
    }

    /// Creates a managed string from the characters in a native buffer.
    pub fn new_string_utf(&mut self, utf_chars: u64) -> (poll: JniPoll)
        ensures
            *final(self) == *old(self),
            poll@ == checked(
                Plan::Object,
                "new string utf failed"@,
                JniCallView::NewStringUTF { chars: utf_chars },
            ),
    {
        JniPoll::Pending(
            JniOp::opening(Plan::Object, String::from_str("new string utf failed")),
            JniCall::NewStringUTF { chars: utf_chars },
        )
    }

    /// Asks for the reflective handle of `method`, declared by
    /// `method_class`.
    pub fn get_reflected_method(&mut self, method_class: u64, method: u64, is_static: bool) -> (poll:
        JniPoll)
        ensures
            *final(self) == *old(self),
            poll@ == checked(
                Plan::Object,
                "new string utf failed"@,
                JniCallView::ToReflectedMethod { class: method_class, method, is_static },
            ),
    {
        JniPoll::Pending(
            JniOp::opening(Plan::Object, String::from_str("new string utf failed")),
            JniCall::ToReflectedMethod { class: method_class, method, is_static },
        )
    }

    /// Boxes a raw value: looks the wrapper class up by name, resolves its
    /// `valueOf` factory by signature, and calls it with the value. All
    /// primitive kinds share this one path.
    pub fn value_of(&mut self, class: &str, signature: &str, val: RawValue) -> (poll: JniPoll)
        ensures
            *final(self) == *old(self),
            poll@ == boxing(class@, signature@, val),
    {
        match look_up_class(Plan::BoxClass, class) {
            JniPoll::Pending(op, call) => JniPoll::Pending(
                JniOp { signature: String::from_str(signature), arg: val, ..op },
                call,
            ),
            ready => ready,
        }
    }
}

/// The first step of a class lookup.
pub open spec fn class_lookup(plan: Plan, name: Seq<char>) -> JniPollView {
    if contains_nul(name) {
        JniPollView::Ready(Err(interior_nul()))
    } else {
        checked(plan, class_missing(name), JniCallView::FindClass { name })
    }
}

/// The first step of an instance method lookup.
pub open spec fn method_lookup(class: u64, name: Seq<char>, signature: Seq<char>) -> JniPollView {
    if contains_nul(name) || contains_nul(signature) {
        JniPollView::Ready(Err(interior_nul()))
    } else {
        checked(
            Plan::Object,
            method_missing(name, signature),
            JniCallView::GetMethodID { class, name, signature },
        )
    }
}

/// The first step of a boxing: the lookup of the wrapper class, by an
/// operation that remembers the factory's signature and the value to box.
pub open spec fn boxing(class: Seq<char>, signature: Seq<char>, val: RawValue) -> JniPollView {
    if contains_nul(class) {
        JniPollView::Ready(Err(interior_nul()))
    } else {
        JniPollView::Pending(
            JniOpView { signature, arg: val, ..opening(Plan::BoxClass, class_missing(class)) },
            JniCallView::FindClass { name: class },
        )
    }
}

fn look_up_class(plan: Plan, name: &str) -> (poll: JniPoll)
    ensures
        poll@ == class_lookup(plan, name@),
{
    if has_nul(name) {
        return JniPoll::Ready(Err(Error::interior_nul()));
    }
    let message = String::from_str(name).concat(" class not found");
    JniPoll::Pending(JniOp::opening(plan, message), JniCall::FindClass { name: String::from_str(name) })
}

fn static_call_message(method: u64, class: u64) -> (message: String)
    ensures
        message@ == static_call_failed(method, class),
{
    String::from_str("call to static method_id ").concat(hex(method).as_str()).concat(
        " on class ",
    ).concat(hex(class).as_str()).concat(" failed")
}

/// No operation ends in a managed failure while an exception is pending.
///
/// An operation ends in such a failure at two points only. Either the
/// runtime has just answered that no exception is pending, and the error
/// carries what was attempted. Or the runtime has just cleared the pending
/// exception, and the error carries what was attempted together with the
/// exception's message, or the placeholder where that could not be read.
pub proof fn law_failure_leaves_nothing_pending(op: JniOpView, reply: JniReply, message: Seq<char>)
    requires
        op.resume(reply) == JniPollView::Ready(Err(ErrorView::Jni(message))),
    ensures
        ({
            ||| op.stage == Stage::Recheck && message == op.message && (reply matches JniReply::Boolean(b)
                && b != JNI_TRUE)
            ||| op.stage == Stage::Clear && reply is Void && message == diagnosis(op.message, op.text)
        }),
{
}

/// Once an exception has been found pending, a diagnosis leads to its
/// clearing.
///
/// From the fetch of the exception to the release of its message, every
/// reply of the shape that the awaited entry point returns either takes the
/// diagnosis one step further or makes it ask for the clearing; it never
/// ends the operation, and it does not change what the operation reports.
pub proof fn law_diagnosis_reaches_clearing(op: JniOpView, reply: JniReply)
    requires
        op.plan != Plan::Message,
        match op.stage {
            Stage::Occurred | Stage::MessageClass | Stage::MessageMethod | Stage::MessageCall => reply
                is Handle,
            Stage::MessageChars => reply is Chars,
            Stage::MessageRelease => reply is Void,
            _ => false,
        },
    ensures
        op.resume(reply) matches JniPollView::Pending(next, call) && next.message == op.message
            && next.plan == op.plan && (next.stage == Stage::Clear <==> call
            == JniCallView::ExceptionClear) && (next.stage == Stage::Clear || next.stage
            == Stage::MessageClass || next.stage == Stage::MessageMethod || next.stage
            == Stage::MessageCall || next.stage == Stage::MessageChars || next.stage
            == Stage::MessageRelease),
{
}

/// Whether `reply` is of the shape that the call of a checked operation
/// returns.
pub open spec fn answers(plan: Plan, reply: JniReply) -> bool {
    match plan {
        Plan::Object => reply is Handle,
        Plan::Boolean => reply is Boolean,
        Plan::Void => reply is Void,
        _ => false,
    }
}

/// What a checked operation returns when its call has returned `reply` and
/// has not failed.
pub open spec fn returned(reply: JniReply) -> JniValueView {
    match reply {
        JniReply::Handle(object) => JniValueView::Object(object),
        JniReply::Boolean(byte) => JniValueView::Boolean(byte != 0),
        _ => JniValueView::Unit,
    }
}

/// A checked call succeeds if and only if it leaves no exception pending
/// and returns no null where an object is required.
///
/// The call is always followed by an exception check. If the check finds
/// nothing pending, and the call has not returned null for an object, the
/// operation ends with what the call returned: the object, the boolean
/// (any byte but zero is true), or nothing. Otherwise a diagnosis follows,
/// which starts with another exception check; if that one finds nothing
/// pending, the operation ends with the error that carries what was
/// attempted, and if it finds an exception, the exception is fetched.
pub proof fn law_checked_call(plan: Plan, message: Seq<char>, reply: JniReply, first: u8, second: u8)
    requires
        answers(plan, reply),
    ensures
        ({
            let checking = opening(plan, message).resume(reply);
            let checked = checking->Pending_0.resume(JniReply::Boolean(first));
            let diagnosed = checked->Pending_0.resume(JniReply::Boolean(second));
            &&& checking matches JniPollView::Pending(_, call) && call == JniCallView::ExceptionCheck
            &&& if first != JNI_TRUE && reply != JniReply::Handle(0) {
                checked == JniPollView::Ready(Ok(returned(reply)))
            } else {
                &&& checked matches JniPollView::Pending(_, call) && call
                    == JniCallView::ExceptionCheck
                &&& if second != JNI_TRUE {
                    diagnosed == JniPollView::Ready(Err(ErrorView::Jni(message)))
                } else {
                    diagnosed matches JniPollView::Pending(_, call) && call
                        == JniCallView::ExceptionOccurred
                }
            }
        }),
{
}

/// A bound on the number of replies an operation still takes.
pub open spec fn replies_left(op: JniOpView) -> nat {
    match op.stage {
        Stage::Clear => 1,
        Stage::MessageRelease => 2,
        Stage::MessageChars => 3,
        Stage::MessageCall => 4,
        Stage::MessageMethod => 5,
        Stage::MessageClass => 6,
        Stage::Occurred => 7,
        Stage::Recheck => 8,
        Stage::Check => 9 + calls_left(op.plan),
        Stage::Call => 10 + calls_left(op.plan),
    }
}

/// The replies that a boxing takes for the calls that are still to come.
pub open spec fn calls_left(plan: Plan) -> nat {
    match plan {
        Plan::BoxClass => 4,
        Plan::BoxFactory => 2,
        _ => 0,
    }
}

/// Every operation ends.
///
/// Whenever an operation goes on after a reply, it is nearer to its end by
/// at least one reply. So no operation takes more than fourteen replies,
/// and none but a boxing more than ten.
pub proof fn law_operation_ends(op: JniOpView, reply: JniReply)
    ensures
        op.resume(reply) matches JniPollView::Pending(next, _) ==> replies_left(next) < replies_left(
            op,
        ),
        replies_left(op) <= 14,
        op.plan != Plan::BoxClass && op.plan != Plan::BoxFactory ==> replies_left(op) <= 10,
{
}

} // verus!

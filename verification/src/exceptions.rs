//! The capture of a thrown exception.
//!
//! When an exception is thrown, the agent asks the managed side whether it
//! is worth keeping. If so it walks the stack of the throwing thread, builds
//! one frame record per frame, with one local record per entry of the
//! frame's local variable table, and hands the records to the managed side.
//!
//! A capture is a sequence of operations on the two interfaces. [`Capture`]
//! holds what has been learnt so far and the operation in progress; each
//! reply from the runtime moves it on, and it answers with the entry point
//! to invoke next or with the capture's result.
use crate::env::{
    read_call, DebugCall, DebugOp, DebugPoll, DebugPollView, DebugReply, DebugValue, JvmTiEnv,
};
use crate::errors::{bad_signature, unexpected_reply, Error, ErrorView};
use crate::jni::{
    boxing, checked, class_lookup, method_lookup, opening, static_call_failed, static_lookup,
    JniCall, JniCallView, JniEnv, JniOp, JniOpView, JniPoll, JniPollView, JniReply, JniValue,
    JniValueView, Plan,
};
use crate::text::{contains_nul, lemma_plain_text_has_no_nul};
use crate::values::{LocalVariableEntry, RawValue, StackFrame};
use vstd::prelude::*;

verus! {

/// The managed class that decides on and stores captures.
pub const CACHE_CLASS: &'static str = "com/rollbar/jvmti/ThrowableCache";

/// Its decision method, which takes the exception and the depth of the
/// stack.
pub const SHOULD_CACHE: &'static str = "shouldCacheThrowable";

pub const SHOULD_CACHE_SIGNATURE: &'static str = "(Ljava/lang/Throwable;I)Z";

/// Its store method, which takes the exception and the frame records.
pub const CACHE_ADD: &'static str = "add";

pub const CACHE_ADD_SIGNATURE: &'static str =
    "(Ljava/lang/Throwable;[Lcom/rollbar/jvmti/CacheFrame;)V";

/// The managed class of frame records, made from a reflective method and an
/// array of local records.
pub const FRAME_CLASS: &'static str = "com/rollbar/jvmti/CacheFrame";

pub const FRAME_CONSTRUCTOR_SIGNATURE: &'static str =
    "(Ljava/lang/reflect/Method;[Lcom/rollbar/jvmti/LocalVariable;)V";

/// The managed class of local records, made from a name and a value that
/// may be null.
pub const LOCAL_CLASS: &'static str = "com/rollbar/jvmti/LocalVariable";

pub const LOCAL_CONSTRUCTOR_SIGNATURE: &'static str = "(Ljava/lang/String;Ljava/lang/Object;)V";

/// The name under which the runtime knows constructors.
pub const CONSTRUCTOR: &'static str = "<init>";

/// The operation whose result a capture awaits.
#[derive(Clone, Copy, Debug, PartialEq, Eq, Structural)]
pub enum Step {
    /// Looking up the cache class.
    CacheClass,
    /// Looking up the decision method.
    ShouldCache,
    /// Counting the frames of the thread.
    FrameCount,
    /// Asking the decision method.
    Policy,
    /// Looking up the store method.
    CacheAdd,
    /// Walking the stack.
    StackTrace,
    /// Looking up the class of frame records.
    FrameClass,
    /// Creating the array of frame records.
    FrameArray,
    /// Fetching the local variable table of the frame's method.
    Table,
    /// Looking up the class of local records.
    LocalClass,
    /// Looking up the constructor of local records.
    LocalConstructor,
    /// Creating the array of local records.
    LocalArray,
    /// Creating the managed string of an entry's name.
    LocalName,
    /// Reading the slot of a live entry.
    LocalRead,
    /// Boxing what was read.
    LocalBox,
    /// Constructing the local record.
    LocalObject,
    /// Storing the local record in its array.
    LocalStore,
    /// Asking for the class that declares the frame's method.
    DeclaringClass,
    /// Asking for the reflective handle of the frame's method.
    Reflected,
    /// Looking up the class of frame records, to construct one.
    FrameConstructorClass,
    /// Looking up the constructor of frame records.
    FrameConstructor,
    /// Constructing the frame record.
    FrameObject,
    /// Releasing the name of an entry.
    ReleaseName,
    /// Releasing the signature of an entry.
    ReleaseSignature,
    /// Releasing the generic signature of an entry.
    ReleaseGeneric,
    /// Releasing the table itself.
    ReleaseTable,
    /// Storing the frame record in its array.
    FrameStore,
    /// Handing the frame records to the store method.
    Store,
    /// The capture is over.
    Finished,
}

/// A reply from the runtime, by the interface it came from.
#[derive(Debug, PartialEq, Eq)]
pub enum Reply {
    Debug(DebugReply),
    Managed(JniReply),
}

/// What a capture asks for next.
#[derive(Debug, PartialEq, Eq)]
pub enum Action {
    /// Invoke an entry point of the debug interface.
    Debug(DebugCall),
    /// Invoke an entry point of the call interface.
    Managed(JniCall),
    /// Nothing: the capture is over, with this result.
    Finished(Result<(), Error>),
}

/// The mathematical content of an [`Action`].
pub enum ActionView {
    Debug(DebugCall),
    Managed(JniCallView),
    Finished(Result<(), ErrorView>),
}

impl View for Action {
    type V = ActionView;

    open spec fn view(&self) -> ActionView {
        match self {
            Action::Debug(call) => ActionView::Debug(*call),
            Action::Managed(call) => ActionView::Managed(call@),
            Action::Finished(Ok(_)) => ActionView::Finished(Ok(())),
            Action::Finished(Err(e)) => ActionView::Finished(Err(e@)),
        }
    }
}

/// The operation in progress.
#[derive(Debug, PartialEq, Eq)]
pub enum Exchange {
    Idle,
    Debug(DebugOp),
    Managed(JniOp),
}

/// The mathematical content of an [`Exchange`].
pub enum ExchangeView {
    Idle,
    Debug(DebugOp),
    Managed(JniOpView),
}

impl View for Exchange {
    type V = ExchangeView;

    open spec fn view(&self) -> ExchangeView {
        match self {
            Exchange::Idle => ExchangeView::Idle,
            Exchange::Debug(op) => ExchangeView::Debug(*op),
            Exchange::Managed(op) => ExchangeView::Managed(op@),
        }
    }
}

/// How an operation ended.
#[derive(Debug, PartialEq, Eq)]
pub enum Outcome {
    Debug(DebugValue),
    Managed(JniValue),
    Failed(Error),
}

/// The mathematical content of an [`Outcome`].
pub enum OutcomeView {
    Debug(DebugValue),
    Managed(JniValueView),
    Failed(ErrorView),
}

impl View for Outcome {
    type V = OutcomeView;

    open spec fn view(&self) -> OutcomeView {
        match self {
            Outcome::Debug(value) => OutcomeView::Debug(*value),
            Outcome::Managed(value) => OutcomeView::Managed(value@),
            Outcome::Failed(e) => OutcomeView::Failed(e@),
        }
    }
}

impl OutcomeView {
    /// The error of a failed operation, and the error for an outcome of a
    /// shape that the operation does not have.
    pub open spec fn error(self) -> ErrorView {
        match self {
            OutcomeView::Failed(e) => e,
            _ => unexpected_reply(),
        }
    }

    /// The object an operation ended with.
    pub open spec fn object(self) -> Option<u64> {
        match self {
            OutcomeView::Managed(JniValueView::Object(object)) => Some(object),
            _ => None,
        }
    }

    /// Whether an operation without a result ended well.
    pub open spec fn done(self) -> bool {
        self == OutcomeView::Managed(JniValueView::Unit)
    }

    /// The boolean an operation ended with.
    pub open spec fn boolean(self) -> Option<bool> {
        match self {
            OutcomeView::Managed(JniValueView::Boolean(b)) => Some(b),
            _ => None,
        }
    }
}

/// The outcome of assembling a frame record, in mathematical terms.
pub open spec fn gathered_view(gathered: Option<Result<u64, Error>>) -> Option<Result<u64, ErrorView>> {
    match gathered {
        Some(Ok(frame)) => Some(Ok(frame)),
        Some(Err(e)) => Some(Err(e@)),
        None => None,
    }
}

/// A capture in progress: the handles and values learnt so far, and the
/// operation whose result is awaited.
#[derive(Debug, PartialEq, Eq)]
pub struct Capture {
    pub jvmti_env: JvmTiEnv,
    pub jni_env: JniEnv,
    /// The thread that threw.
    pub thread: u64,
    /// What it threw.
    pub exception: u64,
    pub stage: Step,
    pub exchange: Exchange,
    pub cache_class: u64,
    pub should_cache: u64,
    pub num_frames: i32,
    pub cache_add: u64,
    /// The frames of the walk, innermost first, and the one being built.
    pub frames: Vec<StackFrame>,
    pub frame_index: usize,
    pub frame_class: u64,
    pub frame_array: u64,
    /// Whether the buffers of a local variable table are held.
    pub table_held: bool,
    pub table: u64,
    /// The entries of the table, and the one being worked on.
    pub entries: Vec<LocalVariableEntry>,
    pub entry_index: usize,
    pub local_class: u64,
    pub local_constructor: u64,
    /// The array of local records of the frame; null if it has no table.
    pub locals: u64,
    /// The managed string of the current entry's name.
    pub name: u64,
    /// The value of the current entry, if the entry is live.
    pub value: Option<u64>,
    pub method_class: u64,
    pub frame_method: u64,
    pub frame_constructor_class: u64,
    /// How the assembly of the frame record ended, kept while the table is
    /// released.
    pub gathered: Option<Result<u64, Error>>,
}

/// The mathematical content of a [`Capture`].
pub struct CaptureView {
    pub jvmti_env: JvmTiEnv,
    pub jni_env: JniEnv,
    pub thread: u64,
    pub exception: u64,
    pub stage: Step,
    pub exchange: ExchangeView,
    pub cache_class: u64,
    pub should_cache: u64,
    pub num_frames: i32,
    pub cache_add: u64,
    pub frames: Seq<StackFrame>,
    pub frame_index: nat,
    pub frame_class: u64,
    pub frame_array: u64,
    pub table_held: bool,
    pub table: u64,
    pub entries: Seq<LocalVariableEntry>,
    pub entry_index: nat,
    pub local_class: u64,
    pub local_constructor: u64,
    pub locals: u64,
    pub name: u64,
    pub value: Option<u64>,
    pub method_class: u64,
    pub frame_method: u64,
    pub frame_constructor_class: u64,
    pub gathered: Option<Result<u64, ErrorView>>,
}

impl View for Capture {
    type V = CaptureView;

    open spec fn view(&self) -> CaptureView {
        CaptureView {
            jvmti_env: self.jvmti_env,
            jni_env: self.jni_env,
            thread: self.thread,
            exception: self.exception,
            stage: self.stage,
            exchange: self.exchange@,
            cache_class: self.cache_class,
            should_cache: self.should_cache,
            num_frames: self.num_frames,
            cache_add: self.cache_add,
            frames: self.frames@,
            frame_index: self.frame_index as nat,
            frame_class: self.frame_class,
            frame_array: self.frame_array,
            table_held: self.table_held,
            table: self.table,
            entries: self.entries@,
            entry_index: self.entry_index as nat,
            local_class: self.local_class,
            local_constructor: self.local_constructor,
            locals: self.locals,
            name: self.name,
            value: self.value,
            method_class: self.method_class,
            frame_method: self.frame_method,
            frame_constructor_class: self.frame_constructor_class,
            gathered: gathered_view(self.gathered),
        }
    }
}

/// A capture before its first operation.
pub open spec fn fresh(
    jvmti_env: JvmTiEnv,
    jni_env: JniEnv,
    thread: u64,
    exception: u64,
) -> CaptureView {
    CaptureView {
        jvmti_env,
        jni_env,
        thread,
        exception,
        stage: Step::Finished,
        exchange: ExchangeView::Idle,
        cache_class: 0,
        should_cache: 0,
        num_frames: 0,
        cache_add: 0,
        frames: Seq::empty(),
        frame_index: 0,
        frame_class: 0,
        frame_array: 0,
        table_held: false,
        table: 0,
        entries: Seq::empty(),
        entry_index: 0,
        local_class: 0,
        local_constructor: 0,
        locals: 0,
        name: 0,
        value: None,
        method_class: 0,
        frame_method: 0,
        frame_constructor_class: 0,
        gathered: None,
    }
}

impl CaptureView {
    /// The frame being built.
    pub open spec fn frame(self) -> StackFrame {
        self.frames[self.frame_index as int]
    }

    /// The table entry being worked on.
    pub open spec fn entry(self) -> LocalVariableEntry {
        self.entries[self.entry_index as int]
    }

    /// Whether the stage belongs to the building of one frame.
    pub open spec fn in_frame(self) -> bool {
        match self.stage {
            Step::Table
            | Step::LocalClass
            | Step::LocalConstructor
            | Step::LocalArray
            | Step::LocalName
            | Step::LocalRead
            | Step::LocalBox
            | Step::LocalObject
            | Step::LocalStore
            | Step::DeclaringClass
            | Step::Reflected
            | Step::FrameConstructorClass
            | Step::FrameConstructor
            | Step::FrameObject
            | Step::ReleaseName
            | Step::ReleaseSignature
            | Step::ReleaseGeneric
            | Step::ReleaseTable
            | Step::FrameStore => true,
            _ => false,
        }
    }

    /// Whether the stage belongs to the making of one local record.
    pub open spec fn in_local(self) -> bool {
        match self.stage {
            Step::LocalName
            | Step::LocalRead
            | Step::LocalBox
            | Step::LocalObject
            | Step::LocalStore => true,
            _ => false,
        }
    }

    /// Whether the stage releases a buffer.
    pub open spec fn in_release(self) -> bool {
        match self.stage {
            Step::ReleaseName
            | Step::ReleaseSignature
            | Step::ReleaseGeneric
            | Step::ReleaseTable => true,
            _ => false,
        }
    }

    /// Whether the stage works on a table that is held: from the lookup of
    /// the class of local records to the last local record.
    pub open spec fn in_table(self) -> bool {
        self.in_local() || self.stage == Step::LocalClass || self.stage == Step::LocalConstructor
            || self.stage == Step::LocalArray
    }

    /// Whether the stage belongs to the construction of a frame record.
    pub open spec fn in_frame_object(self) -> bool {
        match self.stage {
            Step::DeclaringClass
            | Step::Reflected
            | Step::FrameConstructorClass
            | Step::FrameConstructor
            | Step::FrameObject => true,
            _ => false,
        }
    }

    /// What the indices and lists of a capture satisfy at every stage: the
    /// indices point at a frame and at an entry wherever one is being
    /// worked on, and both lists are short enough to be counted by the
    /// call interface.
    pub open spec fn wf(self) -> bool {
        &&& self.frames.len() <= i32::MAX
        &&& self.entries.len() <= i32::MAX
        &&& self.in_frame() ==> self.frame_index < self.frames.len()
        &&& self.in_local() ==> self.entry_index < self.entries.len()
        &&& self.in_release() && self.stage != Step::ReleaseTable ==> self.entry_index
            < self.entries.len()
    }

    /// What holds of a capture whatever operation it awaits.
    ///
    /// A table is held exactly from its arrival to the release of its last
    /// buffer; while it is released, the outcome of the frame's assembly is
    /// kept. A frame record that is constructed without a table has no
    /// locals. A local record awaits its construction with a value if and
    /// only if its entry is live.
    pub open spec fn settled(self) -> bool {
        &&& self.wf()
        &&& self.in_table() || self.in_release() ==> self.table_held
        &&& self.table_held ==> self.in_table() || self.in_release() || self.in_frame_object()
        &&& self.in_release() ==> self.gathered is Some
        &&& self.in_frame_object() && !self.table_held ==> self.locals == 0
        &&& self.stage == Step::LocalObject ==> (self.value is Some <==> self.entry().is_live(
            self.frame().location,
        ))
        &&& self.stage == Step::LocalRead || self.stage == Step::LocalBox ==> self.entry().is_live(
            self.frame().location,
        )
    }

    /// What holds of every capture between two replies: it is settled, it
    /// awaits an operation unless it is over, while it fetches a table it
    /// awaits the table of the frame's method, and while it reads a slot it
    /// awaits the read that the entry's kind calls for.
    pub open spec fn inv(self) -> bool {
        &&& self.settled()
        &&& self.stage == Step::Finished <==> self.exchange is Idle
        &&& self.stage == Step::Table ==> self.exchange == ExchangeView::Debug(
            DebugOp { call: DebugCall::GetLocalVariableTable { method: self.frame().method } },
        )
        &&& self.stage == Step::LocalRead ==> self.entry().kind.spec_read() is Some
            && self.exchange == ExchangeView::Debug(
            DebugOp {
                call: read_call(
                    self.entry().kind.spec_read().unwrap(),
                    self.thread,
                    self.frame_index as i32,
                    self.entry().slot,
                ),
            },
        )
    }

    /// The end of the capture.
    pub open spec fn finish(self, result: Result<(), ErrorView>) -> (CaptureView, ActionView) {
        (
            CaptureView { stage: Step::Finished, exchange: ExchangeView::Idle, ..self },
            ActionView::Finished(result),
        )
    }

    /// The opening of an operation of the debug interface.
    pub open spec fn debug(self, stage: Step, op: DebugOp) -> (CaptureView, ActionView) {
        (CaptureView { stage, exchange: ExchangeView::Debug(op), ..self }, ActionView::Debug(op.call))
    }

    /// The release of the buffers of the entry at `entry_index`, or of the
    /// table itself once every entry has been dealt with.
    pub open spec fn release_next(self) -> (CaptureView, ActionView) {
        if self.entry_index < self.entries.len() {
            self.debug(
                Step::ReleaseName,
                DebugOp { call: DebugCall::Deallocate { buffer: self.entry().name } },
            )
        } else {
            self.debug(
                Step::ReleaseTable,
                DebugOp { call: DebugCall::Deallocate { buffer: self.table } },
            )
        }
    }

    /// A failure. While a table is held its buffers are released first, and
    /// the failure is reported after that.
    pub open spec fn fail(self, e: ErrorView) -> (CaptureView, ActionView) {
        if self.table_held {
            CaptureView { gathered: Some(Err(e)), entry_index: 0, ..self }.release_next()
        } else {
            self.finish(Err(e))
        }
    }

    /// The opening of an operation of the call interface. An operation that
    /// is refused before its first call has failed.
    pub open spec fn managed(self, stage: Step, poll: JniPollView) -> (CaptureView, ActionView) {
        match poll {
            JniPollView::Pending(op, call) => (
                CaptureView { stage, exchange: ExchangeView::Managed(op), ..self },
                ActionView::Managed(call),
            ),
            JniPollView::Ready(Err(e)) => self.fail(e),
            JniPollView::Ready(Ok(_)) => self.fail(unexpected_reply()),
        }
    }

    /// The building of the frame at `frame_index`, which starts with its
    /// local variable table; or, after the last frame, the delivery of the
    /// records.
    pub open spec fn next_frame(self) -> (CaptureView, ActionView) {
        if self.frame_index < self.frames.len() {
            self.debug(
                Step::Table,
                DebugOp { call: DebugCall::GetLocalVariableTable { method: self.frame().method } },
            )
        } else {
            self.managed(
                Step::Store,
                checked(
                    Plan::Void,
                    static_call_failed(self.cache_add, self.cache_class),
                    JniCallView::CallStaticVoidMethod {
                        class: self.cache_class,
                        method: self.cache_add,
                        arg1: self.exception,
                        arg2: self.frame_array,
                    },
                ),
            )
        }
    }

    /// The construction of the frame record, which starts with the class
    /// that declares the frame's method.
    pub open spec fn frame_object(self) -> (CaptureView, ActionView) {
        self.debug(
            Step::DeclaringClass,
            DebugOp { call: DebugCall::GetMethodDeclaringClass { method: self.frame().method } },
        )
    }

    /// The making of the local record for the entry at `entry_index`, which
    /// starts with its name; or, after the last entry, the construction of
    /// the frame record.
    pub open spec fn next_local(self) -> (CaptureView, ActionView) {
        if self.entry_index < self.entries.len() {
            self.managed(
                Step::LocalName,
                checked(
                    Plan::Object,
                    "new string utf failed"@,
                    JniCallView::NewStringUTF { chars: self.entry().name },
                ),
            )
        } else {
            self.frame_object()
        }
    }

    /// The construction of the local record from the entry's name and
    /// `value`, which is absent for an entry that is not live.
    pub open spec fn local_object(self, value: Option<u64>) -> (CaptureView, ActionView) {
        CaptureView { value, ..self }.managed(
            Step::LocalObject,
            checked(
                Plan::Object,
                "object creation failed [StringL]"@,
                JniCallView::NewObject {
                    class: self.local_class,
                    ctor: self.local_constructor,
                    arg1: self.name,
                    arg2: match value {
                        Some(v) => v,
                        None => 0,
                    },
                },
            ),
        )
    }

    /// The storing of a frame record at its place in the array.
    pub open spec fn store_frame(self, frame: u64) -> (CaptureView, ActionView) {
        self.managed(
            Step::FrameStore,
            checked(
                Plan::Void,
                "object array element set failed"@,
                JniCallView::SetObjectArrayElement {
                    array: self.frame_array,
                    index: self.frame_index as i32,
                    value: frame,
                },
            ),
        )
    }

    /// The policy check and the delivery: the cache class, its decision
    /// method, the depth of the stack, the decision, and, if the decision
    /// is to keep the exception, the store method and the walk. A decision
    /// against keeping it ends the capture well, with no further work.
    pub open spec fn callback(self, outcome: OutcomeView) -> (CaptureView, ActionView) {
        match self.stage {
            Step::CacheClass => match outcome.object() {
                Some(class) => CaptureView { cache_class: class, ..self }.managed(
                    Step::ShouldCache,
                    static_lookup(
                        opening(Plan::Object, Seq::empty()),
                        class,
                        SHOULD_CACHE@,
                        SHOULD_CACHE_SIGNATURE@,
                    ),
                ),
                None => self.fail(outcome.error()),
            },
            Step::ShouldCache => match outcome.object() {
                Some(method) => CaptureView { should_cache: method, ..self }.debug(
                    Step::FrameCount,
                    DebugOp { call: DebugCall::GetFrameCount { thread: self.thread } },
                ),
                None => self.fail(outcome.error()),
            },
            Step::FrameCount => match outcome {
                OutcomeView::Debug(DebugValue::Count(count)) => CaptureView {
                    num_frames: count,
                    ..self
                }.managed(
                    Step::Policy,
                    checked(
                        Plan::Boolean,
                        static_call_failed(self.should_cache, self.cache_class),
                        JniCallView::CallStaticBooleanMethod {
                            class: self.cache_class,
                            method: self.should_cache,
                            arg1: self.exception,
                            arg2: count,
                        },
                    ),
                ),
                _ => self.fail(outcome.error()),
            },
            Step::Policy => match outcome.boolean() {
                Some(true) => self.managed(
                    Step::CacheAdd,
                    static_lookup(
                        opening(Plan::Object, Seq::empty()),
                        self.cache_class,
                        CACHE_ADD@,
                        CACHE_ADD_SIGNATURE@,
                    ),
                ),
                Some(false) => self.finish(Ok(())),
                None => self.fail(outcome.error()),
            },
            Step::CacheAdd => match outcome.object() {
                Some(method) => CaptureView { cache_add: method, ..self }.debug(
                    Step::StackTrace,
                    DebugOp {
                        call: DebugCall::GetStackTrace {
                            thread: self.thread,
                            start_depth: 0,
                            max_frames: self.num_frames,
                        },
                    },
                ),
                None => self.fail(outcome.error()),
            },
            _ => if outcome.done() {
                self.finish(Ok(()))
            } else {
                self.fail(outcome.error())
            },
        }
    }

    /// The stack walk: the frames, the class of frame records, an array
    /// with one place for each frame that the walk returned, and then frame
    /// after frame. Every frame record is stored at the place of its frame.
    pub open spec fn build_stack_trace_frames(self, outcome: OutcomeView) -> (CaptureView, ActionView) {
        match self.stage {
            Step::StackTrace => match outcome {
                OutcomeView::Debug(DebugValue::Frames(frames)) => if frames@.len() <= i32::MAX {
                    CaptureView { frames: frames@, ..self }.managed(
                        Step::FrameClass,
                        class_lookup(Plan::Object, FRAME_CLASS@),
                    )
                } else {
                    self.fail(unexpected_reply())
                },
                _ => self.fail(outcome.error()),
            },
            Step::FrameClass => match outcome.object() {
                Some(class) => CaptureView { frame_class: class, ..self }.managed(
                    Step::FrameArray,
                    checked(
                        Plan::Object,
                        "object array creation failed"@,
                        JniCallView::NewObjectArray {
                            length: self.frames.len() as i32,
                            class,
                            init: 0,
                        },
                    ),
                ),
                None => self.fail(outcome.error()),
            },
            Step::FrameArray => match outcome.object() {
                Some(array) => CaptureView { frame_array: array, frame_index: 0, ..self }.next_frame(),
                None => self.fail(outcome.error()),
            },
            _ => if outcome.done() {
                CaptureView { frame_index: self.frame_index + 1, ..self }.next_frame()
            } else {
                self.fail(outcome.error())
            },
        }
    }

    /// The reply to the request for a frame's local variable table. A table
    /// is held from here on, until its buffers have been released. A method
    /// that has no table to offer gets a frame record without locals, and
    /// the capture goes on. Any other failure ends the capture.
    pub open spec fn build_frame(self, outcome: OutcomeView) -> (CaptureView, ActionView) {
        match outcome {
            OutcomeView::Debug(DebugValue::Table { table, entries }) => if entries@.len() <= i32::MAX {
                CaptureView {
                    table_held: true,
                    table,
                    entries: entries@,
                    entry_index: 0,
                    gathered: None,
                    ..self
                }.managed(Step::LocalClass, class_lookup(Plan::Object, LOCAL_CLASS@))
            } else {
                self.fail(unexpected_reply())
            },
            OutcomeView::Failed(e) => if e.unavailable() {
                CaptureView { locals: 0, ..self }.frame_object()
            } else {
                self.fail(e)
            },
            _ => self.fail(unexpected_reply()),
        }
    }

    /// The preparation of a frame's local records: their class, their
    /// constructor, and an array with one place for each entry of the
    /// table. Then entry after entry.
    pub open spec fn gather_local_information(self, outcome: OutcomeView) -> (CaptureView, ActionView) {
        match (self.stage, outcome.object()) {
            (Step::LocalClass, Some(class)) => CaptureView { local_class: class, ..self }.managed(
                Step::LocalConstructor,
                method_lookup(class, CONSTRUCTOR@, LOCAL_CONSTRUCTOR_SIGNATURE@),
            ),
            (Step::LocalConstructor, Some(constructor)) => CaptureView {
                local_constructor: constructor,
                ..self
            }.managed(
                Step::LocalArray,
                checked(
                    Plan::Object,
                    "object array creation failed"@,
                    JniCallView::NewObjectArray {
                        length: self.entries.len() as i32,
                        class: self.local_class,
                        init: 0,
                    },
                ),
            ),
            (Step::LocalArray, Some(array)) => CaptureView {
                locals: array,
                entry_index: 0,
                ..self
            }.next_local(),
            _ => self.fail(outcome.error()),
        }
    }

    /// The making of one local record. Once the entry's name is a managed
    /// string: if the frame stands inside the entry's range, the entry's
    /// value is fetched and the record is made of name and value; if not,
    /// the record is made of the name alone. The record is stored at the
    /// place of its entry. Every entry is judged by its own range alone,
    /// also where several entries share a slot.
    pub open spec fn make_local_variable(self, outcome: OutcomeView) -> (CaptureView, ActionView) {
        match self.stage {
            Step::LocalName => match outcome.object() {
                Some(name) => {
                    let named = CaptureView { name, ..self };
                    if self.entry().is_live(self.frame().location) {
                        match self.entry().kind.spec_read() {
                            Some(kind) => named.debug(
                                Step::LocalRead,
                                DebugOp {
                                    call: read_call(
                                        kind,
                                        self.thread,
                                        self.frame_index as i32,
                                        self.entry().slot,
                                    ),
                                },
                            ),
                            None => named.fail(bad_signature()),
                        }
                    } else {
                        named.local_object(None)
                    }
                },
                None => self.fail(outcome.error()),
            },
            Step::LocalObject => match outcome.object() {
                Some(local) => self.managed(
                    Step::LocalStore,
                    checked(
                        Plan::Void,
                        "object array element set failed"@,
                        JniCallView::SetObjectArrayElement {
                            array: self.locals,
                            index: self.entry_index as i32,
                            value: local,
                        },
                    ),
                ),
                None => self.fail(outcome.error()),
            },
            _ => if outcome.done() {
                CaptureView { entry_index: self.entry_index + 1, ..self }.next_local()
            } else {
                self.fail(outcome.error())
            },
        }
    }

    /// The value of a live entry. What was read from a reference slot is
    /// the value. What was read from any other slot is boxed by the wrapper
    /// class of the entry's kind, and the boxed object is the value.
    pub open spec fn get_local_value(self, outcome: OutcomeView) -> (CaptureView, ActionView) {
        match (self.stage, outcome) {
            (Step::LocalRead, OutcomeView::Debug(DebugValue::Local(raw))) => match (
                self.entry().kind.spec_wrapper_class(),
                self.entry().kind.spec_factory_signature(),
                raw,
            ) {
                (Some(class), Some(signature), _) => self.managed(
                    Step::LocalBox,
                    boxing(class, signature, raw),
                ),
                (_, _, RawValue::Object(object)) => self.local_object(Some(object)),
                _ => self.fail(unexpected_reply()),
            },
            (Step::LocalBox, OutcomeView::Managed(JniValueView::Object(boxed))) => self.local_object(
                Some(boxed),
            ),
            _ => self.fail(outcome.error()),
        }
    }

    /// What follows the construction of a frame record: while a table is
    /// held, the release of its buffers; otherwise the storing of the
    /// record.
    pub open spec fn assembled(self, frame: u64) -> (CaptureView, ActionView) {
        if self.table_held {
            CaptureView { gathered: Some(Ok(frame)), entry_index: 0, ..self }.release_next()
        } else {
            self.store_frame(frame)
        }
    }

    /// The construction of a frame record: the class that declares the
    /// frame's method, the method's reflective handle, the class of frame
    /// records, its constructor, and the record itself, made of the handle
    /// and the array of local records.
    pub open spec fn make_frame_object(self, outcome: OutcomeView) -> (CaptureView, ActionView) {
        match (self.stage, outcome) {
            (Step::DeclaringClass, OutcomeView::Debug(DebugValue::Class(class))) => CaptureView {
                method_class: class,
                ..self
            }.managed(
                Step::Reflected,
                checked(
                    Plan::Object,
                    "new string utf failed"@,
                    JniCallView::ToReflectedMethod {
                        class,
                        method: self.frame().method,
                        is_static: true,
                    },
                ),
            ),
            (Step::Reflected, OutcomeView::Managed(JniValueView::Object(method))) => CaptureView {
                frame_method: method,
                ..self
            }.managed(Step::FrameConstructorClass, class_lookup(Plan::Object, FRAME_CLASS@)),
            (Step::FrameConstructorClass, OutcomeView::Managed(JniValueView::Object(class))) => CaptureView {
                frame_constructor_class: class,
                ..self
            }.managed(
                Step::FrameConstructor,
                method_lookup(class, CONSTRUCTOR@, FRAME_CONSTRUCTOR_SIGNATURE@),
            ),
            (
                Step::FrameConstructor,
                OutcomeView::Managed(JniValueView::Object(constructor)),
            ) => self.managed(
                Step::FrameObject,
                checked(
                    Plan::Object,
                    "object creation failed [LAL]"@,
                    JniCallView::NewObject {
                        class: self.frame_constructor_class,
                        ctor: constructor,
                        arg1: self.frame_method,
                        arg2: self.locals,
                    },
                ),
            ),
            (Step::FrameObject, OutcomeView::Managed(JniValueView::Object(frame))) => self.assembled(
                frame,
            ),
            _ => self.fail(outcome.error()),
        }
    }

    /// The release of a table: for each entry its name, its signature and,
    /// where there is one, its generic signature; then the table itself.
    /// How a release ends does not matter. After the last one the table is
    /// no longer held, and the frame's assembly ends as it had ended before
    /// the release: a frame record is stored, a failure ends the capture.
    pub open spec fn release(self) -> (CaptureView, ActionView) {
        match self.stage {
            Step::ReleaseName => self.debug(
                Step::ReleaseSignature,
                DebugOp { call: DebugCall::Deallocate { buffer: self.entry().signature } },
            ),
            Step::ReleaseSignature => if self.entry().generic_signature != 0 {
                self.debug(
                    Step::ReleaseGeneric,
                    DebugOp { call: DebugCall::Deallocate { buffer: self.entry().generic_signature } },
                )
            } else {
                CaptureView { entry_index: self.entry_index + 1, ..self }.release_next()
            },
            Step::ReleaseGeneric => CaptureView {
                entry_index: self.entry_index + 1,
                ..self
            }.release_next(),
            _ => {
                let released = CaptureView { table_held: false, gathered: None, ..self };
                match self.gathered {
                    Some(Ok(frame)) => released.store_frame(frame),
                    Some(Err(e)) => released.finish(Err(e)),
                    None => released.finish(Err(unexpected_reply())),
                }
            },
        }
    }

    /// What a capture makes of the end of the operation it awaited: what
    /// the stage it is at makes of it.
    pub open spec fn advance(self, outcome: OutcomeView) -> (CaptureView, ActionView) {
        match self.stage {
            Step::CacheClass
            | Step::ShouldCache
            | Step::FrameCount
            | Step::Policy
            | Step::CacheAdd
            | Step::Store => self.callback(outcome),
            Step::StackTrace
            | Step::FrameClass
            | Step::FrameArray
            | Step::FrameStore => self.build_stack_trace_frames(outcome),
            Step::Table => self.build_frame(outcome),
            Step::LocalClass | Step::LocalConstructor | Step::LocalArray => self.gather_local_information(
                outcome,
            ),
            Step::LocalName | Step::LocalObject | Step::LocalStore => self.make_local_variable(outcome),
            Step::LocalRead | Step::LocalBox => self.get_local_value(outcome),
            Step::DeclaringClass
            | Step::Reflected
            | Step::FrameConstructorClass
            | Step::FrameConstructor
            | Step::FrameObject => self.make_frame_object(outcome),
            Step::ReleaseName
            | Step::ReleaseSignature
            | Step::ReleaseGeneric
            | Step::ReleaseTable => self.release(),
            Step::Finished => self.finish(Err(unexpected_reply())),
        }
    }

    /// The capture between two operations.
    pub open spec fn idle(self) -> CaptureView {
        CaptureView { exchange: ExchangeView::Idle, ..self }
    }

    /// How the operation in progress ends with `reply`, if it does: with
    /// its result, or with its failure. A reply from the interface that was
    /// not asked is a failure of the operation.
    pub open spec fn ended(self, reply: Reply) -> Option<OutcomeView> {
        match (self.exchange, reply) {
            (ExchangeView::Managed(op), Reply::Managed(r)) => match op.resume(r) {
                JniPollView::Pending(_, _) => None,
                JniPollView::Ready(Ok(value)) => Some(OutcomeView::Managed(value)),
                JniPollView::Ready(Err(e)) => Some(OutcomeView::Failed(e)),
            },
            (ExchangeView::Debug(op), Reply::Debug(r)) => match op.spec_resume(r) {
                DebugPollView::Pending(_) => None,
                DebugPollView::Ready(Ok(value)) => Some(OutcomeView::Debug(value)),
                DebugPollView::Ready(Err(e)) => Some(OutcomeView::Failed(e)),
            },
            (ExchangeView::Idle, _) => None,
            _ => Some(OutcomeView::Failed(unexpected_reply())),
        }
    }

    /// What a capture makes of a reply that does not end the operation in
    /// progress: it asks for what the operation asks for. A capture that is
    /// over has no operation in progress and stays over.
    pub open spec fn carried(self, reply: Reply) -> (CaptureView, ActionView) {
        match (self.exchange, reply) {
            (ExchangeView::Managed(op), Reply::Managed(r)) => (
                CaptureView { exchange: ExchangeView::Managed(op.resume(r)->Pending_0), ..self },
                ActionView::Managed(op.resume(r)->Pending_1),
            ),
            (ExchangeView::Debug(op), Reply::Debug(r)) => (
                CaptureView { exchange: ExchangeView::Debug(op.spec_resume(r)->Pending_0), ..self },
                ActionView::Debug(op.spec_resume(r)->Pending_0.call),
            ),
            _ => self.finish(Err(unexpected_reply())),
        }
    }

    /// What a capture makes of a reply from the runtime.
    ///
    /// The reply goes to the operation in progress. If that operation needs
    /// another entry point, the capture asks for it; if it is over, the
    /// capture moves on with its outcome.
    pub open spec fn resume(self, reply: Reply) -> (CaptureView, ActionView) {
        match self.ended(reply) {
            Some(outcome) => self.idle().advance(outcome),
            None => self.carried(reply),
        }
    }
}

/// The start of a capture: the lookup of the cache class.
pub open spec fn begin(jvmti_env: JvmTiEnv, jni_env: JniEnv, thread: u64, exception: u64) -> (
    CaptureView,
    ActionView,
) {
    fresh(jvmti_env, jni_env, thread, exception).managed(
        Step::CacheClass,
        class_lookup(Plan::Object, CACHE_CLASS@),
    )
}

impl Outcome {
    fn error(self) -> (e: Error)
        ensures
            e@ == self@.error(),
    {
        match self {
            Outcome::Failed(e) => e,
            _ => Error::unexpected_reply(),
        }
    }

    fn object(&self) -> (object: Option<u64>)
        ensures
            object == self@.object(),
    {
        match self {
            Outcome::Managed(JniValue::Object(object)) => Some(*object),
            _ => None,
        }
    }

    fn done(&self) -> (done: bool)
        ensures
            done == self@.done(),
    {
        matches!(self, Outcome::Managed(JniValue::Unit))
    }

    fn boolean(&self) -> (b: Option<bool>)
        ensures
            b == self@.boolean(),
    {
        match self {
            Outcome::Managed(JniValue::Boolean(b)) => Some(*b),
            _ => None,
        }
    }
}

impl Capture {
    fn fresh(jvmti_env: JvmTiEnv, jni_env: JniEnv, thread: u64, exception: u64) -> (capture: Capture)
        ensures
            capture@ == fresh(jvmti_env, jni_env, thread, exception),
    {
        Capture {
            jvmti_env,
            jni_env,
            thread,
            exception,
            stage: Step::Finished,
            exchange: Exchange::Idle,
            cache_class: 0,
            should_cache: 0,
            num_frames: 0,
            cache_add: 0,
            frames: Vec::new(),
            frame_index: 0,
            frame_class: 0,
            frame_array: 0,
            table_held: false,
            table: 0,
            entries: Vec::new(),
            entry_index: 0,
            local_class: 0,
            local_constructor: 0,
            locals: 0,
            name: 0,
            value: None,
            method_class: 0,
            frame_method: 0,
            frame_constructor_class: 0,
            gathered: None,
        }
    }

    fn finish(self, result: Result<(), Error>) -> (next: (Capture, Action))
        ensures
            (next.0@, next.1@) == self@.finish(
                match result {
                    Ok(_) => Ok(()),
                    Err(e) => Err(e@),
                },
            ),
    {
        (Capture { stage: Step::Finished, exchange: Exchange::Idle, ..self }, Action::Finished(result))
    }

    fn debug(self, stage: Step, op: DebugOp) -> (next: (Capture, Action))
        ensures
            (next.0@, next.1@) == self@.debug(stage, op),
    {
        (Capture { stage, exchange: Exchange::Debug(op), ..self }, Action::Debug(op.call))
    }

    fn release_next(self) -> (next: (Capture, Action))
        ensures
            (next.0@, next.1@) == self@.release_next(),
    {
        let mut jvmti_env = self.jvmti_env;
        if self.entry_index < self.entries.len() {
            let op = jvmti_env.dealloc(self.entries[self.entry_index].name);
            self.debug(Step::ReleaseName, op)
        } else {
            let op = jvmti_env.dealloc(self.table);
            self.debug(Step::ReleaseTable, op)
        }
    }

    fn fail(self, e: Error) -> (next: (Capture, Action))
        ensures
            (next.0@, next.1@) == self@.fail(e@),
    {
        if self.table_held {
            Capture { gathered: Some(Err(e)), entry_index: 0, ..self }.release_next()
        } else {
            self.finish(Err(e))
        }
    }

    fn managed(self, stage: Step, poll: JniPoll) -> (next: (Capture, Action))
        ensures
            (next.0@, next.1@) == self@.managed(stage, poll@),
    {
        match poll {
            JniPoll::Pending(op, call) => (
                Capture { stage, exchange: Exchange::Managed(op), ..self },
                Action::Managed(call),
            ),
            JniPoll::Ready(Err(e)) => self.fail(e),
            JniPoll::Ready(Ok(_)) => self.fail(Error::unexpected_reply()),
        }
    }

    fn next_frame(self) -> (next: (Capture, Action))
        ensures
            (next.0@, next.1@) == self@.next_frame(),
    {
        let mut jvmti_env = self.jvmti_env;
        let mut jni_env = self.jni_env;
        if self.frame_index < self.frames.len() {
            let op = jvmti_env.get_local_variable_table(self.frames[self.frame_index].method);
            self.debug(Step::Table, op)
        } else {
            let poll = jni_env.call_static_LAL_V_method(
                self.cache_class,
                self.cache_add,
                self.exception,
                self.frame_array,
            );
            self.managed(Step::Store, poll)
        }
    }

    fn frame_object(self) -> (next: (Capture, Action))
        requires
            self.frame_index < self.frames.len(),
        ensures
            (next.0@, next.1@) == self@.frame_object(),
    {
        let mut jvmti_env = self.jvmti_env;
        let op = jvmti_env.get_method_declaring_class(self.frames[self.frame_index].method);
        self.debug(Step::DeclaringClass, op)
    }

    fn next_local(self) -> (next: (Capture, Action))
        requires
            self.frame_index < self.frames.len(),
        ensures
            (next.0@, next.1@) == self@.next_local(),
    {
        let mut jni_env = self.jni_env;
        if self.entry_index < self.entries.len() {
            let poll = jni_env.new_string_utf(self.entries[self.entry_index].name);
            self.managed(Step::LocalName, poll)
        } else {
            self.frame_object()
        }
    }

    fn local_object(self, value: Option<u64>) -> (next: (Capture, Action))
        ensures
            (next.0@, next.1@) == self@.local_object(value),
    {
        let mut jni_env = self.jni_env;
        let poll = jni_env.new_object_StringL(
            self.local_class,
            self.local_constructor,
            self.name,
            match value {
                Some(v) => v,
                None => 0,
            },
        );
        Capture { value, ..self }.managed(Step::LocalObject, poll)
    }

    fn store_frame(self, frame: u64) -> (next: (Capture, Action))
        requires
            self.frame_index <= i32::MAX,
        ensures
            (next.0@, next.1@) == self@.store_frame(frame),
    {
        let mut jni_env = self.jni_env;
        let poll = jni_env.set_object_array_element(self.frame_array, self.frame_index as i32, frame);
        self.managed(Step::FrameStore, poll)
    }

    fn callback(self, outcome: Outcome) -> (next: (Capture, Action))
        ensures
            (next.0@, next.1@) == self@.callback(outcome@),
    {
        let mut jvmti_env = self.jvmti_env;
        let mut jni_env = self.jni_env;
        match self.stage {
            Step::CacheClass => match outcome.object() {
                Some(class) => {
                    let poll =
                        jni_env.get_static_method_id(class, SHOULD_CACHE, SHOULD_CACHE_SIGNATURE);
                    Capture { cache_class: class, ..self }.managed(Step::ShouldCache, poll)
                },
                None => self.fail(outcome.error()),
            },
            Step::ShouldCache => match outcome.object() {
                Some(method) => {
                    let op = jvmti_env.get_frame_count(self.thread);
                    Capture { should_cache: method, ..self }.debug(Step::FrameCount, op)
                },
                None => self.fail(outcome.error()),
            },
            Step::FrameCount => match outcome {
                Outcome::Debug(DebugValue::Count(count)) => {
                    let poll = jni_env.call_static_LI_Z_method(
                        self.cache_class,
                        self.should_cache,
                        self.exception,
                        count,
                    );
                    Capture { num_frames: count, ..self }.managed(Step::Policy, poll)
                },
                _ => self.fail(outcome.error()),
            },
            Step::Policy => match outcome.boolean() {
                Some(true) => {
                    let poll = jni_env.get_static_method_id(
                        self.cache_class,
                        CACHE_ADD,
                        CACHE_ADD_SIGNATURE,
                    );
                    self.managed(Step::CacheAdd, poll)
                },
                Some(false) => self.finish(Ok(())),
                None => self.fail(outcome.error()),
            },
            Step::CacheAdd => match outcome.object() {
                Some(method) => {
                    let op = jvmti_env.get_stack_trace(self.thread, 0, self.num_frames);
                    Capture { cache_add: method, ..self }.debug(Step::StackTrace, op)
                },
                None => self.fail(outcome.error()),
            },
            _ => if outcome.done() {
                self.finish(Ok(()))
            } else {
                self.fail(outcome.error())
            },
        }
    }

    fn build_stack_trace_frames(self, outcome: Outcome) -> (next: (Capture, Action))
        requires
            self@.wf(),
            self.stage == Step::StackTrace || self.stage == Step::FrameClass || self.stage
                == Step::FrameArray || self.stage == Step::FrameStore,
        ensures
            (next.0@, next.1@) == self@.build_stack_trace_frames(outcome@),
    {
        let mut jni_env = self.jni_env;
        match self.stage {
            Step::StackTrace => match outcome {
                Outcome::Debug(DebugValue::Frames(frames)) => if frames.len() <= i32::MAX as usize {
                    let poll = jni_env.find_class(FRAME_CLASS);
                    Capture { frames, ..self }.managed(Step::FrameClass, poll)
                } else {
                    self.fail(Error::unexpected_reply())
                },
                _ => self.fail(outcome.error()),
            },
            Step::FrameClass => match outcome.object() {
                Some(class) => {
                    let poll = jni_env.new_object_array(self.frames.len() as i32, class, 0);
                    Capture { frame_class: class, ..self }.managed(Step::FrameArray, poll)
                },
                None => self.fail(outcome.error()),
            },
            Step::FrameArray => match outcome.object() {
                Some(array) => Capture { frame_array: array, frame_index: 0, ..self }.next_frame(),
                None => self.fail(outcome.error()),
            },
            _ => if outcome.done() {
                let following = self.frame_index + 1;
                Capture { frame_index: following, ..self }.next_frame()
            } else {
                self.fail(outcome.error())
            },
        }
    }

    fn build_frame(self, outcome: Outcome) -> (next: (Capture, Action))
        requires
            self@.wf(),
            self.stage == Step::Table,
        ensures
            (next.0@, next.1@) == self@.build_frame(outcome@),
    {
        let mut jni_env = self.jni_env;
        match outcome {
            Outcome::Debug(DebugValue::Table { table, entries }) => if entries.len() <= i32::MAX as usize {
                let poll = jni_env.find_class(LOCAL_CLASS);
                Capture {
                    table_held: true,
                    table,
                    entries,
                    entry_index: 0,
                    gathered: None,
                    ..self
                }.managed(Step::LocalClass, poll)
            } else {
                self.fail(Error::unexpected_reply())
            },
            Outcome::Failed(e) => if e.is_unavailable() {
                Capture { locals: 0, ..self }.frame_object()
            } else {
                self.fail(e)
            },
            _ => self.fail(Error::unexpected_reply()),
        }
    }

    fn gather_local_information(self, outcome: Outcome) -> (next: (Capture, Action))
        requires
            self@.wf(),
            self@.in_frame(),
        ensures
            (next.0@, next.1@) == self@.gather_local_information(outcome@),
    {
        let mut jni_env = self.jni_env;
        let object = outcome.object();
        match (self.stage, object) {
            (Step::LocalClass, Some(class)) => {
                let poll = jni_env.get_method_id(class, CONSTRUCTOR, LOCAL_CONSTRUCTOR_SIGNATURE);
                Capture { local_class: class, ..self }.managed(Step::LocalConstructor, poll)
            },
            (Step::LocalConstructor, Some(constructor)) => {
                let poll = jni_env.new_object_array(self.entries.len() as i32, self.local_class, 0);
                Capture { local_constructor: constructor, ..self }.managed(Step::LocalArray, poll)
            },
            (Step::LocalArray, Some(array)) => Capture {
                locals: array,
                entry_index: 0,
                ..self
            }.next_local(),
            _ => self.fail(outcome.error()),
        }
    }

    fn make_local_variable(self, outcome: Outcome) -> (next: (Capture, Action))
        requires
            self@.wf(),
            self@.in_local(),
        ensures
            (next.0@, next.1@) == self@.make_local_variable(outcome@),
    {
        let mut jvmti_env = self.jvmti_env;
        let mut jni_env = self.jni_env;
        match self.stage {
            Step::LocalName => match outcome.object() {
                Some(name) => {
                    let entry = self.entries[self.entry_index];
                    let frame = self.frames[self.frame_index];
                    let depth = self.frame_index as i32;
                    let thread = self.thread;
                    let named = Capture { name, ..self };
                    if entry.is_live(frame.location) {
                        match entry.kind.read() {
                            Some(kind) => {
                                let op = jvmti_env.get_local(kind, thread, depth, entry.slot);
                                named.debug(Step::LocalRead, op)
                            },
                            None => named.fail(Error::bad_signature()),
                        }
                    } else {
                        named.local_object(None)
                    }
                },
                None => self.fail(outcome.error()),
            },
            Step::LocalObject => match outcome.object() {
                Some(local) => {
                    let poll = jni_env.set_object_array_element(
                        self.locals,
                        self.entry_index as i32,
                        local,
                    );
                    self.managed(Step::LocalStore, poll)
                },
                None => self.fail(outcome.error()),
            },
            _ => if outcome.done() {
                let following = self.entry_index + 1;
                Capture { entry_index: following, ..self }.next_local()
            } else {
                self.fail(outcome.error())
            },
        }
    }

    fn get_local_value(self, outcome: Outcome) -> (next: (Capture, Action))
        requires
            self@.wf(),
            self@.in_local(),
        ensures
            (next.0@, next.1@) == self@.get_local_value(outcome@),
    {
        let mut jni_env = self.jni_env;
        match (self.stage, outcome) {
            (Step::LocalRead, Outcome::Debug(DebugValue::Local(raw))) => {
                match (self.entries[self.entry_index].kind.boxing(), raw) {
                    (Some(boxing), _) => {
                        let poll = jni_env.value_of(boxing.class, boxing.signature, raw);
                        self.managed(Step::LocalBox, poll)
                    },
                    (None, RawValue::Object(object)) => self.local_object(Some(object)),
                    _ => self.fail(Error::unexpected_reply()),
                }
            },
            (Step::LocalBox, Outcome::Managed(JniValue::Object(boxed))) => self.local_object(
                Some(boxed),
            ),
            (_, outcome) => self.fail(outcome.error()),
        }
    }

    fn assembled(self, frame: u64) -> (next: (Capture, Action))
        requires
            self.frame_index <= i32::MAX,
        ensures
            (next.0@, next.1@) == self@.assembled(frame),
    {
        if self.table_held {
            Capture { gathered: Some(Ok(frame)), entry_index: 0, ..self }.release_next()
        } else {
            self.store_frame(frame)
        }
    }

    fn make_frame_object(self, outcome: Outcome) -> (next: (Capture, Action))
        requires
            self@.wf(),
            self@.in_frame(),
        ensures
            (next.0@, next.1@) == self@.make_frame_object(outcome@),
    {
        let mut jni_env = self.jni_env;
        match (self.stage, outcome) {
            (Step::DeclaringClass, Outcome::Debug(DebugValue::Class(class))) => {
                let method = self.frames[self.frame_index].method;
                let poll = jni_env.get_reflected_method(class, method, true);
                Capture { method_class: class, ..self }.managed(Step::Reflected, poll)
            },
            (Step::Reflected, Outcome::Managed(JniValue::Object(method))) => {
                let poll = jni_env.find_class(FRAME_CLASS);
                Capture { frame_method: method, ..self }.managed(Step::FrameConstructorClass, poll)
            },
            (Step::FrameConstructorClass, Outcome::Managed(JniValue::Object(class))) => {
                let poll = jni_env.get_method_id(class, CONSTRUCTOR, FRAME_CONSTRUCTOR_SIGNATURE);
                Capture { frame_constructor_class: class, ..self }.managed(Step::FrameConstructor, poll)
            },
            (Step::FrameConstructor, Outcome::Managed(JniValue::Object(constructor))) => {
                let poll = jni_env.new_object_LAL(
                    self.frame_constructor_class,
                    constructor,
                    self.frame_method,
                    self.locals,
                );
                self.managed(Step::FrameObject, poll)
            },
            (Step::FrameObject, Outcome::Managed(JniValue::Object(frame))) => self.assembled(frame),
            (_, outcome) => self.fail(outcome.error()),
        }
    }

    fn release(self) -> (next: (Capture, Action))
        requires
            self@.wf(),
            self@.in_release(),
        ensures
            (next.0@, next.1@) == self@.release(),
    {
        let mut jvmti_env = self.jvmti_env;
        match self.stage {
            Step::ReleaseName => {
                let op = jvmti_env.dealloc(self.entries[self.entry_index].signature);
                self.debug(Step::ReleaseSignature, op)
            },
            Step::ReleaseSignature => {
                let generic = self.entries[self.entry_index].generic_signature;
                if generic != 0 {
                    let op = jvmti_env.dealloc(generic);
                    self.debug(Step::ReleaseGeneric, op)
                } else {
                    let following = self.entry_index + 1;
                    Capture { entry_index: following, ..self }.release_next()
                }
            },
            Step::ReleaseGeneric => {
                let following = self.entry_index + 1;
                Capture { entry_index: following, ..self }.release_next()
            },
            _ => {
                let mut released = self;
                let gathered = released.gathered.take();
                released.table_held = false;
                match gathered {
                    Some(Ok(frame)) => released.store_frame(frame),
                    Some(Err(e)) => released.finish(Err(e)),
                    None => released.finish(Err(Error::unexpected_reply())),
                }
            },
        }
    }

    fn advance(self, outcome: Outcome) -> (next: (Capture, Action))
        requires
            self@.wf(),
        ensures
            (next.0@, next.1@) == self@.advance(outcome@),
    {
            match self.stage {
            Step::CacheClass
            | Step::ShouldCache
            | Step::FrameCount
            | Step::Policy
            | Step::CacheAdd
            | Step::Store => self.callback(outcome),
            Step::StackTrace
            | Step::FrameClass
            | Step::FrameArray
            | Step::FrameStore => self.build_stack_trace_frames(outcome),
            Step::Table => self.build_frame(outcome),
            Step::LocalClass | Step::LocalConstructor | Step::LocalArray => self.gather_local_information(
                outcome,
            ),
            Step::LocalName | Step::LocalObject | Step::LocalStore => self.make_local_variable(outcome),
            Step::LocalRead | Step::LocalBox => self.get_local_value(outcome),
            Step::DeclaringClass
            | Step::Reflected
            | Step::FrameConstructorClass
            | Step::FrameConstructor
            | Step::FrameObject => self.make_frame_object(outcome),
            Step::ReleaseName
            | Step::ReleaseSignature
            | Step::ReleaseGeneric
            | Step::ReleaseTable => self.release(),
            Step::Finished => self.finish(Err(Error::unexpected_reply())),
        }
    }
}

proof fn lemma_callback_keeps_invariant(c: CaptureView, outcome: OutcomeView)
    requires
        c.settled(),
        !c.in_frame(),
    ensures
        c.callback(outcome).0.inv(),
        c.build_stack_trace_frames(outcome).0.inv(),
{
}

proof fn lemma_frame_store_keeps_invariant(c: CaptureView, outcome: OutcomeView)
    requires
        c.settled(),
        c.stage == Step::FrameStore,
    ensures
        c.build_stack_trace_frames(outcome).0.inv(),
{
}

proof fn lemma_build_frame_keeps_invariant(c: CaptureView, outcome: OutcomeView)
    requires
        c.settled(),
        c.stage == Step::Table,
    ensures
        c.build_frame(outcome).0.inv(),
{
}

proof fn lemma_gather_keeps_invariant(c: CaptureView, outcome: OutcomeView)
    requires
        c.settled(),
        c.stage == Step::LocalClass || c.stage == Step::LocalConstructor || c.stage
            == Step::LocalArray,
    ensures
        c.gather_local_information(outcome).0.inv(),
{
}

proof fn lemma_local_keeps_invariant(c: CaptureView, outcome: OutcomeView)
    requires
        c.settled(),
        c.in_local(),
    ensures
        c.make_local_variable(outcome).0.inv(),
        c.get_local_value(outcome).0.inv(),
{
}

proof fn lemma_frame_object_keeps_invariant(c: CaptureView, outcome: OutcomeView)
    requires
        c.settled(),
        c.in_frame_object(),
    ensures
        c.make_frame_object(outcome).0.inv(),
{
}

proof fn lemma_release_keeps_invariant(c: CaptureView)
    requires
        c.settled(),
        c.in_release(),
    ensures
        c.release().0.inv(),
{
}

/// Every way in which a capture moves on from the end of an operation
/// leaves it in a state of which the invariant holds.
pub proof fn lemma_advance_keeps_invariant(c: CaptureView, outcome: OutcomeView)
    requires
        c.settled(),
    ensures
        c.advance(outcome).0.inv(),
{
    if c.stage == Step::FrameStore {
        lemma_frame_store_keeps_invariant(c, outcome);
    } else if c.stage == Step::Table {
        lemma_build_frame_keeps_invariant(c, outcome);
    } else if c.in_release() {
        lemma_release_keeps_invariant(c);
    } else if c.in_local() {
        lemma_local_keeps_invariant(c, outcome);
    } else if c.in_frame_object() {
        lemma_frame_object_keeps_invariant(c, outcome);
    } else if c.in_frame() {
        lemma_gather_keeps_invariant(c, outcome);
    } else if c.stage != Step::Finished {
        lemma_callback_keeps_invariant(c, outcome);
    }
}

/// Every reply leaves a capture in a state of which the invariant holds.
pub proof fn lemma_resume_keeps_invariant(c: CaptureView, reply: Reply)
    requires
        c.inv(),
    ensures
        c.resume(reply).0.inv(),
{
    match c.ended(reply) {
        Some(outcome) => {
            assert(c.idle().settled());
            lemma_advance_keeps_invariant(c.idle(), outcome);
        },
        None => {},
    }
}

/// The invariant holds of a capture at its start.
pub proof fn lemma_begin_establishes_invariant(
    jvmti_env: JvmTiEnv,
    jni_env: JniEnv,
    thread: u64,
    exception: u64,
)
    ensures
        begin(jvmti_env, jni_env, thread, exception).0.inv(),
{
}

impl Capture {
    /// Takes a reply from the runtime and says what the capture asks for
    /// next.
    pub fn resume(self, reply: Reply) -> (next: (Capture, Action))
        requires
            self@.inv(),
        ensures
            (next.0@, next.1@) == self@.resume(reply),
            next.0@.inv(),
    {
        proof {
            lemma_resume_keeps_invariant(self@, reply);
        }
        let mut idle = self;
        let mut exchange = Exchange::Idle;
        core::mem::swap(&mut idle.exchange, &mut exchange);
        match (exchange, reply) {
            (Exchange::Managed(op), Reply::Managed(r)) => match op.resume(r) {
                JniPoll::Pending(next, call) => (
                    Capture { exchange: Exchange::Managed(next), ..idle },
                    Action::Managed(call),
                ),
                JniPoll::Ready(Ok(value)) => idle.advance(Outcome::Managed(value)),
                JniPoll::Ready(Err(e)) => idle.advance(Outcome::Failed(e)),
            },
            (Exchange::Debug(op), Reply::Debug(r)) => match op.resume(r) {
                DebugPoll::Pending(next) => (
                    Capture { exchange: Exchange::Debug(next), ..idle },
                    Action::Debug(next.call),
                ),
                DebugPoll::Ready(Ok(value)) => idle.advance(Outcome::Debug(value)),
                DebugPoll::Ready(Err(e)) => idle.advance(Outcome::Failed(e)),
            },
            (Exchange::Idle, _) => idle.finish(Err(Error::unexpected_reply())),
            _ => idle.advance(Outcome::Failed(Error::unexpected_reply())),
        }
    }

    /// Whether the capture is over.
    pub fn is_finished(&self) -> (finished: bool)
        ensures
            finished == (self@.stage == Step::Finished),
    {
        matches!(self.stage, Step::Finished)
    }
}

/// Starts the capture of `exception`, thrown on `thread`.
///
/// The capture begins with the lookup of the cache class. It is driven by
/// invoking what it asks for and handing the reply to [`Capture::resume`],
/// until it answers that it is finished.
pub fn inner_callback(jvmti_env: JvmTiEnv, jni_env: JniEnv, thread: u64, exception: u64) -> (start: (
    Capture,
    Action,
))
    ensures
        (start.0@, start.1@) == begin(jvmti_env, jni_env, thread, exception),
        start.0@.inv(),
{
    proof {
        lemma_begin_establishes_invariant(jvmti_env, jni_env, thread, exception);
    }
    let mut jni_env = jni_env;
    let poll = jni_env.find_class(CACHE_CLASS);
    Capture::fresh(jvmti_env, jni_env, thread, exception).managed(Step::CacheClass, poll)
}

/// Every name and signature that a capture hands to the runtime is plain
/// text without a zero byte, so no lookup of a capture is refused before its
/// first call.
pub proof fn lemma_names_are_plain()
    ensures
        !contains_nul(CACHE_CLASS@),
        !contains_nul(SHOULD_CACHE@),
        !contains_nul(SHOULD_CACHE_SIGNATURE@),
        !contains_nul(CACHE_ADD@),
        !contains_nul(CACHE_ADD_SIGNATURE@),
        !contains_nul(FRAME_CLASS@),
        !contains_nul(FRAME_CONSTRUCTOR_SIGNATURE@),
        !contains_nul(LOCAL_CLASS@),
        !contains_nul(LOCAL_CONSTRUCTOR_SIGNATURE@),
        !contains_nul(CONSTRUCTOR@),
{
    reveal_strlit("com/rollbar/jvmti/ThrowableCache");
    reveal_strlit("shouldCacheThrowable");
    reveal_strlit("(Ljava/lang/Throwable;I)Z");
    reveal_strlit("add");
    reveal_strlit("(Ljava/lang/Throwable;[Lcom/rollbar/jvmti/CacheFrame;)V");
    reveal_strlit("com/rollbar/jvmti/CacheFrame");
    reveal_strlit("(Ljava/lang/reflect/Method;[Lcom/rollbar/jvmti/LocalVariable;)V");
    reveal_strlit("com/rollbar/jvmti/LocalVariable");
    reveal_strlit("(Ljava/lang/String;Ljava/lang/Object;)V");
    reveal_strlit("<init>");
    lemma_plain_text_has_no_nul(CACHE_CLASS@);
    lemma_plain_text_has_no_nul(SHOULD_CACHE@);
    lemma_plain_text_has_no_nul(SHOULD_CACHE_SIGNATURE@);
    lemma_plain_text_has_no_nul(CACHE_ADD@);
    lemma_plain_text_has_no_nul(CACHE_ADD_SIGNATURE@);
    lemma_plain_text_has_no_nul(FRAME_CLASS@);
    lemma_plain_text_has_no_nul(FRAME_CONSTRUCTOR_SIGNATURE@);
    lemma_plain_text_has_no_nul(LOCAL_CLASS@);
    lemma_plain_text_has_no_nul(LOCAL_CONSTRUCTOR_SIGNATURE@);
    lemma_plain_text_has_no_nul(CONSTRUCTOR@);
}

} // verus!

//! What holds of every capture, whatever the runtime replies.
//!
//! The statements here are about [`CaptureView::resume`], the function that
//! [`Capture::resume`](crate::exceptions::Capture::resume) computes. Those
//! about a single reply speak of [`step`]; those about a whole capture speak
//! of [`run`] and [`asked`].
use crate::env::{DebugCall, DebugReply, DebugValue, JvmTiEnv, JVMTI_ERROR_NONE};
use crate::errors::{unexpected_reply, JVMTI_ERROR_ABSENT_INFORMATION, JVMTI_ERROR_NATIVE_METHOD};
use crate::exceptions::{
    begin, lemma_begin_establishes_invariant, lemma_names_are_plain, lemma_resume_keeps_invariant,
    ActionView, CaptureView, ExchangeView, OutcomeView, Reply, Step, CACHE_CLASS, LOCAL_CLASS,
};
use crate::jni::{
    boxing, class_lookup, law_operation_ends, JniCallView, JniEnv, JniOpView, JniPollView, JniReply,
    JniValueView, Plan,
};
use crate::text::contains_nul;
use crate::values::{lemma_boxing_names_are_plain, LocalVariableEntry, RawValue, SignatureKind};
use vstd::prelude::*;

verus! {

/// One step of a capture: the state after a reply, and what the capture
/// asks for then.
#[verifier::opaque]
pub open spec fn step(c: CaptureView, reply: Reply) -> (CaptureView, ActionView) {
    c.resume(reply)
}

/// A step is what [`CaptureView::resume`] computes.
pub proof fn lemma_step_is_resume(c: CaptureView, reply: Reply)
    ensures
        step(c, reply) == c.resume(reply),
{
    reveal(step);
}

/// The state of a capture after it has taken `replies`, one after the other.
pub open spec fn run(c: CaptureView, replies: Seq<Reply>) -> CaptureView
    decreases replies.len(),
{
    if replies.len() == 0 {
        c
    } else {
        step(run(c, replies.drop_last()), replies.last()).0
    }
}

/// What a capture asked for after each of `replies`.
pub open spec fn asked(c: CaptureView, replies: Seq<Reply>) -> Seq<ActionView>
    decreases replies.len(),
{
    if replies.len() == 0 {
        Seq::empty()
    } else {
        asked(c, replies.drop_last()).push(step(run(c, replies.drop_last()), replies.last()).1)
    }
}

/// The invariant holds after any sequence of replies.
pub proof fn lemma_run_keeps_invariant(c: CaptureView, replies: Seq<Reply>)
    requires
        c.inv(),
    ensures
        run(c, replies).inv(),
        asked(c, replies).len() == replies.len(),
    decreases replies.len(),
{
    if replies.len() > 0 {
        lemma_run_keeps_invariant(c, replies.drop_last());
        lemma_step_is_resume(run(c, replies.drop_last()), replies.last());
        lemma_resume_keeps_invariant(run(c, replies.drop_last()), replies.last());
    }
}

/// Whether an action hands frame records to the managed store.
pub open spec fn is_store(action: ActionView) -> bool {
    action matches ActionView::Managed(JniCallView::CallStaticVoidMethod { .. })
}

/// Whether the capture is at a stage that only a decision to keep the
/// exception leads to.
pub open spec fn past_decision(c: CaptureView) -> bool {
    c.stage == Step::CacheAdd || c.stage == Step::StackTrace || c.stage == Step::FrameClass
        || c.stage == Step::FrameArray || c.in_frame() || c.stage == Step::Store
}

/// The object `value`, or null where there is none.
pub open spec fn or_null(value: Option<u64>) -> u64 {
    match value {
        Some(v) => v,
        None => 0,
    }
}

/// The buffers of one table entry, in the order of their release: the name,
/// the signature and, where there is one, the generic signature.
pub open spec fn entry_buffers(entry: LocalVariableEntry) -> Seq<u64> {
    if entry.generic_signature != 0 {
        seq![entry.name, entry.signature, entry.generic_signature]
    } else {
        seq![entry.name, entry.signature]
    }
}

/// The buffers of a table from the entry at `from` on, in the order of
/// their release: those of each entry, then the table itself.
pub open spec fn table_buffers(entries: Seq<LocalVariableEntry>, from: nat, table: u64) -> Seq<u64>
    decreases entries.len() - from,
{
    if from >= entries.len() {
        seq![table]
    } else {
        entry_buffers(entries[from as int]) + table_buffers(entries, from + 1, table)
    }
}

/// The buffers that a capture holds and has not yet asked to release, in
/// the order in which it will.
pub open spec fn outstanding(c: CaptureView) -> Seq<u64> {
    if !c.table_held {
        Seq::empty()
    } else {
        match c.stage {
            Step::ReleaseName => entry_buffers(c.entry()).skip(1) + table_buffers(
                c.entries,
                c.entry_index + 1,
                c.table,
            ),
            Step::ReleaseSignature => entry_buffers(c.entry()).skip(2) + table_buffers(
                c.entries,
                c.entry_index + 1,
                c.table,
            ),
            Step::ReleaseGeneric => table_buffers(c.entries, c.entry_index + 1, c.table),
            Step::ReleaseTable => Seq::empty(),
            _ => table_buffers(c.entries, 0, c.table),
        }
    }
}

/// The buffers that come into a capture's hands with the step from `c` to
/// `next`: those of a local variable table, when the step is the arrival of
/// one.
pub open spec fn obtained(c: CaptureView, next: CaptureView) -> Seq<u64> {
    if next.table_held && !c.table_held {
        table_buffers(next.entries, 0, next.table)
    } else {
        Seq::empty()
    }
}

/// The buffer that an action hands back to the runtime, if it does.
pub open spec fn freed(action: ActionView) -> Seq<u64> {
    match action {
        ActionView::Debug(DebugCall::Deallocate { buffer }) => seq![buffer],
        _ => Seq::empty(),
    }
}

/// Whether the books balance over one step: what was outstanding before
/// and what the step brought is what the capture hands back now and what is
/// outstanding after.
pub open spec fn balanced(c: CaptureView, taken: (CaptureView, ActionView)) -> bool {
    outstanding(c) + obtained(c, taken.0) =~= freed(taken.1) + outstanding(taken.0)
}

/// What the capture asks for on reaching a stage, as far as the statements
/// below speak of it.
pub open spec fn asks_as_due(next: CaptureView, action: ActionView) -> bool {
    match next.stage {
        Step::FrameArray => action == ActionView::Managed(
            JniCallView::NewObjectArray {
                length: next.frames.len() as i32,
                class: next.frame_class,
                init: 0,
            },
        ),
        Step::FrameStore => action matches ActionView::Managed(
            JniCallView::SetObjectArrayElement { array, index, value },
        ) && array == next.frame_array && index == next.frame_index,
        Step::Store => next.frame_index == next.frames.len() && action == ActionView::Managed(
            JniCallView::CallStaticVoidMethod {
                class: next.cache_class,
                method: next.cache_add,
                arg1: next.exception,
                arg2: next.frame_array,
            },
        ),
        Step::Table => action == ActionView::Debug(
            DebugCall::GetLocalVariableTable { method: next.frame().method },
        ),
        Step::LocalArray => action == ActionView::Managed(
            JniCallView::NewObjectArray {
                length: next.entries.len() as i32,
                class: next.local_class,
                init: 0,
            },
        ),
        Step::LocalObject => action == ActionView::Managed(
            JniCallView::NewObject {
                class: next.local_class,
                ctor: next.local_constructor,
                arg1: next.name,
                arg2: or_null(next.value),
            },
        ),
        Step::LocalStore => action matches ActionView::Managed(
            JniCallView::SetObjectArrayElement { array, index, value },
        ) && array == next.locals && index == next.entry_index,
        Step::DeclaringClass => action == ActionView::Debug(
            DebugCall::GetMethodDeclaringClass { method: next.frame().method },
        ) && (next.table_held ==> next.entry_index == next.entries.len()),
        Step::FrameObject => action matches ActionView::Managed(
            JniCallView::NewObject { class, ctor, arg1, arg2 },
        ) && class == next.frame_constructor_class && arg1 == next.frame_method && arg2
            == next.locals,
        _ => true,
    }
}

/// How far the capture is from its end, by the part of the capture it is
/// in.
pub open spec fn parts_left(c: CaptureView) -> nat {
    match c.stage {
        Step::CacheClass => 10,
        Step::ShouldCache => 9,
        Step::FrameCount => 8,
        Step::Policy => 7,
        Step::CacheAdd => 6,
        Step::StackTrace => 5,
        Step::FrameClass => 4,
        Step::FrameArray => 3,
        Step::Store => 1,
        Step::Finished => 0,
        _ => 2,
    }
}

/// The frames that are still to be built, the one in work included.
pub open spec fn frames_left(c: CaptureView) -> nat {
    if c.in_frame() {
        (c.frames.len() - c.frame_index) as nat
    } else {
        0
    }
}

/// How far the building of a frame is from its end, by the part of the
/// building it is in: the table, the local records, the frame record, the
/// release, the storing.
pub open spec fn frame_parts_left(c: CaptureView) -> nat {
    if c.stage == Step::Table {
        4
    } else if c.in_table() {
        3
    } else if c.in_frame_object() {
        2
    } else if c.in_release() {
        1
    } else {
        0
    }
}

/// The entries that are still to be dealt with in the part of the building
/// that goes through the table, the one in work included.
pub open spec fn entries_left(c: CaptureView) -> nat {
    match c.stage {
        Step::LocalClass | Step::LocalConstructor | Step::LocalArray => c.entries.len() + 1,
        Step::LocalName
        | Step::LocalRead
        | Step::LocalBox
        | Step::LocalObject
        | Step::LocalStore
        | Step::ReleaseName
        | Step::ReleaseSignature
        | Step::ReleaseGeneric => (c.entries.len() - c.entry_index) as nat,
        _ => 0,
    }
}

/// The operations that are still to come for the entry or the record in
/// work.
pub open spec fn operations_left(c: CaptureView) -> nat {
    match c.stage {
        Step::LocalName | Step::DeclaringClass => 5,
        Step::LocalRead | Step::Reflected => 4,
        Step::LocalBox | Step::FrameConstructorClass | Step::LocalClass | Step::ReleaseName => 3,
        Step::LocalObject
        | Step::FrameConstructor
        | Step::LocalConstructor
        | Step::ReleaseSignature => 2,
        _ => 1,
    }
}

/// The replies that the operation in progress still takes, at most.
pub open spec fn replies_left(c: CaptureView) -> nat {
    match c.exchange {
        ExchangeView::Managed(op) => crate::jni::replies_left(op),
        ExchangeView::Debug(op) => if op.call == DebugCall::SetEventCallbacks {
            2
        } else {
            1
        },
        ExchangeView::Idle => 0,
    }
}

/// Whether `next` is nearer to the end of the capture than `c` by what the
/// stages alone tell.
pub open spec fn nearer(c: CaptureView, next: CaptureView) -> bool {
    decreases_to!(
        parts_left(c), frames_left(c), frame_parts_left(c), entries_left(c), operations_left(c)
        => parts_left(next), frames_left(next), frame_parts_left(next), entries_left(next),
        operations_left(next)
    )
}

/// How a capture moves from stage to stage when an operation ends.
pub open spec fn moves_as_due(c: CaptureView, outcome: OutcomeView, next: CaptureView) -> bool {
    &&& c.stage != Step::Finished ==> nearer(c, next)
    &&& past_decision(next) ==> past_decision(c) || (c.stage == Step::Policy && outcome.boolean()
        == Some(true))
    &&& c.stage != Step::StackTrace && next.stage != Step::Finished ==> next.frames == c.frames
    &&& next.frame_index != c.frame_index ==> (c.stage == Step::FrameStore && next.frame_index
        == c.frame_index + 1) || (c.stage == Step::FrameArray && next.frame_index == 0)
    &&& c.in_local() && next.in_local() ==> next.entry_index == c.entry_index || (c.stage
        == Step::LocalStore && next.stage == Step::LocalName && next.entry_index == c.entry_index
        + 1)
    &&& c.stage == Step::FrameStore && outcome.done() ==> next.frame_index == c.frame_index + 1 && (
    next.stage == Step::Table || next.stage == Step::Store)
    &&& next.stage == Step::FrameStore ==> next.frame_index == c.frame_index
    &&& next.stage == Step::LocalStore ==> next.entry_index == c.entry_index
    &&& next.table_held && !c.table_held ==> c.stage == Step::Table && (outcome matches OutcomeView::Debug(
        DebugValue::Table { table, entries },
    ) && next.table == table && next.entries == entries@)
    &&& c.table_held ==> next.table == c.table && next.entries == c.entries
    &&& c.table_held && !next.table_held ==> c.stage == Step::ReleaseTable
    &&& c.stage == Step::Table && outcome.error().unavailable() ==> next.stage
        == Step::DeclaringClass && !next.table_held && next.locals == 0
}

/// Everything the statements below need to know of the end of one
/// operation.
pub open spec fn lawful(
    c: CaptureView,
    outcome: OutcomeView,
    taken: (CaptureView, ActionView),
) -> bool {
    &&& balanced(c, taken)
    &&& asks_as_due(taken.0, taken.1)
    &&& moves_as_due(c, outcome, taken.0)
    &&& is_store(taken.1) ==> taken.0.stage == Step::Store
}

proof fn lemma_callback_is_lawful(c: CaptureView, outcome: OutcomeView)
    requires
        c.settled(),
        !c.in_frame(),
        c.stage != Step::Finished,
    ensures
        c.stage == Step::StackTrace || c.stage == Step::FrameClass || c.stage == Step::FrameArray
            ==> lawful(c, outcome, c.build_stack_trace_frames(outcome)),
        c.stage != Step::StackTrace && c.stage != Step::FrameClass && c.stage != Step::FrameArray
            ==> lawful(c, outcome, c.callback(outcome)),
{
}

proof fn lemma_frame_store_is_lawful(c: CaptureView, outcome: OutcomeView)
    requires
        c.settled(),
        c.stage == Step::FrameStore,
    ensures
        lawful(c, outcome, c.build_stack_trace_frames(outcome)),
{
}

proof fn lemma_build_frame_is_lawful(c: CaptureView, outcome: OutcomeView)
    requires
        c.settled(),
        c.stage == Step::Table,
    ensures
        lawful(c, outcome, c.build_frame(outcome)),
{
    match outcome {
        OutcomeView::Debug(DebugValue::Table { table, entries }) => {
            if entries@.len() <= i32::MAX {
                let held = CaptureView {
                    table_held: true,
                    table,
                    entries: entries@,
                    entry_index: 0,
                    gathered: None,
                    ..c
                };
                match class_lookup(Plan::Object, LOCAL_CLASS@) {
                    JniPollView::Pending(op, call) => {},
                    JniPollView::Ready(Err(e)) => {
                        assert(balanced(held, held.fail(e)));
                    },
                    JniPollView::Ready(Ok(_)) => {
                        assert(balanced(held, held.fail(unexpected_reply())));
                    },
                }
            }
        },
        _ => {},
    }
}

proof fn lemma_gather_is_lawful(c: CaptureView, outcome: OutcomeView)
    requires
        c.settled(),
        c.stage == Step::LocalClass || c.stage == Step::LocalConstructor || c.stage
            == Step::LocalArray,
    ensures
        lawful(c, outcome, c.gather_local_information(outcome)),
{
}

proof fn lemma_local_is_lawful(c: CaptureView, outcome: OutcomeView)
    requires
        c.settled(),
        c.stage == Step::LocalName || c.stage == Step::LocalObject || c.stage == Step::LocalStore,
    ensures
        lawful(c, outcome, c.make_local_variable(outcome)),
{
}

proof fn lemma_value_is_lawful(c: CaptureView, outcome: OutcomeView)
    requires
        c.settled(),
        c.stage == Step::LocalRead || c.stage == Step::LocalBox,
    ensures
        lawful(c, outcome, c.get_local_value(outcome)),
{
}

proof fn lemma_frame_object_is_lawful(c: CaptureView, outcome: OutcomeView)
    requires
        c.settled(),
        c.in_frame_object(),
    ensures
        lawful(c, outcome, c.make_frame_object(outcome)),
{
}

proof fn lemma_release_is_lawful(c: CaptureView, outcome: OutcomeView)
    requires
        c.settled(),
        c.in_release(),
    ensures
        lawful(c, outcome, c.release()),
{
}

/// The end of an operation moves a capture on lawfully, whatever the stage.
proof fn lemma_advance_is_lawful(c: CaptureView, outcome: OutcomeView)
    requires
        c.settled(),
    ensures
        lawful(c, outcome, c.advance(outcome)),
{
    if c.stage == Step::FrameStore {
        lemma_frame_store_is_lawful(c, outcome);
    } else if c.stage == Step::Table {
        lemma_build_frame_is_lawful(c, outcome);
    } else if c.in_release() {
        lemma_release_is_lawful(c, outcome);
    } else if c.stage == Step::LocalRead || c.stage == Step::LocalBox {
        lemma_value_is_lawful(c, outcome);
    } else if c.in_local() {
        lemma_local_is_lawful(c, outcome);
    } else if c.in_frame_object() {
        lemma_frame_object_is_lawful(c, outcome);
    } else if c.in_frame() {
        lemma_gather_is_lawful(c, outcome);
    } else if c.stage != Step::Finished {
        lemma_callback_is_lawful(c, outcome);
    }
}

/// A step is the end of the operation in progress, by which the capture
/// moves on lawfully, or it changes nothing but that operation.
pub proof fn lemma_step_is_lawful(c: CaptureView, reply: Reply)
    requires
        c.inv(),
    ensures
        step(c, reply).0.inv(),
        match c.ended(reply) {
            Some(outcome) => lawful(c, outcome, step(c, reply)),
            None => step(c, reply) == c.carried(reply) && step(c, reply).0.stage == c.stage && step(
                c,
                reply,
            ).0 == (CaptureView { exchange: step(c, reply).0.exchange, ..c }) && !is_store(
                step(c, reply).1,
            ) && balanced(c, step(c, reply)),
        },
{
    reveal(step);
    lemma_resume_keeps_invariant(c, reply);
    match c.ended(reply) {
        Some(outcome) => {
            assert(c.idle().settled());
            lemma_advance_is_lawful(c.idle(), outcome);
            assert(outstanding(c.idle()) == outstanding(c));
        },
        None => {},
    }
}

/// The decision that `reply` brings, if the capture awaits the decision and
/// the reply ends the call of the decision method well.
pub open spec fn decision(c: CaptureView, reply: Reply) -> Option<bool> {
    if c.stage == Step::Policy {
        match c.ended(reply) {
            Some(outcome) => outcome.boolean(),
            None => None,
        }
    } else {
        None
    }
}

/// Whether, somewhere among `replies`, the managed side decided to keep the
/// exception.
pub open spec fn consented(c: CaptureView, replies: Seq<Reply>) -> bool
    decreases replies.len(),
{
    if replies.len() == 0 {
        false
    } else {
        consented(c, replies.drop_last()) || decision(run(c, replies.drop_last()), replies.last())
            == Some(true)
    }
}

/// A capture opens with the lookup of the class that decides on captures.
pub proof fn law_capture_opens_with_policy_class(
    jvmti_env: JvmTiEnv,
    jni_env: JniEnv,
    thread: u64,
    exception: u64,
)
    ensures
        ({
            let (start, action) = begin(jvmti_env, jni_env, thread, exception);
            &&& action == ActionView::Managed(JniCallView::FindClass { name: CACHE_CLASS@ })
            &&& start.stage == Step::CacheClass
            &&& start.thread == thread
            &&& start.exception == exception
            &&& start.inv()
        }),
{
    lemma_names_are_plain();
    lemma_begin_establishes_invariant(jvmti_env, jni_env, thread, exception);
}

/// A decision against keeping the exception ends the capture at once and
/// well: nothing further is asked of the runtime.
pub proof fn law_declined_capture_ends_well(c: CaptureView, reply: Reply)
    requires
        c.inv(),
        decision(c, reply) == Some(false),
    ensures
        step(c, reply).1 == ActionView::Finished(Ok(())),
        step(c, reply).0.stage == Step::Finished,
{
    reveal(step);
}

/// A capture in which the managed side never decides to keep the exception
/// never asks for the store: not with its first request, and not after any
/// reply.
pub proof fn law_declined_capture_stores_nothing(
    jvmti_env: JvmTiEnv,
    jni_env: JniEnv,
    thread: u64,
    exception: u64,
    replies: Seq<Reply>,
)
    requires
        !consented(begin(jvmti_env, jni_env, thread, exception).0, replies),
    ensures
        !is_store(begin(jvmti_env, jni_env, thread, exception).1),
        forall|i: int|
            0 <= i < replies.len() ==> !is_store(
                #[trigger] asked(begin(jvmti_env, jni_env, thread, exception).0, replies)[i],
            ),
        !past_decision(run(begin(jvmti_env, jni_env, thread, exception).0, replies)),
    decreases replies.len(),
{
    let start = begin(jvmti_env, jni_env, thread, exception).0;
    lemma_begin_establishes_invariant(jvmti_env, jni_env, thread, exception);
    if replies.len() > 0 {
        let before = replies.drop_last();
        law_declined_capture_stores_nothing(jvmti_env, jni_env, thread, exception, before);
        lemma_run_keeps_invariant(start, before);
        lemma_step_is_lawful(run(start, before), replies.last());
        assert forall|i: int| 0 <= i < replies.len() implies !is_store(
            #[trigger] asked(start, replies)[i],
        ) by {
            if i < before.len() {
                assert(asked(start, replies)[i] == asked(start, before)[i]);
            }
        }
    }
}

/// All buffers that came into a capture's hands in the course of `replies`.
pub open spec fn acquired(c: CaptureView, replies: Seq<Reply>) -> Seq<u64>
    decreases replies.len(),
{
    if replies.len() == 0 {
        Seq::empty()
    } else {
        acquired(c, replies.drop_last()) + obtained(run(c, replies.drop_last()), run(c, replies))
    }
}

/// All buffers that a capture handed back in the course of `replies`.
pub open spec fn released(c: CaptureView, replies: Seq<Reply>) -> Seq<u64>
    decreases replies.len(),
{
    if replies.len() == 0 {
        Seq::empty()
    } else {
        released(c, replies.drop_last()) + freed(asked(c, replies).last())
    }
}

/// Two balanced books, one after the other, make one balanced book.
proof fn lemma_books_add_up(
    held: Seq<u64>,
    acquired: Seq<u64>,
    released: Seq<u64>,
    between: Seq<u64>,
    obtained: Seq<u64>,
    freed: Seq<u64>,
    after: Seq<u64>,
)
    requires
        held + acquired == released + between,
        between + obtained == freed + after,
    ensures
        held + (acquired + obtained) == (released + freed) + after,
{
    assert(held + (acquired + obtained) =~= (held + acquired) + obtained);
    assert((released + between) + obtained =~= released + (between + obtained));
    assert(released + (freed + after) =~= (released + freed) + after);
}

/// Every native buffer is released exactly once.
///
/// Over any sequence of replies, the buffers a capture has handed back are,
/// one for one and in order, the buffers that came into its hands, except
/// for those it still holds; and it holds none when it is over, nor when it
/// turns to the next frame. This is so however the assembly of a frame
/// ends: a failure halfway is reported only after the release.
pub proof fn law_buffers_released_once(c: CaptureView, replies: Seq<Reply>)
    requires
        c.inv(),
    ensures
        outstanding(c) + acquired(c, replies) == released(c, replies) + outstanding(run(c, replies)),
        run(c, replies).stage == Step::Finished || run(c, replies).stage == Step::Table
            || run(c, replies).stage == Step::FrameStore || run(c, replies).stage == Step::Store
            ==> outstanding(run(c, replies)).len() == 0,
    decreases replies.len(),
{
    lemma_run_keeps_invariant(c, replies);
    if replies.len() == 0 {
        assert(outstanding(c) + Seq::<u64>::empty() =~= Seq::<u64>::empty() + outstanding(c));
    } else {
        let before = replies.drop_last();
        let middle = run(c, before);
        law_buffers_released_once(c, before);
        lemma_run_keeps_invariant(c, before);
        lemma_step_is_lawful(middle, replies.last());
        let last = step(middle, replies.last());
        assert(balanced(middle, last));
        lemma_books_add_up(
            outstanding(c),
            acquired(c, before),
            released(c, before),
            outstanding(middle),
            obtained(middle, last.0),
            freed(last.1),
            outstanding(last.0),
        );
    }
}

/// A frame whose local variable table is unavailable does not fail the
/// capture.
///
/// When the debug interface answers the request for a table with the status
/// for absent information or for a native method, the capture neither ends
/// nor releases anything: it goes on to construct the frame record of the
/// same frame, without a table and with no array of locals.
pub proof fn law_unavailable_table_is_no_failure(c: CaptureView, status: i32, value: DebugValue)
    requires
        c.inv(),
        c.stage == Step::Table,
        status == JVMTI_ERROR_ABSENT_INFORMATION || status == JVMTI_ERROR_NATIVE_METHOD,
    ensures
        ({
            let (next, action) = step(c, Reply::Debug(DebugReply { status, value }));
            &&& action == ActionView::Debug(
                DebugCall::GetMethodDeclaringClass { method: c.frame().method },
            )
            &&& next.stage == Step::DeclaringClass
            &&& next.frame_index == c.frame_index
            &&& next.frames == c.frames
            &&& !next.table_held
            &&& next.locals == 0
        }),
{
    lemma_step_is_lawful(c, Reply::Debug(DebugReply { status, value }));
}

/// A table is held from its arrival to the release of its last buffer.
///
/// A capture comes to hold a table only by the success of the request for
/// one, and the table it holds then is the one that arrived. While it holds
/// a table, neither the table nor its entries change. And it ceases to
/// hold the table only with the reply to the release of the table itself,
/// which is the last of the releases.
pub proof fn law_table_held_until_released(c: CaptureView, reply: Reply)
    requires
        c.inv(),
    ensures
        ({
            let next = step(c, reply).0;
            &&& next.table_held && !c.table_held ==> c.stage == Step::Table && (c.ended(reply) matches Some(
                OutcomeView::Debug(DebugValue::Table { table, entries }),
            ) && next.table == table && next.entries == entries@)
            &&& c.table_held ==> next.table == c.table && next.entries == c.entries
            &&& c.table_held && !next.table_held ==> c.stage == Step::ReleaseTable
        }),
{
    lemma_step_is_lawful(c, reply);
}

/// A frame record is made of the frame's reflective method and its array of
/// locals, and a frame without a table has none.
///
/// Whenever a capture comes to ask for the construction of a frame record,
/// the request carries the array of locals of the frame, and that array is
/// null if no table is held, which is the case exactly for frames whose
/// table was unavailable.
pub proof fn law_frame_record_carries_locals(c: CaptureView, reply: Reply)
    requires
        c.inv(),
        c.stage != Step::FrameObject,
    ensures
        ({
            let (next, action) = step(c, reply);
            next.stage == Step::FrameObject ==> {
                &&& action matches ActionView::Managed(JniCallView::NewObject { class, ctor, arg1, arg2 })
                &&& class == next.frame_constructor_class
                &&& arg1 == next.frame_method
                &&& arg2 == next.locals
                &&& !next.table_held ==> arg2 == 0
            }
        }),
{
    lemma_step_is_lawful(c, reply);
}

/// After a frame record has been stored, the capture turns to the next
/// frame, and after the last frame to the delivery.
pub proof fn law_walk_proceeds(c: CaptureView, reply: Reply)
    requires
        c.inv(),
        c.stage == Step::FrameStore,
        c.ended(reply) == Some(OutcomeView::Managed(JniValueView::Unit)),
    ensures
        ({
            let (next, action) = step(c, reply);
            &&& next.frame_index == c.frame_index + 1
            &&& next.frames == c.frames
            &&& if next.frame_index < next.frames.len() {
                &&& next.stage == Step::Table
                &&& action == ActionView::Debug(
                    DebugCall::GetLocalVariableTable { method: next.frame().method },
                )
            } else {
                &&& next.stage == Step::Store
                &&& action == ActionView::Managed(
                    JniCallView::CallStaticVoidMethod {
                        class: next.cache_class,
                        method: next.cache_add,
                        arg1: next.exception,
                        arg2: next.frame_array,
                    },
                )
            }
        }),
{
    lemma_step_is_lawful(c, reply);
}

/// The value of a local record is present if and only if its entry is live.
///
/// Whenever a capture comes to ask for the construction of a local record,
/// the request carries the entry's name and either a value or null, and it
/// carries a value if and only if the frame's location lies within the
/// entry's range, both ends included.
pub proof fn law_value_present_iff_live(c: CaptureView, reply: Reply)
    requires
        c.inv(),
        c.stage != Step::LocalObject,
    ensures
        ({
            let (next, action) = step(c, reply);
            next.stage == Step::LocalObject ==> {
                &&& next.value is Some <==> next.entry().spec_is_live(next.frame().location)
                &&& action == ActionView::Managed(
                    JniCallView::NewObject {
                        class: next.local_class,
                        ctor: next.local_constructor,
                        arg1: next.name,
                        arg2: or_null(next.value),
                    },
                )
            }
        }),
{
    lemma_step_is_lawful(c, reply);
}

/// One frame record for each frame that the walk returned.
///
/// The array of frame records is created with as many places as the walk
/// returned frames. A frame record is stored at the place of the frame it
/// was built for, and only then does the capture turn to the next place.
/// And when the capture asks for the store, every frame has been dealt
/// with.
pub proof fn law_one_record_per_frame(c: CaptureView, reply: Reply)
    requires
        c.inv(),
    ensures
        ({
            let (next, action) = step(c, reply);
            &&& next.stage == Step::FrameArray && c.stage != Step::FrameArray ==> action
                == ActionView::Managed(
                JniCallView::NewObjectArray {
                    length: next.frames.len() as i32,
                    class: next.frame_class,
                    init: 0,
                },
            )
            &&& next.stage == Step::FrameStore && c.stage != Step::FrameStore ==> (action matches ActionView::Managed(
                JniCallView::SetObjectArrayElement { array, index, value },
            ) && array == next.frame_array && index == next.frame_index && next.frame_index
                == c.frame_index)
            &&& next.stage == Step::Store && c.stage != Step::Store ==> next.frame_index
                == next.frames.len()
            &&& c.stage != Step::StackTrace && next.stage != Step::Finished ==> next.frames
                == c.frames
            &&& next.frame_index != c.frame_index ==> (c.stage == Step::FrameStore && next.frame_index
                == c.frame_index + 1) || (c.stage == Step::FrameArray && next.frame_index == 0)
        }),
{
    lemma_step_is_lawful(c, reply);
}

/// One local record for each entry of the table, in table order.
///
/// The array of local records is created with as many places as the table
/// has entries. A local record is stored at the place of the entry it was
/// made for, and only then does the capture turn to the next entry. And
/// when the capture turns to the frame record while it holds a table, every
/// entry has been dealt with.
pub proof fn law_one_record_per_entry(c: CaptureView, reply: Reply)
    requires
        c.inv(),
    ensures
        ({
            let (next, action) = step(c, reply);
            &&& next.stage == Step::LocalArray && c.stage != Step::LocalArray ==> action
                == ActionView::Managed(
                JniCallView::NewObjectArray {
                    length: next.entries.len() as i32,
                    class: next.local_class,
                    init: 0,
                },
            )
            &&& next.stage == Step::LocalStore && c.stage != Step::LocalStore ==> (action matches ActionView::Managed(
                JniCallView::SetObjectArrayElement { array, index, value },
            ) && array == next.locals && index == next.entry_index && next.entry_index
                == c.entry_index)
            &&& next.stage == Step::DeclaringClass && c.stage != Step::DeclaringClass
                && next.table_held ==> next.entry_index == next.entries.len()
            &&& c.in_local() && next.in_local() ==> next.entry_index == c.entry_index
                || (c.stage == Step::LocalStore && next.stage == Step::LocalName
                && next.entry_index == c.entry_index + 1)
        }),
{
    lemma_step_is_lawful(c, reply);
}

/// The reply of a debug interface entry point that succeeded with `value`.
pub open spec fn success(value: DebugValue) -> Reply {
    Reply::Debug(DebugReply { status: JVMTI_ERROR_NONE, value })
}

/// The reply of a call interface entry point that returned `handle`.
pub open spec fn handle(handle: u64) -> Reply {
    Reply::Managed(JniReply::Handle(handle))
}

/// The reply of an exception check that found nothing pending.
pub open spec fn nothing_pending() -> Reply {
    Reply::Managed(JniReply::Boolean(0))
}

/// Whether an operation, given `reply`, asks for `call` and goes on.
pub open spec fn goes_on(op: JniOpView, reply: JniReply, call: JniCallView) -> bool {
    op.resume(reply) matches JniPollView::Pending(_, asked) && asked == call
}

/// The operation that `op` becomes by taking `reply`, if it goes on.
pub open spec fn following(op: JniOpView, reply: JniReply) -> JniOpView {
    op.resume(reply)->Pending_0
}

/// A boxing looks the class up, then the factory, then calls the factory
/// with the value it was opened with.
///
/// Open a boxing with a class name, a factory signature and a raw value,
/// and let the lookups succeed with `class` and `factory` and the call with
/// `boxed`, no exception pending anywhere. Then the entry points asked for
/// are: the class lookup by that name; an exception check; the lookup of
/// `valueOf` with that signature in `class`; an exception check; the call
/// of `factory` on `class` with that raw value; an exception check. The
/// operation ends with `boxed`.
pub proof fn law_boxing_calls_factory(
    name: Seq<char>,
    signature: Seq<char>,
    raw: RawValue,
    class: u64,
    factory: u64,
    boxed: u64,
)
    requires
        !contains_nul(name),
        !contains_nul(signature),
        class != 0,
        factory != 0,
        boxed != 0,
    ensures
        ({
            let clear = JniReply::Boolean(0);
            let opened = boxing(name, signature, raw);
            let looking = opened->Pending_0;
            let found = following(looking, JniReply::Handle(class));
            let resolving = following(found, clear);
            let resolved = following(resolving, JniReply::Handle(factory));
            let calling = following(resolved, clear);
            let called = following(calling, JniReply::Handle(boxed));
            &&& opened matches JniPollView::Pending(_, first) && first == (JniCallView::FindClass {
                name,
            })
            &&& goes_on(looking, JniReply::Handle(class), JniCallView::ExceptionCheck)
            &&& goes_on(
                found,
                clear,
                JniCallView::GetStaticMethodID { class, name: "valueOf"@, signature },
            )
            &&& goes_on(resolving, JniReply::Handle(factory), JniCallView::ExceptionCheck)
            &&& goes_on(
                resolved,
                clear,
                JniCallView::CallStaticObjectMethod { class, method: factory, arg: raw },
            )
            &&& goes_on(calling, JniReply::Handle(boxed), JniCallView::ExceptionCheck)
            &&& called.resume(clear) == JniPollView::Ready(Ok(JniValueView::Object(boxed)))
        }),
{
    lemma_boxing_names_are_plain(SignatureKind::Unknown);
}

/// A capture passes on what the operation in progress asks for.
proof fn lemma_operation_goes_on(c: CaptureView, op: JniOpView, reply: JniReply, call: JniCallView)
    requires
        c.exchange == ExchangeView::Managed(op),
        goes_on(op, reply, call),
    ensures
        step(c, Reply::Managed(reply)) == (
            CaptureView { exchange: ExchangeView::Managed(following(op, reply)), ..c },
            ActionView::Managed(call),
        ),
{
    reveal(step);
}

/// The read of a primitive slot is followed by the boxing of what was read.
proof fn lemma_read_opens_boxing(c: CaptureView, raw: RawValue)
    requires
        c.inv(),
        c.stage == Step::LocalRead,
        c.entry().kind.spec_wrapper_class() is Some,
        raw.spec_kind() == c.entry().kind.spec_read().unwrap(),
    ensures
        ({
            let opened = boxing(
                c.entry().kind.spec_wrapper_class().unwrap(),
                c.entry().kind.spec_factory_signature().unwrap(),
                raw,
            );
            &&& opened is Pending
            &&& step(c, success(DebugValue::Local(raw))) == (
                CaptureView {
                    stage: Step::LocalBox,
                    exchange: ExchangeView::Managed(opened->Pending_0),
                    ..c
                },
                ActionView::Managed(opened->Pending_1),
            )
        }),
{
    reveal(step);
    lemma_boxing_names_are_plain(c.entry().kind);
}

/// The end of a boxing is followed by the construction of the local record
/// from the entry's name and the boxed value.
proof fn lemma_boxed_value_makes_record(c: CaptureView, op: JniOpView, reply: JniReply, boxed: u64)
    requires
        c.stage == Step::LocalBox,
        c.exchange == ExchangeView::Managed(op),
        op.resume(reply) == JniPollView::Ready(Ok(JniValueView::Object(boxed))),
    ensures
        step(c, Reply::Managed(reply)).1 == ActionView::Managed(
            JniCallView::NewObject {
                class: c.local_class,
                ctor: c.local_constructor,
                arg1: c.name,
                arg2: boxed,
            },
        ),
        step(c, Reply::Managed(reply)).0.value == Some(boxed),
        step(c, Reply::Managed(reply)).0.stage == Step::LocalObject,
{
    reveal(step);
}

/// Boxing hands the wrapper's factory the raw value that was read.
///
/// Take a capture that reads the slot of a live primitive entry, and let
/// the read succeed with `raw`, the lookups of class and factory with
/// `class` and `factory`, and the factory call with `boxed`, no exception
/// pending anywhere. Then the capture asks, in this order: for the wrapper
/// class of the entry's kind; for that class's `valueOf` with the signature
/// of the entry's kind; for the call of that factory with `raw`, unchanged;
/// and for a local record made of the entry's name and `boxed`. An
/// exception check follows each of the first three.
pub proof fn law_boxing_round_trip(c: CaptureView, raw: RawValue, class: u64, factory: u64, boxed: u64)
    requires
        c.inv(),
        c.stage == Step::LocalRead,
        c.entry().kind.spec_wrapper_class() is Some,
        raw.spec_kind() == c.entry().kind.spec_read().unwrap(),
        class != 0,
        factory != 0,
        boxed != 0,
    ensures
        ({
            let read = step(c, success(DebugValue::Local(raw)));
            let found = step(read.0, handle(class));
            let class_checked = step(found.0, nothing_pending());
            let resolved = step(class_checked.0, handle(factory));
            let factory_checked = step(resolved.0, nothing_pending());
            let called = step(factory_checked.0, handle(boxed));
            let call_checked = step(called.0, nothing_pending());
            &&& read.1 == ActionView::Managed(
                JniCallView::FindClass { name: c.entry().kind.spec_wrapper_class().unwrap() },
            )
            &&& found.1 == ActionView::Managed(JniCallView::ExceptionCheck)
            &&& class_checked.1 == ActionView::Managed(
                JniCallView::GetStaticMethodID {
                    class,
                    name: "valueOf"@,
                    signature: c.entry().kind.spec_factory_signature().unwrap(),
                },
            )
            &&& resolved.1 == ActionView::Managed(JniCallView::ExceptionCheck)
            &&& factory_checked.1 == ActionView::Managed(
                JniCallView::CallStaticObjectMethod { class, method: factory, arg: raw },
            )
            &&& called.1 == ActionView::Managed(JniCallView::ExceptionCheck)
            &&& call_checked.1 == ActionView::Managed(
                JniCallView::NewObject {
                    class: c.local_class,
                    ctor: c.local_constructor,
                    arg1: c.name,
                    arg2: boxed,
                },
            )
            &&& call_checked.0.value == Some(boxed)
        }),
{
    let kind = c.entry().kind;
    let name = kind.spec_wrapper_class().unwrap();
    let signature = kind.spec_factory_signature().unwrap();
    lemma_boxing_names_are_plain(kind);
    law_boxing_calls_factory(name, signature, raw, class, factory, boxed);
    let clear = JniReply::Boolean(0);
    let looking = boxing(name, signature, raw)->Pending_0;
    let found_op = following(looking, JniReply::Handle(class));
    let resolving = following(found_op, clear);
    let resolved_op = following(resolving, JniReply::Handle(factory));
    let calling = following(resolved_op, clear);
    let called_op = following(calling, JniReply::Handle(boxed));

    lemma_read_opens_boxing(c, raw);
    let read = step(c, success(DebugValue::Local(raw)));
    lemma_operation_goes_on(read.0, looking, JniReply::Handle(class), JniCallView::ExceptionCheck);
    let found = step(read.0, handle(class));
    lemma_operation_goes_on(
        found.0,
        found_op,
        clear,
        JniCallView::GetStaticMethodID { class, name: "valueOf"@, signature },
    );
    let class_checked = step(found.0, nothing_pending());
    lemma_operation_goes_on(
        class_checked.0,
        resolving,
        JniReply::Handle(factory),
        JniCallView::ExceptionCheck,
    );
    let resolved = step(class_checked.0, handle(factory));
    lemma_operation_goes_on(
        resolved.0,
        resolved_op,
        clear,
        JniCallView::CallStaticObjectMethod { class, method: factory, arg: raw },
    );
    let factory_checked = step(resolved.0, nothing_pending());
    lemma_operation_goes_on(
        factory_checked.0,
        calling,
        JniReply::Handle(boxed),
        JniCallView::ExceptionCheck,
    );
    let called = step(factory_checked.0, handle(boxed));
    lemma_boxed_value_makes_record(called.0, called_op, clear, boxed);
}

/// Every capture ends.
///
/// With every reply a capture that is not over comes nearer to its end, in
/// this order of weight: by the part of the capture it is in, by the frames
/// that are left, by the part of the frame's building, by the entries that
/// are left, by the operations that are left for the entry or record in
/// work, and by the replies that the operation in progress still takes.
pub proof fn law_capture_ends(c: CaptureView, reply: Reply)
    requires
        c.inv(),
        c.stage != Step::Finished,
    ensures
        ({
            let next = step(c, reply).0;
            decreases_to!(
                parts_left(c), frames_left(c), frame_parts_left(c), entries_left(c),
                operations_left(c), replies_left(c)
                => parts_left(next), frames_left(next), frame_parts_left(next),
                entries_left(next), operations_left(next), replies_left(next)
            )
        }),
{
    lemma_step_is_lawful(c, reply);
    reveal(step);
    match (c.exchange, reply) {
        (ExchangeView::Managed(op), Reply::Managed(r)) => {
            law_operation_ends(op, r);
        },
        _ => {},
    }
}

} // verus!

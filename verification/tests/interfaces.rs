//! Single operations of the two interfaces, the load of the agent, and the
//! values and texts they work with.
use native_agent::agent::{onload, LoadAction, LoadStep};
use native_agent::env::{DebugCall, DebugOp, DebugPoll, DebugReply, DebugValue, JvmTiEnv};
use native_agent::errors::Error;
use native_agent::jni::{JniCall, JniEnv, JniOp, JniPoll, JniReply, JniValue};
use native_agent::text::{decimal, has_nul, hex};
use native_agent::values::{
    LocalVariableEntry, RawValue, SignatureKind, SlotKind, StackFrame, CODE_ARRAY, CODE_BOOLEAN,
    CODE_BYTE, CODE_CHAR, CODE_DOUBLE, CODE_FLOAT, CODE_INT, CODE_LONG, CODE_OBJECT, CODE_SHORT,
};

fn pending(poll: JniPoll) -> (JniOp, JniCall) {
    match poll {
        JniPoll::Pending(op, call) => (op, call),
        JniPoll::Ready(result) => panic!("operation is over: {:?}", result),
    }
}

fn ready(poll: JniPoll) -> Result<JniValue, Error> {
    match poll {
        JniPoll::Ready(result) => result,
        JniPoll::Pending(_, call) => panic!("operation goes on with {:?}", call),
    }
}

/// Feeds replies to an operation and checks what it asks for in between.
fn exchange(poll: JniPoll, script: Vec<(JniCall, JniReply)>) -> Result<JniValue, Error> {
    let mut poll = poll;
    for (expected, reply) in script {
        let (op, call) = pending(poll);
        assert_eq!(call, expected);
        poll = op.resume(reply);
    }
    ready(poll)
}

fn status(op: DebugOp, status: i32, value: DebugValue) -> DebugPoll {
    op.resume(DebugReply { status, value })
}

const NOT_PENDING: JniReply = JniReply::Boolean(0);
const IS_PENDING: JniReply = JniReply::Boolean(1);

fn diagnosis_script(message: &str) -> Vec<(JniCall, JniReply)> {
    vec![
        (JniCall::ExceptionCheck, IS_PENDING),
        (JniCall::ExceptionOccurred, JniReply::Handle(0xE1)),
        (JniCall::GetObjectClass { object: 0xE1 }, JniReply::Handle(0xE2)),
        (
            JniCall::GetMethodID {
                class: 0xE2,
                name: "getMessage".to_string(),
                signature: "()Ljava/lang/String;".to_string(),
            },
            JniReply::Handle(0xE3),
        ),
        (JniCall::CallObjectMethod { object: 0xE1, method: 0xE3 }, JniReply::Handle(0xE4)),
        (
            JniCall::GetStringUTFChars { string: 0xE4 },
            JniReply::Chars { chars: 0xE5, bytes: message.as_bytes().to_vec() },
        ),
        (JniCall::ReleaseStringUTFChars { string: 0xE4, chars: 0xE5 }, JniReply::Void),
        (JniCall::ExceptionClear, JniReply::Void),
    ]
}

#[test]
fn find_class_returns_the_class() {
    let mut env = JniEnv::new(7);
    let result = exchange(
        env.find_class("java/lang/Long"),
        vec![
            (JniCall::FindClass { name: "java/lang/Long".to_string() }, JniReply::Handle(0x51)),
            (JniCall::ExceptionCheck, NOT_PENDING),
        ],
    );
    assert_eq!(result, Ok(JniValue::Object(0x51)));
    assert_eq!(env, JniEnv::new(7));
}

#[test]
fn find_class_fails_on_null_without_an_exception() {
    let mut env = JniEnv::new(7);
    let result = exchange(
        env.find_class("a/B"),
        vec![
            (JniCall::FindClass { name: "a/B".to_string() }, JniReply::Handle(0)),
            (JniCall::ExceptionCheck, NOT_PENDING),
            (JniCall::ExceptionCheck, NOT_PENDING),
        ],
    );
    assert_eq!(result, Err(Error::Jni("a/B class not found".to_string())));
}

#[test]
fn find_class_fails_on_a_pending_exception_and_clears_it() {
    let mut env = JniEnv::new(7);
    let mut script = vec![
        (JniCall::FindClass { name: "a/B".to_string() }, JniReply::Handle(0x51)),
        (JniCall::ExceptionCheck, IS_PENDING),
    ];
    script.extend(diagnosis_script("boom"));
    let result = exchange(env.find_class("a/B"), script);
    assert_eq!(result, Err(Error::Jni("a/B class not found: boom".to_string())));
}

#[test]
fn find_class_refuses_a_name_with_a_zero_byte() {
    let mut env = JniEnv::new(7);
    assert_eq!(
        ready(env.find_class("a\0b")),
        Err(Error::Internal("Unexpected interior nul byte".to_string()))
    );
}

#[test]
fn method_lookups_name_what_was_not_found() {
    let mut env = JniEnv::new(7);
    let failed = vec![(JniCall::ExceptionCheck, NOT_PENDING), (JniCall::ExceptionCheck, NOT_PENDING)];

    let mut script = vec![(
        JniCall::GetStaticMethodID { class: 3, name: "add".to_string(), signature: "(I)V".to_string() },
        JniReply::Handle(0),
    )];
    script.extend(failed.clone());
    assert_eq!(
        exchange(env.get_static_method_id(3, "add", "(I)V"), script),
        Err(Error::Jni("add static method with signature (I)V not found".to_string()))
    );

    let mut script = vec![(
        JniCall::GetMethodID { class: 3, name: "<init>".to_string(), signature: "()V".to_string() },
        JniReply::Handle(0),
    )];
    script.extend(failed);
    assert_eq!(
        exchange(env.get_method_id(3, "<init>", "()V"), script),
        Err(Error::Jni("<init> method with signature ()V not found".to_string()))
    );
}

#[test]
fn method_lookups_return_the_method() {
    let mut env = JniEnv::new(7);
    assert_eq!(
        exchange(
            env.get_static_method_id(3, "add", "(I)V"),
            vec![
                (
                    JniCall::GetStaticMethodID {
                        class: 3,
                        name: "add".to_string(),
                        signature: "(I)V".to_string(),
                    },
                    JniReply::Handle(0x61),
                ),
                (JniCall::ExceptionCheck, NOT_PENDING),
            ],
        ),
        Ok(JniValue::Object(0x61))
    );
    assert_eq!(
        exchange(
            env.get_method_id(3, "run", "()V"),
            vec![
                (
                    JniCall::GetMethodID { class: 3, name: "run".to_string(), signature: "()V".to_string() },
                    JniReply::Handle(0x62),
                ),
                (JniCall::ExceptionCheck, NOT_PENDING),
            ],
        ),
        Ok(JniValue::Object(0x62))
    );
}

#[test]
fn method_lookups_refuse_text_with_a_zero_byte() {
    let mut env = JniEnv::new(7);
    let refused = Err(Error::Internal("Unexpected interior nul byte".to_string()));
    assert_eq!(ready(env.get_static_method_id(3, "a\0", "()V")), refused);
    assert_eq!(ready(env.get_static_method_id(3, "a", "(\0)V")), refused);
    assert_eq!(ready(env.get_method_id(3, "a\0", "()V")), refused);
    assert_eq!(ready(env.get_method_id(3, "a", "(\0)V")), refused);
}

#[test]
fn the_boolean_call_reads_any_non_zero_byte_as_true() {
    let mut env = JniEnv::new(7);
    for (byte, expected) in [(0u8, false), (1, true), (2, true), (255, true)] {
        let result = exchange(
            env.call_static_LI_Z_method(0x10, 0x20, 0x30, 5),
            vec![
                (
                    JniCall::CallStaticBooleanMethod { class: 0x10, method: 0x20, arg1: 0x30, arg2: 5 },
                    JniReply::Boolean(byte),
                ),
                (JniCall::ExceptionCheck, NOT_PENDING),
            ],
        );
        assert_eq!(result, Ok(JniValue::Boolean(expected)));
    }
}

#[test]
fn only_the_byte_one_means_a_pending_exception() {
    let mut env = JniEnv::new(7);
    let result = exchange(
        env.new_string_utf(0x77),
        vec![
            (JniCall::NewStringUTF { chars: 0x77 }, JniReply::Handle(0x78)),
            (JniCall::ExceptionCheck, JniReply::Boolean(2)),
        ],
    );
    assert_eq!(result, Ok(JniValue::Object(0x78)));
}

#[test]
fn static_calls_print_method_and_class_in_hexadecimal() {
    let mut env = JniEnv::new(7);
    let failure = "call to static method_id 0x1f on class 0xabc failed";

    let result = exchange(
        env.call_static_object_method(0xabc, 0x1f, RawValue::Long(4)),
        vec![
            (
                JniCall::CallStaticObjectMethod { class: 0xabc, method: 0x1f, arg: RawValue::Long(4) },
                JniReply::Handle(0),
            ),
            (JniCall::ExceptionCheck, NOT_PENDING),
            (JniCall::ExceptionCheck, NOT_PENDING),
        ],
    );
    assert_eq!(result, Err(Error::Jni(failure.to_string())));

    let mut script = vec![
        (
            JniCall::CallStaticVoidMethod { class: 0xabc, method: 0x1f, arg1: 1, arg2: 2 },
            JniReply::Void,
        ),
        (JniCall::ExceptionCheck, IS_PENDING),
    ];
    script.extend(diagnosis_script("full"));
    assert_eq!(
        exchange(env.call_static_LAL_V_method(0xabc, 0x1f, 1, 2), script),
        Err(Error::Jni(format!("{}: full", failure)))
    );
}

#[test]
fn a_void_call_succeeds_when_nothing_is_pending() {
    let mut env = JniEnv::new(7);
    assert_eq!(
        exchange(
            env.call_static_LAL_V_method(1, 2, 3, 4),
            vec![
                (JniCall::CallStaticVoidMethod { class: 1, method: 2, arg1: 3, arg2: 4 }, JniReply::Void),
                (JniCall::ExceptionCheck, NOT_PENDING),
            ],
        ),
        Ok(JniValue::Unit)
    );
    assert_eq!(
        exchange(
            env.set_object_array_element(9, 2, 8),
            vec![
                (JniCall::SetObjectArrayElement { array: 9, index: 2, value: 8 }, JniReply::Void),
                (JniCall::ExceptionCheck, NOT_PENDING),
            ],
        ),
        Ok(JniValue::Unit)
    );
}

#[test]
fn constructions_fail_with_their_own_messages() {
    let mut env = JniEnv::new(7);
    let null = |call: JniCall| {
        vec![
            (call, JniReply::Handle(0)),
            (JniCall::ExceptionCheck, NOT_PENDING),
            (JniCall::ExceptionCheck, NOT_PENDING),
        ]
    };
    assert_eq!(
        exchange(
            env.new_object_StringL(1, 2, 3, 4),
            null(JniCall::NewObject { class: 1, ctor: 2, arg1: 3, arg2: 4 })
        ),
        Err(Error::Jni("object creation failed [StringL]".to_string()))
    );
    assert_eq!(
        exchange(
            env.new_object_LAL(1, 2, 3, 4),
            null(JniCall::NewObject { class: 1, ctor: 2, arg1: 3, arg2: 4 })
        ),
        Err(Error::Jni("object creation failed [LAL]".to_string()))
    );
    assert_eq!(
        exchange(
            env.new_object_array(5, 1, 0),
            null(JniCall::NewObjectArray { length: 5, class: 1, init: 0 })
        ),
        Err(Error::Jni("object array creation failed".to_string()))
    );
    assert_eq!(
        exchange(env.new_string_utf(6), null(JniCall::NewStringUTF { chars: 6 })),
        Err(Error::Jni("new string utf failed".to_string()))
    );
    assert_eq!(
        exchange(
            env.get_reflected_method(1, 2, true),
            null(JniCall::ToReflectedMethod { class: 1, method: 2, is_static: true })
        ),
        Err(Error::Jni("new string utf failed".to_string()))
    );
    assert_eq!(
        exchange(
            env.set_object_array_element(1, 0, 2),
            vec![
                (JniCall::SetObjectArrayElement { array: 1, index: 0, value: 2 }, JniReply::Void),
                (JniCall::ExceptionCheck, IS_PENDING),
                (JniCall::ExceptionCheck, NOT_PENDING),
            ]
        ),
        Err(Error::Jni("object array element set failed".to_string()))
    );
}

#[test]
fn constructions_return_what_was_made() {
    let mut env = JniEnv::new(7);
    let made = |call: JniCall| vec![(call, JniReply::Handle(0x99)), (JniCall::ExceptionCheck, NOT_PENDING)];
    assert_eq!(
        exchange(
            env.new_object_StringL(1, 2, 3, 0),
            made(JniCall::NewObject { class: 1, ctor: 2, arg1: 3, arg2: 0 })
        ),
        Ok(JniValue::Object(0x99))
    );
    assert_eq!(
        exchange(
            env.new_object_LAL(1, 2, 3, 4),
            made(JniCall::NewObject { class: 1, ctor: 2, arg1: 3, arg2: 4 })
        ),
        Ok(JniValue::Object(0x99))
    );
    assert_eq!(
        exchange(
            env.new_object_array(0, 1, 0),
            made(JniCall::NewObjectArray { length: 0, class: 1, init: 0 })
        ),
        Ok(JniValue::Object(0x99))
    );
    assert_eq!(
        exchange(
            env.get_reflected_method(1, 2, false),
            made(JniCall::ToReflectedMethod { class: 1, method: 2, is_static: false })
        ),
        Ok(JniValue::Object(0x99))
    );
}

#[test]
fn value_of_looks_up_class_and_factory_and_calls_it_with_the_value() {
    let mut env = JniEnv::new(7);
    let result = exchange(
        env.value_of("java/lang/Short", "(S)Ljava/lang/Short;", RawValue::Int(-3)),
        vec![
            (JniCall::FindClass { name: "java/lang/Short".to_string() }, JniReply::Handle(0x51)),
            (JniCall::ExceptionCheck, NOT_PENDING),
            (
                JniCall::GetStaticMethodID {
                    class: 0x51,
                    name: "valueOf".to_string(),
                    signature: "(S)Ljava/lang/Short;".to_string(),
                },
                JniReply::Handle(0x52),
            ),
            (JniCall::ExceptionCheck, NOT_PENDING),
            (
                JniCall::CallStaticObjectMethod { class: 0x51, method: 0x52, arg: RawValue::Int(-3) },
                JniReply::Handle(0x53),
            ),
            (JniCall::ExceptionCheck, NOT_PENDING),
        ],
    );
    assert_eq!(result, Ok(JniValue::Object(0x53)));
}

#[test]
fn value_of_fails_at_whichever_step_fails() {
    let mut env = JniEnv::new(7);
    let failed = [(JniCall::ExceptionCheck, NOT_PENDING), (JniCall::ExceptionCheck, NOT_PENDING)];
    let class = (JniCall::FindClass { name: "x/Y".to_string() }, JniReply::Handle(0x51));
    let factory = JniCall::GetStaticMethodID {
        class: 0x51,
        name: "valueOf".to_string(),
        signature: "(I)Lx/Y;".to_string(),
    };
    let found = (JniCall::ExceptionCheck, NOT_PENDING);

    let mut script = vec![(JniCall::FindClass { name: "x/Y".to_string() }, JniReply::Handle(0))];
    script.extend(failed.clone());
    assert_eq!(
        exchange(env.value_of("x/Y", "(I)Lx/Y;", RawValue::Int(1)), script),
        Err(Error::Jni("x/Y class not found".to_string()))
    );

    let mut script = vec![class.clone(), found.clone(), (factory.clone(), JniReply::Handle(0))];
    script.extend(failed.clone());
    assert_eq!(
        exchange(env.value_of("x/Y", "(I)Lx/Y;", RawValue::Int(1)), script),
        Err(Error::Jni("valueOf static method with signature (I)Lx/Y; not found".to_string()))
    );

    let mut script = vec![
        class.clone(),
        found.clone(),
        (factory, JniReply::Handle(0x52)),
        found.clone(),
        (
            JniCall::CallStaticObjectMethod { class: 0x51, method: 0x52, arg: RawValue::Int(1) },
            JniReply::Handle(0),
        ),
    ];
    script.extend(failed);
    assert_eq!(
        exchange(env.value_of("x/Y", "(I)Lx/Y;", RawValue::Int(1)), script),
        Err(Error::Jni("call to static method_id 0x52 on class 0x51 failed".to_string()))
    );

    assert_eq!(
        exchange(env.value_of("x/Y", "(\0)", RawValue::Int(1)), vec![class, found]),
        Err(Error::Internal("Unexpected interior nul byte".to_string()))
    );
    assert_eq!(
        ready(env.value_of("x\0Y", "(I)Lx/Y;", RawValue::Int(1))),
        Err(Error::Internal("Unexpected interior nul byte".to_string()))
    );
}

#[test]
fn diagnose_exception_is_a_no_op_when_nothing_is_pending() {
    let mut env = JniEnv::new(7);
    let result = exchange(env.diagnose_exception("context"), vec![(JniCall::ExceptionCheck, NOT_PENDING)]);
    assert_eq!(result, Ok(JniValue::Unit));
}

#[test]
fn diagnose_exception_composes_context_and_message_and_clears() {
    let mut env = JniEnv::new(7);
    let result = exchange(env.diagnose_exception("context"), diagnosis_script("it broke"));
    assert_eq!(result, Err(Error::Jni("context: it broke".to_string())));
}

#[test]
fn diagnose_exception_uses_the_placeholder_where_the_message_cannot_be_read() {
    let mut env = JniEnv::new(7);
    let expected = Err(Error::Jni("context: BAD EXCEPTION MESSAGE".to_string()));
    for steps in 2..5 {
        let mut script: Vec<(JniCall, JniReply)> = diagnosis_script("unused").into_iter().take(steps).collect();
        script.push((diagnosis_script("unused")[steps].0.clone(), JniReply::Handle(0)));
        script.push((JniCall::ExceptionClear, JniReply::Void));
        assert_eq!(exchange(env.diagnose_exception("context"), script), expected);
    }
}

#[test]
fn the_message_of_an_exception_is_decoded_leniently() {
    let mut env = JniEnv::new(7);
    let mut script: Vec<(JniCall, JniReply)> = diagnosis_script("unused").into_iter().skip(2).take(3).collect();
    script.push((
        JniCall::GetStringUTFChars { string: 0xE4 },
        JniReply::Chars { chars: 0xE5, bytes: vec![b'a', 0xFF, b'b'] },
    ));
    script.push((JniCall::ReleaseStringUTFChars { string: 0xE4, chars: 0xE5 }, JniReply::Void));
    let result = exchange(env.get_exception_message(0xE1), script);
    assert_eq!(result, Ok(JniValue::Text(Some("a\u{FFFD}b".to_string()))));
}

#[test]
fn the_message_of_an_exception_is_absent_when_a_step_yields_null() {
    let mut env = JniEnv::new(7);
    let result = exchange(
        env.get_exception_message(0xE1),
        vec![(JniCall::GetObjectClass { object: 0xE1 }, JniReply::Handle(0))],
    );
    assert_eq!(result, Ok(JniValue::Text(None)));

    let result = exchange(
        env.call_object_method_returning_string(0xE1, 0xE3),
        vec![(JniCall::CallObjectMethod { object: 0xE1, method: 0xE3 }, JniReply::Handle(0))],
    );
    assert_eq!(result, Ok(JniValue::Text(None)));
}

#[test]
fn a_method_returning_a_string_yields_its_text() {
    let mut env = JniEnv::new(7);
    let result = exchange(
        env.call_object_method_returning_string(0xE1, 0xE3),
        vec![
            (JniCall::CallObjectMethod { object: 0xE1, method: 0xE3 }, JniReply::Handle(0xE4)),
            (
                JniCall::GetStringUTFChars { string: 0xE4 },
                JniReply::Chars { chars: 0xE5, bytes: b"hello".to_vec() },
            ),
            (JniCall::ReleaseStringUTFChars { string: 0xE4, chars: 0xE5 }, JniReply::Void),
        ],
    );
    assert_eq!(result, Ok(JniValue::Text(Some("hello".to_string()))));
}

#[test]
fn unchecked_operations_end_with_the_first_reply() {
    let mut env = JniEnv::new(7);
    assert_eq!(
        exchange(
            env.call_object_method_internal(1, 2),
            vec![(JniCall::CallObjectMethod { object: 1, method: 2 }, JniReply::Handle(9))]
        ),
        Ok(JniValue::Reference(Some(9)))
    );
    assert_eq!(
        exchange(
            env.call_object_method_internal(1, 2),
            vec![(JniCall::CallObjectMethod { object: 1, method: 2 }, JniReply::Handle(0))]
        ),
        Ok(JniValue::Reference(None))
    );
    assert_eq!(
        exchange(
            env.get_string_utf_chars(4),
            vec![(
                JniCall::GetStringUTFChars { string: 4 },
                JniReply::Chars { chars: 5, bytes: b"xy".to_vec() }
            )]
        ),
        Ok(JniValue::Chars { chars: 5, bytes: b"xy".to_vec() })
    );
    assert_eq!(
        exchange(
            env.release_string_utf_chars(4, 5),
            vec![(JniCall::ReleaseStringUTFChars { string: 4, chars: 5 }, JniReply::Void)]
        ),
        Ok(JniValue::Unit)
    );
}

#[test]
fn a_reply_of_the_wrong_shape_ends_the_operation() {
    let mut env = JniEnv::new(7);
    let unexpected = Err(Error::Internal("unexpected reply".to_string()));
    let (op, _) = pending(env.find_class("a/B"));
    assert_eq!(ready(op.resume(JniReply::Void)), unexpected);
    let (op, _) = pending(env.find_class("a/B"));
    let (op, _) = pending(op.resume(JniReply::Handle(1)));
    assert_eq!(ready(op.resume(JniReply::Handle(1))), unexpected);
    let (op, _) = pending(env.diagnose_exception("m"));
    assert_eq!(ready(op.resume(JniReply::Void)), unexpected);
    let (op, _) = pending(env.call_static_LI_Z_method(1, 2, 3, 4));
    assert_eq!(ready(op.resume(JniReply::Handle(1))), unexpected);
}

#[test]
fn debug_operations_name_the_entry_point_to_invoke() {
    let mut env = JvmTiEnv::wrap(0x10);
    assert_eq!(JvmTiEnv::new(0x5).call, DebugCall::GetEnv { vm: 0x5 });
    assert_eq!(
        env.enable_capabilities().call,
        DebugCall::AddCapabilities { exception_events: true, local_variables: true }
    );
    assert_eq!(env.set_exception_handler().call, DebugCall::SetEventCallbacks);
    assert_eq!(env.get_frame_count(3).call, DebugCall::GetFrameCount { thread: 3 });
    assert_eq!(
        env.get_stack_trace(3, 1, 9).call,
        DebugCall::GetStackTrace { thread: 3, start_depth: 1, max_frames: 9 }
    );
    assert_eq!(env.get_local_variable_table(4).call, DebugCall::GetLocalVariableTable { method: 4 });
    assert_eq!(env.dealloc(0xB0).call, DebugCall::Deallocate { buffer: 0xB0 });
    assert_eq!(env.get_local_object(3, 1, 2).call, DebugCall::GetLocalObject { thread: 3, depth: 1, slot: 2 });
    assert_eq!(env.get_local_long(3, 1, 2).call, DebugCall::GetLocalLong { thread: 3, depth: 1, slot: 2 });
    assert_eq!(env.get_local_float(3, 1, 2).call, DebugCall::GetLocalFloat { thread: 3, depth: 1, slot: 2 });
    assert_eq!(env.get_local_double(3, 1, 2).call, DebugCall::GetLocalDouble { thread: 3, depth: 1, slot: 2 });
    assert_eq!(env.get_local_int(3, 1, 2).call, DebugCall::GetLocalInt { thread: 3, depth: 1, slot: 2 });
    assert_eq!(
        env.get_local(SlotKind::Double, 3, 1, 2).call,
        DebugCall::GetLocalDouble { thread: 3, depth: 1, slot: 2 }
    );
    assert_eq!(
        env.get_method_declaring_class(4).call,
        DebugCall::GetMethodDeclaringClass { method: 4 }
    );
    assert_eq!(env, JvmTiEnv::wrap(0x10));
    assert_eq!(env.jvmti, 0x10);
}

#[test]
fn a_debug_failure_carries_entry_point_and_status() {
    let mut env = JvmTiEnv::wrap(0x10);
    assert_eq!(
        status(env.get_frame_count(3), 15, DebugValue::Count(4)),
        DebugPoll::Ready(Err(Error::JvmTi("JVMTI GetFrameCount failed".to_string(), 15)))
    );
    assert_eq!(
        status(env.dealloc(3), 100, DebugValue::Nothing),
        DebugPoll::Ready(Err(Error::JvmTi("JVMTI Deallocate failed".to_string(), 100)))
    );
    assert_eq!(
        status(env.get_local_variable_table(3), 101, DebugValue::Nothing),
        DebugPoll::Ready(Err(Error::JvmTi("JVMTI GetLocalVariableTable failed".to_string(), 101)))
    );
    assert_eq!(
        status(JvmTiEnv::new(1), -3, DebugValue::Nothing),
        DebugPoll::Ready(Err(Error::JvmTi("GetEnv failed".to_string(), -1)))
    );
}

#[test]
fn a_debug_success_carries_what_was_written() {
    let mut env = JvmTiEnv::wrap(0x10);
    assert_eq!(
        status(env.get_frame_count(3), 0, DebugValue::Count(4)),
        DebugPoll::Ready(Ok(DebugValue::Count(4)))
    );
    assert_eq!(
        status(env.get_local_long(3, 0, 1), 0, DebugValue::Local(RawValue::Long(-1))),
        DebugPoll::Ready(Ok(DebugValue::Local(RawValue::Long(-1))))
    );
    assert_eq!(
        status(JvmTiEnv::new(1), 0, DebugValue::Environment(0x44)),
        DebugPoll::Ready(Ok(DebugValue::Environment(0x44)))
    );
}

#[test]
fn a_stack_walk_may_return_fewer_frames_but_not_more() {
    let mut env = JvmTiEnv::wrap(0x10);
    let frames = |n: usize| DebugValue::Frames(vec![StackFrame { method: 1, location: 2 }; n]);
    let unexpected = DebugPoll::Ready(Err(Error::Internal("unexpected reply".to_string())));
    assert_eq!(status(env.get_stack_trace(3, 0, 5), 0, frames(5)), DebugPoll::Ready(Ok(frames(5))));
    assert_eq!(status(env.get_stack_trace(3, 0, 5), 0, frames(2)), DebugPoll::Ready(Ok(frames(2))));
    assert_eq!(status(env.get_stack_trace(3, 0, 5), 0, frames(0)), DebugPoll::Ready(Ok(frames(0))));
    assert_eq!(status(env.get_stack_trace(3, 0, 5), 0, frames(6)), unexpected);
    assert_eq!(status(env.get_stack_trace(3, 0, -1), 0, frames(0)), unexpected);
}

#[test]
fn a_debug_value_of_the_wrong_shape_is_refused() {
    let mut env = JvmTiEnv::wrap(0x10);
    let unexpected = DebugPoll::Ready(Err(Error::Internal("unexpected reply".to_string())));
    assert_eq!(status(env.get_frame_count(3), 0, DebugValue::Nothing), unexpected);
    assert_eq!(status(env.get_local_int(3, 0, 1), 0, DebugValue::Local(RawValue::Long(1))), unexpected);
    assert_eq!(status(env.dealloc(3), 0, DebugValue::Count(1)), unexpected);
    assert_eq!(status(env.get_method_declaring_class(3), 0, DebugValue::Environment(1)), unexpected);
}

#[test]
fn the_handler_is_enabled_only_after_it_was_installed() {
    let mut env = JvmTiEnv::wrap(0x10);
    let op = env.set_exception_handler();
    assert_eq!(
        status(op, 99, DebugValue::Nothing),
        DebugPoll::Ready(Err(Error::JvmTi("JVMTI SetEventCallbacks failed".to_string(), 99)))
    );
    let next = match status(op, 0, DebugValue::Nothing) {
        DebugPoll::Pending(next) => next,
        other => panic!("operation is over: {:?}", other),
    };
    assert_eq!(next.call, DebugCall::SetEventNotificationMode);
    assert_eq!(status(next, 0, DebugValue::Nothing), DebugPoll::Ready(Ok(DebugValue::Nothing)));
    assert_eq!(
        status(next, 13, DebugValue::Nothing),
        DebugPoll::Ready(Err(Error::JvmTi("JVMTI SetEventNotificationMode failed".to_string(), 13)))
    );
}

#[test]
fn the_agent_loads_in_three_operations() {
    let reply = |value: DebugValue| DebugReply { status: 0, value };
    let (load, action) = onload(0x5);
    assert_eq!(action, LoadAction::Debug(DebugCall::GetEnv { vm: 0x5 }));
    assert!(!load.is_loaded());
    let (load, action) = load.resume(reply(DebugValue::Environment(0x44)));
    assert_eq!(
        action,
        LoadAction::Debug(DebugCall::AddCapabilities { exception_events: true, local_variables: true })
    );
    assert_eq!(load.env, JvmTiEnv::wrap(0x44));
    let (load, action) = load.resume(reply(DebugValue::Nothing));
    assert_eq!(action, LoadAction::Debug(DebugCall::SetEventCallbacks));
    let (load, action) = load.resume(reply(DebugValue::Nothing));
    assert_eq!(action, LoadAction::Debug(DebugCall::SetEventNotificationMode));
    assert!(!load.is_loaded());
    let (load, action) = load.resume(reply(DebugValue::Nothing));
    assert_eq!(action, LoadAction::Finished(Ok(())));
    assert!(load.is_loaded());
    let (load, action) = load.resume(reply(DebugValue::Nothing));
    assert_eq!(action, LoadAction::Finished(Err(113)));
    assert!(load.is_loaded());
}

#[test]
fn the_first_failure_ends_the_load_with_its_status() {
    let reply = |status: i32, value: DebugValue| DebugReply { status, value };

    let (load, _) = onload(0x5);
    let (load, action) = load.resume(reply(-2, DebugValue::Nothing));
    assert_eq!(action, LoadAction::Finished(Err(-1)));
    assert_eq!(load.stage, LoadStep::Refused);

    let (load, _) = onload(0x5);
    let (load, _) = load.resume(reply(0, DebugValue::Environment(0x44)));
    let (load, action) = load.resume(reply(98, DebugValue::Nothing));
    assert_eq!(action, LoadAction::Finished(Err(98)));
    assert!(!load.is_loaded());

    let (load, _) = onload(0x5);
    let (load, _) = load.resume(reply(0, DebugValue::Environment(0x44)));
    let (load, _) = load.resume(reply(0, DebugValue::Nothing));
    let (load, action) = load.resume(reply(0, DebugValue::Count(3)));
    assert_eq!(action, LoadAction::Finished(Err(113)));
    let (load, action) = load.resume(reply(0, DebugValue::Nothing));
    assert_eq!(action, LoadAction::Finished(Err(113)));
    assert_eq!(load.stage, LoadStep::Refused);
}

#[test]
fn errors_describe_themselves() {
    assert_eq!(Error::Jni("x failed".to_string()).to_string(), "JNI call failed: 'x failed'");
    assert_eq!(Error::JvmTi("JVMTI Y failed".to_string(), 112).to_string(), "JVMTI Y failed: 112");
    assert_eq!(Error::JvmTi("GetEnv failed".to_string(), -1).to_string(), "GetEnv failed: -1");
    assert_eq!(Error::Internal("oops".to_string()).to_string(), "internal error: 'oops'");
}

#[test]
fn errors_give_the_status_for_the_runtime() {
    assert_eq!(Error::JvmTi("m".to_string(), 112).exit_code(), 112);
    assert_eq!(Error::JvmTi("m".to_string(), -1).exit_code(), -1);
    assert_eq!(Error::Internal("m".to_string()).exit_code(), 113);
    assert_eq!(Error::Jni("m".to_string()).exit_code(), 0);
}

#[test]
fn only_two_statuses_mean_an_unavailable_table() {
    assert!(Error::JvmTi("m".to_string(), 101).is_unavailable());
    assert!(Error::JvmTi("m".to_string(), 104).is_unavailable());
    assert!(!Error::JvmTi("m".to_string(), 100).is_unavailable());
    assert!(!Error::JvmTi("m".to_string(), 0).is_unavailable());
    assert!(!Error::Jni("m".to_string()).is_unavailable());
    assert!(!Error::Internal("m".to_string()).is_unavailable());
}

#[test]
fn the_fixed_errors_have_their_texts() {
    assert_eq!(Error::interior_nul(), Error::Internal("Unexpected interior nul byte".to_string()));
    assert_eq!(Error::unexpected_reply(), Error::Internal("unexpected reply".to_string()));
    assert_eq!(Error::bad_signature(), Error::Jni("bad local variable signature".to_string()));
}

#[test]
fn handles_are_printed_in_hexadecimal() {
    assert_eq!(hex(0), "0x0");
    assert_eq!(hex(9), "0x9");
    assert_eq!(hex(10), "0xa");
    assert_eq!(hex(255), "0xff");
    assert_eq!(hex(0x7f3a_0001_2c40), "0x7f3a00012c40");
    assert_eq!(hex(u64::MAX), "0xffffffffffffffff");
}

#[test]
fn statuses_are_printed_in_decimal() {
    assert_eq!(decimal(0), "0");
    assert_eq!(decimal(7), "7");
    assert_eq!(decimal(113), "113");
    assert_eq!(decimal(-1), "-1");
    assert_eq!(decimal(i32::MAX), "2147483647");
    assert_eq!(decimal(i32::MIN), "-2147483648");
}

#[test]
fn zero_bytes_are_found_anywhere_in_a_text() {
    assert!(!has_nul(""));
    assert!(!has_nul("java/lang/Long"));
    assert!(!has_nul("h\u{00e9}llo \u{4e16}\u{754c}"));
    assert!(has_nul("\0"));
    assert!(has_nul("ab\0"));
    assert!(has_nul("\0ab"));
    assert!(has_nul("a\u{00e9}\0b"));
}

#[test]
fn signatures_are_classified_by_their_first_byte() {
    assert_eq!(SignatureKind::of(b"[I"), SignatureKind::Reference);
    assert_eq!(SignatureKind::of(b"Ljava/lang/String;"), SignatureKind::Reference);
    assert_eq!(SignatureKind::of(b"J"), SignatureKind::Long);
    assert_eq!(SignatureKind::of(b"F"), SignatureKind::Float);
    assert_eq!(SignatureKind::of(b"D"), SignatureKind::Double);
    assert_eq!(SignatureKind::of(b"I"), SignatureKind::Int);
    assert_eq!(SignatureKind::of(b"S"), SignatureKind::Short);
    assert_eq!(SignatureKind::of(b"C"), SignatureKind::Char);
    assert_eq!(SignatureKind::of(b"B"), SignatureKind::Byte);
    assert_eq!(SignatureKind::of(b"Z"), SignatureKind::Boolean);
    assert_eq!(SignatureKind::of(b""), SignatureKind::Unknown);
    assert_eq!(SignatureKind::of(b"V"), SignatureKind::Unknown);
    assert_eq!(SignatureKind::of(b"i"), SignatureKind::Unknown);
    assert_eq!(SignatureKind::of(&[0]), SignatureKind::Unknown);
}

#[test]
fn each_kind_has_its_read_and_its_wrapper() {
    let table = [
        (SignatureKind::Long, SlotKind::Long, "java/lang/Long", "(J)Ljava/lang/Long;"),
        (SignatureKind::Float, SlotKind::Float, "java/lang/Float", "(F)Ljava/lang/Float;"),
        (SignatureKind::Double, SlotKind::Double, "java/lang/Double", "(D)Ljava/lang/Double;"),
        (SignatureKind::Int, SlotKind::Int, "java/lang/Integer", "(I)Ljava/lang/Integer;"),
        (SignatureKind::Short, SlotKind::Int, "java/lang/Short", "(S)Ljava/lang/Short;"),
        (SignatureKind::Char, SlotKind::Int, "java/lang/Character", "(C)Ljava/lang/Character;"),
        (SignatureKind::Byte, SlotKind::Int, "java/lang/Byte", "(B)Ljava/lang/Byte;"),
        (SignatureKind::Boolean, SlotKind::Int, "java/lang/Boolean", "(Z)Ljava/lang/Boolean;"),
    ];
    for (kind, read, class, signature) in table {
        assert_eq!(kind.read(), Some(read));
        let boxing = kind.boxing().unwrap();
        assert_eq!(boxing.read, read);
        assert_eq!(boxing.class, class);
        assert_eq!(boxing.signature, signature);
    }
    assert_eq!(SignatureKind::Reference.read(), Some(SlotKind::Object));
    assert!(SignatureKind::Reference.boxing().is_none());
    assert_eq!(SignatureKind::Unknown.read(), None);
    assert!(SignatureKind::Unknown.boxing().is_none());
}

#[test]
fn raw_values_know_their_kind() {
    assert_eq!(RawValue::Object(1).kind(), SlotKind::Object);
    assert_eq!(RawValue::Long(1).kind(), SlotKind::Long);
    assert_eq!(RawValue::Float(1).kind(), SlotKind::Float);
    assert_eq!(RawValue::Double(1).kind(), SlotKind::Double);
    assert_eq!(RawValue::Int(1).kind(), SlotKind::Int);
}

#[test]
fn an_entry_is_live_from_its_start_to_its_end_inclusive() {
    let entry = LocalVariableEntry {
        start_location: 10,
        length: 5,
        name: 1,
        signature: 2,
        generic_signature: 0,
        slot: 0,
        kind: SignatureKind::Int,
    };
    assert!(!entry.is_live(9));
    assert!(entry.is_live(10));
    assert!(entry.is_live(12));
    assert!(entry.is_live(15));
    assert!(!entry.is_live(16));
    assert!(!entry.is_live(-1));

    let at_the_edge = LocalVariableEntry { start_location: i64::MAX - 1, length: i32::MAX, ..entry };
    assert!(at_the_edge.is_live(i64::MAX));
    assert!(!at_the_edge.is_live(i64::MAX - 2));
    let reversed = LocalVariableEntry { start_location: 10, length: -3, ..entry };
    assert!(!reversed.is_live(10));
    assert!(!reversed.is_live(8));
}

#[test]
fn the_signature_codes_are_the_letters_of_the_runtime() {
    assert_eq!(CODE_ARRAY, b'[');
    assert_eq!(CODE_OBJECT, b'L');
    assert_eq!(CODE_LONG, b'J');
    assert_eq!(CODE_FLOAT, b'F');
    assert_eq!(CODE_DOUBLE, b'D');
    assert_eq!(CODE_INT, b'I');
    assert_eq!(CODE_SHORT, b'S');
    assert_eq!(CODE_CHAR, b'C');
    assert_eq!(CODE_BYTE, b'B');
    assert_eq!(CODE_BOOLEAN, b'Z');
    assert_eq!(SignatureKind::of_code(b'J'), SignatureKind::Long);
    assert_eq!(SignatureKind::of_code(b'j'), SignatureKind::Unknown);
    assert_eq!(SignatureKind::of_code(0), SignatureKind::Unknown);
}

#[test]
fn the_longest_operation_takes_fourteen_replies() {
    let mut env = JniEnv::new(7);
    let mut script = vec![
        (JniCall::FindClass { name: "x/Y".to_string() }, JniReply::Handle(0x51)),
        (JniCall::ExceptionCheck, NOT_PENDING),
        (
            JniCall::GetStaticMethodID {
                class: 0x51,
                name: "valueOf".to_string(),
                signature: "(I)Lx/Y;".to_string(),
            },
            JniReply::Handle(0x52),
        ),
        (JniCall::ExceptionCheck, NOT_PENDING),
        (
            JniCall::CallStaticObjectMethod { class: 0x51, method: 0x52, arg: RawValue::Int(1) },
            JniReply::Handle(0x53),
        ),
        (JniCall::ExceptionCheck, IS_PENDING),
    ];
    script.extend(diagnosis_script("too late"));
    assert_eq!(script.len(), 14);
    assert_eq!(
        exchange(env.value_of("x/Y", "(I)Lx/Y;", RawValue::Int(1)), script),
        Err(Error::Jni("call to static method_id 0x52 on class 0x51 failed: too late".to_string()))
    );
}

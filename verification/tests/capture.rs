//! Whole captures against a scripted runtime.
use std::collections::HashMap;

use native_agent::env::{DebugCall, DebugReply, DebugValue, JvmTiEnv};
use native_agent::errors::Error;
use native_agent::exceptions::{inner_callback, Action, Reply};
use native_agent::jni::{JniCall, JniEnv, JniReply};
use native_agent::values::{LocalVariableEntry, RawValue, SignatureKind, StackFrame};

const THREAD: u64 = 0x7001;
const THROWN: u64 = 0x7002;
const FIRST_HANDLE: u64 = 0x1000;
const CHARS: u64 = 0x9000;

#[derive(Clone, Debug, PartialEq)]
enum Managed {
    Class(String),
    Method { class: u64, name: String, signature: String },
    Name(u64),
    Text(String),
    Array(Vec<u64>),
    Boxed { class: String, signature: String, raw: RawValue },
    Local { name: u64, value: u64 },
    Frame { method: u64, locals: u64 },
    Reflected { class: u64, method: u64, is_static: bool },
    Throwable(String),
}

#[derive(Clone, Copy, Debug, PartialEq)]
enum Policy {
    Keep,
    Decline,
    Throw,
}

struct Runtime {
    heap: Vec<Managed>,
    frames: Vec<StackFrame>,
    tables: HashMap<u64, Result<(u64, Vec<LocalVariableEntry>), i32>>,
    slots: HashMap<(i32, i32), RawValue>,
    policy: Policy,
    missing_class: Option<String>,
    release_status: i32,
    fail_store: bool,
    pending: u64,
    cleared: usize,
    released: Vec<u64>,
    stored: Vec<(u64, u64)>,
    calls: Vec<String>,
}

impl Runtime {
    fn new(frames: Vec<StackFrame>, policy: Policy) -> Runtime {
        Runtime {
            heap: Vec::new(),
            frames,
            tables: HashMap::new(),
            slots: HashMap::new(),
            policy,
            missing_class: None,
            release_status: 0,
            fail_store: false,
            pending: 0,
            cleared: 0,
            released: Vec::new(),
            stored: Vec::new(),
            calls: Vec::new(),
        }
    }

    fn allocate(&mut self, object: Managed) -> u64 {
        if let Some(at) = self.heap.iter().position(|known| *known == object) {
            if matches!(object, Managed::Class(_) | Managed::Method { .. }) {
                return FIRST_HANDLE + at as u64;
            }
        }
        self.heap.push(object);
        FIRST_HANDLE + self.heap.len() as u64 - 1
    }

    fn get(&self, handle: u64) -> &Managed {
        &self.heap[(handle - FIRST_HANDLE) as usize]
    }

    fn class_name(&self, handle: u64) -> String {
        match self.get(handle) {
            Managed::Class(name) => name.clone(),
            other => panic!("not a class: {:?}", other),
        }
    }

    fn debug(&mut self, call: DebugCall) -> DebugReply {
        self.calls.push(call.name().to_string());
        let ok = |value: DebugValue| DebugReply { status: 0, value };
        match call {
            DebugCall::GetFrameCount { thread } => {
                assert_eq!(thread, THREAD);
                ok(DebugValue::Count(self.frames.len() as i32))
            }
            DebugCall::GetStackTrace { thread, start_depth, max_frames } => {
                assert_eq!(thread, THREAD);
                let from = start_depth as usize;
                let to = (from + max_frames as usize).min(self.frames.len());
                ok(DebugValue::Frames(self.frames[from..to].to_vec()))
            }
            DebugCall::GetLocalVariableTable { method } => match self.tables.get(&method) {
                Some(Ok((table, entries))) => {
                    ok(DebugValue::Table { table: *table, entries: entries.clone() })
                }
                Some(Err(status)) => DebugReply { status: *status, value: DebugValue::Nothing },
                None => DebugReply { status: 23, value: DebugValue::Nothing },
            },
            DebugCall::Deallocate { buffer } => {
                self.released.push(buffer);
                DebugReply { status: self.release_status, value: DebugValue::Nothing }
            }
            DebugCall::GetLocalObject { depth, slot, .. }
            | DebugCall::GetLocalLong { depth, slot, .. }
            | DebugCall::GetLocalFloat { depth, slot, .. }
            | DebugCall::GetLocalDouble { depth, slot, .. }
            | DebugCall::GetLocalInt { depth, slot, .. } => match self.slots.get(&(depth, slot)) {
                Some(raw) => ok(DebugValue::Local(*raw)),
                None => DebugReply { status: 35, value: DebugValue::Nothing },
            },
            DebugCall::GetMethodDeclaringClass { method } => {
                let class = self.allocate(Managed::Class(format!("Declaring{}", method)));
                ok(DebugValue::Class(class))
            }
            other => panic!("not expected in a capture: {:?}", other),
        }
    }

    fn managed(&mut self, call: JniCall) -> JniReply {
        self.calls.push(format!("{:?}", call).split(|c| c == ' ' || c == '{').next().unwrap().to_string());
        match call {
            JniCall::FindClass { name } => {
                if self.missing_class.as_deref() == Some(name.as_str()) {
                    self.pending = self.allocate(Managed::Throwable(format!("no class {}", name)));
                    JniReply::Handle(0)
                } else {
                    JniReply::Handle(self.allocate(Managed::Class(name)))
                }
            }
            JniCall::GetStaticMethodID { class, name, signature }
            | JniCall::GetMethodID { class, name, signature } => {
                JniReply::Handle(self.allocate(Managed::Method { class, name, signature }))
            }
            JniCall::CallStaticBooleanMethod { arg1, arg2, .. } => {
                assert_eq!(arg1, THROWN);
                assert_eq!(arg2, self.frames.len() as i32);
                match self.policy {
                    Policy::Keep => JniReply::Boolean(1),
                    Policy::Decline => JniReply::Boolean(0),
                    Policy::Throw => {
                        self.pending = self.allocate(Managed::Throwable("policy broke".to_string()));
                        JniReply::Boolean(0)
                    }
                }
            }
            JniCall::CallStaticVoidMethod { arg1, arg2, .. } => {
                if self.fail_store {
                    self.pending = self.allocate(Managed::Throwable("store broke".to_string()));
                } else {
                    self.stored.push((arg1, arg2));
                }
                JniReply::Void
            }
            JniCall::CallStaticObjectMethod { class, method, arg } => {
                let signature = match self.get(method) {
                    Managed::Method { name, signature, .. } => {
                        assert_eq!(name, "valueOf");
                        signature.clone()
                    }
                    other => panic!("not a method: {:?}", other),
                };
                let class = self.class_name(class);
                JniReply::Handle(self.allocate(Managed::Boxed { class, signature, raw: arg }))
            }
            JniCall::CallObjectMethod { object, .. } => match self.get(object).clone() {
                Managed::Throwable(message) => JniReply::Handle(self.allocate(Managed::Text(message))),
                other => panic!("no message accessor on {:?}", other),
            },
            JniCall::NewObject { class, arg1, arg2, .. } => {
                let made = match self.class_name(class).as_str() {
                    "com/rollbar/jvmti/LocalVariable" => Managed::Local { name: arg1, value: arg2 },
                    "com/rollbar/jvmti/CacheFrame" => Managed::Frame { method: arg1, locals: arg2 },
                    other => panic!("no constructor known for {}", other),
                };
                JniReply::Handle(self.allocate(made))
            }
            JniCall::NewObjectArray { length, init, .. } => {
                JniReply::Handle(self.allocate(Managed::Array(vec![init; length as usize])))
            }
            JniCall::SetObjectArrayElement { array, index, value } => {
                match &mut self.heap[(array - FIRST_HANDLE) as usize] {
                    Managed::Array(items) => items[index as usize] = value,
                    other => panic!("not an array: {:?}", other),
                }
                JniReply::Void
            }
            JniCall::NewStringUTF { chars } => JniReply::Handle(self.allocate(Managed::Name(chars))),
            JniCall::ToReflectedMethod { class, method, is_static } => {
                JniReply::Handle(self.allocate(Managed::Reflected { class, method, is_static }))
            }
            JniCall::GetObjectClass { .. } => {
                JniReply::Handle(self.allocate(Managed::Class("java/lang/Throwable".to_string())))
            }
            JniCall::GetStringUTFChars { string } => match self.get(string).clone() {
                Managed::Text(text) => JniReply::Chars { chars: CHARS, bytes: text.into_bytes() },
                other => panic!("not a string: {:?}", other),
            },
            JniCall::ReleaseStringUTFChars { chars, .. } => {
                assert_eq!(chars, CHARS);
                JniReply::Void
            }
            JniCall::ExceptionCheck => JniReply::Boolean((self.pending != 0) as u8),
            JniCall::ExceptionOccurred => JniReply::Handle(self.pending),
            JniCall::ExceptionClear => {
                self.pending = 0;
                self.cleared += 1;
                JniReply::Void
            }
        }
    }

    fn capture(&mut self) -> Result<(), Error> {
        let (mut capture, mut action) =
            inner_callback(JvmTiEnv::wrap(0x10), JniEnv::new(0x20), THREAD, THROWN);
        loop {
            let reply = match action {
                Action::Debug(call) => Reply::Debug(self.debug(call)),
                Action::Managed(call) => Reply::Managed(self.managed(call)),
                Action::Finished(result) => {
                    assert!(capture.is_finished());
                    return result;
                }
            };
            let next = capture.resume(reply);
            capture = next.0;
            action = next.1;
        }
    }

    fn stored_frames(&self) -> Vec<Managed> {
        assert_eq!(self.stored.len(), 1);
        assert_eq!(self.stored[0].0, THROWN);
        match self.get(self.stored[0].1) {
            Managed::Array(items) => items.iter().map(|frame| self.get(*frame).clone()).collect(),
            other => panic!("not an array: {:?}", other),
        }
    }

    fn locals_of(&self, frame: &Managed) -> Vec<Managed> {
        match frame {
            Managed::Frame { locals, .. } => match self.get(*locals) {
                Managed::Array(items) => items.iter().map(|local| self.get(*local).clone()).collect(),
                other => panic!("not an array: {:?}", other),
            },
            other => panic!("not a frame: {:?}", other),
        }
    }

    fn count(&self, name: &str) -> usize {
        self.calls.iter().filter(|call| call.as_str() == name).count()
    }
}

fn entry(start: i64, length: i32, buffers: u64, slot: i32, signature: &[u8]) -> LocalVariableEntry {
    LocalVariableEntry {
        start_location: start,
        length,
        name: buffers,
        signature: buffers + 1,
        generic_signature: 0,
        slot,
        kind: SignatureKind::of(signature),
    }
}

fn frame(method: u64, location: i64) -> StackFrame {
    StackFrame { method, location }
}

#[test]
fn three_frames_without_live_locals_are_stored_once() {
    let mut runtime =
        Runtime::new(vec![frame(0x100, 50), frame(0x200, 60), frame(0x300, 70)], Policy::Keep);
    runtime.tables.insert(0x100, Ok((0xA000, vec![entry(0, 10, 0xA100, 0, b"I")])));
    runtime.tables.insert(
        0x200,
        Ok((0xB000, vec![entry(61, 5, 0xB100, 0, b"J"), entry(0, 59, 0xB200, 1, b"Ljava/lang/String;")])),
    );
    runtime.tables.insert(0x300, Ok((0xC000, vec![entry(71, 0, 0xC100, 3, b"Z")])));

    assert_eq!(runtime.capture(), Ok(()));

    let frames = runtime.stored_frames();
    assert_eq!(frames.len(), 3);
    let mut records = 0;
    for frame in &frames {
        for local in runtime.locals_of(frame) {
            match local {
                Managed::Local { name, value } => {
                    assert_eq!(value, 0);
                    assert!(matches!(runtime.get(name), Managed::Name(_)));
                    records += 1;
                }
                other => panic!("not a local record: {:?}", other),
            }
        }
    }
    assert_eq!(records, 4);
    assert_eq!(runtime.count("CallStaticVoidMethod"), 1);
    assert_eq!(runtime.count("GetLocalInt"), 0);
    assert_eq!(runtime.count("GetLocalLong"), 0);
    assert_eq!(runtime.count("GetLocalObject"), 0);
}

#[test]
fn a_live_int_local_is_boxed_as_integer() {
    let mut runtime = Runtime::new(vec![frame(0x100, 7)], Policy::Keep);
    runtime.tables.insert(0x100, Ok((0xA000, vec![entry(0, 10, 0xA100, 4, b"I")])));
    runtime.slots.insert((0, 4), RawValue::Int(42));

    assert_eq!(runtime.capture(), Ok(()));

    let frames = runtime.stored_frames();
    assert_eq!(frames.len(), 1);
    let locals = runtime.locals_of(&frames[0]);
    assert_eq!(locals.len(), 1);
    match &locals[0] {
        Managed::Local { name, value } => {
            assert_eq!(*runtime.get(*name), Managed::Name(0xA100));
            assert_eq!(
                *runtime.get(*value),
                Managed::Boxed {
                    class: "java/lang/Integer".to_string(),
                    signature: "(I)Ljava/lang/Integer;".to_string(),
                    raw: RawValue::Int(42),
                }
            );
        }
        other => panic!("not a local record: {:?}", other),
    }
}

#[test]
fn an_unavailable_table_gives_a_frame_without_locals() {
    for status in [101, 104] {
        let mut runtime = Runtime::new(vec![frame(0x100, 7), frame(0x200, 9)], Policy::Keep);
        runtime.tables.insert(0x100, Err(status));
        runtime.tables.insert(0x200, Ok((0xB000, vec![entry(0, 10, 0xB100, 0, b"I")])));
        runtime.slots.insert((1, 0), RawValue::Int(5));

        assert_eq!(runtime.capture(), Ok(()));

        let frames = runtime.stored_frames();
        assert_eq!(frames.len(), 2);
        match &frames[0] {
            Managed::Frame { method, locals } => {
                assert_eq!(*locals, 0);
                assert!(matches!(runtime.get(*method), Managed::Reflected { method: 0x100, .. }));
            }
            other => panic!("not a frame: {:?}", other),
        }
        assert_eq!(runtime.locals_of(&frames[1]).len(), 1);
        assert_eq!(runtime.released, vec![0xB100, 0xB101, 0xB000]);
    }
}

#[test]
fn a_throwing_policy_aborts_the_capture_and_is_cleared() {
    let mut runtime = Runtime::new(vec![frame(0x100, 7)], Policy::Throw);
    runtime.tables.insert(0x100, Ok((0xA000, vec![])));

    let result = runtime.capture();

    let class = FIRST_HANDLE;
    let method = FIRST_HANDLE + 1;
    assert_eq!(
        result,
        Err(Error::Jni(format!(
            "call to static method_id {:#x} on class {:#x} failed: policy broke",
            method, class
        )))
    );
    assert!(runtime.stored.is_empty());
    assert_eq!(runtime.count("CallStaticVoidMethod"), 0);
    assert_eq!(runtime.count("GetStackTrace"), 0);
    assert_eq!(runtime.pending, 0);
    assert_eq!(runtime.cleared, 1);
    assert_eq!(runtime.calls.last().map(String::as_str), Some("ExceptionClear"));
}

#[test]
fn a_declining_policy_ends_the_capture_without_a_walk() {
    let mut runtime = Runtime::new(vec![frame(0x100, 7)], Policy::Decline);
    runtime.tables.insert(0x100, Ok((0xA000, vec![])));

    assert_eq!(runtime.capture(), Ok(()));

    assert!(runtime.stored.is_empty());
    assert_eq!(runtime.count("CallStaticVoidMethod"), 0);
    assert_eq!(runtime.count("GetStackTrace"), 0);
    assert_eq!(runtime.count("GetLocalVariableTable"), 0);
    assert_eq!(
        runtime.calls,
        vec![
            "FindClass",
            "ExceptionCheck",
            "GetStaticMethodID",
            "ExceptionCheck",
            "GetFrameCount",
            "CallStaticBooleanMethod",
            "ExceptionCheck",
        ]
    );
}

#[test]
fn every_buffer_is_released_once_when_a_frame_fails_midway() {
    let mut runtime = Runtime::new(vec![frame(0x100, 7)], Policy::Keep);
    let mut generic = entry(0, 10, 0xA200, 1, b"Ljava/util/List;");
    generic.generic_signature = 0xA2FF;
    runtime.tables.insert(
        0x100,
        Ok((0xA000, vec![entry(0, 10, 0xA100, 0, b"I"), generic, entry(0, 10, 0xA300, 2, b"?")])),
    );
    runtime.slots.insert((0, 0), RawValue::Int(1));
    runtime.slots.insert((0, 1), RawValue::Object(0x5555));

    let result = runtime.capture();

    assert_eq!(result, Err(Error::Jni("bad local variable signature".to_string())));
    assert_eq!(
        runtime.released,
        vec![0xA100, 0xA101, 0xA200, 0xA201, 0xA2FF, 0xA300, 0xA301, 0xA000]
    );
    assert!(runtime.stored.is_empty());
}

#[test]
fn every_buffer_is_released_once_when_a_frame_succeeds() {
    let mut runtime = Runtime::new(vec![frame(0x100, 7), frame(0x200, 8)], Policy::Keep);
    runtime.tables.insert(0x100, Ok((0xA000, vec![entry(0, 10, 0xA100, 0, b"I")])));
    runtime.tables.insert(0x200, Ok((0, vec![])));
    runtime.slots.insert((0, 0), RawValue::Int(1));

    assert_eq!(runtime.capture(), Ok(()));

    assert_eq!(runtime.released, vec![0xA100, 0xA101, 0xA000, 0]);
    assert_eq!(runtime.stored_frames().len(), 2);
}

#[test]
fn a_failing_slot_read_releases_the_table_and_ends_the_capture() {
    let mut runtime = Runtime::new(vec![frame(0x100, 7)], Policy::Keep);
    runtime.tables.insert(0x100, Ok((0xA000, vec![entry(0, 10, 0xA100, 0, b"D")])));

    let result = runtime.capture();

    assert_eq!(result, Err(Error::JvmTi("JVMTI GetLocalDouble failed".to_string(), 35)));
    assert_eq!(runtime.released, vec![0xA100, 0xA101, 0xA000]);
    assert!(runtime.stored.is_empty());
}

#[test]
fn any_other_table_failure_ends_the_capture() {
    let mut runtime = Runtime::new(vec![frame(0x100, 7), frame(0x200, 8)], Policy::Keep);
    runtime.tables.insert(0x100, Err(112));
    runtime.tables.insert(0x200, Ok((0xB000, vec![])));

    let result = runtime.capture();

    assert_eq!(result, Err(Error::JvmTi("JVMTI GetLocalVariableTable failed".to_string(), 112)));
    assert!(runtime.released.is_empty());
    assert!(runtime.stored.is_empty());
    assert_eq!(runtime.count("GetLocalVariableTable"), 1);
}

#[test]
fn a_missing_class_is_diagnosed_with_the_exception_message() {
    let mut runtime = Runtime::new(vec![frame(0x100, 7)], Policy::Keep);
    runtime.missing_class = Some("com/rollbar/jvmti/LocalVariable".to_string());
    runtime.tables.insert(0x100, Ok((0xA000, vec![entry(0, 10, 0xA100, 0, b"I")])));

    let result = runtime.capture();

    assert_eq!(
        result,
        Err(Error::Jni(
            "com/rollbar/jvmti/LocalVariable class not found: no class com/rollbar/jvmti/LocalVariable"
                .to_string()
        ))
    );
    assert_eq!(runtime.pending, 0);
    assert_eq!(runtime.released, vec![0xA100, 0xA101, 0xA000]);
}

#[test]
fn an_empty_stack_stores_an_empty_array() {
    let mut runtime = Runtime::new(vec![], Policy::Keep);

    assert_eq!(runtime.capture(), Ok(()));

    assert_eq!(runtime.stored_frames().len(), 0);
    assert_eq!(runtime.count("GetLocalVariableTable"), 0);
}

#[test]
fn a_live_reference_is_stored_as_it_is() {
    let mut runtime = Runtime::new(vec![frame(0x100, 10)], Policy::Keep);
    runtime.tables.insert(
        0x100,
        Ok((0xA000, vec![entry(0, 10, 0xA100, 2, b"[I"), entry(10, 0, 0xA200, 3, b"Lx/Y;")])),
    );
    runtime.slots.insert((0, 2), RawValue::Object(0x4444));
    runtime.slots.insert((0, 3), RawValue::Object(0));

    assert_eq!(runtime.capture(), Ok(()));

    let frames = runtime.stored_frames();
    let locals = runtime.locals_of(&frames[0]);
    assert!(matches!(locals[0], Managed::Local { value: 0x4444, .. }));
    assert!(matches!(locals[1], Managed::Local { value: 0, .. }));
    assert_eq!(runtime.count("GetLocalObject"), 2);
    assert_eq!(runtime.count("CallStaticObjectMethod"), 0);
}

#[test]
fn each_primitive_code_is_boxed_by_its_own_wrapper() {
    let cases: Vec<(&[u8], RawValue, &str, &str, &str)> = vec![
        (b"J", RawValue::Long(-9), "GetLocalLong", "java/lang/Long", "(J)Ljava/lang/Long;"),
        (b"F", RawValue::Float(0x3FC0_0000), "GetLocalFloat", "java/lang/Float", "(F)Ljava/lang/Float;"),
        (
            b"D",
            RawValue::Double(0x4004_0000_0000_0000),
            "GetLocalDouble",
            "java/lang/Double",
            "(D)Ljava/lang/Double;",
        ),
        (b"I", RawValue::Int(42), "GetLocalInt", "java/lang/Integer", "(I)Ljava/lang/Integer;"),
        (b"S", RawValue::Int(-3), "GetLocalInt", "java/lang/Short", "(S)Ljava/lang/Short;"),
        (b"C", RawValue::Int(65), "GetLocalInt", "java/lang/Character", "(C)Ljava/lang/Character;"),
        (b"B", RawValue::Int(7), "GetLocalInt", "java/lang/Byte", "(B)Ljava/lang/Byte;"),
        (b"Z", RawValue::Int(1), "GetLocalInt", "java/lang/Boolean", "(Z)Ljava/lang/Boolean;"),
    ];
    for (signature, raw, read, class, factory) in cases {
        let mut runtime = Runtime::new(vec![frame(0x100, 3)], Policy::Keep);
        runtime.tables.insert(0x100, Ok((0xA000, vec![entry(3, 0, 0xA100, 6, signature)])));
        runtime.slots.insert((0, 6), raw);

        assert_eq!(runtime.capture(), Ok(()));

        assert_eq!(runtime.count(read), 1);
        let frames = runtime.stored_frames();
        match &runtime.locals_of(&frames[0])[0] {
            Managed::Local { value, .. } => assert_eq!(
                *runtime.get(*value),
                Managed::Boxed { class: class.to_string(), signature: factory.to_string(), raw }
            ),
            other => panic!("not a local record: {:?}", other),
        }
    }
}

#[test]
fn liveness_includes_both_ends_of_the_range() {
    for (location, live) in [(9, false), (10, true), (15, true), (20, true), (21, false)] {
        let mut runtime = Runtime::new(vec![frame(0x100, location)], Policy::Keep);
        runtime.tables.insert(0x100, Ok((0xA000, vec![entry(10, 10, 0xA100, 0, b"I")])));
        runtime.slots.insert((0, 0), RawValue::Int(1));

        assert_eq!(runtime.capture(), Ok(()));

        let frames = runtime.stored_frames();
        match &runtime.locals_of(&frames[0])[0] {
            Managed::Local { value, .. } => assert_eq!(*value != 0, live),
            other => panic!("not a local record: {:?}", other),
        }
        assert_eq!(runtime.count("GetLocalInt"), live as usize);
    }
}

#[test]
fn entries_that_share_a_slot_are_judged_each_by_its_own_range() {
    let mut runtime = Runtime::new(vec![frame(0x100, 12)], Policy::Keep);
    runtime.tables.insert(
        0x100,
        Ok((
            0xA000,
            vec![
                entry(0, 11, 0xA100, 1, b"I"),
                entry(12, 6, 0xA200, 1, b"J"),
                entry(10, 4, 0xA300, 1, b"J"),
            ],
        )),
    );
    runtime.slots.insert((0, 1), RawValue::Long(77));

    assert_eq!(runtime.capture(), Ok(()));

    let frames = runtime.stored_frames();
    let present: Vec<bool> = runtime
        .locals_of(&frames[0])
        .iter()
        .map(|local| matches!(local, Managed::Local { value, .. } if *value != 0))
        .collect();
    assert_eq!(present, vec![false, true, true]);
}

#[test]
fn a_finished_capture_stays_finished() {
    let mut runtime = Runtime::new(vec![], Policy::Decline);
    let (mut capture, mut action) = inner_callback(JvmTiEnv::wrap(1), JniEnv::new(2), THREAD, THROWN);
    loop {
        let reply = match action {
            Action::Debug(call) => Reply::Debug(runtime.debug(call)),
            Action::Managed(call) => Reply::Managed(runtime.managed(call)),
            Action::Finished(result) => {
                assert_eq!(result, Ok(()));
                break;
            }
        };
        let next = capture.resume(reply);
        capture = next.0;
        action = next.1;
    }
    let (capture, action) = capture.resume(Reply::Managed(JniReply::Void));
    assert!(capture.is_finished());
    assert_eq!(action, Action::Finished(Err(Error::Internal("unexpected reply".to_string()))));
}

#[test]
fn a_reply_from_the_wrong_interface_fails_the_operation() {
    let (capture, action) = inner_callback(JvmTiEnv::wrap(1), JniEnv::new(2), THREAD, THROWN);
    assert_eq!(
        action,
        Action::Managed(JniCall::FindClass { name: "com/rollbar/jvmti/ThrowableCache".to_string() })
    );
    let (capture, action) =
        capture.resume(Reply::Debug(DebugReply { status: 0, value: DebugValue::Nothing }));
    assert!(capture.is_finished());
    assert_eq!(action, Action::Finished(Err(Error::Internal("unexpected reply".to_string()))));
}

#[test]
fn a_failing_release_neither_stops_the_release_nor_fails_the_capture() {
    let mut runtime = Runtime::new(vec![frame(0x100, 7)], Policy::Keep);
    runtime.release_status = 100;
    runtime.tables.insert(
        0x100,
        Ok((0xA000, vec![entry(0, 10, 0xA100, 0, b"I"), entry(20, 1, 0xA200, 1, b"J")])),
    );
    runtime.slots.insert((0, 0), RawValue::Int(1));

    assert_eq!(runtime.capture(), Ok(()));

    assert_eq!(runtime.released, vec![0xA100, 0xA101, 0xA200, 0xA201, 0xA000]);
    assert_eq!(runtime.stored_frames().len(), 1);
}

#[test]
fn a_failing_store_fails_the_capture_after_the_walk() {
    let mut runtime = Runtime::new(vec![frame(0x100, 7)], Policy::Keep);
    runtime.tables.insert(0x100, Err(101));
    runtime.fail_store = true;

    let result = runtime.capture();

    let class = FIRST_HANDLE;
    let add = FIRST_HANDLE + 2;
    assert_eq!(
        result,
        Err(Error::Jni(format!(
            "call to static method_id {:#x} on class {:#x} failed: store broke",
            add, class
        )))
    );
    assert_eq!(runtime.count("CallStaticVoidMethod"), 1);
    assert_eq!(runtime.pending, 0);
}

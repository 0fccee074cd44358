use coffee_filter::jvm::class::Class;
use coffee_filter::jvm::errors::JvmTIError;
use coffee_filter::jvm::events::{
    EventCallbacks, Handlers, JvmTIEvent, NativeCallbacks, NewClassData,
    SetEventNotificationMode, CALLBACK_SLOTS,
};
use coffee_filter::jvm::general::{JvmTIVersion, JvmTiPhase};
use coffee_filter::jvm::jni::JNI;
use coffee_filter::jvm::objects::Object;
use coffee_filter::jvm::threads::Thread;
use coffee_filter::jvm::Jvm;
use coffee_filter::prelude::native_call_result;
use std::cell::RefCell;
use std::rc::Rc;

struct Closures;

type Env = Jvm<Closures>;

impl Handlers for Closures {
    type Vm = Box<dyn Fn(&Env, &JNI)>;
    type Thread = Box<dyn Fn(&Env, &JNI, &Thread<'_, Closures>)>;
    type ClassFileLoadHook = Box<
        dyn Fn(
            &Env,
            Option<&JNI>,
            Option<&Class<'_, Closures>>,
            Option<&[u8]>,
            Option<&Object<'_, Closures>>,
            Option<&Object<'_, Closures>>,
            Vec<u8>,
        ) -> Option<Vec<u8>>,
    >;
    type Class = Box<dyn Fn(&Env, &JNI, &Thread<'_, Closures>, &Class<'_, Closures>)>;
}

type Log = Rc<RefCell<Vec<String>>>;

fn handle() -> Env {
    Env::from_jvm_ptr(0x1000, JvmTIVersion::latest()).unwrap().acquired(0, 0x2000).unwrap()
}

fn thread_handler(log: &Log, name: &'static str) -> <Closures as Handlers>::Thread {
    let log = Rc::clone(log);
    Box::new(move |jvm, jni, thread| {
        log.borrow_mut().push(format!(
            "{name} env={:#x} jni={:#x} thread={:#x}",
            jvm.as_ptr(),
            jni.as_ptr(),
            thread.as_raw()
        ));
    })
}

fn vm_handler(log: &Log, name: &'static str) -> <Closures as Handlers>::Vm {
    let log = Rc::clone(log);
    Box::new(move |jvm, jni| {
        log.borrow_mut().push(format!("{name} env={:#x} jni={:#x}", jvm.as_ptr(), jni.as_ptr()));
    })
}

fn class_handler(log: &Log, name: &'static str) -> <Closures as Handlers>::Class {
    let log = Rc::clone(log);
    Box::new(move |jvm, jni, thread, class| {
        log.borrow_mut().push(format!(
            "{name} env={:#x} jni={:#x} thread={:#x} class={:#x}",
            jvm.as_ptr(),
            jni.as_ptr(),
            thread.as_raw(),
            class.as_raw()
        ));
    })
}

fn wired(table: &NativeCallbacks) -> Vec<JvmTIEvent> {
    all_events().into_iter().filter(|event| table.is_wired(*event)).collect()
}

fn all_events() -> Vec<JvmTIEvent> {
    vec![
        JvmTIEvent::VMInit,
        JvmTIEvent::VMDeath,
        JvmTIEvent::VMStart,
        JvmTIEvent::ThreadStart,
        JvmTIEvent::ThreadEnd,
        JvmTIEvent::ClassFileLoadHook,
        JvmTIEvent::ClassLoad,
        JvmTIEvent::ClassPrepare,
        JvmTIEvent::Exception,
        JvmTIEvent::ExceptionCatch,
        JvmTIEvent::SingleStep,
        JvmTIEvent::FramePop,
        JvmTIEvent::Breakpoint,
        JvmTIEvent::FieldAccess,
        JvmTIEvent::FieldModification,
        JvmTIEvent::MethodEntry,
        JvmTIEvent::MethodExit,
        JvmTIEvent::NativeMethodBind,
        JvmTIEvent::CompiledMethodLoad,
        JvmTIEvent::CompiledMethodUnload,
        JvmTIEvent::DynamicCodeGenerated,
        JvmTIEvent::DataDumpRequest,
        JvmTIEvent::MonitorWait,
        JvmTIEvent::MonitorWaited,
        JvmTIEvent::MonitorContendedEnter,
        JvmTIEvent::MonitorContendedEntered,
        JvmTIEvent::ResourceExhausted,
        JvmTIEvent::GarbageCollectionStart,
        JvmTIEvent::GarbageCollectionFinish,
        JvmTIEvent::ObjectFree,
        JvmTIEvent::VMObjectAlloc,
        JvmTIEvent::SampledObjectAlloc,
        JvmTIEvent::VirtualThreadStart,
        JvmTIEvent::VirtualThreadEnd,
    ]
}

#[test]
fn events_have_the_numbers_of_the_native_interface() {
    let codes: Vec<u32> = all_events().iter().map(|event| event.event_code()).collect();
    assert_eq!(
        codes,
        vec![
            50, 51, 57, 52, 53, 54, 55, 56, 58, 59, 60, 61, 62, 63, 64, 65, 66, 67, 68, 69, 70,
            71, 73, 74, 75, 76, 80, 81, 82, 83, 84, 86, 87, 88
        ]
    );
    assert_eq!(CALLBACK_SLOTS, 39);
}

#[test]
fn a_registered_handler_is_called_once_with_the_arguments_of_the_event() {
    let log: Log = Log::default();
    let mut jvm = handle();
    jvm.update_callbacks(|it| it.thread_start = Some(thread_handler(&log, "first")));
    assert!(EventCallbacks::thread_start_callback(&jvm, 0x3000, 0x50));
    assert_eq!(*log.borrow(), vec!["first env=0x2000 jni=0x3000 thread=0x50"]);
}

#[test]
fn a_replaced_handler_is_not_called_again() {
    let log: Log = Log::default();
    let mut jvm = handle();
    jvm.update_callbacks(|it| it.thread_start = Some(thread_handler(&log, "first")));
    assert!(EventCallbacks::thread_start_callback(&jvm, 0x3000, 0x50));
    jvm.update_callbacks(|it| it.thread_start = Some(thread_handler(&log, "second")));
    assert!(EventCallbacks::thread_start_callback(&jvm, 0x3000, 0x51));
    assert_eq!(
        *log.borrow(),
        vec![
            "first env=0x2000 jni=0x3000 thread=0x50",
            "second env=0x2000 jni=0x3000 thread=0x51"
        ]
    );
}

#[test]
fn an_event_without_a_handler_calls_nothing() {
    let log: Log = Log::default();
    let mut jvm = handle();
    jvm.update_callbacks(|it| it.thread_start = Some(thread_handler(&log, "start")));
    assert!(!EventCallbacks::thread_end_callback(&jvm, 0x3000, 0x50));
    assert!(!EventCallbacks::vm_init_callback(&jvm, 0x3000, 0x50));
    assert!(!EventCallbacks::vm_death_callback(&jvm, 0x3000));
    assert!(!EventCallbacks::vm_start_callback(&jvm, 0x3000));
    assert!(!EventCallbacks::class_load_callback(&jvm, 0x3000, 0x50, 0x60));
    assert!(!EventCallbacks::class_prepare_callback(&jvm, 0x3000, 0x50, 0x60));
    let output = EventCallbacks::class_file_load_hook_callback(
        &jvm,
        0x3000,
        0x60,
        0x70,
        None,
        0x80,
        vec![0xCA, 0xFE],
    );
    assert_eq!(output, NewClassData { len: 0, data: None });
    assert!(log.borrow().is_empty());
    jvm.update_callbacks(|it| it.thread_start = None);
    assert!(!EventCallbacks::thread_start_callback(&jvm, 0x3000, 0x50));
    assert!(log.borrow().is_empty());
}

#[test]
fn each_kind_of_event_reaches_its_own_handler() {
    let log: Log = Log::default();
    let mut jvm = handle();
    jvm.update_callbacks(|it| {
        it.vm_init = Some(thread_handler(&log, "vm_init"));
        it.vm_death = Some(vm_handler(&log, "vm_death"));
        it.vm_start = Some(vm_handler(&log, "vm_start"));
        it.thread_start = Some(thread_handler(&log, "thread_start"));
        it.thread_end = Some(thread_handler(&log, "thread_end"));
        it.class_load = Some(class_handler(&log, "class_load"));
        it.class_prepare = Some(class_handler(&log, "class_prepare"));
    });
    assert!(EventCallbacks::vm_start_callback(&jvm, 0x3001));
    assert!(EventCallbacks::vm_init_callback(&jvm, 0x3002, 0x51));
    assert!(EventCallbacks::thread_start_callback(&jvm, 0x3003, 0x52));
    assert!(EventCallbacks::class_load_callback(&jvm, 0x3004, 0x53, 0x61));
    assert!(EventCallbacks::class_prepare_callback(&jvm, 0x3005, 0x54, 0x62));
    assert!(EventCallbacks::thread_end_callback(&jvm, 0x3006, 0x55));
    assert!(EventCallbacks::vm_death_callback(&jvm, 0x3007));
    assert_eq!(
        *log.borrow(),
        vec![
            "vm_start env=0x2000 jni=0x3001",
            "vm_init env=0x2000 jni=0x3002 thread=0x51",
            "thread_start env=0x2000 jni=0x3003 thread=0x52",
            "class_load env=0x2000 jni=0x3004 thread=0x53 class=0x61",
            "class_prepare env=0x2000 jni=0x3005 thread=0x54 class=0x62",
            "thread_end env=0x2000 jni=0x3006 thread=0x55",
            "vm_death env=0x2000 jni=0x3007",
        ]
    );
}

fn hook_handler(log: &Log) -> <Closures as Handlers>::ClassFileLoadHook {
    let seen = Rc::clone(log);
    Box::new(move |jvm, jni, class, name, loader, domain, data| {
        seen.borrow_mut().push(format!(
            "env={:#x} jni={:?} class={:?} name={:?} loader={:?} domain={:?} data={:?}",
            jvm.as_ptr(),
            jni.map(JNI::as_ptr),
            class.map(Class::as_raw),
            name,
            loader.map(Object::as_raw),
            domain.map(Object::as_raw),
            data
        ));
        let mut replacement = data;
        replacement.reverse();
        Some(replacement)
    })
}

#[test]
fn the_hook_hands_back_the_bytes_that_its_handler_returned() {
    let log: Log = Log::default();
    let mut jvm = handle();
    jvm.update_callbacks(|it| it.class_file_load_hook = Some(hook_handler(&log)));
    let output = EventCallbacks::class_file_load_hook_callback(
        &jvm,
        0x3000,
        0x60,
        0x70,
        Some(b"a/B"),
        0x80,
        vec![1, 2, 3],
    );
    assert_eq!(output, NewClassData { len: 3, data: Some(vec![3, 2, 1]) });
    assert_eq!(
        *log.borrow(),
        vec![
            "env=0x2000 jni=Some(12288) class=Some(96) name=Some([97, 47, 66]) loader=Some(112) domain=Some(128) data=[1, 2, 3]"
        ]
    );
}

#[test]
fn the_hook_reaches_its_handler_on_a_first_load_by_the_bootstrap_loader() {
    let log: Log = Log::default();
    let mut jvm = handle();
    jvm.update_callbacks(|it| it.class_file_load_hook = Some(hook_handler(&log)));
    let output = EventCallbacks::class_file_load_hook_callback(
        &jvm,
        0x3000,
        0,
        0,
        Some(b"java/lang/Object"),
        0,
        vec![0xCA, 0xFE],
    );
    assert_eq!(output, NewClassData { len: 2, data: Some(vec![0xFE, 0xCA]) });
    let output =
        EventCallbacks::class_file_load_hook_callback(&jvm, 0, 0, 0x70, None, 0x80, vec![9]);
    assert_eq!(output, NewClassData { len: 1, data: Some(vec![9]) });
    assert_eq!(
        *log.borrow(),
        vec![
            "env=0x2000 jni=Some(12288) class=None name=Some([106, 97, 118, 97, 47, 108, 97, 110, 103, 47, 79, 98, 106, 101, 99, 116]) loader=None domain=None data=[202, 254]",
            "env=0x2000 jni=None class=None name=None loader=Some(112) domain=Some(128) data=[9]",
        ]
    );
}

#[test]
fn references_that_may_be_null_give_a_handle_or_none() {
    let jvm = handle();
    assert!(JNI::from_nullable(0).is_none());
    assert_eq!(JNI::from_nullable(0x3000).map(|jni| jni.as_ptr()), Some(0x3000));
    assert!(Class::from_nullable(&jvm, 0).is_none());
    assert_eq!(Class::from_nullable(&jvm, 0x60).map(|class| class.as_raw()), Some(0x60));
    assert!(Object::from_nullable(&jvm, 0).is_none());
    assert_eq!(Object::from_nullable(&jvm, 0x70).map(|object| object.as_raw()), Some(0x70));
}

#[test]
fn the_hook_hands_back_nothing_where_its_handler_declined() {
    let mut jvm = handle();
    jvm.update_callbacks(|it| {
        it.class_file_load_hook = Some(Box::new(|_, _, _, _, _, _, _| None));
    });
    let output =
        EventCallbacks::class_file_load_hook_callback(&jvm, 0x3000, 0x60, 0x70, None, 0x80, vec![1]);
    assert_eq!(output.len, 0);
    assert_eq!(output.data, None);
}

#[test]
fn an_empty_replacement_is_a_replacement() {
    let output = NewClassData::from_handler(Some(Vec::new()));
    assert_eq!(output.len, 0);
    assert_eq!(output.data, Some(Vec::new()));
    let output = NewClassData::from_handler(Some(vec![7; 300]));
    assert_eq!(output.len, 300);
    assert_eq!(output.data, Some(vec![7; 300]));
    let output = NewClassData::from_handler(None);
    assert_eq!((output.len, output.data), (0, None));
}

#[test]
fn the_native_table_holds_an_entry_point_for_each_handler_and_no_other() {
    let log: Log = Log::default();
    let mut jvm = handle();
    assert_eq!(wired(&jvm.update_native_callback()), vec![]);
    let table = jvm.update_callbacks(|it| {
        it.thread_start = Some(thread_handler(&log, "thread_start"));
        it.vm_start = Some(vm_handler(&log, "vm_start"));
    });
    assert_eq!(wired(&table), vec![JvmTIEvent::VMStart, JvmTIEvent::ThreadStart]);
    assert_eq!(wired(&jvm.registry().c_callbacks()), wired(&table));
    let table = jvm.update_callbacks(|it| {
        it.thread_start = None;
        it.class_file_load_hook = Some(Box::new(|_, _, _, _, _, _, _| None));
    });
    assert_eq!(wired(&table), vec![JvmTIEvent::VMStart, JvmTIEvent::ClassFileLoadHook]);
    let table = jvm.update_callbacks(|it| {
        it.vm_init = Some(thread_handler(&log, "vm_init"));
        it.vm_death = Some(vm_handler(&log, "vm_death"));
        it.thread_start = Some(thread_handler(&log, "thread_start"));
        it.thread_end = Some(thread_handler(&log, "thread_end"));
        it.class_load = Some(class_handler(&log, "class_load"));
        it.class_prepare = Some(class_handler(&log, "class_prepare"));
    });
    assert_eq!(wired(&table), all_events()[..8].to_vec());
}

#[test]
fn an_update_keeps_the_environment() {
    let mut jvm = handle();
    jvm.update_callbacks(|it| it.vm_death = Some(Box::new(|_, _| ())));
    assert_eq!(jvm.as_ptr(), 0x2000);
    assert!(jvm.registry().vm_death.is_some());
    assert!(jvm.registry().vm_start.is_none());
}

/// A runtime that takes a change of event notification in the live phase and
/// refuses it between the loading of the agent and the start of the VM.
fn set_event_notification_mode(phase: JvmTiPhase, request: &SetEventNotificationMode) -> u32 {
    assert_eq!(request.event_thread, 0);
    match phase {
        JvmTiPhase::OnLoad | JvmTiPhase::Live => 0,
        _ => 112,
    }
}

#[test]
fn events_of_all_threads_are_enabled_with_a_null_thread() {
    let mut jvm = handle();
    let request = jvm.enable_event(JvmTIEvent::ThreadStart, None);
    assert_eq!(
        request,
        SetEventNotificationMode { jvmti_ptr: 0x2000, mode: 1, event_type: 52, event_thread: 0 }
    );
    let live = set_event_notification_mode(JvmTiPhase::Live, &request);
    assert_eq!(native_call_result(live), Ok(()));
    let early = set_event_notification_mode(JvmTiPhase::Primordial, &request);
    assert_eq!(native_call_result(early), Err(JvmTIError::WrongPhase));
}

#[test]
fn events_of_one_thread_are_enabled_with_its_reference() {
    let other = handle();
    let mut jvm = handle();
    let thread = Thread::from_ptr(&other, 0x50);
    let request = jvm.enable_event(JvmTIEvent::ClassFileLoadHook, Some(thread));
    assert_eq!(request.event_type, 54);
    assert_eq!(request.event_thread, 0x50);
    assert_eq!(jvm.as_ptr(), 0x2000);
}

#[test]
fn handles_wrap_the_references_they_were_made_of() {
    let jvm = handle();
    assert_eq!(JNI::from_ptr(0x3000).as_ptr(), 0x3000);
    assert_eq!(Class::from_ptr(&jvm, 0x60).as_raw(), 0x60);
    assert_eq!(Object::from_ptr(&jvm, 0x70).as_raw(), 0x70);
    assert_eq!(Thread::from_ptr(&jvm, 0x50).into_raw(), 0x50);
    assert_eq!(Object::from_ptr(&jvm, 0x70).env().as_ptr(), 0x2000);
}

#[test]
fn a_replacement_too_long_for_the_native_length_is_not_handed_back() {
    let longest = NewClassData::from_handler(Some(vec![0u8; i32::MAX as usize]));
    assert_eq!(longest.len, i32::MAX);
    assert_eq!(longest.data.map(|bytes| bytes.len()), Some(i32::MAX as usize));
    let too_long = NewClassData::from_handler(Some(vec![0u8; i32::MAX as usize + 1]));
    assert_eq!(too_long, NewClassData { len: 0, data: None });
}

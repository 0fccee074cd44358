//! Event kinds, the registry of their handlers and the dispatch of events.
use crate::jvm::class::Class;
use crate::jvm::jni::JNI;
use crate::jvm::objects::Object;
use crate::jvm::threads::Thread;
use crate::jvm::Jvm;
use crate::sys;
use vstd::prelude::*;

verus! {

/// The kinds of event that the runtime can send.
#[derive(Debug, Clone, Copy, PartialEq, Eq, Structural)]
pub enum JvmTIEvent {
    VMInit,
    VMDeath,
    VMStart,
    ThreadStart,
    ThreadEnd,
    ClassFileLoadHook,
    ClassLoad,
    ClassPrepare,
    Exception,
    ExceptionCatch,
    SingleStep,
    FramePop,
    Breakpoint,
    FieldAccess,
    FieldModification,
    MethodEntry,
    MethodExit,
    NativeMethodBind,
    CompiledMethodLoad,
    CompiledMethodUnload,
    DynamicCodeGenerated,
    DataDumpRequest,
    MonitorWait,
    MonitorWaited,
    MonitorContendedEnter,
    MonitorContendedEntered,
    ResourceExhausted,
    GarbageCollectionStart,
    GarbageCollectionFinish,
    ObjectFree,
    VMObjectAlloc,
    SampledObjectAlloc,
    VirtualThreadStart,
    VirtualThreadEnd,
}

impl JvmTIEvent {
    /// The native number of this kind of event.
    pub open spec fn code(self) -> u32 {
        match self {
            JvmTIEvent::VMInit => sys::JVMTI_EVENT_VM_INIT,
            JvmTIEvent::VMDeath => sys::JVMTI_EVENT_VM_DEATH,
            JvmTIEvent::VMStart => sys::JVMTI_EVENT_VM_START,
            JvmTIEvent::ThreadStart => sys::JVMTI_EVENT_THREAD_START,
            JvmTIEvent::ThreadEnd => sys::JVMTI_EVENT_THREAD_END,
            JvmTIEvent::ClassFileLoadHook => sys::JVMTI_EVENT_CLASS_FILE_LOAD_HOOK,
            JvmTIEvent::ClassLoad => sys::JVMTI_EVENT_CLASS_LOAD,
            JvmTIEvent::ClassPrepare => sys::JVMTI_EVENT_CLASS_PREPARE,
            JvmTIEvent::Exception => sys::JVMTI_EVENT_EXCEPTION,
            JvmTIEvent::ExceptionCatch => sys::JVMTI_EVENT_EXCEPTION_CATCH,
            JvmTIEvent::SingleStep => sys::JVMTI_EVENT_SINGLE_STEP,
            JvmTIEvent::FramePop => sys::JVMTI_EVENT_FRAME_POP,
            JvmTIEvent::Breakpoint => sys::JVMTI_EVENT_BREAKPOINT,
            JvmTIEvent::FieldAccess => sys::JVMTI_EVENT_FIELD_ACCESS,
            JvmTIEvent::FieldModification => sys::JVMTI_EVENT_FIELD_MODIFICATION,
            JvmTIEvent::MethodEntry => sys::JVMTI_EVENT_METHOD_ENTRY,
            JvmTIEvent::MethodExit => sys::JVMTI_EVENT_METHOD_EXIT,
            JvmTIEvent::NativeMethodBind => sys::JVMTI_EVENT_NATIVE_METHOD_BIND,
            JvmTIEvent::CompiledMethodLoad => sys::JVMTI_EVENT_COMPILED_METHOD_LOAD,
            JvmTIEvent::CompiledMethodUnload => sys::JVMTI_EVENT_COMPILED_METHOD_UNLOAD,
            JvmTIEvent::DynamicCodeGenerated => sys::JVMTI_EVENT_DYNAMIC_CODE_GENERATED,
            JvmTIEvent::DataDumpRequest => sys::JVMTI_EVENT_DATA_DUMP_REQUEST,
            JvmTIEvent::MonitorWait => sys::JVMTI_EVENT_MONITOR_WAIT,
            JvmTIEvent::MonitorWaited => sys::JVMTI_EVENT_MONITOR_WAITED,
            JvmTIEvent::MonitorContendedEnter => sys::JVMTI_EVENT_MONITOR_CONTENDED_ENTER,
            JvmTIEvent::MonitorContendedEntered => sys::JVMTI_EVENT_MONITOR_CONTENDED_ENTERED,
            JvmTIEvent::ResourceExhausted => sys::JVMTI_EVENT_RESOURCE_EXHAUSTED,
            JvmTIEvent::GarbageCollectionStart => sys::JVMTI_EVENT_GARBAGE_COLLECTION_START,
            JvmTIEvent::GarbageCollectionFinish => sys::JVMTI_EVENT_GARBAGE_COLLECTION_FINISH,
            JvmTIEvent::ObjectFree => sys::JVMTI_EVENT_OBJECT_FREE,
            JvmTIEvent::VMObjectAlloc => sys::JVMTI_EVENT_VM_OBJECT_ALLOC,
            JvmTIEvent::SampledObjectAlloc => sys::JVMTI_EVENT_SAMPLED_OBJECT_ALLOC,
            JvmTIEvent::VirtualThreadStart => sys::JVMTI_EVENT_VIRTUAL_THREAD_START,
            JvmTIEvent::VirtualThreadEnd => sys::JVMTI_EVENT_VIRTUAL_THREAD_END,
        }
    }

    /// The place of this kind of event in the native callback table, counted
    /// from zero: the table is laid out by event number.
    pub open spec fn slot(self) -> int {
        self.code() - sys::JVMTI_MIN_EVENT_TYPE_VAL
    }

    /// Whether a registry can hold a handler for this kind of event.
    pub open spec fn is_supported(self) -> bool {
        match self {
            JvmTIEvent::VMInit
            | JvmTIEvent::VMDeath
            | JvmTIEvent::VMStart
            | JvmTIEvent::ThreadStart
            | JvmTIEvent::ThreadEnd
            | JvmTIEvent::ClassFileLoadHook
            | JvmTIEvent::ClassLoad
            | JvmTIEvent::ClassPrepare => true,
            _ => false,
        }
    }

    /// The native number of this kind of event.
    pub fn event_code(&self) -> (code: u32)
        ensures
            code == self.code(),
            sys::JVMTI_MIN_EVENT_TYPE_VAL <= code <= sys::JVMTI_MAX_EVENT_TYPE_VAL,
    {
        match self {
            JvmTIEvent::VMInit => sys::JVMTI_EVENT_VM_INIT,
            JvmTIEvent::VMDeath => sys::JVMTI_EVENT_VM_DEATH,
            JvmTIEvent::VMStart => sys::JVMTI_EVENT_VM_START,
            JvmTIEvent::ThreadStart => sys::JVMTI_EVENT_THREAD_START,
            JvmTIEvent::ThreadEnd => sys::JVMTI_EVENT_THREAD_END,
            JvmTIEvent::ClassFileLoadHook => sys::JVMTI_EVENT_CLASS_FILE_LOAD_HOOK,
            JvmTIEvent::ClassLoad => sys::JVMTI_EVENT_CLASS_LOAD,
            JvmTIEvent::ClassPrepare => sys::JVMTI_EVENT_CLASS_PREPARE,
            JvmTIEvent::Exception => sys::JVMTI_EVENT_EXCEPTION,
            JvmTIEvent::ExceptionCatch => sys::JVMTI_EVENT_EXCEPTION_CATCH,
            JvmTIEvent::SingleStep => sys::JVMTI_EVENT_SINGLE_STEP,
            JvmTIEvent::FramePop => sys::JVMTI_EVENT_FRAME_POP,
            JvmTIEvent::Breakpoint => sys::JVMTI_EVENT_BREAKPOINT,
            JvmTIEvent::FieldAccess => sys::JVMTI_EVENT_FIELD_ACCESS,
            JvmTIEvent::FieldModification => sys::JVMTI_EVENT_FIELD_MODIFICATION,
            JvmTIEvent::MethodEntry => sys::JVMTI_EVENT_METHOD_ENTRY,
            JvmTIEvent::MethodExit => sys::JVMTI_EVENT_METHOD_EXIT,
            JvmTIEvent::NativeMethodBind => sys::JVMTI_EVENT_NATIVE_METHOD_BIND,
            JvmTIEvent::CompiledMethodLoad => sys::JVMTI_EVENT_COMPILED_METHOD_LOAD,
            JvmTIEvent::CompiledMethodUnload => sys::JVMTI_EVENT_COMPILED_METHOD_UNLOAD,
            JvmTIEvent::DynamicCodeGenerated => sys::JVMTI_EVENT_DYNAMIC_CODE_GENERATED,
            JvmTIEvent::DataDumpRequest => sys::JVMTI_EVENT_DATA_DUMP_REQUEST,
            JvmTIEvent::MonitorWait => sys::JVMTI_EVENT_MONITOR_WAIT,
            JvmTIEvent::MonitorWaited => sys::JVMTI_EVENT_MONITOR_WAITED,
            JvmTIEvent::MonitorContendedEnter => sys::JVMTI_EVENT_MONITOR_CONTENDED_ENTER,
            JvmTIEvent::MonitorContendedEntered => sys::JVMTI_EVENT_MONITOR_CONTENDED_ENTERED,
            JvmTIEvent::ResourceExhausted => sys::JVMTI_EVENT_RESOURCE_EXHAUSTED,
            JvmTIEvent::GarbageCollectionStart => sys::JVMTI_EVENT_GARBAGE_COLLECTION_START,
            JvmTIEvent::GarbageCollectionFinish => sys::JVMTI_EVENT_GARBAGE_COLLECTION_FINISH,
            JvmTIEvent::ObjectFree => sys::JVMTI_EVENT_OBJECT_FREE,
            JvmTIEvent::VMObjectAlloc => sys::JVMTI_EVENT_VM_OBJECT_ALLOC,
            JvmTIEvent::SampledObjectAlloc => sys::JVMTI_EVENT_SAMPLED_OBJECT_ALLOC,
            JvmTIEvent::VirtualThreadStart => sys::JVMTI_EVENT_VIRTUAL_THREAD_START,
            JvmTIEvent::VirtualThreadEnd => sys::JVMTI_EVENT_VIRTUAL_THREAD_END,
        }
    }
}

/// No two kinds of event share a native number, so none share a slot of the
/// native callback table.
pub proof fn lemma_event_codes_distinct()
    ensures
        forall|a: JvmTIEvent, b: JvmTIEvent| #[trigger] a.code() == #[trigger] b.code() ==> a == b,
        forall|a: JvmTIEvent, b: JvmTIEvent| #[trigger] a.slot() == #[trigger] b.slot() ==> a == b,
        forall|e: JvmTIEvent| 0 <= #[trigger] e.slot() < CALLBACK_SLOTS,
{
}

/// The number of slots in the native callback table: one for each event
/// number from the lowest to the highest, the reserved ones included.
pub const CALLBACK_SLOTS: usize = 39;

/// The types of the handlers that an embedding registers, one for each
/// shape of event.
///
/// A handler is called with the environment, the JNI session of the call and
/// the arguments of its event; the functions that dispatch an event say with
/// which.
pub trait Handlers {
    /// Handles `VMDeath` and `VMStart`.
    type Vm;

    /// Handles `VMInit`, `ThreadStart` and `ThreadEnd`.
    type Thread;

    /// Handles `ClassFileLoadHook`.
    type ClassFileLoadHook;

    /// Handles `ClassLoad` and `ClassPrepare`.
    type Class;
}

/// The handlers of one environment: at most one for each supported kind of
/// event. To set a field again replaces the handler that it held.
#[non_exhaustive]
pub struct EventCallbacks<H: Handlers> {
    pub vm_init: Option<H::Thread>,
    pub vm_death: Option<H::Vm>,
    pub vm_start: Option<H::Vm>,
    pub thread_start: Option<H::Thread>,
    pub thread_end: Option<H::Thread>,
    pub class_file_load_hook: Option<H::ClassFileLoadHook>,
    pub class_load: Option<H::Class>,
    pub class_prepare: Option<H::Class>,
}

/// What to hand to the runtime's `SetEventNotificationMode`.
#[derive(Debug, Clone, Copy, PartialEq, Eq, Structural)]
pub struct SetEventNotificationMode {
    /// The native environment to call.
    pub jvmti_ptr: usize,
    /// `JVMTI_ENABLE` or `JVMTI_DISABLE`.
    pub mode: u32,
    /// The native number of the kind of event.
    pub event_type: u32,
    /// The reference to the one thread whose events are meant, or null for
    /// the events of all threads.
    pub event_thread: usize,
}

impl<H: Handlers> Jvm<H> {
    /// Says what to hand to `SetEventNotificationMode` to have the events of
    /// kind `event_type` sent: those of `thread` alone, or those of every
    /// thread where `thread` is `None`. The status that the runtime answers
    /// is for [`crate::prelude::native_call_result`].
    pub fn enable_event(&mut self, event_type: JvmTIEvent, thread: Option<Thread<'_, H>>) -> (request:
        SetEventNotificationMode)
        ensures
            *final(self) == *old(self),
            request.jvmti_ptr == old(self).jvmti_ptr(),
            request.mode == sys::JVMTI_ENABLE,
            request.event_type == event_type.code(),
            request.event_thread == (match thread {
                Some(thread) => thread.jthread(),
                None => 0,
            }),
    {
        let event_thread = match thread {
            Some(thread) => thread.into_raw(),
            None => 0,
        };
        SetEventNotificationMode {
            jvmti_ptr: self.as_ptr(),
            mode: sys::JVMTI_ENABLE,
            event_type: event_type.event_code(),
            event_thread,
        }
    }
}

/// The native callback table as the runtime is to see it: for each slot,
/// whether it holds the entry point of this layer for the event of that slot
/// (`true`) or a null pointer (`false`).
#[derive(Debug)]
pub struct NativeCallbacks {
    slots: Vec<bool>,
}

impl View for NativeCallbacks {
    type V = Seq<bool>;

    closed spec fn view(&self) -> Seq<bool> {
        self.slots@
    }
}

impl NativeCallbacks {
    /// A table has a slot for each event number, and only the slot of a kind
    /// of event that a registry can hold a handler for can hold an entry
    /// point: the others, the reserved ones among them, stay null.
    #[verifier::type_invariant]
    spec fn well_formed(&self) -> bool {
        &&& self.slots@.len() == CALLBACK_SLOTS
        &&& forall|slot: int|
            0 <= slot < CALLBACK_SLOTS && self.slots@[slot] ==> exists|event: JvmTIEvent|
                #[trigger] event.slot() == slot && event.is_supported()
    }

    /// Whether the slot of `event` holds an entry point.
    pub fn is_wired(&self, event: JvmTIEvent) -> (wired: bool)
        ensures
            self@.len() == CALLBACK_SLOTS,
            wired == self@[event.slot()],
    {
        proof {
            use_type_invariant(self);
        }
        let slot = (event.event_code() - sys::JVMTI_MIN_EVENT_TYPE_VAL) as usize;
        self.slots[slot]
    }
}

impl<H: Handlers> Default for EventCallbacks<H> {
    fn default() -> (callbacks: Self)
        ensures
            callbacks == Self::empty(),
    {
        EventCallbacks {
            vm_init: None,
            vm_death: None,
            vm_start: None,
            thread_start: None,
            thread_end: None,
            class_file_load_hook: None,
            class_load: None,
            class_prepare: None,
        }
    }
}

impl<H: Handlers> EventCallbacks<H> {
    /// The registry without a handler.
    pub open spec fn empty() -> Self {
        EventCallbacks {
            vm_init: None,
            vm_death: None,
            vm_start: None,
            thread_start: None,
            thread_end: None,
            class_file_load_hook: None,
            class_load: None,
            class_prepare: None,
        }
    }

    /// Whether a handler is registered for `event`. Only the kinds that this
    /// registry has a field for can have one.
    pub open spec fn has_handler(&self, event: JvmTIEvent) -> bool {
        match event {
            JvmTIEvent::VMInit => self.vm_init is Some,
            JvmTIEvent::VMDeath => self.vm_death is Some,
            JvmTIEvent::VMStart => self.vm_start is Some,
            JvmTIEvent::ThreadStart => self.thread_start is Some,
            JvmTIEvent::ThreadEnd => self.thread_end is Some,
            JvmTIEvent::ClassFileLoadHook => self.class_file_load_hook is Some,
            JvmTIEvent::ClassLoad => self.class_load is Some,
            JvmTIEvent::ClassPrepare => self.class_prepare is Some,
            _ => false,
        }
    }

    /// Whether the slot `slot` of the native callback table is to hold an
    /// entry point: it is the slot of a kind of event that has a handler.
    pub open spec fn wires(&self, slot: int) -> bool {
        exists|event: JvmTIEvent| #[trigger] event.slot() == slot && self.has_handler(event)
    }

    /// Lays the registry out as the native callback table. A slot holds an
    /// entry point where a handler is registered for its kind of event; every
    /// other slot, the reserved ones among them, is null.
    pub fn c_callbacks(&self) -> (table: NativeCallbacks)
        ensures
            table@.len() == CALLBACK_SLOTS,
            forall|slot: int| 0 <= slot < CALLBACK_SLOTS ==> table@[slot] == self.wires(slot),
            forall|event: JvmTIEvent| table@[#[trigger] event.slot()] == self.has_handler(event),
    {
        let mut slots: Vec<bool> = Vec::new();
        let mut slot: usize = 0;
        while slot < CALLBACK_SLOTS
            invariant
                slot <= CALLBACK_SLOTS,
                slots@.len() == slot,
                forall|i: int| 0 <= i < slot ==> slots@[i] == self.wires(i),
            decreases CALLBACK_SLOTS - slot,
        {
            let code = sys::JVMTI_MIN_EVENT_TYPE_VAL + slot as u32;
            let wired = match code {
                sys::JVMTI_EVENT_VM_INIT => self.vm_init.is_some(),
                sys::JVMTI_EVENT_VM_DEATH => self.vm_death.is_some(),
                sys::JVMTI_EVENT_VM_START => self.vm_start.is_some(),
                sys::JVMTI_EVENT_THREAD_START => self.thread_start.is_some(),
                sys::JVMTI_EVENT_THREAD_END => self.thread_end.is_some(),
                sys::JVMTI_EVENT_CLASS_FILE_LOAD_HOOK => self.class_file_load_hook.is_some(),
                sys::JVMTI_EVENT_CLASS_LOAD => self.class_load.is_some(),
                sys::JVMTI_EVENT_CLASS_PREPARE => self.class_prepare.is_some(),
                _ => false,
            };
            proof {
                if wired {
                    let event = if code == sys::JVMTI_EVENT_VM_INIT {
                        JvmTIEvent::VMInit
                    } else if code == sys::JVMTI_EVENT_VM_DEATH {
                        JvmTIEvent::VMDeath
                    } else if code == sys::JVMTI_EVENT_VM_START {
                        JvmTIEvent::VMStart
                    } else if code == sys::JVMTI_EVENT_THREAD_START {
                        JvmTIEvent::ThreadStart
                    } else if code == sys::JVMTI_EVENT_THREAD_END {
                        JvmTIEvent::ThreadEnd
                    } else if code == sys::JVMTI_EVENT_CLASS_FILE_LOAD_HOOK {
                        JvmTIEvent::ClassFileLoadHook
                    } else if code == sys::JVMTI_EVENT_CLASS_LOAD {
                        JvmTIEvent::ClassLoad
                    } else {
                        JvmTIEvent::ClassPrepare
                    };
                    assert(event.slot() == slot && self.has_handler(event));
                }
            }
            slots.push(wired);
            slot = slot + 1;
        }
        proof {
            lemma_event_codes_distinct();
            assert forall|i: int| 0 <= i < CALLBACK_SLOTS && slots@[i] implies exists|
                event: JvmTIEvent,
            | #[trigger] event.slot() == i && event.is_supported() by {
                let event = choose|event: JvmTIEvent|
                    #[trigger] event.slot() == i && self.has_handler(event);
                assert(event.slot() == i && event.is_supported());
            }
        }
        NativeCallbacks { slots }
    }
}

/// What the class-file-load hook hands back to the runtime through its two
/// output parameters.
#[derive(Debug, Clone, PartialEq, Eq)]
pub struct NewClassData {
    /// The length to write.
    pub len: i32,
    /// The buffer whose address to write, and which the runtime owns from
    /// then on; `None` stands for the null pointer.
    pub data: Option<Vec<u8>>,
}

/// What the hook hands back for the answer `result` of its handler: the
/// replacement with its length, or a zero length and no buffer where the
/// handler declined. A replacement whose length the native 32-bit integer
/// cannot hold cannot be described to the runtime, and none is handed back
/// for it.
pub open spec fn new_class_data(result: Option<Vec<u8>>) -> NewClassData {
    match result {
        Some(bytes) => if bytes@.len() <= i32::MAX {
            NewClassData { len: bytes@.len() as i32, data: Some(bytes) }
        } else {
            NewClassData { len: 0, data: None }
        },
        None => NewClassData { len: 0, data: None },
    }
}

/// What the hook hands back describes the answer of its handler: for a
/// replacement, its bytes with their number, as long as the native 32-bit
/// length can hold that number; for none, a zero length and the null pointer.
pub proof fn lemma_new_class_data_describes_answer(result: Option<Vec<u8>>)
    requires
        result matches Some(bytes) ==> bytes@.len() <= i32::MAX,
    ensures
        result matches Some(bytes) ==> new_class_data(result).len == bytes@.len() && new_class_data(
            result,
        ).data == Some(bytes),
        result is None ==> new_class_data(result).len == 0 && new_class_data(result).data is None,
{
}

/// The value behind an optional value, borrowed.
pub open spec fn borrowed<'a, T>(value: Option<T>) -> Option<&'a T> {
    match value {
        Some(inner) => Some(&inner),
        None => None,
    }
}

impl NewClassData {
    /// What the hook hands back for the answer `result` of its handler.
    pub fn from_handler(result: Option<Vec<u8>>) -> (output: NewClassData)
        ensures
            output == new_class_data(result),
    {
        match result {
            Some(bytes) => {
                if bytes.len() <= 0x7FFF_FFFF {
                    NewClassData { len: bytes.len() as i32, data: Some(bytes) }
                } else {
                    NewClassData { len: 0, data: None }
                }
            },
            None => NewClassData { len: 0, data: None },
        }
    }
}

impl<H: Handlers> EventCallbacks<H> {
    /// The entry point for `VMInit`: wraps the JNI session and the thread
    /// of the event and calls the handler if one is registered. Says whether
    /// one was.
    pub fn vm_init_callback(jvm: &Jvm<H>, jni_env: usize, thread: usize) -> (dispatched: bool) where
        H::Thread: Fn(&Jvm<H>, &JNI, &Thread<'_, H>),

        requires
            jni_env != 0,
            thread != 0,
            jvm.callbacks().vm_init matches Some(handler) ==> handler.requires(
                (jvm, &JNI::spec_from_ptr(jni_env), &Thread::spec_from_ptr(jvm, thread)),
            ),
        ensures
            dispatched == jvm.callbacks().has_handler(JvmTIEvent::VMInit),
            jvm.callbacks().vm_init matches Some(handler) ==> handler.ensures(
                (jvm, &JNI::spec_from_ptr(jni_env), &Thread::spec_from_ptr(jvm, thread)),
                (),
            ),
    {
        let jni = JNI::from_ptr(jni_env);
        let thread = Thread::from_ptr(jvm, thread);
        match &jvm.registry().vm_init {
            Some(callback) => {
                callback(jvm, &jni, &thread);
                true
            },
            None => false,
        }
    }

    /// The entry point for `VMDeath`: wraps the JNI session of the call and
    /// calls the handler if one is registered. Says whether one was.
    pub fn vm_death_callback(jvm: &Jvm<H>, jni_env: usize) -> (dispatched: bool) where
        H::Vm: Fn(&Jvm<H>, &JNI),

        requires
            jni_env != 0,
            jvm.callbacks().vm_death matches Some(handler) ==> handler.requires(
                (jvm, &JNI::spec_from_ptr(jni_env)),
            ),
        ensures
            dispatched == jvm.callbacks().has_handler(JvmTIEvent::VMDeath),
            jvm.callbacks().vm_death matches Some(handler) ==> handler.ensures(
                (jvm, &JNI::spec_from_ptr(jni_env)),
                (),
            ),
    {
        let jni = JNI::from_ptr(jni_env);
        match &jvm.registry().vm_death {
            Some(callback) => {
                callback(jvm, &jni);
                true
            },
            None => false,
        }
    }

    /// The entry point for `VMStart`: wraps the JNI session of the call and
    /// calls the handler if one is registered. Says whether one was.
    pub fn vm_start_callback(jvm: &Jvm<H>, jni_env: usize) -> (dispatched: bool) where
        H::Vm: Fn(&Jvm<H>, &JNI),

        requires
            jni_env != 0,
            jvm.callbacks().vm_start matches Some(handler) ==> handler.requires(
                (jvm, &JNI::spec_from_ptr(jni_env)),
            ),
        ensures
            dispatched == jvm.callbacks().has_handler(JvmTIEvent::VMStart),
            jvm.callbacks().vm_start matches Some(handler) ==> handler.ensures(
                (jvm, &JNI::spec_from_ptr(jni_env)),
                (),
            ),
    {
        let jni = JNI::from_ptr(jni_env);
        match &jvm.registry().vm_start {
            Some(callback) => {
                callback(jvm, &jni);
                true
            },
            None => false,
        }
    }

    /// The entry point for `ThreadStart`: wraps the JNI session and the thread
    /// of the event and calls the handler if one is registered. Says whether
    /// one was.
    pub fn thread_start_callback(jvm: &Jvm<H>, jni_env: usize, thread: usize) -> (dispatched: bool) where
        H::Thread: Fn(&Jvm<H>, &JNI, &Thread<'_, H>),

        requires
            jni_env != 0,
            thread != 0,
            jvm.callbacks().thread_start matches Some(handler) ==> handler.requires(
                (jvm, &JNI::spec_from_ptr(jni_env), &Thread::spec_from_ptr(jvm, thread)),
            ),
        ensures
            dispatched == jvm.callbacks().has_handler(JvmTIEvent::ThreadStart),
            jvm.callbacks().thread_start matches Some(handler) ==> handler.ensures(
                (jvm, &JNI::spec_from_ptr(jni_env), &Thread::spec_from_ptr(jvm, thread)),
                (),
            ),
    {
        let jni = JNI::from_ptr(jni_env);
        let thread = Thread::from_ptr(jvm, thread);
        match &jvm.registry().thread_start {
            Some(callback) => {
                callback(jvm, &jni, &thread);
                true
            },
            None => false,
        }
    }

    /// The entry point for `ThreadEnd`: wraps the JNI session and the thread
    /// of the event and calls the handler if one is registered. Says whether
    /// one was.
    pub fn thread_end_callback(jvm: &Jvm<H>, jni_env: usize, thread: usize) -> (dispatched: bool) where
        H::Thread: Fn(&Jvm<H>, &JNI, &Thread<'_, H>),

        requires
            jni_env != 0,
            thread != 0,
            jvm.callbacks().thread_end matches Some(handler) ==> handler.requires(
                (jvm, &JNI::spec_from_ptr(jni_env), &Thread::spec_from_ptr(jvm, thread)),
            ),
        ensures
            dispatched == jvm.callbacks().has_handler(JvmTIEvent::ThreadEnd),
            jvm.callbacks().thread_end matches Some(handler) ==> handler.ensures(
                (jvm, &JNI::spec_from_ptr(jni_env), &Thread::spec_from_ptr(jvm, thread)),
                (),
            ),
    {
        let jni = JNI::from_ptr(jni_env);
        let thread = Thread::from_ptr(jvm, thread);
        match &jvm.registry().thread_end {
            Some(callback) => {
                callback(jvm, &jni, &thread);
                true
            },
            None => false,
        }
    }

    /// The entry point for `ClassFileLoadHook`: wraps the arguments of the
    /// event, calls the handler if one is registered, and says what to hand
    /// back to the runtime. Without a handler nothing is called and no
    /// replacement is handed back.
    ///
    /// The runtime may leave the JNI session, the class, the loader and the
    /// protection domain null: there is no session before the VM has started,
    /// no class on a first load, no loader for the bootstrap loader. The
    /// handler gets none for each that is null.
    pub fn class_file_load_hook_callback(
        jvm: &Jvm<H>,
        jni_env: usize,
        class_being_redefined: usize,
        loader: usize,
        name: Option<&[u8]>,
        protection_domain: usize,
        class_data: Vec<u8>,
    ) -> (output: NewClassData) where
        H::ClassFileLoadHook: Fn(
            &Jvm<H>,
            Option<&JNI>,
            Option<&Class<'_, H>>,
            Option<&[u8]>,
            Option<&Object<'_, H>>,
            Option<&Object<'_, H>>,
            Vec<u8>,
        ) -> Option<Vec<u8>>,

        requires
            jvm.callbacks().class_file_load_hook matches Some(handler) ==> handler.requires(
                (
                    jvm,
                    borrowed(JNI::spec_from_nullable(jni_env)),
                    borrowed(Class::spec_from_nullable(jvm, class_being_redefined)),
                    name,
                    borrowed(Object::spec_from_nullable(jvm, loader)),
                    borrowed(Object::spec_from_nullable(jvm, protection_domain)),
                    class_data,
                ),
            ),
        ensures
            jvm.callbacks().class_file_load_hook is None ==> output == new_class_data(None),
            jvm.callbacks().class_file_load_hook matches Some(handler) ==> exists|
                result: Option<Vec<u8>>,
            |
                output == new_class_data(result) && #[trigger] handler.ensures(
                    (
                        jvm,
                        borrowed(JNI::spec_from_nullable(jni_env)),
                        borrowed(Class::spec_from_nullable(jvm, class_being_redefined)),
                        name,
                        borrowed(Object::spec_from_nullable(jvm, loader)),
                        borrowed(Object::spec_from_nullable(jvm, protection_domain)),
                        class_data,
                    ),
                    result,
                ),
    {
        let jni = JNI::from_nullable(jni_env);
        let class_being_redefined = Class::from_nullable(jvm, class_being_redefined);
        let class_loader = Object::from_nullable(jvm, loader);
        let protection_domain = Object::from_nullable(jvm, protection_domain);
        let result = match &jvm.registry().class_file_load_hook {
            Some(handler) => handler(
                jvm,
                jni.as_ref(),
                class_being_redefined.as_ref(),
                name,
                class_loader.as_ref(),
                protection_domain.as_ref(),
                class_data,
            ),
            None => None,
        };
        NewClassData::from_handler(result)
    }

    /// The entry point for `ClassLoad`: wraps the JNI session, the thread and
    /// the class of the event and calls the handler if one is registered.
    /// Says whether one was.
    pub fn class_load_callback(jvm: &Jvm<H>, jni_env: usize, thread: usize, klass: usize) -> (dispatched:
        bool) where H::Class: Fn(&Jvm<H>, &JNI, &Thread<'_, H>, &Class<'_, H>)
        requires
            jni_env != 0,
            thread != 0,
            klass != 0,
            jvm.callbacks().class_load matches Some(handler) ==> handler.requires(
                (
                    jvm,
                    &JNI::spec_from_ptr(jni_env),
                    &Thread::spec_from_ptr(jvm, thread),
                    &Class::spec_from_ptr(jvm, klass),
                ),
            ),
        ensures
            dispatched == jvm.callbacks().has_handler(JvmTIEvent::ClassLoad),
            jvm.callbacks().class_load matches Some(handler) ==> handler.ensures(
                (
                    jvm,
                    &JNI::spec_from_ptr(jni_env),
                    &Thread::spec_from_ptr(jvm, thread),
                    &Class::spec_from_ptr(jvm, klass),
                ),
                (),
            ),
    {
        let jni = JNI::from_ptr(jni_env);
        let thread = Thread::from_ptr(jvm, thread);
        let class = Class::from_ptr(jvm, klass);
        match &jvm.registry().class_load {
            Some(callback) => {
                callback(jvm, &jni, &thread, &class);
                true
            },
            None => false,
        }
    }

    /// The entry point for `ClassPrepare`: wraps the JNI session, the thread and
    /// the class of the event and calls the handler if one is registered.
    /// Says whether one was.
    pub fn class_prepare_callback(jvm: &Jvm<H>, jni_env: usize, thread: usize, klass: usize) -> (dispatched:
        bool) where H::Class: Fn(&Jvm<H>, &JNI, &Thread<'_, H>, &Class<'_, H>)
        requires
            jni_env != 0,
            thread != 0,
            klass != 0,
            jvm.callbacks().class_prepare matches Some(handler) ==> handler.requires(
                (
                    jvm,
                    &JNI::spec_from_ptr(jni_env),
                    &Thread::spec_from_ptr(jvm, thread),
                    &Class::spec_from_ptr(jvm, klass),
                ),
            ),
        ensures
            dispatched == jvm.callbacks().has_handler(JvmTIEvent::ClassPrepare),
            jvm.callbacks().class_prepare matches Some(handler) ==> handler.ensures(
                (
                    jvm,
                    &JNI::spec_from_ptr(jni_env),
                    &Thread::spec_from_ptr(jvm, thread),
                    &Class::spec_from_ptr(jvm, klass),
                ),
                (),
            ),
    {
        let jni = JNI::from_ptr(jni_env);
        let thread = Thread::from_ptr(jvm, thread);
        let class = Class::from_ptr(jvm, klass);
        match &jvm.registry().class_prepare {
            Some(callback) => {
                callback(jvm, &jni, &thread, &class);
                true
            },
            None => false,
        }
    }
}

} // verus!

//! The numbers of the native interface: status codes, event numbers, phases
//! and the layout of a version number, as the JVM TI and JNI headers fix them.
use vstd::prelude::*;

verus! {

/// `GetEnv` succeeded.
pub const JNI_OK: i32 = 0;

/// `GetEnv` was called on a thread that is not attached to the VM.
pub const JNI_EDETACHED: i32 = -2;

/// `GetEnv` was asked for a version that the VM does not support.
pub const JNI_EVERSION: i32 = -3;

pub const JVMTI_VERSION_INTERFACE_JVMTI: u32 = 0x3000_0000;

pub const JVMTI_VERSION_MASK_INTERFACE_TYPE: u32 = 0x7000_0000;

pub const JVMTI_VERSION_MASK_MAJOR: u32 = 0x0FFF_0000;

pub const JVMTI_VERSION_MASK_MINOR: u32 = 0x0000_FF00;

pub const JVMTI_VERSION_MASK_MICRO: u32 = 0x0000_00FF;

pub const JVMTI_VERSION_SHIFT_MAJOR: u32 = 16;

pub const JVMTI_VERSION_SHIFT_MINOR: u32 = 8;

pub const JVMTI_VERSION_SHIFT_MICRO: u32 = 0;

pub const JVMTI_PHASE_ONLOAD: u32 = 1;

pub const JVMTI_PHASE_PRIMORDIAL: u32 = 2;

pub const JVMTI_PHASE_START: u32 = 6;

pub const JVMTI_PHASE_LIVE: u32 = 4;

pub const JVMTI_PHASE_DEAD: u32 = 8;

pub const JVMTI_VERBOSE_OTHER: u32 = 0;

pub const JVMTI_VERBOSE_GC: u32 = 1;

pub const JVMTI_VERBOSE_CLASS: u32 = 2;

pub const JVMTI_VERBOSE_JNI: u32 = 4;

pub const JVMTI_JLOCATION_JVMBCI: u32 = 1;

pub const JVMTI_JLOCATION_MACHINEPC: u32 = 2;

pub const JVMTI_JLOCATION_OTHER: u32 = 0;

pub const JVMTI_ENABLE: u32 = 1;

pub const JVMTI_DISABLE: u32 = 0;

/// The lowest event number; the first slot of the native callback table.
pub const JVMTI_MIN_EVENT_TYPE_VAL: u32 = 50;

/// The highest event number; the last slot of the native callback table.
pub const JVMTI_MAX_EVENT_TYPE_VAL: u32 = 88;

pub const JVMTI_EVENT_VM_INIT: u32 = 50;

pub const JVMTI_EVENT_VM_DEATH: u32 = 51;

pub const JVMTI_EVENT_THREAD_START: u32 = 52;

pub const JVMTI_EVENT_THREAD_END: u32 = 53;

pub const JVMTI_EVENT_CLASS_FILE_LOAD_HOOK: u32 = 54;

pub const JVMTI_EVENT_CLASS_LOAD: u32 = 55;

pub const JVMTI_EVENT_CLASS_PREPARE: u32 = 56;

pub const JVMTI_EVENT_VM_START: u32 = 57;

pub const JVMTI_EVENT_EXCEPTION: u32 = 58;

pub const JVMTI_EVENT_EXCEPTION_CATCH: u32 = 59;

pub const JVMTI_EVENT_SINGLE_STEP: u32 = 60;

pub const JVMTI_EVENT_FRAME_POP: u32 = 61;

pub const JVMTI_EVENT_BREAKPOINT: u32 = 62;

pub const JVMTI_EVENT_FIELD_ACCESS: u32 = 63;

pub const JVMTI_EVENT_FIELD_MODIFICATION: u32 = 64;

pub const JVMTI_EVENT_METHOD_ENTRY: u32 = 65;

pub const JVMTI_EVENT_METHOD_EXIT: u32 = 66;

pub const JVMTI_EVENT_NATIVE_METHOD_BIND: u32 = 67;

pub const JVMTI_EVENT_COMPILED_METHOD_LOAD: u32 = 68;

pub const JVMTI_EVENT_COMPILED_METHOD_UNLOAD: u32 = 69;

pub const JVMTI_EVENT_DYNAMIC_CODE_GENERATED: u32 = 70;

pub const JVMTI_EVENT_DATA_DUMP_REQUEST: u32 = 71;

pub const JVMTI_EVENT_MONITOR_WAIT: u32 = 73;

pub const JVMTI_EVENT_MONITOR_WAITED: u32 = 74;

pub const JVMTI_EVENT_MONITOR_CONTENDED_ENTER: u32 = 75;

pub const JVMTI_EVENT_MONITOR_CONTENDED_ENTERED: u32 = 76;

pub const JVMTI_EVENT_RESOURCE_EXHAUSTED: u32 = 80;

pub const JVMTI_EVENT_GARBAGE_COLLECTION_START: u32 = 81;

pub const JVMTI_EVENT_GARBAGE_COLLECTION_FINISH: u32 = 82;

pub const JVMTI_EVENT_OBJECT_FREE: u32 = 83;

pub const JVMTI_EVENT_VM_OBJECT_ALLOC: u32 = 84;

pub const JVMTI_EVENT_SAMPLED_OBJECT_ALLOC: u32 = 86;

pub const JVMTI_EVENT_VIRTUAL_THREAD_START: u32 = 87;

pub const JVMTI_EVENT_VIRTUAL_THREAD_END: u32 = 88;

/// The one status that means success.
pub const JVMTI_ERROR_NONE: u32 = 0;

pub const JVMTI_ERROR_INVALID_THREAD: u32 = 10;

pub const JVMTI_ERROR_INVALID_THREAD_GROUP: u32 = 11;

pub const JVMTI_ERROR_INVALID_PRIORITY: u32 = 12;

pub const JVMTI_ERROR_THREAD_NOT_SUSPENDED: u32 = 13;

pub const JVMTI_ERROR_THREAD_SUSPENDED: u32 = 14;

pub const JVMTI_ERROR_THREAD_NOT_ALIVE: u32 = 15;

pub const JVMTI_ERROR_INVALID_OBJECT: u32 = 20;

pub const JVMTI_ERROR_INVALID_CLASS: u32 = 21;

pub const JVMTI_ERROR_CLASS_NOT_PREPARED: u32 = 22;

pub const JVMTI_ERROR_INVALID_METHODID: u32 = 23;

pub const JVMTI_ERROR_INVALID_LOCATION: u32 = 24;

pub const JVMTI_ERROR_INVALID_FIELDID: u32 = 25;

pub const JVMTI_ERROR_INVALID_MODULE: u32 = 26;

pub const JVMTI_ERROR_NO_MORE_FRAMES: u32 = 31;

pub const JVMTI_ERROR_OPAQUE_FRAME: u32 = 32;

pub const JVMTI_ERROR_TYPE_MISMATCH: u32 = 34;

pub const JVMTI_ERROR_INVALID_SLOT: u32 = 35;

pub const JVMTI_ERROR_DUPLICATE: u32 = 40;

pub const JVMTI_ERROR_NOT_FOUND: u32 = 41;

pub const JVMTI_ERROR_INVALID_MONITOR: u32 = 50;

pub const JVMTI_ERROR_NOT_MONITOR_OWNER: u32 = 51;

pub const JVMTI_ERROR_INTERRUPT: u32 = 52;

pub const JVMTI_ERROR_INVALID_CLASS_FORMAT: u32 = 60;

pub const JVMTI_ERROR_CIRCULAR_CLASS_DEFINITION: u32 = 61;

pub const JVMTI_ERROR_FAILS_VERIFICATION: u32 = 62;

pub const JVMTI_ERROR_UNSUPPORTED_REDEFINITION_METHOD_ADDED: u32 = 63;

pub const JVMTI_ERROR_UNSUPPORTED_REDEFINITION_SCHEMA_CHANGED: u32 = 64;

pub const JVMTI_ERROR_INVALID_TYPESTATE: u32 = 65;

pub const JVMTI_ERROR_UNSUPPORTED_REDEFINITION_HIERARCHY_CHANGED: u32 = 66;

pub const JVMTI_ERROR_UNSUPPORTED_REDEFINITION_METHOD_DELETED: u32 = 67;

pub const JVMTI_ERROR_UNSUPPORTED_VERSION: u32 = 68;

pub const JVMTI_ERROR_NAMES_DONT_MATCH: u32 = 69;

pub const JVMTI_ERROR_UNSUPPORTED_REDEFINITION_CLASS_MODIFIERS_CHANGED: u32 = 70;

pub const JVMTI_ERROR_UNSUPPORTED_REDEFINITION_METHOD_MODIFIERS_CHANGED: u32 = 71;

pub const JVMTI_ERROR_UNSUPPORTED_REDEFINITION_CLASS_ATTRIBUTE_CHANGED: u32 = 72;

pub const JVMTI_ERROR_UNSUPPORTED_OPERATION: u32 = 73;

pub const JVMTI_ERROR_UNMODIFIABLE_CLASS: u32 = 79;

pub const JVMTI_ERROR_UNMODIFIABLE_MODULE: u32 = 80;

pub const JVMTI_ERROR_NOT_AVAILABLE: u32 = 98;

pub const JVMTI_ERROR_MUST_POSSESS_CAPABILITY: u32 = 99;

pub const JVMTI_ERROR_NULL_POINTER: u32 = 100;

pub const JVMTI_ERROR_ABSENT_INFORMATION: u32 = 101;

pub const JVMTI_ERROR_INVALID_EVENT_TYPE: u32 = 102;

pub const JVMTI_ERROR_ILLEGAL_ARGUMENT: u32 = 103;

pub const JVMTI_ERROR_NATIVE_METHOD: u32 = 104;

pub const JVMTI_ERROR_CLASS_LOADER_UNSUPPORTED: u32 = 106;

pub const JVMTI_ERROR_OUT_OF_MEMORY: u32 = 110;

pub const JVMTI_ERROR_ACCESS_DENIED: u32 = 111;

pub const JVMTI_ERROR_WRONG_PHASE: u32 = 112;

pub const JVMTI_ERROR_INTERNAL: u32 = 113;

pub const JVMTI_ERROR_UNATTACHED_THREAD: u32 = 115;

pub const JVMTI_ERROR_INVALID_ENVIRONMENT: u32 = 116;

} // verus!

//! The errors that a JVM TI function reports, and their native numbers.
use crate::sys;
use vstd::prelude::*;

verus! {

/// The error that a JVM Tool Interface (JVM TI) function reported.
///
/// There is one variant for each status that the native interface
/// documents, other than `JVMTI_ERROR_NONE`; [`JvmTIError::code`] gives the number of each.
#[derive(Debug, Clone, Copy, PartialEq, Eq, Structural)]
#[allow(missing_docs)]
pub enum JvmTIError {
    // Universal errors
    OutOfMemory,
    AccessDenied,
    UnAttachedThread,
    InvalidEnvironment,
    WrongPhase,
    Internal,
    // Errors that a function is required to report
    InvalidPriority,
    ThreadNotSuspended,
    ThreadSuspended,
    ThreadNotAlive,
    ClassNotPrepared,
    NoMoreFrames,
    OpaqueFrame,
    Duplicate,
    NotFound,
    NotMonitorOwner,
    Interrupt,
    UnmodifiableClass,
    UnmodifiableModule,
    NotAvailable,
    AbsentInformation,
    InvalidEventType,
    NativeMethod,
    ClassLoaderUnsupported,
    // Errors that a function may report of its arguments
    InvalidThread,
    InvalidFieldId,
    InvalidModule,
    InvalidMethodId,
    InvalidLocation,
    InvalidObject,
    InvalidClass,
    TypeMismatch,
    InvalidSlot,
    MustPossessCapability,
    NullPointer,
    InvalidThreadGroup,
    InvalidMonitor,
    IllegalArgument,
    InvalidTypeState,
    UnsupportedVersion,
    InvalidClassFormat,
    CircularClassDefinition,
    UnsupportedRedefinitionMethodAdded,
    UnsupportedRedefinitionSchemaChanged,
    FailsVerification,
    UnsupportedRedefinitionHierarchyChanged,
    UnsupportedRedefinitionMethodDeleted,
    NamesDontMatch,
    UnsupportedRedefinitionClassModifiersChanged,
    UnsupportedRedefinitionMethodModifiersChanged,
    UnsupportedRedefinitionClassAttributeChanged,
    UnsupportedOperation,
}

impl JvmTIError {
    /// The native number of this error.
    pub open spec fn code(self) -> u32 {
        match self {
            JvmTIError::OutOfMemory => sys::JVMTI_ERROR_OUT_OF_MEMORY,
            JvmTIError::AccessDenied => sys::JVMTI_ERROR_ACCESS_DENIED,
            JvmTIError::UnAttachedThread => sys::JVMTI_ERROR_UNATTACHED_THREAD,
            JvmTIError::InvalidEnvironment => sys::JVMTI_ERROR_INVALID_ENVIRONMENT,
            JvmTIError::WrongPhase => sys::JVMTI_ERROR_WRONG_PHASE,
            JvmTIError::Internal => sys::JVMTI_ERROR_INTERNAL,
            JvmTIError::InvalidPriority => sys::JVMTI_ERROR_INVALID_PRIORITY,
            JvmTIError::ThreadNotSuspended => sys::JVMTI_ERROR_THREAD_NOT_SUSPENDED,
            JvmTIError::ThreadSuspended => sys::JVMTI_ERROR_THREAD_SUSPENDED,
            JvmTIError::ThreadNotAlive => sys::JVMTI_ERROR_THREAD_NOT_ALIVE,
            JvmTIError::ClassNotPrepared => sys::JVMTI_ERROR_CLASS_NOT_PREPARED,
            JvmTIError::NoMoreFrames => sys::JVMTI_ERROR_NO_MORE_FRAMES,
            JvmTIError::OpaqueFrame => sys::JVMTI_ERROR_OPAQUE_FRAME,
            JvmTIError::Duplicate => sys::JVMTI_ERROR_DUPLICATE,
            JvmTIError::NotFound => sys::JVMTI_ERROR_NOT_FOUND,
            JvmTIError::NotMonitorOwner => sys::JVMTI_ERROR_NOT_MONITOR_OWNER,
            JvmTIError::Interrupt => sys::JVMTI_ERROR_INTERRUPT,
            JvmTIError::UnmodifiableClass => sys::JVMTI_ERROR_UNMODIFIABLE_CLASS,
            JvmTIError::UnmodifiableModule => sys::JVMTI_ERROR_UNMODIFIABLE_MODULE,
            JvmTIError::NotAvailable => sys::JVMTI_ERROR_NOT_AVAILABLE,
            JvmTIError::AbsentInformation => sys::JVMTI_ERROR_ABSENT_INFORMATION,
            JvmTIError::InvalidEventType => sys::JVMTI_ERROR_INVALID_EVENT_TYPE,
            JvmTIError::NativeMethod => sys::JVMTI_ERROR_NATIVE_METHOD,
            JvmTIError::ClassLoaderUnsupported => sys::JVMTI_ERROR_CLASS_LOADER_UNSUPPORTED,
            JvmTIError::InvalidThread => sys::JVMTI_ERROR_INVALID_THREAD,
            JvmTIError::InvalidFieldId => sys::JVMTI_ERROR_INVALID_FIELDID,
            JvmTIError::InvalidModule => sys::JVMTI_ERROR_INVALID_MODULE,
            JvmTIError::InvalidMethodId => sys::JVMTI_ERROR_INVALID_METHODID,
            JvmTIError::InvalidLocation => sys::JVMTI_ERROR_INVALID_LOCATION,
            JvmTIError::InvalidObject => sys::JVMTI_ERROR_INVALID_OBJECT,
            JvmTIError::InvalidClass => sys::JVMTI_ERROR_INVALID_CLASS,
            JvmTIError::TypeMismatch => sys::JVMTI_ERROR_TYPE_MISMATCH,
            JvmTIError::InvalidSlot => sys::JVMTI_ERROR_INVALID_SLOT,
            JvmTIError::MustPossessCapability => sys::JVMTI_ERROR_MUST_POSSESS_CAPABILITY,
            JvmTIError::NullPointer => sys::JVMTI_ERROR_NULL_POINTER,
            JvmTIError::InvalidThreadGroup => sys::JVMTI_ERROR_INVALID_THREAD_GROUP,
            JvmTIError::InvalidMonitor => sys::JVMTI_ERROR_INVALID_MONITOR,
            JvmTIError::IllegalArgument => sys::JVMTI_ERROR_ILLEGAL_ARGUMENT,
            JvmTIError::InvalidTypeState => sys::JVMTI_ERROR_INVALID_TYPESTATE,
            JvmTIError::UnsupportedVersion => sys::JVMTI_ERROR_UNSUPPORTED_VERSION,
            JvmTIError::InvalidClassFormat => sys::JVMTI_ERROR_INVALID_CLASS_FORMAT,
            JvmTIError::CircularClassDefinition => sys::JVMTI_ERROR_CIRCULAR_CLASS_DEFINITION,
            JvmTIError::UnsupportedRedefinitionMethodAdded => sys::JVMTI_ERROR_UNSUPPORTED_REDEFINITION_METHOD_ADDED,
            JvmTIError::UnsupportedRedefinitionSchemaChanged => sys::JVMTI_ERROR_UNSUPPORTED_REDEFINITION_SCHEMA_CHANGED,
            JvmTIError::FailsVerification => sys::JVMTI_ERROR_FAILS_VERIFICATION,
            JvmTIError::UnsupportedRedefinitionHierarchyChanged => sys::JVMTI_ERROR_UNSUPPORTED_REDEFINITION_HIERARCHY_CHANGED,
            JvmTIError::UnsupportedRedefinitionMethodDeleted => sys::JVMTI_ERROR_UNSUPPORTED_REDEFINITION_METHOD_DELETED,
            JvmTIError::NamesDontMatch => sys::JVMTI_ERROR_NAMES_DONT_MATCH,
            JvmTIError::UnsupportedRedefinitionClassModifiersChanged => sys::JVMTI_ERROR_UNSUPPORTED_REDEFINITION_CLASS_MODIFIERS_CHANGED,
            JvmTIError::UnsupportedRedefinitionMethodModifiersChanged => sys::JVMTI_ERROR_UNSUPPORTED_REDEFINITION_METHOD_MODIFIERS_CHANGED,
            JvmTIError::UnsupportedRedefinitionClassAttributeChanged => sys::JVMTI_ERROR_UNSUPPORTED_REDEFINITION_CLASS_ATTRIBUTE_CHANGED,
            JvmTIError::UnsupportedOperation => sys::JVMTI_ERROR_UNSUPPORTED_OPERATION,
        }
    }

    /// The name that the native interface gives this error.
    pub open spec fn name(self) -> Seq<char> {
        match self {
            JvmTIError::OutOfMemory => "JVMTI_ERROR_OUT_OF_MEMORY"@,
            JvmTIError::AccessDenied => "JVMTI_ERROR_ACCESS_DENIED"@,
            JvmTIError::UnAttachedThread => "JVMTI_ERROR_UNATTACHED_THREAD"@,
            JvmTIError::InvalidEnvironment => "JVMTI_ERROR_INVALID_ENVIRONMENT"@,
            JvmTIError::WrongPhase => "JVMTI_ERROR_WRONG_PHASE"@,
            JvmTIError::Internal => "JVMTI_ERROR_INTERNAL"@,
            JvmTIError::InvalidPriority => "JVMTI_ERROR_INVALID_PRIORITY"@,
            JvmTIError::ThreadNotSuspended => "JVMTI_ERROR_THREAD_NOT_SUSPENDED"@,
            JvmTIError::ThreadSuspended => "JVMTI_ERROR_THREAD_SUSPENDED"@,
            JvmTIError::ThreadNotAlive => "JVMTI_ERROR_THREAD_NOT_ALIVE"@,
            JvmTIError::ClassNotPrepared => "JVMTI_ERROR_CLASS_NOT_PREPARED"@,
            JvmTIError::NoMoreFrames => "JVMTI_ERROR_NO_MORE_FRAMES"@,
            JvmTIError::OpaqueFrame => "JVMTI_ERROR_OPAQUE_FRAME"@,
            JvmTIError::Duplicate => "JVMTI_ERROR_DUPLICATE"@,
            JvmTIError::NotFound => "JVMTI_ERROR_NOT_FOUND"@,
            JvmTIError::NotMonitorOwner => "JVMTI_ERROR_NOT_MONITOR_OWNER"@,
            JvmTIError::Interrupt => "JVMTI_ERROR_INTERRUPT"@,
            JvmTIError::UnmodifiableClass => "JVMTI_ERROR_UNMODIFIABLE_CLASS"@,
            JvmTIError::UnmodifiableModule => "JVMTI_ERROR_UNMODIFIABLE_MODULE"@,
            JvmTIError::NotAvailable => "JVMTI_ERROR_NOT_AVAILABLE"@,
            JvmTIError::AbsentInformation => "JVMTI_ERROR_ABSENT_INFORMATION"@,
            JvmTIError::InvalidEventType => "JVMTI_ERROR_INVALID_EVENT_TYPE"@,
            JvmTIError::NativeMethod => "JVMTI_ERROR_NATIVE_METHOD"@,
            JvmTIError::ClassLoaderUnsupported => "JVMTI_ERROR_CLASS_LOADER_UNSUPPORTED"@,
            JvmTIError::InvalidThread => "JVMTI_ERROR_INVALID_THREAD"@,
            JvmTIError::InvalidFieldId => "JVMTI_ERROR_INVALID_FIELDID"@,
            JvmTIError::InvalidModule => "JVMTI_ERROR_INVALID_MODULE"@,
            JvmTIError::InvalidMethodId => "JVMTI_ERROR_INVALID_METHODID"@,
            JvmTIError::InvalidLocation => "JVMTI_ERROR_INVALID_LOCATION"@,
            JvmTIError::InvalidObject => "JVMTI_ERROR_INVALID_OBJECT"@,
            JvmTIError::InvalidClass => "JVMTI_ERROR_INVALID_CLASS"@,
            JvmTIError::TypeMismatch => "JVMTI_ERROR_TYPE_MISMATCH"@,
            JvmTIError::InvalidSlot => "JVMTI_ERROR_INVALID_SLOT"@,
            JvmTIError::MustPossessCapability => "JVMTI_ERROR_MUST_POSSESS_CAPABILITY"@,
            JvmTIError::NullPointer => "JVMTI_ERROR_NULL_POINTER"@,
            JvmTIError::InvalidThreadGroup => "JVMTI_ERROR_INVALID_THREAD_GROUP"@,
            JvmTIError::InvalidMonitor => "JVMTI_ERROR_INVALID_MONITOR"@,
            JvmTIError::IllegalArgument => "JVMTI_ERROR_ILLEGAL_ARGUMENT"@,
            JvmTIError::InvalidTypeState => "JVMTI_ERROR_INVALID_TYPESTATE"@,
            JvmTIError::UnsupportedVersion => "JVMTI_ERROR_UNSUPPORTED_VERSION"@,
            JvmTIError::InvalidClassFormat => "JVMTI_ERROR_INVALID_CLASS_FORMAT"@,
            JvmTIError::CircularClassDefinition => "JVMTI_ERROR_CIRCULAR_CLASS_DEFINITION"@,
            JvmTIError::UnsupportedRedefinitionMethodAdded => "JVMTI_ERROR_UNSUPPORTED_REDEFINITION_METHOD_ADDED"@,
            JvmTIError::UnsupportedRedefinitionSchemaChanged => "JVMTI_ERROR_UNSUPPORTED_REDEFINITION_SCHEMA_CHANGED"@,
            JvmTIError::FailsVerification => "JVMTI_ERROR_FAILS_VERIFICATION"@,
            JvmTIError::UnsupportedRedefinitionHierarchyChanged => "JVMTI_ERROR_UNSUPPORTED_REDEFINITION_HIERARCHY_CHANGED"@,
            JvmTIError::UnsupportedRedefinitionMethodDeleted => "JVMTI_ERROR_UNSUPPORTED_REDEFINITION_METHOD_DELETED"@,
            JvmTIError::NamesDontMatch => "JVMTI_ERROR_NAMES_DONT_MATCH"@,
            JvmTIError::UnsupportedRedefinitionClassModifiersChanged => "JVMTI_ERROR_UNSUPPORTED_REDEFINITION_CLASS_MODIFIERS_CHANGED"@,
            JvmTIError::UnsupportedRedefinitionMethodModifiersChanged => "JVMTI_ERROR_UNSUPPORTED_REDEFINITION_METHOD_MODIFIERS_CHANGED"@,
            JvmTIError::UnsupportedRedefinitionClassAttributeChanged => "JVMTI_ERROR_UNSUPPORTED_REDEFINITION_CLASS_ATTRIBUTE_CHANGED"@,
            JvmTIError::UnsupportedOperation => "JVMTI_ERROR_UNSUPPORTED_OPERATION"@,
        }
    }

    /// Whether `code` is the number of an error, that is of a variant of this
    /// enum. `JVMTI_ERROR_NONE` is not.
    pub open spec fn is_error_code(code: u32) -> bool {
        exists|e: JvmTIError| #[trigger] e.code() == code
    }

    /// The native number of this error.
    pub fn error_code(&self) -> (code: u32)
        ensures
            code == self.code(),
            code != sys::JVMTI_ERROR_NONE,
    {
        match self {
            JvmTIError::OutOfMemory => sys::JVMTI_ERROR_OUT_OF_MEMORY,
            JvmTIError::AccessDenied => sys::JVMTI_ERROR_ACCESS_DENIED,
            JvmTIError::UnAttachedThread => sys::JVMTI_ERROR_UNATTACHED_THREAD,
            JvmTIError::InvalidEnvironment => sys::JVMTI_ERROR_INVALID_ENVIRONMENT,
            JvmTIError::WrongPhase => sys::JVMTI_ERROR_WRONG_PHASE,
            JvmTIError::Internal => sys::JVMTI_ERROR_INTERNAL,
            JvmTIError::InvalidPriority => sys::JVMTI_ERROR_INVALID_PRIORITY,
            JvmTIError::ThreadNotSuspended => sys::JVMTI_ERROR_THREAD_NOT_SUSPENDED,
            JvmTIError::ThreadSuspended => sys::JVMTI_ERROR_THREAD_SUSPENDED,
            JvmTIError::ThreadNotAlive => sys::JVMTI_ERROR_THREAD_NOT_ALIVE,
            JvmTIError::ClassNotPrepared => sys::JVMTI_ERROR_CLASS_NOT_PREPARED,
            JvmTIError::NoMoreFrames => sys::JVMTI_ERROR_NO_MORE_FRAMES,
            JvmTIError::OpaqueFrame => sys::JVMTI_ERROR_OPAQUE_FRAME,
            JvmTIError::Duplicate => sys::JVMTI_ERROR_DUPLICATE,
            JvmTIError::NotFound => sys::JVMTI_ERROR_NOT_FOUND,
            JvmTIError::NotMonitorOwner => sys::JVMTI_ERROR_NOT_MONITOR_OWNER,
            JvmTIError::Interrupt => sys::JVMTI_ERROR_INTERRUPT,
            JvmTIError::UnmodifiableClass => sys::JVMTI_ERROR_UNMODIFIABLE_CLASS,
            JvmTIError::UnmodifiableModule => sys::JVMTI_ERROR_UNMODIFIABLE_MODULE,
            JvmTIError::NotAvailable => sys::JVMTI_ERROR_NOT_AVAILABLE,
            JvmTIError::AbsentInformation => sys::JVMTI_ERROR_ABSENT_INFORMATION,
            JvmTIError::InvalidEventType => sys::JVMTI_ERROR_INVALID_EVENT_TYPE,
            JvmTIError::NativeMethod => sys::JVMTI_ERROR_NATIVE_METHOD,
            JvmTIError::ClassLoaderUnsupported => sys::JVMTI_ERROR_CLASS_LOADER_UNSUPPORTED,
            JvmTIError::InvalidThread => sys::JVMTI_ERROR_INVALID_THREAD,
            JvmTIError::InvalidFieldId => sys::JVMTI_ERROR_INVALID_FIELDID,
            JvmTIError::InvalidModule => sys::JVMTI_ERROR_INVALID_MODULE,
            JvmTIError::InvalidMethodId => sys::JVMTI_ERROR_INVALID_METHODID,
            JvmTIError::InvalidLocation => sys::JVMTI_ERROR_INVALID_LOCATION,
            JvmTIError::InvalidObject => sys::JVMTI_ERROR_INVALID_OBJECT,
            JvmTIError::InvalidClass => sys::JVMTI_ERROR_INVALID_CLASS,
            JvmTIError::TypeMismatch => sys::JVMTI_ERROR_TYPE_MISMATCH,
            JvmTIError::InvalidSlot => sys::JVMTI_ERROR_INVALID_SLOT,
            JvmTIError::MustPossessCapability => sys::JVMTI_ERROR_MUST_POSSESS_CAPABILITY,
            JvmTIError::NullPointer => sys::JVMTI_ERROR_NULL_POINTER,
            JvmTIError::InvalidThreadGroup => sys::JVMTI_ERROR_INVALID_THREAD_GROUP,
            JvmTIError::InvalidMonitor => sys::JVMTI_ERROR_INVALID_MONITOR,
            JvmTIError::IllegalArgument => sys::JVMTI_ERROR_ILLEGAL_ARGUMENT,
            JvmTIError::InvalidTypeState => sys::JVMTI_ERROR_INVALID_TYPESTATE,
            JvmTIError::UnsupportedVersion => sys::JVMTI_ERROR_UNSUPPORTED_VERSION,
            JvmTIError::InvalidClassFormat => sys::JVMTI_ERROR_INVALID_CLASS_FORMAT,
            JvmTIError::CircularClassDefinition => sys::JVMTI_ERROR_CIRCULAR_CLASS_DEFINITION,
            JvmTIError::UnsupportedRedefinitionMethodAdded => sys::JVMTI_ERROR_UNSUPPORTED_REDEFINITION_METHOD_ADDED,
            JvmTIError::UnsupportedRedefinitionSchemaChanged => sys::JVMTI_ERROR_UNSUPPORTED_REDEFINITION_SCHEMA_CHANGED,
            JvmTIError::FailsVerification => sys::JVMTI_ERROR_FAILS_VERIFICATION,
            JvmTIError::UnsupportedRedefinitionHierarchyChanged => sys::JVMTI_ERROR_UNSUPPORTED_REDEFINITION_HIERARCHY_CHANGED,
            JvmTIError::UnsupportedRedefinitionMethodDeleted => sys::JVMTI_ERROR_UNSUPPORTED_REDEFINITION_METHOD_DELETED,
            JvmTIError::NamesDontMatch => sys::JVMTI_ERROR_NAMES_DONT_MATCH,
            JvmTIError::UnsupportedRedefinitionClassModifiersChanged => sys::JVMTI_ERROR_UNSUPPORTED_REDEFINITION_CLASS_MODIFIERS_CHANGED,
            JvmTIError::UnsupportedRedefinitionMethodModifiersChanged => sys::JVMTI_ERROR_UNSUPPORTED_REDEFINITION_METHOD_MODIFIERS_CHANGED,
            JvmTIError::UnsupportedRedefinitionClassAttributeChanged => sys::JVMTI_ERROR_UNSUPPORTED_REDEFINITION_CLASS_ATTRIBUTE_CHANGED,
            JvmTIError::UnsupportedOperation => sys::JVMTI_ERROR_UNSUPPORTED_OPERATION,
        }
    }

    /// The error whose native number is `code`, or `None` where `code` is
    /// the number of no error (`JVMTI_ERROR_NONE` among them).
    pub fn from_error_code(code: u32) -> (error: Option<Self>)
        ensures
            match error {
                Some(e) => e.code() == code,
                None => !Self::is_error_code(code),
            },
    {
        match code {
            sys::JVMTI_ERROR_OUT_OF_MEMORY => Some(JvmTIError::OutOfMemory),
            sys::JVMTI_ERROR_ACCESS_DENIED => Some(JvmTIError::AccessDenied),
            sys::JVMTI_ERROR_UNATTACHED_THREAD => Some(JvmTIError::UnAttachedThread),
            sys::JVMTI_ERROR_INVALID_ENVIRONMENT => Some(JvmTIError::InvalidEnvironment),
            sys::JVMTI_ERROR_WRONG_PHASE => Some(JvmTIError::WrongPhase),
            sys::JVMTI_ERROR_INTERNAL => Some(JvmTIError::Internal),
            sys::JVMTI_ERROR_INVALID_PRIORITY => Some(JvmTIError::InvalidPriority),
            sys::JVMTI_ERROR_THREAD_NOT_SUSPENDED => Some(JvmTIError::ThreadNotSuspended),
            sys::JVMTI_ERROR_THREAD_SUSPENDED => Some(JvmTIError::ThreadSuspended),
            sys::JVMTI_ERROR_THREAD_NOT_ALIVE => Some(JvmTIError::ThreadNotAlive),
            sys::JVMTI_ERROR_CLASS_NOT_PREPARED => Some(JvmTIError::ClassNotPrepared),
            sys::JVMTI_ERROR_NO_MORE_FRAMES => Some(JvmTIError::NoMoreFrames),
            sys::JVMTI_ERROR_OPAQUE_FRAME => Some(JvmTIError::OpaqueFrame),
            sys::JVMTI_ERROR_DUPLICATE => Some(JvmTIError::Duplicate),
            sys::JVMTI_ERROR_NOT_FOUND => Some(JvmTIError::NotFound),
            sys::JVMTI_ERROR_NOT_MONITOR_OWNER => Some(JvmTIError::NotMonitorOwner),
            sys::JVMTI_ERROR_INTERRUPT => Some(JvmTIError::Interrupt),
            sys::JVMTI_ERROR_UNMODIFIABLE_CLASS => Some(JvmTIError::UnmodifiableClass),
            sys::JVMTI_ERROR_UNMODIFIABLE_MODULE => Some(JvmTIError::UnmodifiableModule),
            sys::JVMTI_ERROR_NOT_AVAILABLE => Some(JvmTIError::NotAvailable),
            sys::JVMTI_ERROR_ABSENT_INFORMATION => Some(JvmTIError::AbsentInformation),
            sys::JVMTI_ERROR_INVALID_EVENT_TYPE => Some(JvmTIError::InvalidEventType),
            sys::JVMTI_ERROR_NATIVE_METHOD => Some(JvmTIError::NativeMethod),
            sys::JVMTI_ERROR_CLASS_LOADER_UNSUPPORTED => Some(JvmTIError::ClassLoaderUnsupported),
            sys::JVMTI_ERROR_INVALID_THREAD => Some(JvmTIError::InvalidThread),
            sys::JVMTI_ERROR_INVALID_FIELDID => Some(JvmTIError::InvalidFieldId),
            sys::JVMTI_ERROR_INVALID_MODULE => Some(JvmTIError::InvalidModule),
            sys::JVMTI_ERROR_INVALID_METHODID => Some(JvmTIError::InvalidMethodId),
            sys::JVMTI_ERROR_INVALID_LOCATION => Some(JvmTIError::InvalidLocation),
            sys::JVMTI_ERROR_INVALID_OBJECT => Some(JvmTIError::InvalidObject),
            sys::JVMTI_ERROR_INVALID_CLASS => Some(JvmTIError::InvalidClass),
            sys::JVMTI_ERROR_TYPE_MISMATCH => Some(JvmTIError::TypeMismatch),
            sys::JVMTI_ERROR_INVALID_SLOT => Some(JvmTIError::InvalidSlot),
            sys::JVMTI_ERROR_MUST_POSSESS_CAPABILITY => Some(JvmTIError::MustPossessCapability),
            sys::JVMTI_ERROR_NULL_POINTER => Some(JvmTIError::NullPointer),
            sys::JVMTI_ERROR_INVALID_THREAD_GROUP => Some(JvmTIError::InvalidThreadGroup),
            sys::JVMTI_ERROR_INVALID_MONITOR => Some(JvmTIError::InvalidMonitor),
            sys::JVMTI_ERROR_ILLEGAL_ARGUMENT => Some(JvmTIError::IllegalArgument),
            sys::JVMTI_ERROR_INVALID_TYPESTATE => Some(JvmTIError::InvalidTypeState),
            sys::JVMTI_ERROR_UNSUPPORTED_VERSION => Some(JvmTIError::UnsupportedVersion),
            sys::JVMTI_ERROR_INVALID_CLASS_FORMAT => Some(JvmTIError::InvalidClassFormat),
            sys::JVMTI_ERROR_CIRCULAR_CLASS_DEFINITION => Some(JvmTIError::CircularClassDefinition),
            sys::JVMTI_ERROR_UNSUPPORTED_REDEFINITION_METHOD_ADDED => Some(JvmTIError::UnsupportedRedefinitionMethodAdded),
            sys::JVMTI_ERROR_UNSUPPORTED_REDEFINITION_SCHEMA_CHANGED => Some(JvmTIError::UnsupportedRedefinitionSchemaChanged),
            sys::JVMTI_ERROR_FAILS_VERIFICATION => Some(JvmTIError::FailsVerification),
            sys::JVMTI_ERROR_UNSUPPORTED_REDEFINITION_HIERARCHY_CHANGED => Some(JvmTIError::UnsupportedRedefinitionHierarchyChanged),
            sys::JVMTI_ERROR_UNSUPPORTED_REDEFINITION_METHOD_DELETED => Some(JvmTIError::UnsupportedRedefinitionMethodDeleted),
            sys::JVMTI_ERROR_NAMES_DONT_MATCH => Some(JvmTIError::NamesDontMatch),
            sys::JVMTI_ERROR_UNSUPPORTED_REDEFINITION_CLASS_MODIFIERS_CHANGED => Some(JvmTIError::UnsupportedRedefinitionClassModifiersChanged),
            sys::JVMTI_ERROR_UNSUPPORTED_REDEFINITION_METHOD_MODIFIERS_CHANGED => Some(JvmTIError::UnsupportedRedefinitionMethodModifiersChanged),
            sys::JVMTI_ERROR_UNSUPPORTED_REDEFINITION_CLASS_ATTRIBUTE_CHANGED => Some(JvmTIError::UnsupportedRedefinitionClassAttributeChanged),
            sys::JVMTI_ERROR_UNSUPPORTED_OPERATION => Some(JvmTIError::UnsupportedOperation),
            _ => None,
        }
    }

    /// The error whose native number is `code`, for a `code` that is known
    /// to be the number of one.
    pub fn from_error_code_unchecked(code: u32) -> (error: Self)
        requires
            Self::is_error_code(code),
        ensures
            error.code() == code,
    {
        match Self::from_error_code(code) {
            Some(e) => e,
            None => unreached(),
        }
    }

    /// The text that describes this error: the name that the native
    /// interface gives it.
    pub fn message(&self) -> (text: &'static str)
        ensures
            text@ == self.name(),
    {
        match self {
            JvmTIError::OutOfMemory => "JVMTI_ERROR_OUT_OF_MEMORY",
            JvmTIError::AccessDenied => "JVMTI_ERROR_ACCESS_DENIED",
            JvmTIError::UnAttachedThread => "JVMTI_ERROR_UNATTACHED_THREAD",
            JvmTIError::InvalidEnvironment => "JVMTI_ERROR_INVALID_ENVIRONMENT",
            JvmTIError::WrongPhase => "JVMTI_ERROR_WRONG_PHASE",
            JvmTIError::Internal => "JVMTI_ERROR_INTERNAL",
            JvmTIError::InvalidPriority => "JVMTI_ERROR_INVALID_PRIORITY",
            JvmTIError::ThreadNotSuspended => "JVMTI_ERROR_THREAD_NOT_SUSPENDED",
            JvmTIError::ThreadSuspended => "JVMTI_ERROR_THREAD_SUSPENDED",
            JvmTIError::ThreadNotAlive => "JVMTI_ERROR_THREAD_NOT_ALIVE",
            JvmTIError::ClassNotPrepared => "JVMTI_ERROR_CLASS_NOT_PREPARED",
            JvmTIError::NoMoreFrames => "JVMTI_ERROR_NO_MORE_FRAMES",
            JvmTIError::OpaqueFrame => "JVMTI_ERROR_OPAQUE_FRAME",
            JvmTIError::Duplicate => "JVMTI_ERROR_DUPLICATE",
            JvmTIError::NotFound => "JVMTI_ERROR_NOT_FOUND",
            JvmTIError::NotMonitorOwner => "JVMTI_ERROR_NOT_MONITOR_OWNER",
            JvmTIError::Interrupt => "JVMTI_ERROR_INTERRUPT",
            JvmTIError::UnmodifiableClass => "JVMTI_ERROR_UNMODIFIABLE_CLASS",
            JvmTIError::UnmodifiableModule => "JVMTI_ERROR_UNMODIFIABLE_MODULE",
            JvmTIError::NotAvailable => "JVMTI_ERROR_NOT_AVAILABLE",
            JvmTIError::AbsentInformation => "JVMTI_ERROR_ABSENT_INFORMATION",
            JvmTIError::InvalidEventType => "JVMTI_ERROR_INVALID_EVENT_TYPE",
            JvmTIError::NativeMethod => "JVMTI_ERROR_NATIVE_METHOD",
            JvmTIError::ClassLoaderUnsupported => "JVMTI_ERROR_CLASS_LOADER_UNSUPPORTED",
            JvmTIError::InvalidThread => "JVMTI_ERROR_INVALID_THREAD",
            JvmTIError::InvalidFieldId => "JVMTI_ERROR_INVALID_FIELDID",
            JvmTIError::InvalidModule => "JVMTI_ERROR_INVALID_MODULE",
            JvmTIError::InvalidMethodId => "JVMTI_ERROR_INVALID_METHODID",
            JvmTIError::InvalidLocation => "JVMTI_ERROR_INVALID_LOCATION",
            JvmTIError::InvalidObject => "JVMTI_ERROR_INVALID_OBJECT",
            JvmTIError::InvalidClass => "JVMTI_ERROR_INVALID_CLASS",
            JvmTIError::TypeMismatch => "JVMTI_ERROR_TYPE_MISMATCH",
            JvmTIError::InvalidSlot => "JVMTI_ERROR_INVALID_SLOT",
            JvmTIError::MustPossessCapability => "JVMTI_ERROR_MUST_POSSESS_CAPABILITY",
            JvmTIError::NullPointer => "JVMTI_ERROR_NULL_POINTER",
            JvmTIError::InvalidThreadGroup => "JVMTI_ERROR_INVALID_THREAD_GROUP",
            JvmTIError::InvalidMonitor => "JVMTI_ERROR_INVALID_MONITOR",
            JvmTIError::IllegalArgument => "JVMTI_ERROR_ILLEGAL_ARGUMENT",
            JvmTIError::InvalidTypeState => "JVMTI_ERROR_INVALID_TYPESTATE",
            JvmTIError::UnsupportedVersion => "JVMTI_ERROR_UNSUPPORTED_VERSION",
            JvmTIError::InvalidClassFormat => "JVMTI_ERROR_INVALID_CLASS_FORMAT",
            JvmTIError::CircularClassDefinition => "JVMTI_ERROR_CIRCULAR_CLASS_DEFINITION",
            JvmTIError::UnsupportedRedefinitionMethodAdded => "JVMTI_ERROR_UNSUPPORTED_REDEFINITION_METHOD_ADDED",
            JvmTIError::UnsupportedRedefinitionSchemaChanged => "JVMTI_ERROR_UNSUPPORTED_REDEFINITION_SCHEMA_CHANGED",
            JvmTIError::FailsVerification => "JVMTI_ERROR_FAILS_VERIFICATION",
            JvmTIError::UnsupportedRedefinitionHierarchyChanged => "JVMTI_ERROR_UNSUPPORTED_REDEFINITION_HIERARCHY_CHANGED",
            JvmTIError::UnsupportedRedefinitionMethodDeleted => "JVMTI_ERROR_UNSUPPORTED_REDEFINITION_METHOD_DELETED",
            JvmTIError::NamesDontMatch => "JVMTI_ERROR_NAMES_DONT_MATCH",
            JvmTIError::UnsupportedRedefinitionClassModifiersChanged => "JVMTI_ERROR_UNSUPPORTED_REDEFINITION_CLASS_MODIFIERS_CHANGED",
            JvmTIError::UnsupportedRedefinitionMethodModifiersChanged => "JVMTI_ERROR_UNSUPPORTED_REDEFINITION_METHOD_MODIFIERS_CHANGED",
            JvmTIError::UnsupportedRedefinitionClassAttributeChanged => "JVMTI_ERROR_UNSUPPORTED_REDEFINITION_CLASS_ATTRIBUTE_CHANGED",
            JvmTIError::UnsupportedOperation => "JVMTI_ERROR_UNSUPPORTED_OPERATION",
        }
    }
}

/// The translation between the native numbers of errors and the errors is
/// one to one: every error has a number, which is not the number of success;
/// no two errors share a number; and every number of an error is the number
/// of exactly one, the one that [`JvmTIError::from_error_code`] gives for it.
pub proof fn lemma_error_translation_is_bijective()
    ensures
        forall|e: JvmTIError| #[trigger]
            JvmTIError::is_error_code(e.code()) && e.code() != sys::JVMTI_ERROR_NONE,
        forall|a: JvmTIError, b: JvmTIError| #[trigger] a.code() == #[trigger] b.code() ==> a == b,
        !JvmTIError::is_error_code(sys::JVMTI_ERROR_NONE),
{
}

} // verus!

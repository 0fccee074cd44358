//! The environment handle: its creation from a raw VM pointer, its recovery
//! from the raw environment pointer that the runtime hands to a callback, the
//! update of its handlers and its disposal.
use crate::jvm::errors::JvmTIError;
use crate::jvm::events::{EventCallbacks, Handlers, NativeCallbacks, CALLBACK_SLOTS};
use crate::jvm::general::JvmTIVersion;
use crate::prelude::is_status;
use crate::sys;
use vstd::prelude::*;
use vstd::std_specs::convert::FromSpecImpl;

pub mod class;
pub mod errors;
pub mod events;
pub mod general;
pub mod jni;
pub mod objects;
pub mod threads;

verus! {

/// A raw JVM pointer, as the address it holds; zero is the null pointer.
pub type JvmPointer = usize;

/// A JVM Tool Interface (JVM TI) environment: one instrumentation session
/// attached to one VM.
///
/// It owns the pointer to the native environment and the registry of event
/// handlers. The embedding layer keeps it at one address from its creation
/// on, and the native environment's local storage holds that address.
pub struct Jvm<H: Handlers> {
    jvmti_ptr: usize,
    callbacks: EventCallbacks<H>,
}

/// An error returned when creating a [`Jvm`] from a raw JVM pointer.
#[derive(Debug, Clone, Copy, PartialEq, Eq, Structural)]
pub enum JvmTICreationError {
    /// When the JVM pointer is null.
    NullJVMPointer,
    /// When the JVM TI version is not supported.
    WrongVersion,
    /// When the JVM is not attached.
    Detached,
    /// When the JVM TI environment fails to initialize.
    JvmTIInitialization(JvmTIError),
}

impl From<JvmTIError> for JvmTICreationError {
    fn from(error: JvmTIError) -> (creation_error: Self) {
        JvmTICreationError::JvmTIInitialization(error)
    }
}

impl FromSpecImpl<JvmTIError> for JvmTICreationError {
    open spec fn obeys_from_spec() -> bool {
        true
    }

    open spec fn from_spec(error: JvmTIError) -> Self {
        JvmTICreationError::JvmTIInitialization(error)
    }
}

impl JvmTICreationError {
    /// The text that describes this error.
    pub open spec fn text(self) -> Seq<char> {
        match self {
            JvmTICreationError::NullJVMPointer => "The JVM pointer is null"@,
            JvmTICreationError::WrongVersion => "JNI version mismatch"@,
            JvmTICreationError::Detached => "The VM is not attached"@,
            JvmTICreationError::JvmTIInitialization(error) => {
                "Fail to initialize the JVM TI environment: "@ + error.name()
            },
        }
    }

    /// The text that describes this error.
    pub fn message(&self) -> (text: String)
        ensures
            text@ == self.text(),
    {
        match self {
            JvmTICreationError::NullJVMPointer => String::from_str("The JVM pointer is null"),
            JvmTICreationError::WrongVersion => String::from_str("JNI version mismatch"),
            JvmTICreationError::Detached => String::from_str("The VM is not attached"),
            JvmTICreationError::JvmTIInitialization(error) => {
                String::from_str("Fail to initialize the JVM TI environment: ").concat(
                    error.message(),
                )
            },
        }
    }
}

/// The request for a native environment that the creation of a handle begins
/// with: what to hand to the runtime's `GetEnv`. Only
/// [`Jvm::from_jvm_ptr`] makes one, and never for a null VM pointer.
#[derive(Debug)]
pub struct GetEnv {
    vm_ptr: usize,
    version: i32,
}

impl GetEnv {
    /// The VM to ask.
    pub closed spec fn vm_ptr(&self) -> usize {
        self.vm_ptr
    }

    /// The version of the interface to ask for.
    pub closed spec fn version(&self) -> i32 {
        self.version
    }

    /// The VM to ask.
    pub fn vm(&self) -> (vm_ptr: usize)
        ensures
            vm_ptr == self.vm_ptr(),
    {
        self.vm_ptr
    }

    /// The version of the interface to ask for.
    pub fn requested_version(&self) -> (version: i32)
        ensures
            version == self.version(),
    {
        self.version
    }

    /// Whether `status` is the number of a JVM TI error, so that the error
    /// translation has an error for it.
    pub open spec fn is_translated(status: i32) -> bool {
        status > 0 && JvmTIError::is_error_code(status as u32)
    }

    /// Takes the answer of `GetEnv`: its status and, on success, the address
    /// of the native environment. On success the handle exists, with no
    /// handler registered; it is not yet known to the native environment.
    /// Every other status fails the creation: a version mismatch and a
    /// detached thread with their own errors, the number of a JVM TI error
    /// with that error, and a status that is none of these with the internal
    /// error.
    pub fn acquired<H: Handlers>(self, status: i32, jvmti_ptr: usize) -> (created: Result<
        Jvm<H>,
        JvmTICreationError,
    >)
        ensures
            status == sys::JNI_OK ==> created is Ok && created->Ok_0.jvmti_ptr() == jvmti_ptr
                && created->Ok_0.callbacks() == EventCallbacks::<H>::empty(),
            status != sys::JNI_OK ==> created is Err,
            status == sys::JNI_EVERSION ==> created->Err_0 == JvmTICreationError::WrongVersion,
            status == sys::JNI_EDETACHED ==> created->Err_0 == JvmTICreationError::Detached,
            Self::is_translated(status) ==> (created->Err_0
                matches JvmTICreationError::JvmTIInitialization(error) && error.code() == status),
            status != sys::JNI_OK && status != sys::JNI_EVERSION && status != sys::JNI_EDETACHED
                && !Self::is_translated(status) ==> created->Err_0
                == JvmTICreationError::JvmTIInitialization(JvmTIError::Internal),
    {
        if status == sys::JNI_OK {
            Ok(Jvm { jvmti_ptr, callbacks: EventCallbacks::default() })
        } else if status == sys::JNI_EDETACHED {
            Err(JvmTICreationError::Detached)
        } else if status == sys::JNI_EVERSION {
            Err(JvmTICreationError::WrongVersion)
        } else if status > 0 {
            match JvmTIError::from_error_code(status as u32) {
                Some(error) => Err(JvmTICreationError::from(error)),
                None => Err(JvmTICreationError::from(JvmTIError::Internal)),
            }
        } else {
            Err(JvmTICreationError::from(JvmTIError::Internal))
        }
    }
}

/// What to hand to the runtime's `SetEnvironmentLocalStorage`.
#[derive(Debug, Clone, Copy, PartialEq, Eq, Structural)]
pub struct SetEnvironmentLocalStorage {
    /// The native environment whose storage to set.
    pub jvmti_ptr: usize,
    /// The value to store.
    pub data: usize,
}

/// The local storage of the native environments, as this layer relies on
/// it: for each environment the value last stored in it, and null where
/// nothing was stored.
pub open spec fn stored(storage: Map<usize, usize>, jvmti_ptr: usize) -> usize {
    if storage.dom().contains(jvmti_ptr) {
        storage[jvmti_ptr]
    } else {
        0
    }
}

impl SetEnvironmentLocalStorage {
    /// The local storage after the runtime has served this request.
    pub open spec fn served(self, storage: Map<usize, usize>) -> Map<usize, usize> {
        storage.insert(self.jvmti_ptr, self.data)
    }
}

impl<H: Handlers> Jvm<H> {
    /// The address of the native environment.
    pub closed spec fn jvmti_ptr(&self) -> usize {
        self.jvmti_ptr
    }

    /// The registry of event handlers.
    pub closed spec fn callbacks(&self) -> EventCallbacks<H> {
        self.callbacks
    }

    /// The address of the native environment, for the calls that the
    /// embedding layer makes on it.
    pub fn as_ptr(&self) -> (jvmti_ptr: usize)
        ensures
            jvmti_ptr == self.jvmti_ptr(),
    {
        self.jvmti_ptr
    }

    /// The registry of event handlers, to read.
    pub fn registry(&self) -> (callbacks: &EventCallbacks<H>)
        ensures
            *callbacks == self.callbacks(),
    {
        &self.callbacks
    }

    /// Begins the creation of a [`Jvm`] from a raw JVM pointer: fails for a
    /// null pointer, before anything is asked of the runtime, and else says
    /// what to ask of `GetEnv`.
    pub fn from_jvm_ptr(vm_ptr: JvmPointer, version: JvmTIVersion) -> (request: Result<
        GetEnv,
        JvmTICreationError,
    >)
        ensures
            vm_ptr == 0 ==> request == Err::<GetEnv, _>(JvmTICreationError::NullJVMPointer),
            vm_ptr != 0 ==> request is Ok && request->Ok_0.vm_ptr() == vm_ptr
                && request->Ok_0.version() == version@ as i32,
    {
        if vm_ptr == 0 {
            return Err(JvmTICreationError::NullJVMPointer);
        }
        Ok(GetEnv { vm_ptr, version: version.into() })
    }

    /// What to store in the local storage of the native environment for a
    /// handle that is kept at `address`.
    pub open spec fn registration(&self, address: usize) -> SetEnvironmentLocalStorage {
        SetEnvironmentLocalStorage { jvmti_ptr: self.jvmti_ptr(), data: address }
    }

    /// The address of the handle of the environment `jvmti_ptr`, where
    /// `GetEnvironmentLocalStorage` answered `status` and `data` for it;
    /// `None` where that environment has no handle that was created here.
    pub open spec fn recovered(jvmti_ptr: usize, status: u32, data: usize) -> Option<usize> {
        if jvmti_ptr != 0 && status == sys::JVMTI_ERROR_NONE && data != 0 {
            Some(data)
        } else {
            None
        }
    }

    /// Says what to store in the local storage of the native environment so
    /// that [`Jvm::from_ptr`] finds this handle again: the address at which
    /// the embedding layer keeps it.
    pub fn local_storage(&self, address: usize) -> (request: SetEnvironmentLocalStorage)
        ensures
            request == self.registration(address),
    {
        SetEnvironmentLocalStorage { jvmti_ptr: self.jvmti_ptr, data: address }
    }

    /// Ends the creation of a handle with the status of
    /// `SetEnvironmentLocalStorage`: the handle is created if the runtime
    /// stored its address, and else the creation fails with the error of that
    /// status.
    pub fn registered(&self, status: u32) -> (created: Result<(), JvmTICreationError>)
        requires
            is_status(status),
        ensures
            status == sys::JVMTI_ERROR_NONE ==> created is Ok,
            status != sys::JVMTI_ERROR_NONE ==> (created matches Err(
                JvmTICreationError::JvmTIInitialization(error),
            ) && error.code() == status),
    {
        if status == sys::JVMTI_ERROR_NONE {
            Ok(())
        } else {
            Err(JvmTICreationError::from(JvmTIError::from_error_code_unchecked(status)))
        }
    }

    /// The address of the handle of a native environment, as a callback that
    /// was handed `jvmti_ptr` finds it: `status` and `data` are what
    /// `GetEnvironmentLocalStorage` answered for that environment.
    ///
    /// This is for an environment whose handle was created here, and for no
    /// other: the pointer is not null, the runtime has answered, and what it
    /// holds is the address that the creation stored.
    pub fn from_ptr(jvmti_ptr: usize, status: u32, data: usize) -> (address: usize)
        requires
            Self::recovered(jvmti_ptr, status, data) is Some,
        ensures
            Self::recovered(jvmti_ptr, status, data) == Some(address),
    {
        data
    }

    /// Lays the registry out as the native callback table, to hand to the
    /// runtime's `SetEventCallbacks`.
    pub fn update_native_callback(&self) -> (table: NativeCallbacks)
        ensures
            table@.len() == CALLBACK_SLOTS,
            forall|slot: int| 0 <= slot < CALLBACK_SLOTS ==> table@[slot] == self.callbacks().wires(slot),
    {
        self.callbacks.c_callbacks()
    }

    /// Lets `modifier` change the registry of handlers, then lays the whole
    /// registry out as the native callback table, which is to go to the
    /// runtime's `SetEventCallbacks` at once: from then on the runtime
    /// dispatches the handlers that `modifier` left, and no others.
    pub fn update_callbacks<U>(&mut self, modifier: U) -> (table: NativeCallbacks) where
        U: FnOnce(&mut EventCallbacks<H>),

        requires
            forall|registry: &mut EventCallbacks<H>|
                *registry == old(self).callbacks() ==> modifier.requires((registry,)),
        ensures
            final(self).jvmti_ptr() == old(self).jvmti_ptr(),
            exists|registry: &mut EventCallbacks<H>|
                *registry == old(self).callbacks() && *final(registry) == final(self).callbacks()
                    && #[trigger] modifier.ensures((registry,), ()),
            table@.len() == CALLBACK_SLOTS,
            forall|slot: int|
                0 <= slot < CALLBACK_SLOTS ==> table@[slot] == final(self).callbacks().wires(slot),
    {
        modifier(&mut self.callbacks);
        self.update_native_callback()
    }

    /// Gives up the handle for the address of its native environment, which
    /// is to go to the runtime's `DisposeEnvironment`. Nothing can be asked of
    /// the handle after that.
    pub fn dispose(self) -> (jvmti_ptr: usize)
        ensures
            jvmti_ptr == self.jvmti_ptr(),
    {
        self.jvmti_ptr
    }
}

/// A handle is found again by the pointer to its native environment.
///
/// Let `jvm` be a handle of a native environment, kept at `address`, and let
/// the runtime serve the request that [`Jvm::local_storage`] makes for it,
/// whatever the local storage held before. Then [`Jvm::from_ptr`], called
/// with the pointer to that environment and with what the runtime holds for
/// it, yields `address`: the same handle. What the storage holds for any
/// other environment is as it was, so that each environment leads to one
/// handle, its own.
pub proof fn lemma_handle_is_recovered<H: Handlers>(
    storage: Map<usize, usize>,
    jvm: Jvm<H>,
    address: usize,
    other: usize,
)
    requires
        jvm.jvmti_ptr() != 0,
        address != 0,
    ensures
        Jvm::<H>::recovered(
            jvm.jvmti_ptr(),
            sys::JVMTI_ERROR_NONE,
            stored(jvm.registration(address).served(storage), jvm.jvmti_ptr()),
        ) == Some(address),
        other != jvm.jvmti_ptr() ==> stored(jvm.registration(address).served(storage), other)
            == stored(storage, other),
{
}

} // verus!

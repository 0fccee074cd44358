//! JVM threads.
use crate::jvm::errors::JvmTIError;
use crate::jvm::events::Handlers;
use crate::jvm::objects::Object;
use crate::jvm::Jvm;
use crate::prelude::{is_status, native_call_result};
use crate::sys;
use vstd::prelude::*;

verus! {

/// A thread group, as seen during one call.
pub struct ThreadGroup<'j, H: Handlers> {
    jvm: &'j Jvm<H>,
    jthread_group: usize,
}

impl<'j, H: Handlers> ThreadGroup<'j, H> {
    /// The environment that produced this handle.
    pub closed spec fn jvm(&self) -> &'j Jvm<H> {
        self.jvm
    }

    /// The native reference to the thread group.
    pub closed spec fn jthread_group(&self) -> usize {
        self.jthread_group
    }

    /// The handle of `jvm` for the reference `jthread_group`.
    pub closed spec fn spec_from_ptr(jvm: &'j Jvm<H>, jthread_group: usize) -> ThreadGroup<'j, H> {
        ThreadGroup { jvm, jthread_group }
    }

    /// The handle for a reference holds that reference and the environment
    /// it was made for.
    pub proof fn lemma_spec_from_ptr(jvm: &'j Jvm<H>, jthread_group: usize)
        ensures
            Self::spec_from_ptr(jvm, jthread_group).jvm() == jvm,
            Self::spec_from_ptr(jvm, jthread_group).jthread_group() == jthread_group,
    {
    }

    /// The environment that produced this handle.
    pub fn env(&self) -> (jvm: &'j Jvm<H>)
        ensures
            jvm == self.jvm(),
    {
        self.jvm
    }

    /// The native reference to the thread group.
    pub fn as_raw(&self) -> (raw: usize)
        ensures
            raw == self.jthread_group(),
    {
        self.jthread_group
    }

    /// Wraps a native thread group reference, which must not be null.
    pub fn from_ptr(jvm: &'j Jvm<H>, jthread_group: usize) -> (group: ThreadGroup<'j, H>)
        requires
            jthread_group != 0,
        ensures
            group == Self::spec_from_ptr(jvm, jthread_group),
            group.jvm() == jvm,
            group.jthread_group() == jthread_group,
    {
        ThreadGroup { jvm, jthread_group }
    }
}

/// What the runtime fills in for `GetThreadInfo`, with the name read out of
/// its buffer.
#[derive(Debug, Clone, PartialEq, Eq)]
pub struct NativeThreadInfo {
    /// The bytes of the thread's name, without the terminating zero.
    pub name: Vec<u8>,
    /// The thread's priority.
    pub priority: i32,
    /// Not zero for a daemon thread.
    pub is_daemon: u8,
    /// The reference to the thread's group.
    pub thread_group: usize,
    /// The reference to the thread's context class loader.
    pub context_class_loader: usize,
}

/// What is known of a thread.
pub struct ThreadInfo<'g, 'l, H: Handlers> {
    /// The bytes of the thread's name.
    pub name: Vec<u8>,
    /// The thread's priority.
    pub priority: i32,
    /// Whether the thread is a daemon thread.
    pub is_daemon: bool,
    /// The thread's group.
    pub group: ThreadGroup<'g, H>,
    /// The thread's context class loader.
    pub context_class_loader: Object<'l, H>,
}

/// A thread of the VM, as seen during one call.
pub struct Thread<'j, H: Handlers> {
    jvm: &'j Jvm<H>,
    jthread: usize,
}

impl<'j, H: Handlers> Thread<'j, H> {
    /// The environment that produced this handle.
    pub closed spec fn jvm(&self) -> &'j Jvm<H> {
        self.jvm
    }

    /// The native reference to the thread.
    pub closed spec fn jthread(&self) -> usize {
        self.jthread
    }

    /// The handle of `jvm` for the reference `jthread`.
    pub closed spec fn spec_from_ptr(jvm: &'j Jvm<H>, jthread: usize) -> Thread<'j, H> {
        Thread { jvm, jthread }
    }

    /// Gives up the handle for the native reference it holds.
    pub fn into_raw(self) -> (jthread: usize)
        ensures
            jthread == self.jthread(),
    {
        self.jthread
    }

    /// What `reply` says of this thread, where `reply` is what
    /// [`Jvm::get_thread_info`] made of the runtime's answer: the error, or
    /// the thread's name, priority and kind with the handles of its group and
    /// of its context class loader, neither of which may be null.
    pub fn info(&self, reply: Result<NativeThreadInfo, JvmTIError>) -> (info: Result<
        ThreadInfo<'j, 'j, H>,
        JvmTIError,
    >)
        requires
            reply matches Ok(native) ==> native.thread_group != 0 && native.context_class_loader
                != 0,
        ensures
            reply matches Err(error) ==> info == Err::<ThreadInfo<'j, 'j, H>, _>(error),
            reply matches Ok(native) ==> info == Ok::<_, JvmTIError>(
                ThreadInfo {
                    name: native.name,
                    priority: native.priority,
                    is_daemon: native.is_daemon != 0,
                    group: ThreadGroup::spec_from_ptr(self.jvm(), native.thread_group),
                    context_class_loader: Object::spec_from_ptr(
                        self.jvm(),
                        native.context_class_loader,
                    ),
                },
            ),
    {
        let native_thread_info = reply?;
        let name = native_thread_info.name;
        let priority = native_thread_info.priority;
        let is_daemon = native_thread_info.is_daemon != 0;
        let group = ThreadGroup::from_ptr(self.jvm, native_thread_info.thread_group);
        let context_class_loader = Object::from_ptr(
            self.jvm,
            native_thread_info.context_class_loader,
        );
        Ok(ThreadInfo { name, priority, is_daemon, group, context_class_loader })
    }

    /// The handle for a reference holds that reference and the environment
    /// it was made for.
    pub proof fn lemma_spec_from_ptr(jvm: &'j Jvm<H>, jthread: usize)
        ensures
            Self::spec_from_ptr(jvm, jthread).jvm() == jvm,
            Self::spec_from_ptr(jvm, jthread).jthread() == jthread,
    {
    }

    /// The environment that produced this handle.
    pub fn env(&self) -> (jvm: &'j Jvm<H>)
        ensures
            jvm == self.jvm(),
    {
        self.jvm
    }

    /// The native reference to the thread.
    pub fn as_raw(&self) -> (raw: usize)
        ensures
            raw == self.jthread(),
    {
        self.jthread
    }

    /// Wraps a native thread reference, which must not be null.
    pub fn from_ptr(jvm: &'j Jvm<H>, jthread: usize) -> (thread: Thread<'j, H>)
        requires
            jthread != 0,
        ensures
            thread == Self::spec_from_ptr(jvm, jthread),
            thread.jvm() == jvm,
            thread.jthread() == jthread,
    {
        Thread { jvm, jthread }
    }
}

impl<H: Handlers> Jvm<H> {
    /// Takes the answer of `GetThreadInfo`: its status and, on success, what
    /// the runtime filled in. Gives the error of the status, or what was
    /// filled in.
    pub fn get_thread_info(&self, status: u32, info: NativeThreadInfo) -> (reply: Result<
        NativeThreadInfo,
        JvmTIError,
    >)
        requires
            is_status(status),
        ensures
            status != sys::JVMTI_ERROR_NONE ==> reply is Err && reply->Err_0.code() == status,
            status == sys::JVMTI_ERROR_NONE ==> reply == Ok::<_, JvmTIError>(info),
    {
        match native_call_result(status) {
            Ok(()) => Ok(info),
            Err(error) => Err(error),
        }
    }
}

} // verus!

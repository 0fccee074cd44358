//! Java classes.
use crate::jvm::errors::JvmTIError;
use crate::jvm::events::Handlers;
use crate::jvm::Jvm;
use crate::prelude::{is_status, native_call_result};
use crate::sys;
use vstd::prelude::*;

verus! {

/// A Java class, as seen during one call. The runtime owns the class.
pub struct Class<'j, H: Handlers> {
    jvm: &'j Jvm<H>,
    jclass: usize,
}

impl<'j, H: Handlers> Class<'j, H> {
    /// The environment that produced this handle.
    pub closed spec fn jvm(&self) -> &'j Jvm<H> {
        self.jvm
    }

    /// The native reference to the class.
    pub closed spec fn jclass(&self) -> usize {
        self.jclass
    }

    /// The handle of `jvm` for the reference `jclass`.
    pub closed spec fn spec_from_ptr(jvm: &'j Jvm<H>, jclass: usize) -> Class<'j, H> {
        Class { jvm, jclass }
    }

    /// The handle of `jvm` for the reference `jclass`, or none where the
    /// reference is null.
    pub open spec fn spec_from_nullable(jvm: &'j Jvm<H>, jclass: usize) -> Option<Class<'j, H>> {
        if jclass == 0 {
            None
        } else {
            Some(Self::spec_from_ptr(jvm, jclass))
        }
    }

    /// Wraps a native class reference that the runtime may leave null: a
    /// null reference gives no handle.
    pub fn from_nullable(jvm: &'j Jvm<H>, jclass: usize) -> (handle: Option<Class<'j, H>>)
        ensures
            handle == Self::spec_from_nullable(jvm, jclass),
    {
        if jclass == 0 {
            None
        } else {
            Some(Self::from_ptr(jvm, jclass))
        }
    }

    /// The handle for a reference holds that reference and the environment
    /// it was made for.
    pub proof fn lemma_spec_from_ptr(jvm: &'j Jvm<H>, jclass: usize)
        ensures
            Self::spec_from_ptr(jvm, jclass).jvm() == jvm,
            Self::spec_from_ptr(jvm, jclass).jclass() == jclass,
    {
    }

    /// The environment that produced this handle.
    pub fn env(&self) -> (jvm: &'j Jvm<H>)
        ensures
            jvm == self.jvm(),
    {
        self.jvm
    }

    /// The native reference to the class.
    pub fn as_raw(&self) -> (raw: usize)
        ensures
            raw == self.jclass(),
    {
        self.jclass
    }

    /// Wraps a native class reference, which must not be null.
    pub fn from_ptr(jvm: &'j Jvm<H>, jclass: usize) -> (class: Class<'j, H>)
        requires
            jclass != 0,
        ensures
            class == Self::spec_from_ptr(jvm, jclass),
            class.jvm() == jvm,
            class.jclass() == jclass,
    {
        Class { jvm, jclass }
    }
}

impl<H: Handlers> Jvm<H> {
    /// Takes the answer of `GetLoadedClasses`: its status and, on success,
    /// the class references that the runtime listed. Gives the error of the
    /// status, or the handle of each class, in the order of the list.
    pub fn get_loaded_classes(&self, status: u32, classes: Vec<usize>) -> (loaded: Result<
        Vec<Class<'_, H>>,
        JvmTIError,
    >)
        requires
            is_status(status),
        ensures
            status != sys::JVMTI_ERROR_NONE ==> loaded is Err && loaded->Err_0.code() == status,
            status == sys::JVMTI_ERROR_NONE ==> loaded is Ok && loaded->Ok_0@.len()
                == classes@.len(),
            status == sys::JVMTI_ERROR_NONE ==> forall|i: int|
                0 <= i < classes@.len() ==> (#[trigger] loaded->Ok_0@[i]) == Class::spec_from_ptr(
                    self,
                    classes@[i],
                ),
    {
        match native_call_result(status) {
            Err(error) => Err(error),
            Ok(()) => {
                let mut loaded: Vec<Class<'_, H>> = Vec::new();
                let mut i: usize = 0;
                while i < classes.len()
                    invariant
                        i <= classes@.len(),
                        loaded@.len() == i,
                        forall|k: int|
                            0 <= k < i ==> (#[trigger] loaded@[k]) == Class::spec_from_ptr(
                                self,
                                classes@[k],
                            ),
                    decreases classes@.len() - i,
                {
                    loaded.push(Class { jvm: self, jclass: classes[i] });
                    i = i + 1;
                }
                Ok(loaded)
            },
        }
    }
}

} // verus!

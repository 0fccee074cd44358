//! Java objects.
use crate::jvm::events::Handlers;
use crate::jvm::Jvm;
use vstd::prelude::*;

verus! {

/// A Java object, as seen during one call. The runtime owns the object.
pub struct Object<'j, H: Handlers> {
    jvm: &'j Jvm<H>,
    jobject: usize,
}

impl<'j, H: Handlers> Object<'j, H> {
    /// The environment that produced this handle.
    pub closed spec fn jvm(&self) -> &'j Jvm<H> {
        self.jvm
    }

    /// The native reference to the object.
    pub closed spec fn jobject(&self) -> usize {
        self.jobject
    }

    /// The handle of `jvm` for the reference `jobject`.
    pub closed spec fn spec_from_ptr(jvm: &'j Jvm<H>, jobject: usize) -> Object<'j, H> {
        Object { jvm, jobject }
    }

    /// The handle of `jvm` for the reference `jobject`, or none where the
    /// reference is null.
    pub open spec fn spec_from_nullable(jvm: &'j Jvm<H>, jobject: usize) -> Option<Object<'j, H>> {
        if jobject == 0 {
            None
        } else {
            Some(Self::spec_from_ptr(jvm, jobject))
        }
    }

    /// Wraps a native object reference that the runtime may leave null: a
    /// null reference gives no handle.
    pub fn from_nullable(jvm: &'j Jvm<H>, jobject: usize) -> (handle: Option<Object<'j, H>>)
        ensures
            handle == Self::spec_from_nullable(jvm, jobject),
    {
        if jobject == 0 {
            None
        } else {
            Some(Self::from_ptr(jvm, jobject))
        }
    }

    /// The handle for a reference holds that reference and the environment
    /// it was made for.
    pub proof fn lemma_spec_from_ptr(jvm: &'j Jvm<H>, jobject: usize)
        ensures
            Self::spec_from_ptr(jvm, jobject).jvm() == jvm,
            Self::spec_from_ptr(jvm, jobject).jobject() == jobject,
    {
    }

    /// The environment that produced this handle.
    pub fn env(&self) -> (jvm: &'j Jvm<H>)
        ensures
            jvm == self.jvm(),
    {
        self.jvm
    }

    /// The native reference to the object.
    pub fn as_raw(&self) -> (raw: usize)
        ensures
            raw == self.jobject(),
    {
        self.jobject
    }

    /// Wraps a native object reference, which must not be null.
    pub fn from_ptr(jvm: &'j Jvm<H>, jobject: usize) -> (object: Object<'j, H>)
        requires
            jobject != 0,
        ensures
            object == Self::spec_from_ptr(jvm, jobject),
            object.jvm() == jvm,
            object.jobject() == jobject,
    {
        Object { jvm, jobject }
    }
}

} // verus!

//! The JNI session of one callback.
use vstd::prelude::*;

verus! {

/// The JNI environment that the runtime hands to a callback. It is valid
/// for that one call.
#[derive(Debug)]
pub struct JNI {
    jni_ptr: usize,
}

impl JNI {
    /// The address of the native JNI environment.
    pub closed spec fn jni_ptr(&self) -> usize {
        self.jni_ptr
    }

    /// The session at `jni_ptr`.
    pub closed spec fn spec_from_ptr(jni_ptr: usize) -> JNI {
        JNI { jni_ptr }
    }

    /// The session at `jni_ptr`, or none where the pointer is null.
    pub open spec fn spec_from_nullable(jni_ptr: usize) -> Option<JNI> {
        if jni_ptr == 0 {
            None
        } else {
            Some(Self::spec_from_ptr(jni_ptr))
        }
    }

    /// Wraps a pointer to the JNI environment that the runtime may leave
    /// null, as it does before the VM has started: a null pointer gives no
    /// session.
    pub fn from_nullable(jni_ptr: usize) -> (jni: Option<Self>)
        ensures
            jni == Self::spec_from_nullable(jni_ptr),
    {
        if jni_ptr == 0 {
            None
        } else {
            Some(Self::from_ptr(jni_ptr))
        }
    }

    /// The session at an address holds that address.
    pub proof fn lemma_spec_from_ptr(jni_ptr: usize)
        ensures
            Self::spec_from_ptr(jni_ptr).jni_ptr() == jni_ptr,
    {
    }

    /// The address of the native JNI environment.
    pub fn as_ptr(&self) -> (jni_ptr: usize)
        ensures
            jni_ptr == self.jni_ptr(),
    {
        self.jni_ptr
    }

    /// Wraps the pointer to the JNI environment of the current call, which
    /// must not be null.
    pub fn from_ptr(jni_ptr: usize) -> (jni: Self)
        requires
            jni_ptr != 0,
        ensures
            jni == Self::spec_from_ptr(jni_ptr),
            jni.jni_ptr() == jni_ptr,
    {
        Self { jni_ptr }
    }
}

} // verus!

//! The start-up adapter: what the entry point that the runtime calls when it
//! loads or attaches the agent does with the handle it created.
use crate::jvm::events::Handlers;
use crate::jvm::{Jvm, JvmTICreationError};
use vstd::prelude::*;

verus! {

/// The status that tells the runtime that the agent started.
pub const AGENT_STARTED: i32 = 0;

/// The status that tells the runtime that the agent failed to start.
pub const AGENT_FAILED: i32 = 1;

/// The status that the entry point returns for the outcome `outcome` of the
/// initialization function.
pub open spec fn startup_status<E>(outcome: Result<(), E>) -> i32 {
    if outcome is Ok {
        AGENT_STARTED
    } else {
        AGENT_FAILED
    }
}

/// Ends the start-up of the agent, once the creation of its handle has
/// ended in `created`.
///
/// Where the handle was created, `callback` is called with it and with the
/// options of the agent, and the status says whether `callback` succeeded.
/// Where it was not, `callback` is not called and the status is that of a
/// failure.
pub fn on_agent_startup<H: Handlers, E, F>(
    callback: F,
    created: Result<&mut Jvm<H>, JvmTICreationError>,
    options: Option<&[u8]>,
) -> (status: i32) where F: FnOnce(&mut Jvm<H>, Option<&[u8]>) -> Result<(), E>
    requires
        created matches Ok(jvm) ==> forall|handle: &mut Jvm<H>|
            *handle == *jvm ==> callback.requires((handle, options)),
    ensures
        created is Err ==> status == AGENT_FAILED,
        created matches Ok(jvm) ==> exists|handle: &mut Jvm<H>, outcome: Result<(), E>|
            *handle == *jvm && *final(handle) == *final(jvm) && status == startup_status(outcome)
                && #[trigger] callback.ensures((handle, options), outcome),
{
    match created {
        Ok(jvm) => {
            if callback(jvm, options).is_ok() {
                AGENT_STARTED
            } else {
                AGENT_FAILED
            }
        },
        Err(_) => AGENT_FAILED,
    }
}

} // verus!

//! The decisions of the bootstrap and of the call bridge, over any kind of
//! handles.
//!
//! Nothing here touches the host runtime. The functions take what the host
//! answered and say what the bridge does with it: what is published, what is
//! called, and which failure is reported.

use vstd::prelude::*;
use crate::error::HostError;
use crate::slot::Slot;

verus! {

/// The argument that the call bridge passes downstream.
pub const GREETING: &'static str = "Hello everyone, this is Nativustry!";

/// One downstream call, ready to be made: the published handles to call
/// through and the string to pass.
pub struct Invocation<'a, H> {
    pub handles: &'a H,
    pub argument: &'static str,
}

impl<'a, H> View for Invocation<'a, H> {
    type V = (H, Seq<char>);

    open spec fn view(&self) -> (H, Seq<char>) {
        (*self.handles, self.argument@)
    }
}

/// What an initialization returns, given what the slot held before it and how
/// the resolution of the handles went. A failed resolution is reported as it
/// is, whatever the slot holds. A successful one is refused when the slot is
/// filled already.
pub open spec fn initialization_outcome<H>(
    before: Option<H>,
    resolution: Result<H, HostError>,
) -> Result<(), HostError> {
    match resolution {
        Err(error) => Err(error),
        Ok(_) => if before is Some {
            Err(HostError::DoubleInitialization)
        } else {
            Ok(())
        },
    }
}

/// What the slot holds after an initialization. Only a successful resolution
/// that meets an empty slot changes anything.
pub open spec fn slot_after_initialization<H>(
    before: Option<H>,
    resolution: Result<H, HostError>,
) -> Option<H> {
    match (before, resolution) {
        (None, Ok(handles)) => Some(handles),
        _ => before,
    }
}

/// The downstream call that the bridge makes when the slot holds `held`: none
/// while the slot is empty, and otherwise always the same one.
pub open spec fn call_plan<H>(held: Option<H>) -> Result<(H, Seq<char>), HostError> {
    match held {
        Some(handles) => Ok((handles, GREETING@)),
        None => Err(HostError::NotInitialized),
    }
}

/// Replaces whatever error the host gave by `failure`, the kind of the step
/// that was being made.
pub fn or_fail<V, E>(answer: Result<V, E>, failure: HostError) -> (outcome: Result<V, HostError>)
    ensures
        outcome == match answer {
            Ok(value) => Ok::<V, HostError>(value),
            Err(_) => Err::<V, HostError>(failure),
        },
{
    match answer {
        Ok(value) => Ok(value),
        Err(_) => Err(failure),
    }
}

/// Publishes freshly resolved handles. The first publication wins; any later
/// one is refused and changes nothing.
pub fn publish<H>(slot: &mut Slot<H>, handles: H) -> (outcome: Result<(), HostError>)
    ensures
        outcome == initialization_outcome(old(slot)@, Ok(handles)),
        final(slot)@ == slot_after_initialization(old(slot)@, Ok(handles)),
{
    match slot.set(handles) {
        Ok(()) => Ok(()),
        Err(_) => Err(HostError::DoubleInitialization),
    }
}

/// The bootstrap's last step: takes the outcome of the resolution and
/// publishes the handles if there are any.
pub fn complete_initialization<H>(
    slot: &mut Slot<H>,
    resolution: Result<H, HostError>,
) -> (outcome: Result<(), HostError>)
    ensures
        outcome == initialization_outcome(old(slot)@, resolution),
        final(slot)@ == slot_after_initialization(old(slot)@, resolution),
{
    match resolution {
        Ok(handles) => publish(slot, handles),
        Err(error) => Err(error),
    }
}

/// The call bridge's first step: reads the slot and prepares the downstream
/// call. With an empty slot there is no call to make.
pub fn plan_call<H>(slot: &Slot<H>) -> (plan: Result<Invocation<'_, H>, HostError>)
    ensures
        match plan {
            Ok(invocation) => call_plan(slot@) == Ok::<(H, Seq<char>), HostError>(invocation@),
            Err(error) => call_plan(slot@) == Err::<(H, Seq<char>), HostError>(error),
        },
{
    match slot.get() {
        Some(handles) => Ok(Invocation { handles, argument: GREETING }),
        None => Err(HostError::NotInitialized),
    }
}

/// The call bridge's last step: a downstream call that the host reports as
/// failed is a failure of the bridge's entry point too.
pub fn conclude_call<V, E>(answer: Result<V, E>) -> (outcome: Result<(), HostError>)
    ensures
        outcome is Ok <==> answer is Ok,
        outcome is Err ==> outcome == Err::<(), HostError>(HostError::DownstreamInvocation),
{
    match answer {
        Ok(_) => Ok(()),
        Err(_) => Err(HostError::DownstreamInvocation),
    }
}

} // verus!

//! What holds of the slot over its whole life: proofs about sequences of
//! initializations and the calls that follow them.

use vstd::prelude::*;
use crate::bridge::{call_plan, initialization_outcome, slot_after_initialization, GREETING};
use crate::error::HostError;

verus! {

/// What the slot holds after the initializations whose resolutions are
/// `resolutions` have run one after the other, starting from `before`.
pub open spec fn slot_after_all<H>(
    before: Option<H>,
    resolutions: Seq<Result<H, HostError>>,
) -> Option<H>
    decreases resolutions.len(),
{
    if resolutions.len() == 0 {
        before
    } else {
        slot_after_initialization(
            slot_after_all(before, resolutions.drop_last()),
            resolutions.last(),
        )
    }
}

/// What the initialization at position `index` of such a run returns.
pub open spec fn outcome_at<H>(
    before: Option<H>,
    resolutions: Seq<Result<H, HostError>>,
    index: int,
) -> Result<(), HostError> {
    initialization_outcome(slot_after_all(before, resolutions.take(index)), resolutions[index])
}

/// A filled slot is never changed: whatever initializations run on it, and
/// however their resolutions go, it holds afterwards what it held before.
pub proof fn published_handles_stay<H>(held: H, resolutions: Seq<Result<H, HostError>>)
    ensures
        slot_after_all(Some(held), resolutions) == Some(held),
    decreases resolutions.len(),
{
    if resolutions.len() > 0 {
        published_handles_stay(held, resolutions.drop_last());
    }
}

/// A second initialization never succeeds. After one that succeeded on an
/// empty slot, another returns an error and leaves the slot as it was; if its
/// own resolution went through, that error is `DoubleInitialization`. The
/// handles of the first stay published and are the ones that later calls use.
pub proof fn second_initialization_is_refused<H>(first: H, second: Result<H, HostError>)
    ensures
        initialization_outcome(None::<H>, Ok(first)) is Ok,
        slot_after_initialization(None::<H>, Ok(first)) == Some(first),
        initialization_outcome(Some(first), second) is Err,
        second is Ok ==> initialization_outcome(Some(first), second) == Err::<(), HostError>(
            HostError::DoubleInitialization,
        ),
        slot_after_initialization(Some(first), second) == Some(first),
        call_plan(slot_after_initialization(Some(first), second)) == Ok::<
            (H, Seq<char>),
            HostError,
        >((first, GREETING@)),
{
}

/// While nothing has been published, the call bridge has no downstream call
/// to make: its only outcome is `NotInitialized`. A failed initialization
/// does not change that.
pub proof fn no_call_before_initialization<H>(failure: HostError)
    ensures
        call_plan(None::<H>) == Err::<(H, Seq<char>), HostError>(HostError::NotInitialized),
        call_plan(slot_after_initialization(None::<H>, Err(failure))) == Err::<
            (H, Seq<char>),
            HostError,
        >(HostError::NotInitialized),
{
}

/// When several initializations whose resolutions all went through run on an
/// empty slot, in whatever order, exactly one of them succeeds: the one that
/// ran first. Every other returns `DoubleInitialization`, and the slot ends
/// with the handles of the one that succeeded.
pub proof fn exactly_one_initialization_wins<H>(resolutions: Seq<Result<H, HostError>>)
    requires
        resolutions.len() > 0,
        forall|i: int| 0 <= i < resolutions.len() ==> (#[trigger] resolutions[i]) is Ok,
    ensures
        outcome_at(None::<H>, resolutions, 0) is Ok,
        forall|i: int|
            1 <= i < resolutions.len() ==> #[trigger] outcome_at(None::<H>, resolutions, i) == Err::<
                (),
                HostError,
            >(HostError::DoubleInitialization),
        slot_after_all(None::<H>, resolutions) == Some(resolutions[0]->Ok_0),
{
    let winner = resolutions[0]->Ok_0;
    assert(resolutions.take(0) =~= Seq::<Result<H, HostError>>::empty());
    assert forall|i: int| 1 <= i <= resolutions.len() implies slot_after_all(
        None::<H>,
        #[trigger] resolutions.take(i),
    ) == Some(winner) by {
        first_resolution_is_published(resolutions, i);
    }
    assert(resolutions.take(resolutions.len() as int) =~= resolutions);
}

/// After `count` initializations on an empty slot, the first of which had
/// resolved its handles, the slot holds those handles.
proof fn first_resolution_is_published<H>(resolutions: Seq<Result<H, HostError>>, count: int)
    requires
        1 <= count <= resolutions.len(),
        resolutions[0] is Ok,
    ensures
        slot_after_all(None::<H>, resolutions.take(count)) == Some(resolutions[0]->Ok_0),
    decreases count,
{
    let prefix = resolutions.take(count);
    assert(prefix.drop_last() =~= resolutions.take(count - 1));
    if count == 1 {
        assert(slot_after_all(None::<H>, prefix.drop_last()) == None::<H>);
    } else {
        first_resolution_is_published(resolutions, count - 1);
    }
}

/// Once handles are published, every call through the bridge is the same one:
/// through those handles, with the greeting as its argument, and never
/// `NotInitialized`. Initializations that are tried in between change nothing
/// of that.
pub proof fn calls_after_initialization_agree<H>(
    handles: H,
    later: Seq<Result<H, HostError>>,
)
    ensures
        call_plan(slot_after_initialization(None::<H>, Ok(handles))) == Ok::<
            (H, Seq<char>),
            HostError,
        >((handles, GREETING@)),
        call_plan(slot_after_all(Some(handles), later)) == call_plan(Some(handles)),
{
    published_handles_stay(handles, later);
}

/// A failed resolution is reported as it is and publishes nothing, whatever
/// the slot held, so that on an empty slot a later initialization whose
/// resolution goes through still succeeds.
pub proof fn failed_resolution_changes_nothing<H>(
    before: Option<H>,
    failure: HostError,
    retry: H,
)
    ensures
        initialization_outcome(before, Err(failure)) == Err::<(), HostError>(failure),
        slot_after_initialization(before, Err(failure)) == before,
        initialization_outcome(slot_after_initialization(None::<H>, Err(failure)), Ok(retry))
            is Ok,
        slot_after_initialization(slot_after_initialization(None::<H>, Err(failure)), Ok(retry))
            == Some(retry),
{
}

} // verus!

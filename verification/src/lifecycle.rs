//! What holds of a slot's status and claim guard over any series of calls.

use vstd::prelude::*;
use crate::slot::{AteccKeySlot, KeySlotStatus};

verus! {

/// No request is permitted on a locked slot, whatever status it asks for.
pub proof fn locked_refuses(requested: KeySlotStatus)
    ensures
        !KeySlotStatus::Locked.may_become(requested),
        KeySlotStatus::Locked.after_request(requested) == KeySlotStatus::Locked,
{
}

/// Once locked, a slot stays locked through every series of requests, and
/// each request of the series is refused.
pub proof fn locked_is_terminal(requested: Seq<KeySlotStatus>)
    ensures
        KeySlotStatus::Locked.after_requests(requested) == KeySlotStatus::Locked,
        forall|i: int|
            0 <= i < requested.len() ==> !KeySlotStatus::Locked.after_requests(
                #[trigger] requested.take(i),
            ).may_become(requested[i]),
{
    stays_locked(requested);
    assert forall|i: int| 0 <= i < requested.len() implies !KeySlotStatus::Locked.after_requests(
        #[trigger] requested.take(i),
    ).may_become(requested[i]) by {
        stays_locked(requested.take(i));
    }
}

/// A locked slot is still locked after any series of requests.
proof fn stays_locked(requested: Seq<KeySlotStatus>)
    ensures
        KeySlotStatus::Locked.after_requests(requested) == KeySlotStatus::Locked,
    decreases requested.len(),
{
    if requested.len() > 0 {
        stays_locked(requested.drop_first());
    }
}

/// No series of requests locks a slot that was not locked before.
pub proof fn never_locked_by_request(status: KeySlotStatus, requested: Seq<KeySlotStatus>)
    requires
        status != KeySlotStatus::Locked,
    ensures
        status.after_requests(requested) != KeySlotStatus::Locked,
    decreases requested.len(),
{
    if requested.len() > 0 {
        never_locked_by_request(status.after_request(requested[0]), requested.drop_first());
    }
}

/// `Free` and `Busy` convert into each other freely: between any two
/// statuses other than `Locked` the change is permitted and takes effect.
pub proof fn free_and_busy_interconvert(status: KeySlotStatus, requested: KeySlotStatus)
    requires
        status != KeySlotStatus::Locked,
        requested != KeySlotStatus::Locked,
    ensures
        status.may_become(requested),
        status.after_request(requested) == requested,
{
}

/// The claim guard works once: after any attempt the slot is claimed, so
/// every further attempt fails and leaves the slot as it is.
pub proof fn claim_is_single_use(slot: AteccKeySlot, attempts: nat)
    requires
        attempts >= 1,
    ensures
        !slot.after_claims(attempts).unclaimed(),
        slot.after_claims(attempts) == slot.after_claim(),
    decreases attempts,
{
    if attempts > 1 {
        claim_is_single_use(slot.after_claim(), (attempts - 1) as nat);
    } else {
        assert(slot.after_claim().after_claims(0) == slot.after_claim());
    }
}

/// A claim on an unclaimed slot sets the count to one and touches nothing
/// else.
pub proof fn first_claim(slot: AteccKeySlot)
    requires
        slot.unclaimed(),
    ensures
        slot.after_claim().ref_count == 1,
        slot.after_claim().status == slot.status,
        slot.after_claim().config == slot.config,
{
}

/// The claim guard looks at the count alone: with another status in its
/// place the same claim succeeds or fails alike, and the status is kept.
pub proof fn claim_ignores_status(slot: AteccKeySlot, status: KeySlotStatus)
    ensures
        (AteccKeySlot { status, ..slot }).unclaimed() == slot.unclaimed(),
        (AteccKeySlot { status, ..slot }).after_claim() == (AteccKeySlot {
            status,
            ..slot.after_claim()
        }),
{
}

} // verus!

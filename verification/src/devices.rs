//! Listing the devices: ask how many bytes the device list holds, then fetch
//! it into a buffer of that many bytes.
//!
//! The audio layer exposes no count, so the count is derived from the size in
//! bytes. It is derived once, from the answer to the size query, and is not
//! derived again from the size that the fetch reports.

use vstd::prelude::*;
use crate::property::{
    check_status, global, global_address, status_error, AudioObject, DeviceId, FetchReply,
    FetchRequest, OsStatusError, Selector, SizeQuery, SizeReply, NO_ERROR,
};

verus! {

/// Bytes that one device identifier occupies in the device list.
pub const IDENTIFIER_SIZE: u32 = 4;

/// Number of whole identifiers in a device list of `size` bytes. A remainder
/// is dropped.
pub open spec fn device_count(size: u32) -> u32 {
    (size / IDENTIFIER_SIZE) as u32
}

/// The size query that opens a listing.
pub open spec fn devices_query() -> SizeQuery {
    SizeQuery { object: AudioObject::System, address: global_address(Selector::Devices) }
}

/// The fetch that follows a size query answered with `size` bytes.
pub open spec fn devices_fetch(size: u32) -> FetchRequest {
    FetchRequest {
        object: AudioObject::System,
        address: global_address(Selector::Devices),
        capacity: device_count(size),
        declared_size: size,
    }
}

/// What follows from the answer to the size query: the error that it carries,
/// or the fetch to make.
pub open spec fn planned(reply: SizeReply) -> Result<FetchRequest, OsStatusError> {
    match status_error(reply.status) {
        Some(error) => Err(error),
        None => Ok(devices_fetch(reply.size)),
    }
}

/// The first `capacity` identifiers of a buffer, or all of it where it holds
/// fewer.
pub open spec fn kept(capacity: u32, data: Seq<DeviceId>) -> Seq<DeviceId> {
    if capacity <= data.len() {
        data.take(capacity as int)
    } else {
        data
    }
}

/// What follows from the answer to the fetch: the error that it carries, or
/// the identifiers that the buffer was allocated for. The size that the fetch
/// reports plays no part.
pub open spec fn collected(capacity: u32, reply: FetchReply<DeviceId>) -> Result<
    Seq<DeviceId>,
    OsStatusError,
> {
    match status_error(reply.status) {
        Some(error) => Err(error),
        None => Ok(kept(capacity, reply.data@)),
    }
}

/// The outcome of a whole listing, given both answers of the audio layer.
pub open spec fn listing(size: SizeReply, fetch: FetchReply<DeviceId>) -> Result<
    Seq<DeviceId>,
    OsStatusError,
> {
    match planned(size) {
        Err(error) => Err(error),
        Ok(request) => collected(request.capacity, fetch),
    }
}

/// First step of a listing: the size query to make.
pub fn size_query() -> (query: SizeQuery)
    ensures
        query == devices_query(),
{
    SizeQuery { object: AudioObject::System, address: global(Selector::Devices) }
}

/// Second step: reads the answer to the size query. A status other than
/// success ends the listing with that status; otherwise the result is the
/// fetch to make, for `size / 4` identifiers and with `size` as declared size.
pub fn plan_fetch(reply: SizeReply) -> (plan: Result<FetchRequest, OsStatusError>)
    ensures
        plan == planned(reply),
{
    match check_status(reply.status) {
        Err(error) => Err(error),
        Ok(_) => Ok(
            FetchRequest {
                object: AudioObject::System,
                address: global(Selector::Devices),
                capacity: reply.size / IDENTIFIER_SIZE,
                declared_size: reply.size,
            },
        ),
    }
}

/// Last step: reads the answer to the fetch that `request` asked for. A status
/// other than success ends the listing with that status; otherwise the result
/// is the buffer cut to the capacity that was asked for.
pub fn collect(request: FetchRequest, reply: FetchReply<DeviceId>) -> (devices: Result<
    Vec<DeviceId>,
    OsStatusError,
>)
    ensures
        match devices {
            Ok(ids) => collected(request.capacity, reply) == Ok::<Seq<DeviceId>, OsStatusError>(
                ids@,
            ),
            Err(error) => collected(request.capacity, reply) == Err::<
                Seq<DeviceId>,
                OsStatusError,
            >(error),
        },
{
    match check_status(reply.status) {
        Err(error) => Err(error),
        Ok(_) => {
            let mut ids = reply.data;
            ids.truncate(request.capacity as usize);
            Ok(ids)
        },
    }
}

/// A listing that succeeds into a buffer of the capacity that was asked for
/// returns exactly `size / 4` identifiers, where `size` is the answer to the
/// size query: the buffer's own, in the buffer's order, each within the range
/// of an identifier.
pub proof fn lemma_listing_length(size: SizeReply, fetch: FetchReply<DeviceId>)
    requires
        listing(size, fetch) is Ok,
        fetch.data@.len() >= device_count(size.size),
    ensures
        listing(size, fetch)->Ok_0.len() == size.size as int / IDENTIFIER_SIZE as int,
        forall|i: int|
            0 <= i < listing(size, fetch)->Ok_0.len() ==> {
                &&& #[trigger] listing(size, fetch)->Ok_0[i] == fetch.data@[i]
                &&& 0 <= listing(size, fetch)->Ok_0[i] <= u32::MAX
            },
{
}

/// Two listings that receive the same answers have the same outcome.
pub proof fn lemma_listing_deterministic(
    size: SizeReply,
    first: FetchReply<DeviceId>,
    second: FetchReply<DeviceId>,
)
    requires
        first.status == second.status,
        first.data@ == second.data@,
    ensures
        listing(size, first) == listing(size, second),
{
}

/// Two listings between which the devices did not change name the same set of
/// devices, in whatever order each fetch delivers them: both fail with the
/// same status, or both succeed with the same set of identifiers. The buffers
/// hold no more than was asked for, so nothing is cut from either.
pub proof fn lemma_listing_repeatable(
    size: SizeReply,
    first: FetchReply<DeviceId>,
    second: FetchReply<DeviceId>,
)
    requires
        first.status == second.status,
        first.data@.to_set() == second.data@.to_set(),
        first.data@.len() <= device_count(size.size),
        second.data@.len() <= device_count(size.size),
    ensures
        match (listing(size, first), listing(size, second)) {
            (Ok(a), Ok(b)) => a.to_set() == b.to_set(),
            (Err(a), Err(b)) => a == b,
            _ => false,
        },
{
    let capacity = device_count(size.size);
    assert(kept(capacity, first.data@) =~= first.data@);
    assert(kept(capacity, second.data@) =~= second.data@);
}

/// Where the size query reports a device list too short for one identifier,
/// and the fetch succeeds, the listing succeeds with no identifiers.
pub proof fn lemma_listing_empty(size: SizeReply, fetch: FetchReply<DeviceId>)
    requires
        size.status == NO_ERROR,
        size.size < IDENTIFIER_SIZE,
        fetch.status == NO_ERROR,
    ensures
        listing(size, fetch) == Ok::<Seq<DeviceId>, OsStatusError>(Seq::empty()),
{
    assert(kept(0, fetch.data@) =~= Seq::<DeviceId>::empty());
}

/// A size query that fails with a status decides the listing: no fetch is
/// planned, and the outcome is that status whatever a fetch would answer.
pub proof fn lemma_size_failure_is_final(size: SizeReply, fetch: FetchReply<DeviceId>)
    requires
        size.status != NO_ERROR,
    ensures
        planned(size) == Err::<FetchRequest, OsStatusError>(OsStatusError { code: size.status }),
        listing(size, fetch) == Err::<Seq<DeviceId>, OsStatusError>(
            OsStatusError { code: size.status },
        ),
{
}

/// A fetch that fails with a status ends the listing with that status.
pub proof fn lemma_fetch_failure_is_final(size: SizeReply, fetch: FetchReply<DeviceId>)
    requires
        size.status == NO_ERROR,
        fetch.status != NO_ERROR,
    ensures
        listing(size, fetch) == Err::<Seq<DeviceId>, OsStatusError>(
            OsStatusError { code: fetch.status },
        ),
{
}

} // verus!

//! What the two device commands do to buffer contents, as mathematics, and
//! what follows for the demonstrations.
//!
//! Nothing here runs on a device: these are the statements against which a
//! device's work is judged by the checks on what is read back.

use vstd::prelude::*;
use crate::content::{ramp, zeros, is_scaled_ramp, COPY_LEN, COMPUTE_LEN, FACTOR};
use crate::dispatch::LOCAL_SIZE;

verus! {

/// The destination after a copy command over whole buffers: as many elements
/// as the shorter of the two holds are taken from the source, and the rest of
/// the destination stays.
pub open spec fn after_copy(source: Seq<u32>, destination: Seq<u32>) -> Seq<u32> {
    Seq::new(
        destination.len(),
        |i: int|
            if i < source.len() {
                source[i]
            } else {
                destination[i]
            },
    )
}

/// What one invocation of the compute program leaves in its element: the
/// product with `FACTOR`, in 32-bit unsigned arithmetic.
pub open spec fn scaled(value: u32) -> u32 {
    ((value * FACTOR) % 0x1_0000_0000) as u32
}

/// The buffer after a dispatch of `groups` workgroups of `local_size`
/// invocations: invocation `i` scales element `i`, and elements beyond the
/// last invocation stay.
pub open spec fn after_dispatch(data: Seq<u32>, groups: nat, local_size: nat) -> Seq<u32> {
    Seq::new(
        data.len(),
        |i: int|
            if i < groups * local_size {
                scaled(data[i])
            } else {
                data[i]
            },
    )
}

/// A copy between buffers of one length leaves the destination equal to the
/// source, whatever it held before.
pub proof fn copy_yields_source(source: Seq<u32>, destination: Seq<u32>)
    requires
        source.len() == destination.len(),
    ensures
        after_copy(source, destination) == source,
{
    assert(after_copy(source, destination) =~= source);
}

/// The copy demonstration: the destination, all zeros at first, holds
/// `0, 1, .., 63` once the copy is complete, as the source does.
pub proof fn copy_demo_outcome()
    ensures
        after_copy(ramp(COPY_LEN as nat), zeros(COPY_LEN as nat)) == ramp(COPY_LEN as nat),
        after_copy(ramp(COPY_LEN as nat), zeros(COPY_LEN as nat)).len() == 64,
        forall|i: int|
            0 <= i < 64 ==> #[trigger] after_copy(
                ramp(COPY_LEN as nat),
                zeros(COPY_LEN as nat),
            )[i] == i,
{
    copy_yields_source(ramp(COPY_LEN as nat), zeros(COPY_LEN as nat));
}

/// The compute demonstration: once the dispatch of sixteen workgroups is
/// complete, every one of the 1024 elements holds its position times twelve,
/// which is what the check on the read-back accepts.
pub proof fn compute_demo_outcome()
    ensures
        after_dispatch(ramp(COMPUTE_LEN as nat), 16, LOCAL_SIZE as nat).len() == 1024,
        forall|n: int|
            0 <= n < 1024 ==> #[trigger] after_dispatch(
                ramp(COMPUTE_LEN as nat),
                16,
                LOCAL_SIZE as nat,
            )[n] == n * 12,
        is_scaled_ramp(after_dispatch(ramp(COMPUTE_LEN as nat), 16, LOCAL_SIZE as nat)),
{
    let out = after_dispatch(ramp(COMPUTE_LEN as nat), 16, LOCAL_SIZE as nat);
    assert forall|n: int| 0 <= n < 1024 implies #[trigger] out[n] == n * 12 by {
        assert(ramp(COMPUTE_LEN as nat)[n] == n as u32);
        assert(n < 16 * 64);
        assert(out[n] == scaled(n as u32));
    }
}

/// A dispatch of no workgroup changes nothing, and a dispatch that covers the
/// buffer scales every element.
pub proof fn dispatch_covers(data: Seq<u32>, groups: nat, local_size: nat)
    ensures
        groups * local_size == 0 ==> after_dispatch(data, groups, local_size) == data,
        groups * local_size >= data.len() ==> after_dispatch(data, groups, local_size)
            == data.map_values(|v: u32| scaled(v)),
{
    if groups * local_size == 0 {
        assert(after_dispatch(data, groups, local_size) =~= data);
    }
    if groups * local_size >= data.len() {
        assert(after_dispatch(data, groups, local_size) =~= data.map_values(|v: u32| scaled(v)));
    }
}

/// Runs on fresh buffers agree: two commands on equal contents leave equal
/// contents, so a demonstration that is run again, each time on buffers
/// filled anew, ends as it did before.
pub proof fn fresh_runs_agree(
    first_source: Seq<u32>,
    first_destination: Seq<u32>,
    second_source: Seq<u32>,
    second_destination: Seq<u32>,
    groups: nat,
    local_size: nat,
)
    requires
        first_source == second_source,
        first_destination == second_destination,
    ensures
        after_copy(first_source, first_destination) == after_copy(
            second_source,
            second_destination,
        ),
        after_dispatch(first_source, groups, local_size) == after_dispatch(
            second_source,
            groups,
            local_size,
        ),
{
}

/// Two read-backs of one length that both pass the check on the dispatch are
/// equal: what the check accepts does not depend on the run.
pub proof fn accepted_dispatch_is_unique(first: Seq<u32>, second: Seq<u32>)
    requires
        first.len() == second.len(),
        is_scaled_ramp(first),
        is_scaled_ramp(second),
    ensures
        first == second,
{
    assert forall|n: int| 0 <= n < first.len() implies first[n] == second[n] by {
        assert(first[n] == n * FACTOR);
        assert(second[n] == n * FACTOR);
    }
    assert(first =~= second);
}

/// Scaling the same buffer a second time does not give the first result
/// again: a run must start from buffers filled anew.
pub proof fn reuse_changes_outcome()
    ensures
        after_dispatch(
            after_dispatch(ramp(COMPUTE_LEN as nat), 16, LOCAL_SIZE as nat),
            16,
            LOCAL_SIZE as nat,
        ) != after_dispatch(ramp(COMPUTE_LEN as nat), 16, LOCAL_SIZE as nat),
{
    let once = after_dispatch(ramp(COMPUTE_LEN as nat), 16, LOCAL_SIZE as nat);
    let twice = after_dispatch(once, 16, LOCAL_SIZE as nat);
    compute_demo_outcome();
    assert(once[1] == 12);
    assert(twice[1] == scaled(once[1]));
    assert(twice[1] == 144);
}

} // verus!

//! The shape of the one compute dispatch: how many workgroups cover the
//! buffer, one invocation for each element.

use vstd::prelude::*;
use crate::content::COMPUTE_LEN;

verus! {

/// Invocations in one workgroup of the compute program, along its one axis.
pub const LOCAL_SIZE: u32 = 64;

/// Number of workgroups of `local_size` invocations that `elements`
/// invocations make up, rounded down. There is none for an empty workgroup.
pub fn workgroup_count(elements: u32, local_size: u32) -> (groups: Option<u32>)
    ensures
        local_size == 0 <==> groups is None,
        groups matches Some(g) ==> g == elements as int / local_size as int,
{
    if local_size == 0 {
        None
    } else {
        Some(elements / local_size)
    }
}

/// The workgroups to dispatch for the compute demonstration, along the three
/// axes: as many along the first as cover the buffer, one along the others.
pub fn compute_dispatch() -> (groups: [u32; 3])
    ensures
        groups@ == seq![16u32, 1u32, 1u32],
        groups[0] * LOCAL_SIZE == COMPUTE_LEN,
{
    let along_x: u32 = COMPUTE_LEN / LOCAL_SIZE;
    let groups: [u32; 3] = [along_x, 1, 1];
    assert(groups@ =~= seq![16u32, 1u32, 1u32]);
    groups
}

/// Where the workgroup size divides the number of elements, the workgroups
/// hold exactly one invocation for each element.
pub proof fn workgroups_cover_exactly(elements: u32, local_size: u32)
    requires
        local_size > 0,
        elements as int % local_size as int == 0,
    ensures
        (elements as int / local_size as int) * local_size == elements,
{
    assert((elements as int / local_size as int) * local_size == elements) by (nonlinear_arith)
        requires
            local_size > 0,
            elements as int % local_size as int == 0,
    ;
}

} // verus!

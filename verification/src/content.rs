//! What the buffers of the two demonstrations hold before the device works
//! on them, and the checks on what is read back afterwards.

use vstd::prelude::*;

verus! {

/// Number of elements in each buffer of the copy demonstration.
pub const COPY_LEN: u32 = 64;

/// Number of elements in the buffer of the compute demonstration.
pub const COMPUTE_LEN: u32 = 1024;

/// The constant by which the compute program multiplies every element.
pub const FACTOR: u32 = 12;

/// The sequence `0, 1, .., n - 1`.
pub open spec fn ramp(n: nat) -> Seq<u32> {
    Seq::new(n, |i: int| i as u32)
}

/// `n` zeros.
pub open spec fn zeros(n: nat) -> Seq<u32> {
    Seq::new(n, |i: int| 0u32)
}

/// Every element equals its position times `FACTOR`.
pub open spec fn is_scaled_ramp(content: Seq<u32>) -> bool {
    forall|n: int| 0 <= n < content.len() ==> #[trigger] content[n] == n * FACTOR
}

/// `i` is the first position at which `content` is not its position times
/// `FACTOR`.
pub open spec fn is_first_unscaled(content: Seq<u32>, i: int) -> bool {
    &&& 0 <= i < content.len()
    &&& content[i] != i * FACTOR
    &&& is_scaled_ramp(content.take(i))
}

/// `i` is the first position at which `a` and `b`, of one length, differ.
pub open spec fn is_first_difference(a: Seq<u32>, b: Seq<u32>, i: int) -> bool {
    &&& a.len() == b.len()
    &&& 0 <= i < a.len()
    &&& a[i] != b[i]
    &&& a.take(i) == b.take(i)
}

/// How a buffer read back from the device departs from what was expected.
#[derive(Clone, Copy, Debug, PartialEq, Eq, Structural)]
pub enum Mismatch {
    /// The two buffers do not have the same number of elements.
    Length { source: usize, destination: usize },
    /// The first element that is wrong, and what was found there.
    Element { index: usize, found: u32 },
}

/// A buffer content of `len` elements that counts up from zero.
pub fn ramp_content(len: u32) -> (content: Vec<u32>)
    ensures
        content@ == ramp(len as nat),
{
    let mut content: Vec<u32> = Vec::new();
    let mut i: u32 = 0;
    while i < len
        invariant
            i <= len,
            content@ == ramp(i as nat),
        decreases len - i,
    {
        content.push(i);
        i = i + 1;
    }
    content
}

/// A buffer content of `len` zeros.
pub fn zero_content(len: u32) -> (content: Vec<u32>)
    ensures
        content@ == zeros(len as nat),
{
    let mut content: Vec<u32> = Vec::new();
    let mut i: u32 = 0;
    while i < len
        invariant
            i <= len,
            content@ == zeros(i as nat),
        decreases len - i,
    {
        content.push(0);
        i = i + 1;
    }
    content
}

/// What the source buffer of the copy demonstration holds at first.
pub fn copy_source() -> (content: Vec<u32>)
    ensures
        content@ == ramp(COPY_LEN as nat),
{
    ramp_content(COPY_LEN)
}

/// What the destination buffer of the copy demonstration holds at first.
pub fn copy_destination() -> (content: Vec<u32>)
    ensures
        content@ == zeros(COPY_LEN as nat),
{
    zero_content(COPY_LEN)
}

/// What the buffer of the compute demonstration holds at first.
pub fn compute_input() -> (content: Vec<u32>)
    ensures
        content@ == ramp(COMPUTE_LEN as nat),
{
    ramp_content(COMPUTE_LEN)
}

/// Checks what was read back after the copy: the destination must equal the
/// source, element for element. Reports the first departure otherwise.
pub fn check_copy(source: &[u32], destination: &[u32]) -> (verdict: Result<(), Mismatch>)
    ensures
        verdict is Ok <==> source@ == destination@,
        source@.len() != destination@.len() <==> verdict == Err::<(), Mismatch>(
            Mismatch::Length { source: source.len(), destination: destination.len() },
        ),
        verdict matches Err(Mismatch::Element { index, found }) ==> is_first_difference(
            source@,
            destination@,
            index as int,
        ) && found == destination@[index as int],
{
    if source.len() != destination.len() {
        return Err(Mismatch::Length { source: source.len(), destination: destination.len() });
    }
    let mut i: usize = 0;
    while i < source.len()
        invariant
            i <= source.len(),
            source@.len() == destination@.len(),
            source@.take(i as int) == destination@.take(i as int),
        decreases source.len() - i,
    {
        if source[i] != destination[i] {
            return Err(Mismatch::Element { index: i, found: destination[i] });
        }
        i = i + 1;
    }
    assert(source@.take(i as int) == source@);
    assert(destination@.take(i as int) == destination@);
    Ok(())
}

/// Checks what was read back after the dispatch: every element must equal its
/// position times `FACTOR`. Reports the first element that does not.
pub fn check_scaled(content: &[u32]) -> (verdict: Result<(), Mismatch>)
    ensures
        verdict is Ok <==> is_scaled_ramp(content@),
        verdict matches Err(e) ==> e matches Mismatch::Element { index, found }
            && is_first_unscaled(content@, index as int) && found == content@[index as int],
{
    let mut i: usize = 0;
    while i < content.len()
        invariant
            i <= content.len(),
            is_scaled_ramp(content@.take(i as int)),
        decreases content.len() - i,
    {
        let found = content[i];
        // A position too large for its product to fit an element cannot match.
        let fits = i <= (u32::MAX / FACTOR) as usize;
        if !fits || found != (i as u32) * FACTOR {
            return Err(Mismatch::Element { index: i, found });
        }
        assert(is_scaled_ramp(content@.take(i + 1))) by {
            assert forall|n: int| 0 <= n < i + 1 implies #[trigger] content@.take(i + 1)[n] == n
                * FACTOR by {
                if n < i {
                    assert(content@.take(i as int)[n] == n * FACTOR);
                }
            }
        }
        i = i + 1;
    }
    assert(content@.take(i as int) == content@);
    Ok(())
}

} // verus!

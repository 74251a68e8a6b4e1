//! How the buffers of the demonstrations may be used on the device.

use vstd::prelude::*;

verus! {

/// The uses that a buffer is created for, one flag for each.
#[derive(Clone, Copy, Debug, PartialEq, Eq, Structural)]
pub struct UsageFlags {
    pub transfer_source: bool,
    pub transfer_destination: bool,
    pub uniform_texel_buffer: bool,
    pub storage_texel_buffer: bool,
    pub uniform_buffer: bool,
    pub storage_buffer: bool,
    pub index_buffer: bool,
    pub vertex_buffer: bool,
    pub indirect_buffer: bool,
}

impl UsageFlags {
    /// The buffer may be both source and destination of a copy command.
    pub open spec fn permits_copy(self) -> bool {
        self.transfer_source && self.transfer_destination
    }

    /// The buffer may be bound to a program as storage that it reads and
    /// writes.
    pub open spec fn permits_shader_access(self) -> bool {
        self.storage_buffer
    }

    /// Every flag is set.
    pub open spec fn is_all(self) -> bool {
        &&& self.transfer_source
        &&& self.transfer_destination
        &&& self.uniform_texel_buffer
        &&& self.storage_texel_buffer
        &&& self.uniform_buffer
        &&& self.storage_buffer
        &&& self.index_buffer
        &&& self.vertex_buffer
        &&& self.indirect_buffer
    }
}

/// Calls `vulkano::buffer::BufferUsage::all` and hands its nine flags over,
/// each under its own name. Trusted: that function builds a usage with every
/// flag set to true.
#[verifier::external_body]
fn all_usage() -> (usage: UsageFlags)
    ensures
        usage.is_all(),
{
    let all = vulkano::buffer::BufferUsage::all();
    UsageFlags {
        transfer_source: all.transfer_source,
        transfer_destination: all.transfer_destination,
        uniform_texel_buffer: all.uniform_texel_buffer,
        storage_texel_buffer: all.storage_texel_buffer,
        uniform_buffer: all.uniform_buffer,
        storage_buffer: all.storage_buffer,
        index_buffer: all.index_buffer,
        vertex_buffer: all.vertex_buffer,
        indirect_buffer: all.indirect_buffer,
    }
}

/// The usage with which every buffer of the demonstrations is created. It
/// permits the copy and the access by the compute program.
pub fn buffer_usage() -> (usage: UsageFlags)
    ensures
        usage.is_all(),
        usage.permits_copy(),
        usage.permits_shader_access(),
{
    all_usage()
}

} // verus!

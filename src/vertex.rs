use vstd::prelude::*;

verus! {

/// Per-instance data of an instanced draw.
pub trait OInstance {
    /// Bytes from one instance to the next.
    fn stride() -> u32;
}

/// The arguments of one indexed indirect draw, laid out as the GPU reads them.
#[derive(Clone, Copy, Debug, PartialEq, Eq, Structural)]
pub struct CrateDrawIndexedIndirectCommand {
    pub index_count: u32,
    pub instance_count: u32,
    pub first_index: u32,
    pub vertex_offset: i32,
    pub first_instance: u32,
}

impl Default for CrateDrawIndexedIndirectCommand {
    fn default() -> (r: Self)
        ensures
            r == (CrateDrawIndexedIndirectCommand {
                index_count: 0,
                instance_count: 0,
                first_index: 0,
                vertex_offset: 0,
                first_instance: 0,
            }),
    {
        CrateDrawIndexedIndirectCommand {
            index_count: 0,
            instance_count: 0,
            first_index: 0,
            vertex_offset: 0,
            first_instance: 0,
        }
    }
}

} // verus!

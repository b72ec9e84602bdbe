use vstd::prelude::*;

use crate::image::ImageLayout;
use crate::image_array_state::ImageArrayState;

verus! {

/// Identifies a binding slot inside a descriptor set.
#[derive(Clone, Copy, Debug, PartialEq, Eq, Structural)]
pub struct BindingId(pub u32);

/// Identifies a descriptor set inside a pipeline layout.
#[derive(Clone, Copy, Debug, PartialEq, Eq, Structural)]
pub struct SetId(pub u32);

/// A uniform buffer of `size` bytes at `binding`.
pub struct DDTypeUniform {
    pub binding: BindingId,
    pub size: usize,
}

/// A sampled texture at `binding`, read from the PNG file `file_abs`.
pub struct DDTypeImage {
    pub binding: BindingId,
    pub file_abs: String,
}

/// A sampled texture array at `binding`, described by `ias`.
pub struct DDTypeImageArray {
    pub binding: BindingId,
    pub ias: ImageArrayState,
}

/// One descriptor of a block.
pub enum DDType {
    Uniform(DDTypeUniform),
    Image(DDTypeImage),
    ImageArray(DDTypeImageArray),
}

/// The descriptors that make up one block, in binding order of creation.
pub struct DescriptorDescription {
    pub dd_types: Vec<DDType>,
}

/// What a descriptor write puts in its slot.
#[derive(Clone, Copy, Debug, PartialEq, Eq, Structural)]
pub enum DescriptorKind {
    /// A uniform buffer bound from offset 0 over `range` bytes.
    UniformBuffer { range: u64 },
    /// An image with its sampler, read in `layout`.
    CombinedImageSampler { layout: ImageLayout },
}

/// One descriptor write of a frame's descriptor set: array element 0 of `binding`.
#[derive(Clone, Copy, Debug, PartialEq, Eq, Structural)]
pub struct DescriptorWrite {
    pub binding: u32,
    pub kind: DescriptorKind,
}

/// The binding that a descriptor occupies.
pub open spec fn binding_of(d: DDType) -> u32 {
    match d {
        DDType::Uniform(u) => u.binding.0,
        DDType::Image(i) => i.binding.0,
        DDType::ImageArray(a) => a.binding.0,
    }
}

/// The write that fills a descriptor: uniforms over their whole size, images
/// (single or arrays) as combined image samplers read in shader-read-only layout.
pub open spec fn write_for(d: DDType) -> DescriptorWrite {
    DescriptorWrite {
        binding: binding_of(d),
        kind: match d {
            DDType::Uniform(u) => DescriptorKind::UniformBuffer { range: u.size as u64 },
            _ => DescriptorKind::CombinedImageSampler { layout: ImageLayout::ShaderReadOnlyOptimal },
        },
    }
}

impl DescriptorDescription {
    pub fn new(types: Vec<DDType>) -> (r: Self)
        ensures
            r.dd_types@ == types@,
    {
        Self { dd_types: types }
    }

    /// The writes that fill one frame's descriptor set: one per descriptor, in order.
    /// Every frame of a block gets the same writes, each on its own set.
    pub fn write_plan(&self) -> (r: Vec<DescriptorWrite>)
        ensures
            r@.len() == self.dd_types@.len(),
            forall|i: int| 0 <= i < r@.len() ==> r@[i] == write_for(#[trigger] self.dd_types@[i]),
    {
        let mut r: Vec<DescriptorWrite> = Vec::new();
        let mut i: usize = 0;
        while i < self.dd_types.len()
            invariant
                i <= self.dd_types@.len(),
                r@.len() == i,
                forall|j: int| 0 <= j < i ==> r@[j] == write_for(#[trigger] self.dd_types@[j]),
            decreases self.dd_types@.len() - i,
        {
            let w = match &self.dd_types[i] {
                DDType::Uniform(u) => DescriptorWrite {
                    binding: u.binding.0,
                    kind: DescriptorKind::UniformBuffer { range: u.size as u64 },
                },
                DDType::Image(img) => DescriptorWrite {
                    binding: img.binding.0,
                    kind: DescriptorKind::CombinedImageSampler {
                        layout: ImageLayout::ShaderReadOnlyOptimal,
                    },
                },
                DDType::ImageArray(arr) => DescriptorWrite {
                    binding: arr.binding.0,
                    kind: DescriptorKind::CombinedImageSampler {
                        layout: ImageLayout::ShaderReadOnlyOptimal,
                    },
                },
            };
            r.push(w);
            i += 1;
        }
        r
    }
}


/// How many descriptors of each kind, and how many sets, a descriptor pool offers.
#[derive(Clone, Copy, Debug, PartialEq, Eq, Structural)]
pub struct PoolSizes {
    pub uniform_buffers: u32,
    pub combined_image_samplers: u32,
    pub max_sets: u32,
}

/// A pool for `frame_count` frames: room for 1024 sets per frame, and as many
/// uniform buffers and as many combined image samplers.
pub fn pool_sizes(frame_count: usize) -> (r: PoolSizes)
    requires
        1024 * frame_count <= u32::MAX,
    ensures
        r.max_sets == 1024 * frame_count,
        r.uniform_buffers == r.max_sets,
        r.combined_image_samplers == r.max_sets,
{
    let max: u32 = 1024 * (frame_count as u32);
    PoolSizes { uniform_buffers: max, combined_image_samplers: max, max_sets: max }
}

} // verus!

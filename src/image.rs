use vstd::prelude::*;

verus! {

/// Width and height of an image or a surface, in pixels.
#[derive(Clone, Copy, Debug, PartialEq, Eq, Structural)]
pub struct Extent2D {
    pub width: u32,
    pub height: u32,
}

/// The image layouts that the engine moves its textures through.
#[derive(Clone, Copy, Debug, PartialEq, Eq, Structural)]
pub enum ImageLayout {
    Undefined,
    TransferDstOptimal,
    ShaderReadOnlyOptimal,
}

/// The memory accesses a barrier orders.
#[derive(Clone, Copy, Debug, PartialEq, Eq, Structural)]
pub enum Access {
    Nothing,
    TransferWrite,
    ShaderRead,
}

/// The pipeline stages a barrier waits on or blocks.
#[derive(Clone, Copy, Debug, PartialEq, Eq, Structural)]
pub enum Stage {
    TopOfPipe,
    Transfer,
    VertexShader,
}

/// A layout transition of the colour aspect of mip level 0, over array layers
/// `0 .. layer_count`, with no queue family transfer.
#[derive(Clone, Copy, Debug, PartialEq, Eq, Structural)]
pub struct ImageBarrier {
    pub old_layout: ImageLayout,
    pub new_layout: ImageLayout,
    pub src_access: Access,
    pub dst_access: Access,
    pub src_stage: Stage,
    pub dst_stage: Stage,
    pub layer_count: u32,
}

/// The barrier that takes an image out of `old` into `new`. Only the two steps of an
/// upload have one: out of `Undefined` before the copy (nothing to wait on, the
/// transfer writes after it), and out of `TransferDstOptimal` after it (the transfer
/// writes before the vertex shader reads).
pub open spec fn barrier_spec(old: ImageLayout, new: ImageLayout, layer_count: u32) -> Option<ImageBarrier> {
    match old {
        ImageLayout::Undefined => Some(ImageBarrier {
            old_layout: old,
            new_layout: new,
            src_access: Access::Nothing,
            dst_access: Access::TransferWrite,
            src_stage: Stage::TopOfPipe,
            dst_stage: Stage::Transfer,
            layer_count,
        }),
        ImageLayout::TransferDstOptimal => Some(ImageBarrier {
            old_layout: old,
            new_layout: new,
            src_access: Access::TransferWrite,
            dst_access: Access::ShaderRead,
            src_stage: Stage::Transfer,
            dst_stage: Stage::VertexShader,
            layer_count,
        }),
        ImageLayout::ShaderReadOnlyOptimal => None,
    }
}

impl ImageBarrier {
    /// The barrier for a transition out of `old_layout`; `None` where the engine has no
    /// rule for that layout.
    pub fn transition(old_layout: ImageLayout, new_layout: ImageLayout, layer_count: u32) -> (r: Option<ImageBarrier>)
        ensures
            r == barrier_spec(old_layout, new_layout, layer_count),
    {
        match old_layout {
            ImageLayout::Undefined => Some(ImageBarrier {
                old_layout,
                new_layout,
                src_access: Access::Nothing,
                dst_access: Access::TransferWrite,
                src_stage: Stage::TopOfPipe,
                dst_stage: Stage::Transfer,
                layer_count,
            }),
            ImageLayout::TransferDstOptimal => Some(ImageBarrier {
                old_layout,
                new_layout,
                src_access: Access::TransferWrite,
                dst_access: Access::ShaderRead,
                src_stage: Stage::Transfer,
                dst_stage: Stage::VertexShader,
                layer_count,
            }),
            ImageLayout::ShaderReadOnlyOptimal => None,
        }
    }

    /// The two barriers around the copy of an upload: into `TransferDstOptimal` before
    /// it, and into `ShaderReadOnlyOptimal` after it.
    pub fn upload_pair(layer_count: u32) -> (r: (ImageBarrier, ImageBarrier))
        ensures
            Some(r.0) == barrier_spec(ImageLayout::Undefined, ImageLayout::TransferDstOptimal, layer_count),
            Some(r.1) == barrier_spec(
                ImageLayout::TransferDstOptimal,
                ImageLayout::ShaderReadOnlyOptimal,
                layer_count,
            ),
    {
        let before = ImageBarrier::transition(ImageLayout::Undefined, ImageLayout::TransferDstOptimal, layer_count);
        let after = ImageBarrier::transition(
            ImageLayout::TransferDstOptimal,
            ImageLayout::ShaderReadOnlyOptimal,
            layer_count,
        );
        (before.unwrap(), after.unwrap())
    }
}

/// One buffer-to-image copy: a whole `extent`-sized layer `layer` of the colour
/// aspect at mip level 0, read tightly packed from `buffer_offset`.
#[derive(Clone, Copy, Debug, PartialEq, Eq, Structural)]
pub struct CopyRegion {
    pub buffer_offset: u64,
    pub layer: u32,
    pub extent: Extent2D,
}

/// Side of the square textures an image array holds.
pub const ARRAY_TEXTURE_SIDE: u32 = 32;

/// Bytes of one RGBA texture of an image array.
pub const ARRAY_LAYER_BYTES: usize = 4096;

/// The copy of a single image: one region from offset 0 into layer 0.
pub fn image_copy_region(extent: Extent2D) -> (r: CopyRegion)
    ensures
        r == (CopyRegion { buffer_offset: 0, layer: 0, extent }),
{
    CopyRegion { buffer_offset: 0, layer: 0, extent }
}

/// The copies of an image array: layer `l` is read from offset `l * 4096`.
pub fn image_array_copy_regions(extent: Extent2D, layers: u32) -> (r: Vec<CopyRegion>)
    ensures
        r@.len() == layers,
        forall|l: int| 0 <= l < layers ==> #[trigger] r@[l] == (CopyRegion {
            buffer_offset: (l * ARRAY_LAYER_BYTES) as u64,
            layer: l as u32,
            extent,
        }),
{
    let mut r: Vec<CopyRegion> = Vec::new();
    let mut l: u32 = 0;
    while l < layers
        invariant
            l <= layers,
            r@.len() == l,
            forall|k: int| 0 <= k < l ==> #[trigger] r@[k] == (CopyRegion {
                buffer_offset: (k * ARRAY_LAYER_BYTES) as u64,
                layer: k as u32,
                extent,
            }),
        decreases layers - l,
    {
        let offset: u64 = (l as u64) * (ARRAY_LAYER_BYTES as u64);
        r.push(CopyRegion { buffer_offset: offset, layer: l, extent });
        l += 1;
    }
    r
}

/// Decoded RGBA pixels of one texture, row by row.
pub struct ImageData {
    pub extent: Extent2D,
    pub pixels: Vec<u8>,
}

/// Why a texture could not be used.
#[derive(Clone, Copy, Debug, PartialEq, Eq, Structural)]
pub enum ImageError {
    /// The file is not a PNG image that can be decoded.
    Decode,
    /// The image does not have four bytes per pixel (RGBA, 8 bits each).
    NotRgba { bytes_per_pixel: usize },
    /// A texture of an image array is not a 32 by 32 RGBA image.
    LayerSize { layer: usize },
}

/// What PNG decoding yields for a file's bytes: width, height, bytes per pixel and the
/// decoded pixels.
pub uninterp spec fn png_decoded(bytes: Seq<u8>) -> Option<(u32, u32, usize, Seq<u8>)>;

/// A decoding result with its pixels viewed as a sequence.
pub open spec fn decoded_view(r: Option<(u32, u32, usize, Vec<u8>)>) -> Option<(u32, u32, usize, Seq<u8>)> {
    match r {
        Some((w, h, bpp, px)) => Some((w, h, bpp, px@)),
        None => None,
    }
}

/// Relies on png's `Decoder` (`read_header_info`, `Info::bytes_per_pixel`,
/// `read_info`) and `Reader::next_frame`, which fills a buffer of
/// `Reader::output_buffer_size` bytes, frame after frame, until it fails. `None` where
/// the header or the image information cannot be read.
#[verifier::external_body]
fn decode_png(bytes: &[u8]) -> (r: Option<(u32, u32, usize, Vec<u8>)>)
    ensures
        decoded_view(r) == png_decoded(bytes@),
{
    let mut decoder = png::Decoder::new(bytes);
    let (width, height, bytes_per_pixel) = match decoder.read_header_info() {
        Ok(info) => (info.width, info.height, info.bytes_per_pixel()),
        Err(_) => return None,
    };
    let mut reader = match decoder.read_info() {
        Ok(reader) => reader,
        Err(_) => return None,
    };
    let mut pixels = vec![0u8; reader.output_buffer_size()];
    while let Ok(_) = reader.next_frame(&mut pixels) {}
    Some((width, height, bytes_per_pixel, pixels))
}

/// What a decoded image becomes: the texture where it is RGBA, else `NotRgba`.
pub open spec fn image_from_decoded_spec(
    width: u32,
    height: u32,
    bytes_per_pixel: usize,
    pixels: Seq<u8>,
    r: Result<ImageData, ImageError>,
) -> bool {
    if bytes_per_pixel == 4 {
        r matches Ok(d) && d.extent == (Extent2D { width, height }) && d.pixels@ == pixels
    } else {
        r == Err::<ImageData, ImageError>(ImageError::NotRgba { bytes_per_pixel })
    }
}

impl ImageData {
    /// Accepts a decoded image as a texture when it has four bytes per pixel.
    pub fn from_decoded(width: u32, height: u32, bytes_per_pixel: usize, pixels: Vec<u8>) -> (r: Result<ImageData, ImageError>)
        ensures
            image_from_decoded_spec(width, height, bytes_per_pixel, pixels@, r),
    {
        if bytes_per_pixel != 4 {
            Err(ImageError::NotRgba { bytes_per_pixel })
        } else {
            Ok(ImageData { extent: Extent2D { width, height }, pixels })
        }
    }

    /// Decodes the bytes of a PNG file into an RGBA texture.
    pub fn decode(bytes: &[u8]) -> (r: Result<ImageData, ImageError>)
        ensures
            png_decoded(bytes@) is None ==> r == Err::<ImageData, ImageError>(ImageError::Decode),
            png_decoded(bytes@) matches Some((w, h, bpp, px)) ==> image_from_decoded_spec(w, h, bpp, px, r),
    {
        match decode_png(bytes) {
            None => Err(ImageError::Decode),
            Some((width, height, bytes_per_pixel, pixels)) => {
                ImageData::from_decoded(width, height, bytes_per_pixel, pixels)
            },
        }
    }
}

/// The textures of an image array, one 32 by 32 RGBA layer after the other.
pub struct ImageArrayData {
    pub pixels: Vec<u8>,
    pub extent: Extent2D,
    pub layers: u32,
}

/// A texture that fits a layer of an image array.
pub open spec fn is_array_layer(d: ImageData) -> bool {
    d.extent.width == ARRAY_TEXTURE_SIDE && d.extent.height == ARRAY_TEXTURE_SIDE
        && d.pixels@.len() == ARRAY_LAYER_BYTES
}

/// The pixels of `s`, one texture after the other.
pub open spec fn concat_pixels(s: Seq<ImageData>) -> Seq<u8>
    decreases s.len(),
{
    if s.len() == 0 {
        Seq::empty()
    } else {
        concat_pixels(s.drop_last()) + s.last().pixels@
    }
}

/// Stacked layers take 4096 bytes each.
proof fn lemma_concat_len(textures: Seq<ImageData>)
    requires
        forall|i: int| 0 <= i < textures.len() ==> is_array_layer(#[trigger] textures[i]),
    ensures
        concat_pixels(textures).len() == textures.len() * ARRAY_LAYER_BYTES,
    decreases textures.len(),
{
    if textures.len() > 0 {
        let rest = textures.drop_last();
        assert forall|i: int| 0 <= i < rest.len() implies is_array_layer(#[trigger] rest[i]) by {
            assert(rest[i] == textures[i]);
        };
        assert(is_array_layer(textures[textures.len() - 1]));
        lemma_concat_len(rest);
    }
}

/// The copy of layer `l` of a packed image array reads bytes that the packed pixels
/// hold: the region starts at `l * 4096` and a whole layer fits after it.
pub proof fn lemma_copy_region_within_pixels(textures: Seq<ImageData>, l: int)
    requires
        forall|i: int| 0 <= i < textures.len() ==> is_array_layer(#[trigger] textures[i]),
        0 <= l < textures.len(),
    ensures
        concat_pixels(textures).len() == textures.len() * ARRAY_LAYER_BYTES,
        l * ARRAY_LAYER_BYTES + ARRAY_LAYER_BYTES <= concat_pixels(textures).len(),
{
    lemma_concat_len(textures);
    let n = textures.len() as int;
    assert(l * 4096 + 4096 <= n * 4096) by (nonlinear_arith)
        requires
            0 <= l < n,
    ;
}

impl ImageArrayData {
    /// Stacks textures into one array. Fails on the first texture that is not a
    /// 32 by 32 RGBA image, naming its position.
    pub fn pack(textures: &Vec<ImageData>) -> (r: Result<ImageArrayData, ImageError>)
        requires
            textures@.len() <= u32::MAX,
        ensures
            (forall|i: int| 0 <= i < textures@.len() ==> is_array_layer(#[trigger] textures@[i])) ==> (
                r matches Ok(a) && a.pixels@ == concat_pixels(textures@)
                && a.extent == (Extent2D { width: ARRAY_TEXTURE_SIDE, height: ARRAY_TEXTURE_SIDE })
                && a.layers == textures@.len()),
            forall|i: int|
                0 <= i < textures@.len() && !is_array_layer(#[trigger] textures@[i])
                && (forall|j: int| 0 <= j < i ==> is_array_layer(#[trigger] textures@[j]))
                ==> r == Err::<ImageArrayData, ImageError>(ImageError::LayerSize { layer: i as usize }),
    {
        let mut pixels: Vec<u8> = Vec::new();
        let mut i: usize = 0;
        while i < textures.len()
            invariant
                i <= textures@.len(),
                forall|j: int| 0 <= j < i ==> is_array_layer(#[trigger] textures@[j]),
                pixels@ == concat_pixels(textures@.subrange(0, i as int)),
            decreases textures@.len() - i,
        {
            let t = &textures[i];
            if !(t.extent.width == ARRAY_TEXTURE_SIDE && t.extent.height == ARRAY_TEXTURE_SIDE
                && t.pixels.len() == ARRAY_LAYER_BYTES) {
                return Err(ImageError::LayerSize { layer: i });
            }
            pixels.extend_from_slice(t.pixels.as_slice());
            assert(textures@.subrange(0, i + 1).drop_last() == textures@.subrange(0, i as int));
            i += 1;
        }
        assert(textures@.subrange(0, textures@.len() as int) == textures@);
        Ok(ImageArrayData {
            pixels,
            extent: Extent2D { width: ARRAY_TEXTURE_SIDE, height: ARRAY_TEXTURE_SIDE },
            layers: textures.len() as u32,
        })
    }
}

} // verus!

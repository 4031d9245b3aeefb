use vstd::prelude::*;

use vstd::arithmetic::mul::lemma_mul_upper_bound;

use crate::error::FormatError;

verus! {

/// A CPU-side image in the canonical layout: one `u32` per pixel holding red in
/// the lowest byte, then green, blue and alpha.
pub struct Texture {
    /// Slot of the uploaded copy in the renderer's texture table.
    pub gl_id: u32,
    pub width: usize,
    pub height: usize,
    /// Channel count of the source image.
    pub depth: usize,
    pub data: Vec<u32>,
}

impl Texture {
    /// One packed pixel for each position of the `width` by `height` grid.
    pub open spec fn wf(&self) -> bool {
        self.data@.len() == self.width * self.height
    }
}

#[derive(Clone, Copy, PartialEq, Eq, Debug, Structural)]
pub enum FilterMode {
    Point,
    Linear,
}

#[derive(Clone, Copy, PartialEq, Eq, Debug, Structural)]
pub enum WrapMode {
    Repeat,
    Mirror,
    Clamp,
}

#[derive(Clone, Copy, PartialEq, Eq, Debug, Structural)]
pub struct Sampler {
    pub filter_mode_mag: FilterMode,
    pub filter_mode_min: FilterMode,
    pub filter_mode_mipmap: FilterMode,
    pub wrap_mode_s: WrapMode,
    pub wrap_mode_t: WrapMode,
    pub mipmap_enabled: bool,
}

/// Channel layout of a decoded source image. Channels are stored in the order
/// of the name; 16-bit channels are little-endian byte pairs.
#[derive(Clone, Copy, PartialEq, Eq, Debug, Structural)]
pub enum PixelFormat {
    R8,
    R8G8,
    R8G8B8,
    R8G8B8A8,
    R16,
    R16G16,
    R16G16B16,
    R16G16B16A16,
    /// Three 32-bit floating-point channels; not supported.
    R32G32B32,
    /// Four 32-bit floating-point channels; not supported.
    R32G32B32A32,
}

impl PixelFormat {
    pub open spec fn supported(self) -> bool {
        !(self is R32G32B32 || self is R32G32B32A32)
    }

    pub open spec fn channel_count(self) -> nat {
        match self {
            PixelFormat::R8 | PixelFormat::R16 => 1,
            PixelFormat::R8G8 | PixelFormat::R16G16 => 2,
            PixelFormat::R8G8B8 | PixelFormat::R16G16B16 | PixelFormat::R32G32B32 => 3,
            PixelFormat::R8G8B8A8 | PixelFormat::R16G16B16A16 | PixelFormat::R32G32B32A32 => 4,
        }
    }

    /// Bytes per channel of a supported layout.
    pub open spec fn channel_bytes(self) -> nat {
        match self {
            PixelFormat::R8 | PixelFormat::R8G8 | PixelFormat::R8G8B8 | PixelFormat::R8G8B8A8 => 1,
            _ => 2,
        }
    }

    pub open spec fn stride(self) -> nat {
        self.channel_count() * self.channel_bytes()
    }

    fn is_supported(&self) -> (r: bool)
        ensures
            r == self.supported(),
    {
        match self {
            PixelFormat::R32G32B32 | PixelFormat::R32G32B32A32 => false,
            _ => true,
        }
    }

    fn channels(&self) -> (r: usize)
        ensures
            r == self.channel_count(),
    {
        match self {
            PixelFormat::R8 | PixelFormat::R16 => 1,
            PixelFormat::R8G8 | PixelFormat::R16G16 => 2,
            PixelFormat::R8G8B8 | PixelFormat::R16G16B16 | PixelFormat::R32G32B32 => 3,
            PixelFormat::R8G8B8A8 | PixelFormat::R16G16B16A16 | PixelFormat::R32G32B32A32 => 4,
        }
    }

    fn is_wide(&self) -> (r: bool)
        ensures
            r == (self.channel_bytes() == 2),
    {
        match self {
            PixelFormat::R8 | PixelFormat::R8G8 | PixelFormat::R8G8B8 | PixelFormat::R8G8B8A8 => false,
            _ => true,
        }
    }
}

/// A decoded source image as the scene file delivers it.
pub struct ImageData {
    pub format: PixelFormat,
    pub width: u32,
    pub height: u32,
    pub pixels: Vec<u8>,
}

/// Value of channel `c` (red, green, blue, alpha) of the pixel starting at
/// `base`: for a 16-bit channel its low-order byte; 255 for a channel that the
/// layout lacks.
pub open spec fn channel_value(fmt: PixelFormat, px: Seq<u8>, base: int, c: int) -> int {
    if c < fmt.channel_count() {
        px[base + c * fmt.channel_bytes()] as int
    } else {
        255
    }
}

/// Canonical packing of pixel `p` of a source image.
pub open spec fn packed_pixel(fmt: PixelFormat, px: Seq<u8>, p: int) -> u32 {
    let base = p * fmt.stride();
    (channel_value(fmt, px, base, 0) + 256 * channel_value(fmt, px, base, 1) + 65536
        * channel_value(fmt, px, base, 2) + 16777216 * channel_value(fmt, px, base, 3)) as u32
}

pub open spec fn unswizzled(fmt: PixelFormat, px: Seq<u8>, n: int) -> Seq<u32> {
    Seq::new(n as nat, |p: int| packed_pixel(fmt, px, p))
}

fn channel(fmt: PixelFormat, px: &Vec<u8>, base: usize, c: usize) -> (v: u32)
    requires
        c < 4,
        fmt.supported(),
        base + fmt.stride() <= px@.len(),
    ensures
        v == channel_value(fmt, px@, base as int, c as int),
        v < 256,
{
    if c < fmt.channels() {
        let offset: usize = if fmt.is_wide() {
            2 * c
        } else {
            c
        };
        assert(offset < fmt.stride()) by {
            if fmt.channel_bytes() == 2 {
                assert(fmt.stride() == fmt.channel_count() * 2);
            } else {
                assert(fmt.stride() == fmt.channel_count());
            }
        }
        let len = px.len();
        px[base + offset] as u32
    } else {
        255
    }
}

proof fn lemma_pixel_in_bounds(p: int, n: int, stride: int)
    requires
        0 <= p < n,
        0 <= stride,
    ensures
        p * stride + stride <= n * stride,
        0 <= p * stride,
{
    assert(p * stride + stride <= n * stride) by (nonlinear_arith)
        requires
            0 <= p < n,
            0 <= stride,
    ;
    assert(0 <= p * stride) by (nonlinear_arith)
        requires
            0 <= p,
            0 <= stride,
    ;
}

/// Maps `width * height` pixels of any supported layout to the canonical packing.
/// Fails on an unsupported layout, and on pixel bytes that are not exactly
/// `width * height` pixels of the layout.
pub fn unswizzle_pixels(fmt: PixelFormat, width: u64, height: u64, px: &Vec<u8>) -> (r: Result<
    Vec<u32>,
    FormatError,
>)
    ensures
        !fmt.supported() ==> r == Err::<Vec<u32>, FormatError>(FormatError::UnsupportedPixelFormat),
        fmt.supported() && px@.len() != width * height * fmt.stride() ==> r == Err::<
            Vec<u32>,
            FormatError,
        >(FormatError::PixelCountMismatch),
        fmt.supported() && px@.len() == width * height * fmt.stride() ==> (r matches Ok(d) && d@
            == unswizzled(fmt, px@, width * height)),
{
    if !fmt.is_supported() {
        return Err(FormatError::UnsupportedPixelFormat);
    }
    let channels = fmt.channels();
    let stride: usize = if fmt.is_wide() {
        2 * channels
    } else {
        channels
    };
    assert(stride == fmt.stride());
    proof {
        let m: int = 0xFFFF_FFFF_FFFF_FFFF;
        lemma_mul_upper_bound(width as int, m, height as int, m);
    }
    let len = px.len();
    let area: u128 = (width as u128) * (height as u128);
    match area.checked_mul(stride as u128) {
        Some(expected) => {
            if (px.len() as u128) != expected {
                return Err(FormatError::PixelCountMismatch);
            }
        },
        None => {
            return Err(FormatError::PixelCountMismatch);
        },
    }
    assert(width * height * stride >= width * height) by (nonlinear_arith)
        requires
            stride >= 1,
            width >= 0,
            height >= 0,
    ;
    let n: usize = ((width as u128) * (height as u128)) as usize;
    assert(px@.len() <= usize::MAX);
    let mut data: Vec<u32> = Vec::new();
    let mut p: usize = 0;
    while p < n
        invariant
            fmt.supported(),
            stride == fmt.stride(),
            1 <= stride <= 8,
            n == width * height,
            px@.len() == n * stride,
            n * stride <= usize::MAX,
            p <= n,
            data@ =~= unswizzled(fmt, px@, p as int),
        decreases n - p,
    {
        proof {
            lemma_pixel_in_bounds(p as int, n as int, stride as int);
        }
        let base: usize = p * stride;
        let red = channel(fmt, px, base, 0);
        let green = channel(fmt, px, base, 1);
        let blue = channel(fmt, px, base, 2);
        let alpha = channel(fmt, px, base, 3);
        data.push(red + green * 256 + blue * 65536 + alpha * 16777216);
        p = p + 1;
    }
    Ok(data)
}

impl Texture {
    /// Converts an image from the scene file to a four-channel texture.
    pub fn load_texture_from_gltf_image(image: &ImageData) -> (r: Result<Texture, FormatError>)
        ensures
            !image.format.supported() ==> r == Err::<Texture, FormatError>(
                FormatError::UnsupportedPixelFormat,
            ),
            image.format.supported() && image.pixels@.len() != image.width * image.height
                * image.format.stride() ==> r == Err::<Texture, FormatError>(
                FormatError::PixelCountMismatch,
            ),
            image.format.supported() && image.pixels@.len() == image.width * image.height
                * image.format.stride() ==> (r matches Ok(t) && {
                &&& t.wf()
                &&& t.gl_id == 0
                &&& t.width == image.width
                &&& t.height == image.height
                &&& t.depth == 4
                &&& t.data@ == unswizzled(
                    image.format,
                    image.pixels@,
                    image.width * image.height,
                )
            }),
    {
        let data = unswizzle_pixels(image.format, image.width as u64, image.height as u64, &image.pixels)?;
        Ok(Texture {
            gl_id: 0,
            width: image.width as usize,
            height: image.height as usize,
            depth: 4,
            data,
        })
    }

    /// Builds a texture from eight-bit pixels with three (RGB) or four (RGBA)
    /// channels; other channel counts are unsupported.
    pub fn load(width: usize, height: usize, depth: usize, pixels: &Vec<u8>) -> (r: Result<
        Texture,
        FormatError,
    >)
        ensures
            depth != 3 && depth != 4 ==> r == Err::<Texture, FormatError>(
                FormatError::UnsupportedPixelFormat,
            ),
            (depth == 3 || depth == 4) && pixels@.len() != width * height * depth ==> r == Err::<
                Texture,
                FormatError,
            >(FormatError::PixelCountMismatch),
            (depth == 3 || depth == 4) && pixels@.len() == width * height * depth ==> (r matches Ok(
                t,
            ) && {
                &&& t.wf()
                &&& t.gl_id == 0
                &&& t.width == width
                &&& t.height == height
                &&& t.depth == depth
                &&& t.data@ == unswizzled(
                    if depth == 3 {
                        PixelFormat::R8G8B8
                    } else {
                        PixelFormat::R8G8B8A8
                    },
                    pixels@,
                    width * height,
                )
            }),
    {
        let fmt = if depth == 3 {
            PixelFormat::R8G8B8
        } else if depth == 4 {
            PixelFormat::R8G8B8A8
        } else {
            return Err(FormatError::UnsupportedPixelFormat);
        };
        assert(fmt.channel_count() == depth && fmt.channel_bytes() == 1);
        assert(fmt.stride() == depth);
        let data = unswizzle_pixels(fmt, width as u64, height as u64, pixels)?;
        Ok(Texture { gl_id: 0, width, height, depth, data })
    }

    /// The process-wide fallback: one opaque white pixel.
    pub fn white() -> (t: Texture)
        ensures
            t.wf(),
            t.width == 1 && t.height == 1,
            t.data@ == seq![0xFFFF_FFFFu32],
    {
        let mut data: Vec<u32> = Vec::new();
        data.push(0xFFFF_FFFFu32);
        Texture { gl_id: 0, width: 1, height: 1, depth: 1, data }
    }
}

} // verus!

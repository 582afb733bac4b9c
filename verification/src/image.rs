//! Image layout: planes, strides and sizes.
use vstd::prelude::*;
use crate::types::{
    VX_DF_IMAGE_IYUV, VX_DF_IMAGE_NV12, VX_DF_IMAGE_NV21, VX_DF_IMAGE_RGB, VX_DF_IMAGE_RGBX,
    VX_DF_IMAGE_S16, VX_DF_IMAGE_S32, VX_DF_IMAGE_S8, VX_DF_IMAGE_U16, VX_DF_IMAGE_U32,
    VX_DF_IMAGE_U8, VX_DF_IMAGE_UYVY, VX_DF_IMAGE_YUV4, VX_DF_IMAGE_YUYV, vx_rectangle_t,
};

verus! {

/// The largest image allocation, in bytes.
pub const MAX_IMAGE_BYTES: usize = 1073741824;

/// An image as the runtime keeps it.
pub struct VxCImage {
    pub width: u32,
    pub height: u32,
    pub format: u32,
    pub is_virtual: bool,
    /// The owning context.
    pub context: u64,
    /// Pixel storage, plane after plane.
    pub data: Vec<u8>,
    /// The image this one is a region or channel of.
    pub parent: Option<u64>,
    /// Whether the pixels live in memory of the caller.
    pub is_external_memory: bool,
    /// The memory behind each plane of an external image, `0` where there is none.
    pub external_ptrs: Vec<u64>,
    /// Bytes from row to row, for each external plane.
    pub external_strides: Vec<i32>,
    /// Bytes from pixel to pixel, for each external plane.
    pub external_stride_x: Vec<i32>,
    pub external_dim_x: Vec<u32>,
    pub external_dim_y: Vec<u32>,
    /// Where a region starts in its parent, for each plane; empty for an image
    /// that is no region.
    pub roi_offsets: Vec<(usize, usize)>,
    /// Whether the image was created over caller memory (not inherited by sub-images).
    pub is_from_handle: bool,
    /// Where the plane of a channel image starts in the parent's storage.
    pub channel_plane_offset: usize,
    /// The plane of the parent that a channel image shows.
    pub parent_plane_index: Option<usize>,
    /// The part of the image that holds meaningful pixels.
    pub valid_rect: vx_rectangle_t,
}

/// Whether a format keeps luma in one plane and interleaved chroma in another.
pub open spec fn is_semi_planar(format: u32) -> bool {
    format == VX_DF_IMAGE_NV12 || format == VX_DF_IMAGE_NV21
}

/// Bytes of one pixel in the first plane.
pub open spec fn pixel_bytes(format: u32) -> nat {
    if format == VX_DF_IMAGE_U16 || format == VX_DF_IMAGE_S16 || format == VX_DF_IMAGE_UYVY
        || format == VX_DF_IMAGE_YUYV {
        2
    } else if format == VX_DF_IMAGE_U32 || format == VX_DF_IMAGE_S32 || format == VX_DF_IMAGE_RGBX {
        4
    } else if format == VX_DF_IMAGE_RGB || format == VX_DF_IMAGE_YUV4 {
        3
    } else {
        1
    }
}

/// Colour channels of a format.
pub open spec fn channel_count(format: u32) -> nat {
    if format == VX_DF_IMAGE_RGBX {
        4
    } else if format == VX_DF_IMAGE_RGB || planar(format) {
        3
    } else if format == VX_DF_IMAGE_UYVY || format == VX_DF_IMAGE_YUYV {
        2
    } else {
        1
    }
}

/// Whether a format spreads its channels over several planes.
pub open spec fn planar(format: u32) -> bool {
    is_semi_planar(format) || format == VX_DF_IMAGE_IYUV || format == VX_DF_IMAGE_YUV4
}

/// Planes of a format.
pub open spec fn plane_count(format: u32) -> nat {
    if is_semi_planar(format) {
        2
    } else if planar(format) {
        3
    } else {
        1
    }
}

/// Half of `n`, rounded up.
pub open spec fn half_up(n: nat) -> nat {
    (n + 1) / 2
}

/// Bytes of one plane.
pub open spec fn plane_bytes(width: u32, height: u32, format: u32, plane: nat) -> nat {
    let w = width as nat;
    let h = height as nat;
    if plane >= plane_count(format) {
        0
    } else if !planar(format) {
        w * h * pixel_bytes(format)
    } else if plane == 0 || format == VX_DF_IMAGE_YUV4 {
        w * h
    } else if h == 0 || w == 0 {
        0
    } else if is_semi_planar(format) {
        w * half_up(h)
    } else {
        half_up(w) * half_up(h)
    }
}

/// Bytes of the planes before `plane`.
pub open spec fn planes_before(width: u32, height: u32, format: u32, plane: nat) -> nat
    decreases plane,
{
    if plane == 0 {
        0
    } else {
        planes_before(width, height, format, (plane - 1) as nat) + plane_bytes(
            width,
            height,
            format,
            (plane - 1) as nat,
        )
    }
}

/// Whether a plane holds chroma at half the resolution of the image.
pub open spec fn subsampled(format: u32, plane: nat) -> bool {
    (is_semi_planar(format) && plane == 1) || (format == VX_DF_IMAGE_IYUV && (plane == 1 || plane
        == 2))
}

/// Width and height of a plane.  A four-four-four image answers for one index
/// past its last plane too.
pub open spec fn plane_extent(width: u32, height: u32, format: u32, plane: nat) -> (nat, nat) {
    if plane == 0 || (format == VX_DF_IMAGE_YUV4 && plane <= 3) {
        (width as nat, height as nat)
    } else if subsampled(format, plane) {
        (half_up(width as nat), half_up(height as nat))
    } else {
        (0, 0)
    }
}

/// Bytes from one element of a plane to the next.
pub open spec fn element_stride(format: u32, plane: nat) -> nat {
    if is_semi_planar(format) && plane == 1 {
        2
    } else if planar(format) {
        1
    } else {
        pixel_bytes(format)
    }
}

/// Bytes from one row of a plane to the next.
pub open spec fn row_stride(width: u32, height: u32, format: u32, plane: nat) -> nat {
    if is_semi_planar(format) && plane == 1 {
        width as nat
    } else {
        plane_extent(width, height, format, plane).0 * element_stride(format, plane)
    }
}

/// Bytes of a whole image.
pub open spec fn image_bytes(width: u32, height: u32, format: u32) -> nat {
    planes_before(width, height, format, plane_count(format))
}

/// Bytes to allocate for an image: nothing for one over the limit.
pub open spec fn image_size(width: u32, height: u32, format: u32) -> nat {
    if image_bytes(width, height, format) > MAX_IMAGE_BYTES {
        0
    } else {
        image_bytes(width, height, format)
    }
}

impl VxCImage {
    /// Finds the bytes that a pixel takes in one plane.
    pub fn bytes_per_pixel(format: u32) -> (r: usize)
        ensures
            r == pixel_bytes(format),
    {
        match format {
            VX_DF_IMAGE_U8 | VX_DF_IMAGE_S8 => 1,
            VX_DF_IMAGE_U16 | VX_DF_IMAGE_S16 => 2,
            VX_DF_IMAGE_U32 | VX_DF_IMAGE_S32 => 4,
            VX_DF_IMAGE_RGB => 3,
            VX_DF_IMAGE_RGBX => 4,
            VX_DF_IMAGE_NV12 | VX_DF_IMAGE_NV21 => 1,
            VX_DF_IMAGE_IYUV => 1,
            VX_DF_IMAGE_UYVY | VX_DF_IMAGE_YUYV => 2,
            VX_DF_IMAGE_YUV4 => 3,
            _ => 1,
        }
    }

    /// Finds how many channels a format has.
    pub fn channels(format: u32) -> (r: usize)
        ensures
            r == channel_count(format),
    {
        match format {
            VX_DF_IMAGE_U8 | VX_DF_IMAGE_S8 => 1,
            VX_DF_IMAGE_U16 | VX_DF_IMAGE_S16 => 1,
            VX_DF_IMAGE_U32 | VX_DF_IMAGE_S32 => 1,
            VX_DF_IMAGE_RGB => 3,
            VX_DF_IMAGE_RGBX => 4,
            VX_DF_IMAGE_NV12 | VX_DF_IMAGE_NV21 => 3,
            VX_DF_IMAGE_IYUV => 3,
            VX_DF_IMAGE_UYVY | VX_DF_IMAGE_YUYV => 2,
            VX_DF_IMAGE_YUV4 => 3,
            _ => 1,
        }
    }

    /// Whether the format keeps its channels in several planes.
    pub fn is_planar_format(format: u32) -> (r: bool)
        ensures
            r == planar(format),
    {
        match format {
            VX_DF_IMAGE_NV12 | VX_DF_IMAGE_NV21 | VX_DF_IMAGE_IYUV | VX_DF_IMAGE_YUV4 => true,
            _ => false,
        }
    }

    /// Number of planes of a format.
    pub fn num_planes(format: u32) -> (r: usize)
        ensures
            r == plane_count(format),
    {
        match format {
            VX_DF_IMAGE_NV12 | VX_DF_IMAGE_NV21 => 2,
            VX_DF_IMAGE_IYUV => 3,
            VX_DF_IMAGE_YUV4 => 3,
            _ => 1,
        }
    }

    /// Bytes of a plane; nothing for an empty image or a plane that is not there.
    pub fn plane_size(width: u32, height: u32, format: u32, plane_index: usize) -> (r: usize)
        requires
            plane_bytes(width, height, format, plane_index as nat) <= usize::MAX,
        ensures
            r == plane_bytes(width, height, format, plane_index as nat),
    {
        proof {
            lemma_plane_products(width, height);
        }
        if width == 0 || height == 0 {
            return 0;
        }
        let w = width as usize;
        let h = height as usize;
        match format {
            VX_DF_IMAGE_NV12 | VX_DF_IMAGE_NV21 => {
                if plane_index == 0 {
                    w * h
                } else if plane_index == 1 {
                    w * (h / 2 + h % 2)
                } else {
                    0
                }
            },
            VX_DF_IMAGE_IYUV => {
                let half_w: usize = w / 2 + w % 2;
                let half_h: usize = h / 2 + h % 2;
                if plane_index == 0 {
                    w * h
                } else if plane_index == 1 || plane_index == 2 {
                    half_w * half_h
                } else {
                    0
                }
            },
            VX_DF_IMAGE_YUV4 => {
                if plane_index < 3 {
                    w * h
                } else {
                    0
                }
            },
            _ => {
                if plane_index == 0 {
                    let bpp = Self::bytes_per_pixel(format);
                    proof {
                        lemma_factor_fits(w as nat * h as nat, bpp as nat);
                    }
                    w * h * bpp
                } else {
                    0
                }
            },
        }
    }

    /// Where a plane starts in the storage of an image.
    pub fn plane_offset(width: u32, height: u32, format: u32, plane_index: usize) -> (r: usize)
        requires
            planes_before(width, height, format, plane_index as nat) <= usize::MAX,
        ensures
            r == planes_before(width, height, format, plane_index as nat),
    {
        if plane_index == 0 {
            return 0;
        }
        let mut offset: usize = 0;
        for i in 0..plane_index
            invariant
                offset == planes_before(width, height, format, i as nat),
                planes_before(width, height, format, plane_index as nat) <= usize::MAX,
        {
            proof {
                lemma_planes_before_monotone(
                    width,
                    height,
                    format,
                    (i + 1) as nat,
                    plane_index as nat,
                );
            }
            let size = Self::plane_size(width, height, format, i);
            offset = offset + size;
        }
        offset
    }

    /// Width and height of a plane.
    pub fn plane_dimensions(width: u32, height: u32, format: u32, plane_index: usize) -> (r: (
        u32,
        u32,
    ))
        requires
            subsampled(format, plane_index as nat) ==> width < u32::MAX && height < u32::MAX,
        ensures
            (r.0 as nat, r.1 as nat) == plane_extent(width, height, format, plane_index as nat),
    {
        if plane_index == 0 {
            return (width, height);
        }
        match format {
            VX_DF_IMAGE_NV12 | VX_DF_IMAGE_NV21 => {
                if plane_index == 1 {
                    ((width + 1) / 2, (height + 1) / 2)
                } else {
                    (0, 0)
                }
            },
            VX_DF_IMAGE_IYUV => {
                if plane_index == 1 || plane_index == 2 {
                    ((width + 1) / 2, (height + 1) / 2)
                } else {
                    (0, 0)
                }
            },
            VX_DF_IMAGE_YUV4 => {
                if plane_index >= 1 && plane_index <= 3 {
                    (width, height)
                } else {
                    (0, 0)
                }
            },
            _ => (0, 0),
        }
    }

    /// Bytes from one element of a plane to the next: an interleaved chroma
    /// pair takes two, a planar sample one, a packed pixel its own size.
    pub fn plane_stride_x(format: u32, plane_index: usize) -> (r: usize)
        ensures
            r == element_stride(format, plane_index as nat),
    {
        match format {
            VX_DF_IMAGE_NV12 | VX_DF_IMAGE_NV21 => {
                if plane_index == 1 {
                    2
                } else {
                    1
                }
            },
            VX_DF_IMAGE_IYUV | VX_DF_IMAGE_YUV4 => 1,
            _ => Self::bytes_per_pixel(format),
        }
    }

    /// Bytes from one row of a plane to the next.  The interleaved chroma plane
    /// has rows as long as the luma plane.
    pub fn plane_row_stride(width: u32, height: u32, format: u32, plane_index: usize) -> (r: usize)
        requires
            subsampled(format, plane_index as nat) ==> width < u32::MAX && height < u32::MAX,
            row_stride(width, height, format, plane_index as nat) <= usize::MAX,
        ensures
            r == row_stride(width, height, format, plane_index as nat),
    {
        let (pw, _ph) = Self::plane_dimensions(width, height, format, plane_index);
        let stride_x = Self::plane_stride_x(format, plane_index);
        match format {
            VX_DF_IMAGE_NV12 | VX_DF_IMAGE_NV21 => {
                if plane_index == 1 {
                    width as usize
                } else {
                    pw as usize * stride_x
                }
            },
            _ => pw as usize * stride_x,
        }
    }

    /// Bytes of an image; nothing for an empty image or one over the limit.
    pub fn calculate_size(width: u32, height: u32, format: u32) -> (r: usize)
        ensures
            r == image_size(width, height, format),
    {
        let w: u128 = width as u128;
        let h: u128 = height as u128;
        let half_w: u128 = (w + 1) / 2;
        let half_h: u128 = (h + 1) / 2;
        proof {
            lemma_plane_products(width, height);
            lemma_area_fits(width, height);
            reveal_with_fuel(planes_before, 4);
        }
        if width == 0 || height == 0 {
            assert(image_bytes(width, height, format) == 0) by {
                assert(width == 0 ==> width as nat * height as nat * pixel_bytes(format) == 0)
                    by (nonlinear_arith);
                assert(height == 0 ==> width as nat * height as nat * pixel_bytes(format) == 0)
                    by (nonlinear_arith);
            }
            return 0;
        }
        let total: u128 = match format {
            VX_DF_IMAGE_NV12 | VX_DF_IMAGE_NV21 => w * h + w * half_h,
            VX_DF_IMAGE_IYUV => w * h + half_w * half_h + half_w * half_h,
            VX_DF_IMAGE_YUV4 => w * h + w * h + w * h,
            _ => {
                let bpp = Self::bytes_per_pixel(format);
                assert(w * h * bpp <= 4 * (0x1_0000_0000 * 0x1_0000_0000)) by (nonlinear_arith)
                    requires
                        w * h <= 0x1_0000_0000 * 0x1_0000_0000,
                        bpp <= 4,
                ;
                w * h * (bpp as u128)
            },
        };
        assert(total == image_bytes(width, height, format));
        if total > MAX_IMAGE_BYTES as u128 {
            return 0;
        }
        total as usize
    }
}

proof fn lemma_factor_fits(area: nat, bpp: nat)
    requires
        bpp >= 1,
    ensures
        area <= area * bpp,
{
    assert(area <= area * bpp) by (nonlinear_arith)
        requires
            bpp >= 1,
    ;
}

proof fn lemma_plane_products(width: u32, height: u32)
    ensures
        width == 0 ==> width as nat * height as nat == 0 && width as nat * half_up(height as nat)
            == 0,
        height == 0 ==> width as nat * height as nat == 0,
        half_up(width as nat) * half_up(height as nat) <= width as nat * half_up(height as nat),
        height > 0 ==> width as nat * half_up(height as nat) <= width as nat * height as nat,
{
    let w = width as nat;
    let h = height as nat;
    let hh = half_up(h);
    let hw = half_up(w);
    assert(w == 0 ==> w * h == 0 && w * hh == 0) by (nonlinear_arith);
    assert(h == 0 ==> w * h == 0) by (nonlinear_arith);
    assert(hw * hh <= w * hh) by (nonlinear_arith)
        requires
            hw <= w,
            hh >= 0,
    ;
    if h > 0 {
        assert(w * hh <= w * h) by (nonlinear_arith)
            requires
                hh <= h,
                w >= 0,
        ;
    }
}

proof fn lemma_area_fits(width: u32, height: u32)
    ensures
        width as nat * height as nat <= 0x1_0000_0000 * 0x1_0000_0000,
        width as nat * half_up(height as nat) <= 0x1_0000_0000 * 0x1_0000_0000,
        half_up(width as nat) * half_up(height as nat) <= 0x1_0000_0000 * 0x1_0000_0000,
{
    let w = width as nat;
    let h = height as nat;
    let hw = half_up(w);
    let hh = half_up(h);
    assert(w * h <= 0x1_0000_0000 * 0x1_0000_0000) by (nonlinear_arith)
        requires
            w <= 0x1_0000_0000,
            h <= 0x1_0000_0000,
    ;
    assert(w * hh <= 0x1_0000_0000 * 0x1_0000_0000) by (nonlinear_arith)
        requires
            w <= 0x1_0000_0000,
            hh <= 0x1_0000_0000,
    ;
    assert(hw * hh <= 0x1_0000_0000 * 0x1_0000_0000) by (nonlinear_arith)
        requires
            hw <= 0x1_0000_0000,
            hh <= 0x1_0000_0000,
    ;
}

proof fn lemma_planes_before_monotone(width: u32, height: u32, format: u32, a: nat, b: nat)
    requires
        a <= b,
    ensures
        planes_before(width, height, format, a) <= planes_before(width, height, format, b),
    decreases b,
{
    if a < b {
        lemma_planes_before_monotone(width, height, format, a, (b - 1) as nat);
    }
}

/// The planes of an image lie back to back: each starts where the one before it
/// ends, and together they fill the image.
pub proof fn law_planes_partition_image(width: u32, height: u32, format: u32, plane: nat)
    ensures
        planes_before(width, height, format, plane + 1) == planes_before(
            width,
            height,
            format,
            plane,
        ) + plane_bytes(width, height, format, plane),
        plane >= plane_count(format) ==> planes_before(width, height, format, plane)
            == image_bytes(width, height, format),
    decreases plane,
{
    if plane > plane_count(format) {
        law_planes_partition_image(width, height, format, (plane - 1) as nat);
    }
}

/// The rows of a plane, each one row stride long, fill the plane exactly.
pub proof fn law_rows_fill_plane(width: u32, height: u32, format: u32, plane: nat)
    requires
        plane < plane_count(format),
        width > 0,
        height > 0,
    ensures
        row_stride(width, height, format, plane) * plane_extent(width, height, format, plane).1
            == plane_bytes(width, height, format, plane),
{
    let w = width as nat;
    let h = height as nat;
    let b = pixel_bytes(format);
    assert((w * b) * h == w * h * b) by (nonlinear_arith);
    assert(w * 1 == w && half_up(w) * 1 == half_up(w));
}

/// How many bytes a pixel takes where its channels lie side by side, and how many
/// channels a format has: each byte of an RGB or RGBX pixel is a channel.
pub proof fn law_pixel_sizes()
    ensures
        pixel_bytes(VX_DF_IMAGE_U8) == 1 && channel_count(VX_DF_IMAGE_U8) == 1,
        pixel_bytes(VX_DF_IMAGE_U16) == 2 && channel_count(VX_DF_IMAGE_U16) == 1,
        pixel_bytes(VX_DF_IMAGE_S16) == 2 && channel_count(VX_DF_IMAGE_S16) == 1,
        pixel_bytes(VX_DF_IMAGE_U32) == 4 && channel_count(VX_DF_IMAGE_U32) == 1,
        pixel_bytes(VX_DF_IMAGE_S32) == 4 && channel_count(VX_DF_IMAGE_S32) == 1,
        pixel_bytes(VX_DF_IMAGE_RGB) == 3 && channel_count(VX_DF_IMAGE_RGB) == 3,
        pixel_bytes(VX_DF_IMAGE_RGBX) == 4 && channel_count(VX_DF_IMAGE_RGBX) == 4,
        pixel_bytes(VX_DF_IMAGE_UYVY) == 2 && channel_count(VX_DF_IMAGE_UYVY) == 2,
        pixel_bytes(VX_DF_IMAGE_YUYV) == 2 && channel_count(VX_DF_IMAGE_YUYV) == 2,
        pixel_bytes(VX_DF_IMAGE_NV12) == 1 && channel_count(VX_DF_IMAGE_NV12) == 3,
        pixel_bytes(VX_DF_IMAGE_NV21) == 1 && channel_count(VX_DF_IMAGE_NV21) == 3,
        pixel_bytes(VX_DF_IMAGE_IYUV) == 1 && channel_count(VX_DF_IMAGE_IYUV) == 3,
        pixel_bytes(VX_DF_IMAGE_YUV4) == 3 && channel_count(VX_DF_IMAGE_YUV4) == 3,
{
}

/// A packed image takes the bytes of its pixels; a four-four-four image takes three
/// bytes for each pixel; every other planar image one byte for each pixel and half
/// of that again for the colours, which lie in one plane or in two.
pub proof fn law_image_sizes(width: u32, height: u32, format: u32)
    ensures
        !planar(format) ==> plane_count(format) == 1 && image_bytes(width, height, format)
            == width * height * pixel_bytes(format),
        format == VX_DF_IMAGE_YUV4 ==> plane_count(format) == 3 && image_bytes(
            width,
            height,
            format,
        ) == 3 * (width * height),
        (format == VX_DF_IMAGE_NV12 || format == VX_DF_IMAGE_NV21 || format == VX_DF_IMAGE_IYUV)
            && width % 2 == 0 && height % 2 == 0 ==> 2 * image_bytes(width, height, format) == 3
            * (width * height),
        format == VX_DF_IMAGE_NV12 || format == VX_DF_IMAGE_NV21 ==> plane_count(format) == 2,
        format == VX_DF_IMAGE_IYUV ==> plane_count(format) == 3,
        planar(format) <==> plane_count(format) > 1,
{
    reveal_with_fuel(planes_before, 4);
    let w = width as int;
    let h = height as int;
    if format == VX_DF_IMAGE_NV12 || format == VX_DF_IMAGE_NV21 || format == VX_DF_IMAGE_IYUV {
        if width % 2 == 0 && height % 2 == 0 {
            let a = w / 2;
            let b = h / 2;
            assert(half_up(w as nat) == a && half_up(h as nat) == b);
            assert((2 * a) * (2 * b) == 4 * (a * b) && (2 * a) * b == 2 * (a * b))
                by (nonlinear_arith);
            assert(w == 2 * a && h == 2 * b);
            assert(w * h == 4 * (a * b));
            assert(w * b == 2 * (a * b));
            if w == 0 || h == 0 {
                assert(a * b == 0) by (nonlinear_arith)
                    requires
                        a == 0 || b == 0,
                ;
            }
        }
    }
    if format == VX_DF_IMAGE_YUV4 {
        assert(image_bytes(width, height, format) == w * h + w * h + w * h);
    }
}

/// A plane of brightness is as large as the image; a plane of colours in every
/// second column and row covers the image with two columns and rows for each of its
/// own, and the last may stick out.
pub proof fn law_plane_extents(width: u32, height: u32, format: u32, plane: nat)
    ensures
        plane_extent(width, height, format, 0) == (width as nat, height as nat),
        format == VX_DF_IMAGE_YUV4 && plane < 3 ==> plane_extent(width, height, format, plane) == (
            width as nat,
            height as nat,
        ),
        plane > 0 && plane < plane_count(format) && format != VX_DF_IMAGE_YUV4 ==> {
            let e = plane_extent(width, height, format, plane);
            &&& width <= 2 * e.0 <= width + 1
            &&& height <= 2 * e.1 <= height + 1
        },
        plane >= plane_count(format) && format != VX_DF_IMAGE_YUV4 ==> plane_extent(
            width,
            height,
            format,
            plane,
        ) == (0nat, 0nat),
{
}

/// Elements of a plane lie as far apart as they are long: a packed pixel, one byte
/// of a plane, or the two colours of an interleaved pair.
pub proof fn law_element_strides(format: u32)
    ensures
        !planar(format) ==> element_stride(format, 0) == pixel_bytes(format),
        format == VX_DF_IMAGE_NV12 || format == VX_DF_IMAGE_NV21 ==> element_stride(format, 0) == 1
            && element_stride(format, 1) == 2,
        format == VX_DF_IMAGE_IYUV || format == VX_DF_IMAGE_YUV4 ==> element_stride(format, 0) == 1
            && element_stride(format, 1) == 1 && element_stride(format, 2) == 1,
{
}

/// An image of up to a gibibyte gets all its bytes, a larger one none.
pub proof fn law_large_images_get_nothing(width: u32, height: u32, format: u32)
    ensures
        image_bytes(width, height, format) <= 0x4000_0000 ==> image_size(width, height, format)
            == image_bytes(width, height, format),
        image_bytes(width, height, format) > 0x4000_0000 ==> image_size(width, height, format) == 0,
{
}

} // verus!

//! Setting every pixel of an image to one value, and finding a pixel in memory.
use vstd::prelude::*;
use crate::image::VxCImage;
use crate::types::{
    VX_DF_IMAGE_IYUV, VX_DF_IMAGE_NV12, VX_DF_IMAGE_NV21, VX_DF_IMAGE_RGB, VX_DF_IMAGE_RGBX,
    VX_DF_IMAGE_S16, VX_DF_IMAGE_S32, VX_DF_IMAGE_U16, VX_DF_IMAGE_U32, VX_DF_IMAGE_U8,
    VX_DF_IMAGE_UYVY, VX_DF_IMAGE_YUV4, VX_DF_IMAGE_YUYV, VX_ERROR_INVALID_PARAMETERS,
    VX_ERROR_INVALID_REFERENCE, VX_SUCCESS, vx_imagepatch_addressing_t, vx_pixel_value_t,
    vx_status,
};
use std::collections::HashMap;

verus! {

broadcast use vstd::std_specs::hash::group_hash_axioms;

/// How scales are written: this stands for one.
pub const VX_SCALE_UNITY: i128 = 1024;

/// The bytes from `from` to just before `to` made of copies of a tile, as many
/// as fit whole; all other bytes stay.
pub open spec fn tiled(data: Seq<u8>, from: int, to: int, tile: Seq<u8>) -> Seq<u8> {
    Seq::new(
        data.len(),
        |i: int|
            if from <= i < from + (to - from) / (tile.len() as int) * tile.len() {
                tile[(i - from) % (tile.len() as int)]
            } else {
                data[i]
            },
    )
}

/// Fills a stretch with copies of a tile.
pub fn fill_tiles(data: &mut Vec<u8>, from: usize, to: usize, tile: &Vec<u8>)
    requires
        from <= to <= old(data)@.len(),
        tile@.len() > 0,
    ensures
        final(data)@ == tiled(old(data)@, from as int, to as int, tile@),
{
    let n = tile.len();
    proof {
        let k = (to - from) / (n as int);
        assert(0 <= k * n <= to - from) by (nonlinear_arith)
            requires
                n > 0,
                to >= from,
                k == (to - from) / (n as int),
        ;
    }
    let whole: usize = (to - from) / n * n;
    let end: usize = from + whole;
    for i in from..end
        invariant
            n == tile@.len(),
            n > 0,
            from <= end <= data@.len(),
            data@.len() == old(data)@.len(),
            forall|j: int| from <= j < i ==> data@[j] == tile@[(j - from) % (n as int)],
            forall|j: int| 0 <= j < from || i <= j < data@.len() ==> data@[j] == old(data)@[j],
    {
        data.set(i, tile[(i - from) % n]);
    }
    assert(data@ =~= tiled(old(data)@, from as int, to as int, tile@));
}

/// The tile of a format without planes.
pub open spec fn pixel_tile(format: u32, v: vx_pixel_value_t) -> Seq<u8> {
    if format == VX_DF_IMAGE_U16 || format == VX_DF_IMAGE_S16 {
        seq![v.b0, v.b1]
    } else if format == VX_DF_IMAGE_U32 || format == VX_DF_IMAGE_S32 || format == VX_DF_IMAGE_RGBX {
        seq![v.b0, v.b1, v.b2, v.b3]
    } else if format == VX_DF_IMAGE_RGB {
        seq![v.b0, v.b1, v.b2]
    } else if format == VX_DF_IMAGE_UYVY {
        seq![v.b1, v.b0, v.b2, v.b0]
    } else if format == VX_DF_IMAGE_YUYV {
        seq![v.b0, v.b1, v.b0, v.b2]
    } else {
        seq![v.b0]
    }
}

/// The pixels of an image.
pub open spec fn area(width: u32, height: u32) -> int {
    width * height
}

/// The pixels of a plane of half the width and height.
pub open spec fn quarter(width: u32, height: u32) -> int {
    ((width + 1) / 2) * ((height + 1) / 2)
}

/// Three stretches one after the other, each of one byte.
pub open spec fn three_planes(data: Seq<u8>, first: int, rest: int, v: vx_pixel_value_t) -> Seq<u8> {
    tiled(
        tiled(tiled(data, 0, first, seq![v.b0]), first, first + rest, seq![v.b1]),
        first + rest,
        first + 2 * rest,
        seq![v.b2],
    )
}

/// The storage of an image with every pixel set to one value.  A planar image
/// whose storage is too short stays as it is.
pub open spec fn painted(
    format: u32,
    width: u32,
    height: u32,
    data: Seq<u8>,
    v: vx_pixel_value_t,
) -> Seq<u8> {
    let luma = area(width, height);
    let chroma = quarter(width, height);
    let size = data.len() as int;
    if format == VX_DF_IMAGE_NV12 {
        if size < luma {
            data
        } else {
            tiled(tiled(data, 0, luma, seq![v.b0]), luma, size, seq![v.b1, v.b2])
        }
    } else if format == VX_DF_IMAGE_NV21 {
        if size < luma {
            data
        } else {
            tiled(tiled(data, 0, luma, seq![v.b0]), luma, size, seq![v.b2, v.b1])
        }
    } else if format == VX_DF_IMAGE_IYUV {
        if size < luma + 2 * chroma {
            data
        } else {
            three_planes(data, luma, chroma, v)
        }
    } else if format == VX_DF_IMAGE_YUV4 {
        if size < 3 * luma {
            data
        } else {
            three_planes(data, luma, luma, v)
        }
    } else {
        tiled(data, 0, size, pixel_tile(format, v))
    }
}

/// Whether the plane sizes of an image can be counted.
pub open spec fn countable(format: u32, width: u32, height: u32) -> bool {
    if format == VX_DF_IMAGE_NV12 || format == VX_DF_IMAGE_NV21 {
        area(width, height) <= usize::MAX
    } else if format == VX_DF_IMAGE_IYUV {
        area(width, height) + 2 * quarter(width, height) <= usize::MAX
    } else if format == VX_DF_IMAGE_YUV4 {
        3 * area(width, height) <= usize::MAX
    } else {
        true
    }
}

/// Fills three stretches one after the other, each with one byte.
fn fill_three(data: &mut Vec<u8>, first: usize, rest: usize, v: vx_pixel_value_t)
    requires
        first + 2 * rest <= old(data)@.len(),
    ensures
        final(data)@ == three_planes(old(data)@, first as int, rest as int, v),
{
    let y: Vec<u8> = vec![v.b0];
    let u: Vec<u8> = vec![v.b1];
    let w: Vec<u8> = vec![v.b2];
    assert(y@ =~= seq![v.b0]);
    assert(u@ =~= seq![v.b1]);
    assert(w@ =~= seq![v.b2]);
    assert(data@.len() == data.len());
    fill_tiles(data, 0, first, &y);
    fill_tiles(data, first, first + rest, &u);
    fill_tiles(data, first + rest, first + 2 * rest, &w);
}

/// Sets every pixel of an image's own storage.
pub fn paint(data: &mut Vec<u8>, format: u32, width: u32, height: u32, v: vx_pixel_value_t)
    requires
        countable(format, width, height),
    ensures
        final(data)@ == painted(format, width, height, old(data)@, v),
{
    assert(0 <= area(width, height)) by (nonlinear_arith)
        requires
            area(width, height) == width * height,
    ;
    assert(0 <= quarter(width, height)) by (nonlinear_arith)
        requires
            quarter(width, height) == ((width + 1) / 2) * ((height + 1) / 2),
    ;
    let size = data.len();
    match format {
        VX_DF_IMAGE_NV12 | VX_DF_IMAGE_NV21 => {
            let luma: usize = (width as usize) * (height as usize);
            if size >= luma {
                let y: Vec<u8> = vec![v.b0];
                assert(y@ =~= seq![v.b0]);
                fill_tiles(data, 0, luma, &y);
                if format == VX_DF_IMAGE_NV12 {
                    let uv: Vec<u8> = vec![v.b1, v.b2];
                    assert(uv@ =~= seq![v.b1, v.b2]);
                    fill_tiles(data, luma, size, &uv);
                } else {
                    let vu: Vec<u8> = vec![v.b2, v.b1];
                    assert(vu@ =~= seq![v.b2, v.b1]);
                    fill_tiles(data, luma, size, &vu);
                }
            }
        },
        VX_DF_IMAGE_IYUV => {
            let luma: usize = (width as usize) * (height as usize);
            let columns: usize = ((width as u64 + 1) / 2) as usize;
            let rows: usize = ((height as u64 + 1) / 2) as usize;
            let chroma: usize = columns * rows;
            if size >= luma + 2 * chroma {
                fill_three(data, luma, chroma, v);
            }
        },
        VX_DF_IMAGE_YUV4 => {
            let plane: usize = (width as usize) * (height as usize);
            if size >= 3 * plane {
                fill_three(data, plane, plane, v);
            }
        },
        _ => {
            let tile: Vec<u8> = match format {
                VX_DF_IMAGE_U16 | VX_DF_IMAGE_S16 => vec![v.b0, v.b1],
                VX_DF_IMAGE_U32 | VX_DF_IMAGE_S32 | VX_DF_IMAGE_RGBX => vec![
                    v.b0, v.b1, v.b2, v.b3,
                ],
                VX_DF_IMAGE_RGB => vec![v.b0, v.b1, v.b2],
                VX_DF_IMAGE_UYVY => vec![v.b1, v.b0, v.b2, v.b0],
                VX_DF_IMAGE_YUYV => vec![v.b0, v.b1, v.b0, v.b2],
                _ => vec![v.b0],
            };
            assert(tile@ =~= pixel_tile(format, v));
            fill_tiles(data, 0, size, &tile);
        },
    }
}

/// Where a pixel lies.
pub open spec fn spot(x: int, y: int, stride_x: int, stride_y: int) -> int {
    y * stride_y + x * stride_x
}

/// The bytes of a pixel of a plane.  Neighbours in a format that shares its colours
/// between two pixels have one colour each.
pub open spec fn plane_pixel(format: u32, plane: nat, x: int, v: vx_pixel_value_t) -> Seq<u8> {
    if crate::image::planar(format) {
        if format == VX_DF_IMAGE_NV12 && plane == 1 {
            seq![v.b1, v.b2]
        } else if format == VX_DF_IMAGE_NV21 && plane == 1 {
            seq![v.b2, v.b1]
        } else if plane == 1 {
            seq![v.b1]
        } else if plane == 2 {
            seq![v.b2]
        } else {
            seq![v.b0]
        }
    } else if format == VX_DF_IMAGE_UYVY || format == VX_DF_IMAGE_YUYV {
        let pair = pixel_tile(format, v);
        if x % 2 == 0 {
            pair.take(2)
        } else {
            pair.skip(2)
        }
    } else {
        pixel_tile(format, v)
    }
}

/// Works out the bytes of a pixel of a plane, in an even or an odd column.
fn find_plane_pixel(format: u32, plane: usize, odd: bool, v: vx_pixel_value_t) -> (r: Vec<u8>)
    ensures
        forall|x: int| (x % 2 == 1) == odd ==> r@ == #[trigger] plane_pixel(
            format,
            plane as nat,
            x,
            v,
        ),
{
    let r: Vec<u8> = match format {
        VX_DF_IMAGE_NV12 if plane == 1 => vec![v.b1, v.b2],
        VX_DF_IMAGE_NV21 if plane == 1 => vec![v.b2, v.b1],
        VX_DF_IMAGE_NV12 | VX_DF_IMAGE_NV21 | VX_DF_IMAGE_IYUV | VX_DF_IMAGE_YUV4 => if plane == 1 {
            vec![v.b1]
        } else if plane == 2 {
            vec![v.b2]
        } else {
            vec![v.b0]
        },
        VX_DF_IMAGE_U16 | VX_DF_IMAGE_S16 => vec![v.b0, v.b1],
        VX_DF_IMAGE_U32 | VX_DF_IMAGE_S32 | VX_DF_IMAGE_RGBX => vec![v.b0, v.b1, v.b2, v.b3],
        VX_DF_IMAGE_RGB => vec![v.b0, v.b1, v.b2],
        VX_DF_IMAGE_UYVY => if odd {
            vec![v.b2, v.b0]
        } else {
            vec![v.b1, v.b0]
        },
        VX_DF_IMAGE_YUYV => if odd {
            vec![v.b0, v.b2]
        } else {
            vec![v.b0, v.b1]
        },
        _ => vec![v.b0],
    };
    assert forall|x: int| (x % 2 == 1) == odd implies r@ == #[trigger] plane_pixel(
        format,
        plane as nat,
        x,
        v,
    ) by {
        assert(r@ =~= plane_pixel(format, plane as nat, x, v));
    }
    r
}

/// Memory with some bytes put in at a place.
pub open spec fn put_at(memory: Seq<u8>, at: int, bytes: Seq<u8>) -> Seq<u8> {
    Seq::new(
        memory.len(),
        |o: int|
            if at <= o < at + bytes.len() {
                bytes[o - at]
            } else {
                memory[o]
            },
    )
}

/// How the pixels of a plane lie in memory.
#[verifier::ext_equal]
pub struct Grid {
    pub width: int,
    pub height: int,
    pub stride_x: int,
    pub stride_y: int,
}

/// The memory of a plane with the first pixels of a row set, one after the other.
pub open spec fn row_set(
    memory: Seq<u8>,
    g: Grid,
    y: int,
    columns: nat,
    format: u32,
    plane: nat,
    v: vx_pixel_value_t,
) -> Seq<u8>
    decreases columns,
{
    if columns == 0 {
        memory
    } else {
        put_at(
            row_set(memory, g, y, (columns - 1) as nat, format, plane, v),
            spot(columns - 1, y, g.stride_x, g.stride_y),
            plane_pixel(format, plane, columns - 1, v),
        )
    }
}

/// The memory of a plane with every pixel of the first rows set, one row after the
/// other.
pub open spec fn rows_set(
    memory: Seq<u8>,
    g: Grid,
    rows: nat,
    format: u32,
    plane: nat,
    v: vx_pixel_value_t,
) -> Seq<u8>
    decreases rows,
{
    if rows == 0 {
        memory
    } else {
        row_set(
            rows_set(memory, g, (rows - 1) as nat, format, plane, v),
            g,
            rows - 1,
            g.width as nat,
            format,
            plane,
            v,
        )
    }
}

/// Whether every pixel of a plane lies in its memory.
pub open spec fn in_memory(memory: Seq<u8>, g: Grid, bytes: int) -> bool {
    g.width > 0 && g.height > 0 ==> spot(g.width - 1, g.height - 1, g.stride_x, g.stride_y) + bytes
        <= memory.len()
}

/// Puts some bytes in at a place.
fn put(memory: &mut Vec<u8>, at: usize, bytes: &Vec<u8>)
    requires
        at + bytes@.len() <= old(memory)@.len(),
    ensures
        final(memory)@ == put_at(old(memory)@, at as int, bytes@),
{
    let ghost base = memory@;
    assert(memory@.len() == memory.len());
    for k in 0..bytes.len()
        invariant
            memory@.len() == base.len(),
            at + bytes@.len() <= base.len(),
            base.len() <= usize::MAX,
            forall|o: int|
                0 <= o < base.len() ==> #[trigger] memory@[o] == if at <= o < at + k {
                    bytes@[o - at]
                } else {
                    base[o]
                },
    {
        memory.set(at + k, bytes[k]);
    }
    assert(memory@ =~= put_at(base, at as int, bytes@));
}

/// Sets every pixel of a plane.
pub fn fill_pixels(
    memory: &mut Vec<u8>,
    width: u32,
    height: u32,
    stride_x: usize,
    stride_y: usize,
    format: u32,
    plane: usize,
    v: vx_pixel_value_t,
)
    requires
        in_memory(
            old(memory)@,
            (Grid {
                width: width as int,
                height: height as int,
                stride_x: stride_x as int,
                stride_y: stride_y as int,
            }),
            crate::image::element_stride(format, plane as nat) as int,
        ),
    ensures
        final(memory)@ == rows_set(
            old(memory)@,
            (Grid {
                width: width as int,
                height: height as int,
                stride_x: stride_x as int,
                stride_y: stride_y as int,
            }),
            height as nat,
            format,
            plane as nat,
            v,
        ),
{
    let ghost base = memory@;
    let ghost g = Grid {
        width: width as int,
        height: height as int,
        stride_x: stride_x as int,
        stride_y: stride_y as int,
    };
    let ghost size = crate::image::element_stride(format, plane as nat) as int;
    let even = find_plane_pixel(format, plane, false, v);
    let odd = find_plane_pixel(format, plane, true, v);
    proof {
        assert(plane_pixel(format, plane as nat, 0, v).len() == size);
        assert(plane_pixel(format, plane as nat, 1, v).len() == size);
    }
    assert(memory@.len() == memory.len());
    for y in 0..height
        invariant
            g == (Grid {
                width: width as int,
                height: height as int,
                stride_x: stride_x as int,
                stride_y: stride_y as int,
            }),
            memory@.len() == base.len(),
            base.len() <= usize::MAX,
            in_memory(base, g, size),
            even@.len() == size,
            odd@.len() == size,
            forall|x: int| x % 2 == 0 ==> even@ == #[trigger] plane_pixel(
                format,
                plane as nat,
                x,
                v,
            ),
            forall|x: int| x % 2 == 1 ==> odd@ == #[trigger] plane_pixel(
                format,
                plane as nat,
                x,
                v,
            ),
            memory@ == rows_set(base, g, y as nat, format, plane as nat, v),
    {
        let ghost before = memory@;
        for x in 0..width
            invariant
                g == (Grid {
                    width: width as int,
                    height: height as int,
                    stride_x: stride_x as int,
                    stride_y: stride_y as int,
                }),
                y < height,
                memory@.len() == base.len(),
                base.len() <= usize::MAX,
                in_memory(base, g, size),
                even@.len() == size,
                odd@.len() == size,
                forall|x: int| x % 2 == 0 ==> even@ == #[trigger] plane_pixel(
                    format,
                    plane as nat,
                    x,
                    v,
                ),
                forall|x: int| x % 2 == 1 ==> odd@ == #[trigger] plane_pixel(
                    format,
                    plane as nat,
                    x,
                    v,
                ),
                memory@ == row_set(before, g, y as int, x as nat, format, plane as nat, v),
        {
            proof {
                lemma_spot_inside(x as int, y as int, g, size, base);
            }
            let offset: usize = (y as usize) * stride_y + (x as usize) * stride_x;
            if x % 2 == 1 {
                put(memory, offset, &odd);
            } else {
                put(memory, offset, &even);
            }
        }
    }
}

proof fn lemma_spot_inside(x: int, y: int, g: Grid, bytes: int, memory: Seq<u8>)
    requires
        0 <= x < g.width,
        0 <= y < g.height,
        g.stride_x >= 0,
        g.stride_y >= 0,
        bytes >= 0,
        in_memory(memory, g, bytes),
    ensures
        0 <= y * g.stride_y <= memory.len(),
        0 <= x * g.stride_x <= memory.len(),
        0 <= spot(x, y, g.stride_x, g.stride_y) <= memory.len() - bytes,
{
    assert(0 <= y * g.stride_y <= (g.height - 1) * g.stride_y) by (nonlinear_arith)
        requires
            0 <= y <= g.height - 1,
            g.stride_y >= 0,
    ;
    assert(0 <= x * g.stride_x <= (g.width - 1) * g.stride_x) by (nonlinear_arith)
        requires
            0 <= x <= g.width - 1,
            g.stride_x >= 0,
    ;
}

/// A stride read as a distance: a negative one wraps round.
pub open spec fn distance(stride: i32) -> int {
    if stride < 0 {
        stride + usize::MAX + 1
    } else {
        stride as int
    }
}

/// Reads a stride as a distance.
fn to_distance(stride: i32) -> (r: usize)
    ensures
        r == distance(stride),
{
    if stride < 0 {
        usize::MAX - ((-1 - stride) as usize)
    } else {
        stride as usize
    }
}

/// The extent of a plane in the caller's memory.
pub open spec fn outer_extent(img: VxCImage, plane: nat) -> (nat, nat) {
    if crate::image::planar(img.format) {
        crate::image::plane_extent(img.width, img.height, img.format, plane)
    } else {
        (img.width as nat, img.height as nat)
    }
}

/// The distance from row to row in the caller's memory.
pub open spec fn outer_stride_y(img: VxCImage, plane: nat) -> int {
    if plane < img.external_strides@.len() {
        distance(img.external_strides@[plane as int])
    } else if crate::image::is_semi_planar(img.format) && plane == 1 {
        (outer_extent(img, plane).0 * 2) as int
    } else {
        (outer_extent(img, plane).0 * crate::image::pixel_bytes(img.format)) as int
    }
}

/// The distance from pixel to pixel in the caller's memory.
pub open spec fn outer_stride_x(img: VxCImage, plane: nat) -> int {
    if plane < img.external_stride_x@.len() && img.external_stride_x@[plane as int] > 0 {
        img.external_stride_x@[plane as int] as int
    } else {
        crate::image::element_stride(img.format, plane) as int
    }
}

/// How the pixels of a plane lie in the caller's memory.
pub open spec fn outer_grid(img: VxCImage, plane: nat) -> Grid {
    Grid {
        width: outer_extent(img, plane).0 as int,
        height: outer_extent(img, plane).1 as int,
        stride_x: outer_stride_x(img, plane),
        stride_y: outer_stride_y(img, plane),
    }
}

/// Whether a plane has memory of the caller.
pub open spec fn has_memory(img: VxCImage, plane: nat) -> bool {
    plane < img.external_ptrs@.len() && img.external_ptrs@[plane as int] != 0
}

/// The memory of a plane after every pixel was set to one value.
pub open spec fn outer_painted(img: VxCImage, plane: nat, memory: Seq<u8>, v: vx_pixel_value_t) -> Seq<
    u8,
> {
    if plane < crate::image::plane_count(img.format) && has_memory(img, plane) {
        rows_set(
            memory,
            outer_grid(img, plane),
            outer_extent(img, plane).1,
            img.format,
            plane,
            v,
        )
    } else {
        memory
    }
}

/// Whether the caller's memory holds every pixel of an image.
pub open spec fn memory_fits(img: VxCImage, memory: Seq<Vec<u8>>) -> bool {
    forall|p: nat|
        #![trigger has_memory(img, p)]
        p < crate::image::plane_count(img.format) && has_memory(img, p) ==> {
            &&& crate::image::subsampled(img.format, p) ==> img.width < u32::MAX && img.height
                < u32::MAX
            &&& p < memory.len()
            &&& outer_stride_y(img, p) <= usize::MAX
            &&& in_memory(
                memory[p as int]@,
                outer_grid(img, p),
                crate::image::element_stride(img.format, p) as int,
            )
        }
}

/// Sets every pixel of an image in the caller's memory.
pub fn paint_outside(img: &VxCImage, memory: &mut Vec<Vec<u8>>, v: vx_pixel_value_t)
    requires
        memory_fits(*img, old(memory)@),
    ensures
        final(memory)@.len() == old(memory)@.len(),
        forall|p: nat|
            p < old(memory)@.len() ==> (#[trigger] final(memory)@[p as int])@ == outer_painted(
                *img,
                p,
                old(memory)@[p as int]@,
                v,
            ),
{
    let planes = VxCImage::num_planes(img.format);
    let is_planar = VxCImage::is_planar_format(img.format);
    let ghost base = memory@;
    for plane in 0..planes
        invariant
            planes == crate::image::plane_count(img.format),
            is_planar == crate::image::planar(img.format),
            memory_fits(*img, base),
            memory@.len() == base.len(),
            forall|p: int|
                0 <= p < base.len() ==> (#[trigger] memory@[p])@ == if p < plane {
                    outer_painted(*img, p as nat, base[p]@, v)
                } else {
                    base[p]@
                },
    {
        let ghost p = plane as nat;
        if plane < img.external_ptrs.len() && img.external_ptrs[plane] != 0 {
            assert(has_memory(*img, p));
            let (pw, ph) = if is_planar {
                VxCImage::plane_dimensions(img.width, img.height, img.format, plane)
            } else {
                (img.width, img.height)
            };
            let bytes: usize = if is_planar && plane == 1 && img.format != VX_DF_IMAGE_IYUV
                && img.format != VX_DF_IMAGE_YUV4 {
                2
            } else {
                VxCImage::bytes_per_pixel(img.format)
            };
            proof {
                assert((pw as nat, ph as nat) == outer_extent(*img, p));
                assert(plane >= img.external_strides@.len() ==> pw * bytes == outer_stride_y(
                    *img,
                    p,
                ));
            }
            let stride_y: usize = if plane < img.external_strides.len() {
                to_distance(img.external_strides[plane])
            } else {
                (pw as usize) * bytes
            };
            let stride_x: usize = if plane < img.external_stride_x.len()
                && img.external_stride_x[plane] > 0 {
                img.external_stride_x[plane] as usize
            } else {
                VxCImage::plane_stride_x(img.format, plane)
            };
            let ghost before = memory@;
            assert(memory@[plane as int]@ == base[plane as int]@);
            fill_pixels(&mut memory[plane], pw, ph, stride_x, stride_y, img.format, plane, v);
            assert(memory@[plane as int]@ == outer_painted(*img, p, base[plane as int]@, v));
            assert(forall|q: int|
                0 <= q < base.len() && q != plane ==> #[trigger] memory@[q] == before[q]);
        }
    }
}

/// Sets every pixel of an image.  `None` stands for a null value; `memory` is
/// the memory that the caller put behind the planes of the image, if any.
pub fn vxSetImagePixelValues(
    images: &mut HashMap<u64, VxCImage>,
    memory: &mut Vec<Vec<u8>>,
    image: u64,
    value: Option<vx_pixel_value_t>,
) -> (status: vx_status)
    requires
        image != 0 && value is Some ==> {
            &&& old(images)@.contains_key(image)
            &&& if old(images)@[image].is_external_memory {
                memory_fits(old(images)@[image], old(memory)@)
            } else {
                countable(
                    old(images)@[image].format,
                    old(images)@[image].width,
                    old(images)@[image].height,
                )
            }
        },
    ensures
        status == if image == 0 {
            VX_ERROR_INVALID_REFERENCE
        } else if value is None {
            VX_ERROR_INVALID_PARAMETERS
        } else {
            VX_SUCCESS
        },
        final(memory)@.len() == old(memory)@.len(),
        ({
            let img = old(images)@[image];
            if status != VX_SUCCESS {
                final(images)@ == old(images)@ && final(memory)@ == old(memory)@
            } else if img.is_external_memory {
                &&& final(images)@ == old(images)@
                &&& forall|p: nat|
                    p < old(memory)@.len() ==> (#[trigger] final(memory)@[p as int])@
                        == outer_painted(img, p, old(memory)@[p as int]@, value->0)
            } else {
                &&& final(memory)@ == old(memory)@
                &&& final(images)@.dom() == old(images)@.dom()
                &&& final(images)@.remove(image) == old(images)@.remove(image)
                &&& final(images)@[image] == (VxCImage {
                    data: final(images)@[image].data,
                    ..img
                })
                &&& final(images)@[image].data@ == painted(
                    img.format,
                    img.width,
                    img.height,
                    img.data@,
                    value->0,
                )
            }
        }),
{
    if image == 0 {
        return VX_ERROR_INVALID_REFERENCE;
    }
    let v = match value {
        Some(v) => v,
        None => return VX_ERROR_INVALID_PARAMETERS,
    };
    let mut img = match images.remove(&image) {
        Some(i) => i,
        None => return VX_SUCCESS,
    };
    if img.is_external_memory {
        paint_outside(&img, memory, v);
        images.insert(image, img);
        assert(images@ =~= old(images)@);
        return VX_SUCCESS;
    }
    let format = img.format;
    let width = img.width;
    let height = img.height;
    paint(&mut img.data, format, width, height, v);
    images.insert(image, img);
    proof {
        assert(images@.dom() =~= old(images)@.dom());
        assert(images@.remove(image) =~= old(images)@.remove(image));
    }
    VX_SUCCESS
}

/// How far a pixel lies from the start of a patch, in bytes.
pub open spec fn patch_offset(
    stride_x: i32,
    stride_y: i32,
    scale_x: u32,
    scale_y: u32,
    x: u32,
    y: u32,
) -> int {
    stride_y * (scale_y * y / 1024) + stride_x * (scale_x * x / 1024)
}

/// Works out how far a pixel lies from the start of a patch.
fn compute_offset(
    stride_x: i32,
    stride_y: i32,
    scale_x: u32,
    scale_y: u32,
    x: u32,
    y: u32,
) -> (r: i128)
    ensures
        r == patch_offset(stride_x, stride_y, scale_x, scale_y, x, y),
        -0x1_0000_0000_0000_0000_0000_0000 < r < 0x1_0000_0000_0000_0000_0000_0000,
{
    proof {
        lemma_scaled(stride_y, scale_y, y);
        lemma_scaled(stride_x, scale_x, x);
    }
    let rows: i128 = scale_y as i128 * y as i128 / VX_SCALE_UNITY;
    let columns: i128 = scale_x as i128 * x as i128 / VX_SCALE_UNITY;
    stride_y as i128 * rows + stride_x as i128 * columns
}

proof fn lemma_scaled(stride: i32, scale: u32, n: u32)
    ensures
        0 <= scale * n < 0x1_0000_0000_0000_0000,
        0 <= scale * n / 1024 < 0x40_0000_0000_0000,
        -0x2000_0000_0000_0000_0000_0000 <= stride * (scale * n / 1024)
            < 0x2000_0000_0000_0000_0000_0000,
{
    assert(0 <= scale * n < 0x1_0000_0000_0000_0000) by (nonlinear_arith)
        requires
            0 <= scale < 0x1_0000_0000,
            0 <= n < 0x1_0000_0000,
    ;
    let k = scale * n / 1024;
    assert(0 <= k < 0x40_0000_0000_0000);
    assert(-0x2000_0000_0000_0000_0000_0000 <= stride * k < 0x2000_0000_0000_0000_0000_0000)
        by (nonlinear_arith)
        requires
            0 <= k < 0x40_0000_0000_0000,
            -0x8000_0000 <= stride < 0x8000_0000,
    ;
}

/// The address of pixel `(x, y)` of a patch at `ptr`; null where the patch or
/// its layout is missing.
pub fn vxFormatImagePatchAddress2d(
    ptr: u64,
    x: u32,
    y: u32,
    addr: Option<vx_imagepatch_addressing_t>,
) -> (r: u64)
    requires
        ptr != 0 && addr is Some ==> 0 <= ptr + patch_offset(
            addr->0.stride_x,
            addr->0.stride_y,
            addr->0.scale_x,
            addr->0.scale_y,
            x,
            y,
        ) <= u64::MAX,
    ensures
        r == if ptr == 0 || addr is None {
            0
        } else {
            ptr + patch_offset(
                addr->0.stride_x,
                addr->0.stride_y,
                addr->0.scale_x,
                addr->0.scale_y,
                x,
                y,
            )
        },
{
    if ptr == 0 {
        return 0;
    }
    match addr {
        Some(a) => {
            let offset: i128 = compute_offset(
                a.stride_x,
                a.stride_y,
                a.scale_x,
                a.scale_y,
                x,
                y,
            );
            (ptr as i128 + offset) as u64
        },
        None => 0,
    }
}

/// A scale, one where none is given.
pub open spec fn scale_or_one(scale: u32) -> u32 {
    if scale == 0 {
        1024
    } else {
        scale
    }
}

/// The width of a patch, one where none is given.
pub open spec fn width_or_one(dim_x: u32) -> u32 {
    if dim_x == 0 {
        1
    } else {
        dim_x
    }
}

/// How far the pixel with an index lies from the start of a patch, counting row
/// after row.
pub open spec fn index_offset(a: vx_imagepatch_addressing_t, index: u32) -> int {
    patch_offset(
        a.stride_x,
        a.stride_y,
        scale_or_one(a.scale_x),
        scale_or_one(a.scale_y),
        index % width_or_one(a.dim_x),
        index / width_or_one(a.dim_x),
    )
}

/// The address of the pixel with an index in a patch at `ptr`, counting row
/// after row; null where the patch or its layout is missing.
pub fn vxFormatImagePatchAddress1d(
    ptr: u64,
    index: u32,
    addr: Option<vx_imagepatch_addressing_t>,
) -> (r: u64)
    requires
        ptr != 0 && addr is Some ==> 0 <= ptr + index_offset(addr->0, index) <= u64::MAX,
    ensures
        r == if ptr == 0 || addr is None {
            0
        } else {
            ptr + index_offset(addr->0, index)
        },
{
    if ptr == 0 {
        return 0;
    }
    match addr {
        Some(a) => {
            let dim_x: u32 = if a.dim_x == 0 {
                1
            } else {
                a.dim_x
            };
            let scale_x: u32 = if a.scale_x == 0 {
                1024
            } else {
                a.scale_x
            };
            let scale_y: u32 = if a.scale_y == 0 {
                1024
            } else {
                a.scale_y
            };
            let offset: i128 = compute_offset(
                a.stride_x,
                a.stride_y,
                scale_x,
                scale_y,
                index % dim_x,
                index / dim_x,
            );
            (ptr as i128 + offset) as u64
        },
        None => 0,
    }
}

/// The last value that an image was set to is what it shows, whatever it was
/// set to before.
pub proof fn law_last_value_counts(
    format: u32,
    width: u32,
    height: u32,
    data: Seq<u8>,
    first: vx_pixel_value_t,
    second: vx_pixel_value_t,
)
    ensures
        painted(format, width, height, painted(format, width, height, data, first), second)
            == painted(format, width, height, data, second),
{
    let once = painted(format, width, height, data, first);
    assert(once.len() == data.len());
    assert(pixel_tile(format, first).len() == pixel_tile(format, second).len());
    assert(painted(format, width, height, once, second) =~= painted(
        format,
        width,
        height,
        data,
        second,
    ));
}

/// Whether the pixels of a plane lie apart from each other.
pub open spec fn lies_apart(g: Grid, bytes: int) -> bool {
    g.stride_x >= bytes && g.stride_y >= (g.width - 1) * g.stride_x + bytes
}

/// Whether a byte is one of a pixel of a plane.
pub open spec fn is_pixel_byte(g: Grid, rows: int, bytes: int, o: int) -> bool {
    exists|x: int, y: int|
        0 <= x < g.width && 0 <= y < rows && (#[trigger] spot(x, y, g.stride_x, g.stride_y)) <= o
            < spot(x, y, g.stride_x, g.stride_y) + bytes
}

proof fn lemma_row_set(
    memory: Seq<u8>,
    g: Grid,
    y: int,
    columns: nat,
    format: u32,
    plane: nat,
    v: vx_pixel_value_t,
)
    requires
        ({
            let size = crate::image::element_stride(format, plane) as int;
            &&& in_memory(memory, g, size)
            &&& lies_apart(g, size)
        }),
        0 <= y < g.height,
        columns <= g.width,
    ensures
        ({
            let size = crate::image::element_stride(format, plane) as int;
            let after = row_set(memory, g, y, columns, format, plane, v);
            &&& after.len() == memory.len()
            &&& forall|x: int, b: int|
                0 <= x < columns && 0 <= b < size ==> after[spot(
                    x,
                    y,
                    g.stride_x,
                    g.stride_y,
                ) + b] == #[trigger] plane_pixel(format, plane, x, v)[b]
            &&& forall|o: int|
                0 <= o < memory.len() && (forall|x: int|
                    0 <= x < columns ==> !((#[trigger] spot(x, y, g.stride_x, g.stride_y)) <= o
                        < spot(x, y, g.stride_x, g.stride_y) + size)) ==> #[trigger] after[o]
                    == memory[o]
        }),
    decreases columns,
{
    let size = crate::image::element_stride(format, plane) as int;
    if columns > 0 {
        let last = columns - 1;
        let before = row_set(memory, g, y, last as nat, format, plane, v);
        let after = row_set(memory, g, y, columns, format, plane, v);
        let bytes = plane_pixel(format, plane, last, v);
        lemma_row_set(memory, g, y, last as nat, format, plane, v);
        lemma_spot_inside(last, y, g, size, memory);
        assert(bytes.len() == size);
        assert forall|x: int, b: int| 0 <= x < columns && 0 <= b < size implies after[spot(
            x,
            y,
            g.stride_x,
            g.stride_y,
        ) + b] == #[trigger] plane_pixel(format, plane, x, v)[b] by {
            lemma_spot_inside(x, y, g, size, memory);
            if x < last {
                assert(x * g.stride_x + g.stride_x <= last * g.stride_x) by (nonlinear_arith)
                    requires
                        x + 1 <= last,
                        g.stride_x >= 0,
                ;
                assert(before[spot(x, y, g.stride_x, g.stride_y) + b] == plane_pixel(
                    format,
                    plane,
                    x,
                    v,
                )[b]);
            }
        }
        assert forall|o: int|
            0 <= o < memory.len() && (forall|x: int|
                0 <= x < columns ==> !((#[trigger] spot(x, y, g.stride_x, g.stride_y)) <= o
                    < spot(x, y, g.stride_x, g.stride_y) + size)) implies #[trigger] after[o]
            == memory[o] by {
            assert(!(spot(last, y, g.stride_x, g.stride_y) <= o < spot(
                last,
                y,
                g.stride_x,
                g.stride_y,
            ) + size));
            assert(before[o] == memory[o]);
        }
    }
}

proof fn lemma_rows_apart(g: Grid, bytes: int, x: int, y: int, other_x: int, other_y: int)
    requires
        lies_apart(g, bytes),
        bytes >= 0,
        0 <= x < g.width,
        0 <= other_x < g.width,
        y < other_y,
    ensures
        spot(x, y, g.stride_x, g.stride_y) + bytes <= spot(
            other_x,
            other_y,
            g.stride_x,
            g.stride_y,
        ),
{
    assert(x * g.stride_x <= (g.width - 1) * g.stride_x) by (nonlinear_arith)
        requires
            0 <= x <= g.width - 1,
            g.stride_x >= 0,
    ;
    assert(0 <= (g.width - 1) * g.stride_x) by (nonlinear_arith)
        requires
            0 <= g.width - 1,
            g.stride_x >= 0,
    ;
    assert(y * g.stride_y + g.stride_y <= other_y * g.stride_y) by (nonlinear_arith)
        requires
            y + 1 <= other_y,
            g.stride_y >= 0,
    ;
    assert(other_x * g.stride_x >= 0) by (nonlinear_arith)
        requires
            other_x >= 0,
            g.stride_x >= 0,
    ;
}

proof fn lemma_rows_set(
    memory: Seq<u8>,
    g: Grid,
    rows: nat,
    format: u32,
    plane: nat,
    v: vx_pixel_value_t,
)
    requires
        ({
            let size = crate::image::element_stride(format, plane) as int;
            &&& in_memory(memory, g, size)
            &&& lies_apart(g, size)
        }),
        0 <= g.width,
        rows <= g.height,
    ensures
        ({
            let size = crate::image::element_stride(format, plane) as int;
            let after = rows_set(memory, g, rows, format, plane, v);
            &&& after.len() == memory.len()
            &&& forall|x: int, y: int, b: int|
                0 <= x < g.width && 0 <= y < rows && 0 <= b < size ==> after[(#[trigger] spot(
                    x,
                    y,
                    g.stride_x,
                    g.stride_y,
                )) + b] == #[trigger] plane_pixel(format, plane, x, v)[b]
            &&& forall|o: int|
                0 <= o < memory.len() && !is_pixel_byte(g, rows as int, size, o)
                    ==> #[trigger] after[o] == memory[o]
        }),
    decreases rows,
{
    let size = crate::image::element_stride(format, plane) as int;
    if rows > 0 {
        let last = rows - 1;
        let before = rows_set(memory, g, last as nat, format, plane, v);
        let after = rows_set(memory, g, rows, format, plane, v);
        lemma_rows_set(memory, g, last as nat, format, plane, v);
        lemma_row_set(before, g, last, g.width as nat, format, plane, v);
        assert forall|x: int, y: int, b: int|
            0 <= x < g.width && 0 <= y < rows && 0 <= b < size implies after[(#[trigger] spot(
            x,
            y,
            g.stride_x,
            g.stride_y,
        )) + b] == #[trigger] plane_pixel(format, plane, x, v)[b] by {
            lemma_spot_inside(x, y, g, size, memory);
            let o = spot(x, y, g.stride_x, g.stride_y) + b;
            if y < last {
                assert forall|a: int| 0 <= a < g.width implies !((#[trigger] spot(
                    a,
                    last,
                    g.stride_x,
                    g.stride_y,
                )) <= o < spot(a, last, g.stride_x, g.stride_y) + size) by {
                    lemma_rows_apart(g, size, x, y, a, last);
                }
                assert(after[o] == before[o]);
            }
        }
        assert forall|o: int|
            0 <= o < memory.len() && !is_pixel_byte(g, rows as int, size, o)
                implies #[trigger] after[o] == memory[o] by {
            assert(!is_pixel_byte(g, last, size, o)) by {
                if is_pixel_byte(g, last, size, o) {
                    let (x, y) = choose|x: int, y: int|
                        0 <= x < g.width && 0 <= y < last && (#[trigger] spot(
                            x,
                            y,
                            g.stride_x,
                            g.stride_y,
                        )) <= o < spot(x, y, g.stride_x, g.stride_y) + size;
                    assert(spot(x, y, g.stride_x, g.stride_y) <= o);
                }
            }
            assert(before[o] == memory[o]);
        }
    }
}

/// In the caller's memory too, every byte of every pixel of an image is set, and no
/// other byte changes, wherever the pixels lie apart from each other.
pub proof fn law_every_outer_pixel_is_set(
    img: VxCImage,
    plane: nat,
    memory: Seq<u8>,
    v: vx_pixel_value_t,
)
    requires
        plane < crate::image::plane_count(img.format),
        has_memory(img, plane),
        ({
            let size = crate::image::element_stride(img.format, plane) as int;
            &&& in_memory(memory, outer_grid(img, plane), size)
            &&& lies_apart(outer_grid(img, plane), size)
        }),
    ensures
        ({
            let g = outer_grid(img, plane);
            let size = crate::image::element_stride(img.format, plane) as int;
            let after = outer_painted(img, plane, memory, v);
            &&& after.len() == memory.len()
            &&& forall|x: int, y: int, b: int|
                0 <= x < g.width && 0 <= y < g.height && 0 <= b < size ==> after[(#[trigger] spot(
                    x,
                    y,
                    g.stride_x,
                    g.stride_y,
                )) + b] == #[trigger] plane_pixel(img.format, plane, x, v)[b]
            &&& forall|o: int|
                0 <= o < memory.len() && !is_pixel_byte(g, g.height, size, o)
                    ==> #[trigger] after[o] == memory[o]
        }),
{
    lemma_rows_set(
        memory,
        outer_grid(img, plane),
        outer_extent(img, plane).1,
        img.format,
        plane,
        v,
    );
}

/// A pixel has one address, whether it is found by column and row or by its
/// index.
pub proof fn law_addresses_agree(a: vx_imagepatch_addressing_t, x: u32, y: u32, index: u32)
    requires
        a.dim_x > 0,
        x < a.dim_x,
        a.scale_x > 0,
        a.scale_y > 0,
        index == y * a.dim_x + x,
    ensures
        index_offset(a, index) == patch_offset(
            a.stride_x,
            a.stride_y,
            a.scale_x,
            a.scale_y,
            x,
            y,
        ),
{
    let n = a.dim_x as int;
    assert(index as int % n == x && index as int / n == y) by (nonlinear_arith)
        requires
            n > 0,
            0 <= x < n,
            0 <= y,
            index == y * n + x,
    ;
}

/// The bytes of a pixel value, in their order.
pub open spec fn value_bytes(v: vx_pixel_value_t) -> Seq<u8> {
    seq![v.b0, v.b1, v.b2, v.b3]
}

/// Where the bytes of a pixel lie side by side, every pixel that fits whole shows
/// the first bytes of the value, in their order; what is left over at the end stays.
pub proof fn law_packed_pixels_show_the_value(
    format: u32,
    width: u32,
    height: u32,
    data: Seq<u8>,
    v: vx_pixel_value_t,
    n: int,
    i: int,
)
    requires
        format == VX_DF_IMAGE_U8 && n == 1 || (format == VX_DF_IMAGE_U16 || format
            == VX_DF_IMAGE_S16) && n == 2 || format == VX_DF_IMAGE_RGB && n == 3 || (format
            == VX_DF_IMAGE_U32 || format == VX_DF_IMAGE_S32 || format == VX_DF_IMAGE_RGBX) && n
            == 4,
        0 <= i < data.len(),
    ensures
        painted(format, width, height, data, v).len() == data.len(),
        n == crate::image::pixel_bytes(format),
        painted(format, width, height, data, v)[i] == if i < data.len() as int / n * n {
            value_bytes(v)[i % n]
        } else {
            data[i]
        },
{
}

proof fn lemma_tile_shows(data: Seq<u8>, from: int, to: int, tile: Seq<u8>, k: int, j: int)
    requires
        0 <= j < tile.len(),
        0 <= k,
        0 <= from,
        from + (k + 1) * tile.len() <= to <= data.len(),
    ensures
        tiled(data, from, to, tile)[from + k * tile.len() + j] == tile[j],
{
    let n = tile.len() as int;
    let size = to - from;
    vstd::arithmetic::div_mod::lemma_fundamental_div_mod_converse(k * n + j, n, k, j);
    vstd::arithmetic::div_mod::lemma_div_multiples_vanish(k + 1, n);
    vstd::arithmetic::mul::lemma_mul_is_commutative(n, k + 1);
    vstd::arithmetic::div_mod::lemma_div_is_ordered((k + 1) * n, size, n);
    vstd::arithmetic::mul::lemma_mul_inequality(k + 1, size / n, n);
    vstd::arithmetic::mul::lemma_mul_is_distributive_add_other_way(n, k, 1);
    assert(0 <= k * n) by (nonlinear_arith)
        requires
            k >= 0,
            n > 0,
    ;
    assert(k * n + j < size / n * n);
}

/// Where two pixels share their colours, each pair of them shows the first byte of
/// the value twice, as the brightness of either, and the second and third once:
/// behind the brightness or before it.
pub proof fn law_pixel_pairs_show_the_value(
    format: u32,
    width: u32,
    height: u32,
    data: Seq<u8>,
    v: vx_pixel_value_t,
    pair: int,
)
    requires
        format == VX_DF_IMAGE_UYVY || format == VX_DF_IMAGE_YUYV,
        0 <= pair < data.len() as int / 4,
    ensures
        ({
            let after = painted(format, width, height, data, v);
            let bright = if format == VX_DF_IMAGE_YUYV {
                0int
            } else {
                1int
            };
            let colour = 1 - bright;
            &&& after[4 * pair + bright] == v.b0
            &&& after[4 * pair + 2 + bright] == v.b0
            &&& after[4 * pair + colour] == v.b1
            &&& after[4 * pair + 2 + colour] == v.b2
        }),
{
    let tile = pixel_tile(format, v);
    let size = data.len() as int;
    assert(tile.len() == 4);
    assert(painted(format, width, height, data, v) == tiled(data, 0, size, tile));
    lemma_tile_shows(data, 0, size, tile, pair, 0);
    lemma_tile_shows(data, 0, size, tile, pair, 1);
    lemma_tile_shows(data, 0, size, tile, pair, 2);
    lemma_tile_shows(data, 0, size, tile, pair, 3);
}

/// In an image of one plane for brightness and one for colours, each pixel of the
/// first shows the first byte of the value and each pair of the second its second
/// and third byte, in the order of the format.
pub proof fn law_two_planes_show_the_value(
    format: u32,
    width: u32,
    height: u32,
    data: Seq<u8>,
    v: vx_pixel_value_t,
    i: int,
)
    requires
        format == VX_DF_IMAGE_NV12 || format == VX_DF_IMAGE_NV21,
        width * height <= data.len(),
        0 <= i,
    ensures
        ({
            let after = painted(format, width, height, data, v);
            let luma = width * height;
            &&& after.len() == data.len()
            &&& i < luma ==> after[i] == v.b0
            &&& luma + 2 * i + 1 < data.len() ==> {
                let (first, second) = if format == VX_DF_IMAGE_NV12 {
                    (v.b1, v.b2)
                } else {
                    (v.b2, v.b1)
                };
                after[luma + 2 * i] == first && after[luma + 2 * i + 1] == second
            }
        }),
{
    let luma = area(width, height);
    let size = data.len() as int;
    let bright = tiled(data, 0, luma, seq![v.b0]);
    assert(luma >= 0) by (nonlinear_arith)
        requires
            luma == width * height,
    ;
    lemma_one_byte_tiles(data, 0, luma, v.b0);
    let tile = if format == VX_DF_IMAGE_NV12 {
        seq![v.b1, v.b2]
    } else {
        seq![v.b2, v.b1]
    };
    assert(painted(format, width, height, data, v) == tiled(bright, luma, size, tile));
    assert(tile.len() == 2);
    if luma + 2 * i + 1 < size {
        lemma_tile_shows(bright, luma, size, tile, i, 0);
        lemma_tile_shows(bright, luma, size, tile, i, 1);
    }
}

/// In an image of three planes, every byte of a plane shows the byte of the value
/// that belongs to it.
pub proof fn law_three_planes_show_the_value(
    format: u32,
    width: u32,
    height: u32,
    data: Seq<u8>,
    v: vx_pixel_value_t,
    i: int,
)
    requires
        format == VX_DF_IMAGE_IYUV || format == VX_DF_IMAGE_YUV4,
        0 <= i < data.len(),
    ensures
        ({
            let after = painted(format, width, height, data, v);
            let luma = width * height;
            let chroma = if format == VX_DF_IMAGE_IYUV {
                ((width + 1) / 2) * ((height + 1) / 2)
            } else {
                luma
            };
            &&& after.len() == data.len()
            &&& luma + 2 * chroma <= data.len() ==> after[i] == if i < luma {
                v.b0
            } else if i < luma + chroma {
                v.b1
            } else if i < luma + 2 * chroma {
                v.b2
            } else {
                data[i]
            }
            &&& luma + 2 * chroma > data.len() ==> after[i] == data[i]
        }),
{
    let luma = area(width, height);
    let chroma = if format == VX_DF_IMAGE_IYUV {
        quarter(width, height)
    } else {
        luma
    };
    assert(quarter(width, height) >= 0) by {
        let w = (width + 1) / 2;
        let h = (height + 1) / 2;
        assert(w * h >= 0) by (nonlinear_arith)
            requires
                w >= 0,
                h >= 0,
        ;
    }
    assert(luma >= 0) by (nonlinear_arith)
        requires
            luma == width * height,
    ;
    if luma + 2 * chroma <= data.len() {
        lemma_one_byte_tiles(data, 0, luma, v.b0);
        let first = tiled(data, 0, luma, seq![v.b0]);
        lemma_one_byte_tiles(first, luma, luma + chroma, v.b1);
        let second = tiled(first, luma, luma + chroma, seq![v.b1]);
        lemma_one_byte_tiles(second, luma + chroma, luma + 2 * chroma, v.b2);
        assert(painted(format, width, height, data, v) == three_planes(data, luma, chroma, v));
    }
}

proof fn lemma_one_byte_tiles(data: Seq<u8>, from: int, to: int, b: u8)
    requires
        0 <= from <= to <= data.len(),
    ensures
        tiled(data, from, to, seq![b]).len() == data.len(),
        forall|i: int|
            0 <= i < data.len() ==> #[trigger] tiled(data, from, to, seq![b])[i] == if from <= i
                < to {
                b
            } else {
                data[i]
            },
{
    assert(seq![b].len() == 1);
    assert((to - from) / 1 * 1 == to - from);
}

/// In the caller's memory a pixel shows the same bytes as in an image's own
/// storage: side by side in a packed format, and the one or two of its plane in a
/// planar one.
pub proof fn law_outer_pixels_show_the_value(format: u32, plane: nat, x: int, v: vx_pixel_value_t, b: int)
    requires
        0 <= b < crate::image::element_stride(format, plane),
    ensures
        format == VX_DF_IMAGE_U8 || format == VX_DF_IMAGE_U16 || format == VX_DF_IMAGE_S16 || format
            == VX_DF_IMAGE_RGB || format == VX_DF_IMAGE_U32 || format == VX_DF_IMAGE_S32 || format
            == VX_DF_IMAGE_RGBX ==> plane_pixel(format, plane, x, v)[b] == value_bytes(v)[b],
        format == VX_DF_IMAGE_NV12 && plane == 1 ==> plane_pixel(format, plane, x, v)[b]
            == value_bytes(v)[1 + b],
        format == VX_DF_IMAGE_NV21 && plane == 1 ==> plane_pixel(format, plane, x, v)[b]
            == value_bytes(v)[2 - b],
        (format == VX_DF_IMAGE_NV12 || format == VX_DF_IMAGE_NV21) && plane == 0 ==> plane_pixel(
            format,
            plane,
            x,
            v,
        )[b] == v.b0,
        (format == VX_DF_IMAGE_IYUV || format == VX_DF_IMAGE_YUV4) && plane < 3 ==> plane_pixel(
            format,
            plane,
            x,
            v,
        )[b] == value_bytes(v)[plane as int],
        format == VX_DF_IMAGE_YUYV ==> plane_pixel(format, plane, x, v)[b] == if b == 0 {
            v.b0
        } else if x % 2 == 0 {
            v.b1
        } else {
            v.b2
        },
        format == VX_DF_IMAGE_UYVY ==> plane_pixel(format, plane, x, v)[b] == if b == 1 {
            v.b0
        } else if x % 2 == 0 {
            v.b1
        } else {
            v.b2
        },
{
}

/// Pixels of a patch lie a stride apart, rows a row's stride; a scale of one leaves
/// a pixel where it is.
pub proof fn law_pixels_lie_a_stride_apart(stride_x: i32, stride_y: i32, x: u32, y: u32)
    requires
        x < u32::MAX,
        y < u32::MAX,
    ensures
        patch_offset(stride_x, stride_y, 1024, 1024, 0, 0) == 0,
        patch_offset(stride_x, stride_y, 1024, 1024, (x + 1) as u32, y) - patch_offset(
            stride_x,
            stride_y,
            1024,
            1024,
            x,
            y,
        ) == stride_x,
        patch_offset(stride_x, stride_y, 1024, 1024, x, (y + 1) as u32) - patch_offset(
            stride_x,
            stride_y,
            1024,
            1024,
            x,
            y,
        ) == stride_y,
{
    assert(stride_x * (x + 1) == stride_x * x + stride_x) by (nonlinear_arith);
    assert(stride_y * (y + 1) == stride_y * y + stride_y) by (nonlinear_arith);
    assert(1024 * x / 1024 == x && 1024 * (x + 1) / 1024 == x + 1);
    assert(1024 * y / 1024 == y && 1024 * (y + 1) / 1024 == y + 1);
}

/// A stride to the front is the distance itself, one to the back the distance that
/// comes to it where numbers wrap around.
pub proof fn law_distances(stride: i32)
    ensures
        stride >= 0 ==> distance(stride) == stride,
        stride < 0 ==> distance(stride) - (usize::MAX + 1) == stride,
{
}

/// The pixel at a running number lies in the row and at the column that the number
/// comes to, counted along the rows; a patch without columns counts as one wide, and
/// one without a scale as not scaled.
pub proof fn law_running_numbers(a: vx_imagepatch_addressing_t, index: u32, x: u32, y: u32)
    ensures
        a.dim_x > 0 && x < a.dim_x && index == y * a.dim_x + x && a.scale_x > 0 && a.scale_y > 0
            ==> index_offset(a, index) == patch_offset(
            a.stride_x,
            a.stride_y,
            a.scale_x,
            a.scale_y,
            x,
            y,
        ),
        a.dim_x == 0 ==> index_offset(a, index) == patch_offset(
            a.stride_x,
            a.stride_y,
            scale_or_one(a.scale_x),
            scale_or_one(a.scale_y),
            0,
            index,
        ),
        scale_or_one(0) == 1024,
        a.scale_x > 0 ==> scale_or_one(a.scale_x) == a.scale_x,
{
    if a.dim_x > 0 && x < a.dim_x && index == y * a.dim_x + x {
        let d = a.dim_x as int;
        vstd::arithmetic::div_mod::lemma_fundamental_div_mod_converse(
            index as int,
            d,
            y as int,
            x as int,
        );
    }
}

} // verus!

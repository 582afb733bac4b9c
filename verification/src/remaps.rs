//! Coordinate maps and their rectangular patches.
use vstd::prelude::*;
use crate::constants::{
    VX_REMAP_DESTINATION_HEIGHT, VX_REMAP_DESTINATION_WIDTH, VX_REMAP_SOURCE_HEIGHT,
    VX_REMAP_SOURCE_WIDTH,
};
use crate::records::VxCRemap;
use crate::refs::References;
use crate::scalar::{read4, split4};
use crate::types::{
    VX_ERROR_INVALID_PARAMETERS, VX_ERROR_INVALID_REFERENCE, VX_ERROR_NOT_IMPLEMENTED,
    VX_ERROR_NOT_SUPPORTED, VX_FAILURE, VX_MEMORY_TYPE_HOST, VX_READ_ONLY, VX_SUCCESS,
    VX_TYPE_REMAP, VX_WRITE_ONLY, vx_enum, vx_rectangle_t, vx_status,
};
use crate::values::{NUMBER_BYTES, Value, hand_out};
use crate::virtual_images::zeroed;
use std::collections::HashMap;

verus! {

broadcast use vstd::std_specs::hash::group_hash_axioms;

impl VxCRemap {
    /// Whether there are two coordinates for each destination pixel.
    pub open spec fn wf(&self) -> bool {
        self.map_data@.len() == self.dst_width * self.dst_height * 2
    }
}

/// Whether a coordinate map is new.
pub open spec fn is_empty_remap(
    m: VxCRemap,
    src_width: u32,
    src_height: u32,
    dst_width: u32,
    dst_height: u32,
) -> bool {
    &&& m.src_width == src_width
    &&& m.src_height == src_height
    &&& m.dst_width == dst_width
    &&& m.dst_height == dst_height
    &&& m.map_data@ == Seq::new((dst_width * dst_height * 2) as nat, |i: int| 0u32)
    &&& m.ref_count == 1
}

/// Creates a coordinate map under a fresh handle.  Answers the handle, or `0` where
/// there is no context.
pub fn vxCreateRemap(
    context: u64,
    src_width: u32,
    src_height: u32,
    dst_width: u32,
    dst_height: u32,
    fresh: u64,
    refs: &mut References,
    remaps: &mut HashMap<u64, VxCRemap>,
) -> (r: u64)
    requires
        fresh != 0,
        context != 0 ==> dst_width * dst_height * 2 <= usize::MAX,
    ensures
        r == if context == 0 {
            0
        } else {
            fresh
        },
        r == 0 ==> *final(refs) == *old(refs) && final(remaps)@ == old(remaps)@,
        r != 0 ==> {
            &&& final(refs).counts@ == old(refs).counts@.insert(fresh, 1)
            &&& final(refs).types@ == old(refs).types@.insert(fresh, VX_TYPE_REMAP)
            &&& final(refs).names@ == old(refs).names@
            &&& final(remaps)@.contains_key(fresh)
            &&& final(remaps)@.remove(fresh) == old(remaps)@.remove(fresh)
            &&& final(remaps)@[fresh].wf()
            &&& is_empty_remap(
                final(remaps)@[fresh],
                src_width,
                src_height,
                dst_width,
                dst_height,
            )
        },
{
    if context == 0 {
        return 0;
    }
    assert(dst_width * dst_height <= usize::MAX);
    let size: usize = (dst_width as usize) * (dst_height as usize) * 2;
    let map_data = vec![0u32; size];
    assert(map_data@ =~= Seq::new((dst_width * dst_height * 2) as nat, |i: int| 0u32));
    refs.register(fresh, VX_TYPE_REMAP);
    remaps.insert(
        fresh,
        VxCRemap { src_width, src_height, dst_width, dst_height, map_data, ref_count: 1 },
    );
    assert(remaps@.remove(fresh) =~= old(remaps)@.remove(fresh));
    fresh
}

/// Creates a coordinate map for a graph: as for a context, the one the graph
/// belongs to.
pub fn vxCreateVirtualRemap(
    graph: u64,
    context: u64,
    src_width: u32,
    src_height: u32,
    dst_width: u32,
    dst_height: u32,
    fresh: u64,
    refs: &mut References,
    remaps: &mut HashMap<u64, VxCRemap>,
) -> (r: u64)
    requires
        fresh != 0,
        context != 0 ==> dst_width * dst_height * 2 <= usize::MAX,
    ensures
        r == if graph == 0 || context == 0 {
            0
        } else {
            fresh
        },
        r == 0 ==> *final(refs) == *old(refs) && final(remaps)@ == old(remaps)@,
        r != 0 ==> {
            &&& final(refs).counts@ == old(refs).counts@.insert(fresh, 1)
            &&& final(refs).types@ == old(refs).types@.insert(fresh, VX_TYPE_REMAP)
            &&& final(refs).names@ == old(refs).names@
            &&& final(remaps)@.contains_key(fresh)
            &&& final(remaps)@.remove(fresh) == old(remaps)@.remove(fresh)
            &&& final(remaps)@[fresh].wf()
            &&& is_empty_remap(
                final(remaps)@[fresh],
                src_width,
                src_height,
                dst_width,
                dst_height,
            )
        },
{
    if graph == 0 {
        return 0;
    }
    vxCreateRemap(context, src_width, src_height, dst_width, dst_height, fresh, refs, remaps)
}

/// The value of an attribute of a coordinate map.
pub open spec fn remap_attribute(m: VxCRemap, attribute: vx_enum, size: usize) -> Result<
    Value,
    vx_status,
> {
    let error = VX_ERROR_NOT_SUPPORTED;
    if attribute == VX_REMAP_SOURCE_WIDTH {
        crate::values::with_room(size, NUMBER_BYTES, Value::Number(m.src_width), error)
    } else if attribute == VX_REMAP_SOURCE_HEIGHT {
        crate::values::with_room(size, NUMBER_BYTES, Value::Number(m.src_height), error)
    } else if attribute == VX_REMAP_DESTINATION_WIDTH {
        crate::values::with_room(size, NUMBER_BYTES, Value::Number(m.dst_width), error)
    } else if attribute == VX_REMAP_DESTINATION_HEIGHT {
        crate::values::with_room(size, NUMBER_BYTES, Value::Number(m.dst_height), error)
    } else {
        Err(error)
    }
}

/// Reads an attribute of a coordinate map.
pub fn vxQueryRemap(
    remaps: &HashMap<u64, VxCRemap>,
    remap: u64,
    attribute: vx_enum,
    ptr: u64,
    size: usize,
) -> (r: Result<Value, vx_status>)
    ensures
        r == if remap == 0 || ptr == 0 || !remaps@.contains_key(remap) {
            Err(VX_ERROR_INVALID_REFERENCE)
        } else {
            remap_attribute(remaps@[remap], attribute, size)
        },
{
    if remap == 0 || ptr == 0 {
        return Err(VX_ERROR_INVALID_REFERENCE);
    }
    let m = match remaps.get(&remap) {
        Some(m) => m,
        None => {
            return Err(VX_ERROR_INVALID_REFERENCE);
        },
    };
    let error: vx_status = VX_ERROR_NOT_SUPPORTED;
    if attribute == VX_REMAP_SOURCE_WIDTH {
        hand_out(size, NUMBER_BYTES, Value::Number(m.src_width), error)
    } else if attribute == VX_REMAP_SOURCE_HEIGHT {
        hand_out(size, NUMBER_BYTES, Value::Number(m.src_height), error)
    } else if attribute == VX_REMAP_DESTINATION_WIDTH {
        hand_out(size, NUMBER_BYTES, Value::Number(m.dst_width), error)
    } else if attribute == VX_REMAP_DESTINATION_HEIGHT {
        hand_out(size, NUMBER_BYTES, Value::Number(m.dst_height), error)
    } else {
        Err(error)
    }
}

/// Whether a rectangle leaves the destination.
pub open spec fn is_outside(m: VxCRemap, rect: vx_rectangle_t) -> bool {
    rect.start_x >= m.dst_width || rect.start_y >= m.dst_height || rect.end_x > m.dst_width
        || rect.end_y > m.dst_height
}

fn leaves(m: &VxCRemap, rect: &vx_rectangle_t) -> (r: bool)
    ensures
        r == is_outside(*m, *rect),
{
    rect.start_x >= m.dst_width || rect.start_y >= m.dst_height || rect.end_x > m.dst_width
        || rect.end_y > m.dst_height
}

/// The columns of a rectangle.
pub open spec fn columns_of(rect: vx_rectangle_t) -> nat {
    if rect.end_x > rect.start_x {
        (rect.end_x - rect.start_x) as nat
    } else {
        0
    }
}

/// The rows of a rectangle.
pub open spec fn rows_of(rect: vx_rectangle_t) -> nat {
    if rect.end_y > rect.start_y {
        (rect.end_y - rect.start_y) as nat
    } else {
        0
    }
}

/// Where the coordinates of a pixel stand in memory, for rows `stride` bytes apart.
pub open spec fn cell_offset(rect: vx_rectangle_t, stride: int, x: int, y: int) -> int {
    (y - rect.start_y) * stride + (x - rect.start_x) * 8
}

/// The bytes that a patch takes in memory, for rows `stride` bytes apart.
pub open spec fn patch_bytes(rect: vx_rectangle_t, stride: int) -> int {
    if columns_of(rect) > 0 && rows_of(rect) > 0 {
        (rows_of(rect) - 1) * stride + columns_of(rect) * 8
    } else {
        0
    }
}

/// The column of the pixel that a coordinate belongs to.
pub open spec fn column_at(width: int, i: int) -> int {
    (i / 2) % width
}

/// The row of the pixel that a coordinate belongs to.
pub open spec fn row_at(width: int, i: int) -> int {
    (i / 2) / width
}

/// Whether a coordinate belongs to a pixel of a rectangle before the pixel at
/// `(x, y)`, row after row.
pub open spec fn is_before(rect: vx_rectangle_t, width: int, i: int, x: int, y: int) -> bool {
    rect.start_x <= column_at(width, i) < rect.end_x && rect.start_y <= row_at(width, i)
        < rect.end_y && (row_at(width, i) < y || (row_at(width, i) == y && column_at(width, i)
        < x))
}

/// The coordinate that memory holds for position `i` of a map.
pub open spec fn coordinate_from(
    user: Seq<u8>,
    rect: vx_rectangle_t,
    stride: int,
    width: int,
    i: int,
) -> u32 {
    let at = cell_offset(rect, stride, column_at(width, i), row_at(width, i)) + 4 * (i % 2);
    crate::scalar::number4(user.subrange(at, at + 4)) as u32
}

/// A map with the pixels of a rectangle before `(x, y)` taken from memory.
pub open spec fn written_up_to(
    map: Seq<u32>,
    user: Seq<u8>,
    rect: vx_rectangle_t,
    stride: int,
    width: int,
    x: int,
    y: int,
) -> Seq<u32> {
    Seq::new(
        map.len(),
        |i: int|
            if is_before(rect, width, i, x, y) {
                coordinate_from(user, rect, stride, width, i)
            } else {
                map[i]
            },
    )
}

/// A map with the pixels of a rectangle taken from memory.
pub open spec fn written_patch(
    map: Seq<u32>,
    user: Seq<u8>,
    rect: vx_rectangle_t,
    stride: int,
    width: int,
) -> Seq<u32> {
    written_up_to(map, user, rect, stride, width, 0, rect.end_y as int)
}

/// Memory with the bytes of a number at an offset.
pub open spec fn with_word(user: Seq<u8>, at: int, word: u32) -> Seq<u8> {
    Seq::new(
        user.len(),
        |i: int|
            if at <= i < at + 4 {
                crate::scalar::bytes4(word)[i - at]
            } else {
                user[i]
            },
    )
}

/// Memory with the coordinates of a pixel at its place.
pub open spec fn with_cell(
    user: Seq<u8>,
    map: Seq<u32>,
    rect: vx_rectangle_t,
    stride: int,
    width: int,
    x: int,
    y: int,
) -> Seq<u8> {
    let at = cell_offset(rect, stride, x, y);
    with_word(
        with_word(user, at, map[2 * (y * width + x)]),
        at + 4,
        map[2 * (y * width + x) + 1],
    )
}

/// Memory with the first `n` pixels of one row of a rectangle at their places.
pub open spec fn with_cells(
    user: Seq<u8>,
    map: Seq<u32>,
    rect: vx_rectangle_t,
    stride: int,
    width: int,
    y: int,
    n: nat,
) -> Seq<u8>
    decreases n,
{
    if n == 0 {
        user
    } else {
        with_cell(
            with_cells(user, map, rect, stride, width, y, (n - 1) as nat),
            map,
            rect,
            stride,
            width,
            rect.start_x + n - 1,
            y,
        )
    }
}

/// Memory with the first `n` rows of a rectangle at their places.
pub open spec fn with_rows(
    user: Seq<u8>,
    map: Seq<u32>,
    rect: vx_rectangle_t,
    stride: int,
    width: int,
    n: nat,
) -> Seq<u8>
    decreases n,
{
    if n == 0 {
        user
    } else {
        with_cells(
            with_rows(user, map, rect, stride, width, (n - 1) as nat),
            map,
            rect,
            stride,
            width,
            rect.start_y + n - 1,
            columns_of(rect),
        )
    }
}

/// Memory with the pixels of a rectangle at their places.
pub open spec fn read_patch(
    user: Seq<u8>,
    map: Seq<u32>,
    rect: vx_rectangle_t,
    stride: int,
    width: int,
) -> Seq<u8> {
    with_rows(user, map, rect, stride, width, rows_of(rect))
}

proof fn lemma_cell_fits(rect: vx_rectangle_t, stride: int, x: int, y: int, len: int)
    requires
        rect.start_x <= x < rect.end_x,
        rect.start_y <= y < rect.end_y,
        0 <= stride,
        patch_bytes(rect, stride) <= len,
    ensures
        0 <= cell_offset(rect, stride, x, y),
        cell_offset(rect, stride, x, y) + 8 <= len,
        0 <= (y - rect.start_y) * stride <= len,
{
    let row = y - rect.start_y;
    let last = rows_of(rect) - 1;
    assert(row * stride <= last * stride) by (nonlinear_arith)
        requires
            0 <= row <= last,
            0 <= stride,
    ;
    assert(0 <= row * stride) by (nonlinear_arith)
        requires
            0 <= row,
            0 <= stride,
    ;
}

proof fn lemma_index_fits(width: int, height: int, x: int, y: int)
    requires
        0 <= x < width,
        0 <= y < height,
    ensures
        0 <= y * width <= y * width + x < width * height,
        2 * (y * width + x) + 1 < width * height * 2,
{
    assert(y * width + x < width * height) by (nonlinear_arith)
        requires
            0 <= x < width,
            0 <= y < height,
    ;
    assert(0 <= y * width) by (nonlinear_arith)
        requires
            0 <= y,
            0 < width,
    ;
}

proof fn lemma_pixel(width: int, x: int, y: int, i: int)
    requires
        0 <= x < width,
        0 <= y,
        0 <= i,
    ensures
        (column_at(width, i) == x && row_at(width, i) == y) <==> (i == 2 * (y * width + x) || i == 2
            * (y * width + x) + 1),
        0 <= column_at(width, i) < width,
        0 <= row_at(width, i),
{
    vstd::arithmetic::div_mod::lemma_fundamental_div_mod(i / 2, width);
    assert(0 <= (i / 2) % width < width) by (nonlinear_arith)
        requires
            0 < width,
    ;
    assert(0 <= (i / 2) / width) by (nonlinear_arith)
        requires
            0 < width,
            0 <= i,
    ;
    if column_at(width, i) == x && row_at(width, i) == y {
        assert(i / 2 == width * y + x);
        assert(width * y == y * width) by (nonlinear_arith);
    }
    if i == 2 * (y * width + x) || i == 2 * (y * width + x) + 1 {
        assert(i / 2 == y * width + x);
        vstd::arithmetic::div_mod::lemma_fundamental_div_mod_converse(i / 2, width, y, x);
    }
}

fn put_word(user: &mut Vec<u8>, at: usize, word: u32)
    requires
        at + 4 <= old(user)@.len(),
    ensures
        final(user)@ == with_word(old(user)@, at as int, word),
{
    let bytes = split4(word);
    assert(at + 4 <= user.len());
    user.set(at, bytes[0]);
    user.set(at + 1, bytes[1]);
    user.set(at + 2, bytes[2]);
    user.set(at + 3, bytes[3]);
    assert(user@ =~= with_word(old(user)@, at as int, word));
}

fn get_word(user: &Vec<u8>, at: usize) -> (r: u32)
    requires
        at + 4 <= user@.len(),
    ensures
        r == crate::scalar::number4(user@.subrange(at as int, at + 4)),
{
    let ghost part = user@.subrange(at as int, at + 4);
    assert(part[0] == user@[at as int] && part[1] == user@[at + 1] && part[2] == user@[at + 2]
        && part[3] == user@[at + 3]);
    assert(at + 4 <= user.len());
    read4(user[at], user[at + 1], user[at + 2], user[at + 3])
}

/// Copies the pixels of a rectangle to memory.
fn copy_out(m: &VxCRemap, rect: &vx_rectangle_t, stride: usize, user: &mut Vec<u8>)
    requires
        m.wf(),
        !is_outside(*m, *rect),
        patch_bytes(*rect, stride as int) <= old(user)@.len(),
    ensures
        final(user)@ == read_patch(
            old(user)@,
            m.map_data@,
            *rect,
            stride as int,
            m.dst_width as int,
        ),
{
    let ghost user0 = user@;
    let ghost map = m.map_data@;
    let ghost s = stride as int;
    let ghost w = m.dst_width as int;
    let width = m.dst_width as usize;
    let rows: u32 = if rect.end_y > rect.start_y {
        rect.end_y - rect.start_y
    } else {
        0
    };
    let columns: u32 = if rect.end_x > rect.start_x {
        rect.end_x - rect.start_x
    } else {
        0
    };
    for j in 0..rows
        invariant
            m.wf(),
            !is_outside(*m, *rect),
            rows == rows_of(*rect),
            columns == columns_of(*rect),
            map == m.map_data@,
            s == stride,
            w == m.dst_width,
            width == m.dst_width,
            patch_bytes(*rect, s) <= user0.len(),
            user@ == with_rows(user0, map, *rect, s, w, j as nat),
            user@.len() == user0.len(),
    {
        let y: u32 = rect.start_y + j;
        let ghost before = user@;
        for i in 0..columns
            invariant
                m.wf(),
                !is_outside(*m, *rect),
                j < rows,
                rows == rows_of(*rect),
                columns == columns_of(*rect),
                y == rect.start_y + j,
                map == m.map_data@,
                s == stride,
                w == m.dst_width,
                width == m.dst_width,
                patch_bytes(*rect, s) <= user0.len(),
                before.len() == user0.len(),
                user@ == with_cells(before, map, *rect, s, w, y as int, i as nat),
                user@.len() == user0.len(),
        {
            let x: u32 = rect.start_x + i;
            proof {
                lemma_cell_fits(*rect, s, x as int, y as int, user0.len() as int);
                lemma_index_fits(w, m.dst_height as int, x as int, y as int);
                assert(user0.len() == user.len());
                assert(m.map_data@.len() == m.map_data.len());
            }
            let at: usize = (j as usize) * stride + (i as usize) * 8;
            let index: usize = 2 * ((y as usize) * width + (x as usize));
            put_word(user, at, m.map_data[index]);
            put_word(user, at + 4, m.map_data[index + 1]);
        }
    }
}

/// Copies the pixels of a rectangle from memory.
fn copy_in(m: &mut VxCRemap, rect: &vx_rectangle_t, stride: usize, user: &Vec<u8>)
    requires
        old(m).wf(),
        !is_outside(*old(m), *rect),
        patch_bytes(*rect, stride as int) <= user@.len(),
    ensures
        final(m).map_data@ == written_patch(
            old(m).map_data@,
            user@,
            *rect,
            stride as int,
            old(m).dst_width as int,
        ),
        *final(m) == (VxCRemap { map_data: final(m).map_data, ..*old(m) }),
{
    let ghost map0 = m.map_data@;
    let ghost m0 = *m;
    let ghost s = stride as int;
    let ghost w = m.dst_width as int;
    let width = m.dst_width as usize;
    assert(m.map_data@ =~= written_up_to(map0, user@, *rect, s, w, 0, rect.start_y as int)) by {
        assert forall|i: int| 0 <= i < map0.len() implies !is_before(
            *rect,
            w,
            i,
            0,
            rect.start_y as int,
        ) by {}
    }
    let mut y: u32 = rect.start_y;
    while y < rect.end_y
        invariant
            *m == (VxCRemap { map_data: m.map_data, ..m0 }),
            m0.wf(),
            !is_outside(m0, *rect),
            map0 == m0.map_data@,
            s == stride,
            w == m0.dst_width,
            width == m0.dst_width,
            patch_bytes(*rect, s) <= user@.len(),
            rect.start_y <= y,
            y <= rect.end_y || y == rect.start_y,
            m.map_data@ == written_up_to(map0, user@, *rect, s, w, 0, y as int),
        decreases rect.end_y - y,
    {
        assert(m.map_data@ =~= written_up_to(
            map0,
            user@,
            *rect,
            s,
            w,
            rect.start_x as int,
            y as int,
        )) by {
            assert forall|i: int| 0 <= i < map0.len() implies is_before(
                *rect,
                w,
                i,
                0,
                y as int,
            ) == is_before(*rect, w, i, rect.start_x as int, y as int) by {
                lemma_pixel(w, 0, 0, i);
            }
        }
        let mut x: u32 = rect.start_x;
        while x < rect.end_x
            invariant
                *m == (VxCRemap { map_data: m.map_data, ..m0 }),
                m0.wf(),
                !is_outside(m0, *rect),
                map0 == m0.map_data@,
                s == stride,
                w == m0.dst_width,
                width == m0.dst_width,
                patch_bytes(*rect, s) <= user@.len(),
                rect.start_y <= y < rect.end_y,
                rect.start_x <= x,
                x <= rect.end_x || x == rect.start_x,
                m.map_data@ == written_up_to(map0, user@, *rect, s, w, x as int, y as int),
            decreases rect.end_x - x,
        {
            proof {
                lemma_cell_fits(*rect, s, x as int, y as int, user@.len() as int);
                lemma_index_fits(w, m0.dst_height as int, x as int, y as int);
                assert(user@.len() == user.len());
                assert(m.map_data@.len() == m.map_data.len());
            }
            let at: usize = ((y - rect.start_y) as usize) * stride + ((x - rect.start_x) as usize)
                * 8;
            let index: usize = 2 * ((y as usize) * width + (x as usize));
            let ghost before = m.map_data@;
            m.map_data.set(index, get_word(user, at));
            m.map_data.set(index + 1, get_word(user, at + 4));
            proof {
                let after = written_up_to(map0, user@, *rect, s, w, x + 1, y as int);
                assert forall|i: int| 0 <= i < map0.len() implies #[trigger] m.map_data@[i]
                    == after[i] by {
                    lemma_pixel(w, x as int, y as int, i);
                    if i == index {
                        assert(i % 2 == 0);
                    } else if i == index + 1 {
                        assert(i % 2 == 1);
                    } else {
                        assert(m.map_data@[i] == before[i]);
                        assert(is_before(*rect, w, i, x as int, y as int) == is_before(
                            *rect,
                            w,
                            i,
                            x + 1,
                            y as int,
                        ));
                    }
                }
                assert(m.map_data@ =~= after);
            }
            x = x + 1;
        }
        proof {
            let after = written_up_to(map0, user@, *rect, s, w, 0, y + 1);
            assert forall|i: int| 0 <= i < map0.len() implies #[trigger] m.map_data@[i]
                == after[i] by {
                lemma_pixel(w, 0, 0, i);
                assert(is_before(*rect, w, i, x as int, y as int) == is_before(
                    *rect,
                    w,
                    i,
                    0,
                    y + 1,
                ));
            }
            assert(m.map_data@ =~= after);
        }
        y = y + 1;
    }
    proof {
        if y != rect.end_y {
            assert(m.map_data@ =~= written_patch(map0, user@, *rect, s, w));
        }
    }
}

/// What is wrong with a request for a patch, [`VX_SUCCESS`] if nothing.
pub open spec fn patch_status(
    remaps: Map<u64, VxCRemap>,
    remap: u64,
    rect: vx_rectangle_t,
    places_given: bool,
    mem_type: vx_enum,
) -> vx_status {
    if remap == 0 || !places_given {
        VX_ERROR_INVALID_PARAMETERS
    } else if mem_type != VX_MEMORY_TYPE_HOST {
        VX_ERROR_NOT_IMPLEMENTED
    } else if !remaps.contains_key(remap) {
        VX_ERROR_INVALID_REFERENCE
    } else if is_outside(remaps[remap], rect) {
        VX_ERROR_INVALID_PARAMETERS
    } else {
        VX_SUCCESS
    }
}

/// The distance of rows in memory: as asked for, or without gaps where `0` was.
pub open spec fn row_stride(rect: vx_rectangle_t, stride_y: usize) -> int {
    if stride_y > 0 {
        stride_y as int
    } else {
        (rect.end_x - rect.start_x) * 8
    }
}

fn check_patch(
    remaps: &HashMap<u64, VxCRemap>,
    remap: u64,
    rect: &vx_rectangle_t,
    places_given: bool,
    mem_type: vx_enum,
) -> (status: vx_status)
    ensures
        status == patch_status(remaps@, remap, *rect, places_given, mem_type),
{
    if remap == 0 || !places_given {
        return VX_ERROR_INVALID_PARAMETERS;
    }
    if mem_type != VX_MEMORY_TYPE_HOST {
        return VX_ERROR_NOT_IMPLEMENTED;
    }
    match remaps.get(&remap) {
        Some(m) => if leaves(m, rect) {
            VX_ERROR_INVALID_PARAMETERS
        } else {
            VX_SUCCESS
        },
        None => VX_ERROR_INVALID_REFERENCE,
    }
}

/// Copies a patch of a coordinate map to or from the application's memory.
pub fn vxCopyRemapPatch(
    remaps: &mut HashMap<u64, VxCRemap>,
    remap: u64,
    rect_ptr: u64,
    rect: &vx_rectangle_t,
    stride_y: usize,
    user_ptr: u64,
    user: &mut Vec<u8>,
    usage: vx_enum,
    user_mem_type: vx_enum,
) -> (status: vx_status)
    requires
        old(remaps)@.contains_key(remap) ==> old(remaps)@[remap].wf(),
        patch_status(old(remaps)@, remap, *rect, rect_ptr != 0 && user_ptr != 0, user_mem_type)
            == VX_SUCCESS ==> (stride_y == 0 ==> rect.start_x <= rect.end_x) && patch_bytes(
            *rect,
            row_stride(*rect, stride_y),
        ) <= old(user)@.len() && row_stride(*rect, stride_y) <= usize::MAX,
    ensures
        ({
            let refused = patch_status(
                old(remaps)@,
                remap,
                *rect,
                rect_ptr != 0 && user_ptr != 0,
                user_mem_type,
            );
            let before = old(remaps)@[remap];
            let stride = row_stride(*rect, stride_y);
            let width = before.dst_width as int;
            &&& status == if refused != VX_SUCCESS {
                refused
            } else if usage == VX_WRITE_ONLY || usage == VX_READ_ONLY {
                VX_SUCCESS
            } else {
                VX_ERROR_INVALID_PARAMETERS
            }
            &&& final(user)@ == if status == VX_SUCCESS && usage == VX_READ_ONLY {
                read_patch(old(user)@, before.map_data@, *rect, stride, width)
            } else {
                old(user)@
            }
            &&& final(remaps)@.dom() == old(remaps)@.dom()
            &&& final(remaps)@.remove(remap) == old(remaps)@.remove(remap)
            &&& old(remaps)@.contains_key(remap) ==> {
                let after = final(remaps)@[remap];
                &&& after == (VxCRemap { map_data: after.map_data, ..before })
                &&& after.map_data@ == if status == VX_SUCCESS && usage == VX_WRITE_ONLY {
                    written_patch(before.map_data@, old(user)@, *rect, stride, width)
                } else {
                    before.map_data@
                }
            }
        }),
{
    let refused = check_patch(
        remaps,
        remap,
        rect,
        rect_ptr != 0 && user_ptr != 0,
        user_mem_type,
    );
    if refused != VX_SUCCESS {
        return refused;
    }
    let stride: usize = if stride_y > 0 {
        stride_y
    } else {
        ((rect.end_x - rect.start_x) as usize) * 8
    };
    let mut status: vx_status = VX_ERROR_INVALID_PARAMETERS;
    if let Some(mut m) = remaps.remove(&remap) {
        if usage == VX_WRITE_ONLY {
            copy_in(&mut m, rect, stride, user);
            status = VX_SUCCESS;
        } else if usage == VX_READ_ONLY {
            copy_out(&m, rect, stride, user);
            status = VX_SUCCESS;
        }
        remaps.insert(remap, m);
    }
    proof {
        assert(remaps@.dom() =~= old(remaps)@.dom());
        assert(remaps@.remove(remap) =~= old(remaps)@.remove(remap));
    }
    status
}

/// The patches handed out.
pub struct MappedPatches {
    pub buffers: HashMap<u64, Vec<u8>>,
    /// The number of the next patch.
    pub next_id: u64,
}

/// Hands out a copy of a patch.  Answers its number and the distance of its rows;
/// the copy is kept under that number until it is given back.
pub fn vxMapRemapPatch(
    remaps: &HashMap<u64, VxCRemap>,
    patches: &mut MappedPatches,
    remap: u64,
    rect: &vx_rectangle_t,
    places_given: bool,
    mem_type: vx_enum,
) -> (r: Result<(u64, usize), vx_status>)
    requires
        remaps@.contains_key(remap) ==> remaps@[remap].wf(),
        patch_status(remaps@, remap, *rect, places_given, mem_type) == VX_SUCCESS ==> rect.start_x
            <= rect.end_x && rect.start_y <= rect.end_y && rows_of(*rect) * (columns_of(*rect) * 8)
            <= usize::MAX && columns_of(*rect) * 8 <= usize::MAX,
    ensures
        ({
            let refused = patch_status(remaps@, remap, *rect, places_given, mem_type);
            if refused != VX_SUCCESS {
                r == Err::<(u64, usize), vx_status>(refused) && *final(patches) == *old(patches)
            } else {
                let id = old(patches).next_id;
                let stride = columns_of(*rect) * 8;
                &&& r == Ok::<(u64, usize), vx_status>((id, stride as usize))
                &&& final(patches).next_id == if id == u64::MAX {
                    0
                } else {
                    (id + 1) as u64
                }
                &&& final(patches).buffers@.contains_key(id)
                &&& final(patches).buffers@.remove(id) == old(patches).buffers@.remove(id)
                &&& final(patches).buffers@[id]@ == read_patch(
                    crate::virtual_images::zeros((rows_of(*rect) * stride) as nat),
                    remaps@[remap].map_data@,
                    *rect,
                    stride as int,
                    remaps@[remap].dst_width as int,
                )
            }
        }),
{
    let refused = check_patch(remaps, remap, rect, places_given, mem_type);
    if refused != VX_SUCCESS {
        return Err(refused);
    }
    let stride: usize = ((rect.end_x - rect.start_x) as usize) * 8;
    let rows: usize = (rect.end_y - rect.start_y) as usize;
    let mut buffer = zeroed(rows * stride);
    proof {
        if rows > 0 {
            assert((rows - 1) * stride + stride == rows * stride) by (nonlinear_arith);
        }
    }
    if let Some(m) = remaps.get(&remap) {
        copy_out(m, rect, stride, &mut buffer);
    }
    let id = patches.next_id;
    patches.next_id = if id == u64::MAX {
        0
    } else {
        id + 1
    };
    patches.buffers.insert(id, buffer);
    assert(patches.buffers@.remove(id) =~= old(patches).buffers@.remove(id));
    Ok((id, stride))
}

/// Takes back a patch and forgets it.
pub fn vxUnmapRemapPatch(patches: &mut MappedPatches, remap: u64, map_id: u64) -> (status:
    vx_status)
    ensures
        status == if remap == 0 {
            VX_ERROR_INVALID_REFERENCE
        } else {
            VX_SUCCESS
        },
        final(patches).next_id == old(patches).next_id,
        final(patches).buffers@ == if remap == 0 {
            old(patches).buffers@
        } else {
            old(patches).buffers@.remove(map_id)
        },
{
    if remap == 0 {
        return VX_ERROR_INVALID_REFERENCE;
    }
    patches.buffers.remove(&map_id);
    VX_SUCCESS
}

/// Forgets a coordinate map.  Answers `-1` where no place for the handle was given.
pub fn vxReleaseRemap(refs: &mut References, place: u64, remap: u64) -> (status: vx_status)
    ensures
        status == if place == 0 {
            VX_FAILURE
        } else {
            VX_SUCCESS
        },
        final(refs).names@ == old(refs).names@,
        final(refs).counts@ == if place != 0 && remap != 0 {
            old(refs).counts@.remove(remap)
        } else {
            old(refs).counts@
        },
        final(refs).types@ == if place != 0 && remap != 0 {
            old(refs).types@.remove(remap)
        } else {
            old(refs).types@
        },
{
    if place == 0 {
        return VX_FAILURE;
    }
    if remap != 0 {
        refs.unregister(remap);
    }
    VX_SUCCESS
}

proof fn lemma_cells(
    user: Seq<u8>,
    map: Seq<u32>,
    rect: vx_rectangle_t,
    stride: int,
    width: int,
    y: int,
    n: nat,
)
    ensures
        with_cells(user, map, rect, stride, width, y, n).len() == user.len(),
        forall|p: int|
            0 <= p < user.len() && !((y - rect.start_y) * stride <= p < (y - rect.start_y) * stride
                + 8 * n) ==> #[trigger] with_cells(user, map, rect, stride, width, y, n)[p]
                == user[p],
        forall|i: int, j: int|
            0 <= i < n && 0 <= j < 8 && 0 <= (y - rect.start_y) * stride && (y - rect.start_y)
                * stride + 8 * i + j < user.len() ==> #[trigger] with_cells(
                user,
                map,
                rect,
                stride,
                width,
                y,
                n,
            )[(y - rect.start_y) * stride + 8 * i + j] == cell_byte(
                map,
                width,
                rect.start_x + i,
                y,
                j,
            ),
    decreases n,
{
    if n > 0 {
        lemma_cells(user, map, rect, stride, width, y, (n - 1) as nat);
    }
}

/// A byte of the coordinates of a pixel.
pub open spec fn cell_byte(map: Seq<u32>, width: int, x: int, y: int, j: int) -> u8 {
    if j < 4 {
        crate::scalar::bytes4(map[2 * (y * width + x)])[j]
    } else {
        crate::scalar::bytes4(map[2 * (y * width + x) + 1])[j - 4]
    }
}

proof fn lemma_rows(
    user: Seq<u8>,
    map: Seq<u32>,
    rect: vx_rectangle_t,
    stride: int,
    width: int,
    n: nat,
    x: int,
    y: int,
    j: int,
)
    requires
        columns_of(rect) * 8 <= stride,
        rect.start_x <= x < rect.end_x,
        rect.start_y <= y < rect.start_y + n,
        0 <= j < 8,
        0 <= cell_offset(rect, stride, x, y) + j < user.len(),
    ensures
        with_rows(user, map, rect, stride, width, n).len() == user.len(),
        with_rows(user, map, rect, stride, width, n)[cell_offset(rect, stride, x, y) + j]
            == cell_byte(map, width, x, y, j),
    decreases n,
{
    let before = with_rows(user, map, rect, stride, width, (n - 1) as nat);
    let last = rect.start_y + n - 1;
    lemma_rows_len(user, map, rect, stride, width, (n - 1) as nat);
    lemma_cells(before, map, rect, stride, width, last, columns_of(rect));
    let row = y - rect.start_y;
    assert(0 <= row * stride) by (nonlinear_arith)
        requires
            0 <= row,
            0 <= stride,
    ;
    if y == last {
        let i = x - rect.start_x;
        assert((last - rect.start_y) * stride + 8 * i + j == cell_offset(rect, stride, x, y) + j);
    } else {
        lemma_rows(user, map, rect, stride, width, (n - 1) as nat, x, y, j);
        assert(row * stride + stride <= (n - 1) * stride) by (nonlinear_arith)
            requires
                row + 1 <= n - 1,
                0 <= stride,
        ;
        assert((last - rect.start_y) * stride == (n - 1) * stride);
    }
}

proof fn lemma_rows_len(
    user: Seq<u8>,
    map: Seq<u32>,
    rect: vx_rectangle_t,
    stride: int,
    width: int,
    n: nat,
)
    ensures
        with_rows(user, map, rect, stride, width, n).len() == user.len(),
    decreases n,
{
    if n > 0 {
        lemma_rows_len(user, map, rect, stride, width, (n - 1) as nat);
        lemma_cells(
            with_rows(user, map, rect, stride, width, (n - 1) as nat),
            map,
            rect,
            stride,
            width,
            rect.start_y + n - 1,
            columns_of(rect),
        );
    }
}

proof fn lemma_number_bytes(b: Seq<u8>)
    requires
        b.len() == 4,
    ensures
        crate::scalar::bytes4(crate::scalar::number4(b) as u32) == b,
{
    let n = crate::scalar::number4(b) as u32;
    let q3 = b[3] as int;
    let q2 = b[2] + 256 * q3;
    let q1 = b[1] + 256 * q2;
    assert(n == b[0] + 256 * q1);
    assert(65536 * q2 <= n < 65536 * q2 + 65536);
    assert(16777216 * q3 <= n < 16777216 * q3 + 16777216);
    assert(n / 256 == q1);
    assert(n / 65536 == q2);
    assert(n / 16777216 == q3);
    assert(n % 256 == b[0]);
    assert(q1 % 256 == b[1]);
    assert(q2 % 256 == b[2]);
    assert(crate::scalar::bytes4(n) =~= b);
}

/// Reading a patch gives back what was written to it, where rows do not overlap in
/// memory.
pub proof fn law_patch_round_trip(
    m: VxCRemap,
    user: Seq<u8>,
    other: Seq<u8>,
    rect: vx_rectangle_t,
    stride: int,
    x: int,
    y: int,
    j: int,
)
    requires
        m.wf(),
        !is_outside(m, rect),
        columns_of(rect) * 8 <= stride,
        patch_bytes(rect, stride) <= user.len(),
        patch_bytes(rect, stride) <= other.len(),
        rect.start_x <= x < rect.end_x,
        rect.start_y <= y < rect.end_y,
        0 <= j < 8,
    ensures
        read_patch(
            other,
            written_patch(m.map_data@, user, rect, stride, m.dst_width as int),
            rect,
            stride,
            m.dst_width as int,
        )[cell_offset(rect, stride, x, y) + j] == user[cell_offset(rect, stride, x, y) + j],
{
    let width = m.dst_width as int;
    let map = written_patch(m.map_data@, user, rect, stride, width);
    let at = cell_offset(rect, stride, x, y);
    lemma_cell_fits(rect, stride, x, y, user.len() as int);
    lemma_cell_fits(rect, stride, x, y, other.len() as int);
    lemma_index_fits(width, m.dst_height as int, x, y);
    lemma_rows(other, map, rect, stride, width, rows_of(rect), x, y, j);
    let i = 2 * (y * width + x);
    lemma_pixel(width, x, y, i);
    lemma_pixel(width, x, y, i + 1);
    assert(i % 2 == 0 && (i + 1) % 2 == 1);
    lemma_number_bytes(user.subrange(at, at + 4));
    lemma_number_bytes(user.subrange(at + 4, at + 8));
}

/// Writing a patch leaves the coordinates of all other pixels alone.
pub proof fn law_patch_leaves_the_rest(
    m: VxCRemap,
    user: Seq<u8>,
    rect: vx_rectangle_t,
    stride: int,
    i: int,
)
    requires
        0 <= i < m.map_data@.len(),
        !(rect.start_x <= column_at(m.dst_width as int, i) < rect.end_x && rect.start_y <= row_at(
            m.dst_width as int,
            i,
        ) < rect.end_y),
    ensures
        written_patch(m.map_data@, user, rect, stride, m.dst_width as int)[i] == m.map_data@[i],
{
}

/// A patch that is written gives each of its pixels two numbers of four bytes, low
/// byte first, the column of the source before its row: pixels lie eight bytes
/// apart, rows a stride, from the corner of the patch on.
pub proof fn law_written_patch_is_read_from_its_place(
    map: Seq<u32>,
    user: Seq<u8>,
    rect: vx_rectangle_t,
    stride: int,
    width: int,
    height: int,
    x: int,
    y: int,
    c: int,
)
    requires
        map.len() == width * height * 2,
        rect.start_x <= x < rect.end_x <= width,
        rect.start_y <= y < rect.end_y <= height,
        0 <= c < 2,
    ensures
        ({
            let at = (y - rect.start_y) * stride + 8 * (x - rect.start_x) + 4 * c;
            written_patch(map, user, rect, stride, width)[2 * (y * width + x) + c]
                == crate::scalar::number4(user.subrange(at, at + 4)) as u32
        }),
        written_patch(map, user, rect, stride, width).len() == map.len(),
{
    let i = 2 * (y * width + x) + c;
    assert(i / 2 == y * width + x && i % 2 == c);
    vstd::arithmetic::div_mod::lemma_fundamental_div_mod_converse(y * width + x, width, y, x);
    assert(0 <= y * width && i < width * height * 2) by (nonlinear_arith)
        requires
            0 <= x < width,
            0 <= y < height,
            0 <= c < 2,
            i == 2 * (y * width + x) + c,
    ;
}

/// A patch of a coordinate map is refused where it leaves the destination, or where
/// a place or the map is missing, or where the memory is not the host's.
pub proof fn law_patches_stay_inside(
    remaps: Map<u64, VxCRemap>,
    remap: u64,
    rect: vx_rectangle_t,
    places_given: bool,
    mem_type: vx_enum,
)
    ensures
        patch_status(remaps, remap, rect, places_given, mem_type) == VX_SUCCESS <==> remap != 0
            && places_given && mem_type == VX_MEMORY_TYPE_HOST && remaps.contains_key(remap)
            && rect.start_x < remaps[remap].dst_width && rect.start_y < remaps[remap].dst_height
            && rect.end_x <= remaps[remap].dst_width && rect.end_y <= remaps[remap].dst_height,
{
}

/// What can be asked of a coordinate map: how wide and high the images before and
/// behind it are.
pub proof fn law_remap_answers(m: VxCRemap, size: usize)
    requires
        size >= 4,
    ensures
        remap_attribute(m, VX_REMAP_SOURCE_WIDTH, size) == Ok::<Value, vx_status>(
            Value::Number(m.src_width),
        ),
        remap_attribute(m, VX_REMAP_SOURCE_HEIGHT, size) == Ok::<Value, vx_status>(
            Value::Number(m.src_height),
        ),
        remap_attribute(m, VX_REMAP_DESTINATION_WIDTH, size) == Ok::<Value, vx_status>(
            Value::Number(m.dst_width),
        ),
        remap_attribute(m, VX_REMAP_DESTINATION_HEIGHT, size) == Ok::<Value, vx_status>(
            Value::Number(m.dst_height),
        ),
        remap_attribute(m, VX_REMAP_SOURCE_WIDTH, 3) is Err,
{
}

/// A patch takes eight bytes for each pixel of its last row and a stride for every
/// row before.
pub proof fn law_patch_sizes(rect: vx_rectangle_t, stride_y: usize)
    requires
        rect.start_x < rect.end_x,
        rect.start_y < rect.end_y,
    ensures
        columns_of(rect) == rect.end_x - rect.start_x,
        rows_of(rect) == rect.end_y - rect.start_y,
        row_stride(rect, 0) == 8 * (rect.end_x - rect.start_x),
        stride_y > 0 ==> row_stride(rect, stride_y) == stride_y,
        patch_bytes(rect, stride_y as int) == (rect.end_y - rect.start_y - 1) * stride_y + 8 * (
        rect.end_x - rect.start_x),
{
}

/// A patch without columns or rows has no bytes.
pub proof fn law_empty_patches(rect: vx_rectangle_t, stride: int)
    requires
        rect.start_x >= rect.end_x || rect.start_y >= rect.end_y,
    ensures
        patch_bytes(rect, stride) == 0,
{
}

} // verus!

//! Matrices, convolution matrices and the masks that patterns make.
use vstd::prelude::*;
use crate::constants::{
    VX_CONVOLUTION_COLUMNS, VX_CONVOLUTION_ROWS, VX_CONVOLUTION_SCALE, VX_CONVOLUTION_SIZE,
    VX_MATRIX_COLUMNS, VX_MATRIX_ELEMENT_SIZE, VX_MATRIX_ORIGIN, VX_MATRIX_PATTERN,
    VX_MATRIX_ROWS, VX_MATRIX_SIZE, VX_MATRIX_TYPE,
};
use crate::records::{VxCConvolution, VxCMatrix};
use crate::tensors::element_size;
use crate::types::{
    VX_ERROR_INVALID_PARAMETERS, VX_ERROR_INVALID_REFERENCE, VX_ERROR_NOT_SUPPORTED, VX_SUCCESS,
    VX_TYPE_UINT8, vx_coordinates2d_t, vx_enum, vx_status,
};
use crate::values::{
    ENUM_BYTES, NUMBER_BYTES, POINT_BYTES, SIZE_BYTES, Value, hand_out, hand_out_exactly,
};
use std::collections::HashMap;

verus! {

broadcast use vstd::std_specs::hash::group_hash_axioms;

pub const VX_PATTERN_BOX: vx_enum = 94208;
pub const VX_PATTERN_CROSS: vx_enum = 94209;
pub const VX_PATTERN_DISK: vx_enum = 94210;

/// The value of an attribute of a matrix whose elements take `element_size` bytes.
pub open spec fn matrix_attribute(
    m: VxCMatrix,
    element_size: usize,
    attribute: vx_enum,
    size: usize,
) -> Result<Value, vx_status> {
    let error = VX_ERROR_INVALID_PARAMETERS;
    if attribute == VX_MATRIX_TYPE {
        crate::values::with_room(size, ENUM_BYTES, Value::Enum(m.data_type), error)
    } else if attribute == VX_MATRIX_ROWS {
        crate::values::with_room(size, SIZE_BYTES, Value::Size(m.rows), error)
    } else if attribute == VX_MATRIX_COLUMNS {
        crate::values::with_room(size, SIZE_BYTES, Value::Size(m.columns), error)
    } else if attribute == VX_MATRIX_SIZE {
        crate::values::with_room(
            size,
            SIZE_BYTES,
            Value::Size((m.columns * m.rows * element_size) as usize),
            error,
        )
    } else if attribute == VX_MATRIX_PATTERN {
        crate::values::with_room(size, ENUM_BYTES, Value::Enum(m.pattern), error)
    } else if attribute == VX_MATRIX_ORIGIN {
        crate::values::with_room(
            size,
            POINT_BYTES,
            Value::Point(
                vx_coordinates2d_t {
                    x: (m.origin_x as int % 0x1_0000_0000) as u32,
                    y: (m.origin_y as int % 0x1_0000_0000) as u32,
                },
            ),
            error,
        )
    } else if attribute == VX_MATRIX_ELEMENT_SIZE {
        crate::values::with_room(size, SIZE_BYTES, Value::Size(element_size), error)
    } else {
        Err(VX_ERROR_NOT_SUPPORTED)
    }
}

fn low_word(n: usize) -> (r: u32)
    ensures
        r == n as int % 0x1_0000_0000,
{
    (n as u64 % 0x1_0000_0000) as u32
}

/// Reads an attribute of a matrix.  `element_size` is what an element of the
/// matrix's type takes.
pub fn vxQueryMatrix(
    matrices: &HashMap<u64, VxCMatrix>,
    matrix: u64,
    element_size: usize,
    attribute: vx_enum,
    ptr: u64,
    size: usize,
) -> (r: Result<Value, vx_status>)
    requires
        attribute == VX_MATRIX_SIZE && matrices@.contains_key(matrix) ==> matrices@[matrix].columns
            * matrices@[matrix].rows * element_size <= usize::MAX && matrices@[matrix].columns
            * matrices@[matrix].rows <= usize::MAX,
    ensures
        r == if matrix == 0 || ptr == 0 || !matrices@.contains_key(matrix) {
            Err(VX_ERROR_INVALID_REFERENCE)
        } else {
            matrix_attribute(matrices@[matrix], element_size, attribute, size)
        },
{
    if matrix == 0 || ptr == 0 {
        return Err(VX_ERROR_INVALID_REFERENCE);
    }
    let m = match matrices.get(&matrix) {
        Some(m) => m,
        None => {
            return Err(VX_ERROR_INVALID_REFERENCE);
        },
    };
    let error: vx_status = VX_ERROR_INVALID_PARAMETERS;
    if attribute == VX_MATRIX_TYPE {
        hand_out(size, ENUM_BYTES, Value::Enum(m.data_type), error)
    } else if attribute == VX_MATRIX_ROWS {
        hand_out(size, SIZE_BYTES, Value::Size(m.rows), error)
    } else if attribute == VX_MATRIX_COLUMNS {
        hand_out(size, SIZE_BYTES, Value::Size(m.columns), error)
    } else if attribute == VX_MATRIX_SIZE {
        hand_out(size, SIZE_BYTES, Value::Size(m.columns * m.rows * element_size), error)
    } else if attribute == VX_MATRIX_PATTERN {
        hand_out(size, ENUM_BYTES, Value::Enum(m.pattern), error)
    } else if attribute == VX_MATRIX_ORIGIN {
        hand_out(
            size,
            POINT_BYTES,
            Value::Point(
                vx_coordinates2d_t { x: low_word(m.origin_x), y: low_word(m.origin_y) },
            ),
            error,
        )
    } else if attribute == VX_MATRIX_ELEMENT_SIZE {
        hand_out(size, SIZE_BYTES, Value::Size(element_size), error)
    } else {
        Err(VX_ERROR_NOT_SUPPORTED)
    }
}

/// A matrix with another origin.
pub open spec fn with_origin(m: VxCMatrix, origin: vx_coordinates2d_t) -> VxCMatrix {
    VxCMatrix { origin_x: origin.x as usize, origin_y: origin.y as usize, ..m }
}

/// Sets the origin of a matrix, the only attribute that can be set.
pub fn vxSetMatrixAttribute(
    matrices: &mut HashMap<u64, VxCMatrix>,
    matrix: u64,
    attribute: vx_enum,
    ptr: u64,
    size: usize,
    origin: vx_coordinates2d_t,
) -> (status: vx_status)
    ensures
        status == if matrix == 0 || ptr == 0 || !old(matrices)@.contains_key(matrix) {
            VX_ERROR_INVALID_REFERENCE
        } else if attribute != VX_MATRIX_ORIGIN {
            VX_ERROR_NOT_SUPPORTED
        } else if size < POINT_BYTES {
            VX_ERROR_INVALID_PARAMETERS
        } else {
            VX_SUCCESS
        },
        final(matrices)@ == if status == VX_SUCCESS {
            old(matrices)@.insert(matrix, with_origin(old(matrices)@[matrix], origin))
        } else {
            old(matrices)@
        },
{
    if matrix == 0 || ptr == 0 || !matrices.contains_key(&matrix) {
        return VX_ERROR_INVALID_REFERENCE;
    }
    if attribute != VX_MATRIX_ORIGIN {
        return VX_ERROR_NOT_SUPPORTED;
    }
    if size < POINT_BYTES {
        return VX_ERROR_INVALID_PARAMETERS;
    }
    if let Some(mut m) = matrices.remove(&matrix) {
        m.origin_x = origin.x as usize;
        m.origin_y = origin.y as usize;
        matrices.insert(matrix, m);
    }
    assert(matrices@ =~= old(matrices)@.insert(
        matrix,
        with_origin(old(matrices)@[matrix], origin),
    ));
    VX_SUCCESS
}

/// The origin that was set is read back.
pub proof fn law_origin_round_trip(
    m: VxCMatrix,
    origin: vx_coordinates2d_t,
    element_size: usize,
    size: usize,
)
    requires
        size >= POINT_BYTES,
    ensures
        matrix_attribute(with_origin(m, origin), element_size, VX_MATRIX_ORIGIN, size) == Ok::<
            Value,
            vx_status,
        >(Value::Point(origin)),
{
}

/// The value of an attribute of a convolution matrix.
pub open spec fn convolution_attribute(
    c: VxCConvolution,
    attribute: vx_enum,
    size: usize,
) -> Result<Value, vx_status> {
    let error = VX_ERROR_INVALID_PARAMETERS;
    if attribute == VX_CONVOLUTION_ROWS {
        crate::values::with_exact_room(size, SIZE_BYTES, Value::Size(c.rows), error)
    } else if attribute == VX_CONVOLUTION_COLUMNS {
        crate::values::with_exact_room(size, SIZE_BYTES, Value::Size(c.columns), error)
    } else if attribute == VX_CONVOLUTION_SCALE {
        crate::values::with_exact_room(size, NUMBER_BYTES, Value::Number(c.scale), error)
    } else if attribute == VX_CONVOLUTION_SIZE {
        crate::values::with_exact_room(
            size,
            SIZE_BYTES,
            Value::Size((c.columns * c.rows * 2) as usize),
            error,
        )
    } else {
        Err(VX_ERROR_NOT_SUPPORTED)
    }
}

/// Reads an attribute of a convolution matrix.
pub fn vxQueryConvolution(
    convolutions: &HashMap<u64, VxCConvolution>,
    conv: u64,
    attribute: vx_enum,
    ptr: u64,
    size: usize,
) -> (r: Result<Value, vx_status>)
    requires
        attribute == VX_CONVOLUTION_SIZE && convolutions@.contains_key(conv)
            ==> convolutions@[conv].columns * convolutions@[conv].rows * 2 <= usize::MAX,
    ensures
        r == if conv == 0 || ptr == 0 || !convolutions@.contains_key(conv) {
            Err(VX_ERROR_INVALID_REFERENCE)
        } else {
            convolution_attribute(convolutions@[conv], attribute, size)
        },
{
    if conv == 0 || ptr == 0 {
        return Err(VX_ERROR_INVALID_REFERENCE);
    }
    let c = match convolutions.get(&conv) {
        Some(c) => c,
        None => {
            return Err(VX_ERROR_INVALID_REFERENCE);
        },
    };
    let error: vx_status = VX_ERROR_INVALID_PARAMETERS;
    if attribute == VX_CONVOLUTION_ROWS {
        hand_out_exactly(size, SIZE_BYTES, Value::Size(c.rows), error)
    } else if attribute == VX_CONVOLUTION_COLUMNS {
        hand_out_exactly(size, SIZE_BYTES, Value::Size(c.columns), error)
    } else if attribute == VX_CONVOLUTION_SCALE {
        hand_out_exactly(size, NUMBER_BYTES, Value::Number(c.scale), error)
    } else if attribute == VX_CONVOLUTION_SIZE {
        hand_out_exactly(size, SIZE_BYTES, Value::Size(c.columns * c.rows * 2), error)
    } else {
        Err(VX_ERROR_NOT_SUPPORTED)
    }
}

/// Sets the scale of a convolution matrix, the only attribute that can be set.
pub fn vxSetConvolutionAttribute(
    convolutions: &mut HashMap<u64, VxCConvolution>,
    conv: u64,
    attribute: vx_enum,
    ptr: u64,
    size: usize,
    scale: u32,
) -> (status: vx_status)
    ensures
        status == if conv == 0 || ptr == 0 || !old(convolutions)@.contains_key(conv) {
            VX_ERROR_INVALID_REFERENCE
        } else if attribute != VX_CONVOLUTION_SCALE {
            VX_ERROR_NOT_SUPPORTED
        } else if size != NUMBER_BYTES {
            VX_ERROR_INVALID_PARAMETERS
        } else {
            VX_SUCCESS
        },
        final(convolutions)@ == if status == VX_SUCCESS {
            old(convolutions)@.insert(
                conv,
                VxCConvolution { scale, ..old(convolutions)@[conv] },
            )
        } else {
            old(convolutions)@
        },
{
    if conv == 0 || ptr == 0 || !convolutions.contains_key(&conv) {
        return VX_ERROR_INVALID_REFERENCE;
    }
    if attribute != VX_CONVOLUTION_SCALE {
        return VX_ERROR_NOT_SUPPORTED;
    }
    if size != NUMBER_BYTES {
        return VX_ERROR_INVALID_PARAMETERS;
    }
    if let Some(mut c) = convolutions.remove(&conv) {
        c.scale = scale;
        convolutions.insert(conv, c);
    }
    assert(convolutions@ =~= old(convolutions)@.insert(
        conv,
        VxCConvolution { scale, ..old(convolutions)@[conv] },
    ));
    VX_SUCCESS
}

/// The scale that was set is read back.
pub proof fn law_scale_round_trip(c: VxCConvolution, scale: u32)
    ensures
        convolution_attribute(
            VxCConvolution { scale, ..c },
            VX_CONVOLUTION_SCALE,
            NUMBER_BYTES,
        ) == Ok::<Value, vx_status>(Value::Number(scale)),
{
}

/// The distance of the middle of a cell from the middle of a line of `n` cells, in
/// half cells.
pub open spec fn off_centre(n: int, i: int) -> int {
    2 * i + 1 - n
}

/// Whether a pattern covers a cell of a mask: all of them, those in the middle row
/// or column, or those whose middle lies in the ellipse that fills the mask.
pub open spec fn is_covered(pattern: vx_enum, columns: int, rows: int, x: int, y: int) -> bool {
    if pattern == VX_PATTERN_BOX || pattern == 1 {
        true
    } else if pattern == VX_PATTERN_CROSS || pattern == 2 {
        y == rows / 2 || x == columns / 2
    } else if pattern == VX_PATTERN_DISK || pattern == 3 {
        (off_centre(columns, x) * rows) * (off_centre(columns, x) * rows) + (off_centre(rows, y)
            * columns) * (off_centre(rows, y) * columns) <= (columns * rows) * (columns * rows)
    } else {
        false
    }
}

/// The mask that a pattern makes, row after row: 255 where it covers a cell.
pub open spec fn pattern_mask(pattern: vx_enum, columns: int, rows: int) -> Seq<u8> {
    Seq::new(
        (columns * rows) as nat,
        |i: int|
            if is_covered(pattern, columns, rows, i % columns, i / columns) {
                255u8
            } else {
                0
            },
    )
}

fn distance(n: usize, i: usize) -> (r: u128)
    requires
        i < n,
    ensures
        r <= n,
        r == off_centre(n as int, i as int) || r == -off_centre(n as int, i as int),
{
    let twice: u128 = 2 * (i as u128) + 1;
    if twice >= n as u128 {
        twice - n as u128
    } else {
        n as u128 - twice
    }
}

proof fn lemma_square(a: int, bound: int)
    requires
        0 <= a <= bound,
        bound <= 0xFFFF_FFFF_FFFF_FFFF,
    ensures
        0 <= a * a <= bound * bound <= u128::MAX,
{
    assert(a * a <= bound * bound) by (nonlinear_arith)
        requires
            0 <= a <= bound,
    ;
    assert(bound * bound <= u128::MAX) by (nonlinear_arith)
        requires
            0 <= bound <= 0xFFFF_FFFF_FFFF_FFFF,
    ;
    assert(0 <= a * a) by (nonlinear_arith)
        requires
            0 <= a,
    ;
}

proof fn lemma_negated_square(a: int, b: int, n: int)
    requires
        a == b || a == -b,
    ensures
        (a * n) * (a * n) == (b * n) * (b * n),
{
    if a == -b {
        assert((a * n) * (a * n) == (b * n) * (b * n)) by (nonlinear_arith)
            requires
                a == -b,
        ;
    }
}

fn in_ellipse(columns: usize, rows: usize, x: usize, y: usize) -> (r: bool)
    requires
        x < columns,
        y < rows,
        columns * rows <= usize::MAX,
    ensures
        r == is_covered(VX_PATTERN_DISK, columns as int, rows as int, x as int, y as int),
{
    let dx = distance(columns, x);
    let dy = distance(rows, y);
    let ghost area = columns * rows;
    proof {
        assert(dx * rows <= columns * rows) by (nonlinear_arith)
            requires
                dx <= columns,
        ;
        assert(dy * columns <= columns * rows) by (nonlinear_arith)
            requires
                dy <= rows,
        ;
        lemma_square(dx * rows, area);
        lemma_square(dy * columns, area);
        lemma_square(area, area);
        lemma_negated_square(dx as int, off_centre(columns as int, x as int), rows as int);
        lemma_negated_square(dy as int, off_centre(rows as int, y as int), columns as int);
    }
    let a: u128 = dx * (rows as u128);
    let b: u128 = dy * (columns as u128);
    let c: u128 = (columns as u128) * (rows as u128);
    a * a <= c * c - b * b
}

fn covers(pattern: vx_enum, columns: usize, rows: usize, x: usize, y: usize) -> (r: bool)
    requires
        x < columns,
        y < rows,
        columns * rows <= usize::MAX,
    ensures
        r == is_covered(pattern, columns as int, rows as int, x as int, y as int),
{
    if pattern == VX_PATTERN_BOX || pattern == 1 {
        true
    } else if pattern == VX_PATTERN_CROSS || pattern == 2 {
        y == rows / 2 || x == columns / 2
    } else if pattern == VX_PATTERN_DISK || pattern == 3 {
        in_ellipse(columns, rows, x, y)
    } else {
        false
    }
}

/// Generates the mask that a pattern makes.
pub fn generate_pattern_data(pattern: vx_enum, cols: usize, rows: usize) -> (r: Vec<u8>)
    requires
        cols * rows <= usize::MAX,
    ensures
        r@ == pattern_mask(pattern, cols as int, rows as int),
{
    let ghost mask = pattern_mask(pattern, cols as int, rows as int);
    let mut data: Vec<u8> = Vec::new();
    for y in 0..rows
        invariant
            cols * rows <= usize::MAX,
            mask == pattern_mask(pattern, cols as int, rows as int),
            data@.len() == y * cols,
            forall|i: int| 0 <= i < data@.len() ==> data@[i] == mask[i],
    {
        proof {
            assert((y + 1) * cols <= cols * rows) by (nonlinear_arith)
                requires
                    y + 1 <= rows,
            ;
            assert((y + 1) * cols == y * cols + cols) by (nonlinear_arith);
        }
        for x in 0..cols
            invariant
                y < rows,
                cols * rows <= usize::MAX,
                mask == pattern_mask(pattern, cols as int, rows as int),
                y * cols + cols <= cols * rows,
                data@.len() == y * cols + x,
                forall|i: int| 0 <= i < data@.len() ==> data@[i] == mask[i],
        {
            proof {
                vstd::arithmetic::div_mod::lemma_fundamental_div_mod_converse(
                    y * cols + x,
                    cols as int,
                    y as int,
                    x as int,
                );
            }
            if covers(pattern, cols, rows, x, y) {
                data.push(255);
            } else {
                data.push(0);
            }
        }
    }
    assert(rows * cols == cols * rows) by (nonlinear_arith);
    assert(data@ =~= mask);
    data
}

/// A matrix of bytes with the mask that a pattern makes, its origin in the middle.
pub open spec fn is_pattern_matrix(
    m: VxCMatrix,
    pattern: vx_enum,
    columns: usize,
    rows: usize,
    origin_x: usize,
    origin_y: usize,
) -> bool {
    &&& m.data_type == VX_TYPE_UINT8
    &&& m.columns == columns
    &&& m.rows == rows
    &&& m.pattern == pattern
    &&& m.origin_x == origin_x
    &&& m.origin_y == origin_y
    &&& m.data@ == pattern_mask(pattern, columns as int, rows as int)
}

/// Creates a matrix from a pattern.  There is none without a context or cells.
pub fn vxCreateMatrixFromPattern(
    context: u64,
    pattern: vx_enum,
    columns: usize,
    rows: usize,
) -> (r: Option<VxCMatrix>)
    requires
        context != 0 ==> columns * rows <= usize::MAX,
    ensures
        match r {
            Some(m) => context != 0 && columns != 0 && rows != 0 && is_pattern_matrix(
                m,
                pattern,
                columns,
                rows,
                columns / 2,
                rows / 2,
            ),
            None => context == 0 || columns == 0 || rows == 0,
        },
{
    if context == 0 || columns == 0 || rows == 0 {
        return None;
    }
    Some(
        VxCMatrix {
            data_type: VX_TYPE_UINT8,
            rows,
            columns,
            origin_x: columns / 2,
            origin_y: rows / 2,
            pattern,
            data: generate_pattern_data(pattern, columns, rows),
        },
    )
}

/// Creates a matrix from a pattern, with its origin anywhere.  There is none without
/// a context.
pub fn vxCreateMatrixFromPatternAndOrigin(
    context: u64,
    pattern: vx_enum,
    cols: usize,
    rows: usize,
    origin_x: usize,
    origin_y: usize,
) -> (r: Option<VxCMatrix>)
    requires
        context != 0 ==> cols * rows <= usize::MAX,
    ensures
        match r {
            Some(m) => context != 0 && is_pattern_matrix(
                m,
                pattern,
                cols,
                rows,
                origin_x,
                origin_y,
            ),
            None => context == 0,
        },
{
    if context == 0 {
        return None;
    }
    Some(
        VxCMatrix {
            data_type: VX_TYPE_UINT8,
            rows,
            columns: cols,
            origin_x,
            origin_y,
            pattern,
            data: generate_pattern_data(pattern, cols, rows),
        },
    )
}

/// Every cell of a mask is either covered or not.
pub proof fn law_masks_are_binary(pattern: vx_enum, columns: int, rows: int, i: int)
    requires
        0 <= i < pattern_mask(pattern, columns, rows).len(),
    ensures
        pattern_mask(pattern, columns, rows)[i] == 0 || pattern_mask(pattern, columns, rows)[i]
            == 255,
{
}

/// A disk looks the same from both sides.
pub proof fn law_disk_is_symmetric(columns: int, rows: int, x: int, y: int)
    ensures
        is_covered(VX_PATTERN_DISK, columns, rows, x, y) == is_covered(
            VX_PATTERN_DISK,
            columns,
            rows,
            columns - 1 - x,
            y,
        ),
        is_covered(VX_PATTERN_DISK, columns, rows, x, y) == is_covered(
            VX_PATTERN_DISK,
            columns,
            rows,
            x,
            rows - 1 - y,
        ),
{
    lemma_negated_square(off_centre(columns, x), off_centre(columns, columns - 1 - x), rows);
    lemma_negated_square(off_centre(rows, y), off_centre(rows, rows - 1 - y), columns);
}

/// What can be asked of a matrix: its type, its rows, its columns, the bytes of all
/// its elements, its pattern, its origin and the bytes of one element.
pub proof fn law_matrix_answers(m: VxCMatrix, element_size: usize, size: usize)
    requires
        m.columns * m.rows * element_size <= usize::MAX,
        m.origin_x <= u32::MAX,
        m.origin_y <= u32::MAX,
    ensures
        size >= 4 ==> matrix_attribute(m, element_size, VX_MATRIX_TYPE, size) == Ok::<
            Value,
            vx_status,
        >(Value::Enum(m.data_type)),
        size >= 8 ==> matrix_attribute(m, element_size, VX_MATRIX_ROWS, size) == Ok::<
            Value,
            vx_status,
        >(Value::Size(m.rows)),
        size >= 8 ==> matrix_attribute(m, element_size, VX_MATRIX_COLUMNS, size) == Ok::<
            Value,
            vx_status,
        >(Value::Size(m.columns)),
        size >= 8 ==> matrix_attribute(m, element_size, VX_MATRIX_SIZE, size) == Ok::<
            Value,
            vx_status,
        >(Value::Size((m.rows * m.columns * element_size) as usize)),
        size >= 4 ==> matrix_attribute(m, element_size, VX_MATRIX_PATTERN, size) == Ok::<
            Value,
            vx_status,
        >(Value::Enum(m.pattern)),
        size >= 8 ==> matrix_attribute(m, element_size, VX_MATRIX_ORIGIN, size) == Ok::<
            Value,
            vx_status,
        >(Value::Point(vx_coordinates2d_t { x: m.origin_x as u32, y: m.origin_y as u32 })),
        size >= 8 ==> matrix_attribute(m, element_size, VX_MATRIX_ELEMENT_SIZE, size) == Ok::<
            Value,
            vx_status,
        >(Value::Size(element_size)),
        size < 4 ==> !(matrix_attribute(m, element_size, VX_MATRIX_TYPE, size) is Ok),
        size < 8 ==> !(matrix_attribute(m, element_size, VX_MATRIX_ROWS, size) is Ok),
        size < 8 ==> !(matrix_attribute(m, element_size, VX_MATRIX_ORIGIN, size) is Ok),
{
    assert(m.columns * m.rows == m.rows * m.columns) by (nonlinear_arith);
}

/// What can be asked of a convolution matrix, in exactly the room for the answer:
/// its rows, its columns, its scale and two bytes for each coefficient.
pub proof fn law_convolution_answers(c: VxCConvolution)
    requires
        c.columns * c.rows * 2 <= usize::MAX,
    ensures
        convolution_attribute(c, VX_CONVOLUTION_ROWS, 8) == Ok::<Value, vx_status>(
            Value::Size(c.rows),
        ),
        convolution_attribute(c, VX_CONVOLUTION_COLUMNS, 8) == Ok::<Value, vx_status>(
            Value::Size(c.columns),
        ),
        convolution_attribute(c, VX_CONVOLUTION_SCALE, 4) == Ok::<Value, vx_status>(
            Value::Number(c.scale),
        ),
        convolution_attribute(c, VX_CONVOLUTION_SIZE, 8) == Ok::<Value, vx_status>(
            Value::Size((2 * (c.rows * c.columns)) as usize),
        ),
        forall|attribute: vx_enum, size: usize|
            size != 4 && size != 8 ==> !(#[trigger] convolution_attribute(c, attribute, size)
                is Ok),
{
    assert(c.columns * c.rows == c.rows * c.columns) by (nonlinear_arith);
}

/// A box covers every cell.
pub proof fn law_box_covers_everything(columns: int, rows: int, x: int, y: int)
    requires
        0 <= x < columns,
        0 <= y < rows,
    ensures
        cell_of(VX_PATTERN_BOX, columns, rows, x, y) == 255,
        cell_of(1, columns, rows, x, y) == 255,
{
    lemma_cell(VX_PATTERN_BOX, columns, rows, x, y);
    lemma_cell(1, columns, rows, x, y);
}

/// A cross covers the middle row and the middle column, and nothing else.
pub proof fn law_cross_covers_the_middle(columns: int, rows: int, x: int, y: int)
    requires
        0 <= x < columns,
        0 <= y < rows,
    ensures
        cell_of(VX_PATTERN_CROSS, columns, rows, x, y) == if x == columns / 2 || y == rows / 2 {
            255u8
        } else {
            0u8
        },
        cell_of(2, columns, rows, x, y) == cell_of(VX_PATTERN_CROSS, columns, rows, x, y),
{
    lemma_cell(VX_PATTERN_CROSS, columns, rows, x, y);
    lemma_cell(2, columns, rows, x, y);
}

/// A disk as wide as it is high covers the cells whose middle is no further from
/// its own middle than half its width: in half cells, the squares of the two
/// distances add up to no more than the square of its width.
pub proof fn law_disk_is_round(n: int, x: int, y: int)
    requires
        0 <= x < n,
        0 <= y < n,
    ensures
        cell_of(VX_PATTERN_DISK, n, n, x, y) == if (2 * x + 1 - n) * (2 * x + 1 - n) + (2 * y + 1
            - n) * (2 * y + 1 - n) <= n * n {
            255u8
        } else {
            0u8
        },
        cell_of(3, n, n, x, y) == cell_of(VX_PATTERN_DISK, n, n, x, y),
{
    lemma_cell(VX_PATTERN_DISK, n, n, x, y);
    lemma_cell(3, n, n, x, y);
    let a = 2 * x + 1 - n;
    let b = 2 * y + 1 - n;
    let s = n * n;
    assert((a * n) * (a * n) + (b * n) * (b * n) == (a * a + b * b) * s) by (nonlinear_arith)
        requires
            s == n * n,
    ;
    assert(s > 0) by (nonlinear_arith)
        requires
            s == n * n,
            n > 0,
    ;
    let r = a * a + b * b;
    assert(r * s <= s * s <==> r <= s) by (nonlinear_arith)
        requires
            s > 0,
    ;
}

/// A pattern that is none of these covers nothing.
pub proof fn law_other_patterns_cover_nothing(
    pattern: vx_enum,
    columns: int,
    rows: int,
    x: int,
    y: int,
)
    requires
        0 <= x < columns,
        0 <= y < rows,
        pattern != VX_PATTERN_BOX && pattern != VX_PATTERN_CROSS && pattern != VX_PATTERN_DISK,
        pattern < 1 || pattern > 3,
    ensures
        cell_of(pattern, columns, rows, x, y) == 0,
{
    lemma_cell(pattern, columns, rows, x, y);
}

/// The cell of a mask in a column and a row.
pub open spec fn cell_of(pattern: vx_enum, columns: int, rows: int, x: int, y: int) -> u8 {
    pattern_mask(pattern, columns, rows)[y * columns + x]
}

proof fn lemma_cell(pattern: vx_enum, columns: int, rows: int, x: int, y: int)
    requires
        0 <= x < columns,
        0 <= y < rows,
    ensures
        cell_of(pattern, columns, rows, x, y) == if is_covered(pattern, columns, rows, x, y) {
            255u8
        } else {
            0u8
        },
        pattern_mask(pattern, columns, rows).len() == columns * rows,
{
    let i = y * columns + x;
    vstd::arithmetic::div_mod::lemma_fundamental_div_mod_converse(i, columns, y, x);
    assert(0 <= y * columns && i < columns * rows) by (nonlinear_arith)
        requires
            0 <= x < columns,
            0 <= y < rows,
            i == y * columns + x,
    ;
}

/// A matrix that was made from a pattern holds bytes, has the sides and the origin
/// that were asked for, and tells which pattern it holds.
pub proof fn law_pattern_matrices(
    m: VxCMatrix,
    pattern: vx_enum,
    columns: usize,
    rows: usize,
    origin_x: usize,
    origin_y: usize,
)
    requires
        is_pattern_matrix(m, pattern, columns, rows, origin_x, origin_y),
    ensures
        m.data_type == VX_TYPE_UINT8,
        m.columns == columns && m.rows == rows,
        m.origin_x == origin_x && m.origin_y == origin_y,
        m.pattern == pattern,
        m.data@ == pattern_mask(pattern, columns as int, rows as int),
{
}

/// A pattern without an origin has it in the middle: it is the pattern with its
/// origin at half the columns and half the rows.
pub proof fn law_patterns_are_centred(
    context: u64,
    pattern: vx_enum,
    columns: usize,
    rows: usize,
    plain: Option<VxCMatrix>,
    placed: Option<VxCMatrix>,
)
    requires
        call_ensures(vxCreateMatrixFromPattern, (context, pattern, columns, rows), plain),
        call_ensures(
            vxCreateMatrixFromPatternAndOrigin,
            (context, pattern, columns, rows, columns / 2, rows / 2),
            placed,
        ),
    ensures
        plain is Some <==> context != 0 && columns != 0 && rows != 0,
        placed is Some <==> context != 0,
        plain is Some ==> {
            let m = plain->0;
            let o = placed->0;
            &&& m.data@ == o.data@
            &&& m.origin_x == o.origin_x && m.origin_y == o.origin_y
            &&& 2 * m.origin_x <= columns < 2 * m.origin_x + 2
            &&& 2 * m.origin_y <= rows < 2 * m.origin_y + 2
            &&& m.columns == o.columns && m.rows == o.rows && m.data_type == o.data_type
            &&& m.pattern == o.pattern
        },
{
}

} // verus!

//! What a meta format takes over from an object.
use vstd::prelude::*;
use crate::constants::{
    VX_DISTRIBUTION_BINS, VX_DISTRIBUTION_OFFSET, VX_DISTRIBUTION_RANGE, VX_LUT_COUNT,
    VX_LUT_TYPE, VX_MATRIX_COLUMNS, VX_MATRIX_ROWS, VX_MATRIX_TYPE, VX_META_FORMAT_IMAGE_FORMAT,
    VX_META_FORMAT_IMAGE_HEIGHT, VX_META_FORMAT_IMAGE_WIDTH, VX_OBJECT_ARRAY_ITEMTYPE,
    VX_OBJECT_ARRAY_NUMITEMS, VX_PYRAMID_FORMAT, VX_PYRAMID_HEIGHT, VX_PYRAMID_LEVELS,
    VX_PYRAMID_SCALE, VX_PYRAMID_WIDTH, VX_REMAP_DESTINATION_HEIGHT, VX_REMAP_DESTINATION_WIDTH,
    VX_REMAP_SOURCE_HEIGHT, VX_REMAP_SOURCE_WIDTH, VX_TENSOR_DATA_TYPE, VX_TENSOR_DIMS,
    VX_TENSOR_FIXED_POINT_POSITION, VX_TENSOR_NUMBER_OF_DIMS, VX_THRESHOLD_DATA_TYPE,
    VX_THRESHOLD_TYPE,
};
use crate::exemplars::Blueprint;
use crate::records::VxMetaFormat;
use crate::scalar::{split4, split8, to_bits32};
use crate::types::vx_enum;

verus! {

broadcast use vstd::std_specs::hash::group_hash_axioms;

pub const VX_SCALAR_TYPE: vx_enum = 0x80D00;

pub const VX_ARRAY_ITEMTYPE: vx_enum = 0x80E00;

pub const VX_ARRAY_CAPACITY: vx_enum = 0x80E02;

pub const VX_USER_DATA_OBJECT_NAME: vx_enum = 0x81600;

pub const VX_USER_DATA_OBJECT_SIZE: vx_enum = 0x81601;

/// The bytes of each attribute of a meta format.
pub open spec fn attribute_bytes(m: VxMetaFormat) -> Map<i32, Seq<u8>> {
    m.attributes@.map_values(|bytes: Vec<u8>| bytes@)
}

/// The bytes of an enumeration.
pub open spec fn enum_bytes(v: vx_enum) -> Seq<u8> {
    crate::scalar::bytes4(crate::scalar::bits32(v))
}

/// The bytes of a size.
pub open spec fn size_bytes(n: usize) -> Seq<u8> {
    crate::scalar::bytes8(n as u64)
}

/// The bytes of some sizes, one after the other.
pub open spec fn sizes_bytes(list: Seq<usize>) -> Seq<u8>
    decreases list.len(),
{
    if list.len() == 0 {
        Seq::empty()
    } else {
        sizes_bytes(list.drop_last()) + size_bytes(list.last())
    }
}

/// The byte of a small number.
pub open spec fn small_byte(n: i8) -> u8 {
    if n < 0 {
        (n + 256) as u8
    } else {
        n as u8
    }
}

/// Attributes with those of an object put in, each under the number by which an
/// object of its type answers it; those of an image under the numbers that a meta
/// format has for images.
pub open spec fn described(
    m: Map<i32, Seq<u8>>,
    b: crate::exemplars::BlueprintSpec,
) -> Map<i32, Seq<u8>> {
    match b {
        crate::exemplars::BlueprintSpec::Image { width, height, format } => m.insert(
            VX_META_FORMAT_IMAGE_FORMAT,
            crate::scalar::bytes4(format),
        ).insert(VX_META_FORMAT_IMAGE_WIDTH, crate::scalar::bytes4(width)).insert(
            VX_META_FORMAT_IMAGE_HEIGHT,
            crate::scalar::bytes4(height),
        ),
        crate::exemplars::BlueprintSpec::Array { item_type, capacity } => m.insert(
            VX_ARRAY_ITEMTYPE,
            enum_bytes(item_type),
        ).insert(VX_ARRAY_CAPACITY, size_bytes(capacity)),
        crate::exemplars::BlueprintSpec::Pyramid { levels, scale_bits, width, height, format } =>
            m.insert(VX_PYRAMID_LEVELS, size_bytes(levels)).insert(
                VX_PYRAMID_SCALE,
                crate::scalar::bytes4(scale_bits),
            ).insert(VX_PYRAMID_WIDTH, crate::scalar::bytes4(width)).insert(
                VX_PYRAMID_HEIGHT,
                crate::scalar::bytes4(height),
            ).insert(VX_PYRAMID_FORMAT, crate::scalar::bytes4(format)),
        crate::exemplars::BlueprintSpec::Scalar { data_type } => m.insert(
            VX_SCALAR_TYPE,
            enum_bytes(data_type),
        ),
        crate::exemplars::BlueprintSpec::Matrix { data_type, columns, rows } => m.insert(
            VX_MATRIX_TYPE,
            enum_bytes(data_type),
        ).insert(VX_MATRIX_ROWS, size_bytes(rows)).insert(VX_MATRIX_COLUMNS, size_bytes(columns)),
        crate::exemplars::BlueprintSpec::Distribution { bins, offset, range } => m.insert(
            VX_DISTRIBUTION_BINS,
            size_bytes(bins),
        ).insert(VX_DISTRIBUTION_OFFSET, crate::scalar::bytes4(offset)).insert(
            VX_DISTRIBUTION_RANGE,
            crate::scalar::bytes4(range),
        ),
        crate::exemplars::BlueprintSpec::Remap { src_width, src_height, dst_width, dst_height } =>
            m.insert(VX_REMAP_SOURCE_WIDTH, crate::scalar::bytes4(src_width)).insert(
                VX_REMAP_SOURCE_HEIGHT,
                crate::scalar::bytes4(src_height),
            ).insert(VX_REMAP_DESTINATION_WIDTH, crate::scalar::bytes4(dst_width)).insert(
                VX_REMAP_DESTINATION_HEIGHT,
                crate::scalar::bytes4(dst_height),
            ),
        crate::exemplars::BlueprintSpec::Lut { data_type, count } => m.insert(
            VX_LUT_TYPE,
            enum_bytes(data_type),
        ).insert(VX_LUT_COUNT, size_bytes(count)),
        crate::exemplars::BlueprintSpec::Threshold { thresh_type, data_type } => m.insert(
            VX_THRESHOLD_TYPE,
            enum_bytes(thresh_type),
        ).insert(VX_THRESHOLD_DATA_TYPE, enum_bytes(data_type)),
        crate::exemplars::BlueprintSpec::ObjectArray { item_type, item, count } => m.insert(
            VX_OBJECT_ARRAY_ITEMTYPE,
            enum_bytes(item_type),
        ).insert(VX_OBJECT_ARRAY_NUMITEMS, size_bytes(count)),
        crate::exemplars::BlueprintSpec::UserDataObject { name, size } => m.insert(
            VX_USER_DATA_OBJECT_NAME,
            name,
        ).insert(VX_USER_DATA_OBJECT_SIZE, size_bytes(size)),
        crate::exemplars::BlueprintSpec::Tensor { dims, data_type, fixed_point_position } =>
            m.insert(VX_TENSOR_NUMBER_OF_DIMS, size_bytes(dims.len() as usize)).insert(
                VX_TENSOR_DIMS,
                sizes_bytes(dims),
            ).insert(VX_TENSOR_DATA_TYPE, enum_bytes(data_type)).insert(
                VX_TENSOR_FIXED_POINT_POSITION,
                seq![small_byte(fixed_point_position)],
            ),
    }
}

/// Puts an attribute in.
pub fn put_attribute(meta: &mut VxMetaFormat, attribute: vx_enum, bytes: Vec<u8>)
    ensures
        attribute_bytes(*final(meta)) == attribute_bytes(*old(meta)).insert(attribute, bytes@),
{
    meta.attributes.insert(attribute, bytes);
    assert(attribute_bytes(*meta) =~= attribute_bytes(*old(meta)).insert(attribute, bytes@));
}

fn put_enum(meta: &mut VxMetaFormat, attribute: vx_enum, v: vx_enum)
    ensures
        attribute_bytes(*final(meta)) == attribute_bytes(*old(meta)).insert(
            attribute,
            enum_bytes(v),
        ),
{
    put_attribute(meta, attribute, split4(to_bits32(v)));
}

fn put_number(meta: &mut VxMetaFormat, attribute: vx_enum, n: u32)
    ensures
        attribute_bytes(*final(meta)) == attribute_bytes(*old(meta)).insert(
            attribute,
            crate::scalar::bytes4(n),
        ),
{
    put_attribute(meta, attribute, split4(n));
}

fn put_size(meta: &mut VxMetaFormat, attribute: vx_enum, n: usize)
    ensures
        attribute_bytes(*final(meta)) == attribute_bytes(*old(meta)).insert(
            attribute,
            size_bytes(n),
        ),
{
    put_attribute(meta, attribute, split8(n as u64));
}

fn join_sizes(list: &Vec<usize>) -> (r: Vec<u8>)
    ensures
        r@ == sizes_bytes(list@),
{
    let mut r: Vec<u8> = Vec::new();
    for i in 0..list.len()
        invariant
            r@ == sizes_bytes(list@.take(i as int)),
    {
        let mut bytes = split8(list[i] as u64);
        r.append(&mut bytes);
        proof {
            assert(list@.take(i + 1).drop_last() =~= list@.take(i as int));
            assert(list@.take(i + 1).last() == list@[i as int]);
        }
    }
    assert(list@.take(list@.len() as int) =~= list@);
    r
}

/// Puts the attributes of an object in.
pub fn describe(meta: &mut VxMetaFormat, b: &Blueprint)
    ensures
        attribute_bytes(*final(meta)) == described(attribute_bytes(*old(meta)), b@),
{
    match b {
        Blueprint::Image { width, height, format } => {
            put_number(meta, VX_META_FORMAT_IMAGE_FORMAT, *format);
            put_number(meta, VX_META_FORMAT_IMAGE_WIDTH, *width);
            put_number(meta, VX_META_FORMAT_IMAGE_HEIGHT, *height);
        },
        Blueprint::Array { item_type, capacity } => {
            put_enum(meta, VX_ARRAY_ITEMTYPE, *item_type);
            put_size(meta, VX_ARRAY_CAPACITY, *capacity);
        },
        Blueprint::Pyramid { levels, scale_bits, width, height, format } => {
            put_size(meta, VX_PYRAMID_LEVELS, *levels);
            put_number(meta, VX_PYRAMID_SCALE, *scale_bits);
            put_number(meta, VX_PYRAMID_WIDTH, *width);
            put_number(meta, VX_PYRAMID_HEIGHT, *height);
            put_number(meta, VX_PYRAMID_FORMAT, *format);
        },
        Blueprint::Scalar { data_type } => {
            put_enum(meta, VX_SCALAR_TYPE, *data_type);
        },
        Blueprint::Matrix { data_type, columns, rows } => {
            put_enum(meta, VX_MATRIX_TYPE, *data_type);
            put_size(meta, VX_MATRIX_ROWS, *rows);
            put_size(meta, VX_MATRIX_COLUMNS, *columns);
        },
        Blueprint::Distribution { bins, offset, range } => {
            put_size(meta, VX_DISTRIBUTION_BINS, *bins);
            put_number(meta, VX_DISTRIBUTION_OFFSET, *offset);
            put_number(meta, VX_DISTRIBUTION_RANGE, *range);
        },
        Blueprint::Remap { src_width, src_height, dst_width, dst_height } => {
            put_number(meta, VX_REMAP_SOURCE_WIDTH, *src_width);
            put_number(meta, VX_REMAP_SOURCE_HEIGHT, *src_height);
            put_number(meta, VX_REMAP_DESTINATION_WIDTH, *dst_width);
            put_number(meta, VX_REMAP_DESTINATION_HEIGHT, *dst_height);
        },
        Blueprint::Lut { data_type, count } => {
            put_enum(meta, VX_LUT_TYPE, *data_type);
            put_size(meta, VX_LUT_COUNT, *count);
        },
        Blueprint::Threshold { thresh_type, data_type } => {
            put_enum(meta, VX_THRESHOLD_TYPE, *thresh_type);
            put_enum(meta, VX_THRESHOLD_DATA_TYPE, *data_type);
        },
        Blueprint::ObjectArray { item_type, item, count } => {
            put_enum(meta, VX_OBJECT_ARRAY_ITEMTYPE, *item_type);
            put_size(meta, VX_OBJECT_ARRAY_NUMITEMS, *count);
        },
        Blueprint::UserDataObject { name, size } => {
            let name_bytes = name.clone();
            assert(name_bytes@ =~= name@);
            put_attribute(meta, VX_USER_DATA_OBJECT_NAME, name_bytes);
            put_size(meta, VX_USER_DATA_OBJECT_SIZE, *size);
        },
        Blueprint::Tensor { dims, data_type, fixed_point_position } => {
            put_size(meta, VX_TENSOR_NUMBER_OF_DIMS, dims.len());
            put_attribute(meta, VX_TENSOR_DIMS, join_sizes(dims));
            put_enum(meta, VX_TENSOR_DATA_TYPE, *data_type);
            let n: i8 = *fixed_point_position;
            let byte: u8 = if n < 0 {
                (n as i16 + 256) as u8
            } else {
                n as u8
            };
            let one: Vec<u8> = vec![byte];
            assert(one@ =~= seq![small_byte(n)]);
            put_attribute(meta, VX_TENSOR_FIXED_POINT_POSITION, one);
        },
    }
}

/// A meta format takes over from an image each attribute under its own number, as the
/// bytes of its value, and leaves all other attributes alone.
pub proof fn law_image_is_described(m: Map<i32, Seq<u8>>, width: u32, height: u32, format: u32, other: i32)
    requires
        other != VX_META_FORMAT_IMAGE_FORMAT,
        other != VX_META_FORMAT_IMAGE_WIDTH,
        other != VX_META_FORMAT_IMAGE_HEIGHT,
    ensures
        ({
            let after = described(m, crate::exemplars::BlueprintSpec::Image { width, height, format });
            &&& after[VX_META_FORMAT_IMAGE_FORMAT].len() == 4 && crate::scalar::number4(after[VX_META_FORMAT_IMAGE_FORMAT]) == format
            &&& after[VX_META_FORMAT_IMAGE_WIDTH].len() == 4 && crate::scalar::number4(after[VX_META_FORMAT_IMAGE_WIDTH]) == width
            &&& after[VX_META_FORMAT_IMAGE_HEIGHT].len() == 4 && crate::scalar::number4(after[VX_META_FORMAT_IMAGE_HEIGHT]) == height
            &&& after.contains_key(other) == m.contains_key(other)
            &&& m.contains_key(other) ==> after[other] == m[other]
        }),
{
    crate::scalar::law_bytes_round_trip(format);
    crate::scalar::law_bytes_round_trip(width);
    crate::scalar::law_bytes_round_trip(height);
}

/// A meta format takes over from an array each attribute under its own number, as the
/// bytes of its value, and leaves all other attributes alone.
pub proof fn law_array_is_described(m: Map<i32, Seq<u8>>, item_type: vx_enum, capacity: usize, other: i32)
    requires
        other != VX_ARRAY_ITEMTYPE,
        other != VX_ARRAY_CAPACITY,
    ensures
        ({
            let after = described(m, crate::exemplars::BlueprintSpec::Array { item_type, capacity });
            &&& after[VX_ARRAY_ITEMTYPE].len() == 4 && crate::scalar::signed32(crate::scalar::number4(after[VX_ARRAY_ITEMTYPE])) == item_type
            &&& after[VX_ARRAY_CAPACITY].len() == 8 && crate::scalar::number8(after[VX_ARRAY_CAPACITY]) == capacity
            &&& after.contains_key(other) == m.contains_key(other)
            &&& m.contains_key(other) ==> after[other] == m[other]
        }),
{
    crate::scalar::law_bytes_round_trip(crate::scalar::bits32(item_type));
    crate::scalar::law_bits_round_trip(item_type);
    crate::scalar::law_long_bytes_round_trip(capacity as u64);
}

/// A meta format takes over from a pyramid each attribute under its own number, as the
/// bytes of its value, and leaves all other attributes alone.
pub proof fn law_pyramid_is_described(m: Map<i32, Seq<u8>>, levels: usize, scale_bits: u32, width: u32, height: u32, format: u32, other: i32)
    requires
        other != VX_PYRAMID_LEVELS,
        other != VX_PYRAMID_SCALE,
        other != VX_PYRAMID_WIDTH,
        other != VX_PYRAMID_HEIGHT,
        other != VX_PYRAMID_FORMAT,
    ensures
        ({
            let after = described(m, crate::exemplars::BlueprintSpec::Pyramid { levels, scale_bits, width, height, format });
            &&& after[VX_PYRAMID_LEVELS].len() == 8 && crate::scalar::number8(after[VX_PYRAMID_LEVELS]) == levels
            &&& after[VX_PYRAMID_SCALE].len() == 4 && crate::scalar::number4(after[VX_PYRAMID_SCALE]) == scale_bits
            &&& after[VX_PYRAMID_WIDTH].len() == 4 && crate::scalar::number4(after[VX_PYRAMID_WIDTH]) == width
            &&& after[VX_PYRAMID_HEIGHT].len() == 4 && crate::scalar::number4(after[VX_PYRAMID_HEIGHT]) == height
            &&& after[VX_PYRAMID_FORMAT].len() == 4 && crate::scalar::number4(after[VX_PYRAMID_FORMAT]) == format
            &&& after.contains_key(other) == m.contains_key(other)
            &&& m.contains_key(other) ==> after[other] == m[other]
        }),
{
    crate::scalar::law_long_bytes_round_trip(levels as u64);
    crate::scalar::law_bytes_round_trip(scale_bits);
    crate::scalar::law_bytes_round_trip(width);
    crate::scalar::law_bytes_round_trip(height);
    crate::scalar::law_bytes_round_trip(format);
}

/// A meta format takes over from a scalar each attribute under its own number, as the
/// bytes of its value, and leaves all other attributes alone.
pub proof fn law_scalar_is_described(m: Map<i32, Seq<u8>>, data_type: vx_enum, other: i32)
    requires
        other != VX_SCALAR_TYPE,
    ensures
        ({
            let after = described(m, crate::exemplars::BlueprintSpec::Scalar { data_type });
            &&& after[VX_SCALAR_TYPE].len() == 4 && crate::scalar::signed32(crate::scalar::number4(after[VX_SCALAR_TYPE])) == data_type
            &&& after.contains_key(other) == m.contains_key(other)
            &&& m.contains_key(other) ==> after[other] == m[other]
        }),
{
    crate::scalar::law_bytes_round_trip(crate::scalar::bits32(data_type));
    crate::scalar::law_bits_round_trip(data_type);
}

/// A meta format takes over from a matrix each attribute under its own number, as the
/// bytes of its value, and leaves all other attributes alone.
pub proof fn law_matrix_is_described(m: Map<i32, Seq<u8>>, data_type: vx_enum, columns: usize, rows: usize, other: i32)
    requires
        other != VX_MATRIX_TYPE,
        other != VX_MATRIX_ROWS,
        other != VX_MATRIX_COLUMNS,
    ensures
        ({
            let after = described(m, crate::exemplars::BlueprintSpec::Matrix { data_type, columns, rows });
            &&& after[VX_MATRIX_TYPE].len() == 4 && crate::scalar::signed32(crate::scalar::number4(after[VX_MATRIX_TYPE])) == data_type
            &&& after[VX_MATRIX_ROWS].len() == 8 && crate::scalar::number8(after[VX_MATRIX_ROWS]) == rows
            &&& after[VX_MATRIX_COLUMNS].len() == 8 && crate::scalar::number8(after[VX_MATRIX_COLUMNS]) == columns
            &&& after.contains_key(other) == m.contains_key(other)
            &&& m.contains_key(other) ==> after[other] == m[other]
        }),
{
    crate::scalar::law_bytes_round_trip(crate::scalar::bits32(data_type));
    crate::scalar::law_bits_round_trip(data_type);
    crate::scalar::law_long_bytes_round_trip(rows as u64);
    crate::scalar::law_long_bytes_round_trip(columns as u64);
}

/// A meta format takes over from a distribution each attribute under its own number, as the
/// bytes of its value, and leaves all other attributes alone.
pub proof fn law_distribution_is_described(m: Map<i32, Seq<u8>>, bins: usize, offset: u32, range: u32, other: i32)
    requires
        other != VX_DISTRIBUTION_BINS,
        other != VX_DISTRIBUTION_OFFSET,
        other != VX_DISTRIBUTION_RANGE,
    ensures
        ({
            let after = described(m, crate::exemplars::BlueprintSpec::Distribution { bins, offset, range });
            &&& after[VX_DISTRIBUTION_BINS].len() == 8 && crate::scalar::number8(after[VX_DISTRIBUTION_BINS]) == bins
            &&& after[VX_DISTRIBUTION_OFFSET].len() == 4 && crate::scalar::number4(after[VX_DISTRIBUTION_OFFSET]) == offset
            &&& after[VX_DISTRIBUTION_RANGE].len() == 4 && crate::scalar::number4(after[VX_DISTRIBUTION_RANGE]) == range
            &&& after.contains_key(other) == m.contains_key(other)
            &&& m.contains_key(other) ==> after[other] == m[other]
        }),
{
    crate::scalar::law_long_bytes_round_trip(bins as u64);
    crate::scalar::law_bytes_round_trip(offset);
    crate::scalar::law_bytes_round_trip(range);
}

/// A meta format takes over from a coordinate map each attribute under its own number, as the
/// bytes of its value, and leaves all other attributes alone.
pub proof fn law_remap_is_described(m: Map<i32, Seq<u8>>, src_width: u32, src_height: u32, dst_width: u32, dst_height: u32, other: i32)
    requires
        other != VX_REMAP_SOURCE_WIDTH,
        other != VX_REMAP_SOURCE_HEIGHT,
        other != VX_REMAP_DESTINATION_WIDTH,
        other != VX_REMAP_DESTINATION_HEIGHT,
    ensures
        ({
            let after = described(m, crate::exemplars::BlueprintSpec::Remap { src_width, src_height, dst_width, dst_height });
            &&& after[VX_REMAP_SOURCE_WIDTH].len() == 4 && crate::scalar::number4(after[VX_REMAP_SOURCE_WIDTH]) == src_width
            &&& after[VX_REMAP_SOURCE_HEIGHT].len() == 4 && crate::scalar::number4(after[VX_REMAP_SOURCE_HEIGHT]) == src_height
            &&& after[VX_REMAP_DESTINATION_WIDTH].len() == 4 && crate::scalar::number4(after[VX_REMAP_DESTINATION_WIDTH]) == dst_width
            &&& after[VX_REMAP_DESTINATION_HEIGHT].len() == 4 && crate::scalar::number4(after[VX_REMAP_DESTINATION_HEIGHT]) == dst_height
            &&& after.contains_key(other) == m.contains_key(other)
            &&& m.contains_key(other) ==> after[other] == m[other]
        }),
{
    crate::scalar::law_bytes_round_trip(src_width);
    crate::scalar::law_bytes_round_trip(src_height);
    crate::scalar::law_bytes_round_trip(dst_width);
    crate::scalar::law_bytes_round_trip(dst_height);
}

/// A meta format takes over from a table each attribute under its own number, as the
/// bytes of its value, and leaves all other attributes alone.
pub proof fn law_lut_is_described(m: Map<i32, Seq<u8>>, data_type: vx_enum, count: usize, other: i32)
    requires
        other != VX_LUT_TYPE,
        other != VX_LUT_COUNT,
    ensures
        ({
            let after = described(m, crate::exemplars::BlueprintSpec::Lut { data_type, count });
            &&& after[VX_LUT_TYPE].len() == 4 && crate::scalar::signed32(crate::scalar::number4(after[VX_LUT_TYPE])) == data_type
            &&& after[VX_LUT_COUNT].len() == 8 && crate::scalar::number8(after[VX_LUT_COUNT]) == count
            &&& after.contains_key(other) == m.contains_key(other)
            &&& m.contains_key(other) ==> after[other] == m[other]
        }),
{
    crate::scalar::law_bytes_round_trip(crate::scalar::bits32(data_type));
    crate::scalar::law_bits_round_trip(data_type);
    crate::scalar::law_long_bytes_round_trip(count as u64);
}

/// A meta format takes over from a threshold each attribute under its own number, as the
/// bytes of its value, and leaves all other attributes alone.
pub proof fn law_threshold_is_described(m: Map<i32, Seq<u8>>, thresh_type: vx_enum, data_type: vx_enum, other: i32)
    requires
        other != VX_THRESHOLD_TYPE,
        other != VX_THRESHOLD_DATA_TYPE,
    ensures
        ({
            let after = described(m, crate::exemplars::BlueprintSpec::Threshold { thresh_type, data_type });
            &&& after[VX_THRESHOLD_TYPE].len() == 4 && crate::scalar::signed32(crate::scalar::number4(after[VX_THRESHOLD_TYPE])) == thresh_type
            &&& after[VX_THRESHOLD_DATA_TYPE].len() == 4 && crate::scalar::signed32(crate::scalar::number4(after[VX_THRESHOLD_DATA_TYPE])) == data_type
            &&& after.contains_key(other) == m.contains_key(other)
            &&& m.contains_key(other) ==> after[other] == m[other]
        }),
{
    crate::scalar::law_bytes_round_trip(crate::scalar::bits32(thresh_type));
    crate::scalar::law_bits_round_trip(thresh_type);
    crate::scalar::law_bytes_round_trip(crate::scalar::bits32(data_type));
    crate::scalar::law_bits_round_trip(data_type);
}

/// A meta format takes over from an array of objects each attribute under its own number, as the
/// bytes of its value, and leaves all other attributes alone.
pub proof fn law_object_array_is_described(m: Map<i32, Seq<u8>>, item_type: vx_enum, item: u64, count: usize, other: i32)
    requires
        other != VX_OBJECT_ARRAY_ITEMTYPE,
        other != VX_OBJECT_ARRAY_NUMITEMS,
    ensures
        ({
            let after = described(m, crate::exemplars::BlueprintSpec::ObjectArray { item_type, item, count });
            &&& after[VX_OBJECT_ARRAY_ITEMTYPE].len() == 4 && crate::scalar::signed32(crate::scalar::number4(after[VX_OBJECT_ARRAY_ITEMTYPE])) == item_type
            &&& after[VX_OBJECT_ARRAY_NUMITEMS].len() == 8 && crate::scalar::number8(after[VX_OBJECT_ARRAY_NUMITEMS]) == count
            &&& after.contains_key(other) == m.contains_key(other)
            &&& m.contains_key(other) ==> after[other] == m[other]
        }),
{
    crate::scalar::law_bytes_round_trip(crate::scalar::bits32(item_type));
    crate::scalar::law_bits_round_trip(item_type);
    crate::scalar::law_long_bytes_round_trip(count as u64);
}

/// A meta format takes over from a piece of the application's data each attribute under its own number, as the
/// bytes of its value, and leaves all other attributes alone.
pub proof fn law_user_data_object_is_described(m: Map<i32, Seq<u8>>, name: Seq<u8>, size: usize, other: i32)
    requires
        other != VX_USER_DATA_OBJECT_NAME,
        other != VX_USER_DATA_OBJECT_SIZE,
    ensures
        ({
            let after = described(m, crate::exemplars::BlueprintSpec::UserDataObject { name, size });
            &&& after[VX_USER_DATA_OBJECT_NAME] == name
            &&& after[VX_USER_DATA_OBJECT_SIZE].len() == 8 && crate::scalar::number8(after[VX_USER_DATA_OBJECT_SIZE]) == size
            &&& after.contains_key(other) == m.contains_key(other)
            &&& m.contains_key(other) ==> after[other] == m[other]
        }),
{
    crate::scalar::law_long_bytes_round_trip(size as u64);
}

/// A meta format takes over from a tensor each attribute under its own number, as the
/// bytes of its value, and leaves all other attributes alone.
pub proof fn law_tensor_is_described(m: Map<i32, Seq<u8>>, dims: Seq<usize>, data_type: vx_enum, fixed_point_position: i8, other: i32)
    requires
        other != VX_TENSOR_NUMBER_OF_DIMS,
        other != VX_TENSOR_DATA_TYPE,
        other != VX_TENSOR_DIMS,
        other != VX_TENSOR_FIXED_POINT_POSITION,
        dims.len() <= usize::MAX,
    ensures
        ({
            let after = described(m, crate::exemplars::BlueprintSpec::Tensor { dims, data_type, fixed_point_position });
            &&& after[VX_TENSOR_NUMBER_OF_DIMS].len() == 8 && crate::scalar::number8(after[VX_TENSOR_NUMBER_OF_DIMS]) == dims.len()
            &&& after[VX_TENSOR_DATA_TYPE].len() == 4 && crate::scalar::signed32(crate::scalar::number4(after[VX_TENSOR_DATA_TYPE])) == data_type
            &&& after[VX_TENSOR_DIMS].len() == 8 * dims.len()
            &&& forall|i: int|
                0 <= i < dims.len() ==> crate::scalar::number8(
                    after[VX_TENSOR_DIMS].subrange(8 * i, 8 * i + 8),
                ) == #[trigger] dims[i]
            &&& after[VX_TENSOR_FIXED_POINT_POSITION].len() == 1
            &&& after[VX_TENSOR_FIXED_POINT_POSITION][0] == if fixed_point_position >= 0 {
                fixed_point_position as int
            } else {
                256 + fixed_point_position
            }
            &&& after.contains_key(other) == m.contains_key(other)
            &&& m.contains_key(other) ==> after[other] == m[other]
        }),
{
    crate::scalar::law_long_bytes_round_trip(dims.len() as u64);
    crate::scalar::law_bytes_round_trip(crate::scalar::bits32(data_type));
    crate::scalar::law_bits_round_trip(data_type);
    lemma_sizes_lie_in_a_row(dims);
}

proof fn lemma_sizes_lie_in_a_row(list: Seq<usize>)
    ensures
        sizes_bytes(list).len() == 8 * list.len(),
        forall|i: int|
            0 <= i < list.len() ==> crate::scalar::number8(
                sizes_bytes(list).subrange(8 * i, 8 * i + 8),
            ) == #[trigger] list[i],
    decreases list.len(),
{
    if list.len() > 0 {
        let rest = list.drop_last();
        lemma_sizes_lie_in_a_row(rest);
        crate::scalar::law_long_bytes_round_trip(list.last() as u64);
        assert forall|i: int| 0 <= i < list.len() implies crate::scalar::number8(
            sizes_bytes(list).subrange(8 * i, 8 * i + 8),
        ) == #[trigger] list[i] by {
            if i < rest.len() {
                assert(rest[i] == list[i]);
                assert(sizes_bytes(list).subrange(8 * i, 8 * i + 8) =~= sizes_bytes(rest).subrange(
                    8 * i,
                    8 * i + 8,
                ));
            } else {
                assert(sizes_bytes(list).subrange(8 * i, 8 * i + 8) =~= size_bytes(list.last()));
            }
        }
    }
}

} // verus!

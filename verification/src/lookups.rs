//! Looking pixels up in a table.
use vstd::prelude::*;
use crate::image::VxCImage;
use crate::records::VxCLut;
use crate::scalar::to_signed32;
use crate::types::{
    VX_DF_IMAGE_S16, VX_ERROR_INVALID_FORMAT, VX_ERROR_INVALID_REFERENCE, VX_SUCCESS,
    VX_TYPE_INT16, VX_TYPE_UINT8, vx_status,
};
use std::collections::HashMap;

verus! {

broadcast use vstd::std_specs::hash::group_hash_axioms;

/// Another code for sixteen-bit signed pixels.
pub const OTHER_S16: u32 = 0x53313053;

/// The entries of a table for bytes.
pub const BYTE_ENTRIES: i64 = 256;

/// Whether pixels of a format are sixteen bits wide and signed.
pub open spec fn is_wide(format: u32) -> bool {
    format == VX_DF_IMAGE_S16 || format == OTHER_S16
}

/// Pixel `i` of an image.
pub open spec fn pixel_at(data: Seq<u8>, wide: bool, i: int) -> int {
    if wide {
        crate::scalar::signed16((data[2 * i] + 256 * data[2 * i + 1]) as nat)
    } else {
        data[i] as int
    }
}

/// The entry that a pixel of a byte table is looked up at.  Only a wide pixel is
/// moved by the offset.
pub open spec fn byte_entry(data: Seq<u8>, wide: bool, offset: u32, i: int) -> int {
    if wide {
        pixel_at(data, wide, i) + crate::scalar::signed32(offset as nat)
    } else {
        pixel_at(data, wide, i)
    }
}

/// The entry that a pixel of a wide table is looked up at.
pub open spec fn wide_entry(data: Seq<u8>, wide: bool, offset: u32, i: int) -> int {
    pixel_at(data, wide, i) + crate::scalar::signed32(offset as nat)
}

/// What a byte table gives for an entry: zero outside the table.
pub open spec fn byte_found(lut: Seq<u8>, entry: int) -> u8 {
    if 0 <= entry < BYTE_ENTRIES {
        lut[entry]
    } else {
        0
    }
}

/// Whether a wide table has an entry.
pub open spec fn has_entry(lut: Seq<u8>, entry: int) -> bool {
    0 <= entry && 2 * entry + 1 < lut.len()
}

/// A wide entry as a byte: the nearest number from 0 to 255.
pub open spec fn as_byte(lut: Seq<u8>, entry: int) -> u8 {
    let v = crate::scalar::signed16((lut[2 * entry] + 256 * lut[2 * entry + 1]) as nat);
    if v < 0 {
        0
    } else if v > 255 {
        255
    } else {
        v as u8
    }
}

/// The output of a lookup in a byte table: one byte for each pixel.
pub open spec fn byte_lookup(
    input: Seq<u8>,
    wide: bool,
    lut: Seq<u8>,
    offset: u32,
    pixels: nat,
    output: Seq<u8>,
) -> Seq<u8> {
    Seq::new(
        output.len(),
        |o: int|
            if o < pixels {
                byte_found(lut, byte_entry(input, wide, offset, o))
            } else {
                output[o]
            },
    )
}

/// The output of a lookup in a wide table, as bytes.  A pixel without an entry
/// leaves the output as it was.
pub open spec fn narrow_lookup(
    input: Seq<u8>,
    wide: bool,
    lut: Seq<u8>,
    offset: u32,
    pixels: nat,
    output: Seq<u8>,
) -> Seq<u8> {
    Seq::new(
        output.len(),
        |o: int|
            if o < pixels && has_entry(lut, wide_entry(input, wide, offset, o)) {
                as_byte(lut, wide_entry(input, wide, offset, o))
            } else {
                output[o]
            },
    )
}

/// The output of a lookup in a wide table, as wide pixels.  A pixel without an
/// entry leaves the output as it was.
pub open spec fn wide_lookup(
    input: Seq<u8>,
    wide: bool,
    lut: Seq<u8>,
    offset: u32,
    pixels: nat,
    output: Seq<u8>,
) -> Seq<u8> {
    Seq::new(
        output.len(),
        |o: int|
            if o / 2 < pixels && has_entry(lut, wide_entry(input, wide, offset, o / 2)) {
                lut[2 * wide_entry(input, wide, offset, o / 2) + o % 2]
            } else {
                output[o]
            },
    )
}

/// The output of a lookup.
pub open spec fn looked_up(
    input: VxCImage,
    lut: VxCLut,
    output_format: u32,
    output: Seq<u8>,
) -> Seq<u8> {
    let wide = is_wide(input.format);
    let pixels = (input.width * input.height) as nat;
    if lut.data_type == VX_TYPE_UINT8 {
        byte_lookup(input.data@, wide, lut.data@, lut.offset, pixels, output)
    } else if lut.data_type == VX_TYPE_INT16 {
        if is_wide(output_format) {
            wide_lookup(input.data@, wide, lut.data@, lut.offset, pixels, output)
        } else {
            narrow_lookup(input.data@, wide, lut.data@, lut.offset, pixels, output)
        }
    } else {
        output
    }
}

/// Whether images and table are large enough for a lookup.
pub open spec fn lookup_fits(input: VxCImage, lut: VxCLut, output_format: u32, output: Seq<u8>) -> bool {
    let pixels = input.width * input.height;
    &&& input.data@.len() >= if is_wide(input.format) {
        2 * pixels
    } else {
        pixels
    }
    &&& output.len() >= if lut.data_type == VX_TYPE_INT16 && is_wide(output_format) {
        2 * pixels
    } else {
        pixels
    }
    &&& lut.data_type == VX_TYPE_UINT8 ==> lut.data@.len() >= BYTE_ENTRIES
}

/// Whether pixels of a format are sixteen bits wide and signed.
pub fn is_wide_format(format: u32) -> (r: bool)
    ensures
        r == is_wide(format),
{
    format == VX_DF_IMAGE_S16 || format == OTHER_S16
}

/// Reads two bytes as a signed number.
fn read_signed(low: u8, high: u8) -> (r: i64)
    ensures
        r == crate::scalar::signed16((low + 256 * high) as nat),
        -0x8000 <= r < 0x8000,
{
    let n: i64 = low as i64 + 256 * (high as i64);
    if n < 0x8000 {
        n
    } else {
        n - 0x1_0000
    }
}

/// Reads a pixel.
fn read_pixel(data: &Vec<u8>, wide: bool, i: usize) -> (r: i64)
    requires
        wide ==> 2 * i + 1 < data@.len(),
        !wide ==> i < data@.len(),
    ensures
        r == pixel_at(data@, wide, i as int),
        -0x8000 <= r < 0x8000,
{
    assert(data@.len() == data.len());
    if wide {
        read_signed(data[2 * i], data[2 * i + 1])
    } else {
        data[i] as i64
    }
}

/// Looks every pixel up in a byte table.
fn look_up_bytes(
    input: &Vec<u8>,
    wide: bool,
    lut: &Vec<u8>,
    offset: u32,
    pixels: usize,
    output: &mut Vec<u8>,
)
    requires
        lut@.len() >= BYTE_ENTRIES,
        wide ==> 2 * pixels <= input@.len(),
        pixels <= input@.len(),
        pixels <= old(output)@.len(),
    ensures
        final(output)@ == byte_lookup(
            input@,
            wide,
            lut@,
            offset,
            pixels as nat,
            old(output)@,
        ),
{
    let ghost before = output@;
    let shift: i64 = to_signed32(offset) as i64;
    for i in 0..pixels
        invariant
            shift == crate::scalar::signed32(offset as nat),
            -0x8000_0000 <= shift < 0x8000_0000,
            lut@.len() >= BYTE_ENTRIES,
            wide ==> 2 * pixels <= input@.len(),
            pixels <= input@.len(),
            pixels <= before.len(),
            output@.len() == before.len(),
            forall|o: int|
                0 <= o < i ==> output@[o] == byte_found(lut@, byte_entry(input@, wide, offset, o)),
            forall|o: int| i <= o < before.len() ==> output@[o] == before[o],
    {
        let value: i64 = read_pixel(input, wide, i);
        let entry: i64 = if wide {
            value + shift
        } else {
            value
        };
        if entry >= 0 && entry < BYTE_ENTRIES {
            output.set(i, lut[entry as usize]);
        } else {
            output.set(i, 0);
        }
    }
    assert(output@ =~= byte_lookup(input@, wide, lut@, offset, pixels as nat, before));
}

/// Looks every pixel up in a wide table.
fn look_up_wide(
    input: &Vec<u8>,
    wide: bool,
    lut: &Vec<u8>,
    offset: u32,
    pixels: usize,
    wide_output: bool,
    output: &mut Vec<u8>,
)
    requires
        wide ==> 2 * pixels <= input@.len(),
        pixels <= input@.len(),
        wide_output ==> 2 * pixels <= old(output)@.len(),
        pixels <= old(output)@.len(),
    ensures
        final(output)@ == if wide_output {
            wide_lookup(input@, wide, lut@, offset, pixels as nat, old(output)@)
        } else {
            narrow_lookup(input@, wide, lut@, offset, pixels as nat, old(output)@)
        },
{
    let ghost before = output@;
    let shift: i64 = to_signed32(offset) as i64;
    let entries: usize = lut.len() / 2;
    assert(lut@.len() == lut.len());
    assert(output@.len() == output.len());
    for i in 0..pixels
        invariant
            shift == crate::scalar::signed32(offset as nat),
            -0x8000_0000 <= shift < 0x8000_0000,
            entries == lut@.len() / 2,
            lut@.len() <= usize::MAX,
            before.len() <= usize::MAX,
            wide ==> 2 * pixels <= input@.len(),
            pixels <= input@.len(),
            wide_output ==> 2 * pixels <= before.len(),
            pixels <= before.len(),
            output@.len() == before.len(),
            wide_output ==> output@ == wide_lookup(input@, wide, lut@, offset, i as nat, before),
            !wide_output ==> output@ == narrow_lookup(input@, wide, lut@, offset, i as nat, before),
    {
        let value: i64 = read_pixel(input, wide, i);
        let entry: i64 = value + shift;
        let ghost e = wide_entry(input@, wide, offset, i as int);
        assert(entry == e);
        assert(has_entry(lut@, e) == (0 <= entry < entries));
        if entry >= 0 && (entry as u64) < (entries as u64) {
            let k: usize = entry as usize;
            let low: u8 = lut[2 * k];
            let high: u8 = lut[2 * k + 1];
            if wide_output {
                output.set(2 * i, low);
                output.set(2 * i + 1, high);
            } else {
                let v: i64 = read_signed(low, high);
                let b: u8 = if v < 0 {
                    0
                } else if v > 255 {
                    255
                } else {
                    v as u8
                };
                output.set(i, b);
            }
        }
        proof {
            if wide_output {
                assert(output@ =~= wide_lookup(input@, wide, lut@, offset, (i + 1) as nat, before));
            } else {
                assert(output@ =~= narrow_lookup(
                    input@,
                    wide,
                    lut@,
                    offset,
                    (i + 1) as nat,
                    before,
                ));
            }
        }
    }
    proof {
        if pixels == 0 {
            assert(output@ =~= before);
        }
    }
}

/// Looks every pixel of an image up in a table.
pub fn table_lookup_impl(
    images: &mut HashMap<u64, VxCImage>,
    luts: &HashMap<u64, VxCLut>,
    input: u64,
    lut: u64,
    output: u64,
) -> (status: vx_status)
    requires
        input != 0 && lut != 0 && output != 0 ==> {
            &&& input != output
            &&& old(images)@.contains_key(input)
            &&& old(images)@.contains_key(output)
            &&& luts@.contains_key(lut)
            &&& lookup_fits(
                old(images)@[input],
                luts@[lut],
                old(images)@[output].format,
                old(images)@[output].data@,
            )
        },
    ensures
        status == if input == 0 || lut == 0 || output == 0 {
            VX_ERROR_INVALID_REFERENCE
        } else if luts@[lut].data_type != VX_TYPE_UINT8 && luts@[lut].data_type != VX_TYPE_INT16 {
            VX_ERROR_INVALID_FORMAT
        } else {
            VX_SUCCESS
        },
        if status == VX_SUCCESS {
            let img = old(images)@[output];
            &&& final(images)@.dom() == old(images)@.dom()
            &&& final(images)@.remove(output) == old(images)@.remove(output)
            &&& final(images)@[output] == (VxCImage { data: final(images)@[output].data, ..img })
            &&& final(images)@[output].data@ == looked_up(
                old(images)@[input],
                luts@[lut],
                img.format,
                img.data@,
            )
        } else {
            final(images)@ == old(images)@
        },
{
    if input == 0 || lut == 0 || output == 0 {
        return VX_ERROR_INVALID_REFERENCE;
    }
    let table = match luts.get(&lut) {
        Some(t) => t,
        None => return VX_ERROR_INVALID_REFERENCE,
    };
    if table.data_type != VX_TYPE_UINT8 && table.data_type != VX_TYPE_INT16 {
        return VX_ERROR_INVALID_FORMAT;
    }
    let mut target = match images.remove(&output) {
        Some(t) => t,
        None => return VX_ERROR_INVALID_REFERENCE,
    };
    let ghost before = target;
    let wide_output = is_wide_format(target.format);
    match images.get(&input) {
        Some(source) => {
            let wide = is_wide_format(source.format);
            proof {
                assert(source == old(images)@[input]);
                assert(0 <= source.width * source.height) by (nonlinear_arith);
                assert(target.data@.len() == target.data.len());
            }
            let pixels: usize = (source.width as usize) * (source.height as usize);
            if table.data_type == VX_TYPE_UINT8 {
                look_up_bytes(
                    &source.data,
                    wide,
                    &table.data,
                    table.offset,
                    pixels,
                    &mut target.data,
                );
            } else {
                look_up_wide(
                    &source.data,
                    wide,
                    &table.data,
                    table.offset,
                    pixels,
                    wide_output,
                    &mut target.data,
                );
            }
        },
        None => {},
    }
    images.insert(output, target);
    proof {
        assert(images@.dom() =~= old(images)@.dom());
        assert(images@.remove(output) =~= old(images)@.remove(output));
    }
    VX_SUCCESS
}

/// A byte table that gives each number itself copies bytes.
pub proof fn law_identity_table(
    input: Seq<u8>,
    lut: Seq<u8>,
    offset: u32,
    pixels: nat,
    output: Seq<u8>,
    i: int,
)
    requires
        lut.len() >= BYTE_ENTRIES,
        forall|k: int| 0 <= k < BYTE_ENTRIES ==> #[trigger] lut[k] == k,
        pixels <= input.len(),
        pixels <= output.len(),
        0 <= i < pixels,
    ensures
        byte_lookup(input, false, lut, offset, pixels, output)[i] == input[i],
{
    let k = input[i] as int;
    assert(lut[k] == k);
}

/// Each byte is looked up once, at its own number: the offset plays no part, and
/// what lies behind the last pixel stays.
pub proof fn law_bytes_are_looked_up_once(
    input: Seq<u8>,
    lut: Seq<u8>,
    offset: u32,
    pixels: nat,
    output: Seq<u8>,
    i: int,
)
    requires
        lut.len() >= 256,
        pixels <= input.len(),
        0 <= i < output.len(),
    ensures
        byte_lookup(input, false, lut, offset, pixels, output).len() == output.len(),
        byte_lookup(input, false, lut, offset, pixels, output)[i] == if i < pixels {
            lut[input[i] as int]
        } else {
            output[i]
        },
{
}

/// The number that two bytes stand for, the low one first and the sign in the high
/// one.
pub open spec fn signed_pair(low: u8, high: u8) -> int {
    low + 256 * (if high < 128 {
        high as int
    } else {
        high - 256
    })
}

/// An offset is a number of thirty-two bits with its sign in the highest.
pub open spec fn signed_offset(offset: u32) -> int {
    if offset < 0x8000_0000 {
        offset as int
    } else {
        offset - 0x1_0000_0000
    }
}

/// A wide pixel in a byte table: it is moved by the offset, and zero stands for
/// what falls outside the table.
pub proof fn law_wide_pixels_in_a_byte_table(
    input: Seq<u8>,
    lut: Seq<u8>,
    offset: u32,
    pixels: nat,
    output: Seq<u8>,
    i: int,
)
    requires
        lut.len() >= 256,
        2 * pixels <= input.len(),
        0 <= i < output.len(),
    ensures
        byte_lookup(input, true, lut, offset, pixels, output).len() == output.len(),
        byte_lookup(input, true, lut, offset, pixels, output)[i] == if i < pixels {
            let at = signed_pair(input[2 * i], input[2 * i + 1]) + signed_offset(offset);
            if 0 <= at < 256 {
                lut[at]
            } else {
                0
            }
        } else {
            output[i]
        },
{
}

/// A wide table gives both bytes of the entry of a pixel, low byte first; a pixel
/// that has none leaves its output alone.
pub proof fn law_wide_table_gives_both_bytes(
    input: Seq<u8>,
    wide: bool,
    lut: Seq<u8>,
    offset: u32,
    pixels: nat,
    output: Seq<u8>,
    i: int,
)
    requires
        0 <= i < pixels,
        2 * pixels <= output.len(),
        if wide {
            2 * pixels <= input.len()
        } else {
            pixels <= input.len()
        },
    ensures
        ({
            let at = signed_offset(offset) + if wide {
                signed_pair(input[2 * i], input[2 * i + 1])
            } else {
                input[i] as int
            };
            let after = wide_lookup(input, wide, lut, offset, pixels, output);
            &&& after.len() == output.len()
            &&& 0 <= at && 2 * at + 1 < lut.len() ==> after[2 * i] == lut[2 * at] && after[2 * i
                + 1] == lut[2 * at + 1]
            &&& !(0 <= at && 2 * at + 1 < lut.len()) ==> after[2 * i] == output[2 * i] && after[2
                * i + 1] == output[2 * i + 1]
        }),
{
}

/// Into bytes, a wide table gives the number of the entry where that is a byte, and
/// the nearest byte where it is not.
pub proof fn law_wide_table_into_bytes(
    input: Seq<u8>,
    wide: bool,
    lut: Seq<u8>,
    offset: u32,
    pixels: nat,
    output: Seq<u8>,
    i: int,
)
    requires
        0 <= i < pixels <= output.len(),
        if wide {
            2 * pixels <= input.len()
        } else {
            pixels <= input.len()
        },
    ensures
        ({
            let at = signed_offset(offset) + if wide {
                signed_pair(input[2 * i], input[2 * i + 1])
            } else {
                input[i] as int
            };
            let after = narrow_lookup(input, wide, lut, offset, pixels, output);
            let found = signed_pair(lut[2 * at], lut[2 * at + 1]);
            &&& after.len() == output.len()
            &&& 0 <= at && 2 * at + 1 < lut.len() ==> {
                &&& 0 <= found <= 255 ==> after[i] == found
                &&& found < 0 ==> after[i] == 0
                &&& found > 255 ==> after[i] == 255
            }
            &&& !(0 <= at && 2 * at + 1 < lut.len()) ==> after[i] == output[i]
        }),
{
}

/// A table is applied as its type says, and to an image of bytes as to one of wide
/// pixels by its format.
pub proof fn law_lookup_goes_by_types(
    input: VxCImage,
    lut: VxCLut,
    output_format: u32,
    output: Seq<u8>,
)
    ensures
        ({
            let wide = input.format == VX_DF_IMAGE_S16 || input.format == OTHER_S16;
            let pixels = (input.width * input.height) as nat;
            let after = looked_up(input, lut, output_format, output);
            &&& lut.data_type == VX_TYPE_UINT8 ==> after == byte_lookup(
                input.data@,
                wide,
                lut.data@,
                lut.offset,
                pixels,
                output,
            )
            &&& lut.data_type == VX_TYPE_INT16 && (output_format == VX_DF_IMAGE_S16 || output_format
                == OTHER_S16) ==> after == wide_lookup(
                input.data@,
                wide,
                lut.data@,
                lut.offset,
                pixels,
                output,
            )
            &&& lut.data_type == VX_TYPE_INT16 && output_format != VX_DF_IMAGE_S16 && output_format
                != OTHER_S16 ==> after == narrow_lookup(
                input.data@,
                wide,
                lut.data@,
                lut.offset,
                pixels,
                output,
            )
        }),
{
}

} // verus!

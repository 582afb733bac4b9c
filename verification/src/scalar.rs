//! Scalars: small values held as bytes, low byte first.
use vstd::prelude::*;

verus! {

/// A scalar as the runtime keeps it.
pub struct VxCScalar {
    pub data_type: i32,
    pub data: Vec<u8>,
    pub context: u64,
}

/// The number two bytes make.
pub open spec fn number2(b: Seq<u8>) -> nat {
    (b[0] + 256 * b[1]) as nat
}

/// The number four bytes make.
pub open spec fn number4(b: Seq<u8>) -> nat {
    (b[0] + 256 * b[1] + 65536 * b[2] + 16777216 * b[3]) as nat
}

/// The number eight bytes make.
pub open spec fn number8(b: Seq<u8>) -> nat {
    number4(b) + 4294967296 * number4(b.skip(4))
}

/// A thirty-two-bit number read as a two's complement integer.
pub open spec fn signed32(n: nat) -> int {
    if n < 0x8000_0000 {
        n as int
    } else {
        n - 0x1_0000_0000
    }
}

/// A sixteen-bit number read as a two's complement integer.
pub open spec fn signed16(n: nat) -> int {
    if n < 0x8000 {
        n as int
    } else {
        n - 0x1_0000
    }
}

/// The integer held by the bytes of a scalar: four bytes or two are a signed
/// number, one byte an unsigned one.
pub open spec fn scalar_int(data: Seq<u8>) -> Option<i32> {
    if data.len() >= 4 {
        Some(signed32(number4(data)) as i32)
    } else if data.len() >= 2 {
        Some(signed16(number2(data)) as i32)
    } else if data.len() >= 1 {
        Some(data[0] as i32)
    } else {
        None
    }
}

/// The unsigned number held by the bytes of a scalar.
pub open spec fn scalar_number(data: Seq<u8>) -> Option<u32> {
    if data.len() >= 4 {
        Some(number4(data) as u32)
    } else if data.len() >= 2 {
        Some(number2(data) as u32)
    } else if data.len() >= 1 {
        Some(data[0] as u32)
    } else {
        None
    }
}

/// The four bytes of a number.
pub open spec fn bytes4(n: u32) -> Seq<u8> {
    seq![
        (n % 256) as u8,
        (n / 256 % 256) as u8,
        (n / 65536 % 256) as u8,
        (n / 16777216) as u8,
    ]
}

/// The eight bytes of a number.
pub open spec fn bytes8(n: u64) -> Seq<u8> {
    bytes4((n % 4294967296) as u32) + bytes4((n / 4294967296) as u32)
}

/// `base` with its first bytes replaced by those of `data`.
pub open spec fn overlaid(base: Seq<u8>, data: Seq<u8>) -> Seq<u8> {
    Seq::new(
        base.len(),
        |i: int|
            if i < data.len() {
                data[i]
            } else {
                base[i]
            },
    )
}

/// The bit pattern of an integer, as a number.
pub open spec fn bits32(v: i32) -> u32 {
    if v < 0 {
        (v + 0x1_0000_0000) as u32
    } else {
        v as u32
    }
}

/// Reads four bytes as a number.
pub fn read4(b0: u8, b1: u8, b2: u8, b3: u8) -> (r: u32)
    ensures
        r == number4(seq![b0, b1, b2, b3]),
{
    b0 as u32 + 256 * (b1 as u32) + 65536 * (b2 as u32) + 16777216 * (b3 as u32)
}

/// Reads the first eight bytes of a list as a number.
pub fn read8(bytes: &Vec<u8>) -> (r: u64)
    requires
        bytes@.len() >= 8,
    ensures
        r == number8(bytes@),
{
    let low = read4(bytes[0], bytes[1], bytes[2], bytes[3]) as u64;
    let high = read4(bytes[4], bytes[5], bytes[6], bytes[7]) as u64;
    low + 4294967296 * high
}

/// Reads a bit pattern as an integer.
pub fn to_signed32(n: u32) -> (r: i32)
    ensures
        r == signed32(n as nat),
{
    if n < 0x8000_0000 {
        n as i32
    } else {
        -1 - ((0xFFFF_FFFF - n) as i32)
    }
}

/// The bit pattern of an integer.
pub fn to_bits32(v: i32) -> (r: u32)
    ensures
        r == bits32(v),
{
    if v < 0 {
        (v as i64 + 0x1_0000_0000) as u32
    } else {
        v as u32
    }
}

/// Splits a number into its four bytes.
pub fn split4(n: u32) -> (r: Vec<u8>)
    ensures
        r@ == bytes4(n),
{
    vec![
        (n % 256) as u8,
        (n / 256 % 256) as u8,
        (n / 65536 % 256) as u8,
        (n / 16777216) as u8,
    ]
}

/// Splits a number into its eight bytes.
pub fn split8(n: u64) -> (r: Vec<u8>)
    ensures
        r@ == bytes8(n),
{
    let mut low = split4((n % 4294967296) as u32);
    let mut high = split4((n / 4294967296) as u32);
    low.append(&mut high);
    low
}

/// Copies the bytes of `data` over the first bytes of `base`.
pub fn overlay(base: Vec<u8>, data: &Vec<u8>) -> (r: Vec<u8>)
    ensures
        r@ == overlaid(base@, data@),
{
    let mut out: Vec<u8> = Vec::new();
    for i in 0..base.len()
        invariant
            out@.len() == i,
            forall|j: int| 0 <= j < i ==> out@[j] == overlaid(base@, data@)[j],
    {
        if i < data.len() {
            out.push(data[i]);
        } else {
            out.push(base[i]);
        }
    }
    assert(out@ =~= overlaid(base@, data@));
    out
}

impl VxCScalar {
    /// The scalar as a signed integer.
    pub fn get_i32(&self) -> (r: Option<i32>)
        ensures
            r == scalar_int(self.data@),
    {
        let data = &self.data;
        if data.len() >= 4 {
            Some(to_signed32(read4(data[0], data[1], data[2], data[3])))
        } else if data.len() >= 2 {
            let n: i32 = data[0] as i32 + 256 * (data[1] as i32);
            if n < 0x8000 {
                Some(n)
            } else {
                Some(n - 0x1_0000)
            }
        } else if data.len() >= 1 {
            Some(data[0] as i32)
        } else {
            None
        }
    }

    /// The scalar as an unsigned number.
    pub fn get_u32(&self) -> (r: Option<u32>)
        ensures
            r == scalar_number(self.data@),
    {
        let data = &self.data;
        if data.len() >= 4 {
            Some(read4(data[0], data[1], data[2], data[3]))
        } else if data.len() >= 2 {
            Some(data[0] as u32 + 256 * (data[1] as u32))
        } else if data.len() >= 1 {
            Some(data[0] as u32)
        } else {
            None
        }
    }
}

/// Splitting a number into bytes and reading them back gives the number.
pub proof fn law_bytes_round_trip(n: u32)
    ensures
        number4(bytes4(n)) == n,
{
}

/// Splitting a number into eight bytes and reading them back gives the number.
pub proof fn law_long_bytes_round_trip(n: u64)
    ensures
        number8(bytes8(n)) == n,
{
    law_bytes_round_trip((n % 4294967296) as u32);
    law_bytes_round_trip((n / 4294967296) as u32);
    assert(bytes8(n).skip(4) =~= bytes4((n / 4294967296) as u32));
}

/// Reading a bit pattern as an integer undoes taking the bit pattern.
pub proof fn law_bits_round_trip(v: i32)
    ensures
        signed32(bits32(v) as nat) == v,
{
}

/// A scalar is read by its length: four bytes or more are a number low byte first,
/// two a half one, a single byte itself, and nothing is no number.
pub proof fn law_scalars_are_read_by_length(a: u8, b: u8, c: u8, d: u8)
    ensures
        scalar_number(seq![a, b, c, d]) == Some((a + 256 * b + 65536 * c + 16777216 * d) as u32),
        scalar_number(seq![a, b]) == Some((a + 256 * b) as u32),
        scalar_number(seq![a]) == Some(a as u32),
        scalar_number(Seq::empty()) is None,
        b < 0x80 ==> scalar_int(seq![a, b]) == Some((a + 256 * b) as i32),
        b >= 0x80 ==> scalar_int(seq![a, b]) == Some((a + 256 * b - 65536) as i32),
        d < 0x80 ==> scalar_int(seq![a, b, c, d]) == Some(
            (a + 256 * b + 65536 * c + 16777216 * d) as i32,
        ),
        d >= 0x80 ==> scalar_int(seq![a, b, c, d]) == Some(
            (a + 256 * b + 65536 * c + 16777216 * d - 0x1_0000_0000) as i32,
        ),
        scalar_int(seq![a]) == Some(a as i32),
        scalar_int(Seq::empty()) is None,
{
}

/// The bytes of a number are its digits to the base of 256, the lowest first.
pub proof fn law_bytes_are_digits(n: u64, m: u32)
    ensures
        bytes4(m).len() == 4,
        bytes4(m)[0] == m % 256,
        bytes4(m)[1] == (m / 256) % 256,
        bytes4(m)[2] == (m / 65536) % 256,
        bytes4(m)[3] == m / 16777216,
        bytes8(n).len() == 8,
        bytes8(n).take(4) == bytes4((n % 0x1_0000_0000) as u32),
        bytes8(n).skip(4) == bytes4((n / 0x1_0000_0000) as u32),
{
    assert(bytes8(n).take(4) =~= bytes4((n % 0x1_0000_0000) as u32));
    assert(bytes8(n).skip(4) =~= bytes4((n / 0x1_0000_0000) as u32));
}

} // verus!

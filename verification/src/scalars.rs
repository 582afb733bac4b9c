//! Creating scalars and copying their bytes.
use vstd::prelude::*;
use crate::refs::References;
use crate::scalar::VxCScalar;
use crate::types::{
    VX_ERROR_INVALID_PARAMETERS, VX_ERROR_INVALID_REFERENCE, VX_ERROR_NOT_IMPLEMENTED,
    VX_MEMORY_TYPE_HOST, VX_READ_AND_WRITE, VX_READ_ONLY, VX_SUCCESS, VX_TYPE_SCALAR,
    VX_WRITE_ONLY, vx_enum, vx_status,
};
use std::collections::HashMap;

verus! {

broadcast use vstd::std_specs::hash::group_hash_axioms;

/// A way to copy, by its short code.
pub const SHORT_READ_ONLY: vx_enum = 0x1;

/// A way to copy, by its short code.
pub const SHORT_WRITE_ONLY: vx_enum = 0x2;

/// A way to copy, by its short code.
pub const SHORT_READ_AND_WRITE: vx_enum = 0x3;

/// Whether a way to copy reads the scalar and leaves it.
pub open spec fn is_read(usage: vx_enum) -> bool {
    usage == VX_READ_ONLY || usage == SHORT_READ_ONLY
}

/// Whether a way to copy writes the scalar.
pub open spec fn is_write(usage: vx_enum) -> bool {
    usage == VX_WRITE_ONLY || usage == SHORT_WRITE_ONLY
}

/// Whether a way to copy reads the scalar and writes the same bytes back.
pub open spec fn is_read_and_write(usage: vx_enum) -> bool {
    usage == VX_READ_AND_WRITE || usage == SHORT_READ_AND_WRITE
}

/// How many bytes are copied: as many as asked for, all where none were, but
/// never more than the scalar has.
pub open spec fn copy_length(asked: usize, held: nat) -> nat {
    if asked == 0 || asked > held {
        held
    } else {
        asked as nat
    }
}

/// The bytes of `to` with the first `n` taken from `from`.
pub open spec fn with_first(to: Seq<u8>, from: Seq<u8>, n: nat) -> Seq<u8> {
    crate::scalar::overlaid(to, from.take(n as int))
}

/// Copies the first `n` bytes.
fn copy_first(to: &mut Vec<u8>, from: &Vec<u8>, n: usize)
    requires
        n <= from@.len(),
        n <= old(to)@.len(),
    ensures
        final(to)@ == with_first(old(to)@, from@, n as nat),
{
    let ghost before = to@;
    for i in 0..n
        invariant
            n <= from@.len(),
            n <= before.len(),
            to@.len() == before.len(),
            forall|j: int| 0 <= j < i ==> to@[j] == from@[j],
            forall|j: int| i <= j < before.len() ==> to@[j] == before[j],
    {
        to.set(i, from[i]);
    }
    assert(to@ =~= with_first(before, from@, n as nat));
}

/// The bytes a new scalar takes.
pub open spec fn scalar_size(size: usize, type_size: usize) -> usize {
    if size > 0 {
        size
    } else {
        type_size
    }
}

/// Creates a scalar of `size` bytes, or of as many as its type takes where
/// `size` is zero, and answers its handle: `fresh`, or null where the context
/// or the bytes are missing.
pub fn vxCreateScalarWithSize(
    scalars: &mut HashMap<u64, VxCScalar>,
    refs: &mut References,
    context: u64,
    data_type: vx_enum,
    bytes: Option<&Vec<u8>>,
    size: usize,
    type_size: usize,
    fresh: u64,
) -> (r: u64)
    requires
        bytes is Some ==> scalar_size(size, type_size) <= bytes->0@.len(),
    ensures
        r == if context == 0 || bytes is None {
            0
        } else {
            fresh
        },
        if context == 0 || bytes is None {
            final(scalars)@ == old(scalars)@ && *final(refs) == *old(refs)
        } else {
            &&& final(refs).counts@ == old(refs).counts@.insert(fresh, 1)
            &&& final(refs).types@ == old(refs).types@.insert(fresh, VX_TYPE_SCALAR)
            &&& final(refs).names@ == old(refs).names@
            &&& final(scalars)@.dom() == old(scalars)@.dom().insert(fresh)
            &&& final(scalars)@.remove(fresh) == old(scalars)@.remove(fresh)
            &&& final(scalars)@[fresh].data_type == data_type
            &&& final(scalars)@[fresh].context == context
            &&& final(scalars)@[fresh].data@ == bytes->0@.take(
                scalar_size(size, type_size) as int,
            )
        },
{
    if context == 0 {
        return 0;
    }
    let user = match bytes {
        Some(b) => b,
        None => return 0,
    };
    let count: usize = if size > 0 {
        size
    } else {
        type_size
    };
    let mut data: Vec<u8> = vec![0; count];
    copy_first(&mut data, user, count);
    assert(data@ =~= user@.take(count as int));
    scalars.insert(fresh, VxCScalar { data_type, data, context });
    refs.register(fresh, VX_TYPE_SCALAR);
    proof {
        assert(scalars@.dom() =~= old(scalars)@.dom().insert(fresh));
        assert(scalars@.remove(fresh) =~= old(scalars)@.remove(fresh));
    }
    fresh
}

/// The status of copying a scalar.
pub open spec fn copy_status(
    scalar: u64,
    user_ptr: u64,
    usage: vx_enum,
    memory_known: bool,
) -> vx_status {
    if scalar == 0 {
        VX_ERROR_INVALID_REFERENCE
    } else if user_ptr == 0 {
        VX_ERROR_INVALID_PARAMETERS
    } else if !memory_known {
        VX_ERROR_NOT_IMPLEMENTED
    } else if is_read(usage) || is_write(usage) || is_read_and_write(usage) {
        VX_SUCCESS
    } else {
        VX_ERROR_INVALID_PARAMETERS
    }
}

/// Copies between a scalar and the caller's memory.
fn copy_scalar(
    scalars: &mut HashMap<u64, VxCScalar>,
    scalar: u64,
    size: usize,
    user: &mut Vec<u8>,
    usage: vx_enum,
) -> (status: vx_status)
    requires
        scalar != 0,
        old(scalars)@.contains_key(scalar),
        copy_length(size, old(scalars)@[scalar].data@.len()) <= old(user)@.len(),
    ensures
        status == copy_status(scalar, 1, usage, true),
        ({
            let held = old(scalars)@[scalar].data@;
            let n = copy_length(size, held.len());
            &&& final(user)@ == if is_read(usage) || is_read_and_write(usage) {
                with_first(old(user)@, held, n)
            } else {
                old(user)@
            }
            &&& final(scalars)@.dom() == old(scalars)@.dom()
            &&& final(scalars)@.remove(scalar) == old(scalars)@.remove(scalar)
            &&& final(scalars)@[scalar].data_type == old(scalars)@[scalar].data_type
            &&& final(scalars)@[scalar].context == old(scalars)@[scalar].context
            &&& final(scalars)@[scalar].data@ == if is_write(usage) {
                with_first(held, old(user)@, n)
            } else {
                held
            }
        }),
{
    let mut record = match scalars.remove(&scalar) {
        Some(s) => s,
        None => return VX_ERROR_INVALID_REFERENCE,
    };
    let ghost held = record.data@;
    let n: usize = if size == 0 || size > record.data.len() {
        record.data.len()
    } else {
        size
    };
    let status: vx_status = match usage {
        VX_READ_ONLY | SHORT_READ_ONLY => {
            copy_first(user, &record.data, n);
            VX_SUCCESS
        },
        VX_WRITE_ONLY | SHORT_WRITE_ONLY => {
            copy_first(&mut record.data, user, n);
            VX_SUCCESS
        },
        VX_READ_AND_WRITE | SHORT_READ_AND_WRITE => {
            copy_first(user, &record.data, n);
            copy_first(&mut record.data, user, n);
            assert(record.data@ =~= held);
            VX_SUCCESS
        },
        _ => VX_ERROR_INVALID_PARAMETERS,
    };
    scalars.insert(scalar, record);
    proof {
        assert(scalars@.dom() =~= old(scalars)@.dom());
        assert(scalars@.remove(scalar) =~= old(scalars)@.remove(scalar));
    }
    status
}

/// Copies between a scalar and the caller's memory: `size` bytes, or all where
/// `size` is zero.
pub fn vxCopyScalarWithSize(
    scalars: &mut HashMap<u64, VxCScalar>,
    scalar: u64,
    size: usize,
    user_ptr: u64,
    user: &mut Vec<u8>,
    usage: vx_enum,
    user_mem_type: vx_enum,
) -> (status: vx_status)
    requires
        scalar != 0 ==> old(scalars)@.contains_key(scalar),
        scalar != 0 && user_ptr != 0 ==> copy_length(size, old(scalars)@[scalar].data@.len())
            <= old(user)@.len(),
    ensures
        status == copy_status(
            scalar,
            user_ptr,
            usage,
            user_mem_type == VX_MEMORY_TYPE_HOST || user_mem_type == 0,
        ),
        if status == VX_SUCCESS {
            let held = old(scalars)@[scalar].data@;
            let n = copy_length(size, held.len());
            &&& final(user)@ == if is_write(usage) {
                old(user)@
            } else {
                with_first(old(user)@, held, n)
            }
            &&& final(scalars)@.dom() == old(scalars)@.dom()
            &&& final(scalars)@.remove(scalar) == old(scalars)@.remove(scalar)
            &&& final(scalars)@[scalar].data_type == old(scalars)@[scalar].data_type
            &&& final(scalars)@[scalar].context == old(scalars)@[scalar].context
            &&& final(scalars)@[scalar].data@ == if is_write(usage) {
                with_first(held, old(user)@, n)
            } else {
                held
            }
        } else {
            final(user)@ == old(user)@ && final(scalars)@ == old(scalars)@
        },
{
    if scalar == 0 {
        return VX_ERROR_INVALID_REFERENCE;
    }
    if user_ptr == 0 {
        return VX_ERROR_INVALID_PARAMETERS;
    }
    if user_mem_type != VX_MEMORY_TYPE_HOST && user_mem_type != 0 {
        return VX_ERROR_NOT_IMPLEMENTED;
    }
    match usage {
        VX_READ_ONLY | SHORT_READ_ONLY | VX_WRITE_ONLY | SHORT_WRITE_ONLY | VX_READ_AND_WRITE
        | SHORT_READ_AND_WRITE => copy_scalar(scalars, scalar, size, user, usage),
        _ => VX_ERROR_INVALID_PARAMETERS,
    }
}

/// Copies between a scalar and the caller's memory: all bytes.
pub fn vxCopyScalar(
    scalars: &mut HashMap<u64, VxCScalar>,
    scalar: u64,
    user_ptr: u64,
    user: &mut Vec<u8>,
    usage: vx_enum,
    user_mem_type: vx_enum,
) -> (status: vx_status)
    requires
        scalar != 0 ==> old(scalars)@.contains_key(scalar),
        scalar != 0 && user_ptr != 0 ==> old(scalars)@[scalar].data@.len() <= old(user)@.len(),
    ensures
        status == copy_status(scalar, user_ptr, usage, user_mem_type == VX_MEMORY_TYPE_HOST),
        if status == VX_SUCCESS {
            let held = old(scalars)@[scalar].data@;
            &&& final(user)@ == if is_write(usage) {
                old(user)@
            } else {
                with_first(old(user)@, held, held.len())
            }
            &&& final(scalars)@.dom() == old(scalars)@.dom()
            &&& final(scalars)@.remove(scalar) == old(scalars)@.remove(scalar)
            &&& final(scalars)@[scalar].data_type == old(scalars)@[scalar].data_type
            &&& final(scalars)@[scalar].context == old(scalars)@[scalar].context
            &&& final(scalars)@[scalar].data@ == if is_write(usage) {
                with_first(held, old(user)@, held.len())
            } else {
                held
            }
        } else {
            final(user)@ == old(user)@ && final(scalars)@ == old(scalars)@
        },
{
    if scalar == 0 {
        return VX_ERROR_INVALID_REFERENCE;
    }
    if user_ptr == 0 {
        return VX_ERROR_INVALID_PARAMETERS;
    }
    if user_mem_type != VX_MEMORY_TYPE_HOST {
        return VX_ERROR_NOT_IMPLEMENTED;
    }
    vxCopyScalarWithSize(scalars, scalar, 0, user_ptr, user, usage, user_mem_type)
}

/// What was written to a scalar is what is read from it.
pub proof fn law_scalar_round_trip(held: Seq<u8>, written: Seq<u8>, read: Seq<u8>, n: nat)
    requires
        n <= held.len(),
        n <= written.len(),
        n <= read.len(),
    ensures
        with_first(read, with_first(held, written, n), n).take(n as int) == written.take(n as int),
{
    assert(with_first(read, with_first(held, written, n), n).take(n as int) =~= written.take(
        n as int,
    ));
}

/// As many bytes are copied as were asked for, but never more than there are, and
/// all of them where none were asked for.
pub proof fn law_copied_lengths(asked: usize, held: nat)
    ensures
        copy_length(0, held) == held,
        copy_length(asked, held) <= held,
        0 < asked <= held ==> copy_length(asked, held) == asked,
        asked > held ==> copy_length(asked, held) == held,
{
}

/// A copy takes the first bytes one for one and leaves the others.
pub proof fn law_first_bytes_are_copied(to: Seq<u8>, from: Seq<u8>, n: nat, i: int)
    requires
        n <= from.len(),
        n <= to.len(),
        0 <= i < to.len(),
    ensures
        with_first(to, from, n).len() == to.len(),
        with_first(to, from, n)[i] == if i < n {
            from[i]
        } else {
            to[i]
        },
{
}

/// A scalar is copied in three ways, each under two codes, which read it, write it,
/// or read it and write the same bytes back.
pub proof fn law_ways_to_copy(scalar: u64, user_ptr: u64, usage: vx_enum, known: bool)
    ensures
        is_read(VX_READ_ONLY) && is_read(1) && !is_write(VX_READ_ONLY) && !is_write(1),
        is_write(VX_WRITE_ONLY) && is_write(2) && !is_read(VX_WRITE_ONLY) && !is_read(2),
        is_read_and_write(VX_READ_AND_WRITE) && is_read_and_write(3) && !is_write(
            VX_READ_AND_WRITE,
        ),
        copy_status(scalar, user_ptr, usage, known) == VX_SUCCESS <==> scalar != 0 && user_ptr != 0
            && known && (usage == VX_READ_ONLY || usage == VX_WRITE_ONLY || usage
            == VX_READ_AND_WRITE || 1 <= usage <= 3),
        scalar == 0 ==> copy_status(scalar, user_ptr, usage, known) == VX_ERROR_INVALID_REFERENCE,
        scalar != 0 && user_ptr == 0 ==> copy_status(scalar, user_ptr, usage, known)
            == VX_ERROR_INVALID_PARAMETERS,
        scalar != 0 && user_ptr != 0 && !known ==> copy_status(scalar, user_ptr, usage, known)
            == VX_ERROR_NOT_IMPLEMENTED,
        scalar_size(0, 4) == 4 && scalar_size(2, 4) == 2,
{
}

} // verus!

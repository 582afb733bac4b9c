//! Distributions: histograms that the application can copy or map.
use vstd::prelude::*;
use crate::constants::{
    VX_DISTRIBUTION_BINS, VX_DISTRIBUTION_DIMENSIONS, VX_DISTRIBUTION_OFFSET,
    VX_DISTRIBUTION_RANGE, VX_DISTRIBUTION_SIZE, VX_DISTRIBUTION_WINDOW,
};
use crate::records::{MappedDistribution, VxCDistribution};
use crate::refs::References;
use crate::scalar::to_signed32;
use crate::types::{
    VX_ERROR_INVALID_PARAMETERS, VX_ERROR_INVALID_REFERENCE, VX_ERROR_NOT_IMPLEMENTED,
    VX_ERROR_NOT_SUPPORTED, VX_FAILURE, VX_MEMORY_TYPE_HOST, VX_READ_AND_WRITE, VX_READ_ONLY,
    VX_SUCCESS, VX_TYPE_DISTRIBUTION, VX_WRITE_ONLY, vx_enum, vx_status,
};
use crate::values::{NUMBER_BYTES, SIZE_BYTES, Value, hand_out};
use std::collections::HashMap;

verus! {

broadcast use vstd::std_specs::hash::group_hash_axioms;

impl VxCDistribution {
    /// Whether the histogram and every copy handed out have one count per bin.
    pub open spec fn wf(&self) -> bool {
        &&& self.data@.len() == self.bins
        &&& forall|i: int|
            0 <= i < self.mapped_distributions@.len() ==> (
            #[trigger] self.mapped_distributions@[i]).data@.len() == self.bins
    }
}

/// Whether a distribution is new: every bin empty and nothing handed out.
pub open spec fn is_empty_distribution(
    d: VxCDistribution,
    bins: usize,
    offset: u32,
    range: u32,
) -> bool {
    &&& d.bins == bins
    &&& d.offset == offset
    &&& d.range == range
    &&& d.data@ == Seq::new(bins as nat, |i: int| 0i32)
    &&& d.ref_count == 1
    &&& d.mapped_distributions@.len() == 0
}

/// Creates a distribution under a fresh handle.  Answers the handle, or `0` where
/// there is no context, no bin or no range.
pub fn vxCreateDistribution(
    context: u64,
    bins: usize,
    offset: u32,
    range: u32,
    fresh: u64,
    refs: &mut References,
    distributions: &mut HashMap<u64, VxCDistribution>,
) -> (r: u64)
    requires
        fresh != 0,
    ensures
        r == if context == 0 || bins == 0 || range == 0 {
            0
        } else {
            fresh
        },
        r == 0 ==> *final(refs) == *old(refs) && final(distributions)@ == old(distributions)@,
        r != 0 ==> {
            &&& final(refs).counts@ == old(refs).counts@.insert(fresh, 1)
            &&& final(refs).types@ == old(refs).types@.insert(fresh, VX_TYPE_DISTRIBUTION)
            &&& final(refs).names@ == old(refs).names@
            &&& final(distributions)@.contains_key(fresh)
            &&& final(distributions)@.remove(fresh) == old(distributions)@.remove(fresh)
            &&& final(distributions)@[fresh].wf()
            &&& is_empty_distribution(final(distributions)@[fresh], bins, offset, range)
        },
{
    if context == 0 || bins == 0 || range == 0 {
        return 0;
    }
    let data = vec![0i32; bins];
    assert(data@ =~= Seq::new(bins as nat, |i: int| 0i32));
    refs.register(fresh, VX_TYPE_DISTRIBUTION);
    distributions.insert(
        fresh,
        VxCDistribution {
            bins,
            offset,
            range,
            data,
            ref_count: 1,
            mapped_distributions: Vec::new(),
        },
    );
    assert(distributions@.remove(fresh) =~= old(distributions)@.remove(fresh));
    fresh
}

/// The value of an attribute of a distribution.
pub open spec fn distribution_attribute(
    d: VxCDistribution,
    attribute: vx_enum,
    size: usize,
) -> Result<Value, vx_status> {
    let error = VX_ERROR_NOT_SUPPORTED;
    if attribute == VX_DISTRIBUTION_DIMENSIONS {
        crate::values::with_room(size, SIZE_BYTES, Value::Size(1), error)
    } else if attribute == VX_DISTRIBUTION_OFFSET {
        crate::values::with_room(
            size,
            NUMBER_BYTES,
            Value::Int(crate::scalar::signed32(d.offset as nat) as i32),
            error,
        )
    } else if attribute == VX_DISTRIBUTION_RANGE {
        crate::values::with_room(size, NUMBER_BYTES, Value::Number(d.range), error)
    } else if attribute == VX_DISTRIBUTION_BINS {
        crate::values::with_room(size, SIZE_BYTES, Value::Size(d.bins), error)
    } else if attribute == VX_DISTRIBUTION_WINDOW {
        crate::values::with_room(
            size,
            NUMBER_BYTES,
            Value::Number(d.range / ((d.bins as int % 0x1_0000_0000) as u32)),
            error,
        )
    } else if attribute == VX_DISTRIBUTION_SIZE {
        crate::values::with_room(size, SIZE_BYTES, Value::Size((d.bins * 4) as usize), error)
    } else {
        Err(error)
    }
}

/// Reads an attribute of a distribution.
pub fn vxQueryDistribution(
    distributions: &HashMap<u64, VxCDistribution>,
    distribution: u64,
    attribute: vx_enum,
    ptr: u64,
    size: usize,
) -> (r: Result<Value, vx_status>)
    requires
        distributions@.contains_key(distribution) ==> {
            &&& attribute == VX_DISTRIBUTION_SIZE ==> distributions@[distribution].bins * 4
                <= usize::MAX
            &&& attribute == VX_DISTRIBUTION_WINDOW ==> distributions@[distribution].bins as int
                % 0x1_0000_0000 != 0
        },
    ensures
        r == if distribution == 0 || ptr == 0 || !distributions@.contains_key(distribution) {
            Err(VX_ERROR_INVALID_REFERENCE)
        } else {
            distribution_attribute(distributions@[distribution], attribute, size)
        },
{
    if distribution == 0 || ptr == 0 {
        return Err(VX_ERROR_INVALID_REFERENCE);
    }
    let d = match distributions.get(&distribution) {
        Some(d) => d,
        None => {
            return Err(VX_ERROR_INVALID_REFERENCE);
        },
    };
    let error: vx_status = VX_ERROR_NOT_SUPPORTED;
    if attribute == VX_DISTRIBUTION_DIMENSIONS {
        hand_out(size, SIZE_BYTES, Value::Size(1), error)
    } else if attribute == VX_DISTRIBUTION_OFFSET {
        hand_out(size, NUMBER_BYTES, Value::Int(to_signed32(d.offset)), error)
    } else if attribute == VX_DISTRIBUTION_RANGE {
        hand_out(size, NUMBER_BYTES, Value::Number(d.range), error)
    } else if attribute == VX_DISTRIBUTION_BINS {
        hand_out(size, SIZE_BYTES, Value::Size(d.bins), error)
    } else if attribute == VX_DISTRIBUTION_WINDOW {
        let bins = (d.bins as u64 % 0x1_0000_0000) as u32;
        hand_out(size, NUMBER_BYTES, Value::Number(d.range / bins), error)
    } else if attribute == VX_DISTRIBUTION_SIZE {
        hand_out(size, SIZE_BYTES, Value::Size(d.bins * 4), error)
    } else {
        Err(error)
    }
}

/// The first numbers of `base` replaced by those of `data`, up to `n`.
pub open spec fn replaced(base: Seq<i32>, data: Seq<i32>, n: nat) -> Seq<i32> {
    Seq::new(
        base.len(),
        |i: int|
            if i < n {
                data[i]
            } else {
                base[i]
            },
    )
}

fn replace(base: &Vec<i32>, data: &Vec<i32>, n: usize) -> (r: Vec<i32>)
    requires
        n <= data@.len(),
    ensures
        r@ == replaced(base@, data@, n as nat),
{
    let mut out: Vec<i32> = Vec::new();
    for i in 0..base.len()
        invariant
            n <= data@.len(),
            out@.len() == i,
            forall|j: int| 0 <= j < i ==> out@[j] == replaced(base@, data@, n as nat)[j],
    {
        if i < n {
            out.push(data[i]);
        } else {
            out.push(base[i]);
        }
    }
    assert(out@ =~= replaced(base@, data@, n as nat));
    out
}

/// Copies a distribution to or from the application's memory.
pub fn vxCopyDistribution(
    distributions: &mut HashMap<u64, VxCDistribution>,
    distribution: u64,
    user_ptr: u64,
    user: &mut Vec<i32>,
    usage: vx_enum,
) -> (status: vx_status)
    requires
        old(distributions)@.contains_key(distribution) ==> old(distributions)@[distribution].wf()
            && old(user)@.len() >= old(distributions)@[distribution].bins,
    ensures
        status == if distribution == 0 || user_ptr == 0 || !old(distributions)@.contains_key(
            distribution,
        ) {
            VX_ERROR_INVALID_REFERENCE
        } else {
            VX_SUCCESS
        },
        final(user)@ == if status == VX_SUCCESS && usage == VX_READ_ONLY {
            replaced(
                old(user)@,
                old(distributions)@[distribution].data@,
                old(distributions)@[distribution].bins as nat,
            )
        } else {
            old(user)@
        },
        final(distributions)@.dom() == old(distributions)@.dom(),
        final(distributions)@.remove(distribution) == old(distributions)@.remove(distribution),
        old(distributions)@.contains_key(distribution) ==> {
            let before = old(distributions)@[distribution];
            let after = final(distributions)@[distribution];
            &&& after.data@ == if status == VX_SUCCESS && usage == VX_WRITE_ONLY {
                old(user)@.take(before.bins as int)
            } else {
                before.data@
            }
            &&& after == (VxCDistribution { data: after.data, ..before })
        },
{
    if distribution == 0 || user_ptr == 0 {
        return VX_ERROR_INVALID_REFERENCE;
    }
    match distributions.remove(&distribution) {
        Some(mut d) => {
            if usage == VX_READ_ONLY {
                *user = replace(user, &d.data, d.bins);
            } else if usage == VX_WRITE_ONLY {
                d.data = replace(&d.data, user, d.bins);
                assert(d.data@ =~= old(user)@.take(d.bins as int));
            }
            distributions.insert(distribution, d);
            proof {
                assert(distributions@.dom() =~= old(distributions)@.dom());
                assert(distributions@.remove(distribution) =~= old(distributions)@.remove(
                    distribution,
                ));
            }
            VX_SUCCESS
        },
        None => {
            assert(distributions@ =~= old(distributions)@);
            VX_ERROR_INVALID_REFERENCE
        },
    }
}

/// Hands out a copy of a distribution.  Answers the number of the copy, under which
/// it is kept until it is given back.
pub fn vxMapDistribution(
    distributions: &mut HashMap<u64, VxCDistribution>,
    distribution: u64,
    map_id_ptr: u64,
    ptr: u64,
    usage: vx_enum,
    mem_type: vx_enum,
) -> (r: Result<usize, vx_status>)
    requires
        old(distributions)@.contains_key(distribution) ==> old(distributions)@[distribution].wf(),
    ensures
        ({
            let refused = if distribution == 0 {
                VX_ERROR_INVALID_REFERENCE
            } else if map_id_ptr == 0 || ptr == 0 {
                VX_ERROR_INVALID_PARAMETERS
            } else if mem_type != VX_MEMORY_TYPE_HOST {
                VX_ERROR_NOT_IMPLEMENTED
            } else if !old(distributions)@.contains_key(distribution) {
                VX_ERROR_INVALID_REFERENCE
            } else {
                VX_SUCCESS
            };
            if refused != VX_SUCCESS {
                r == Err::<usize, vx_status>(refused) && final(distributions)@ == old(
                    distributions,
                )@
            } else {
                let before = old(distributions)@[distribution];
                let after = final(distributions)@[distribution];
                let maps = before.mapped_distributions@;
                &&& r == Ok::<usize, vx_status>((maps.len() + 1) as usize)
                &&& final(distributions)@.dom() == old(distributions)@.dom()
                &&& final(distributions)@.remove(distribution) == old(distributions)@.remove(
                    distribution,
                )
                &&& after == (VxCDistribution {
                    mapped_distributions: after.mapped_distributions,
                    ..before
                })
                &&& after.wf()
                &&& after.mapped_distributions@.drop_last() == maps
                &&& after.mapped_distributions@.len() == maps.len() + 1
                &&& after.mapped_distributions@.last().id == maps.len() + 1
                &&& after.mapped_distributions@.last().data@ == before.data@
                &&& after.mapped_distributions@.last().usage == usage
            }
        }),
{
    if distribution == 0 {
        return Err(VX_ERROR_INVALID_REFERENCE);
    }
    if map_id_ptr == 0 || ptr == 0 {
        return Err(VX_ERROR_INVALID_PARAMETERS);
    }
    if mem_type != VX_MEMORY_TYPE_HOST {
        return Err(VX_ERROR_NOT_IMPLEMENTED);
    }
    match distributions.remove(&distribution) {
        Some(mut d) => {
            let data = d.data.clone();
            assert(data@ =~= d.data@);
            let ghost maps = d.mapped_distributions@;
            d.mapped_distributions.push(MappedDistribution { id: 0, data, usage });
            let id: usize = d.mapped_distributions.len();
            d.mapped_distributions[id - 1].id = id;
            assert(d.mapped_distributions@.drop_last() =~= maps);
            assert(d.wf()) by {
                assert forall|i: int| 0 <= i < d.mapped_distributions@.len() implies (
                #[trigger] d.mapped_distributions@[i]).data@.len() == d.bins by {
                    if i < maps.len() {
                        assert(d.mapped_distributions@[i] == maps[i]);
                    }
                }
            }
            distributions.insert(distribution, d);
            proof {
                assert(distributions@.dom() =~= old(distributions)@.dom());
                assert(distributions@.remove(distribution) =~= old(distributions)@.remove(
                    distribution,
                ));
            }
            Ok(id)
        },
        None => {
            assert(distributions@ =~= old(distributions)@);
            Err(VX_ERROR_INVALID_REFERENCE)
        },
    }
}

/// The position of the first copy with a number.
pub open spec fn copy_position(maps: Seq<MappedDistribution>, map_id: usize) -> Option<nat> {
    crate::search::first_where(maps.len(), |i: int| maps[i].id == map_id)
}

/// Whether a usage writes.
pub open spec fn writes_back(usage: vx_enum) -> bool {
    usage == VX_WRITE_ONLY || usage == VX_READ_AND_WRITE
}

fn find_copy(maps: &Vec<MappedDistribution>, map_id: usize) -> (r: Option<usize>)
    ensures
        match r {
            Some(i) => copy_position(maps@, map_id) == Some(i as nat) && i < maps@.len(),
            None => copy_position(maps@, map_id) is None,
        },
{
    let ghost list = maps@;
    let ghost found = |i: int| list[i].id == map_id;
    for i in 0..maps.len()
        invariant
            list == maps@,
            found == (|i: int| list[i].id == map_id),
            forall|j: int| 0 <= j < i ==> !#[trigger] found(j),
    {
        if maps[i].id == map_id {
            proof {
                crate::search::lemma_is_first(list.len(), found, i as nat);
            }
            return Some(i);
        }
    }
    proof {
        crate::search::lemma_is_nowhere(list.len(), found);
    }
    None
}

/// Takes back a copy of a distribution.  A copy handed out for writing becomes the
/// distribution's data.
pub fn vxUnmapDistribution(
    distributions: &mut HashMap<u64, VxCDistribution>,
    distribution: u64,
    map_id: usize,
) -> (status: vx_status)
    requires
        old(distributions)@.contains_key(distribution) ==> old(distributions)@[distribution].wf(),
    ensures
        status == if distribution != 0 && old(distributions)@.contains_key(distribution)
            && copy_position(
            old(distributions)@[distribution].mapped_distributions@,
            map_id,
        ) is Some {
            VX_SUCCESS
        } else {
            VX_ERROR_INVALID_REFERENCE
        },
        final(distributions)@.dom() == old(distributions)@.dom(),
        final(distributions)@.remove(distribution) == old(distributions)@.remove(distribution),
        status != VX_SUCCESS ==> final(distributions)@ == old(distributions)@,
        status == VX_SUCCESS ==> {
            let before = old(distributions)@[distribution];
            let after = final(distributions)@[distribution];
            let i = copy_position(before.mapped_distributions@, map_id).unwrap() as int;
            let copy = before.mapped_distributions@[i];
            &&& after.mapped_distributions@ == before.mapped_distributions@.remove(i)
            &&& after.data@ == if writes_back(copy.usage) {
                copy.data@
            } else {
                before.data@
            }
            &&& after == (VxCDistribution {
                data: after.data,
                mapped_distributions: after.mapped_distributions,
                ..before
            })
            &&& after.wf()
        },
{
    if distribution == 0 {
        return VX_ERROR_INVALID_REFERENCE;
    }
    match distributions.remove(&distribution) {
        Some(mut d) => {
            let ghost maps = d.mapped_distributions@;
            let found = find_copy(&d.mapped_distributions, map_id);
            let mut status: vx_status = VX_ERROR_INVALID_REFERENCE;
            if let Some(i) = found {
                let copy = d.mapped_distributions.remove(i);
                if copy.usage == VX_WRITE_ONLY || copy.usage == VX_READ_AND_WRITE {
                    d.data = copy.data;
                }
                status = VX_SUCCESS;
                assert forall|k: int| 0 <= k < d.mapped_distributions@.len() implies (
                #[trigger] d.mapped_distributions@[k]).data@.len() == d.bins by {
                    if k < i {
                        assert(d.mapped_distributions@[k] == maps[k]);
                    } else {
                        assert(d.mapped_distributions@[k] == maps[k + 1]);
                    }
                }
            }
            distributions.insert(distribution, d);
            proof {
                assert(distributions@.dom() =~= old(distributions)@.dom());
                assert(distributions@.remove(distribution) =~= old(distributions)@.remove(
                    distribution,
                ));
                if status != VX_SUCCESS {
                    assert(distributions@ =~= old(distributions)@);
                }
            }
            status
        },
        None => {
            assert(distributions@ =~= old(distributions)@);
            VX_ERROR_INVALID_REFERENCE
        },
    }
}

/// Forgets a distribution.  Answers `-1` where no place for the handle was given.
pub fn vxReleaseDistribution(refs: &mut References, place: u64, distribution: u64) -> (status:
    vx_status)
    ensures
        status == if place == 0 {
            VX_FAILURE
        } else {
            VX_SUCCESS
        },
        final(refs).names@ == old(refs).names@,
        final(refs).counts@ == if place != 0 && distribution != 0 {
            old(refs).counts@.remove(distribution)
        } else {
            old(refs).counts@
        },
        final(refs).types@ == if place != 0 && distribution != 0 {
            old(refs).types@.remove(distribution)
        } else {
            old(refs).types@
        },
{
    if place == 0 {
        return VX_FAILURE;
    }
    if distribution != 0 {
        refs.unregister(distribution);
    }
    VX_SUCCESS
}

/// Reading back what was written gives what was written.
pub proof fn law_copy_round_trip(user: Seq<i32>, other: Seq<i32>, bins: nat)
    requires
        bins <= user.len(),
        bins <= other.len(),
    ensures
        replaced(other, user.take(bins as int), bins).take(bins as int) == user.take(bins as int),
{
    assert(replaced(other, user.take(bins as int), bins).take(bins as int) =~= user.take(
        bins as int,
    ));
}

/// A copy is found under its number as long as no other copy has it.
pub proof fn law_mapped_copy_is_found(maps: Seq<MappedDistribution>, last: MappedDistribution)
    requires
        forall|i: int| 0 <= i < maps.len() ==> (#[trigger] maps[i]).id != last.id,
    ensures
        copy_position(maps.push(last), last.id) == Some(maps.len()),
{
    let all = maps.push(last);
    let found = |i: int| all[i].id == last.id;
    assert forall|j: int| 0 <= j < maps.len() implies !#[trigger] found(j) by {
        assert(all[j] == maps[j]);
    }
    crate::search::lemma_is_first(all.len(), found, maps.len());
}

/// What can be asked of a distribution: that it has one dimension, its offset, its
/// range, its bins, how much of the range a bin covers, and four bytes for each bin.
pub proof fn law_distribution_answers(d: VxCDistribution, size: usize)
    requires
        size >= 8,
        0 < d.bins <= u32::MAX,
        d.bins * 4 <= usize::MAX,
        d.offset < 0x8000_0000,
    ensures
        distribution_attribute(d, VX_DISTRIBUTION_DIMENSIONS, size) == Ok::<Value, vx_status>(
            Value::Size(1),
        ),
        distribution_attribute(d, VX_DISTRIBUTION_OFFSET, size) == Ok::<Value, vx_status>(
            Value::Int(d.offset as i32),
        ),
        distribution_attribute(d, VX_DISTRIBUTION_RANGE, size) == Ok::<Value, vx_status>(
            Value::Number(d.range),
        ),
        distribution_attribute(d, VX_DISTRIBUTION_BINS, size) == Ok::<Value, vx_status>(
            Value::Size(d.bins),
        ),
        distribution_attribute(d, VX_DISTRIBUTION_WINDOW, size) == Ok::<Value, vx_status>(
            Value::Number((d.range as int / d.bins as int) as u32),
        ),
        distribution_attribute(d, VX_DISTRIBUTION_SIZE, size) == Ok::<Value, vx_status>(
            Value::Size((4 * d.bins) as usize),
        ),
        distribution_attribute(d, VX_DISTRIBUTION_BINS, 7) is Err,
        distribution_attribute(d, VX_DISTRIBUTION_RANGE, 4) is Ok,
        distribution_attribute(d, VX_DISTRIBUTION_RANGE, 3) is Err,
{
}

/// Copying takes as many counts as there are bins, one for one.
pub proof fn law_counts_are_copied_one_for_one(base: Seq<i32>, data: Seq<i32>, n: nat, i: int)
    requires
        n <= data.len(),
        0 <= i < base.len(),
    ensures
        replaced(base, data, n).len() == base.len(),
        replaced(base, data, n)[i] == if i < n {
            data[i]
        } else {
            base[i]
        },
{
}

/// A copy is written back where it was handed out for writing, alone or beside
/// reading, and only then.
pub proof fn law_copies_for_writing_are_written_back(usage: vx_enum)
    ensures
        writes_back(VX_WRITE_ONLY),
        writes_back(VX_READ_AND_WRITE),
        !writes_back(VX_READ_ONLY),
        writes_back(usage) ==> usage == VX_WRITE_ONLY || usage == VX_READ_AND_WRITE,
{
}

/// A new distribution has counted nothing yet, is mapped nowhere and is held once.
pub proof fn law_new_distributions(
    d: VxCDistribution,
    bins: usize,
    offset: u32,
    range: u32,
    i: int,
)
    requires
        is_empty_distribution(d, bins, offset, range),
    ensures
        d.bins == bins && d.offset == offset && d.range == range,
        d.data@.len() == bins,
        0 <= i < bins ==> d.data@[i] == 0,
        d.ref_count == 1,
        d.mapped_distributions@.len() == 0,
{
}

} // verus!

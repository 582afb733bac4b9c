//! The reference table: how often each reference is held, what it refers to and
//! what it is called.
use vstd::prelude::*;
use crate::image::VxCImage;
use crate::types::{
    VX_TYPE_ARRAY, VX_TYPE_CONTEXT, VX_TYPE_CONVOLUTION, VX_TYPE_DELAY, VX_TYPE_DISTRIBUTION,
    VX_TYPE_GRAPH, VX_TYPE_IMAGE, VX_TYPE_KERNEL, VX_TYPE_LUT, VX_TYPE_MATRIX, VX_TYPE_NODE,
    VX_TYPE_OBJECT_ARRAY, VX_TYPE_PARAMETER, VX_TYPE_PYRAMID, VX_TYPE_REMAP, VX_TYPE_SCALAR,
    VX_TYPE_TENSOR, VX_TYPE_THRESHOLD, vx_enum,
};
use std::collections::HashMap;

verus! {

broadcast use vstd::std_specs::hash::group_hash_axioms;

/// Counts, types and names of the live references.
pub struct References {
    pub counts: HashMap<u64, usize>,
    pub types: HashMap<u64, vx_enum>,
    pub names: HashMap<u64, Vec<u8>>,
}

/// One more; the count wraps round at the largest number.
pub open spec fn one_more(count: usize) -> usize {
    if count == usize::MAX {
        0
    } else {
        (count + 1) as usize
    }
}

/// The counts after a reference is held once more.
pub open spec fn retained(counts: Map<u64, usize>, reference: u64) -> Map<u64, usize> {
    if counts.contains_key(reference) {
        counts.insert(reference, one_more(counts[reference]))
    } else {
        counts
    }
}

/// The counts after a reference is held once less, as long as someone else
/// still holds it.
pub open spec fn loosened(counts: Map<u64, usize>, reference: u64) -> Map<u64, usize> {
    if counts.contains_key(reference) && counts[reference] > 1 {
        counts.insert(reference, (counts[reference] - 1) as usize)
    } else {
        counts
    }
}

/// The counts after a reference is held once less; the last holder removes it.
pub open spec fn dropped(counts: Map<u64, usize>, reference: u64) -> Map<u64, usize> {
    if counts.contains_key(reference) && counts[reference] > 1 {
        counts.insert(reference, (counts[reference] - 1) as usize)
    } else {
        counts.remove(reference)
    }
}

/// Whether a reference type carries data from node to node.  Scalars carry values and
/// are no such type.
pub open spec fn carries_data(t: vx_enum) -> bool {
    t == VX_TYPE_IMAGE || t == VX_TYPE_ARRAY || t == VX_TYPE_PYRAMID || t == VX_TYPE_REMAP || t
        == VX_TYPE_LUT || t == VX_TYPE_DISTRIBUTION || t == VX_TYPE_THRESHOLD || t
        == VX_TYPE_MATRIX || t == VX_TYPE_CONVOLUTION || t == VX_TYPE_OBJECT_ARRAY || t
        == VX_TYPE_TENSOR
}

/// Whether a reference is an image: its recorded type says so, and where none is
/// recorded, the images do.
pub open spec fn is_image(types: Map<u64, vx_enum>, images: Set<u64>, reference: u64) -> bool {
    if types.contains_key(reference) {
        types[reference] == VX_TYPE_IMAGE
    } else {
        images.contains(reference)
    }
}

/// Whether a reference carries data from node to node.
pub open spec fn is_data(types: Map<u64, vx_enum>, images: Set<u64>, reference: u64) -> bool {
    if types.contains_key(reference) {
        carries_data(types[reference])
    } else {
        images.contains(reference)
    }
}

impl References {
    /// An empty table.
    pub fn new() -> (r: Self)
        ensures
            r.counts@ == Map::<u64, usize>::empty(),
            r.types@ == Map::<u64, vx_enum>::empty(),
            r.names@ == Map::<u64, Vec<u8>>::empty(),
    {
        References { counts: HashMap::new(), types: HashMap::new(), names: HashMap::new() }
    }

    /// Records a fresh reference, held once.
    pub fn register(&mut self, reference: u64, ref_type: vx_enum)
        ensures
            final(self).counts@ == old(self).counts@.insert(reference, 1),
            final(self).types@ == old(self).types@.insert(reference, ref_type),
            final(self).names@ == old(self).names@,
    {
        self.counts.insert(reference, 1);
        self.types.insert(reference, ref_type);
    }

    /// Holds a known reference once more.
    pub fn retain(&mut self, reference: u64)
        ensures
            final(self).counts@ == retained(old(self).counts@, reference),
            final(self).types@ == old(self).types@,
            final(self).names@ == old(self).names@,
    {
        let count: Option<usize> = match self.counts.get(&reference) {
            Some(c) => Some(*c),
            None => None,
        };
        if let Some(c) = count {
            let more: usize = if c == usize::MAX {
                0
            } else {
                c + 1
            };
            self.counts.insert(reference, more);
        }
    }

    /// Holds a reference once less, unless it is the last hold.
    pub fn loosen(&mut self, reference: u64)
        ensures
            final(self).counts@ == loosened(old(self).counts@, reference),
            final(self).types@ == old(self).types@,
            final(self).names@ == old(self).names@,
    {
        let count: Option<usize> = match self.counts.get(&reference) {
            Some(c) => Some(*c),
            None => None,
        };
        if let Some(c) = count {
            if c > 1 {
                self.counts.insert(reference, c - 1);
            }
        }
    }

    /// Holds a reference once less.  Answers whether nobody holds it any more.
    pub fn release(&mut self, reference: u64) -> (last: bool)
        ensures
            final(self).counts@ == dropped(old(self).counts@, reference),
            last == !final(self).counts@.contains_key(reference),
            final(self).types@ == old(self).types@,
            final(self).names@ == old(self).names@,
    {
        let count: Option<usize> = match self.counts.get(&reference) {
            Some(c) => Some(*c),
            None => None,
        };
        match count {
            Some(c) => if c > 1 {
                self.counts.insert(reference, c - 1);
                false
            } else {
                self.counts.remove(&reference);
                true
            },
            None => {
                assert(self.counts@ =~= self.counts@.remove(reference));
                true
            },
        }
    }

    /// Forgets the count and the type of a reference.
    pub fn unregister(&mut self, reference: u64)
        ensures
            final(self).counts@ == old(self).counts@.remove(reference),
            final(self).types@ == old(self).types@.remove(reference),
            final(self).names@ == old(self).names@,
    {
        self.counts.remove(&reference);
        self.types.remove(&reference);
    }

    /// The recorded type of a reference.
    pub fn type_of(&self, reference: u64) -> (r: Option<vx_enum>)
        ensures
            match r {
                Some(t) => self.types@.contains_key(reference) && self.types@[reference] == t,
                None => !self.types@.contains_key(reference),
            },
    {
        match self.types.get(&reference) {
            Some(t) => Some(*t),
            None => None,
        }
    }

    /// Whether a reference is live and of the given type.
    pub fn is_reference_type(&self, reference: u64, expected_type: vx_enum) -> (r: bool)
        ensures
            r == (reference != 0 && self.types@.contains_key(reference) && self.types@[reference]
                == expected_type),
    {
        if reference == 0 {
            return false;
        }
        match self.type_of(reference) {
            Some(t) => t == expected_type,
            None => false,
        }
    }

    /// Whether a reference is an image.
    pub fn is_image_reference(&self, images: &HashMap<u64, VxCImage>, reference: u64) -> (r: bool)
        ensures
            r == is_image(self.types@, images@.dom(), reference),
    {
        match self.type_of(reference) {
            Some(t) => t == VX_TYPE_IMAGE,
            None => images.contains_key(&reference),
        }
    }

    /// Whether a reference is an image, asking the images first.
    pub fn is_image_ref(&self, images: &HashMap<u64, VxCImage>, reference: u64) -> (r: bool)
        ensures
            r == (reference != 0 && (images@.contains_key(reference) || (self.types@.contains_key(
                reference,
            ) && self.types@[reference] == VX_TYPE_IMAGE))),
    {
        if reference == 0 {
            return false;
        }
        if images.contains_key(&reference) {
            return true;
        }
        match self.type_of(reference) {
            Some(t) => t == VX_TYPE_IMAGE,
            None => false,
        }
    }

    /// Whether a reference carries data from node to node.
    pub fn is_data_reference(&self, images: &HashMap<u64, VxCImage>, reference: u64) -> (r: bool)
        ensures
            r == is_data(self.types@, images@.dom(), reference),
    {
        match self.type_of(reference) {
            Some(t) => t == VX_TYPE_IMAGE || t == VX_TYPE_ARRAY || t == VX_TYPE_PYRAMID || t
                == VX_TYPE_REMAP || t == VX_TYPE_LUT || t == VX_TYPE_DISTRIBUTION || t
                == VX_TYPE_THRESHOLD || t == VX_TYPE_MATRIX || t == VX_TYPE_CONVOLUTION || t
                == VX_TYPE_OBJECT_ARRAY || t == VX_TYPE_TENSOR,
            None => images.contains_key(&reference),
        }
    }
}

/// Holding a reference once more and once less leaves the counts as they were,
/// unless the count was the largest number or the reference was not live.
pub proof fn law_retain_then_drop(counts: Map<u64, usize>, reference: u64)
    requires
        counts.contains_key(reference),
        0 < counts[reference] < usize::MAX,
    ensures
        dropped(retained(counts, reference), reference) == counts,
        loosened(retained(counts, reference), reference) == counts,
{
    assert(dropped(retained(counts, reference), reference) =~= counts);
    assert(loosened(retained(counts, reference), reference) =~= counts);
}

/// Every image carries data.
pub proof fn law_images_carry_data(types: Map<u64, vx_enum>, images: Set<u64>, reference: u64)
    requires
        is_image(types, images, reference),
    ensures
        is_data(types, images, reference),
{
}

/// Holding a reference once more counts one up and letting it go one down, without
/// touching any other; what only one holder held is gone when let go.
pub proof fn law_holds_count_up_and_down(counts: Map<u64, usize>, reference: u64, other: u64)
    requires
        counts.contains_key(reference),
        other != reference,
    ensures
        counts[reference] < usize::MAX ==> retained(counts, reference)[reference]
            == counts[reference] + 1,
        counts[reference] > 1 ==> dropped(counts, reference)[reference] == counts[reference] - 1
            && loosened(counts, reference)[reference] == counts[reference] - 1,
        counts[reference] <= 1 ==> !dropped(counts, reference).contains_key(reference) && loosened(
            counts,
            reference,
        ) == counts,
        retained(counts, reference).contains_key(other) == counts.contains_key(other),
        dropped(counts, reference).contains_key(other) == counts.contains_key(other),
        counts.contains_key(other) ==> retained(counts, reference)[other] == counts[other]
            && dropped(counts, reference)[other] == counts[other] && loosened(counts, reference)[
            other
        ] == counts[other],
{
}

/// A reference of which no count is kept stays without one.
pub proof fn law_unknown_references_stay_unknown(counts: Map<u64, usize>, reference: u64)
    requires
        !counts.contains_key(reference),
    ensures
        retained(counts, reference) == counts,
        loosened(counts, reference) == counts,
        dropped(counts, reference) == counts,
{
    assert(dropped(counts, reference) =~= counts);
}

/// Which types carry data from node to node: objects with contents do, scalars and
/// the parts of a graph do not.
pub proof fn law_types_that_carry_data()
    ensures
        carries_data(VX_TYPE_IMAGE) && carries_data(VX_TYPE_ARRAY) && carries_data(
            VX_TYPE_PYRAMID,
        ) && carries_data(VX_TYPE_REMAP) && carries_data(VX_TYPE_LUT) && carries_data(
            VX_TYPE_DISTRIBUTION,
        ) && carries_data(VX_TYPE_THRESHOLD) && carries_data(VX_TYPE_MATRIX) && carries_data(
            VX_TYPE_CONVOLUTION,
        ) && carries_data(VX_TYPE_OBJECT_ARRAY) && carries_data(VX_TYPE_TENSOR),
        !carries_data(VX_TYPE_SCALAR) && !carries_data(VX_TYPE_CONTEXT) && !carries_data(
            VX_TYPE_GRAPH,
        ) && !carries_data(VX_TYPE_NODE) && !carries_data(VX_TYPE_KERNEL) && !carries_data(
            VX_TYPE_PARAMETER,
        ) && !carries_data(VX_TYPE_DELAY),
{
}

/// What was recorded of a reference says whether it is an image; the images are
/// asked only where nothing was.
pub proof fn law_recorded_types_come_first(
    types: Map<u64, vx_enum>,
    images: Set<u64>,
    reference: u64,
)
    ensures
        types.contains_key(reference) ==> (is_image(types, images, reference) <==> types[reference]
            == VX_TYPE_IMAGE),
        !types.contains_key(reference) ==> (is_image(types, images, reference) <==> images.contains(
            reference,
        )),
        !types.contains_key(reference) ==> (is_data(types, images, reference) <==> images.contains(
            reference,
        )),
        types.contains_key(reference) ==> (is_data(types, images, reference) <==> carries_data(
            types[reference],
        )),
{
}

} // verus!

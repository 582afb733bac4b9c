//! What can be asked of any reference: its type, how often it is held and its
//! name; and how a reference of any type is let go.
use vstd::prelude::*;
use crate::constants::{
    VX_REFERENCE_ATTRIBUTE_COUNT, VX_REFERENCE_ATTRIBUTE_NAME, VX_REFERENCE_ATTRIBUTE_TYPE,
};
use crate::records::VxCGraphData;
use crate::refs::References;
use crate::types::{
    VX_ERROR_INVALID_PARAMETERS, VX_ERROR_INVALID_REFERENCE, VX_ERROR_NOT_SUPPORTED, VX_SUCCESS,
    VX_TYPE_ARRAY, VX_TYPE_CONTEXT, VX_TYPE_CONVOLUTION, VX_TYPE_DELAY, VX_TYPE_DISTRIBUTION,
    VX_TYPE_GRAPH, VX_TYPE_IMAGE, VX_TYPE_IMPORT, VX_TYPE_KERNEL, VX_TYPE_LUT, VX_TYPE_MATRIX,
    VX_TYPE_META_FORMAT, VX_TYPE_NODE, VX_TYPE_OBJECT_ARRAY, VX_TYPE_PARAMETER, VX_TYPE_PYRAMID,
    VX_TYPE_REFERENCE, VX_TYPE_REMAP, VX_TYPE_SCALAR, VX_TYPE_TARGET, VX_TYPE_TENSOR,
    VX_TYPE_THRESHOLD, vx_enum, vx_status,
};
use crate::values::{ENUM_BYTES, NUMBER_BYTES, REFERENCE_BYTES};
use std::collections::{HashMap, HashSet};

verus! {

broadcast use vstd::std_specs::hash::group_hash_axioms;

/// The handles known to each registry.  Contexts, graphs, nodes, parameters and
/// kernels have a second registry beside the first.
pub struct Registries {
    pub contexts: HashSet<u64>,
    pub graphs: HashSet<u64>,
    pub other_graphs: HashSet<u64>,
    pub images: HashSet<u64>,
    pub arrays: HashSet<u64>,
    pub scalars: HashSet<u64>,
    pub convolutions: HashSet<u64>,
    pub matrices: HashSet<u64>,
    pub thresholds: HashSet<u64>,
    pub pyramids: HashSet<u64>,
    pub nodes: HashSet<u64>,
    pub other_nodes: HashSet<u64>,
    pub distributions: HashSet<u64>,
    pub remaps: HashSet<u64>,
    pub object_arrays: HashSet<u64>,
    pub delays: HashSet<u64>,
    pub tensors: HashSet<u64>,
    pub parameters: HashSet<u64>,
    pub other_parameters: HashSet<u64>,
    pub meta_formats: HashSet<u64>,
    pub imports: HashSet<u64>,
    pub kernels: HashSet<u64>,
    pub other_kernels: HashSet<u64>,
    pub targets: HashSet<u64>,
    pub other_contexts: HashSet<u64>,
}

/// The type of a reference: that of the first registry that knows it.  Lookup
/// tables have no registry; their recorded type is asked for in their place.
/// Where no registry knows the reference, its recorded type counts, and where
/// there is none either, it is a reference of no particular type.
pub open spec fn type_among(known: Registries, types: Map<u64, vx_enum>, r: u64) -> vx_enum {
    if known.contexts@.contains(r) {
        VX_TYPE_CONTEXT
    } else if known.graphs@.contains(r) || known.other_graphs@.contains(r) {
        VX_TYPE_GRAPH
    } else if known.images@.contains(r) {
        VX_TYPE_IMAGE
    } else if known.arrays@.contains(r) {
        VX_TYPE_ARRAY
    } else if known.scalars@.contains(r) {
        VX_TYPE_SCALAR
    } else if known.convolutions@.contains(r) {
        VX_TYPE_CONVOLUTION
    } else if known.matrices@.contains(r) {
        VX_TYPE_MATRIX
    } else if types.contains_key(r) && types[r] == VX_TYPE_LUT {
        VX_TYPE_LUT
    } else if known.thresholds@.contains(r) {
        VX_TYPE_THRESHOLD
    } else if known.pyramids@.contains(r) {
        VX_TYPE_PYRAMID
    } else if known.nodes@.contains(r) || known.other_nodes@.contains(r) {
        VX_TYPE_NODE
    } else if known.distributions@.contains(r) {
        VX_TYPE_DISTRIBUTION
    } else if known.remaps@.contains(r) {
        VX_TYPE_REMAP
    } else if known.object_arrays@.contains(r) {
        VX_TYPE_OBJECT_ARRAY
    } else if known.delays@.contains(r) {
        VX_TYPE_DELAY
    } else if known.tensors@.contains(r) {
        VX_TYPE_TENSOR
    } else if known.parameters@.contains(r) || known.other_parameters@.contains(r) {
        VX_TYPE_PARAMETER
    } else if known.meta_formats@.contains(r) {
        VX_TYPE_META_FORMAT
    } else if known.imports@.contains(r) {
        VX_TYPE_IMPORT
    } else if known.kernels@.contains(r) || known.other_kernels@.contains(r) {
        VX_TYPE_KERNEL
    } else if known.targets@.contains(r) {
        VX_TYPE_TARGET
    } else if known.other_contexts@.contains(r) {
        VX_TYPE_CONTEXT
    } else if types.contains_key(r) {
        types[r]
    } else {
        VX_TYPE_REFERENCE
    }
}

/// The type of a reference.
pub fn reference_type(known: &Registries, refs: &References, r: u64) -> (t: vx_enum)
    ensures
        t == type_among(*known, refs.types@, r),
{
    let recorded = refs.type_of(r);
    let is_lut = match recorded {
        Some(t) => t == VX_TYPE_LUT,
        None => false,
    };
    if known.contexts.contains(&r) {
        VX_TYPE_CONTEXT
    } else if known.graphs.contains(&r) || known.other_graphs.contains(&r) {
        VX_TYPE_GRAPH
    } else if known.images.contains(&r) {
        VX_TYPE_IMAGE
    } else if known.arrays.contains(&r) {
        VX_TYPE_ARRAY
    } else if known.scalars.contains(&r) {
        VX_TYPE_SCALAR
    } else if known.convolutions.contains(&r) {
        VX_TYPE_CONVOLUTION
    } else if known.matrices.contains(&r) {
        VX_TYPE_MATRIX
    } else if is_lut {
        VX_TYPE_LUT
    } else if known.thresholds.contains(&r) {
        VX_TYPE_THRESHOLD
    } else if known.pyramids.contains(&r) {
        VX_TYPE_PYRAMID
    } else if known.nodes.contains(&r) || known.other_nodes.contains(&r) {
        VX_TYPE_NODE
    } else if known.distributions.contains(&r) {
        VX_TYPE_DISTRIBUTION
    } else if known.remaps.contains(&r) {
        VX_TYPE_REMAP
    } else if known.object_arrays.contains(&r) {
        VX_TYPE_OBJECT_ARRAY
    } else if known.delays.contains(&r) {
        VX_TYPE_DELAY
    } else if known.tensors.contains(&r) {
        VX_TYPE_TENSOR
    } else if known.parameters.contains(&r) || known.other_parameters.contains(&r) {
        VX_TYPE_PARAMETER
    } else if known.meta_formats.contains(&r) {
        VX_TYPE_META_FORMAT
    } else if known.imports.contains(&r) {
        VX_TYPE_IMPORT
    } else if known.kernels.contains(&r) || known.other_kernels.contains(&r) {
        VX_TYPE_KERNEL
    } else if known.targets.contains(&r) {
        VX_TYPE_TARGET
    } else if known.other_contexts.contains(&r) {
        VX_TYPE_CONTEXT
    } else {
        match recorded {
            Some(t) => t,
            None => VX_TYPE_REFERENCE,
        }
    }
}

/// What a question about a reference is answered.
pub enum ReferenceAnswer {
    Type(vx_enum),
    Count(u32),
    /// The name, where one was given.
    Name(Option<Vec<u8>>),
}

/// The mathematical value of [`ReferenceAnswer`].
#[verifier::ext_equal]
pub enum ReferenceAnswerSpec {
    Type(vx_enum),
    Count(u32),
    Name(Option<Seq<u8>>),
}

impl View for ReferenceAnswer {
    type V = ReferenceAnswerSpec;

    open spec fn view(&self) -> ReferenceAnswerSpec {
        match *self {
            ReferenceAnswer::Type(t) => ReferenceAnswerSpec::Type(t),
            ReferenceAnswer::Count(c) => ReferenceAnswerSpec::Count(c),
            ReferenceAnswer::Name(Some(n)) => ReferenceAnswerSpec::Name(Some(n@)),
            ReferenceAnswer::Name(None) => ReferenceAnswerSpec::Name(None),
        }
    }
}

/// How often a reference counts as held: once where no count is kept.  Only the
/// low half of a count is handed out.
pub open spec fn hold_count(counts: Map<u64, usize>, r: u64) -> u32 {
    if counts.contains_key(r) {
        counts[r] as u32
    } else {
        1
    }
}

/// The name of a reference.
pub open spec fn given_name(names: Map<u64, Vec<u8>>, r: u64) -> Option<Seq<u8>> {
    if names.contains_key(r) {
        Some(names[r]@)
    } else {
        None
    }
}

/// What a question about a reference is answered, where the answer goes to
/// `ptr` and `size` bytes wait there.
pub open spec fn reference_answer(
    known: Registries,
    refs: References,
    r: u64,
    attribute: vx_enum,
    ptr: u64,
    size: usize,
) -> Result<ReferenceAnswerSpec, vx_status> {
    if r == 0 {
        Err(VX_ERROR_INVALID_REFERENCE)
    } else if ptr == 0 {
        Err(VX_ERROR_INVALID_PARAMETERS)
    } else if attribute == VX_REFERENCE_ATTRIBUTE_TYPE {
        if size < ENUM_BYTES {
            Err(VX_ERROR_INVALID_PARAMETERS)
        } else {
            Ok(ReferenceAnswerSpec::Type(type_among(known, refs.types@, r)))
        }
    } else if attribute == VX_REFERENCE_ATTRIBUTE_COUNT {
        if size < NUMBER_BYTES {
            Err(VX_ERROR_INVALID_PARAMETERS)
        } else {
            Ok(ReferenceAnswerSpec::Count(hold_count(refs.counts@, r)))
        }
    } else if attribute == VX_REFERENCE_ATTRIBUTE_NAME {
        if size != REFERENCE_BYTES {
            Err(VX_ERROR_INVALID_PARAMETERS)
        } else {
            Ok(ReferenceAnswerSpec::Name(given_name(refs.names@, r)))
        }
    } else {
        Err(VX_ERROR_NOT_SUPPORTED)
    }
}

/// Answers a question about any reference.
pub fn vxQueryReference(
    known: &Registries,
    refs: &References,
    ref_: u64,
    attribute: vx_enum,
    ptr: u64,
    size: usize,
) -> (r: Result<ReferenceAnswer, vx_status>)
    ensures
        match r {
            Ok(a) => reference_answer(*known, *refs, ref_, attribute, ptr, size) == Ok::<
                ReferenceAnswerSpec,
                vx_status,
            >(a@),
            Err(e) => reference_answer(*known, *refs, ref_, attribute, ptr, size) == Err::<
                ReferenceAnswerSpec,
                vx_status,
            >(e),
        },
{
    if ref_ == 0 {
        return Err(VX_ERROR_INVALID_REFERENCE);
    }
    if ptr == 0 {
        return Err(VX_ERROR_INVALID_PARAMETERS);
    }
    if attribute == VX_REFERENCE_ATTRIBUTE_TYPE {
        if size < ENUM_BYTES {
            return Err(VX_ERROR_INVALID_PARAMETERS);
        }
        return Ok(ReferenceAnswer::Type(reference_type(known, refs, ref_)));
    }
    if attribute == VX_REFERENCE_ATTRIBUTE_COUNT {
        if size < NUMBER_BYTES {
            return Err(VX_ERROR_INVALID_PARAMETERS);
        }
        let count: u32 = match refs.counts.get(&ref_) {
            Some(c) => *c as u32,
            None => 1,
        };
        return Ok(ReferenceAnswer::Count(count));
    }
    if attribute == VX_REFERENCE_ATTRIBUTE_NAME {
        if size != REFERENCE_BYTES {
            return Err(VX_ERROR_INVALID_PARAMETERS);
        }
        return match refs.names.get(&ref_) {
            Some(n) => {
                let name = n.clone();
                assert(name@ =~= n@);
                Ok(ReferenceAnswer::Name(Some(name)))
            },
            None => Ok(ReferenceAnswer::Name(None)),
        };
    }
    Err(VX_ERROR_NOT_SUPPORTED)
}

/// Whether a reference can be given a name.
pub open spec fn can_be_named(known: Registries, r: u64) -> bool {
    known.contexts@.contains(r) || known.graphs@.contains(r) || known.other_graphs@.contains(r)
        || known.images@.contains(r) || known.arrays@.contains(r) || known.scalars@.contains(r)
        || known.other_contexts@.contains(r)
}

/// Names a reference.  `None` stands for a null name.
pub fn vxSetReferenceName(
    known: &Registries,
    refs: &mut References,
    ref_: u64,
    name: Option<Vec<u8>>,
) -> (status: vx_status)
    ensures
        status == if ref_ == 0 {
            VX_ERROR_INVALID_REFERENCE
        } else if name is None {
            VX_ERROR_INVALID_PARAMETERS
        } else if !can_be_named(*known, ref_) {
            VX_ERROR_INVALID_REFERENCE
        } else {
            VX_SUCCESS
        },
        final(refs).counts@ == old(refs).counts@,
        final(refs).types@ == old(refs).types@,
        final(refs).names@ == if status == VX_SUCCESS {
            old(refs).names@.insert(ref_, name->0)
        } else {
            old(refs).names@
        },
{
    if ref_ == 0 {
        return VX_ERROR_INVALID_REFERENCE;
    }
    let text = match name {
        Some(n) => n,
        None => return VX_ERROR_INVALID_PARAMETERS,
    };
    let found = known.contexts.contains(&ref_) || known.graphs.contains(&ref_)
        || known.other_graphs.contains(&ref_) || known.images.contains(&ref_)
        || known.arrays.contains(&ref_) || known.scalars.contains(&ref_)
        || known.other_contexts.contains(&ref_);
    if !found {
        return VX_ERROR_INVALID_REFERENCE;
    }
    refs.names.insert(ref_, text);
    VX_SUCCESS
}

/// What is left to do after a reference was let go.
#[derive(Debug, Clone, Copy, PartialEq, Eq, Structural)]
pub enum LetGo {
    /// Nothing: someone else holds it, or no count is kept of it.
    Nothing,
    /// The object is to be released as an object of this type.
    Release(vx_enum),
    /// It has been forgotten.
    Forgotten,
}

/// Whether objects of a type are released in a way of their own.
pub open spec fn has_own_release(t: vx_enum) -> bool {
    t == VX_TYPE_PYRAMID || t == VX_TYPE_OBJECT_ARRAY || t == VX_TYPE_DELAY || t == VX_TYPE_IMAGE
        || t == VX_TYPE_SCALAR || t == VX_TYPE_MATRIX || t == VX_TYPE_DISTRIBUTION || t
        == VX_TYPE_REMAP || t == VX_TYPE_LUT || t == VX_TYPE_THRESHOLD
}

/// What is left to do after a reference was let go.
pub open spec fn let_go(known: Registries, refs: References, r: u64) -> LetGo {
    if !refs.counts@.contains_key(r) || refs.counts@[r] > 1 {
        LetGo::Nothing
    } else if known.other_graphs@.contains(r) {
        LetGo::Release(VX_TYPE_GRAPH)
    } else if refs.types@.contains_key(r) && has_own_release(refs.types@[r]) {
        LetGo::Release(refs.types@[r])
    } else {
        LetGo::Forgotten
    }
}

/// Lets a reference go: it is held once less.  Of the last hold, the object is
/// left to the release of its type; an object without one is forgotten, and a
/// graph with it.  `place` is where the handle stands, and holds null from then
/// on.
pub fn vxReleaseReference(
    known: &Registries,
    refs: &mut References,
    graphs: &mut HashMap<u64, VxCGraphData>,
    place: u64,
    ref_: u64,
) -> (r: Result<LetGo, vx_status>)
    ensures
        r == if place == 0 || ref_ == 0 {
            Err::<LetGo, vx_status>(VX_ERROR_INVALID_REFERENCE)
        } else {
            Ok::<LetGo, vx_status>(let_go(*known, *old(refs), ref_))
        },
        final(refs).counts@ == if place == 0 || ref_ == 0 {
            old(refs).counts@
        } else if let_go(*known, *old(refs), ref_) is Forgotten {
            old(refs).counts@.remove(ref_)
        } else {
            crate::refs::loosened(old(refs).counts@, ref_)
        },
        final(refs).names@ == if r == Ok::<LetGo, vx_status>(LetGo::Forgotten) {
            old(refs).names@.remove(ref_)
        } else {
            old(refs).names@
        },
        final(refs).types@ == if r == Ok::<LetGo, vx_status>(LetGo::Forgotten) {
            old(refs).types@.remove(ref_)
        } else {
            old(refs).types@
        },
        final(graphs)@ == if r == Ok::<LetGo, vx_status>(LetGo::Forgotten) {
            old(graphs)@.remove(ref_)
        } else {
            old(graphs)@
        },
{
    if place == 0 || ref_ == 0 {
        return Err(VX_ERROR_INVALID_REFERENCE);
    }
    let count: Option<usize> = match refs.counts.get(&ref_) {
        Some(c) => Some(*c),
        None => None,
    };
    let last = match count {
        Some(c) => c <= 1,
        None => false,
    };
    if !last {
        refs.loosen(ref_);
        return Ok(LetGo::Nothing);
    }
    if known.other_graphs.contains(&ref_) {
        return Ok(LetGo::Release(VX_TYPE_GRAPH));
    }
    if let Some(t) = refs.type_of(ref_) {
        if t == VX_TYPE_PYRAMID || t == VX_TYPE_OBJECT_ARRAY || t == VX_TYPE_DELAY || t
            == VX_TYPE_IMAGE || t == VX_TYPE_SCALAR || t == VX_TYPE_MATRIX || t
            == VX_TYPE_DISTRIBUTION || t == VX_TYPE_REMAP || t == VX_TYPE_LUT || t
            == VX_TYPE_THRESHOLD {
            return Ok(LetGo::Release(t));
        }
    }
    graphs.remove(&ref_);
    refs.unregister(ref_);
    refs.names.remove(&ref_);
    Ok(LetGo::Forgotten)
}

/// A name that was given is the name that is answered.
pub proof fn law_name_round_trip(
    known: Registries,
    before: References,
    after: References,
    r: u64,
    name: Vec<u8>,
    ptr: u64,
)
    requires
        r != 0,
        ptr != 0,
        can_be_named(known, r),
        after.names@ == before.names@.insert(r, name),
    ensures
        reference_answer(known, after, r, VX_REFERENCE_ATTRIBUTE_NAME, ptr, REFERENCE_BYTES)
            == Ok::<ReferenceAnswerSpec, vx_status>(ReferenceAnswerSpec::Name(Some(name@))),
{
}

/// A reference whose type has no registry that knows it is answered with the
/// type it was recorded with.
pub proof fn law_recorded_type_answers(
    known: Registries,
    types: Map<u64, vx_enum>,
    r: u64,
    t: vx_enum,
)
    requires
        type_among(known, Map::<u64, vx_enum>::empty(), r) == VX_TYPE_REFERENCE,
        types.contains_key(r),
        types[r] == t,
    ensures
        type_among(known, types, r) == t,
{
}

/// A held reference is let go by as many calls as it is held: each call but the
/// last takes one hold away and nothing else.
pub proof fn law_shared_reference_stays(known: Registries, refs: References, r: u64)
    requires
        refs.counts@.contains_key(r),
        refs.counts@[r] > 1,
    ensures
        let_go(known, refs, r) is Nothing,
        crate::refs::loosened(refs.counts@, r)[r] == refs.counts@[r] - 1,
{
}

/// How many registries know a reference.
pub open spec fn times_known(known: Registries, r: u64) -> nat {
    once(known.contexts@, r)
        + once(known.graphs@, r)
        + once(known.other_graphs@, r)
        + once(known.images@, r)
        + once(known.arrays@, r)
        + once(known.scalars@, r)
        + once(known.convolutions@, r)
        + once(known.matrices@, r)
        + once(known.thresholds@, r)
        + once(known.pyramids@, r)
        + once(known.nodes@, r)
        + once(known.other_nodes@, r)
        + once(known.distributions@, r)
        + once(known.remaps@, r)
        + once(known.object_arrays@, r)
        + once(known.delays@, r)
        + once(known.tensors@, r)
        + once(known.parameters@, r)
        + once(known.other_parameters@, r)
        + once(known.meta_formats@, r)
        + once(known.imports@, r)
        + once(known.kernels@, r)
        + once(known.other_kernels@, r)
        + once(known.targets@, r)
        + once(known.other_contexts@, r)
}

/// One where a set has a reference.
pub open spec fn once(set: Set<u64>, r: u64) -> nat {
    if set.contains(r) {
        1
    } else {
        0
    }
}

/// A reference that one registry alone knows is of the type that the registry is
/// for, whatever else was recorded of it, unless it was recorded as a lookup table.
pub proof fn law_registries_give_the_type(known: Registries, types: Map<u64, vx_enum>, r: u64)
    requires
        times_known(known, r) == 1,
        !(types.contains_key(r) && types[r] == VX_TYPE_LUT),
    ensures
        known.contexts@.contains(r) ==> type_among(known, types, r) == VX_TYPE_CONTEXT,
        known.graphs@.contains(r) ==> type_among(known, types, r) == VX_TYPE_GRAPH,
        known.other_graphs@.contains(r) ==> type_among(known, types, r) == VX_TYPE_GRAPH,
        known.images@.contains(r) ==> type_among(known, types, r) == VX_TYPE_IMAGE,
        known.arrays@.contains(r) ==> type_among(known, types, r) == VX_TYPE_ARRAY,
        known.scalars@.contains(r) ==> type_among(known, types, r) == VX_TYPE_SCALAR,
        known.convolutions@.contains(r) ==> type_among(known, types, r) == VX_TYPE_CONVOLUTION,
        known.matrices@.contains(r) ==> type_among(known, types, r) == VX_TYPE_MATRIX,
        known.thresholds@.contains(r) ==> type_among(known, types, r) == VX_TYPE_THRESHOLD,
        known.pyramids@.contains(r) ==> type_among(known, types, r) == VX_TYPE_PYRAMID,
        known.nodes@.contains(r) ==> type_among(known, types, r) == VX_TYPE_NODE,
        known.other_nodes@.contains(r) ==> type_among(known, types, r) == VX_TYPE_NODE,
        known.distributions@.contains(r) ==> type_among(known, types, r) == VX_TYPE_DISTRIBUTION,
        known.remaps@.contains(r) ==> type_among(known, types, r) == VX_TYPE_REMAP,
        known.object_arrays@.contains(r) ==> type_among(known, types, r) == VX_TYPE_OBJECT_ARRAY,
        known.delays@.contains(r) ==> type_among(known, types, r) == VX_TYPE_DELAY,
        known.tensors@.contains(r) ==> type_among(known, types, r) == VX_TYPE_TENSOR,
        known.parameters@.contains(r) ==> type_among(known, types, r) == VX_TYPE_PARAMETER,
        known.other_parameters@.contains(r) ==> type_among(known, types, r) == VX_TYPE_PARAMETER,
        known.meta_formats@.contains(r) ==> type_among(known, types, r) == VX_TYPE_META_FORMAT,
        known.imports@.contains(r) ==> type_among(known, types, r) == VX_TYPE_IMPORT,
        known.kernels@.contains(r) ==> type_among(known, types, r) == VX_TYPE_KERNEL,
        known.other_kernels@.contains(r) ==> type_among(known, types, r) == VX_TYPE_KERNEL,
        known.targets@.contains(r) ==> type_among(known, types, r) == VX_TYPE_TARGET,
        known.other_contexts@.contains(r) ==> type_among(known, types, r) == VX_TYPE_CONTEXT,
{
}

/// A reference that no registry knows is of the type that was recorded, a lookup
/// table among them, and of no particular type where none was.
pub proof fn law_unknown_references_have_the_recorded_type(
    known: Registries,
    types: Map<u64, vx_enum>,
    r: u64,
)
    requires
        times_known(known, r) == 0,
    ensures
        types.contains_key(r) ==> type_among(known, types, r) == types[r],
        !types.contains_key(r) ==> type_among(known, types, r) == VX_TYPE_REFERENCE,
{
}

/// What can be asked of a reference: its type, how often it is held and its name.
pub proof fn law_reference_answers(known: Registries, refs: References, r: u64, ptr: u64, size: usize)
    requires
        r != 0,
        ptr != 0,
    ensures
        size >= 4 ==> reference_answer(known, refs, r, VX_REFERENCE_ATTRIBUTE_TYPE, ptr, size)
            == Ok::<ReferenceAnswerSpec, vx_status>(
            ReferenceAnswerSpec::Type(type_among(known, refs.types@, r)),
        ),
        size >= 4 && refs.counts@.contains_key(r) ==> reference_answer(
            known,
            refs,
            r,
            VX_REFERENCE_ATTRIBUTE_COUNT,
            ptr,
            size,
        ) == Ok::<ReferenceAnswerSpec, vx_status>(
            ReferenceAnswerSpec::Count(refs.counts@[r] as u32),
        ),
        size >= 4 && !refs.counts@.contains_key(r) ==> reference_answer(
            known,
            refs,
            r,
            VX_REFERENCE_ATTRIBUTE_COUNT,
            ptr,
            size,
        ) == Ok::<ReferenceAnswerSpec, vx_status>(ReferenceAnswerSpec::Count(1)),
        size < 4 ==> reference_answer(known, refs, r, VX_REFERENCE_ATTRIBUTE_TYPE, ptr, size) is Err,
        size < 4 ==> reference_answer(known, refs, r, VX_REFERENCE_ATTRIBUTE_COUNT, ptr, size)
            is Err,
        size != 8 ==> reference_answer(known, refs, r, VX_REFERENCE_ATTRIBUTE_NAME, ptr, size)
            is Err,
        !refs.names@.contains_key(r) ==> reference_answer(
            known,
            refs,
            r,
            VX_REFERENCE_ATTRIBUTE_NAME,
            ptr,
            8,
        ) == Ok::<ReferenceAnswerSpec, vx_status>(ReferenceAnswerSpec::Name(None)),
{
}

/// The last hold on an object is let go by the release of its type where it has one;
/// a graph is released as a graph, and everything else is forgotten.
pub proof fn law_last_hold_releases(known: Registries, refs: References, r: u64)
    requires
        refs.counts@.contains_key(r),
        refs.counts@[r] <= 1,
    ensures
        known.other_graphs@.contains(r) ==> let_go(known, refs, r) == LetGo::Release(VX_TYPE_GRAPH),
        !known.other_graphs@.contains(r) && !refs.types@.contains_key(r) ==> let_go(known, refs, r)
            == LetGo::Forgotten,
        !known.other_graphs@.contains(r) && refs.types@.contains_key(r) ==> {
            let t = refs.types@[r];
            let_go(known, refs, r) == if t == VX_TYPE_PYRAMID || t == VX_TYPE_OBJECT_ARRAY || t
                == VX_TYPE_DELAY || t == VX_TYPE_IMAGE || t == VX_TYPE_SCALAR || t
                == VX_TYPE_MATRIX || t == VX_TYPE_DISTRIBUTION || t == VX_TYPE_REMAP || t
                == VX_TYPE_LUT || t == VX_TYPE_THRESHOLD {
                LetGo::Release(t)
            } else {
                LetGo::Forgotten
            }
        },
{
}

/// A name can be given to contexts, graphs, images, arrays and scalars, and to
/// nothing else.
pub proof fn law_what_can_be_named(known: Registries, r: u64)
    requires
        times_known(known, r) == 1,
    ensures
        can_be_named(known, r) <==> {
            let t = type_among(known, Map::empty(), r);
            t == VX_TYPE_CONTEXT || t == VX_TYPE_GRAPH || t == VX_TYPE_IMAGE || t == VX_TYPE_ARRAY
                || t == VX_TYPE_SCALAR
        },
{
}

} // verus!

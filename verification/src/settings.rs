//! Targets, graph attributes, node callbacks and meta formats.
use vstd::prelude::*;
use crate::arith::sign_extend;
use crate::constants::{
    VX_META_FORMAT_IMAGE_FORMAT, VX_META_FORMAT_IMAGE_HEIGHT, VX_META_FORMAT_IMAGE_WIDTH,
    VX_META_FORMAT_TYPE, VX_TARGET_ACCELERATOR, VX_TARGET_ANY, VX_TARGET_CPU, VX_TARGET_DSP,
    VX_TARGET_GPU, VX_TARGET_STRING,
};
use crate::exemplars::{Objects, create_object_like_exemplar};
use crate::meta_formats::{describe, put_attribute};
use crate::records::{NodeData, VxMetaFormat};
use crate::refs::References;
use crate::scalar::{split4, to_bits32};
use crate::types::{
    VX_ERROR_INVALID_PARAMETERS, VX_ERROR_INVALID_REFERENCE, VX_ERROR_NOT_SUPPORTED, VX_SUCCESS,
    VX_TYPE_IMAGE, vx_enum, vx_status,
};
use crate::unsupported::ARGUMENT_MISSING;
use std::collections::{HashMap, HashSet};

verus! {

broadcast use vstd::std_specs::hash::group_hash_axioms;

/// Whether a target can be asked for.
pub open spec fn is_target(target: vx_enum) -> bool {
    target == VX_TARGET_ANY || target == VX_TARGET_STRING || target == VX_TARGET_CPU || target
        == VX_TARGET_GPU || target == VX_TARGET_DSP || target == VX_TARGET_ACCELERATOR
}

/// Asks for a node to run on a target.  Every node runs on the host, so a known
/// target is accepted and nothing changes.
pub fn vxSetNodeTarget(node: u64, target_enum: vx_enum, _target_string: u64) -> (status: vx_status)
    ensures
        status == if node == 0 {
            VX_ERROR_INVALID_REFERENCE
        } else if is_target(target_enum) {
            VX_SUCCESS
        } else {
            VX_ERROR_INVALID_PARAMETERS
        },
{
    if node == 0 {
        return VX_ERROR_INVALID_REFERENCE;
    }
    match target_enum {
        VX_TARGET_ANY | VX_TARGET_STRING | VX_TARGET_CPU | VX_TARGET_GPU | VX_TARGET_DSP
        | VX_TARGET_ACCELERATOR => VX_SUCCESS,
        _ => VX_ERROR_INVALID_PARAMETERS,
    }
}

/// Asks for immediate mode to run on a target.  Any target is accepted.
pub fn vxSetImmediateModeTarget(context: u64, _target_enum: vx_enum, _target_string: u64) -> (status: vx_status)
    ensures
        status == if context == 0 {
            VX_ERROR_INVALID_REFERENCE
        } else {
            VX_SUCCESS
        },
{
    if context == 0 {
        return VX_ERROR_INVALID_REFERENCE;
    }
    VX_SUCCESS
}

/// Answers the handle of a target: its index, sign-extended.  The handle goes to
/// `target`.
pub fn vxEnumerateTargets(context: u64, index: i32, target: u64) -> (r: Result<u64, vx_status>)
    ensures
        r == if context == 0 || target == 0 {
            Err::<u64, vx_status>(ARGUMENT_MISSING)
        } else {
            Ok::<u64, vx_status>(crate::arith::sign_extended(index))
        },
{
    if context == 0 || target == 0 {
        return Err(ARGUMENT_MISSING);
    }
    Ok(sign_extend(index))
}

/// No attribute of a graph can be set.
pub fn vxSetGraphAttribute(graph: u64, _attribute: vx_enum, _ptr: u64, _size: usize) -> (status: vx_status)
    ensures
        status == if graph == 0 {
            VX_ERROR_INVALID_REFERENCE
        } else {
            VX_ERROR_NOT_SUPPORTED
        },
{
    if graph == 0 {
        return VX_ERROR_INVALID_REFERENCE;
    }
    VX_ERROR_NOT_SUPPORTED
}

/// The callback of a node.
pub open spec fn callback_of(nodes: Map<u64, NodeData>, node: u64) -> Option<u64> {
    if node != 0 && nodes.contains_key(node) {
        nodes[node].callback
    } else {
        None
    }
}

/// Answers the callback of a node.
pub fn vxRetrieveNodeCallback(nodes: &HashMap<u64, NodeData>, node: u64) -> (r: Option<u64>)
    ensures
        r == callback_of(nodes@, node),
{
    if node == 0 {
        return None;
    }
    match nodes.get(&node) {
        Some(n) => n.callback,
        None => None,
    }
}

/// What the question for an attribute of a meta format is answered: as much of
/// the value as there is room for.
pub open spec fn meta_answer(
    attributes: Option<Map<i32, Vec<u8>>>,
    attribute: i32,
    ptr: u64,
    size: usize,
) -> Result<Seq<u8>, vx_status> {
    match attributes {
        Some(known) => if ptr == 0 {
            Err(VX_ERROR_INVALID_REFERENCE)
        } else if !known.contains_key(attribute) {
            Err(VX_ERROR_INVALID_PARAMETERS)
        } else if size < known[attribute]@.len() {
            Ok(known[attribute]@.take(size as int))
        } else {
            Ok(known[attribute]@)
        },
        None => Err(VX_ERROR_INVALID_REFERENCE),
    }
}

/// Answers an attribute of a meta format; `None` stands for a null one.
pub fn vxQueryMetaFormatAttribute(
    meta: Option<&VxMetaFormat>,
    attribute: i32,
    ptr: u64,
    size: usize,
) -> (r: Result<Vec<u8>, vx_status>)
    ensures
        ({
            let known = match meta {
                Some(m) => Some(m.attributes@),
                None => None,
            };
            match r {
                Ok(bytes) => meta_answer(known, attribute, ptr, size) == Ok::<Seq<u8>, vx_status>(
                    bytes@,
                ),
                Err(e) => meta_answer(known, attribute, ptr, size) == Err::<Seq<u8>, vx_status>(e),
            }
        }),
{
    let m = match meta {
        Some(m) => m,
        None => return Err(VX_ERROR_INVALID_REFERENCE),
    };
    if ptr == 0 {
        return Err(VX_ERROR_INVALID_REFERENCE);
    }
    match m.attributes.get(&attribute) {
        Some(value) => {
            let mut bytes = value.clone();
            assert(bytes@ =~= value@);
            bytes.truncate(size);
            assert(bytes@ =~= if size < value@.len() {
                value@.take(size as int)
            } else {
                value@
            });
            Ok(bytes)
        },
        None => Err(VX_ERROR_INVALID_PARAMETERS),
    }
}

/// Sets an attribute of a meta format.  `None` stands for a null value.
pub fn vxSetMetaFormatAttribute(
    meta: &mut VxMetaFormat,
    attribute: i32,
    value: Option<Vec<u8>>,
) -> (status: vx_status)
    ensures
        match value {
            Some(bytes) => status == VX_SUCCESS && final(meta).attributes@
                == old(meta).attributes@.insert(attribute, bytes),
            None => status == VX_ERROR_INVALID_REFERENCE && final(meta).attributes@
                == old(meta).attributes@,
        },
{
    match value {
        Some(bytes) => {
            meta.attributes.insert(attribute, bytes);
            VX_SUCCESS
        },
        None => VX_ERROR_INVALID_REFERENCE,
    }
}

/// The type that a reference was recorded with, zero where there is none.
pub open spec fn recorded_type(types: Map<u64, vx_enum>, r: u64) -> vx_enum {
    if types.contains_key(r) {
        types[r]
    } else {
        0
    }
}

/// The attributes of a meta format once it is set from a reference: the type of the
/// reference, and the attributes of the object behind it where there is one.
pub open spec fn set_from(
    m: Map<i32, Seq<u8>>,
    types: Map<u64, vx_enum>,
    objects: crate::exemplars::Objects,
    r: u64,
) -> Map<i32, Seq<u8>> {
    let t = recorded_type(types, r);
    let typed = m.insert(VX_META_FORMAT_TYPE, crate::meta_formats::enum_bytes(t));
    match crate::exemplars::blueprint_of(objects, r, t) {
        Some(b) => crate::meta_formats::described(typed, b),
        None => typed,
    }
}

/// Sets a meta format from a reference: it takes over the type and the attributes of
/// the object.
pub fn vxSetMetaFormatFromReference(
    meta: &mut VxMetaFormat,
    refs: &References,
    objects: &Objects,
    ref_obj: u64,
) -> (status: vx_status)
    ensures
        status == if ref_obj == 0 {
            VX_ERROR_INVALID_REFERENCE
        } else {
            VX_SUCCESS
        },
        crate::meta_formats::attribute_bytes(*final(meta)) == if ref_obj == 0 {
            crate::meta_formats::attribute_bytes(*old(meta))
        } else {
            set_from(
                crate::meta_formats::attribute_bytes(*old(meta)),
                refs.types@,
                *objects,
                ref_obj,
            )
        },
{
    if ref_obj == 0 {
        return VX_ERROR_INVALID_REFERENCE;
    }
    let t: vx_enum = match refs.type_of(ref_obj) {
        Some(t) => t,
        None => 0,
    };
    put_attribute(meta, VX_META_FORMAT_TYPE, split4(to_bits32(t)));
    if let Some(b) = create_object_like_exemplar(objects, ref_obj, t) {
        describe(meta, &b);
    }
    VX_SUCCESS
}

/// A meta format set from an image has its format, its width and its height, and its
/// type is that of an image.
pub proof fn law_meta_format_of_image(
    m: Map<i32, Seq<u8>>,
    types: Map<u64, vx_enum>,
    objects: crate::exemplars::Objects,
    image: u64,
)
    requires
        recorded_type(types, image) == VX_TYPE_IMAGE,
        objects.images@.contains_key(image),
    ensures
        ({
            let after = set_from(m, types, objects, image);
            let img = objects.images@[image];
            &&& after[VX_META_FORMAT_TYPE] == crate::meta_formats::enum_bytes(VX_TYPE_IMAGE)
            &&& after[VX_META_FORMAT_IMAGE_FORMAT] == crate::scalar::bytes4(img.format)
            &&& after[VX_META_FORMAT_IMAGE_WIDTH] == crate::scalar::bytes4(img.width)
            &&& after[VX_META_FORMAT_IMAGE_HEIGHT] == crate::scalar::bytes4(img.height)
        }),
{
}

/// Makes an image known.
pub fn register_image(images: &mut HashSet<u64>, addr: u64)
    ensures
        final(images)@ == old(images)@.insert(addr),
{
    images.insert(addr);
}

/// Forgets an image.
pub fn unregister_image(images: &mut HashSet<u64>, addr: u64)
    ensures
        final(images)@ == old(images)@.remove(addr),
{
    images.remove(&addr);
}

/// Makes a threshold known.
pub fn register_threshold(thresholds: &mut HashSet<u64>, addr: u64)
    ensures
        final(thresholds)@ == old(thresholds)@.insert(addr),
{
    thresholds.insert(addr);
}

/// Forgets a threshold.
pub fn unregister_threshold(thresholds: &mut HashSet<u64>, addr: u64)
    ensures
        final(thresholds)@ == old(thresholds)@.remove(addr),
{
    thresholds.remove(&addr);
}

/// Notes which level of which pyramid an image is.
pub fn vxRegisterPyramidLevelImage(
    levels: &mut HashMap<u64, (u64, usize)>,
    image: u64,
    pyramid: u64,
    level: u32,
)
    ensures
        final(levels)@ == if image == 0 || pyramid == 0 {
            old(levels)@
        } else {
            old(levels)@.insert(image, (pyramid, level as usize))
        },
{
    if image == 0 || pyramid == 0 {
        return;
    }
    levels.insert(image, (pyramid, level as usize));
}

/// An attribute that was set is what is answered.
pub proof fn law_meta_round_trip(
    attributes: Map<i32, Vec<u8>>,
    attribute: i32,
    value: Vec<u8>,
    ptr: u64,
    size: usize,
)
    requires
        ptr != 0,
        size >= value@.len(),
    ensures
        meta_answer(Some(attributes.insert(attribute, value)), attribute, ptr, size) == Ok::<
            Seq<u8>,
            vx_status,
        >(value@),
{
}

/// A value is answered from its first byte, as far as there is room.
pub proof fn law_meta_answers_are_cut_to_the_room(
    attributes: Map<i32, Vec<u8>>,
    attribute: i32,
    ptr: u64,
    size: usize,
)
    requires
        ptr != 0,
    ensures
        meta_answer(Some(attributes), attribute, ptr, size) is Ok <==> attributes.contains_key(
            attribute,
        ),
        attributes.contains_key(attribute) ==> {
            let got = meta_answer(Some(attributes), attribute, ptr, size)->Ok_0;
            let held = attributes[attribute]@;
            &&& got.len() == if size < held.len() {
                size as nat
            } else {
                held.len()
            }
            &&& forall|i: int| 0 <= i < got.len() ==> #[trigger] got[i] == held[i]
        },
        meta_answer(None, attribute, ptr, size) is Err,
        meta_answer(Some(attributes), attribute, 0, size) is Err,
{
}

/// A meta format that is set from a reference records the type of the reference,
/// whatever else it records.
pub proof fn law_meta_formats_record_the_type(
    m: Map<i32, Seq<u8>>,
    types: Map<u64, vx_enum>,
    objects: crate::exemplars::Objects,
    r: u64,
)
    requires
        types.contains_key(r),
    ensures
        set_from(m, types, objects, r).contains_key(VX_META_FORMAT_TYPE),
        crate::scalar::signed32(
            crate::scalar::number4(set_from(m, types, objects, r)[VX_META_FORMAT_TYPE]),
        ) == types[r],
{
    crate::scalar::law_bytes_round_trip(crate::scalar::bits32(types[r]));
    crate::scalar::law_bits_round_trip(types[r]);
}

/// Which targets there are: any, one by its name, and four kinds of hardware.
pub proof fn law_targets(target: vx_enum)
    ensures
        is_target(VX_TARGET_ANY) && is_target(VX_TARGET_STRING),
        is_target(VX_TARGET_CPU) && is_target(VX_TARGET_GPU) && is_target(VX_TARGET_DSP)
            && is_target(VX_TARGET_ACCELERATOR),
        is_target(target) ==> target == VX_TARGET_ANY || target == VX_TARGET_STRING || target
            == VX_TARGET_CPU || target == VX_TARGET_GPU || target == VX_TARGET_DSP || target
            == VX_TARGET_ACCELERATOR,
{
}

/// Asking for a target changes nothing but the answer: an owner must be there, and
/// a node takes known targets only.
pub proof fn law_target_requests(
    node: u64,
    context: u64,
    target: vx_enum,
    text: u64,
    asked: vx_status,
    everywhere: vx_status,
)
    requires
        call_ensures(vxSetNodeTarget, (node, target, text), asked),
        call_ensures(vxSetImmediateModeTarget, (context, target, text), everywhere),
    ensures
        node == 0 ==> asked == VX_ERROR_INVALID_REFERENCE,
        node != 0 && target == VX_TARGET_CPU ==> asked == VX_SUCCESS,
        node != 0 && !is_target(target) ==> asked == VX_ERROR_INVALID_PARAMETERS,
        asked == VX_SUCCESS <==> node != 0 && is_target(target),
        everywhere == VX_SUCCESS <==> context != 0,
        context == 0 ==> everywhere == VX_ERROR_INVALID_REFERENCE,
{
}

/// The handle of a target is its index, and there is one for every index.
pub proof fn law_target_handles(
    context: u64,
    index: i32,
    place: u64,
    handle: Result<u64, vx_status>,
)
    requires
        call_ensures(vxEnumerateTargets, (context, index, place), handle),
    ensures
        handle is Ok <==> context != 0 && place != 0,
        handle is Err ==> handle->Err_0 == ARGUMENT_MISSING,
        handle is Ok && index >= 0 ==> handle->Ok_0 == index,
        handle is Ok && index < 0 ==> handle->Ok_0 == index + 0x1_0000_0000_0000_0000,
{
}

/// The callback of a node is the one that was recorded with it; null has none.
pub proof fn law_callbacks(nodes: Map<u64, NodeData>, node: u64)
    ensures
        node != 0 && nodes.contains_key(node) ==> callback_of(nodes, node)
            == nodes[node].callback,
        node == 0 || !nodes.contains_key(node) ==> callback_of(nodes, node) is None,
{
}

/// No attribute of a graph can be set, whichever it is.
pub proof fn law_graph_attributes_are_fixed(
    graph: u64,
    attribute: vx_enum,
    ptr: u64,
    size: usize,
    status: vx_status,
)
    requires
        call_ensures(vxSetGraphAttribute, (graph, attribute, ptr, size), status),
    ensures
        graph != 0 ==> status == VX_ERROR_NOT_SUPPORTED,
        graph == 0 ==> status == VX_ERROR_INVALID_REFERENCE,
{
}

/// A meta format takes over the type that was recorded for the reference, zero where
/// there was none, and nothing more where there is no object behind it.
pub proof fn law_types_are_taken_over(
    m: Map<i32, Seq<u8>>,
    types: Map<u64, vx_enum>,
    objects: crate::exemplars::Objects,
    r: u64,
)
    ensures
        types.contains_key(r) ==> recorded_type(types, r) == types[r],
        !types.contains_key(r) ==> recorded_type(types, r) == 0,
        crate::exemplars::blueprint_of(objects, r, recorded_type(types, r)) is None ==> set_from(
            m,
            types,
            objects,
            r,
        ) == m.insert(
            VX_META_FORMAT_TYPE,
            crate::meta_formats::enum_bytes(recorded_type(types, r)),
        ),
{
}

} // verus!

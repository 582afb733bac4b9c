//! Virtual images: their size and format are inferred from the nodes around them
//! and their storage is allocated when a graph is verified.
use vstd::prelude::*;
use crate::image::VxCImage;
use crate::multimap::copied;
use crate::records::VirtualImageInfo;
use crate::refs::References;
use crate::text::contains_text;
use crate::types::{
    VX_DF_IMAGE_S16, VX_DF_IMAGE_U8, VX_DF_IMAGE_VIRT, VX_ERROR_INVALID_GRAPH,
    VX_ERROR_NO_MEMORY, VX_SUCCESS, VX_TYPE_IMAGE, vx_df_image, vx_enum, vx_status,
};
use crate::wiring::{Wire, WireSpec, Wiring, WiringSpec};
use std::collections::HashMap;

verus! {

broadcast use vstd::std_specs::hash::group_hash_axioms;

/// The parameters of a node.
pub open spec fn refs_of(wires: Seq<WireSpec>, node: u64) -> Seq<u64> {
    match crate::search::first_where(wires.len(), |i: int| wires[i].id == node) {
        Some(i) => wires[i as int].refs,
        None => Seq::empty(),
    }
}

/// Finds the parameters of a node.
pub fn find_refs(wires: &Vec<Wire>, node: u64) -> (r: Vec<u64>)
    ensures
        r@ == refs_of(crate::wiring::wires_of(wires@), node),
{
    let ghost all = crate::wiring::wires_of(wires@);
    let ghost found = |i: int| all[i].id == node;
    for i in 0..wires.len()
        invariant
            all == crate::wiring::wires_of(wires@),
            found == (|i: int| all[i].id == node),
            forall|j: int| 0 <= j < i ==> !#[trigger] found(j),
    {
        if wires[i].id == node {
            proof {
                crate::search::lemma_is_first(all.len(), found, i as nat);
            }
            return copied(&wires[i].refs);
        }
    }
    proof {
        crate::search::lemma_is_nowhere(all.len(), found);
    }
    Vec::new()
}

/// The format of what a kernel writes, given the formats of the images it reads.
pub open spec fn output_format(name: Seq<char>, formats: Seq<vx_df_image>) -> vx_df_image {
    let has = |part: Seq<char>| crate::text::has_part(name, part);
    let wide = if formats.contains(VX_DF_IMAGE_S16) {
        VX_DF_IMAGE_S16
    } else {
        VX_DF_IMAGE_U8
    };
    if formats.len() == 0 {
        VX_DF_IMAGE_U8
    } else if has("add"@) || has("subtract"@) {
        VX_DF_IMAGE_S16
    } else if has("absdiff"@) {
        wide
    } else if has("min_max"@) || has("multiply"@) {
        VX_DF_IMAGE_S16
    } else if has("and"@) || has(".or"@) || has("xor"@) || has(".not"@) {
        formats[0]
    } else if has("weighted_average"@) {
        wide
    } else if has("scale_image"@) || has("warp_affine"@) || has("warp_perspective"@) || has(
        "remap"@,
    ) {
        formats[0]
    } else if has("channel_extract"@) {
        VX_DF_IMAGE_U8
    } else {
        formats[0]
    }
}

fn any_s16(formats: &Vec<vx_df_image>) -> (r: bool)
    ensures
        r == formats@.contains(VX_DF_IMAGE_S16),
{
    for i in 0..formats.len()
        invariant
            forall|j: int| 0 <= j < i ==> formats@[j] != VX_DF_IMAGE_S16,
    {
        if formats[i] == VX_DF_IMAGE_S16 {
            assert(formats@[i as int] == VX_DF_IMAGE_S16);
            return true;
        }
    }
    false
}

/// Infers the format of what a kernel writes from the formats of what it reads.
pub fn infer_output_format(kernel_name: &str, input_formats: &Vec<vx_df_image>) -> (r: vx_df_image)
    ensures
        r == output_format(kernel_name@, input_formats@),
{
    if input_formats.len() == 0 {
        return VX_DF_IMAGE_U8;
    }
    let wide: vx_df_image = if any_s16(input_formats) {
        VX_DF_IMAGE_S16
    } else {
        VX_DF_IMAGE_U8
    };
    if contains_text(kernel_name, "add") || contains_text(kernel_name, "subtract") {
        VX_DF_IMAGE_S16
    } else if contains_text(kernel_name, "absdiff") {
        wide
    } else if contains_text(kernel_name, "min_max") || contains_text(kernel_name, "multiply") {
        VX_DF_IMAGE_S16
    } else if contains_text(kernel_name, "and") || contains_text(kernel_name, ".or")
        || contains_text(kernel_name, "xor") || contains_text(kernel_name, ".not") {
        input_formats[0]
    } else if contains_text(kernel_name, "weighted_average") {
        wide
    } else if contains_text(kernel_name, "scale_image") || contains_text(kernel_name, "warp_affine")
        || contains_text(kernel_name, "warp_perspective") || contains_text(kernel_name, "remap") {
        input_formats[0]
    } else if contains_text(kernel_name, "channel_extract") {
        VX_DF_IMAGE_U8
    } else {
        input_formats[0]
    }
}

/// Whether an image is virtual.
pub open spec fn is_virtual(infos: Map<u64, VirtualImageInfo>, image: u64) -> bool {
    infos.contains_key(image) && infos[image].is_virtual
}

/// Finds whether an image is virtual.
pub fn is_virtual_image(infos: &HashMap<u64, VirtualImageInfo>, image: u64) -> (r: bool)
    ensures
        r == is_virtual(infos@, image),
{
    match infos.get(&image) {
        Some(info) => info.is_virtual,
        None => false,
    }
}

/// The size, format and pixels of an image.
pub struct Shape {
    pub width: u32,
    pub height: u32,
    pub format: u32,
    pub data: Seq<u8>,
}

/// The shape of an image.
pub open spec fn shape_of(image: VxCImage) -> Shape {
    Shape { width: image.width, height: image.height, format: image.format, data: image.data@ }
}

/// The shapes of some images.
pub open spec fn shapes_of(images: Map<u64, VxCImage>) -> Map<u64, Shape> {
    images.map_values(|image: VxCImage| shape_of(image))
}

/// Whether two images agree in everything but their shape.
pub open spec fn same_but_shape(a: VxCImage, b: VxCImage) -> bool {
    a == (VxCImage { width: a.width, height: a.height, format: a.format, data: a.data, ..b })
}

/// Whether two collections of images agree in everything but the shapes.
pub open spec fn same_but_shapes(a: Map<u64, VxCImage>, b: Map<u64, VxCImage>) -> bool {
    a.dom() == b.dom() && forall|k: u64|
        #[trigger] a.contains_key(k) ==> same_but_shape(a[k], b[k])
}

/// Whether a format says what the pixels are.
pub open spec fn is_known(format: u32) -> bool {
    format != 0 && format != VX_DF_IMAGE_VIRT
}

/// The shape of an image, empty where there is no such image.
pub open spec fn shape_at(shapes: Map<u64, Shape>, image: u64) -> Shape {
    if shapes.contains_key(image) {
        shapes[image]
    } else {
        Shape { width: 0, height: 0, format: 0, data: Seq::empty() }
    }
}

/// The format recorded for a virtual image, where one is known.
pub open spec fn recorded_format(infos: Map<u64, VirtualImageInfo>, image: u64) -> Option<u32> {
    if infos.contains_key(image) && is_known(infos[image].format) {
        Some(infos[image].format)
    } else {
        None
    }
}

/// What some parameters tell about the images a node reads.
pub struct Inputs {
    pub width: u32,
    pub height: u32,
    pub formats: Seq<vx_df_image>,
}

/// What one more parameter tells: the first image with a size gives the size, and
/// every image gives its format.
pub open spec fn with_input(
    inputs: Inputs,
    shapes: Map<u64, Shape>,
    infos: Map<u64, VirtualImageInfo>,
    reference: u64,
) -> Inputs {
    if !is_virtual(infos, reference) {
        let shape = shape_at(shapes, reference);
        if shape.width > 0 && shape.height > 0 {
            Inputs {
                width: if inputs.width == 0 {
                    shape.width
                } else {
                    inputs.width
                },
                height: if inputs.width == 0 {
                    shape.height
                } else {
                    inputs.height
                },
                formats: inputs.formats.push(shape.format),
            }
        } else {
            inputs
        }
    } else {
        let info = infos[reference];
        if info.format != 0 {
            Inputs {
                width: if inputs.width == 0 && info.width > 0 {
                    info.width
                } else {
                    inputs.width
                },
                height: if inputs.width == 0 && info.width > 0 {
                    info.height
                } else {
                    inputs.height
                },
                formats: inputs.formats.push(info.format),
            }
        } else {
            inputs
        }
    }
}

/// What the parameters of a node tell about the images it reads, `image` aside.
pub open spec fn inputs_of(
    refs: Seq<u64>,
    image: u64,
    types: Map<u64, vx_enum>,
    shapes: Map<u64, Shape>,
    infos: Map<u64, VirtualImageInfo>,
) -> Inputs
    decreases refs.len(),
{
    if refs.len() == 0 {
        Inputs { width: 0, height: 0, formats: Seq::empty() }
    } else {
        let before = inputs_of(refs.drop_last(), image, types, shapes, infos);
        if refs.last() != image && crate::refs::is_image(types, shapes.dom(), refs.last()) {
            with_input(before, shapes, infos, refs.last())
        } else {
            before
        }
    }
}

/// The size and format of a virtual image: as recorded, as the image itself says,
/// or as the node that writes it implies; a format chosen by the caller is kept.
pub open spec fn inferred(
    image: u64,
    node: u64,
    name: Seq<char>,
    wires: Seq<WireSpec>,
    producer: Map<u64, u64>,
    types: Map<u64, vx_enum>,
    shapes: Map<u64, Shape>,
    infos: Map<u64, VirtualImageInfo>,
) -> Option<(u32, u32, vx_df_image)> {
    let own = shape_at(shapes, image);
    let recorded = recorded_format(infos, image);
    let own_format = match recorded {
        Some(f) => f,
        None => own.format,
    };
    if recorded is Some && infos[image].width > 0 && infos[image].height > 0 {
        Some((infos[image].width, infos[image].height, infos[image].format))
    } else if own.width > 0 && own.height > 0 && is_known(own_format) {
        Some((own.width, own.height, own_format))
    } else {
        let writer = if producer.contains_key(image) {
            producer[image]
        } else {
            node
        };
        let inputs = inputs_of(
            refs_of(wires, writer),
            image,
            types,
            shapes,
            infos,
        );
        if inputs.width > 0 && inputs.height > 0 {
            let format = if is_known(own.format) {
                own.format
            } else {
                match recorded {
                    Some(f) => f,
                    None => output_format(name, inputs.formats),
                }
            };
            Some((inputs.width, inputs.height, format))
        } else {
            None
        }
    }
}

fn format_is_known(format: u32) -> (r: bool)
    ensures
        r == is_known(format),
{
    format != 0 && format != VX_DF_IMAGE_VIRT
}

fn size_and_format(images: &HashMap<u64, VxCImage>, image: u64) -> (r: (u32, u32, u32))
    ensures
        r.0 == shape_at(shapes_of(images@), image).width,
        r.1 == shape_at(shapes_of(images@), image).height,
        r.2 == shape_at(shapes_of(images@), image).format,
{
    match images.get(&image) {
        Some(i) => (i.width, i.height, i.format),
        None => (0, 0, 0),
    }
}

fn find_recorded_format(infos: &HashMap<u64, VirtualImageInfo>, image: u64) -> (r: Option<u32>)
    ensures
        r == recorded_format(infos@, image),
{
    match infos.get(&image) {
        Some(info) => if format_is_known(info.format) {
            Some(info.format)
        } else {
            None
        },
        None => None,
    }
}

/// Infers the size and format of a virtual image.
pub fn infer_virtual_image_dimensions(
    image: u64,
    node: u64,
    kernel_name: &str,
    wires: &Vec<Wire>,
    wiring: &Wiring,
    refs: &References,
    images: &HashMap<u64, VxCImage>,
    infos: &HashMap<u64, VirtualImageInfo>,
) -> (r: Option<(u32, u32, vx_df_image)>)
    ensures
        r == inferred(
            image,
            node,
            kernel_name@,
            crate::wiring::wires_of(wires@),
            wiring@.producer,
            refs.types@,
            shapes_of(images@),
            infos@,
        ),
{
    let recorded = find_recorded_format(infos, image);
    if let Some(info) = infos.get(&image) {
        if info.width > 0 && info.height > 0 && recorded.is_some() {
            return Some((info.width, info.height, info.format));
        }
    }
    let (own_width, own_height, own_format) = size_and_format(images, image);
    if own_width > 0 && own_height > 0 {
        let format: u32 = match recorded {
            Some(f) => f,
            None => own_format,
        };
        if format_is_known(format) {
            return Some((own_width, own_height, format));
        }
    }
    let user_format: Option<u32> = if format_is_known(own_format) {
        Some(own_format)
    } else {
        recorded
    };
    let writer: u64 = match wiring.producer.get(&image) {
        Some(p) => *p,
        None => node,
    };
    let params = find_refs(wires, writer);
    let ghost types = refs.types@;
    let ghost shapes = shapes_of(images@);
    assert(shapes.dom() =~= images@.dom());
    let mut formats: Vec<vx_df_image> = Vec::new();
    let mut width: u32 = 0;
    let mut height: u32 = 0;
    for i in 0..params.len()
        invariant
            types == refs.types@,
            shapes == shapes_of(images@),
            shapes.dom() == images@.dom(),
            (Inputs { width, height, formats: formats@ }) == inputs_of(
                params@.take(i as int),
                image,
                types,
                shapes,
                infos@,
            ),
    {
        proof {
            assert(params@.take(i + 1).drop_last() =~= params@.take(i as int));
            assert(params@.take(i + 1).last() == params@[i as int]);
        }
        let r = params[i];
        if r != image && refs.is_image_reference(images, r) {
            if !is_virtual_image(infos, r) {
                let (w, h, f) = size_and_format(images, r);
                if w > 0 && h > 0 {
                    if width == 0 {
                        width = w;
                        height = h;
                    }
                    formats.push(f);
                }
            } else if let Some(info) = infos.get(&r) {
                if info.format != 0 {
                    formats.push(info.format);
                    if width == 0 && info.width > 0 {
                        width = info.width;
                        height = info.height;
                    }
                }
            }
        }
    }
    assert(params@.take(params@.len() as int) =~= params@);
    if width > 0 && height > 0 {
        let format: vx_df_image = match user_format {
            Some(f) => f,
            None => infer_output_format(kernel_name, &formats),
        };
        return Some((width, height, format));
    }
    None
}

/// Storage full of zeros.
pub open spec fn zeros(n: nat) -> Seq<u8> {
    Seq::new(n, |i: int| 0u8)
}

/// Allocates storage full of zeros.
pub fn zeroed(n: usize) -> (r: Vec<u8>)
    ensures
        r@ == zeros(n as nat),
{
    let r = vec![0u8; n];
    assert(r@ =~= zeros(n as nat));
    r
}

/// A recorded size and format changed.
pub open spec fn recorded(
    infos: Map<u64, VirtualImageInfo>,
    image: u64,
    width: u32,
    height: u32,
    format: u32,
) -> Map<u64, VirtualImageInfo> {
    if infos.contains_key(image) {
        infos.insert(image, VirtualImageInfo { width, height, format, ..infos[image] })
    } else {
        infos
    }
}

/// The shape of an image once it has a size and format: zeros where it can be
/// allocated, the pixels it had where it cannot.
pub open spec fn allocated(before: Shape, width: u32, height: u32, format: u32) -> Shape {
    let size = crate::image::image_size(width, height, format);
    Shape {
        width,
        height,
        format,
        data: if size > 0 {
            zeros(size)
        } else {
            before.data
        },
    }
}

/// Gives a virtual image its size and format and allocates its storage.  Fails
/// where the image is empty or too large, though the size is kept all the same.
pub fn allocate_virtual_image_storage(
    images: &mut HashMap<u64, VxCImage>,
    infos: &mut HashMap<u64, VirtualImageInfo>,
    image: u64,
    width: u32,
    height: u32,
    format: vx_df_image,
) -> (r: Result<(), ()>)
    requires
        old(images)@.contains_key(image),
    ensures
        r is Ok <==> crate::image::image_size(width, height, format) > 0,
        final(infos)@ == recorded(old(infos)@, image, width, height, format),
        shapes_of(final(images)@) == shapes_of(old(images)@).insert(
            image,
            allocated(shape_of(old(images)@[image]), width, height, format),
        ),
        same_but_shapes(final(images)@, old(images)@),
{
    let size = VxCImage::calculate_size(width, height, format);
    if let Some(mut img) = images.remove(&image) {
        img.width = width;
        img.height = height;
        img.format = format;
        if size > 0 {
            img.data = zeroed(size);
        }
        images.insert(image, img);
    }
    proof {
        assert(shapes_of(images@) =~= shapes_of(old(images)@).insert(
            image,
            allocated(shape_of(old(images)@[image]), width, height, format),
        ));
        assert(images@.dom() =~= old(images)@.dom());
    }
    let info: Option<VirtualImageInfo> = match infos.get(&image) {
        Some(i) => Some(*i),
        None => None,
    };
    if let Some(i) = info {
        infos.insert(
            image,
            VirtualImageInfo {
                width,
                height,
                format,
                is_virtual: i.is_virtual,
                backing_image: i.backing_image,
            },
        );
    }
    if size == 0 {
        Err(())
    } else {
        Ok(())
    }
}

/// The images, the recorded sizes and the status as virtual images are resolved.
#[verifier::ext_equal]
pub struct Resolution {
    pub shapes: Map<u64, Shape>,
    pub infos: Map<u64, VirtualImageInfo>,
    pub status: vx_status,
}

/// What resolving virtual images depends on and never changes.
pub struct Surroundings {
    pub wires: Seq<WireSpec>,
    pub names: Seq<Seq<char>>,
    pub producer: Map<u64, u64>,
    pub types: Map<u64, vx_enum>,
}

/// Resolves one parameter of a node.  A parameter that is no virtual image is left
/// alone; one of known size only gets the storage it lacks; any other gets what can
/// be inferred for it.
pub open spec fn resolved_parameter(
    s: Resolution,
    around: Surroundings,
    i: int,
    reference: u64,
) -> Resolution {
    let own = shape_at(s.shapes, reference);
    if s.status != VX_SUCCESS || !crate::refs::is_image(around.types, s.shapes.dom(), reference)
        || !is_virtual(s.infos, reference) || !s.shapes.contains_key(reference) {
        s
    } else {
        let known = own.width > 0 && own.height > 0 && is_known(own.format);
        let wanted = if known {
            Some((own.width, own.height, own.format))
        } else {
            inferred(
                reference,
                around.wires[i].id,
                around.names[i],
                around.wires,
                around.producer,
                around.types,
                s.shapes,
                s.infos,
            )
        };
        if known && own.data.len() >= crate::image::image_size(own.width, own.height, own.format) {
            s
        } else {
            match wanted {
                Some((width, height, format)) => Resolution {
                    shapes: s.shapes.insert(reference, allocated(own, width, height, format)),
                    infos: recorded(s.infos, reference, width, height, format),
                    status: if crate::image::image_size(width, height, format) > 0 {
                        VX_SUCCESS
                    } else {
                        VX_ERROR_NO_MEMORY
                    },
                },
                None => Resolution { status: VX_ERROR_INVALID_GRAPH, ..s },
            }
        }
    }
}

/// Resolves some parameters of a node.
pub open spec fn resolved_node(
    s: Resolution,
    around: Surroundings,
    i: int,
    refs: Seq<u64>,
) -> Resolution
    decreases refs.len(),
{
    if refs.len() == 0 {
        s
    } else {
        resolved_parameter(resolved_node(s, around, i, refs.drop_last()), around, i, refs.last())
    }
}

/// Resolves the parameters of the first `n` nodes.
pub open spec fn resolved(s: Resolution, around: Surroundings, n: nat) -> Resolution
    decreases n,
{
    if n == 0 {
        s
    } else {
        resolved_node(
            resolved(s, around, (n - 1) as nat),
            around,
            n - 1,
            around.wires[n - 1].refs,
        )
    }
}

/// Agreeing in everything but the shapes passes on from step to step.
pub proof fn lemma_same_but_shapes_chain(
    a: Map<u64, VxCImage>,
    b: Map<u64, VxCImage>,
    c: Map<u64, VxCImage>,
)
    requires
        same_but_shapes(a, b),
        same_but_shapes(b, c),
    ensures
        same_but_shapes(a, c),
{
    assert forall|k: u64| #[trigger] a.contains_key(k) implies same_but_shape(a[k], c[k]) by {
        assert(b.contains_key(k));
        assert(c.contains_key(k));
    }
}

/// Resolves one parameter of the node at position `i`.
fn resolve_parameter(
    wires: &Vec<Wire>,
    names: &Vec<String>,
    wiring: &Wiring,
    refs: &References,
    images: &mut HashMap<u64, VxCImage>,
    infos: &mut HashMap<u64, VirtualImageInfo>,
    status: vx_status,
    i: usize,
    reference: u64,
) -> (r: vx_status)
    requires
        wires@.len() == names@.len(),
        i < wires@.len(),
    ensures
        (Resolution { shapes: shapes_of(final(images)@), infos: final(infos)@, status: r })
            == resolved_parameter(
            Resolution { shapes: shapes_of(old(images)@), infos: old(infos)@, status },
            surroundings(wires@, names@, wiring@, refs.types@),
            i as int,
            reference,
        ),
        same_but_shapes(final(images)@, old(images)@),
{
    assert(shapes_of(images@).dom() =~= images@.dom());
    if status != VX_SUCCESS || !refs.is_image_reference(images, reference) || !is_virtual_image(
        infos,
        reference,
    ) || !images.contains_key(&reference) {
        return status;
    }
    let (width, height, format) = size_and_format(images, reference);
    let length: usize = match images.get(&reference) {
        Some(image) => image.data.len(),
        None => 0,
    };
    let known = width > 0 && height > 0 && format_is_known(format);
    if known && length >= VxCImage::calculate_size(width, height, format) {
        return status;
    }
    let wanted: Option<(u32, u32, vx_df_image)> = if known {
        Some((width, height, format))
    } else {
        infer_virtual_image_dimensions(
            reference,
            wires[i].id,
            names[i].as_str(),
            wires,
            wiring,
            refs,
            images,
            infos,
        )
    };
    assert(crate::wiring::wires_of(wires@)[i as int].id == wires@[i as int].id);
    match wanted {
        Some((w, h, f)) => match allocate_virtual_image_storage(images, infos, reference, w, h, f) {
            Ok(_) => VX_SUCCESS,
            Err(_) => VX_ERROR_NO_MEMORY,
        },
        None => VX_ERROR_INVALID_GRAPH,
    }
}

/// The nodes around some virtual images.
pub open spec fn surroundings(
    wires: Seq<Wire>,
    names: Seq<String>,
    wiring: WiringSpec,
    types: Map<u64, vx_enum>,
) -> Surroundings {
    Surroundings {
        wires: crate::wiring::wires_of(wires),
        names: names.map_values(|name: String| name@),
        producer: wiring.producer,
        types,
    }
}

/// Gives every virtual image of a graph its size, format and storage, in the order
/// in which the nodes mention them.  Stops at the first that cannot be resolved.
pub fn resolve_virtual_images(
    wires: &Vec<Wire>,
    names: &Vec<String>,
    wiring: &Wiring,
    refs: &References,
    images: &mut HashMap<u64, VxCImage>,
    infos: &mut HashMap<u64, VirtualImageInfo>,
) -> (status: vx_status)
    requires
        wires@.len() == names@.len(),
    ensures
        (Resolution { shapes: shapes_of(final(images)@), infos: final(infos)@, status })
            == resolved(
            Resolution {
                shapes: shapes_of(old(images)@),
                infos: old(infos)@,
                status: VX_SUCCESS,
            },
            surroundings(wires@, names@, wiring@, refs.types@),
            wires@.len(),
        ),
        same_but_shapes(final(images)@, old(images)@),
{
    let mut status: vx_status = VX_SUCCESS;
    let ghost start = Resolution { shapes: shapes_of(images@), infos: infos@, status };
    let ghost images0 = images@;
    let ghost around = surroundings(wires@, names@, wiring@, refs.types@);
    for i in 0..wires.len()
        invariant
            wires@.len() == names@.len(),
            around == surroundings(wires@, names@, wiring@, refs.types@),
            (Resolution { shapes: shapes_of(images@), infos: infos@, status }) == resolved(
                start,
                around,
                i as nat,
            ),
            same_but_shapes(images@, images0),
    {
        let ghost before = resolved(start, around, i as nat);
        let ghost params = around.wires[i as int].refs;
        let count = wires[i].refs.len();
        for j in 0..count
            invariant
                i < wires@.len(),
                wires@.len() == names@.len(),
                around == surroundings(wires@, names@, wiring@, refs.types@),
                params == wires@[i as int].refs@,
                count == params.len(),
                (Resolution { shapes: shapes_of(images@), infos: infos@, status })
                    == resolved_node(before, around, i as int, params.take(j as int)),
                same_but_shapes(images@, images0),
        {
            let ghost images1 = images@;
            proof {
                assert(params.take(j + 1).drop_last() =~= params.take(j as int));
                assert(params.take(j + 1).last() == params[j as int]);
            }
            status = resolve_parameter(
                wires,
                names,
                wiring,
                refs,
                images,
                infos,
                status,
                i,
                wires[i].refs[j],
            );
            proof {
                lemma_same_but_shapes_chain(images@, images1, images0);
            }
        }
        assert(params.take(params.len() as int) =~= params);
    }
    status
}

/// Once an image cannot be resolved, nothing more is changed.
pub proof fn law_failure_stops(s: Resolution, around: Surroundings, n: nat, m: nat)
    requires
        n <= m,
        resolved(s, around, n).status != VX_SUCCESS,
    ensures
        resolved(s, around, m) == resolved(s, around, n),
    decreases m,
{
    if n < m {
        law_failure_stops(s, around, n, (m - 1) as nat);
        lemma_node_stops(
            resolved(s, around, n),
            around,
            m - 1,
            around.wires[m - 1].refs,
        );
    }
}

proof fn lemma_node_stops(s: Resolution, around: Surroundings, i: int, refs: Seq<u64>)
    requires
        s.status != VX_SUCCESS,
    ensures
        resolved_node(s, around, i, refs) == s,
    decreases refs.len(),
{
    if refs.len() > 0 {
        lemma_node_stops(s, around, i, refs.drop_last());
    }
}

/// Whether an image has a size, and storage for its size and format.
pub open spec fn is_backed(shape: Shape) -> bool {
    shape.width > 0 && shape.height > 0 && shape.data.len() >= crate::image::image_size(
        shape.width,
        shape.height,
        shape.format,
    )
}

/// Whether a reference is a virtual image.
pub open spec fn needs_backing(s: Resolution, around: Surroundings, reference: u64) -> bool {
    crate::refs::is_image(around.types, s.shapes.dom(), reference) && is_virtual(
        s.infos,
        reference,
    ) && s.shapes.contains_key(reference)
}

/// Whether one resolution keeps what another has done.
pub open spec fn keeps(before: Resolution, after: Resolution, around: Surroundings) -> bool {
    &&& before.status == VX_SUCCESS
    &&& after.shapes.dom() == before.shapes.dom()
    &&& forall|r: u64|
        #[trigger] needs_backing(after, around, r) <==> needs_backing(before, around, r)
    &&& forall|r: u64|
        needs_backing(before, around, r) && is_backed(before.shapes[r]) ==> is_backed(
            #[trigger] after.shapes[r],
        )
}

proof fn lemma_parameter_resolves(s: Resolution, around: Surroundings, i: int, reference: u64)
    requires
        resolved_parameter(s, around, i, reference).status == VX_SUCCESS,
    ensures
        keeps(s, resolved_parameter(s, around, i, reference), around),
        needs_backing(s, around, reference) ==> is_backed(
            resolved_parameter(s, around, i, reference).shapes[reference],
        ),
{
    let t = resolved_parameter(s, around, i, reference);
    assert(t.shapes.dom() =~= s.shapes.dom());
}

proof fn lemma_node_resolves(s: Resolution, around: Surroundings, i: int, refs: Seq<u64>)
    requires
        resolved_node(s, around, i, refs).status == VX_SUCCESS,
    ensures
        keeps(s, resolved_node(s, around, i, refs), around),
        forall|k: int|
            0 <= k < refs.len() && needs_backing(s, around, #[trigger] refs[k]) ==> is_backed(
                resolved_node(s, around, i, refs).shapes[refs[k]],
            ),
    decreases refs.len(),
{
    if refs.len() > 0 {
        let before = resolved_node(s, around, i, refs.drop_last());
        lemma_parameter_resolves(before, around, i, refs.last());
        lemma_node_resolves(s, around, i, refs.drop_last());
        assert forall|k: int|
            0 <= k < refs.len() && needs_backing(s, around, #[trigger] refs[k]) implies is_backed(
            resolved_node(s, around, i, refs).shapes[refs[k]],
        ) by {
            if k < refs.len() - 1 {
                assert(refs.drop_last()[k] == refs[k]);
                assert(needs_backing(before, around, refs[k]));
            }
        }
        assert forall|r: u64|
            needs_backing(s, around, r) && is_backed(s.shapes[r]) implies is_backed(
            #[trigger] resolved_node(s, around, i, refs).shapes[r],
        ) by {
            assert(needs_backing(before, around, r));
            assert(is_backed(before.shapes[r]));
        }
    }
}

/// Where resolving succeeds, every virtual image that a node mentions has a size
/// and storage for it.
pub proof fn law_success_backs_images(s: Resolution, around: Surroundings, n: nat)
    requires
        s.status == VX_SUCCESS,
        n <= around.wires.len(),
        resolved(s, around, n).status == VX_SUCCESS,
    ensures
        keeps(s, resolved(s, around, n), around),
        forall|j: int, k: int|
            0 <= j < n && 0 <= k < around.wires[j].refs.len() && needs_backing(
                s,
                around,
                #[trigger] around.wires[j].refs[k],
            ) ==> is_backed(resolved(s, around, n).shapes[around.wires[j].refs[k]]),
    decreases n,
{
    if n > 0 {
        let before = resolved(s, around, (n - 1) as nat);
        let last = around.wires[n - 1].refs;
        lemma_node_resolves(before, around, n - 1, last);
        law_success_backs_images(s, around, (n - 1) as nat);
        assert forall|j: int, k: int|
            0 <= j < n && 0 <= k < around.wires[j].refs.len() && needs_backing(
                s,
                around,
                #[trigger] around.wires[j].refs[k],
            ) implies is_backed(resolved(s, around, n).shapes[around.wires[j].refs[k]]) by {
            let r = around.wires[j].refs[k];
            assert(needs_backing(before, around, r));
            if j < n - 1 {
                assert(is_backed(before.shapes[r]));
            }
        }
        assert forall|r: u64|
            needs_backing(s, around, r) && is_backed(s.shapes[r]) implies is_backed(
            #[trigger] resolved(s, around, n).shapes[r],
        ) by {
            assert(needs_backing(before, around, r));
            assert(is_backed(before.shapes[r]));
        }
    }
}

/// Whether no place of a text from one on shows the first three letters of a word
/// and its last.
pub open spec fn shows_nowhere(text: Seq<char>, word: Seq<char>, from: int) -> bool
    decreases text.len() + 1 - from,
{
    if from < 0 || from + word.len() > text.len() {
        true
    } else {
        &&& text[from] != word[0] || text[from + 1] != word[1] || text[from + 2] != word[2]
            || text[from + word.len() - 1] != word[word.len() - 1]
        &&& shows_nowhere(text, word, from + 1)
    }
}

proof fn lemma_nowhere(text: Seq<char>, word: Seq<char>, from: int, i: int)
    requires
        word.len() >= 3,
        0 <= from <= i,
        shows_nowhere(text, word, from),
    ensures
        !crate::text::part_at(text, word, i),
    decreases i - from,
{
    if i + word.len() <= text.len() {
        if from < i {
            lemma_nowhere(text, word, from + 1, i);
        } else if text.subrange(i, i + word.len()) == word {
            let found = text.subrange(i, i + word.len());
            assert(found[0] == text[i] && found[1] == text[i + 1] && found[2] == text[i + 2]);
            assert(found[word.len() - 1] == text[i + word.len() - 1]);
        }
    }
}

proof fn lemma_lacks(text: Seq<char>, word: Seq<char>)
    requires
        word.len() >= 3,
        shows_nowhere(text, word, 0),
    ensures
        !crate::text::has_part(text, word),
{
    assert forall|i: int| !#[trigger] crate::text::part_at(text, word, i) by {
        if i >= 0 {
            lemma_nowhere(text, word, 0, i);
        }
    }
}

/// The words in a name by which a format is chosen: sums and differences are wide,
/// products and extremes too; a distance or an average is as wide as the widest
/// image; a channel is narrow; everything else is as its first image.
pub proof fn law_format_words(name: Seq<char>, formats: Seq<vx_df_image>)
    requires
        formats.len() > 0,
    ensures
        crate::text::has_part(name, "add"@) || crate::text::has_part(name, "subtract"@)
            ==> output_format(name, formats) == VX_DF_IMAGE_S16,
        !crate::text::has_part(name, "add"@) && !crate::text::has_part(name, "subtract"@) ==> {
            &&& crate::text::has_part(name, "absdiff"@) ==> output_format(name, formats) == if (
            exists|i: int| 0 <= i < formats.len() && formats[i] == VX_DF_IMAGE_S16) {
                VX_DF_IMAGE_S16
            } else {
                VX_DF_IMAGE_U8
            }
            &&& !crate::text::has_part(name, "absdiff"@) ==> {
                &&& crate::text::has_part(name, "multiply"@) || crate::text::has_part(
                    name,
                    "min_max"@,
                ) ==> output_format(name, formats) == VX_DF_IMAGE_S16
                &&& !crate::text::has_part(name, "multiply"@) && !crate::text::has_part(
                    name,
                    "min_max"@,
                ) && !crate::text::has_part(name, "weighted_average"@) && !crate::text::has_part(
                    name,
                    "channel_extract"@,
                ) ==> output_format(name, formats) == formats[0]
            }
        },
{
}

/// Without an image to go by, the format is that of bytes.
pub proof fn law_format_of_nothing(name: Seq<char>)
    ensures
        output_format(name, Seq::empty()) == VX_DF_IMAGE_U8,
{
}

/// Sums, differences and products of images are sixteen bits wide, whatever the
/// images are.
pub proof fn law_output_formats_of_arithmetic(formats: Seq<vx_df_image>)
    requires
        formats.len() > 0,
    ensures
        output_format("org.khronos.openvx.add"@, formats) == VX_DF_IMAGE_S16,
        output_format("org.khronos.openvx.subtract"@, formats) == VX_DF_IMAGE_S16,
        output_format("org.khronos.openvx.multiply"@, formats) == VX_DF_IMAGE_S16,
{
    reveal_strlit("add");
    reveal_strlit("subtract");
    reveal_strlit("absdiff");
    reveal_strlit("min_max");
    reveal_strlit("multiply");
    reveal_strlit("weighted_average");
    reveal_strlit("channel_extract");
    reveal_strlit("org.khronos.openvx.add");
    assert("org.khronos.openvx.add"@.subrange(19, 22) =~= "add"@);
    assert(crate::text::part_at("org.khronos.openvx.add"@, "add"@, 19));
    reveal_strlit("org.khronos.openvx.subtract");
    assert("org.khronos.openvx.subtract"@.subrange(19, 27) =~= "subtract"@);
    assert(crate::text::part_at("org.khronos.openvx.subtract"@, "subtract"@, 19));
    reveal_strlit("org.khronos.openvx.multiply");
    assert("org.khronos.openvx.multiply"@.subrange(19, 27) =~= "multiply"@);
    assert(crate::text::part_at("org.khronos.openvx.multiply"@, "multiply"@, 19));
    assert(shows_nowhere("org.khronos.openvx.multiply"@, "add"@, 0)) by {
        reveal_with_fuel(shows_nowhere, 27);
    }
    lemma_lacks("org.khronos.openvx.multiply"@, "add"@);
    assert(shows_nowhere("org.khronos.openvx.multiply"@, "subtract"@, 0)) by {
        reveal_with_fuel(shows_nowhere, 22);
    }
    lemma_lacks("org.khronos.openvx.multiply"@, "subtract"@);
    assert(shows_nowhere("org.khronos.openvx.multiply"@, "absdiff"@, 0)) by {
        reveal_with_fuel(shows_nowhere, 23);
    }
    lemma_lacks("org.khronos.openvx.multiply"@, "absdiff"@);
}

/// The distance and the weighted average of images are sixteen bits wide exactly
/// where one of the images is, and bytes otherwise.
pub proof fn law_output_formats_of_distances(formats: Seq<vx_df_image>)
    requires
        formats.len() > 0,
    ensures
        output_format("org.khronos.openvx.absdiff"@, formats) == if (exists|i: int|
            0 <= i < formats.len() && formats[i] == VX_DF_IMAGE_S16) {
            VX_DF_IMAGE_S16
        } else {
            VX_DF_IMAGE_U8
        },
        output_format("org.khronos.openvx.weighted_average"@, formats) == if (exists|i: int|
            0 <= i < formats.len() && formats[i] == VX_DF_IMAGE_S16) {
            VX_DF_IMAGE_S16
        } else {
            VX_DF_IMAGE_U8
        },
{
    reveal_strlit("add");
    reveal_strlit("subtract");
    reveal_strlit("absdiff");
    reveal_strlit("min_max");
    reveal_strlit("multiply");
    reveal_strlit("weighted_average");
    reveal_strlit("and");
    reveal_strlit(".or");
    reveal_strlit("xor");
    reveal_strlit(".not");
    reveal_strlit("org.khronos.openvx.absdiff");
    assert("org.khronos.openvx.absdiff"@.subrange(19, 26) =~= "absdiff"@);
    assert(crate::text::part_at("org.khronos.openvx.absdiff"@, "absdiff"@, 19));
    reveal_strlit("org.khronos.openvx.weighted_average");
    assert("org.khronos.openvx.weighted_average"@.subrange(19, 35) =~= "weighted_average"@);
    assert(crate::text::part_at("org.khronos.openvx.weighted_average"@, "weighted_average"@, 19));
    assert(shows_nowhere("org.khronos.openvx.absdiff"@, "add"@, 0)) by {
        reveal_with_fuel(shows_nowhere, 26);
    }
    lemma_lacks("org.khronos.openvx.absdiff"@, "add"@);
    assert(shows_nowhere("org.khronos.openvx.absdiff"@, "subtract"@, 0)) by {
        reveal_with_fuel(shows_nowhere, 21);
    }
    lemma_lacks("org.khronos.openvx.absdiff"@, "subtract"@);
    assert(shows_nowhere("org.khronos.openvx.weighted_average"@, "add"@, 0)) by {
        reveal_with_fuel(shows_nowhere, 35);
    }
    lemma_lacks("org.khronos.openvx.weighted_average"@, "add"@);
    assert(shows_nowhere("org.khronos.openvx.weighted_average"@, "subtract"@, 0)) by {
        reveal_with_fuel(shows_nowhere, 30);
    }
    lemma_lacks("org.khronos.openvx.weighted_average"@, "subtract"@);
    assert(shows_nowhere("org.khronos.openvx.weighted_average"@, "absdiff"@, 0)) by {
        reveal_with_fuel(shows_nowhere, 31);
    }
    lemma_lacks("org.khronos.openvx.weighted_average"@, "absdiff"@);
    assert(shows_nowhere("org.khronos.openvx.weighted_average"@, "min_max"@, 0)) by {
        reveal_with_fuel(shows_nowhere, 31);
    }
    lemma_lacks("org.khronos.openvx.weighted_average"@, "min_max"@);
    assert(shows_nowhere("org.khronos.openvx.weighted_average"@, "multiply"@, 0)) by {
        reveal_with_fuel(shows_nowhere, 30);
    }
    lemma_lacks("org.khronos.openvx.weighted_average"@, "multiply"@);
    assert(shows_nowhere("org.khronos.openvx.weighted_average"@, "and"@, 0)) by {
        reveal_with_fuel(shows_nowhere, 35);
    }
    lemma_lacks("org.khronos.openvx.weighted_average"@, "and"@);
    assert(shows_nowhere("org.khronos.openvx.weighted_average"@, ".or"@, 0)) by {
        reveal_with_fuel(shows_nowhere, 35);
    }
    lemma_lacks("org.khronos.openvx.weighted_average"@, ".or"@);
    assert(shows_nowhere("org.khronos.openvx.weighted_average"@, "xor"@, 0)) by {
        reveal_with_fuel(shows_nowhere, 35);
    }
    lemma_lacks("org.khronos.openvx.weighted_average"@, "xor"@);
    assert(shows_nowhere("org.khronos.openvx.weighted_average"@, ".not"@, 0)) by {
        reveal_with_fuel(shows_nowhere, 34);
    }
    lemma_lacks("org.khronos.openvx.weighted_average"@, ".not"@);
}

/// A channel of an image is held in bytes, whatever the image is.
pub proof fn law_output_format_of_a_channel(formats: Seq<vx_df_image>)
    requires
        formats.len() > 0,
    ensures
        output_format("org.khronos.openvx.channel_extract"@, formats) == VX_DF_IMAGE_U8,
{
    reveal_strlit("add");
    reveal_strlit("subtract");
    reveal_strlit("absdiff");
    reveal_strlit("min_max");
    reveal_strlit("multiply");
    reveal_strlit("and");
    reveal_strlit(".or");
    reveal_strlit("xor");
    reveal_strlit(".not");
    reveal_strlit("weighted_average");
    reveal_strlit("scale_image");
    reveal_strlit("warp_affine");
    reveal_strlit("warp_perspective");
    reveal_strlit("remap");
    reveal_strlit("channel_extract");
    reveal_strlit("org.khronos.openvx.channel_extract");
    assert("org.khronos.openvx.channel_extract"@.subrange(19, 34) =~= "channel_extract"@);
    assert(crate::text::part_at("org.khronos.openvx.channel_extract"@, "channel_extract"@, 19));
    assert(shows_nowhere("org.khronos.openvx.channel_extract"@, "add"@, 0)) by {
        reveal_with_fuel(shows_nowhere, 34);
    }
    lemma_lacks("org.khronos.openvx.channel_extract"@, "add"@);
    assert(shows_nowhere("org.khronos.openvx.channel_extract"@, "subtract"@, 0)) by {
        reveal_with_fuel(shows_nowhere, 29);
    }
    lemma_lacks("org.khronos.openvx.channel_extract"@, "subtract"@);
    assert(shows_nowhere("org.khronos.openvx.channel_extract"@, "absdiff"@, 0)) by {
        reveal_with_fuel(shows_nowhere, 30);
    }
    lemma_lacks("org.khronos.openvx.channel_extract"@, "absdiff"@);
    assert(shows_nowhere("org.khronos.openvx.channel_extract"@, "min_max"@, 0)) by {
        reveal_with_fuel(shows_nowhere, 30);
    }
    lemma_lacks("org.khronos.openvx.channel_extract"@, "min_max"@);
    assert(shows_nowhere("org.khronos.openvx.channel_extract"@, "multiply"@, 0)) by {
        reveal_with_fuel(shows_nowhere, 29);
    }
    lemma_lacks("org.khronos.openvx.channel_extract"@, "multiply"@);
    assert(shows_nowhere("org.khronos.openvx.channel_extract"@, "and"@, 0)) by {
        reveal_with_fuel(shows_nowhere, 34);
    }
    lemma_lacks("org.khronos.openvx.channel_extract"@, "and"@);
    assert(shows_nowhere("org.khronos.openvx.channel_extract"@, ".or"@, 0)) by {
        reveal_with_fuel(shows_nowhere, 34);
    }
    lemma_lacks("org.khronos.openvx.channel_extract"@, ".or"@);
    assert(shows_nowhere("org.khronos.openvx.channel_extract"@, "xor"@, 0)) by {
        reveal_with_fuel(shows_nowhere, 34);
    }
    lemma_lacks("org.khronos.openvx.channel_extract"@, "xor"@);
    assert(shows_nowhere("org.khronos.openvx.channel_extract"@, ".not"@, 0)) by {
        reveal_with_fuel(shows_nowhere, 33);
    }
    lemma_lacks("org.khronos.openvx.channel_extract"@, ".not"@);
    assert(shows_nowhere("org.khronos.openvx.channel_extract"@, "weighted_average"@, 0)) by {
        reveal_with_fuel(shows_nowhere, 21);
    }
    lemma_lacks("org.khronos.openvx.channel_extract"@, "weighted_average"@);
    assert(shows_nowhere("org.khronos.openvx.channel_extract"@, "scale_image"@, 0)) by {
        reveal_with_fuel(shows_nowhere, 26);
    }
    lemma_lacks("org.khronos.openvx.channel_extract"@, "scale_image"@);
    assert(shows_nowhere("org.khronos.openvx.channel_extract"@, "warp_affine"@, 0)) by {
        reveal_with_fuel(shows_nowhere, 26);
    }
    lemma_lacks("org.khronos.openvx.channel_extract"@, "warp_affine"@);
    assert(shows_nowhere("org.khronos.openvx.channel_extract"@, "warp_perspective"@, 0)) by {
        reveal_with_fuel(shows_nowhere, 21);
    }
    lemma_lacks("org.khronos.openvx.channel_extract"@, "warp_perspective"@);
    assert(shows_nowhere("org.khronos.openvx.channel_extract"@, "remap"@, 0)) by {
        reveal_with_fuel(shows_nowhere, 32);
    }
    lemma_lacks("org.khronos.openvx.channel_extract"@, "remap"@);
}

/// Combining bits keeps the format of the first image.
#[verifier::spinoff_prover]
#[verifier::rlimit(50)]
pub proof fn law_output_formats_of_bits(formats: Seq<vx_df_image>)
    requires
        formats.len() > 0,
    ensures
        output_format("org.khronos.openvx.and"@, formats) == formats[0],
        output_format("org.khronos.openvx.or"@, formats) == formats[0],
        output_format("org.khronos.openvx.xor"@, formats) == formats[0],
        output_format("org.khronos.openvx.not"@, formats) == formats[0],
{
    reveal_strlit("add");
    reveal_strlit("subtract");
    reveal_strlit("absdiff");
    reveal_strlit("min_max");
    reveal_strlit("multiply");
    reveal_strlit("weighted_average");
    reveal_strlit("channel_extract");
    reveal_strlit("org.khronos.openvx.and");
    assert(shows_nowhere("org.khronos.openvx.and"@, "add"@, 0)) by {
        reveal_with_fuel(shows_nowhere, 22);
    }
    lemma_lacks("org.khronos.openvx.and"@, "add"@);
    assert(shows_nowhere("org.khronos.openvx.and"@, "subtract"@, 0)) by {
        reveal_with_fuel(shows_nowhere, 17);
    }
    lemma_lacks("org.khronos.openvx.and"@, "subtract"@);
    assert(shows_nowhere("org.khronos.openvx.and"@, "absdiff"@, 0)) by {
        reveal_with_fuel(shows_nowhere, 18);
    }
    lemma_lacks("org.khronos.openvx.and"@, "absdiff"@);
    assert(shows_nowhere("org.khronos.openvx.and"@, "min_max"@, 0)) by {
        reveal_with_fuel(shows_nowhere, 18);
    }
    lemma_lacks("org.khronos.openvx.and"@, "min_max"@);
    assert(shows_nowhere("org.khronos.openvx.and"@, "multiply"@, 0)) by {
        reveal_with_fuel(shows_nowhere, 17);
    }
    lemma_lacks("org.khronos.openvx.and"@, "multiply"@);
    assert(shows_nowhere("org.khronos.openvx.and"@, "weighted_average"@, 0)) by {
        reveal_with_fuel(shows_nowhere, 9);
    }
    lemma_lacks("org.khronos.openvx.and"@, "weighted_average"@);
    assert(shows_nowhere("org.khronos.openvx.and"@, "channel_extract"@, 0)) by {
        reveal_with_fuel(shows_nowhere, 10);
    }
    lemma_lacks("org.khronos.openvx.and"@, "channel_extract"@);
    law_format_words("org.khronos.openvx.and"@, formats);
    reveal_strlit("org.khronos.openvx.or");
    assert(shows_nowhere("org.khronos.openvx.or"@, "add"@, 0)) by {
        reveal_with_fuel(shows_nowhere, 21);
    }
    lemma_lacks("org.khronos.openvx.or"@, "add"@);
    assert(shows_nowhere("org.khronos.openvx.or"@, "subtract"@, 0)) by {
        reveal_with_fuel(shows_nowhere, 16);
    }
    lemma_lacks("org.khronos.openvx.or"@, "subtract"@);
    assert(shows_nowhere("org.khronos.openvx.or"@, "absdiff"@, 0)) by {
        reveal_with_fuel(shows_nowhere, 17);
    }
    lemma_lacks("org.khronos.openvx.or"@, "absdiff"@);
    assert(shows_nowhere("org.khronos.openvx.or"@, "min_max"@, 0)) by {
        reveal_with_fuel(shows_nowhere, 17);
    }
    lemma_lacks("org.khronos.openvx.or"@, "min_max"@);
    assert(shows_nowhere("org.khronos.openvx.or"@, "multiply"@, 0)) by {
        reveal_with_fuel(shows_nowhere, 16);
    }
    lemma_lacks("org.khronos.openvx.or"@, "multiply"@);
    assert(shows_nowhere("org.khronos.openvx.or"@, "weighted_average"@, 0)) by {
        reveal_with_fuel(shows_nowhere, 8);
    }
    lemma_lacks("org.khronos.openvx.or"@, "weighted_average"@);
    assert(shows_nowhere("org.khronos.openvx.or"@, "channel_extract"@, 0)) by {
        reveal_with_fuel(shows_nowhere, 9);
    }
    lemma_lacks("org.khronos.openvx.or"@, "channel_extract"@);
    law_format_words("org.khronos.openvx.or"@, formats);
    reveal_strlit("org.khronos.openvx.xor");
    assert(shows_nowhere("org.khronos.openvx.xor"@, "add"@, 0)) by {
        reveal_with_fuel(shows_nowhere, 22);
    }
    lemma_lacks("org.khronos.openvx.xor"@, "add"@);
    assert(shows_nowhere("org.khronos.openvx.xor"@, "subtract"@, 0)) by {
        reveal_with_fuel(shows_nowhere, 17);
    }
    lemma_lacks("org.khronos.openvx.xor"@, "subtract"@);
    assert(shows_nowhere("org.khronos.openvx.xor"@, "absdiff"@, 0)) by {
        reveal_with_fuel(shows_nowhere, 18);
    }
    lemma_lacks("org.khronos.openvx.xor"@, "absdiff"@);
    assert(shows_nowhere("org.khronos.openvx.xor"@, "min_max"@, 0)) by {
        reveal_with_fuel(shows_nowhere, 18);
    }
    lemma_lacks("org.khronos.openvx.xor"@, "min_max"@);
    assert(shows_nowhere("org.khronos.openvx.xor"@, "multiply"@, 0)) by {
        reveal_with_fuel(shows_nowhere, 17);
    }
    lemma_lacks("org.khronos.openvx.xor"@, "multiply"@);
    assert(shows_nowhere("org.khronos.openvx.xor"@, "weighted_average"@, 0)) by {
        reveal_with_fuel(shows_nowhere, 9);
    }
    lemma_lacks("org.khronos.openvx.xor"@, "weighted_average"@);
    assert(shows_nowhere("org.khronos.openvx.xor"@, "channel_extract"@, 0)) by {
        reveal_with_fuel(shows_nowhere, 10);
    }
    lemma_lacks("org.khronos.openvx.xor"@, "channel_extract"@);
    law_format_words("org.khronos.openvx.xor"@, formats);
    reveal_strlit("org.khronos.openvx.not");
    assert(shows_nowhere("org.khronos.openvx.not"@, "add"@, 0)) by {
        reveal_with_fuel(shows_nowhere, 22);
    }
    lemma_lacks("org.khronos.openvx.not"@, "add"@);
    assert(shows_nowhere("org.khronos.openvx.not"@, "subtract"@, 0)) by {
        reveal_with_fuel(shows_nowhere, 17);
    }
    lemma_lacks("org.khronos.openvx.not"@, "subtract"@);
    assert(shows_nowhere("org.khronos.openvx.not"@, "absdiff"@, 0)) by {
        reveal_with_fuel(shows_nowhere, 18);
    }
    lemma_lacks("org.khronos.openvx.not"@, "absdiff"@);
    assert(shows_nowhere("org.khronos.openvx.not"@, "min_max"@, 0)) by {
        reveal_with_fuel(shows_nowhere, 18);
    }
    lemma_lacks("org.khronos.openvx.not"@, "min_max"@);
    assert(shows_nowhere("org.khronos.openvx.not"@, "multiply"@, 0)) by {
        reveal_with_fuel(shows_nowhere, 17);
    }
    lemma_lacks("org.khronos.openvx.not"@, "multiply"@);
    assert(shows_nowhere("org.khronos.openvx.not"@, "weighted_average"@, 0)) by {
        reveal_with_fuel(shows_nowhere, 9);
    }
    lemma_lacks("org.khronos.openvx.not"@, "weighted_average"@);
    assert(shows_nowhere("org.khronos.openvx.not"@, "channel_extract"@, 0)) by {
        reveal_with_fuel(shows_nowhere, 10);
    }
    lemma_lacks("org.khronos.openvx.not"@, "channel_extract"@);
    law_format_words("org.khronos.openvx.not"@, formats);
}

/// Scaling, warping and moving pixels keeps the format of the first image.
#[verifier::spinoff_prover]
#[verifier::rlimit(50)]
pub proof fn law_output_formats_of_moved_pixels(formats: Seq<vx_df_image>)
    requires
        formats.len() > 0,
    ensures
        output_format("org.khronos.openvx.scale_image"@, formats) == formats[0],
        output_format("org.khronos.openvx.warp_affine"@, formats) == formats[0],
        output_format("org.khronos.openvx.warp_perspective"@, formats) == formats[0],
        output_format("org.khronos.openvx.remap"@, formats) == formats[0],
{
    reveal_strlit("add");
    reveal_strlit("subtract");
    reveal_strlit("absdiff");
    reveal_strlit("min_max");
    reveal_strlit("multiply");
    reveal_strlit("weighted_average");
    reveal_strlit("channel_extract");
    reveal_strlit("org.khronos.openvx.scale_image");
    assert(shows_nowhere("org.khronos.openvx.scale_image"@, "add"@, 0)) by {
        reveal_with_fuel(shows_nowhere, 30);
    }
    lemma_lacks("org.khronos.openvx.scale_image"@, "add"@);
    assert(shows_nowhere("org.khronos.openvx.scale_image"@, "subtract"@, 0)) by {
        reveal_with_fuel(shows_nowhere, 25);
    }
    lemma_lacks("org.khronos.openvx.scale_image"@, "subtract"@);
    assert(shows_nowhere("org.khronos.openvx.scale_image"@, "absdiff"@, 0)) by {
        reveal_with_fuel(shows_nowhere, 26);
    }
    lemma_lacks("org.khronos.openvx.scale_image"@, "absdiff"@);
    assert(shows_nowhere("org.khronos.openvx.scale_image"@, "min_max"@, 0)) by {
        reveal_with_fuel(shows_nowhere, 26);
    }
    lemma_lacks("org.khronos.openvx.scale_image"@, "min_max"@);
    assert(shows_nowhere("org.khronos.openvx.scale_image"@, "multiply"@, 0)) by {
        reveal_with_fuel(shows_nowhere, 25);
    }
    lemma_lacks("org.khronos.openvx.scale_image"@, "multiply"@);
    assert(shows_nowhere("org.khronos.openvx.scale_image"@, "weighted_average"@, 0)) by {
        reveal_with_fuel(shows_nowhere, 17);
    }
    lemma_lacks("org.khronos.openvx.scale_image"@, "weighted_average"@);
    assert(shows_nowhere("org.khronos.openvx.scale_image"@, "channel_extract"@, 0)) by {
        reveal_with_fuel(shows_nowhere, 18);
    }
    lemma_lacks("org.khronos.openvx.scale_image"@, "channel_extract"@);
    law_format_words("org.khronos.openvx.scale_image"@, formats);
    reveal_strlit("org.khronos.openvx.warp_affine");
    assert(shows_nowhere("org.khronos.openvx.warp_affine"@, "add"@, 0)) by {
        reveal_with_fuel(shows_nowhere, 30);
    }
    lemma_lacks("org.khronos.openvx.warp_affine"@, "add"@);
    assert(shows_nowhere("org.khronos.openvx.warp_affine"@, "subtract"@, 0)) by {
        reveal_with_fuel(shows_nowhere, 25);
    }
    lemma_lacks("org.khronos.openvx.warp_affine"@, "subtract"@);
    assert(shows_nowhere("org.khronos.openvx.warp_affine"@, "absdiff"@, 0)) by {
        reveal_with_fuel(shows_nowhere, 26);
    }
    lemma_lacks("org.khronos.openvx.warp_affine"@, "absdiff"@);
    assert(shows_nowhere("org.khronos.openvx.warp_affine"@, "min_max"@, 0)) by {
        reveal_with_fuel(shows_nowhere, 26);
    }
    lemma_lacks("org.khronos.openvx.warp_affine"@, "min_max"@);
    assert(shows_nowhere("org.khronos.openvx.warp_affine"@, "multiply"@, 0)) by {
        reveal_with_fuel(shows_nowhere, 25);
    }
    lemma_lacks("org.khronos.openvx.warp_affine"@, "multiply"@);
    assert(shows_nowhere("org.khronos.openvx.warp_affine"@, "weighted_average"@, 0)) by {
        reveal_with_fuel(shows_nowhere, 17);
    }
    lemma_lacks("org.khronos.openvx.warp_affine"@, "weighted_average"@);
    assert(shows_nowhere("org.khronos.openvx.warp_affine"@, "channel_extract"@, 0)) by {
        reveal_with_fuel(shows_nowhere, 18);
    }
    lemma_lacks("org.khronos.openvx.warp_affine"@, "channel_extract"@);
    law_format_words("org.khronos.openvx.warp_affine"@, formats);
    reveal_strlit("org.khronos.openvx.warp_perspective");
    assert(shows_nowhere("org.khronos.openvx.warp_perspective"@, "add"@, 0)) by {
        reveal_with_fuel(shows_nowhere, 35);
    }
    lemma_lacks("org.khronos.openvx.warp_perspective"@, "add"@);
    assert(shows_nowhere("org.khronos.openvx.warp_perspective"@, "subtract"@, 0)) by {
        reveal_with_fuel(shows_nowhere, 30);
    }
    lemma_lacks("org.khronos.openvx.warp_perspective"@, "subtract"@);
    assert(shows_nowhere("org.khronos.openvx.warp_perspective"@, "absdiff"@, 0)) by {
        reveal_with_fuel(shows_nowhere, 31);
    }
    lemma_lacks("org.khronos.openvx.warp_perspective"@, "absdiff"@);
    assert(shows_nowhere("org.khronos.openvx.warp_perspective"@, "min_max"@, 0)) by {
        reveal_with_fuel(shows_nowhere, 31);
    }
    lemma_lacks("org.khronos.openvx.warp_perspective"@, "min_max"@);
    assert(shows_nowhere("org.khronos.openvx.warp_perspective"@, "multiply"@, 0)) by {
        reveal_with_fuel(shows_nowhere, 30);
    }
    lemma_lacks("org.khronos.openvx.warp_perspective"@, "multiply"@);
    assert(shows_nowhere("org.khronos.openvx.warp_perspective"@, "weighted_average"@, 0)) by {
        reveal_with_fuel(shows_nowhere, 22);
    }
    lemma_lacks("org.khronos.openvx.warp_perspective"@, "weighted_average"@);
    assert(shows_nowhere("org.khronos.openvx.warp_perspective"@, "channel_extract"@, 0)) by {
        reveal_with_fuel(shows_nowhere, 23);
    }
    lemma_lacks("org.khronos.openvx.warp_perspective"@, "channel_extract"@);
    law_format_words("org.khronos.openvx.warp_perspective"@, formats);
    reveal_strlit("org.khronos.openvx.remap");
    assert(shows_nowhere("org.khronos.openvx.remap"@, "add"@, 0)) by {
        reveal_with_fuel(shows_nowhere, 24);
    }
    lemma_lacks("org.khronos.openvx.remap"@, "add"@);
    assert(shows_nowhere("org.khronos.openvx.remap"@, "subtract"@, 0)) by {
        reveal_with_fuel(shows_nowhere, 19);
    }
    lemma_lacks("org.khronos.openvx.remap"@, "subtract"@);
    assert(shows_nowhere("org.khronos.openvx.remap"@, "absdiff"@, 0)) by {
        reveal_with_fuel(shows_nowhere, 20);
    }
    lemma_lacks("org.khronos.openvx.remap"@, "absdiff"@);
    assert(shows_nowhere("org.khronos.openvx.remap"@, "min_max"@, 0)) by {
        reveal_with_fuel(shows_nowhere, 20);
    }
    lemma_lacks("org.khronos.openvx.remap"@, "min_max"@);
    assert(shows_nowhere("org.khronos.openvx.remap"@, "multiply"@, 0)) by {
        reveal_with_fuel(shows_nowhere, 19);
    }
    lemma_lacks("org.khronos.openvx.remap"@, "multiply"@);
    assert(shows_nowhere("org.khronos.openvx.remap"@, "weighted_average"@, 0)) by {
        reveal_with_fuel(shows_nowhere, 11);
    }
    lemma_lacks("org.khronos.openvx.remap"@, "weighted_average"@);
    assert(shows_nowhere("org.khronos.openvx.remap"@, "channel_extract"@, 0)) by {
        reveal_with_fuel(shows_nowhere, 12);
    }
    lemma_lacks("org.khronos.openvx.remap"@, "channel_extract"@);
    law_format_words("org.khronos.openvx.remap"@, formats);
}

/// Choosing among pixels and filtering them keeps the format of the first image.
#[verifier::spinoff_prover]
#[verifier::rlimit(50)]
pub proof fn law_output_formats_of_filters(formats: Seq<vx_df_image>)
    requires
        formats.len() > 0,
    ensures
        output_format("org.khronos.openvx.min"@, formats) == formats[0],
        output_format("org.khronos.openvx.max"@, formats) == formats[0],
        output_format("org.khronos.openvx.box_3x3"@, formats) == formats[0],
        output_format("org.khronos.openvx.median_3x3"@, formats) == formats[0],
        output_format("org.khronos.openvx.gaussian_3x3"@, formats) == formats[0],
        output_format("org.khronos.openvx.gaussian_5x5"@, formats) == formats[0],
        output_format("org.khronos.openvx.dilate_3x3"@, formats) == formats[0],
        output_format("org.khronos.openvx.erode_3x3"@, formats) == formats[0],
{
    reveal_strlit("add");
    reveal_strlit("subtract");
    reveal_strlit("absdiff");
    reveal_strlit("min_max");
    reveal_strlit("multiply");
    reveal_strlit("weighted_average");
    reveal_strlit("channel_extract");
    reveal_strlit("org.khronos.openvx.min");
    assert(shows_nowhere("org.khronos.openvx.min"@, "add"@, 0)) by {
        reveal_with_fuel(shows_nowhere, 22);
    }
    lemma_lacks("org.khronos.openvx.min"@, "add"@);
    assert(shows_nowhere("org.khronos.openvx.min"@, "subtract"@, 0)) by {
        reveal_with_fuel(shows_nowhere, 17);
    }
    lemma_lacks("org.khronos.openvx.min"@, "subtract"@);
    assert(shows_nowhere("org.khronos.openvx.min"@, "absdiff"@, 0)) by {
        reveal_with_fuel(shows_nowhere, 18);
    }
    lemma_lacks("org.khronos.openvx.min"@, "absdiff"@);
    assert(shows_nowhere("org.khronos.openvx.min"@, "min_max"@, 0)) by {
        reveal_with_fuel(shows_nowhere, 18);
    }
    lemma_lacks("org.khronos.openvx.min"@, "min_max"@);
    assert(shows_nowhere("org.khronos.openvx.min"@, "multiply"@, 0)) by {
        reveal_with_fuel(shows_nowhere, 17);
    }
    lemma_lacks("org.khronos.openvx.min"@, "multiply"@);
    assert(shows_nowhere("org.khronos.openvx.min"@, "weighted_average"@, 0)) by {
        reveal_with_fuel(shows_nowhere, 9);
    }
    lemma_lacks("org.khronos.openvx.min"@, "weighted_average"@);
    assert(shows_nowhere("org.khronos.openvx.min"@, "channel_extract"@, 0)) by {
        reveal_with_fuel(shows_nowhere, 10);
    }
    lemma_lacks("org.khronos.openvx.min"@, "channel_extract"@);
    law_format_words("org.khronos.openvx.min"@, formats);
    reveal_strlit("org.khronos.openvx.max");
    assert(shows_nowhere("org.khronos.openvx.max"@, "add"@, 0)) by {
        reveal_with_fuel(shows_nowhere, 22);
    }
    lemma_lacks("org.khronos.openvx.max"@, "add"@);
    assert(shows_nowhere("org.khronos.openvx.max"@, "subtract"@, 0)) by {
        reveal_with_fuel(shows_nowhere, 17);
    }
    lemma_lacks("org.khronos.openvx.max"@, "subtract"@);
    assert(shows_nowhere("org.khronos.openvx.max"@, "absdiff"@, 0)) by {
        reveal_with_fuel(shows_nowhere, 18);
    }
    lemma_lacks("org.khronos.openvx.max"@, "absdiff"@);
    assert(shows_nowhere("org.khronos.openvx.max"@, "min_max"@, 0)) by {
        reveal_with_fuel(shows_nowhere, 18);
    }
    lemma_lacks("org.khronos.openvx.max"@, "min_max"@);
    assert(shows_nowhere("org.khronos.openvx.max"@, "multiply"@, 0)) by {
        reveal_with_fuel(shows_nowhere, 17);
    }
    lemma_lacks("org.khronos.openvx.max"@, "multiply"@);
    assert(shows_nowhere("org.khronos.openvx.max"@, "weighted_average"@, 0)) by {
        reveal_with_fuel(shows_nowhere, 9);
    }
    lemma_lacks("org.khronos.openvx.max"@, "weighted_average"@);
    assert(shows_nowhere("org.khronos.openvx.max"@, "channel_extract"@, 0)) by {
        reveal_with_fuel(shows_nowhere, 10);
    }
    lemma_lacks("org.khronos.openvx.max"@, "channel_extract"@);
    law_format_words("org.khronos.openvx.max"@, formats);
    reveal_strlit("org.khronos.openvx.box_3x3");
    assert(shows_nowhere("org.khronos.openvx.box_3x3"@, "add"@, 0)) by {
        reveal_with_fuel(shows_nowhere, 26);
    }
    lemma_lacks("org.khronos.openvx.box_3x3"@, "add"@);
    assert(shows_nowhere("org.khronos.openvx.box_3x3"@, "subtract"@, 0)) by {
        reveal_with_fuel(shows_nowhere, 21);
    }
    lemma_lacks("org.khronos.openvx.box_3x3"@, "subtract"@);
    assert(shows_nowhere("org.khronos.openvx.box_3x3"@, "absdiff"@, 0)) by {
        reveal_with_fuel(shows_nowhere, 22);
    }
    lemma_lacks("org.khronos.openvx.box_3x3"@, "absdiff"@);
    assert(shows_nowhere("org.khronos.openvx.box_3x3"@, "min_max"@, 0)) by {
        reveal_with_fuel(shows_nowhere, 22);
    }
    lemma_lacks("org.khronos.openvx.box_3x3"@, "min_max"@);
    assert(shows_nowhere("org.khronos.openvx.box_3x3"@, "multiply"@, 0)) by {
        reveal_with_fuel(shows_nowhere, 21);
    }
    lemma_lacks("org.khronos.openvx.box_3x3"@, "multiply"@);
    assert(shows_nowhere("org.khronos.openvx.box_3x3"@, "weighted_average"@, 0)) by {
        reveal_with_fuel(shows_nowhere, 13);
    }
    lemma_lacks("org.khronos.openvx.box_3x3"@, "weighted_average"@);
    assert(shows_nowhere("org.khronos.openvx.box_3x3"@, "channel_extract"@, 0)) by {
        reveal_with_fuel(shows_nowhere, 14);
    }
    lemma_lacks("org.khronos.openvx.box_3x3"@, "channel_extract"@);
    law_format_words("org.khronos.openvx.box_3x3"@, formats);
    reveal_strlit("org.khronos.openvx.median_3x3");
    assert(shows_nowhere("org.khronos.openvx.median_3x3"@, "add"@, 0)) by {
        reveal_with_fuel(shows_nowhere, 29);
    }
    lemma_lacks("org.khronos.openvx.median_3x3"@, "add"@);
    assert(shows_nowhere("org.khronos.openvx.median_3x3"@, "subtract"@, 0)) by {
        reveal_with_fuel(shows_nowhere, 24);
    }
    lemma_lacks("org.khronos.openvx.median_3x3"@, "subtract"@);
    assert(shows_nowhere("org.khronos.openvx.median_3x3"@, "absdiff"@, 0)) by {
        reveal_with_fuel(shows_nowhere, 25);
    }
    lemma_lacks("org.khronos.openvx.median_3x3"@, "absdiff"@);
    assert(shows_nowhere("org.khronos.openvx.median_3x3"@, "min_max"@, 0)) by {
        reveal_with_fuel(shows_nowhere, 25);
    }
    lemma_lacks("org.khronos.openvx.median_3x3"@, "min_max"@);
    assert(shows_nowhere("org.khronos.openvx.median_3x3"@, "multiply"@, 0)) by {
        reveal_with_fuel(shows_nowhere, 24);
    }
    lemma_lacks("org.khronos.openvx.median_3x3"@, "multiply"@);
    assert(shows_nowhere("org.khronos.openvx.median_3x3"@, "weighted_average"@, 0)) by {
        reveal_with_fuel(shows_nowhere, 16);
    }
    lemma_lacks("org.khronos.openvx.median_3x3"@, "weighted_average"@);
    assert(shows_nowhere("org.khronos.openvx.median_3x3"@, "channel_extract"@, 0)) by {
        reveal_with_fuel(shows_nowhere, 17);
    }
    lemma_lacks("org.khronos.openvx.median_3x3"@, "channel_extract"@);
    law_format_words("org.khronos.openvx.median_3x3"@, formats);
    reveal_strlit("org.khronos.openvx.gaussian_3x3");
    assert(shows_nowhere("org.khronos.openvx.gaussian_3x3"@, "add"@, 0)) by {
        reveal_with_fuel(shows_nowhere, 31);
    }
    lemma_lacks("org.khronos.openvx.gaussian_3x3"@, "add"@);
    assert(shows_nowhere("org.khronos.openvx.gaussian_3x3"@, "subtract"@, 0)) by {
        reveal_with_fuel(shows_nowhere, 26);
    }
    lemma_lacks("org.khronos.openvx.gaussian_3x3"@, "subtract"@);
    assert(shows_nowhere("org.khronos.openvx.gaussian_3x3"@, "absdiff"@, 0)) by {
        reveal_with_fuel(shows_nowhere, 27);
    }
    lemma_lacks("org.khronos.openvx.gaussian_3x3"@, "absdiff"@);
    assert(shows_nowhere("org.khronos.openvx.gaussian_3x3"@, "min_max"@, 0)) by {
        reveal_with_fuel(shows_nowhere, 27);
    }
    lemma_lacks("org.khronos.openvx.gaussian_3x3"@, "min_max"@);
    assert(shows_nowhere("org.khronos.openvx.gaussian_3x3"@, "multiply"@, 0)) by {
        reveal_with_fuel(shows_nowhere, 26);
    }
    lemma_lacks("org.khronos.openvx.gaussian_3x3"@, "multiply"@);
    assert(shows_nowhere("org.khronos.openvx.gaussian_3x3"@, "weighted_average"@, 0)) by {
        reveal_with_fuel(shows_nowhere, 18);
    }
    lemma_lacks("org.khronos.openvx.gaussian_3x3"@, "weighted_average"@);
    assert(shows_nowhere("org.khronos.openvx.gaussian_3x3"@, "channel_extract"@, 0)) by {
        reveal_with_fuel(shows_nowhere, 19);
    }
    lemma_lacks("org.khronos.openvx.gaussian_3x3"@, "channel_extract"@);
    law_format_words("org.khronos.openvx.gaussian_3x3"@, formats);
    reveal_strlit("org.khronos.openvx.gaussian_5x5");
    assert(shows_nowhere("org.khronos.openvx.gaussian_5x5"@, "add"@, 0)) by {
        reveal_with_fuel(shows_nowhere, 31);
    }
    lemma_lacks("org.khronos.openvx.gaussian_5x5"@, "add"@);
    assert(shows_nowhere("org.khronos.openvx.gaussian_5x5"@, "subtract"@, 0)) by {
        reveal_with_fuel(shows_nowhere, 26);
    }
    lemma_lacks("org.khronos.openvx.gaussian_5x5"@, "subtract"@);
    assert(shows_nowhere("org.khronos.openvx.gaussian_5x5"@, "absdiff"@, 0)) by {
        reveal_with_fuel(shows_nowhere, 27);
    }
    lemma_lacks("org.khronos.openvx.gaussian_5x5"@, "absdiff"@);
    assert(shows_nowhere("org.khronos.openvx.gaussian_5x5"@, "min_max"@, 0)) by {
        reveal_with_fuel(shows_nowhere, 27);
    }
    lemma_lacks("org.khronos.openvx.gaussian_5x5"@, "min_max"@);
    assert(shows_nowhere("org.khronos.openvx.gaussian_5x5"@, "multiply"@, 0)) by {
        reveal_with_fuel(shows_nowhere, 26);
    }
    lemma_lacks("org.khronos.openvx.gaussian_5x5"@, "multiply"@);
    assert(shows_nowhere("org.khronos.openvx.gaussian_5x5"@, "weighted_average"@, 0)) by {
        reveal_with_fuel(shows_nowhere, 18);
    }
    lemma_lacks("org.khronos.openvx.gaussian_5x5"@, "weighted_average"@);
    assert(shows_nowhere("org.khronos.openvx.gaussian_5x5"@, "channel_extract"@, 0)) by {
        reveal_with_fuel(shows_nowhere, 19);
    }
    lemma_lacks("org.khronos.openvx.gaussian_5x5"@, "channel_extract"@);
    law_format_words("org.khronos.openvx.gaussian_5x5"@, formats);
    reveal_strlit("org.khronos.openvx.dilate_3x3");
    assert(shows_nowhere("org.khronos.openvx.dilate_3x3"@, "add"@, 0)) by {
        reveal_with_fuel(shows_nowhere, 29);
    }
    lemma_lacks("org.khronos.openvx.dilate_3x3"@, "add"@);
    assert(shows_nowhere("org.khronos.openvx.dilate_3x3"@, "subtract"@, 0)) by {
        reveal_with_fuel(shows_nowhere, 24);
    }
    lemma_lacks("org.khronos.openvx.dilate_3x3"@, "subtract"@);
    assert(shows_nowhere("org.khronos.openvx.dilate_3x3"@, "absdiff"@, 0)) by {
        reveal_with_fuel(shows_nowhere, 25);
    }
    lemma_lacks("org.khronos.openvx.dilate_3x3"@, "absdiff"@);
    assert(shows_nowhere("org.khronos.openvx.dilate_3x3"@, "min_max"@, 0)) by {
        reveal_with_fuel(shows_nowhere, 25);
    }
    lemma_lacks("org.khronos.openvx.dilate_3x3"@, "min_max"@);
    assert(shows_nowhere("org.khronos.openvx.dilate_3x3"@, "multiply"@, 0)) by {
        reveal_with_fuel(shows_nowhere, 24);
    }
    lemma_lacks("org.khronos.openvx.dilate_3x3"@, "multiply"@);
    assert(shows_nowhere("org.khronos.openvx.dilate_3x3"@, "weighted_average"@, 0)) by {
        reveal_with_fuel(shows_nowhere, 16);
    }
    lemma_lacks("org.khronos.openvx.dilate_3x3"@, "weighted_average"@);
    assert(shows_nowhere("org.khronos.openvx.dilate_3x3"@, "channel_extract"@, 0)) by {
        reveal_with_fuel(shows_nowhere, 17);
    }
    lemma_lacks("org.khronos.openvx.dilate_3x3"@, "channel_extract"@);
    law_format_words("org.khronos.openvx.dilate_3x3"@, formats);
    reveal_strlit("org.khronos.openvx.erode_3x3");
    assert(shows_nowhere("org.khronos.openvx.erode_3x3"@, "add"@, 0)) by {
        reveal_with_fuel(shows_nowhere, 28);
    }
    lemma_lacks("org.khronos.openvx.erode_3x3"@, "add"@);
    assert(shows_nowhere("org.khronos.openvx.erode_3x3"@, "subtract"@, 0)) by {
        reveal_with_fuel(shows_nowhere, 23);
    }
    lemma_lacks("org.khronos.openvx.erode_3x3"@, "subtract"@);
    assert(shows_nowhere("org.khronos.openvx.erode_3x3"@, "absdiff"@, 0)) by {
        reveal_with_fuel(shows_nowhere, 24);
    }
    lemma_lacks("org.khronos.openvx.erode_3x3"@, "absdiff"@);
    assert(shows_nowhere("org.khronos.openvx.erode_3x3"@, "min_max"@, 0)) by {
        reveal_with_fuel(shows_nowhere, 24);
    }
    lemma_lacks("org.khronos.openvx.erode_3x3"@, "min_max"@);
    assert(shows_nowhere("org.khronos.openvx.erode_3x3"@, "multiply"@, 0)) by {
        reveal_with_fuel(shows_nowhere, 23);
    }
    lemma_lacks("org.khronos.openvx.erode_3x3"@, "multiply"@);
    assert(shows_nowhere("org.khronos.openvx.erode_3x3"@, "weighted_average"@, 0)) by {
        reveal_with_fuel(shows_nowhere, 15);
    }
    lemma_lacks("org.khronos.openvx.erode_3x3"@, "weighted_average"@);
    assert(shows_nowhere("org.khronos.openvx.erode_3x3"@, "channel_extract"@, 0)) by {
        reveal_with_fuel(shows_nowhere, 16);
    }
    lemma_lacks("org.khronos.openvx.erode_3x3"@, "channel_extract"@);
    law_format_words("org.khronos.openvx.erode_3x3"@, formats);
}

/// Converting, comparing, combining and looking pixels up keeps the format of the first
/// image.
#[verifier::spinoff_prover]
#[verifier::rlimit(50)]
pub proof fn law_output_formats_of_other_images(formats: Seq<vx_df_image>)
    requires
        formats.len() > 0,
    ensures
        output_format("org.khronos.openvx.color_convert"@, formats) == formats[0],
        output_format("org.khronos.openvx.threshold"@, formats) == formats[0],
        output_format("org.khronos.openvx.channel_combine"@, formats) == formats[0],
        output_format("org.khronos.openvx.convolve"@, formats) == formats[0],
        output_format("org.khronos.openvx.table_lookup"@, formats) == formats[0],
        output_format("org.khronos.openvx.halfscale_gaussian"@, formats) == formats[0],
        output_format("org.khronos.openvx.copy"@, formats) == formats[0],
        output_format("org.khronos.openvx.equalize_histogram"@, formats) == formats[0],
        output_format("org.khronos.openvx.non_linear_filter"@, formats) == formats[0],
{
    reveal_strlit("add");
    reveal_strlit("subtract");
    reveal_strlit("absdiff");
    reveal_strlit("min_max");
    reveal_strlit("multiply");
    reveal_strlit("weighted_average");
    reveal_strlit("channel_extract");
    reveal_strlit("org.khronos.openvx.color_convert");
    assert(shows_nowhere("org.khronos.openvx.color_convert"@, "add"@, 0)) by {
        reveal_with_fuel(shows_nowhere, 32);
    }
    lemma_lacks("org.khronos.openvx.color_convert"@, "add"@);
    assert(shows_nowhere("org.khronos.openvx.color_convert"@, "subtract"@, 0)) by {
        reveal_with_fuel(shows_nowhere, 27);
    }
    lemma_lacks("org.khronos.openvx.color_convert"@, "subtract"@);
    assert(shows_nowhere("org.khronos.openvx.color_convert"@, "absdiff"@, 0)) by {
        reveal_with_fuel(shows_nowhere, 28);
    }
    lemma_lacks("org.khronos.openvx.color_convert"@, "absdiff"@);
    assert(shows_nowhere("org.khronos.openvx.color_convert"@, "min_max"@, 0)) by {
        reveal_with_fuel(shows_nowhere, 28);
    }
    lemma_lacks("org.khronos.openvx.color_convert"@, "min_max"@);
    assert(shows_nowhere("org.khronos.openvx.color_convert"@, "multiply"@, 0)) by {
        reveal_with_fuel(shows_nowhere, 27);
    }
    lemma_lacks("org.khronos.openvx.color_convert"@, "multiply"@);
    assert(shows_nowhere("org.khronos.openvx.color_convert"@, "weighted_average"@, 0)) by {
        reveal_with_fuel(shows_nowhere, 19);
    }
    lemma_lacks("org.khronos.openvx.color_convert"@, "weighted_average"@);
    assert(shows_nowhere("org.khronos.openvx.color_convert"@, "channel_extract"@, 0)) by {
        reveal_with_fuel(shows_nowhere, 20);
    }
    lemma_lacks("org.khronos.openvx.color_convert"@, "channel_extract"@);
    law_format_words("org.khronos.openvx.color_convert"@, formats);
    reveal_strlit("org.khronos.openvx.threshold");
    assert(shows_nowhere("org.khronos.openvx.threshold"@, "add"@, 0)) by {
        reveal_with_fuel(shows_nowhere, 28);
    }
    lemma_lacks("org.khronos.openvx.threshold"@, "add"@);
    assert(shows_nowhere("org.khronos.openvx.threshold"@, "subtract"@, 0)) by {
        reveal_with_fuel(shows_nowhere, 23);
    }
    lemma_lacks("org.khronos.openvx.threshold"@, "subtract"@);
    assert(shows_nowhere("org.khronos.openvx.threshold"@, "absdiff"@, 0)) by {
        reveal_with_fuel(shows_nowhere, 24);
    }
    lemma_lacks("org.khronos.openvx.threshold"@, "absdiff"@);
    assert(shows_nowhere("org.khronos.openvx.threshold"@, "min_max"@, 0)) by {
        reveal_with_fuel(shows_nowhere, 24);
    }
    lemma_lacks("org.khronos.openvx.threshold"@, "min_max"@);
    assert(shows_nowhere("org.khronos.openvx.threshold"@, "multiply"@, 0)) by {
        reveal_with_fuel(shows_nowhere, 23);
    }
    lemma_lacks("org.khronos.openvx.threshold"@, "multiply"@);
    assert(shows_nowhere("org.khronos.openvx.threshold"@, "weighted_average"@, 0)) by {
        reveal_with_fuel(shows_nowhere, 15);
    }
    lemma_lacks("org.khronos.openvx.threshold"@, "weighted_average"@);
    assert(shows_nowhere("org.khronos.openvx.threshold"@, "channel_extract"@, 0)) by {
        reveal_with_fuel(shows_nowhere, 16);
    }
    lemma_lacks("org.khronos.openvx.threshold"@, "channel_extract"@);
    law_format_words("org.khronos.openvx.threshold"@, formats);
    reveal_strlit("org.khronos.openvx.channel_combine");
    assert(shows_nowhere("org.khronos.openvx.channel_combine"@, "add"@, 0)) by {
        reveal_with_fuel(shows_nowhere, 34);
    }
    lemma_lacks("org.khronos.openvx.channel_combine"@, "add"@);
    assert(shows_nowhere("org.khronos.openvx.channel_combine"@, "subtract"@, 0)) by {
        reveal_with_fuel(shows_nowhere, 29);
    }
    lemma_lacks("org.khronos.openvx.channel_combine"@, "subtract"@);
    assert(shows_nowhere("org.khronos.openvx.channel_combine"@, "absdiff"@, 0)) by {
        reveal_with_fuel(shows_nowhere, 30);
    }
    lemma_lacks("org.khronos.openvx.channel_combine"@, "absdiff"@);
    assert(shows_nowhere("org.khronos.openvx.channel_combine"@, "min_max"@, 0)) by {
        reveal_with_fuel(shows_nowhere, 30);
    }
    lemma_lacks("org.khronos.openvx.channel_combine"@, "min_max"@);
    assert(shows_nowhere("org.khronos.openvx.channel_combine"@, "multiply"@, 0)) by {
        reveal_with_fuel(shows_nowhere, 29);
    }
    lemma_lacks("org.khronos.openvx.channel_combine"@, "multiply"@);
    assert(shows_nowhere("org.khronos.openvx.channel_combine"@, "weighted_average"@, 0)) by {
        reveal_with_fuel(shows_nowhere, 21);
    }
    lemma_lacks("org.khronos.openvx.channel_combine"@, "weighted_average"@);
    assert(shows_nowhere("org.khronos.openvx.channel_combine"@, "channel_extract"@, 0)) by {
        reveal_with_fuel(shows_nowhere, 22);
    }
    lemma_lacks("org.khronos.openvx.channel_combine"@, "channel_extract"@);
    law_format_words("org.khronos.openvx.channel_combine"@, formats);
    reveal_strlit("org.khronos.openvx.convolve");
    assert(shows_nowhere("org.khronos.openvx.convolve"@, "add"@, 0)) by {
        reveal_with_fuel(shows_nowhere, 27);
    }
    lemma_lacks("org.khronos.openvx.convolve"@, "add"@);
    assert(shows_nowhere("org.khronos.openvx.convolve"@, "subtract"@, 0)) by {
        reveal_with_fuel(shows_nowhere, 22);
    }
    lemma_lacks("org.khronos.openvx.convolve"@, "subtract"@);
    assert(shows_nowhere("org.khronos.openvx.convolve"@, "absdiff"@, 0)) by {
        reveal_with_fuel(shows_nowhere, 23);
    }
    lemma_lacks("org.khronos.openvx.convolve"@, "absdiff"@);
    assert(shows_nowhere("org.khronos.openvx.convolve"@, "min_max"@, 0)) by {
        reveal_with_fuel(shows_nowhere, 23);
    }
    lemma_lacks("org.khronos.openvx.convolve"@, "min_max"@);
    assert(shows_nowhere("org.khronos.openvx.convolve"@, "multiply"@, 0)) by {
        reveal_with_fuel(shows_nowhere, 22);
    }
    lemma_lacks("org.khronos.openvx.convolve"@, "multiply"@);
    assert(shows_nowhere("org.khronos.openvx.convolve"@, "weighted_average"@, 0)) by {
        reveal_with_fuel(shows_nowhere, 14);
    }
    lemma_lacks("org.khronos.openvx.convolve"@, "weighted_average"@);
    assert(shows_nowhere("org.khronos.openvx.convolve"@, "channel_extract"@, 0)) by {
        reveal_with_fuel(shows_nowhere, 15);
    }
    lemma_lacks("org.khronos.openvx.convolve"@, "channel_extract"@);
    law_format_words("org.khronos.openvx.convolve"@, formats);
    reveal_strlit("org.khronos.openvx.table_lookup");
    assert(shows_nowhere("org.khronos.openvx.table_lookup"@, "add"@, 0)) by {
        reveal_with_fuel(shows_nowhere, 31);
    }
    lemma_lacks("org.khronos.openvx.table_lookup"@, "add"@);
    assert(shows_nowhere("org.khronos.openvx.table_lookup"@, "subtract"@, 0)) by {
        reveal_with_fuel(shows_nowhere, 26);
    }
    lemma_lacks("org.khronos.openvx.table_lookup"@, "subtract"@);
    assert(shows_nowhere("org.khronos.openvx.table_lookup"@, "absdiff"@, 0)) by {
        reveal_with_fuel(shows_nowhere, 27);
    }
    lemma_lacks("org.khronos.openvx.table_lookup"@, "absdiff"@);
    assert(shows_nowhere("org.khronos.openvx.table_lookup"@, "min_max"@, 0)) by {
        reveal_with_fuel(shows_nowhere, 27);
    }
    lemma_lacks("org.khronos.openvx.table_lookup"@, "min_max"@);
    assert(shows_nowhere("org.khronos.openvx.table_lookup"@, "multiply"@, 0)) by {
        reveal_with_fuel(shows_nowhere, 26);
    }
    lemma_lacks("org.khronos.openvx.table_lookup"@, "multiply"@);
    assert(shows_nowhere("org.khronos.openvx.table_lookup"@, "weighted_average"@, 0)) by {
        reveal_with_fuel(shows_nowhere, 18);
    }
    lemma_lacks("org.khronos.openvx.table_lookup"@, "weighted_average"@);
    assert(shows_nowhere("org.khronos.openvx.table_lookup"@, "channel_extract"@, 0)) by {
        reveal_with_fuel(shows_nowhere, 19);
    }
    lemma_lacks("org.khronos.openvx.table_lookup"@, "channel_extract"@);
    law_format_words("org.khronos.openvx.table_lookup"@, formats);
    reveal_strlit("org.khronos.openvx.halfscale_gaussian");
    assert(shows_nowhere("org.khronos.openvx.halfscale_gaussian"@, "add"@, 0)) by {
        reveal_with_fuel(shows_nowhere, 37);
    }
    lemma_lacks("org.khronos.openvx.halfscale_gaussian"@, "add"@);
    assert(shows_nowhere("org.khronos.openvx.halfscale_gaussian"@, "subtract"@, 0)) by {
        reveal_with_fuel(shows_nowhere, 32);
    }
    lemma_lacks("org.khronos.openvx.halfscale_gaussian"@, "subtract"@);
    assert(shows_nowhere("org.khronos.openvx.halfscale_gaussian"@, "absdiff"@, 0)) by {
        reveal_with_fuel(shows_nowhere, 33);
    }
    lemma_lacks("org.khronos.openvx.halfscale_gaussian"@, "absdiff"@);
    assert(shows_nowhere("org.khronos.openvx.halfscale_gaussian"@, "min_max"@, 0)) by {
        reveal_with_fuel(shows_nowhere, 33);
    }
    lemma_lacks("org.khronos.openvx.halfscale_gaussian"@, "min_max"@);
    assert(shows_nowhere("org.khronos.openvx.halfscale_gaussian"@, "multiply"@, 0)) by {
        reveal_with_fuel(shows_nowhere, 32);
    }
    lemma_lacks("org.khronos.openvx.halfscale_gaussian"@, "multiply"@);
    assert(shows_nowhere("org.khronos.openvx.halfscale_gaussian"@, "weighted_average"@, 0)) by {
        reveal_with_fuel(shows_nowhere, 24);
    }
    lemma_lacks("org.khronos.openvx.halfscale_gaussian"@, "weighted_average"@);
    assert(shows_nowhere("org.khronos.openvx.halfscale_gaussian"@, "channel_extract"@, 0)) by {
        reveal_with_fuel(shows_nowhere, 25);
    }
    lemma_lacks("org.khronos.openvx.halfscale_gaussian"@, "channel_extract"@);
    law_format_words("org.khronos.openvx.halfscale_gaussian"@, formats);
    reveal_strlit("org.khronos.openvx.copy");
    assert(shows_nowhere("org.khronos.openvx.copy"@, "add"@, 0)) by {
        reveal_with_fuel(shows_nowhere, 23);
    }
    lemma_lacks("org.khronos.openvx.copy"@, "add"@);
    assert(shows_nowhere("org.khronos.openvx.copy"@, "subtract"@, 0)) by {
        reveal_with_fuel(shows_nowhere, 18);
    }
    lemma_lacks("org.khronos.openvx.copy"@, "subtract"@);
    assert(shows_nowhere("org.khronos.openvx.copy"@, "absdiff"@, 0)) by {
        reveal_with_fuel(shows_nowhere, 19);
    }
    lemma_lacks("org.khronos.openvx.copy"@, "absdiff"@);
    assert(shows_nowhere("org.khronos.openvx.copy"@, "min_max"@, 0)) by {
        reveal_with_fuel(shows_nowhere, 19);
    }
    lemma_lacks("org.khronos.openvx.copy"@, "min_max"@);
    assert(shows_nowhere("org.khronos.openvx.copy"@, "multiply"@, 0)) by {
        reveal_with_fuel(shows_nowhere, 18);
    }
    lemma_lacks("org.khronos.openvx.copy"@, "multiply"@);
    assert(shows_nowhere("org.khronos.openvx.copy"@, "weighted_average"@, 0)) by {
        reveal_with_fuel(shows_nowhere, 10);
    }
    lemma_lacks("org.khronos.openvx.copy"@, "weighted_average"@);
    assert(shows_nowhere("org.khronos.openvx.copy"@, "channel_extract"@, 0)) by {
        reveal_with_fuel(shows_nowhere, 11);
    }
    lemma_lacks("org.khronos.openvx.copy"@, "channel_extract"@);
    law_format_words("org.khronos.openvx.copy"@, formats);
    reveal_strlit("org.khronos.openvx.equalize_histogram");
    assert(shows_nowhere("org.khronos.openvx.equalize_histogram"@, "add"@, 0)) by {
        reveal_with_fuel(shows_nowhere, 37);
    }
    lemma_lacks("org.khronos.openvx.equalize_histogram"@, "add"@);
    assert(shows_nowhere("org.khronos.openvx.equalize_histogram"@, "subtract"@, 0)) by {
        reveal_with_fuel(shows_nowhere, 32);
    }
    lemma_lacks("org.khronos.openvx.equalize_histogram"@, "subtract"@);
    assert(shows_nowhere("org.khronos.openvx.equalize_histogram"@, "absdiff"@, 0)) by {
        reveal_with_fuel(shows_nowhere, 33);
    }
    lemma_lacks("org.khronos.openvx.equalize_histogram"@, "absdiff"@);
    assert(shows_nowhere("org.khronos.openvx.equalize_histogram"@, "min_max"@, 0)) by {
        reveal_with_fuel(shows_nowhere, 33);
    }
    lemma_lacks("org.khronos.openvx.equalize_histogram"@, "min_max"@);
    assert(shows_nowhere("org.khronos.openvx.equalize_histogram"@, "multiply"@, 0)) by {
        reveal_with_fuel(shows_nowhere, 32);
    }
    lemma_lacks("org.khronos.openvx.equalize_histogram"@, "multiply"@);
    assert(shows_nowhere("org.khronos.openvx.equalize_histogram"@, "weighted_average"@, 0)) by {
        reveal_with_fuel(shows_nowhere, 24);
    }
    lemma_lacks("org.khronos.openvx.equalize_histogram"@, "weighted_average"@);
    assert(shows_nowhere("org.khronos.openvx.equalize_histogram"@, "channel_extract"@, 0)) by {
        reveal_with_fuel(shows_nowhere, 25);
    }
    lemma_lacks("org.khronos.openvx.equalize_histogram"@, "channel_extract"@);
    law_format_words("org.khronos.openvx.equalize_histogram"@, formats);
    reveal_strlit("org.khronos.openvx.non_linear_filter");
    assert(shows_nowhere("org.khronos.openvx.non_linear_filter"@, "add"@, 0)) by {
        reveal_with_fuel(shows_nowhere, 36);
    }
    lemma_lacks("org.khronos.openvx.non_linear_filter"@, "add"@);
    assert(shows_nowhere("org.khronos.openvx.non_linear_filter"@, "subtract"@, 0)) by {
        reveal_with_fuel(shows_nowhere, 31);
    }
    lemma_lacks("org.khronos.openvx.non_linear_filter"@, "subtract"@);
    assert(shows_nowhere("org.khronos.openvx.non_linear_filter"@, "absdiff"@, 0)) by {
        reveal_with_fuel(shows_nowhere, 32);
    }
    lemma_lacks("org.khronos.openvx.non_linear_filter"@, "absdiff"@);
    assert(shows_nowhere("org.khronos.openvx.non_linear_filter"@, "min_max"@, 0)) by {
        reveal_with_fuel(shows_nowhere, 32);
    }
    lemma_lacks("org.khronos.openvx.non_linear_filter"@, "min_max"@);
    assert(shows_nowhere("org.khronos.openvx.non_linear_filter"@, "multiply"@, 0)) by {
        reveal_with_fuel(shows_nowhere, 31);
    }
    lemma_lacks("org.khronos.openvx.non_linear_filter"@, "multiply"@);
    assert(shows_nowhere("org.khronos.openvx.non_linear_filter"@, "weighted_average"@, 0)) by {
        reveal_with_fuel(shows_nowhere, 23);
    }
    lemma_lacks("org.khronos.openvx.non_linear_filter"@, "weighted_average"@);
    assert(shows_nowhere("org.khronos.openvx.non_linear_filter"@, "channel_extract"@, 0)) by {
        reveal_with_fuel(shows_nowhere, 24);
    }
    lemma_lacks("org.khronos.openvx.non_linear_filter"@, "channel_extract"@);
    law_format_words("org.khronos.openvx.non_linear_filter"@, formats);
}

/// A size and a format that were recorded for a virtual image are what it gets,
/// whatever its neighbours are; without them, what the image itself says counts.
pub proof fn law_recorded_sizes_come_first(
    image: u64,
    node: u64,
    name: Seq<char>,
    wires: Seq<WireSpec>,
    producer: Map<u64, u64>,
    types: Map<u64, vx_enum>,
    shapes: Map<u64, Shape>,
    infos: Map<u64, VirtualImageInfo>,
)
    ensures
        infos.contains_key(image) && infos[image].width > 0 && infos[image].height > 0
            && infos[image].format != 0 && infos[image].format != VX_DF_IMAGE_VIRT ==> inferred(
            image,
            node,
            name,
            wires,
            producer,
            types,
            shapes,
            infos,
        ) == Some((infos[image].width, infos[image].height, infos[image].format)),
        !infos.contains_key(image) && shapes.contains_key(image) && shapes[image].width > 0
            && shapes[image].height > 0 && shapes[image].format != 0 && shapes[image].format
            != VX_DF_IMAGE_VIRT ==> inferred(
            image,
            node,
            name,
            wires,
            producer,
            types,
            shapes,
            infos,
        ) == Some((shapes[image].width, shapes[image].height, shapes[image].format)),
{
}

/// A virtual image of which nothing is known takes the size of what the node that
/// writes it reads, and the format that the kernel gives to its results; without a
/// size to go by there is none.
pub proof fn law_unknown_images_take_after_the_inputs(
    image: u64,
    node: u64,
    name: Seq<char>,
    wires: Seq<WireSpec>,
    producer: Map<u64, u64>,
    types: Map<u64, vx_enum>,
    shapes: Map<u64, Shape>,
    infos: Map<u64, VirtualImageInfo>,
)
    requires
        !infos.contains_key(image),
        !shapes.contains_key(image),
        producer.contains_key(image),
    ensures
        ({
            let inputs = inputs_of(refs_of(wires, producer[image]), image, types, shapes, infos);
            let got = inferred(image, node, name, wires, producer, types, shapes, infos);
            &&& inputs.width > 0 && inputs.height > 0 ==> got == Some(
                (inputs.width, inputs.height, output_format(name, inputs.formats)),
            )
            &&& inputs.width == 0 || inputs.height == 0 ==> got is None
        }),
{
}

/// The first image with a size among the parameters of a node gives the size, and
/// every image with a size gives its format, in the order of the parameters; the
/// image that is asked about gives nothing.
pub proof fn law_inputs_are_read_in_order(
    refs: Seq<u64>,
    image: u64,
    types: Map<u64, vx_enum>,
    shapes: Map<u64, Shape>,
    infos: Map<u64, VirtualImageInfo>,
    more: u64,
)
    requires
        types.contains_key(more),
        types[more] == VX_TYPE_IMAGE,
        shapes.contains_key(more),
        !infos.contains_key(more),
        shapes[more].width > 0,
        shapes[more].height > 0,
    ensures
        ({
            let before = inputs_of(refs, image, types, shapes, infos);
            let after = inputs_of(refs.push(more), image, types, shapes, infos);
            &&& more == image ==> after == before
            &&& more != image ==> after.formats == before.formats.push(shapes[more].format)
            &&& more != image && before.width == 0 ==> after.width == shapes[more].width
                && after.height == shapes[more].height
            &&& more != image && before.width > 0 ==> after.width == before.width && after.height
                == before.height
        }),
        inputs_of(Seq::empty(), image, types, shapes, infos).width == 0,
        inputs_of(Seq::empty(), image, types, shapes, infos).formats.len() == 0,
{
    assert(refs.push(more).drop_last() =~= refs);
}

/// A virtual input of known format gives the size and the format that were recorded
/// for it.
pub proof fn law_virtual_inputs_give_what_was_recorded(
    refs: Seq<u64>,
    image: u64,
    types: Map<u64, vx_enum>,
    shapes: Map<u64, Shape>,
    infos: Map<u64, VirtualImageInfo>,
    more: u64,
)
    requires
        types.contains_key(more),
        types[more] == VX_TYPE_IMAGE,
        more != image,
        infos.contains_key(more),
        infos[more].is_virtual,
        infos[more].format != 0,
        infos[more].width > 0,
    ensures
        ({
            let before = inputs_of(refs, image, types, shapes, infos);
            let after = inputs_of(refs.push(more), image, types, shapes, infos);
            &&& after.formats == before.formats.push(infos[more].format)
            &&& before.width == 0 ==> after.width == infos[more].width && after.height
                == infos[more].height
            &&& before.width > 0 ==> after.width == before.width && after.height == before.height
        }),
{
    assert(refs.push(more).drop_last() =~= refs);
}

/// An image that is given a size gets that size, the format and zeros for all its
/// bytes; one that is too large keeps the pixels it had.
pub proof fn law_allocated_images(before: Shape, width: u32, height: u32, format: u32, i: int)
    ensures
        allocated(before, width, height, format).width == width,
        allocated(before, width, height, format).height == height,
        allocated(before, width, height, format).format == format,
        ({
            let size = crate::image::image_size(width, height, format);
            let data = allocated(before, width, height, format).data;
            &&& size > 0 ==> data.len() == size && (0 <= i < size ==> data[i] == 0)
            &&& size == 0 ==> data == before.data
        }),
{
}

/// What is recorded of an image is its size and its format, and of no other image
/// anything.
pub proof fn law_sizes_are_recorded_alone(
    infos: Map<u64, VirtualImageInfo>,
    image: u64,
    width: u32,
    height: u32,
    format: u32,
    other: u64,
)
    requires
        infos.contains_key(image),
        other != image,
    ensures
        recorded(infos, image, width, height, format)[image].width == width,
        recorded(infos, image, width, height, format)[image].height == height,
        recorded(infos, image, width, height, format)[image].format == format,
        recorded(infos, image, width, height, format)[image].is_virtual == infos[image].is_virtual,
        infos.contains_key(other) ==> recorded(infos, image, width, height, format)[other]
            == infos[other],
        recorded(infos, image, width, height, format).dom() == infos.dom(),
{
    assert(recorded(infos, image, width, height, format).dom() =~= infos.dom());
}

/// Resolving a parameter leaves every other image alone, and leaves everything alone
/// where the parameter is no virtual image or an earlier one failed; where nothing
/// can be inferred, the graph is refused.
pub proof fn law_parameters_are_resolved_alone(
    s: Resolution,
    around: Surroundings,
    i: int,
    reference: u64,
    other: u64,
)
    requires
        other != reference,
    ensures
        s.shapes.contains_key(other) ==> resolved_parameter(s, around, i, reference).shapes[other]
            == s.shapes[other],
        s.infos.contains_key(other) ==> resolved_parameter(s, around, i, reference).infos[other]
            == s.infos[other],
        !(s.infos.contains_key(reference) && s.infos[reference].is_virtual) ==> resolved_parameter(
            s,
            around,
            i,
            reference,
        ) == s,
        s.status != VX_SUCCESS ==> resolved_parameter(s, around, i, reference) == s,
        resolved_parameter(s, around, i, reference).status != s.status ==> resolved_parameter(
            s,
            around,
            i,
            reference,
        ).status == VX_ERROR_NO_MEMORY || resolved_parameter(s, around, i, reference).status
            == VX_ERROR_INVALID_GRAPH,
{
}

/// The parameters of a node are those of the first wire with its number; a node
/// without a wire has none.
pub proof fn law_parameters_of_nodes(wires: Seq<WireSpec>, node: u64, k: int)
    ensures
        0 <= k < wires.len() && wires[k].id == node && (forall|j: int|
            0 <= j < k ==> (#[trigger] wires[j]).id != node) ==> refs_of(wires, node)
            == wires[k].refs,
        (forall|j: int| 0 <= j < wires.len() ==> (#[trigger] wires[j]).id != node) ==> refs_of(
            wires,
            node,
        ).len() == 0,
{
    let found = |i: int| wires[i].id == node;
    crate::search::lemma_first_where(wires.len(), found);
    assert forall|j: int| 0 <= j < wires.len() implies found(j) == ((#[trigger] wires[j]).id
        == node) by {}
}

} // verus!

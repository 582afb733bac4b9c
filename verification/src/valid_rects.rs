//! Valid rectangles: the part of an image that holds meaningful pixels, and the
//! callbacks by which kernels of the application compute it.
use vstd::prelude::*;
use crate::image::VxCImage;
use crate::records::VxMetaFormat;
use crate::refs::References;
use crate::scalar::read8;
use crate::types::{VX_SUCCESS, VX_TYPE_IMAGE, vx_enum, vx_rectangle_t, vx_status};
use std::collections::HashMap;

verus! {

broadcast use vstd::std_specs::hash::group_hash_axioms;

/// The attribute under which a validator leaves a valid rectangle callback.
pub const VX_VALID_RECT_CALLBACK: i32 = 0x81201;

/// The empty rectangle.
pub open spec fn no_rectangle() -> vx_rectangle_t {
    vx_rectangle_t { start_x: 0, start_y: 0, end_x: 0, end_y: 0 }
}

/// The valid rectangle of an image; the whole image where none was set.
pub open spec fn valid_rectangle(images: Map<u64, VxCImage>, image: u64) -> vx_rectangle_t {
    if images.contains_key(image) {
        if images[image].valid_rect == no_rectangle() {
            vx_rectangle_t {
                start_x: 0,
                start_y: 0,
                end_x: images[image].width,
                end_y: images[image].height,
            }
        } else {
            images[image].valid_rect
        }
    } else {
        no_rectangle()
    }
}

/// Reads the valid rectangle of an image.
pub fn read_image_valid_rect(images: &HashMap<u64, VxCImage>, image: u64) -> (r: vx_rectangle_t)
    ensures
        r == valid_rectangle(images@, image),
{
    match images.get(&image) {
        Some(img) => {
            let rect = img.valid_rect;
            if rect.start_x == 0 && rect.start_y == 0 && rect.end_x == 0 && rect.end_y == 0 {
                vx_rectangle_t { start_x: 0, start_y: 0, end_x: img.width, end_y: img.height }
            } else {
                rect
            }
        },
        None => vx_rectangle_t { start_x: 0, start_y: 0, end_x: 0, end_y: 0 },
    }
}

/// The images once one of them has another valid rectangle.
pub open spec fn with_valid_rectangle(
    images: Map<u64, VxCImage>,
    image: u64,
    rect: vx_rectangle_t,
) -> Map<u64, VxCImage> {
    if images.contains_key(image) {
        images.insert(image, VxCImage { valid_rect: rect, ..images[image] })
    } else {
        images
    }
}

/// Sets the valid rectangle of an image.
pub fn write_image_valid_rect(
    images: &mut HashMap<u64, VxCImage>,
    image: u64,
    rect: &vx_rectangle_t,
)
    ensures
        final(images)@ == with_valid_rectangle(old(images)@, image, *rect),
{
    if let Some(mut img) = images.remove(&image) {
        img.valid_rect = *rect;
        images.insert(image, img);
    }
    assert(images@ =~= with_valid_rectangle(old(images)@, image, *rect));
}

/// Whether a parameter is an image.
pub open spec fn is_image_parameter(
    types: Map<u64, vx_enum>,
    images: Set<u64>,
    reference: u64,
) -> bool {
    reference != 0 && (images.contains(reference) || (types.contains_key(reference)
        && types[reference] == VX_TYPE_IMAGE))
}

/// The valid rectangles of some parameters; empty for what is no image.
pub open spec fn rectangles_of(
    types: Map<u64, vx_enum>,
    images: Map<u64, VxCImage>,
    params: Seq<u64>,
) -> Seq<vx_rectangle_t> {
    params.map_values(
        |p: u64|
            if is_image_parameter(types, images.dom(), p) {
                valid_rectangle(images, p)
            } else {
                no_rectangle()
            },
    )
}

/// Collects the valid rectangles of some parameters.
pub fn collect_valid_rects(
    params: &Vec<u64>,
    refs: &References,
    images: &HashMap<u64, VxCImage>,
) -> (r: Vec<vx_rectangle_t>)
    ensures
        r@ == rectangles_of(refs.types@, images@, params@),
{
    let mut rects: Vec<vx_rectangle_t> = Vec::new();
    for i in 0..params.len()
        invariant
            rects@.len() == i,
            forall|k: int|
                0 <= k < i ==> rects@[k] == rectangles_of(refs.types@, images@, params@)[k],
    {
        let rect = if refs.is_image_ref(images, params[i]) {
            read_image_valid_rect(images, params[i])
        } else {
            vx_rectangle_t { start_x: 0, start_y: 0, end_x: 0, end_y: 0 }
        };
        rects.push(rect);
    }
    assert(rects@ =~= rectangles_of(refs.types@, images@, params@));
    rects
}

/// The callback that a validator left for an output, if any.
pub open spec fn rect_callback(attributes: Map<i32, Vec<u8>>) -> Option<u64> {
    if attributes.contains_key(VX_VALID_RECT_CALLBACK)
        && attributes[VX_VALID_RECT_CALLBACK]@.len() >= 8 && crate::scalar::number8(
        attributes[VX_VALID_RECT_CALLBACK]@,
    ) != 0 {
        Some(crate::scalar::number8(attributes[VX_VALID_RECT_CALLBACK]@) as u64)
    } else {
        None
    }
}

/// Finds the callback that a validator left for an output.
pub fn find_rect_callback(meta: &VxMetaFormat) -> (r: Option<u64>)
    ensures
        r == rect_callback(meta.attributes@),
{
    match meta.attributes.get(&VX_VALID_RECT_CALLBACK) {
        Some(bytes) => if bytes.len() >= 8 {
            let callback = read8(bytes);
            if callback == 0 {
                None
            } else {
                Some(callback)
            }
        } else {
            None
        },
        None => None,
    }
}

/// The callbacks to run after a validator, each with the position of the image it
/// is for.
pub open spec fn rect_callbacks(
    types: Map<u64, vx_enum>,
    images: Set<u64>,
    params: Seq<u64>,
    metas: Seq<VxMetaFormat>,
) -> Seq<(usize, u64)>
    decreases metas.len(),
{
    if metas.len() == 0 {
        Seq::empty()
    } else {
        let before = rect_callbacks(types, images, params, metas.drop_last());
        let i = metas.len() - 1;
        match rect_callback(metas.last().attributes@) {
            Some(callback) => if is_image_parameter(types, images, params[i]) {
                before.push((i as usize, callback))
            } else {
                before
            },
            None => before,
        }
    }
}

/// Lists the valid rectangle callbacks to run after a validator.  There are none
/// unless each parameter has its own attributes.
pub fn list_rect_callbacks(
    params: &Vec<u64>,
    metas: &Vec<VxMetaFormat>,
    refs: &References,
    images: &HashMap<u64, VxCImage>,
) -> (r: Vec<(usize, u64)>)
    ensures
        r@ == if params@.len() == metas@.len() {
            rect_callbacks(refs.types@, images@.dom(), params@, metas@)
        } else {
            Seq::empty()
        },
{
    let mut list: Vec<(usize, u64)> = Vec::new();
    if params.len() != metas.len() {
        return list;
    }
    for i in 0..metas.len()
        invariant
            params@.len() == metas@.len(),
            list@ == rect_callbacks(
                refs.types@,
                images@.dom(),
                params@,
                metas@.take(i as int),
            ),
    {
        proof {
            assert(metas@.take(i + 1).drop_last() =~= metas@.take(i as int));
            assert(metas@.take(i + 1).last() == metas@[i as int]);
        }
        if refs.is_image_ref(images, params[i]) {
            if let Some(callback) = find_rect_callback(&metas[i]) {
                list.push((i, callback));
            }
        }
    }
    assert(metas@.take(metas@.len() as int) =~= metas@);
    list
}

/// Applies what a valid rectangle callback answered: a successful one sets the
/// rectangle of its image.
pub fn apply_valid_rect_callbacks(
    images: &mut HashMap<u64, VxCImage>,
    image: u64,
    status: vx_status,
    rect: &vx_rectangle_t,
)
    ensures
        final(images)@ == if status == VX_SUCCESS {
            with_valid_rectangle(old(images)@, image, *rect)
        } else {
            old(images)@
        },
{
    if status == VX_SUCCESS {
        write_image_valid_rect(images, image, rect);
    }
}

/// A rectangle that was set is read back, unless it is the empty one at the origin.
pub proof fn law_valid_rect_round_trip(
    images: Map<u64, VxCImage>,
    image: u64,
    rect: vx_rectangle_t,
)
    requires
        images.contains_key(image),
        rect != no_rectangle(),
    ensures
        valid_rectangle(with_valid_rectangle(images, image, rect), image) == rect,
{
}

/// An image of which no rectangle was set is valid from its first pixel to its
/// last.
pub proof fn law_new_images_are_valid(images: Map<u64, VxCImage>, image: u64)
    requires
        images.contains_key(image),
        images[image].valid_rect.start_x == 0,
        images[image].valid_rect.start_y == 0,
        images[image].valid_rect.end_x == 0,
        images[image].valid_rect.end_y == 0,
    ensures
        valid_rectangle(images, image).start_x == 0,
        valid_rectangle(images, image).start_y == 0,
        valid_rectangle(images, image).end_x == images[image].width,
        valid_rectangle(images, image).end_y == images[image].height,
{
}

/// Setting the rectangle of an image changes nothing else of it, and no other image.
pub proof fn law_rectangles_are_set_alone(
    images: Map<u64, VxCImage>,
    image: u64,
    rect: vx_rectangle_t,
    other: u64,
)
    ensures
        with_valid_rectangle(images, image, rect).dom() == images.dom(),
        other != image && images.contains_key(other) ==> with_valid_rectangle(images, image, rect)[
            other
        ] == images[other],
        images.contains_key(image) ==> {
            let after = with_valid_rectangle(images, image, rect)[image];
            &&& after.valid_rect == rect
            &&& after.width == images[image].width
            &&& after.height == images[image].height
            &&& after.format == images[image].format
            &&& after.data == images[image].data
            &&& after.parent == images[image].parent
        },
{
    assert(with_valid_rectangle(images, image, rect).dom() =~= images.dom());
}

/// A node sees the rectangle of each image among its parameters at the position of
/// the image, and an empty one for anything else.
pub proof fn law_rectangles_stand_at_their_images(
    types: Map<u64, vx_enum>,
    images: Map<u64, VxCImage>,
    params: Seq<u64>,
    i: int,
)
    requires
        0 <= i < params.len(),
    ensures
        rectangles_of(types, images, params).len() == params.len(),
        params[i] != 0 && images.contains_key(params[i]) ==> rectangles_of(types, images, params)[i]
            == valid_rectangle(images, params[i]),
        params[i] == 0 ==> {
            let r = rectangles_of(types, images, params)[i];
            r.start_x == 0 && r.start_y == 0 && r.end_x == 0 && r.end_y == 0
        },
        !images.contains_key(params[i]) && types.contains_key(params[i]) && types[params[i]]
            != VX_TYPE_IMAGE ==> rectangles_of(types, images, params)[i] == no_rectangle(),
{
}

/// A callback is the address whose eight bytes a validator left, low byte first.
pub proof fn law_callback_is_the_address_left(attributes: Map<i32, Vec<u8>>, address: u64)
    requires
        attributes.contains_key(VX_VALID_RECT_CALLBACK),
        attributes[VX_VALID_RECT_CALLBACK]@ == crate::scalar::bytes8(address),
    ensures
        rect_callback(attributes) == if address == 0 {
            None
        } else {
            Some(address)
        },
{
    crate::scalar::law_long_bytes_round_trip(address);
}

/// Every image whose validator left a callback is in the list with it, at its own
/// position, and nothing else is; the list goes by position.
pub proof fn law_callbacks_are_listed(
    types: Map<u64, vx_enum>,
    images: Set<u64>,
    params: Seq<u64>,
    metas: Seq<VxMetaFormat>,
)
    requires
        params.len() == metas.len() <= usize::MAX,
    ensures
        forall|k: int|
            #![trigger rect_callbacks(types, images, params, metas)[k]]
            0 <= k < rect_callbacks(types, images, params, metas).len() ==> {
                let (i, callback) = rect_callbacks(types, images, params, metas)[k];
                &&& i < metas.len()
                &&& is_image_parameter(types, images, params[i as int])
                &&& rect_callback(metas[i as int].attributes@) == Some(callback)
            },
        forall|i: int|
            #![trigger metas[i]]
            0 <= i < metas.len() && is_image_parameter(types, images, params[i]) && rect_callback(
                metas[i].attributes@,
            ) is Some ==> rect_callbacks(types, images, params, metas).contains(
                (i as usize, rect_callback(metas[i].attributes@)->0),
            ),
        forall|j: int, k: int|
            #![trigger rect_callbacks(types, images, params, metas)[j], rect_callbacks(types, images, params, metas)[k]]
            0 <= j < k < rect_callbacks(types, images, params, metas).len() ==> rect_callbacks(
                types,
                images,
                params,
                metas,
            )[j].0 < rect_callbacks(types, images, params, metas)[k].0,
    decreases metas.len(),
{
    if metas.len() > 0 {
        let last = metas.len() - 1;
        let rest = metas.drop_last();
        let fewer = params.drop_last();
        lemma_more_parameters(types, images, params, rest);
        law_callbacks_are_listed(types, images, fewer, rest);
        let before = rect_callbacks(types, images, fewer, rest);
        let all = rect_callbacks(types, images, params, metas);
        assert(forall|k: int| 0 <= k < before.len() ==> all[k] == before[k]);
        assert forall|k: int| #![trigger all[k]] 0 <= k < all.len() implies {
            let (i, callback) = all[k];
            &&& i < metas.len()
            &&& is_image_parameter(types, images, params[i as int])
            &&& rect_callback(metas[i as int].attributes@) == Some(callback)
        } by {
            if k < before.len() {
                let i = before[k].0;
                assert(rest[i as int] == metas[i as int] && fewer[i as int] == params[i as int]);
            }
        }
        assert forall|i: int|
            #![trigger metas[i]]
            0 <= i < metas.len() && is_image_parameter(types, images, params[i]) && rect_callback(
                metas[i].attributes@,
            ) is Some implies all.contains(
            (i as usize, rect_callback(metas[i].attributes@)->0),
        ) by {
            let entry = (i as usize, rect_callback(metas[i].attributes@)->0);
            if i < last {
                assert(rest[i] == metas[i]);
                let k = choose|k: int| 0 <= k < before.len() && before[k] == entry;
                assert(all[k] == entry);
            } else {
                assert(all[before.len() as int] == entry);
            }
        }
    }
}

proof fn lemma_more_parameters(
    types: Map<u64, vx_enum>,
    images: Set<u64>,
    params: Seq<u64>,
    metas: Seq<VxMetaFormat>,
)
    requires
        metas.len() < params.len(),
    ensures
        rect_callbacks(types, images, params, metas) == rect_callbacks(
            types,
            images,
            params.drop_last(),
            metas,
        ),
    decreases metas.len(),
{
    if metas.len() > 0 {
        lemma_more_parameters(types, images, params, metas.drop_last());
        let shorter = params.drop_last();
        lemma_fewer(types, images, params, shorter, metas);
    }
}

proof fn lemma_fewer(
    types: Map<u64, vx_enum>,
    images: Set<u64>,
    a: Seq<u64>,
    b: Seq<u64>,
    metas: Seq<VxMetaFormat>,
)
    requires
        metas.len() <= a.len(),
        metas.len() <= b.len(),
        forall|i: int| 0 <= i < metas.len() ==> #[trigger] a[i] == b[i],
    ensures
        rect_callbacks(types, images, a, metas) == rect_callbacks(types, images, b, metas),
    decreases metas.len(),
{
    if metas.len() > 0 {
        lemma_fewer(types, images, a, b, metas.drop_last());
    }
}

} // verus!

//! Virtual pyramids: their size and format come from the image beside them, and
//! their levels are resized to match.
use vstd::prelude::*;
use crate::image::VxCImage;
use crate::records::VxCPyramid;
use crate::refs::References;
use crate::types::{VX_DF_IMAGE_U8, VX_DF_IMAGE_VIRT, VX_TYPE_PYRAMID, vx_df_image, vx_enum};
use crate::virtual_images::{Shape, zeroed};
use std::collections::HashMap;

verus! {

broadcast use vstd::std_specs::hash::group_hash_axioms;

/// Whether a pyramid has a size and a format.
pub open spec fn is_sized(pyramid: VxCPyramid) -> bool {
    pyramid.width > 1 && pyramid.height > 1 && pyramid.format != VX_DF_IMAGE_VIRT
}

/// Whether a reference is an image with a size.
pub open spec fn is_sized_image(
    types: Map<u64, vx_enum>,
    shapes: Map<u64, Shape>,
    reference: u64,
) -> bool {
    crate::refs::is_image(types, shapes.dom(), reference) && crate::virtual_images::shape_at(
        shapes,
        reference,
    ).width > 0 && crate::virtual_images::shape_at(shapes, reference).height > 0
}

/// Where among some parameters there is an image with a size.
pub open spec fn sized_at(
    refs: Seq<u64>,
    types: Map<u64, vx_enum>,
    shapes: Map<u64, Shape>,
    except: u64,
) -> spec_fn(int) -> bool {
    |i: int| refs[i] != except && is_sized_image(types, shapes, refs[i])
}

/// The position of the first image with a size among some parameters.
pub open spec fn first_sized_image(
    refs: Seq<u64>,
    types: Map<u64, vx_enum>,
    shapes: Map<u64, Shape>,
    except: u64,
) -> Option<nat> {
    crate::search::first_where(refs.len(), sized_at(refs, types, shapes, except))
}

/// The size and format a pyramid takes: those of the first image among the other
/// parameters of its node, but its own format where it has one.
pub open spec fn inferred_pyramid(
    refs: Seq<u64>,
    types: Map<u64, vx_enum>,
    shapes: Map<u64, Shape>,
    pyramids: Map<u64, VxCPyramid>,
    reference: u64,
) -> Option<(u32, u32, vx_df_image)> {
    if types.contains_key(reference) && types[reference] == VX_TYPE_PYRAMID
        && pyramids.contains_key(reference) && !is_sized(pyramids[reference]) {
        match first_sized_image(refs, types, shapes, reference) {
            Some(i) => {
                let image = shapes[refs[i as int]];
                let own = pyramids[reference].format;
                let format = if own != VX_DF_IMAGE_VIRT && own != 0 {
                    own
                } else if crate::virtual_images::is_known(image.format) {
                    image.format
                } else {
                    VX_DF_IMAGE_U8
                };
                Some((image.width, image.height, format))
            },
            None => None,
        }
    } else {
        None
    }
}

/// Finds the size and format that a pyramid among the parameters of a node takes.
/// `None` where it is no pyramid, has a size, or no image beside it has one.
pub fn infer_pyramid(
    params: &Vec<u64>,
    refs: &References,
    images: &HashMap<u64, VxCImage>,
    pyramids: &HashMap<u64, VxCPyramid>,
    reference: u64,
) -> (r: Option<(u32, u32, vx_df_image)>)
    ensures
        r == inferred_pyramid(
            params@,
            refs.types@,
            crate::virtual_images::shapes_of(images@),
            pyramids@,
            reference,
        ),
{
    let ghost shapes = crate::virtual_images::shapes_of(images@);
    assert(shapes.dom() =~= images@.dom());
    if !match refs.type_of(reference) {
        Some(t) => t == VX_TYPE_PYRAMID,
        None => false,
    } {
        return None;
    }
    let own: vx_df_image = match pyramids.get(&reference) {
        Some(pyramid) => if pyramid.width > 1 && pyramid.height > 1 && pyramid.format
            != VX_DF_IMAGE_VIRT {
            return None;
        } else {
            pyramid.format
        },
        None => {
            return None;
        },
    };
    let ghost found = sized_at(params@, refs.types@, shapes, reference);
    for i in 0..params.len()
        invariant
            shapes == crate::virtual_images::shapes_of(images@),
            shapes.dom() == images@.dom(),
            found == sized_at(params@, refs.types@, shapes, reference),
            forall|k: int| 0 <= k < i ==> !#[trigger] found(k),
            refs.types@.contains_key(reference),
            refs.types@[reference] == VX_TYPE_PYRAMID,
            pyramids@.contains_key(reference),
            !is_sized(pyramids@[reference]),
            own == pyramids@[reference].format,
    {
        let other = params[i];
        if other != reference && refs.is_image_reference(images, other) {
            if let Some(image) = images.get(&other) {
                if image.width > 0 && image.height > 0 {
                    proof {
                        assert(found(i as int));
                        crate::search::lemma_is_first(params@.len(), found, i as nat);
                    }
                    let format: vx_df_image = if own != VX_DF_IMAGE_VIRT && own != 0 {
                        own
                    } else if image.format != 0 && image.format != VX_DF_IMAGE_VIRT {
                        image.format
                    } else {
                        VX_DF_IMAGE_U8
                    };
                    return Some((image.width, image.height, format));
                }
            }
        }
        assert(!found(i as int));
    }
    proof {
        crate::search::lemma_is_nowhere(params@.len(), found);
    }
    None
}

/// The images once one level has its size: a level of another size gets the size,
/// the format and empty pixels.
pub open spec fn with_level(
    shapes: Map<u64, Shape>,
    level: u64,
    size: (u32, u32),
    format: vx_df_image,
) -> Map<u64, Shape> {
    if shapes.contains_key(level) && (shapes[level].width != size.0 || shapes[level].height
        != size.1) {
        shapes.insert(
            level,
            crate::virtual_images::allocated(shapes[level], size.0, size.1, format),
        )
    } else {
        shapes
    }
}

/// The images once the first `n` levels have their sizes.
pub open spec fn with_levels(
    shapes: Map<u64, Shape>,
    levels: Seq<u64>,
    sizes: Seq<(u32, u32)>,
    format: vx_df_image,
    n: nat,
) -> Map<u64, Shape>
    decreases n,
{
    if n == 0 {
        shapes
    } else {
        with_level(
            with_levels(shapes, levels, sizes, format, (n - 1) as nat),
            levels[n - 1],
            sizes[n - 1],
            format,
        )
    }
}

fn resize_level(
    images: &mut HashMap<u64, VxCImage>,
    level: u64,
    size: (u32, u32),
    format: vx_df_image,
)
    ensures
        crate::virtual_images::shapes_of(final(images)@) == with_level(
            crate::virtual_images::shapes_of(old(images)@),
            level,
            size,
            format,
        ),
        crate::virtual_images::same_but_shapes(final(images)@, old(images)@),
{
    let ghost before = crate::virtual_images::shapes_of(images@);
    if let Some(mut image) = images.remove(&level) {
        if image.width != size.0 || image.height != size.1 {
            image.width = size.0;
            image.height = size.1;
            image.format = format;
            let bytes = VxCImage::calculate_size(size.0, size.1, format);
            if bytes > 0 {
                image.data = zeroed(bytes);
            }
        }
        images.insert(level, image);
    }
    proof {
        assert(crate::virtual_images::shapes_of(images@) =~= with_level(
            before,
            level,
            size,
            format,
        ));
        assert(images@.dom() =~= old(images)@.dom());
    }
}

/// Gives a pyramid its size and format and resizes its levels.  `sizes` holds the
/// size of each level.
pub fn resize_pyramid(
    images: &mut HashMap<u64, VxCImage>,
    pyramids: &mut HashMap<u64, VxCPyramid>,
    reference: u64,
    width: u32,
    height: u32,
    format: vx_df_image,
    sizes: &Vec<(u32, u32)>,
)
    requires
        old(pyramids)@.contains_key(reference),
        sizes@.len() == old(pyramids)@[reference].levels@.len(),
    ensures
        final(pyramids)@ == old(pyramids)@.insert(
            reference,
            VxCPyramid { width, height, format, ..old(pyramids)@[reference] },
        ),
        crate::virtual_images::shapes_of(final(images)@) == with_levels(
            crate::virtual_images::shapes_of(old(images)@),
            old(pyramids)@[reference].levels@,
            sizes@,
            format,
            sizes@.len(),
        ),
        crate::virtual_images::same_but_shapes(final(images)@, old(images)@),
{
    let ghost images0 = images@;
    let ghost shapes = crate::virtual_images::shapes_of(images@);
    if let Some(mut pyramid) = pyramids.remove(&reference) {
        pyramid.width = width;
        pyramid.height = height;
        pyramid.format = format;
        let ghost levels = pyramid.levels@;
        for i in 0..sizes.len()
            invariant
                sizes@.len() == levels.len(),
                levels == pyramid.levels@,
                shapes == crate::virtual_images::shapes_of(images0),
                crate::virtual_images::shapes_of(images@) == with_levels(
                    shapes,
                    levels,
                    sizes@,
                    format,
                    i as nat,
                ),
                crate::virtual_images::same_but_shapes(images@, images0),
        {
            let ghost images1 = images@;
            resize_level(images, pyramid.levels[i], sizes[i], format);
            proof {
                crate::virtual_images::lemma_same_but_shapes_chain(images@, images1, images0);
            }
        }
        pyramids.insert(reference, pyramid);
    }
    assert(pyramids@ =~= old(pyramids)@.insert(
        reference,
        VxCPyramid { width, height, format, ..old(pyramids)@[reference] },
    ));
}

/// A pyramid without a size takes the size of the first image with one beside it,
/// keeps a format of its own, and otherwise takes the format of the image.
pub proof fn law_pyramids_take_after_the_image(
    refs: Seq<u64>,
    types: Map<u64, vx_enum>,
    shapes: Map<u64, Shape>,
    pyramids: Map<u64, VxCPyramid>,
    reference: u64,
    i: nat,
)
    requires
        types.contains_key(reference),
        types[reference] == VX_TYPE_PYRAMID,
        pyramids.contains_key(reference),
        pyramids[reference].width == 0,
        first_sized_image(refs, types, shapes, reference) == Some(i),
    ensures
        ({
            let image = shapes[refs[i as int]];
            let own = pyramids[reference].format;
            let got = inferred_pyramid(refs, types, shapes, pyramids, reference);
            let (width, height, format) = got->0;
            &&& got is Some
            &&& width == image.width
            &&& height == image.height
            &&& own != 0 && own != VX_DF_IMAGE_VIRT ==> format == own
            &&& (own == 0 || own == VX_DF_IMAGE_VIRT) && image.format != 0 && image.format
                != VX_DF_IMAGE_VIRT ==> format == image.format
            &&& (own == 0 || own == VX_DF_IMAGE_VIRT) && (image.format == 0 || image.format
                == VX_DF_IMAGE_VIRT) ==> format == VX_DF_IMAGE_U8
        }),
{
}

/// The image that a pyramid goes by is another parameter, has a size, and no
/// parameter before it is such an image.
pub proof fn law_first_sized_image(
    refs: Seq<u64>,
    types: Map<u64, vx_enum>,
    shapes: Map<u64, Shape>,
    except: u64,
)
    ensures
        match first_sized_image(refs, types, shapes, except) {
            Some(i) => {
                &&& i < refs.len()
                &&& refs[i as int] != except
                &&& shapes.contains_key(refs[i as int])
                &&& shapes[refs[i as int]].width > 0
                &&& shapes[refs[i as int]].height > 0
                &&& forall|j: int|
                    0 <= j < i ==> #[trigger] refs[j] == except || !is_sized_image(
                        types,
                        shapes,
                        refs[j],
                    )
            },
            None => forall|j: int|
                0 <= j < refs.len() ==> #[trigger] refs[j] == except || !is_sized_image(
                    types,
                    shapes,
                    refs[j],
                ),
        },
{
    let sized = sized_at(refs, types, shapes, except);
    crate::search::lemma_first_where(refs.len(), sized);
    match first_sized_image(refs, types, shapes, except) {
        Some(i) => {
            assert(sized(i as int));
            assert forall|j: int| 0 <= j < i implies #[trigger] refs[j] == except
                || !is_sized_image(types, shapes, refs[j]) by {
                assert(!sized(j));
            }
        },
        None => {
            assert forall|j: int| 0 <= j < refs.len() implies #[trigger] refs[j] == except
                || !is_sized_image(types, shapes, refs[j]) by {
                assert(!sized(j));
            }
        },
    }
}

/// A level of another size gets the size that belongs to it; one that has it keeps
/// its pixels, and no other image changes.
pub proof fn law_levels_get_their_size(
    shapes: Map<u64, Shape>,
    level: u64,
    size: (u32, u32),
    format: vx_df_image,
    other: u64,
)
    requires
        shapes.contains_key(level),
        other != level,
    ensures
        with_level(shapes, level, size, format)[level].width == size.0,
        with_level(shapes, level, size, format)[level].height == size.1,
        shapes[level].width == size.0 && shapes[level].height == size.1 ==> with_level(
            shapes,
            level,
            size,
            format,
        ) == shapes,
        shapes[level].width != size.0 || shapes[level].height != size.1 ==> with_level(
            shapes,
            level,
            size,
            format,
        )[level].format == format,
        shapes.contains_key(other) ==> with_level(shapes, level, size, format)[other]
            == shapes[other],
{
}

/// Every level of a pyramid gets the size that stands at its place, where its image
/// is known and the levels differ; the format goes over with the size, and what is
/// no level stays.
pub proof fn law_every_level_gets_its_size(
    shapes: Map<u64, Shape>,
    levels: Seq<u64>,
    sizes: Seq<(u32, u32)>,
    format: vx_df_image,
    n: nat,
    k: int,
    other: u64,
)
    requires
        n <= levels.len(),
        levels.no_duplicates(),
        0 <= k < n,
        shapes.contains_key(levels[k]),
        !levels.contains(other),
    ensures
        with_levels(shapes, levels, sizes, format, n).contains_key(levels[k]),
        with_levels(shapes, levels, sizes, format, n)[levels[k]].width == sizes[k].0,
        with_levels(shapes, levels, sizes, format, n)[levels[k]].height == sizes[k].1,
        with_levels(shapes, levels, sizes, format, n).contains_key(other) == shapes.contains_key(
            other,
        ),
        with_levels(shapes, levels, sizes, format, n)[other] == shapes[other],
    decreases n,
{
    lemma_levels_before(shapes, levels, sizes, format, (n - 1) as nat, levels[n - 1]);
    lemma_levels_before(shapes, levels, sizes, format, n, other);
    if k < n - 1 {
        law_every_level_gets_its_size(shapes, levels, sizes, format, (n - 1) as nat, k, other);
        assert(levels[k] != levels[n - 1]);
    }
}

proof fn lemma_levels_before(
    shapes: Map<u64, Shape>,
    levels: Seq<u64>,
    sizes: Seq<(u32, u32)>,
    format: vx_df_image,
    n: nat,
    other: u64,
)
    requires
        n <= levels.len(),
        forall|j: int| 0 <= j < n ==> #[trigger] levels[j] != other,
    ensures
        with_levels(shapes, levels, sizes, format, n).contains_key(other) == shapes.contains_key(
            other,
        ),
        with_levels(shapes, levels, sizes, format, n)[other] == shapes[other],
    decreases n,
{
    if n > 0 {
        lemma_levels_before(shapes, levels, sizes, format, (n - 1) as nat, other);
    }
}

/// An image has a size where it has at least one column and one row.
pub proof fn law_sized_images(types: Map<u64, vx_enum>, shapes: Map<u64, Shape>, r: u64)
    ensures
        is_sized_image(types, shapes, r) ==> crate::refs::is_image(types, shapes.dom(), r),
        shapes.contains_key(r) && (shapes[r].width == 0 || shapes[r].height == 0)
            ==> !is_sized_image(types, shapes, r),
        crate::refs::is_image(types, shapes.dom(), r) && shapes.contains_key(r) && shapes[r].width
            > 0 && shapes[r].height > 0 ==> is_sized_image(types, shapes, r),
        !shapes.contains_key(r) ==> !is_sized_image(types, shapes, r),
{
}

} // verus!

use openvx_core::image::VxCImage;
use openvx_core::immediate::vxuTableLookup;
use openvx_core::lookups::table_lookup_impl;
use openvx_core::pixels::{
    fill_tiles, paint, vxFormatImagePatchAddress1d, vxFormatImagePatchAddress2d,
    vxSetImagePixelValues,
};
use openvx_core::records::VxCLut;
use openvx_core::refs::References;
use openvx_core::scalar::VxCScalar;
use openvx_core::scalars::{vxCopyScalar, vxCopyScalarWithSize, vxCreateScalarWithSize};
use openvx_core::types::{
    vx_imagepatch_addressing_t, vx_pixel_value_t, vx_rectangle_t, VX_DF_IMAGE_IYUV,
    VX_DF_IMAGE_NV12, VX_DF_IMAGE_NV21, VX_DF_IMAGE_RGB, VX_DF_IMAGE_S16, VX_DF_IMAGE_U16,
    VX_DF_IMAGE_U32, VX_DF_IMAGE_U8, VX_DF_IMAGE_UYVY, VX_DF_IMAGE_YUV4, VX_DF_IMAGE_YUYV,
    VX_ERROR_INVALID_FORMAT, VX_ERROR_INVALID_PARAMETERS, VX_ERROR_INVALID_REFERENCE,
    VX_ERROR_NOT_IMPLEMENTED, VX_MEMORY_TYPE_HOST, VX_READ_AND_WRITE, VX_READ_ONLY, VX_SUCCESS,
    VX_TYPE_INT16, VX_TYPE_INT32, VX_TYPE_SCALAR, VX_TYPE_UINT8, VX_WRITE_ONLY,
};
use std::collections::HashMap;

fn pixel(b0: u8, b1: u8, b2: u8, b3: u8) -> vx_pixel_value_t {
    vx_pixel_value_t { b0, b1, b2, b3, reserved_1: 0, reserved_2: 0, reserved_3: 0 }
}

fn image(width: u32, height: u32, format: u32, data: Vec<u8>) -> VxCImage {
    VxCImage {
        width,
        height,
        format,
        is_virtual: false,
        context: 1,
        data,
        parent: None,
        is_external_memory: false,
        external_ptrs: vec![],
        external_strides: vec![],
        external_stride_x: vec![],
        external_dim_x: vec![],
        external_dim_y: vec![],
        roi_offsets: vec![],
        is_from_handle: false,
        channel_plane_offset: 0,
        parent_plane_index: None,
        valid_rect: vx_rectangle_t { start_x: 0, start_y: 0, end_x: width, end_y: height },
    }
}

fn painted(format: u32, w: u32, h: u32, size: usize) -> Vec<u8> {
    let mut data = vec![0; size];
    paint(&mut data, format, w, h, pixel(1, 2, 3, 4));
    data
}

#[test]
fn tiles_fill_whole_copies_only() {
    let mut data: Vec<u8> = vec![9; 8];
    fill_tiles(&mut data, 1, 8, &vec![1, 2, 3]);
    assert_eq!(data, vec![9, 1, 2, 3, 1, 2, 3, 9]);
}

#[test]
fn packed_formats_are_painted_pixel_by_pixel() {
    assert_eq!(painted(VX_DF_IMAGE_U8, 3, 1, 3), vec![1, 1, 1]);
    assert_eq!(painted(VX_DF_IMAGE_U16, 2, 1, 5), vec![1, 2, 1, 2, 0]);
    assert_eq!(painted(VX_DF_IMAGE_U32, 1, 1, 4), vec![1, 2, 3, 4]);
    assert_eq!(painted(VX_DF_IMAGE_RGB, 2, 1, 6), vec![1, 2, 3, 1, 2, 3]);
    assert_eq!(painted(VX_DF_IMAGE_UYVY, 2, 1, 4), vec![2, 1, 3, 1]);
    assert_eq!(painted(VX_DF_IMAGE_YUYV, 2, 1, 4), vec![1, 2, 1, 3]);
    assert_eq!(painted(77, 2, 1, 2), vec![1, 1]);
}

#[test]
fn planar_formats_are_painted_plane_by_plane() {
    assert_eq!(painted(VX_DF_IMAGE_NV12, 2, 2, 6), vec![1, 1, 1, 1, 2, 3]);
    assert_eq!(painted(VX_DF_IMAGE_NV21, 2, 2, 6), vec![1, 1, 1, 1, 3, 2]);
    assert_eq!(painted(VX_DF_IMAGE_IYUV, 2, 2, 6), vec![1, 1, 1, 1, 2, 3]);
    assert_eq!(painted(VX_DF_IMAGE_YUV4, 1, 2, 6), vec![1, 1, 2, 2, 3, 3]);
}

#[test]
fn planar_images_that_are_too_short_stay() {
    assert_eq!(painted(VX_DF_IMAGE_NV12, 2, 2, 3), vec![0, 0, 0]);
    assert_eq!(painted(VX_DF_IMAGE_IYUV, 2, 2, 5), vec![0; 5]);
    assert_eq!(painted(VX_DF_IMAGE_YUV4, 2, 1, 5), vec![0; 5]);
}

#[test]
fn the_last_value_counts() {
    let mut twice = vec![0; 6];
    paint(&mut twice, VX_DF_IMAGE_NV12, 2, 2, pixel(9, 8, 7, 6));
    paint(&mut twice, VX_DF_IMAGE_NV12, 2, 2, pixel(1, 2, 3, 4));
    assert_eq!(twice, painted(VX_DF_IMAGE_NV12, 2, 2, 6));
}

#[test]
fn pixel_values_are_set() {
    let mut images = HashMap::new();
    images.insert(5, image(2, 2, VX_DF_IMAGE_U8, vec![0; 4]));
    let mut memory: Vec<Vec<u8>> = vec![];
    assert_eq!(
        vxSetImagePixelValues(&mut images, &mut memory, 5, Some(pixel(7, 0, 0, 0))),
        VX_SUCCESS
    );
    assert_eq!(images[&5].data, vec![7; 4]);
    assert_eq!(
        vxSetImagePixelValues(&mut images, &mut memory, 0, Some(pixel(7, 0, 0, 0))),
        VX_ERROR_INVALID_REFERENCE
    );
    assert_eq!(
        vxSetImagePixelValues(&mut images, &mut memory, 5, None),
        VX_ERROR_INVALID_PARAMETERS
    );
}

#[test]
fn pixel_values_are_set_in_the_callers_memory() {
    let mut img = image(2, 2, VX_DF_IMAGE_NV12, vec![]);
    img.is_external_memory = true;
    img.external_ptrs = vec![100, 200];
    img.external_strides = vec![4, 3];
    img.external_stride_x = vec![2, 0];
    let mut images = HashMap::new();
    images.insert(5, img);
    let mut memory: Vec<Vec<u8>> = vec![vec![0; 8], vec![9; 3]];
    assert_eq!(
        vxSetImagePixelValues(&mut images, &mut memory, 5, Some(pixel(1, 2, 3, 4))),
        VX_SUCCESS
    );
    assert_eq!(memory[0], vec![1, 0, 1, 0, 1, 0, 1, 0]);
    assert_eq!(memory[1], vec![2, 3, 9]);
    images.get_mut(&5).unwrap().external_ptrs = vec![0];
    assert_eq!(
        vxSetImagePixelValues(&mut images, &mut memory, 5, Some(pixel(9, 9, 9, 9))),
        VX_SUCCESS
    );
    assert_eq!(memory[0], vec![1, 0, 1, 0, 1, 0, 1, 0]);
}

fn painted_outside(format: u32, w: u32, h: u32, strides: (i32, i32), size: usize) -> Vec<u8> {
    let mut img = image(w, h, format, vec![]);
    img.is_external_memory = true;
    img.external_ptrs = vec![100];
    img.external_strides = vec![strides.1];
    img.external_stride_x = vec![strides.0];
    let mut images = HashMap::new();
    images.insert(5, img);
    let mut memory: Vec<Vec<u8>> = vec![vec![9; size]];
    let status = vxSetImagePixelValues(&mut images, &mut memory, 5, Some(pixel(1, 2, 3, 4)));
    assert_eq!(status, VX_SUCCESS);
    memory.remove(0)
}

#[test]
fn every_byte_of_a_pixel_is_set_in_the_callers_memory() {
    assert_eq!(
        painted_outside(VX_DF_IMAGE_RGB, 2, 2, (3, 7), 14),
        vec![1, 2, 3, 1, 2, 3, 9, 1, 2, 3, 1, 2, 3, 9]
    );
    assert_eq!(painted_outside(VX_DF_IMAGE_U16, 2, 1, (3, 6), 6), vec![1, 2, 9, 1, 2, 9]);
    assert_eq!(painted_outside(VX_DF_IMAGE_S16, 1, 2, (2, 3), 6), vec![1, 2, 9, 1, 2, 9]);
    assert_eq!(painted_outside(VX_DF_IMAGE_U32, 1, 1, (4, 4), 5), vec![1, 2, 3, 4, 9]);
    assert_eq!(
        painted_outside(VX_DF_IMAGE_UYVY, 3, 1, (2, 6), 6),
        vec![2, 1, 3, 1, 2, 1]
    );
    assert_eq!(
        painted_outside(VX_DF_IMAGE_YUYV, 2, 2, (2, 5), 9),
        vec![1, 2, 1, 3, 9, 1, 2, 1, 3]
    );
    assert_eq!(painted_outside(VX_DF_IMAGE_U8, 2, 2, (1, 3), 5), vec![1, 1, 9, 1, 1]);
}

#[test]
fn colour_pairs_are_set_in_the_callers_memory() {
    let mut img = image(4, 2, VX_DF_IMAGE_NV21, vec![]);
    img.is_external_memory = true;
    img.external_ptrs = vec![100, 200];
    let mut images = HashMap::new();
    images.insert(5, img);
    let mut memory: Vec<Vec<u8>> = vec![vec![9; 8], vec![9; 5]];
    assert_eq!(
        vxSetImagePixelValues(&mut images, &mut memory, 5, Some(pixel(1, 2, 3, 4))),
        VX_SUCCESS
    );
    assert_eq!(memory[0], vec![1; 8]);
    assert_eq!(memory[1], vec![3, 2, 3, 2, 9]);
}

fn layout(dim_x: u32, sx: i32, sy: i32, kx: u32, ky: u32) -> vx_imagepatch_addressing_t {
    vx_imagepatch_addressing_t {
        dim_x,
        dim_y: 9,
        stride_x: sx,
        stride_y: sy,
        scale_x: kx,
        scale_y: ky,
        step_x: 1,
        step_y: 1,
    }
}

#[test]
fn pixels_are_found_by_column_and_row() {
    assert_eq!(vxFormatImagePatchAddress2d(1000, 3, 2, Some(layout(8, 2, 20, 1024, 1024))), 1046);
    assert_eq!(vxFormatImagePatchAddress2d(1000, 3, 2, Some(layout(8, 2, 20, 512, 512))), 1022);
    assert_eq!(vxFormatImagePatchAddress2d(1000, 0, 2, Some(layout(8, 2, -20, 1024, 1024))), 960);
    assert_eq!(vxFormatImagePatchAddress2d(0, 3, 2, Some(layout(8, 2, 20, 1024, 1024))), 0);
    assert_eq!(vxFormatImagePatchAddress2d(1000, 3, 2, None), 0);
}

#[test]
fn pixels_are_found_by_index() {
    assert_eq!(vxFormatImagePatchAddress1d(1000, 19, Some(layout(8, 2, 20, 1024, 1024))), 1046);
    assert_eq!(vxFormatImagePatchAddress1d(1000, 19, Some(layout(8, 2, 20, 0, 0))), 1046);
    assert_eq!(vxFormatImagePatchAddress1d(1000, 3, Some(layout(0, 2, 20, 0, 0))), 1060);
    assert_eq!(vxFormatImagePatchAddress1d(0, 3, Some(layout(0, 2, 20, 0, 0))), 0);
    assert_eq!(vxFormatImagePatchAddress1d(1000, 3, None), 0);
}

fn byte_table(offset: u32) -> VxCLut {
    let data: Vec<u8> = (0..256u32).map(|i| (255 - i) as u8).collect();
    VxCLut { data_type: VX_TYPE_UINT8, count: 256, offset, data }
}

#[test]
fn bytes_are_looked_up() {
    let mut images = HashMap::new();
    images.insert(1, image(2, 1, VX_DF_IMAGE_U8, vec![0, 200]));
    images.insert(2, image(2, 1, VX_DF_IMAGE_U8, vec![9, 9]));
    let mut luts = HashMap::new();
    luts.insert(3, byte_table(50));
    assert_eq!(table_lookup_impl(&mut images, &luts, 1, 3, 2), VX_SUCCESS);
    assert_eq!(images[&2].data, vec![255, 55]);
}

#[test]
fn wide_pixels_are_moved_by_the_offset() {
    let mut images = HashMap::new();
    images.insert(1, image(3, 1, VX_DF_IMAGE_S16, vec![0xFE, 0xFF, 1, 0, 0, 1]));
    images.insert(2, image(3, 1, VX_DF_IMAGE_U8, vec![9, 9, 9]));
    let mut luts = HashMap::new();
    luts.insert(3, byte_table(2));
    assert_eq!(table_lookup_impl(&mut images, &luts, 1, 3, 2), VX_SUCCESS);
    assert_eq!(images[&2].data, vec![255, 252, 0]);
}

#[test]
fn wide_tables_give_wide_pixels_or_bytes() {
    let mut images = HashMap::new();
    images.insert(1, image(3, 1, VX_DF_IMAGE_U8, vec![0, 1, 2]));
    images.insert(2, image(3, 1, VX_DF_IMAGE_S16, vec![9; 6]));
    images.insert(4, image(3, 1, VX_DF_IMAGE_U8, vec![9; 3]));
    let mut luts = HashMap::new();
    let lut = VxCLut { data_type: VX_TYPE_INT16, count: 2, offset: 0, data: vec![0, 1, 0xFF, 0xFF] };
    luts.insert(3, lut);
    assert_eq!(table_lookup_impl(&mut images, &luts, 1, 3, 2), VX_SUCCESS);
    assert_eq!(images[&2].data, vec![0, 1, 0xFF, 0xFF, 9, 9]);
    assert_eq!(vxuTableLookup(&mut images, &luts, 7, 1, 3, 4), VX_SUCCESS);
    assert_eq!(images[&4].data, vec![255, 0, 9]);
    assert_eq!(vxuTableLookup(&mut images, &luts, 0, 1, 3, 4), VX_ERROR_INVALID_REFERENCE);
}

#[test]
fn tables_of_other_types_are_refused() {
    let mut images = HashMap::new();
    images.insert(1, image(1, 1, VX_DF_IMAGE_U8, vec![0]));
    images.insert(2, image(1, 1, VX_DF_IMAGE_U8, vec![9]));
    let mut luts = HashMap::new();
    luts.insert(3, VxCLut { data_type: VX_TYPE_INT32, count: 1, offset: 0, data: vec![0; 4] });
    assert_eq!(table_lookup_impl(&mut images, &luts, 1, 3, 2), VX_ERROR_INVALID_FORMAT);
    assert_eq!(table_lookup_impl(&mut images, &luts, 0, 3, 2), VX_ERROR_INVALID_REFERENCE);
    assert_eq!(images[&2].data, vec![9]);
}

#[test]
fn scalars_are_created_with_their_bytes() {
    let mut scalars: HashMap<u64, VxCScalar> = HashMap::new();
    let mut refs = References::new();
    let bytes = vec![1, 2, 3, 4, 5];
    assert_eq!(
        vxCreateScalarWithSize(&mut scalars, &mut refs, 9, 6, Some(&bytes), 3, 4, 77),
        77
    );
    assert_eq!(scalars[&77].data, vec![1, 2, 3]);
    assert_eq!(refs.type_of(77), Some(VX_TYPE_SCALAR));
    assert_eq!(
        vxCreateScalarWithSize(&mut scalars, &mut refs, 9, 6, Some(&bytes), 0, 4, 78),
        78
    );
    assert_eq!(scalars[&78].data, vec![1, 2, 3, 4]);
    assert_eq!(vxCreateScalarWithSize(&mut scalars, &mut refs, 0, 6, Some(&bytes), 3, 4, 79), 0);
    assert_eq!(vxCreateScalarWithSize(&mut scalars, &mut refs, 9, 6, None, 3, 4, 79), 0);
    assert_eq!(scalars.len(), 2);
}

#[test]
fn scalars_round_trip() {
    let mut scalars: HashMap<u64, VxCScalar> = HashMap::new();
    scalars.insert(5, VxCScalar { data_type: 6, data: vec![0; 4], context: 9 });
    let mut user = vec![1, 2, 3, 4];
    let host = VX_MEMORY_TYPE_HOST;
    assert_eq!(
        vxCopyScalarWithSize(&mut scalars, 5, 2, 1, &mut user, VX_WRITE_ONLY, host),
        VX_SUCCESS
    );
    assert_eq!(scalars[&5].data, vec![1, 2, 0, 0]);
    let mut back = vec![9; 5];
    assert_eq!(vxCopyScalar(&mut scalars, 5, 1, &mut back, VX_READ_ONLY, host), VX_SUCCESS);
    assert_eq!(back, vec![1, 2, 0, 0, 9]);
    let mut short = vec![7; 4];
    assert_eq!(
        vxCopyScalarWithSize(&mut scalars, 5, 100, 1, &mut short, VX_READ_AND_WRITE, 0),
        VX_SUCCESS
    );
    assert_eq!(short, vec![1, 2, 0, 0]);
    assert_eq!(scalars[&5].data, vec![1, 2, 0, 0]);
}

#[test]
fn copies_of_scalars_are_checked() {
    let mut scalars: HashMap<u64, VxCScalar> = HashMap::new();
    scalars.insert(5, VxCScalar { data_type: 6, data: vec![0; 4], context: 9 });
    let mut user = vec![0; 4];
    let host = VX_MEMORY_TYPE_HOST;
    assert_eq!(
        vxCopyScalar(&mut scalars, 0, 1, &mut user, VX_READ_ONLY, host),
        VX_ERROR_INVALID_REFERENCE
    );
    assert_eq!(
        vxCopyScalar(&mut scalars, 5, 0, &mut user, VX_READ_ONLY, host),
        VX_ERROR_INVALID_PARAMETERS
    );
    assert_eq!(
        vxCopyScalar(&mut scalars, 5, 1, &mut user, VX_READ_ONLY, 0),
        VX_ERROR_NOT_IMPLEMENTED
    );
    assert_eq!(
        vxCopyScalarWithSize(&mut scalars, 5, 0, 1, &mut user, VX_READ_ONLY, 3),
        VX_ERROR_NOT_IMPLEMENTED
    );
    assert_eq!(
        vxCopyScalarWithSize(&mut scalars, 5, 0, 1, &mut user, 9, host),
        VX_ERROR_INVALID_PARAMETERS
    );
    assert_eq!(
        vxCopyScalarWithSize(&mut scalars, 0, 0, 1, &mut user, 9, host),
        VX_ERROR_INVALID_REFERENCE
    );
}

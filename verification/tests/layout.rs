use openvx_core::image::VxCImage;
use openvx_core::scalar::{overlay, read4, read8, split4, split8, to_bits32, to_signed32, VxCScalar};
use openvx_core::text::{characters, contains_text};
use openvx_core::types::{
    VX_DF_IMAGE_IYUV, VX_DF_IMAGE_NV12, VX_DF_IMAGE_RGB, VX_DF_IMAGE_RGBX, VX_DF_IMAGE_S16,
    VX_DF_IMAGE_U8, VX_DF_IMAGE_UYVY, VX_DF_IMAGE_YUV4,
};

#[test]
fn pixels_take_the_bytes_of_their_format() {
    assert_eq!(VxCImage::bytes_per_pixel(VX_DF_IMAGE_U8), 1);
    assert_eq!(VxCImage::bytes_per_pixel(VX_DF_IMAGE_S16), 2);
    assert_eq!(VxCImage::bytes_per_pixel(VX_DF_IMAGE_UYVY), 2);
    assert_eq!(VxCImage::bytes_per_pixel(VX_DF_IMAGE_RGB), 3);
    assert_eq!(VxCImage::bytes_per_pixel(VX_DF_IMAGE_RGBX), 4);
    assert_eq!(VxCImage::bytes_per_pixel(12345), 1);
}

#[test]
fn channels_of_a_format() {
    assert_eq!(VxCImage::channels(VX_DF_IMAGE_U8), 1);
    assert_eq!(VxCImage::channels(VX_DF_IMAGE_RGB), 3);
    assert_eq!(VxCImage::channels(VX_DF_IMAGE_RGBX), 4);
    assert_eq!(VxCImage::channels(VX_DF_IMAGE_NV12), 3);
}

#[test]
fn planes_of_a_format() {
    assert!(VxCImage::is_planar_format(VX_DF_IMAGE_NV12));
    assert!(!VxCImage::is_planar_format(VX_DF_IMAGE_RGB));
    assert_eq!(VxCImage::num_planes(VX_DF_IMAGE_NV12), 2);
    assert_eq!(VxCImage::num_planes(VX_DF_IMAGE_IYUV), 3);
    assert_eq!(VxCImage::num_planes(VX_DF_IMAGE_YUV4), 3);
    assert_eq!(VxCImage::num_planes(VX_DF_IMAGE_RGB), 1);
}

#[test]
fn planes_lie_back_to_back() {
    assert_eq!(VxCImage::plane_size(5, 3, VX_DF_IMAGE_IYUV, 0), 15);
    assert_eq!(VxCImage::plane_size(5, 3, VX_DF_IMAGE_IYUV, 1), 6);
    assert_eq!(VxCImage::plane_size(5, 3, VX_DF_IMAGE_IYUV, 2), 6);
    assert_eq!(VxCImage::plane_size(5, 3, VX_DF_IMAGE_IYUV, 3), 0);
    assert_eq!(VxCImage::plane_offset(5, 3, VX_DF_IMAGE_IYUV, 0), 0);
    assert_eq!(VxCImage::plane_offset(5, 3, VX_DF_IMAGE_IYUV, 1), 15);
    assert_eq!(VxCImage::plane_offset(5, 3, VX_DF_IMAGE_IYUV, 2), 21);
    assert_eq!(VxCImage::calculate_size(5, 3, VX_DF_IMAGE_IYUV), 27);
}

#[test]
fn rows_fill_their_plane() {
    let (_, rows) = VxCImage::plane_dimensions(6, 4, VX_DF_IMAGE_NV12, 1);
    assert_eq!(rows, 2);
    assert_eq!(VxCImage::plane_row_stride(6, 4, VX_DF_IMAGE_NV12, 1), 6);
    assert_eq!(VxCImage::plane_stride_x(VX_DF_IMAGE_NV12, 1), 2);
    assert_eq!(VxCImage::plane_size(6, 4, VX_DF_IMAGE_NV12, 1), 12);
    assert_eq!(VxCImage::plane_dimensions(5, 3, VX_DF_IMAGE_IYUV, 2), (3, 2));
    assert_eq!(VxCImage::plane_dimensions(5, 3, VX_DF_IMAGE_NV12, 2), (0, 0));
}

#[test]
fn images_over_the_limit_take_nothing() {
    assert_eq!(VxCImage::calculate_size(32768, 32768, VX_DF_IMAGE_U8), 1073741824);
    assert_eq!(VxCImage::calculate_size(32768, 32769, VX_DF_IMAGE_U8), 0);
    assert_eq!(VxCImage::calculate_size(0, 7, VX_DF_IMAGE_RGB), 0);
    assert_eq!(VxCImage::calculate_size(3, 7, VX_DF_IMAGE_RGB), 63);
}

#[test]
fn bytes_round_trip() {
    let b = split4(0x12345678);
    assert_eq!(b, vec![0x78, 0x56, 0x34, 0x12]);
    assert_eq!(read4(b[0], b[1], b[2], b[3]), 0x12345678);
    let l = split8(0x0102030405060708);
    assert_eq!(l, vec![8, 7, 6, 5, 4, 3, 2, 1]);
    assert_eq!(read8(&l), 0x0102030405060708);
}

#[test]
fn bit_patterns_round_trip() {
    assert_eq!(to_bits32(-1), 0xFFFF_FFFF);
    assert_eq!(to_signed32(0x8000_0000), i32::MIN);
    assert_eq!(to_signed32(to_bits32(-77)), -77);
}

#[test]
fn overlay_replaces_the_first_bytes() {
    assert_eq!(overlay(vec![1, 2, 3, 4], &vec![9, 8]), vec![9, 8, 3, 4]);
    assert_eq!(overlay(vec![1], &vec![9, 8]), vec![9]);
}

#[test]
fn scalars_read_as_integers() {
    let s = |data: Vec<u8>| VxCScalar { data_type: 0, data, context: 1 };
    assert_eq!(s(vec![0xFE, 0xFF, 0xFF, 0xFF]).get_i32(), Some(-2));
    assert_eq!(s(vec![0xFE, 0xFF]).get_i32(), Some(-2));
    assert_eq!(s(vec![0xFE]).get_i32(), Some(254));
    assert_eq!(s(vec![]).get_i32(), None);
    assert_eq!(s(vec![0xFE, 0xFF]).get_u32(), Some(65534));
    assert_eq!(s(vec![0xFE, 0xFF, 0xFF, 0xFF]).get_u32(), Some(0xFFFF_FFFE));
    assert_eq!(s(vec![]).get_u32(), None);
}

#[test]
fn parts_of_a_text() {
    assert!(contains_text("org.khronos.openvx.sobel_3x3", "sobel"));
    assert!(!contains_text("org.khronos.openvx.sobel_3x3", "Sobel"));
    assert!(contains_text("abc", ""));
    assert!(!contains_text("ab", "abc"));
    assert_eq!(characters("ab"), vec!['a', 'b']);
}

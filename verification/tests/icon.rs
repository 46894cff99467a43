use daktilo_tray::icon::{icon_from_decoded, load_icon, IconError, IconImage};

/// A PNG of two by one pixels with an alpha channel.
const TWO_BY_ONE_RGBA: [u8; 74] = [
    137, 80, 78, 71, 13, 10, 26, 10, 0, 0, 0, 13, 73, 72, 68, 82, 0, 0, 0, 2, 0, 0, 0, 1, 8, 6, 0,
    0, 0, 244, 34, 127, 138, 0, 0, 0, 17, 73, 68, 65, 84, 120, 218, 99, 248, 207, 192, 240, 159,
    161, 225, 191, 3, 0, 16, 186, 3, 190, 58, 121, 191, 190, 0, 0, 0, 0, 73, 69, 78, 68, 174, 66,
    96, 130,
];

/// A PNG of one by two pixels without an alpha channel.
const ONE_BY_TWO_RGB: [u8; 73] = [
    137, 80, 78, 71, 13, 10, 26, 10, 0, 0, 0, 13, 73, 72, 68, 82, 0, 0, 0, 1, 0, 0, 0, 2, 8, 2, 0,
    0, 0, 22, 227, 33, 112, 0, 0, 0, 16, 73, 68, 65, 84, 120, 218, 99, 224, 18, 145, 99, 208, 48,
    178, 1, 0, 2, 116, 0, 211, 150, 77, 204, 149, 0, 0, 0, 0, 73, 69, 78, 68, 174, 66, 96, 130,
];

#[test]
fn load_icon_decodes_rgba_pixels() {
    let icon = load_icon(&TWO_BY_ONE_RGBA).unwrap();
    assert_eq!(icon.width(), 2);
    assert_eq!(icon.height(), 1);
    assert_eq!(icon.rgba(), &vec![255, 0, 0, 255, 0, 128, 255, 64]);
    assert_eq!(icon.into_rgba(), vec![255, 0, 0, 255, 0, 128, 255, 64]);
}

#[test]
fn load_icon_adds_an_alpha_channel() {
    let icon = load_icon(&ONE_BY_TWO_RGB).unwrap();
    assert_eq!(icon.width(), 1);
    assert_eq!(icon.height(), 2);
    assert_eq!(icon.rgba(), &vec![10, 20, 30, 255, 40, 50, 60, 255]);
}

#[test]
fn load_icon_rejects_what_is_no_image() {
    assert_eq!(load_icon(&[]), Err(IconError::Undecodable));
    assert_eq!(load_icon(b"not an image"), Err(IconError::Undecodable));
    assert_eq!(load_icon(&TWO_BY_ONE_RGBA[..40]), Err(IconError::Undecodable));
}

#[test]
fn from_rgba_wants_four_bytes_for_each_pixel() {
    let icon = IconImage::from_rgba(vec![1, 2, 3, 4, 5, 6, 7, 8], 1, 2).unwrap();
    assert_eq!((icon.width(), icon.height()), (1, 2));
    assert_eq!(icon.rgba(), &vec![1, 2, 3, 4, 5, 6, 7, 8]);
    assert_eq!(IconImage::from_rgba(vec![1, 2, 3, 4, 5, 6, 7], 1, 2), Err(IconError::SizeMismatch));
    assert_eq!(IconImage::from_rgba(vec![0; 8], 2, 2), Err(IconError::SizeMismatch));
    assert_eq!(IconImage::from_rgba(vec![0; 12], 2, 1), Err(IconError::SizeMismatch));
    assert_eq!(IconImage::from_rgba(Vec::new(), 1, 1), Err(IconError::SizeMismatch));
}

#[test]
fn from_rgba_accepts_an_empty_icon() {
    let icon = IconImage::from_rgba(Vec::new(), 0, 7).unwrap();
    assert!(icon.rgba().is_empty());
    assert_eq!(IconImage::from_rgba(Vec::new(), u32::MAX, u32::MAX), Err(IconError::SizeMismatch));
}

#[test]
fn icon_from_decoded_checks_what_the_decoder_handed_out() {
    assert_eq!(icon_from_decoded(None), Err(IconError::Undecodable));
    let icon = icon_from_decoded(Some((vec![9, 8, 7, 6], 1, 1))).unwrap();
    assert_eq!((icon.width(), icon.height()), (1, 1));
    assert_eq!(icon.rgba(), &vec![9, 8, 7, 6]);
    assert_eq!(icon_from_decoded(Some((vec![9, 8, 7, 6, 5], 1, 1))), Err(IconError::SizeMismatch));
    assert_eq!(icon_from_decoded(Some((vec![0; 16], 1, 1))), Err(IconError::SizeMismatch));
}

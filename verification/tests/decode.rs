use zodiacal_web::decode::{first_plane, fits_image_shape, is_fits, parse_fits, plane_shape, DecodeError};
use zodiacal_web::fits_cards::sizes_in_range;

#[test]
fn is_fits_detects_magic() {
    let fits_header = b"SIMPLE  = T / Standard FITS";
    assert!(is_fits(fits_header));
}

#[test]
fn is_fits_rejects_jpeg() {
    let jpeg_header = [0xFF, 0xD8, 0xFF, 0xE0, 0x00, 0x10, 0x4A, 0x46, 0x49];
    assert!(!is_fits(&jpeg_header));
}

#[test]
fn is_fits_rejects_short() {
    assert!(!is_fits(b"SHORT"));
}

#[test]
fn is_fits_exact_magic_only() {
    assert!(is_fits(b"SIMPLE  ="));
    assert!(!is_fits(b"SIMPLE ="));
    assert!(!is_fits(b"simple  = T"));
    assert!(!is_fits(b""));
}

fn card(text: &str) -> String {
    format!("{:<80}", text)
}

/// A primary HDU with the given axes and 8-bit pixels.
fn fits_bytes(axes: &[usize]) -> Vec<u8> {
    let mut header = String::new();
    header.push_str(&card("SIMPLE  =                    T"));
    header.push_str(&card("BITPIX  =                    8"));
    header.push_str(&card(&format!("NAXIS   = {:>20}", axes.len())));
    for (i, n) in axes.iter().enumerate() {
        header.push_str(&card(&format!("NAXIS{:<3}= {:>20}", i + 1, n)));
    }
    header.push_str(&card("END"));
    while header.len() % 2880 != 0 {
        header.push(' ');
    }
    let mut bytes = header.into_bytes();
    let n: usize = axes.iter().product::<usize>().max(if axes.is_empty() { 0 } else { 1 });
    let data_len = if axes.is_empty() { 0 } else { n };
    let mut data = vec![7u8; data_len];
    while data.len() % 2880 != 0 {
        data.push(0);
    }
    bytes.extend(data);
    bytes
}

#[test]
fn fits_shape_of_two_axes() {
    let bytes = fits_bytes(&[3, 5]);
    assert!(is_fits(&bytes));
    let fits = parse_fits(&bytes).unwrap();
    assert_eq!(fits_image_shape(&fits).unwrap(), (3, 5));
}

#[test]
fn fits_shape_of_a_cube_takes_last_two_axes() {
    let bytes = fits_bytes(&[2, 3, 4]);
    let fits = parse_fits(&bytes).unwrap();
    assert_eq!(fits_image_shape(&fits).unwrap(), (3, 4));
}

#[test]
fn fits_shape_of_one_axis_is_refused() {
    let bytes = fits_bytes(&[6]);
    let fits = parse_fits(&bytes).unwrap();
    assert!(matches!(fits_image_shape(&fits), Err(DecodeError::TooFewAxes(1))));
}

#[test]
fn parse_fits_refuses_garbage() {
    let bytes = vec![0u8; 100];
    assert!(matches!(parse_fits(&bytes), Err(DecodeError::InvalidFits(_))));
}

#[test]
fn plane_shape_picks_last_two_axes() {
    assert_eq!(plane_shape(&vec![10, 20]).unwrap(), (10, 20));
    assert_eq!(plane_shape(&vec![4, 10, 20]).unwrap(), (10, 20));
    assert!(matches!(plane_shape(&vec![]), Err(DecodeError::TooFewAxes(0))));
    assert!(matches!(plane_shape(&vec![7]), Err(DecodeError::TooFewAxes(1))));
}

#[test]
fn first_plane_truncates_extra_planes() {
    let pixels: Vec<f32> = (0..12).map(|i| i as f32).collect();
    let plane = first_plane(pixels, 2, 3).unwrap();
    assert_eq!(plane, vec![0.0, 1.0, 2.0, 3.0, 4.0, 5.0]);
}

#[test]
fn first_plane_keeps_exact_plane() {
    let pixels = vec![1u8, 2, 3, 4];
    assert_eq!(first_plane(pixels, 2, 2).unwrap(), vec![1, 2, 3, 4]);
}

#[test]
fn first_plane_refuses_short_data() {
    let pixels = vec![1u8, 2, 3];
    assert!(matches!(first_plane(pixels, 2, 2), Err(DecodeError::PixelCountMismatch)));
}

#[test]
fn first_plane_refuses_unaddressable_plane() {
    let pixels = vec![1u8];
    assert!(matches!(first_plane(pixels, usize::MAX, 2), Err(DecodeError::PixelCountMismatch)));
}

/// A primary header made of the given cards, padded to a block, with no data.
fn header_only(cards: &[&str]) -> Vec<u8> {
    let mut header = String::new();
    for c in cards {
        header.push_str(&card(c));
    }
    header.push_str(&card("END"));
    while header.len() % 2880 != 0 {
        header.push(' ');
    }
    header.into_bytes()
}

#[test]
fn size_check_accepts_an_ordinary_header() {
    let bytes = fits_bytes(&[3, 5]);
    assert!(sizes_in_range(&bytes));
}

#[test]
fn size_check_accepts_free_format_and_comments() {
    let bytes = header_only(&[
        "SIMPLE  =                    T",
        "BITPIX  = -32 / floats",
        "NAXIS   = 0/no data",
    ]);
    assert!(sizes_in_range(&bytes));
    assert!(parse_fits(&bytes).is_ok());
}

#[test]
fn negative_axis_count_is_refused_before_parsing() {
    let bytes = header_only(&["SIMPLE  =                    T", "BITPIX  =                    8", "NAXIS   =                   -1"]);
    assert!(!sizes_in_range(&bytes));
    assert!(matches!(parse_fits(&bytes), Err(DecodeError::BadSizeKeyword)));
}

#[test]
fn axis_count_over_999_is_refused() {
    let bytes = header_only(&["SIMPLE  =                    T", "BITPIX  =                    8", "NAXIS   =                 1000"]);
    assert!(matches!(parse_fits(&bytes), Err(DecodeError::BadSizeKeyword)));
}

#[test]
fn negative_pcount_in_a_plain_primary_header_is_read() {
    let bytes = header_only(&["SIMPLE  =                    T", "BITPIX  =                    8", "NAXIS   =                    0", "PCOUNT  =                   -1"]);
    assert!(sizes_in_range(&bytes));
    assert!(parse_fits(&bytes).is_ok());
}

#[test]
fn negative_pcount_in_random_groups_is_refused() {
    let bytes = header_only(&[
        "SIMPLE  =                    T",
        "BITPIX  =                    8",
        "NAXIS   =                    1",
        "NAXIS1  =                    0",
        "PCOUNT  =                   -1",
        "GCOUNT  =                    1",
        "GROUPS  =                    T",
    ]);
    assert!(matches!(parse_fits(&bytes), Err(DecodeError::BadSizeKeyword)));
}

#[test]
fn negative_pcount_in_an_extension_is_refused() {
    let mut bytes = header_only(&["SIMPLE  =                    T", "BITPIX  =                    8", "NAXIS   =                    0", "EXTEND  =                    T"]);
    bytes.extend(header_only(&[
        "XTENSION= 'IMAGE   '",
        "BITPIX  =                    8",
        "NAXIS   =                    0",
        "PCOUNT  =                   -1",
        "GCOUNT  =                    1",
    ]));
    assert!(matches!(parse_fits(&bytes), Err(DecodeError::BadSizeKeyword)));
}

#[test]
fn axis_length_that_is_not_an_integer_is_left_to_the_parser() {
    let bytes = header_only(&["SIMPLE  =                    T", "BITPIX  =                    8", "NAXIS   =                    1", "NAXIS1  =                  2.5"]);
    assert!(sizes_in_range(&bytes));
    assert!(matches!(parse_fits(&bytes), Err(DecodeError::InvalidFits(_))));
}

/// A card of exactly 80 bytes: `text`, then spaces.
fn card_bytes(text: &[u8]) -> Vec<u8> {
    let mut c = text.to_vec();
    c.resize(80, b' ');
    c
}

#[test]
fn signed_and_space_padded_integers_are_read() {
    let mut bytes = Vec::new();
    bytes.extend(card_bytes(b"SIMPLE  =                    T"));
    bytes.extend(card_bytes(b"BITPIX  = +8"));
    bytes.extend(card_bytes(b"NAXIS   = \t+2\t/ tab around"));
    bytes.extend(card_bytes(b"NAXIS1  = +3"));
    bytes.extend(card_bytes("NAXIS2  =\u{a0}5\u{3000}".as_bytes()));
    bytes.extend(card_bytes(b"END"));
    bytes.resize(2880, b' ');
    bytes.extend(vec![7u8; 2880]);
    assert!(sizes_in_range(&bytes));
    let fits = parse_fits(&bytes).unwrap();
    assert_eq!(fits_image_shape(&fits).unwrap(), (3, 5));
}

#[test]
fn negative_axis_length_is_refused_in_any_form() {
    let bytes = header_only(&["SIMPLE  =                    T", "BITPIX  =                    8", "NAXIS   =                    1", "NAXIS1  = \t-1 / tabbed"]);
    assert!(matches!(parse_fits(&bytes), Err(DecodeError::BadSizeKeyword)));
}

#[test]
fn sizes_whose_product_overflows_are_refused() {
    let bytes = header_only(&[
        "SIMPLE  =                    T",
        "BITPIX  =                   64",
        "NAXIS   =                    3",
        "NAXIS1  =          99999999999",
        "NAXIS2  =          99999999999",
        "NAXIS3  =          99999999999",
    ]);
    assert!(matches!(parse_fits(&bytes), Err(DecodeError::BadSizeKeyword)));
}

#[test]
fn negative_bitpix_is_in_range() {
    let bytes = header_only(&["SIMPLE  =                    T", "BITPIX  =                  -64", "NAXIS   =                    0"]);
    assert!(sizes_in_range(&bytes));
}

//! Recognising FITS uploads, and the shape of the image a FITS file holds.
use vstd::prelude::*;
use crate::fits_cards::{fits_sizes_in_range, sizes_in_range};

verus! {

/// The bytes every FITS file starts with: `SIMPLE  =`.
pub open spec fn fits_magic() -> Seq<u8> {
    seq![0x53u8, 0x49u8, 0x4du8, 0x50u8, 0x4cu8, 0x45u8, 0x20u8, 0x20u8, 0x3du8]
}

/// Whether `bytes` looks like a FITS file: it starts with `SIMPLE  =`.
pub fn is_fits(bytes: &[u8]) -> (r: bool)
    ensures
        r == (bytes@.len() >= 9 && bytes@.subrange(0, 9) == fits_magic()),
{
    if bytes.len() < 9 {
        return false;
    }
    let magic: [u8; 9] = [0x53, 0x49, 0x4d, 0x50, 0x4c, 0x45, 0x20, 0x20, 0x3d];
    assert(magic@ == fits_magic());
    let mut i: usize = 0;
    while i < 9
        invariant
            i <= 9,
            bytes@.len() >= 9,
            magic@ == fits_magic(),
            forall|k: int| 0 <= k < i ==> bytes@[k] == fits_magic()[k],
        decreases 9 - i,
    {
        if bytes[i] != magic[i] {
            assert(bytes@.subrange(0, 9)[i as int] != fits_magic()[i as int]);
            return false;
        }
        i = i + 1;
    }
    assert(bytes@.subrange(0, 9) =~= fits_magic());
    true
}

/// A parsed FITS file: its header data units.
#[verifier::external_type_specification]
#[verifier::external_body]
pub struct ExFitsData(fitsio_pure::hdu::FitsData);

/// What went wrong reading a FITS file.
#[verifier::external_type_specification]
#[verifier::external_body]
pub struct ExFitsError(fitsio_pure::error::Error);

/// Why an upload could not be decoded as a FITS image.
#[derive(Debug)]
pub enum DecodeError {
    /// The bytes are not a FITS file.
    InvalidFits(fitsio_pure::error::Error),
    /// A header holds an axis count outside 0 to 999, a negative axis length,
    /// a negative `PCOUNT` or `GCOUNT` where they count, or sizes whose
    /// product runs past an address: the parser cannot read it safely.
    BadSizeKeyword,
    /// The file holds no header data unit.
    MissingPrimaryHdu,
    /// The primary unit holds no image.
    NoImageDimensions(fitsio_pure::error::Error),
    /// The image has fewer than two axes; the number of axes it has.
    TooFewAxes(usize),
    /// The pixel data is too short for the image's first plane, or the plane
    /// is too large to address.
    PixelCountMismatch,
}

/// Whether `fitsio_pure::hdu::parse_fits` accepts these bytes as a FITS
/// file. It depends on the bytes alone.
pub uninterp spec fn fits_parse_succeeds(bytes: Seq<u8>) -> bool;

/// What a parsed FITS file holds, as the library reads it: its header data
/// units in order, each taken by the image axes that
/// `fitsio_pure::image::image_dimensions` gives for it (NAXIS1 first), or
/// `None` for a unit that holds no image.
pub uninterp spec fn fits_image_axes(fits: fitsio_pure::hdu::FitsData) -> Seq<Option<Seq<usize>>>;

/// The units `fitsio_pure::hdu::parse_fits` finds in these bytes, each taken
/// as `fits_image_axes` takes it. It depends on the bytes alone.
pub uninterp spec fn fits_axes_of(bytes: Seq<u8>) -> Seq<Option<Seq<usize>>>;

/// `fitsio_pure::hdu::parse_fits`: parses a whole FITS byte stream into its
/// header data units. Claimed: it succeeds exactly when the bytes are
/// accepted; the parsed file holds the units of these bytes; and it holds at
/// least one unit (the source returns an error rather than an empty unit
/// list). The parser sizes a buffer by the `NAXIS` and `ZNAXIS` values it
/// reads and adds data lengths to offsets unchecked, so it is called only on
/// bytes whose size keywords are in range; on those it returns.
#[verifier::external_body]
fn parse_fits_bytes(bytes: &[u8]) -> (r: Result<fitsio_pure::hdu::FitsData, fitsio_pure::error::Error>)
    requires
        fits_sizes_in_range(bytes@),
    ensures
        r is Ok == fits_parse_succeeds(bytes@),
        r matches Ok(f) ==> fits_image_axes(f) == fits_axes_of(bytes@),
        r matches Ok(f) ==> fits_image_axes(f).len() > 0,
{
    fitsio_pure::hdu::parse_fits(bytes)
}

/// `FitsData::get`, with the unit it hands out taken by
/// `fitsio_pure::image::image_dimensions`. Claimed: `None` past the last
/// unit; for a unit that holds an image, its axes; an error for a unit that
/// holds none.
#[verifier::external_body]
fn image_dimensions_at(fits: &fitsio_pure::hdu::FitsData, index: usize) -> (r: Option<
    Result<Vec<usize>, fitsio_pure::error::Error>,
>)
    ensures
        r is Some == (index < fits_image_axes(*fits).len()),
        r matches Some(Ok(d)) ==> fits_image_axes(*fits)[index as int] == Some(d@),
        r matches Some(Err(_)) ==> fits_image_axes(*fits)[index as int] is None,
{
    match fits.get(index) {
        Some(hdu) => Some(fitsio_pure::image::image_dimensions(hdu)),
        None => None,
    }
}

/// Parses a FITS file: refuses one whose size keywords are out of range,
/// and otherwise hands it to the parser.
pub fn parse_fits(bytes: &[u8]) -> (r: Result<fitsio_pure::hdu::FitsData, DecodeError>)
    ensures
        r is Ok == (fits_sizes_in_range(bytes@) && fits_parse_succeeds(bytes@)),
        r matches Ok(f) ==> fits_image_axes(f) == fits_axes_of(bytes@),
        r matches Ok(f) ==> fits_image_axes(f).len() > 0,
        !fits_sizes_in_range(bytes@) ==> r matches Err(DecodeError::BadSizeKeyword),
        fits_sizes_in_range(bytes@) ==> (r matches Err(e) ==> e is InvalidFits),
{
    if !sizes_in_range(bytes) {
        return Err(DecodeError::BadSizeKeyword);
    }
    match parse_fits_bytes(bytes) {
        Ok(fits) => Ok(fits),
        Err(e) => Err(DecodeError::InvalidFits(e)),
    }
}

/// The plane shape the decoder takes from the given axis lengths (listed
/// NAXIS1 first): the lengths of the last two axes, in the order listed, or
/// no shape when there are fewer than two. For a two-axis image this is
/// (NAXIS1, NAXIS2); for a cube, (NAXIS2, NAXIS3).
pub open spec fn plane_shape_of(dims: Seq<usize>) -> Option<(usize, usize)> {
    if dims.len() < 2 {
        None
    } else {
        Some((dims[dims.len() - 2], dims[dims.len() - 1]))
    }
}

/// The lengths of the last two of the given axes, in the order listed (see
/// `plane_shape_of`); an error naming the number of axes when there are
/// fewer than two.
pub fn plane_shape(dims: &Vec<usize>) -> (r: Result<(usize, usize), DecodeError>)
    ensures
        match plane_shape_of(dims@) {
            Some(shape) => r == Ok::<(usize, usize), DecodeError>(shape),
            None => r matches Err(DecodeError::TooFewAxes(n)) && n == dims@.len(),
        },
{
    let n = dims.len();
    if n < 2 {
        Err(DecodeError::TooFewAxes(n))
    } else {
        Ok((dims[n - 2], dims[n - 1]))
    }
}

/// The lengths of the last two axes of the image in the primary unit of a
/// FITS file, in the order the header lists them (see `plane_shape_of`):
/// (NAXIS1, NAXIS2) for a two-axis image. The decoder takes them as the row
/// count and row length of the pixel grid.
pub fn fits_image_shape(fits: &fitsio_pure::hdu::FitsData) -> (r: Result<(usize, usize), DecodeError>)
    ensures
        fits_image_axes(*fits).len() == 0 ==> r matches Err(DecodeError::MissingPrimaryHdu),
        fits_image_axes(*fits).len() > 0 ==> match fits_image_axes(*fits)[0] {
            None => r matches Err(DecodeError::NoImageDimensions(_)),
            Some(dims) => match plane_shape_of(dims) {
                Some(shape) => r == Ok::<(usize, usize), DecodeError>(shape),
                None => r matches Err(DecodeError::TooFewAxes(n)) && n == dims.len(),
            },
        },
{
    let dims = match image_dimensions_at(fits, 0) {
        None => return Err(DecodeError::MissingPrimaryHdu),
        Some(Err(e)) => return Err(DecodeError::NoImageDimensions(e)),
        Some(Ok(dims)) => dims,
    };
    plane_shape(&dims)
}

/// The first `height * width` pixels, taken as the first plane of a
/// `height` by `width` grid, from pixel data that may hold more after it; an error when the data is too
/// short for one plane or the plane is too large to address.
pub fn first_plane<T>(pixels: Vec<T>, height: usize, width: usize) -> (r: Result<Vec<T>, DecodeError>)
    ensures
        match r {
            Ok(v) => height * width <= usize::MAX && height * width <= pixels@.len() && v@
                == pixels@.take(height * width),
            Err(e) => e is PixelCountMismatch && (height * width > usize::MAX || pixels@.len()
                < height * width),
        },
{
    let plane = match height.checked_mul(width) {
        Some(p) => p,
        None => return Err(DecodeError::PixelCountMismatch),
    };
    if pixels.len() < plane {
        return Err(DecodeError::PixelCountMismatch);
    }
    let mut pixels = pixels;
    pixels.truncate(plane);
    Ok(pixels)
}

} // verus!

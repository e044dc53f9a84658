//! The icon loader: which raster the tray shows.
//!
//! An image installed beside the executable takes precedence over the one
//! built into the program. Reading the installed file is the caller's part;
//! this module decodes the bytes and decides which raster is used.

use vstd::prelude::*;
use crate::palette::{png_keeps_rule, png_within_rule, sniffed_keeps_rule, sniffed_within_rule};

verus! {

/// A raster as mathematics: its bytes, four per pixel, and its dimensions.
pub struct Raster {
    pub pixels: Seq<u8>,
    pub width: int,
    pub height: int,
}

/// Most pixels a decoded image can have: the decoder allows itself 512 MiB
/// for an image, and a pixel takes a byte at least.
pub const MAX_DECODED_PIXELS: u64 = 0x2000_0000;

impl Raster {
    /// A raster as the decoder leaves it: four bytes for each pixel, and no
    /// more pixels than [`MAX_DECODED_PIXELS`].
    pub open spec fn decoder_shaped(self) -> bool {
        &&& self.width * self.height <= MAX_DECODED_PIXELS
        &&& self.pixels.len() == 4 * (self.width * self.height)
    }

    /// A raster that a tray can show: the pixel count fits in 32 bits and
    /// the buffer holds exactly four bytes for each pixel.
    pub open spec fn displayable(self) -> bool {
        &&& self.width * self.height <= u32::MAX
        &&& self.pixels.len() == 4 * (self.width * self.height)
    }
}

/// A decoded image as the decoder hands it over, not yet checked.
#[derive(Clone, Debug)]
pub struct RawImage {
    /// Red, green, blue and alpha bytes, row by row.
    pub pixels: Vec<u8>,
    /// Pixels per row.
    pub width: u32,
    /// Number of rows.
    pub height: u32,
}

impl View for RawImage {
    type V = Raster;

    open spec fn view(&self) -> Raster {
        Raster { pixels: self.pixels@, width: self.width as int, height: self.height as int }
    }
}

/// Why no icon could be produced.
#[derive(Clone, Copy, Debug, PartialEq, Eq, Structural)]
pub enum IconError {
    /// No source held bytes that decode as an image.
    Undecodable,
    /// The decoded buffer does not agree with the image's dimensions.
    BadDimensions,
}

/// The raster that the tray shows: produced once, never changed afterwards.
#[derive(Debug)]
pub struct IconAsset {
    rgba: Vec<u8>,
    width: u32,
    height: u32,
}

impl View for IconAsset {
    type V = Raster;

    closed spec fn view(&self) -> Raster {
        Raster { pixels: self.rgba@, width: self.width as int, height: self.height as int }
    }
}

impl IconAsset {
    #[verifier::type_invariant]
    spec fn well_formed(&self) -> bool {
        self@.displayable()
    }

    /// Checks a decoded image and makes it an icon. It is accepted exactly
    /// when it is displayable, and then keeps bytes and dimensions as given.
    pub fn from_rgba(pixels: Vec<u8>, width: u32, height: u32) -> (r: Result<IconAsset, IconError>)
        ensures
            outcome(r) == checked(
                Raster { pixels: pixels@, width: width as int, height: height as int },
            ),
    {
        assert((width as u64) * (height as u64) <= 0xFFFF_FFFFu64 * 0xFFFF_FFFFu64)
            by (nonlinear_arith)
            requires
                width <= 0xFFFF_FFFFu64,
                height <= 0xFFFF_FFFFu64,
        ;
        let count: u64 = (width as u64) * (height as u64);
        if count > 0xFFFF_FFFFu64 {
            return Err(IconError::BadDimensions);
        }
        if pixels.len() as u64 != 4 * count {
            return Err(IconError::BadDimensions);
        }
        Ok(IconAsset { rgba: pixels, width, height })
    }

    /// The icon's bytes: red, green, blue and alpha of each pixel, row by
    /// row. Their number is four times the pixel count, as for every icon.
    pub fn pixels(&self) -> (bytes: &Vec<u8>)
        ensures
            bytes@ == self@.pixels,
            self@.displayable(),
    {
        proof {
            use_type_invariant(self);
        }
        &self.rgba
    }

    /// Pixels per row.
    pub fn width(&self) -> (w: u32)
        ensures
            w == self@.width,
    {
        self.width
    }

    /// Number of rows.
    pub fn height(&self) -> (h: u32)
        ensures
            h == self@.height,
    {
        self.height
    }
}

/// What checking `raster` gives: the raster itself where a tray can show
/// it, `BadDimensions` where not.
pub open spec fn checked(raster: Raster) -> Result<Raster, IconError> {
    if raster.displayable() {
        Ok(raster)
    } else {
        Err(IconError::BadDimensions)
    }
}

/// A loading result as mathematics: the raster of the icon, or the error.
pub open spec fn outcome(r: Result<IconAsset, IconError>) -> Result<Raster, IconError> {
    match r {
        Ok(icon) => Ok(icon@),
        Err(e) => Err(e),
    }
}

/// The decoder's error, carried from the decoder to the point where it is
/// mapped to [`IconError`].
#[verifier::external_type_specification]
#[verifier::external_body]
pub struct ExImageError(image::ImageError);

/// What decoding `bytes` as a PNG file and converting the image to 8-bit
/// RGBA gives: the raster, or nothing where the bytes are no such file.
pub uninterp spec fn png_raster(bytes: Seq<u8>) -> Option<Raster>;

/// What decoding `bytes` in the format that their first bytes announce, and
/// converting the image to 8-bit RGBA, gives: the raster, or nothing where
/// the format is not recognised or the bytes do not decode.
pub uninterp spec fn sniffed_raster(bytes: Seq<u8>) -> Option<Raster>;

/// Calls `image::load_from_memory_with_format` with the PNG format, then
/// `DynamicImage::into_rgba8`, `ImageBuffer::dimensions` and
/// `ImageBuffer::into_raw`.
///
/// The precondition leaves out the files on which the decoder's palette
/// expansion reads past its table of 256 entries and does not return:
/// indexed images whose palette chunk, before the image data, is longer
/// than 768 bytes or no multiple of three. It leaves out no file that the
/// decoder decodes.
///
/// The contract claims that the outcome is decided by the bytes: it is
/// [`png_raster`] of them, and the decoder fails exactly where that is
/// nothing. Of a decoded image it claims the shape that the decoder's
/// allocation gives it: the buffer is made with four bytes for each pixel,
/// and an image that would take more than 512 MiB is refused before.
#[verifier::external_body]
fn decode_png(bytes: &[u8]) -> (r: Result<RawImage, image::ImageError>)
    requires
        png_keeps_rule(bytes@),
    ensures
        r matches Ok(img) ==> png_raster(bytes@) == Some(img@),
        r matches Ok(img) ==> img@.decoder_shaped(),
        r is Err ==> png_raster(bytes@) is None,
{
    let rgba = image::load_from_memory_with_format(bytes, image::ImageFormat::Png)?.into_rgba8();
    let (width, height) = rgba.dimensions();
    Ok(RawImage { pixels: rgba.into_raw(), width, height })
}

/// Calls `image::load_from_memory`, then `DynamicImage::into_rgba8`,
/// `ImageBuffer::dimensions` and `ImageBuffer::into_raw`.
///
/// The precondition leaves out the files on which the decoder's palette
/// expansion reads past its table of 256 entries and does not return: PNG
/// files, and icon containers whose entry of highest rank is a PNG file,
/// where that file is an indexed image whose palette chunk, before the
/// image data, is longer than 768 bytes or no multiple of three. It leaves
/// out no file that the decoder decodes.
///
/// The contract claims that the outcome is decided by the bytes: it is
/// [`sniffed_raster`] of them, and the decoder fails exactly where that is
/// nothing. Of a decoded image it claims the shape that the decoder's
/// allocation gives it: the buffer is made with four bytes for each pixel,
/// and an image that would take more than 512 MiB is refused before.
#[verifier::external_body]
fn decode_sniffed(bytes: &[u8]) -> (r: Result<RawImage, image::ImageError>)
    requires
        sniffed_keeps_rule(bytes@),
    ensures
        r matches Ok(img) ==> sniffed_raster(bytes@) == Some(img@),
        r matches Ok(img) ==> img@.decoder_shaped(),
        r is Err ==> sniffed_raster(bytes@) is None,
{
    let rgba = image::load_from_memory(bytes)?.into_rgba8();
    let (width, height) = rgba.dimensions();
    Ok(RawImage { pixels: rgba.into_raw(), width, height })
}

/// A decoding attempt as mathematics: the raster, or nothing where it failed.
pub open spec fn raster_of(decoded: Option<RawImage>) -> Option<Raster> {
    match decoded {
        Some(img) => Some(img@),
        None => None,
    }
}

/// Which raster is shown, given what the installed file and the built-in
/// image decoded to. The installed one is used whenever it decoded, the
/// built-in one otherwise; the one used must be displayable. With neither
/// decoded there is no icon.
pub open spec fn resolve(installed: Option<Raster>, embedded: Option<Raster>) -> Result<
    Raster,
    IconError,
> {
    match installed {
        Some(raster) => checked(raster),
        None => match embedded {
            Some(raster) => checked(raster),
            None => Err(IconError::Undecodable),
        },
    }
}

/// What the installed file decodes to: nothing where there is no file, and
/// nothing where the file is kept from the decoder, which would not return
/// on it.
pub open spec fn installed_raster(installed: Option<Seq<u8>>) -> Option<Raster> {
    match installed {
        Some(bytes) => if png_keeps_rule(bytes) {
            png_raster(bytes)
        } else {
            None
        },
        None => None,
    }
}

/// What the built-in image decodes to: nothing where it is kept from the
/// decoder, which would not return on it.
pub open spec fn embedded_raster(embedded: Seq<u8>) -> Option<Raster> {
    if sniffed_keeps_rule(embedded) {
        sniffed_raster(embedded)
    } else {
        None
    }
}

/// The bytes of an optional file, as mathematics.
pub open spec fn bytes_of(file: Option<&[u8]>) -> Option<Seq<u8>> {
    match file {
        Some(bytes) => Some(bytes@),
        None => None,
    }
}

/// Chooses the icon among two decoding attempts: `installed` for the file
/// beside the executable, `embedded` for the built-in image, each `None`
/// where it did not decode.
pub fn select(installed: Option<RawImage>, embedded: Option<RawImage>) -> (r: Result<
    IconAsset,
    IconError,
>)
    ensures
        outcome(r) == resolve(raster_of(installed), raster_of(embedded)),
{
    match installed {
        Some(img) => IconAsset::from_rgba(img.pixels, img.width, img.height),
        None => match embedded {
            Some(img) => IconAsset::from_rgba(img.pixels, img.width, img.height),
            None => Err(IconError::Undecodable),
        },
    }
}

/// Decodes the installed icon file, a PNG file. Every file that the decoder
/// decodes is decoded; one on which it would not return is not handed to it
/// and counts as undecodable. What was decoded is displayable.
pub fn decode_installed(bytes: &[u8]) -> (decoded: Option<RawImage>)
    ensures
        raster_of(decoded) == installed_raster(Some(bytes@)),
        decoded matches Some(img) ==> img@.displayable(),
{
    if !png_within_rule(bytes) {
        return None;
    }
    match decode_png(bytes) {
        Ok(img) => Some(img),
        Err(_) => None,
    }
}

/// Decodes the built-in image, in the format that its first bytes announce.
/// Every image that the decoder decodes is decoded; one on which it would
/// not return is not handed to it and counts as undecodable. What was
/// decoded is displayable.
pub fn decode_embedded(bytes: &[u8]) -> (decoded: Option<RawImage>)
    ensures
        raster_of(decoded) == embedded_raster(bytes@),
        decoded matches Some(img) ==> img@.displayable(),
{
    if !sniffed_within_rule(bytes) {
        return None;
    }
    match decode_sniffed(bytes) {
        Ok(img) => Some(img),
        Err(_) => None,
    }
}

/// What loading gives: the installed image's raster if that decodes, else
/// the built-in image's raster if that decodes, else `Undecodable`.
pub open spec fn loaded(installed: Option<Raster>, embedded: Option<Raster>) -> Result<
    Raster,
    IconError,
> {
    match installed {
        Some(raster) => Ok(raster),
        None => match embedded {
            Some(raster) => Ok(raster),
            None => Err(IconError::Undecodable),
        },
    }
}

/// Loads the icon. `installed` holds the bytes of the image file installed
/// beside the executable, if there is one; it is a PNG file. `embedded`
/// holds the image built into the program, in a format that its first bytes
/// announce. The built-in image is decoded only where the installed one
/// is absent or does not decode. The installed image, where it decodes, is
/// the icon, whatever the built-in one holds.
pub fn load(installed: Option<&[u8]>, embedded: &[u8]) -> (r: Result<IconAsset, IconError>)
    ensures
        outcome(r) == loaded(installed_raster(bytes_of(installed)), embedded_raster(embedded@)),
{
    let first = match installed {
        Some(bytes) => decode_installed(bytes),
        None => None,
    };
    match first {
        Some(img) => select(Some(img), None),
        None => {
            let second = decode_embedded(embedded);
            select(None, second)
        },
    }
}

/// Whatever decodes is shown: among decoder-shaped rasters, choosing the
/// icon never fails on dimensions, so the installed image is the icon
/// whenever it decoded, and the built-in one whenever only it decoded.
pub proof fn law_decoded_icon_is_shown(installed: Option<Raster>, embedded: Option<Raster>)
    requires
        installed matches Some(raster) ==> raster.decoder_shaped(),
        embedded matches Some(raster) ==> installed is Some || raster.decoder_shaped(),
    ensures
        resolve(installed, embedded) == loaded(installed, embedded),
        installed matches Some(raster) ==> loaded(installed, embedded) == Ok::<Raster, IconError>(
            raster,
        ),
{
}

/// The installed image takes precedence: where it decodes, its raster is
/// what loading gives, whatever the built-in image holds. The same holds of
/// a choice among images that the caller decoded, where the installed one is
/// displayable.
pub proof fn law_installed_icon_takes_precedence(installed: Raster, embedded: Option<Raster>)
    ensures
        loaded(Some(installed), embedded) == Ok::<Raster, IconError>(installed),
        installed.displayable() ==> resolve(Some(installed), embedded) == Ok::<Raster, IconError>(
            installed,
        ),
{
}

/// Without an installed image that decodes, the built-in image is the icon
/// where it decodes. The same holds of a choice among images that the
/// caller decoded, where the built-in one is displayable.
pub proof fn law_embedded_icon_is_fallback(embedded: Raster)
    ensures
        loaded(None, Some(embedded)) == Ok::<Raster, IconError>(embedded),
        embedded.displayable() ==> resolve(None, Some(embedded)) == Ok::<Raster, IconError>(
            embedded,
        ),
{
}

/// Loading fails exactly where neither image decodes. A choice among
/// images that the caller decoded fails exactly where the raster it would
/// use is missing or not displayable.
pub proof fn law_load_failure(installed: Option<Raster>, embedded: Option<Raster>)
    ensures
        loaded(installed, embedded) is Err <==> installed is None && embedded is None,
        resolve(installed, embedded) is Err <==> match installed {
            Some(raster) => !raster.displayable(),
            None => match embedded {
                Some(raster) => !raster.displayable(),
                None => true,
            },
        },
{
}

} // verus!

//! Decoded images as plain values, and the one place where encoded bytes
//! are turned into pixels.

use vstd::prelude::*;
use vstd::slice::slice_to_vec;

verus! {

/// What the last characters of an address say about the file behind it.
#[derive(Clone, Copy, Debug, PartialEq, Eq, Structural)]
pub enum ImageKind {
    Png,
    Jpeg,
    Unknown,
}

impl ImageKind {
    /// The file extension that goes with a kind of image.
    pub open spec fn extension_text(self) -> Seq<char> {
        match self {
            ImageKind::Png => "png"@,
            ImageKind::Jpeg => "jpg"@,
            ImageKind::Unknown => "unknown"@,
        }
    }

    pub fn extension(self) -> (text: &'static str)
        ensures
            text@ == self.extension_text(),
    {
        match self {
            ImageKind::Png => "png",
            ImageKind::Jpeg => "jpg",
            ImageKind::Unknown => "unknown",
        }
    }
}

/// Why a fetch did not end with the remote image on screen.
#[derive(Clone, Copy, Debug, PartialEq, Eq, Structural)]
pub enum FetchError {
    TransportError,
    DecodeError,
}

/// The two encodings that can be decoded.
#[derive(Clone, Copy, Debug, PartialEq, Eq, Structural)]
pub enum Codec {
    Png,
    Jpeg,
}

/// An uncompressed picture: `height` rows of `width` pixels, four bytes
/// (red, green, blue, alpha) each.
#[derive(Debug, PartialEq, Eq)]
pub struct PreviewImage {
    width: u32,
    height: u32,
    pixels: Vec<u8>,
}

pub struct PreviewImageView {
    pub width: nat,
    pub height: nat,
    pub pixels: Seq<u8>,
}

impl PreviewImageView {
    /// There are exactly four bytes for each pixel.
    pub open spec fn renderable(self) -> bool {
        self.pixels.len() == self.width * self.height * 4
    }
}

impl View for PreviewImage {
    type V = PreviewImageView;

    closed spec fn view(&self) -> PreviewImageView {
        PreviewImageView {
            width: self.width as nat,
            height: self.height as nat,
            pixels: self.pixels@,
        }
    }
}

impl PreviewImage {
    #[verifier::type_invariant]
    pub closed spec fn well_formed(&self) -> bool {
        self.pixels@.len() == self.width * self.height * 4
    }

    /// Every image that exists at run time is renderable.
    pub proof fn lemma_renderable(&self)
        requires
            self.well_formed(),
        ensures
            self@.renderable(),
    {
    }

    /// Builds an image from its dimensions and its bytes, if they agree.
    pub fn new(width: u32, height: u32, pixels: Vec<u8>) -> (image: Option<PreviewImage>)
        ensures
            image is Some <==> pixels@.len() == width * height * 4,
            image matches Some(img) ==> img@ == (PreviewImageView {
                width: width as nat,
                height: height as nat,
                pixels: pixels@,
            }),
    {
        assert(width * height * 4 <= 0xffff_ffff * 0xffff_ffff * 4) by (nonlinear_arith)
            requires
                0 <= width <= 0xffff_ffff,
                0 <= height <= 0xffff_ffff,
        ;
        let expected: u128 = (width as u128) * (height as u128) * 4;
        if pixels.len() as u128 == expected {
            Some(PreviewImage { width, height, pixels })
        } else {
            None
        }
    }

    pub fn width(&self) -> (w: u32)
        ensures
            w == self@.width,
    {
        self.width
    }

    pub fn height(&self) -> (h: u32)
        ensures
            h == self@.height,
    {
        self.height
    }

    /// The bytes of the image, row by row.
    pub fn pixels(&self) -> (p: &[u8])
        ensures
            p@ == self@.pixels,
            self@.renderable(),
    {
        proof {
            use_type_invariant(self);
        }
        self.pixels.as_slice()
    }

}

impl Clone for PreviewImage {
    fn clone(&self) -> (copy: Self)
        ensures
            copy@ == self@,
            copy@.renderable(),
    {
        proof {
            use_type_invariant(self);
        }
        PreviewImage {
            width: self.width,
            height: self.height,
            pixels: slice_to_vec(self.pixels.as_slice()),
        }
    }
}

#[verifier::external_type_specification]
#[verifier::external_body]
pub struct ExImageError(image::ImageError);

/// The two bytes that announce a lossless JPEG frame stand at position `i`.
pub open spec fn lossless_marker_at(bytes: Seq<u8>, i: int) -> bool {
    0 <= i && i + 1 < bytes.len() && bytes[i] == 0xFF && bytes[i + 1] == 0xC3
}

/// Somewhere in `bytes` stand the two bytes that announce a lossless JPEG
/// frame. Every stream that holds such a frame meets this; so do a few that
/// hold the two bytes for another reason.
pub open spec fn names_lossless_frame(bytes: Seq<u8>) -> bool {
    exists|i: int| #[trigger] lossless_marker_at(bytes, i)
}

pub fn has_lossless_frame(bytes: &[u8]) -> (found: bool)
    ensures
        found == names_lossless_frame(bytes@),
{
    let n = bytes.len();
    if n < 2 {
        return false;
    }
    let mut i: usize = 0;
    while i < n - 1
        invariant
            2 <= n == bytes@.len(),
            i <= n - 1,
            forall|j: int| 0 <= j < i ==> !lossless_marker_at(bytes@, j),
        decreases n - i,
    {
        if bytes[i] == 0xFF && bytes[i + 1] == 0xC3 {
            assert(lossless_marker_at(bytes@, i as int));
            return true;
        }
        i += 1;
    }
    false
}

/// Calls `image::load_from_memory_with_format` on `bytes`, with the format
/// that `codec` stands for, turns the picture it gives into four bytes per
/// pixel with `DynamicImage::to_rgba8`, and hands out its width, its height
/// and its bytes.
///
/// Trusted: what comes back holds `width * height * 4` bytes, which is how
/// `image` allocates the buffer of an RGBA picture. Nothing is claimed about
/// which inputs decode, nor to which pixels: both decoders choose their
/// arithmetic by the processor they find themselves on.
///
/// Left out are JPEG streams with a lossless frame. `jpeg-decoder` admits
/// them at 2 to 16 bits a sample and writes two bytes a sample where the
/// depth is not 8, while `image` sizes its buffer as for one byte, and the
/// copy between the two panics. For the rest, these were read for panics:
/// in `image`, the entry (`load_inner`, `decoder_to_vec`), both adapters
/// (`codecs/jpeg/decoder.rs`, `codecs/png.rs`) and the RGBA copy; in
/// `jpeg-decoder`, how markers are read and admitted, `info`, and how the
/// planes are put together. The entropy decoding and the inverse transform
/// of `jpeg-decoder`, and the inside of `png`, were not read line by line.
/// `image` refuses pictures of more than 512 MiB decoded, so the RGBA copy
/// is within what a vector can hold on a 64-bit machine.
#[verifier::external_body]
fn decode_rgba(bytes: &[u8], codec: Codec) -> (decoded: Result<
    (u32, u32, Vec<u8>),
    image::ImageError,
>)
    requires
        codec == Codec::Jpeg ==> !names_lossless_frame(bytes@),
    ensures
        decoded matches Ok(picture) ==> picture.2@.len() == picture.0 * picture.1 * 4,
{
    let format = match codec {
        Codec::Png => image::ImageFormat::Png,
        Codec::Jpeg => image::ImageFormat::Jpeg,
    };
    let picture = image::load_from_memory_with_format(bytes, format)?.to_rgba8();
    Ok((picture.width(), picture.height(), picture.into_raw()))
}

/// The decoder for a kind of image, if there is one.
pub open spec fn codec_of(kind: ImageKind) -> Option<Codec> {
    match kind {
        ImageKind::Png => Some(Codec::Png),
        ImageKind::Jpeg => Some(Codec::Jpeg),
        ImageKind::Unknown => None,
    }
}

/// The decoder that `bytes` are handed to as an image of the given kind:
/// the one for that kind, but none for a JPEG that names a lossless frame.
pub open spec fn decoder_of(bytes: Seq<u8>, kind: ImageKind) -> Option<Codec> {
    if kind == ImageKind::Jpeg && names_lossless_frame(bytes) {
        None
    } else {
        codec_of(kind)
    }
}

/// The decoder that a transfer's body is handed to: none where there is no
/// body.
pub open spec fn body_decoder(body: Option<Seq<u8>>, kind: ImageKind) -> Option<Codec> {
    match body {
        Some(bytes) => decoder_of(bytes, kind),
        None => None,
    }
}

/// Chooses the decoder for a kind of image.
pub fn codec_for(kind: ImageKind) -> (codec: Option<Codec>)
    ensures
        codec == codec_of(kind),
{
    match kind {
        ImageKind::Png => Some(Codec::Png),
        ImageKind::Jpeg => Some(Codec::Jpeg),
        ImageKind::Unknown => None,
    }
}

/// Chooses the decoder that `bytes` are handed to, if any.
pub fn decoder_for(bytes: &[u8], kind: ImageKind) -> (codec: Option<Codec>)
    ensures
        codec == decoder_of(bytes@, kind),
{
    match codec_for(kind) {
        Some(Codec::Jpeg) => {
            if has_lossless_frame(bytes) {
                None
            } else {
                Some(Codec::Jpeg)
            }
        },
        other => other,
    }
}

/// Decodes `bytes` as an image of the given kind, with the decoder that
/// `decoder_for` chooses. An image of unknown kind and a JPEG that names a
/// lossless frame are never decoded; for the rest the decoder decides.
pub fn decode_image(bytes: &[u8], kind: ImageKind) -> (decoded: Result<PreviewImage, FetchError>)
    ensures
        decoder_of(bytes@, kind) is None ==> decoded is Err,
        decoded matches Err(e) ==> e == FetchError::DecodeError,
        decoded matches Ok(img) ==> img@.renderable(),
{
    match decoder_for(bytes, kind) {
        None => Err(FetchError::DecodeError),
        Some(codec) => match decode_rgba(bytes, codec) {
            Ok((width, height, pixels)) => match PreviewImage::new(width, height, pixels) {
                Some(picture) => Ok(picture),
                None => Err(FetchError::DecodeError),
            },
            Err(_) => Err(FetchError::DecodeError),
        },
    }
}

/// The picture that `bytes` decode to as an image of the given kind, or
/// nothing where they do not decode.
pub fn decode_or_none(bytes: &[u8], kind: ImageKind) -> (decoded: Option<PreviewImage>)
    ensures
        decoder_of(bytes@, kind) is None ==> decoded is None,
        decoded matches Some(img) ==> img@.renderable(),
{
    match decode_image(bytes, kind) {
        Ok(picture) => Some(picture),
        Err(_) => None,
    }
}

} // verus!

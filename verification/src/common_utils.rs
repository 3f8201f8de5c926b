//! Rules that do not depend on the platform: the shape of an image address
//! and the image kind it implies, colour packing, and the fetch pipeline
//! with its fallback on a bundled image.

use crate::app_constants::AppConstants;
use crate::app_config::AppConfigView;
use crate::app_gui::{Activity, FetchResult, MyApp, MyAppView};
use crate::clock::local_time_text;
use crate::preview::{
    body_decoder, decode_image, decode_or_none, decoder_of, FetchError, ImageKind, PreviewImage,
    PreviewImageView,
};
use crate::text::{has_prefix, has_suffix};
use vstd::prelude::*;
use vstd::slice::slice_to_vec;
use vstd::string::*;

verus! {

/// An address is usable when it is an `http` or `https` URL whose last
/// characters name a JPEG or PNG file.
pub open spec fn url_shape_valid(url: Seq<char>) -> bool {
    &&& ("http://"@.is_prefix_of(url) || "https://"@.is_prefix_of(url))
    &&& (".jpg"@.is_suffix_of(url) || ".jpeg"@.is_suffix_of(url) || ".png"@.is_suffix_of(url))
}

pub fn is_image_url_valid(url: &str) -> (valid: bool)
    ensures
        valid == url_shape_valid(url@),
{
    (has_prefix(url, "http://") || has_prefix(url, "https://")) && (has_suffix(url, ".jpg")
        || has_suffix(url, ".jpeg") || has_suffix(url, ".png"))
}

/// The number that the desktop uses for a colour: blue in the high byte of
/// three, red in the low one.
pub open spec fn reversed_color(color: [u8; 3]) -> int {
    color@[2] * 65536 + color@[1] * 256 + color@[0]
}

pub fn color32_to_reversed_u32(color: [u8; 3]) -> (packed: u32)
    ensures
        packed == reversed_color(color),
        packed < 0x100_0000,
{
    let red: u32 = color[0] as u32;
    let green: u32 = color[1] as u32;
    let blue: u32 = color[2] as u32;
    blue * 65536 + green * 256 + red
}

/// Splits the desktop's colour number into red, green and blue. Bits above
/// the low three bytes are ignored.
pub fn get_current_background_color(system_color: u32) -> (color: [u8; 3])
    ensures
        color@[0] == system_color % 256,
        color@[1] == (system_color / 256) % 256,
        color@[2] == (system_color / 65536) % 256,
        reversed_color(color) == system_color % 0x100_0000,
{
    let red: u8 = (system_color % 256) as u8;
    let green: u8 = (system_color / 256 % 256) as u8;
    let blue: u8 = (system_color / 256 / 256 % 256) as u8;
    [red, green, blue]
}

/// Packing a colour and splitting the result gives the colour back.
pub proof fn lemma_color_round_trip(color: [u8; 3])
    ensures
        reversed_color(color) % 256 == color@[0],
        (reversed_color(color) / 256) % 256 == color@[1],
        (reversed_color(color) / 65536) % 256 == color@[2],
{
}

/// The kind of image that an address announces by its last characters.
pub open spec fn inferred_kind(url: Seq<char>) -> ImageKind {
    if ".png"@.is_suffix_of(url) {
        ImageKind::Png
    } else if ".jpg"@.is_suffix_of(url) || ".jpeg"@.is_suffix_of(url) {
        ImageKind::Jpeg
    } else {
        ImageKind::Unknown
    }
}

pub fn infer_image_kind(url: &str) -> (kind: ImageKind)
    ensures
        kind == inferred_kind(url@),
{
    if has_suffix(url, ".png") {
        ImageKind::Png
    } else if has_suffix(url, ".jpg") || has_suffix(url, ".jpeg") {
        ImageKind::Jpeg
    } else {
        ImageKind::Unknown
    }
}

/// Where the image for the desktop is kept, for a given file extension.
pub open spec fn current_image_path(file_type: Seq<char>) -> Seq<char> {
    AppConstants::WALLPAPER_IMAGE_FILE_LOCATION@ + AppConstants::WALLPAPER_IMAGE_FILE_STEM@
        + file_type
}

pub fn current_image_path_for(file_type: &str) -> (path: String)
    ensures
        path@ == current_image_path(file_type@),
{
    AppConstants::WALLPAPER_IMAGE_FILE_LOCATION.to_owned().concat(
        AppConstants::WALLPAPER_IMAGE_FILE_STEM,
    ).concat(file_type)
}

/// A file as the library sees it: the kind that its name announces, and
/// its contents.
#[derive(Debug, PartialEq, Eq)]
pub struct ImageFile {
    pub kind: ImageKind,
    pub bytes: Vec<u8>,
}

/// The bundled image that stands in when a fetch or a decode fails: the
/// bytes of its JPEG file and the picture they decode to.
#[derive(Debug, PartialEq, Eq)]
pub struct FallbackImage {
    pub bytes: Vec<u8>,
    pub preview: PreviewImage,
}

pub struct FallbackImageView {
    pub bytes: Seq<u8>,
    pub preview: PreviewImageView,
}

impl View for FallbackImage {
    type V = FallbackImageView;

    open spec fn view(&self) -> FallbackImageView {
        FallbackImageView { bytes: self.bytes@, preview: self.preview@ }
    }
}

/// What a fetch came to: how it is reported, the bytes to keep and their
/// kind, the picture to show, and the failure that was absorbed, if any.
#[derive(Debug, PartialEq, Eq)]
pub struct FetchOutcome {
    pub result: FetchResult,
    pub kind: ImageKind,
    pub bytes: Vec<u8>,
    pub preview: PreviewImage,
    pub error: Option<FetchError>,
}

pub struct FetchOutcomeView {
    pub result: FetchResult,
    pub kind: ImageKind,
    pub bytes: Seq<u8>,
    pub preview: PreviewImageView,
    pub error: Option<FetchError>,
}

impl View for FetchOutcome {
    type V = FetchOutcomeView;

    open spec fn view(&self) -> FetchOutcomeView {
        FetchOutcomeView {
            result: self.result,
            kind: self.kind,
            bytes: self.bytes@,
            preview: self.preview@,
            error: self.error,
        }
    }
}

/// An image to be written to disk.
#[derive(Debug, PartialEq, Eq)]
pub struct SavedImage {
    pub path: String,
    pub bytes: Vec<u8>,
}

pub struct SavedImageView {
    pub path: Seq<char>,
    pub bytes: Seq<u8>,
}

impl View for SavedImage {
    type V = SavedImageView;

    open spec fn view(&self) -> SavedImageView {
        SavedImageView { path: self.path@, bytes: self.bytes@ }
    }
}

impl Clone for ImageFile {
    fn clone(&self) -> (copy: Self)
        ensures
            copy.kind == self.kind,
            copy.bytes@ == self.bytes@,
    {
        Self { kind: self.kind, bytes: slice_to_vec(self.bytes.as_slice()) }
    }
}

impl Clone for FallbackImage {
    fn clone(&self) -> (copy: Self)
        ensures
            copy@ == self@,
    {
        Self { bytes: slice_to_vec(self.bytes.as_slice()), preview: self.preview.clone() }
    }
}

impl Clone for FetchOutcome {
    fn clone(&self) -> (copy: Self)
        ensures
            copy@ == self@,
    {
        Self {
            result: self.result,
            kind: self.kind,
            bytes: slice_to_vec(self.bytes.as_slice()),
            preview: self.preview.clone(),
            error: self.error,
        }
    }
}

impl Clone for SavedImage {
    fn clone(&self) -> (copy: Self)
        ensures
            copy@ == self@,
    {
        Self { path: self.path.clone(), bytes: slice_to_vec(self.bytes.as_slice()) }
    }
}

pub open spec fn saved_view(file: Option<SavedImage>) -> Option<SavedImageView> {
    match file {
        Some(f) => Some(f@),
        None => None,
    }
}

impl FallbackImageView {
    /// The file that keeps the fallback image as the current image.
    pub open spec fn saved(self) -> SavedImageView {
        SavedImageView {
            path: current_image_path(ImageKind::Jpeg.extension_text()),
            bytes: self.bytes,
        }
    }
}

pub open spec fn bytes_view(bytes: Option<Vec<u8>>) -> Option<Seq<u8>> {
    match bytes {
        Some(b) => Some(b@),
        None => None,
    }
}

pub open spec fn picture_view(picture: Option<PreviewImage>) -> Option<PreviewImageView> {
    match picture {
        Some(p) => Some(p@),
        None => None,
    }
}

impl FetchOutcomeView {
    /// The outcome of a fetch. A transport failure comes first: the fallback
    /// image is kept and shown, and the fetch is reported as failed. Then a
    /// decode failure: the transport succeeded and is reported so, but the
    /// fallback image is kept and shown. Otherwise the body that arrived is
    /// kept under the kind that the address announced, and its picture shown.
    pub open spec fn resolved(
        kind: ImageKind,
        transport: Option<Seq<u8>>,
        decoded: Option<PreviewImageView>,
        fallback: FallbackImageView,
    ) -> FetchOutcomeView {
        match transport {
            None => FetchOutcomeView {
                result: FetchResult::Failed,
                kind: ImageKind::Jpeg,
                bytes: fallback.bytes,
                preview: fallback.preview,
                error: Some(FetchError::TransportError),
            },
            Some(body) => match decoded {
                None => FetchOutcomeView {
                    result: FetchResult::Succeeded,
                    kind: ImageKind::Jpeg,
                    bytes: fallback.bytes,
                    preview: fallback.preview,
                    error: Some(FetchError::DecodeError),
                },
                Some(picture) => FetchOutcomeView {
                    result: FetchResult::Succeeded,
                    kind,
                    bytes: body,
                    preview: picture,
                    error: None,
                },
            },
        }
    }

    /// The file that keeps the outcome.
    pub open spec fn saved(self) -> SavedImageView {
        SavedImageView {
            path: current_image_path(self.kind.extension_text()),
            bytes: self.bytes,
        }
    }
}

impl MyAppView {
    /// The state while a fetch is under way.
    pub open spec fn fetch_started(self, in_progress: PreviewImageView) -> MyAppView {
        MyAppView { status: Activity::Fetching, test_image: in_progress, ..self }
    }

    /// The state once the outcome of a fetch is on record.
    pub open spec fn fetch_recorded(self, outcome: FetchOutcomeView, at: Seq<char>) -> MyAppView {
        MyAppView {
            config: AppConfigView { file_type: outcome.kind.extension_text(), ..self.config },
            status: Activity::Idle,
            last_fetch_result: outcome.result,
            last_fetch_time: Some(at),
            test_image: outcome.preview,
            ..self
        }
    }

    /// The state, and the file to write, once a fetch is over: the outcome
    /// is decided from what the transport and the decoder delivered and put
    /// on record with the moment `at`.
    pub open spec fn fetch_completed(
        self,
        kind: ImageKind,
        transport: Option<Seq<u8>>,
        decoded: Option<PreviewImageView>,
        at: Seq<char>,
        fallback: FallbackImageView,
    ) -> (MyAppView, SavedImageView) {
        let outcome = FetchOutcomeView::resolved(kind, transport, decoded, fallback);
        (self.fetch_recorded(outcome, at), outcome.saved())
    }

    /// The state once a picture was put on show, or the fallback in its place.
    pub open spec fn picture_shown(
        self,
        decoded: Option<PreviewImageView>,
        fallback: FallbackImageView,
    ) -> MyAppView {
        match decoded {
            Some(picture) => MyAppView { test_image: picture, ..self },
            None => MyAppView {
                config: AppConfigView {
                    file_type: ImageKind::Jpeg.extension_text(),
                    ..self.config
                },
                test_image: fallback.preview,
                ..self
            },
        }
    }
}

/// Whatever the transport and the decoder deliver, the picture that a fetch
/// leaves on show is renderable, given that the fallback is.
pub proof fn lemma_fallback_totality(
    kind: ImageKind,
    transport: Option<Seq<u8>>,
    decoded: Option<PreviewImageView>,
    fallback: FallbackImageView,
)
    requires
        fallback.preview.renderable(),
        decoded matches Some(picture) ==> picture.renderable(),
    ensures
        FetchOutcomeView::resolved(kind, transport, decoded, fallback).preview.renderable(),
{
}

/// Decides what a fetch came to, from what the transport delivered and what
/// the decoder made of it.
pub fn resolve_fetch(
    kind: ImageKind,
    transport: Option<Vec<u8>>,
    decoded: Option<PreviewImage>,
    fallback: &FallbackImage,
) -> (outcome: FetchOutcome)
    ensures
        outcome@ == FetchOutcomeView::resolved(
            kind,
            bytes_view(transport),
            picture_view(decoded),
            fallback@,
        ),
        outcome@.preview.renderable(),
{
    proof {
        use_type_invariant(&fallback.preview);
        fallback.preview.lemma_renderable();
    }
    match transport {
        None => FetchOutcome {
            result: FetchResult::Failed,
            kind: ImageKind::Jpeg,
            bytes: slice_to_vec(fallback.bytes.as_slice()),
            preview: fallback.preview.clone(),
            error: Some(FetchError::TransportError),
        },
        Some(body) => match decoded {
            None => FetchOutcome {
                result: FetchResult::Succeeded,
                kind: ImageKind::Jpeg,
                bytes: slice_to_vec(fallback.bytes.as_slice()),
                preview: fallback.preview.clone(),
                error: Some(FetchError::DecodeError),
            },
            Some(picture) => {
                proof {
                    use_type_invariant(&picture);
                    picture.lemma_renderable();
                }
                FetchOutcome {
                    result: FetchResult::Succeeded,
                    kind,
                    bytes: body,
                    preview: picture,
                    error: None,
                }
            },
        },
    }
}

/// Decodes the contents of a file as the kind of image that its name
/// announces. A file of unknown kind is never decoded.
pub fn load_image_from_path(file: &ImageFile) -> (picture: Result<PreviewImage, FetchError>)
    ensures
        decoder_of(file.bytes@, file.kind) is None ==> picture is Err,
        picture matches Err(e) ==> e == FetchError::DecodeError,
        picture matches Ok(p) ==> p@.renderable(),
{
    decode_image(file.bytes.as_slice(), file.kind)
}

/// What the decoder makes of what a transfer delivered: nothing where the
/// transfer failed, where the kind is unknown or where the body does not
/// decode.
pub fn decode_body(body: &Option<Vec<u8>>, kind: ImageKind) -> (decoded: Option<PreviewImage>)
    ensures
        decoded is Some ==> body_decoder(bytes_view(*body), kind) is Some,
        decoded matches Some(picture) ==> picture@.renderable(),
{
    match body {
        Some(bytes) => decode_or_none(bytes.as_slice(), kind),
        None => None,
    }
}

/// Puts a picture on show, or the fallback where there is none. In that
/// case the fallback is also to be kept as the current image: the file to
/// write is returned.
pub fn show_picture(
    my_app: &mut MyApp,
    decoded: Option<PreviewImage>,
    fallback: &FallbackImage,
) -> (kept: Option<SavedImage>)
    ensures
        final(my_app)@ == old(my_app)@.picture_shown(picture_view(decoded), fallback@),
        final(my_app)@.test_image.renderable(),
        saved_view(kept) == (if decoded is Some {
            None
        } else {
            Some(fallback@.saved())
        }),
{
    match decoded {
        Some(picture) => {
            proof {
                use_type_invariant(&picture);
                picture.lemma_renderable();
            }
            my_app.test_image = picture;
            None
        },
        None => {
            let extension = ImageKind::Jpeg.extension();
            my_app.config.file_type = extension.to_owned();
            my_app.test_image = fallback.preview.clone();
            Some(
                SavedImage {
                    path: current_image_path_for(extension),
                    bytes: slice_to_vec(fallback.bytes.as_slice()),
                },
            )
        },
    }
}

/// Decodes a file and puts its picture on show; where it does not decode,
/// the fallback is shown and returned as the file to keep.
pub fn set_test_image_from_path(
    my_app: &mut MyApp,
    file: &ImageFile,
    fallback: &FallbackImage,
) -> (kept: Option<SavedImage>)
    ensures
        final(my_app)@.test_image.renderable(),
        exists|decoded: Option<PreviewImageView>|
            {
                &&& #[trigger] old(my_app)@.picture_shown(decoded, fallback@) == final(my_app)@
                &&& decoded is Some <==> kept is None
                &&& decoded is Some ==> decoder_of(file.bytes@, file.kind) is Some
            },
        kept is Some ==> saved_view(kept) == Some(fallback@.saved()),
        decoder_of(file.bytes@, file.kind) is None ==> kept is Some,
{
    let decoded = decode_or_none(file.bytes.as_slice(), file.kind);
    let ghost seen = picture_view(decoded);
    let kept = show_picture(my_app, decoded, fallback);
    assert(old(my_app)@.picture_shown(seen, fallback@) == my_app@);
    kept
}

/// Marks the start of a fetch: the worker is fetching and the in-progress
/// picture is on show. Returns the address to fetch and the kind of image
/// that it announces.
pub fn start_fetch(my_app: &mut MyApp, in_progress: &PreviewImage) -> (request: (
    String,
    ImageKind,
))
    ensures
        final(my_app)@ == old(my_app)@.fetch_started(in_progress@),
        final(my_app)@.test_image.renderable(),
        request.0@ == old(my_app)@.config.image_address,
        request.1 == inferred_kind(old(my_app)@.config.image_address),
{
    let address = my_app.config.image_address.clone();
    let kind = infer_image_kind(address.as_str());
    my_app.status = Activity::Fetching;
    my_app.test_image = in_progress.clone();
    (address, kind)
}

/// Puts the outcome of a fetch on record, with the moment it ended, and
/// returns the file to write.
pub fn record_fetch(my_app: &mut MyApp, outcome: FetchOutcome, fetched_at: String) -> (saved:
    SavedImage)
    ensures
        final(my_app)@ == old(my_app)@.fetch_recorded(outcome@, fetched_at@),
        saved@ == outcome@.saved(),
{
    let extension = outcome.kind.extension();
    my_app.config.file_type = extension.to_owned();
    my_app.status = Activity::Idle;
    my_app.last_fetch_result = outcome.result;
    my_app.last_fetch_time = Some(fetched_at);
    my_app.test_image = outcome.preview;
    SavedImage { path: current_image_path_for(extension), bytes: outcome.bytes }
}

/// Completes a fetch: decodes what the transport delivered (`None` where it
/// failed), decides the outcome, puts it on record with the current time and
/// returns the file to write. Whatever the transport and the decoder did, the
/// worker is idle afterwards and a renderable picture is on show.
pub fn fetch_pic(
    my_app: &mut MyApp,
    kind: ImageKind,
    transport: Option<Vec<u8>>,
    fallback: &FallbackImage,
) -> (saved: SavedImage)
    ensures
        exists|decoded: Option<PreviewImageView>, at: Seq<char>|
            {
                &&& #[trigger] old(my_app)@.fetch_completed(
                    kind,
                    bytes_view(transport),
                    decoded,
                    at,
                    fallback@,
                ) == (final(my_app)@, saved@)
                &&& decoded is Some ==> body_decoder(bytes_view(transport), kind) is Some
            },
        final(my_app)@.status == Activity::Idle,
        final(my_app)@.test_image.renderable(),
        final(my_app)@.last_fetch_time is Some,
        final(my_app)@.last_fetch_result == (if transport is Some {
            FetchResult::Succeeded
        } else {
            FetchResult::Failed
        }),
        body_decoder(bytes_view(transport), kind) is None ==> {
            &&& final(my_app)@.test_image == fallback@.preview
            &&& final(my_app)@.config.file_type == ImageKind::Jpeg.extension_text()
            &&& saved@ == fallback@.saved()
        },
{
    let decoded = decode_body(&transport, kind);
    let ghost seen = picture_view(decoded);
    let outcome = resolve_fetch(kind, transport, decoded, fallback);
    let fetched_at = local_time_text(AppConstants::FETCH_TIME_FORMAT);
    let ghost at = fetched_at@;
    let saved = record_fetch(my_app, outcome, fetched_at);
    assert(old(my_app)@.fetch_completed(kind, bytes_view(transport), seen, at, fallback@) == (
        my_app@,
        saved@,
    ));
    saved
}

} // verus!

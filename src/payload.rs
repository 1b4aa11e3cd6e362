use vstd::prelude::*;

use crate::error::XtractError;

verus! {

#[verifier::external_type_specification]
#[verifier::external_body]
pub struct ExDynamicImage(::image::DynamicImage);

/// The PNG file that the image crate writes for `img`.
pub uninterp spec fn png_of(img: ::image::DynamicImage) -> Seq<u8>;

/// Whether the image crate can write `img` as PNG.
pub uninterp spec fn png_encodable(img: ::image::DynamicImage) -> bool;

/// The standard base64 alphabet encoding of `bytes`, padded, without line
/// breaks.
pub uninterp spec fn base64_standard(bytes: Seq<u8>) -> Seq<char>;

/// The eight bytes that open every PNG file.
pub open spec fn png_signature() -> Seq<u8> {
    seq![137u8, 80u8, 78u8, 71u8, 13u8, 10u8, 26u8, 10u8]
}

/// `bytes` opens with the PNG signature.
pub open spec fn starts_as_png(bytes: Seq<u8>) -> bool {
    bytes.len() >= 8 && bytes.subrange(0, 8) == png_signature()
}

/// The base64 PNG payload of an image.
pub open spec fn base64_png_of(img: ::image::DynamicImage) -> Seq<char> {
    base64_standard(png_of(img))
}

/// An image as the decoder produced it. Only `load_image` makes one, so its
/// pixel buffer has exactly the size that its dimensions and colour type
/// call for, which is what the encoders expect.
#[derive(Debug)]
pub struct DecodedImage {
    image: ::image::DynamicImage,
}

impl DecodedImage {
    /// The decoded image.
    pub closed spec fn image(&self) -> ::image::DynamicImage {
        self.image
    }
}

/// Relies on `image::load_from_memory`: the format is guessed from the
/// content, and the decoder's output fills a buffer sized from the decoded
/// dimensions. Whether it succeeds is not stated: format detection and
/// decoding consult hooks that any code in the process may register.
#[verifier::external_body]
fn decode_image(bytes: &[u8]) -> (r: Result<DecodedImage, String>) {
    ::image::load_from_memory(bytes).map(|image| DecodedImage { image }).map_err(|e| e.to_string())
}

/// Relies on `image::DynamicImage::write_to` with `ImageFormat::Png` into an
/// empty in-memory buffer: the result depends on the image alone, and the PNG
/// encoder writes the signature first. The image comes from the decoder, so
/// its buffer length matches what the encoder checks.
#[verifier::external_body]
fn encode_png(img: &DecodedImage) -> (r: Result<Vec<u8>, String>)
    ensures
        r is Ok <==> png_encodable(img.image()),
        r matches Ok(b) ==> b@ == png_of(img.image()) && starts_as_png(b@),
{
    let mut buffer = std::io::Cursor::new(Vec::new());
    match img.image.write_to(&mut buffer, ::image::ImageFormat::Png) {
        Ok(()) => Ok(buffer.into_inner()),
        Err(e) => Err(e.to_string()),
    }
}

/// Relies on `base64::engine::general_purpose::STANDARD.encode`: padded
/// output, four characters for every three bytes or part of them.
#[verifier::external_body]
fn base64_encode(bytes: &[u8]) -> (r: String)
    ensures
        r@ == base64_standard(bytes@),
        r@.len() == 4 * ((bytes@.len() + 2) / 3),
{
    ::base64::Engine::encode(&::base64::engine::general_purpose::STANDARD, bytes)
}

/// Decodes the contents of an image file, whatever its format.
pub fn load_image(bytes: &[u8]) -> (r: Result<DecodedImage, XtractError>)
    ensures
        r matches Err(e) ==> e is Load,
{
    match decode_image(bytes) {
        Ok(img) => Ok(img),
        Err(detail) => Err(XtractError::Load { detail }),
    }
}

/// `r` is what encoding `img` as base64 PNG gives: the payload exactly when
/// the image can be written as PNG, an encode error otherwise.
pub open spec fn encoding_outcome(img: DecodedImage, r: Result<String, XtractError>) -> bool {
    &&& r is Ok <==> png_encodable(img.image())
    &&& r matches Ok(s) ==> s@ == base64_png_of(img.image())
    &&& r matches Err(e) ==> e is Encode
}

/// Re-encodes an image as PNG and writes the file as base64 text.
pub fn encode_image_to_base64(img: &DecodedImage) -> (r: Result<String, XtractError>)
    ensures
        encoding_outcome(*img, r),
        r matches Ok(s) ==> starts_as_png(png_of(img.image())),
{
    match encode_png(img) {
        Ok(png) => Ok(base64_encode(png.as_slice())),
        Err(detail) => Err(XtractError::Encode { detail }),
    }
}

/// Encoding is a pure function of the image: two encodings of one image
/// agree in success and in the payload.
pub proof fn lemma_encoding_deterministic(
    img: DecodedImage,
    r1: Result<String, XtractError>,
    r2: Result<String, XtractError>,
)
    requires
        encoding_outcome(img, r1),
        encoding_outcome(img, r2),
    ensures
        r1 is Ok <==> r2 is Ok,
        r1 matches Ok(s1) ==> (r2 matches Ok(s2) && s1@ == s2@),
{
}

/// The base64 PNG payload of an image file: decode, then re-encode as PNG.
/// A file that does not decode fails with a load error, before any encoding;
/// otherwise the outcome is that of encoding the decoded image.
pub fn image_file_to_base64(bytes: &[u8]) -> (r: Result<String, XtractError>)
    ensures
        (r matches Err(e) && e is Load) || exists|img: DecodedImage| #[trigger]
            encoding_outcome(img, r),
{
    let img = match load_image(bytes) {
        Ok(img) => img,
        Err(e) => return Err(e),
    };
    let r = encode_image_to_base64(&img);
    assert(encoding_outcome(img, r));
    r
}

} // verus!

//! Textures: decoding an image file into pixels, and the texture made of them.
use crate::renderer::RenderError;
use vstd::prelude::*;
use vstd::string::StringExecFns;

verus! {

/// A texture, by its handle, with the size of its image in pixels.
#[derive(Debug, PartialEq, Eq)]
pub struct Texture {
    pub texture: u32,
    pub width: u32,
    pub height: u32,
}

/// An image as rows of pixels, bottom row first, four bytes per pixel: red,
/// green, blue and alpha.
#[derive(Debug, Clone, PartialEq, Eq)]
pub struct Pixels {
    pub width: u32,
    pub height: u32,
    pub data: Vec<u8>,
}

/// What came of decoding the bytes of an image file.
#[derive(Debug, Clone, PartialEq, Eq)]
pub enum Decoded {
    /// The image, flipped vertically, as red, green, blue and alpha bytes.
    Image(Pixels),
    /// The bytes could not be searched for a format.
    UnknownFormat,
    /// The bytes are no image that can be decoded; the text says why.
    Undecodable(String),
}

impl Pixels {
    /// The data holds exactly four bytes for each pixel.
    pub open spec fn wf(self) -> bool {
        self.data@.len() == self.width * self.height * 4
    }
}

/// The error for an image file that could not be read.
pub open spec fn not_found_text(path: Seq<char>) -> Seq<char> {
    "couldn't find: "@ + path
}

/// The error for image data that could not be decoded.
pub open spec fn undecodable_text(reason: Seq<char>) -> Seq<char> {
    "couldn't decode image"@ + reason
}

/// Decodes the bytes of an image file with the `image` crate: guesses the
/// format from the content (`ImageReader::with_guessed_format`), decodes
/// (`ImageReader::decode`), flips the image vertically (`DynamicImage::flipv`)
/// and converts it to eight-bit RGBA (`DynamicImage::to_rgba8`). Nothing is
/// claimed of the outcome: which formats are known depends on what the
/// process has registered with that crate.
#[verifier::external_body]
fn decode_image(source: &[u8]) -> Decoded {
    let reader = image::ImageReader::new(std::io::Cursor::new(source));
    let reader = match reader.with_guessed_format() {
        Ok(reader) => reader,
        Err(_) => return Decoded::UnknownFormat,
    };
    match reader.decode() {
        Ok(image) => {
            let image = image.flipv().to_rgba8();
            let (width, height) = (image.width(), image.height());
            Decoded::Image(Pixels { width, height, data: image.into_raw() })
        },
        Err(e) => Decoded::Undecodable(e.to_string()),
    }
}

impl Texture {
    /// The texture with the given handle and image size.
    pub fn new(texture: u32, width: u32, height: u32) -> (r: Self)
        ensures
            r.texture == texture,
            r.width == width,
            r.height == height,
    {
        Self { texture, width, height }
    }

    /// The texture that the graphics API made, under `texture`, of `pixels`.
    pub fn from_pixels(texture: u32, pixels: &Pixels) -> (r: Self)
        ensures
            r.texture == texture,
            r.width == pixels.width,
            r.height == pixels.height,
    {
        Self { texture, width: pixels.width, height: pixels.height }
    }

    /// The error for a texture whose image file at `path` could not be read.
    pub fn unreadable(path: &str) -> (r: RenderError)
        ensures
            r.is_texture_error(not_found_text(path@)),
    {
        RenderError::TextureError(String::from_str("couldn't find: ").concat(path))
    }

    /// Judges the outcome of decoding an image: the pixels if they are as
    /// many as the image's size asks for, and a texture error otherwise.
    pub fn decoded(outcome: Decoded) -> (r: Result<Pixels, RenderError>)
        ensures
            match outcome {
                Decoded::Image(pixels) => if pixels.wf() {
                    r == Ok::<Pixels, RenderError>(pixels)
                } else {
                    r is Err && r->Err_0.is_texture_error("decoded image has the wrong size"@)
                },
                Decoded::UnknownFormat => r is Err && r->Err_0.is_texture_error(
                    "couldn't guess format"@,
                ),
                Decoded::Undecodable(reason) => r is Err && r->Err_0.is_texture_error(
                    undecodable_text(reason@),
                ),
            },
    {
        match outcome {
            Decoded::Image(pixels) => {
                let width = pixels.width as u128;
                let height = pixels.height as u128;
                assert(width * height <= 0xFFFF_FFFF * 0xFFFF_FFFF) by (nonlinear_arith)
                    requires
                        width <= 0xFFFF_FFFF,
                        height <= 0xFFFF_FFFF,
                ;
                if pixels.data.len() as u128 == width * height * 4 {
                    Ok(pixels)
                } else {
                    Err(
                        RenderError::TextureError(
                            String::from_str("decoded image has the wrong size"),
                        ),
                    )
                }
            },
            Decoded::UnknownFormat => Err(
                RenderError::TextureError(String::from_str("couldn't guess format")),
            ),
            Decoded::Undecodable(reason) => Err(
                RenderError::TextureError(
                    String::from_str("couldn't decode image").concat(reason.as_str()),
                ),
            ),
        }
    }

    /// Decodes the bytes of an image file into pixels, bottom row first.
    /// Whatever the decoder makes of the bytes, pixels that are returned are
    /// well formed, and a failure is a texture error.
    pub fn decode(source: &[u8]) -> (r: Result<Pixels, RenderError>)
        ensures
            r is Ok ==> r->Ok_0.wf(),
            r is Err ==> r->Err_0 is TextureError,
    {
        Self::decoded(decode_image(source))
    }
}

} // verus!

//! Decoding the texture that the quad shows from the bytes of a PNG file.
use vstd::prelude::*;

verus! {

/// The error that the `png` crate reports when it cannot decode an image.
#[verifier::external_type_specification]
#[verifier::external_body]
pub struct ExDecodingError(png::DecodingError);

/// The width and height that the header of the PNG image `png` gives, as
/// `png::Decoder::read_info` reads them; `None` where `read_info` fails.
pub uninterp spec fn png_header_size(png: Seq<u8>) -> Option<(u32, u32)>;

/// What decoding the first frame of the PNG image `png` into a buffer that
/// holds `buf` gives: whether `png::Reader::next_frame` succeeded, and what
/// the buffer holds after the call.
pub uninterp spec fn png_frame_decode(png: Seq<u8>, buf: Seq<u8>) -> (bool, Seq<u8>);

/// Reads the header of a PNG image held in memory with
/// `png::Decoder::new(..).read_info()` and returns the width and height of its
/// `png::Info`. Claimed: the call fails exactly where `png_header_size` is
/// `None`, and gives its value otherwise.
#[verifier::external_body]
fn png_image_size(png: &[u8]) -> (r: Result<(u32, u32), png::DecodingError>)
    ensures
        r is Ok <==> png_header_size(png@) is Some,
        r matches Ok(size) ==> png_header_size(png@) == Some(size),
{
    let reader = png::Decoder::new(std::io::Cursor::new(png)).read_info()?;
    let info = reader.info();
    Ok((info.width, info.height))
}

/// Reads the header of a PNG image held in memory with
/// `png::Decoder::new(..).read_info()`, then decodes its first frame into
/// `buf` with `png::Reader::next_frame`. Claimed: the call succeeds and `buf`
/// ends up holding exactly what `png_frame_decode` names; a slice keeps its
/// length. What `next_frame` writes is not stated beyond that name.
#[verifier::external_body]
fn png_decode_frame_into(png: &[u8], buf: &mut [u8]) -> (r: Result<(), png::DecodingError>)
    ensures
        r is Ok == png_frame_decode(png@, old(buf)@).0,
        final(buf)@ == png_frame_decode(png@, old(buf)@).1,
        final(buf)@.len() == old(buf)@.len(),
{
    let mut reader = png::Decoder::new(std::io::Cursor::new(png)).read_info()?;
    reader.next_frame(buf)?;
    Ok(())
}

/// Why the texture could not be loaded.
#[derive(Clone, Copy, Debug, PartialEq, Eq, Structural)]
pub enum TextureError {
    /// The bytes are not a PNG image that the decoder can read.
    InvalidPng,
    /// The image has more pixels than a 32-bit byte count can hold at four
    /// bytes per pixel.
    TooLarge,
}

/// The library's error for an error of the PNG decoder.
pub fn texture_error_from_png(_e: png::DecodingError) -> (r: TextureError)
    ensures
        r == TextureError::InvalidPng,
{
    TextureError::InvalidPng
}

/// The number of bytes of a `width` × `height` image with four bytes per pixel.
pub open spec fn rgba_byte_len(width: u32, height: u32) -> int {
    width * height * 4
}

/// The number of bytes of the staging buffer for a `width` × `height` image
/// with four bytes per pixel.
pub fn texture_byte_len(width: u32, height: u32) -> (r: u32)
    requires
        rgba_byte_len(width, height) <= u32::MAX,
    ensures
        r == rgba_byte_len(width, height),
        r == width * height * 4,
{
    proof {
        assert(width * height <= width * height * 4) by (nonlinear_arith)
            requires
                0 <= width,
                0 <= height,
        ;
    }
    width * height * 4
}

/// The number of bytes of the staging buffer for a `width` × `height` image
/// with four bytes per pixel, or `None` where it does not fit in 32 bits.
pub fn checked_texture_byte_len(width: u32, height: u32) -> (r: Option<u32>)
    ensures
        r is None <==> rgba_byte_len(width, height) > u32::MAX,
        r matches Some(n) ==> n == rgba_byte_len(width, height),
        r is None <==> width * height * 4 > u32::MAX,
        r matches Some(n) ==> n == width * height * 4,
{
    proof {
        assert(width * height <= 0xffff_ffffu64 * 0xffff_ffffu64) by (nonlinear_arith)
            requires
                width <= 0xffff_ffffu64,
                height <= 0xffff_ffffu64,
        ;
    }
    let wh: u64 = width as u64 * height as u64;
    if wh > 0x3fff_ffff {
        proof {
            assert(wh * 4 > u32::MAX);
        }
        None
    } else {
        Some(texture_byte_len(width, height))
    }
}

/// A decoded texture: its size and the bytes of its pixels, as the decoder
/// wrote them into a zeroed buffer of four bytes per pixel.
#[derive(Debug)]
pub struct Texture {
    pub width: u32,
    pub height: u32,
    pub pixels: Vec<u8>,
}

/// The extent of the image that holds a texture: its width, its height and a
/// depth of one.
pub fn image_extent(width: u32, height: u32) -> (r: [u32; 3])
    ensures
        r@ == seq![width, height, 1u32],
{
    let r: [u32; 3] = [width, height, 1];
    assert(r@ =~= seq![width, height, 1u32]);
    r
}

/// The zeroed staging buffer of `n` bytes that the frame is decoded into.
pub open spec fn zeroed(n: int) -> Seq<u8> {
    Seq::new(n as nat, |_i: int| 0u8)
}

/// What loading the texture from the PNG bytes `png` gives.
pub open spec fn spec_load_texture(png: Seq<u8>) -> Result<(u32, u32, Seq<u8>), TextureError> {
    match png_header_size(png) {
        None => Err(TextureError::InvalidPng),
        Some((w, h)) => if rgba_byte_len(w, h) > u32::MAX {
            Err(TextureError::TooLarge)
        } else {
            let out = png_frame_decode(png, zeroed(rgba_byte_len(w, h)));
            if out.0 {
                Ok((w, h, out.1))
            } else {
                Err(TextureError::InvalidPng)
            }
        },
    }
}

impl Texture {
    /// Decodes a texture from the bytes of a PNG image: reads the size from
    /// the header, makes a zeroed buffer of four bytes per pixel, and decodes
    /// the first frame into it.
    pub fn from_png(png: &[u8]) -> (r: Result<Texture, TextureError>)
        ensures
            r matches Ok(t) ==> spec_load_texture(png@) == Ok::<_, TextureError>((t.width, t.height, t.pixels@)),
            r matches Ok(t) ==> t.pixels@.len() == rgba_byte_len(t.width, t.height),
            r matches Err(e) ==> spec_load_texture(png@) == Err::<(u32, u32, Seq<u8>), _>(e),
            r matches Ok(t) ==> {
                &&& png_header_size(png@) == Some((t.width, t.height))
                &&& t.width * t.height * 4 <= u32::MAX
                &&& t.pixels@.len() == t.width * t.height * 4
                &&& png_frame_decode(
                    png@,
                    Seq::new((t.width * t.height * 4) as nat, |_i: int| 0u8),
                ) == (true, t.pixels@)
            },
            png_header_size(png@) is None ==> r == Err::<Texture, _>(TextureError::InvalidPng),
            png_header_size(png@) matches Some((w, h)) ==> {
                &&& w * h * 4 > u32::MAX ==> r == Err::<Texture, _>(TextureError::TooLarge)
                &&& w * h * 4 <= u32::MAX ==> (r is Ok <==> png_frame_decode(
                    png@,
                    Seq::new((w * h * 4) as nat, |_i: int| 0u8),
                ).0)
                &&& w * h * 4 <= u32::MAX && r is Err ==> r == Err::<Texture, _>(TextureError::InvalidPng)
            },
    {
        let (width, height) = match png_image_size(png) {
            Ok(size) => size,
            Err(e) => {
                return Err(texture_error_from_png(e));
            },
        };
        let len: u32 = match checked_texture_byte_len(width, height) {
            Some(n) => n,
            None => {
                return Err(TextureError::TooLarge);
            },
        };
        let mut pixels: Vec<u8> = vec![0u8; len as usize];
        assert(pixels@ =~= zeroed(rgba_byte_len(width, height)));
        match png_decode_frame_into(png, pixels.as_mut_slice()) {
            Ok(()) => Ok(Texture { width, height, pixels }),
            Err(e) => Err(texture_error_from_png(e)),
        }
    }
}

} // verus!

verus! {

/// A texture that loads has the width and height of the image's header, in
/// that order, four bytes per pixel in a size that fits 32 bits, and the
/// bytes that decoding the frame into a zeroed buffer of that size gives.
pub proof fn lemma_loaded_texture_follows_header(png: Seq<u8>)
    ensures
        spec_load_texture(png) matches Ok((w, h, pixels)) ==> {
            &&& png_header_size(png) == Some((w, h))
            &&& w * h * 4 <= u32::MAX
            &&& png_frame_decode(png, Seq::new((w * h * 4) as nat, |_i: int| 0u8)) == (true, pixels)
        },
        png_header_size(png) is None ==> spec_load_texture(png) == Err::<(u32, u32, Seq<u8>), _>(
            TextureError::InvalidPng,
        ),
        png_header_size(png) matches Some((w, h)) ==> (w * h * 4 > u32::MAX ==> spec_load_texture(
            png,
        ) == Err::<(u32, u32, Seq<u8>), _>(TextureError::TooLarge)),
{
    if let Some((w, h)) = png_header_size(png) {
        assert(zeroed(rgba_byte_len(w, h)) =~= Seq::new((w * h * 4) as nat, |_i: int| 0u8));
    }
}

/// The staging buffer holds four bytes per pixel.
pub proof fn lemma_rgba_byte_len(width: u32, height: u32)
    ensures
        rgba_byte_len(width, height) == width * height * 4,
{
}

} // verus!

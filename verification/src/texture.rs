//! Texture lookups that do not depend on floating point: the checker
//! pattern's cell parity and texel fetches from a decoded RGB image.

use vstd::prelude::*;

verus! {

/// The checker cell `(x, y, z)` takes the even colour when the sum of its
/// coordinates is even.
pub open spec fn spec_checker_is_even(x: int, y: int, z: int) -> bool {
    (x + y + z) % 2 == 0
}

/// Whether the checker cell with integer coordinates `(x, y, z)` takes the
/// even colour (otherwise it takes the odd one).
pub fn checker_is_even(x: i32, y: i32, z: i32) -> (even: bool)
    ensures
        even == spec_checker_is_even(x as int, y as int, z as int),
{
    let sum: i64 = x as i64 + y as i64 + z as i64;
    let r: i64 = sum % 2;
    r == 0
}

/// Neighbouring checker cells, along any axis, take different colours, and
/// the cell at the origin takes the even colour.
pub proof fn lemma_checker_neighbours_differ(x: int, y: int, z: int)
    ensures
        spec_checker_is_even(0, 0, 0),
        spec_checker_is_even(x + 1, y, z) != spec_checker_is_even(x, y, z),
        spec_checker_is_even(x, y + 1, z) != spec_checker_is_even(x, y, z),
        spec_checker_is_even(x, y, z + 1) != spec_checker_is_even(x, y, z),
{
}

/// Why an image could not become a texture.
#[derive(Clone, Copy, Debug, PartialEq, Eq, Structural)]
pub enum TextureError {
    /// The bytes are not an image in the format that the extension names,
    /// or the extension names no supported format.
    Undecodable,
    /// The pixel data is shorter than the image's size requires.
    Truncated,
}

/// The result of decoding `bytes` as an image in the format that the file
/// extension `extension` names, converted to 8-bit RGB: its width, its
/// height and its row-major samples (`r, g, b` per pixel); `None` where the
/// extension names no supported format or the bytes do not decode.
pub uninterp spec fn decoded_rgb8(bytes: Seq<u8>, extension: Seq<char>) -> Option<(u32, u32, Seq<u8>)>;

/// Decodes `bytes` with `image::load_from_memory_with_format`, in the format
/// that `image::ImageFormat::from_extension` gives for `extension`, and
/// converts the image to 8-bit RGB (`to_rgb8`, `dimensions`, `into_raw`).
/// The contract only ties the result to the name `decoded_rgb8` of the two
/// arguments; what the decoders compute is not stated.
#[verifier::external_body]
fn decode_rgb8(bytes: &[u8], extension: &str) -> (res: Option<(u32, u32, Vec<u8>)>)
    ensures
        match res {
            Some((w, h, data)) => decoded_rgb8(bytes@, extension@) == Some((w, h, data@)),
            None => decoded_rgb8(bytes@, extension@) is None,
        },
{
    let format = image::ImageFormat::from_extension(extension)?;
    let img = image::load_from_memory_with_format(bytes, format).ok()?.to_rgb8();
    let (width, height) = img.dimensions();
    Some((width, height, img.into_raw()))
}

/// The number of samples an RGB image of `width` by `height` needs.
pub open spec fn rgb_len(width: nat, height: nat) -> nat {
    3 * (width * height)
}

/// An 8-bit RGB image used as a texture; repeats over UV.
pub struct ImageTexture {
    width: u32,
    height: u32,
    data: Vec<u8>,
}

impl View for ImageTexture {
    type V = (u32, u32, Seq<u8>);

    closed spec fn view(&self) -> (u32, u32, Seq<u8>) {
        (self.width, self.height, self.data@)
    }
}

impl ImageTexture {
    #[verifier::type_invariant]
    closed spec fn holds_all_pixels(self) -> bool {
        self.data@.len() >= rgb_len(self.width as nat, self.height as nat)
    }

    /// Makes a texture of `width` by `height` pixels from row-major RGB
    /// samples; refused where there are fewer samples than pixels need.
    pub fn from_rgb8(width: u32, height: u32, data: Vec<u8>) -> (res: Result<ImageTexture, TextureError>)
        ensures
            data@.len() >= rgb_len(width as nat, height as nat) <==> res is Ok,
            res matches Ok(tex) ==> tex@ == (width, height, data@),
            res matches Err(e) ==> e == TextureError::Truncated,
    {
        let w: u128 = width as u128;
        let h: u128 = height as u128;
        assert(w * h <= 0xffff_ffff_ffff_ffff_ffff_ffff) by (nonlinear_arith)
            requires
                w <= 0xffff_ffff,
                h <= 0xffff_ffff,
        ;
        let need: u128 = 3 * (w * h);
        if (data.len() as u128) < need {
            Err(TextureError::Truncated)
        } else {
            Ok(ImageTexture { width, height, data })
        }
    }

    /// Decodes an image file's bytes, in the format its extension names, into
    /// a texture.
    pub fn decode(bytes: &[u8], extension: &str) -> (res: Result<ImageTexture, TextureError>)
        ensures
            match decoded_rgb8(bytes@, extension@) {
                None => res == Err::<ImageTexture, TextureError>(TextureError::Undecodable),
                Some((w, h, data)) => {
                    &&& data.len() >= rgb_len(w as nat, h as nat) <==> res is Ok
                    &&& res matches Ok(tex) ==> tex@ == (w, h, data)
                    &&& res matches Err(e) ==> e == TextureError::Truncated
                },
            },
    {
        match decode_rgb8(bytes, extension) {
            None => Err(TextureError::Undecodable),
            Some((w, h, data)) => ImageTexture::from_rgb8(w, h, data),
        }
    }

    pub fn width(&self) -> (w: u32)
        ensures
            w == self@.0,
    {
        self.width
    }

    pub fn height(&self) -> (h: u32)
        ensures
            h == self@.1,
    {
        self.height
    }

    /// The pixel that `texel` reads for the raw indices `(i, j)`: each index
    /// clamped to the last column or row.
    pub open spec fn texel_index(&self, i: u32, j: u32) -> int {
        let ic = if i < self@.0 { i as int } else { self@.0 - 1 };
        let jc = if j < self@.1 { j as int } else { self@.1 - 1 };
        jc * self@.0 + ic
    }

    /// The RGB samples of pixel `(i, j)`, each index clamped to the image
    /// (column `i`, row `j`, row 0 at the top).
    pub fn texel(&self, i: u32, j: u32) -> (px: [u8; 3])
        requires
            self@.0 > 0,
            self@.1 > 0,
        ensures
            px[0] == self@.2[3 * self.texel_index(i, j)],
            px[1] == self@.2[3 * self.texel_index(i, j) + 1],
            px[2] == self@.2[3 * self.texel_index(i, j) + 2],
    {
        proof {
            use_type_invariant(self);
        }
        let ic: u32 = if i < self.width { i } else { self.width - 1 };
        let jc: u32 = if j < self.height { j } else { self.height - 1 };
        let w = self.width;
        let h = self.height;
        let len = self.data.len();
        assert(jc * w + ic < w * h && 3 * (jc * w + ic) + 2 < 3 * (w * h)) by (nonlinear_arith)
            requires
                jc < h,
                ic < w,
        ;
        let k: usize = (jc as usize) * (w as usize) + (ic as usize);
        let base: usize = 3 * k;
        [self.data[base], self.data[base + 1], self.data[base + 2]]
    }
}

} // verus!

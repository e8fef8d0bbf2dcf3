//! The texture atlas: an RGBA8 image plus grid metadata addressing equal
//! rectangular cells. Decoding goes through the `image` crate behind trusted
//! wrappers; the GPU upload and sampler/bind-group construction are the
//! backend's, done by the application layer from the validated data here.
//! A grid of `(1, 1)` recovers plain, non-atlas texturing.

use crate::bytes::le4;
use crate::bytes::push_le4;
use vstd::prelude::*;

verus! {

#[verifier::external_type_specification]
#[verifier::external_body]
pub struct ExDynamicImage(image::DynamicImage);

#[verifier::external_type_specification]
#[verifier::external_body]
pub struct ExImageError(image::error::ImageError);

/// What decoding the byte sequence to an RGBA8 image yields — the
/// dimensions and pixel data, or nothing where the bytes do not decode.
/// Decoding is a pure function of the bytes.
pub uninterp spec fn decoded_rgba(bytes: Seq<u8>) -> Option<(u32, u32, Seq<u8>)>;

/// Relies on `image::load_from_memory` (format guessed from the bytes, `Ok`
/// exactly when they decode; a pure function of the byte sequence) followed
/// by `image::DynamicImage::to_rgba8` (an RGBA8 pixel container of exactly
/// `width * height * 4` bytes).
#[verifier::external_body]
fn decode_to_rgba(raw: &[u8]) -> (r: Result<(u32, u32, Vec<u8>), image::error::ImageError>)
    ensures
        r.is_ok() == (decoded_rgba(raw@) is Some),
        r matches Ok(t) ==> decoded_rgba(raw@) == Some((t.0, t.1, t.2@)) && t.2@.len() == t.0
            as nat * t.1 as nat * 4,
{
    let img = match image::load_from_memory(raw) {
        Ok(img) => img,
        Err(e) => return Err(e),
    };
    let rgba = img.to_rgba8();
    let (width, height) = rgba.dimensions();
    Ok((width, height, rgba.into_raw()))
}

/// What converting an already decoded image to RGBA8 yields — its
/// dimensions and pixel data. The conversion is a pure function of the
/// image value.
pub uninterp spec fn image_rgba_of(img: image::DynamicImage) -> (u32, u32, Seq<u8>);

/// Relies on `image::DynamicImage::to_rgba8`: the conversion to an RGBA
/// image with 8-bit channels is a pure function of the image and yields a
/// pixel container holding exactly `width * height * 4` bytes.
#[verifier::external_body]
fn image_rgba(img: &image::DynamicImage) -> (r: (u32, u32, Vec<u8>))
    ensures
        (r.0, r.1, r.2@) == image_rgba_of(*img),
        r.2@.len() == r.0 as nat * r.1 as nat * 4,
{
    let rgba = img.to_rgba8();
    let (width, height) = rgba.dimensions();
    (width, height, rgba.into_raw())
}

/// Why a texture could not be built.
#[derive(Debug)]
pub enum TextureError {
    /// The bytes did not decode as an image.
    Decode(image::error::ImageError),
}

/// A validated atlas image: RGBA8 pixel data and the grid metadata the
/// fragment stage uses to remap a unit uv into the selected cell.
#[derive(Debug)]
pub struct Texture {
    pub width: u32,
    pub height: u32,
    pub grid_width: u32,
    pub grid_height: u32,
    pub rgba: Vec<u8>,
}

impl Texture {
    /// The pixel data is full RGBA8 coverage of the dimensions, and the
    /// grid is non-degenerate.
    pub open spec fn wf(self) -> bool {
        &&& self.rgba@.len() == self.width as nat * self.height as nat * 4
        &&& self.grid_width >= 1
        &&& self.grid_height >= 1
    }

    /// The documented atlas contract: the grid tiles the image into equal
    /// whole-pixel cells. It is a contract on the caller's assets, not a
    /// runtime check — `from_bytes` does not reject an image that breaks it.
    pub open spec fn evenly_tiled(self) -> bool {
        &&& self.width % self.grid_width == 0
        &&& self.height % self.grid_height == 0
    }

    /// The documented contract on an instance's atlas index against this
    /// texture: each coordinate lies inside the grid. Unchecked at the API
    /// boundary, as the data model states.
    pub open spec fn uv_index_in_grid(self, uv_index: [u32; 2]) -> bool {
        &&& uv_index[0] < self.grid_width
        &&& uv_index[1] < self.grid_height
    }

    /// Decode an image from raw file bytes and attach atlas grid metadata.
    /// Succeeds exactly when the bytes decode, and then holds exactly the
    /// decoded dimensions and RGBA8 pixels.
    pub fn from_bytes(bytes: &[u8], grid_width: u32, grid_height: u32) -> (r: Result<
        Texture,
        TextureError,
    >)
        requires
            grid_width >= 1,
            grid_height >= 1,
        ensures
            r.is_ok() == (decoded_rgba(bytes@) is Some),
            r matches Ok(t) ==> t.wf() && t.grid_width == grid_width && t.grid_height
                == grid_height && decoded_rgba(bytes@) == Some((t.width, t.height, t.rgba@)),
    {
        match decode_to_rgba(bytes) {
            Ok((width, height, rgba)) => Ok(
                Texture { width, height, grid_width, grid_height, rgba },
            ),
            Err(e) => Err(TextureError::Decode(e)),
        }
    }

    /// Attach atlas grid metadata to an already decoded image. Never
    /// fails — every decoded image converts to RGBA8 — and the texture then
    /// holds exactly the image's dimensions and RGBA8 pixels.
    pub fn from_image(img: &image::DynamicImage, grid_width: u32, grid_height: u32) -> (r: Result<
        Texture,
        TextureError,
    >)
        requires
            grid_width >= 1,
            grid_height >= 1,
        ensures
            r.is_ok(),
            r matches Ok(t) ==> t.wf() && t.grid_width == grid_width && t.grid_height
                == grid_height && (t.width, t.height, t.rgba@) == image_rgba_of(*img),
    {
        let (width, height, rgba) = image_rgba(img);
        Ok(Texture { width, height, grid_width, grid_height, rgba })
    }

    /// An opaque-black blank texture of the given size with the degenerate
    /// `(1, 1)` grid: the fallback bound when a draw supplies no texture.
    pub fn blank(width: u32, height: u32) -> (r: Texture)
        requires
            width >= 1,
            height >= 1,
            width as nat * height as nat * 4 <= 0xffff_ffff,
        ensures
            r.wf(),
            r.width == width,
            r.height == height,
            r.grid_width == 1,
            r.grid_height == 1,
            forall|i: int| 0 <= i < r.rgba@.len() ==> r.rgba@[i] == 0,
    {
        let total: usize = (width as usize) * (height as usize) * 4;
        let mut rgba: Vec<u8> = Vec::new();
        for i in 0..total
            invariant
                rgba@.len() == i,
                forall|j: int| 0 <= j < i ==> rgba@[j] == 0,
        {
            rgba.push(0);
        }
        Texture { width, height, grid_width: 1, grid_height: 1, rgba }
    }

    /// The atlas grid dimensions.
    pub fn grid_size(&self) -> (r: (u32, u32))
        ensures
            r.0 == self.grid_width,
            r.1 == self.grid_height,
    {
        (self.grid_width, self.grid_height)
    }

    /// The eight little-endian bytes of the grid-size uniform the fragment
    /// stage reads at binding 2.
    pub fn grid_uniform_bytes(&self) -> (r: Vec<u8>)
        ensures
            r@ == le4(self.grid_width) + le4(self.grid_height),
    {
        let mut out: Vec<u8> = Vec::new();
        push_le4(&mut out, self.grid_width);
        push_le4(&mut out, self.grid_height);
        proof {
            assert(out@ =~= le4(self.grid_width) + le4(self.grid_height));
        }
        out
    }
}

} // verus!

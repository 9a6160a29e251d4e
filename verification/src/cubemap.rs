use vstd::prelude::*;

use image::{GenericImageView, ImageFormat};

verus! {

/// What decoding PNG bytes with the `image` crate's own PNG decoder and
/// converting the image to 8-bit RGBA gives: its width, its height and its
/// pixels as RGBA bytes, or `None` when the bytes are not such an image.
pub uninterp spec fn decoded_rgba(bytes: Seq<u8>) -> Option<(u32, u32, Seq<u8>)>;

/// Decodes a PNG image with `image::load_from_memory_with_format` (the
/// built-in decoder, with the default limits) and converts it with
/// `to_rgba8`; the result is what `decoded_rgba` names for the bytes, and
/// the pixels are 4 bytes for each of the width x height pixels.
#[verifier::external_body]
fn decode_rgba(bytes: &[u8]) -> (image: Option<(u32, u32, Vec<u8>)>)
    ensures
        match image {
            Some((width, height, pixels)) => decoded_rgba(bytes@) == Some((width, height, pixels@))
                && pixels@.len() == 4 * width * height,
            None => decoded_rgba(bytes@) is None,
        },
{
    match image::load_from_memory_with_format(bytes, ImageFormat::Png) {
        Ok(decoded) => {
            let (width, height) = decoded.dimensions();
            Some((width, height, decoded.to_rgba8().into_raw()))
        },
        Err(_) => None,
    }
}

/// Number of faces of a cube map.
pub const FACE_COUNT: usize = 6;

/// One face of a cube map, ready to be written to its texture layer.
pub struct CubeFace {
    /// The texture layer of the face.
    pub layer: u32,
    /// The face's pixels as RGBA bytes.
    pub rgba: Vec<u8>,
}

/// A decoded cube map: the size of every layer (the size of the first face),
/// the length of one row of pixels in bytes, and the faces in order
/// (+X, -X, +Y, -Y, +Z, -Z).
pub struct Cubemap {
    pub width: u32,
    pub height: u32,
    pub bytes_per_row: u32,
    pub faces: Vec<CubeFace>,
}

/// Why a cube map could not be decoded.
#[derive(Debug, PartialEq, Eq, Structural)]
pub enum CubemapError {
    /// The face with this index is not a decodable image.
    Undecodable(usize),
    /// A row of the first face is longer than 2^32 - 1 bytes.
    TooWide,
}

/// Width of face `i` as decoded.
pub open spec fn face_width(faces: Seq<&[u8]>, i: int) -> u32 {
    let (width, _height, _pixels) = decoded_rgba(faces[i]@)->0;
    width
}

/// Height of face `i` as decoded.
pub open spec fn face_height(faces: Seq<&[u8]>, i: int) -> u32 {
    let (_width, height, _pixels) = decoded_rgba(faces[i]@)->0;
    height
}

/// RGBA pixels of face `i` as decoded.
pub open spec fn face_pixels(faces: Seq<&[u8]>, i: int) -> Seq<u8> {
    let (_width, _height, pixels) = decoded_rgba(faces[i]@)->0;
    pixels
}

/// `face` holds face `i`: its layer is `i` and its pixels are those of
/// the decoded image, 4 bytes for each pixel.
pub open spec fn face_matches(face: CubeFace, faces: Seq<&[u8]>, i: int) -> bool {
    &&& face.layer == i
    &&& face.rgba@ == face_pixels(faces, i)
    &&& face.rgba@.len() == 4 * face_width(faces, i) * face_height(faces, i)
}

/// Whether face `i` decodes.
pub open spec fn decodes(faces: Seq<&[u8]>, i: int) -> bool {
    decoded_rgba(faces[i]@) is Some
}

/// Decodes the six faces of a skybox: the first face gives the size of every
/// layer, and each face is decoded in turn for the layer of its index.
/// Fails on the first face that does not decode, and when the rows of the
/// first face do not fit in 32 bits; the first face is checked before
/// its row length.
pub fn load_cubemap(faces: &[&[u8]; 6]) -> (cubemap: Result<Cubemap, CubemapError>)
    ensures
        !decodes(faces@, 0) ==> cubemap == Err::<Cubemap, CubemapError>(CubemapError::Undecodable(0)),
        decodes(faces@, 0) && face_width(faces@, 0) * 4 > u32::MAX ==> cubemap == Err::<
            Cubemap,
            CubemapError,
        >(CubemapError::TooWide),
        decodes(faces@, 0) && face_width(faces@, 0) * 4 <= u32::MAX ==> match cubemap {
            Ok(c) => {
                &&& forall|i: int| 0 <= i < FACE_COUNT ==> decodes(faces@, i)
                &&& c.width == face_width(faces@, 0)
                &&& c.height == face_height(faces@, 0)
                &&& c.bytes_per_row == c.width * 4
                &&& c.faces@.len() == FACE_COUNT
                &&& forall|i: int| 0 <= i < FACE_COUNT ==> #[trigger] face_matches(c.faces@[i], faces@, i)
            },
            Err(e) => exists|j: int|
                0 < j < FACE_COUNT && e == CubemapError::Undecodable(j as usize) && !decodes(faces@, j)
                    && forall|i: int| 0 <= i < j ==> #[trigger] decodes(faces@, i),
        },
{
    let (width, height) = match decode_rgba(faces[0]) {
        Some((width, height, _pixels)) => (width, height),
        None => {
            return Err(CubemapError::Undecodable(0));
        },
    };
    if width > u32::MAX / 4 {
        return Err(CubemapError::TooWide);
    }
    let bytes_per_row = width * 4;
    let mut decoded: Vec<CubeFace> = Vec::new();
    let mut i: usize = 0;
    while i < FACE_COUNT
        invariant
            decodes(faces@, 0),
            width == face_width(faces@, 0),
            height == face_height(faces@, 0),
            width * 4 <= u32::MAX,
            i <= FACE_COUNT,
            decoded@.len() == i,
            forall|k: int| 0 <= k < i ==> #[trigger] decodes(faces@, k),
            forall|k: int| 0 <= k < i ==> #[trigger] face_matches(decoded@[k], faces@, k),
        decreases FACE_COUNT - i,
    {
        let bytes: &[u8] = faces[i];
        assert(bytes@ == faces@[i as int]@);
        match decode_rgba(bytes) {
            Some((_width, _height, rgba)) => {
                decoded.push(CubeFace { layer: i as u32, rgba });
                assert(face_matches(decoded@[i as int], faces@, i as int));
            },
            None => {
                assert(i > 0);
                assert(!decodes(faces@, i as int));
                return Err(CubemapError::Undecodable(i));
            },
        }
        i = i + 1;
    }
    Ok(Cubemap { width, height, bytes_per_row, faces: decoded })
}

} // verus!

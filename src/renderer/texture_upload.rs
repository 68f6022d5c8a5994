//! How a texture's pixels are laid out for upload.
use vstd::prelude::*;
use vstd::string::*;
use super::material::Texture;

verus! {

/// Bytes per RGBA8 pixel.
pub const RGBA_BYTES: u32 = 4;

/// The layout of one texture upload: the extent of the image, how its bytes are
/// arranged in rows, and the labels of the GPU objects made for it.
#[derive(Debug, Clone)]
pub struct TextureUploadLayout {
    pub width: u32,
    pub height: u32,
    pub bytes_per_row: u32,
    pub rows_per_image: u32,
    /// The label of the GPU texture: the texture's name.
    pub label: String,
    /// The label of its bind group: the texture's name followed by `_bind_group`.
    pub bind_group_label: String,
}

/// Why a texture cannot be uploaded.
#[derive(Debug, Clone, Copy, PartialEq, Eq, Structural)]
pub enum TextureUploadError {
    /// A row of the image takes more bytes than a `u32` counts.
    RowTooLong,
    /// The pixel data is not four bytes for each pixel.
    DataSizeMismatch,
}

/// The bytes in one row of RGBA8 pixels, `width` pixels wide.
pub open spec fn row_bytes(width: u32) -> int {
    RGBA_BYTES * width
}

impl TextureUploadLayout {
    /// Lays out the upload of `texture`: rows of four bytes per pixel, one image of
    /// `height` rows.
    pub fn for_texture(texture: &Texture) -> (r: Result<TextureUploadLayout, TextureUploadError>)
        ensures
            match r {
                Ok(layout) => row_bytes(texture.width) <= u32::MAX
                    && texture.data@.len() == row_bytes(texture.width) * texture.height
                    && layout.width == texture.width && layout.height == texture.height
                    && layout.bytes_per_row == row_bytes(texture.width)
                    && layout.rows_per_image == texture.height
                    && layout.label@ == texture.name@
                    && layout.bind_group_label@ == texture.name@ + "_bind_group"@,
                Err(TextureUploadError::RowTooLong) => row_bytes(texture.width) > u32::MAX,
                Err(TextureUploadError::DataSizeMismatch) => row_bytes(texture.width) <= u32::MAX
                    && texture.data@.len() != row_bytes(texture.width) * texture.height,
            },
    {
        if texture.width > u32::MAX / RGBA_BYTES {
            return Err(TextureUploadError::RowTooLong);
        }
        let bytes_per_row = RGBA_BYTES * texture.width;
        proof {
            let (a, b) = (bytes_per_row as int, texture.height as int);
            assert(a * b <= 0xffff_ffff * 0xffff_ffff) by (nonlinear_arith)
                requires
                    0 <= a <= 0xffff_ffff,
                    0 <= b <= 0xffff_ffff,
            ;
        }
        let expected: u128 = bytes_per_row as u128 * texture.height as u128;
        if texture.data.len() as u128 != expected {
            return Err(TextureUploadError::DataSizeMismatch);
        }
        Ok(TextureUploadLayout {
            width: texture.width,
            height: texture.height,
            bytes_per_row,
            rows_per_image: texture.height,
            label: texture.name.clone(),
            bind_group_label: texture.name.clone().concat("_bind_group"),
        })
    }
}

} // verus!

//! Two-dimensional textures from tightly packed bytes.

use crate::constants::{
    CLAMP_TO_EDGE, LINEAR, NO_ERROR, R8, RED, RG, RG8, RGB, RGB8, RGBA, RGBA8, TEXTURE_2D,
    TEXTURE_MAG_FILTER, TEXTURE_MIN_FILTER, TEXTURE_SWIZZLE_B, TEXTURE_SWIZZLE_G, TEXTURE_WRAP_S,
    TEXTURE_WRAP_T, UNSIGNED_BYTE,
};
use crate::driver::{
    acquired, acquired_in, lemma_run_from_nothing, released, released_in, run, trace, DriverCall,
    DriverReply, Resource, Task,
};
use crate::error::Error;
use vstd::multiset::Multiset;
use vstd::prelude::*;

verus! {

/// How the bytes of one pixel are laid out.
#[derive(Debug, Clone, Copy, PartialEq, Eq, Structural)]
pub enum TextureFormat {
    RGB,
    RGBA,
    Grayscale,
    GrayscaleAlpha,
}

impl TextureFormat {
    /// Bytes per pixel.
    pub open spec fn spec_channels(self) -> int {
        match self {
            TextureFormat::RGB => 3,
            TextureFormat::RGBA => 4,
            TextureFormat::Grayscale => 1,
            TextureFormat::GrayscaleAlpha => 2,
        }
    }

    /// The sized format the driver stores the texture in.
    pub open spec fn spec_internal_format(self) -> u32 {
        match self {
            TextureFormat::RGB => RGB8,
            TextureFormat::RGBA => RGBA8,
            TextureFormat::Grayscale => R8,
            TextureFormat::GrayscaleAlpha => RG8,
        }
    }

    /// The format of the bytes handed to the driver.
    pub open spec fn spec_pixel_format(self) -> u32 {
        match self {
            TextureFormat::RGB => RGB,
            TextureFormat::RGBA => RGBA,
            TextureFormat::Grayscale => RED,
            TextureFormat::GrayscaleAlpha => RG,
        }
    }

    /// Whether the format stores luminance in the red channel alone, so that
    /// green and blue have to be read from red.
    pub open spec fn spec_is_luminance(self) -> bool {
        self == TextureFormat::Grayscale || self == TextureFormat::GrayscaleAlpha
    }

    /// Bytes per pixel.
    pub fn channels(self) -> (channels: i32)
        ensures
            channels == self.spec_channels(),
    {
        match self {
            TextureFormat::RGB => 3,
            TextureFormat::RGBA => 4,
            TextureFormat::Grayscale => 1,
            TextureFormat::GrayscaleAlpha => 2,
        }
    }

    /// The sized format the driver stores the texture in.
    pub fn internal_format(self) -> (format: u32)
        ensures
            format == self.spec_internal_format(),
    {
        match self {
            TextureFormat::RGB => RGB8,
            TextureFormat::RGBA => RGBA8,
            TextureFormat::Grayscale => R8,
            TextureFormat::GrayscaleAlpha => RG8,
        }
    }

    /// The format of the bytes handed to the driver.
    pub fn pixel_format(self) -> (format: u32)
        ensures
            format == self.spec_pixel_format(),
    {
        match self {
            TextureFormat::RGB => RGB,
            TextureFormat::RGBA => RGBA,
            TextureFormat::Grayscale => RED,
            TextureFormat::GrayscaleAlpha => RG,
        }
    }

    /// Whether green and blue have to be read from red.
    pub fn is_luminance(self) -> (luminance: bool)
        ensures
            luminance == self.spec_is_luminance(),
    {
        match self {
            TextureFormat::Grayscale | TextureFormat::GrayscaleAlpha => true,
            _ => false,
        }
    }
}

/// The declared shape of an image.
#[derive(Debug, Clone, Copy, PartialEq, Eq, Structural)]
pub struct TextureImage {
    pub format: TextureFormat,
    /// Pixels in a row.
    pub width: i32,
    /// Rows.
    pub height: i32,
}

impl TextureImage {
    /// The number of bytes an image of this shape takes.
    pub open spec fn expected_len(self) -> int {
        self.width * self.height * self.format.spec_channels()
    }

    /// The number of bytes an image of this shape takes.
    pub fn byte_len(&self) -> (len: i128)
        ensures
            len == self.expected_len(),
    {
        let channels = self.format.channels();
        assert(-0x8000_0000 * 0x8000_0000 <= self.width * self.height <= 0x8000_0000
            * 0x8000_0000) by (nonlinear_arith)
            requires
                -0x8000_0000 <= self.width < 0x8000_0000,
                -0x8000_0000 <= self.height < 0x8000_0000,
        ;
        let area: i128 = (self.width as i128) * (self.height as i128);
        assert(-4 * 0x4000_0000_0000_0000 <= area * channels <= 4 * 0x4000_0000_0000_0000)
            by (nonlinear_arith)
            requires
                -0x4000_0000_0000_0000 <= area <= 0x4000_0000_0000_0000,
                1 <= channels <= 4,
        ;
        area * (channels as i128)
    }

    /// The call that uploads the caller's bytes as level 0.
    pub open spec fn upload_call(self) -> DriverCall {
        DriverCall::TexImage2D {
            target: TEXTURE_2D,
            level: 0,
            internal_format: self.format.spec_internal_format() as i32,
            width: self.width,
            height: self.height,
            border: 0,
            format: self.format.spec_pixel_format(),
            data_type: UNSIGNED_BYTE,
        }
    }
}

/// The creation of one texture, between two driver calls.
///
/// The calls, in order: generate a name; bind it; read the error register;
/// upload the bytes as level 0, without border; set linear filtering and
/// clamp-to-edge wrapping; and, for the luminance formats, make green and
/// blue read from red. A null name ends the task at once. An error on
/// binding deletes the texture before the task fails.
#[derive(Debug, Clone, PartialEq, Eq)]
#[must_use]
pub enum TextureCreation {
    Generate { image: TextureImage },
    Bind { image: TextureImage, texture: u32 },
    CheckBind { image: TextureImage, texture: u32 },
    Upload { image: TextureImage, texture: u32 },
    MinFilter { image: TextureImage, texture: u32 },
    MagFilter { image: TextureImage, texture: u32 },
    WrapS { image: TextureImage, texture: u32 },
    WrapT { image: TextureImage, texture: u32 },
    SwizzleGreen { texture: u32 },
    SwizzleBlue { texture: u32 },
    /// The texture is being deleted because of `error`.
    Discard { texture: u32, error: Error },
    /// Finished: the caller owns `texture`.
    Created { texture: u32 },
    /// Finished: no texture exists.
    Failed { error: Error },
}

impl Task for TextureCreation {
    type Outcome = Result<u32, Error>;

    open spec fn pending(&self) -> Option<DriverCall> {
        match *self {
            TextureCreation::Generate { .. } => Some(DriverCall::GenTexture),
            TextureCreation::Bind { texture, .. } => Some(
                DriverCall::BindTexture { target: TEXTURE_2D, texture },
            ),
            TextureCreation::CheckBind { .. } => Some(DriverCall::GetError),
            TextureCreation::Upload { image, .. } => Some(image.upload_call()),
            TextureCreation::MinFilter { texture, .. } => Some(
                DriverCall::TextureParameteri {
                    texture,
                    pname: TEXTURE_MIN_FILTER,
                    param: LINEAR as i32,
                },
            ),
            TextureCreation::MagFilter { texture, .. } => Some(
                DriverCall::TextureParameteri {
                    texture,
                    pname: TEXTURE_MAG_FILTER,
                    param: LINEAR as i32,
                },
            ),
            TextureCreation::WrapS { texture, .. } => Some(
                DriverCall::TextureParameteri {
                    texture,
                    pname: TEXTURE_WRAP_S,
                    param: CLAMP_TO_EDGE as i32,
                },
            ),
            TextureCreation::WrapT { texture, .. } => Some(
                DriverCall::TextureParameteri {
                    texture,
                    pname: TEXTURE_WRAP_T,
                    param: CLAMP_TO_EDGE as i32,
                },
            ),
            TextureCreation::SwizzleGreen { .. } => Some(
                DriverCall::TexParameteri {
                    target: TEXTURE_2D,
                    pname: TEXTURE_SWIZZLE_G,
                    param: RED as i32,
                },
            ),
            TextureCreation::SwizzleBlue { .. } => Some(
                DriverCall::TexParameteri {
                    target: TEXTURE_2D,
                    pname: TEXTURE_SWIZZLE_B,
                    param: RED as i32,
                },
            ),
            TextureCreation::Discard { texture, .. } => Some(DriverCall::DeleteTexture { texture }),
            TextureCreation::Created { .. } => None,
            TextureCreation::Failed { .. } => None,
        }
    }

    open spec fn after(self, reply: DriverReply) -> Self {
        match self {
            TextureCreation::Generate { image } => match reply {
                DriverReply::Handle(texture) => if texture == 0 {
                    TextureCreation::Failed {
                        error: Error::TextureUnavailable { format: image.format },
                    }
                } else {
                    TextureCreation::Bind { image, texture }
                },
                _ => self,
            },
            TextureCreation::Bind { image, texture } => TextureCreation::CheckBind {
                image,
                texture,
            },
            TextureCreation::CheckBind { image, texture } => match reply {
                DriverReply::ErrorCode(code) => if code != NO_ERROR {
                    TextureCreation::Discard {
                        texture,
                        error: Error::TextureBindRejected { format: image.format },
                    }
                } else {
                    TextureCreation::Upload { image, texture }
                },
                _ => self,
            },
            TextureCreation::Upload { image, texture } => TextureCreation::MinFilter {
                image,
                texture,
            },
            TextureCreation::MinFilter { image, texture } => TextureCreation::MagFilter {
                image,
                texture,
            },
            TextureCreation::MagFilter { image, texture } => TextureCreation::WrapS {
                image,
                texture,
            },
            TextureCreation::WrapS { image, texture } => TextureCreation::WrapT { image, texture },
            TextureCreation::WrapT { image, texture } => if image.format.spec_is_luminance() {
                TextureCreation::SwizzleGreen { texture }
            } else {
                TextureCreation::Created { texture }
            },
            TextureCreation::SwizzleGreen { texture } => TextureCreation::SwizzleBlue { texture },
            TextureCreation::SwizzleBlue { texture } => TextureCreation::Created { texture },
            TextureCreation::Discard { texture, error } => TextureCreation::Failed { error },
            TextureCreation::Created { .. } => self,
            TextureCreation::Failed { .. } => self,
        }
    }

    open spec fn result(self) -> Option<Result<u32, Error>> {
        match self {
            TextureCreation::Created { texture } => Some(Ok(texture)),
            TextureCreation::Failed { error } => Some(Err(error)),
            _ => None,
        }
    }

    open spec fn holds(&self) -> Multiset<Resource> {
        match *self {
            TextureCreation::Generate { .. } => Multiset::empty(),
            TextureCreation::Failed { .. } => Multiset::empty(),
            TextureCreation::Bind { texture, .. }
            | TextureCreation::CheckBind { texture, .. }
            | TextureCreation::Upload { texture, .. }
            | TextureCreation::MinFilter { texture, .. }
            | TextureCreation::MagFilter { texture, .. }
            | TextureCreation::WrapS { texture, .. }
            | TextureCreation::WrapT { texture, .. }
            | TextureCreation::SwizzleGreen { texture }
            | TextureCreation::SwizzleBlue { texture }
            | TextureCreation::Discard { texture, .. }
            | TextureCreation::Created { texture } => Multiset::singleton(
                Resource::Texture(texture),
            ),
        }
    }

    fn next_call(&self) -> (call: Option<DriverCall>) {
        match self {
            TextureCreation::Generate { .. } => Some(DriverCall::GenTexture),
            TextureCreation::Bind { texture, .. } => Some(
                DriverCall::BindTexture { target: TEXTURE_2D, texture: *texture },
            ),
            TextureCreation::CheckBind { .. } => Some(DriverCall::GetError),
            TextureCreation::Upload { image, .. } => Some(
                DriverCall::TexImage2D {
                    target: TEXTURE_2D,
                    level: 0,
                    internal_format: image.format.internal_format() as i32,
                    width: image.width,
                    height: image.height,
                    border: 0,
                    format: image.format.pixel_format(),
                    data_type: UNSIGNED_BYTE,
                },
            ),
            TextureCreation::MinFilter { texture, .. } => Some(
                DriverCall::TextureParameteri {
                    texture: *texture,
                    pname: TEXTURE_MIN_FILTER,
                    param: LINEAR as i32,
                },
            ),
            TextureCreation::MagFilter { texture, .. } => Some(
                DriverCall::TextureParameteri {
                    texture: *texture,
                    pname: TEXTURE_MAG_FILTER,
                    param: LINEAR as i32,
                },
            ),
            TextureCreation::WrapS { texture, .. } => Some(
                DriverCall::TextureParameteri {
                    texture: *texture,
                    pname: TEXTURE_WRAP_S,
                    param: CLAMP_TO_EDGE as i32,
                },
            ),
            TextureCreation::WrapT { texture, .. } => Some(
                DriverCall::TextureParameteri {
                    texture: *texture,
                    pname: TEXTURE_WRAP_T,
                    param: CLAMP_TO_EDGE as i32,
                },
            ),
            TextureCreation::SwizzleGreen { .. } => Some(
                DriverCall::TexParameteri {
                    target: TEXTURE_2D,
                    pname: TEXTURE_SWIZZLE_G,
                    param: RED as i32,
                },
            ),
            TextureCreation::SwizzleBlue { .. } => Some(
                DriverCall::TexParameteri {
                    target: TEXTURE_2D,
                    pname: TEXTURE_SWIZZLE_B,
                    param: RED as i32,
                },
            ),
            TextureCreation::Discard { texture, .. } => Some(
                DriverCall::DeleteTexture { texture: *texture },
            ),
            TextureCreation::Created { .. } => None,
            TextureCreation::Failed { .. } => None,
        }
    }

    fn advance(self, reply: DriverReply) -> (next: Self) {
        match self {
            TextureCreation::Generate { image } => match reply {
                DriverReply::Handle(texture) => if texture == 0 {
                    TextureCreation::Failed {
                        error: Error::TextureUnavailable { format: image.format },
                    }
                } else {
                    TextureCreation::Bind { image, texture }
                },
                _ => TextureCreation::Generate { image },
            },
            TextureCreation::Bind { image, texture } => TextureCreation::CheckBind {
                image,
                texture,
            },
            TextureCreation::CheckBind { image, texture } => match reply {
                DriverReply::ErrorCode(code) => if code != NO_ERROR {
                    TextureCreation::Discard {
                        texture,
                        error: Error::TextureBindRejected { format: image.format },
                    }
                } else {
                    TextureCreation::Upload { image, texture }
                },
                _ => TextureCreation::CheckBind { image, texture },
            },
            TextureCreation::Upload { image, texture } => TextureCreation::MinFilter {
                image,
                texture,
            },
            TextureCreation::MinFilter { image, texture } => TextureCreation::MagFilter {
                image,
                texture,
            },
            TextureCreation::MagFilter { image, texture } => TextureCreation::WrapS {
                image,
                texture,
            },
            TextureCreation::WrapS { image, texture } => TextureCreation::WrapT { image, texture },
            TextureCreation::WrapT { image, texture } => if image.format.is_luminance() {
                TextureCreation::SwizzleGreen { texture }
            } else {
                TextureCreation::Created { texture }
            },
            TextureCreation::SwizzleGreen { texture } => TextureCreation::SwizzleBlue { texture },
            TextureCreation::SwizzleBlue { texture } => TextureCreation::Created { texture },
            TextureCreation::Discard { texture, error } => TextureCreation::Failed { error },
            TextureCreation::Created { texture } => TextureCreation::Created { texture },
            TextureCreation::Failed { error } => TextureCreation::Failed { error },
        }
    }

    fn outcome(self) -> (outcome: Option<Result<u32, Error>>) {
        match self {
            TextureCreation::Created { texture } => Some(Ok(texture)),
            TextureCreation::Failed { error } => Some(Err(error)),
            _ => None,
        }
    }

    proof fn lemma_result_when_finished(self) {
    }

    proof fn lemma_step_conserves(self, reply: DriverReply) {
    }
}

/// Starts the creation of a texture of `size` (width, then height) from `data`.
///
/// The task has failed with `SizeMismatch`, before any driver call, unless
/// `data` is exactly `width * height * channels` bytes long.
pub fn create_texture_2d(size: [i32; 2], data: &[u8], format: TextureFormat) -> (task:
    TextureCreation)
    ensures
        task == texture_creation(
            TextureImage { format, width: size[0], height: size[1] },
            data@.len(),
        ),
{
    let image = TextureImage { format, width: size[0], height: size[1] };
    let expected = image.byte_len();
    if data.len() as i128 != expected {
        TextureCreation::Failed {
            error: Error::SizeMismatch {
                format,
                width: image.width,
                height: image.height,
                actual: data.len(),
            },
        }
    } else {
        TextureCreation::Generate { image }
    }
}

/// The task that [`create_texture_2d`] starts for an image of shape `image`
/// when it is given `len` bytes.
pub open spec fn texture_creation(image: TextureImage, len: nat) -> TextureCreation {
    if len != image.expected_len() {
        TextureCreation::Failed {
            error: Error::SizeMismatch {
                format: image.format,
                width: image.width,
                height: image.height,
                actual: len as usize,
            },
        }
    } else {
        TextureCreation::Generate { image }
    }
}

/// Starts the creation of a texture with three bytes per pixel.
pub fn create_texture_2d_rgb(size: [i32; 2], data: &[u8]) -> (task: TextureCreation)
    ensures
        task == texture_creation(
            TextureImage { format: TextureFormat::RGB, width: size[0], height: size[1] },
            data@.len(),
        ),
{
    create_texture_2d(size, data, TextureFormat::RGB)
}

/// Starts the creation of a texture with four bytes per pixel.
pub fn create_texture_2d_rgba(size: [i32; 2], data: &[u8]) -> (task: TextureCreation)
    ensures
        task == texture_creation(
            TextureImage { format: TextureFormat::RGBA, width: size[0], height: size[1] },
            data@.len(),
        ),
{
    create_texture_2d(size, data, TextureFormat::RGBA)
}

/// Starts the creation of a texture with one byte per pixel, sampled as a
/// luminance on red, green and blue.
pub fn create_texture_2d_grayscale(size: [i32; 2], data: &[u8]) -> (task: TextureCreation)
    ensures
        task == texture_creation(
            TextureImage { format: TextureFormat::Grayscale, width: size[0], height: size[1] },
            data@.len(),
        ),
{
    create_texture_2d(size, data, TextureFormat::Grayscale)
}

/// Starts the creation of a texture with two bytes per pixel, luminance and
/// alpha.
pub fn create_texture_2d_grayscale_alpha(size: [i32; 2], data: &[u8]) -> (task: TextureCreation)
    ensures
        task == texture_creation(
            TextureImage {
                format: TextureFormat::GrayscaleAlpha,
                width: size[0],
                height: size[1],
            },
            data@.len(),
        ),
{
    create_texture_2d(size, data, TextureFormat::GrayscaleAlpha)
}

/// What an image decoder made of a file.
#[derive(Debug, Clone, PartialEq, Eq)]
pub enum Decoded {
    /// The decoder failed, for the reason it gives.
    Error(String),
    /// An image of `depth` bytes per pixel.
    ImageU8 { width: usize, height: usize, depth: usize, data: Vec<u8> },
    /// An image of floating-point samples.
    ImageF32,
}

/// The pixel format of a decoded image with `depth` bytes per pixel.
pub open spec fn format_of_depth(depth: usize) -> Option<TextureFormat> {
    if depth == 1 {
        Some(TextureFormat::Grayscale)
    } else if depth == 2 {
        Some(TextureFormat::GrayscaleAlpha)
    } else if depth == 3 {
        Some(TextureFormat::RGB)
    } else if depth == 4 {
        Some(TextureFormat::RGBA)
    } else {
        None
    }
}

/// The task that [`load_texture_2d`] starts for a decoded image.
pub open spec fn texture_load(image: Decoded) -> TextureCreation {
    match image {
        Decoded::Error(reason) => TextureCreation::Failed {
            error: Error::DecodeFailed { reason },
        },
        Decoded::ImageF32 => TextureCreation::Failed { error: Error::FloatImage },
        Decoded::ImageU8 { width, height, depth, data } => match format_of_depth(depth) {
            Some(format) => texture_creation(
                TextureImage { format, width: width as i32, height: height as i32 },
                data@.len(),
            ),
            None => TextureCreation::Failed { error: Error::UnsupportedDepth { depth } },
        },
    }
}

/// Starts the creation of a texture from a decoded image, in the format
/// that its depth calls for: one byte per pixel is grayscale, two are
/// grayscale with alpha, three are RGB, four are RGBA.
///
/// The task has failed before any driver call where the decoder failed
/// (`DecodeFailed`), where the samples are floating-point (`FloatImage`),
/// and where the depth is none of one to four (`UnsupportedDepth`). Width
/// and height are cut to 32 bits, as the driver takes them.
pub fn load_texture_2d(image: &Decoded) -> (task: TextureCreation)
    ensures
        task == texture_load(*image),
{
    match image {
        Decoded::Error(reason) => TextureCreation::Failed {
            error: Error::DecodeFailed { reason: reason.clone() },
        },
        Decoded::ImageF32 => TextureCreation::Failed { error: Error::FloatImage },
        Decoded::ImageU8 { width, height, depth, data } => {
            let size: [i32; 2] = [
                #[verifier::truncate]
                (*width as i32),
                #[verifier::truncate]
                (*height as i32),
            ];
            if *depth == 1 {
                create_texture_2d_grayscale(size, data.as_slice())
            } else if *depth == 2 {
                create_texture_2d_grayscale_alpha(size, data.as_slice())
            } else if *depth == 3 {
                create_texture_2d_rgb(size, data.as_slice())
            } else if *depth == 4 {
                create_texture_2d_rgba(size, data.as_slice())
            } else {
                TextureCreation::Failed { error: Error::UnsupportedDepth { depth: *depth } }
            }
        },
    }
}

/// No texture is lost. When the creation of a texture has finished,
/// whatever the driver answered on the way: after success the one texture
/// that was created is the one the caller gets; after a failure every
/// texture that was created was deleted.
pub proof fn lemma_texture_creation_balance(
    image: TextureImage,
    len: nat,
    replies: Seq<DriverReply>,
)
    requires
        run(texture_creation(image, len), replies).result() is Some,
    ensures
        ({
            let task = texture_creation(image, len);
            acquired_in(trace(task, replies)) == released_in(trace(task, replies)).add(
                match run(task, replies).result()->0 {
                    Ok(texture) => Multiset::singleton(Resource::Texture(texture)),
                    Err(_) => Multiset::empty(),
                },
            )
        }),
{
    lemma_run_from_nothing(texture_creation(image, len), replies);
}

/// A wrong length is always refused. Data that is one byte short of
/// `width * height * channels`, in whichever of the four formats, fails with
/// `SizeMismatch`, and so does every other length but the right one; no
/// driver call is made.
pub proof fn lemma_wrong_length_is_refused(image: TextureImage, len: nat)
    requires
        len != image.expected_len(),
    ensures
        texture_creation(image, len) == (TextureCreation::Failed {
            error: Error::SizeMismatch {
                format: image.format,
                width: image.width,
                height: image.height,
                actual: len as usize,
            },
        }),
        texture_creation(image, len).pending() is None,
{
}

} // verus!

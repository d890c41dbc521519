//! The one error type of the library.

use crate::shader::ShaderStage;
use crate::text::{
    append_decimal, append_signed_decimal, decimal, read_lossy, signed_decimal, utf8_lossy,
};
use crate::texture::{TextureFormat, TextureImage};
use crate::vertex_array::{append_error_text, error_text};
use vstd::prelude::*;
use vstd::string::*;

verus! {

/// Why an operation failed.
#[derive(Debug, Clone, PartialEq, Eq)]
pub enum Error {
    /// The data for a buffer is empty.
    EmptyData,
    /// The data takes more bytes than the driver's size type can express.
    DataTooLarge,
    /// The usage hint is none of the nine the driver defines.
    InvalidUsageHint { usage: u32 },
    /// The driver flagged error `code` when asked to create a buffer.
    BufferRejected { code: u32 },
    /// The driver had no buffer name to give.
    BufferUnavailable,
    /// The driver flagged error `code` when the data was uploaded.
    UploadError { code: u32 },
    /// The value names no shader stage.
    InvalidShaderType { shader_type: u32 },
    /// The driver had no shader name to give.
    ShaderUnavailable { stage: ShaderStage },
    /// The shader source holds a zero byte.
    InvalidSource,
    /// The driver's compiler rejected the source; `log` is what it said.
    CompileError { stage: ShaderStage, log: Vec<u8> },
    /// The builder already owns a shader for the stage.
    DuplicateStage { stage: ShaderStage },
    /// The builder owns no shader at all.
    EmptyProgram,
    /// The driver had no program name to give.
    ProgramUnavailable,
    /// The driver's linker rejected the program; `log` is what it said.
    LinkError { log: Vec<u8> },
    /// The list of attribute sizes is empty.
    EmptyLayout,
    /// The value names no scalar component type.
    InvalidComponentType { component_type: u32 },
    /// A stride, an offset or an attribute index does not fit in 32 bits.
    LayoutOverflow,
    /// The pixel data is not `width * height * channels` bytes long.
    SizeMismatch { format: TextureFormat, width: i32, height: i32, actual: usize },
    /// The driver had no texture name to give.
    TextureUnavailable { format: TextureFormat },
    /// The driver flagged an error when the new texture was bound.
    TextureBindRejected { format: TextureFormat },
    /// The decoded image has a channel count other than one to four.
    UnsupportedDepth { depth: usize },
    /// The decoded image holds floating-point samples.
    FloatImage,
    /// The image decoder failed; `reason` is what it said.
    DecodeFailed { reason: String },
}

/// The three ways an operation can fail.
#[derive(Debug, Clone, Copy, PartialEq, Eq, Structural)]
pub enum ErrorCategory {
    /// The input was refused before any driver call was made.
    Validation,
    /// A driver call reported an error.
    DriverRejected,
    /// The driver returned the null handle when asked for an object.
    ResourceExhausted,
}

impl Error {
    /// The category an error belongs to.
    pub open spec fn spec_category(self) -> ErrorCategory {
        match self {
            Error::BufferRejected { .. }
            | Error::UploadError { .. }
            | Error::CompileError { .. }
            | Error::LinkError { .. }
            | Error::TextureBindRejected { .. } => ErrorCategory::DriverRejected,
            Error::BufferUnavailable
            | Error::ShaderUnavailable { .. }
            | Error::ProgramUnavailable
            | Error::TextureUnavailable { .. } => ErrorCategory::ResourceExhausted,
            _ => ErrorCategory::Validation,
        }
    }

    /// The category an error belongs to.
    pub fn category(&self) -> (category: ErrorCategory)
        ensures
            category == self.spec_category(),
    {
        match self {
            Error::BufferRejected { .. }
            | Error::UploadError { .. }
            | Error::CompileError { .. }
            | Error::LinkError { .. }
            | Error::TextureBindRejected { .. } => ErrorCategory::DriverRejected,
            Error::BufferUnavailable
            | Error::ShaderUnavailable { .. }
            | Error::ProgramUnavailable
            | Error::TextureUnavailable { .. } => ErrorCategory::ResourceExhausted,
            _ => ErrorCategory::Validation,
        }
    }
}

/// The name under which textures of a format are created.
pub open spec fn texture_operation(format: TextureFormat) -> Seq<char> {
    match format {
        TextureFormat::RGB => "create_texture_2d_rgb"@,
        TextureFormat::RGBA => "create_texture_2d_rgba"@,
        TextureFormat::Grayscale => "create_texture_2d_grayscale"@,
        TextureFormat::GrayscaleAlpha => "create_texture_2d_grayscale_alpha"@,
    }
}

fn operation_name(format: TextureFormat) -> (name: &'static str)
    ensures
        name@ == texture_operation(format),
{
    match format {
        TextureFormat::RGB => "create_texture_2d_rgb",
        TextureFormat::RGBA => "create_texture_2d_rgba",
        TextureFormat::Grayscale => "create_texture_2d_grayscale",
        TextureFormat::GrayscaleAlpha => "create_texture_2d_grayscale_alpha",
    }
}

impl Error {
    /// The bytes of the driver's log that the error carries; none for an
    /// error without a log.
    pub open spec fn log_bytes(self) -> Seq<u8> {
        match self {
            Error::CompileError { log, .. } => log@,
            Error::LinkError { log } => log@,
            _ => Seq::empty(),
        }
    }

    /// The message of the error, where `diagnostic` is the driver's log as
    /// text.
    pub open spec fn text_with(self, diagnostic: Seq<char>) -> Seq<char> {
        match self {
            Error::EmptyData => "create_buffer(...): Data array is empty"@,
            Error::DataTooLarge => "create_buffer(...): Data array is too large"@,
            Error::InvalidUsageHint { usage } => "create_buffer(...): Invalid usage for buffer: "@
                + decimal(usage as nat)
                + "; Must be one of [gl::STREAM_DRAW, gl::STREAM_READ, gl::STREAM_COPY, gl::STATIC_DRAW, gl::STATIC_READ, gl::STATIC_COPY, gl::DYNAMIC_DRAW, gl::DYNAMIC_READ, gl::DYNAMIC_COPY]"@,
            Error::BufferRejected { code } => "Failed to create buffer: "@ + error_text(code),
            Error::BufferUnavailable => "gl::CreateBuffers returned an invalid buffer ID (0)"@,
            Error::UploadError { code } => "Failed to set buffer data: "@ + error_text(code),
            Error::InvalidShaderType { shader_type } => "Invalid shader type: "@ + decimal(
                shader_type as nat,
            ),
            Error::ShaderUnavailable { stage } => "Failed to create "@ + stage.spec_name()
                + " shader"@,
            Error::InvalidSource => "Failed to convert source to CString"@,
            Error::CompileError { stage, .. } => stage.spec_name()
                + " Shader compilation failed: "@ + diagnostic,
            Error::DuplicateStage { stage } => stage.spec_name() + " Shader type already added"@,
            Error::EmptyProgram => "No shaders added to the program"@,
            Error::ProgramUnavailable => "Failed to create program"@,
            Error::LinkError { .. } => "Program linking failed: "@ + diagnostic,
            Error::EmptyLayout => "enable_interleaved_vertex_attributes: Sizes array is empty"@,
            Error::InvalidComponentType {
                component_type,
            } => "enable_interleaved_vertex_attributes: Invalid type: "@ + decimal(
                component_type as nat,
            ),
            Error::LayoutOverflow => "enable_interleaved_vertex_attributes: Layout does not fit in 32 bits"@,
            Error::SizeMismatch { format, width, height, actual } => texture_operation(format)
                + ": Data length does not match size: expected "@ + signed_decimal(
                (TextureImage { format, width, height }).expected_len(),
            ) + ", got "@ + decimal(actual as nat),
            Error::TextureUnavailable { format } => texture_operation(format)
                + ": Failed to generate texture"@,
            Error::TextureBindRejected { format } => texture_operation(format)
                + ": Failed to bind texture"@,
            Error::UnsupportedDepth { depth } => "Unsupported image depth: "@ + decimal(
                depth as nat,
            ),
            Error::FloatImage => "Floating point images are not currently supported"@,
            Error::DecodeFailed { reason } => "Failed to load image: "@ + reason@,
        }
    }

    /// The message of the error.
    pub open spec fn text(self) -> Seq<char> {
        self.text_with(utf8_lossy(self.log_bytes()))
    }

    /// The message of the error, given the driver's log as text.
    pub fn message_with(&self, diagnostic: &str) -> (message: String)
        ensures
            message@ == self.text_with(diagnostic@),
    {
        let mut message = String::new();
        match self {
            Error::EmptyData => {
                message.append("create_buffer(...): Data array is empty");
            },
            Error::DataTooLarge => {
                message.append("create_buffer(...): Data array is too large");
            },
            Error::InvalidUsageHint { usage } => {
                message.append("create_buffer(...): Invalid usage for buffer: ");
                append_decimal(&mut message, *usage as u128);
                message.append(
                    "; Must be one of [gl::STREAM_DRAW, gl::STREAM_READ, gl::STREAM_COPY, gl::STATIC_DRAW, gl::STATIC_READ, gl::STATIC_COPY, gl::DYNAMIC_DRAW, gl::DYNAMIC_READ, gl::DYNAMIC_COPY]",
                );
            },
            Error::BufferRejected { code } => {
                message.append("Failed to create buffer: ");
                append_error_text(&mut message, *code);
            },
            Error::BufferUnavailable => {
                message.append("gl::CreateBuffers returned an invalid buffer ID (0)");
            },
            Error::UploadError { code } => {
                message.append("Failed to set buffer data: ");
                append_error_text(&mut message, *code);
            },
            Error::InvalidShaderType { shader_type } => {
                message.append("Invalid shader type: ");
                append_decimal(&mut message, *shader_type as u128);
            },
            Error::ShaderUnavailable { stage } => {
                message.append("Failed to create ");
                message.append(stage.name());
                message.append(" shader");
            },
            Error::InvalidSource => {
                message.append("Failed to convert source to CString");
            },
            Error::CompileError { stage, .. } => {
                message.append(stage.name());
                message.append(" Shader compilation failed: ");
                message.append(diagnostic);
            },
            Error::DuplicateStage { stage } => {
                message.append(stage.name());
                message.append(" Shader type already added");
            },
            Error::EmptyProgram => {
                message.append("No shaders added to the program");
            },
            Error::ProgramUnavailable => {
                message.append("Failed to create program");
            },
            Error::LinkError { .. } => {
                message.append("Program linking failed: ");
                message.append(diagnostic);
            },
            Error::EmptyLayout => {
                message.append("enable_interleaved_vertex_attributes: Sizes array is empty");
            },
            Error::InvalidComponentType { component_type } => {
                message.append("enable_interleaved_vertex_attributes: Invalid type: ");
                append_decimal(&mut message, *component_type as u128);
            },
            Error::LayoutOverflow => {
                message.append(
                    "enable_interleaved_vertex_attributes: Layout does not fit in 32 bits",
                );
            },
            Error::SizeMismatch { format, width, height, actual } => {
                let image = TextureImage { format: *format, width: *width, height: *height };
                message.append(operation_name(*format));
                message.append(": Data length does not match size: expected ");
                append_signed_decimal(&mut message, image.byte_len());
                message.append(", got ");
                append_decimal(&mut message, *actual as u128);
            },
            Error::TextureUnavailable { format } => {
                message.append(operation_name(*format));
                message.append(": Failed to generate texture");
            },
            Error::TextureBindRejected { format } => {
                message.append(operation_name(*format));
                message.append(": Failed to bind texture");
            },
            Error::UnsupportedDepth { depth } => {
                message.append("Unsupported image depth: ");
                append_decimal(&mut message, *depth as u128);
            },
            Error::FloatImage => {
                message.append("Floating point images are not currently supported");
            },
            Error::DecodeFailed { reason } => {
                message.append("Failed to load image: ");
                message.append(reason.as_str());
            },
        }
        message
    }

    /// The message of the error. A log that the driver sent along is read
    /// as text first.
    pub fn message(&self) -> (message: String)
        ensures
            message@ == self.text(),
    {
        match self {
            Error::CompileError { log, .. } => {
                let diagnostic = read_lossy(log.as_slice());
                self.message_with(diagnostic.as_str())
            },
            Error::LinkError { log } => {
                let diagnostic = read_lossy(log.as_slice());
                self.message_with(diagnostic.as_str())
            },
            _ => self.message_with(""),
        }
    }
}

} // verus!

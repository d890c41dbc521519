use gl_helpers::constants::{
    DEBUG_SEVERITY_HIGH, DEBUG_SEVERITY_LOW, DEBUG_SEVERITY_MEDIUM, DEBUG_SEVERITY_NOTIFICATION,
    DEBUG_SOURCE_API, DEBUG_SOURCE_APPLICATION, DEBUG_SOURCE_OTHER, DEBUG_SOURCE_SHADER_COMPILER,
    DEBUG_SOURCE_THIRD_PARTY, DEBUG_SOURCE_WINDOW_SYSTEM, DEBUG_TYPE_DEPRECATED_BEHAVIOR,
    DEBUG_TYPE_ERROR, DEBUG_TYPE_MARKER, DEBUG_TYPE_OTHER, DEBUG_TYPE_PERFORMANCE,
    DEBUG_TYPE_POP_GROUP, DEBUG_TYPE_PORTABILITY, DEBUG_TYPE_PUSH_GROUP,
    DEBUG_TYPE_UNDEFINED_BEHAVIOR, INVALID_ENUM, INVALID_FRAMEBUFFER_OPERATION,
    INVALID_OPERATION, INVALID_VALUE, NO_ERROR, OUT_OF_MEMORY, STACK_OVERFLOW, STACK_UNDERFLOW,
};
use gl_helpers::error::{Error, ErrorCategory};
use gl_helpers::shader::ShaderStage;
use gl_helpers::text::{append_decimal, append_signed_decimal};
use gl_helpers::texture::TextureFormat;
use gl_helpers::util::standard_debug_callback;
use gl_helpers::vertex_array::get_error;

#[test]
fn get_error_is_silent_on_no_error() {
    assert_eq!(get_error(NO_ERROR), None);
}

#[test]
fn get_error_describes_every_known_code() {
    let cases = [
        (INVALID_ENUM, "OpenGL Error (1280): GL_INVALID_ENUM: An unacceptable value is specified for an enumerated argument."),
        (INVALID_VALUE, "OpenGL Error (1281): GL_INVALID_VALUE: A numeric argument is out of range."),
        (INVALID_OPERATION, "OpenGL Error (1282): GL_INVALID_OPERATION: The specified operation is not allowed in the current state."),
        (STACK_OVERFLOW, "OpenGL Error (1283): GL_STACK_OVERFLOW: A stack pushing operation would overflow the maximum stack size."),
        (STACK_UNDERFLOW, "OpenGL Error (1284): GL_STACK_UNDERFLOW: A stack popping operation would underflow the minimum stack size."),
        (OUT_OF_MEMORY, "OpenGL Error (1285): GL_OUT_OF_MEMORY: There is not enough memory left to execute the command."),
        (INVALID_FRAMEBUFFER_OPERATION, "OpenGL Error (1286): GL_INVALID_FRAMEBUFFER_OPERATION: The framebuffer object is not complete."),
    ];
    for (code, text) in cases {
        assert_eq!(get_error(code), Some(text.to_string()));
    }
}

#[test]
fn get_error_reports_unknown_codes() {
    assert_eq!(
        get_error(7),
        Some("OpenGL Error (7): Unknown OpenGL error".to_string())
    );
    assert_eq!(
        get_error(u32::MAX),
        Some("OpenGL Error (4294967295): Unknown OpenGL error".to_string())
    );
    assert_eq!(
        get_error(1000),
        Some("OpenGL Error (1000): Unknown OpenGL error".to_string())
    );
}

#[test]
fn debug_callback_drops_notifications() {
    assert_eq!(
        standard_debug_callback(
            DEBUG_SOURCE_API,
            DEBUG_TYPE_ERROR,
            1,
            DEBUG_SEVERITY_NOTIFICATION,
            "buffer info"
        ),
        None
    );
}

#[test]
fn debug_callback_formats_a_message() {
    assert_eq!(
        standard_debug_callback(
            DEBUG_SOURCE_SHADER_COMPILER,
            DEBUG_TYPE_PERFORMANCE,
            131218,
            DEBUG_SEVERITY_MEDIUM,
            "shader recompiled"
        ),
        Some(
            "OpenGL Debug Message: source: Shader Compiler, type: Performance, id: 131218, severity: Medium, message: shader recompiled"
                .to_string()
        )
    );
}

#[test]
fn debug_callback_names_every_source() {
    let cases = [
        (DEBUG_SOURCE_API, "API"),
        (DEBUG_SOURCE_WINDOW_SYSTEM, "Window System"),
        (DEBUG_SOURCE_SHADER_COMPILER, "Shader Compiler"),
        (DEBUG_SOURCE_THIRD_PARTY, "Third Party"),
        (DEBUG_SOURCE_APPLICATION, "Application"),
        (DEBUG_SOURCE_OTHER, "Other"),
        (0, "Unknown"),
    ];
    for (source, name) in cases {
        let line = standard_debug_callback(source, DEBUG_TYPE_ERROR, 0, DEBUG_SEVERITY_HIGH, "m");
        assert_eq!(
            line,
            Some(format!(
                "OpenGL Debug Message: source: {}, type: Error, id: 0, severity: High, message: m",
                name
            ))
        );
    }
}

#[test]
fn debug_callback_names_every_type() {
    let cases = [
        (DEBUG_TYPE_ERROR, "Error"),
        (DEBUG_TYPE_DEPRECATED_BEHAVIOR, "Deprecated Behavior"),
        (DEBUG_TYPE_UNDEFINED_BEHAVIOR, "Undefined Behavior"),
        (DEBUG_TYPE_PORTABILITY, "Portability"),
        (DEBUG_TYPE_PERFORMANCE, "Performance"),
        (DEBUG_TYPE_MARKER, "Marker"),
        (DEBUG_TYPE_PUSH_GROUP, "Push Group"),
        (DEBUG_TYPE_POP_GROUP, "Pop Group"),
        (DEBUG_TYPE_OTHER, "Other"),
        (1, "Unknown"),
    ];
    for (gltype, name) in cases {
        let line = standard_debug_callback(DEBUG_SOURCE_API, gltype, 42, DEBUG_SEVERITY_LOW, "");
        assert_eq!(
            line,
            Some(format!(
                "OpenGL Debug Message: source: API, type: {}, id: 42, severity: Low, message: ",
                name
            ))
        );
    }
}

#[test]
fn debug_callback_names_every_severity() {
    let cases = [
        (DEBUG_SEVERITY_HIGH, "High"),
        (DEBUG_SEVERITY_MEDIUM, "Medium"),
        (DEBUG_SEVERITY_LOW, "Low"),
        (5, "Unknown"),
    ];
    for (severity, name) in cases {
        let line = standard_debug_callback(DEBUG_SOURCE_OTHER, DEBUG_TYPE_OTHER, 9, severity, "x");
        assert_eq!(
            line,
            Some(format!(
                "OpenGL Debug Message: source: Other, type: Other, id: 9, severity: {}, message: x",
                name
            ))
        );
    }
}

#[test]
fn messages_of_validation_errors() {
    assert_eq!(
        Error::EmptyData.message(),
        "create_buffer(...): Data array is empty"
    );
    assert_eq!(
        Error::InvalidUsageHint { usage: 17 }.message(),
        "create_buffer(...): Invalid usage for buffer: 17; Must be one of [gl::STREAM_DRAW, gl::STREAM_READ, gl::STREAM_COPY, gl::STATIC_DRAW, gl::STATIC_READ, gl::STATIC_COPY, gl::DYNAMIC_DRAW, gl::DYNAMIC_READ, gl::DYNAMIC_COPY]"
    );
    assert_eq!(
        Error::DataTooLarge.message(),
        "create_buffer(...): Data array is too large"
    );
    assert_eq!(
        Error::InvalidShaderType { shader_type: 3 }.message(),
        "Invalid shader type: 3"
    );
    assert_eq!(
        Error::InvalidSource.message(),
        "Failed to convert source to CString"
    );
    assert_eq!(
        Error::DuplicateStage { stage: ShaderStage::TessControl }.message(),
        "Tess Control Shader type already added"
    );
    assert_eq!(
        Error::EmptyProgram.message(),
        "No shaders added to the program"
    );
    assert_eq!(
        Error::EmptyLayout.message(),
        "enable_interleaved_vertex_attributes: Sizes array is empty"
    );
    assert_eq!(
        Error::InvalidComponentType { component_type: 99 }.message(),
        "enable_interleaved_vertex_attributes: Invalid type: 99"
    );
    assert_eq!(
        Error::LayoutOverflow.message(),
        "enable_interleaved_vertex_attributes: Layout does not fit in 32 bits"
    );
    assert_eq!(
        Error::UnsupportedDepth { depth: 5 }.message(),
        "Unsupported image depth: 5"
    );
    assert_eq!(
        Error::FloatImage.message(),
        "Floating point images are not currently supported"
    );
    assert_eq!(
        Error::DecodeFailed { reason: "stbi_load failed".to_string() }.message(),
        "Failed to load image: stbi_load failed"
    );
}

#[test]
fn messages_of_size_mismatches() {
    assert_eq!(
        Error::SizeMismatch { format: TextureFormat::RGB, width: 2, height: 2, actual: 11 }
            .message(),
        "create_texture_2d_rgb: Data length does not match size: expected 12, got 11"
    );
    assert_eq!(
        Error::SizeMismatch { format: TextureFormat::RGBA, width: 3, height: 1, actual: 0 }
            .message(),
        "create_texture_2d_rgba: Data length does not match size: expected 12, got 0"
    );
    assert_eq!(
        Error::SizeMismatch { format: TextureFormat::Grayscale, width: -2, height: 5, actual: 10 }
            .message(),
        "create_texture_2d_grayscale: Data length does not match size: expected -10, got 10"
    );
    assert_eq!(
        Error::SizeMismatch {
            format: TextureFormat::GrayscaleAlpha,
            width: i32::MAX,
            height: i32::MAX,
            actual: 1
        }
        .message(),
        "create_texture_2d_grayscale_alpha: Data length does not match size: expected 9223372028264841218, got 1"
    );
}

#[test]
fn messages_of_driver_failures() {
    assert_eq!(
        Error::BufferRejected { code: OUT_OF_MEMORY }.message(),
        "Failed to create buffer: OpenGL Error (1285): GL_OUT_OF_MEMORY: There is not enough memory left to execute the command."
    );
    assert_eq!(
        Error::BufferUnavailable.message(),
        "gl::CreateBuffers returned an invalid buffer ID (0)"
    );
    assert_eq!(
        Error::UploadError { code: INVALID_VALUE }.message(),
        "Failed to set buffer data: OpenGL Error (1281): GL_INVALID_VALUE: A numeric argument is out of range."
    );
    assert_eq!(
        Error::ShaderUnavailable { stage: ShaderStage::Compute }.message(),
        "Failed to create Compute shader"
    );
    assert_eq!(
        Error::ProgramUnavailable.message(),
        "Failed to create program"
    );
    assert_eq!(
        Error::TextureUnavailable { format: TextureFormat::Grayscale }.message(),
        "create_texture_2d_grayscale: Failed to generate texture"
    );
    assert_eq!(
        Error::TextureBindRejected { format: TextureFormat::RGBA }.message(),
        "create_texture_2d_rgba: Failed to bind texture"
    );
}

#[test]
fn messages_carry_the_drivers_log() {
    let compile = Error::CompileError {
        stage: ShaderStage::Fragment,
        log: b"0:1(1): error: syntax error\0".to_vec(),
    };
    assert_eq!(
        compile.message(),
        "Fragment Shader compilation failed: 0:1(1): error: syntax error\0"
    );
    let link = Error::LinkError { log: b"error: no main".to_vec() };
    assert_eq!(link.message(), "Program linking failed: error: no main");
}

#[test]
fn a_log_that_is_not_text_is_read_with_replacement_characters() {
    let link = Error::LinkError { log: vec![b'a', 0xff, b'b'] };
    assert_eq!(link.message(), "Program linking failed: a\u{fffd}b");
    let compile = Error::CompileError { stage: ShaderStage::Vertex, log: vec![0xc3] };
    assert_eq!(compile.message(), "Vertex Shader compilation failed: \u{fffd}");
}

#[test]
fn message_with_takes_the_log_as_text() {
    let link = Error::LinkError { log: vec![1, 2, 3] };
    assert_eq!(link.message_with("given"), "Program linking failed: given");
    assert_eq!(Error::EmptyProgram.message_with("given"), "No shaders added to the program");
}

#[test]
fn errors_fall_into_three_categories() {
    assert_eq!(Error::EmptyData.category(), ErrorCategory::Validation);
    assert_eq!(Error::InvalidUsageHint { usage: 0 }.category(), ErrorCategory::Validation);
    assert_eq!(
        Error::DuplicateStage { stage: ShaderStage::Vertex }.category(),
        ErrorCategory::Validation
    );
    assert_eq!(Error::EmptyProgram.category(), ErrorCategory::Validation);
    assert_eq!(Error::EmptyLayout.category(), ErrorCategory::Validation);
    assert_eq!(
        Error::SizeMismatch { format: TextureFormat::RGB, width: 1, height: 1, actual: 2 }
            .category(),
        ErrorCategory::Validation
    );
    assert_eq!(Error::UploadError { code: 1281 }.category(), ErrorCategory::DriverRejected);
    assert_eq!(Error::BufferRejected { code: 1285 }.category(), ErrorCategory::DriverRejected);
    assert_eq!(
        Error::CompileError { stage: ShaderStage::Vertex, log: vec![] }.category(),
        ErrorCategory::DriverRejected
    );
    assert_eq!(Error::LinkError { log: vec![] }.category(), ErrorCategory::DriverRejected);
    assert_eq!(
        Error::TextureBindRejected { format: TextureFormat::RGB }.category(),
        ErrorCategory::DriverRejected
    );
    assert_eq!(Error::BufferUnavailable.category(), ErrorCategory::ResourceExhausted);
    assert_eq!(
        Error::ShaderUnavailable { stage: ShaderStage::Vertex }.category(),
        ErrorCategory::ResourceExhausted
    );
    assert_eq!(Error::ProgramUnavailable.category(), ErrorCategory::ResourceExhausted);
    assert_eq!(
        Error::TextureUnavailable { format: TextureFormat::RGB }.category(),
        ErrorCategory::ResourceExhausted
    );
}

#[test]
fn decimals_are_appended_without_leading_zeros() {
    let mut out = String::from("n=");
    append_decimal(&mut out, 0);
    assert_eq!(out, "n=0");
    append_decimal(&mut out, 9);
    append_decimal(&mut out, 10);
    append_decimal(&mut out, 1005);
    assert_eq!(out, "n=09101005");
    let mut out = String::new();
    append_decimal(&mut out, u128::MAX);
    assert_eq!(out, "340282366920938463463374607431768211455");
}

#[test]
fn signed_decimals_carry_their_sign() {
    let mut out = String::new();
    append_signed_decimal(&mut out, 0);
    out.push(' ');
    append_signed_decimal(&mut out, -1);
    out.push(' ');
    append_signed_decimal(&mut out, 42);
    out.push(' ');
    append_signed_decimal(&mut out, -9000);
    assert_eq!(out, "0 -1 42 -9000");
    let mut out = String::new();
    append_signed_decimal(&mut out, i128::MIN);
    assert_eq!(out, "-170141183460469231731687303715884105728");
    let mut out = String::new();
    append_signed_decimal(&mut out, i128::MAX);
    assert_eq!(out, "170141183460469231731687303715884105727");
}

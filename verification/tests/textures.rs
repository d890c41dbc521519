use gl_helpers::constants::{
    CLAMP_TO_EDGE, INVALID_OPERATION, LINEAR, NO_ERROR, R8, RED, RG, RG8, RGB, RGB8, RGBA, RGBA8,
    TEXTURE_2D, TEXTURE_MAG_FILTER, TEXTURE_MIN_FILTER, TEXTURE_SWIZZLE_B, TEXTURE_SWIZZLE_G,
    TEXTURE_WRAP_S, TEXTURE_WRAP_T, UNSIGNED_BYTE,
};
use gl_helpers::driver::{DriverCall, DriverReply, Task};
use gl_helpers::error::Error;
use gl_helpers::texture::{
    create_texture_2d, create_texture_2d_grayscale, create_texture_2d_grayscale_alpha,
    create_texture_2d_rgb, create_texture_2d_rgba, load_texture_2d, Decoded, TextureCreation,
    TextureFormat, TextureImage,
};

fn drive(
    mut task: TextureCreation,
    replies: Vec<DriverReply>,
) -> (TextureCreation, Vec<DriverCall>) {
    let mut calls = Vec::new();
    for reply in replies {
        match task.next_call() {
            Some(call) => {
                calls.push(call);
                task = task.advance(reply);
            }
            None => break,
        }
    }
    (task, calls)
}

fn sampling_calls(texture: u32) -> Vec<DriverCall> {
    vec![
        DriverCall::TextureParameteri {
            texture,
            pname: TEXTURE_MIN_FILTER,
            param: LINEAR as i32,
        },
        DriverCall::TextureParameteri {
            texture,
            pname: TEXTURE_MAG_FILTER,
            param: LINEAR as i32,
        },
        DriverCall::TextureParameteri {
            texture,
            pname: TEXTURE_WRAP_S,
            param: CLAMP_TO_EDGE as i32,
        },
        DriverCall::TextureParameteri {
            texture,
            pname: TEXTURE_WRAP_T,
            param: CLAMP_TO_EDGE as i32,
        },
    ]
}

fn quiet(count: usize) -> Vec<DriverReply> {
    vec![DriverReply::Done; count]
}

#[test]
fn one_byte_short_is_a_size_mismatch_in_every_format() {
    let cases = [
        (TextureFormat::RGB, 3usize),
        (TextureFormat::RGBA, 4),
        (TextureFormat::Grayscale, 1),
        (TextureFormat::GrayscaleAlpha, 2),
    ];
    for (format, channels) in cases {
        let data = vec![0u8; 4 * 5 * channels - 1];
        let task = create_texture_2d([4, 5], &data, format);
        assert_eq!(task.next_call(), None);
        assert_eq!(
            task.outcome(),
            Some(Err(Error::SizeMismatch { format, width: 4, height: 5, actual: data.len() }))
        );
    }
}

#[test]
fn one_byte_short_is_a_size_mismatch_through_every_entry_point() {
    assert_eq!(
        create_texture_2d_rgb([2, 2], &[0; 11]).outcome(),
        Some(Err(Error::SizeMismatch {
            format: TextureFormat::RGB,
            width: 2,
            height: 2,
            actual: 11
        }))
    );
    assert_eq!(
        create_texture_2d_rgba([2, 2], &[0; 15]).outcome(),
        Some(Err(Error::SizeMismatch {
            format: TextureFormat::RGBA,
            width: 2,
            height: 2,
            actual: 15
        }))
    );
    assert_eq!(
        create_texture_2d_grayscale([2, 2], &[0; 3]).outcome(),
        Some(Err(Error::SizeMismatch {
            format: TextureFormat::Grayscale,
            width: 2,
            height: 2,
            actual: 3
        }))
    );
    assert_eq!(
        create_texture_2d_grayscale_alpha([2, 2], &[0; 7]).outcome(),
        Some(Err(Error::SizeMismatch {
            format: TextureFormat::GrayscaleAlpha,
            width: 2,
            height: 2,
            actual: 7
        }))
    );
}

#[test]
fn one_byte_too_many_is_a_size_mismatch() {
    assert_eq!(
        create_texture_2d_rgb([1, 1], &[0; 4]).outcome(),
        Some(Err(Error::SizeMismatch {
            format: TextureFormat::RGB,
            width: 1,
            height: 1,
            actual: 4
        }))
    );
}

#[test]
fn the_right_length_starts_the_task() {
    assert_eq!(
        create_texture_2d_rgb([2, 3], &[0; 18]),
        TextureCreation::Generate {
            image: TextureImage { format: TextureFormat::RGB, width: 2, height: 3 }
        }
    );
    assert_eq!(
        create_texture_2d_rgba([2, 3], &[0; 24]),
        TextureCreation::Generate {
            image: TextureImage { format: TextureFormat::RGBA, width: 2, height: 3 }
        }
    );
    assert_eq!(
        create_texture_2d_grayscale([2, 3], &[0; 6]),
        TextureCreation::Generate {
            image: TextureImage { format: TextureFormat::Grayscale, width: 2, height: 3 }
        }
    );
    assert_eq!(
        create_texture_2d_grayscale_alpha([2, 3], &[0; 12]),
        TextureCreation::Generate {
            image: TextureImage { format: TextureFormat::GrayscaleAlpha, width: 2, height: 3 }
        }
    );
}

#[test]
fn an_empty_image_takes_no_bytes() {
    assert_eq!(
        create_texture_2d_rgba([0, 7], &[]),
        TextureCreation::Generate {
            image: TextureImage { format: TextureFormat::RGBA, width: 0, height: 7 }
        }
    );
    assert_eq!(
        create_texture_2d_rgba([0, 7], &[1]).outcome(),
        Some(Err(Error::SizeMismatch {
            format: TextureFormat::RGBA,
            width: 0,
            height: 7,
            actual: 1
        }))
    );
}

#[test]
fn a_product_beyond_32_bits_does_not_wrap() {
    // 65536 * 65536 * 1 is 2^32, which wraps to 0 in 32 bits.
    assert_eq!(
        create_texture_2d_grayscale([65536, 65536], &[]).outcome(),
        Some(Err(Error::SizeMismatch {
            format: TextureFormat::Grayscale,
            width: 65536,
            height: 65536,
            actual: 0
        }))
    );
}

#[test]
fn a_negative_extent_matches_no_data() {
    assert_eq!(
        create_texture_2d_grayscale([-1, 4], &[0; 4]).outcome(),
        Some(Err(Error::SizeMismatch {
            format: TextureFormat::Grayscale,
            width: -1,
            height: 4,
            actual: 4
        }))
    );
}

#[test]
fn an_rgb_texture_is_created_with_default_sampling() {
    let task = create_texture_2d_rgb([2, 1], &[0; 6]);
    let mut replies = vec![
        DriverReply::Handle(21),
        DriverReply::Done,
        DriverReply::ErrorCode(NO_ERROR),
    ];
    replies.extend(quiet(5));
    let (task, calls) = drive(task, replies);
    let mut expected = vec![
        DriverCall::GenTexture,
        DriverCall::BindTexture { target: TEXTURE_2D, texture: 21 },
        DriverCall::GetError,
        DriverCall::TexImage2D {
            target: TEXTURE_2D,
            level: 0,
            internal_format: RGB8 as i32,
            width: 2,
            height: 1,
            border: 0,
            format: RGB,
            data_type: UNSIGNED_BYTE,
        },
    ];
    expected.extend(sampling_calls(21));
    assert_eq!(calls, expected);
    assert_eq!(task.next_call(), None);
    assert_eq!(task.outcome(), Some(Ok(21)));
}

#[test]
fn an_rgba_texture_uploads_four_channels() {
    let task = create_texture_2d_rgba([1, 1], &[0; 4]);
    let mut replies = vec![
        DriverReply::Handle(2),
        DriverReply::Done,
        DriverReply::ErrorCode(NO_ERROR),
    ];
    replies.extend(quiet(5));
    let (task, calls) = drive(task, replies);
    assert_eq!(
        calls[3],
        DriverCall::TexImage2D {
            target: TEXTURE_2D,
            level: 0,
            internal_format: RGBA8 as i32,
            width: 1,
            height: 1,
            border: 0,
            format: RGBA,
            data_type: UNSIGNED_BYTE,
        }
    );
    assert_eq!(calls.len(), 8);
    assert_eq!(task.outcome(), Some(Ok(2)));
}

#[test]
fn a_grayscale_texture_reads_green_and_blue_from_red() {
    let task = create_texture_2d_grayscale([3, 1], &[0; 3]);
    let mut replies = vec![
        DriverReply::Handle(5),
        DriverReply::Done,
        DriverReply::ErrorCode(NO_ERROR),
    ];
    replies.extend(quiet(7));
    let (task, calls) = drive(task, replies);
    let mut expected = vec![
        DriverCall::GenTexture,
        DriverCall::BindTexture { target: TEXTURE_2D, texture: 5 },
        DriverCall::GetError,
        DriverCall::TexImage2D {
            target: TEXTURE_2D,
            level: 0,
            internal_format: R8 as i32,
            width: 3,
            height: 1,
            border: 0,
            format: RED,
            data_type: UNSIGNED_BYTE,
        },
    ];
    expected.extend(sampling_calls(5));
    expected.push(DriverCall::TexParameteri {
        target: TEXTURE_2D,
        pname: TEXTURE_SWIZZLE_G,
        param: RED as i32,
    });
    expected.push(DriverCall::TexParameteri {
        target: TEXTURE_2D,
        pname: TEXTURE_SWIZZLE_B,
        param: RED as i32,
    });
    assert_eq!(calls, expected);
    assert_eq!(task.next_call(), None);
    assert_eq!(task.outcome(), Some(Ok(5)));
}

#[test]
fn a_grayscale_alpha_texture_reads_green_and_blue_from_red() {
    let task = create_texture_2d_grayscale_alpha([1, 2], &[0; 4]);
    let mut replies = vec![
        DriverReply::Handle(6),
        DriverReply::Done,
        DriverReply::ErrorCode(NO_ERROR),
    ];
    replies.extend(quiet(7));
    let (task, calls) = drive(task, replies);
    assert_eq!(calls.len(), 10);
    assert_eq!(
        calls[3],
        DriverCall::TexImage2D {
            target: TEXTURE_2D,
            level: 0,
            internal_format: RG8 as i32,
            width: 1,
            height: 2,
            border: 0,
            format: RG,
            data_type: UNSIGNED_BYTE,
        }
    );
    assert_eq!(
        calls[8],
        DriverCall::TexParameteri {
            target: TEXTURE_2D,
            pname: TEXTURE_SWIZZLE_G,
            param: RED as i32
        }
    );
    assert_eq!(
        calls[9],
        DriverCall::TexParameteri {
            target: TEXTURE_2D,
            pname: TEXTURE_SWIZZLE_B,
            param: RED as i32
        }
    );
    assert_eq!(task.outcome(), Some(Ok(6)));
}

#[test]
fn a_colour_texture_is_finished_after_the_wrapping_is_set() {
    let task = TextureCreation::WrapT {
        image: TextureImage { format: TextureFormat::RGB, width: 1, height: 1 },
        texture: 4,
    };
    assert_eq!(task.advance(DriverReply::Done), TextureCreation::Created { texture: 4 });
}

#[test]
fn a_null_texture_name_is_resource_exhaustion() {
    let task = create_texture_2d_rgb([1, 1], &[0; 3]);
    let (task, calls) = drive(task, vec![DriverReply::Handle(0), DriverReply::Done]);
    assert_eq!(calls, vec![DriverCall::GenTexture]);
    assert_eq!(
        task.outcome(),
        Some(Err(Error::TextureUnavailable { format: TextureFormat::RGB }))
    );
}

#[test]
fn an_error_on_binding_deletes_the_texture() {
    let task = create_texture_2d_grayscale([1, 1], &[0; 1]);
    let (task, calls) = drive(
        task,
        vec![
            DriverReply::Handle(8),
            DriverReply::Done,
            DriverReply::ErrorCode(INVALID_OPERATION),
            DriverReply::Done,
        ],
    );
    assert_eq!(
        calls,
        vec![
            DriverCall::GenTexture,
            DriverCall::BindTexture { target: TEXTURE_2D, texture: 8 },
            DriverCall::GetError,
            DriverCall::DeleteTexture { texture: 8 },
        ]
    );
    assert_eq!(task.next_call(), None);
    assert_eq!(
        task.outcome(),
        Some(Err(Error::TextureBindRejected { format: TextureFormat::Grayscale }))
    );
}

#[test]
fn an_unfinished_task_has_no_outcome() {
    let task = create_texture_2d_rgb([1, 1], &[0; 3]);
    assert_eq!(task.clone().outcome(), None);
    let task = task.advance(DriverReply::Handle(3));
    assert_eq!(task.outcome(), None);
}

#[test]
fn formats_know_their_driver_values() {
    assert_eq!(TextureFormat::RGB.channels(), 3);
    assert_eq!(TextureFormat::RGBA.channels(), 4);
    assert_eq!(TextureFormat::Grayscale.channels(), 1);
    assert_eq!(TextureFormat::GrayscaleAlpha.channels(), 2);
    assert_eq!(TextureFormat::RGB.internal_format(), RGB8);
    assert_eq!(TextureFormat::RGBA.internal_format(), RGBA8);
    assert_eq!(TextureFormat::Grayscale.internal_format(), R8);
    assert_eq!(TextureFormat::GrayscaleAlpha.internal_format(), RG8);
    assert_eq!(TextureFormat::RGB.pixel_format(), RGB);
    assert_eq!(TextureFormat::RGBA.pixel_format(), RGBA);
    assert_eq!(TextureFormat::Grayscale.pixel_format(), RED);
    assert_eq!(TextureFormat::GrayscaleAlpha.pixel_format(), RG);
    assert!(!TextureFormat::RGB.is_luminance());
    assert!(!TextureFormat::RGBA.is_luminance());
    assert!(TextureFormat::Grayscale.is_luminance());
    assert!(TextureFormat::GrayscaleAlpha.is_luminance());
}

#[test]
fn the_byte_length_of_an_image_is_exact() {
    let image = TextureImage { format: TextureFormat::RGBA, width: 640, height: 480 };
    assert_eq!(image.byte_len(), 1_228_800);
    let huge = TextureImage { format: TextureFormat::RGBA, width: i32::MIN, height: i32::MIN };
    assert_eq!(huge.byte_len(), 1i128 << 64);
    let negative = TextureImage { format: TextureFormat::RGB, width: -3, height: 2 };
    assert_eq!(negative.byte_len(), -18);
}

#[test]
fn a_decoded_image_is_loaded_in_the_format_of_its_depth() {
    let cases = [
        (1usize, TextureFormat::Grayscale),
        (2, TextureFormat::GrayscaleAlpha),
        (3, TextureFormat::RGB),
        (4, TextureFormat::RGBA),
    ];
    for (depth, format) in cases {
        let image = Decoded::ImageU8 { width: 3, height: 2, depth, data: vec![0; 6 * depth] };
        assert_eq!(
            load_texture_2d(&image),
            TextureCreation::Generate { image: TextureImage { format, width: 3, height: 2 } }
        );
    }
}

#[test]
fn a_decoded_image_of_another_depth_is_refused() {
    for depth in [0usize, 5, 16] {
        let image = Decoded::ImageU8 { width: 1, height: 1, depth, data: vec![0; depth] };
        assert_eq!(
            load_texture_2d(&image).outcome(),
            Some(Err(Error::UnsupportedDepth { depth }))
        );
    }
}

#[test]
fn a_decoded_image_with_too_little_data_is_a_size_mismatch() {
    let image = Decoded::ImageU8 { width: 2, height: 2, depth: 3, data: vec![0; 11] };
    assert_eq!(
        load_texture_2d(&image).outcome(),
        Some(Err(Error::SizeMismatch {
            format: TextureFormat::RGB,
            width: 2,
            height: 2,
            actual: 11
        }))
    );
}

#[test]
fn a_floating_point_image_is_refused() {
    assert_eq!(load_texture_2d(&Decoded::ImageF32).outcome(), Some(Err(Error::FloatImage)));
}

#[test]
fn a_decoder_failure_is_passed_on() {
    let image = Decoded::Error("stbi_load failed".to_string());
    let task = load_texture_2d(&image);
    assert_eq!(task.next_call(), None);
    assert_eq!(
        task.outcome(),
        Some(Err(Error::DecodeFailed { reason: "stbi_load failed".to_string() }))
    );
}

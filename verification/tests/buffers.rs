use gl_helpers::constants::{
    DYNAMIC_COPY, DYNAMIC_DRAW, DYNAMIC_READ, INVALID_OPERATION, NO_ERROR, OUT_OF_MEMORY,
    STATIC_COPY, STATIC_DRAW, STATIC_READ, STREAM_COPY, STREAM_DRAW, STREAM_READ,
};
use gl_helpers::driver::{DriverCall, DriverReply, Task};
use gl_helpers::error::Error;
use gl_helpers::vertex_array::{create_buffer, BufferCreation};

/// Feeds `replies` to `task` and records the calls it asked for.
fn drive(mut task: BufferCreation, replies: Vec<DriverReply>) -> (BufferCreation, Vec<DriverCall>) {
    let mut calls = Vec::new();
    for reply in replies {
        match task.next_call() {
            Some(call) => {
                calls.push(call);
                task = task.advance(reply);
            }
            None => break,
        }
    }
    (task, calls)
}

#[test]
fn empty_data_fails_before_any_driver_call() {
    let data: [f32; 0] = [];
    let task = create_buffer(&data, STATIC_DRAW);
    assert_eq!(task, BufferCreation::Failed { error: Error::EmptyData });
    assert_eq!(task.next_call(), None);
    let (task, calls) = drive(task, vec![DriverReply::Handle(5), DriverReply::ErrorCode(0)]);
    assert!(calls.is_empty());
    assert_eq!(task.outcome(), Some(Err(Error::EmptyData)));
}

#[test]
fn empty_data_is_reported_before_a_bad_usage_hint() {
    let data: [u8; 0] = [];
    let task = create_buffer(&data, 0);
    assert_eq!(task.outcome(), Some(Err(Error::EmptyData)));
}

#[test]
fn a_usage_hint_outside_the_nine_is_refused() {
    for usage in [0u32, 1, STREAM_DRAW - 1, 0x88E3, 0x88E7, DYNAMIC_COPY + 1, u32::MAX] {
        let task = create_buffer(&[1u8, 2, 3], usage);
        assert_eq!(task.next_call(), None);
        assert_eq!(task.outcome(), Some(Err(Error::InvalidUsageHint { usage })));
    }
}

#[test]
fn each_of_the_nine_usage_hints_is_accepted() {
    for usage in [
        STREAM_DRAW,
        STREAM_READ,
        STREAM_COPY,
        STATIC_DRAW,
        STATIC_READ,
        STATIC_COPY,
        DYNAMIC_DRAW,
        DYNAMIC_READ,
        DYNAMIC_COPY,
    ] {
        let task = create_buffer(&[7u16, 8], usage);
        assert_eq!(task, BufferCreation::ClearBeforeCreate { size: 4, usage });
    }
}

#[test]
fn the_size_is_the_length_times_the_width_of_an_element() {
    assert_eq!(
        create_buffer(&[1.0f32, 2.0, 3.0], STATIC_DRAW),
        BufferCreation::ClearBeforeCreate { size: 12, usage: STATIC_DRAW }
    );
    assert_eq!(
        create_buffer(&[1.0f64, 2.0, 3.0], STATIC_DRAW),
        BufferCreation::ClearBeforeCreate { size: 24, usage: STATIC_DRAW }
    );
    assert_eq!(
        create_buffer(&[[0u8; 3]; 5], STREAM_COPY),
        BufferCreation::ClearBeforeCreate { size: 15, usage: STREAM_COPY }
    );
    assert_eq!(
        create_buffer(&[(); 4], STREAM_COPY),
        BufferCreation::ClearBeforeCreate { size: 0, usage: STREAM_COPY }
    );
}

#[test]
fn a_buffer_is_created_and_filled() {
    let task = create_buffer(&[1u32, 2, 3, 4], DYNAMIC_DRAW);
    let (task, calls) = drive(
        task,
        vec![
            DriverReply::ErrorCode(NO_ERROR),
            DriverReply::Handle(9),
            DriverReply::ErrorCode(NO_ERROR),
            DriverReply::ErrorCode(NO_ERROR),
            DriverReply::Done,
            DriverReply::ErrorCode(NO_ERROR),
        ],
    );
    assert_eq!(
        calls,
        vec![
            DriverCall::GetError,
            DriverCall::CreateBuffer,
            DriverCall::GetError,
            DriverCall::GetError,
            DriverCall::NamedBufferData { buffer: 9, size: 16, usage: DYNAMIC_DRAW },
            DriverCall::GetError,
        ]
    );
    assert_eq!(task.next_call(), None);
    assert_eq!(task.outcome(), Some(Ok(9)));
}

#[test]
fn stale_errors_are_read_away_before_each_step() {
    let task = create_buffer(&[1u8], STATIC_DRAW);
    let (task, calls) = drive(
        task,
        vec![
            DriverReply::ErrorCode(INVALID_OPERATION),
            DriverReply::ErrorCode(OUT_OF_MEMORY),
            DriverReply::ErrorCode(NO_ERROR),
            DriverReply::Handle(3),
            DriverReply::ErrorCode(NO_ERROR),
            DriverReply::ErrorCode(INVALID_OPERATION),
            DriverReply::ErrorCode(NO_ERROR),
            DriverReply::Done,
            DriverReply::ErrorCode(NO_ERROR),
        ],
    );
    assert_eq!(
        calls,
        vec![
            DriverCall::GetError,
            DriverCall::GetError,
            DriverCall::GetError,
            DriverCall::CreateBuffer,
            DriverCall::GetError,
            DriverCall::GetError,
            DriverCall::GetError,
            DriverCall::NamedBufferData { buffer: 3, size: 1, usage: STATIC_DRAW },
            DriverCall::GetError,
        ]
    );
    assert_eq!(task.outcome(), Some(Ok(3)));
}

#[test]
fn a_null_handle_is_resource_exhaustion() {
    let task = create_buffer(&[1u8], STATIC_DRAW);
    let (task, calls) = drive(
        task,
        vec![
            DriverReply::ErrorCode(NO_ERROR),
            DriverReply::Handle(0),
            DriverReply::ErrorCode(NO_ERROR),
        ],
    );
    assert_eq!(
        calls,
        vec![DriverCall::GetError, DriverCall::CreateBuffer, DriverCall::GetError]
    );
    assert_eq!(task.next_call(), None);
    assert_eq!(task.outcome(), Some(Err(Error::BufferUnavailable)));
}

#[test]
fn an_error_on_creation_with_no_buffer_fails_at_once() {
    let task = create_buffer(&[1u8], STATIC_DRAW);
    let (task, calls) = drive(
        task,
        vec![
            DriverReply::ErrorCode(NO_ERROR),
            DriverReply::Handle(0),
            DriverReply::ErrorCode(OUT_OF_MEMORY),
        ],
    );
    assert_eq!(calls.len(), 3);
    assert_eq!(task.next_call(), None);
    assert_eq!(
        task.outcome(),
        Some(Err(Error::BufferRejected { code: OUT_OF_MEMORY }))
    );
}

#[test]
fn an_error_on_creation_deletes_the_buffer_that_exists() {
    let task = create_buffer(&[1u8], STATIC_DRAW);
    let (task, calls) = drive(
        task,
        vec![
            DriverReply::ErrorCode(NO_ERROR),
            DriverReply::Handle(4),
            DriverReply::ErrorCode(INVALID_OPERATION),
            DriverReply::Done,
        ],
    );
    assert_eq!(
        calls,
        vec![
            DriverCall::GetError,
            DriverCall::CreateBuffer,
            DriverCall::GetError,
            DriverCall::DeleteBuffer { buffer: 4 },
        ]
    );
    assert_eq!(
        task.outcome(),
        Some(Err(Error::BufferRejected { code: INVALID_OPERATION }))
    );
}

#[test]
fn a_failed_upload_deletes_the_buffer() {
    let task = create_buffer(&[1u8, 2], STATIC_DRAW);
    let (task, calls) = drive(
        task,
        vec![
            DriverReply::ErrorCode(NO_ERROR),
            DriverReply::Handle(12),
            DriverReply::ErrorCode(NO_ERROR),
            DriverReply::ErrorCode(NO_ERROR),
            DriverReply::Done,
            DriverReply::ErrorCode(OUT_OF_MEMORY),
        ],
    );
    assert_eq!(task, BufferCreation::Discard {
        buffer: 12,
        error: Error::UploadError { code: OUT_OF_MEMORY }
    });
    assert_eq!(calls.len(), 6);
    assert_eq!(task.next_call(), Some(DriverCall::DeleteBuffer { buffer: 12 }));
    assert_eq!(task.clone().outcome(), None);
    let task = task.advance(DriverReply::Done);
    assert_eq!(task.next_call(), None);
    assert_eq!(
        task.outcome(),
        Some(Err(Error::UploadError { code: OUT_OF_MEMORY }))
    );
}

#[test]
fn a_reply_of_the_wrong_kind_leaves_the_task_waiting() {
    let task = create_buffer(&[1u8], STATIC_DRAW);
    let task = task.advance(DriverReply::Done);
    assert_eq!(task, BufferCreation::ClearBeforeCreate { size: 1, usage: STATIC_DRAW });
    let task = task.advance(DriverReply::ErrorCode(NO_ERROR));
    assert_eq!(task, BufferCreation::Create { size: 1, usage: STATIC_DRAW });
    let task = task.advance(DriverReply::Parameter(3));
    assert_eq!(task, BufferCreation::Create { size: 1, usage: STATIC_DRAW });
    let task = task.advance(DriverReply::Handle(3));
    let task = task.advance(DriverReply::InfoLog(vec![1]));
    assert_eq!(task, BufferCreation::CheckCreate { buffer: 3, size: 1, usage: STATIC_DRAW });
}

#[test]
fn a_finished_task_ignores_further_replies() {
    let done = BufferCreation::Created { buffer: 2 };
    assert_eq!(done.clone().advance(DriverReply::Handle(8)), done);
    let failed = BufferCreation::Failed { error: Error::EmptyData };
    assert_eq!(failed.clone().advance(DriverReply::ErrorCode(0)), failed);
}

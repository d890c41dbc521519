//! Buffers, interleaved vertex layouts and the driver's error register.

use crate::constants::{
    ARRAY_BUFFER, BYTE, DOUBLE, DYNAMIC_COPY, DYNAMIC_DRAW, DYNAMIC_READ, FALSE, FLOAT, INT,
    INVALID_ENUM, INVALID_FRAMEBUFFER_OPERATION, INVALID_OPERATION, INVALID_VALUE, NO_ERROR,
    OUT_OF_MEMORY, SHORT, STACK_OVERFLOW, STACK_UNDERFLOW, STATIC_COPY, STATIC_DRAW, STATIC_READ,
    STREAM_COPY, STREAM_DRAW, STREAM_READ, TRUE, UNSIGNED_BYTE, UNSIGNED_INT, UNSIGNED_SHORT,
};
use crate::driver::{
    acquired, acquired_in, lemma_run_from_nothing, released, released_in, run, trace, DriverCall,
    DriverReply, Exchange, Resource, Task,
};
use crate::error::Error;
use crate::text::{append_decimal, decimal};
use vstd::layout::size_of;
use vstd::multiset::Multiset;
use vstd::prelude::*;
use vstd::string::*;

verus! {

/// What an error code means, in words.
pub open spec fn error_description(error_code: u32) -> Seq<char> {
    if error_code == INVALID_ENUM {
        "GL_INVALID_ENUM: An unacceptable value is specified for an enumerated argument."@
    } else if error_code == INVALID_VALUE {
        "GL_INVALID_VALUE: A numeric argument is out of range."@
    } else if error_code == INVALID_OPERATION {
        "GL_INVALID_OPERATION: The specified operation is not allowed in the current state."@
    } else if error_code == STACK_OVERFLOW {
        "GL_STACK_OVERFLOW: A stack pushing operation would overflow the maximum stack size."@
    } else if error_code == STACK_UNDERFLOW {
        "GL_STACK_UNDERFLOW: A stack popping operation would underflow the minimum stack size."@
    } else if error_code == OUT_OF_MEMORY {
        "GL_OUT_OF_MEMORY: There is not enough memory left to execute the command."@
    } else if error_code == INVALID_FRAMEBUFFER_OPERATION {
        "GL_INVALID_FRAMEBUFFER_OPERATION: The framebuffer object is not complete."@
    } else {
        "Unknown OpenGL error"@
    }
}

/// The message for a value of the error register other than `NO_ERROR`.
pub open spec fn error_text(error_code: u32) -> Seq<char> {
    "OpenGL Error ("@ + decimal(error_code as nat) + "): "@ + error_description(error_code)
}

fn description(error_code: u32) -> (text: &'static str)
    ensures
        text@ == error_description(error_code),
{
    if error_code == INVALID_ENUM {
        "GL_INVALID_ENUM: An unacceptable value is specified for an enumerated argument."
    } else if error_code == INVALID_VALUE {
        "GL_INVALID_VALUE: A numeric argument is out of range."
    } else if error_code == INVALID_OPERATION {
        "GL_INVALID_OPERATION: The specified operation is not allowed in the current state."
    } else if error_code == STACK_OVERFLOW {
        "GL_STACK_OVERFLOW: A stack pushing operation would overflow the maximum stack size."
    } else if error_code == STACK_UNDERFLOW {
        "GL_STACK_UNDERFLOW: A stack popping operation would underflow the minimum stack size."
    } else if error_code == OUT_OF_MEMORY {
        "GL_OUT_OF_MEMORY: There is not enough memory left to execute the command."
    } else if error_code == INVALID_FRAMEBUFFER_OPERATION {
        "GL_INVALID_FRAMEBUFFER_OPERATION: The framebuffer object is not complete."
    } else {
        "Unknown OpenGL error"
    }
}

/// Appends the message for `error_code` to `out`.
pub fn append_error_text(out: &mut String, error_code: u32)
    ensures
        final(out)@ == old(out)@ + error_text(error_code),
{
    out.append("OpenGL Error (");
    append_decimal(out, error_code as u128);
    out.append("): ");
    out.append(description(error_code));
}

/// Puts a value read from the driver's error register into words: nothing
/// for `NO_ERROR`, a message for every other value.
pub fn get_error(error_code: u32) -> (message: Option<String>)
    ensures
        error_code == NO_ERROR ==> message is None,
        error_code != NO_ERROR ==> message is Some && message->0@ == error_text(error_code),
{
    if error_code != NO_ERROR {
        let mut message = String::new();
        append_error_text(&mut message, error_code);
        Some(message)
    } else {
        None
    }
}

/// Whether `usage` is one of the nine usage hints: stream, static or dynamic,
/// each for draw, read or copy.
pub open spec fn is_usage_hint(usage: u32) -> bool {
    usage == STREAM_DRAW || usage == STREAM_READ || usage == STREAM_COPY || usage == STATIC_DRAW
        || usage == STATIC_READ || usage == STATIC_COPY || usage == DYNAMIC_DRAW || usage
        == DYNAMIC_READ || usage == DYNAMIC_COPY
}

/// The creation of one buffer, between two driver calls.
///
/// The calls, in order: read the error register until it is clear; create a
/// buffer; read the error register; read it until it is clear; upload the
/// data; read the error register. A buffer that exists when a step fails is
/// deleted before the task fails.
#[derive(Debug, Clone, PartialEq, Eq)]
#[must_use]
pub enum BufferCreation {
    ClearBeforeCreate { size: isize, usage: u32 },
    Create { size: isize, usage: u32 },
    CheckCreate { buffer: u32, size: isize, usage: u32 },
    ClearBeforeUpload { buffer: u32, size: isize, usage: u32 },
    Upload { buffer: u32, size: isize, usage: u32 },
    CheckUpload { buffer: u32 },
    /// The buffer is being deleted because of `error`.
    Discard { buffer: u32, error: Error },
    /// Finished: the caller owns `buffer`, which holds the data.
    Created { buffer: u32 },
    /// Finished: no buffer exists.
    Failed { error: Error },
}

impl Task for BufferCreation {
    type Outcome = Result<u32, Error>;

    open spec fn pending(&self) -> Option<DriverCall> {
        match *self {
            BufferCreation::ClearBeforeCreate { .. } => Some(DriverCall::GetError),
            BufferCreation::Create { .. } => Some(DriverCall::CreateBuffer),
            BufferCreation::CheckCreate { .. } => Some(DriverCall::GetError),
            BufferCreation::ClearBeforeUpload { .. } => Some(DriverCall::GetError),
            BufferCreation::Upload { buffer, size, usage } => Some(
                DriverCall::NamedBufferData { buffer, size, usage },
            ),
            BufferCreation::CheckUpload { .. } => Some(DriverCall::GetError),
            BufferCreation::Discard { buffer, .. } => Some(DriverCall::DeleteBuffer { buffer }),
            BufferCreation::Created { .. } => None,
            BufferCreation::Failed { .. } => None,
        }
    }

    open spec fn after(self, reply: DriverReply) -> Self {
        match self {
            BufferCreation::ClearBeforeCreate { size, usage } => match reply {
                DriverReply::ErrorCode(code) => if code == NO_ERROR {
                    BufferCreation::Create { size, usage }
                } else {
                    self
                },
                _ => self,
            },
            BufferCreation::Create { size, usage } => match reply {
                DriverReply::Handle(buffer) => BufferCreation::CheckCreate { buffer, size, usage },
                _ => self,
            },
            BufferCreation::CheckCreate { buffer, size, usage } => match reply {
                DriverReply::ErrorCode(code) => if code != NO_ERROR {
                    if buffer != 0 {
                        BufferCreation::Discard { buffer, error: Error::BufferRejected { code } }
                    } else {
                        BufferCreation::Failed { error: Error::BufferRejected { code } }
                    }
                } else if buffer == 0 {
                    BufferCreation::Failed { error: Error::BufferUnavailable }
                } else {
                    BufferCreation::ClearBeforeUpload { buffer, size, usage }
                },
                _ => self,
            },
            BufferCreation::ClearBeforeUpload { buffer, size, usage } => match reply {
                DriverReply::ErrorCode(code) => if code == NO_ERROR {
                    BufferCreation::Upload { buffer, size, usage }
                } else {
                    self
                },
                _ => self,
            },
            BufferCreation::Upload { buffer, .. } => BufferCreation::CheckUpload { buffer },
            BufferCreation::CheckUpload { buffer } => match reply {
                DriverReply::ErrorCode(code) => if code != NO_ERROR {
                    BufferCreation::Discard { buffer, error: Error::UploadError { code } }
                } else {
                    BufferCreation::Created { buffer }
                },
                _ => self,
            },
            BufferCreation::Discard { error, .. } => BufferCreation::Failed { error },
            BufferCreation::Created { .. } => self,
            BufferCreation::Failed { .. } => self,
        }
    }

    open spec fn result(self) -> Option<Result<u32, Error>> {
        match self {
            BufferCreation::Created { buffer } => Some(Ok(buffer)),
            BufferCreation::Failed { error } => Some(Err(error)),
            _ => None,
        }
    }

    open spec fn holds(&self) -> Multiset<Resource> {
        match *self {
            BufferCreation::ClearBeforeCreate { .. } => Multiset::empty(),
            BufferCreation::Create { .. } => Multiset::empty(),
            BufferCreation::Failed { .. } => Multiset::empty(),
            BufferCreation::CheckCreate { buffer, .. } => if buffer != 0 {
                Multiset::singleton(Resource::Buffer(buffer))
            } else {
                Multiset::empty()
            },
            BufferCreation::ClearBeforeUpload { buffer, .. }
            | BufferCreation::Upload { buffer, .. }
            | BufferCreation::CheckUpload { buffer }
            | BufferCreation::Discard { buffer, .. }
            | BufferCreation::Created { buffer } => Multiset::singleton(Resource::Buffer(buffer)),
        }
    }

    fn next_call(&self) -> (call: Option<DriverCall>) {
        match self {
            BufferCreation::ClearBeforeCreate { .. } => Some(DriverCall::GetError),
            BufferCreation::Create { .. } => Some(DriverCall::CreateBuffer),
            BufferCreation::CheckCreate { .. } => Some(DriverCall::GetError),
            BufferCreation::ClearBeforeUpload { .. } => Some(DriverCall::GetError),
            BufferCreation::Upload { buffer, size, usage } => Some(
                DriverCall::NamedBufferData { buffer: *buffer, size: *size, usage: *usage },
            ),
            BufferCreation::CheckUpload { .. } => Some(DriverCall::GetError),
            BufferCreation::Discard { buffer, .. } => Some(
                DriverCall::DeleteBuffer { buffer: *buffer },
            ),
            BufferCreation::Created { .. } => None,
            BufferCreation::Failed { .. } => None,
        }
    }

    fn advance(self, reply: DriverReply) -> (next: Self) {
        match self {
            BufferCreation::ClearBeforeCreate { size, usage } => match reply {
                DriverReply::ErrorCode(code) => if code == NO_ERROR {
                    BufferCreation::Create { size, usage }
                } else {
                    BufferCreation::ClearBeforeCreate { size, usage }
                },
                _ => BufferCreation::ClearBeforeCreate { size, usage },
            },
            BufferCreation::Create { size, usage } => match reply {
                DriverReply::Handle(buffer) => BufferCreation::CheckCreate { buffer, size, usage },
                _ => BufferCreation::Create { size, usage },
            },
            BufferCreation::CheckCreate { buffer, size, usage } => match reply {
                DriverReply::ErrorCode(code) => if code != NO_ERROR {
                    if buffer != 0 {
                        BufferCreation::Discard { buffer, error: Error::BufferRejected { code } }
                    } else {
                        BufferCreation::Failed { error: Error::BufferRejected { code } }
                    }
                } else if buffer == 0 {
                    BufferCreation::Failed { error: Error::BufferUnavailable }
                } else {
                    BufferCreation::ClearBeforeUpload { buffer, size, usage }
                },
                _ => BufferCreation::CheckCreate { buffer, size, usage },
            },
            BufferCreation::ClearBeforeUpload { buffer, size, usage } => match reply {
                DriverReply::ErrorCode(code) => if code == NO_ERROR {
                    BufferCreation::Upload { buffer, size, usage }
                } else {
                    BufferCreation::ClearBeforeUpload { buffer, size, usage }
                },
                _ => BufferCreation::ClearBeforeUpload { buffer, size, usage },
            },
            BufferCreation::Upload { buffer, .. } => BufferCreation::CheckUpload { buffer },
            BufferCreation::CheckUpload { buffer } => match reply {
                DriverReply::ErrorCode(code) => if code != NO_ERROR {
                    BufferCreation::Discard { buffer, error: Error::UploadError { code } }
                } else {
                    BufferCreation::Created { buffer }
                },
                _ => BufferCreation::CheckUpload { buffer },
            },
            BufferCreation::Discard { error, .. } => BufferCreation::Failed { error },
            BufferCreation::Created { buffer } => BufferCreation::Created { buffer },
            BufferCreation::Failed { error } => BufferCreation::Failed { error },
        }
    }

    fn outcome(self) -> (outcome: Option<Result<u32, Error>>) {
        match self {
            BufferCreation::Created { buffer } => Some(Ok(buffer)),
            BufferCreation::Failed { error } => Some(Err(error)),
            _ => None,
        }
    }

    proof fn lemma_result_when_finished(self) {
    }

    proof fn lemma_step_conserves(self, reply: DriverReply) {
    }
}

/// The task that [`create_buffer`] starts for `len` elements of `width` bytes
/// each.
pub open spec fn buffer_creation(len: nat, width: nat, usage: u32) -> BufferCreation {
    if len == 0 {
        BufferCreation::Failed { error: Error::EmptyData }
    } else if !is_usage_hint(usage) {
        BufferCreation::Failed { error: Error::InvalidUsageHint { usage } }
    } else if len * width > isize::MAX {
        BufferCreation::Failed { error: Error::DataTooLarge }
    } else {
        BufferCreation::ClearBeforeCreate { size: (len * width) as isize, usage }
    }
}

/// Starts the creation of a buffer that holds a copy of `data`.
///
/// The task has failed before any driver call where `data` is empty
/// (`EmptyData`), where `usage` is none of the nine usage hints
/// (`InvalidUsageHint`), or where the data takes more bytes than `isize`
/// holds (`DataTooLarge`).
pub fn create_buffer<T: Copy>(data: &[T], usage: u32) -> (task: BufferCreation)
    ensures
        task == buffer_creation(data@.len(), size_of::<T>(), usage),
{
    if data.len() == 0 {
        return BufferCreation::Failed { error: Error::EmptyData };
    }
    let valid = usage == STREAM_DRAW || usage == STREAM_READ || usage == STREAM_COPY || usage
        == STATIC_DRAW || usage == STATIC_READ || usage == STATIC_COPY || usage == DYNAMIC_DRAW
        || usage == DYNAMIC_READ || usage == DYNAMIC_COPY;
    if !valid {
        return BufferCreation::Failed { error: Error::InvalidUsageHint { usage } };
    }
    match data.len().checked_mul(core::mem::size_of::<T>()) {
        Some(bytes) => {
            if bytes > isize::MAX as usize {
                BufferCreation::Failed { error: Error::DataTooLarge }
            } else {
                BufferCreation::ClearBeforeCreate { size: bytes as isize, usage }
            }
        },
        None => BufferCreation::Failed { error: Error::DataTooLarge },
    }
}

/// No buffer is lost and none is handed out half-made. When the creation
/// of a buffer has finished, whatever the driver answered on the way: after
/// success the one buffer that was created and not deleted again is the one
/// the caller gets; after a failure every buffer that was created was
/// deleted.
pub proof fn lemma_buffer_creation_balance(
    len: nat,
    width: nat,
    usage: u32,
    replies: Seq<DriverReply>,
)
    requires
        run(buffer_creation(len, width, usage), replies).result() is Some,
    ensures
        ({
            let task = buffer_creation(len, width, usage);
            acquired_in(trace(task, replies)) == released_in(trace(task, replies)).add(
                match run(task, replies).result()->0 {
                    Ok(buffer) => Multiset::singleton(Resource::Buffer(buffer)),
                    Err(_) => Multiset::empty(),
                },
            )
        }),
{
    lemma_run_from_nothing(buffer_creation(len, width, usage), replies);
}

/// Empty data allocates nothing. The task for an empty slice has failed with
/// `EmptyData` from the start, whatever the usage hint; and whatever replies
/// it is fed, it makes no driver call, so no buffer is ever created.
pub proof fn lemma_empty_data_allocates_nothing(width: nat, usage: u32, replies: Seq<DriverReply>)
    ensures
        buffer_creation(0, width, usage) == (BufferCreation::Failed { error: Error::EmptyData }),
        buffer_creation(0, width, usage).pending() is None,
        trace(buffer_creation(0, width, usage), replies) == Seq::<Exchange>::empty(),
{
}

/// The width in bytes of one component of the given scalar type.
pub open spec fn component_width(component_type: u32) -> Option<int> {
    if component_type == FLOAT {
        Some(4)
    } else if component_type == DOUBLE {
        Some(8)
    } else if component_type == BYTE || component_type == UNSIGNED_BYTE {
        Some(1)
    } else if component_type == SHORT || component_type == UNSIGNED_SHORT {
        Some(2)
    } else if component_type == INT || component_type == UNSIGNED_INT {
        Some(4)
    } else {
        None
    }
}

/// The number of components in the first `count` attributes.
pub open spec fn components_before(sizes: Seq<i32>, count: int) -> int
    decreases count,
{
    if count <= 0 {
        0
    } else {
        components_before(sizes, count - 1) + sizes[count - 1]
    }
}

/// The byte distance from the start of a vertex to attribute `i`.
pub open spec fn attribute_offset(sizes: Seq<i32>, width: int, i: int) -> int {
    width * components_before(sizes, i)
}

/// The byte distance between two consecutive vertices.
pub open spec fn layout_stride(sizes: Seq<i32>, width: int) -> int {
    width * components_before(sizes, sizes.len() as int)
}

/// Whether the stride, every offset and every attribute index of a layout
/// can be written in 32 bits.
pub open spec fn layout_fits(start_index: i32, sizes: Seq<i32>, width: int) -> bool {
    &&& forall|i: int|
        0 <= i <= sizes.len() ==> i32::MIN <= #[trigger] attribute_offset(sizes, width, i)
            <= i32::MAX
    &&& start_index + sizes.len() - 1 <= i32::MAX
}

/// The call that enables attribute `i` of a layout.
pub open spec fn enable_call(start_index: i32, i: int) -> DriverCall {
    DriverCall::EnableVertexAttribArray { index: ((start_index + i) as i32) as u32 }
}

/// The call that describes attribute `i` of a layout.
pub open spec fn pointer_call(
    component_type: u32,
    normalized: bool,
    start_index: i32,
    sizes: Seq<i32>,
    width: int,
    i: int,
) -> DriverCall {
    DriverCall::VertexAttribPointer {
        index: ((start_index + i) as i32) as u32,
        components: sizes[i],
        component_type,
        normalized: if normalized {
            TRUE
        } else {
            FALSE
        },
        stride: layout_stride(sizes, width) as i32,
        offset: attribute_offset(sizes, width, i) as i32,
    }
}

/// The calls that bind an interleaved layout: the vertex array and the
/// buffer are bound, then each attribute is enabled and described, in order.
pub open spec fn binding_calls(
    vao: u32,
    buffer: u32,
    component_type: u32,
    normalized: bool,
    start_index: i32,
    sizes: Seq<i32>,
    width: int,
) -> Seq<DriverCall> {
    seq![
        DriverCall::BindVertexArray { array: vao },
        DriverCall::BindBuffer { target: ARRAY_BUFFER, buffer },
    ] + Seq::new(
        2 * sizes.len(),
        |k: int|
            if k % 2 == 0 {
                enable_call(start_index, k / 2)
            } else {
                pointer_call(component_type, normalized, start_index, sizes, width, k / 2)
            },
    )
}

fn width_of(component_type: u32) -> (width: Option<i64>)
    ensures
        width is Some <==> component_width(component_type) is Some,
        width matches Some(w) ==> component_width(component_type) == Some(w as int) && 1 <= w
            <= 8,
{
    if component_type == FLOAT {
        Some(4)
    } else if component_type == DOUBLE {
        Some(8)
    } else if component_type == BYTE || component_type == UNSIGNED_BYTE {
        Some(1)
    } else if component_type == SHORT || component_type == UNSIGNED_SHORT {
        Some(2)
    } else if component_type == INT || component_type == UNSIGNED_INT {
        Some(4)
    } else {
        None
    }
}

/// Plans the binding of interleaved vertex attributes, all of one scalar
/// type and all in one buffer.
///
/// `sizes` gives the component count of each attribute; attribute `i` is
/// bound at index `start_index + i`. All attributes share the stride
/// `width * sum(sizes)`, and attribute `i` starts `width * sum(sizes[0..i])`
/// bytes into a vertex, where `width` is the byte width of `type_`.
///
/// The calls of the plan rebind the current vertex array and the current
/// array buffer. Where the input is refused there is no plan, so nothing is
/// bound and nothing enabled.
pub fn enable_interleaved_vertex_array_attributes(
    vao: u32,
    buffer: u32,
    type_: u32,
    normalized: bool,
    start_index: i32,
    sizes: &[i32],
) -> (plan: Result<Vec<DriverCall>, Error>)
    ensures
        sizes@.len() == 0 ==> plan == Err::<Vec<DriverCall>, Error>(Error::EmptyLayout),
        sizes@.len() > 0 && component_width(type_) is None ==> plan == Err::<
            Vec<DriverCall>,
            Error,
        >(Error::InvalidComponentType { component_type: type_ }),
        sizes@.len() > 0 && component_width(type_) is Some && !layout_fits(
            start_index,
            sizes@,
            component_width(type_)->0,
        ) ==> plan == Err::<Vec<DriverCall>, Error>(Error::LayoutOverflow),
        sizes@.len() > 0 && component_width(type_) is Some && layout_fits(
            start_index,
            sizes@,
            component_width(type_)->0,
        ) ==> plan is Ok && plan->Ok_0@ == binding_calls(
            vao,
            buffer,
            type_,
            normalized,
            start_index,
            sizes@,
            component_width(type_)->0,
        ),
{
    let count = sizes.len();
    if count == 0 {
        return Err(Error::EmptyLayout);
    }
    let width = match width_of(type_) {
        Some(width) => width,
        None => {
            return Err(Error::InvalidComponentType { component_type: type_ });
        },
    };
    if count - 1 > (i32::MAX as i64 - start_index as i64) as usize {
        return Err(Error::LayoutOverflow);
    }
    let ghost w = width as int;
    let mut offsets: Vec<i32> = Vec::new();
    let mut total: i64 = 0;
    let mut i: usize = 0;
    while i < count
        invariant
            count == sizes@.len(),
            i <= count,
            count > 0,
            1 <= width <= 8,
            w == width,
            component_width(type_) == Some(w),
            total == attribute_offset(sizes@, w, i as int),
            i32::MIN <= total <= i32::MAX,
            offsets@.len() == i,
            forall|j: int|
                0 <= j <= i ==> i32::MIN <= #[trigger] attribute_offset(sizes@, w, j) <= i32::MAX,
            forall|j: int| 0 <= j < i ==> offsets@[j] == attribute_offset(sizes@, w, j),
        decreases count - i,
    {
        offsets.push(total as i32);
        let size = sizes[i];
        assert(-8 * 0x8000_0000 <= size * width <= 8 * 0x8000_0000) by (nonlinear_arith)
            requires
                -0x8000_0000 <= size < 0x8000_0000,
                1 <= width <= 8,
        ;
        let next: i64 = total + (size as i64) * width;
        assert(next == attribute_offset(sizes@, w, i + 1)) by {
            assert(w * (components_before(sizes@, i as int) + size) == w * components_before(
                sizes@,
                i as int,
            ) + size * w) by (nonlinear_arith);
        }
        if next < i32::MIN as i64 || next > i32::MAX as i64 {
            return Err(Error::LayoutOverflow);
        }
        total = next;
        i = i + 1;
    }
    let stride: i32 = total as i32;
    let flag: u8 = if normalized {
        TRUE
    } else {
        FALSE
    };
    let ghost target = binding_calls(vao, buffer, type_, normalized, start_index, sizes@, w);
    let mut calls: Vec<DriverCall> = Vec::new();
    calls.push(DriverCall::BindVertexArray { array: vao });
    calls.push(DriverCall::BindBuffer { target: ARRAY_BUFFER, buffer });
    let mut i: usize = 0;
    while i < count
        invariant
            count == sizes@.len(),
            i <= count,
            count - 1 <= i32::MAX - start_index,
            offsets@.len() == count,
            forall|j: int| 0 <= j < count ==> offsets@[j] == attribute_offset(sizes@, w, j),
            stride == layout_stride(sizes@, w),
            flag == if normalized {
                TRUE
            } else {
                FALSE
            },
            target == binding_calls(vao, buffer, type_, normalized, start_index, sizes@, w),
            calls@.len() == 2 + 2 * i,
            forall|k: int| 0 <= k < calls@.len() ==> calls@[k] == target[k],
        decreases count - i,
    {
        let position: i32 = (start_index as i64 + i as i64) as i32;
        let index: u32 = #[verifier::truncate] (position as u32);
        calls.push(DriverCall::EnableVertexAttribArray { index });
        calls.push(
            DriverCall::VertexAttribPointer {
                index,
                components: sizes[i],
                component_type: type_,
                normalized: flag,
                stride,
                offset: offsets[i],
            },
        );
        i = i + 1;
    }
    Ok(calls)
}

/// The layout that a plan binds. For every list of sizes that is not empty
/// and every scalar type, provided the layout can be written in 32 bits:
/// the plan holds two calls for each attribute after the two that bind;
/// attribute `i` is enabled and described at index `start_index + i`; its
/// stride is the width of the type times the sum of all sizes; and its
/// offset is that width times the sum of the sizes before it.
pub proof fn lemma_plan_layout(
    vao: u32,
    buffer: u32,
    component_type: u32,
    normalized: bool,
    start_index: i32,
    sizes: Seq<i32>,
    i: int,
)
    requires
        component_width(component_type) is Some,
        layout_fits(start_index, sizes, component_width(component_type)->0),
        0 <= i < sizes.len(),
    ensures
        ({
            let width = component_width(component_type)->0;
            let plan = binding_calls(
                vao,
                buffer,
                component_type,
                normalized,
                start_index,
                sizes,
                width,
            );
            &&& plan.len() == 2 + 2 * sizes.len()
            &&& plan[2 + 2 * i] matches DriverCall::EnableVertexAttribArray { index }
            &&& (start_index + i >= 0 ==> index == start_index + i)
            &&& plan[3 + 2 * i] matches DriverCall::VertexAttribPointer {
                index: described,
                components,
                component_type: scalar,
                stride,
                offset,
                ..
            }
            &&& described == index
            &&& components == sizes[i]
            &&& scalar == component_type
            &&& stride == width * components_before(sizes, sizes.len() as int)
            &&& offset == width * components_before(sizes, i)
        }),
{
    let width = component_width(component_type)->0;
    assert(i32::MIN <= attribute_offset(sizes, width, sizes.len() as int) <= i32::MAX);
}

} // verus!

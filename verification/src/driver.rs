//! The vocabulary shared with the graphics driver.
//!
//! The library never talks to the driver itself. Every operation is a
//! [`Task`]: a state machine that names the one driver call it needs next and
//! moves on when it is handed the driver's reply. Whoever owns the driver
//! context performs the call; the task decides everything else.

use vstd::multiset::Multiset;
use vstd::prelude::*;

verus! {

/// One call into the driver, with the arguments this library chooses.
///
/// Data that the caller already holds (vertex data, pixels) is not copied
/// into the call: `NamedBufferData` and `TexImage2D` refer to the slice that
/// was given when the task was started.
#[derive(Debug, Clone, PartialEq, Eq)]
pub enum DriverCall {
    /// Read and clear the error register.
    GetError,
    /// Create one buffer object.
    CreateBuffer,
    /// Allocate `size` bytes for `buffer` and fill them from the caller's data.
    NamedBufferData { buffer: u32, size: isize, usage: u32 },
    DeleteBuffer { buffer: u32 },
    CreateShader { shader_type: u32 },
    /// Replace the source of `shader` by the single string `source`.
    ShaderSource { shader: u32, source: String },
    CompileShader { shader: u32 },
    /// Query the integer parameter `pname` of `shader`.
    GetShaderiv { shader: u32, pname: u32 },
    /// Read up to `length` bytes of the information log of `shader`.
    GetShaderInfoLog { shader: u32, length: i32 },
    DeleteShader { shader: u32 },
    CreateProgram,
    AttachShader { program: u32, shader: u32 },
    LinkProgram { program: u32 },
    DetachShader { program: u32, shader: u32 },
    /// Query the integer parameter `pname` of `program`.
    GetProgramiv { program: u32, pname: u32 },
    /// Read up to `length` bytes of the information log of `program`.
    GetProgramInfoLog { program: u32, length: i32 },
    DeleteProgram { program: u32 },
    /// Generate one texture name.
    GenTexture,
    BindTexture { target: u32, texture: u32 },
    /// Define one level of the texture bound to `target` from the caller's
    /// pixels, which are of `format` and `data_type`.
    TexImage2D {
        target: u32,
        level: i32,
        internal_format: i32,
        width: i32,
        height: i32,
        border: i32,
        format: u32,
        data_type: u32,
    },
    TextureParameteri { texture: u32, pname: u32, param: i32 },
    TexParameteri { target: u32, pname: u32, param: i32 },
    DeleteTexture { texture: u32 },
    BindVertexArray { array: u32 },
    BindBuffer { target: u32, buffer: u32 },
    EnableVertexAttribArray { index: u32 },
    VertexAttribPointer {
        index: u32,
        components: i32,
        component_type: u32,
        normalized: u8,
        stride: i32,
        offset: i32,
    },
}

/// What the driver gave back for one call.
#[derive(Debug, Clone, PartialEq, Eq)]
pub enum DriverReply {
    /// The call returns nothing.
    Done,
    /// The name of a freshly created object; zero when the driver has none.
    Handle(u32),
    /// The value of the error register.
    ErrorCode(u32),
    /// An integer parameter.
    Parameter(i32),
    /// The bytes of an information log.
    InfoLog(Vec<u8>),
}

/// A driver object that somebody has to destroy.
#[derive(Debug, Clone, Copy, PartialEq, Eq)]
pub enum Resource {
    Buffer(u32),
    Shader(u32),
    Program(u32),
    Texture(u32),
}

/// A call together with the reply it got.
#[derive(Debug, Clone, PartialEq, Eq)]
pub struct Exchange {
    pub call: DriverCall,
    pub reply: DriverReply,
}

/// The object that comes into being when `call` is answered by `reply`:
/// a creation call answered by a non-zero handle.
pub open spec fn acquired(call: DriverCall, reply: DriverReply) -> Multiset<Resource> {
    match (call, reply) {
        (DriverCall::CreateBuffer, DriverReply::Handle(h)) if h != 0 => Multiset::singleton(
            Resource::Buffer(h),
        ),
        (DriverCall::CreateShader { .. }, DriverReply::Handle(h)) if h != 0 => Multiset::singleton(
            Resource::Shader(h),
        ),
        (DriverCall::CreateProgram, DriverReply::Handle(h)) if h != 0 => Multiset::singleton(
            Resource::Program(h),
        ),
        (DriverCall::GenTexture, DriverReply::Handle(h)) if h != 0 => Multiset::singleton(
            Resource::Texture(h),
        ),
        _ => Multiset::empty(),
    }
}

/// The object that `call` destroys.
pub open spec fn released(call: DriverCall) -> Multiset<Resource> {
    match call {
        DriverCall::DeleteBuffer { buffer } => Multiset::singleton(Resource::Buffer(buffer)),
        DriverCall::DeleteShader { shader } => Multiset::singleton(Resource::Shader(shader)),
        DriverCall::DeleteProgram { program } => Multiset::singleton(Resource::Program(program)),
        DriverCall::DeleteTexture { texture } => Multiset::singleton(Resource::Texture(texture)),
        _ => Multiset::empty(),
    }
}

/// All objects that came into being along `trace`.
pub open spec fn acquired_in(trace: Seq<Exchange>) -> Multiset<Resource>
    decreases trace.len(),
{
    if trace.len() == 0 {
        Multiset::empty()
    } else {
        acquired(trace[0].call, trace[0].reply).add(acquired_in(trace.drop_first()))
    }
}

/// All objects destroyed along `trace`, each as often as it was destroyed.
pub open spec fn released_in(trace: Seq<Exchange>) -> Multiset<Resource>
    decreases trace.len(),
{
    if trace.len() == 0 {
        Multiset::empty()
    } else {
        released(trace[0].call).add(released_in(trace.drop_first()))
    }
}

/// An operation on the driver, suspended between two driver calls.
///
/// Whoever drives a task performs the call that [`Task::next_call`] names
/// and feeds the driver's reply to [`Task::advance`], until no call is
/// pending; then [`Task::outcome`] has the result. A call that returns
/// nothing is answered by any reply. Where a call returns a value, a reply
/// of another kind answers nothing: the task stays where it is and names the
/// same call again.
pub trait Task: Sized {
    /// What the operation yields once it has finished.
    type Outcome;

    /// The call the task is waiting for; `None` once it has finished.
    spec fn pending(&self) -> Option<DriverCall>;

    /// The task after its pending call was answered by `reply`.
    spec fn after(self, reply: DriverReply) -> Self;

    /// The result of a finished task.
    spec fn result(self) -> Option<Self::Outcome>;

    /// The driver objects the task is answerable for in this state: created
    /// or taken over, and neither destroyed nor handed on yet.
    spec fn holds(&self) -> Multiset<Resource>;

    /// The call to perform next, or `None` when the task has finished.
    fn next_call(&self) -> (call: Option<DriverCall>)
        ensures
            call == self.pending(),
    ;

    /// Feeds the reply to the call that `next_call` named.
    fn advance(self, reply: DriverReply) -> (next: Self)
        ensures
            next == self.after(reply),
    ;

    /// The result, once no call is pending.
    fn outcome(self) -> (outcome: Option<Self::Outcome>)
        ensures
            outcome == self.result(),
    ;

    /// A task has a result exactly when it waits for no call.
    proof fn lemma_result_when_finished(self)
        ensures
            self.result() is Some <==> self.pending() is None,
    ;

    /// One step neither loses nor invents an object: what the task holds
    /// afterwards, plus what the call destroyed, is what it held before plus
    /// what the call created.
    proof fn lemma_step_conserves(self, reply: DriverReply)
        requires
            self.pending() is Some,
        ensures
            self.after(reply).holds().add(released(self.pending()->0)) == self.holds().add(
                acquired(self.pending()->0, reply),
            ),
    ;
}

/// The task after it was fed `replies` in order, stopping early if it finishes.
pub open spec fn run<T: Task>(task: T, replies: Seq<DriverReply>) -> T
    decreases replies.len(),
{
    if replies.len() == 0 || task.pending() is None {
        task
    } else {
        run(task.after(replies[0]), replies.drop_first())
    }
}

/// The calls the task makes while it is fed `replies`, each with its reply.
pub open spec fn trace<T: Task>(task: T, replies: Seq<DriverReply>) -> Seq<Exchange>
    decreases replies.len(),
{
    if replies.len() == 0 || task.pending() is None {
        Seq::empty()
    } else {
        seq![Exchange { call: task.pending()->0, reply: replies[0] }] + trace(
            task.after(replies[0]),
            replies.drop_first(),
        )
    }
}

/// Acquisitions add up over concatenated traces.
pub proof fn lemma_acquired_in_concat(first: Seq<Exchange>, second: Seq<Exchange>)
    ensures
        acquired_in(first + second) == acquired_in(first).add(acquired_in(second)),
    decreases first.len(),
{
    if first.len() > 0 {
        assert((first + second).drop_first() =~= first.drop_first() + second);
        lemma_acquired_in_concat(first.drop_first(), second);
    }
}

/// Releases add up over concatenated traces.
pub proof fn lemma_released_in_concat(first: Seq<Exchange>, second: Seq<Exchange>)
    ensures
        released_in(first + second) == released_in(first).add(released_in(second)),
    decreases first.len(),
{
    if first.len() > 0 {
        assert((first + second).drop_first() =~= first.drop_first() + second);
        lemma_released_in_concat(first.drop_first(), second);
    }
}

/// Conservation over a whole run, whatever the driver answers: the objects
/// held at the start plus those created on the way are the objects held at
/// the end plus those destroyed on the way.
pub proof fn lemma_run_conserves<T: Task>(task: T, replies: Seq<DriverReply>)
    ensures
        task.holds().add(acquired_in(trace(task, replies))) == run(task, replies).holds().add(
            released_in(trace(task, replies)),
        ),
    decreases replies.len(),
{
    if replies.len() > 0 && task.pending() is Some {
        let call = task.pending()->0;
        let next = task.after(replies[0]);
        let rest = trace(next, replies.drop_first());
        let whole = trace(task, replies);
        task.lemma_step_conserves(replies[0]);
        lemma_run_conserves(next, replies.drop_first());
        assert(whole.drop_first() =~= rest);
        let before = task.holds().add(acquired_in(whole));
        let afterwards = run(task, replies).holds().add(released_in(whole));
        assert forall|v: Resource| before.count(v) == afterwards.count(v) by {
            assert(next.holds().add(released(call)).count(v) == task.holds().add(
                acquired(call, replies[0]),
            ).count(v));
            assert(next.holds().add(acquired_in(rest)).count(v) == run(
                next,
                replies.drop_first(),
            ).holds().add(released_in(rest)).count(v));
        }
    }
}

/// The balance of a run that starts empty-handed: the objects created on
/// the way are the objects destroyed on the way and the objects held at the
/// end.
pub proof fn lemma_run_from_nothing<T: Task>(task: T, replies: Seq<DriverReply>)
    requires
        task.holds() == Multiset::<Resource>::empty(),
    ensures
        acquired_in(trace(task, replies)) == released_in(trace(task, replies)).add(
            run(task, replies).holds(),
        ),
{
    lemma_run_conserves(task, replies);
    let made = acquired_in(trace(task, replies));
    let gone = released_in(trace(task, replies));
    let left = run(task, replies).holds();
    assert forall|v: Resource| made.count(v) == gone.add(left).count(v) by {
        assert(task.holds().add(made).count(v) == left.add(gone).count(v));
    }
}

} // verus!

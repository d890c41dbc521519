//! Shader compilation, program linking and the program builder.

use crate::constants::{
    COMPILE_STATUS, COMPUTE_SHADER, FRAGMENT_SHADER, GEOMETRY_SHADER, INFO_LOG_LENGTH,
    LINK_STATUS, TESS_CONTROL_SHADER, TESS_EVALUATION_SHADER, TRUE, VERTEX_SHADER,
};
use crate::driver::{
    acquired, acquired_in, lemma_run_from_nothing, released, released_in, run, trace, DriverCall,
    DriverReply, Resource, Task,
};
use crate::error::Error;
use vstd::multiset::Multiset;
use vstd::prelude::*;
use vstd::slice::slice_to_vec;
use vstd::string::*;
use vstd::utf8::encode_utf8;

verus! {

/// One programmable stage of rendering.
#[derive(Debug, Clone, Copy, PartialEq, Eq, Structural)]
pub enum ShaderStage {
    Vertex,
    Fragment,
    Geometry,
    TessControl,
    TessEvaluation,
    Compute,
}

impl ShaderStage {
    /// The driver's value for the stage.
    pub open spec fn spec_code(self) -> u32 {
        match self {
            ShaderStage::Vertex => VERTEX_SHADER,
            ShaderStage::Fragment => FRAGMENT_SHADER,
            ShaderStage::Geometry => GEOMETRY_SHADER,
            ShaderStage::TessControl => TESS_CONTROL_SHADER,
            ShaderStage::TessEvaluation => TESS_EVALUATION_SHADER,
            ShaderStage::Compute => COMPUTE_SHADER,
        }
    }

    /// The stage that the driver's value names, if it names one.
    pub open spec fn spec_from_code(shader_type: u32) -> Option<ShaderStage> {
        if shader_type == VERTEX_SHADER {
            Some(ShaderStage::Vertex)
        } else if shader_type == FRAGMENT_SHADER {
            Some(ShaderStage::Fragment)
        } else if shader_type == GEOMETRY_SHADER {
            Some(ShaderStage::Geometry)
        } else if shader_type == TESS_CONTROL_SHADER {
            Some(ShaderStage::TessControl)
        } else if shader_type == TESS_EVALUATION_SHADER {
            Some(ShaderStage::TessEvaluation)
        } else if shader_type == COMPUTE_SHADER {
            Some(ShaderStage::Compute)
        } else {
            None
        }
    }

    /// The name of the stage in messages.
    pub open spec fn spec_name(self) -> Seq<char> {
        match self {
            ShaderStage::Vertex => "Vertex"@,
            ShaderStage::Fragment => "Fragment"@,
            ShaderStage::Geometry => "Geometry"@,
            ShaderStage::TessControl => "Tess Control"@,
            ShaderStage::TessEvaluation => "Tess Evaluation"@,
            ShaderStage::Compute => "Compute"@,
        }
    }

    /// The name of the stage in messages.
    pub fn name(self) -> (name: &'static str)
        ensures
            name@ == self.spec_name(),
    {
        match self {
            ShaderStage::Vertex => "Vertex",
            ShaderStage::Fragment => "Fragment",
            ShaderStage::Geometry => "Geometry",
            ShaderStage::TessControl => "Tess Control",
            ShaderStage::TessEvaluation => "Tess Evaluation",
            ShaderStage::Compute => "Compute",
        }
    }

    /// The driver's value for the stage.
    pub fn code(self) -> (shader_type: u32)
        ensures
            shader_type == self.spec_code(),
            Self::spec_from_code(shader_type) == Some(self),
    {
        match self {
            ShaderStage::Vertex => VERTEX_SHADER,
            ShaderStage::Fragment => FRAGMENT_SHADER,
            ShaderStage::Geometry => GEOMETRY_SHADER,
            ShaderStage::TessControl => TESS_CONTROL_SHADER,
            ShaderStage::TessEvaluation => TESS_EVALUATION_SHADER,
            ShaderStage::Compute => COMPUTE_SHADER,
        }
    }

    /// The stage that the driver's value names, if it names one.
    pub fn from_code(shader_type: u32) -> (stage: Option<ShaderStage>)
        ensures
            stage == Self::spec_from_code(shader_type),
            stage matches Some(s) ==> s.spec_code() == shader_type,
    {
        if shader_type == VERTEX_SHADER {
            Some(ShaderStage::Vertex)
        } else if shader_type == FRAGMENT_SHADER {
            Some(ShaderStage::Fragment)
        } else if shader_type == GEOMETRY_SHADER {
            Some(ShaderStage::Geometry)
        } else if shader_type == TESS_CONTROL_SHADER {
            Some(ShaderStage::TessControl)
        } else if shader_type == TESS_EVALUATION_SHADER {
            Some(ShaderStage::TessEvaluation)
        } else if shader_type == COMPUTE_SHADER {
            Some(ShaderStage::Compute)
        } else {
            None
        }
    }
}

/// The name of the stage that the driver's value `shader_type` names.
pub fn shader_type_name(shader_type: u32) -> (name: Result<&'static str, Error>)
    ensures
        match ShaderStage::spec_from_code(shader_type) {
            Some(stage) => name is Ok && name->Ok_0@ == stage.spec_name(),
            None => name == Err::<&'static str, Error>(Error::InvalidShaderType { shader_type }),
        },
{
    match ShaderStage::from_code(shader_type) {
        Some(stage) => Ok(stage.name()),
        None => Err(Error::InvalidShaderType { shader_type }),
    }
}

/// Whether the text, encoded as UTF-8, holds a zero byte. Such a text
/// cannot be handed to the driver as a C string.
pub open spec fn has_nul(source: Seq<char>) -> bool {
    encode_utf8(source).contains(0u8)
}

fn contains_nul(source: &str) -> (found: bool)
    ensures
        found == has_nul(source@),
{
    let bytes = source.as_bytes();
    let mut i: usize = 0;
    while i < bytes.len()
        invariant
            i <= bytes@.len(),
            bytes@ == encode_utf8(source@),
            forall|j: int| 0 <= j < i ==> bytes@[j] != 0,
        decreases bytes@.len() - i,
    {
        if bytes[i] == 0 {
            return true;
        }
        i = i + 1;
    }
    false
}

/// The compilation of one shader, between two driver calls.
///
/// The calls, in order: create a shader object; hand it the source; compile;
/// query the compile status. Where the status is not `TRUE`: query the
/// length of the information log, read the log, and delete the shader
/// before the task fails with the log. A source with a zero byte is found
/// after the shader object exists, and the object is deleted.
#[derive(Debug, Clone, PartialEq, Eq)]
#[must_use]
pub enum ShaderCompilation {
    Create { stage: ShaderStage, source: String },
    Source { stage: ShaderStage, shader: u32, source: String },
    Compile { stage: ShaderStage, shader: u32 },
    QueryStatus { stage: ShaderStage, shader: u32 },
    QueryLogLength { stage: ShaderStage, shader: u32 },
    FetchLog { stage: ShaderStage, shader: u32, length: i32 },
    /// The shader is being deleted because of `error`.
    Discard { shader: u32, error: Error },
    /// Finished: the caller owns the compiled `shader`.
    Compiled { stage: ShaderStage, shader: u32 },
    /// Finished: no shader exists.
    Failed { error: Error },
}

impl ShaderCompilation {
    /// The stage being compiled for, as long as the task knows it.
    pub open spec fn stage(self) -> Option<ShaderStage> {
        match self {
            ShaderCompilation::Create { stage, .. }
            | ShaderCompilation::Source { stage, .. }
            | ShaderCompilation::Compile { stage, .. }
            | ShaderCompilation::QueryStatus { stage, .. }
            | ShaderCompilation::QueryLogLength { stage, .. }
            | ShaderCompilation::FetchLog { stage, .. }
            | ShaderCompilation::Compiled { stage, .. } => Some(stage),
            _ => None,
        }
    }
}

impl Task for ShaderCompilation {
    type Outcome = Result<u32, Error>;

    open spec fn pending(&self) -> Option<DriverCall> {
        match *self {
            ShaderCompilation::Create { stage, .. } => Some(
                DriverCall::CreateShader { shader_type: stage.spec_code() },
            ),
            ShaderCompilation::Source { shader, source, .. } => Some(
                DriverCall::ShaderSource { shader, source },
            ),
            ShaderCompilation::Compile { shader, .. } => Some(
                DriverCall::CompileShader { shader },
            ),
            ShaderCompilation::QueryStatus { shader, .. } => Some(
                DriverCall::GetShaderiv { shader, pname: COMPILE_STATUS },
            ),
            ShaderCompilation::QueryLogLength { shader, .. } => Some(
                DriverCall::GetShaderiv { shader, pname: INFO_LOG_LENGTH },
            ),
            ShaderCompilation::FetchLog { shader, length, .. } => Some(
                DriverCall::GetShaderInfoLog { shader, length },
            ),
            ShaderCompilation::Discard { shader, .. } => Some(DriverCall::DeleteShader { shader }),
            ShaderCompilation::Compiled { .. } => None,
            ShaderCompilation::Failed { .. } => None,
        }
    }

    open spec fn after(self, reply: DriverReply) -> Self {
        match self {
            ShaderCompilation::Create { stage, source } => match reply {
                DriverReply::Handle(shader) => if shader == 0 {
                    ShaderCompilation::Failed { error: Error::ShaderUnavailable { stage } }
                } else if has_nul(source@) {
                    ShaderCompilation::Discard { shader, error: Error::InvalidSource }
                } else {
                    ShaderCompilation::Source { stage, shader, source }
                },
                _ => self,
            },
            ShaderCompilation::Source { stage, shader, .. } => ShaderCompilation::Compile {
                stage,
                shader,
            },
            ShaderCompilation::Compile { stage, shader } => ShaderCompilation::QueryStatus {
                stage,
                shader,
            },
            ShaderCompilation::QueryStatus { stage, shader } => match reply {
                DriverReply::Parameter(status) => if status == TRUE as i32 {
                    ShaderCompilation::Compiled { stage, shader }
                } else {
                    ShaderCompilation::QueryLogLength { stage, shader }
                },
                _ => self,
            },
            ShaderCompilation::QueryLogLength { stage, shader } => match reply {
                DriverReply::Parameter(length) => ShaderCompilation::FetchLog {
                    stage,
                    shader,
                    length,
                },
                _ => self,
            },
            ShaderCompilation::FetchLog { stage, shader, .. } => match reply {
                DriverReply::InfoLog(log) => ShaderCompilation::Discard {
                    shader,
                    error: Error::CompileError { stage, log },
                },
                _ => self,
            },
            ShaderCompilation::Discard { error, .. } => ShaderCompilation::Failed { error },
            ShaderCompilation::Compiled { .. } => self,
            ShaderCompilation::Failed { .. } => self,
        }
    }

    open spec fn result(self) -> Option<Result<u32, Error>> {
        match self {
            ShaderCompilation::Compiled { shader, .. } => Some(Ok(shader)),
            ShaderCompilation::Failed { error } => Some(Err(error)),
            _ => None,
        }
    }

    open spec fn holds(&self) -> Multiset<Resource> {
        match *self {
            ShaderCompilation::Create { .. } => Multiset::empty(),
            ShaderCompilation::Failed { .. } => Multiset::empty(),
            ShaderCompilation::Source { shader, .. }
            | ShaderCompilation::Compile { shader, .. }
            | ShaderCompilation::QueryStatus { shader, .. }
            | ShaderCompilation::QueryLogLength { shader, .. }
            | ShaderCompilation::FetchLog { shader, .. }
            | ShaderCompilation::Discard { shader, .. }
            | ShaderCompilation::Compiled { shader, .. } => Multiset::singleton(
                Resource::Shader(shader),
            ),
        }
    }

    fn next_call(&self) -> (call: Option<DriverCall>) {
        match self {
            ShaderCompilation::Create { stage, .. } => Some(
                DriverCall::CreateShader { shader_type: stage.code() },
            ),
            ShaderCompilation::Source { shader, source, .. } => Some(
                DriverCall::ShaderSource { shader: *shader, source: source.clone() },
            ),
            ShaderCompilation::Compile { shader, .. } => Some(
                DriverCall::CompileShader { shader: *shader },
            ),
            ShaderCompilation::QueryStatus { shader, .. } => Some(
                DriverCall::GetShaderiv { shader: *shader, pname: COMPILE_STATUS },
            ),
            ShaderCompilation::QueryLogLength { shader, .. } => Some(
                DriverCall::GetShaderiv { shader: *shader, pname: INFO_LOG_LENGTH },
            ),
            ShaderCompilation::FetchLog { shader, length, .. } => Some(
                DriverCall::GetShaderInfoLog { shader: *shader, length: *length },
            ),
            ShaderCompilation::Discard { shader, .. } => Some(
                DriverCall::DeleteShader { shader: *shader },
            ),
            ShaderCompilation::Compiled { .. } => None,
            ShaderCompilation::Failed { .. } => None,
        }
    }

    fn advance(self, reply: DriverReply) -> (next: Self) {
        match self {
            ShaderCompilation::Create { stage, source } => match reply {
                DriverReply::Handle(shader) => if shader == 0 {
                    ShaderCompilation::Failed { error: Error::ShaderUnavailable { stage } }
                } else if contains_nul(source.as_str()) {
                    ShaderCompilation::Discard { shader, error: Error::InvalidSource }
                } else {
                    ShaderCompilation::Source { stage, shader, source }
                },
                _ => ShaderCompilation::Create { stage, source },
            },
            ShaderCompilation::Source { stage, shader, .. } => ShaderCompilation::Compile {
                stage,
                shader,
            },
            ShaderCompilation::Compile { stage, shader } => ShaderCompilation::QueryStatus {
                stage,
                shader,
            },
            ShaderCompilation::QueryStatus { stage, shader } => match reply {
                DriverReply::Parameter(status) => if status == TRUE as i32 {
                    ShaderCompilation::Compiled { stage, shader }
                } else {
                    ShaderCompilation::QueryLogLength { stage, shader }
                },
                _ => ShaderCompilation::QueryStatus { stage, shader },
            },
            ShaderCompilation::QueryLogLength { stage, shader } => match reply {
                DriverReply::Parameter(length) => ShaderCompilation::FetchLog {
                    stage,
                    shader,
                    length,
                },
                _ => ShaderCompilation::QueryLogLength { stage, shader },
            },
            ShaderCompilation::FetchLog { stage, shader, length } => match reply {
                DriverReply::InfoLog(log) => ShaderCompilation::Discard {
                    shader,
                    error: Error::CompileError { stage, log },
                },
                _ => ShaderCompilation::FetchLog { stage, shader, length },
            },
            ShaderCompilation::Discard { error, .. } => ShaderCompilation::Failed { error },
            ShaderCompilation::Compiled { stage, shader } => ShaderCompilation::Compiled {
                stage,
                shader,
            },
            ShaderCompilation::Failed { error } => ShaderCompilation::Failed { error },
        }
    }

    fn outcome(self) -> (outcome: Option<Result<u32, Error>>) {
        match self {
            ShaderCompilation::Compiled { shader, .. } => Some(Ok(shader)),
            ShaderCompilation::Failed { error } => Some(Err(error)),
            _ => None,
        }
    }

    proof fn lemma_result_when_finished(self) {
    }

    proof fn lemma_step_conserves(self, reply: DriverReply) {
    }
}

/// Starts the compilation of `source` as a shader of the stage that
/// `shader_type` names.
///
/// Where `shader_type` names no stage the task has failed with
/// `InvalidShaderType` before any driver call.
pub fn compile_shader(source: &str, shader_type: u32) -> (task: ShaderCompilation)
    ensures
        match ShaderStage::spec_from_code(shader_type) {
            Some(stage) => task matches ShaderCompilation::Create { stage: s, source: text } && s
                == stage && text@ == source@,
            None => task == ShaderCompilation::Failed {
                error: Error::InvalidShaderType { shader_type },
            },
        },
{
    match ShaderStage::from_code(shader_type) {
        Some(stage) => ShaderCompilation::Create { stage, source: String::from_str(source) },
        None => ShaderCompilation::Failed { error: Error::InvalidShaderType { shader_type } },
    }
}

/// No shader is lost. When a compilation that started without a shader has
/// finished, whatever the driver answered on the way: after success the one
/// shader that was created is the one the caller gets; after a failure
/// every shader that was created was deleted.
pub proof fn lemma_compilation_balance(task: ShaderCompilation, replies: Seq<DriverReply>)
    requires
        task is Create || task is Failed,
        run(task, replies).result() is Some,
    ensures
        acquired_in(trace(task, replies)) == released_in(trace(task, replies)).add(
            match run(task, replies).result()->0 {
                Ok(shader) => Multiset::singleton(Resource::Shader(shader)),
                Err(_) => Multiset::empty(),
            },
        ),
{
    lemma_run_from_nothing(task, replies);
}

/// The linking of one program, between two driver calls.
///
/// The calls, in order: create a program object; attach every shader; link;
/// detach every shader, whatever the linker said; query the link status.
/// Where the status is not `TRUE`: query the length of the information log,
/// read the log, and delete the program before the task fails with the log.
/// The shaders are only lent to the task: it never deletes one.
#[derive(Debug, Clone, PartialEq, Eq)]
#[must_use]
pub enum ProgramLink {
    Create { shaders: Vec<u32> },
    /// Attaching the shaders from position `next` on, then linking.
    Attach { program: u32, shaders: Vec<u32>, next: usize },
    /// Detaching the shaders from position `next` on, then querying the link
    /// status.
    Detach { program: u32, shaders: Vec<u32>, next: usize },
    QueryLogLength { program: u32 },
    FetchLog { program: u32, length: i32 },
    /// The program is being deleted because of `error`.
    Discard { program: u32, error: Error },
    /// Finished: the caller owns the linked `program`.
    Linked { program: u32 },
    /// Finished: no program exists.
    Failed { error: Error },
}

impl ProgramLink {
    /// Whether the task waits for no call.
    pub fn is_finished(&self) -> (finished: bool)
        ensures
            finished == (self.pending() is None),
    {
        match self {
            ProgramLink::Linked { .. } => true,
            ProgramLink::Failed { .. } => true,
            _ => false,
        }
    }
}

impl Task for ProgramLink {
    type Outcome = Result<u32, Error>;

    open spec fn pending(&self) -> Option<DriverCall> {
        match *self {
            ProgramLink::Create { .. } => Some(DriverCall::CreateProgram),
            ProgramLink::Attach { program, shaders, next } => if next < shaders@.len() {
                Some(DriverCall::AttachShader { program, shader: shaders@[next as int] })
            } else {
                Some(DriverCall::LinkProgram { program })
            },
            ProgramLink::Detach { program, shaders, next } => if next < shaders@.len() {
                Some(DriverCall::DetachShader { program, shader: shaders@[next as int] })
            } else {
                Some(DriverCall::GetProgramiv { program, pname: LINK_STATUS })
            },
            ProgramLink::QueryLogLength { program } => Some(
                DriverCall::GetProgramiv { program, pname: INFO_LOG_LENGTH },
            ),
            ProgramLink::FetchLog { program, length } => Some(
                DriverCall::GetProgramInfoLog { program, length },
            ),
            ProgramLink::Discard { program, .. } => Some(DriverCall::DeleteProgram { program }),
            ProgramLink::Linked { .. } => None,
            ProgramLink::Failed { .. } => None,
        }
    }

    open spec fn after(self, reply: DriverReply) -> Self {
        match self {
            ProgramLink::Create { shaders } => match reply {
                DriverReply::Handle(program) => if program == 0 {
                    ProgramLink::Failed { error: Error::ProgramUnavailable }
                } else {
                    ProgramLink::Attach { program, shaders, next: 0 }
                },
                _ => self,
            },
            ProgramLink::Attach { program, shaders, next } => if next < shaders@.len() {
                ProgramLink::Attach { program, shaders, next: (next + 1) as usize }
            } else {
                ProgramLink::Detach { program, shaders, next: 0 }
            },
            ProgramLink::Detach { program, shaders, next } => if next < shaders@.len() {
                ProgramLink::Detach { program, shaders, next: (next + 1) as usize }
            } else {
                match reply {
                    DriverReply::Parameter(status) => if status == TRUE as i32 {
                        ProgramLink::Linked { program }
                    } else {
                        ProgramLink::QueryLogLength { program }
                    },
                    _ => self,
                }
            },
            ProgramLink::QueryLogLength { program } => match reply {
                DriverReply::Parameter(length) => ProgramLink::FetchLog { program, length },
                _ => self,
            },
            ProgramLink::FetchLog { program, .. } => match reply {
                DriverReply::InfoLog(log) => ProgramLink::Discard {
                    program,
                    error: Error::LinkError { log },
                },
                _ => self,
            },
            ProgramLink::Discard { error, .. } => ProgramLink::Failed { error },
            ProgramLink::Linked { .. } => self,
            ProgramLink::Failed { .. } => self,
        }
    }

    open spec fn result(self) -> Option<Result<u32, Error>> {
        match self {
            ProgramLink::Linked { program } => Some(Ok(program)),
            ProgramLink::Failed { error } => Some(Err(error)),
            _ => None,
        }
    }

    open spec fn holds(&self) -> Multiset<Resource> {
        match *self {
            ProgramLink::Create { .. } => Multiset::empty(),
            ProgramLink::Failed { .. } => Multiset::empty(),
            ProgramLink::Attach { program, .. }
            | ProgramLink::Detach { program, .. }
            | ProgramLink::QueryLogLength { program }
            | ProgramLink::FetchLog { program, .. }
            | ProgramLink::Discard { program, .. }
            | ProgramLink::Linked { program } => Multiset::singleton(Resource::Program(program)),
        }
    }

    fn next_call(&self) -> (call: Option<DriverCall>) {
        match self {
            ProgramLink::Create { .. } => Some(DriverCall::CreateProgram),
            ProgramLink::Attach { program, shaders, next } => if *next < shaders.len() {
                Some(DriverCall::AttachShader { program: *program, shader: shaders[*next] })
            } else {
                Some(DriverCall::LinkProgram { program: *program })
            },
            ProgramLink::Detach { program, shaders, next } => if *next < shaders.len() {
                Some(DriverCall::DetachShader { program: *program, shader: shaders[*next] })
            } else {
                Some(DriverCall::GetProgramiv { program: *program, pname: LINK_STATUS })
            },
            ProgramLink::QueryLogLength { program } => Some(
                DriverCall::GetProgramiv { program: *program, pname: INFO_LOG_LENGTH },
            ),
            ProgramLink::FetchLog { program, length } => Some(
                DriverCall::GetProgramInfoLog { program: *program, length: *length },
            ),
            ProgramLink::Discard { program, .. } => Some(
                DriverCall::DeleteProgram { program: *program },
            ),
            ProgramLink::Linked { .. } => None,
            ProgramLink::Failed { .. } => None,
        }
    }

    fn advance(self, reply: DriverReply) -> (next: Self) {
        match self {
            ProgramLink::Create { shaders } => match reply {
                DriverReply::Handle(program) => if program == 0 {
                    ProgramLink::Failed { error: Error::ProgramUnavailable }
                } else {
                    ProgramLink::Attach { program, shaders, next: 0 }
                },
                _ => ProgramLink::Create { shaders },
            },
            ProgramLink::Attach { program, shaders, next } => if next < shaders.len() {
                ProgramLink::Attach { program, shaders, next: next + 1 }
            } else {
                ProgramLink::Detach { program, shaders, next: 0 }
            },
            ProgramLink::Detach { program, shaders, next } => if next < shaders.len() {
                ProgramLink::Detach { program, shaders, next: next + 1 }
            } else {
                match reply {
                    DriverReply::Parameter(status) => if status == TRUE as i32 {
                        ProgramLink::Linked { program }
                    } else {
                        ProgramLink::QueryLogLength { program }
                    },
                    _ => ProgramLink::Detach { program, shaders, next },
                }
            },
            ProgramLink::QueryLogLength { program } => match reply {
                DriverReply::Parameter(length) => ProgramLink::FetchLog { program, length },
                _ => ProgramLink::QueryLogLength { program },
            },
            ProgramLink::FetchLog { program, length } => match reply {
                DriverReply::InfoLog(log) => ProgramLink::Discard {
                    program,
                    error: Error::LinkError { log },
                },
                _ => ProgramLink::FetchLog { program, length },
            },
            ProgramLink::Discard { error, .. } => ProgramLink::Failed { error },
            ProgramLink::Linked { program } => ProgramLink::Linked { program },
            ProgramLink::Failed { error } => ProgramLink::Failed { error },
        }
    }

    fn outcome(self) -> (outcome: Option<Result<u32, Error>>) {
        match self {
            ProgramLink::Linked { program } => Some(Ok(program)),
            ProgramLink::Failed { error } => Some(Err(error)),
            _ => None,
        }
    }

    proof fn lemma_result_when_finished(self) {
    }

    proof fn lemma_step_conserves(self, reply: DriverReply) {
    }
}

/// Starts the linking of `shaders` into a program.
pub fn create_program(shaders: &[u32]) -> (task: ProgramLink)
    ensures
        task matches ProgramLink::Create { shaders: lent } && lent@ == shaders@,
{
    ProgramLink::Create { shaders: slice_to_vec(shaders) }
}

/// No program is lost, and no shader is touched. When a linking that
/// started without a program has finished, whatever the driver answered on
/// the way: after success the one program that was created is the one the
/// caller gets; after a failure every program that was created was deleted.
/// Nothing else was created or deleted: the shaders are still there.
pub proof fn lemma_link_balance(task: ProgramLink, replies: Seq<DriverReply>)
    requires
        task is Create,
        run(task, replies).result() is Some,
    ensures
        acquired_in(trace(task, replies)) == released_in(trace(task, replies)).add(
            match run(task, replies).result()->0 {
                Ok(program) => Multiset::singleton(Resource::Program(program)),
                Err(_) => Multiset::empty(),
            },
        ),
{
    lemma_run_from_nothing(task, replies);
}

/// The shader objects named by `shaders`, each as often as it is named.
pub open spec fn shader_resources(shaders: Seq<u32>) -> Multiset<Resource>
    decreases shaders.len(),
{
    if shaders.len() == 0 {
        Multiset::empty()
    } else {
        Multiset::singleton(Resource::Shader(shaders[0])).add(
            shader_resources(shaders.drop_first()),
        )
    }
}

/// The shader objects of two lists are those of the two joined.
pub proof fn lemma_shader_resources_concat(first: Seq<u32>, second: Seq<u32>)
    ensures
        shader_resources(first + second) == shader_resources(first).add(
            shader_resources(second),
        ),
    decreases first.len(),
{
    if first.len() > 0 {
        assert((first + second).drop_first() =~= first.drop_first() + second);
        lemma_shader_resources_concat(first.drop_first(), second);
    }
}

/// The deletion of a builder's shaders, between two driver calls: one
/// `DeleteShader` for each shader from position `next` on.
#[derive(Debug, Clone, PartialEq, Eq)]
#[must_use]
pub struct ShaderRelease {
    /// The shaders of the builder that was given up.
    pub shaders: Vec<u32>,
    /// How many of them have been deleted.
    pub next: usize,
}

impl Task for ShaderRelease {
    type Outcome = ();

    open spec fn pending(&self) -> Option<DriverCall> {
        if self.next < self.shaders@.len() {
            Some(DriverCall::DeleteShader { shader: self.shaders@[self.next as int] })
        } else {
            None
        }
    }

    open spec fn after(self, reply: DriverReply) -> Self {
        if self.next < self.shaders@.len() {
            ShaderRelease { shaders: self.shaders, next: (self.next + 1) as usize }
        } else {
            self
        }
    }

    open spec fn result(self) -> Option<()> {
        if self.next < self.shaders@.len() {
            None
        } else {
            Some(())
        }
    }

    open spec fn holds(&self) -> Multiset<Resource> {
        if self.next <= self.shaders@.len() {
            shader_resources(self.shaders@.skip(self.next as int))
        } else {
            Multiset::empty()
        }
    }

    fn next_call(&self) -> (call: Option<DriverCall>) {
        if self.next < self.shaders.len() {
            Some(DriverCall::DeleteShader { shader: self.shaders[self.next] })
        } else {
            None
        }
    }

    fn advance(self, reply: DriverReply) -> (next: Self) {
        if self.next < self.shaders.len() {
            ShaderRelease { shaders: self.shaders, next: self.next + 1 }
        } else {
            self
        }
    }

    fn outcome(self) -> (outcome: Option<()>) {
        if self.next < self.shaders.len() {
            None
        } else {
            Some(())
        }
    }

    proof fn lemma_result_when_finished(self) {
    }

    proof fn lemma_step_conserves(self, reply: DriverReply) {
        let rest = self.shaders@.skip(self.next as int);
        assert(self.shaders.len() == self.shaders@.len());
        assert(rest.drop_first() =~= self.shaders@.skip(self.next + 1));
    }
}

/// The handle in a slot as a list: one element, or none.
pub open spec fn slot_shaders(slot: Option<u32>) -> Seq<u32> {
    match slot {
        Some(shader) => seq![shader],
        None => Seq::empty(),
    }
}

fn push_slot(ids: &mut Vec<u32>, slot: Option<u32>)
    ensures
        final(ids)@ == old(ids)@ + slot_shaders(slot),
{
    if let Some(shader) = slot {
        ids.push(shader);
    }
}

/// Collects compiled shaders, at most one for each stage, and links them
/// into a program.
///
/// The builder owns every shader it holds. A builder is given up in one of
/// two ways, and both delete all its shaders: [`ProgramBuilder::build`] and
/// [`ProgramBuilder::drop`].
#[derive(Debug, PartialEq, Eq)]
#[must_use]
pub struct ProgramBuilder {
    pub vertex: Option<u32>,
    pub fragment: Option<u32>,
    pub geometry: Option<u32>,
    pub tess_control: Option<u32>,
    pub tess_evaluation: Option<u32>,
    pub compute: Option<u32>,
}

impl ProgramBuilder {
    /// The shader held for `stage`.
    pub open spec fn spec_get(self, stage: ShaderStage) -> Option<u32> {
        match stage {
            ShaderStage::Vertex => self.vertex,
            ShaderStage::Fragment => self.fragment,
            ShaderStage::Geometry => self.geometry,
            ShaderStage::TessControl => self.tess_control,
            ShaderStage::TessEvaluation => self.tess_evaluation,
            ShaderStage::Compute => self.compute,
        }
    }

    /// The builder with `shader` in the slot of `stage`.
    pub open spec fn spec_with(self, stage: ShaderStage, shader: u32) -> Self {
        match stage {
            ShaderStage::Vertex => ProgramBuilder { vertex: Some(shader), ..self },
            ShaderStage::Fragment => ProgramBuilder { fragment: Some(shader), ..self },
            ShaderStage::Geometry => ProgramBuilder { geometry: Some(shader), ..self },
            ShaderStage::TessControl => ProgramBuilder { tess_control: Some(shader), ..self },
            ShaderStage::TessEvaluation => ProgramBuilder {
                tess_evaluation: Some(shader),
                ..self
            },
            ShaderStage::Compute => ProgramBuilder { compute: Some(shader), ..self },
        }
    }

    /// The shaders held, in the order vertex, fragment, geometry,
    /// tessellation control, tessellation evaluation, compute.
    pub open spec fn shaders(self) -> Seq<u32> {
        slot_shaders(self.vertex) + slot_shaders(self.fragment) + slot_shaders(self.geometry)
            + slot_shaders(self.tess_control) + slot_shaders(self.tess_evaluation)
            + slot_shaders(self.compute)
    }

    /// The driver objects the builder owns.
    pub open spec fn holds(self) -> Multiset<Resource> {
        shader_resources(self.shaders())
    }

    /// A builder without shaders.
    pub fn new() -> (builder: Self)
        ensures
            builder == (ProgramBuilder {
                vertex: None,
                fragment: None,
                geometry: None,
                tess_control: None,
                tess_evaluation: None,
                compute: None,
            }),
            forall|stage: ShaderStage| builder.spec_get(stage) is None,
            builder.shaders() == Seq::<u32>::empty(),
    {
        let builder = ProgramBuilder {
            vertex: None,
            fragment: None,
            geometry: None,
            tess_control: None,
            tess_evaluation: None,
            compute: None,
        };
        builder
    }

    /// The shader held for `stage`.
    pub fn get(&self, stage: ShaderStage) -> (shader: Option<u32>)
        ensures
            shader == self.spec_get(stage),
    {
        match stage {
            ShaderStage::Vertex => self.vertex,
            ShaderStage::Fragment => self.fragment,
            ShaderStage::Geometry => self.geometry,
            ShaderStage::TessControl => self.tess_control,
            ShaderStage::TessEvaluation => self.tess_evaluation,
            ShaderStage::Compute => self.compute,
        }
    }

    /// The shaders held, in the order of [`ProgramBuilder::shaders`].
    pub fn shader_ids(&self) -> (ids: Vec<u32>)
        ensures
            ids@ == self.shaders(),
    {
        let mut ids: Vec<u32> = Vec::new();
        push_slot(&mut ids, self.vertex);
        push_slot(&mut ids, self.fragment);
        push_slot(&mut ids, self.geometry);
        push_slot(&mut ids, self.tess_control);
        push_slot(&mut ids, self.tess_evaluation);
        push_slot(&mut ids, self.compute);
        ids
    }

    fn with(self, stage: ShaderStage, shader: u32) -> (builder: Self)
        ensures
            builder == self.spec_with(stage, shader),
    {
        let mut builder = self;
        match stage {
            ShaderStage::Vertex => {
                builder.vertex = Some(shader);
            },
            ShaderStage::Fragment => {
                builder.fragment = Some(shader);
            },
            ShaderStage::Geometry => {
                builder.geometry = Some(shader);
            },
            ShaderStage::TessControl => {
                builder.tess_control = Some(shader);
            },
            ShaderStage::TessEvaluation => {
                builder.tess_evaluation = Some(shader);
            },
            ShaderStage::Compute => {
                builder.compute = Some(shader);
            },
        }
        builder
    }

    /// Whether `task` is the addition that [`ProgramBuilder::with_shader`]
    /// starts on this builder for `shader_type` and `source`.
    pub open spec fn starts_addition(
        self,
        shader_type: u32,
        source: Seq<char>,
        task: StageAddition,
    ) -> bool {
        &&& task.builder == self
        &&& match ShaderStage::spec_from_code(shader_type) {
            Some(stage) => if self.spec_get(stage) is Some {
                task.request == StageRequest::Duplicate { stage }
            } else {
                task.request matches StageRequest::Compile {
                    compilation: ShaderCompilation::Create { stage: s, source: text },
                } && s == stage && text@ == source
            },
            None => task.request == StageRequest::Compile {
                compilation: ShaderCompilation::Failed {
                    error: Error::InvalidShaderType { shader_type },
                },
            },
        }
    }

    /// Starts adding a shader of the stage that `shader_type` names,
    /// compiled from `source`.
    ///
    /// Where the builder already holds a shader for the stage, the task has
    /// failed with `DuplicateStage` before any driver call: nothing is
    /// compiled. Otherwise the task is the compilation; its shader goes into
    /// the slot of the stage when it succeeds. Whatever happens, the shaders
    /// the builder held stay as they are.
    pub fn with_shader(self, shader_type: u32, source: &str) -> (task: StageAddition)
        ensures
            self.starts_addition(shader_type, source@, task),
    {
        match ShaderStage::from_code(shader_type) {
            Some(stage) => {
                if self.get(stage).is_some() {
                    return StageAddition {
                        builder: self,
                        request: StageRequest::Duplicate { stage },
                    };
                }
            },
            None => {},
        }
        StageAddition {
            builder: self,
            request: StageRequest::Compile { compilation: compile_shader(source, shader_type) },
        }
    }

    /// Starts adding a vertex shader.
    pub fn with_vertex_shader(self, source: &str) -> (task: StageAddition)
        ensures
            self.starts_addition(VERTEX_SHADER, source@, task),
    {
        self.with_shader(VERTEX_SHADER, source)
    }

    /// Starts adding a fragment shader.
    pub fn with_fragment_shader(self, source: &str) -> (task: StageAddition)
        ensures
            self.starts_addition(FRAGMENT_SHADER, source@, task),
    {
        self.with_shader(FRAGMENT_SHADER, source)
    }

    /// Starts adding a geometry shader.
    pub fn with_geometry_shader(self, source: &str) -> (task: StageAddition)
        ensures
            self.starts_addition(GEOMETRY_SHADER, source@, task),
    {
        self.with_shader(GEOMETRY_SHADER, source)
    }

    /// Starts adding a tessellation control shader.
    pub fn with_tess_control_shader(self, source: &str) -> (task: StageAddition)
        ensures
            self.starts_addition(TESS_CONTROL_SHADER, source@, task),
    {
        self.with_shader(TESS_CONTROL_SHADER, source)
    }

    /// Starts adding a tessellation evaluation shader.
    pub fn with_tess_evaluation_shader(self, source: &str) -> (task: StageAddition)
        ensures
            self.starts_addition(TESS_EVALUATION_SHADER, source@, task),
    {
        self.with_shader(TESS_EVALUATION_SHADER, source)
    }

    /// Starts adding a compute shader.
    pub fn with_compute_shader(self, source: &str) -> (task: StageAddition)
        ensures
            self.starts_addition(COMPUTE_SHADER, source@, task),
    {
        self.with_shader(COMPUTE_SHADER, source)
    }

    /// Whether `task` is the build that [`ProgramBuilder::build`] starts on
    /// this builder.
    pub open spec fn starts_build(self, task: ProgramBuild) -> bool {
        &&& task.release.shaders@ == self.shaders()
        &&& task.release.next == 0
        &&& if self.shaders().len() == 0 {
            task.link is None
        } else {
            task.link matches Some(ProgramLink::Create { shaders }) && shaders@ == self.shaders()
        }
    }

    /// Starts linking the shaders into a program, and gives the builder up.
    ///
    /// A builder without shaders makes no driver call at all: the task has
    /// failed with `EmptyProgram`. Otherwise the task links the shaders and
    /// then, whether the linking succeeded or not, deletes every one of
    /// them.
    pub fn build(self) -> (task: ProgramBuild)
        ensures
            self.starts_build(task),
    {
        let shaders = self.shader_ids();
        let link = if shaders.len() == 0 {
            None
        } else {
            Some(create_program(shaders.as_slice()))
        };
        ProgramBuild { link, release: ShaderRelease { shaders, next: 0 } }
    }

    /// Gives the builder up without building: the task deletes every shader
    /// the builder holds.
    pub fn drop(self) -> (task: ShaderRelease)
        ensures
            task.shaders@ == self.shaders(),
            task.next == 0,
    {
        ShaderRelease { shaders: self.shader_ids(), next: 0 }
    }
}

/// What an addition to a builder has to do.
#[derive(Debug, Clone, PartialEq, Eq)]
pub enum StageRequest {
    /// Nothing: the builder already holds a shader for `stage`.
    Duplicate { stage: ShaderStage },
    /// Compile the shader.
    Compile { compilation: ShaderCompilation },
}

/// The addition of one shader to a builder, between two driver calls.
///
/// The task keeps the builder while the shader is compiled and gives it
/// back when it finishes: with the new shader in the slot of its stage on
/// success, unchanged beside the error on failure.
#[derive(Debug, PartialEq, Eq)]
#[must_use]
pub struct StageAddition {
    /// The builder as it was when the addition started.
    pub builder: ProgramBuilder,
    /// What is left to do.
    pub request: StageRequest,
}

impl StageAddition {
    /// The stage whose slot the task is going to fill, as long as it knows
    /// it.
    pub open spec fn stage(self) -> Option<ShaderStage> {
        match self.request {
            StageRequest::Duplicate { .. } => None,
            StageRequest::Compile { compilation } => compilation.stage(),
        }
    }
}

impl Task for StageAddition {
    type Outcome = Result<ProgramBuilder, (ProgramBuilder, Error)>;

    open spec fn pending(&self) -> Option<DriverCall> {
        match self.request {
            StageRequest::Duplicate { .. } => None,
            StageRequest::Compile { compilation } => compilation.pending(),
        }
    }

    open spec fn after(self, reply: DriverReply) -> Self {
        match self.request {
            StageRequest::Duplicate { .. } => self,
            StageRequest::Compile { compilation } => StageAddition {
                builder: self.builder,
                request: StageRequest::Compile { compilation: compilation.after(reply) },
            },
        }
    }

    open spec fn result(self) -> Option<Result<ProgramBuilder, (ProgramBuilder, Error)>> {
        match self.request {
            StageRequest::Duplicate { stage } => Some(
                Err((self.builder, Error::DuplicateStage { stage })),
            ),
            StageRequest::Compile { compilation } => match compilation {
                ShaderCompilation::Compiled { stage, shader } => Some(
                    Ok(self.builder.spec_with(stage, shader)),
                ),
                ShaderCompilation::Failed { error } => Some(Err((self.builder, error))),
                _ => None,
            },
        }
    }

    open spec fn holds(&self) -> Multiset<Resource> {
        match self.request {
            StageRequest::Duplicate { .. } => self.builder.holds(),
            StageRequest::Compile { compilation } => self.builder.holds().add(
                compilation.holds(),
            ),
        }
    }

    fn next_call(&self) -> (call: Option<DriverCall>) {
        match &self.request {
            StageRequest::Duplicate { .. } => None,
            StageRequest::Compile { compilation } => compilation.next_call(),
        }
    }

    fn advance(self, reply: DriverReply) -> (next: Self) {
        let StageAddition { builder, request } = self;
        match request {
            StageRequest::Duplicate { stage } => StageAddition {
                builder,
                request: StageRequest::Duplicate { stage },
            },
            StageRequest::Compile { compilation } => StageAddition {
                builder,
                request: StageRequest::Compile { compilation: compilation.advance(reply) },
            },
        }
    }

    fn outcome(self) -> (outcome: Option<Result<ProgramBuilder, (ProgramBuilder, Error)>>) {
        let StageAddition { builder, request } = self;
        match request {
            StageRequest::Duplicate { stage } => Some(
                Err((builder, Error::DuplicateStage { stage })),
            ),
            StageRequest::Compile { compilation } => match compilation {
                ShaderCompilation::Compiled { stage, shader } => Some(
                    Ok(builder.with(stage, shader)),
                ),
                ShaderCompilation::Failed { error } => Some(Err((builder, error))),
                _ => None,
            },
        }
    }

    proof fn lemma_result_when_finished(self) {
    }

    proof fn lemma_step_conserves(self, reply: DriverReply) {
        self.request->compilation.lemma_step_conserves(reply);
    }
}

/// The building of a program, between two driver calls: the linking, if
/// there is anything to link, and then the deletion of the builder's
/// shaders.
#[derive(Debug, Clone, PartialEq, Eq)]
#[must_use]
pub struct ProgramBuild {
    /// The linking; `None` where the builder held no shader.
    pub link: Option<ProgramLink>,
    /// The deletion of the builder's shaders, which starts when the linking
    /// has finished.
    pub release: ShaderRelease,
}

impl ProgramBuild {
    /// Whether the linking still waits for a call.
    pub open spec fn linking(self) -> bool {
        self.link matches Some(link) && link.pending() is Some
    }
}

impl Task for ProgramBuild {
    type Outcome = Result<u32, Error>;

    open spec fn pending(&self) -> Option<DriverCall> {
        if self.linking() {
            self.link->0.pending()
        } else {
            self.release.pending()
        }
    }

    open spec fn after(self, reply: DriverReply) -> Self {
        if self.linking() {
            ProgramBuild { link: Some(self.link->0.after(reply)), release: self.release }
        } else {
            ProgramBuild { link: self.link, release: self.release.after(reply) }
        }
    }

    open spec fn result(self) -> Option<Result<u32, Error>> {
        if self.pending() is Some {
            None
        } else {
            match self.link {
                Some(link) => link.result(),
                None => Some(Err(Error::EmptyProgram)),
            }
        }
    }

    open spec fn holds(&self) -> Multiset<Resource> {
        match self.link {
            Some(link) => self.release.holds().add(link.holds()),
            None => self.release.holds(),
        }
    }

    fn next_call(&self) -> (call: Option<DriverCall>) {
        match &self.link {
            Some(link) => {
                if !link.is_finished() {
                    return link.next_call();
                }
            },
            None => {},
        }
        self.release.next_call()
    }

    fn advance(self, reply: DriverReply) -> (next: Self) {
        let ProgramBuild { link, release } = self;
        match link {
            Some(link) => {
                if !link.is_finished() {
                    ProgramBuild { link: Some(link.advance(reply)), release }
                } else {
                    ProgramBuild { link: Some(link), release: release.advance(reply) }
                }
            },
            None => ProgramBuild { link: None, release: release.advance(reply) },
        }
    }

    fn outcome(self) -> (outcome: Option<Result<u32, Error>>) {
        let ProgramBuild { link, release } = self;
        match link {
            Some(link) => {
                if !link.is_finished() {
                    None
                } else if release.next_call().is_some() {
                    None
                } else {
                    proof {
                        link.lemma_result_when_finished();
                    }
                    link.outcome()
                }
            },
            None => {
                if release.next_call().is_some() {
                    None
                } else {
                    Some(Err(Error::EmptyProgram))
                }
            },
        }
    }

    proof fn lemma_result_when_finished(self) {
        if let Some(link) = self.link {
            link.lemma_result_when_finished();
        }
    }

    proof fn lemma_step_conserves(self, reply: DriverReply) {
        let call = self.pending()->0;
        if self.linking() {
            self.link->0.lemma_step_conserves(reply);
        } else {
            self.release.lemma_step_conserves(reply);
        }
        assert forall|v: Resource|
            self.after(reply).holds().add(released(call)).count(v) == self.holds().add(
                acquired(call, reply),
            ).count(v) by {
            if !self.linking() {
                assert(self.release.after(reply).holds().add(released(call)).count(v)
                    == self.release.holds().add(acquired(call, reply)).count(v));
            }
        }
    }
}

} // verus!

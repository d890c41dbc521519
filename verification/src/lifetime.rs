//! What holds of a program builder over its whole life: which shaders it
//! owns after each addition, and that giving it up deletes every one of
//! them exactly once.

use crate::driver::{
    acquired_in, lemma_acquired_in_concat, lemma_released_in_concat, lemma_run_conserves,
    released_in, run, trace, DriverReply, Exchange, Resource, Task,
};
use crate::error::Error;
use crate::shader::{
    lemma_shader_resources_concat, shader_resources, slot_shaders, ProgramBuild, ProgramBuilder,
    ShaderCompilation, ShaderRelease, ShaderStage, StageAddition,
};
use vstd::multiset::Multiset;
use vstd::prelude::*;

verus! {

/// The shader object in a slot, if there is one.
pub open spec fn slot_resources(slot: Option<u32>) -> Multiset<Resource> {
    match slot {
        Some(shader) => Multiset::singleton(Resource::Shader(shader)),
        None => Multiset::empty(),
    }
}

/// What the six slots of a builder hold, slot by slot.
pub open spec fn six_slots(builder: ProgramBuilder) -> Multiset<Resource> {
    slot_resources(builder.vertex).add(slot_resources(builder.fragment)).add(
        slot_resources(builder.geometry),
    ).add(slot_resources(builder.tess_control)).add(slot_resources(builder.tess_evaluation)).add(
        slot_resources(builder.compute),
    )
}

/// A builder owns what its six slots hold.
pub proof fn lemma_holds_by_slot(builder: ProgramBuilder)
    ensures
        builder.holds() == six_slots(builder),
{
    let a = slot_shaders(builder.vertex);
    let b = slot_shaders(builder.fragment);
    let c = slot_shaders(builder.geometry);
    let d = slot_shaders(builder.tess_control);
    let e = slot_shaders(builder.tess_evaluation);
    let f = slot_shaders(builder.compute);
    lemma_slot(builder.vertex);
    lemma_slot(builder.fragment);
    lemma_slot(builder.geometry);
    lemma_slot(builder.tess_control);
    lemma_slot(builder.tess_evaluation);
    lemma_slot(builder.compute);
    lemma_shader_resources_concat(a, b);
    lemma_shader_resources_concat(a + b, c);
    lemma_shader_resources_concat(a + b + c, d);
    lemma_shader_resources_concat(a + b + c + d, e);
    lemma_shader_resources_concat(a + b + c + d + e, f);
}

proof fn lemma_slot(slot: Option<u32>)
    ensures
        shader_resources(slot_shaders(slot)) == slot_resources(slot),
{
    if slot is Some {
        // The list of one shader, without that shader, is the empty list.
        assert(shader_resources(slot_shaders(slot).drop_first()) == Multiset::<Resource>::empty());
    }
}

/// Filling an empty slot adds that one shader to what the builder owns.
pub proof fn lemma_filling_a_slot(builder: ProgramBuilder, stage: ShaderStage, shader: u32)
    requires
        builder.spec_get(stage) is None,
    ensures
        builder.spec_with(stage, shader).holds() == builder.holds().add(
            Multiset::singleton(Resource::Shader(shader)),
        ),
        builder.spec_with(stage, shader).spec_get(stage) == Some(shader),
        forall|other: ShaderStage|
            other != stage ==> builder.spec_with(stage, shader).spec_get(other)
                == builder.spec_get(other),
{
    let grown = builder.spec_with(stage, shader);
    lemma_holds_by_slot(builder);
    lemma_holds_by_slot(grown);
    lemma_sum_with_one_more(builder, grown, stage, shader);
}

proof fn lemma_sum_with_one_more(
    builder: ProgramBuilder,
    grown: ProgramBuilder,
    stage: ShaderStage,
    shader: u32,
)
    requires
        builder.spec_get(stage) is None,
        grown == builder.spec_with(stage, shader),
    ensures
        six_slots(grown) == six_slots(builder).add(Multiset::singleton(Resource::Shader(shader))),
{
    // Slot by slot: each case has only its own slot to compare.
    match stage {
        ShaderStage::Vertex => {},
        ShaderStage::Fragment => {},
        ShaderStage::Geometry => {},
        ShaderStage::TessControl => {},
        ShaderStage::TessEvaluation => {},
        ShaderStage::Compute => {},
    }
}

/// A compilation never changes the stage it compiles for.
pub proof fn lemma_compilation_keeps_stage(compilation: ShaderCompilation, reply: DriverReply)
    ensures
        compilation.after(reply).stage() is Some ==> compilation.after(reply).stage()
            == compilation.stage(),
{
}

/// An addition never touches the builder it keeps, and never changes the
/// stage it compiles for.
pub proof fn lemma_addition_keeps_builder(task: StageAddition, replies: Seq<DriverReply>)
    ensures
        run(task, replies).builder == task.builder,
        run(task, replies).stage() is Some ==> run(task, replies).stage() == task.stage(),
    decreases replies.len(),
{
    if replies.len() > 0 && task.pending() is Some {
        lemma_compilation_keeps_stage(task.request->compilation, replies[0]);
        lemma_addition_keeps_builder(task.after(replies[0]), replies.drop_first());
    }
}

/// The balance of one addition. When it has finished, the builder that
/// comes back owns what it owned before, plus every shader that was created
/// on the way, minus every shader that was deleted on the way. After a
/// failure the builder is the one that went in, and every shader created on
/// the way was deleted.
pub proof fn lemma_addition_balance(
    builder: ProgramBuilder,
    shader_type: u32,
    source: Seq<char>,
    task: StageAddition,
    replies: Seq<DriverReply>,
)
    requires
        builder.starts_addition(shader_type, source, task),
        run(task, replies).result() is Some,
    ensures
        match run(task, replies).result()->0 {
            Ok(grown) => builder.holds().add(acquired_in(trace(task, replies)))
                == grown.holds().add(released_in(trace(task, replies))),
            Err((kept, _)) => kept == builder && acquired_in(trace(task, replies)) == released_in(
                trace(task, replies),
            ),
        },
{
    let end = run(task, replies);
    let made = acquired_in(trace(task, replies));
    let gone = released_in(trace(task, replies));
    lemma_run_conserves(task, replies);
    lemma_addition_keeps_builder(task, replies);
    match end.result()->0 {
        Ok(_) => {
            let stage = end.request->compilation->Compiled_stage;
            let shader = end.request->compilation->Compiled_shader;
            lemma_filling_a_slot(builder, stage, shader);
        },
        Err(_) => {
            assert forall|v: Resource| made.count(v) == gone.count(v) by {
                assert(task.holds().add(made).count(v) == end.holds().add(gone).count(v));
            }
        },
    }
}

/// A stage is added once. After an addition has put a shader into the slot
/// of a stage, a second addition for the same stage is refused with
/// `DuplicateStage` without a single driver call, and hands the builder
/// back as it was, the first shader still in its slot.
pub proof fn lemma_second_addition_is_refused(
    builder: ProgramBuilder,
    shader_type: u32,
    source: Seq<char>,
    first: StageAddition,
    replies: Seq<DriverReply>,
    again: Seq<char>,
    second: StageAddition,
)
    requires
        builder.starts_addition(shader_type, source, first),
        run(first, replies).result() matches Some(Ok(grown)) && grown.starts_addition(
            shader_type,
            again,
            second,
        ),
    ensures
        ShaderStage::spec_from_code(shader_type) is Some,
        second.pending() is None,
        ({
            let stage = ShaderStage::spec_from_code(shader_type)->0;
            let grown = run(first, replies).result()->0->Ok_0;
            &&& grown.spec_get(stage) is Some
            &&& second.result() == Some(
                Err::<ProgramBuilder, (ProgramBuilder, Error)>(
                    (grown, Error::DuplicateStage { stage }),
                ),
            )
        }),
{
    let end = run(first, replies);
    lemma_addition_keeps_builder(first, replies);
    let stage = end.request->compilation->Compiled_stage;
    let shader = end.request->compilation->Compiled_shader;
    lemma_filling_a_slot(builder, stage, shader);
}

/// A failed addition leaves every slot as it was.
pub proof fn lemma_failed_addition_changes_nothing(
    builder: ProgramBuilder,
    shader_type: u32,
    source: Seq<char>,
    task: StageAddition,
    replies: Seq<DriverReply>,
)
    requires
        builder.starts_addition(shader_type, source, task),
        run(task, replies).result() matches Some(Err(_)),
    ensures
        run(task, replies).result()->0->Err_0.0 == builder,
{
    lemma_addition_keeps_builder(task, replies);
}

/// A builder without shaders builds nothing: the task has failed with
/// `EmptyProgram` from the start, and whatever replies it is fed, it makes no
/// driver call, so no program object is ever created.
pub proof fn lemma_empty_builder_builds_nothing(
    builder: ProgramBuilder,
    task: ProgramBuild,
    replies: Seq<DriverReply>,
)
    requires
        builder.shaders().len() == 0,
        builder.starts_build(task),
    ensures
        task.pending() is None,
        task.result() == Some(Err::<u32, Error>(Error::EmptyProgram)),
        trace(task, replies) == Seq::<Exchange>::empty(),
{
}

/// The balance of a build. When it has finished, every shader the builder
/// owned has been deleted exactly once, and the only object left of all
/// that were created on the way is the linked program, if there is one.
pub proof fn lemma_build_balance(
    builder: ProgramBuilder,
    task: ProgramBuild,
    replies: Seq<DriverReply>,
)
    requires
        builder.starts_build(task),
        run(task, replies).result() is Some,
    ensures
        builder.holds().add(acquired_in(trace(task, replies))) == released_in(
            trace(task, replies),
        ).add(
            match run(task, replies).result()->0 {
                Ok(program) => Multiset::singleton(Resource::Program(program)),
                Err(_) => Multiset::empty(),
            },
        ),
{
    let end = run(task, replies);
    lemma_run_conserves(task, replies);
    end.lemma_result_when_finished();
    // At the start the task holds the builder's shaders and nothing else.
    assert(task.release.shaders@.skip(0) =~= builder.shaders());
    assert(task.holds() =~= builder.holds());
    // At the end it holds the program, if the linking gave one.
    lemma_finished_release_holds_nothing(end.release);
}

proof fn lemma_finished_release_holds_nothing(release: ShaderRelease)
    requires
        release.pending() is None,
    ensures
        release.holds() == Multiset::<Resource>::empty(),
{
}

/// Shaders are deleted last. In the calls of a build, once a shader has
/// been deleted nothing follows but the deletion of shaders: every shader is
/// still there while the program is created, attached to, linked, detached
/// from, asked for its status and log, and deleted if it did not link.
pub proof fn lemma_shaders_are_deleted_last(
    task: ProgramBuild,
    replies: Seq<DriverReply>,
    i: int,
    j: int,
)
    requires
        0 <= i <= j < trace(task, replies).len(),
        trace(task, replies)[i].call is DeleteShader,
    ensures
        trace(task, replies)[j].call is DeleteShader,
    decreases replies.len(),
{
    if replies.len() > 0 && task.pending() is Some {
        if task.linking() {
            // The first call belongs to the linking, which deletes no shader.
            lemma_shaders_are_deleted_last(task.after(replies[0]), replies.drop_first(), i - 1, j - 1);
        } else {
            lemma_release_only_deletes(task, replies, j);
        }
    }
}

proof fn lemma_release_only_deletes(task: ProgramBuild, replies: Seq<DriverReply>, j: int)
    requires
        !task.linking(),
        0 <= j < trace(task, replies).len(),
    ensures
        trace(task, replies)[j].call is DeleteShader,
    decreases replies.len(),
{
    if replies.len() > 0 && task.pending() is Some && j >= 1 {
        lemma_release_only_deletes(task.after(replies[0]), replies.drop_first(), j - 1);
    }
}

/// The balance of giving a builder up without building. When the task has
/// finished, every shader the builder owned has been deleted exactly once,
/// and nothing was created.
pub proof fn lemma_drop_balance(
    builder: ProgramBuilder,
    task: ShaderRelease,
    replies: Seq<DriverReply>,
)
    requires
        task.shaders@ == builder.shaders(),
        task.next == 0,
        run(task, replies).result() is Some,
    ensures
        released_in(trace(task, replies)) == builder.holds(),
        acquired_in(trace(task, replies)) == Multiset::<Resource>::empty(),
{
    let end = run(task, replies);
    lemma_run_conserves(task, replies);
    lemma_release_creates_nothing(task, replies);
    assert(task.shaders@.skip(0) =~= builder.shaders());
    lemma_finished_release_holds_nothing(end);
    assert forall|v: Resource| released_in(trace(task, replies)).count(v) == builder.holds().count(
        v,
    ) by {
        assert(task.holds().add(acquired_in(trace(task, replies))).count(v) == end.holds().add(
            released_in(trace(task, replies)),
        ).count(v));
    }
}

proof fn lemma_release_creates_nothing(task: ShaderRelease, replies: Seq<DriverReply>)
    ensures
        acquired_in(trace(task, replies)) == Multiset::<Resource>::empty(),
    decreases replies.len(),
{
    if replies.len() > 0 && task.pending() is Some {
        let rest = trace(task.after(replies[0]), replies.drop_first());
        lemma_release_creates_nothing(task.after(replies[0]), replies.drop_first());
        assert(trace(task, replies).drop_first() =~= rest);
    }
}

/// One addition in the life of a builder: what was asked for, the task that
/// was started for it, and the replies the driver gave while it ran.
pub struct Addition {
    pub shader_type: u32,
    pub source: Seq<char>,
    pub task: StageAddition,
    pub replies: Seq<DriverReply>,
}

impl Addition {
    /// Whether this is an addition to `builder` that ran until it finished.
    pub open spec fn completes_on(self, builder: ProgramBuilder) -> bool {
        &&& builder.starts_addition(self.shader_type, self.source, self.task)
        &&& run(self.task, self.replies).result() is Some
    }

    /// The builder that the addition hands back, grown or unchanged.
    pub open spec fn builder_after(self) -> ProgramBuilder {
        match run(self.task, self.replies).result() {
            Some(Ok(grown)) => grown,
            Some(Err((kept, _))) => kept,
            None => self.task.builder,
        }
    }

    /// The driver calls of the addition, each with its reply.
    pub open spec fn exchanges(self) -> Seq<Exchange> {
        trace(self.task, self.replies)
    }
}

/// Whether `additions` are what happened to a builder that started as
/// `builder`: each addition was started on the builder that the one before
/// it handed back, and ran until it finished.
pub open spec fn is_history(builder: ProgramBuilder, additions: Seq<Addition>) -> bool
    decreases additions.len(),
{
    additions.len() == 0 || (additions[0].completes_on(builder) && is_history(
        additions[0].builder_after(),
        additions.drop_first(),
    ))
}

/// The builder at the end of a history.
pub open spec fn builder_at_end(builder: ProgramBuilder, additions: Seq<Addition>) -> ProgramBuilder
    decreases additions.len(),
{
    if additions.len() == 0 {
        builder
    } else {
        builder_at_end(additions[0].builder_after(), additions.drop_first())
    }
}

/// All driver calls of a history, in order.
pub open spec fn history_trace(additions: Seq<Addition>) -> Seq<Exchange>
    decreases additions.len(),
{
    if additions.len() == 0 {
        Seq::empty()
    } else {
        additions[0].exchanges() + history_trace(additions.drop_first())
    }
}

/// The balance of a history. Whatever was added, and whichever additions
/// failed, the builder at the end owns what it owned at the start, plus
/// every shader created on the way, minus every shader deleted on the way.
pub proof fn lemma_history_balance(builder: ProgramBuilder, additions: Seq<Addition>)
    requires
        is_history(builder, additions),
    ensures
        builder.holds().add(acquired_in(history_trace(additions))) == builder_at_end(
            builder,
            additions,
        ).holds().add(released_in(history_trace(additions))),
    decreases additions.len(),
{
    let whole = history_trace(additions);
    let end = builder_at_end(builder, additions);
    if additions.len() > 0 {
        let first = additions[0];
        let next = first.builder_after();
        let head = first.exchanges();
        let tail = history_trace(additions.drop_first());
        lemma_addition_balance(builder, first.shader_type, first.source, first.task, first.replies);
        lemma_history_balance(next, additions.drop_first());
        lemma_acquired_in_concat(head, tail);
        lemma_released_in_concat(head, tail);
        assert forall|v: Resource|
            builder.holds().add(acquired_in(whole)).count(v) == end.holds().add(
                released_in(whole),
            ).count(v) by {
            assert(next.holds().add(acquired_in(tail)).count(v) == end.holds().add(
                released_in(tail),
            ).count(v));
            match run(first.task, first.replies).result()->0 {
                Ok(grown) => {
                    assert(builder.holds().add(acquired_in(head)).count(v) == grown.holds().add(
                        released_in(head),
                    ).count(v));
                },
                Err(_) => {},
            }
        }
    }
}

/// No shader outlives a builder that is built. Take a builder that starts
/// without shaders, any additions to it, and then a build that runs until
/// it has finished. Whether the linking succeeded or failed, and whichever
/// additions failed before: every object created on the way was deleted
/// exactly once, but for the linked program, which is the caller's. So
/// every shader handle that was ever created was deleted exactly once.
pub proof fn lemma_life_ending_in_build(
    builder: ProgramBuilder,
    additions: Seq<Addition>,
    build: ProgramBuild,
    replies: Seq<DriverReply>,
)
    requires
        builder.shaders().len() == 0,
        is_history(builder, additions),
        builder_at_end(builder, additions).starts_build(build),
        run(build, replies).result() is Some,
    ensures
        ({
            let life = history_trace(additions) + trace(build, replies);
            &&& acquired_in(life) == released_in(life).add(
                match run(build, replies).result()->0 {
                    Ok(program) => Multiset::singleton(Resource::Program(program)),
                    Err(_) => Multiset::empty(),
                },
            )
            &&& forall|shader: u32| #[trigger]
                acquired_in(life).count(Resource::Shader(shader)) == released_in(life).count(
                    Resource::Shader(shader),
                )
        }),
{
    let end = builder_at_end(builder, additions);
    let before = history_trace(additions);
    let last = trace(build, replies);
    let life = before + last;
    let left = match run(build, replies).result()->0 {
        Ok(program) => Multiset::singleton(Resource::Program(program)),
        Err(_) => Multiset::empty(),
    };
    lemma_history_balance(builder, additions);
    lemma_build_balance(end, build, replies);
    lemma_acquired_in_concat(before, last);
    lemma_released_in_concat(before, last);
    assert forall|v: Resource| acquired_in(life).count(v) == released_in(life).add(left).count(
        v,
    ) by {
        assert(builder.holds().add(acquired_in(before)).count(v) == end.holds().add(
            released_in(before),
        ).count(v));
        assert(end.holds().add(acquired_in(last)).count(v) == released_in(last).add(left).count(
            v,
        ));
    }
}

/// No shader outlives a builder that is given up. Take a builder that
/// starts without shaders, any additions to it, and then its release,
/// running until it has finished, without `build` ever being called. Every
/// shader handle that was ever created was deleted exactly once.
pub proof fn lemma_life_ending_in_drop(
    builder: ProgramBuilder,
    additions: Seq<Addition>,
    release: ShaderRelease,
    replies: Seq<DriverReply>,
)
    requires
        builder.shaders().len() == 0,
        is_history(builder, additions),
        release.shaders@ == builder_at_end(builder, additions).shaders(),
        release.next == 0,
        run(release, replies).result() is Some,
    ensures
        ({
            let life = history_trace(additions) + trace(release, replies);
            acquired_in(life) == released_in(life)
        }),
{
    let end = builder_at_end(builder, additions);
    let before = history_trace(additions);
    let last = trace(release, replies);
    let life = before + last;
    lemma_history_balance(builder, additions);
    lemma_drop_balance(end, release, replies);
    lemma_acquired_in_concat(before, last);
    lemma_released_in_concat(before, last);
    assert forall|v: Resource| acquired_in(life).count(v) == released_in(life).count(v) by {
        assert(builder.holds().add(acquired_in(before)).count(v) == end.holds().add(
            released_in(before),
        ).count(v));
    }
}

} // verus!

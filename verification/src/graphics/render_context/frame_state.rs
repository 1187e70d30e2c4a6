use crate::graphics::mesh::Mesh;
use crate::graphics::render_context::command::{background, Command, DEPTH_FAR};
use crate::graphics::render_context::frame::{
    draw_commands,
    frame_commands,
    growth_commands,
    pass_commands,
    rebuild_commands,
};
use crate::graphics::render_context::render_operation::RenderOperation;
use crate::graphics::render_context::uniform_buffer::GlobalBuffer;
use crate::graphics::texture::Texture;
use vstd::prelude::*;

verus! {

/// How far a frame has come.
#[derive(Clone, Copy, Debug, PartialEq, Eq, Structural)]
pub enum FrameState {
    /// No frame is under way. The pool may grow.
    Idle,
    /// The global buffer holds the camera matrix of the frame. Bind groups
    /// of textures may be built.
    GlobalUpdated,
    /// The bind groups of all textures of the frame are valid, and the
    /// image of the surface is taken.
    TexturesValidated,
    /// The render pass is open, and nothing is drawn yet.
    PassOpen,
    /// The local buffer of an object is written, and the object is being
    /// bound.
    LocalBufferWritten,
    /// An object is drawn.
    Drawn,
    /// The render pass is closed.
    PassClosed,
    /// The commands are with the device's queue.
    Submitted,
    /// The image is shown. The next frame may begin.
    Presented,
}

/// Where a command takes a frame from `state`, or nothing where the
/// command is out of place.
pub open spec fn step(state: FrameState, command: Command) -> Option<FrameState> {
    match (state, command) {
        (FrameState::Idle, Command::CreateLocalBuffer { .. }) => Some(FrameState::Idle),
        (FrameState::Presented, Command::CreateLocalBuffer { .. }) => Some(FrameState::Idle),
        (FrameState::Idle, Command::WriteGlobalBuffer { .. }) => Some(FrameState::GlobalUpdated),
        (FrameState::Presented, Command::WriteGlobalBuffer { .. }) => Some(
            FrameState::GlobalUpdated,
        ),
        (FrameState::GlobalUpdated, Command::CreateTexturesBindGroup { .. }) => Some(
            FrameState::GlobalUpdated,
        ),
        (FrameState::GlobalUpdated, Command::AcquireSurfaceTexture) => Some(
            FrameState::TexturesValidated,
        ),
        (FrameState::TexturesValidated, Command::BeginRenderPass { .. }) => Some(
            FrameState::PassOpen,
        ),
        (FrameState::PassOpen, Command::SetPipeline) => Some(FrameState::PassOpen),
        (FrameState::PassOpen, Command::WriteLocalBuffer { .. }) => Some(
            FrameState::LocalBufferWritten,
        ),
        (FrameState::Drawn, Command::WriteLocalBuffer { .. }) => Some(
            FrameState::LocalBufferWritten,
        ),
        (FrameState::LocalBufferWritten, Command::SetBuffersBindGroup { .. }) => Some(
            FrameState::LocalBufferWritten,
        ),
        (FrameState::LocalBufferWritten, Command::SetTexturesBindGroup { .. }) => Some(
            FrameState::LocalBufferWritten,
        ),
        (FrameState::LocalBufferWritten, Command::SetVertexBuffer { .. }) => Some(
            FrameState::LocalBufferWritten,
        ),
        (FrameState::LocalBufferWritten, Command::SetIndexBuffer { .. }) => Some(
            FrameState::LocalBufferWritten,
        ),
        (FrameState::LocalBufferWritten, Command::DrawIndexed { .. }) => Some(FrameState::Drawn),
        (FrameState::PassOpen, Command::EndRenderPass) => Some(FrameState::PassClosed),
        (FrameState::Drawn, Command::EndRenderPass) => Some(FrameState::PassClosed),
        (FrameState::PassClosed, Command::Submit) => Some(FrameState::Submitted),
        (FrameState::Submitted, Command::Present) => Some(FrameState::Presented),
        _ => None,
    }
}

/// Where `commands`, one after the other, take a frame from `state`, or
/// nothing where one of them is out of place.
pub open spec fn run(state: FrameState, commands: Seq<Command>) -> Option<FrameState>
    decreases commands.len(),
{
    if commands.len() == 0 {
        Some(state)
    } else {
        match run(state, commands.drop_last()) {
            Some(reached) => step(reached, commands.last()),
            None => None,
        }
    }
}

impl FrameState {
    /// Where `command` takes a frame from this state, or nothing where the
    /// command is out of place.
    pub fn advance(self, command: &Command) -> (next: Option<FrameState>)
        ensures
            next == step(self, *command),
    {
        match (self, command) {
            (FrameState::Idle, Command::CreateLocalBuffer { .. }) => Some(FrameState::Idle),
            (FrameState::Presented, Command::CreateLocalBuffer { .. }) => Some(FrameState::Idle),
            (FrameState::Idle, Command::WriteGlobalBuffer { .. }) => Some(
                FrameState::GlobalUpdated,
            ),
            (FrameState::Presented, Command::WriteGlobalBuffer { .. }) => Some(
                FrameState::GlobalUpdated,
            ),
            (FrameState::GlobalUpdated, Command::CreateTexturesBindGroup { .. }) => Some(
                FrameState::GlobalUpdated,
            ),
            (FrameState::GlobalUpdated, Command::AcquireSurfaceTexture) => Some(
                FrameState::TexturesValidated,
            ),
            (FrameState::TexturesValidated, Command::BeginRenderPass { .. }) => Some(
                FrameState::PassOpen,
            ),
            (FrameState::PassOpen, Command::SetPipeline) => Some(FrameState::PassOpen),
            (FrameState::PassOpen, Command::WriteLocalBuffer { .. }) => Some(
                FrameState::LocalBufferWritten,
            ),
            (FrameState::Drawn, Command::WriteLocalBuffer { .. }) => Some(
                FrameState::LocalBufferWritten,
            ),
            (FrameState::LocalBufferWritten, Command::SetBuffersBindGroup { .. }) => Some(
                FrameState::LocalBufferWritten,
            ),
            (FrameState::LocalBufferWritten, Command::SetTexturesBindGroup { .. }) => Some(
                FrameState::LocalBufferWritten,
            ),
            (FrameState::LocalBufferWritten, Command::SetVertexBuffer { .. }) => Some(
                FrameState::LocalBufferWritten,
            ),
            (FrameState::LocalBufferWritten, Command::SetIndexBuffer { .. }) => Some(
                FrameState::LocalBufferWritten,
            ),
            (FrameState::LocalBufferWritten, Command::DrawIndexed { .. }) => Some(
                FrameState::Drawn,
            ),
            (FrameState::PassOpen, Command::EndRenderPass) => Some(FrameState::PassClosed),
            (FrameState::Drawn, Command::EndRenderPass) => Some(FrameState::PassClosed),
            (FrameState::PassClosed, Command::Submit) => Some(FrameState::Submitted),
            (FrameState::Submitted, Command::Present) => Some(FrameState::Presented),
            _ => None,
        }
    }

    /// Where `commands`, one after the other, take a frame from this
    /// state, or nothing where one of them is out of place.
    pub fn follow(self, commands: &[Command]) -> (reached: Option<FrameState>)
        ensures
            reached == run(self, commands@),
    {
        let mut state = self;
        let mut done: usize = 0;
        while done < commands.len()
            invariant
                done <= commands.len(),
                run(self, commands@.take(done as int)) == Some(state),
            decreases commands.len() - done,
        {
            proof {
                assert(commands@.take(done + 1).drop_last() =~= commands@.take(done as int));
            }
            match state.advance(&commands[done]) {
                Some(next) => {
                    state = next;
                },
                None => {
                    proof {
                        lemma_run_stops(
                            self,
                            commands@.take(done + 1),
                            commands@.skip(done + 1),
                        );
                        assert(commands@.take(done + 1) + commands@.skip(done + 1) =~= commands@);
                    }
                    return None;
                },
            }
            done = done + 1;
        }
        assert(commands@.take(done as int) =~= commands@);
        Some(state)
    }
}

/// Commands that are out of place stay out of place, whatever follows
/// them.
pub proof fn lemma_run_stops(state: FrameState, first: Seq<Command>, second: Seq<Command>)
    requires
        run(state, first) is None,
    ensures
        run(state, first + second) is None,
{
    lemma_run_in_parts(state, first, second);
}

/// To run commands and then more commands is to run them all.
pub proof fn lemma_run_in_parts(state: FrameState, first: Seq<Command>, second: Seq<Command>)
    ensures
        run(state, first + second) == match run(state, first) {
            Some(reached) => run(reached, second),
            None => None,
        },
    decreases second.len(),
{
    if second.len() == 0 {
        assert(first + second =~= first);
    } else {
        assert((first + second).drop_last() =~= first + second.drop_last());
        lemma_run_in_parts(state, first, second.drop_last());
    }
}

/// Growing the pool leaves a frame where it has not begun.
proof fn lemma_run_growth(first: nat, end: nat)
    ensures
        run(FrameState::Idle, growth_commands(first, end)) == Some(FrameState::Idle),
        run(FrameState::Presented, growth_commands(first, end)) == Some(
            if first < end {
                FrameState::Idle
            } else {
                FrameState::Presented
            },
        ),
    decreases end,
{
    if first < end {
        let commands = growth_commands(first, end);
        assert(commands.drop_last() =~= growth_commands(first, (end - 1) as nat));
        lemma_run_growth(first, (end - 1) as nat);
    }
}

/// Building bind groups leaves a frame where the global buffer is
/// written.
proof fn lemma_run_rebuilds(
    cache: Map<usize, usize>,
    textures: Seq<(Option<Texture>, usize)>,
    operations: Seq<RenderOperation>,
)
    ensures
        run(FrameState::GlobalUpdated, rebuild_commands(cache, textures, operations)) == Some(
            FrameState::GlobalUpdated,
        ),
    decreases operations.len(),
{
    if operations.len() > 0 {
        lemma_run_rebuilds(cache, textures, operations.drop_last());
        let before = rebuild_commands(cache, textures, operations.drop_last());
        let all = rebuild_commands(cache, textures, operations);
        if all != before {
            assert(all.drop_last() =~= before);
        }
    }
}

/// Drawing the operations of a frame takes the open pass to a drawn
/// object, or leaves it open where there is nothing to draw.
proof fn lemma_run_pass(
    meshes: Seq<(Option<Mesh>, usize)>,
    textures: Seq<(Option<Texture>, usize)>,
    operations: Seq<RenderOperation>,
)
    ensures
        run(FrameState::PassOpen, pass_commands(meshes, textures, operations)) == Some(
            if operations.len() == 0 {
                FrameState::PassOpen
            } else {
                FrameState::Drawn
            },
        ),
    decreases operations.len(),
{
    if operations.len() > 0 {
        let earlier = operations.drop_last();
        lemma_run_pass(meshes, textures, earlier);
        let six = draw_commands(
            meshes,
            textures,
            operations.last(),
            (operations.len() - 1) as usize,
        );
        lemma_run_in_parts(FrameState::PassOpen, pass_commands(meshes, textures, earlier), six);
        lemma_run_draw(FrameState::PassOpen, six);
        lemma_run_draw(FrameState::Drawn, six);
    }
}

/// The six commands of an object take an open pass, or a drawn object, to
/// a drawn object.
proof fn lemma_run_draw(state: FrameState, six: Seq<Command>)
    requires
        state == FrameState::PassOpen || state == FrameState::Drawn,
        six.len() == 6,
        six[0] is WriteLocalBuffer,
        six[1] is SetBuffersBindGroup,
        six[2] is SetTexturesBindGroup,
        six[3] is SetVertexBuffer,
        six[4] is SetIndexBuffer,
        six[5] is DrawIndexed,
    ensures
        run(state, six) == Some(FrameState::Drawn),
{
    let five = six.drop_last();
    let four = five.drop_last();
    let three = four.drop_last();
    let two = three.drop_last();
    let one = two.drop_last();
    let none = one.drop_last();
    assert(run(state, none) == Some(state));
    assert(run(state, one) == Some(FrameState::LocalBufferWritten));
    assert(run(state, two) == Some(FrameState::LocalBufferWritten));
    assert(run(state, three) == Some(FrameState::LocalBufferWritten));
    assert(run(state, four) == Some(FrameState::LocalBufferWritten));
    assert(run(state, five) == Some(FrameState::LocalBufferWritten));
}

/// Three commands in a row take a frame through three steps.
proof fn lemma_run_three(state: FrameState, three: Seq<Command>)
    requires
        three.len() == 3,
    ensures
        run(state, three) == match step(state, three[0]) {
            Some(first) => match step(first, three[1]) {
                Some(second) => step(second, three[2]),
                None => None,
            },
            None => None,
        },
{
    let two = three.drop_last();
    let one = two.drop_last();
    lemma_run_one(state, one);
    assert(one[0] == three[0]);
    assert(two.last() == three[1]);
    assert(three.last() == three[2]);
    assert(run(state, two) == match run(state, one) {
        Some(reached) => step(reached, two.last()),
        None => None,
    });
}

/// One command takes a frame one step.
proof fn lemma_run_one(state: FrameState, one: Seq<Command>)
    requires
        one.len() == 1,
    ensures
        run(state, one) == step(state, one[0]),
{
    let none = one.drop_last();
    assert(none.len() == 0);
    assert(run(state, none) == Some(state));
    assert(one.last() == one[0]);
}

/// The commands of a frame follow each other as a frame has to go: from
/// rest through the update of the global buffer, the bind groups of the
/// textures, the open pass with its draws, the closed pass and the
/// submission to the image that is shown. A frame can follow a frame.
pub proof fn lemma_frame_runs_through(
    start: FrameState,
    pool_len: nat,
    cache: Map<usize, usize>,
    meshes: Seq<(Option<Mesh>, usize)>,
    textures: Seq<(Option<Texture>, usize)>,
    model_view_projection: [[u32; 4]; 4],
    operations: Seq<RenderOperation>,
)
    requires
        start == FrameState::Idle || start == FrameState::Presented,
    ensures
        run(
            start,
            frame_commands(pool_len, cache, meshes, textures, model_view_projection, operations),
        ) == Some(FrameState::Presented),
{
    let growth = growth_commands(pool_len, operations.len());
    let global = seq![
        Command::WriteGlobalBuffer { contents: GlobalBuffer { mvp: model_view_projection } },
    ];
    let rebuilds = rebuild_commands(cache, textures, operations);
    let opening = seq![
        Command::AcquireSurfaceTexture,
        Command::BeginRenderPass { clear_color: background(), clear_depth: DEPTH_FAR },
        Command::SetPipeline,
    ];
    let pass = pass_commands(meshes, textures, operations);
    let closing = seq![Command::EndRenderPass, Command::Submit, Command::Present];
    lemma_run_growth(pool_len, operations.len());
    let grown = run(start, growth).unwrap();
    assert(grown == FrameState::Idle || grown == FrameState::Presented);
    assert(run(grown, global) == Some(FrameState::GlobalUpdated)) by {
        lemma_run_one(grown, global);
    }
    lemma_run_in_parts(start, growth, global);
    lemma_run_rebuilds(cache, textures, operations);
    lemma_run_in_parts(start, growth + global, rebuilds);
    lemma_run_three(FrameState::GlobalUpdated, opening);
    lemma_run_in_parts(start, growth + global + rebuilds, opening);
    lemma_run_pass(meshes, textures, operations);
    lemma_run_in_parts(start, growth + global + rebuilds + opening, pass);
    lemma_run_three(FrameState::PassOpen, closing);
    lemma_run_three(FrameState::Drawn, closing);
    lemma_run_in_parts(start, growth + global + rebuilds + opening + pass, closing);
}

} // verus!

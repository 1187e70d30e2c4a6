use crate::graphics::buffer::native_bytes;
use crate::graphics::mesh::Mesh;
use crate::graphics::render_context::bind_group_cache::{
    entry_is_valid,
    revalidated,
    BindGroupCache,
    TexturesBindGroup,
};
use crate::graphics::render_context::command::{background, Command, DEPTH_FAR};
use crate::graphics::render_context::render_operation::{
    material_texture,
    material_window,
    raw_operation,
    RawRenderOperation,
    RenderOperation,
};
use crate::graphics::render_context::uniform_buffer::{GlobalBuffer, LocalBuffer};
use crate::graphics::texture::Texture;
use crate::graphics::mesh::Vertex;
use crate::util::repository::{
    slot_generation,
    slot_resource,
    Repository,
    ResourceId,
};
use vstd::prelude::*;

verus! {

/// The texture slot that an operation samples.
pub open spec fn texture_slot(operation: RenderOperation) -> usize {
    material_texture(operation.material).index
}

/// The bind group of the textures of an operation, built from what the
/// texture slots hold now.
pub open spec fn current_group(
    textures: Seq<(Option<Texture>, usize)>,
    operation: RenderOperation,
) -> TexturesBindGroup {
    TexturesBindGroup {
        texture_ids: raw_operation(operation).texture_group_ids,
        generations: [slot_generation(textures, texture_slot(operation) as int) as usize],
    }
}

/// The number of indices in the index buffer of the mesh behind `mesh_id`.
pub open spec fn index_count(meshes: Seq<(Option<Mesh>, usize)>, mesh_id: ResourceId<Mesh>) -> nat {
    match slot_resource(meshes, mesh_id.index as int) {
        Some(mesh) => mesh.indices(),
        None => 0,
    }
}

/// Whether the mesh and the texture of every operation exist.
pub open spec fn resolvable(
    meshes: Seq<(Option<Mesh>, usize)>,
    textures: Seq<(Option<Texture>, usize)>,
    operations: Seq<RenderOperation>,
) -> bool {
    forall|i: int|
        0 <= i < operations.len() ==> {
            &&& slot_resource(meshes, (#[trigger] operations[i]).mesh_id.index as int) is Some
            &&& slot_resource(textures, texture_slot(operations[i]) as int) is Some
        }
}

/// The commands that create the local buffers of the pool slots from
/// `first` up to `end`.
pub open spec fn growth_commands(first: nat, end: nat) -> Seq<Command> {
    Seq::new(
        if first < end {
            (end - first) as nat
        } else {
            0
        },
        |i: int| Command::CreateLocalBuffer { slot: (first + i) as usize },
    )
}

/// The cache after the bind groups of `operations` were made valid, one
/// operation after the other.
pub open spec fn validated(
    cache: Map<usize, usize>,
    textures: Seq<(Option<Texture>, usize)>,
    operations: Seq<RenderOperation>,
) -> Map<usize, usize>
    decreases operations.len(),
{
    if operations.len() == 0 {
        cache
    } else {
        revalidated(
            validated(cache, textures, operations.drop_last()),
            textures,
            texture_slot(operations.last()),
        )
    }
}

/// The commands that build the bind groups that `operations` need and that
/// the cache does not hold, or holds from an earlier texture: each is built
/// where the first operation asks for it.
pub open spec fn rebuild_commands(
    cache: Map<usize, usize>,
    textures: Seq<(Option<Texture>, usize)>,
    operations: Seq<RenderOperation>,
) -> Seq<Command>
    decreases operations.len(),
{
    if operations.len() == 0 {
        Seq::empty()
    } else {
        let earlier = operations.drop_last();
        let last = operations.last();
        if entry_is_valid(validated(cache, textures, earlier), textures, texture_slot(last)) {
            rebuild_commands(cache, textures, earlier)
        } else {
            rebuild_commands(cache, textures, earlier).push(
                Command::CreateTexturesBindGroup { group: current_group(textures, last) },
            )
        }
    }
}

/// The six commands that draw one operation with the buffer of the pool
/// slot `slot`.
pub open spec fn draw_commands(
    meshes: Seq<(Option<Mesh>, usize)>,
    textures: Seq<(Option<Texture>, usize)>,
    operation: RenderOperation,
    slot: usize,
) -> Seq<Command> {
    seq![
        Command::WriteLocalBuffer {
            slot,
            contents: LocalBuffer {
                transform: operation.transform,
                uv_window: material_window(operation.material),
            },
        },
        Command::SetBuffersBindGroup { slot },
        Command::SetTexturesBindGroup { group: current_group(textures, operation) },
        Command::SetVertexBuffer { mesh_id: operation.mesh_id },
        Command::SetIndexBuffer { mesh_id: operation.mesh_id },
        Command::DrawIndexed {
            index_count: index_count(meshes, operation.mesh_id) as u32,
            instance_count: 1,
        },
    ]
}

/// The commands inside the render pass: the operations are drawn in the
/// order of the list, the operation at place `i` with the pool slot `i`.
pub open spec fn pass_commands(
    meshes: Seq<(Option<Mesh>, usize)>,
    textures: Seq<(Option<Texture>, usize)>,
    operations: Seq<RenderOperation>,
) -> Seq<Command>
    decreases operations.len(),
{
    if operations.len() == 0 {
        Seq::empty()
    } else {
        pass_commands(meshes, textures, operations.drop_last()) + draw_commands(
            meshes,
            textures,
            operations.last(),
            (operations.len() - 1) as usize,
        )
    }
}

/// The commands of a frame, in order: the pool grows to the length of the
/// list, the camera matrix goes into the global buffer, the bind groups of
/// the textures are made valid, the render pass is opened, every operation
/// is drawn, and the pass is closed, submitted and presented.
pub open spec fn frame_commands(
    pool_len: nat,
    cache: Map<usize, usize>,
    meshes: Seq<(Option<Mesh>, usize)>,
    textures: Seq<(Option<Texture>, usize)>,
    model_view_projection: [[u32; 4]; 4],
    operations: Seq<RenderOperation>,
) -> Seq<Command> {
    growth_commands(pool_len, operations.len()) + seq![
        Command::WriteGlobalBuffer { contents: GlobalBuffer { mvp: model_view_projection } },
    ] + rebuild_commands(cache, textures, operations) + seq![
        Command::AcquireSurfaceTexture,
        Command::BeginRenderPass { clear_color: background(), clear_depth: DEPTH_FAR },
        Command::SetPipeline,
    ] + pass_commands(meshes, textures, operations) + seq![
        Command::EndRenderPass,
        Command::Submit,
        Command::Present,
    ]
}

/// Appends the commands that create the local buffers of the pool slots
/// from `first` up to `end`.
pub(crate) fn push_growth(commands: &mut Vec<Command>, first: usize, end: usize)
    ensures
        final(commands)@ == old(commands)@ + growth_commands(first as nat, end as nat),
{
    let mut slot: usize = first;
    while slot < end
        invariant
            first <= slot,
            first < end ==> slot <= end,
            first >= end ==> slot == first,
            commands@ == old(commands)@ + growth_commands(first as nat, slot as nat),
        decreases end - slot,
    {
        commands.push(Command::CreateLocalBuffer { slot });
        slot = slot + 1;
    }
    assert(growth_commands(first as nat, slot as nat) =~= growth_commands(first as nat, end as nat));
}

/// Makes the bind groups of the textures of `operations` valid, and appends
/// a command for each that had to be built.
pub(crate) fn validate_textures(
    cache: &mut BindGroupCache,
    textures: &Repository<Texture>,
    operations: &[RenderOperation],
    commands: &mut Vec<Command>,
)
    requires
        forall|i: int|
            0 <= i < operations@.len() ==> slot_resource(
                textures@,
                texture_slot(#[trigger] operations@[i]) as int,
            ) is Some,
    ensures
        final(cache)@ == validated(old(cache)@, textures@, operations@),
        final(commands)@ == old(commands)@ + rebuild_commands(old(cache)@, textures@, operations@),
{
    let mut done: usize = 0;
    while done < operations.len()
        invariant
            done <= operations.len(),
            forall|i: int|
                0 <= i < operations@.len() ==> slot_resource(
                    textures@,
                    texture_slot(#[trigger] operations@[i]) as int,
                ) is Some,
            cache@ == validated(old(cache)@, textures@, operations@.take(done as int)),
            commands@ == old(commands)@ + rebuild_commands(
                old(cache)@,
                textures@,
                operations@.take(done as int),
            ),
        decreases operations.len() - done,
    {
        let raw = RawRenderOperation::from(operations[done]);
        let rebuilt = cache.ensure_valid(raw.texture_group_ids, textures);
        if rebuilt {
            let generation: usize = textures.get_generation(raw.texture_group_ids[0]);
            let group = TexturesBindGroup {
                texture_ids: raw.texture_group_ids,
                generations: [generation],
            };
            commands.push(Command::CreateTexturesBindGroup { group });
        }
        assert(operations@.take(done + 1).drop_last() =~= operations@.take(done as int));
        done = done + 1;
    }
    assert(operations@.take(done as int) =~= operations@);
}

/// Appends the commands that draw `operations`, one after the other.
pub(crate) fn push_pass(
    commands: &mut Vec<Command>,
    meshes: &Repository<Mesh>,
    textures: &Repository<Texture>,
    operations: &[RenderOperation],
)
    requires
        resolvable(meshes@, textures@, operations@),
    ensures
        final(commands)@ == old(commands)@ + pass_commands(meshes@, textures@, operations@),
{
    let mut index: usize = 0;
    while index < operations.len()
        invariant
            index <= operations.len(),
            resolvable(meshes@, textures@, operations@),
            commands@ == old(commands)@ + pass_commands(
                meshes@,
                textures@,
                operations@.take(index as int),
            ),
        decreases operations.len() - index,
    {
        let operation = operations[index];
        let raw = RawRenderOperation::from(operation);
        let local_buffer = LocalBuffer { transform: raw.transform, uv_window: raw.uv_windows[0] };
        commands.push(Command::WriteLocalBuffer { slot: index, contents: local_buffer });
        commands.push(Command::SetBuffersBindGroup { slot: index });
        let generation: usize = textures.get_generation(raw.texture_group_ids[0]);
        let group = TexturesBindGroup { texture_ids: raw.texture_group_ids, generations: [generation] };
        commands.push(Command::SetTexturesBindGroup { group });
        commands.push(Command::SetVertexBuffer { mesh_id: raw.mesh_id });
        commands.push(Command::SetIndexBuffer { mesh_id: raw.mesh_id });
        let count: u32 = match meshes.get(raw.mesh_id) {
            Some(mesh) => mesh.index_count(),
            None => 0,
        };
        commands.push(Command::DrawIndexed { index_count: count, instance_count: 1 });
        assert(operations@.take(index + 1).drop_last() =~= operations@.take(index as int));
        index = index + 1;
    }
    assert(operations@.take(index as int) =~= operations@);
}

/// Whether one of `operations` samples the texture in slot `key`.
pub open spec fn samples(operations: Seq<RenderOperation>, key: usize) -> bool {
    exists|i: int| 0 <= i < operations.len() && texture_slot(#[trigger] operations[i]) == key
}

/// After the bind groups of a frame were made valid, the bind group of
/// every texture that the frame samples is valid, and the bind groups of
/// all other textures are as they were.
pub proof fn lemma_validated_entries(
    cache: Map<usize, usize>,
    textures: Seq<(Option<Texture>, usize)>,
    operations: Seq<RenderOperation>,
    key: usize,
)
    ensures
        samples(operations, key) ==> entry_is_valid(
            validated(cache, textures, operations),
            textures,
            key,
        ),
        !samples(operations, key) ==> {
            &&& validated(cache, textures, operations).contains_key(key) == cache.contains_key(
                key,
            )
            &&& cache.contains_key(key) ==> validated(cache, textures, operations)[key]
                == cache[key]
        },
    decreases operations.len(),
{
    if operations.len() > 0 {
        let earlier = operations.drop_last();
        lemma_validated_entries(cache, textures, earlier, key);
        if samples(operations, key) {
            let i = choose|i: int|
                0 <= i < operations.len() && texture_slot(#[trigger] operations[i]) == key;
            if i < operations.len() - 1 {
                assert(earlier[i] == operations[i]);
                assert(samples(earlier, key));
            }
        } else {
            assert(texture_slot(operations[operations.len() - 1]) != key);
            if samples(earlier, key) {
                let i = choose|i: int|
                    0 <= i < earlier.len() && texture_slot(#[trigger] earlier[i]) == key;
                assert(operations[i] == earlier[i]);
            }
        }
    }
}

/// A bind group that is valid stays valid while the bind groups of a frame
/// are made valid.
pub proof fn lemma_validated_keeps_valid(
    cache: Map<usize, usize>,
    textures: Seq<(Option<Texture>, usize)>,
    operations: Seq<RenderOperation>,
    key: usize,
)
    requires
        entry_is_valid(cache, textures, key),
    ensures
        entry_is_valid(validated(cache, textures, operations), textures, key),
    decreases operations.len(),
{
    if operations.len() > 0 {
        lemma_validated_keeps_valid(cache, textures, operations.drop_last(), key);
    }
}

/// A frame builds no bind group where the bind groups of all the textures
/// that it samples are valid.
pub proof fn lemma_valid_cache_builds_nothing(
    cache: Map<usize, usize>,
    textures: Seq<(Option<Texture>, usize)>,
    operations: Seq<RenderOperation>,
)
    requires
        forall|i: int|
            0 <= i < operations.len() ==> entry_is_valid(
                cache,
                textures,
                texture_slot(#[trigger] operations[i]),
            ),
    ensures
        rebuild_commands(cache, textures, operations) == Seq::<Command>::empty(),
    decreases operations.len(),
{
    if operations.len() > 0 {
        let earlier = operations.drop_last();
        assert forall|i: int| 0 <= i < earlier.len() implies entry_is_valid(
            cache,
            textures,
            texture_slot(#[trigger] earlier[i]),
        ) by {
            assert(earlier[i] == operations[i]);
        }
        lemma_valid_cache_builds_nothing(cache, textures, earlier);
        lemma_validated_keeps_valid(cache, textures, earlier, texture_slot(operations.last()));
    }
}

/// The frame after a frame builds no bind group, as long as no texture was
/// replaced in between and the second frame samples no texture that the
/// first did not: bind groups are built once and used again.
pub proof fn lemma_next_frame_builds_nothing(
    cache: Map<usize, usize>,
    textures: Seq<(Option<Texture>, usize)>,
    first: Seq<RenderOperation>,
    second: Seq<RenderOperation>,
)
    requires
        forall|i: int|
            0 <= i < second.len() ==> samples(first, texture_slot(#[trigger] second[i])),
    ensures
        rebuild_commands(validated(cache, textures, first), textures, second) == Seq::<
            Command,
        >::empty(),
{
    assert forall|i: int| 0 <= i < second.len() implies entry_is_valid(
        validated(cache, textures, first),
        textures,
        texture_slot(#[trigger] second[i]),
    ) by {
        lemma_validated_entries(cache, textures, first, texture_slot(second[i]));
    }
    lemma_valid_cache_builds_nothing(validated(cache, textures, first), textures, second);
}

/// A frame that samples a texture whose bind group is stale, or was never
/// built, builds that bind group, from what the texture slot holds now.
pub proof fn lemma_stale_entry_is_rebuilt(
    cache: Map<usize, usize>,
    textures: Seq<(Option<Texture>, usize)>,
    operations: Seq<RenderOperation>,
    i: int,
)
    requires
        0 <= i < operations.len(),
        !entry_is_valid(cache, textures, texture_slot(operations[i])),
    ensures
        exists|j: int|
            0 <= j <= i && texture_slot(operations[j]) == texture_slot(operations[i])
                && rebuild_commands(cache, textures, operations).contains(
                Command::CreateTexturesBindGroup {
                    group: #[trigger] current_group(textures, operations[j]),
                },
            ),
    decreases operations.len(),
{
    let earlier = operations.drop_last();
    let last = operations.last();
    let key = texture_slot(operations[i]);
    let all = rebuild_commands(cache, textures, operations);
    let before = rebuild_commands(cache, textures, earlier);
    if i < operations.len() - 1 {
        assert(earlier[i] == operations[i]);
        lemma_stale_entry_is_rebuilt(cache, textures, earlier, i);
        let j = choose|j: int|
            0 <= j <= i && texture_slot(earlier[j]) == texture_slot(earlier[i])
                && before.contains(
                Command::CreateTexturesBindGroup {
                    group: #[trigger] current_group(textures, earlier[j]),
                },
            );
        assert(earlier[j] == operations[j]);
        let command = Command::CreateTexturesBindGroup {
            group: current_group(textures, operations[j]),
        };
        let at = choose|at: int| 0 <= at < before.len() && before[at] == command;
        if all != before {
            assert(all[at] == before[at]);
        }
        assert(all.contains(command));
    } else {
        if entry_is_valid(validated(cache, textures, earlier), textures, key) {
            // An earlier operation sampled the texture and built the bind group.
            lemma_validated_entries(cache, textures, earlier, key);
            assert(samples(earlier, key));
            let k = choose|k: int| 0 <= k < earlier.len() && texture_slot(#[trigger] earlier[k]) == key;
            assert(earlier[k] == operations[k]);
            lemma_stale_entry_is_rebuilt(cache, textures, earlier, k);
            let j = choose|j: int|
                0 <= j <= k && texture_slot(earlier[j]) == texture_slot(earlier[k])
                    && before.contains(
                    Command::CreateTexturesBindGroup {
                        group: #[trigger] current_group(textures, earlier[j]),
                    },
                );
            assert(earlier[j] == operations[j]);
            assert(all == before);
        } else {
            let command = Command::CreateTexturesBindGroup {
                group: current_group(textures, last),
            };
            assert(all == before.push(command));
            assert(all[all.len() - 1] == command);
            assert(all.contains(command));
        }
    }
}

/// A frame builds a bind group only where it is needed: each one that it
/// builds is for an operation whose bind group was stale, or missing, when
/// the frame began, and which is the first of the frame to sample its
/// texture.
pub proof fn lemma_rebuilds_only_stale(
    cache: Map<usize, usize>,
    textures: Seq<(Option<Texture>, usize)>,
    operations: Seq<RenderOperation>,
    k: int,
)
    requires
        0 <= k < rebuild_commands(cache, textures, operations).len(),
    ensures
        exists|j: int|
            {
                &&& 0 <= j < operations.len()
                &&& rebuild_commands(cache, textures, operations)[k]
                    == (Command::CreateTexturesBindGroup {
                    group: #[trigger] current_group(textures, operations[j]),
                })
                &&& !entry_is_valid(cache, textures, texture_slot(operations[j]))
                &&& !samples(operations.take(j), texture_slot(operations[j]))
            },
    decreases operations.len(),
{
    let earlier = operations.drop_last();
    let last = operations.last();
    let before = rebuild_commands(cache, textures, earlier);
    if k < before.len() {
        lemma_rebuilds_only_stale(cache, textures, earlier, k);
        let j = choose|j: int|
            {
                &&& 0 <= j < earlier.len()
                &&& before[k] == (Command::CreateTexturesBindGroup {
                    group: #[trigger] current_group(textures, earlier[j]),
                })
                &&& !entry_is_valid(cache, textures, texture_slot(earlier[j]))
                &&& !samples(earlier.take(j), texture_slot(earlier[j]))
            };
        assert(earlier[j] == operations[j]);
        assert(earlier.take(j) =~= operations.take(j));
    } else {
        let j = operations.len() - 1;
        let key = texture_slot(last);
        assert(operations.take(j) =~= earlier);
        if entry_is_valid(cache, textures, key) {
            lemma_validated_keeps_valid(cache, textures, earlier, key);
        }
        if samples(earlier, key) {
            lemma_validated_entries(cache, textures, earlier, key);
        }
    }
}

/// The commands inside the render pass come in sixes, one six for each
/// operation, in the order of the list: the six at place `i` draw the
/// operation at place `i` with the pool slot `i`.
pub proof fn lemma_pass_draws_in_order(
    meshes: Seq<(Option<Mesh>, usize)>,
    textures: Seq<(Option<Texture>, usize)>,
    operations: Seq<RenderOperation>,
    i: int,
)
    requires
        0 <= i < operations.len(),
    ensures
        pass_commands(meshes, textures, operations).len() == 6 * operations.len(),
        pass_commands(meshes, textures, operations).subrange(6 * i, 6 * i + 6) == draw_commands(
            meshes,
            textures,
            operations[i],
            i as usize,
        ),
    decreases operations.len(),
{
    let earlier = operations.drop_last();
    let all = pass_commands(meshes, textures, operations);
    lemma_pass_len(meshes, textures, operations);
    lemma_pass_len(meshes, textures, earlier);
    if i < operations.len() - 1 {
        lemma_pass_draws_in_order(meshes, textures, earlier, i);
        assert(earlier[i] == operations[i]);
        assert(all.subrange(6 * i, 6 * i + 6) =~= pass_commands(
            meshes,
            textures,
            earlier,
        ).subrange(6 * i, 6 * i + 6));
    } else {
        assert(all.subrange(6 * i, 6 * i + 6) =~= draw_commands(
            meshes,
            textures,
            operations[i],
            i as usize,
        ));
    }
}

/// The render pass holds six commands for each operation.
pub proof fn lemma_pass_len(
    meshes: Seq<(Option<Mesh>, usize)>,
    textures: Seq<(Option<Texture>, usize)>,
    operations: Seq<RenderOperation>,
)
    ensures
        pass_commands(meshes, textures, operations).len() == 6 * operations.len(),
    decreases operations.len(),
{
    if operations.len() > 0 {
        lemma_pass_len(meshes, textures, operations.drop_last());
    }
}

/// A mesh that was loaded from `indices` and is then drawn gives a draw
/// call that covers as many indices as were loaded, once.
///
/// `meshes` are the meshes after the loading, `id` is the slot that the
/// mesh went into, and the operation at place `i` draws it.
pub proof fn lemma_loaded_mesh_is_drawn_whole(
    meshes: Seq<(Option<Mesh>, usize)>,
    vertices: Seq<Vertex>,
    indices: Seq<u32>,
    id: ResourceId<Mesh>,
    textures: Seq<(Option<Texture>, usize)>,
    operations: Seq<RenderOperation>,
    i: int,
)
    requires
        slot_resource(meshes, id.index as int) matches Some(mesh) && mesh.holds(vertices, indices),
        indices.len() <= u32::MAX,
        0 <= i < operations.len(),
        operations[i].mesh_id == id,
    ensures
        pass_commands(meshes, textures, operations)[6 * i + 5] == (Command::DrawIndexed {
            index_count: indices.len() as u32,
            instance_count: 1,
        }),
{
    lemma_pass_draws_in_order(meshes, textures, operations, i);
    let all = pass_commands(meshes, textures, operations);
    assert(all[6 * i + 5] == all.subrange(6 * i, 6 * i + 6)[5]);
    assert(native_bytes(indices).len() == 4 * indices.len());
}

/// What the draw of an operation names is there when the frame comes to
/// it: the pool holds the slot of the operation, and the bind group of its
/// texture is valid and is the one that the draw binds.
pub proof fn lemma_draws_find_what_they_name(
    pool_len: nat,
    cache: Map<usize, usize>,
    textures: Seq<(Option<Texture>, usize)>,
    operations: Seq<RenderOperation>,
    i: int,
)
    requires
        0 <= i < operations.len(),
    ensures
        i < crate::graphics::render_context::uniform_buffer_pool::grown(
            pool_len,
            operations.len(),
        ),
        entry_is_valid(
            validated(cache, textures, operations),
            textures,
            texture_slot(operations[i]),
        ),
        validated(cache, textures, operations)[texture_slot(operations[i])] == current_group(
            textures,
            operations[i],
        ).generations[0],
{
    lemma_validated_entries(cache, textures, operations, texture_slot(operations[i]));
    assert(samples(operations, texture_slot(operations[i])));
}

} // verus!

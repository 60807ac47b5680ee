//! What is bound on the device while a queue runs.
//!
//! Some commands name the object that they work on; others work on whatever
//! is bound. This module follows the bindings through a sequence of
//! commands and proves, for the sequences that the library issues as a
//! whole, that every command finds bound what it is meant for, whatever was
//! bound before.
use vstd::prelude::*;
use crate::device::{Command, TextureKind, UniformValue};
use crate::framebuffer::{
    color_commands, creation_commands, depth_attach_commands, depth_commands, resize_commands,
    Framebuffer,
};
use crate::mesh::{bind_commands, category_commands, Mesh};
use crate::model::{
    build_commands, geometry_commands, mesh_commands, BindlessModel, ModelHandles, ModelTrait,
    MultiBindModel,
};
use crate::skybox::Skybox;
use crate::texture::{storage_commands, target_commands, Texture, TextureLink};
use crate::vertex::VertexOffsets;
use crate::vertex_array::{attrib_commands, row_commands};

verus! {

/// The objects that commands without a handle work on.
#[derive(Debug, Clone, Copy, PartialEq, Eq, Structural)]
pub struct Bound {
    pub vertex_array: u32,
    pub framebuffer: u32,
    pub program: u32,
}

/// What is bound after one command.
pub open spec fn step(bound: Bound, command: Command) -> Bound {
    match command {
        Command::BindVertexArray { vertex_array } => Bound { vertex_array, ..bound },
        Command::BindFramebuffer { framebuffer } => Bound { framebuffer, ..bound },
        Command::UseProgram { program } => Bound { program, ..bound },
        _ => bound,
    }
}

/// Whether a command finds bound what it is meant for: a draw the vertex
/// array of `want`, an attachment or a clear the framebuffer of `want`, a
/// uniform the program of `want`, a material setting the program that it
/// names. Commands that name their object are always in place.
pub open spec fn admits(bound: Bound, command: Command, want: Bound) -> bool {
    match command {
        Command::DrawElementsInstanced { .. } => bound.vertex_array == want.vertex_array,
        Command::FramebufferTexture2D { .. } => bound.framebuffer == want.framebuffer,
        Command::FramebufferRenderbuffer { .. } => bound.framebuffer == want.framebuffer,
        Command::DrawBuffers { .. } => bound.framebuffer == want.framebuffer,
        Command::ClearDepth => bound.framebuffer == want.framebuffer,
        Command::Uniform { .. } => bound.program == want.program,
        Command::MaterialSampler { program, .. } => bound.program == program,
        Command::MaterialCount { program, .. } => bound.program == program,
        Command::MaterialFallback { program, .. } => bound.program == program,
        _ => true,
    }
}

/// What is bound after a sequence of commands.
pub open spec fn after(bound: Bound, commands: Seq<Command>) -> Bound
    decreases commands.len(),
{
    if commands.len() == 0 {
        bound
    } else {
        step(after(bound, commands.drop_last()), commands.last())
    }
}

/// Whether every command of a sequence finds bound what it is meant for.
pub open spec fn in_order(bound: Bound, commands: Seq<Command>, want: Bound) -> bool
    decreases commands.len(),
{
    if commands.len() == 0 {
        true
    } else {
        &&& in_order(bound, commands.drop_last(), want)
        &&& admits(after(bound, commands.drop_last()), commands.last(), want)
    }
}

/// Running two sequences one after the other is running the second from
/// where the first ends.
pub proof fn lemma_sequence(bound: Bound, first: Seq<Command>, second: Seq<Command>, want: Bound)
    ensures
        after(bound, first + second) == after(after(bound, first), second),
        in_order(bound, first + second, want) == (in_order(bound, first, want) && in_order(
            after(bound, first),
            second,
            want,
        )),
    decreases second.len(),
{
    if second.len() == 0 {
        assert(first + second =~= first);
    } else {
        assert((first + second).drop_last() =~= first + second.drop_last());
        assert((first + second).last() == second.last());
        lemma_sequence(bound, first, second.drop_last(), want);
    }
}

/// One command more: it runs from where the sequence ends.
pub proof fn lemma_push(bound: Bound, commands: Seq<Command>, command: Command, want: Bound)
    ensures
        after(bound, commands.push(command)) == step(after(bound, commands), command),
        in_order(bound, commands.push(command), want) == (in_order(bound, commands, want) && admits(
            after(bound, commands),
            command,
            want,
        )),
{
    assert(commands.push(command).drop_last() =~= commands);
    assert(commands.push(command).last() == command);
}

/// A sequence of one command.
pub proof fn lemma_single(bound: Bound, command: Command, want: Bound)
    ensures
        after(bound, seq![command]) == step(bound, command),
        in_order(bound, seq![command], want) == admits(bound, command, want),
{
    assert(seq![command] =~= Seq::<Command>::empty().push(command));
    lemma_push(bound, Seq::empty(), command, want);
}

/// What is bound after one command.
pub fn advance(bound: Bound, command: &Command) -> (next: Bound)
    ensures
        next == step(bound, *command),
{
    match command {
        Command::BindVertexArray { vertex_array } => Bound {
            vertex_array: *vertex_array,
            framebuffer: bound.framebuffer,
            program: bound.program,
        },
        Command::BindFramebuffer { framebuffer } => Bound {
            vertex_array: bound.vertex_array,
            framebuffer: *framebuffer,
            program: bound.program,
        },
        Command::UseProgram { program } => Bound {
            vertex_array: bound.vertex_array,
            framebuffer: bound.framebuffer,
            program: *program,
        },
        _ => bound,
    }
}

/// Decides whether a command finds bound what it is meant for.
pub fn is_admitted(bound: Bound, command: &Command, want: Bound) -> (admitted: bool)
    ensures
        admitted == admits(bound, *command, want),
{
    match command {
        Command::DrawElementsInstanced { .. } => bound.vertex_array == want.vertex_array,
        Command::FramebufferTexture2D { .. } => bound.framebuffer == want.framebuffer,
        Command::FramebufferRenderbuffer { .. } => bound.framebuffer == want.framebuffer,
        Command::DrawBuffers { .. } => bound.framebuffer == want.framebuffer,
        Command::ClearDepth => bound.framebuffer == want.framebuffer,
        Command::Uniform { .. } => bound.program == want.program,
        Command::MaterialSampler { program, .. } => bound.program == *program,
        Command::MaterialCount { program, .. } => bound.program == *program,
        Command::MaterialFallback { program, .. } => bound.program == *program,
        _ => true,
    }
}

/// Follows the bindings through a queue: whether every command finds
/// bound what it is meant for, and what is bound in the end.
pub fn follow(bound: Bound, queue: &Vec<Command>, want: Bound) -> (result: (bool, Bound))
    ensures
        result.0 == in_order(bound, queue@, want),
        result.1 == after(bound, queue@),
{
    let mut ordered = true;
    let mut current = bound;
    let mut i: usize = 0;
    while i < queue.len()
        invariant
            i <= queue@.len(),
            ordered == in_order(bound, queue@.take(i as int), want),
            current == after(bound, queue@.take(i as int)),
        decreases queue@.len() - i,
    {
        proof {
            lemma_push(bound, queue@.take(i as int), queue@[i as int], want);
            assert(queue@.take(i + 1) =~= queue@.take(i as int).push(queue@[i as int]));
        }
        if !is_admitted(current, &queue[i], want) {
            ordered = false;
        }
        current = advance(current, &queue[i]);
        i += 1;
    }
    assert(queue@.take(queue@.len() as int) =~= queue@);
    (ordered, current)
}

/// Whether a command leaves the bindings as they are and finds bound what
/// it is meant for.
pub open spec fn settled(bound: Bound, command: Command, want: Bound) -> bool {
    step(bound, command) == bound && admits(bound, command, want)
}

/// Whether every command of a sequence is settled under the same bindings.
pub open spec fn all_settled(bound: Bound, commands: Seq<Command>, want: Bound) -> bool {
    forall|i: int| 0 <= i < commands.len() ==> settled(bound, #[trigger] commands[i], want)
}

/// A sequence of settled commands is in order and leaves the bindings as they are.
pub proof fn lemma_settled(bound: Bound, commands: Seq<Command>, want: Bound)
    requires
        all_settled(bound, commands, want),
    ensures
        after(bound, commands) == bound,
        in_order(bound, commands, want),
    decreases commands.len(),
{
    if commands.len() > 0 {
        assert(all_settled(bound, commands.drop_last(), want)) by {
            assert forall|i: int| 0 <= i < commands.drop_last().len() implies settled(
                bound,
                #[trigger] commands.drop_last()[i],
                want,
            ) by {
                assert(commands.drop_last()[i] == commands[i]);
            }
        }
        lemma_settled(bound, commands.drop_last(), want);
        assert(settled(bound, commands[commands.len() - 1], want));
    }
}

/// Settled sequences stay settled when they are put one after the other.
pub proof fn lemma_settled_concat(bound: Bound, first: Seq<Command>, second: Seq<Command>, want: Bound)
    requires
        all_settled(bound, first, want),
        all_settled(bound, second, want),
    ensures
        all_settled(bound, first + second, want),
{
    assert forall|i: int| 0 <= i < (first + second).len() implies settled(
        bound,
        #[trigger] (first + second)[i],
        want,
    ) by {
        if i < first.len() {
            assert((first + second)[i] == first[i]);
        } else {
            assert((first + second)[i] == second[i - first.len()]);
        }
    }
}

/// Declaring attributes needs nothing bound.
pub proof fn lemma_rows_settled(
    bound: Bound,
    want: Bound,
    vertex_array: u32,
    first: u32,
    binding: u32,
    rows: int,
)
    ensures
        all_settled(bound, row_commands(vertex_array, first, binding, rows), want),
    decreases rows,
{
    if rows > 0 {
        lemma_rows_settled(bound, want, vertex_array, first, binding, rows - 1);
        lemma_settled_concat(
            bound,
            row_commands(vertex_array, first, binding, rows - 1),
            attrib_commands(
                vertex_array,
                (first + rows - 1) as u32,
                4,
                ((rows - 1) * crate::vertex_array::ROW_BYTES) as u32,
                crate::device::FLOAT,
                binding,
            ),
            want,
        );
    }
}

/// Building a model needs nothing bound.
pub proof fn lemma_build_settled(
    bound: Bound,
    want: Bound,
    handles: ModelHandles,
    offsets: VertexOffsets,
    vertices: nat,
    indices: nat,
    transforms: nat,
)
    ensures
        all_settled(bound, build_commands(handles, offsets, vertices, indices, transforms), want),
{
    lemma_rows_settled(
        bound,
        want,
        handles.vertex_array,
        crate::model::VERTEX_ATTRIBS,
        1,
        crate::model::TRANSFORM_ROWS as int,
    );
    let rows = row_commands(
        handles.vertex_array,
        crate::model::VERTEX_ATTRIBS,
        1,
        crate::model::TRANSFORM_ROWS as int,
    );
    let all = build_commands(handles, offsets, vertices, indices, transforms);
    let geometry = geometry_commands(
        handles.vertex_array,
        0,
        0,
        handles.vertex_buffer,
        handles.element_buffer,
        offsets,
        vertices,
        indices,
    );
    let head = seq![
        Command::VertexArrayVertexBuffer {
            vertex_array: handles.vertex_array,
            binding: 1,
            buffer: handles.transform_buffer,
        },
    ];
    let tail = seq![
        Command::VertexArrayBindingDivisor { vertex_array: handles.vertex_array, binding: 1, divisor: 1 },
        Command::BufferData { buffer: handles.transform_buffer, count: transforms as usize },
    ];
    assert(all_settled(bound, geometry, want));
    assert(all_settled(bound, head, want));
    assert(all_settled(bound, tail, want));
    lemma_settled_concat(bound, head, rows, want);
    lemma_settled_concat(bound, head + rows, tail, want);
    lemma_settled_concat(bound, geometry, head + rows + tail, want);
    assert(all =~= geometry + (head + rows + tail));
}

/// Binding textures and telling a program of them needs that program current.
pub proof fn lemma_bind_settled(
    bound: Bound,
    want: Bound,
    program: u32,
    kind: TextureKind,
    links: Seq<TextureLink>,
    base: int,
    n: int,
)
    requires
        bound.program == program,
    ensures
        all_settled(bound, bind_commands(program, kind, links, base, n), want),
    decreases n,
{
    if n > 0 {
        lemma_bind_settled(bound, want, program, kind, links, base, n - 1);
        let pair = seq![
            Command::BindTextureUnit { unit: (base + n - 1) as u32, texture: links[n - 1].id },
            Command::MaterialSampler { program, kind, slot: (base + n - 1) as i32 },
        ];
        assert(all_settled(bound, pair, want));
        lemma_settled_concat(bound, bind_commands(program, kind, links, base, n - 1), pair, want);
    }
}

/// All commands for one category of textures need their program current.
pub proof fn lemma_category_settled(
    bound: Bound,
    want: Bound,
    program: u32,
    kind: TextureKind,
    links: Seq<TextureLink>,
    base: int,
    fallback: Option<UniformValue>,
)
    requires
        bound.program == program,
    ensures
        all_settled(bound, category_commands(program, kind, links, base, fallback), want),
{
    lemma_bind_settled(bound, want, program, kind, links, base, links.len() as int);
    let binds = bind_commands(program, kind, links, base, links.len() as int);
    let count = seq![Command::MaterialCount { program, kind, count: links.len() as i32 }];
    let plain: Seq<Command> = match fallback {
        Some(value) if links.len() == 0 => seq![Command::MaterialFallback { program, kind, value }],
        _ => Seq::empty(),
    };
    assert(all_settled(bound, count, want));
    assert(all_settled(bound, plain, want));
    lemma_settled_concat(bound, binds, count, want);
    lemma_settled_concat(bound, binds + count, plain, want);
    assert(category_commands(program, kind, links, base, fallback) =~= binds + count + plain);
}

/// Preparing a program for a mesh needs that program current, and nothing else.
pub proof fn lemma_material_settled(bound: Bound, want: Bound, mesh: Mesh, program: u32)
    requires
        bound.program == program,
    ensures
        all_settled(bound, mesh.material_commands(program), want),
{
    let d = mesh.diffuse_textures@;
    let s = mesh.specular_textures@;
    let n = mesh.normal_textures@;
    let p = mesh.displacement_textures@;
    let h = mesh.shininess_textures@;
    let c1 = category_commands(
        program,
        TextureKind::Diffuse,
        d,
        0,
        Some(UniformValue::Vector3(mesh.diffuse)),
    );
    let c2 = category_commands(
        program,
        TextureKind::Specular,
        s,
        d.len() as int,
        Some(UniformValue::Vector3(mesh.specular)),
    );
    let c3 = category_commands(program, TextureKind::Normal, n, (d.len() + s.len()) as int, None);
    let c4 = category_commands(
        program,
        TextureKind::Displacement,
        p,
        (d.len() + s.len() + n.len()) as int,
        None,
    );
    let c5 = category_commands(
        program,
        TextureKind::Shininess,
        h,
        (d.len() + s.len() + n.len() + p.len()) as int,
        Some(UniformValue::Float(mesh.shininess)),
    );
    lemma_category_settled(
        bound,
        want,
        program,
        TextureKind::Diffuse,
        d,
        0,
        Some(UniformValue::Vector3(mesh.diffuse)),
    );
    lemma_category_settled(
        bound,
        want,
        program,
        TextureKind::Specular,
        s,
        d.len() as int,
        Some(UniformValue::Vector3(mesh.specular)),
    );
    lemma_category_settled(bound, want, program, TextureKind::Normal, n, (d.len() + s.len()) as int, None);
    lemma_category_settled(
        bound,
        want,
        program,
        TextureKind::Displacement,
        p,
        (d.len() + s.len() + n.len()) as int,
        None,
    );
    lemma_category_settled(
        bound,
        want,
        program,
        TextureKind::Shininess,
        h,
        (d.len() + s.len() + n.len() + p.len()) as int,
        Some(UniformValue::Float(mesh.shininess)),
    );
    lemma_settled_concat(bound, c1, c2, want);
    lemma_settled_concat(bound, c1 + c2, c3, want);
    lemma_settled_concat(bound, c1 + c2 + c3, c4, want);
    lemma_settled_concat(bound, c1 + c2 + c3 + c4, c5, want);
}

/// Drawing meshes needs their program current and their vertex array bound.
pub proof fn lemma_meshes_settled(
    bound: Bound,
    want: Bound,
    meshes: Seq<Mesh>,
    program: u32,
    instances: i32,
    n: int,
)
    requires
        bound.program == program,
        bound.vertex_array == want.vertex_array,
        n <= meshes.len(),
    ensures
        all_settled(bound, mesh_commands(meshes, program, instances, n), want),
    decreases n,
{
    if n > 0 {
        lemma_meshes_settled(bound, want, meshes, program, instances, n - 1);
        lemma_material_settled(bound, want, meshes[n - 1], program);
        let draw = seq![
            Command::DrawElementsInstanced {
                count: meshes[n - 1].count(),
                byte_offset: meshes[n - 1].byte_offset() as usize,
                instances,
            },
            Command::ResetActiveTexture,
        ];
        assert(all_settled(bound, draw, want));
        lemma_settled_concat(
            bound,
            mesh_commands(meshes, program, instances, n - 1),
            meshes[n - 1].material_commands(program),
            want,
        );
        lemma_settled_concat(
            bound,
            mesh_commands(meshes, program, instances, n - 1) + meshes[n - 1].material_commands(
                program,
            ),
            draw,
            want,
        );
    }
}

/// A model draws in order whenever its program is current: every draw
/// finds the model's vertex array bound, every material setting the
/// program that it names. Afterwards no vertex array is bound.
pub proof fn lemma_model_draws_in_order(model: MultiBindModel, bound: Bound, want: Bound, program: u32)
    requires
        bound.program == program,
        want.vertex_array == model.vertex_array.handle(),
    ensures
        in_order(bound, model.draw_commands(program), want),
        after(bound, model.draw_commands(program)) == (Bound { vertex_array: 0, ..bound }),
{
    let h = model.vertex_array.handle();
    let bind = seq![Command::BindVertexArray { vertex_array: h }];
    let meshes = mesh_commands(
        model.meshes@,
        program,
        model.transform_buffer.elements().len() as i32,
        model.meshes@.len() as int,
    );
    let unbind = seq![Command::BindVertexArray { vertex_array: 0 }];
    let inside = Bound { vertex_array: h, ..bound };
    lemma_single(bound, Command::BindVertexArray { vertex_array: h }, want);
    lemma_meshes_settled(
        inside,
        want,
        model.meshes@,
        program,
        model.transform_buffer.elements().len() as i32,
        model.meshes@.len() as int,
    );
    lemma_settled(inside, meshes, want);
    lemma_sequence(bound, bind, meshes, want);
    lemma_single(inside, Command::BindVertexArray { vertex_array: 0 }, want);
    lemma_sequence(bound, bind + meshes, unbind, want);
}

/// A model with a command buffer draws in order just as well.
pub proof fn lemma_bindless_model_draws_in_order(
    model: BindlessModel,
    bound: Bound,
    want: Bound,
    program: u32,
)
    requires
        bound.program == program,
        want.vertex_array == model.vertex_array.handle(),
    ensures
        in_order(bound, model.draw_commands(program), want),
        after(bound, model.draw_commands(program)) == (Bound { vertex_array: 0, ..bound }),
{
    let h = model.vertex_array.handle();
    let bind = seq![Command::BindVertexArray { vertex_array: h }];
    let indirect = seq![Command::BindDrawIndirectBuffer { buffer: model.command_buffer.handle() }];
    let meshes = mesh_commands(
        model.meshes@,
        program,
        model.transform_buffer.elements().len() as i32,
        model.meshes@.len() as int,
    );
    let unbind = seq![Command::BindVertexArray { vertex_array: 0 }];
    let inside = Bound { vertex_array: h, ..bound };
    lemma_single(bound, Command::BindVertexArray { vertex_array: h }, want);
    lemma_meshes_settled(
        inside,
        want,
        model.meshes@,
        program,
        model.transform_buffer.elements().len() as i32,
        model.meshes@.len() as int,
    );
    assert(all_settled(inside, indirect, want));
    lemma_settled_concat(inside, indirect, meshes, want);
    lemma_settled(inside, indirect + meshes, want);
    lemma_sequence(bound, bind, indirect + meshes, want);
    lemma_single(inside, Command::BindVertexArray { vertex_array: 0 }, want);
    lemma_sequence(bound, bind + (indirect + meshes), unbind, want);
    assert(model.draw_commands(program) =~= bind + (indirect + meshes) + unbind);
}

/// A framebuffer draws in order whatever was bound before: it binds
/// itself, makes its program current, and draws its quad from the quad's
/// vertex array. Afterwards it is still the render target, its program is
/// current, and no vertex array is bound.
pub proof fn lemma_framebuffer_draws_in_order(
    framebuffer: Framebuffer,
    bound: Bound,
    want: Bound,
    program: u32,
)
    requires
        want.vertex_array == framebuffer.quad_layout(),
    ensures
        in_order(bound, framebuffer.draw_commands(program), want),
        after(bound, framebuffer.draw_commands(program)) == (Bound {
            vertex_array: 0,
            framebuffer: framebuffer.handle(),
            program,
        }),
{
    let bind = Command::BindFramebuffer { framebuffer: framebuffer.handle() };
    let current = Command::UseProgram { program };
    let head = seq![bind, current];
    let ready = Bound { framebuffer: framebuffer.handle(), program, ..bound };
    lemma_single(bound, bind, want);
    lemma_push(bound, seq![bind], current, want);
    assert(head =~= seq![bind].push(current));
    lemma_model_draws_in_order(framebuffer.quad_model(), ready, want, program);
    lemma_sequence(bound, head, framebuffer.quad_model().draw_commands(program), want);
}

/// A backdrop draws in order whatever was bound before.
pub proof fn lemma_skybox_draws_in_order(skybox: Skybox, bound: Bound, want: Bound, program: u32)
    requires
        want.vertex_array == skybox.model.vertex_array.handle(),
    ensures
        in_order(bound, skybox.draw_commands(program), want),
        after(bound, skybox.draw_commands(program)) == (Bound { vertex_array: 0, program, ..bound }),
{
    let relax = Command::DepthFunc { test: crate::device::DepthTest::LessOrEqual };
    let current = Command::UseProgram { program };
    let strict = Command::DepthFunc { test: crate::device::DepthTest::Less };
    let head = seq![relax, current];
    let ready = Bound { program, ..bound };
    lemma_single(bound, relax, want);
    lemma_push(bound, seq![relax], current, want);
    assert(head =~= seq![relax].push(current));
    lemma_model_draws_in_order(skybox.model, ready, want, program);
    lemma_sequence(bound, head, skybox.model.draw_commands(program), want);
    lemma_single(Bound { vertex_array: 0, ..ready }, strict, want);
    lemma_sequence(bound, head + skybox.model.draw_commands(program), seq![strict], want);
}

/// Making render-target textures needs nothing bound.
pub proof fn lemma_target_settled(bound: Bound, want: Bound, texture: u32, width: i32, height: i32)
    ensures
        all_settled(bound, target_commands(texture, width, height), want),
{
}

/// Attaching colour attachments needs their framebuffer bound.
pub proof fn lemma_color_settled(
    bound: Bound,
    want: Bound,
    ids: Seq<u32>,
    first: int,
    width: i32,
    height: i32,
    n: int,
)
    requires
        bound.framebuffer == want.framebuffer,
    ensures
        all_settled(bound, color_commands(ids, first, width, height, n), want),
    decreases n,
{
    if n > 0 {
        lemma_color_settled(bound, want, ids, first, width, height, n - 1);
        lemma_target_settled(bound, want, ids[n - 1], width, height);
        let attach = seq![
            Command::FramebufferTexture2D {
                attachment: (crate::device::COLOR_ATTACHMENT0 + first + n - 1) as u32,
                texture: ids[n - 1],
            },
        ];
        assert(all_settled(bound, attach, want));
        lemma_settled_concat(
            bound,
            color_commands(ids, first, width, height, n - 1),
            target_commands(ids[n - 1], width, height),
            want,
        );
        lemma_settled_concat(
            bound,
            color_commands(ids, first, width, height, n - 1) + target_commands(
                ids[n - 1],
                width,
                height,
            ),
            attach,
            want,
        );
    }
}

/// A framebuffer is set up in order whatever was bound before: every
/// attachment is made while the framebuffer itself is bound. Afterwards the
/// framebuffer is the render target, ready for the device's verdict.
pub proof fn lemma_creation_in_order(
    bound: Bound,
    want: Bound,
    id: u32,
    width: i32,
    height: i32,
    texture_ids: Seq<u32>,
    render_buffer: Option<u32>,
    quad: ModelHandles,
    offsets: VertexOffsets,
)
    requires
        want.framebuffer == id,
    ensures
        in_order(
            bound,
            creation_commands(id, width, height, texture_ids, render_buffer, quad, offsets),
            want,
        ),
        after(
            bound,
            creation_commands(id, width, height, texture_ids, render_buffer, quad, offsets),
        ) == (Bound { framebuffer: id, ..bound }),
{
    let build = build_commands(
        quad,
        offsets,
        crate::model_utils::quad_vertices().len(),
        crate::model_utils::quad_indices().len(),
        1,
    );
    let bind = seq![Command::BindFramebuffer { framebuffer: id }];
    let colors = color_commands(texture_ids, 0, width, height, texture_ids.len() as int);
    let route = seq![Command::DrawBuffers { count: texture_ids.len() as usize }];
    let depth = depth_attach_commands(render_buffer, width, height);
    let inside = Bound { framebuffer: id, ..bound };
    lemma_build_settled(
        bound,
        want,
        quad,
        offsets,
        crate::model_utils::quad_vertices().len(),
        crate::model_utils::quad_indices().len(),
        1,
    );
    lemma_settled(bound, build, want);
    lemma_single(bound, Command::BindFramebuffer { framebuffer: id }, want);
    lemma_sequence(bound, build, bind, want);
    lemma_color_settled(inside, want, texture_ids, 0, width, height, texture_ids.len() as int);
    assert(all_settled(inside, route, want));
    assert(all_settled(inside, depth, want));
    lemma_settled_concat(inside, colors, route, want);
    lemma_settled_concat(inside, colors + route, depth, want);
    lemma_settled(inside, colors + route + depth, want);
    lemma_sequence(bound, build + bind, colors + route + depth, want);
    assert(creation_commands(id, width, height, texture_ids, render_buffer, quad, offsets) =~= (build
        + bind) + (colors + route + depth));
}

/// A pass becomes the render target in order whatever was bound before:
/// its depth values are cleared while its own framebuffer is bound.
pub proof fn lemma_pass_binds_in_order(bound: Bound, want: Bound, width: i32, height: i32, framebuffer: u32)
    requires
        want.framebuffer == framebuffer,
    ensures
        in_order(bound, crate::render_pipeline::pass_commands(width, height, framebuffer), want),
        after(bound, crate::render_pipeline::pass_commands(width, height, framebuffer)) == (Bound {
            framebuffer,
            ..bound
        }),
{
    let view = Command::Viewport { width, height };
    let bind = Command::BindFramebuffer { framebuffer };
    lemma_single(bound, view, want);
    lemma_push(bound, seq![view], bind, want);
    lemma_push(bound, seq![view].push(bind), Command::ClearDepth, want);
    assert(crate::render_pipeline::pass_commands(width, height, framebuffer) =~= seq![view].push(
        bind,
    ).push(Command::ClearDepth));
}

/// Giving textures new storage needs nothing bound.
pub proof fn lemma_resize_settled(
    bound: Bound,
    want: Bound,
    textures: Seq<Texture>,
    width: i32,
    height: i32,
    n: int,
)
    ensures
        all_settled(bound, resize_commands(textures, width, height, n), want),
    decreases n,
{
    if n > 0 {
        lemma_resize_settled(bound, want, textures, width, height, n - 1);
        let one = storage_commands(crate::device::TEXTURE_2D, textures[n - 1].handle(), width, height);
        assert(all_settled(bound, one, want));
        lemma_settled_concat(bound, resize_commands(textures, width, height, n - 1), one, want);
    }
}

/// A framebuffer is resized in order whatever is bound, and nothing that
/// is bound changes: a pass can be resized between any two commands.
pub proof fn lemma_resize_in_order(
    framebuffer: Framebuffer,
    bound: Bound,
    want: Bound,
    width: i32,
    height: i32,
)
    ensures
        in_order(
            bound,
            resize_commands(
                framebuffer.attachments(),
                width,
                height,
                framebuffer.attachments().len() as int,
            ) + depth_commands(framebuffer.depth_stencil(), width, height),
            want,
        ),
        after(
            bound,
            resize_commands(
                framebuffer.attachments(),
                width,
                height,
                framebuffer.attachments().len() as int,
            ) + depth_commands(framebuffer.depth_stencil(), width, height),
        ) == bound,
{
    let textures = resize_commands(
        framebuffer.attachments(),
        width,
        height,
        framebuffer.attachments().len() as int,
    );
    let depth = depth_commands(framebuffer.depth_stencil(), width, height);
    lemma_resize_settled(
        bound,
        want,
        framebuffer.attachments(),
        width,
        height,
        framebuffer.attachments().len() as int,
    );
    assert(all_settled(bound, depth, want));
    lemma_settled_concat(bound, textures, depth, want);
    lemma_settled(bound, textures + depth, want);
}

} // verus!
